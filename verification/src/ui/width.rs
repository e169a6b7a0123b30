//! Terminal column arithmetic for text: how wide a string is on screen and
//! how to cut it to a column budget without splitting a wide character.
//!
//! Widths come from the `unicode-width` crate. What it answers for a string
//! or a character is a function of that text alone, so it is named here
//! (`str_columns`, `char_columns`) and the cutting logic is proved over
//! those names.

use unicode_width::UnicodeWidthChar;
use unicode_width::UnicodeWidthStr;
use vstd::prelude::*;

use crate::text::{chars_of, push_char, string_from_chars};

verus! {

/// Columns `unicode-width` gives a whole string (non-CJK context).
pub uninterp spec fn str_columns(s: Seq<char>) -> usize;

/// Columns `unicode-width` gives one character; `None` for a control
/// character (non-CJK context).
pub uninterp spec fn char_columns(c: char) -> Option<usize>;

/// Trusted: wraps `UnicodeWidthStr::width` on a `str`, whose result depends
/// on the text alone.
#[verifier::external_body]
fn str_width(s: &str) -> (r: usize)
    ensures
        r == str_columns(s@),
{
    UnicodeWidthStr::width(s)
}

/// Trusted: wraps `UnicodeWidthChar::width` on a `char`, whose result
/// depends on the character alone.
#[verifier::external_body]
fn char_width(c: char) -> (r: Option<usize>)
    ensures
        r == char_columns(c),
{
    UnicodeWidthChar::width(c)
}

/// Columns one character takes when cutting text (control characters: 0).
pub open spec fn cols(c: char) -> int {
    match char_columns(c) {
        Some(w) => w as int,
        None => 0,
    }
}

/// How many leading characters of `s` are kept when they are taken in order
/// and the first one that would push the total past `budget` stops the cut.
pub open spec fn fit_front(s: Seq<char>, budget: int) -> nat
    decreases s.len(),
{
    if s.len() == 0 || cols(s[0]) > budget {
        0
    } else {
        1 + fit_front(s.drop_first(), budget - cols(s[0]))
    }
}

/// The same cut taken from the end of `s`.
pub open spec fn fit_back(s: Seq<char>, budget: int) -> nat
    decreases s.len(),
{
    if s.len() == 0 || cols(s.last()) > budget {
        0
    } else {
        1 + fit_back(s.drop_last(), budget - cols(s.last()))
    }
}

/// The columns of a run of characters, each counted as in a cut.
pub open spec fn cols_sum(s: Seq<char>) -> int
    decreases s.len(),
{
    if s.len() == 0 {
        0
    } else {
        cols(s[0]) + cols_sum(s.drop_first())
    }
}

/// A cut keeps as much as fits: the kept characters take at most `budget`
/// columns, and when the cut stops early the next character would not
/// have fit.
pub proof fn lemma_fit_front_is_greatest(s: Seq<char>, budget: int)
    requires
        budget >= 0,
    ensures
        fit_front(s, budget) <= s.len(),
        cols_sum(s.take(fit_front(s, budget) as int)) <= budget,
        fit_front(s, budget) < s.len() ==> cols_sum(s.take(fit_front(s, budget) as int))
            + cols(s[fit_front(s, budget) as int]) > budget,
    decreases s.len(),
{
    if s.len() == 0 || cols(s[0]) > budget {
        assert(s.take(0) =~= Seq::<char>::empty());
    } else {
        let rest = s.drop_first();
        let b = budget - cols(s[0]);
        lemma_fit_front_is_greatest(rest, b);
        let k = fit_front(rest, b) as int;
        assert(s.take(k + 1).drop_first() =~= rest.take(k));
        assert(s.take(k + 1)[0] == s[0]);
        if k < rest.len() {
            assert(rest[k] == s[k + 1]);
        }
    }
}

/// Display width of `s` in terminal columns: wide characters (CJK, many
/// emoji) count two.
pub fn display_width(s: &str) -> (r: usize)
    ensures
        r == str_columns(s@),
{
    str_width(s)
}

/// Width of one character for cutting purposes.
pub(crate) fn cut_width(c: char) -> (r: usize)
    ensures
        r == cols(c),
{
    match char_width(c) {
        Some(w) => w,
        None => 0,
    }
}

/// The longest prefix of `cs` that `fit_front` keeps within `budget`.
fn take_front(cs: &Vec<char>, budget: usize) -> (r: Vec<char>)
    ensures
        r@ == cs@.take(fit_front(cs@, budget as int) as int),
{
    let mut out: Vec<char> = Vec::new();
    let mut width: usize = 0;
    let mut i: usize = 0;
    proof {
        assert(cs@.skip(0) =~= cs@);
    }
    while i < cs.len()
        invariant_except_break
            i <= cs.len(),
            width <= budget,
            out@ == cs@.take(i as int),
            fit_front(cs@, budget as int) == i + fit_front(cs@.skip(i as int), budget - width),
        ensures
            out@ == cs@.take(fit_front(cs@, budget as int) as int),
        decreases cs.len() - i,
    {
        let w = cut_width(cs[i]);
        let ghost rest = cs@.skip(i as int);
        assert(rest[0] == cs@[i as int]);
        if w > budget - width {
            assert(fit_front(rest, budget - width) == 0);
            break;
        }
        assert(rest.drop_first() =~= cs@.skip(i + 1));
        width = width + w;
        out.push(cs[i]);
        assert(cs@.take(i + 1) =~= cs@.take(i as int).push(cs@[i as int]));
        i = i + 1;
    }
    proof {
        if i == cs.len() {
            assert(cs@.skip(i as int).len() == 0);
        }
    }
    out
}

/// The longest suffix of `cs` that `fit_back` keeps within `budget`.
fn take_back(cs: &Vec<char>, budget: usize) -> (r: Vec<char>)
    ensures
        r@ == cs@.subrange(cs@.len() - fit_back(cs@, budget as int), cs@.len() as int),
{
    let mut width: usize = 0;
    let mut k: usize = 0;
    let n = cs.len();
    proof {
        assert(cs@.take(n as int) =~= cs@);
    }
    while k < n
        invariant_except_break
            n == cs.len(),
            k <= n,
            width <= budget,
            fit_back(cs@, budget as int) == k + fit_back(cs@.take(n - k), budget - width),
        ensures
            k <= n,
            k == fit_back(cs@, budget as int),
        decreases n - k,
    {
        let w = cut_width(cs[n - 1 - k]);
        let ghost rest = cs@.take(n - k);
        assert(rest.last() == cs@[n - 1 - k]);
        if w > budget - width {
            assert(fit_back(rest, budget - width) == 0);
            break;
        }
        assert(rest.drop_last() =~= cs@.take(n - k - 1));
        width = width + w;
        k = k + 1;
    }
    proof {
        if k == n {
            assert(cs@.take(0).len() == 0);
        }
    }
    let mut out: Vec<char> = Vec::new();
    let mut j: usize = n - k;
    while j < n
        invariant
            n == cs.len(),
            k <= n,
            n - k <= j <= n,
            out@ == cs@.subrange(n - k, j as int),
        decreases n - j,
    {
        out.push(cs[j]);
        assert(cs@.subrange(n - k, j + 1) =~= cs@.subrange(n - k, j as int).push(cs@[j as int]));
        j = j + 1;
    }
    out
}

/// `s` cut to at most `max` display columns, ending with an ellipsis (one
/// column) when anything was cut. A character that would overflow the budget
/// stops the cut, so wide characters are never split.
pub fn truncate_chars(s: &str, max: usize) -> (r: String)
    ensures
        str_columns(s@) <= max ==> r@ == s@,
        str_columns(s@) > max && max == 0 ==> r@ == Seq::<char>::empty(),
        str_columns(s@) > max && max > 0 ==> r@ == s@.take(fit_front(s@, max - 1) as int).push('…'),
{
    let cs = chars_of(s);
    if display_width(s) <= max {
        return string_from_chars(&cs);
    }
    if max == 0 {
        return String::new();
    }
    let kept = take_front(&cs, max - 1);
    let mut out = string_from_chars(&kept);
    push_char(&mut out, '…');
    out
}

/// `s` hard-cut to at most `max` display columns, with no ellipsis.
pub fn take_width(s: &str, max: usize) -> (r: String)
    ensures
        str_columns(s@) <= max ==> r@ == s@,
        str_columns(s@) > max ==> r@ == s@.take(fit_front(s@, max as int) as int),
{
    let cs = chars_of(s);
    if display_width(s) <= max {
        return string_from_chars(&cs);
    }
    let kept = take_front(&cs, max);
    string_from_chars(&kept)
}

/// The last `max` display columns of `s`, so the end of a long query and the
/// cursor after it stay visible.
pub fn tail_chars(s: &str, max: usize) -> (r: String)
    ensures
        str_columns(s@) <= max ==> r@ == s@,
        str_columns(s@) > max ==> r@ == s@.subrange(
            s@.len() - fit_back(s@, max as int),
            s@.len() as int,
        ),
{
    let cs = chars_of(s);
    if display_width(s) <= max {
        return string_from_chars(&cs);
    }
    let kept = take_back(&cs, max);
    string_from_chars(&kept)
}

} // verus!

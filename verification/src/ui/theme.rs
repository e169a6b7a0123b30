//! Reading colors written in theme files.

use vstd::prelude::*;
use crate::app::search::{trim, trim_ws};
use crate::text::{chars_of, string_from};

verus! {

/// The value of a hexadecimal digit (either case).
pub open spec fn hex_value(c: char) -> Option<int> {
    if '0' <= c && c <= '9' {
        Some(c as int - '0' as int)
    } else if 'a' <= c && c <= 'f' {
        Some(c as int - 'a' as int + 10)
    } else if 'A' <= c && c <= 'F' {
        Some(c as int - 'A' as int + 10)
    } else {
        None
    }
}

/// `s` without its leading `#` characters.
pub open spec fn strip_hashes(s: Seq<char>) -> Seq<char>
    decreases s.len(),
{
    if s.len() > 0 && s[0] == '#' {
        strip_hashes(s.drop_first())
    } else {
        s
    }
}

/// The byte written by the two hexadecimal digits at `i` and `i + 1`.
pub open spec fn hex_byte(h: Seq<char>, i: int) -> int {
    16 * hex_value(h[i])->0 + hex_value(h[i + 1])->0
}

/// The color `value` writes: `#rrggbb` or `rrggbb`, white space around it
/// and any number of leading `#` allowed; `None` for anything else.
pub open spec fn spec_parse_hex(value: Seq<char>) -> Option<(u8, u8, u8)> {
    let h = strip_hashes(trim_ws(value));
    if h.len() == 6 && forall|i: int| 0 <= i < 6 ==> (#[trigger] hex_value(h[i])) is Some {
        Some((hex_byte(h, 0) as u8, hex_byte(h, 2) as u8, hex_byte(h, 4) as u8))
    } else {
        None
    }
}

fn digit_value(c: char) -> (r: Option<u8>)
    ensures
        match hex_value(c) {
            Some(v) => r == Some(v as u8),
            None => r is None,
        },
        r matches Some(v) ==> v < 16,
{
    if '0' <= c && c <= '9' {
        Some((c as u32 - '0' as u32) as u8)
    } else if 'a' <= c && c <= 'f' {
        Some((c as u32 - 'a' as u32 + 10) as u8)
    } else if 'A' <= c && c <= 'F' {
        Some((c as u32 - 'A' as u32 + 10) as u8)
    } else {
        None
    }
}

/// Reads a theme color (see [`spec_parse_hex`]).
pub fn parse_hex(value: &str) -> (r: Option<(u8, u8, u8)>)
    ensures
        r == spec_parse_hex(value@),
{
    let t = trim(&chars_of(value));
    let mut start: usize = 0;
    assert(t@.subrange(0, t@.len() as int) =~= t@);
    while start < t.len() && t[start] == '#'
        invariant
            start <= t.len(),
            strip_hashes(t@) == strip_hashes(t@.subrange(start as int, t@.len() as int)),
        decreases t.len() - start,
    {
        assert(t@.subrange(start as int, t@.len() as int).drop_first() =~= t@.subrange(start + 1, t@.len() as int));
        start = start + 1;
    }
    let ghost h = t@.subrange(start as int, t@.len() as int);
    assert(strip_hashes(h) == h) by {
        if h.len() > 0 {
            assert(h[0] == t@[start as int]);
        }
    }
    assert(strip_hashes(trim_ws(value@)) == h);
    if t.len() - start != 6 {
        return None;
    }
    let mut digits: Vec<u8> = Vec::new();
    let mut i: usize = 0;
    while i < 6
        invariant
            t.len() - start == 6,
            h == t@.subrange(start as int, t@.len() as int),
            strip_hashes(trim_ws(value@)) == h,
            i <= 6,
            digits@.len() == i,
            forall|k: int| 0 <= k < i ==> (#[trigger] hex_value(h[k])) is Some && digits@[k] == hex_value(h[k])->0,
        decreases 6 - i,
    {
        match digit_value(t[start + i]) {
            Some(v) => digits.push(v),
            None => {
                assert(hex_value(h[i as int]) is None);
                assert(!(forall|k: int| 0 <= k < 6 ==> (#[trigger] hex_value(h[k])) is Some));
                return None;
            },
        }
        i = i + 1;
    }
    let r = (digits[0] * 16 + digits[1], digits[2] * 16 + digits[3], digits[4] * 16 + digits[5]);
    Some(r)
}

/// Names of the built-in themes, in their fixed order (the default first).
pub open spec fn spec_builtin_names() -> Seq<Seq<char>> {
    seq![
        "Roxo"@, "YT Vermelho"@, "Verde Spotify"@, "Oceano"@, "Âmbar"@, "Rosa"@,
        "Catppuccin Mocha"@, "Gruvbox"@, "Nord"@, "Dracula"@, "Tokyo Night"@,
    ]
}

/// The names of the built-in themes (see [`spec_builtin_names`]); themes
/// read from the user's files come after them.
pub fn builtin_names() -> (r: Vec<String>)
    ensures
        r@.map_values(|n: String| n@) == spec_builtin_names(),
{
    let mut r: Vec<String> = Vec::new();
    r.push(string_from("Roxo"));
    r.push(string_from("YT Vermelho"));
    r.push(string_from("Verde Spotify"));
    r.push(string_from("Oceano"));
    r.push(string_from("Âmbar"));
    r.push(string_from("Rosa"));
    r.push(string_from("Catppuccin Mocha"));
    r.push(string_from("Gruvbox"));
    r.push(string_from("Nord"));
    r.push(string_from("Dracula"));
    r.push(string_from("Tokyo Night"));
    assert(r@.map_values(|n: String| n@) =~= spec_builtin_names());
    r
}

/// The slot of theme `index` among `len` themes: indexing wraps instead of
/// running off the end.
pub fn theme_slot(index: usize, len: usize) -> (r: usize)
    requires
        len > 0,
    ensures
        r == index % len,
        r < len,
{
    index % len
}

} // verus!

//! Structured, plain-text diagnostic reports, and the redaction applied to
//! every detail before it is shown: credential values after `SAPISID=`,
//! `Authorization:` or `Cookie:` are replaced, and the user's home
//! directory becomes `$HOME`.

use vstd::prelude::*;
use crate::text::{
    chars_of, decimal, decimal_string, extend_chars, find_from, first_occurrence, is_whitespace, is_ws,
    lemma_first_occurrence, lower_chars, lower_seq, occurs_at, string_from, string_from_chars, sub_chars,
};

verus! {

/// How a check came out.
#[derive(Debug, Clone, Copy, PartialEq, Eq, Structural)]
pub enum Severity {
    Pass,
    Warning,
    Failure,
}

/// One diagnostic check.
#[derive(Debug, Clone, PartialEq, Eq)]
pub struct Check {
    pub section: &'static str,
    pub severity: Severity,
    pub title: String,
    pub detail: String,
    pub hint: Option<String>,
}

/// The content of a [`Check`].
pub struct CheckView {
    pub section: Seq<char>,
    pub severity: Severity,
    pub title: Seq<char>,
    pub detail: Seq<char>,
    pub hint: Option<Seq<char>>,
}

impl View for Check {
    type V = CheckView;

    open spec fn view(&self) -> CheckView {
        CheckView {
            section: self.section@,
            severity: self.severity,
            title: self.title@,
            detail: self.detail@,
            hint: crate::text::opt_view(self.hint),
        }
    }
}

impl Check {
    /// A passed check.
    pub fn ok(section: &'static str, title: &str, detail: &str) -> (r: Check)
        ensures
            r@ == (CheckView { section: section@, severity: Severity::Pass, title: title@, detail: detail@, hint: None }),
    {
        Check::new(section, Severity::Pass, title, detail, None)
    }

    /// A check that passed with a warning.
    pub fn warning(section: &'static str, title: &str, detail: &str) -> (r: Check)
        ensures
            r@ == (CheckView {
                section: section@,
                severity: Severity::Warning,
                title: title@,
                detail: detail@,
                hint: None,
            }),
    {
        Check::new(section, Severity::Warning, title, detail, None)
    }

    /// A failed check, with a hint on how to fix it.
    pub fn failure(section: &'static str, title: &str, detail: &str, hint: &str) -> (r: Check)
        ensures
            r@ == (CheckView {
                section: section@,
                severity: Severity::Failure,
                title: title@,
                detail: detail@,
                hint: Some(hint@),
            }),
    {
        Check::new(section, Severity::Failure, title, detail, Some(string_from(hint)))
    }

    fn new(section: &'static str, severity: Severity, title: &str, detail: &str, hint: Option<String>) -> (r: Check)
        ensures
            r.section == section,
            r.severity == severity,
            r.title@ == title@,
            r.detail@ == detail@,
            r.hint == hint,
    {
        Check { section, severity, title: string_from(title), detail: string_from(detail), hint }
    }
}

/// A report: the checks in the order they ran.
#[derive(Debug, Clone, Default)]
pub struct Report {
    pub checks: Vec<Check>,
}

/// The views of a sequence of checks.
pub open spec fn checks_view(cs: Seq<Check>) -> Seq<CheckView> {
    cs.map_values(|c: Check| c@)
}

/// Whether some check failed.
pub open spec fn any_failure(cs: Seq<CheckView>) -> bool {
    exists|i: int| 0 <= i < cs.len() && cs[i].severity == Severity::Failure
}

/// The label of a severity in the report.
pub open spec fn severity_label(s: Severity) -> Seq<char> {
    match s {
        Severity::Pass => "ok"@,
        Severity::Warning => "warn"@,
        Severity::Failure => "fail"@,
    }
}

/// The section header printed before a check: only when the section
/// changes, separated by a blank line from the previous section.
pub open spec fn section_header(prev: Option<Seq<char>>, section: Seq<char>) -> Seq<char> {
    if prev == Some(section) {
        Seq::empty()
    } else {
        (if prev is Some { "\n"@ } else { Seq::empty() }) + section + "\n"@
    }
}

/// The lines printed for one check: its result, and its hint indented
/// underneath when there is one.
pub open spec fn check_lines(c: CheckView) -> Seq<char> {
    "  ["@ + severity_label(c.severity) + "] "@ + c.title + ": "@ + c.detail + "\n"@ + match c.hint {
        Some(h) => "    Hint: "@ + h + "\n"@,
        None => Seq::empty(),
    }
}

/// The section of the last check, if any.
pub open spec fn last_section(cs: Seq<CheckView>) -> Option<Seq<char>> {
    if cs.len() == 0 { None } else { Some(cs.last().section) }
}

/// The body of the report: every check under its section header.
pub open spec fn report_body(cs: Seq<CheckView>) -> Seq<char>
    decreases cs.len(),
{
    if cs.len() == 0 {
        Seq::empty()
    } else {
        report_body(cs.drop_last()) + section_header(last_section(cs.drop_last()), cs.last().section)
            + check_lines(cs.last())
    }
}

/// How many checks have severity `s`.
pub open spec fn count_severity(cs: Seq<CheckView>, s: Severity) -> nat
    decreases cs.len(),
{
    if cs.len() == 0 {
        0
    } else {
        count_severity(cs.drop_last(), s) + if cs.last().severity == s { 1nat } else { 0nat }
    }
}

/// The closing summary line.
pub open spec fn summary_line(passed: nat, warnings: nat, failed: nat) -> Seq<char> {
    "Summary: "@ + decimal(passed) + " passed, "@ + decimal(warnings) + " warning"@
        + (if warnings == 1 { Seq::empty() } else { "s"@ }) + ", "@ + decimal(failed) + " failed\n"@
}

/// The whole rendered report.
pub open spec fn spec_render(cs: Seq<CheckView>) -> Seq<char> {
    report_body(cs) + (if cs.len() > 0 { "\n"@ } else { Seq::empty() }) + summary_line(
        count_severity(cs, Severity::Pass),
        count_severity(cs, Severity::Warning),
        count_severity(cs, Severity::Failure),
    )
}

proof fn lemma_count_bound(cs: Seq<CheckView>, s: Severity)
    ensures
        count_severity(cs, s) <= cs.len(),
    decreases cs.len(),
{
    if cs.len() > 0 {
        lemma_count_bound(cs.drop_last(), s);
    }
}

impl Report {
    pub fn new(checks: Vec<Check>) -> (r: Report)
        ensures
            r.checks@ == checks@,
    {
        Report { checks }
    }

    /// 1 when some check failed, 0 otherwise (warnings never fail).
    pub fn exit_code(&self) -> (r: i32)
        ensures
            r == (if any_failure(checks_view(self.checks@)) { 1i32 } else { 0i32 }),
    {
        let mut i: usize = 0;
        while i < self.checks.len()
            invariant
                i <= self.checks.len(),
                forall|j: int| 0 <= j < i ==> self.checks@[j].severity != Severity::Failure,
            decreases self.checks.len() - i,
        {
            if self.checks[i].severity == Severity::Failure {
                assert(checks_view(self.checks@)[i as int].severity == Severity::Failure);
                return 1;
            }
            i = i + 1;
        }
        assert(!any_failure(checks_view(self.checks@))) by {
            assert forall|j: int| 0 <= j < self.checks@.len() implies
                checks_view(self.checks@)[j].severity != Severity::Failure by {
                assert(checks_view(self.checks@)[j] == self.checks@[j]@);
            }
        }
        0
    }

    /// The report as plain text: checks grouped under their section,
    /// each with its result label and hint, then a summary line.
    pub fn render(&self) -> (r: String)
        ensures
            r@ == spec_render(checks_view(self.checks@)),
    {
        let ghost cv = checks_view(self.checks@);
        let mut out: Vec<char> = Vec::new();
        let mut prev: Option<&'static str> = None;
        let mut passed: usize = 0;
        let mut warnings: usize = 0;
        let mut failed: usize = 0;
        let mut i: usize = 0;
        while i < self.checks.len()
            invariant
                i <= self.checks.len(),
                cv == checks_view(self.checks@),
                out@ == report_body(cv.take(i as int)),
                prev_matches(prev, last_section(cv.take(i as int))),
                passed == count_severity(cv.take(i as int), Severity::Pass),
                warnings == count_severity(cv.take(i as int), Severity::Warning),
                failed == count_severity(cv.take(i as int), Severity::Failure),
                passed <= i,
                warnings <= i,
                failed <= i,
            decreases self.checks.len() - i,
        {
            let check = &self.checks[i];
            assert(cv.take(i + 1).drop_last() =~= cv.take(i as int));
            assert(cv.take(i + 1).last() == check@);
            prev = push_section_header(&mut out, prev, check.section);
            push_check_lines(&mut out, check);
            match check.severity {
                Severity::Pass => {
                    passed = passed + 1;
                },
                Severity::Warning => {
                    warnings = warnings + 1;
                },
                Severity::Failure => {
                    failed = failed + 1;
                },
            }
            i = i + 1;
        }
        assert(cv.take(self.checks.len() as int) =~= cv);
        if self.checks.len() > 0 {
            extend_chars(&mut out, &chars_of("\n"));
        }
        let ghost body = out@;
        extend_chars(&mut out, &chars_of("Summary: "));
        extend_chars(&mut out, &decimal_string(passed as u64));
        extend_chars(&mut out, &chars_of(" passed, "));
        extend_chars(&mut out, &decimal_string(warnings as u64));
        extend_chars(&mut out, &chars_of(" warning"));
        if warnings != 1 {
            extend_chars(&mut out, &chars_of("s"));
        }
        extend_chars(&mut out, &chars_of(", "));
        extend_chars(&mut out, &decimal_string(failed as u64));
        extend_chars(&mut out, &chars_of(" failed\n"));
        assert(out@ =~= body + summary_line(passed as nat, warnings as nat, failed as nat));
        string_from_chars(&out)
    }
}

/// Whether the remembered section agrees with the last section seen.
pub open spec fn prev_matches(prev: Option<&'static str>, last: Option<Seq<char>>) -> bool {
    match prev {
        Some(p) => last == Some(p@),
        None => last is None,
    }
}

/// Appends the header for `section` (see [`section_header`]) and returns
/// the section now in effect.
fn push_section_header(out: &mut Vec<char>, prev: Option<&'static str>, section: &'static str) -> (r: Option<&'static str>)
    ensures
        final(out)@ == old(out)@ + section_header(
            match prev { Some(p) => Some(p@), None => None },
            section@,
        ),
        r matches Some(p) && p@ == section@,
{
    let same = match prev {
        Some(p) => crate::text::str_eq(p, section),
        None => false,
    };
    if same {
        return prev;
    }
    let ghost before = out@;
    if prev.is_some() {
        extend_chars(out, &chars_of("\n"));
    }
    extend_chars(out, &chars_of(section));
    extend_chars(out, &chars_of("\n"));
    assert(out@ =~= before + section_header(match prev { Some(p) => Some(p@), None => None }, section@));
    Some(section)
}

/// Appends the lines of one check (see [`check_lines`]).
fn push_check_lines(out: &mut Vec<char>, check: &Check)
    ensures
        final(out)@ == old(out)@ + check_lines(check@),
{
    let ghost before = out@;
    let label = match check.severity {
        Severity::Pass => "ok",
        Severity::Warning => "warn",
        Severity::Failure => "fail",
    };
    extend_chars(out, &chars_of("  ["));
    extend_chars(out, &chars_of(label));
    extend_chars(out, &chars_of("] "));
    extend_chars(out, &chars_of(check.title.as_str()));
    extend_chars(out, &chars_of(": "));
    extend_chars(out, &chars_of(check.detail.as_str()));
    extend_chars(out, &chars_of("\n"));
    match &check.hint {
        Some(hint) => {
            extend_chars(out, &chars_of("    Hint: "));
            extend_chars(out, &chars_of(hint.as_str()));
            extend_chars(out, &chars_of("\n"));
        },
        None => {},
    }
    assert(out@ =~= before + check_lines(check@));
}


/// A credential marker whose value is redacted.
#[derive(Debug, Clone, Copy, PartialEq, Eq, Structural)]
pub enum CredentialMarker {
    Sapisid,
    Authorization,
    Cookie,
}

/// The marker text, lowercase (markers match ignoring ASCII case).
pub open spec fn marker_text(m: CredentialMarker) -> Seq<char> {
    match m {
        CredentialMarker::Sapisid => "sapisid="@,
        CredentialMarker::Authorization => "authorization:"@,
        CredentialMarker::Cookie => "cookie:"@,
    }
}

/// Every marker has at least one character.
pub proof fn lemma_marker_nonempty(m: CredentialMarker)
    ensures
        marker_text(m).len() > 0,
{
    reveal_strlit("sapisid=");
    reveal_strlit("authorization:");
    reveal_strlit("cookie:");
}

/// Tags an occurrence with its marker.
pub open spec fn tag(o: Option<int>, m: CredentialMarker) -> Option<(int, CredentialMarker)> {
    match o {
        Some(k) => Some((k, m)),
        None => None,
    }
}

/// The earlier of two occurrences; on a tie the first one wins.
pub open spec fn earliest(
    x: Option<(int, CredentialMarker)>,
    y: Option<(int, CredentialMarker)>,
) -> Option<(int, CredentialMarker)> {
    match (x, y) {
        (None, _) => y,
        (_, None) => x,
        (Some(p), Some(q)) => if q.0 < p.0 { y } else { x },
    }
}

/// The earliest marker in the lowercased line `low` at or after `pos`.
pub open spec fn next_marker(low: Seq<char>, pos: int) -> Option<(int, CredentialMarker)> {
    earliest(
        earliest(
            tag(first_occurrence(low, marker_text(CredentialMarker::Sapisid), pos), CredentialMarker::Sapisid),
            tag(
                first_occurrence(low, marker_text(CredentialMarker::Authorization), pos),
                CredentialMarker::Authorization,
            ),
        ),
        tag(first_occurrence(low, marker_text(CredentialMarker::Cookie), pos), CredentialMarker::Cookie),
    )
}

/// A found marker lies at or after `pos` and inside the line.
pub proof fn lemma_next_marker(low: Seq<char>, pos: int)
    ensures
        next_marker(low, pos) matches Some((off, m)) ==> pos <= off && off + marker_text(m).len() <= low.len(),
{
    lemma_first_occurrence(low, marker_text(CredentialMarker::Sapisid), pos);
    lemma_first_occurrence(low, marker_text(CredentialMarker::Authorization), pos);
    lemma_first_occurrence(low, marker_text(CredentialMarker::Cookie), pos);
}

/// Number of leading white-space characters.
pub open spec fn leading_ws(s: Seq<char>) -> nat
    decreases s.len(),
{
    if s.len() > 0 && is_ws(s[0]) {
        1 + leading_ws(s.drop_first())
    } else {
        0
    }
}

/// Index of the first `;` or white space in `s`, or its length.
pub open spec fn stop_index(s: Seq<char>) -> nat
    decreases s.len(),
{
    if s.len() == 0 || s[0] == ';' || is_ws(s[0]) {
        0
    } else {
        1 + stop_index(s.drop_first())
    }
}

/// The first occurrence of `home` in `value` at or after `from` (occurrences
/// taken left to right without overlap) that starts a token and continues
/// as a path, extended to the end of that token.
pub open spec fn home_token(value: Seq<char>, home: Seq<char>, from: int) -> Option<Seq<char>>
    decreases value.len() - from,
{
    if home.len() == 0 || from < 0 || from > value.len() {
        None
    } else {
        match first_occurrence(value, home, from) {
            None => None,
            Some(k) => {
                let after = k + home.len();
                let suffix = value.subrange(after, value.len() as int);
                let starts = k == 0 || is_ws(value[k - 1]);
                let extends = suffix.len() == 0 || home.last() == '/' || suffix[0] == '/';
                if starts && extends {
                    Some(value.subrange(k, after + stop_index(suffix)))
                } else {
                    proof {
                        lemma_first_occurrence(value, home, from);
                    }
                    home_token(value, home, after)
                }
            },
        }
    }
}

/// What follows a redacted header value: the home path token, if any.
pub open spec fn home_suffix(value: Seq<char>, home: Option<Seq<char>>) -> Seq<char> {
    match home {
        Some(h) => match home_token(value, h, 0) {
            Some(t) => seq![' '] + t,
            None => Seq::empty(),
        },
        None => Seq::empty(),
    }
}

/// Redaction of `line` from position `pos`: each `SAPISID=` value (up to
/// the next `;`) becomes `[redacted]`; the rest of a line after
/// `Authorization:` or `Cookie:` becomes ` [redacted]`, keeping only an
/// actual home-path token.
pub open spec fn sanitize_from(line: Seq<char>, home: Option<Seq<char>>, pos: int) -> Seq<char>
    decreases line.len() - pos,
{
    if pos < 0 || pos > line.len() {
        Seq::empty()
    } else {
        match next_marker(lower_seq(line), pos) {
            None => line.subrange(pos, line.len() as int),
            Some((off, m)) => {
                let cut = off + marker_text(m).len();
                let head = line.subrange(pos, cut);
                match m {
                    CredentialMarker::Sapisid => {
                        let ve = match first_occurrence(line, seq![';'], cut) {
                            Some(k) => k,
                            None => line.len() as int,
                        };
                        proof {
                            lemma_next_marker(lower_seq(line), pos);
                            lemma_marker_nonempty(m);
                            lemma_first_occurrence(line, seq![';'], cut);
                        }
                        head + "[redacted]"@ + sanitize_from(line, home, ve)
                    },
                    _ => {
                        let rest = line.subrange(cut, line.len() as int);
                        let value = rest.subrange(leading_ws(rest) as int, rest.len() as int);
                        head + " [redacted]"@ + home_suffix(value, home)
                    },
                }
            },
        }
    }
}

/// The state of splitting `s` into non-empty lines: the finished lines and
/// the line in progress.
pub open spec fn split_state(s: Seq<char>) -> (Seq<Seq<char>>, Seq<char>)
    decreases s.len(),
{
    if s.len() == 0 {
        (Seq::empty(), Seq::empty())
    } else {
        let (done, cur) = split_state(s.drop_last());
        let c = s.last();
        if c == '\r' || c == '\n' {
            if cur.len() > 0 { (done.push(cur), Seq::empty()) } else { (done, Seq::empty()) }
        } else {
            (done, cur.push(c))
        }
    }
}

/// The non-empty lines of `s`, split at `\r` and `\n`.
pub open spec fn segments(s: Seq<char>) -> Seq<Seq<char>> {
    let (done, cur) = split_state(s);
    if cur.len() > 0 { done.push(cur) } else { done }
}

/// `parts` joined with single spaces.
pub open spec fn join_space(parts: Seq<Seq<char>>) -> Seq<char>
    decreases parts.len(),
{
    if parts.len() == 0 {
        Seq::empty()
    } else if parts.len() == 1 {
        parts[0]
    } else {
        join_space(parts.drop_last()) + seq![' '] + parts.last()
    }
}

/// `s` from `pos` with every occurrence of `pat` (left to right, without
/// overlap) replaced by `rep`.
pub open spec fn replace_from(s: Seq<char>, pat: Seq<char>, rep: Seq<char>, pos: int) -> Seq<char>
    decreases s.len() - pos,
{
    if pat.len() == 0 || pos < 0 || pos > s.len() {
        s.subrange(if pos < 0 { 0 } else if pos > s.len() { s.len() as int } else { pos }, s.len() as int)
    } else {
        match first_occurrence(s, pat, pos) {
            None => s.subrange(pos, s.len() as int),
            Some(k) => {
                proof {
                    lemma_first_occurrence(s, pat, pos);
                }
                s.subrange(pos, k) + rep + replace_from(s, pat, rep, k + pat.len())
            },
        }
    }
}

/// The home directory, unless absent or empty.
pub open spec fn usable_home(home: Option<Seq<char>>) -> Option<Seq<char>> {
    match home {
        Some(h) => if h.len() > 0 { Some(h) } else { None },
        None => None,
    }
}

/// A detail made safe to show: its non-empty lines redacted and joined
/// with spaces, then the home directory replaced by `$HOME`.
pub open spec fn spec_sanitize_detail(detail: Seq<char>, home: Option<Seq<char>>) -> Seq<char> {
    let h = usable_home(home);
    let joined = join_space(segments(detail).map_values(|line: Seq<char>| sanitize_from(line, h, 0)));
    match h {
        Some(hh) => replace_from(joined, hh, "$HOME"@, 0),
        None => joined,
    }
}

/// The earliest marker in `low` at or after `pos`.
fn find_next_marker(low: &Vec<char>, pos: usize) -> (r: Option<(usize, CredentialMarker)>)
    ensures
        match next_marker(low@, pos as int) {
            Some((off, m)) => r matches Some((o, mm)) && o == off && mm == m,
            None => r is None,
        },
{
    let ghost ta = tag(first_occurrence(low@, marker_text(CredentialMarker::Sapisid), pos as int), CredentialMarker::Sapisid);
    let ghost tb = tag(first_occurrence(low@, marker_text(CredentialMarker::Authorization), pos as int), CredentialMarker::Authorization);
    let ghost tc = tag(first_occurrence(low@, marker_text(CredentialMarker::Cookie), pos as int), CredentialMarker::Cookie);
    proof {
        lemma_first_occurrence(low@, marker_text(CredentialMarker::Sapisid), pos as int);
        lemma_first_occurrence(low@, marker_text(CredentialMarker::Authorization), pos as int);
        lemma_first_occurrence(low@, marker_text(CredentialMarker::Cookie), pos as int);
    }
    let na = chars_of("sapisid=");
    let nb = chars_of("authorization:");
    let nc = chars_of("cookie:");
    assert(na@ == marker_text(CredentialMarker::Sapisid));
    let a = find_from(low, &na, pos);
    assert(match a { Some(k) => ta == Some((k as int, CredentialMarker::Sapisid)), None => ta is None });
    let b = find_from(low, &nb, pos);
    let c = find_from(low, &nc, pos);
    let best1: Option<(usize, CredentialMarker)> = match a {
        Some(k) => Some((k, CredentialMarker::Sapisid)),
        None => None,
    };
    assert(agrees(best1, ta));
    let best2: Option<(usize, CredentialMarker)> = match b {
        Some(k) => match best1 {
            Some((p, m)) => if k < p { Some((k, CredentialMarker::Authorization)) } else { Some((p, m)) },
            None => Some((k, CredentialMarker::Authorization)),
        },
        None => best1,
    };
    assert(agrees(best2, earliest(ta, tb)));
    let best3: Option<(usize, CredentialMarker)> = match c {
        Some(k) => match best2 {
            Some((p, m)) => if k < p { Some((k, CredentialMarker::Cookie)) } else { Some((p, m)) },
            None => Some((k, CredentialMarker::Cookie)),
        },
        None => best2,
    };
    assert(agrees(best3, earliest(earliest(ta, tb), tc)));
    best3
}

/// Whether an executable marker position agrees with its specification.
pub open spec fn agrees(x: Option<(usize, CredentialMarker)>, y: Option<(int, CredentialMarker)>) -> bool {
    match y {
        Some((off, m)) => x matches Some((o, mm)) && o == off && mm == m,
        None => x is None,
    }
}

/// Number of leading white-space characters of `v` from `from`.
fn count_leading_ws(v: &Vec<char>, from: usize) -> (r: usize)
    requires
        from <= v@.len(),
    ensures
        r == leading_ws(v@.subrange(from as int, v@.len() as int)),
        from + r <= v@.len(),
        r <= v.len() - from,
{
    let mut i: usize = from;
    while i < v.len() && is_whitespace(v[i])
        invariant
            from <= i <= v@.len(),
            leading_ws(v@.subrange(from as int, v@.len() as int))
                == (i - from) + leading_ws(v@.subrange(i as int, v@.len() as int)),
        decreases v@.len() - i,
    {
        assert(v@.subrange(i as int, v@.len() as int).drop_first() =~= v@.subrange(i + 1, v@.len() as int));
        i = i + 1;
    }
    i - from
}

/// Index (from `from`) of the first `;` or white space, or the end.
fn find_stop(v: &Vec<char>, from: usize) -> (r: usize)
    requires
        from <= v@.len(),
    ensures
        r == from + stop_index(v@.subrange(from as int, v@.len() as int)),
        r <= v@.len(),
{
    let mut i: usize = from;
    while i < v.len() && v[i] != ';' && !is_whitespace(v[i])
        invariant
            from <= i <= v@.len(),
            stop_index(v@.subrange(from as int, v@.len() as int))
                == (i - from) + stop_index(v@.subrange(i as int, v@.len() as int)),
        decreases v@.len() - i,
    {
        assert(v@.subrange(i as int, v@.len() as int).drop_first() =~= v@.subrange(i + 1, v@.len() as int));
        i = i + 1;
    }
    i
}

/// The actual home-path token in `value` (see [`home_token`]).
fn find_home_token(value: &Vec<char>, home: &Vec<char>) -> (r: Option<Vec<char>>)
    ensures
        match home_token(value@, home@, 0) {
            Some(t) => r matches Some(v) && v@ == t,
            None => r is None,
        },
{
    if home.len() == 0 {
        return None;
    }
    let mut from: usize = 0;
    while from <= value.len()
        invariant
            from <= value@.len() + 1,
            home@.len() > 0,
            from <= value@.len() ==> home_token(value@, home@, 0) == home_token(value@, home@, from as int),
            from > value@.len() ==> home_token(value@, home@, 0) is None,
        decreases value@.len() + 1 - from,
    {
        let found = find_from(value, home, from);
        match found {
            None => {
                return None;
            },
            Some(k) => {
                proof {
                    lemma_first_occurrence(value@, home@, from as int);
                }
                let after = k + home.len();
                let starts = k == 0 || is_whitespace(value[k - 1]);
                let extends = after == value.len() || home[home.len() - 1] == '/' || value[after] == '/';
                assert(after == value@.len() ==> value@.subrange(after as int, value@.len() as int).len() == 0);
                assert(after < value@.len() ==> value@.subrange(after as int, value@.len() as int)[0] == value@[after as int]);
                if starts && extends {
                    let end = find_stop(value, after);
                    return Some(sub_chars(value, k, end));
                }
                from = after;
            },
        }
    }
    None
}

/// Where a `SAPISID=` value starting at `cut` ends: the next `;`, or the
/// end of the line.
pub open spec fn sapisid_end(line: Seq<char>, cut: int) -> int {
    match first_occurrence(line, seq![';'], cut) {
        Some(k) => k,
        None => line.len() as int,
    }
}

/// What replaces a header value starting at `cut`.
pub open spec fn header_redaction(line: Seq<char>, cut: int, home: Option<Seq<char>>) -> Seq<char> {
    let rest = line.subrange(cut, line.len() as int);
    let value = rest.subrange(leading_ws(rest) as int, rest.len() as int);
    " [redacted]"@ + home_suffix(value, home)
}

/// One step of [`sanitize_from`] at a found marker.
proof fn lemma_sanitize_step(line: Seq<char>, home: Option<Seq<char>>, pos: int, off: int, m: CredentialMarker)
    requires
        0 <= pos <= line.len(),
        next_marker(lower_seq(line), pos) == Some((off, m)),
    ensures
        pos <= off,
        off + marker_text(m).len() <= line.len(),
        m == CredentialMarker::Sapisid ==> ({
            let cut = off + marker_text(m).len();
            &&& cut <= sapisid_end(line, cut) <= line.len()
            &&& sanitize_from(line, home, pos) == line.subrange(pos, cut) + "[redacted]"@
                + sanitize_from(line, home, sapisid_end(line, cut))
        }),
        m != CredentialMarker::Sapisid ==> ({
            let cut = off + marker_text(m).len();
            sanitize_from(line, home, pos) == line.subrange(pos, cut) + header_redaction(line, cut, home)
        }),
{
    lemma_next_marker(lower_seq(line), pos);
    let cut = off + marker_text(m).len();
    lemma_first_occurrence(line, seq![';'], cut);
}

/// Where the `SAPISID=` value starting at `cut` ends.
fn find_sapisid_end(line: &Vec<char>, cut: usize) -> (r: usize)
    requires
        cut <= line@.len(),
    ensures
        r == sapisid_end(line@, cut as int),
{
    let semi = vec![';'];
    assert(semi@ =~= seq![';']);
    match find_from(line, &semi, cut) {
        Some(k) => k,
        None => line.len(),
    }
}

/// What replaces a header value starting at `cut` (see [`header_redaction`]).
fn redact_header(line: &Vec<char>, cut: usize, home: Option<&Vec<char>>) -> (r: Vec<char>)
    requires
        cut <= line@.len(),
    ensures
        r@ == header_redaction(line@, cut as int, match home { Some(h) => Some(h@), None => None }),
{
    let ghost hv = match home { Some(h) => Some(h@), None => None::<Seq<char>> };
    let vs = cut + count_leading_ws(line, cut);
    let mut out = chars_of(" [redacted]");
    let value = sub_chars(line, vs, line.len());
    let ghost rest = line@.subrange(cut as int, line@.len() as int);
    assert(value@ =~= rest.subrange(leading_ws(rest) as int, rest.len() as int));
    let ghost start = out@;
    match home {
        Some(h) => {
            match find_home_token(&value, h) {
                Some(t) => {
                    out.push(' ');
                    extend_chars(&mut out, &t);
                },
                None => {},
            }
        },
        None => {},
    }
    assert(out@ =~= start + home_suffix(value@, hv));
    out
}

/// Redacts one line (see [`sanitize_from`]).
fn sanitize_line(line: &Vec<char>, home: Option<&Vec<char>>) -> (r: Vec<char>)
    ensures
        r@ == sanitize_from(line@, match home { Some(h) => Some(h@), None => None }, 0),
{
    let ghost hv = match home { Some(h) => Some(h@), None => None::<Seq<char>> };
    let low = lower_chars(line);
    let mut out: Vec<char> = Vec::new();
    let mut pos: usize = 0;
    while pos <= line.len()
        invariant
            pos <= line@.len(),
            low@ == lower_seq(line@),
            hv == match home { Some(h) => Some(h@), None => None::<Seq<char>> },
            sanitize_from(line@, hv, 0) == out@ + sanitize_from(line@, hv, pos as int),
        decreases line@.len() + 1 - pos,
    {
        match find_next_marker(&low, pos) {
            None => {
                extend_chars(&mut out, &sub_chars(line, pos, line.len()));
                return out;
            },
            Some((off, m)) => {
                proof {
                    lemma_sanitize_step(line@, hv, pos as int, off as int, m);
                    lemma_marker_nonempty(m);
                }
                let mlen: usize = match m {
                    CredentialMarker::Sapisid => chars_of("sapisid=").len(),
                    CredentialMarker::Authorization => chars_of("authorization:").len(),
                    CredentialMarker::Cookie => chars_of("cookie:").len(),
                };
                let cut = off + mlen;
                let ghost before = out@;
                extend_chars(&mut out, &sub_chars(line, pos, cut));
                match m {
                    CredentialMarker::Sapisid => {
                        let ve = find_sapisid_end(line, cut);
                        extend_chars(&mut out, &chars_of("[redacted]"));
                        assert(out@ =~= before + line@.subrange(pos as int, cut as int) + "[redacted]"@);
                        pos = ve;
                    },
                    _ => {
                        let red = redact_header(line, cut, home);
                        extend_chars(&mut out, &red);
                        return out;
                    },
                }
            },
        }
    }
    out
}

/// Replaces every occurrence of `pat` (left to right, without overlap)
/// by `rep` (see [`replace_from`]).
fn replace_all(s: &Vec<char>, pat: &Vec<char>, rep: &Vec<char>) -> (r: Vec<char>)
    requires
        pat@.len() > 0,
    ensures
        r@ == replace_from(s@, pat@, rep@, 0),
{
    let mut out: Vec<char> = Vec::new();
    let mut pos: usize = 0;
    while pos <= s.len()
        invariant
            pos <= s@.len() + 1,
            pat@.len() > 0,
            pos <= s@.len() ==> replace_from(s@, pat@, rep@, 0) == out@ + replace_from(s@, pat@, rep@, pos as int),
            pos > s@.len() ==> replace_from(s@, pat@, rep@, 0) == out@,
        decreases s@.len() + 1 - pos,
    {
        match find_from(s, pat, pos) {
            None => {
                extend_chars(&mut out, &sub_chars(s, pos, s.len()));
                return out;
            },
            Some(k) => {
                proof {
                    lemma_first_occurrence(s@, pat@, pos as int);
                }
                let ghost before = out@;
                extend_chars(&mut out, &sub_chars(s, pos, k));
                extend_chars(&mut out, rep);
                assert(out@ =~= before + s@.subrange(pos as int, k as int) + rep@);
                pos = k + pat.len();
            },
        }
    }
    out
}

/// Splits `cs` into its non-empty lines (see [`segments`]).
fn split_lines(cs: &Vec<char>) -> (r: Vec<Vec<char>>)
    ensures
        r@.map_values(|v: Vec<char>| v@) == segments(cs@),
{
    let mut done: Vec<Vec<char>> = Vec::new();
    let mut cur: Vec<char> = Vec::new();
    let mut i: usize = 0;
    while i < cs.len()
        invariant
            i <= cs.len(),
            split_state(cs@.take(i as int)) == (done@.map_values(|v: Vec<char>| v@), cur@),
        decreases cs.len() - i,
    {
        let c = cs[i];
        assert(cs@.take(i + 1).drop_last() =~= cs@.take(i as int));
        let ghost d0 = done@.map_values(|v: Vec<char>| v@);
        if c == '\r' || c == '\n' {
            if cur.len() > 0 {
                let finished = cur;
                cur = Vec::new();
                done.push(finished);
                assert(done@.map_values(|v: Vec<char>| v@) =~= d0.push(finished@));
            } else {
                cur = Vec::new();
            }
            assert(cur@ =~= Seq::<char>::empty());
        } else {
            cur.push(c);
        }
        i = i + 1;
    }
    assert(cs@.take(cs.len() as int) =~= cs@);
    if cur.len() > 0 {
        let ghost d0 = done@.map_values(|v: Vec<char>| v@);
        let last = cur;
        done.push(last);
        assert(done@.map_values(|v: Vec<char>| v@) =~= d0.push(last@));
    }
    done
}

/// Makes a diagnostic detail safe to print: every non-empty line redacted
/// (see [`sanitize_from`]) and joined with spaces, then the home directory
/// (when given and non-empty) replaced by `$HOME`.
pub fn sanitize_detail(detail: &str, home: Option<&str>) -> (r: String)
    ensures
        r@ == spec_sanitize_detail(detail@, match home { Some(h) => Some(h@), None => None }),
{
    let ghost hv0 = match home { Some(h) => Some(h@), None => None::<Seq<char>> };
    let home_chars: Option<Vec<char>> = match home {
        Some(h) => {
            let hc = chars_of(h);
            if hc.len() > 0 { Some(hc) } else { None }
        },
        None => None,
    };
    let ghost hv = usable_home(hv0);
    assert(match home_chars { Some(v) => hv == Some(v@), None => hv is None });
    let cs = chars_of(detail);
    let lines = split_lines(&cs);
    let ghost segs = segments(detail@);
    let ghost mapped = segs.map_values(|line: Seq<char>| sanitize_from(line, hv, 0));
    let mut joined: Vec<char> = Vec::new();
    let mut j: usize = 0;
    while j < lines.len()
        invariant
            j <= lines.len(),
            lines@.map_values(|v: Vec<char>| v@) == segs,
            mapped == segs.map_values(|line: Seq<char>| sanitize_from(line, hv, 0)),
            match home_chars { Some(v) => hv == Some(v@), None => hv is None },
            joined@ == join_space(mapped.take(j as int)),
        decreases lines.len() - j,
    {
        let ghost before = joined@;
        assert(segs[j as int] == lines@[j as int]@);
        let line_out = match &home_chars {
            Some(h) => sanitize_line(&lines[j], Some(h)),
            None => sanitize_line(&lines[j], None),
        };
        if j > 0 {
            joined.push(' ');
        }
        extend_chars(&mut joined, &line_out);
        assert(mapped.take(j + 1).drop_last() =~= mapped.take(j as int));
        assert(mapped.take(j + 1).last() == line_out@);
        if j == 0 {
            assert(mapped.take(1) =~= seq![line_out@]);
            assert(joined@ =~= join_space(mapped.take(1)));
        } else {
            assert(joined@ =~= before + seq![' '] + line_out@);
        }
        j = j + 1;
    }
    assert(mapped.take(lines.len() as int) =~= mapped);
    let result = match &home_chars {
        Some(h) => replace_all(&joined, h, &chars_of("$HOME")),
        None => joined,
    };
    string_from_chars(&result)
}

/// The checks of severity `s`.
pub open spec fn of_severity(cs: Seq<CheckView>, s: Severity) -> Seq<CheckView> {
    cs.filter(|c: CheckView| c.severity == s)
}

proof fn lemma_count_is_filter(cs: Seq<CheckView>, s: Severity)
    ensures
        count_severity(cs, s) == of_severity(cs, s).len(),
    decreases cs.len(),
{
    reveal(Seq::filter);
    if cs.len() > 0 {
        lemma_count_is_filter(cs.drop_last(), s);
    }
}

/// Law: the report closes with a summary that counts the checks of each
/// severity: "Summary: P passed, W warning(s), F failed", where P, W and F
/// are the numbers of passing, warning and failed checks, which together
/// are all the checks.
pub proof fn lemma_summary_counts(cs: Seq<CheckView>)
    ensures
        ({
            let p = of_severity(cs, Severity::Pass).len();
            let w = of_severity(cs, Severity::Warning).len();
            let f = of_severity(cs, Severity::Failure).len();
            let tail = "Summary: "@ + decimal(p) + " passed, "@ + decimal(w) + " warning"@
                + (if w == 1 { Seq::empty() } else { "s"@ }) + ", "@ + decimal(f) + " failed\n"@;
            let out = spec_render(cs);
            &&& p + w + f == cs.len()
            &&& tail.len() <= out.len()
            &&& out.subrange(out.len() - tail.len(), out.len() as int) == tail
        }),
{
    lemma_count_is_filter(cs, Severity::Pass);
    lemma_count_is_filter(cs, Severity::Warning);
    lemma_count_is_filter(cs, Severity::Failure);
    lemma_counts_add_up(cs);
    let out = spec_render(cs);
    let head = report_body(cs) + (if cs.len() > 0 { "\n"@ } else { Seq::empty() });
    let tail = summary_line(
        count_severity(cs, Severity::Pass),
        count_severity(cs, Severity::Warning),
        count_severity(cs, Severity::Failure),
    );
    assert(out == head + tail);
    assert(out.subrange(out.len() - tail.len(), out.len() as int) =~= tail);
}

proof fn lemma_counts_add_up(cs: Seq<CheckView>)
    ensures
        count_severity(cs, Severity::Pass) + count_severity(cs, Severity::Warning)
            + count_severity(cs, Severity::Failure) == cs.len(),
    decreases cs.len(),
{
    if cs.len() > 0 {
        lemma_counts_add_up(cs.drop_last());
    }
}

} // verus!

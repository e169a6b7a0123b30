//! What the Lyrics section shows, and which synced line is being sung as
//! playback advances.

use vstd::prelude::*;
use crate::models::LyricLine;

verus! {

/// What the Lyrics section currently has to show.
#[derive(Debug, Clone, Default)]
pub enum LyricsState {
    /// No track, or the fetch for the current track has not completed.
    #[default]
    Pending,
    /// The fetch completed and the track has no lyrics.
    NotAvailable,
    /// Untimed text.
    Plain(String),
    /// Timed lines; `active` is the line being sung (`None` before the first
    /// line starts). It also serves as the scan cursor between ticks.
    Synced { lines: Vec<LyricLine>, active: Option<usize> },
}

/// Whether the lines are in ascending order of start time.
pub open spec fn sorted_by_start(lines: Seq<LyricLine>) -> bool {
    forall|i: int, j: int| 0 <= i <= j < lines.len() ==> lines[i].start_ms <= lines[j].start_ms
}

/// Whether `i` is the last line that has started by `position_ms`.
pub open spec fn is_last_started(lines: Seq<LyricLine>, position_ms: u64, i: int) -> bool {
    &&& 0 <= i < lines.len()
    &&& lines[i].start_ms <= position_ms
    &&& forall|j: int| i < j < lines.len() ==> lines[j].start_ms > position_ms
}

/// Whether no line has started by `position_ms`.
pub open spec fn none_started(lines: Seq<LyricLine>, position_ms: u64) -> bool {
    forall|j: int| 0 <= j < lines.len() ==> lines[j].start_ms > position_ms
}

/// The number of leading lines that have started by `position_ms`, found
/// by binary search. On lines sorted by start time, exactly the lines
/// before the returned index have started.
fn started_prefix(lines: &[LyricLine], position_ms: u64) -> (p: usize)
    ensures
        p <= lines@.len(),
        sorted_by_start(lines@) ==> forall|j: int| 0 <= j < p ==> lines@[j].start_ms <= position_ms,
        sorted_by_start(lines@) ==> forall|j: int| p <= j < lines@.len() ==> lines@[j].start_ms > position_ms,
{
    let mut lo: usize = 0;
    let mut hi: usize = lines.len();
    while lo < hi
        invariant
            lo <= hi <= lines@.len(),
            lo == 0 || lines@[lo - 1].start_ms <= position_ms,
            hi == lines@.len() || lines@[hi as int].start_ms > position_ms,
        decreases hi - lo,
    {
        let mid = lo + (hi - lo) / 2;
        if lines[mid].start_ms <= position_ms {
            lo = mid + 1;
        } else {
            hi = mid;
        }
    }
    lo
}

/// The line active at `position_ms`, moving on from `cursor`.
///
/// Walks forward from the cursor in the common case (playback moves on) and
/// falls back to a binary search when the position is before the cursor's
/// line (a seek backwards or a restart). On lines sorted by start time the
/// result is the last line that has started, whatever the cursor was, or
/// `None` when no line has started yet. Without lines there is no active
/// line, whatever the cursor.
pub fn advance_active_line(lines: &[LyricLine], cursor: Option<usize>, position_ms: u64) -> (r: Option<usize>)
    requires
        lines@.len() > 0 ==> (cursor matches Some(c) ==> c < lines@.len()),
    ensures
        lines@.len() == 0 ==> r is None,
        r matches Some(i) ==> i < lines@.len(),
        sorted_by_start(lines@) ==> match r {
            Some(i) => is_last_started(lines@, position_ms, i as int),
            None => none_started(lines@, position_ms),
        },
{
    if lines.len() == 0 {
        return None;
    }
    let idx = match cursor {
        Some(c) => c,
        None => 0,
    };
    if position_ms < lines[idx].start_ms {
        let pos = started_prefix(lines, position_ms);
        if pos > 0 {
            return Some(pos - 1);
        } else {
            return None;
        }
    }
    let mut idx = idx;
    while idx < lines.len() - 1 && lines[idx + 1].start_ms <= position_ms
        invariant
            idx < lines@.len(),
            lines@[idx as int].start_ms <= position_ms,
        decreases lines@.len() - idx,
    {
        idx = idx + 1;
    }
    Some(idx)
}

/// Law: on sorted lines the active line does not depend on the cursor it
/// was computed from — a resumed scan agrees with a scan from the start.
pub proof fn lemma_active_line_is_cursor_independent(
    lines: Seq<LyricLine>,
    position_ms: u64,
    a: Option<usize>,
    b: Option<usize>,
)
    requires
        sorted_by_start(lines),
        a matches Some(i) ==> is_last_started(lines, position_ms, i as int),
        a is None ==> none_started(lines, position_ms),
        b matches Some(i) ==> is_last_started(lines, position_ms, i as int),
        b is None ==> none_started(lines, position_ms),
    ensures
        a == b,
{
    match (a, b) {
        (Some(i), Some(j)) => {
            if i < j {
                assert(lines[j as int].start_ms > position_ms);
            } else if j < i {
                assert(lines[i as int].start_ms > position_ms);
            }
        },
        (Some(i), None) => {
            assert(lines[i as int].start_ms > position_ms);
        },
        (None, Some(j)) => {
            assert(lines[j as int].start_ms > position_ms);
        },
        (None, None) => {},
    }
}

} // verus!

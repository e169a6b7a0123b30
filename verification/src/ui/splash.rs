//! Timing of the entry animation: the wordmark assembling itself before the
//! application appears.
//!
//! Three phases share one window of [`SPLASH_MS`] animation-time
//! milliseconds: the wipe (first 40%), the tagline fade (up to 70%) and the
//! handoff to the real interface (the rest).

use vstd::prelude::*;

verus! {

/// Total length of the entry animation, in animation-time milliseconds.
pub const SPLASH_MS: u128 = 1100;

/// Where the wipe ends (40% of the window).
pub const WIPE_END_MS: u128 = 440;

/// Where the tagline fade ends (70% of the window).
pub const TAGLINE_END_MS: u128 = 770;

/// Width of the wordmark, in columns.
pub const LOGO_WIDTH: usize = 23;

/// Which phase the animation is in.
#[derive(Debug, Clone, Copy, PartialEq, Eq, Structural)]
pub enum Phase {
    /// The wordmark revealing left to right; `columns` of it are visible.
    Wipe { columns: usize },
    /// The wordmark complete, the tagline fading up (0..=100).
    Tagline { fade: u8 },
    /// The real interface underneath, the wordmark travelling out (0..=100).
    Handoff { travel: u8 },
    /// The animation is over.
    Done,
}

/// `n / d` rounded to the nearest integer, halves up.
pub open spec fn round_div(n: int, d: int) -> int {
    (2 * n + d) / (2 * d)
}

/// The phase at `elapsed_ms`.
///
/// The wipe shows `ceil(elapsed * 23 / 440)` columns, at least one from the
/// very first frame; fade and travel sweep 0..=100 across their phase.
pub open spec fn spec_phase_at(elapsed_ms: int) -> Phase {
    if elapsed_ms >= SPLASH_MS {
        Phase::Done
    } else if elapsed_ms < WIPE_END_MS {
        let c = (elapsed_ms * LOGO_WIDTH + WIPE_END_MS - 1) / (WIPE_END_MS as int);
        Phase::Wipe { columns: if c < 1 { 1 } else if c > LOGO_WIDTH { LOGO_WIDTH } else { c as usize } }
    } else if elapsed_ms < TAGLINE_END_MS {
        Phase::Tagline { fade: round_div((elapsed_ms - WIPE_END_MS) * 100, 330) as u8 }
    } else {
        Phase::Handoff { travel: round_div((elapsed_ms - TAGLINE_END_MS) * 100, 330) as u8 }
    }
}

/// Resolves the phase at `elapsed_ms` (see [`spec_phase_at`]).
pub fn phase_at(elapsed_ms: u128) -> (r: Phase)
    ensures
        r == spec_phase_at(elapsed_ms as int),
        r matches Phase::Wipe { columns } ==> 1 <= columns <= LOGO_WIDTH,
        r matches Phase::Tagline { fade } ==> fade <= 100,
        r matches Phase::Handoff { travel } ==> travel <= 100,
{
    if elapsed_ms >= SPLASH_MS {
        return Phase::Done;
    }
    let e: u64 = elapsed_ms as u64;
    if elapsed_ms < WIPE_END_MS {
        let c: u64 = (e * 23 + 439) / 440;
        assert(c <= 23) by (nonlinear_arith)
            requires e < 440, c == (e * 23 + 439) / 440;
        let columns: usize = if c < 1 { 1 } else { c as usize };
        return Phase::Wipe { columns };
    }
    if elapsed_ms < TAGLINE_END_MS {
        let n: u64 = (e - 440) * 100;
        let f: u64 = (2 * n + 330) / 660;
        assert(f <= 100) by (nonlinear_arith)
            requires e < 770, e >= 440, n == (e - 440) * 100, f == (2 * n + 330) / 660;
        return Phase::Tagline { fade: f as u8 };
    }
    let n: u64 = (e - 770) * 100;
    let t: u64 = (2 * n + 330) / 660;
    assert(t <= 100) by (nonlinear_arith)
        requires e < 1100, e >= 770, n == (e - 770) * 100, t == (2 * n + 330) / 660;
    Phase::Handoff { travel: t as u8 }
}

/// Whether the real interface is drawn underneath: only from the handoff on.
pub fn shows_app_underneath(phase: Phase) -> (r: bool)
    ensures
        r == (phase is Handoff || phase is Done),
{
    match phase {
        Phase::Handoff { .. } | Phase::Done => true,
        _ => false,
    }
}

/// Law: the phases come in order — wipe, tagline, handoff, done — and once
/// done the animation stays done.
pub proof fn lemma_phases_in_order(a: int, b: int)
    requires
        0 <= a <= b,
    ensures
        spec_phase_at(a) is Done ==> spec_phase_at(b) is Done,
        spec_phase_at(a) is Handoff ==> (spec_phase_at(b) is Handoff || spec_phase_at(b) is Done),
        spec_phase_at(a) is Tagline ==> !(spec_phase_at(b) is Wipe),
{
}

} // verus!

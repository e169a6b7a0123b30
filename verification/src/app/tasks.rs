//! The in-flight task counter behind the loading spinner.

use vstd::prelude::*;
use crate::app::{App, Effect, MediaCommand};
use crate::app::authentication::in_flight;
use crate::app::playback::{skipped_back, skipped_forward, stopped};

verus! {

/// `n + 1`, saturating at the largest count.
pub open spec fn sat_inc(n: usize) -> usize {
    if n == usize::MAX { n } else { (n + 1) as usize }
}

/// `n - 1`, saturating at zero.
pub open spec fn sat_dec(n: usize) -> usize {
    if n == 0 { 0 } else { (n - 1) as usize }
}

/// Every counted task that starts and then finishes leaves the counter as
/// it found it (short of the saturated top), so the spinner stops once
/// every task has reported back.
pub proof fn lemma_begin_finish_balances(n: usize)
    requires
        n < usize::MAX,
    ensures
        sat_dec(sat_inc(n)) == n,
{
}

/// Extra finishes never drive the counter below zero.
pub proof fn lemma_finish_saturates(n: usize)
    ensures
        sat_dec(n) <= n,
        n == 0 ==> sat_dec(n) == 0,
{
}

impl App {
    /// Whether a counted loading task is in flight.
    pub fn busy(&self) -> (r: bool)
        ensures
            r == (self.busy_tasks > 0),
    {
        self.busy_tasks > 0
    }

    /// Records the start of a counted task. Each one must end in exactly
    /// one message that finishes it.
    pub fn begin_task(&mut self)
        ensures
            *final(self) == (App { busy_tasks: sat_inc(old(self).busy_tasks), ..*old(self) }),
    {
        self.busy_tasks = self.busy_tasks.saturating_add(1);
    }

    /// Records the end of a counted task. Saturating: uncounted tasks also
    /// report errors, and an extra decrement must not corrupt the counter.
    pub fn finish_task(&mut self)
        ensures
            *final(self) == (App { busy_tasks: sat_dec(old(self).busy_tasks), ..*old(self) }),
    {
        self.busy_tasks = self.busy_tasks.saturating_sub(1);
    }

    /// Whether anything is loading (network or audio).
    pub fn is_loading(&self) -> (r: bool)
        ensures
            r == (self.busy_tasks > 0 || self.loading_audio),
    {
        self.busy() || self.loading_audio
    }

    /// The current frame of the loading spinner.
    pub fn spinner(&self) -> (r: char)
        ensures
            r == spinner_frame_char((self.spinner_frame % 10) as int),
    {
        match self.spinner_frame % 10 {
            0 => '⠋',
            1 => '⠙',
            2 => '⠹',
            3 => '⠸',
            4 => '⠼',
            5 => '⠴',
            6 => '⠦',
            7 => '⠧',
            8 => '⠇',
            _ => '⠏',
        }
    }
}

/// The braille frames of the spinner.
pub open spec fn spinner_frame_char(i: int) -> char {
    if i == 0 {
        '⠋'
    } else if i == 1 {
        '⠙'
    } else if i == 2 {
        '⠹'
    } else if i == 3 {
        '⠸'
    } else if i == 4 {
        '⠼'
    } else if i == 5 {
        '⠴'
    } else if i == 6 {
        '⠦'
    } else if i == 7 {
        '⠧'
    } else if i == 8 {
        '⠇'
    } else {
        '⠏'
    }
}

impl App {
    /// What `toggle_pause` leaves and returns.
    pub open spec fn toggle_pause_outcome(before: App, after: App, r: Effect) -> bool {
        &&& r is TogglePause
        &&& after == (App { paused: !before.paused, ..before })
    }

    /// Pauses or resumes playback.
    pub fn toggle_pause(&mut self) -> (r: Effect)
        ensures
            App::toggle_pause_outcome(*old(self), *final(self), r),
    {
        self.paused = !self.paused;
        Effect::TogglePause
    }

    /// Applies a media-key command through the same paths as the keyboard.
    #[verifier::spinoff_prover]
    #[verifier::rlimit(40)]
    pub fn handle_media_command(&mut self, command: MediaCommand) -> (r: Option<Effect>)
        requires
            old(self).wf(),
        ensures
            final(self).wf(),
            match command {
                MediaCommand::Play => if old(self).paused {
                    r == Some(Effect::TogglePause) && *final(self) == (App { paused: false, ..*old(self) })
                } else {
                    r is None && *final(self) == *old(self)
                },
                MediaCommand::Pause => if !old(self).paused {
                    r == Some(Effect::TogglePause) && *final(self) == (App { paused: true, ..*old(self) })
                } else {
                    r is None && *final(self) == *old(self)
                },
                MediaCommand::Toggle => r == Some(Effect::TogglePause)
                    && *final(self) == (App { paused: !old(self).paused, ..*old(self) }),
                MediaCommand::Next => skipped_forward(*old(self), *final(self), r),
                MediaCommand::Previous => skipped_back(*old(self), *final(self), r),
                MediaCommand::Stop => r == Some(Effect::StopPlayer) && stopped(*old(self), *final(self)),
                MediaCommand::SeekForward => *final(self) == *old(self)
                    && r == (if old(self).current is Some { Some(Effect::SeekBy { forward: true, secs: 5 }) } else { None }),
                MediaCommand::SeekBackward => *final(self) == *old(self)
                    && r == (if old(self).current is Some { Some(Effect::SeekBy { forward: false, secs: 5 }) } else { None }),
                MediaCommand::SeekBy { forward, secs } => *final(self) == *old(self)
                    && r == (if old(self).current is Some {
                        Some(Effect::SeekBy { forward, secs: if secs < 1 { 1 } else { secs } })
                    } else {
                        None
                    }),
                MediaCommand::SetPosition { ms } => *final(self) == *old(self)
                    && r == (if old(self).current is Some { Some(Effect::SeekTo { ms }) } else { None }),
                MediaCommand::Quit => r is None && (
                    (in_flight(old(self).authentication_flow) ==> *final(self) == (App { status: final(self).status, ..*old(self) })
                        && final(self).status@ == "Aguarde a conexão em andamento terminar antes de sair."@)
                    && (!in_flight(old(self).authentication_flow) ==> *final(self) == (App { running: false, ..*old(self) }))
                ),
                MediaCommand::Ignored => r is None && *final(self) == *old(self),
            },
    {
        match command {
            MediaCommand::Play => {
                if self.paused {
                    Some(self.toggle_pause())
                } else {
                    None
                }
            },
            MediaCommand::Pause => {
                if !self.paused {
                    Some(self.toggle_pause())
                } else {
                    None
                }
            },
            MediaCommand::Toggle => Some(self.toggle_pause()),
            MediaCommand::Next => self.next_track(),
            MediaCommand::Previous => self.prev_track(),
            MediaCommand::Stop => Some(self.stop_playback()),
            MediaCommand::SeekForward => self.seek_forward(),
            MediaCommand::SeekBackward => self.seek_backward(),
            MediaCommand::SeekBy { forward, secs } => {
                if self.current.is_some() {
                    Some(Effect::SeekBy { forward, secs: if secs < 1 { 1 } else { secs } })
                } else {
                    None
                }
            },
            MediaCommand::SetPosition { ms } => {
                if self.current.is_some() {
                    Some(Effect::SeekTo { ms })
                } else {
                    None
                }
            },
            MediaCommand::Quit => {
                self.request_quit();
                None
            },
            MediaCommand::Ignored => None,
        }
    }
}

} // verus!

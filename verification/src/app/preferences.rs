//! The editable preferences behind the Settings section.
//!
//! Every preference is one [`SettingRow`]: it has a label, a hint, a way to
//! render its current value and a way to step it in either direction.
//! Changes apply the moment they are made, and each one asks for the
//! preferences to be saved.

use vstd::prelude::*;
use vstd::arithmetic::div_mod::lemma_fundamental_div_mod_converse;
use crate::app::{App, Effect};
use crate::app::navigation::{lemma_wrap_back, wrap_offset};
use crate::artwork::wants_picker;
use crate::config::{AnimationSpeed, ArtworkMode, HomeDensity, VisualizerStyle};
use crate::text::{copy_string, decimal, decimal_string, push_chars, push_str, string_from};
use crate::ui::state::{AnimationClock, LyricsView, UiState, clamp_int};

verus! {

/// One editable preference.
#[derive(Debug, Clone, Copy, PartialEq, Eq, Structural)]
pub enum SettingRow {
    Theme,
    Artwork,
    HomeDensity,
    Visualizer,
    AnimationSpeed,
    ReducedMotion,
    Splash,
    SyncInterval,
    LyricsOffset,
}

/// Background-sync intervals offered, in seconds: a fixed ladder, one key
/// press per step.
pub const SYNC_STEPS: [u64; 5] = [60, 120, 300, 600, 900];

/// The sync interval at step `i` of the ladder.
pub open spec fn sync_step(i: int) -> u64 {
    if i == 0 {
        60
    } else if i == 1 {
        120
    } else if i == 2 {
        300
    } else if i == 3 {
        600
    } else {
        900
    }
}

/// The ladder step of `secs`, or the middle step for a value off the
/// ladder (a hand-edited configuration).
pub open spec fn sync_index(secs: u64) -> int {
    if secs == 60 {
        0
    } else if secs == 120 {
        1
    } else if secs == 300 {
        2
    } else if secs == 600 {
        3
    } else if secs == 900 {
        4
    } else {
        2
    }
}

impl SettingRow {
    /// The rows in display order: appearance, then motion, then behaviour.
    pub fn all() -> (r: [SettingRow; 9])
        ensures
            r@ == seq![
                SettingRow::Theme,
                SettingRow::Artwork,
                SettingRow::HomeDensity,
                SettingRow::Visualizer,
                SettingRow::AnimationSpeed,
                SettingRow::ReducedMotion,
                SettingRow::Splash,
                SettingRow::SyncInterval,
                SettingRow::LyricsOffset,
            ],
    {
        let r = [
            SettingRow::Theme,
            SettingRow::Artwork,
            SettingRow::HomeDensity,
            SettingRow::Visualizer,
            SettingRow::AnimationSpeed,
            SettingRow::ReducedMotion,
            SettingRow::Splash,
            SettingRow::SyncInterval,
            SettingRow::LyricsOffset,
        ];
        assert(r@ =~= seq![
            SettingRow::Theme,
            SettingRow::Artwork,
            SettingRow::HomeDensity,
            SettingRow::Visualizer,
            SettingRow::AnimationSpeed,
            SettingRow::ReducedMotion,
            SettingRow::Splash,
            SettingRow::SyncInterval,
            SettingRow::LyricsOffset,
        ]);
        r
    }

    /// The row's label.
    pub fn label(self) -> (r: &'static str)
        ensures
            r@ == match self {
                SettingRow::Theme => "Tema"@,
                SettingRow::Artwork => "Capa do álbum"@,
                SettingRow::HomeDensity => "Densidade da Início"@,
                SettingRow::Visualizer => "Visualizador"@,
                SettingRow::AnimationSpeed => "Velocidade das animações"@,
                SettingRow::ReducedMotion => "Reduzir movimento"@,
                SettingRow::Splash => "Animação de entrada"@,
                SettingRow::SyncInterval => "Atualizar em segundo plano"@,
                SettingRow::LyricsOffset => "Sincronia da letra"@,
            },
    {
        match self {
            SettingRow::Theme => "Tema",
            SettingRow::Artwork => "Capa do álbum",
            SettingRow::HomeDensity => "Densidade da Início",
            SettingRow::Visualizer => "Visualizador",
            SettingRow::AnimationSpeed => "Velocidade das animações",
            SettingRow::ReducedMotion => "Reduzir movimento",
            SettingRow::Splash => "Animação de entrada",
            SettingRow::SyncInterval => "Atualizar em segundo plano",
            SettingRow::LyricsOffset => "Sincronia da letra",
        }
    }

    /// One line on what the row affects, shown under the cursor.
    pub fn hint(self) -> (r: &'static str)
        ensures
            r@ == match self {
                SettingRow::Theme => "Presets embutidos + os seus em ~/.config/ytmtui/themes/*.toml"@,
                SettingRow::Artwork => "\"auto\" consulta o protocolo do terminal; \"blocos\" nunca consulta"@,
                SettingRow::HomeDensity => "Cards compactos cabem mais linhas na tela"@,
                SettingRow::Visualizer => "Espectro em tempo real na Início e no Now Playing"@,
                SettingRow::AnimationSpeed => "Escala toda animação: marquee, revelações, entrada"@,
                SettingRow::ReducedMotion => "Desliga animações não essenciais e economiza redraws"@,
                SettingRow::Splash => "Ignorada quando \"Reduzir movimento\" está ligado"@,
                SettingRow::SyncInterval => "De quanto em quanto tempo Início e Biblioteca recarregam"@,
                SettingRow::LyricsOffset => "Corrige letras adiantadas ou atrasadas (também com < e >)"@,
            },
    {
        match self {
            SettingRow::Theme => "Presets embutidos + os seus em ~/.config/ytmtui/themes/*.toml",
            SettingRow::Artwork => "\"auto\" consulta o protocolo do terminal; \"blocos\" nunca consulta",
            SettingRow::HomeDensity => "Cards compactos cabem mais linhas na tela",
            SettingRow::Visualizer => "Espectro em tempo real na Início e no Now Playing",
            SettingRow::AnimationSpeed => "Escala toda animação: marquee, revelações, entrada",
            SettingRow::ReducedMotion => "Desliga animações não essenciais e economiza redraws",
            SettingRow::Splash => "Ignorada quando \"Reduzir movimento\" está ligado",
            SettingRow::SyncInterval => "De quanto em quanto tempo Início e Biblioteca recarregam",
            SettingRow::LyricsOffset => "Corrige letras adiantadas ou atrasadas (também com < e >)",
        }
    }
}

/// `index + delta` wrapped into `0..len`, at both ends; 0 on an empty list.
/// A setting that stopped at its last value would leave a key doing nothing.
pub fn wrap(index: usize, delta: i32, len: usize) -> (r: usize)
    requires
        len == 0 || (index <= i32::MAX && 2 * len <= i32::MAX + 1 && i32::MIN <= index + delta <= i32::MAX),
    ensures
        len == 0 ==> r == 0,
        len > 0 ==> r == (index + delta) % (len as int),
{
    if len == 0 {
        return 0;
    }
    wrap_offset(index, delta as i64, len)
}

/// "sim" or "não".
pub fn yes_no(value: bool) -> (r: String)
    ensures
        r@ == (if value { "sim"@ } else { "não"@ }),
{
    if value { string_from("sim") } else { string_from("não") }
}

/// A sync interval: whole minutes as "N min", anything else in seconds.
pub fn format_interval(secs: u64) -> (r: String)
    ensures
        r@ == (if secs % 60 == 0 { decimal((secs / 60) as nat) + " min"@ } else { decimal(secs as nat) + "s"@ }),
{
    let mut s = string_from("");
    proof {
        reveal_strlit("");
    }
    if secs % 60 == 0 {
        let d = decimal_string(secs / 60);
        push_chars(&mut s, &d);
        push_str(&mut s, " min");
    } else {
        let d = decimal_string(secs);
        push_chars(&mut s, &d);
        push_str(&mut s, "s");
    }
    s
}

/// Position of an artwork mode in its cycle.
pub open spec fn artwork_pos(m: ArtworkMode) -> int {
    match m {
        ArtworkMode::Auto => 0,
        ArtworkMode::HalfBlocks => 1,
        ArtworkMode::Off => 2,
    }
}

/// The artwork mode at position `i` of its cycle.
pub open spec fn artwork_at(i: int) -> ArtworkMode {
    if i == 0 { ArtworkMode::Auto } else if i == 1 { ArtworkMode::HalfBlocks } else { ArtworkMode::Off }
}

/// Position of a Home density in its cycle.
pub open spec fn density_pos(d: HomeDensity) -> int {
    match d {
        HomeDensity::Comfortable => 0,
        HomeDensity::Compact => 1,
    }
}

/// The Home density at position `i` of its cycle.
pub open spec fn density_at(i: int) -> HomeDensity {
    if i == 0 { HomeDensity::Comfortable } else { HomeDensity::Compact }
}

/// Position of a visualizer style in its cycle.
pub open spec fn visualizer_pos(v: VisualizerStyle) -> int {
    match v {
        VisualizerStyle::Gradient => 0,
        VisualizerStyle::Mono => 1,
        VisualizerStyle::Off => 2,
    }
}

/// The visualizer style at position `i` of its cycle.
pub open spec fn visualizer_at(i: int) -> VisualizerStyle {
    if i == 0 { VisualizerStyle::Gradient } else if i == 1 { VisualizerStyle::Mono } else { VisualizerStyle::Off }
}

/// Position of an animation speed in its cycle (slow to fast).
pub open spec fn speed_pos(s: AnimationSpeed) -> int {
    match s {
        AnimationSpeed::Slow => 0,
        AnimationSpeed::Normal => 1,
        AnimationSpeed::Fast => 2,
    }
}

/// The animation speed at position `i` of its cycle.
pub open spec fn speed_at(i: int) -> AnimationSpeed {
    if i == 0 { AnimationSpeed::Slow } else if i == 1 { AnimationSpeed::Normal } else { AnimationSpeed::Fast }
}

/// A nonzero lyrics correction of `ms` milliseconds in seconds with two
/// decimals and its sign, e.g. `+0.25s`, when `ms` is a whole number of
/// hundredths of a second (the two decimals are then exact).
pub open spec fn offset_seconds(ms: int) -> Seq<char> {
    let a = if ms < 0 { -ms } else { ms };
    (if ms > 0 { "+"@ } else { "-"@ }) + decimal((a / 1000) as nat) + "."@
        + crate::ui::layout::two_digits(((a % 1000) / 10) as nat) + "s"@
}

/// The label of a lyrics correction (see [`offset_seconds`]); `None` for a
/// zero correction or one that is not a whole number of hundredths.
pub fn offset_label(ms: i64) -> (r: Option<String>)
    ensures
        ms != 0 && ms % 10 == 0 ==> (r matches Some(s) && s@ == offset_seconds(ms as int)),
        !(ms != 0 && ms % 10 == 0) ==> r is None,
{
    if ms == 0 || ms % 10 != 0 {
        return None;
    }
    let wide: i128 = ms as i128;
    let a: u64 = if ms < 0 { (0 - wide) as u64 } else { ms as u64 };
    let mut s = if ms > 0 { string_from("+") } else { string_from("-") };
    let whole = decimal_string(a / 1000);
    push_chars(&mut s, &whole);
    push_str(&mut s, ".");
    let cents = (a % 1000) / 10;
    if cents < 10 {
        push_str(&mut s, "0");
    }
    let c = decimal_string(cents);
    push_chars(&mut s, &c);
    push_str(&mut s, "s");
    proof {
        assert(s@ =~= offset_seconds(ms as int));
    }
    Some(s)
}

/// The value a row shows for the state `app`: `None` only for a lyrics
/// correction that is not a whole number of hundredths of a second, which
/// the caller shows in seconds with two decimals.
pub open spec fn spec_setting_value(app: App, row: SettingRow) -> Option<Seq<char>> {
    match row {
        SettingRow::Theme => Some(app.theme_names@[app.theme_index as int]@),
        SettingRow::Artwork => Some(match app.artwork_mode {
            ArtworkMode::Auto => "auto"@,
            ArtworkMode::HalfBlocks => "blocos Unicode"@,
            ArtworkMode::Off => "desligada"@,
        }),
        SettingRow::HomeDensity => Some(match app.home_density {
            HomeDensity::Comfortable => "confortável"@,
            HomeDensity::Compact => "compacta"@,
        }),
        SettingRow::Visualizer => Some(match app.visualizer_style {
            VisualizerStyle::Gradient => "gradiente"@,
            VisualizerStyle::Mono => "cor única"@,
            VisualizerStyle::Off => "desligado"@,
        }),
        SettingRow::AnimationSpeed => Some(match app.ui.anim.speed {
            AnimationSpeed::Fast => "rápida"@,
            AnimationSpeed::Normal => "normal"@,
            AnimationSpeed::Slow => "lenta"@,
        }),
        SettingRow::ReducedMotion => Some(if app.ui.anim.reduced_motion { "sim"@ } else { "não"@ }),
        SettingRow::Splash => Some(if app.splash_enabled { "sim"@ } else { "não"@ }),
        SettingRow::SyncInterval => Some(if app.sync_interval_secs % 60 == 0 {
            decimal((app.sync_interval_secs / 60) as nat) + " min"@
        } else {
            decimal(app.sync_interval_secs as nat) + "s"@
        }),
        SettingRow::LyricsOffset => if app.ui.lyrics.offset_ms == 0 {
            Some("original"@)
        } else if app.ui.lyrics.offset_ms % 10 == 0 {
            Some(offset_seconds(app.ui.lyrics.offset_ms as int))
        } else {
            None
        },
    }
}

impl App {
    /// The value `row` shows (see [`spec_setting_value`]).
    pub fn setting_value(&self, row: SettingRow) -> (r: Option<String>)
        requires
            self.wf(),
        ensures
            match (r, spec_setting_value(*self, row)) {
                (Some(s), Some(v)) => s@ == v,
                (None, None) => true,
                _ => false,
            },
    {
        match row {
            SettingRow::Theme => Some(copy_string(&self.theme_names[self.theme_index])),
            SettingRow::Artwork => Some(match self.artwork_mode {
                ArtworkMode::Auto => string_from("auto"),
                ArtworkMode::HalfBlocks => string_from("blocos Unicode"),
                ArtworkMode::Off => string_from("desligada"),
            }),
            SettingRow::HomeDensity => Some(match self.home_density {
                HomeDensity::Comfortable => string_from("confortável"),
                HomeDensity::Compact => string_from("compacta"),
            }),
            SettingRow::Visualizer => Some(match self.visualizer_style {
                VisualizerStyle::Gradient => string_from("gradiente"),
                VisualizerStyle::Mono => string_from("cor única"),
                VisualizerStyle::Off => string_from("desligado"),
            }),
            SettingRow::AnimationSpeed => Some(match self.ui.anim.speed() {
                AnimationSpeed::Fast => string_from("rápida"),
                AnimationSpeed::Normal => string_from("normal"),
                AnimationSpeed::Slow => string_from("lenta"),
            }),
            SettingRow::ReducedMotion => Some(yes_no(self.ui.anim.reduced_motion())),
            SettingRow::Splash => Some(yes_no(self.splash_enabled)),
            SettingRow::SyncInterval => Some(format_interval(self.sync_interval_secs)),
            SettingRow::LyricsOffset => {
                let ms = self.ui.lyrics.offset_ms();
                if ms == 0 {
                    Some(string_from("original"))
                } else {
                    offset_label(ms)
                }
            },
        }
    }

    /// Steps `row` by `delta` (+1 or -1) and asks for the preferences to be
    /// saved; a new artwork mode also asks for the cover to be rebuilt.
    /// Every change takes effect at once: the screen behind the panel is
    /// the preview.
    #[verifier::spinoff_prover]
    pub fn step_setting(&mut self, row: SettingRow, delta: i32) -> (r: Vec<Effect>)
        requires
            old(self).wf(),
            -1 <= delta <= 1,
            old(self).theme_names@.len() <= 1_000_000,
        ensures
            final(self).wf(),
            stepped(*old(self), row, delta, *final(self)),
            r@ == (if row == SettingRow::Artwork {
                seq![Effect::ApplyArtworkMode, Effect::SaveConfig]
            } else {
                seq![Effect::SaveConfig]
            }),
    {
        let mut effects: Vec<Effect> = Vec::new();
        match row {
            SettingRow::Theme => self.step_theme(delta),
            SettingRow::Artwork => {
                self.step_artwork(delta);
                effects.push(Effect::ApplyArtworkMode);
            },
            SettingRow::HomeDensity => self.step_density(delta),
            SettingRow::Visualizer => self.step_visualizer(delta),
            SettingRow::AnimationSpeed => self.step_speed(delta),
            SettingRow::ReducedMotion => self.toggle_reduced_motion(),
            SettingRow::Splash => {
                self.splash_enabled = !self.splash_enabled;
            },
            SettingRow::SyncInterval => self.step_sync(delta),
            SettingRow::LyricsOffset => self.step_lyrics_offset(delta),
        }
        effects.push(Effect::SaveConfig);
        effects
    }

    fn toggle_reduced_motion(&mut self)
        ensures
            stepped(*old(self), SettingRow::ReducedMotion, 0, *final(self)),
    {
        let reduced = !self.ui.anim.reduced_motion();
        self.ui.anim.set_reduced_motion(reduced);
    }

    fn step_lyrics_offset(&mut self, delta: i32)
        requires
            -1 <= delta <= 1,
        ensures
            stepped(*old(self), SettingRow::LyricsOffset, delta, *final(self)),
    {
        self.ui.lyrics.adjust_offset(250 * delta as i64);
    }

    fn step_theme(&mut self, delta: i32)
        requires
            old(self).wf(),
            -1 <= delta <= 1,
            old(self).theme_names@.len() <= 1_000_000,
        ensures
            final(self).wf(),
            theme_stepped(*old(self), delta, *final(self)),
    {
        self.theme_index = wrap(self.theme_index, delta, self.theme_names.len());
    }

    fn step_artwork(&mut self, delta: i32)
        requires
            -1 <= delta <= 1,
        ensures
            artwork_stepped(*old(self), delta, *final(self)),
    {
        let pos: usize = match self.artwork_mode {
            ArtworkMode::Auto => 0,
            ArtworkMode::HalfBlocks => 1,
            ArtworkMode::Off => 2,
        };
        let next = wrap(pos, delta, 3);
        let mode = if next == 0 {
            ArtworkMode::Auto
        } else if next == 1 {
            ArtworkMode::HalfBlocks
        } else {
            ArtworkMode::Off
        };
        let has_artwork = if wants_picker(mode) { self.has_artwork } else { false };
        self.artwork_mode = mode;
        self.has_artwork = has_artwork;
        self.clear_screen = true;
    }

    fn step_density(&mut self, delta: i32)
        requires
            -1 <= delta <= 1,
        ensures
            density_stepped(*old(self), delta, *final(self)),
    {
        let pos: usize = match self.home_density {
            HomeDensity::Comfortable => 0,
            HomeDensity::Compact => 1,
        };
        let next = wrap(pos, delta, 2);
        self.home_density = if next == 0 { HomeDensity::Comfortable } else { HomeDensity::Compact };
    }

    fn step_visualizer(&mut self, delta: i32)
        requires
            -1 <= delta <= 1,
        ensures
            visualizer_stepped(*old(self), delta, *final(self)),
    {
        let pos: usize = match self.visualizer_style {
            VisualizerStyle::Gradient => 0,
            VisualizerStyle::Mono => 1,
            VisualizerStyle::Off => 2,
        };
        let next = wrap(pos, delta, 3);
        self.visualizer_style = if next == 0 {
            VisualizerStyle::Gradient
        } else if next == 1 {
            VisualizerStyle::Mono
        } else {
            VisualizerStyle::Off
        };
    }

    #[verifier::spinoff_prover]
    #[verifier::rlimit(30)]
    fn step_speed(&mut self, delta: i32)
        requires
            -1 <= delta <= 1,
        ensures
            speed_stepped(*old(self), delta, *final(self)),
    {
        let pos: usize = match self.ui.anim.speed() {
            AnimationSpeed::Slow => 0,
            AnimationSpeed::Normal => 1,
            AnimationSpeed::Fast => 2,
        };
        let next = wrap(pos, delta, 3);
        let speed = if next == 0 {
            AnimationSpeed::Slow
        } else if next == 1 {
            AnimationSpeed::Normal
        } else {
            AnimationSpeed::Fast
        };
        self.ui.anim.set_speed(speed);
    }

    fn step_sync(&mut self, delta: i32)
        requires
            -1 <= delta <= 1,
        ensures
            sync_stepped(*old(self), delta, *final(self)),
    {
        let current = self.sync_interval_secs;
        let index: usize = if current == 60 {
            0
        } else if current == 120 {
            1
        } else if current == 300 {
            2
        } else if current == 600 {
            3
        } else if current == 900 {
            4
        } else {
            2
        };
        let next = wrap(index, delta, 5);
        self.sync_interval_secs = SYNC_STEPS[next];
    }

    /// What `cycle_theme` leaves and returns.
    pub open spec fn cycle_theme_outcome(before: App, after: App, r: Effect) -> bool {
        &&& r is SaveConfig
        &&& after.wf()
        &&& ({
                    let next = ((before.theme_index + 1) % (before.theme_names@.len() as int)) as usize;
                    &&& after == (App { theme_index: next, status: after.status, ..before })
                    &&& after.status@ == "🎨 Tema: "@ + before.theme_names@[next as int]@
                })
    }

    /// Switches to the next colour theme, reports it and asks for the
    /// preferences to be saved.
    pub fn cycle_theme(&mut self) -> (r: Effect)
        requires
            old(self).wf(),
        ensures
            App::cycle_theme_outcome(*old(self), *final(self), r),
    {
        let n = self.theme_names.len();
        let next = if self.theme_index + 1 < n { self.theme_index + 1 } else { 0 };
        proof {
            crate::app::navigation::lemma_succ_mod(self.theme_index as int, n as int);
        }
        self.theme_index = next;
        let mut status = string_from("🎨 Tema: ");
        push_str(&mut status, self.theme_names[next].as_str());
        self.status = status;
        Effect::SaveConfig
    }

    /// Asks for the preferences to be saved.
    pub fn save_config(&self) -> (r: Effect)
        ensures
            r is SaveConfig,
    {
        Effect::SaveConfig
    }
}

/// Whether `after` is `before` with `row` stepped by `delta` (see
/// [`App::step_setting`]).
pub open spec fn stepped(before: App, row: SettingRow, delta: i32, after: App) -> bool {
    match row {
        SettingRow::Theme => theme_stepped(before, delta, after),
        SettingRow::Artwork => artwork_stepped(before, delta, after),
        SettingRow::HomeDensity => density_stepped(before, delta, after),
        SettingRow::Visualizer => visualizer_stepped(before, delta, after),
        SettingRow::AnimationSpeed => speed_stepped(before, delta, after),
        SettingRow::ReducedMotion => after == (App {
            ui: UiState {
                anim: AnimationClock {
                    reduced_motion: !before.ui.anim.reduced_motion,
                    animate_until: if !before.ui.anim.reduced_motion { None } else { before.ui.anim.animate_until },
                    ..before.ui.anim
                },
                ..before.ui
            },
            ..before
        }),
        SettingRow::Splash => after == (App { splash_enabled: !before.splash_enabled, ..before }),
        SettingRow::SyncInterval => sync_stepped(before, delta, after),
        SettingRow::LyricsOffset => after == (App {
            ui: UiState {
                lyrics: LyricsView {
                    offset_ms: clamp_int(before.ui.lyrics.offset_ms + 250 * delta, -10_000, 10_000) as i64,
                    ..before.ui.lyrics
                },
                ..before.ui
            },
            ..before
        }),
    }
}

/// The theme stepped by `delta`, wrapping.
pub open spec fn theme_stepped(before: App, delta: i32, after: App) -> bool {
    after == (App {
        theme_index: ((before.theme_index + delta) % (before.theme_names@.len() as int)) as usize,
        ..before
    })
}

/// The artwork mode stepped by `delta`, wrapping; turning it off drops the
/// cover on screen, and the screen is cleared for the change.
pub open spec fn artwork_stepped(before: App, delta: i32, after: App) -> bool {
    let mode = artwork_at((artwork_pos(before.artwork_mode) + delta) % 3);
    after == (App {
        artwork_mode: mode,
        has_artwork: if mode == ArtworkMode::Off { false } else { before.has_artwork },
        clear_screen: true,
        ..before
    })
}

/// The Home density stepped by `delta`, wrapping.
pub open spec fn density_stepped(before: App, delta: i32, after: App) -> bool {
    after == (App { home_density: density_at((density_pos(before.home_density) + delta) % 2), ..before })
}

/// The visualizer style stepped by `delta`, wrapping.
pub open spec fn visualizer_stepped(before: App, delta: i32, after: App) -> bool {
    after == (App { visualizer_style: visualizer_at((visualizer_pos(before.visualizer_style) + delta) % 3), ..before })
}

/// The animation speed stepped by `delta`, wrapping.
pub open spec fn speed_stepped(before: App, delta: i32, after: App) -> bool {
    after == (App {
        ui: UiState {
            anim: AnimationClock { speed: speed_at((speed_pos(before.ui.anim.speed) + delta) % 3), ..before.ui.anim },
            ..before.ui
        },
        ..before
    })
}

/// The sync interval stepped by `delta` along its ladder, wrapping.
pub open spec fn sync_stepped(before: App, delta: i32, after: App) -> bool {
    after == (App { sync_interval_secs: sync_step((sync_index(before.sync_interval_secs) + delta) % 5), ..before })
}

/// Stepping the theme forward and then back shows the theme it had.
pub proof fn lemma_theme_back(a: App, b: App, c: App)
    requires
        a.wf(),
        theme_stepped(a, 1i32, b),
        theme_stepped(b, -1i32, c),
    ensures
        spec_setting_value(c, SettingRow::Theme) == spec_setting_value(a, SettingRow::Theme),
{
    let n = a.theme_names@.len() as int;
    let i = a.theme_index as int;
    lemma_wrap_back(i, n);
    vstd::arithmetic::div_mod::lemma_mod_pos_bound(i + 1, n);
    assert(a.theme_names@.len() == a.theme_names.len());
    assert(b.theme_index as int == (i + 1) % n);
    assert(c.theme_index as int == i);
}

/// Stepping the artwork mode forward and then back restores it.
pub proof fn lemma_artwork_back(a: App, b: App, c: App)
    requires
        artwork_stepped(a, 1i32, b),
        artwork_stepped(b, -1i32, c),
    ensures
        c.artwork_mode == a.artwork_mode,
{
    lemma_wrap_back(artwork_pos(a.artwork_mode), 3);
}

/// Stepping the Home density forward and then back restores it.
pub proof fn lemma_density_back(a: App, b: App, c: App)
    requires
        density_stepped(a, 1i32, b),
        density_stepped(b, -1i32, c),
    ensures
        c.home_density == a.home_density,
{
    lemma_wrap_back(density_pos(a.home_density), 2);
}

/// Stepping the visualizer style forward and then back restores it.
pub proof fn lemma_visualizer_back(a: App, b: App, c: App)
    requires
        visualizer_stepped(a, 1i32, b),
        visualizer_stepped(b, -1i32, c),
    ensures
        c.visualizer_style == a.visualizer_style,
{
    lemma_wrap_back(visualizer_pos(a.visualizer_style), 3);
}

/// Stepping the animation speed forward and then back restores it.
pub proof fn lemma_speed_back(a: App, b: App, c: App)
    requires
        speed_stepped(a, 1i32, b),
        speed_stepped(b, -1i32, c),
    ensures
        c.ui.anim.speed == a.ui.anim.speed,
{
    lemma_wrap_back(speed_pos(a.ui.anim.speed), 3);
}

/// Stepping a sync interval on the ladder forward and then back
/// restores it (one off the ladder comes back as the middle step).
pub proof fn lemma_sync_back(a: App, b: App, c: App)
    requires
        sync_step(sync_index(a.sync_interval_secs)) == a.sync_interval_secs,
        sync_stepped(a, 1i32, b),
        sync_stepped(b, -1i32, c),
    ensures
        c.sync_interval_secs == a.sync_interval_secs,
{
    lemma_wrap_back(sync_index(a.sync_interval_secs), 5);
}

/// The labels a row can show are pairwise distinct within each row.
proof fn lemma_labels_distinct()
    ensures
        "auto"@ != "blocos Unicode"@,
        "auto"@ != "desligada"@,
        "blocos Unicode"@ != "desligada"@,
        "confortável"@ != "compacta"@,
        "gradiente"@ != "cor única"@,
        "gradiente"@ != "desligado"@,
        "cor única"@ != "desligado"@,
        "rápida"@ != "normal"@,
        "rápida"@ != "lenta"@,
        "normal"@ != "lenta"@,
        "sim"@ != "não"@,
{
    reveal_strlit("auto");
    reveal_strlit("blocos Unicode");
    reveal_strlit("desligada");
    reveal_strlit("confortável");
    reveal_strlit("compacta");
    reveal_strlit("gradiente");
    reveal_strlit("cor única");
    reveal_strlit("desligado");
    reveal_strlit("rápida");
    reveal_strlit("normal");
    reveal_strlit("lenta");
    reveal_strlit("sim");
    reveal_strlit("não");
    assert("auto"@[0] != "blocos Unicode"@[0]);
    assert("auto"@[0] != "desligada"@[0]);
    assert("blocos Unicode"@[0] != "desligada"@[0]);
    assert("confortável"@.len() != "compacta"@.len());
    assert("gradiente"@[0] != "cor única"@[0]);
    assert("gradiente"@[0] != "desligado"@[0]);
    assert("cor única"@[0] != "desligado"@[0]);
    assert("rápida"@[0] != "normal"@[0]);
    assert("rápida"@[0] != "lenta"@[0]);
    assert("normal"@[0] != "lenta"@[0]);
    assert("sim"@[0] != "não"@[0]);
}

/// One step of a row changes what the row shows, in either direction. A
/// theme step changes it when the next theme has another name (with one
/// theme, or two of the same name, it cannot). The sync interval moves to
/// another number of seconds, and the lyrics correction to another number
/// of milliseconds unless it already stands at its limit in that direction.
#[verifier::spinoff_prover]
pub proof fn lemma_step_changes(a: App, row: SettingRow, delta: i32, b: App)
    requires
        a.wf(),
        delta == 1 || delta == -1,
        stepped(a, row, delta, b),
        row == SettingRow::Theme ==> a.theme_names@[a.theme_index as int]@ != a.theme_names@[b.theme_index as int]@,
        row == SettingRow::LyricsOffset ==> (delta == 1 ==> a.ui.lyrics.offset_ms < 10_000)
            && (delta == -1 ==> a.ui.lyrics.offset_ms > -10_000),
    ensures
        row != SettingRow::SyncInterval && row != SettingRow::LyricsOffset
            ==> spec_setting_value(b, row) != spec_setting_value(a, row),
        row == SettingRow::SyncInterval ==> b.sync_interval_secs != a.sync_interval_secs,
        row == SettingRow::LyricsOffset ==> b.ui.lyrics.offset_ms != a.ui.lyrics.offset_ms,
{
    lemma_labels_distinct();
    match row {
        SettingRow::Artwork => {
            assert(artwork_pos(b.artwork_mode) != artwork_pos(a.artwork_mode));
        },
        SettingRow::Visualizer => {
            assert(visualizer_pos(b.visualizer_style) != visualizer_pos(a.visualizer_style));
        },
        SettingRow::AnimationSpeed => {
            assert(speed_pos(b.ui.anim.speed) != speed_pos(a.ui.anim.speed));
        },
        SettingRow::HomeDensity => {
            assert(density_pos(b.home_density) != density_pos(a.home_density));
        },
        _ => {},
    }
}

/// Every row stepped forward and then back shows the value it showed
/// before, as long as a sync interval starts on its ladder (one off the
/// ladder comes back as the middle step) and a lyrics correction has room
/// for a forward step (one clamped at the top comes back a step lower).
#[verifier::spinoff_prover]
pub proof fn lemma_step_round_trip(a: App, row: SettingRow, b: App, c: App)
    requires
        a.wf(),
        stepped(a, row, 1i32, b),
        stepped(b, row, -1i32, c),
        row == SettingRow::SyncInterval ==> sync_step(sync_index(a.sync_interval_secs)) == a.sync_interval_secs,
        row == SettingRow::LyricsOffset ==> -10_000 <= a.ui.lyrics.offset_ms <= 9_750,
    ensures
        spec_setting_value(c, row) == spec_setting_value(a, row),
{
    match row {
        SettingRow::Theme => lemma_theme_back(a, b, c),
        SettingRow::Artwork => lemma_round_trip_artwork(a, b, c),
        SettingRow::HomeDensity => lemma_round_trip_density(a, b, c),
        SettingRow::Visualizer => lemma_round_trip_visualizer(a, b, c),
        SettingRow::AnimationSpeed => lemma_round_trip_speed(a, b, c),
        SettingRow::SyncInterval => lemma_round_trip_sync(a, b, c),
        SettingRow::ReducedMotion => lemma_round_trip_toggles(a, SettingRow::ReducedMotion, b, c),
        SettingRow::Splash => lemma_round_trip_toggles(a, SettingRow::Splash, b, c),
        SettingRow::LyricsOffset => lemma_offset_back(a, b, c),
    }
}

proof fn lemma_round_trip_artwork(a: App, b: App, c: App)
    requires
        stepped(a, SettingRow::Artwork, 1i32, b),
        stepped(b, SettingRow::Artwork, -1i32, c),
    ensures
        spec_setting_value(c, SettingRow::Artwork) == spec_setting_value(a, SettingRow::Artwork),
{
    lemma_artwork_back(a, b, c);
}

proof fn lemma_round_trip_density(a: App, b: App, c: App)
    requires
        stepped(a, SettingRow::HomeDensity, 1i32, b),
        stepped(b, SettingRow::HomeDensity, -1i32, c),
    ensures
        spec_setting_value(c, SettingRow::HomeDensity) == spec_setting_value(a, SettingRow::HomeDensity),
{
    lemma_density_back(a, b, c);
}

proof fn lemma_round_trip_visualizer(a: App, b: App, c: App)
    requires
        stepped(a, SettingRow::Visualizer, 1i32, b),
        stepped(b, SettingRow::Visualizer, -1i32, c),
    ensures
        spec_setting_value(c, SettingRow::Visualizer) == spec_setting_value(a, SettingRow::Visualizer),
{
    lemma_visualizer_back(a, b, c);
}

proof fn lemma_round_trip_speed(a: App, b: App, c: App)
    requires
        stepped(a, SettingRow::AnimationSpeed, 1i32, b),
        stepped(b, SettingRow::AnimationSpeed, -1i32, c),
    ensures
        spec_setting_value(c, SettingRow::AnimationSpeed) == spec_setting_value(a, SettingRow::AnimationSpeed),
{
    lemma_speed_back(a, b, c);
}

proof fn lemma_round_trip_sync(a: App, b: App, c: App)
    requires
        sync_step(sync_index(a.sync_interval_secs)) == a.sync_interval_secs,
        stepped(a, SettingRow::SyncInterval, 1i32, b),
        stepped(b, SettingRow::SyncInterval, -1i32, c),
    ensures
        spec_setting_value(c, SettingRow::SyncInterval) == spec_setting_value(a, SettingRow::SyncInterval),
{
    lemma_sync_back(a, b, c);
}

proof fn lemma_round_trip_toggles(a: App, row: SettingRow, b: App, c: App)
    requires
        row == SettingRow::ReducedMotion || row == SettingRow::Splash,
        stepped(a, row, 1i32, b),
        stepped(b, row, -1i32, c),
    ensures
        spec_setting_value(c, row) == spec_setting_value(a, row),
{
}

/// A lyrics correction with room for a forward step comes back to itself
/// after a step forward and one back.
proof fn lemma_offset_back(a: App, b: App, c: App)
    requires
        stepped(a, SettingRow::LyricsOffset, 1i32, b),
        stepped(b, SettingRow::LyricsOffset, -1i32, c),
        -10_000 <= a.ui.lyrics.offset_ms <= 9_750,
    ensures
        spec_setting_value(c, SettingRow::LyricsOffset) == spec_setting_value(a, SettingRow::LyricsOffset),
{
    assert(c.ui.lyrics.offset_ms == a.ui.lyrics.offset_ms);
}

} // verus!

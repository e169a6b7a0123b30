//! Persisted preferences that the logic reads, and the string forms under
//! which each enumerated preference is stored.
//!
//! Every `from_config` is total: an unknown or differently-cased string
//! falls back to the default variant instead of failing, so a hand-edited
//! configuration can never stop the application from starting.

use vstd::prelude::*;
use crate::text::str_eq;

verus! {

/// Which browser profile and account the sign-in uses.
#[derive(Debug, Clone, Default, PartialEq, Eq)]
pub struct AuthenticationConfig {
    pub browser: Option<String>,
    pub profile: Option<String>,
    pub auth_user: u8,
}

/// How album art is shown (`artwork_mode` in the configuration).
#[derive(Debug, Clone, Copy, PartialEq, Eq, Structural)]
pub enum ArtworkMode {
    /// Ask the terminal for its real image protocol; fall back to blocks.
    Auto,
    /// Never ask the terminal: always draw with Unicode half blocks.
    HalfBlocks,
    /// No cover is downloaded or drawn.
    Off,
}

impl ArtworkMode {
    /// The variant a stored string selects.
    pub open spec fn spec_from_config(s: Seq<char>) -> ArtworkMode {
        if s == "halfblocks"@ {
            ArtworkMode::HalfBlocks
        } else if s == "off"@ {
            ArtworkMode::Off
        } else {
            ArtworkMode::Auto
        }
    }

    /// The string under which a variant is stored.
    pub open spec fn spec_as_config(self) -> Seq<char> {
        match self {
            ArtworkMode::Auto => "auto"@,
            ArtworkMode::HalfBlocks => "halfblocks"@,
            ArtworkMode::Off => "off"@,
        }
    }

    /// Reads a stored value; unknown strings select `Auto`.
    pub fn from_config(s: &str) -> (r: ArtworkMode)
        ensures
            r == ArtworkMode::spec_from_config(s@),
    {
        if str_eq(s, "halfblocks") {
            ArtworkMode::HalfBlocks
        } else if str_eq(s, "off") {
            ArtworkMode::Off
        } else {
            ArtworkMode::Auto
        }
    }

    /// The value stored in the configuration.
    pub fn as_config(self) -> (r: &'static str)
        ensures
            r@ == self.spec_as_config(),
    {
        match self {
            ArtworkMode::Auto => "auto",
            ArtworkMode::HalfBlocks => "halfblocks",
            ArtworkMode::Off => "off",
        }
    }
}

/// Card density of the Home grid (`home_density` in the configuration).
#[derive(Debug, Clone, Copy, PartialEq, Eq, Structural)]
pub enum HomeDensity {
    /// Title, subtitle and footer.
    Comfortable,
    /// Title and footer only.
    Compact,
}

impl HomeDensity {
    /// The variant a stored string selects.
    pub open spec fn spec_from_config(s: Seq<char>) -> HomeDensity {
        if s == "compact"@ {
            HomeDensity::Compact
        } else {
            HomeDensity::Comfortable
        }
    }

    /// The string under which a variant is stored.
    pub open spec fn spec_as_config(self) -> Seq<char> {
        match self {
            HomeDensity::Comfortable => "comfortable"@,
            HomeDensity::Compact => "compact"@,
        }
    }

    /// Reads a stored value; unknown strings select `Comfortable`.
    pub fn from_config(s: &str) -> (r: HomeDensity)
        ensures
            r == HomeDensity::spec_from_config(s@),
    {
        if str_eq(s, "compact") {
            HomeDensity::Compact
        } else {
            HomeDensity::Comfortable
        }
    }

    /// The value stored in the configuration.
    pub fn as_config(self) -> (r: &'static str)
        ensures
            r@ == self.spec_as_config(),
    {
        match self {
            HomeDensity::Comfortable => "comfortable",
            HomeDensity::Compact => "compact",
        }
    }
}

/// Style of the spectrum visualizer (`visualizer` in the configuration).
#[derive(Debug, Clone, Copy, PartialEq, Eq, Structural)]
pub enum VisualizerStyle {
    /// Colour follows the bar height.
    Gradient,
    /// One colour for every cell.
    Mono,
    /// No bars at all.
    Off,
}

impl VisualizerStyle {
    /// The variant a stored string selects.
    pub open spec fn spec_from_config(s: Seq<char>) -> VisualizerStyle {
        if s == "mono"@ {
            VisualizerStyle::Mono
        } else if s == "off"@ {
            VisualizerStyle::Off
        } else {
            VisualizerStyle::Gradient
        }
    }

    /// The string under which a variant is stored.
    pub open spec fn spec_as_config(self) -> Seq<char> {
        match self {
            VisualizerStyle::Gradient => "gradient"@,
            VisualizerStyle::Mono => "mono"@,
            VisualizerStyle::Off => "off"@,
        }
    }

    /// Reads a stored value; unknown strings select `Gradient`.
    pub fn from_config(s: &str) -> (r: VisualizerStyle)
        ensures
            r == VisualizerStyle::spec_from_config(s@),
    {
        if str_eq(s, "mono") {
            VisualizerStyle::Mono
        } else if str_eq(s, "off") {
            VisualizerStyle::Off
        } else {
            VisualizerStyle::Gradient
        }
    }

    /// The value stored in the configuration.
    pub fn as_config(self) -> (r: &'static str)
        ensures
            r@ == self.spec_as_config(),
    {
        match self {
            VisualizerStyle::Gradient => "gradient",
            VisualizerStyle::Mono => "mono",
            VisualizerStyle::Off => "off",
        }
    }
}

/// Speed of every animation (`animation_speed` in the configuration).
#[derive(Debug, Clone, Copy, PartialEq, Eq, Structural)]
pub enum AnimationSpeed {
    Normal,
    Fast,
    Slow,
}

impl AnimationSpeed {
    /// The variant a stored string selects.
    pub open spec fn spec_from_config(s: Seq<char>) -> AnimationSpeed {
        if s == "fast"@ {
            AnimationSpeed::Fast
        } else if s == "slow"@ {
            AnimationSpeed::Slow
        } else {
            AnimationSpeed::Normal
        }
    }

    /// The string under which a variant is stored.
    pub open spec fn spec_as_config(self) -> Seq<char> {
        match self {
            AnimationSpeed::Normal => "normal"@,
            AnimationSpeed::Fast => "fast"@,
            AnimationSpeed::Slow => "slow"@,
        }
    }

    /// Reads a stored value; unknown strings select `Normal`.
    pub fn from_config(s: &str) -> (r: AnimationSpeed)
        ensures
            r == AnimationSpeed::spec_from_config(s@),
    {
        if str_eq(s, "fast") {
            AnimationSpeed::Fast
        } else if str_eq(s, "slow") {
            AnimationSpeed::Slow
        } else {
            AnimationSpeed::Normal
        }
    }

    /// The value stored in the configuration.
    pub fn as_config(self) -> (r: &'static str)
        ensures
            r@ == self.spec_as_config(),
    {
        match self {
            AnimationSpeed::Normal => "normal",
            AnimationSpeed::Fast => "fast",
            AnimationSpeed::Slow => "slow",
        }
    }

    /// The speed factor in thousandths: `Fast` shortens (0.6), `Normal` is
    /// the identity (1.0), `Slow` stretches (1.6).
    pub open spec fn spec_factor_permille(self) -> nat {
        match self {
            AnimationSpeed::Fast => 600,
            AnimationSpeed::Normal => 1000,
            AnimationSpeed::Slow => 1600,
        }
    }

    /// The speed factor in thousandths (see [`Self::spec_factor_permille`]).
    pub fn factor_permille(self) -> (r: u64)
        ensures
            r == self.spec_factor_permille(),
    {
        match self {
            AnimationSpeed::Fast => 600,
            AnimationSpeed::Normal => 1000,
            AnimationSpeed::Slow => 1600,
        }
    }
}

/// Reading back what was stored gives the same artwork mode.
pub proof fn lemma_artwork_mode_roundtrip(m: ArtworkMode)
    ensures
        ArtworkMode::spec_from_config(m.spec_as_config()) == m,
{
    reveal_strlit("auto");
    reveal_strlit("halfblocks");
    reveal_strlit("off");
    assert("auto"@.len() != "halfblocks"@.len());
    assert("auto"@.len() != "off"@.len());
    assert("off"@.len() != "halfblocks"@.len());
}

/// Reading back what was stored gives the same density.
pub proof fn lemma_home_density_roundtrip(d: HomeDensity)
    ensures
        HomeDensity::spec_from_config(d.spec_as_config()) == d,
{
    reveal_strlit("comfortable");
    reveal_strlit("compact");
    assert("comfortable"@.len() != "compact"@.len());
}

/// Reading back what was stored gives the same visualizer style.
pub proof fn lemma_visualizer_style_roundtrip(v: VisualizerStyle)
    ensures
        VisualizerStyle::spec_from_config(v.spec_as_config()) == v,
{
    reveal_strlit("gradient");
    reveal_strlit("mono");
    reveal_strlit("off");
    assert("gradient"@.len() != "mono"@.len());
    assert("gradient"@.len() != "off"@.len());
    assert("off"@.len() != "mono"@.len());
}

/// Reading back what was stored gives the same animation speed.
pub proof fn lemma_animation_speed_roundtrip(a: AnimationSpeed)
    ensures
        AnimationSpeed::spec_from_config(a.spec_as_config()) == a,
{
    reveal_strlit("normal");
    reveal_strlit("fast");
    reveal_strlit("slow");
    assert("normal"@.len() != "fast"@.len());
    assert("normal"@.len() != "slow"@.len());
    assert("fast"@[0] != "slow"@[0]);
}

/// The speed factors are ordered: slow above normal above fast, and normal
/// is the identity.
pub proof fn lemma_animation_speed_factor_order()
    ensures
        AnimationSpeed::Slow.spec_factor_permille() > AnimationSpeed::Normal.spec_factor_permille(),
        AnimationSpeed::Normal.spec_factor_permille() > AnimationSpeed::Fast.spec_factor_permille(),
        AnimationSpeed::Normal.spec_factor_permille() == 1000,
{
}

} // verus!

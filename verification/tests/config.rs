use ytmtui::config::{AnimationSpeed, ArtworkMode, HomeDensity, VisualizerStyle};

#[test]
fn invalid_enum_strings_fall_back_to_the_default_variant() {
    assert_eq!(ArtworkMode::from_config("xyz"), ArtworkMode::Auto);
    assert_eq!(HomeDensity::from_config("xyz"), HomeDensity::Comfortable);
    assert_eq!(VisualizerStyle::from_config("xyz"), VisualizerStyle::Gradient);
    assert_eq!(AnimationSpeed::from_config("xyz"), AnimationSpeed::Normal);
    assert_eq!(ArtworkMode::from_config(""), ArtworkMode::Auto);
    assert_eq!(ArtworkMode::from_config("Off"), ArtworkMode::Auto);
}

#[test]
fn artwork_mode_roundtrips_through_config_strings() {
    for mode in [ArtworkMode::Auto, ArtworkMode::HalfBlocks, ArtworkMode::Off] {
        assert_eq!(ArtworkMode::from_config(mode.as_config()), mode);
    }
}

#[test]
fn home_density_roundtrips_through_config_strings() {
    for density in [HomeDensity::Comfortable, HomeDensity::Compact] {
        assert_eq!(HomeDensity::from_config(density.as_config()), density);
    }
}

#[test]
fn visualizer_style_roundtrips_through_config_strings() {
    for style in [VisualizerStyle::Gradient, VisualizerStyle::Mono, VisualizerStyle::Off] {
        assert_eq!(VisualizerStyle::from_config(style.as_config()), style);
    }
}

#[test]
fn animation_speed_roundtrips_through_config_strings() {
    for speed in [AnimationSpeed::Normal, AnimationSpeed::Fast, AnimationSpeed::Slow] {
        assert_eq!(AnimationSpeed::from_config(speed.as_config()), speed);
    }
}

#[test]
fn animation_speed_factor_orders_slow_above_normal_above_fast() {
    assert!(AnimationSpeed::Slow.factor_permille() > AnimationSpeed::Normal.factor_permille());
    assert!(AnimationSpeed::Normal.factor_permille() > AnimationSpeed::Fast.factor_permille());
    assert_eq!(AnimationSpeed::Normal.factor_permille(), 1000);
}

#[test]
fn config_strings_are_the_stored_spellings() {
    assert_eq!(ArtworkMode::Auto.as_config(), "auto");
    assert_eq!(HomeDensity::Comfortable.as_config(), "comfortable");
    assert_eq!(VisualizerStyle::Gradient.as_config(), "gradient");
    assert_eq!(AnimationSpeed::Normal.as_config(), "normal");
    assert_eq!(AnimationSpeed::Fast.factor_permille(), 600);
    assert_eq!(AnimationSpeed::Slow.factor_permille(), 1600);
}

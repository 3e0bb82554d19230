use pomotui::config::{parse_color, Config};
use pomotui::tui::Color;

#[test]
fn documented_defaults_are_valid() {
    let config = Config::default();
    assert_eq!(config.focus_minutes, 25);
    assert_eq!(config.theme, "Vermilion Paper Dark");
    assert_eq!(config.keybindings.toggle_session, " ");
    assert_eq!(config.clone().validate(), Ok(config));
}

#[test]
fn invalid_values_name_their_setting() {
    let zero = Config { focus_minutes: 0, ..Config::default() };
    assert!(zero.validate().unwrap_err().contains("focus_minutes"));
    let loud = Config { volume: 101, ..Config::default() };
    assert!(loud.validate().unwrap_err().contains("volume"));
    let blue = Config { theme: "blue".into(), ..Config::default() };
    assert!(blue.validate().unwrap_err().contains("theme"));
    let french = Config { language: "fr".into(), ..Config::default() };
    assert!(french.validate().unwrap_err().contains("language"));
    let mut red = Config::default();
    red.colors.accent = Some("red".into());
    assert_eq!(red.validate().unwrap_err(), "colors.accent must use #RRGGBB");
    let mut keys = Config::default();
    keys.keybindings.quit = "qq".into();
    assert_eq!(
        keys.validate().unwrap_err(),
        "keybindings.quit must contain exactly one character"
    );
}

#[test]
fn ran_theme_and_partial_color_overrides_are_supported() {
    let mut config = Config { theme: "Ran Paper Dark".into(), ..Config::default() };
    config.colors.accent = Some("#A6231F".into());
    config.colors.good = Some("#315C78".into());
    let config = config.validate().expect("theme");
    let overrides = config.color_overrides().expect("colors");
    assert_eq!(overrides.accent, Some(Color::Rgb(166, 35, 31)));
    assert_eq!(overrides.good, Some(Color::Rgb(49, 92, 120)));
    assert_eq!(overrides.background, None);
}

#[test]
fn colors_are_read_as_hexadecimal_channels() {
    assert_eq!(parse_color("c", "#00ff7F"), Ok(Color::Rgb(0, 255, 127)));
    assert_eq!(parse_color("c", "#+f+f+f"), Err("c must use #RRGGBB".into()));
    assert_eq!(parse_color("c", "00ff7F"), Err("c must use #RRGGBB".into()));
    assert_eq!(parse_color("c", "#00ff7G"), Err("c must use #RRGGBB".into()));
}

//! The terminal frontend's configuration: its documented defaults, and the
//! rules that a configuration file's values must follow.

use crate::text::{chars_of, concat, str_equal};
use crate::tui::{Color, ColorOverrides};
use vstd::prelude::*;

verus! {

/// The colors a configuration file replaces, as `#RRGGBB` texts.
#[derive(Clone, Debug, PartialEq, Eq)]
pub struct ThemeColors {
    pub background: Option<String>,
    pub surface: Option<String>,
    pub text: Option<String>,
    pub muted: Option<String>,
    pub accent: Option<String>,
    pub gold: Option<String>,
    pub good: Option<String>,
    pub border: Option<String>,
}

impl Default for ThemeColors {
    fn default() -> (colors: Self)
        ensures
            colors.background is None && colors.surface is None && colors.text is None
                && colors.muted is None && colors.accent is None && colors.gold is None
                && colors.good is None && colors.border is None,
    {
        ThemeColors {
            background: None,
            surface: None,
            text: None,
            muted: None,
            accent: None,
            gold: None,
            good: None,
            border: None,
        }
    }
}

/// The keys bound to the frontend's main actions, one character each.
#[derive(Clone, Debug, PartialEq, Eq)]
pub struct Keybindings {
    pub down: String,
    pub up: String,
    pub next_view: String,
    pub previous_view: String,
    pub skip: String,
    pub toggle_session: String,
    pub stop: String,
    pub palette: String,
    pub settings: String,
    pub help: String,
    pub quit: String,
}

impl Default for Keybindings {
    fn default() -> (keys: Self)
        ensures
            keys.down@ == "j"@ && keys.up@ == "k"@ && keys.next_view@ == "l"@
                && keys.previous_view@ == "h"@ && keys.skip@ == "K"@ && keys.toggle_session@
                == " "@ && keys.stop@ == "X"@ && keys.palette@ == ":"@ && keys.settings@ == "s"@
                && keys.help@ == "?"@ && keys.quit@ == "q"@,
    {
        Keybindings {
            down: String::from_str("j"),
            up: String::from_str("k"),
            next_view: String::from_str("l"),
            previous_view: String::from_str("h"),
            skip: String::from_str("K"),
            toggle_session: String::from_str(" "),
            stop: String::from_str("X"),
            palette: String::from_str(":"),
            settings: String::from_str("s"),
            help: String::from_str("?"),
            quit: String::from_str("q"),
        }
    }
}

/// The frontend's configuration.
#[derive(Clone, Debug, PartialEq, Eq)]
pub struct Config {
    pub focus_minutes: u16,
    pub short_break_minutes: u16,
    pub long_break_minutes: u16,
    pub rounds_per_cycle: u8,
    pub theme: String,
    pub language: String,
    pub reminder_enabled: bool,
    pub sound: Option<String>,
    pub volume: u8,
    pub animation: Option<String>,
    pub colors: ThemeColors,
    pub keybindings: Keybindings,
}

impl Default for Config {
    /// The documented defaults: 25, 5 and 15 minutes, four rounds, the
    /// Vermilion Paper Dark theme in English, reminders on at full volume.
    fn default() -> (config: Self)
        ensures
            config.focus_minutes == 25,
            config.short_break_minutes == 5,
            config.long_break_minutes == 15,
            config.rounds_per_cycle == 4,
            config.theme@ == "Vermilion Paper Dark"@,
            config.language@ == "en"@,
            config.reminder_enabled,
            config.sound is None,
            config.volume == 100,
            config.animation is None,
    {
        Config {
            focus_minutes: 25,
            short_break_minutes: 5,
            long_break_minutes: 15,
            rounds_per_cycle: 4,
            theme: String::from_str("Vermilion Paper Dark"),
            language: String::from_str("en"),
            reminder_enabled: true,
            sound: None,
            volume: 100,
            animation: None,
            colors: ThemeColors::default(),
            keybindings: Keybindings::default(),
        }
    }
}

/// The value of a hexadecimal digit, if `c` is one.
pub open spec fn hex_digit(c: char) -> Option<u8> {
    if '0' <= c <= '9' {
        Some((c as u32 - '0' as u32) as u8)
    } else if 'a' <= c <= 'f' {
        Some((c as u32 - 'a' as u32 + 10) as u8)
    } else if 'A' <= c <= 'F' {
        Some((c as u32 - 'A' as u32 + 10) as u8)
    } else {
        None
    }
}

/// A two-character channel read as two hexadecimal digits.
pub open spec fn channel(a: char, b: char) -> Option<u8> {
    match (hex_digit(a), hex_digit(b)) {
        (Some(x), Some(y)) => Some((x * 16 + y) as u8),
        _ => None,
    }
}

/// The color that a `#RRGGBB` text gives, if it is one.
pub open spec fn color_spec(value: Seq<char>) -> Option<Color> {
    if value.len() == 7 && value[0] == '#' {
        match (channel(value[1], value[2]), channel(value[3], value[4]), channel(value[5], value[6])) {
            (Some(r), Some(g), Some(b)) => Some(Color::Rgb(r, g, b)),
            _ => None,
        }
    } else {
        None
    }
}

fn hex_value(c: char) -> (v: Option<u8>)
    ensures
        v == hex_digit(c),
{
    if '0' <= c && c <= '9' {
        Some(((c as u32) - ('0' as u32)) as u8)
    } else if 'a' <= c && c <= 'f' {
        Some(((c as u32) - ('a' as u32) + 10) as u8)
    } else if 'A' <= c && c <= 'F' {
        Some(((c as u32) - ('A' as u32) + 10) as u8)
    } else {
        None
    }
}

fn channel_value(a: char, b: char) -> (v: Option<u8>)
    ensures
        v == channel(a, b),
{
    match (hex_value(a), hex_value(b)) {
        (Some(x), Some(y)) => Some(x * 16 + y),
        _ => None,
    }
}

/// Reads a `#RRGGBB` color for the setting `name`.
pub fn parse_color(name: &str, value: &str) -> (color: Result<Color, String>)
    ensures
        match color_spec(value@) {
            Some(c) => color == Ok::<Color, String>(c),
            None => color matches Err(m) && m@ == name@ + " must use #RRGGBB"@,
        },
{
    let chars = chars_of(value);
    if chars.len() == 7 && chars[0] == '#' {
        match (
            channel_value(chars[1], chars[2]),
            channel_value(chars[3], chars[4]),
            channel_value(chars[5], chars[6]),
        ) {
            (Some(r), Some(g), Some(b)) => {
                return Ok(Color::Rgb(r, g, b));
            },
            _ => {},
        }
    }
    Err(concat(name, " must use #RRGGBB"))
}

/// An optional color setting: absent stays absent.
pub open spec fn optional_color_ok(value: Option<String>) -> bool {
    match value {
        Some(v) => color_spec(v@) is Some,
        None => true,
    }
}

pub open spec fn optional_color(value: Option<String>) -> Option<Color> {
    match value {
        Some(v) => color_spec(v@),
        None => None,
    }
}

fn parse_optional_color(name: &str, value: &Option<String>) -> (color: Result<Option<Color>, String>)
    ensures
        match *value {
            None => color == Ok::<Option<Color>, String>(None),
            Some(v) => match color_spec(v@) {
                Some(c) => color == Ok::<Option<Color>, String>(Some(c)),
                None => color matches Err(m) && m@ == name@ + " must use #RRGGBB"@,
            },
        },
{
    match value {
        None => Ok(None),
        Some(v) => match parse_color(name, v.as_str()) {
            Ok(c) => Ok(Some(c)),
            Err(e) => Err(e),
        },
    }
}

/// The setting names of the color overrides, in the order they are checked.
pub open spec fn color_names() -> Seq<Seq<char>> {
    seq![
        "colors.background"@,
        "colors.surface"@,
        "colors.text"@,
        "colors.muted"@,
        "colors.accent"@,
        "colors.gold"@,
        "colors.good"@,
        "colors.border"@,
    ]
}

/// The color overrides in the order they are checked.
pub open spec fn color_values(c: ThemeColors) -> Seq<Option<String>> {
    seq![c.background, c.surface, c.text, c.muted, c.accent, c.gold, c.good, c.border]
}

/// The first color override that is not `#RRGGBB`, from position `i` on.
pub open spec fn first_bad_color(c: ThemeColors, i: int) -> Option<int>
    decreases 8 - i,
{
    if i < 0 || i >= 8 {
        None
    } else if !optional_color_ok(color_values(c)[i]) {
        Some(i)
    } else {
        first_bad_color(c, i + 1)
    }
}

/// The first error in the color overrides, if any.
pub open spec fn colors_error(c: ThemeColors) -> Option<Seq<char>> {
    match first_bad_color(c, 0) {
        Some(i) => Some(color_names()[i] + " must use #RRGGBB"@),
        None => None,
    }
}

impl Config {
    /// The configured color overrides.
    pub fn color_overrides(&self) -> (overrides: Result<ColorOverrides, String>)
        ensures
            match colors_error(self.colors) {
                Some(m) => overrides matches Err(e) && e@ == m,
                None => overrides == Ok::<ColorOverrides, String>(
                    ColorOverrides {
                        background: optional_color(self.colors.background),
                        surface: optional_color(self.colors.surface),
                        text: optional_color(self.colors.text),
                        muted: optional_color(self.colors.muted),
                        accent: optional_color(self.colors.accent),
                        gold: optional_color(self.colors.gold),
                        good: optional_color(self.colors.good),
                        border: optional_color(self.colors.border),
                    },
                ),
            },
    {
        proof {
            reveal_with_fuel(first_bad_color, 9);
        }
        let c = &self.colors;
        let background = match parse_optional_color("colors.background", &c.background) {
            Ok(v) => v,
            Err(e) => {
                return Err(e);
            },
        };
        let surface = match parse_optional_color("colors.surface", &c.surface) {
            Ok(v) => v,
            Err(e) => {
                return Err(e);
            },
        };
        let text = match parse_optional_color("colors.text", &c.text) {
            Ok(v) => v,
            Err(e) => {
                return Err(e);
            },
        };
        let muted = match parse_optional_color("colors.muted", &c.muted) {
            Ok(v) => v,
            Err(e) => {
                return Err(e);
            },
        };
        let accent = match parse_optional_color("colors.accent", &c.accent) {
            Ok(v) => v,
            Err(e) => {
                return Err(e);
            },
        };
        let gold = match parse_optional_color("colors.gold", &c.gold) {
            Ok(v) => v,
            Err(e) => {
                return Err(e);
            },
        };
        let good = match parse_optional_color("colors.good", &c.good) {
            Ok(v) => v,
            Err(e) => {
                return Err(e);
            },
        };
        let border = match parse_optional_color("colors.border", &c.border) {
            Ok(v) => v,
            Err(e) => {
                return Err(e);
            },
        };
        Ok(ColorOverrides { background, surface, text, muted, accent, gold, good, border })
    }
}

/// The key bindings with their setting names, in the order they are checked.
pub open spec fn binding_values(k: Keybindings) -> Seq<Seq<char>> {
    seq![
        k.down@,
        k.up@,
        k.next_view@,
        k.previous_view@,
        k.skip@,
        k.toggle_session@,
        k.stop@,
        k.palette@,
        k.settings@,
        k.help@,
        k.quit@,
    ]
}

pub open spec fn binding_names() -> Seq<Seq<char>> {
    seq![
        "keybindings.down"@,
        "keybindings.up"@,
        "keybindings.next_view"@,
        "keybindings.previous_view"@,
        "keybindings.skip"@,
        "keybindings.toggle_session"@,
        "keybindings.stop"@,
        "keybindings.palette"@,
        "keybindings.settings"@,
        "keybindings.help"@,
        "keybindings.quit"@,
    ]
}

/// The first key binding, from position `i` on, that is not one character.
pub open spec fn first_bad_binding(k: Keybindings, i: int) -> Option<int>
    decreases 11 - i,
{
    if i < 0 || i >= 11 {
        None
    } else if binding_values(k)[i].len() != 1 {
        Some(i)
    } else {
        first_bad_binding(k, i + 1)
    }
}

/// Whether `theme` names one of the themes.
pub open spec fn known_theme(theme: Seq<char>) -> bool {
    theme == "Vermilion Paper Light"@ || theme == "Vermilion Paper Dark"@ || theme
        == "Ran Paper Light"@ || theme == "Ran Paper Dark"@
}

/// The first rule that a configuration breaks, if any.
pub open spec fn config_error(c: Config) -> Option<Seq<char>> {
    if c.focus_minutes == 0 {
        Some("focus_minutes must be nonzero"@)
    } else if c.short_break_minutes == 0 {
        Some("short_break_minutes must be nonzero"@)
    } else if c.long_break_minutes == 0 {
        Some("long_break_minutes must be nonzero"@)
    } else if c.rounds_per_cycle == 0 {
        Some("rounds_per_cycle must be nonzero"@)
    } else if c.volume > 100 {
        Some("volume must be between 0 and 100"@)
    } else if !known_theme(c.theme@) {
        Some(
            "theme must be Vermilion Paper Light, Vermilion Paper Dark, Ran Paper Light, or Ran Paper Dark"@,
        )
    } else if !(c.language@ == "en"@ || c.language@ == "zh-CN"@) {
        Some("language must be en or zh-CN"@)
    } else if first_bad_binding(c.keybindings, 0) is Some {
        Some(
            binding_names()[first_bad_binding(c.keybindings, 0)->Some_0]
                + " must contain exactly one character"@,
        )
    } else {
        colors_error(c.colors)
    }
}

fn one_character(value: &String) -> (one: bool)
    ensures
        one == (value@.len() == 1),
{
    chars_of(value.as_str()).len() == 1
}

impl Config {
    /// Checks a configuration read from a file: durations and the cycle are
    /// nonzero, the volume is a percentage, the theme and language are
    /// known, each key binding is one character and each color is
    /// `#RRGGBB`.
    pub fn validate(self) -> (result: Result<Config, String>)
        ensures
            match config_error(self) {
                Some(m) => result matches Err(e) && e@ == m,
                None => result == Ok::<Config, String>(self),
            },
    {
        if self.focus_minutes == 0 {
            return Err(String::from_str("focus_minutes must be nonzero"));
        }
        if self.short_break_minutes == 0 {
            return Err(String::from_str("short_break_minutes must be nonzero"));
        }
        if self.long_break_minutes == 0 {
            return Err(String::from_str("long_break_minutes must be nonzero"));
        }
        if self.rounds_per_cycle == 0 {
            return Err(String::from_str("rounds_per_cycle must be nonzero"));
        }
        if self.volume > 100 {
            return Err(String::from_str("volume must be between 0 and 100"));
        }
        let theme = self.theme.as_str();
        if !(str_equal(theme, "Vermilion Paper Light") || str_equal(theme, "Vermilion Paper Dark")
            || str_equal(theme, "Ran Paper Light") || str_equal(theme, "Ran Paper Dark")) {
            return Err(
                String::from_str(
                    "theme must be Vermilion Paper Light, Vermilion Paper Dark, Ran Paper Light, or Ran Paper Dark",
                ),
            );
        }
        let language = self.language.as_str();
        if !(str_equal(language, "en") || str_equal(language, "zh-CN")) {
            return Err(String::from_str("language must be en or zh-CN"));
        }
        proof {
            reveal_with_fuel(first_bad_binding, 12);
        }
        let k = &self.keybindings;
        if !one_character(&k.down) {
            return Err(concat("keybindings.down", " must contain exactly one character"));
        }
        if !one_character(&k.up) {
            return Err(concat("keybindings.up", " must contain exactly one character"));
        }
        if !one_character(&k.next_view) {
            return Err(concat("keybindings.next_view", " must contain exactly one character"));
        }
        if !one_character(&k.previous_view) {
            return Err(concat("keybindings.previous_view", " must contain exactly one character"));
        }
        if !one_character(&k.skip) {
            return Err(concat("keybindings.skip", " must contain exactly one character"));
        }
        if !one_character(&k.toggle_session) {
            return Err(concat("keybindings.toggle_session", " must contain exactly one character"));
        }
        if !one_character(&k.stop) {
            return Err(concat("keybindings.stop", " must contain exactly one character"));
        }
        if !one_character(&k.palette) {
            return Err(concat("keybindings.palette", " must contain exactly one character"));
        }
        if !one_character(&k.settings) {
            return Err(concat("keybindings.settings", " must contain exactly one character"));
        }
        if !one_character(&k.help) {
            return Err(concat("keybindings.help", " must contain exactly one character"));
        }
        if !one_character(&k.quit) {
            return Err(concat("keybindings.quit", " must contain exactly one character"));
        }
        match self.color_overrides() {
            Ok(_) => Ok(self),
            Err(e) => Err(e),
        }
    }
}

/// The built-in keys that the configurable bindings stand for, in the order
/// of [`binding_values`].
pub open spec fn canonical_keys() -> Seq<char> {
    seq!['j', 'k', 'l', 'h', 'K', ' ', 'X', ':', 's', '?', 'q']
}

/// The built-in key for a pressed key `c`: that of the first binding, from
/// position `i` on, that starts with `c`; `c` itself when none does.
pub open spec fn canonical_from(k: Keybindings, c: char, i: int) -> char
    decreases 11 - i,
{
    if i < 0 || i >= 11 {
        c
    } else if binding_values(k)[i].len() > 0 && binding_values(k)[i][0] == c {
        canonical_keys()[i]
    } else {
        canonical_from(k, c, i + 1)
    }
}

fn starts_with_char(s: &String, c: char) -> (starts: bool)
    ensures
        starts == (s@.len() > 0 && s@[0] == c),
{
    let chars = chars_of(s.as_str());
    chars.len() > 0 && chars[0] == c
}

impl Keybindings {
    /// The built-in key that a pressed key stands for under these bindings.
    pub fn canonical(&self, c: char) -> (key: char)
        ensures
            key == canonical_from(*self, c, 0),
    {
        proof {
            reveal_with_fuel(canonical_from, 12);
        }
        if starts_with_char(&self.down, c) {
            'j'
        } else if starts_with_char(&self.up, c) {
            'k'
        } else if starts_with_char(&self.next_view, c) {
            'l'
        } else if starts_with_char(&self.previous_view, c) {
            'h'
        } else if starts_with_char(&self.skip, c) {
            'K'
        } else if starts_with_char(&self.toggle_session, c) {
            ' '
        } else if starts_with_char(&self.stop, c) {
            'X'
        } else if starts_with_char(&self.palette, c) {
            ':'
        } else if starts_with_char(&self.settings, c) {
            's'
        } else if starts_with_char(&self.help, c) {
            '?'
        } else if starts_with_char(&self.quit, c) {
            'q'
        } else {
            c
        }
    }
}

} // verus!

//! The terminal frontend's model: themes and colors, the views and
//! overlays, the key-driven App state machine that turns keys into protocol
//! commands, and the text pieces that the screens are drawn from.

use crate::animation::{clamp_usize, Animation};
use crate::protocol::{Command, SessionKind, Snapshot, TaskSummary};
use crate::text::{
    char_display_width, char_width, chars_of, concat, concat3, decimal, decimal_padded,
    decimal_padded_string, decimal_string, display_width, is_control, control, str_equal,
    str_width, string_from_chars, string_push, trim, trim_str,
};
use crate::tray::{minutes_seconds, minutes_seconds_string};
use std::collections::BTreeSet;
use vstd::std_specs::iter::IteratorSpec;
use vstd::prelude::*;

verus! {

broadcast use vstd::seq_lib::group_seq_properties;

// ---------------------------------------------------------------------------
// Themes, languages and colors.
// ---------------------------------------------------------------------------

#[derive(Clone, Copy, Debug, PartialEq, Eq, Structural)]
pub enum Theme {
    VermilionPaperLight,
    VermilionPaperDark,
    RanPaperLight,
    RanPaperDark,
}

/// The name under which a theme is chosen.
pub open spec fn theme_name(theme: Theme) -> Seq<char> {
    match theme {
        Theme::VermilionPaperLight => "Vermilion Paper Light"@,
        Theme::VermilionPaperDark => "Vermilion Paper Dark"@,
        Theme::RanPaperLight => "Ran Paper Light"@,
        Theme::RanPaperDark => "Ran Paper Dark"@,
    }
}

/// The theme that follows in the settings' cycle.
pub open spec fn next_theme(theme: Theme) -> Theme {
    match theme {
        Theme::VermilionPaperLight => Theme::VermilionPaperDark,
        Theme::VermilionPaperDark => Theme::RanPaperLight,
        Theme::RanPaperLight => Theme::RanPaperDark,
        Theme::RanPaperDark => Theme::VermilionPaperLight,
    }
}

impl Theme {
    /// The theme named `name`, if any.
    pub fn from_name(name: &str) -> (theme: Option<Self>)
        ensures
            match theme {
                Some(t) => theme_name(t) == name@,
                None => forall|t: Theme| theme_name(t) != name@,
            },
    {
        if str_equal(name, "Vermilion Paper Light") {
            Some(Theme::VermilionPaperLight)
        } else if str_equal(name, "Vermilion Paper Dark") {
            Some(Theme::VermilionPaperDark)
        } else if str_equal(name, "Ran Paper Light") {
            Some(Theme::RanPaperLight)
        } else if str_equal(name, "Ran Paper Dark") {
            Some(Theme::RanPaperDark)
        } else {
            None
        }
    }

    pub fn name(self) -> (name: &'static str)
        ensures
            name@ == theme_name(self),
    {
        match self {
            Theme::VermilionPaperLight => "Vermilion Paper Light",
            Theme::VermilionPaperDark => "Vermilion Paper Dark",
            Theme::RanPaperLight => "Ran Paper Light",
            Theme::RanPaperDark => "Ran Paper Dark",
        }
    }

    pub fn next(self) -> (next: Self)
        ensures
            next == next_theme(self),
    {
        match self {
            Theme::VermilionPaperLight => Theme::VermilionPaperDark,
            Theme::VermilionPaperDark => Theme::RanPaperLight,
            Theme::RanPaperLight => Theme::RanPaperDark,
            Theme::RanPaperDark => Theme::VermilionPaperLight,
        }
    }
}

/// A terminal color: one of the sixteen named colors, an indexed color, a
/// true color, or the terminal's default.
#[derive(Clone, Copy, Debug, PartialEq, Eq, Structural)]
pub enum Color {
    Reset,
    Black,
    Red,
    Green,
    Yellow,
    Blue,
    Magenta,
    Cyan,
    Gray,
    DarkGray,
    LightRed,
    LightGreen,
    LightYellow,
    LightBlue,
    LightMagenta,
    LightCyan,
    White,
    Rgb(u8, u8, u8),
    Indexed(u8),
}

/// Colors the configuration replaces in the theme.
#[derive(Clone, Copy, Debug, Default, PartialEq, Eq, Structural)]
pub struct ColorOverrides {
    pub background: Option<Color>,
    pub surface: Option<Color>,
    pub text: Option<Color>,
    pub muted: Option<Color>,
    pub accent: Option<Color>,
    pub gold: Option<Color>,
    pub good: Option<Color>,
    pub border: Option<Color>,
}

impl ColorOverrides {
    /// No color replaced.
    pub open spec fn none_spec() -> Self {
        ColorOverrides {
            background: None,
            surface: None,
            text: None,
            muted: None,
            accent: None,
            gold: None,
            good: None,
            border: None,
        }
    }

    /// No color replaced.
    pub fn none() -> (overrides: Self)
        ensures
            overrides == (ColorOverrides {
                background: None,
                surface: None,
                text: None,
                muted: None,
                accent: None,
                gold: None,
                good: None,
                border: None,
            }),
    {
        ColorOverrides {
            background: None,
            surface: None,
            text: None,
            muted: None,
            accent: None,
            gold: None,
            good: None,
            border: None,
        }
    }
}

/// The colors a screen is drawn with.
#[derive(Clone, Copy, Debug, PartialEq, Eq, Structural)]
pub struct Colors {
    pub background: Color,
    pub surface: Color,
    pub text: Color,
    pub muted: Color,
    pub accent: Color,
    pub gold: Color,
    pub good: Color,
    pub border: Color,
}

/// The built-in colors of a theme.
pub open spec fn theme_colors(theme: Theme) -> Colors {
    match theme {
        Theme::VermilionPaperLight => Colors {
            background: Color::Rgb(247, 243, 235),
            surface: Color::Rgb(235, 228, 216),
            text: Color::Rgb(33, 29, 26),
            muted: Color::Rgb(105, 96, 88),
            accent: Color::Rgb(159, 45, 36),
            gold: Color::Rgb(155, 116, 56),
            good: Color::Rgb(55, 112, 79),
            border: Color::Rgb(175, 160, 145),
        },
        Theme::VermilionPaperDark => Colors {
            background: Color::Rgb(17, 16, 15),
            surface: Color::Rgb(33, 29, 26),
            text: Color::Rgb(247, 243, 235),
            muted: Color::Rgb(170, 157, 145),
            accent: Color::Rgb(214, 107, 95),
            gold: Color::Rgb(201, 166, 107),
            good: Color::Rgb(112, 177, 132),
            border: Color::Rgb(84, 73, 65),
        },
        Theme::RanPaperLight => Colors {
            background: Color::Rgb(232, 223, 201),
            surface: Color::Rgb(198, 187, 165),
            text: Color::Rgb(33, 31, 26),
            muted: Color::Rgb(112, 103, 91),
            accent: Color::Rgb(166, 35, 31),
            gold: Color::Rgb(184, 135, 34),
            good: Color::Rgb(49, 92, 120),
            border: Color::Rgb(166, 154, 132),
        },
        Theme::RanPaperDark => Colors {
            background: Color::Rgb(17, 16, 15),
            surface: Color::Rgb(37, 33, 28),
            text: Color::Rgb(221, 210, 185),
            muted: Color::Rgb(156, 149, 136),
            accent: Color::Rgb(214, 74, 60),
            gold: Color::Rgb(216, 173, 67),
            good: Color::Rgb(101, 145, 173),
            border: Color::Rgb(86, 78, 67),
        },
    }
}

/// An override, or the theme's color.
pub open spec fn or_theme(o: Option<Color>, c: Color) -> Color {
    match o {
        Some(x) => x,
        None => c,
    }
}

fn pick(o: Option<Color>, c: Color) -> (chosen: Color)
    ensures
        chosen == or_theme(o, c),
{
    match o {
        Some(x) => x,
        None => c,
    }
}

/// A theme's colors with the configured replacements.
pub fn colors(theme: Theme, overrides: ColorOverrides) -> (colors: Colors)
    ensures
        ({
            let base = theme_colors(theme);
            colors == Colors {
                background: or_theme(overrides.background, base.background),
                surface: or_theme(overrides.surface, base.surface),
                text: or_theme(overrides.text, base.text),
                muted: or_theme(overrides.muted, base.muted),
                accent: or_theme(overrides.accent, base.accent),
                gold: or_theme(overrides.gold, base.gold),
                good: or_theme(overrides.good, base.good),
                border: or_theme(overrides.border, base.border),
            }
        }),
{
    let base = match theme {
        Theme::VermilionPaperLight => Colors {
            background: Color::Rgb(247, 243, 235),
            surface: Color::Rgb(235, 228, 216),
            text: Color::Rgb(33, 29, 26),
            muted: Color::Rgb(105, 96, 88),
            accent: Color::Rgb(159, 45, 36),
            gold: Color::Rgb(155, 116, 56),
            good: Color::Rgb(55, 112, 79),
            border: Color::Rgb(175, 160, 145),
        },
        Theme::VermilionPaperDark => Colors {
            background: Color::Rgb(17, 16, 15),
            surface: Color::Rgb(33, 29, 26),
            text: Color::Rgb(247, 243, 235),
            muted: Color::Rgb(170, 157, 145),
            accent: Color::Rgb(214, 107, 95),
            gold: Color::Rgb(201, 166, 107),
            good: Color::Rgb(112, 177, 132),
            border: Color::Rgb(84, 73, 65),
        },
        Theme::RanPaperLight => Colors {
            background: Color::Rgb(232, 223, 201),
            surface: Color::Rgb(198, 187, 165),
            text: Color::Rgb(33, 31, 26),
            muted: Color::Rgb(112, 103, 91),
            accent: Color::Rgb(166, 35, 31),
            gold: Color::Rgb(184, 135, 34),
            good: Color::Rgb(49, 92, 120),
            border: Color::Rgb(166, 154, 132),
        },
        Theme::RanPaperDark => Colors {
            background: Color::Rgb(17, 16, 15),
            surface: Color::Rgb(37, 33, 28),
            text: Color::Rgb(221, 210, 185),
            muted: Color::Rgb(156, 149, 136),
            accent: Color::Rgb(214, 74, 60),
            gold: Color::Rgb(216, 173, 67),
            good: Color::Rgb(101, 145, 173),
            border: Color::Rgb(86, 78, 67),
        },
    };
    Colors {
        background: pick(overrides.background, base.background),
        surface: pick(overrides.surface, base.surface),
        text: pick(overrides.text, base.text),
        muted: pick(overrides.muted, base.muted),
        accent: pick(overrides.accent, base.accent),
        gold: pick(overrides.gold, base.gold),
        good: pick(overrides.good, base.good),
        border: pick(overrides.border, base.border),
    }
}

/// The accent follows the Current Session: gold while paused or pending,
/// the calm color for a break, the theme's accent for Focus.
pub fn session_colors(snapshot: Option<&Snapshot>, colors: Colors) -> (chosen: Colors)
    ensures
        match snapshot {
            Some(s) => chosen == Colors {
                accent: if s.state@ == "paused"@ || s.state@ == "pending"@ {
                    colors.gold
                } else if s.kind != SessionKind::Focus {
                    colors.good
                } else {
                    colors.accent
                },
                ..colors
            },
            None => chosen == colors,
        },
{
    match snapshot {
        Some(s) => {
            let accent = if str_equal(s.state.as_str(), "paused") || str_equal(s.state.as_str(), "pending") {
                colors.gold
            } else if s.kind != SessionKind::Focus {
                colors.good
            } else {
                colors.accent
            };
            Colors { accent, ..colors }
        },
        None => colors,
    }
}

/// The color for a Session kind: the accent for Focus, the calm color for
/// breaks.
pub fn session_color_for_kind(kind: SessionKind, colors: Colors) -> (color: Color)
    ensures
        color == if kind == SessionKind::Focus {
            colors.accent
        } else {
            colors.good
        },
{
    if kind == SessionKind::Focus {
        colors.accent
    } else {
        colors.good
    }
}

/// The perceived brightness of a true color, weighted per channel.
pub open spec fn luminance(red: u8, green: u8, blue: u8) -> int {
    red * 299 + green * 587 + blue * 114
}

/// Text that stays readable on `background`: black on bright colors, white
/// on dark ones.
pub open spec fn contrasting_text_spec(background: Color) -> Color {
    match background {
        Color::Rgb(r, g, b) => if luminance(r, g, b) >= 150_000 {
            Color::Black
        } else {
            Color::White
        },
        Color::White | Color::Gray | Color::Yellow | Color::LightYellow | Color::LightGreen
        | Color::LightCyan => Color::Black,
        _ => Color::White,
    }
}

pub fn contrasting_text(background: Color) -> (text: Color)
    ensures
        text == contrasting_text_spec(background),
{
    match background {
        Color::Rgb(red, green, blue) => {
            let l = red as u32 * 299 + green as u32 * 587 + blue as u32 * 114;
            if l >= 150_000 {
                Color::Black
            } else {
                Color::White
            }
        },
        Color::White | Color::Gray | Color::Yellow | Color::LightYellow | Color::LightGreen
        | Color::LightCyan => Color::Black,
        _ => Color::White,
    }
}

#[derive(Clone, Copy, Debug, PartialEq, Eq, Structural)]
pub enum Language {
    English,
    SimplifiedChinese,
}

/// The English or the Chinese text.
pub open spec fn text_spec(language: Language, english: Seq<char>, chinese: Seq<char>) -> Seq<char> {
    match language {
        Language::English => english,
        Language::SimplifiedChinese => chinese,
    }
}

/// The English or the Chinese text, by language.
pub fn text(language: Language, english: &'static str, chinese: &'static str) -> (chosen: &'static str)
    ensures
        chosen@ == text_spec(language, english@, chinese@),
{
    match language {
        Language::English => english,
        Language::SimplifiedChinese => chinese,
    }
}

/// The label of a Session kind.
pub open spec fn kind_label_spec(kind: SessionKind, language: Language) -> Seq<char> {
    match kind {
        SessionKind::Focus => text_spec(language, "Focus"@, "专注"@),
        SessionKind::ShortBreak => text_spec(language, "Short Break"@, "短休息"@),
        SessionKind::LongBreak => text_spec(language, "Long Break"@, "长休息"@),
    }
}

pub fn kind_label(kind: SessionKind, language: Language) -> (label: &'static str)
    ensures
        label@ == kind_label_spec(kind, language),
{
    match kind {
        SessionKind::Focus => text(language, "Focus", "专注"),
        SessionKind::ShortBreak => text(language, "Short Break", "短休息"),
        SessionKind::LongBreak => text(language, "Long Break", "长休息"),
    }
}

/// The label of a Session outcome; an unknown outcome is "Recorded".
pub fn outcome_label(outcome: &str, language: Language) -> (label: &'static str)
    ensures
        label@ == if outcome@ == "Completed"@ {
            text_spec(language, "Completed"@, "已完成"@)
        } else if outcome@ == "Stopped"@ {
            text_spec(language, "Stopped"@, "已停止"@)
        } else if outcome@ == "Skipped"@ {
            text_spec(language, "Skipped"@, "已跳过"@)
        } else {
            text_spec(language, "Recorded"@, "已记录"@)
        },
{
    if str_equal(outcome, "Completed") {
        text(language, "Completed", "已完成")
    } else if str_equal(outcome, "Stopped") {
        text(language, "Stopped", "已停止")
    } else if str_equal(outcome, "Skipped") {
        text(language, "Skipped", "已跳过")
    } else {
        text(language, "Recorded", "已记录")
    }
}

/// The heading above the countdown.
pub fn session_heading(snapshot: &Snapshot, language: Language) -> (heading: &'static str)
    ensures
        heading@ == if snapshot.state@ == "paused"@ {
            text_spec(language, "PAUSED FOCUS"@, "专注已暂停"@)
        } else if snapshot.state@ == "pending"@ {
            text_spec(language, "PENDING SESSION"@, "时段待开始"@)
        } else {
            match snapshot.kind {
                SessionKind::Focus => text_spec(language, "FOCUS SESSION"@, "专注时段"@),
                SessionKind::ShortBreak => text_spec(language, "SHORT BREAK"@, "短休息"@),
                SessionKind::LongBreak => text_spec(language, "LONG BREAK"@, "长休息"@),
            }
        },
{
    if str_equal(snapshot.state.as_str(), "paused") {
        text(language, "PAUSED FOCUS", "专注已暂停")
    } else if str_equal(snapshot.state.as_str(), "pending") {
        text(language, "PENDING SESSION", "时段待开始")
    } else {
        match snapshot.kind {
            SessionKind::Focus => text(language, "FOCUS SESSION", "专注时段"),
            SessionKind::ShortBreak => text(language, "SHORT BREAK", "短休息"),
            SessionKind::LongBreak => text(language, "LONG BREAK", "长休息"),
        }
    }
}

/// The line that announces the next Session.
pub fn next_session_line(snapshot: &Snapshot, language: Language) -> (line: String)
    ensures
        line@ == match snapshot.next_kind {
            None => text_spec(language, "Next Session follows the Focus Cycle"@, "下一时段按专注循环决定"@),
            Some(kind) => text_spec(language, "Next"@, "下一时段"@) + ": "@ + kind_label_spec(
                kind,
                language,
            ) + " · "@ + text_spec(language, "waits for Start"@, "等待开始"@),
        },
{
    match snapshot.next_kind {
        None => String::from_str(
            text(language, "Next Session follows the Focus Cycle", "下一时段按专注循环决定"),
        ),
        Some(kind) => {
            let head = concat3(text(language, "Next", "下一时段"), ": ", kind_label(kind, language));
            concat3(head.as_str(), " · ", text(language, "waits for Start", "等待开始"))
        },
    }
}

// ---------------------------------------------------------------------------
// Times, bars and the large countdown.
// ---------------------------------------------------------------------------

/// `MM:SS` for a number of seconds.
pub fn clock(seconds: u64) -> (text: String)
    ensures
        text@ == minutes_seconds(seconds),
{
    minutes_seconds_string(seconds)
}

/// Whole hours and minutes: `25m`, or `2h 05m` from an hour on.
pub open spec fn human_duration_spec(seconds: u64) -> Seq<char> {
    let hours = seconds / 3600;
    let minutes = seconds % 3600 / 60;
    if hours == 0 {
        decimal(minutes as nat) + "m"@
    } else {
        decimal(hours as nat) + "h "@ + decimal_padded(minutes as nat, 2) + "m"@
    }
}

pub fn human_duration(seconds: u64) -> (text: String)
    ensures
        text@ == human_duration_spec(seconds),
{
    let hours = seconds / 3600;
    let minutes = seconds % 3600 / 60;
    if hours == 0 {
        let m = decimal_string(minutes);
        concat(m.as_str(), "m")
    } else {
        let h = decimal_string(hours);
        let m = decimal_padded_string(minutes, 2);
        let head = concat3(h.as_str(), "h ", m.as_str());
        concat(head.as_str(), "m")
    }
}

/// Seconds under a minute as `42s`, else `MM:SS`.
pub fn human_duration_precise(seconds: u64) -> (text: String)
    ensures
        text@ == if seconds < 60 {
            decimal(seconds as nat) + "s"@
        } else {
            minutes_seconds(seconds)
        },
{
    if seconds < 60 {
        let s = decimal_string(seconds);
        concat(s.as_str(), "s")
    } else {
        clock(seconds)
    }
}

/// `n` copies of the character `c`.
pub open spec fn repeated(c: char, n: nat) -> Seq<char> {
    Seq::new(n, |_i: int| c)
}

fn repeat_char(c: char, n: usize) -> (text: Vec<char>)
    ensures
        text@ == repeated(c, n as nat),
{
    let mut out: Vec<char> = Vec::new();
    let mut i: usize = 0;
    while i < n
        invariant
            i <= n,
            out@ == repeated(c, i as nat),
        decreases n - i,
    {
        out.push(c);
        i = i + 1;
        assert(out@ =~= repeated(c, i as nat));
    }
    out
}

/// How many of `width` cells a value fills against a maximum.
pub open spec fn filled_cells(value: u64, maximum: u64, width: usize) -> nat {
    let scaled = if value * width > u64::MAX {
        u64::MAX as int
    } else {
        value * width
    };
    if scaled / (maximum as int) < width {
        (scaled / (maximum as int)) as nat
    } else {
        width as nat
    }
}

/// A horizontal bar of `width` cells: `█` for the share of the maximum,
/// `·` for the rest; all `·` when the maximum is zero.
pub fn report_bar(value: u64, maximum: u64, width: usize) -> (bar: String)
    requires
        width <= u64::MAX,
    ensures
        bar@ == if maximum == 0 {
            repeated('·', width as nat)
        } else {
            repeated('█', filled_cells(value, maximum, width)) + repeated(
                '·',
                (width - filled_cells(value, maximum, width)) as nat,
            )
        },
{
    if maximum == 0 {
        let dots = repeat_char('·', width);
        return string_from_chars(dots.as_slice());
    }
    let w = width as u64;
    proof {
        if w != 0 {
            assert(value > u64::MAX / w <==> value * w > u64::MAX) by (nonlinear_arith)
                requires w != 0;
        } else {
            assert(value * w == 0) by (nonlinear_arith)
                requires w == 0;
        }
    }
    let scaled: u64 = if w != 0 && value > u64::MAX / w {
        u64::MAX
    } else {
        value * w
    };
    let quotient = scaled / maximum;
    let filled: usize = if quotient < w {
        quotient as usize
    } else {
        width
    };
    let mut cells = repeat_char('█', filled);
    let dots = repeat_char('·', width - filled);
    let ghost before = cells@;
    let mut i: usize = 0;
    while i < dots.len()
        invariant
            i <= dots@.len(),
            cells@ == before + dots@.subrange(0, i as int),
        decreases dots@.len() - i,
    {
        cells.push(dots[i]);
        i = i + 1;
        assert(cells@ =~= before + dots@.subrange(0, i as int));
    }
    assert(dots@.subrange(0, dots@.len() as int) =~= dots@);
    string_from_chars(cells.as_slice())
}

/// The bar characters of a trend, from lowest to highest.
pub open spec fn trend_bar(index: int) -> char {
    if index <= 0 {
        '▁'
    } else if index == 1 {
        '▂'
    } else if index == 2 {
        '▃'
    } else if index == 3 {
        '▄'
    } else if index == 4 {
        '▅'
    } else if index == 5 {
        '▆'
    } else if index == 6 {
        '▇'
    } else {
        '█'
    }
}

fn trend_char(index: u64) -> (c: char)
    ensures
        c == trend_bar(index as int),
{
    if index == 0 {
        '▁'
    } else if index == 1 {
        '▂'
    } else if index == 2 {
        '▃'
    } else if index == 3 {
        '▄'
    } else if index == 4 {
        '▅'
    } else if index == 5 {
        '▆'
    } else if index == 6 {
        '▇'
    } else {
        '█'
    }
}

/// The largest of seven values.
pub open spec fn max_of(values: Seq<u64>, n: int) -> u64
    decreases n,
{
    if n <= 0 {
        0
    } else {
        let rest = max_of(values, n - 1);
        if values[n - 1] > rest {
            values[n - 1]
        } else {
            rest
        }
    }
}

/// The bar height of a value against the maximum, from 0 to 7.
pub open spec fn trend_level(value: u64, maximum: u64) -> int {
    if maximum == 0 {
        0
    } else {
        let scaled = if value * 7 > u64::MAX {
            u64::MAX as int
        } else {
            value * 7
        };
        scaled / (maximum as int)
    }
}

/// Seven days as a line of bars scaled to the largest day.
pub fn trend(values: [u64; 7]) -> (line: String)
    ensures
        line@.len() == 7,
        forall|i: int|
            0 <= i < 7 ==> #[trigger] line@[i] == trend_bar(
                trend_level(values@[i], max_of(values@, 7)),
            ),
{
    let mut maximum: u64 = 0;
    let mut k: usize = 0;
    while k < 7
        invariant
            k <= 7,
            maximum == max_of(values@, k as int),
        decreases 7 - k,
    {
        if values[k] > maximum {
            maximum = values[k];
        }
        k = k + 1;
    }
    let mut out: Vec<char> = Vec::new();
    let mut i: usize = 0;
    while i < 7
        invariant
            i <= 7,
            maximum == max_of(values@, 7),
            out@.len() == i,
            forall|j: int|
                0 <= j < i ==> #[trigger] out@[j] == trend_bar(trend_level(values@[j], maximum)),
        decreases 7 - i,
    {
        let value = values[i];
        let scaled: u64 = if value > u64::MAX / 7 {
            u64::MAX
        } else {
            value * 7
        };
        let level: u64 = if maximum == 0 {
            0
        } else {
            scaled / maximum
        };
        out.push(trend_char(level));
        i = i + 1;
    }
    string_from_chars(out.as_slice())
}

/// The rows of a large digit, or of the colon.
pub open spec fn glyph(c: char) -> Seq<Seq<char>> {
    if c == ':' {
        seq!["     "@, "  █  "@, "     "@, "  █  "@, "     "@]
    } else if c == '1' {
        seq!["  ██ "@, " ███ "@, "  ██ "@, "  ██ "@, "█████"@]
    } else if c == '2' {
        seq!["█████"@, "   ██"@, "█████"@, "██   "@, "█████"@]
    } else if c == '3' {
        seq!["█████"@, "   ██"@, " ████"@, "   ██"@, "█████"@]
    } else if c == '4' {
        seq!["██ ██"@, "██ ██"@, "█████"@, "   ██"@, "   ██"@]
    } else if c == '5' {
        seq!["█████"@, "██   "@, "█████"@, "   ██"@, "█████"@]
    } else if c == '6' {
        seq!["█████"@, "██   "@, "█████"@, "██ ██"@, "█████"@]
    } else if c == '7' {
        seq!["█████"@, "   ██"@, "  ██ "@, " ██  "@, "██   "@]
    } else if c == '8' {
        seq!["█████"@, "██ ██"@, "█████"@, "██ ██"@, "█████"@]
    } else if c == '9' {
        seq!["█████"@, "██ ██"@, "█████"@, "   ██"@, "█████"@]
    } else {
        seq!["█████"@, "██ ██"@, "██ ██"@, "██ ██"@, "█████"@]
    }
}

fn glyph_row(c: char, row: usize) -> (part: &'static str)
    requires
        row < 5,
    ensures
        part@ == glyph(c)[row as int],
{
    let rows: [&'static str; 5] = if c == ':' {
        ["     ", "  █  ", "     ", "  █  ", "     "]
    } else if c == '1' {
        ["  ██ ", " ███ ", "  ██ ", "  ██ ", "█████"]
    } else if c == '2' {
        ["█████", "   ██", "█████", "██   ", "█████"]
    } else if c == '3' {
        ["█████", "   ██", " ████", "   ██", "█████"]
    } else if c == '4' {
        ["██ ██", "██ ██", "█████", "   ██", "   ██"]
    } else if c == '5' {
        ["█████", "██   ", "█████", "   ██", "█████"]
    } else if c == '6' {
        ["█████", "██   ", "█████", "██ ██", "█████"]
    } else if c == '7' {
        ["█████", "   ██", "  ██ ", " ██  ", "██   "]
    } else if c == '8' {
        ["█████", "██ ██", "█████", "██ ██", "█████"]
    } else if c == '9' {
        ["█████", "██ ██", "█████", "   ██", "█████"]
    } else {
        ["█████", "██ ██", "██ ██", "██ ██", "█████"]
    };
    rows[row]
}

/// Row `row` of the large rendering of `value`: each character's glyph row,
/// separated by one space.
pub open spec fn big_row(value: Seq<char>, row: int) -> Seq<char>
    decreases value.len(),
{
    if value.len() == 0 {
        Seq::empty()
    } else if value.len() == 1 {
        glyph(value[0])[row]
    } else {
        big_row(value.drop_last(), row) + " "@ + glyph(value.last())[row]
    }
}

/// The five rows of the large countdown for `value`.
pub fn big_clock(value: &str) -> (rows: Vec<String>)
    ensures
        rows@.len() == 5,
        forall|r: int| 0 <= r < 5 ==> (#[trigger] rows@[r])@ == big_row(value@, r),
{
    let chars = chars_of(value);
    let mut rows: Vec<String> = Vec::new();
    let mut r: usize = 0;
    while r < 5
        invariant
            r <= 5,
            chars@ == value@,
            rows@.len() == r,
            forall|k: int| 0 <= k < r ==> (#[trigger] rows@[k])@ == big_row(value@, k),
        decreases 5 - r,
    {
        let mut line: Vec<char> = Vec::new();
        let mut i: usize = 0;
        while i < chars.len()
            invariant
                i <= chars@.len(),
                r < 5,
                chars@ == value@,
                line@ == big_row(value@.subrange(0, i as int), r as int),
            decreases chars@.len() - i,
        {
            let part = chars_of(glyph_row(chars[i], r));
            let ghost before = line@;
            proof {
                reveal_strlit(" ");
            }
            if i > 0 {
                line.push(' ');
                assert(line@ =~= before + " "@);
            }
            let mut k: usize = 0;
            while k < part.len()
                invariant
                    k <= part@.len(),
                    line@ == (if i > 0 {
                        before + " "@
                    } else {
                        before
                    }) + part@.subrange(0, k as int),
                decreases part@.len() - k,
            {
                line.push(part[k]);
                k = k + 1;
                assert(line@ =~= (if i > 0 {
                    before + " "@
                } else {
                    before
                }) + part@.subrange(0, k as int));
            }
            proof {
                reveal_strlit(" ");
                assert(part@.subrange(0, part@.len() as int) =~= part@);
                let sub = value@.subrange(0, i as int + 1);
                assert(sub.drop_last() =~= value@.subrange(0, i as int));
                assert(sub.last() == chars@[i as int]);
                if i == 0 {
                    assert(before =~= Seq::<char>::empty());
                    assert(sub.len() == 1);
                    assert(line@ =~= glyph(sub[0])[r as int]);
                } else {
                    assert(line@ =~= big_row(sub.drop_last(), r as int) + " "@ + glyph(sub.last())[r as int]);
                }
            }
            i = i + 1;
        }
        assert(value@.subrange(0, chars@.len() as int) =~= value@);
        rows.push(string_from_chars(line.as_slice()));
        r = r + 1;
    }
    rows
}


// ---------------------------------------------------------------------------
// Fitting text to terminal columns.
// ---------------------------------------------------------------------------

/// The columns of a character, zero for one without a width.
pub open spec fn columns_of(c: char) -> int {
    match char_display_width(c) {
        Some(w) => w as int,
        None => 0,
    }
}

/// Where truncation to `content` columns stops: the first position from `i`
/// whose character no longer fits after the text before it.
pub open spec fn cut_from(value: Seq<char>, content: int, i: int) -> int
    decreases value.len() - i,
{
    if i < 0 || i >= value.len() {
        value.len() as int
    } else if display_width(value.subrange(0, i)) + columns_of(value[i]) > content {
        i
    } else {
        cut_from(value, content, i + 1)
    }
}

/// `value` fitted into `maximum` columns: unchanged if it fits, else cut
/// and ended with `…`.
pub open spec fn truncate_spec(value: Seq<char>, maximum: usize) -> Seq<char> {
    if display_width(value) <= maximum {
        value
    } else if maximum <= 1 {
        repeated('…', maximum as nat)
    } else {
        value.subrange(0, cut_from(value, maximum - 1, 0)) + seq!['…']
    }
}

/// Fits `value` into `maximum` terminal columns.
pub fn truncate(value: &str, maximum: usize) -> (fitted: String)
    ensures
        fitted@ == truncate_spec(value@, maximum),
{
    if str_width(value) <= maximum {
        return String::from_str(value);
    }
    if maximum <= 1 {
        let ellipses = repeat_char('…', maximum);
        return string_from_chars(ellipses.as_slice());
    }
    let chars = chars_of(value);
    let content = maximum - 1;
    let mut output: Vec<char> = Vec::new();
    let mut i: usize = 0;
    let mut stopped = false;
    while i < chars.len() && !stopped
        invariant
            i <= chars@.len(),
            chars@ == value@,
            content == maximum - 1,
            output@ == value@.subrange(0, i as int),
            !stopped ==> cut_from(value@, content as int, 0) == cut_from(value@, content as int, i as int),
            stopped ==> cut_from(value@, content as int, 0) == i,
        decreases chars@.len() - i + (if stopped {
            0int
        } else {
            1int
        }),
    {
        let next_width: usize = match char_width(chars[i]) {
            Some(w) => w,
            None => 0,
        };
        let so_far = string_from_chars(output.as_slice());
        let used = str_width(so_far.as_str());
        if used > content || next_width > content - used {
            stopped = true;
        } else {
            output.push(chars[i]);
            i = i + 1;
            assert(output@ =~= value@.subrange(0, i as int));
        }
    }
    proof {
        if !stopped {
            assert(i == chars@.len());
        }
    }
    output.push('…');
    string_from_chars(output.as_slice())
}

/// `value` fitted into `width` columns and padded with spaces to fill them.
pub fn pad_display(value: &str, width: usize) -> (padded: String)
    ensures
        padded@ == truncate_spec(value@, width) + repeated(
            ' ',
            if display_width(truncate_spec(value@, width)) < width {
                (width - display_width(truncate_spec(value@, width))) as nat
            } else {
                0
            },
        ),
{
    let fitted = truncate(value, width);
    let used = str_width(fitted.as_str());
    let padding: usize = if used < width {
        width - used
    } else {
        0
    };
    let spaces = repeat_char(' ', padding);
    let tail = string_from_chars(spaces.as_slice());
    concat(fitted.as_str(), tail.as_str())
}

/// A settings row: its label in a column 28 wide, then its value.
pub fn settings_row(label: &str, value: &str) -> (row: String)
    ensures
        row@ == "  "@ + truncate_spec(label@, 28) + repeated(
            ' ',
            if display_width(truncate_spec(label@, 28)) < 28 {
                (28 - display_width(truncate_spec(label@, 28))) as nat
            } else {
                0
            },
        ) + value@,
{
    let padded = pad_display(label, 28);
    concat3("  ", padded.as_str(), value)
}


// ---------------------------------------------------------------------------
// Views, overlays, keys and the command palette.
// ---------------------------------------------------------------------------

#[derive(Clone, Copy, Debug, PartialEq, Eq, Structural)]
pub enum Page {
    Dashboard,
    Today,
    Review,
    History,
}

#[derive(Clone, Copy, Debug, PartialEq, Eq, Structural)]
pub enum Overlay {
    Closed,
    Palette,
    Settings,
    Help,
    CreateTask,
    RenameTask,
    ConfirmDelete,
    ConfirmTaskSwitch,
    ConfirmHistoryDelete,
}

#[derive(Clone, Copy, Debug, PartialEq, Eq, Structural)]
pub enum InputKey {
    Char(char),
    Escape,
    Enter,
    Backspace,
    Up,
    Down,
    Left,
    Right,
    AltSpace,
}

/// What a key asks of the program around the App.
#[derive(Clone, Debug, PartialEq, Eq)]
pub enum Action {
    Command(Command),
    SetLanguage(Language),
    Quit,
}

pub open spec fn next_view_spec(view: Page) -> Page {
    match view {
        Page::Dashboard => Page::Today,
        Page::Today => Page::Review,
        Page::Review => Page::History,
        Page::History => Page::Dashboard,
    }
}

pub open spec fn previous_view_spec(view: Page) -> Page {
    match view {
        Page::Dashboard => Page::History,
        Page::History => Page::Review,
        Page::Review => Page::Today,
        Page::Today => Page::Dashboard,
    }
}

pub fn next_view(view: Page) -> (next: Page)
    ensures
        next == next_view_spec(view),
{
    match view {
        Page::Dashboard => Page::Today,
        Page::Today => Page::Review,
        Page::Review => Page::History,
        Page::History => Page::Dashboard,
    }
}

pub fn previous_view(view: Page) -> (previous: Page)
    ensures
        previous == previous_view_spec(view),
{
    match view {
        Page::Dashboard => Page::History,
        Page::History => Page::Review,
        Page::Review => Page::Today,
        Page::Today => Page::Dashboard,
    }
}

/// What a command palette entry does.
#[derive(Clone, Copy, Debug, PartialEq, Eq, Structural)]
pub enum PaletteCommand {
    Toggle,
    Stop,
    Skip,
    StartFocus,
    StartFocusWithoutTask,
    StartShortBreak,
    StartLongBreak,
    CreateTask,
    RenameTask,
    CompleteTask,
    DeleteTask,
    Today,
    Review,
    History,
    Settings,
    Help,
}

/// The number of command palette entries.
pub const PALETTE_LEN: usize = 16;

/// The command of palette entry `i`, in the palette's order.
pub open spec fn palette_command_at(i: int) -> PaletteCommand {
    if i == 0 {
        PaletteCommand::Toggle
    } else if i == 1 {
        PaletteCommand::Stop
    } else if i == 2 {
        PaletteCommand::Skip
    } else if i == 3 {
        PaletteCommand::StartFocus
    } else if i == 4 {
        PaletteCommand::StartFocusWithoutTask
    } else if i == 5 {
        PaletteCommand::StartShortBreak
    } else if i == 6 {
        PaletteCommand::StartLongBreak
    } else if i == 7 {
        PaletteCommand::CreateTask
    } else if i == 8 {
        PaletteCommand::RenameTask
    } else if i == 9 {
        PaletteCommand::CompleteTask
    } else if i == 10 {
        PaletteCommand::DeleteTask
    } else if i == 11 {
        PaletteCommand::Today
    } else if i == 12 {
        PaletteCommand::Review
    } else if i == 13 {
        PaletteCommand::History
    } else if i == 14 {
        PaletteCommand::Settings
    } else {
        PaletteCommand::Help
    }
}

pub fn palette_command(i: usize) -> (command: PaletteCommand)
    requires
        i < PALETTE_LEN,
    ensures
        command == palette_command_at(i as int),
{
    if i == 0 {
        PaletteCommand::Toggle
    } else if i == 1 {
        PaletteCommand::Stop
    } else if i == 2 {
        PaletteCommand::Skip
    } else if i == 3 {
        PaletteCommand::StartFocus
    } else if i == 4 {
        PaletteCommand::StartFocusWithoutTask
    } else if i == 5 {
        PaletteCommand::StartShortBreak
    } else if i == 6 {
        PaletteCommand::StartLongBreak
    } else if i == 7 {
        PaletteCommand::CreateTask
    } else if i == 8 {
        PaletteCommand::RenameTask
    } else if i == 9 {
        PaletteCommand::CompleteTask
    } else if i == 10 {
        PaletteCommand::DeleteTask
    } else if i == 11 {
        PaletteCommand::Today
    } else if i == 12 {
        PaletteCommand::Review
    } else if i == 13 {
        PaletteCommand::History
    } else if i == 14 {
        PaletteCommand::Settings
    } else {
        PaletteCommand::Help
    }
}

/// The English and Chinese labels of a palette command.
pub open spec fn palette_labels(command: PaletteCommand) -> (Seq<char>, Seq<char>) {
    match command {
        PaletteCommand::Toggle => ("Start / pause / resume Current Session"@, "开始 / 暂停 / 继续当前时段"@),
        PaletteCommand::Stop => ("Stop Current Session"@, "停止当前时段"@),
        PaletteCommand::Skip => ("Skip Current Session"@, "跳过当前时段"@),
        PaletteCommand::StartFocus => ("Start Focus with selected Task"@, "用所选任务开始专注"@),
        PaletteCommand::StartFocusWithoutTask => ("Start Focus without a Task"@, "无任务开始专注"@),
        PaletteCommand::StartShortBreak => ("Start Short Break"@, "开始短休息"@),
        PaletteCommand::StartLongBreak => ("Start Long Break"@, "开始长休息"@),
        PaletteCommand::CreateTask => ("Create task…"@, "新建任务…"@),
        PaletteCommand::RenameTask => ("Rename task…"@, "重命名任务…"@),
        PaletteCommand::CompleteTask => ("Complete task / reopen task"@, "完成 / 重新打开任务"@),
        PaletteCommand::DeleteTask => ("Delete task…"@, "删除任务…"@),
        PaletteCommand::Today => ("Open Today summary"@, "打开今日汇总"@),
        PaletteCommand::Review => ("Open History review"@, "打开历史复盘"@),
        PaletteCommand::History => ("Open Session History"@, "打开时段历史"@),
        PaletteCommand::Settings => ("Open Settings"@, "打开设置"@),
        PaletteCommand::Help => ("Open Help"@, "打开帮助"@),
    }
}

/// The label of a palette command in a language.
pub fn palette_label(command: PaletteCommand, language: Language) -> (label: &'static str)
    ensures
        label@ == text_spec(language, palette_labels(command).0, palette_labels(command).1),
{
    match command {
        PaletteCommand::Toggle => text(language, "Start / pause / resume Current Session", "开始 / 暂停 / 继续当前时段"),
        PaletteCommand::Stop => text(language, "Stop Current Session", "停止当前时段"),
        PaletteCommand::Skip => text(language, "Skip Current Session", "跳过当前时段"),
        PaletteCommand::StartFocus => text(language, "Start Focus with selected Task", "用所选任务开始专注"),
        PaletteCommand::StartFocusWithoutTask => text(language, "Start Focus without a Task", "无任务开始专注"),
        PaletteCommand::StartShortBreak => text(language, "Start Short Break", "开始短休息"),
        PaletteCommand::StartLongBreak => text(language, "Start Long Break", "开始长休息"),
        PaletteCommand::CreateTask => text(language, "Create task…", "新建任务…"),
        PaletteCommand::RenameTask => text(language, "Rename task…", "重命名任务…"),
        PaletteCommand::CompleteTask => text(language, "Complete task / reopen task", "完成 / 重新打开任务"),
        PaletteCommand::DeleteTask => text(language, "Delete task…", "删除任务…"),
        PaletteCommand::Today => text(language, "Open Today summary", "打开今日汇总"),
        PaletteCommand::Review => text(language, "Open History review", "打开历史复盘"),
        PaletteCommand::History => text(language, "Open Session History", "打开时段历史"),
        PaletteCommand::Settings => text(language, "Open Settings", "打开设置"),
        PaletteCommand::Help => text(language, "Open Help", "打开帮助"),
    }
}

/// The key hint shown beside a palette command.
pub fn palette_hint(command: PaletteCommand) -> (hint: &'static str)
    ensures
        hint@ == match command {
            PaletteCommand::Toggle => "Space"@,
            PaletteCommand::Stop => "X"@,
            PaletteCommand::Skip => "K"@,
            PaletteCommand::StartFocus => "Enter"@,
            PaletteCommand::CreateTask => "n"@,
            PaletteCommand::RenameTask => "r"@,
            PaletteCommand::CompleteTask => "c"@,
            PaletteCommand::DeleteTask => "D"@,
            PaletteCommand::Settings => "s"@,
            PaletteCommand::Help => "?"@,
            _ => ""@,
        },
{
    match command {
        PaletteCommand::Toggle => "Space",
        PaletteCommand::Stop => "X",
        PaletteCommand::Skip => "K",
        PaletteCommand::StartFocus => "Enter",
        PaletteCommand::CreateTask => "n",
        PaletteCommand::RenameTask => "r",
        PaletteCommand::CompleteTask => "c",
        PaletteCommand::DeleteTask => "D",
        PaletteCommand::Settings => "s",
        PaletteCommand::Help => "?",
        _ => "",
    }
}

/// The key that a typed character stands for.
pub open spec fn key_of(c: char) -> InputKey {
    if c == '\u{1b}' {
        InputKey::Escape
    } else if c == '\n' || c == '\r' {
        InputKey::Enter
    } else if c == '\u{8}' || c == '\u{7f}' {
        InputKey::Backspace
    } else if c == '↑' {
        InputKey::Up
    } else if c == '↓' {
        InputKey::Down
    } else {
        InputKey::Char(c)
    }
}


// ---------------------------------------------------------------------------
// The App.
// ---------------------------------------------------------------------------

/// A completion animation that is playing.
#[derive(Clone, Debug, PartialEq, Eq)]
pub struct CompletionPlayback {
    pub animation: Animation,
    pub elapsed_ms: u64,
}

/// The terminal frontend's state: the last snapshot, what is shown, what is
/// selected and what is being typed.
#[derive(Clone, Debug, PartialEq, Eq)]
pub struct App {
    pub snapshot: Option<Snapshot>,
    pub theme: Theme,
    pub language: Language,
    pub view: Page,
    pub overlay: Overlay,
    pub selected_task: usize,
    pub history_cursor: usize,
    pub history_offset: usize,
    pub visual_anchor: Option<usize>,
    /// Marked Session History identities.
    pub marked_history: BTreeSet<u64>,
    pub color_overrides: ColorOverrides,
    pub pending_g: bool,
    pub palette_index: usize,
    pub input: String,
    pub narrow: bool,
    pub warning: Option<String>,
    pub message: Option<String>,
    pub completion: Option<CompletionPlayback>,
}

/// The number of Tasks in the snapshot.
pub open spec fn task_count(a: App) -> nat {
    match a.snapshot {
        Some(s) => s.tasks@.len(),
        None => 0,
    }
}

/// The number of Session History records in the snapshot.
pub open spec fn history_count(a: App) -> nat {
    match a.snapshot {
        Some(s) => s.recent_history@.len(),
        None => 0,
    }
}

/// The last position of a list of `n` entries, zero for an empty one.
pub open spec fn last_position(n: nat) -> int {
    if n == 0 {
        0
    } else {
        n - 1
    }
}

/// A cursor moved one step within `0..=last`.
pub open spec fn stepped(cursor: usize, forward: bool, last: int) -> usize {
    if forward {
        if cursor + 1 < last {
            (cursor + 1) as usize
        } else {
            last as usize
        }
    } else if cursor == 0 {
        0
    } else {
        (cursor - 1) as usize
    }
}

/// A cursor moved five steps within `0..=last`.
pub open spec fn paged(cursor: usize, forward: bool, last: int) -> usize {
    stepped(stepped(stepped(stepped(stepped(cursor, forward, last), forward, last), forward, last), forward, last), forward, last)
}

/// The selected Task, if the selection points at one.
pub open spec fn selected(a: App) -> Option<TaskSummary> {
    match a.snapshot {
        Some(s) => if a.selected_task < s.tasks@.len() {
            Some(s.tasks@[a.selected_task as int])
        } else {
            None
        },
        None => None,
    }
}

/// The state name of the snapshot, if there is one.
pub open spec fn state_of(a: App) -> Option<Seq<char>> {
    match a.snapshot {
        Some(s) => Some(s.state@),
        None => None,
    }
}

/// Whether a sequence of identities is strictly ascending.
pub open spec fn ascending(ids: Seq<u64>) -> bool {
    forall|i: int, j: int| 0 <= i < j < ids.len() ==> ids[i] < ids[j]
}

/// The members of a set of identities in ascending order.
pub open spec fn in_order(s: Set<u64>) -> Seq<u64> {
    choose|q: Seq<u64>| ascending(q) && q.to_set() == s
}

/// Two ascending sequences with the same members are the same sequence.
pub proof fn lemma_ascending_unique(a: Seq<u64>, b: Seq<u64>)
    requires
        ascending(a),
        ascending(b),
        a.to_set() == b.to_set(),
    ensures
        a == b,
    decreases a.len(),
{
    if a.len() == 0 {
        if b.len() > 0 {
            assert(b.to_set().contains(b[0]));
        }
        assert(a =~= b);
    } else {
        assert(a.to_set().contains(a[0]));
        assert(b.len() > 0);
        assert(b.to_set().contains(b[0]));
        let i = choose|i: int| 0 <= i < b.len() && b[i] == a[0];
        let j = choose|j: int| 0 <= j < a.len() && a[j] == b[0];
        assert(a[0] == b[0]) by {
            if i > 0 {
                assert(b[0] < b[i]);
            }
            if j > 0 {
                assert(a[0] < a[j]);
            }
        }
        let ra = a.drop_first();
        let rb = b.drop_first();
        assert forall|x: u64| ra.to_set().contains(x) implies rb.to_set().contains(x) by {
            let k = choose|k: int| 0 <= k < ra.len() && ra[k] == x;
            assert(a[k + 1] == x);
            assert(a.to_set().contains(x));
            let m = choose|m: int| 0 <= m < b.len() && b[m] == x;
            assert(a[0] < a[k + 1]);
            assert(m != 0);
            assert(rb[m - 1] == x);
        }
        assert forall|x: u64| rb.to_set().contains(x) implies ra.to_set().contains(x) by {
            let k = choose|k: int| 0 <= k < rb.len() && rb[k] == x;
            assert(b[k + 1] == x);
            assert(b.to_set().contains(x));
            let m = choose|m: int| 0 <= m < a.len() && a[m] == x;
            assert(b[0] < b[k + 1]);
            assert(m != 0);
            assert(ra[m - 1] == x);
        }
        assert(ra.to_set() =~= rb.to_set());
        lemma_ascending_unique(ra, rb);
        assert(a =~= b) by {
            assert forall|k: int| 0 <= k < a.len() implies a[k] == b[k] by {
                if k > 0 {
                    assert(a[k] == ra[k - 1] && b[k] == rb[k - 1]);
                }
            }
        }
    }
}

/// Whether identities of type `u64` obey the order that sets of them rely on.
pub open spec fn ids_ordered() -> bool {
    vstd::laws_cmp::obeys_cmp::<u64>()
}

/// Identities of type `u64` obey the order that sets of them rely on.
pub proof fn lemma_ids_ordered()
    ensures
        ids_ordered(),
{
    broadcast use vstd::laws_cmp::group_laws_cmp;

}

/// A set of identities yields its members in ascending order.
proof fn lemma_set_yields_in_order(m: &BTreeSet<u64>)
    ensures
        vstd::std_specs::btree::spec_btree_keys_iter(m).remaining().unref() == in_order(m@),
{
    broadcast use vstd::laws_cmp::group_laws_cmp;

    let r = vstd::std_specs::btree::spec_btree_keys_iter(m).remaining();
    let q = r.unref();
    assert(ascending(q)) by {
        assert(vstd::std_specs::btree::increasing_seq(r));
        assert forall|i: int, j: int| 0 <= i < j < q.len() implies q[i] < q[j] by {
            assert(vstd::std_specs::cmp::OrdSpec::cmp_spec(&r[i], &r[j]) is Less);
        }
    }
    assert(q.to_set() =~= m@);
    assert(ascending(in_order(m@)) && in_order(m@).to_set() == m@);
    lemma_ascending_unique(q, in_order(m@));
}

/// The command that Space gives: pause a running Session, resume a paused
/// one, start a pending one (a Focus Session for the selected Task).
pub open spec fn toggle_command(a: App) -> Option<Command> {
    match a.snapshot {
        Some(s) => if s.state@ == "running"@ {
            Some(Command::Pause)
        } else if s.state@ == "paused"@ {
            Some(Command::Resume)
        } else if s.state@ == "pending"@ {
            Some(
                Command::Start {
                    kind: s.kind,
                    task_id: if s.kind == SessionKind::Focus {
                        match selected(a) {
                            Some(t) => Some(t.id),
                            None => None,
                        }
                    } else {
                        None
                    },
                },
            )
        } else {
            None
        },
        None => None,
    }
}

/// The Session History identities that a deletion acts on: the marked ones
/// in ascending order,
/// or else those between the visual anchor and the cursor.
pub open spec fn history_selection(a: App) -> Seq<u64> {
    if !a.marked_history@.is_empty() {
        in_order(a.marked_history@)
    } else {
        match a.snapshot {
            None => Seq::empty(),
            Some(s) => {
                let anchor = match a.visual_anchor {
                    Some(v) => v,
                    None => a.history_cursor,
                };
                let start = if anchor < a.history_cursor {
                    anchor
                } else {
                    a.history_cursor
                };
                let end = if anchor < a.history_cursor {
                    a.history_cursor
                } else {
                    anchor
                };
                if end < s.recent_history@.len() {
                    s.recent_history@.subrange(start as int, end + 1).map_values(
                        |r: crate::protocol::RecentSessionSummary| r.id,
                    )
                } else {
                    Seq::empty()
                }
            },
        }
    }
}

impl App {
    /// An App on the Dashboard with nothing selected, open or typed.
    pub fn new(snapshot: Option<Snapshot>, theme: Theme) -> (app: Self)
        ensures
            app.snapshot == snapshot,
            app.theme == theme,
            app.language == Language::English,
            app.view == Page::Dashboard,
            app.overlay == Overlay::Closed,
            app.selected_task == 0,
            app.history_cursor == 0,
            app.history_offset == 0,
            app.visual_anchor is None,
            app.marked_history@ == Set::<u64>::empty(),
            app.color_overrides == ColorOverrides::none_spec(),
            !app.pending_g,
            app.palette_index == 0,
            app.input@.len() == 0,
            !app.narrow,
            app.warning is None,
            app.message is None,
            app.completion is None,
    {
        App {
            snapshot,
            theme,
            language: Language::English,
            view: Page::Dashboard,
            overlay: Overlay::Closed,
            selected_task: 0,
            history_cursor: 0,
            history_offset: 0,
            visual_anchor: None,
            marked_history: BTreeSet::new(),
            color_overrides: ColorOverrides::none(),
            pending_g: false,
            palette_index: 0,
            input: String::new(),
            narrow: false,
            warning: None,
            message: None,
            completion: None,
        }
    }

    fn task_count(&self) -> (n: usize)
        ensures
            n == task_count(*self),
    {
        match &self.snapshot {
            Some(s) => s.tasks.len(),
            None => 0,
        }
    }

    fn history_count(&self) -> (n: usize)
        ensures
            n == history_count(*self),
    {
        match &self.snapshot {
            Some(s) => s.recent_history.len(),
            None => 0,
        }
    }

    fn step(cursor: usize, forward: bool, count: usize) -> (next: usize)
        ensures
            next == stepped(cursor, forward, last_position(count as nat)),
    {
        let last = if count == 0 {
            0
        } else {
            count - 1
        };
        if forward {
            if cursor < usize::MAX && cursor + 1 < last {
                cursor + 1
            } else {
                last
            }
        } else if cursor == 0 {
            0
        } else {
            cursor - 1
        }
    }

    /// Moves the Task selection one step.
    fn move_task(&mut self, forward: bool)
        ensures
            *final(self) == (App {
                selected_task: stepped(old(self).selected_task, forward, last_position(task_count(*old(self)))),
                ..*old(self)
            }),
    {
        let count = self.task_count();
        self.selected_task = App::step(self.selected_task, forward, count);
    }

    /// Moves the Session History cursor one step.
    fn scroll_history(&mut self, forward: bool)
        ensures
            *final(self) == (App {
                history_cursor: stepped(old(self).history_cursor, forward, last_position(history_count(*old(self)))),
                ..*old(self)
            }),
    {
        let count = self.history_count();
        self.history_cursor = App::step(self.history_cursor, forward, count);
    }

    fn jump_first(&mut self)
        ensures
            *final(self) == (if old(self).view == Page::History {
                App { history_cursor: 0, ..*old(self) }
            } else {
                App { selected_task: 0, ..*old(self) }
            }),
    {
        if self.view == Page::History {
            self.history_cursor = 0;
        } else {
            self.selected_task = 0;
        }
    }

    fn jump_last(&mut self)
        ensures
            *final(self) == (if old(self).view == Page::History {
                App { history_cursor: last_position(history_count(*old(self))) as usize, ..*old(self) }
            } else {
                App { selected_task: last_position(task_count(*old(self))) as usize, ..*old(self) }
            }),
    {
        if self.view == Page::History {
            let count = self.history_count();
            self.history_cursor = if count == 0 {
                0
            } else {
                count - 1
            };
        } else {
            let count = self.task_count();
            self.selected_task = if count == 0 {
                0
            } else {
                count - 1
            };
        }
    }

    /// Moves the cursor of the view five steps.
    fn page_move(&mut self, forward: bool)
        ensures
            *final(self) == (if old(self).view == Page::History {
                App {
                    history_cursor: paged(old(self).history_cursor, forward, last_position(history_count(*old(self)))),
                    ..*old(self)
                }
            } else {
                App {
                    selected_task: paged(old(self).selected_task, forward, last_position(task_count(*old(self)))),
                    ..*old(self)
                }
            }),
    {
        let mut k: usize = 0;
        while k < 5
            invariant
                k <= 5,
                *self == (if old(self).view == Page::History {
                    App {
                        history_cursor: self.history_cursor,
                        ..*old(self)
                    }
                } else {
                    App { selected_task: self.selected_task, ..*old(self) }
                }),
                old(self).view == Page::History ==> self.history_cursor == (if k == 0 {
                    old(self).history_cursor
                } else if k == 1 {
                    stepped(old(self).history_cursor, forward, last_position(history_count(*old(self))))
                } else if k == 2 {
                    stepped(stepped(old(self).history_cursor, forward, last_position(history_count(*old(self)))), forward, last_position(history_count(*old(self))))
                } else if k == 3 {
                    stepped(stepped(stepped(old(self).history_cursor, forward, last_position(history_count(*old(self)))), forward, last_position(history_count(*old(self)))), forward, last_position(history_count(*old(self))))
                } else if k == 4 {
                    stepped(stepped(stepped(stepped(old(self).history_cursor, forward, last_position(history_count(*old(self)))), forward, last_position(history_count(*old(self)))), forward, last_position(history_count(*old(self)))), forward, last_position(history_count(*old(self))))
                } else {
                    paged(old(self).history_cursor, forward, last_position(history_count(*old(self))))
                }),
                old(self).view != Page::History ==> self.selected_task == (if k == 0 {
                    old(self).selected_task
                } else if k == 1 {
                    stepped(old(self).selected_task, forward, last_position(task_count(*old(self))))
                } else if k == 2 {
                    stepped(stepped(old(self).selected_task, forward, last_position(task_count(*old(self)))), forward, last_position(task_count(*old(self))))
                } else if k == 3 {
                    stepped(stepped(stepped(old(self).selected_task, forward, last_position(task_count(*old(self)))), forward, last_position(task_count(*old(self)))), forward, last_position(task_count(*old(self))))
                } else if k == 4 {
                    stepped(stepped(stepped(stepped(old(self).selected_task, forward, last_position(task_count(*old(self)))), forward, last_position(task_count(*old(self)))), forward, last_position(task_count(*old(self)))), forward, last_position(task_count(*old(self))))
                } else {
                    paged(old(self).selected_task, forward, last_position(task_count(*old(self))))
                }),
            decreases 5 - k,
        {
            if self.view == Page::History {
                self.scroll_history(forward);
            } else {
                self.move_task(forward);
            }
            k = k + 1;
        }
    }

    /// The selected Task, if the selection points at one.
    pub fn selected_task(&self) -> (task: Option<&TaskSummary>)
        ensures
            match task {
                Some(t) => selected(*self) == Some(*t),
                None => selected(*self) is None,
            },
    {
        match &self.snapshot {
            Some(s) => if self.selected_task < s.tasks.len() {
                Some(&s.tasks[self.selected_task])
            } else {
                None
            },
            None => None,
        }
    }

    /// The Session History identities that a deletion acts on.
    pub fn history_ids_for_action(&self) -> (ids: Vec<u64>)
        ensures
            ids@ == history_selection(*self),
    {
        if !self.marked_history.is_empty() {
            let mut marked: Vec<u64> = Vec::new();
            proof {
                lemma_ids_ordered();
            }
            let ghost whole = vstd::std_specs::btree::spec_btree_keys_iter(
                &self.marked_history,
            ).remaining().unref();
            for x in it: self.marked_history.iter()
                invariant
                    it.seq().unref() == whole,
                    marked@ == whole.take(it.index()),
            {
                marked.push(*x);
                assert(marked@ =~= whole.take(it.index() + 1));
            }
            proof {
                lemma_set_yields_in_order(&self.marked_history);
                assert(marked@ =~= whole);
            }
            return marked;
        }
        let s = match &self.snapshot {
            Some(s) => s,
            None => {
                return Vec::new();
            },
        };
        let anchor = match self.visual_anchor {
            Some(v) => v,
            None => self.history_cursor,
        };
        let start = if anchor < self.history_cursor {
            anchor
        } else {
            self.history_cursor
        };
        let end = if anchor < self.history_cursor {
            self.history_cursor
        } else {
            anchor
        };
        let mut ids: Vec<u64> = Vec::new();
        let n = s.recent_history.len();
        if end >= n {
            return ids;
        }
        let mut i: usize = start;
        while i <= end
            invariant
                start <= i <= end + 1,
                end < n,
                n == s.recent_history@.len(),
                ids@ == s.recent_history@.subrange(start as int, i as int).map_values(
                    |r: crate::protocol::RecentSessionSummary| r.id,
                ),
            decreases end + 1 - i,
        {
            ids.push(s.recent_history[i].id);
            i = i + 1;
            assert(ids@ =~= s.recent_history@.subrange(start as int, i as int).map_values(
                |r: crate::protocol::RecentSessionSummary| r.id,
            ));
        }
        ids
    }

    /// Marks the record under the cursor, or unmarks it if it was marked.
    fn toggle_history_mark(&mut self)
        ensures
            mark_spec(*old(self), *final(self)),
    {
        let id = match &self.snapshot {
            Some(s) => if self.history_cursor < s.recent_history.len() {
                s.recent_history[self.history_cursor].id
            } else {
                return;
            },
            None => {
                return;
            },
        };
        proof {
            lemma_ids_ordered();
        }
        if self.marked_history.contains(&id) {
            self.marked_history.remove(&id);
        } else {
            self.marked_history.insert(id);
        }
    }
}


/// Whether `b` equals `a` but for the text being typed.
pub open spec fn same_but_input(a: App, b: App) -> bool {
    b == App { input: b.input, ..a }
}

/// What happens when a Task is chosen with Enter: nothing for the Task that
/// is already current, a confirmation while a Session runs or is paused,
/// else the Pending Session is bound to it.
pub open spec fn choose_task_spec(a: App, b: App, action: Option<Action>) -> bool {
    match selected(a) {
        None => b == a && action is None,
        Some(t) => if a.snapshot->Some_0.current_task_id == Some(t.id) {
            b == a && action is None
        } else if state_of(a) == Some("running"@) || state_of(a) == Some("paused"@) {
            b == App { overlay: Overlay::ConfirmTaskSwitch, ..a } && action is None
        } else {
            b == App { overlay: Overlay::Closed, ..a } && action == Some(
                Action::Command(Command::TaskSelect { id: t.id, stop_current: false }),
            )
        },
    }
}

/// What opening text entry does: the rename entry starts from the selected
/// Task's title, the create entry from nothing.
pub open spec fn begin_entry_spec(a: App, overlay: Overlay, b: App) -> bool {
    &&& same_but_input(App { overlay, ..a }, b)
    &&& b.input@ == if overlay == Overlay::RenameTask {
        match selected(a) {
            Some(t) => t.title@,
            None => Seq::empty(),
        }
    } else {
        Seq::empty()
    }
}

/// What submitting typed text does: an empty title is refused with a
/// message; otherwise the Task is created or the selected Task renamed.
pub open spec fn submit_spec(a: App, b: App, action: Option<Action>) -> bool {
    let title = trim(a.input@);
    if title.len() == 0 {
        (b.message matches Some(m) && m@ == text_spec(a.language, "Task title cannot be empty"@, "任务标题不能为空"@))
            && b == App { message: b.message, ..a } && action is None
    } else if a.overlay == Overlay::CreateTask {
        same_but_input(App { overlay: Overlay::Closed, ..a }, b) && b.input@.len() == 0 && (
        action matches Some(Action::Command(Command::TaskCreate { title: t })) && t@ == title)
    } else if a.overlay == Overlay::RenameTask && selected(a) is Some {
        same_but_input(App { overlay: Overlay::Closed, ..a }, b) && b.input@.len() == 0 && (
        action matches Some(Action::Command(Command::TaskRename { id, title: t })) && id == selected(
            a,
        )->Some_0.id && t@ == title)
    } else {
        b == a && action is None
    }
}

/// What Space does.
pub open spec fn toggle_spec(a: App, b: App, action: Option<Action>) -> bool {
    match toggle_command(a) {
        Some(c) => b == App { overlay: Overlay::Closed, ..a } && action == Some(Action::Command(c)),
        None => b == a && action is None,
    }
}

/// What `c` does: complete the selected Task, or reopen it if it was completed.
pub open spec fn complete_spec(a: App, b: App, action: Option<Action>) -> bool {
    match selected(a) {
        Some(t) => b == App { overlay: Overlay::Closed, ..a } && action == Some(
            Action::Command(
                if t.completed {
                    Command::TaskReopen { id: t.id }
                } else {
                    Command::TaskComplete { id: t.id }
                },
            ),
        ),
        None => b == a && action is None,
    }
}

/// A command that closes any overlay and is sent.
pub open spec fn emitted(a: App, b: App, action: Option<Action>, c: Command) -> bool {
    b == App { overlay: Overlay::Closed, ..a } && action == Some(Action::Command(c))
}

/// What the palette entry under the cursor does.
pub open spec fn palette_spec(a: App, b: App, action: Option<Action>) -> bool {
    match palette_command_at(a.palette_index as int) {
        PaletteCommand::Toggle => toggle_spec(a, b, action),
        PaletteCommand::Stop => emitted(a, b, action, Command::Stop),
        PaletteCommand::Skip => emitted(a, b, action, Command::Skip),
        PaletteCommand::StartFocus => emitted(
            a,
            b,
            action,
            Command::Start {
                kind: SessionKind::Focus,
                task_id: match selected(a) {
                    Some(t) => Some(t.id),
                    None => None,
                },
            },
        ),
        PaletteCommand::StartFocusWithoutTask => emitted(
            a,
            b,
            action,
            Command::Start { kind: SessionKind::Focus, task_id: None },
        ),
        PaletteCommand::StartShortBreak => emitted(
            a,
            b,
            action,
            Command::Start { kind: SessionKind::ShortBreak, task_id: None },
        ),
        PaletteCommand::StartLongBreak => emitted(
            a,
            b,
            action,
            Command::Start { kind: SessionKind::LongBreak, task_id: None },
        ),
        PaletteCommand::CreateTask => begin_entry_spec(a, Overlay::CreateTask, b) && action is None,
        PaletteCommand::RenameTask => begin_entry_spec(a, Overlay::RenameTask, b) && action is None,
        PaletteCommand::CompleteTask => complete_spec(a, b, action),
        PaletteCommand::DeleteTask => b == App { overlay: Overlay::ConfirmDelete, ..a } && action is None,
        PaletteCommand::Today => b == App { view: Page::Today, overlay: Overlay::Closed, ..a } && action is None,
        PaletteCommand::Review => b == App { view: Page::Review, overlay: Overlay::Closed, ..a } && action is None,
        PaletteCommand::History => b == App { view: Page::History, overlay: Overlay::Closed, ..a } && action is None,
        PaletteCommand::Settings => b == App { overlay: Overlay::Settings, ..a } && action is None,
        PaletteCommand::Help => b == App { overlay: Overlay::Help, ..a } && action is None,
    }
}

/// Whether a key is `y`, `Y` or Enter.
pub open spec fn is_yes(key: InputKey) -> bool {
    key == InputKey::Char('y') || key == InputKey::Char('Y') || key == InputKey::Enter
}

/// Whether a key is `n` or `N`.
pub open spec fn is_no(key: InputKey) -> bool {
    key == InputKey::Char('n') || key == InputKey::Char('N')
}

/// What a key does while an overlay is open.
pub open spec fn overlay_key_spec(a: App, key: InputKey, b: App, action: Option<Action>) -> bool {
    if key == InputKey::Escape {
        same_but_input(App { overlay: Overlay::Closed, ..a }, b) && b.input@.len() == 0 && action is None
    } else {
        match a.overlay {
            Overlay::Palette => if key == InputKey::Char('j') || key == InputKey::Down {
                b == App {
                    palette_index: if a.palette_index + 1 < PALETTE_LEN - 1 {
                        (a.palette_index + 1) as usize
                    } else {
                        (PALETTE_LEN - 1) as usize
                    },
                    ..a
                } && action is None
            } else if key == InputKey::Char('k') || key == InputKey::Up {
                b == App {
                    palette_index: if a.palette_index == 0 {
                        0
                    } else {
                        (a.palette_index - 1) as usize
                    },
                    ..a
                } && action is None
            } else if key == InputKey::Enter {
                palette_spec(a, b, action)
            } else if key == InputKey::Char('?') {
                b == App { overlay: Overlay::Help, ..a } && action is None
            } else {
                b == a && action is None
            },
            Overlay::Settings => if key == InputKey::Char('g') {
                let language = match a.language {
                    Language::English => Language::SimplifiedChinese,
                    Language::SimplifiedChinese => Language::English,
                };
                b == App { language, ..a } && action == Some(Action::SetLanguage(language))
            } else if key == InputKey::Char('t') || key == InputKey::Left || key == InputKey::Right {
                b == App { theme: next_theme(a.theme), ..a } && action is None
            } else {
                b == a && action is None
            },
            Overlay::CreateTask | Overlay::RenameTask => match key {
                InputKey::Char(c) => if !is_control(c) {
                    same_but_input(a, b) && b.input@ == a.input@.push(c) && action is None
                } else {
                    b == a && action is None
                },
                InputKey::Backspace => same_but_input(a, b) && b.input@ == (if a.input@.len() > 0 {
                    a.input@.drop_last()
                } else {
                    a.input@
                }) && action is None,
                InputKey::Enter => submit_spec(a, b, action),
                _ => b == a && action is None,
            },
            Overlay::ConfirmDelete => if is_yes(key) {
                match selected(a) {
                    Some(t) => emitted(a, b, action, Command::TaskDelete { id: t.id }),
                    None => b == App { overlay: Overlay::Closed, ..a } && action is None,
                }
            } else if is_no(key) {
                b == App { overlay: Overlay::Closed, ..a } && action is None
            } else {
                b == a && action is None
            },
            Overlay::ConfirmTaskSwitch => if is_yes(key) {
                match selected(a) {
                    Some(t) => emitted(a, b, action, Command::TaskSelect { id: t.id, stop_current: true }),
                    None => b == App { overlay: Overlay::Closed, ..a } && action is None,
                }
            } else if is_no(key) {
                b == App { overlay: Overlay::Closed, ..a } && action is None
            } else {
                b == a && action is None
            },
            Overlay::ConfirmHistoryDelete => if is_yes(key) {
                b == App { overlay: Overlay::Closed, visual_anchor: None, marked_history: b.marked_history, ..a }
                    && b.marked_history@ == Set::<u64>::empty() && (action matches Some(
                    Action::Command(Command::HistoryDelete { ids }),
                ) && ids@ == history_selection(a))
            } else if is_no(key) {
                b == App { overlay: Overlay::Closed, ..a } && action is None
            } else {
                b == a && action is None
            },
            _ => b == a && action is None,
        }
    }
}

impl App {
    fn emit(&mut self, command: Command) -> (action: Action)
        ensures
            *final(self) == (App { overlay: Overlay::Closed, ..*old(self) }),
            action == Action::Command(command),
    {
        self.overlay = Overlay::Closed;
        Action::Command(command)
    }

    fn clear_input(&mut self)
        ensures
            same_but_input(*old(self), *final(self)),
            final(self).input@.len() == 0,
    {
        self.input = String::new();
    }

    fn select_current_task(&mut self) -> (action: Option<Action>)
        ensures
            choose_task_spec(*old(self), *final(self), action),
    {
        let id = match self.selected_task() {
            Some(task) => task.id,
            None => {
                return None;
            },
        };
        let (current, active) = match &self.snapshot {
            Some(s) => (
                s.current_task_id,
                str_equal(s.state.as_str(), "running") || str_equal(s.state.as_str(), "paused"),
            ),
            None => (None, false),
        };
        if current == Some(id) {
            return None;
        }
        if active {
            self.overlay = Overlay::ConfirmTaskSwitch;
            None
        } else {
            Some(self.emit(Command::TaskSelect { id, stop_current: false }))
        }
    }

    fn begin_text_entry(&mut self, overlay: Overlay)
        ensures
            begin_entry_spec(*old(self), overlay, *final(self)),
    {
        let input = if overlay == Overlay::RenameTask {
            match self.selected_task() {
                Some(task) => task.title.clone(),
                None => String::new(),
            }
        } else {
            String::new()
        };
        self.input = input;
        self.overlay = overlay;
    }

    fn submit_text_entry(&mut self) -> (action: Option<Action>)
        ensures
            submit_spec(*old(self), *final(self), action),
    {
        let title = trim_str(self.input.as_str());
        if title.as_str().is_empty() {
            self.message = Some(String::from_str(text(self.language, "Task title cannot be empty", "任务标题不能为空")));
            return None;
        }
        let command = match self.overlay {
            Overlay::CreateTask => Command::TaskCreate { title },
            Overlay::RenameTask => {
                let id = match self.selected_task() {
                    Some(task) => task.id,
                    None => {
                        return None;
                    },
                };
                Command::TaskRename { id, title }
            },
            _ => {
                return None;
            },
        };
        self.overlay = Overlay::Closed;
        self.clear_input();
        Some(self.emit(command))
    }

    fn start_selected_focus(&mut self) -> (action: Action)
        ensures
            emitted(
                *old(self),
                *final(self),
                Some(action),
                Command::Start {
                    kind: SessionKind::Focus,
                    task_id: match selected(*old(self)) {
                        Some(t) => Some(t.id),
                        None => None,
                    },
                },
            ),
    {
        let task_id = match self.selected_task() {
            Some(task) => Some(task.id),
            None => None,
        };
        self.emit(Command::Start { kind: SessionKind::Focus, task_id })
    }

    fn toggle_session(&mut self) -> (action: Option<Action>)
        ensures
            toggle_spec(*old(self), *final(self), action),
    {
        let command = match &self.snapshot {
            None => {
                return None;
            },
            Some(s) => if str_equal(s.state.as_str(), "running") {
                Command::Pause
            } else if str_equal(s.state.as_str(), "paused") {
                Command::Resume
            } else if str_equal(s.state.as_str(), "pending") {
                let task_id = if s.kind == SessionKind::Focus {
                    match self.selected_task() {
                        Some(task) => Some(task.id),
                        None => None,
                    }
                } else {
                    None
                };
                Command::Start { kind: s.kind, task_id }
            } else {
                return None;
            },
        };
        Some(self.emit(command))
    }

    fn complete_or_reopen_selected(&mut self) -> (action: Option<Action>)
        ensures
            complete_spec(*old(self), *final(self), action),
    {
        let command = match self.selected_task() {
            Some(task) => if task.completed {
                Command::TaskReopen { id: task.id }
            } else {
                Command::TaskComplete { id: task.id }
            },
            None => {
                return None;
            },
        };
        Some(self.emit(command))
    }

    fn run_palette_item(&mut self) -> (action: Option<Action>)
        requires
            old(self).palette_index < PALETTE_LEN,
        ensures
            palette_spec(*old(self), *final(self), action),
    {
        match palette_command(self.palette_index) {
            PaletteCommand::Toggle => self.toggle_session(),
            PaletteCommand::Stop => Some(self.emit(Command::Stop)),
            PaletteCommand::Skip => Some(self.emit(Command::Skip)),
            PaletteCommand::StartFocus => Some(self.start_selected_focus()),
            PaletteCommand::StartFocusWithoutTask => Some(
                self.emit(Command::Start { kind: SessionKind::Focus, task_id: None }),
            ),
            PaletteCommand::StartShortBreak => Some(
                self.emit(Command::Start { kind: SessionKind::ShortBreak, task_id: None }),
            ),
            PaletteCommand::StartLongBreak => Some(
                self.emit(Command::Start { kind: SessionKind::LongBreak, task_id: None }),
            ),
            PaletteCommand::CreateTask => {
                self.begin_text_entry(Overlay::CreateTask);
                None
            },
            PaletteCommand::RenameTask => {
                self.begin_text_entry(Overlay::RenameTask);
                None
            },
            PaletteCommand::CompleteTask => self.complete_or_reopen_selected(),
            PaletteCommand::DeleteTask => {
                self.overlay = Overlay::ConfirmDelete;
                None
            },
            PaletteCommand::Today => {
                self.view = Page::Today;
                self.overlay = Overlay::Closed;
                None
            },
            PaletteCommand::Review => {
                self.view = Page::Review;
                self.overlay = Overlay::Closed;
                None
            },
            PaletteCommand::History => {
                self.view = Page::History;
                self.overlay = Overlay::Closed;
                None
            },
            PaletteCommand::Settings => {
                self.overlay = Overlay::Settings;
                None
            },
            PaletteCommand::Help => {
                self.overlay = Overlay::Help;
                None
            },
        }
    }

    fn pop_input(&mut self)
        ensures
            same_but_input(*old(self), *final(self)),
            final(self).input@ == if old(self).input@.len() > 0 {
                old(self).input@.drop_last()
            } else {
                old(self).input@
            },
    {
        let chars = chars_of(self.input.as_str());
        if chars.len() > 0 {
            let kept = crate::text::slice_chars(chars.as_slice(), 0, chars.len() - 1);
            self.input = string_from_chars(kept.as_slice());
            assert(self.input@ =~= old(self).input@.drop_last());
        }
    }

    #[verifier::rlimit(40)]
    fn handle_overlay_key(&mut self, key: InputKey) -> (action: Option<Action>)
        requires
            old(self).palette_index < PALETTE_LEN,
        ensures
            overlay_key_spec(*old(self), key, *final(self), action),
            final(self).palette_index < PALETTE_LEN,
    {
        if key == InputKey::Escape {
            self.overlay = Overlay::Closed;
            self.clear_input();
            return None;
        }
        match self.overlay {
            Overlay::Palette => match key {
                InputKey::Char('j') | InputKey::Down => {
                    self.palette_index = if self.palette_index + 1 < PALETTE_LEN - 1 {
                        self.palette_index + 1
                    } else {
                        PALETTE_LEN - 1
                    };
                    None
                },
                InputKey::Char('k') | InputKey::Up => {
                    self.palette_index = if self.palette_index == 0 {
                        0
                    } else {
                        self.palette_index - 1
                    };
                    None
                },
                InputKey::Enter => self.run_palette_item(),
                InputKey::Char('?') => {
                    self.overlay = Overlay::Help;
                    None
                },
                _ => None,
            },
            Overlay::Settings => {
                if key == InputKey::Char('g') {
                    self.language = match self.language {
                        Language::English => Language::SimplifiedChinese,
                        Language::SimplifiedChinese => Language::English,
                    };
                    return Some(Action::SetLanguage(self.language));
                }
                if key == InputKey::Char('t') || key == InputKey::Left || key == InputKey::Right {
                    self.theme = self.theme.next();
                }
                None
            },
            Overlay::CreateTask | Overlay::RenameTask => match key {
                InputKey::Char(value) => {
                    if !control(value) {
                        string_push(&mut self.input, value);
                    }
                    None
                },
                InputKey::Backspace => {
                    self.pop_input();
                    None
                },
                InputKey::Enter => self.submit_text_entry(),
                _ => None,
            },
            Overlay::ConfirmDelete => if key == InputKey::Char('y') || key == InputKey::Char('Y')
                || key == InputKey::Enter {
                let command = match self.selected_task() {
                    Some(task) => Some(Command::TaskDelete { id: task.id }),
                    None => None,
                };
                self.overlay = Overlay::Closed;
                match command {
                    Some(c) => Some(self.emit(c)),
                    None => None,
                }
            } else if key == InputKey::Char('n') || key == InputKey::Char('N') {
                self.overlay = Overlay::Closed;
                None
            } else {
                None
            },
            Overlay::ConfirmTaskSwitch => if key == InputKey::Char('y') || key == InputKey::Char('Y')
                || key == InputKey::Enter {
                let command = match self.selected_task() {
                    Some(task) => Some(Command::TaskSelect { id: task.id, stop_current: true }),
                    None => None,
                };
                self.overlay = Overlay::Closed;
                match command {
                    Some(c) => Some(self.emit(c)),
                    None => None,
                }
            } else if key == InputKey::Char('n') || key == InputKey::Char('N') {
                self.overlay = Overlay::Closed;
                None
            } else {
                None
            },
            Overlay::ConfirmHistoryDelete => if key == InputKey::Char('y') || key == InputKey::Char('Y')
                || key == InputKey::Enter {
                let ids = self.history_ids_for_action();
                self.overlay = Overlay::Closed;
                self.visual_anchor = None;
                self.marked_history.clear();
                Some(self.emit(Command::HistoryDelete { ids }))
            } else if key == InputKey::Char('n') || key == InputKey::Char('N') {
                self.overlay = Overlay::Closed;
                None
            } else {
                None
            },
            _ => None,
        }
    }
}


/// The App after `gg`: the top of the History cursor or of the Task list.
pub open spec fn jumped_first(a: App) -> App {
    if a.view == Page::History {
        App { history_cursor: 0, ..a }
    } else {
        App { selected_task: 0, ..a }
    }
}

/// The App after `G`: the bottom of the History cursor or of the Task list.
pub open spec fn jumped_last(a: App) -> App {
    if a.view == Page::History {
        App { history_cursor: last_position(history_count(a)) as usize, ..a }
    } else {
        App { selected_task: last_position(task_count(a)) as usize, ..a }
    }
}

/// The App after a page move of five steps.
pub open spec fn paged_app(a: App, forward: bool) -> App {
    if a.view == Page::History {
        App { history_cursor: paged(a.history_cursor, forward, last_position(history_count(a))), ..a }
    } else {
        App { selected_task: paged(a.selected_task, forward, last_position(task_count(a))), ..a }
    }
}

/// The App after one step of the cursor of the view.
pub open spec fn stepped_app(a: App, forward: bool) -> App {
    if a.view == Page::History {
        App { history_cursor: stepped(a.history_cursor, forward, last_position(history_count(a))), ..a }
    } else {
        App { selected_task: stepped(a.selected_task, forward, last_position(task_count(a))), ..a }
    }
}

/// What marking the record under the cursor does.
pub open spec fn mark_spec(a: App, b: App) -> bool {
    match a.snapshot {
        Some(s) => if a.history_cursor < s.recent_history@.len() {
            let id = s.recent_history@[a.history_cursor as int].id;
            &&& b.marked_history@ == if a.marked_history@.contains(id) {
                a.marked_history@.remove(id)
            } else {
                a.marked_history@.insert(id)
            }
            &&& b == App { marked_history: b.marked_history, ..a }
        } else {
            b == a
        },
        None => b == a,
    }
}

/// What a key does.
pub open spec fn key_spec(a: App, key: InputKey, b: App, action: Option<Action>) -> bool {
    if a.overlay != Overlay::Closed {
        overlay_key_spec(a, key, b, action)
    } else if key == InputKey::Char('q') {
        b == a && action == Some(Action::Quit)
    } else if key == InputKey::Char('g') {
        (if a.pending_g {
            b == jumped_first(App { pending_g: false, ..a })
        } else {
            b == App { pending_g: true, ..a }
        }) && action is None
    } else if key == InputKey::Char('G') {
        b == jumped_last(App { pending_g: false, ..a }) && action is None
    } else if key == InputKey::Char('u') || key == InputKey::Char('d') {
        b == paged_app(App { pending_g: false, ..a }, key == InputKey::Char('d')) && action is None
    } else if key == InputKey::Char('v') && a.view == Page::History {
        b == App {
            visual_anchor: if a.visual_anchor is Some {
                None
            } else {
                Some(a.history_cursor)
            },
            ..a
        } && action is None
    } else if key == InputKey::Char('j') || key == InputKey::Down {
        b == stepped_app(a, true) && action is None
    } else if key == InputKey::Char('k') || key == InputKey::Up {
        b == stepped_app(a, false) && action is None
    } else if key == InputKey::Char('h') || key == InputKey::Left {
        b == App { view: previous_view_spec(a.view), ..a } && action is None
    } else if key == InputKey::Char('l') || key == InputKey::Right {
        b == App { view: next_view_spec(a.view), ..a } && action is None
    } else if key == InputKey::Char(':') {
        b == App { overlay: Overlay::Palette, ..a } && action is None
    } else if key == InputKey::Char('?') {
        b == App { overlay: Overlay::Help, ..a } && action is None
    } else if key == InputKey::Char('s') {
        b == App { overlay: Overlay::Settings, ..a } && action is None
    } else if key == InputKey::Char('n') {
        begin_entry_spec(a, Overlay::CreateTask, b) && action is None
    } else if key == InputKey::Char('r') && selected(a) is Some {
        begin_entry_spec(a, Overlay::RenameTask, b) && action is None
    } else if key == InputKey::Char('c') {
        complete_spec(a, b, action)
    } else if key == InputKey::Char('D') {
        (if a.view == Page::History && history_selection(a).len() > 0 {
            b == App { overlay: Overlay::ConfirmHistoryDelete, ..a }
        } else if selected(a) is Some {
            b == App { overlay: Overlay::ConfirmDelete, ..a }
        } else {
            b == a
        }) && action is None
    } else if key == InputKey::Char('K') {
        emitted(a, b, action, Command::Skip)
    } else if key == InputKey::Char('X') {
        emitted(a, b, action, Command::Stop)
    } else if (key == InputKey::Char(' ') || key == InputKey::AltSpace) && a.view == Page::History {
        mark_spec(a, b) && action is None
    } else if key == InputKey::Char(' ') {
        toggle_spec(a, b, action)
    } else if key == InputKey::Enter {
        choose_task_spec(a, b, action)
    } else {
        b == a && action is None
    }
}

/// With no overlay open, `c` reopens the selected Task when it is completed
/// and completes it when it is open, closing nothing else; with no Task
/// selected it does nothing.
pub proof fn law_c_completes_or_reopens_the_selected_task(a: App, b: App, action: Option<Action>)
    requires
        a.overlay == Overlay::Closed,
        key_spec(a, InputKey::Char('c'), b, action),
    ensures
        selected(a) matches Some(t) ==> (t.completed ==> action == Some(
            Action::Command(Command::TaskReopen { id: t.id }),
        )) && (!t.completed ==> action == Some(Action::Command(Command::TaskComplete { id: t.id })))
            && b == a,
        selected(a) is None ==> action is None && b == a,
{
}

/// With no overlay open, `K` skips and `X` stops the Current Session, `q`
/// quits, and Space (outside Session History) pauses a running Session and
/// resumes a paused one.
pub proof fn law_session_keys_send_their_commands(a: App, key: InputKey, b: App, action: Option<Action>)
    requires
        a.overlay == Overlay::Closed,
        key_spec(a, key, b, action),
    ensures
        key == InputKey::Char('K') ==> action == Some(Action::Command(Command::Skip)),
        key == InputKey::Char('X') ==> action == Some(Action::Command(Command::Stop)),
        key == InputKey::Char('q') ==> action == Some(Action::Quit) && b == a,
        key == InputKey::Char(' ') && a.view != Page::History && (a.snapshot matches Some(s)
            && s.state@ == "running"@) ==> action == Some(Action::Command(Command::Pause)),
        key == InputKey::Char(' ') && a.view != Page::History && (a.snapshot matches Some(s)
            && s.state@ == "paused"@) ==> action == Some(Action::Command(Command::Resume)),
{
    reveal_strlit("running");
    reveal_strlit("paused");
    assert("paused"@[0] != "running"@[0]);
}

impl App {
    /// Handles one key: an open overlay takes it first; otherwise it moves,
    /// switches views, opens overlays, or gives a command to send.
    #[verifier::rlimit(60)]
    pub fn handle_key(&mut self, key: InputKey) -> (action: Option<Action>)
        requires
            old(self).palette_index < PALETTE_LEN,
        ensures
            key_spec(*old(self), key, *final(self), action),
            final(self).palette_index < PALETTE_LEN,
    {
        if self.overlay != Overlay::Closed {
            return self.handle_overlay_key(key);
        }
        match key {
            InputKey::Char('q') => {
                return Some(Action::Quit);
            },
            InputKey::Char('g') => {
                if self.pending_g {
                    self.pending_g = false;
                    self.jump_first();
                } else {
                    self.pending_g = true;
                }
            },
            InputKey::Char('G') => {
                self.pending_g = false;
                self.jump_last();
            },
            InputKey::Char('u') => {
                self.pending_g = false;
                self.page_move(false);
            },
            InputKey::Char('d') => {
                self.pending_g = false;
                self.page_move(true);
            },
            InputKey::Char('v') if self.view == Page::History => {
                self.visual_anchor = match self.visual_anchor {
                    Some(_) => None,
                    None => Some(self.history_cursor),
                };
            },
            InputKey::Char('j') | InputKey::Down => {
                if self.view == Page::History {
                    self.scroll_history(true);
                } else {
                    self.move_task(true);
                }
            },
            InputKey::Char('k') | InputKey::Up => {
                if self.view == Page::History {
                    self.scroll_history(false);
                } else {
                    self.move_task(false);
                }
            },
            InputKey::Char('h') | InputKey::Left => {
                self.view = previous_view(self.view);
            },
            InputKey::Char('l') | InputKey::Right => {
                self.view = next_view(self.view);
            },
            InputKey::Char(':') => {
                self.overlay = Overlay::Palette;
            },
            InputKey::Char('?') => {
                self.overlay = Overlay::Help;
            },
            InputKey::Char('s') => {
                self.overlay = Overlay::Settings;
            },
            InputKey::Char('n') => {
                self.begin_text_entry(Overlay::CreateTask);
            },
            InputKey::Char('r') if self.selected_task().is_some() => {
                self.begin_text_entry(Overlay::RenameTask);
            },
            InputKey::Char('c') => {
                return self.complete_or_reopen_selected();
            },
            InputKey::Char('D') => {
                let ids = self.history_ids_for_action();
                if self.view == Page::History && ids.len() > 0 {
                    self.overlay = Overlay::ConfirmHistoryDelete;
                } else if self.selected_task().is_some() {
                    self.overlay = Overlay::ConfirmDelete;
                }
            },
            InputKey::Char('K') => {
                return Some(self.emit(Command::Skip));
            },
            InputKey::Char('X') => {
                return Some(self.emit(Command::Stop));
            },
            InputKey::Char(' ') if self.view == Page::History => {
                self.toggle_history_mark();
            },
            InputKey::AltSpace if self.view == Page::History => {
                self.toggle_history_mark();
            },
            InputKey::Char(' ') => {
                return self.toggle_session();
            },
            InputKey::Enter => {
                return self.select_current_task();
            },
            _ => {},
        }
        None
    }

    /// Handles a typed character, read as the key it stands for.
    pub fn key(&mut self, c: char) -> (action: Option<Action>)
        requires
            old(self).palette_index < PALETTE_LEN,
        ensures
            key_spec(*old(self), key_of(c), *final(self), action),
            final(self).palette_index < PALETTE_LEN,
    {
        let key = if c == '\u{1b}' {
            InputKey::Escape
        } else if c == '\n' || c == '\r' {
            InputKey::Enter
        } else if c == '\u{8}' || c == '\u{7f}' {
            InputKey::Backspace
        } else if c == '↑' {
            InputKey::Up
        } else if c == '↓' {
            InputKey::Down
        } else {
            InputKey::Char(c)
        };
        self.handle_key(key)
    }

    /// Handles a click on row `y`: it closes an open overlay, returns to the
    /// Dashboard from the tab row, selects a Task from the Task rows, and
    /// starts, pauses or resumes from the timer rows.
    pub fn mouse_click(&mut self, x: u16, y: u16) -> (action: Option<Action>)
        ensures
            ({
                let a = *old(self);
                let b = *final(self);
                if a.overlay != Overlay::Closed {
                    b == App { overlay: Overlay::Closed, ..a } && action is None
                } else if y == 0 {
                    b == App { view: Page::Dashboard, ..a } && action is None
                } else if a.view == Page::Dashboard && 4 <= y <= 10 {
                    b == App {
                        selected_task: if y - 4 < last_position(task_count(a)) {
                            (y - 4) as usize
                        } else {
                            last_position(task_count(a)) as usize
                        },
                        ..a
                    } && action is None
                } else if a.view == Page::Dashboard && y >= (if a.narrow {
                    12int
                } else {
                    14int
                }) {
                    toggle_spec(a, b, action)
                } else {
                    b == a && action is None
                }
            }),
    {
        if self.overlay != Overlay::Closed {
            self.overlay = Overlay::Closed;
            return None;
        }
        if y == 0 {
            self.view = Page::Dashboard;
            None
        } else if self.view == Page::Dashboard && 4 <= y && y <= 10 {
            let index = (y - 4) as usize;
            let count = self.task_count();
            let last = if count == 0 {
                0
            } else {
                count - 1
            };
            self.selected_task = if index < last {
                index
            } else {
                last
            };
            None
        } else if self.view == Page::Dashboard && y >= (if self.narrow {
            12u16
        } else {
            14u16
        }) {
            self.toggle_session()
        } else {
            None
        }
    }

    /// Starts playing the completion animation; it is the frontend's alone.
    pub fn begin_completion(&mut self, animation: Animation)
        ensures
            *final(self) == (App {
                completion: Some(CompletionPlayback { animation, elapsed_ms: 0 }),
                ..*old(self)
            }),
    {
        self.completion = Some(CompletionPlayback { animation, elapsed_ms: 0 });
    }

    /// Advances the completion animation; it stops once it has finished.
    pub fn animation_tick(&mut self, elapsed_ms: u64)
        requires
            old(self).completion matches Some(p) ==> p.animation.frame_ms > 0
                && p.animation.frames@.len() > 0,
        ensures
            match old(self).completion {
                None => *final(self) == *old(self),
                Some(p) => {
                    let elapsed = if p.elapsed_ms + elapsed_ms > u64::MAX {
                        u64::MAX
                    } else {
                        (p.elapsed_ms + elapsed_ms) as u64
                    };
                    let finished = clamp_usize((elapsed / p.animation.frame_ms) as int) >= clamp_usize(
                        p.animation.frames@.len() + clamp_usize(p.animation.hold_frames as int),
                    );
                    *final(self) == App {
                        completion: if finished {
                            None
                        } else {
                            Some(CompletionPlayback { elapsed_ms: elapsed, ..p })
                        },
                        ..*old(self)
                    }
                },
            },
    {
        let playback = match self.completion.take() {
            Some(p) => p,
            None => {
                return;
            },
        };
        let elapsed = if playback.elapsed_ms > u64::MAX - elapsed_ms {
            u64::MAX
        } else {
            playback.elapsed_ms + elapsed_ms
        };
        let finished = playback.animation.frame(elapsed).1;
        if !finished {
            self.completion = Some(CompletionPlayback { elapsed_ms: elapsed, ..playback });
        }
    }
}

} // verus!

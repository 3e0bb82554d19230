//! The completion animation: a small text-frame format, its validation, and
//! the choice of frame at a moment of playback.

use crate::text::{
    chars_of, concat, concat3, control, is_control, join, join_from, lines, lines_of, parse_u64,
    parse_u64_spec, slice_chars, split, split_on, str_equal, string_from_chars, trim, trim_chars,
};
use vstd::prelude::*;

verus! {

pub const MAX_FRAMES: usize = 120;

pub const MAX_WIDTH: usize = 160;

pub const MAX_HEIGHT: usize = 80;

#[derive(Clone, Debug, PartialEq, Eq)]
pub struct Animation {
    pub frame_ms: u64,
    pub hold_frames: u64,
    pub frames: Vec<String>,
}

/// The frames of an animation as texts.
pub open spec fn frame_texts(frames: Seq<String>) -> Seq<Seq<char>> {
    frames.map_values(|f: String| f@)
}

/// The longest of the given lines, in characters.
pub open spec fn longest(lines: Seq<Seq<char>>) -> nat
    decreases lines.len(),
{
    if lines.len() == 0 {
        0
    } else {
        let rest = longest(lines.drop_last());
        if lines.last().len() > rest {
            lines.last().len()
        } else {
            rest
        }
    }
}

/// The width and height of a frame.
pub open spec fn canvas_of(frame: Seq<char>) -> (nat, nat) {
    (longest(lines_of(frame)), lines_of(frame).len())
}

/// What is wrong with one frame, measured against the first frame's canvas.
pub open spec fn frame_error(frame: Seq<char>, expected: (nat, nat)) -> Option<Seq<char>> {
    if exists|i: int| 0 <= i < frame.len() && is_control(#[trigger] frame[i]) && frame[i] != '\n' {
        Some("frame contains terminal control text"@)
    } else if lines_of(frame).len() > MAX_HEIGHT || exists|i: int|
        0 <= i < lines_of(frame).len() && (#[trigger] lines_of(frame)[i]).len() > MAX_WIDTH {
        Some("frame canvas exceeds limits"@)
    } else if canvas_of(frame) != expected {
        Some("all frames must use one fixed canvas"@)
    } else {
        None
    }
}

/// The first problem among the frames from `k` on.
pub open spec fn first_frame_error(frames: Seq<Seq<char>>, expected: (nat, nat), k: int) -> Option<
    Seq<char>,
>
    decreases frames.len() - k,
{
    if k >= frames.len() || k < 0 {
        None
    } else {
        match frame_error(frames[k], expected) {
            Some(e) => Some(e),
            None => first_frame_error(frames, expected, k + 1),
        }
    }
}

/// What is wrong with a list of frames, if anything.
pub open spec fn frames_error(frames: Seq<Seq<char>>) -> Option<Seq<char>> {
    if frames.len() == 0 || frames[0].len() == 0 {
        Some("at least one frame is required"@)
    } else if frames.len() > MAX_FRAMES {
        Some("too many frames"@)
    } else {
        first_frame_error(frames, canvas_of(frames[0]), 0)
    }
}

/// The first position of `c` in `s`, or -1.
pub open spec fn first_position(s: Seq<char>, c: char, k: int) -> int
    decreases s.len() - k,
{
    if k >= s.len() || k < 0 {
        -1
    } else if s[k] == c {
        k
    } else {
        first_position(s, c, k + 1)
    }
}

/// Reads the header line `name=value`.
pub open spec fn value_spec(line: Option<Seq<char>>, name: Seq<char>) -> Result<u64, Seq<char>> {
    match line {
        None => Err("missing "@ + name),
        Some(l) => {
            let k = first_position(l, '=', 0);
            if k < 0 {
                Err("invalid "@ + name)
            } else if trim(l.subrange(0, k)) != name {
                Err("expected "@ + name)
            } else {
                match parse_u64_spec(trim(l.subrange(k + 1, l.len() as int))) {
                    None => Err("invalid "@ + name),
                    Some(v) => Ok(v),
                }
            }
        },
    }
}

/// The line at `i`, if there is one.
pub open spec fn line_at(ls: Seq<Seq<char>>, i: int) -> Option<Seq<char>> {
    if 0 <= i < ls.len() {
        Some(ls[i])
    } else {
        None
    }
}

/// The frames of an animation source: the lines after the two header lines,
/// cut at each line `---`.
pub open spec fn source_frames(source: Seq<char>) -> Seq<Seq<char>> {
    let ls = lines_of(source);
    split_on(
        join(
            if ls.len() >= 2 {
                ls.subrange(2, ls.len() as int)
            } else {
                Seq::empty()
            },
            "\n"@,
        ),
        "\n---\n"@,
    )
}

/// What reading an animation source gives: its timing and frames, or the
/// reason it is refused.
pub open spec fn parse_spec(source: Seq<char>) -> Result<(u64, u64, Seq<Seq<char>>), Seq<char>> {
    let ls = lines_of(source);
    match value_spec(line_at(ls, 0), "frame_ms"@) {
        Err(e) => Err(e),
        Ok(frame_ms) => match value_spec(line_at(ls, 1), "hold_frames"@) {
            Err(e) => Err(e),
            Ok(hold) => if frame_ms == 0 {
                Err("frame_ms must be nonzero"@)
            } else {
                match frames_error(source_frames(source)) {
                    Some(e) => Err(e),
                    None => Ok((frame_ms, hold, source_frames(source))),
                }
            },
        },
    }
}

fn first_equals(line: &[char]) -> (k: Option<usize>)
    ensures
        match k {
            Some(i) => first_position(line@, '=', 0) == i && i < line@.len(),
            None => first_position(line@, '=', 0) == -1,
        },
{
    let mut i: usize = 0;
    while i < line.len()
        invariant
            i <= line@.len(),
            first_position(line@, '=', 0) == first_position(line@, '=', i as int),
        decreases line@.len() - i,
    {
        if line[i] == '=' {
            return Some(i);
        }
        i = i + 1;
    }
    None
}

/// Reads the header line `name=value`.
pub fn value(line: Option<&[char]>, name: &str) -> (result: Result<u64, String>)
    ensures
        match result {
            Ok(v) => value_spec(
                match line {
                    Some(l) => Some(l@),
                    None => None,
                },
                name@,
            ) == Ok::<u64, Seq<char>>(v),
            Err(e) => value_spec(
                match line {
                    Some(l) => Some(l@),
                    None => None,
                },
                name@,
            ) == Err::<u64, Seq<char>>(e@),
        },
{
    let line = match line {
        Some(l) => l,
        None => {
            return Err(concat("missing ", name));
        },
    };
    let k = match first_equals(line) {
        Some(k) => k,
        None => {
            return Err(concat("invalid ", name));
        },
    };
    let key_chars = slice_chars(line, 0, k);
    let key = trim_chars(key_chars.as_slice());
    let key_text = string_from_chars(key.as_slice());
    if !str_equal(key_text.as_str(), name) {
        return Err(concat("expected ", name));
    }
    let n = line.len();
    let value_chars = slice_chars(line, k + 1, n);
    let value = trim_chars(value_chars.as_slice());
    match parse_u64(value.as_slice()) {
        Some(v) => Ok(v),
        None => Err(concat("invalid ", name)),
    }
}

fn longest_line(ls: &Vec<Vec<char>>) -> (n: usize)
    ensures
        n == longest(ls@.map_values(|l: Vec<char>| l@)),
{
    let ghost all = ls@.map_values(|l: Vec<char>| l@);
    let mut best: usize = 0;
    let mut i: usize = 0;
    while i < ls.len()
        invariant
            i <= ls@.len(),
            all == ls@.map_values(|l: Vec<char>| l@),
            best == longest(all.subrange(0, i as int)),
        decreases ls@.len() - i,
    {
        let n = ls[i].len();
        if n > best {
            best = n;
        }
        i = i + 1;
        assert(all.subrange(0, i as int).drop_last() =~= all.subrange(0, i as int - 1));
    }
    assert(all.subrange(0, all.len() as int) =~= all);
    best
}

/// The width and height of a frame.
pub fn canvas(frame: &[char]) -> (size: (usize, usize))
    ensures
        size.0 == canvas_of(frame@).0,
        size.1 == canvas_of(frame@).1,
{
    let ls = lines(frame);
    (longest_line(&ls), ls.len())
}

fn check_frame(frame: &[char], expected: (usize, usize)) -> (result: Result<(), String>)
    ensures
        match result {
            Ok(_) => frame_error(frame@, (expected.0 as nat, expected.1 as nat)) is None,
            Err(e) => frame_error(frame@, (expected.0 as nat, expected.1 as nat)) == Some(e@),
        },
{
    let mut i: usize = 0;
    while i < frame.len()
        invariant
            i <= frame@.len(),
            forall|j: int| 0 <= j < i ==> !(is_control(#[trigger] frame@[j]) && frame@[j] != '\n'),
        decreases frame@.len() - i,
    {
        if control(frame[i]) && frame[i] != '\n' {
            assert(is_control(frame@[i as int]) && frame@[i as int] != '\n');
            return Err(String::from_str("frame contains terminal control text"));
        }
        i = i + 1;
    }
    assert(!exists|j: int| 0 <= j < frame@.len() && is_control(#[trigger] frame@[j]) && frame@[j] != '\n');
    let ls = lines(frame);
    let ghost lv = ls@.map_values(|l: Vec<char>| l@);
    assert(lv.len() == ls@.len());
    if ls.len() > MAX_HEIGHT {
        return Err(String::from_str("frame canvas exceeds limits"));
    }
    let mut k: usize = 0;
    while k < ls.len()
        invariant
            k <= ls@.len(),
            lv == ls@.map_values(|l: Vec<char>| l@),
            lv == lines_of(frame@),
            lv.len() <= MAX_HEIGHT,
            !exists|j: int| 0 <= j < frame@.len() && is_control(#[trigger] frame@[j]) && frame@[j] != '\n',
            forall|j: int| 0 <= j < k ==> (#[trigger] lv[j]).len() <= MAX_WIDTH,
        decreases ls@.len() - k,
    {
        if ls[k].len() > MAX_WIDTH {
            assert(lv[k as int].len() > MAX_WIDTH);
            return Err(String::from_str("frame canvas exceeds limits"));
        }
        k = k + 1;
    }
    let size = (longest_line(&ls), ls.len());
    if size.0 != expected.0 || size.1 != expected.1 {
        return Err(String::from_str("all frames must use one fixed canvas"));
    }
    Ok(())
}

/// Checks the frames of an animation.
pub fn validate_frames(frames: &Vec<Vec<char>>) -> (result: Result<(), String>)
    ensures
        match result {
            Ok(_) => frames_error(frames@.map_values(|l: Vec<char>| l@)) is None,
            Err(e) => frames_error(frames@.map_values(|l: Vec<char>| l@)) == Some(e@),
        },
{
    let ghost fv = frames@.map_values(|l: Vec<char>| l@);
    if frames.len() == 0 || frames[0].len() == 0 {
        return Err(String::from_str("at least one frame is required"));
    }
    if frames.len() > MAX_FRAMES {
        return Err(String::from_str("too many frames"));
    }
    let expected = canvas(frames[0].as_slice());
    let mut k: usize = 0;
    while k < frames.len()
        invariant
            k <= frames@.len(),
            fv == frames@.map_values(|l: Vec<char>| l@),
            fv.len() > 0,
            fv[0].len() > 0,
            fv.len() <= MAX_FRAMES,
            expected.0 == canvas_of(fv[0]).0,
            expected.1 == canvas_of(fv[0]).1,
            first_frame_error(fv, canvas_of(fv[0]), 0) == first_frame_error(
                fv,
                canvas_of(fv[0]),
                k as int,
            ),
        decreases frames@.len() - k,
    {
        assert(fv[k as int] == frames@[k as int]@);
        match check_frame(frames[k].as_slice(), expected) {
            Ok(()) => {},
            Err(e) => {
                assert(first_frame_error(fv, canvas_of(fv[0]), k as int) == Some(e@));
                return Err(e);
            },
        }
        k = k + 1;
    }
    Ok(())
}

impl Animation {
    /// Reads an animation source: `frame_ms=N`, `hold_frames=N`, then frames
    /// separated by lines `---`.
    pub fn parse(source: &str) -> (result: Result<Self, String>)
        ensures
            match result {
                Ok(a) => parse_spec(source@) == Ok::<(u64, u64, Seq<Seq<char>>), Seq<char>>(
                    (a.frame_ms, a.hold_frames, frame_texts(a.frames@)),
                ),
                Err(e) => parse_spec(source@) == Err::<(u64, u64, Seq<Seq<char>>), Seq<char>>(e@),
            },
    {
        let chars = chars_of(source);
        let ls = lines(chars.as_slice());
        let ghost lv = ls@.map_values(|l: Vec<char>| l@);
        let first: Option<&[char]> = if ls.len() > 0 {
            Some(ls[0].as_slice())
        } else {
            None
        };
        let frame_ms = match value(first, "frame_ms") {
            Ok(v) => v,
            Err(e) => {
                return Err(e);
            },
        };
        let second: Option<&[char]> = if ls.len() > 1 {
            Some(ls[1].as_slice())
        } else {
            None
        };
        let hold_frames = match value(second, "hold_frames") {
            Ok(v) => v,
            Err(e) => {
                return Err(e);
            },
        };
        if frame_ms == 0 {
            return Err(String::from_str("frame_ms must be nonzero"));
        }
        let newline = chars_of("\n");
        let body = if ls.len() >= 2 {
            join_from(&ls, 2, newline.as_slice())
        } else {
            Vec::new()
        };
        proof {
            if lv.len() < 2 {
                assert(body@ =~= join(Seq::<Seq<char>>::empty(), "\n"@));
            }
        }
        let separator = chars_of("\n---\n");
        proof {
            reveal_strlit("\n---\n");
        }
        let pieces = split(body.as_slice(), separator.as_slice());
        match validate_frames(&pieces) {
            Ok(()) => {},
            Err(e) => {
                return Err(e);
            },
        }
        let mut frames: Vec<String> = Vec::new();
        let mut i: usize = 0;
        while i < pieces.len()
            invariant
                i <= pieces@.len(),
                frames@.len() == i,
                forall|j: int|
                    0 <= j < i ==> (#[trigger] frames@[j])@ == pieces@.map_values(
                        |l: Vec<char>| l@,
                    )[j],
            decreases pieces@.len() - i,
        {
            frames.push(string_from_chars(pieces[i].as_slice()));
            i = i + 1;
        }
        let animation = Animation { frame_ms, hold_frames, frames };
        assert(frame_texts(animation.frames@) =~= pieces@.map_values(|l: Vec<char>| l@));
        Ok(animation)
    }

    /// The frame to show `elapsed_ms` into playback, and whether playback
    /// (including the held last frame) has finished.
    pub fn frame(&self, elapsed_ms: u64) -> (shown: (&str, bool))
        requires
            self.frame_ms > 0,
            self.frames@.len() > 0,
        ensures
            ({
                let index = clamp_usize((elapsed_ms / self.frame_ms) as int);
                let finished_at = clamp_usize(self.frames@.len() + clamp_usize(self.hold_frames as int));
                &&& shown.1 == (index >= finished_at)
                &&& shown.0@ == self.frames@[if index < self.frames@.len() {
                    index
                } else {
                    self.frames@.len() - 1
                }]@
            }),
    {
        let quotient = elapsed_ms / self.frame_ms;
        let index: usize = if quotient > usize::MAX as u64 {
            usize::MAX
        } else {
            quotient as usize
        };
        let hold: usize = if self.hold_frames > usize::MAX as u64 {
            usize::MAX
        } else {
            self.hold_frames as usize
        };
        let count = self.frames.len();
        let finished_at = if count > usize::MAX - hold {
            usize::MAX
        } else {
            count + hold
        };
        let position = if index < count {
            index
        } else {
            count - 1
        };
        (self.frames[position].as_str(), index >= finished_at)
    }
}

/// `x` held at `usize::MAX`.
pub open spec fn clamp_usize(x: int) -> int {
    if x > usize::MAX {
        usize::MAX as int
    } else {
        x
    }
}

/// The frame texts of the built-in completion animation.
pub open spec fn built_in_frame_texts() -> Seq<Seq<char>> {
    seq![
        "╔════╗\n║    ║\n╚════╝"@,
        "╲    ╱\n│ ╲╱ │\n▔▔▔▔▔▔"@,
        "│    │\n│    │\n▁▂▃▂▁▁"@,
    ]
}

/// The built-in completion animation.
pub fn built_in() -> (animation: Animation)
    ensures
        animation.frame_ms == 90,
        animation.hold_frames == 3,
        frame_texts(animation.frames@) == built_in_frame_texts(),
{
    let mut frames: Vec<String> = Vec::new();
    frames.push(String::from_str("╔════╗\n║    ║\n╚════╝"));
    frames.push(String::from_str("╲    ╱\n│ ╲╱ │\n▔▔▔▔▔▔"));
    frames.push(String::from_str("│    │\n│    │\n▁▂▃▂▁▁"));
    let animation = Animation { frame_ms: 90, hold_frames: 3, frames };
    assert(frame_texts(animation.frames@) =~= built_in_frame_texts());
    animation
}

/// A custom animation, or the built-in one with a visible warning when the
/// custom source is invalid.
pub fn custom_or_builtin(source: &str) -> (chosen: (Animation, Option<String>))
    ensures
        match parse_spec(source@) {
            Ok((frame_ms, hold, frames)) => chosen.1 is None && chosen.0.frame_ms == frame_ms
                && chosen.0.hold_frames == hold && frame_texts(chosen.0.frames@) == frames,
            Err(e) => chosen.1 matches Some(w) && w@ == "custom animation invalid: "@ + e
                + "; using built-in"@ && chosen.0.frame_ms == 90 && chosen.0.hold_frames == 3
                && frame_texts(chosen.0.frames@) == built_in_frame_texts(),
        },
{
    match Animation::parse(source) {
        Ok(animation) => (animation, None),
        Err(error) => {
            let warning = concat3("custom animation invalid: ", error.as_str(), "; using built-in");
            (built_in(), Some(warning))
        },
    }
}

} // verus!

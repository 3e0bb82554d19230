use pomotui::animation::{built_in, custom_or_builtin, Animation};

#[test]
fn elapsed_time_selects_frames_and_finishes_after_hold() {
    let animation = Animation::parse("frame_ms=10\nhold_frames=2\nA\n---\nB").expect("parse");
    assert_eq!(animation.frame(0), ("A", false));
    assert_eq!(animation.frame(10), ("B", false));
    assert_eq!(animation.frame(40), ("B", true));
}

#[test]
fn invalid_custom_animation_falls_back_visibly() {
    let (animation, warning) = custom_or_builtin("frame_ms=0\nhold_frames=1\nA");
    assert_eq!(animation, built_in());
    assert!(warning.expect("warning").contains("using built-in"));
}

#[test]
fn mismatched_canvas_is_rejected() {
    let error =
        Animation::parse("frame_ms=10\nhold_frames=1\nAA\n---\nB").expect_err("fixed canvas");
    assert!(error.contains("fixed canvas"));
}

#[test]
fn header_lines_are_named_and_numeric() {
    assert_eq!(Animation::parse("").unwrap_err(), "missing frame_ms");
    assert_eq!(Animation::parse("frame_ms").unwrap_err(), "invalid frame_ms");
    assert_eq!(Animation::parse("speed=10").unwrap_err(), "expected frame_ms");
    assert_eq!(Animation::parse("frame_ms=ten").unwrap_err(), "invalid frame_ms");
    assert_eq!(Animation::parse("frame_ms=10").unwrap_err(), "missing hold_frames");
    assert_eq!(
        Animation::parse(" frame_ms = 10 \nhold_frames=0\nX").unwrap().frame_ms,
        10
    );
}

#[test]
fn frames_must_be_present_clean_and_bounded() {
    assert_eq!(
        Animation::parse("frame_ms=10\nhold_frames=0").unwrap_err(),
        "at least one frame is required"
    );
    assert_eq!(
        Animation::parse("frame_ms=10\nhold_frames=0\nA\u{1b}B").unwrap_err(),
        "frame contains terminal control text"
    );
    let wide = format!("frame_ms=10\nhold_frames=0\n{}", "x".repeat(161));
    assert_eq!(Animation::parse(&wide).unwrap_err(), "frame canvas exceeds limits");
    let many = format!(
        "frame_ms=10\nhold_frames=0\n{}",
        vec!["A"; 121].join("\n---\n")
    );
    assert_eq!(Animation::parse(&many).unwrap_err(), "too many frames");
}

#[test]
fn custom_animation_is_kept_when_valid() {
    let (animation, warning) = custom_or_builtin("frame_ms=5\nhold_frames=1\nAB\nCD\n---\nEF\nGH");
    assert!(warning.is_none());
    assert_eq!(animation.frames, vec!["AB\nCD".to_string(), "EF\nGH".to_string()]);
    assert_eq!(animation.frame(4), ("AB\nCD", false));
    assert_eq!(animation.frame(9), ("EF\nGH", false));
    assert_eq!(animation.frame(15), ("EF\nGH", true));
    let (fallback, warning) = custom_or_builtin("frame_ms=0\nhold_frames=1\nA");
    assert_eq!(fallback.frame_ms, 90);
    assert_eq!(
        warning.unwrap(),
        "custom animation invalid: frame_ms must be nonzero; using built-in"
    );
}

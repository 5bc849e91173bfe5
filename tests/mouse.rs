use privacy_overlay::error::{submission_result, ControlError};
use privacy_overlay::mouse::{
    click_events, is_word_ignoring_case, mouse_click_events, mouse_move_target,
    normalize_coordinate, parse_button, ButtonEvent, MouseButton,
};

#[test]
fn button_names_ignore_case() {
    assert_eq!(parse_button("left"), Ok(MouseButton::Left));
    assert_eq!(parse_button("LEFT"), Ok(MouseButton::Left));
    assert_eq!(parse_button("Right"), Ok(MouseButton::Right));
    assert_eq!(parse_button("mIdDlE"), Ok(MouseButton::Middle));
}

#[test]
fn unknown_button_is_refused() {
    assert_eq!(parse_button("unknown"), Err(ControlError::UnknownButton));
    assert_eq!(parse_button(""), Err(ControlError::UnknownButton));
    assert_eq!(parse_button("lefty"), Err(ControlError::UnknownButton));
    assert_eq!(mouse_click_events("unknown"), Err(ControlError::UnknownButton));
}

#[test]
fn click_is_press_then_release() {
    let down = ButtonEvent { button: MouseButton::Right, up: false };
    let up = ButtonEvent { button: MouseButton::Right, up: true };
    assert_eq!(click_events(MouseButton::Right), vec![down, up]);
    assert_eq!(mouse_click_events("RIGHT"), Ok(vec![down, up]));
}

#[test]
fn upper_case_click_equals_lower_case_click() {
    assert_eq!(mouse_click_events("LEFT"), mouse_click_events("left"));
}

#[test]
fn word_matching_folds_ascii_only() {
    assert!(is_word_ignoring_case("MiDdLe", "middle"));
    assert!(!is_word_ignoring_case("middl", "middle"));
    assert!(!is_word_ignoring_case("LEFT", "right"));
}

#[test]
fn rescale_hits_both_ends() {
    assert_eq!(normalize_coordinate(0, 1920), Ok(0));
    assert_eq!(normalize_coordinate(1920, 1920), Ok(65535));
    assert_eq!(normalize_coordinate(1080, 1080), Ok(65535));
    assert_eq!(mouse_move_target(0, 0, 1920, 1080), Ok((0, 0)));
    assert_eq!(mouse_move_target(1920, 1080, 1920, 1080), Ok((65535, 65535)));
}

#[test]
fn rescale_rounds_to_nearest() {
    // 960 / 1920 * 65535 = 32767.5
    assert_eq!(normalize_coordinate(960, 1920), Ok(32768));
    assert_eq!(normalize_coordinate(-960, 1920), Ok(-32768));
    // 1 / 3 * 65535 = 21845 exactly
    assert_eq!(normalize_coordinate(1, 3), Ok(21845));
    // 100 / 1920 * 65535 = 3413.28...
    assert_eq!(normalize_coordinate(100, 1920), Ok(3413));
    // 1919 / 1920 * 65535 = 65500.86...
    assert_eq!(normalize_coordinate(1919, 1920), Ok(65501));
}

#[test]
fn rescale_saturates() {
    assert_eq!(normalize_coordinate(i32::MAX, 1), Ok(i32::MAX));
    assert_eq!(normalize_coordinate(i32::MIN, 1), Ok(i32::MIN));
}

#[test]
fn rescale_needs_a_display() {
    assert_eq!(normalize_coordinate(5, 0), Err(ControlError::InjectionFailed));
    assert_eq!(mouse_move_target(5, 5, 1920, -1), Err(ControlError::InjectionFailed));
}

#[test]
fn short_submission_fails() {
    assert_eq!(submission_result(2, 2), Ok(()));
    assert_eq!(submission_result(0, 0), Ok(()));
    assert_eq!(submission_result(2, 1), Err(ControlError::InjectionFailed));
    assert_eq!(submission_result(1, 0), Err(ControlError::InjectionFailed));
}

#[test]
fn error_messages() {
    assert_eq!(ControlError::UnknownButton.message(), "unknown mouse button");
    assert_eq!(ControlError::InjectionFailed.message(), "input injection failed");
    assert_eq!(ControlError::UnsupportedPlatform.message(), "not supported on this platform");
    assert_eq!(
        ControlError::OverlayCreationFailed("no display".to_string()).message(),
        "overlay creation failed: no display"
    );
    assert_eq!(
        ControlError::WindowCreationFailed("out of handles".to_string()).message(),
        "window creation failed: out of handles"
    );
}

use privacy_overlay::error::ControlError;
use privacy_overlay::overlay::{OverlayHandle, OverlayRegistry};
use privacy_overlay::redraw::{
    frame_layout, spinner_angle, PixelRect, RedrawAction, RedrawState, WindowEvent,
};

fn h(raw: usize) -> OverlayHandle {
    OverlayHandle { raw }
}

#[test]
fn create_then_destroy_empties_registry() {
    let mut r = OverlayRegistry::new();
    assert_eq!(r.record_creation(Ok(h(7))), Ok(()));
    assert_eq!(r.len(), 1);
    let taken = r.take_all();
    assert_eq!(taken, vec![h(7)]);
    assert!(r.is_empty());
    assert_eq!(r.handles(), vec![]);
}

#[test]
fn destroy_without_create_is_noop() {
    let mut r = OverlayRegistry::new();
    assert_eq!(r.take_all(), vec![]);
    assert!(r.is_empty());
    assert_eq!(r.take_all(), vec![]);
}

#[test]
fn two_creations_keep_both() {
    let mut r = OverlayRegistry::new();
    r.add_overlay(h(1));
    r.add_overlay(h(2));
    assert_eq!(r.len(), 2);
    assert_eq!(r.handles(), vec![h(1), h(2)]);
}

#[test]
fn failed_creation_leaves_registry() {
    let mut r = OverlayRegistry::new();
    r.add_overlay(h(3));
    assert_eq!(
        r.record_creation(Err("no display".to_string())),
        Err(ControlError::OverlayCreationFailed("no display".to_string()))
    );
    assert_eq!(r.handles(), vec![h(3)]);
}

#[test]
fn redraw_cycle() {
    let mut s = RedrawState::new();
    assert_eq!(s.on_event(WindowEvent::Paint), RedrawAction::DrawFrameAndArmTimer);
    assert!(s.timer_armed);
    assert_eq!(s.on_event(WindowEvent::Timer), RedrawAction::RequestRepaint);
    assert_eq!(s.on_event(WindowEvent::EraseBackground), RedrawAction::SkipErase);
    assert_eq!(s.on_event(WindowEvent::Other), RedrawAction::PassThrough);
    assert_eq!(s.on_event(WindowEvent::Destroy), RedrawAction::CancelTimer);
    assert!(!s.timer_armed);
    assert!(s.destroyed);
}

#[test]
fn destroyed_window_ignores_timer_and_paint() {
    let mut s = RedrawState::new();
    s.on_event(WindowEvent::Paint);
    s.on_event(WindowEvent::Destroy);
    assert_eq!(s.on_event(WindowEvent::Timer), RedrawAction::Ignore);
    assert_eq!(s.on_event(WindowEvent::Paint), RedrawAction::Ignore);
    assert!(!s.timer_armed);
}

#[test]
fn spinner_angle_values() {
    assert_eq!(spinner_angle(0), 0);
    assert_eq!(spinner_angle(1234), 123);
    assert_eq!(spinner_angle(3600), 0);
    assert_eq!(spinner_angle(3599), 359);
    assert_eq!(spinner_angle(u64::MAX), ((u64::MAX / 10) % 360) as u32);
}

#[test]
fn ticks_half_a_second_apart_turn_fifty_degrees() {
    assert_eq!(spinner_angle(1000), 100);
    assert_eq!(spinner_angle(1500), 150);
    assert_eq!(spinner_angle(3400), 340);
    assert_eq!(spinner_angle(3900), 30);
}

#[test]
fn frame_layout_centres_ring() {
    let f = frame_layout(1920, 1080, 500);
    assert_eq!((f.center_x, f.center_y, f.radius), (960, 540, 20));
    assert_eq!(f.ring, PixelRect { left: 940, top: 520, right: 980, bottom: 560 });
    assert_eq!((f.text_top, f.text_bottom), (570, 600));
    assert_eq!(f.angle, 50);
    let g = frame_layout(0, 0, 0);
    assert_eq!(g.ring, PixelRect { left: -20, top: -20, right: 20, bottom: 20 });
}

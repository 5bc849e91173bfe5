//! The animated overlay: what each window message asks of the painter, and the
//! geometry of one frame of the loading indicator.
use vstd::prelude::*;

verus! {

/// Milliseconds between two frames.
pub const FRAME_PERIOD_MS: u32 = 50;

/// Radius of the indicator ring, in pixels.
pub const RING_RADIUS: i32 = 20;

/// Distance from the window's middle to the top of the status text, and the
/// text's height, in pixels.
pub const TEXT_OFFSET: i32 = 30;

pub const TEXT_HEIGHT: i32 = 30;

/// The messages that the overlay window's procedure tells apart.
#[derive(Clone, Copy, Debug, PartialEq, Eq, Structural)]
pub enum WindowEvent {
    Paint,
    Timer,
    EraseBackground,
    Destroy,
    Other,
}

/// What the window procedure does in answer to a message.
#[derive(Clone, Copy, Debug, PartialEq, Eq, Structural)]
pub enum RedrawAction {
    /// Render one frame off screen, copy it to the window in one blit, then
    /// arm the frame timer.
    DrawFrameAndArmTimer,
    /// Mark the window for repainting.
    RequestRepaint,
    /// Answer the erase request without erasing: every frame covers the window.
    SkipErase,
    /// Cancel the frame timer; the native handle is released after this.
    CancelTimer,
    /// Leave the message to the default procedure.
    PassThrough,
    /// Do nothing: the window is being destroyed.
    Ignore,
}

/// The redraw state of one overlay window.
#[derive(Clone, Copy, Debug, PartialEq, Eq, Structural)]
pub struct RedrawState {
    pub timer_armed: bool,
    pub destroyed: bool,
}

/// A destroyed window never has a timer armed.
pub open spec fn redraw_wf(s: RedrawState) -> bool {
    s.destroyed ==> !s.timer_armed
}

/// The answer to `ev` in state `s`, and the state after it.
pub open spec fn redraw_step(s: RedrawState, ev: WindowEvent) -> (RedrawState, RedrawAction) {
    match ev {
        WindowEvent::Paint => if s.destroyed {
            (s, RedrawAction::Ignore)
        } else {
            (RedrawState { timer_armed: true, destroyed: false }, RedrawAction::DrawFrameAndArmTimer)
        },
        WindowEvent::Timer => if s.destroyed {
            (s, RedrawAction::Ignore)
        } else {
            (s, RedrawAction::RequestRepaint)
        },
        WindowEvent::EraseBackground => (s, RedrawAction::SkipErase),
        WindowEvent::Destroy => (
            RedrawState { timer_armed: false, destroyed: true },
            RedrawAction::CancelTimer,
        ),
        WindowEvent::Other => (s, RedrawAction::PassThrough),
    }
}

impl RedrawState {
    /// A window just created: no timer, not destroyed.
    pub fn new() -> (r: RedrawState)
        ensures
            r == (RedrawState { timer_armed: false, destroyed: false }),
            redraw_wf(r),
    {
        RedrawState { timer_armed: false, destroyed: false }
    }

    /// Answers one window message and moves to the next state.
    pub fn on_event(&mut self, ev: WindowEvent) -> (r: RedrawAction)
        requires
            redraw_wf(*old(self)),
        ensures
            (*final(self), r) == redraw_step(*old(self), ev),
            redraw_wf(*final(self)),
    {
        match ev {
            WindowEvent::Paint => if self.destroyed {
                RedrawAction::Ignore
            } else {
                self.timer_armed = true;
                RedrawAction::DrawFrameAndArmTimer
            },
            WindowEvent::Timer => if self.destroyed {
                RedrawAction::Ignore
            } else {
                RedrawAction::RequestRepaint
            },
            WindowEvent::EraseBackground => RedrawAction::SkipErase,
            WindowEvent::Destroy => {
                self.timer_armed = false;
                self.destroyed = true;
                RedrawAction::CancelTimer
            },
            WindowEvent::Other => RedrawAction::PassThrough,
        }
    }
}

/// After a window is destroyed, no message draws into it or arms its timer.
pub proof fn destroyed_window_stays_quiet(s: RedrawState, ev: WindowEvent)
    requires
        redraw_wf(s),
        s.destroyed,
    ensures
        redraw_step(s, ev).1 != RedrawAction::DrawFrameAndArmTimer,
        redraw_step(s, ev).1 != RedrawAction::RequestRepaint,
        !redraw_step(s, ev).0.timer_armed,
        redraw_step(s, ev).0.destroyed,
{
}

/// The indicator's angle, in degrees, `elapsed_ms` after the animation began:
/// one degree every ten milliseconds.
pub open spec fn angle_at(elapsed_ms: nat) -> nat {
    (elapsed_ms / 10) % 360
}

pub fn spinner_angle(elapsed_ms: u64) -> (r: u32)
    ensures
        r == angle_at(elapsed_ms as nat),
        r < 360,
{
    ((elapsed_ms / 10) % 360) as u32
}

/// Two frames half a second apart show the indicator turned by fifty degrees.
pub proof fn half_second_turns_fifty_degrees(elapsed_ms: nat)
    ensures
        angle_at(elapsed_ms + 500) == (angle_at(elapsed_ms) + 50) % 360,
{
    let q = elapsed_ms / 10;
    assert((elapsed_ms + 500) / 10 == q + 50);
    vstd::arithmetic::div_mod::lemma_add_mod_noop(q as int, 50, 360);
    vstd::arithmetic::div_mod::lemma_small_mod(50, 360);
}

/// A rectangle in client coordinates.
#[derive(Clone, Copy, Debug, PartialEq, Eq, Structural)]
pub struct PixelRect {
    pub left: i32,
    pub top: i32,
    pub right: i32,
    pub bottom: i32,
}

/// The geometry of one frame in a client area of `width` by `height` pixels.
#[derive(Clone, Copy, Debug, PartialEq, Eq, Structural)]
pub struct FrameLayout {
    pub center_x: i32,
    pub center_y: i32,
    pub radius: i32,
    /// The ring's bounding box.
    pub ring: PixelRect,
    /// The band of the status text, across the full width.
    pub text_top: i32,
    pub text_bottom: i32,
    /// The indicator's angle in degrees, clockwise from straight up.
    pub angle: u32,
}

pub open spec fn layout_of(width: int, height: int, elapsed_ms: nat) -> FrameLayout {
    let cx = width / 2;
    let cy = height / 2;
    FrameLayout {
        center_x: cx as i32,
        center_y: cy as i32,
        radius: RING_RADIUS,
        ring: PixelRect {
            left: (cx - RING_RADIUS) as i32,
            top: (cy - RING_RADIUS) as i32,
            right: (cx + RING_RADIUS) as i32,
            bottom: (cy + RING_RADIUS) as i32,
        },
        text_top: (cy + TEXT_OFFSET) as i32,
        text_bottom: (cy + TEXT_OFFSET + TEXT_HEIGHT) as i32,
        angle: angle_at(elapsed_ms) as u32,
    }
}

/// Lays out the frame drawn `elapsed_ms` after the animation began: the ring
/// centred in the client area, the text band below it, and the indicator's
/// angle.
pub fn frame_layout(width: i32, height: i32, elapsed_ms: u64) -> (r: FrameLayout)
    requires
        width >= 0,
        height >= 0,
    ensures
        r == layout_of(width as int, height as int, elapsed_ms as nat),
{
    let cx = width / 2;
    let cy = height / 2;
    FrameLayout {
        center_x: cx,
        center_y: cy,
        radius: RING_RADIUS,
        ring: PixelRect {
            left: cx - RING_RADIUS,
            top: cy - RING_RADIUS,
            right: cx + RING_RADIUS,
            bottom: cy + RING_RADIUS,
        },
        text_top: cy + TEXT_OFFSET,
        text_bottom: cy + TEXT_OFFSET + TEXT_HEIGHT,
        angle: spinner_angle(elapsed_ms),
    }
}

} // verus!

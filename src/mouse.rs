//! The mouse half of input injection: button names, click batches, and the
//! rescaling of pixel coordinates into the normalized absolute range.
use vstd::prelude::*;
use vstd::arithmetic::div_mod::lemma_fundamental_div_mod_converse;
use crate::error::ControlError;
use crate::keymap::text_eq;

verus! {

/// The upper end of the normalized absolute coordinate range.
pub const NORMALIZED_MAX: i64 = 65535;

#[derive(Clone, Copy, Debug, PartialEq, Eq, Structural)]
pub enum MouseButton {
    Left,
    Right,
    Middle,
}

/// A press (`up == false`) or release of one button.
#[derive(Clone, Copy, Debug, PartialEq, Eq, Structural)]
pub struct ButtonEvent {
    pub button: MouseButton,
    pub up: bool,
}

/// The code of `c` with ASCII capitals taken to lower case.
pub open spec fn folded_code(c: char) -> u32 {
    if 'A' <= c && c <= 'Z' {
        (c as u32 + 32) as u32
    } else {
        c as u32
    }
}

/// Whether `s` spells the lower-case word `word` in any mix of cases.
pub open spec fn names_word(s: Seq<char>, word: Seq<char>) -> bool {
    s.len() == word.len() && forall|i: int| 0 <= i < s.len() ==> folded_code(#[trigger] s[i])
        == word[i] as u32
}

/// Whether `s` and `t` differ at most in the case of ASCII letters.
pub open spec fn same_ignoring_case(s: Seq<char>, t: Seq<char>) -> bool {
    s.len() == t.len() && forall|i: int| 0 <= i < s.len() ==> folded_code(#[trigger] s[i])
        == folded_code(t[i])
}

pub open spec fn button_of(s: Seq<char>) -> Option<MouseButton> {
    if names_word(s, "left"@) {
        Some(MouseButton::Left)
    } else if names_word(s, "right"@) {
        Some(MouseButton::Right)
    } else if names_word(s, "middle"@) {
        Some(MouseButton::Middle)
    } else {
        None
    }
}

pub open spec fn click_of(b: MouseButton) -> Seq<ButtonEvent> {
    seq![ButtonEvent { button: b, up: false }, ButtonEvent { button: b, up: true }]
}

fn fold_code(c: char) -> (r: u32)
    ensures
        r == folded_code(c),
{
    if 'A' <= c && c <= 'Z' {
        c as u32 + 32
    } else {
        c as u32
    }
}

/// Whether `s` spells `word`, which is in lower case, ignoring ASCII case.
pub fn is_word_ignoring_case(s: &str, word: &str) -> (r: bool)
    ensures
        r == names_word(s@, word@),
{
    let n = s.unicode_len();
    if n != word.unicode_len() {
        return false;
    }
    let mut i: usize = 0;
    while i < n
        invariant
            n == s@.len(),
            n == word@.len(),
            i <= n,
            forall|j: int| 0 <= j < i ==> folded_code(#[trigger] s@[j]) == word@[j] as u32,
        decreases n - i,
    {
        if fold_code(s.get_char(i)) != word.get_char(i) as u32 {
            return false;
        }
        i += 1;
    }
    true
}

/// Reads a button name, `left`, `right` or `middle` in any case.
pub fn parse_button(name: &str) -> (r: Result<MouseButton, ControlError>)
    ensures
        r == (match button_of(name@) {
            Some(b) => Ok::<MouseButton, ControlError>(b),
            None => Err(ControlError::UnknownButton),
        }),
{
    if is_word_ignoring_case(name, "left") {
        Ok(MouseButton::Left)
    } else if is_word_ignoring_case(name, "right") {
        Ok(MouseButton::Right)
    } else if is_word_ignoring_case(name, "middle") {
        Ok(MouseButton::Middle)
    } else {
        Err(ControlError::UnknownButton)
    }
}

/// The batch for one click: the press, then the release, of one button.
pub fn click_events(button: MouseButton) -> (r: Vec<ButtonEvent>)
    ensures
        r@ == click_of(button),
{
    let mut v: Vec<ButtonEvent> = Vec::new();
    v.push(ButtonEvent { button, up: false });
    v.push(ButtonEvent { button, up: true });
    assert(v@ =~= click_of(button));
    v
}

/// The batch for `mouse_click(name)`, or `UnknownButton`.
pub fn mouse_click_events(name: &str) -> (r: Result<Vec<ButtonEvent>, ControlError>)
    ensures
        match button_of(name@) {
            Some(b) => r is Ok && r->Ok_0@ == click_of(b),
            None => r == Err::<Vec<ButtonEvent>, ControlError>(ControlError::UnknownButton),
        },
{
    match parse_button(name) {
        Ok(b) => Ok(click_events(b)),
        Err(e) => Err(e),
    }
}

/// Whether a button name is the same word as another up to ASCII case.
pub proof fn button_names_ignore_case(s: Seq<char>, t: Seq<char>)
    requires
        same_ignoring_case(s, t),
    ensures
        button_of(s) == button_of(t),
{
    assert forall|w: Seq<char>| #[trigger] names_word(s, w) == names_word(t, w) by {
        if names_word(s, w) {
            assert forall|i: int| 0 <= i < t.len() implies folded_code(#[trigger] t[i])
                == w[i] as u32 by {
                assert(folded_code(s[i]) == folded_code(t[i]));
            }
        }
        if names_word(t, w) {
            assert forall|i: int| 0 <= i < s.len() implies folded_code(#[trigger] s[i])
                == w[i] as u32 by {
                assert(folded_code(s[i]) == folded_code(t[i]));
            }
        }
    }
}

/// `n / d` for `d > 0`, rounded to the nearest integer, halves away from zero.
pub open spec fn round_div(n: int, d: int) -> int {
    if n >= 0 {
        (2 * n + d) / (2 * d)
    } else {
        -((-2 * n + d) / (2 * d))
    }
}

pub open spec fn clamp_i32(v: int) -> int {
    if v < i32::MIN {
        i32::MIN as int
    } else if v > i32::MAX {
        i32::MAX as int
    } else {
        v
    }
}

/// `round(coord / extent * NORMALIZED_MAX)`, held within the range of `i32`.
pub open spec fn normalized(coord: int, extent: int) -> int {
    clamp_i32(round_div(coord * NORMALIZED_MAX, extent))
}

/// Rescales a pixel coordinate along a display side of `extent` pixels into the
/// normalized absolute range; a display without extent has no such scale.
pub fn normalize_coordinate(coord: i32, extent: i32) -> (r: Result<i32, ControlError>)
    ensures
        extent > 0 ==> r == Ok::<i32, ControlError>(normalized(coord as int, extent as int) as i32),
        extent <= 0 ==> r == Err::<i32, ControlError>(ControlError::InjectionFailed),
{
    if extent <= 0 {
        return Err(ControlError::InjectionFailed);
    }
    let c = coord as i64;
    assert(-0x8000_0000 * 65535 <= c * 65535 <= 0x7fff_ffff * 65535) by (nonlinear_arith)
        requires
            -0x8000_0000 <= c <= 0x7fff_ffff,
    ;
    let n: i64 = c * NORMALIZED_MAX;
    let d = extent as i64;
    let q: i64 = if n >= 0 {
        (2 * n + d) / (2 * d)
    } else {
        -((-2 * n + d) / (2 * d))
    };
    if q < i32::MIN as i64 {
        Ok(i32::MIN)
    } else if q > i32::MAX as i64 {
        Ok(i32::MAX)
    } else {
        Ok(q as i32)
    }
}

/// The normalized target of an absolute pointer move to `(x, y)` on a display
/// of `width` by `height` pixels.
pub fn mouse_move_target(x: i32, y: i32, width: i32, height: i32) -> (r: Result<
    (i32, i32),
    ControlError,
>)
    ensures
        width > 0 && height > 0 ==> r == Ok::<(i32, i32), ControlError>(
            (
                normalized(x as int, width as int) as i32,
                normalized(y as int, height as int) as i32,
            ),
        ),
        !(width > 0 && height > 0) ==> r == Err::<(i32, i32), ControlError>(
            ControlError::InjectionFailed,
        ),
{
    let nx = normalize_coordinate(x, width)?;
    let ny = normalize_coordinate(y, height)?;
    Ok((nx, ny))
}

/// On a display side of any extent, the origin rescales to 0 and the far edge
/// to the top of the normalized range.
pub proof fn rescale_reaches_bounds(extent: int)
    requires
        0 < extent <= i32::MAX,
    ensures
        normalized(0, extent) == 0,
        normalized(extent, extent) == NORMALIZED_MAX,
{
    lemma_fundamental_div_mod_converse(extent, 2 * extent, 0, extent);
    assert(2 * (extent * NORMALIZED_MAX) + extent == NORMALIZED_MAX * (2 * extent) + extent)
        by (nonlinear_arith);
    lemma_fundamental_div_mod_converse(
        2 * (extent * NORMALIZED_MAX) + extent,
        2 * extent,
        NORMALIZED_MAX as int,
        extent,
    );
}

} // verus!

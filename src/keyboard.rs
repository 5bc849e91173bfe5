//! The keyboard half of input injection: which native key events one
//! `key_event` call submits, and in what order.
use vstd::prelude::*;
use crate::keymap::{
    VirtualKeyMapping, key_mapping, text_eq, upper_of, vk_from_keycode, VK_CONTROL, VK_MENU,
    VK_SHIFT,
};

verus! {

/// The modifier keys held for one key event; all sixteen combinations are legal.
#[derive(Clone, Copy, Debug, PartialEq, Eq, Structural)]
pub struct Modifiers {
    pub alt: bool,
    pub ctrl: bool,
    pub shift: bool,
    pub meta: bool,
}

/// Whether a key event presses or releases its key.
#[derive(Clone, Copy, Debug, PartialEq, Eq, Structural)]
pub enum KeyAction {
    Down,
    Up,
}

/// One native keyboard event.
#[derive(Clone, Copy, Debug, PartialEq, Eq, Structural)]
pub struct KeyInput {
    pub native_code: u16,
    pub up: bool,
    pub extended: bool,
}

pub open spec fn key_input(native_code: u16, up: bool, extended: bool) -> KeyInput {
    KeyInput { native_code, up, extended }
}

pub open spec fn action_of(s: Seq<char>) -> Option<KeyAction> {
    if s == "down"@ {
        Some(KeyAction::Down)
    } else if s == "up"@ {
        Some(KeyAction::Up)
    } else {
        None
    }
}

/// How many of the modifiers that send events (ctrl, shift and alt) are held;
/// meta sends none.
pub open spec fn active_modifiers(m: Modifiers) -> nat {
    (if m.ctrl { 1nat } else { 0nat }) + (if m.shift { 1nat } else { 0nat }) + (if m.alt {
        1nat
    } else {
        0nat
    })
}

/// `e` alone where `b` holds, else nothing.
pub open spec fn when(b: bool, e: KeyInput) -> Seq<KeyInput> {
    if b {
        seq![e]
    } else {
        Seq::empty()
    }
}

/// The presses of the held modifiers, in the order ctrl, shift, alt.
pub open spec fn modifier_downs(m: Modifiers) -> Seq<KeyInput> {
    when(m.ctrl, key_input(VK_CONTROL, false, true)) + when(
        m.shift,
        key_input(VK_SHIFT, false, false),
    ) + when(m.alt, key_input(VK_MENU, false, true))
}

/// The releases of the held modifiers, in the order alt, shift, ctrl.
pub open spec fn modifier_ups(m: Modifiers) -> Seq<KeyInput> {
    when(m.alt, key_input(VK_MENU, true, true)) + when(m.shift, key_input(VK_SHIFT, true, false))
        + when(m.ctrl, key_input(VK_CONTROL, true, true))
}

/// The whole batch of one key event: modifier presses before a key press,
/// modifier releases after a key release. A key without a mapping, or an
/// action that is neither down nor up, sends nothing at all.
pub open spec fn key_event_plan(
    action: Option<KeyAction>,
    mapping: Option<VirtualKeyMapping>,
    m: Modifiers,
) -> Seq<KeyInput> {
    match (mapping, action) {
        (Some(k), Some(KeyAction::Down)) => modifier_downs(m).push(
            key_input(k.native_code, false, k.extended),
        ),
        (Some(k), Some(KeyAction::Up)) => seq![key_input(k.native_code, true, k.extended)]
            + modifier_ups(m),
        _ => Seq::empty(),
    }
}

/// Each event of `s` turned into a release.
pub open spec fn released(s: Seq<KeyInput>) -> Seq<KeyInput> {
    s.map_values(|e: KeyInput| key_input(e.native_code, true, e.extended))
}

/// For every key that the table resolves, a press and a release each send the
/// key's own event exactly once: a press last, after the modifier presses, a
/// release first, before the modifier releases. Meta sends no event; the modifier events of the two number twice the held
/// ctrl, shift and alt keys, and the releases come in the reverse order of the
/// presses.
pub proof fn key_event_modifiers_balanced(code: Seq<char>, key: Seq<char>, m: Modifiers)
    requires
        key_mapping(code, key, upper_of(key)) is Some,
    ensures
        ({
            let k = key_mapping(code, key, upper_of(key)).unwrap();
            let down = key_event_plan(action_of("down"@), Some(k), m);
            let up = key_event_plan(action_of("up"@), Some(k), m);
            &&& down == modifier_downs(m).push(key_input(k.native_code, false, k.extended))
            &&& up == seq![key_input(k.native_code, true, k.extended)] + modifier_ups(m)
            &&& modifier_downs(m).len() + modifier_ups(m).len() == 2 * active_modifiers(m)
            &&& modifier_ups(m) == released(modifier_downs(m)).reverse()
            &&& forall|i: int|
                0 <= i < modifier_downs(m).len() ==> {
                    let e = #[trigger] modifier_downs(m)[i];
                    !e.up && (e.native_code == VK_CONTROL || e.native_code == VK_SHIFT
                        || e.native_code == VK_MENU)
                }
        }),
{
    reveal_strlit("down");
    reveal_strlit("up");
    assert("up"@.len() != "down"@.len());
    assert(action_of("down"@) == Some(KeyAction::Down));
    assert(action_of("up"@) == Some(KeyAction::Up));
    let k = key_mapping(code, key, upper_of(key)).unwrap();
    let d = modifier_downs(m);
    assert(key_event_plan(action_of("down"@), Some(k), m) =~= d.push(
        key_input(k.native_code, false, k.extended),
    ));
    assert(key_event_plan(action_of("up"@), Some(k), m) =~= seq![
        key_input(k.native_code, true, k.extended),
    ] + modifier_ups(m));
    assert(modifier_ups(m) =~= released(d).reverse());
}

/// Reads the action name of a key event: `down` or `up`.
pub fn parse_key_action(s: &str) -> (r: Option<KeyAction>)
    ensures
        r == action_of(s@),
{
    if text_eq(s, "down") {
        Some(KeyAction::Down)
    } else if text_eq(s, "up") {
        Some(KeyAction::Up)
    } else {
        None
    }
}

fn push_modifier(out: &mut Vec<KeyInput>, held: bool, native_code: u16, up: bool, extended: bool)
    ensures
        final(out)@ == old(out)@ + when(held, key_input(native_code, up, extended)),
{
    if held {
        out.push(KeyInput { native_code, up, extended });
    }
    assert(final(out)@ =~= old(out)@ + when(held, key_input(native_code, up, extended)));
}

/// The native events for one key event whose key resolved to `mapping`.
pub fn plan_key_inputs(
    action: Option<KeyAction>,
    mapping: Option<VirtualKeyMapping>,
    mods: Modifiers,
) -> (r: Vec<KeyInput>)
    ensures
        r@ == key_event_plan(action, mapping, mods),
{
    let mut out: Vec<KeyInput> = Vec::new();
    let k = match mapping {
        Some(k) => k,
        None => {
            assert(out@ =~= key_event_plan(action, mapping, mods));
            return out;
        },
    };
    let up = match action {
        Some(KeyAction::Down) => false,
        Some(KeyAction::Up) => true,
        None => {
            assert(out@ =~= key_event_plan(action, mapping, mods));
            return out;
        },
    };
    let down = !up;
    if down {
        push_modifier(&mut out, mods.ctrl, VK_CONTROL, false, true);
        push_modifier(&mut out, mods.shift, VK_SHIFT, false, false);
        push_modifier(&mut out, mods.alt, VK_MENU, false, true);
    }
    out.push(KeyInput { native_code: k.native_code, up, extended: k.extended });
    if up {
        push_modifier(&mut out, mods.alt, VK_MENU, true, true);
        push_modifier(&mut out, mods.shift, VK_SHIFT, true, false);
        push_modifier(&mut out, mods.ctrl, VK_CONTROL, true, true);
    }
    assert(out@ =~= key_event_plan(action, mapping, mods));
    out
}

/// The native events for `key_event(action, key, code, mods)`: the key is
/// resolved through the key table, and an unresolved key sends nothing.
pub fn key_event_inputs(action: &str, key: &str, code: &str, mods: Modifiers) -> (r: Vec<KeyInput>)
    ensures
        r@ == key_event_plan(action_of(action@), key_mapping(code@, key@, upper_of(key@)), mods),
{
    let a = parse_key_action(action);
    let mapping = vk_from_keycode(key, code);
    plan_key_inputs(a, mapping, mods)
}

/// The characters of `text`, each to be typed as one key click, in order.
pub fn text_keystrokes(text: &str) -> (r: Vec<char>)
    ensures
        r@ == text@,
{
    let n = text.unicode_len();
    let mut out: Vec<char> = Vec::new();
    let mut i: usize = 0;
    while i < n
        invariant
            n == text@.len(),
            i <= n,
            out@ == text@.subrange(0, i as int),
        decreases n - i,
    {
        out.push(text.get_char(i));
        i += 1;
        assert(out@ =~= text@.subrange(0, i as int));
    }
    assert(out@ =~= text@);
    out
}

} // verus!

//! The table from a symbolic key (physical code and key name) to a Win32
//! virtual-key code and its "extended" flag.
use vstd::prelude::*;

verus! {

pub const VK_BACK: u16 = 8;
pub const VK_TAB: u16 = 9;
pub const VK_RETURN: u16 = 13;
pub const VK_SHIFT: u16 = 16;
pub const VK_CONTROL: u16 = 17;
pub const VK_MENU: u16 = 18;
pub const VK_ESCAPE: u16 = 27;
pub const VK_SPACE: u16 = 32;
pub const VK_PRIOR: u16 = 33;
pub const VK_NEXT: u16 = 34;
pub const VK_END: u16 = 35;
pub const VK_HOME: u16 = 36;
pub const VK_LEFT: u16 = 37;
pub const VK_UP: u16 = 38;
pub const VK_RIGHT: u16 = 39;
pub const VK_DOWN: u16 = 40;
pub const VK_INSERT: u16 = 45;
pub const VK_DELETE: u16 = 46;
pub const VK_NUMPAD0: u16 = 96;
pub const VK_MULTIPLY: u16 = 106;
pub const VK_ADD: u16 = 107;
pub const VK_SUBTRACT: u16 = 109;
pub const VK_DECIMAL: u16 = 110;
pub const VK_DIVIDE: u16 = 111;

/// A native key code together with whether it must be sent as an extended key.
#[derive(Clone, Copy, Debug, PartialEq, Eq, Structural)]
pub struct VirtualKeyMapping {
    pub native_code: u16,
    pub extended: bool,
}

pub open spec fn vk(native_code: u16, extended: bool) -> Option<VirtualKeyMapping> {
    Some(VirtualKeyMapping { native_code, extended })
}

/// The entries keyed by physical code: navigation, editing and numpad keys.
pub open spec fn code_mapping(code: Seq<char>) -> Option<VirtualKeyMapping> {
    if code == "ArrowLeft"@ { vk(VK_LEFT, true) }
    else if code == "ArrowRight"@ { vk(VK_RIGHT, true) }
    else if code == "ArrowUp"@ { vk(VK_UP, true) }
    else if code == "ArrowDown"@ { vk(VK_DOWN, true) }
    else if code == "Home"@ { vk(VK_HOME, true) }
    else if code == "End"@ { vk(VK_END, true) }
    else if code == "PageUp"@ { vk(VK_PRIOR, true) }
    else if code == "PageDown"@ { vk(VK_NEXT, true) }
    else if code == "Insert"@ { vk(VK_INSERT, true) }
    else if code == "Delete"@ { vk(VK_DELETE, true) }
    else if code == "Backspace"@ { vk(VK_BACK, false) }
    else if code == "Enter"@ { vk(VK_RETURN, false) }
    else if code == "NumpadEnter"@ { vk(VK_RETURN, false) }
    else if code == "Tab"@ { vk(VK_TAB, false) }
    else if code == "Escape"@ { vk(VK_ESCAPE, false) }
    else if code == "Space"@ { vk(VK_SPACE, false) }
    else if code == "Numpad0"@ { vk(VK_NUMPAD0, false) }
    else if code == "Numpad1"@ { vk(97, false) }
    else if code == "Numpad2"@ { vk(98, false) }
    else if code == "Numpad3"@ { vk(99, false) }
    else if code == "Numpad4"@ { vk(100, false) }
    else if code == "Numpad5"@ { vk(101, false) }
    else if code == "Numpad6"@ { vk(102, false) }
    else if code == "Numpad7"@ { vk(103, false) }
    else if code == "Numpad8"@ { vk(104, false) }
    else if code == "Numpad9"@ { vk(105, false) }
    else if code == "NumpadAdd"@ { vk(VK_ADD, false) }
    else if code == "NumpadSubtract"@ { vk(VK_SUBTRACT, false) }
    else if code == "NumpadMultiply"@ { vk(VK_MULTIPLY, false) }
    else if code == "NumpadDivide"@ { vk(VK_DIVIDE, true) }
    else if code == "NumpadDecimal"@ { vk(VK_DECIMAL, false) }
    else { None }
}

/// Whether `upper` is a single capital letter or digit, the characters whose
/// own codes are their virtual-key codes.
pub open spec fn is_single_key_char(upper: Seq<char>) -> bool {
    upper.len() == 1 && (('A' <= upper[0] && upper[0] <= 'Z') || ('0' <= upper[0] && upper[0]
        <= '9'))
}

/// The entries keyed by name: the modifier keys, then a single letter or digit
/// given by the upper-case form `upper` of the name.
pub open spec fn name_mapping(key: Seq<char>, upper: Seq<char>) -> Option<VirtualKeyMapping> {
    if key == "Control"@ { vk(VK_CONTROL, true) }
    else if key == "Shift"@ { vk(VK_SHIFT, false) }
    else if key == "Alt"@ { vk(VK_MENU, true) }
    else if is_single_key_char(upper) { vk(upper[0] as u32 as u16, false) }
    else { None }
}

/// The physical code is looked up first; the key name only where the code has
/// no entry.
pub open spec fn key_mapping(code: Seq<char>, key: Seq<char>, upper: Seq<char>) -> Option<
    VirtualKeyMapping,
> {
    match code_mapping(code) {
        Some(m) => Some(m),
        None => name_mapping(key, upper),
    }
}

/// What `str::to_uppercase` returns for the characters `s`.
pub uninterp spec fn upper_of(s: Seq<char>) -> Seq<char>;

/// Relies on `str::to_uppercase`: the upper-case form, which depends on the
/// characters alone.
#[verifier::external_body]
fn to_upper(s: &str) -> (r: String)
    ensures
        r@ == upper_of(s@),
{
    s.to_uppercase()
}

/// Character-wise equality of two strings.
pub fn text_eq(a: &str, b: &str) -> (r: bool)
    ensures
        r == (a@ == b@),
{
    let n = a.unicode_len();
    if n != b.unicode_len() {
        return false;
    }
    let mut i: usize = 0;
    while i < n
        invariant
            n == a@.len(),
            n == b@.len(),
            i <= n,
            forall|j: int| 0 <= j < i ==> a@[j] == b@[j],
        decreases n - i,
    {
        if a.get_char(i) != b.get_char(i) {
            return false;
        }
        i += 1;
    }
    assert(a@ =~= b@);
    true
}

fn entry(native_code: u16, extended: bool) -> (r: Option<VirtualKeyMapping>)
    ensures
        r == vk(native_code, extended),
{
    Some(VirtualKeyMapping { native_code, extended })
}

/// Looks a physical code up in the table of dedicated keys.
pub fn lookup_code(code: &str) -> (r: Option<VirtualKeyMapping>)
    ensures
        r == code_mapping(code@),
{
    if text_eq(code, "ArrowLeft") { entry(VK_LEFT, true) }
    else if text_eq(code, "ArrowRight") { entry(VK_RIGHT, true) }
    else if text_eq(code, "ArrowUp") { entry(VK_UP, true) }
    else if text_eq(code, "ArrowDown") { entry(VK_DOWN, true) }
    else if text_eq(code, "Home") { entry(VK_HOME, true) }
    else if text_eq(code, "End") { entry(VK_END, true) }
    else if text_eq(code, "PageUp") { entry(VK_PRIOR, true) }
    else if text_eq(code, "PageDown") { entry(VK_NEXT, true) }
    else if text_eq(code, "Insert") { entry(VK_INSERT, true) }
    else if text_eq(code, "Delete") { entry(VK_DELETE, true) }
    else if text_eq(code, "Backspace") { entry(VK_BACK, false) }
    else if text_eq(code, "Enter") { entry(VK_RETURN, false) }
    else if text_eq(code, "NumpadEnter") { entry(VK_RETURN, false) }
    else if text_eq(code, "Tab") { entry(VK_TAB, false) }
    else if text_eq(code, "Escape") { entry(VK_ESCAPE, false) }
    else if text_eq(code, "Space") { entry(VK_SPACE, false) }
    else if text_eq(code, "Numpad0") { entry(VK_NUMPAD0, false) }
    else if text_eq(code, "Numpad1") { entry(97, false) }
    else if text_eq(code, "Numpad2") { entry(98, false) }
    else if text_eq(code, "Numpad3") { entry(99, false) }
    else if text_eq(code, "Numpad4") { entry(100, false) }
    else if text_eq(code, "Numpad5") { entry(101, false) }
    else if text_eq(code, "Numpad6") { entry(102, false) }
    else if text_eq(code, "Numpad7") { entry(103, false) }
    else if text_eq(code, "Numpad8") { entry(104, false) }
    else if text_eq(code, "Numpad9") { entry(105, false) }
    else if text_eq(code, "NumpadAdd") { entry(VK_ADD, false) }
    else if text_eq(code, "NumpadSubtract") { entry(VK_SUBTRACT, false) }
    else if text_eq(code, "NumpadMultiply") { entry(VK_MULTIPLY, false) }
    else if text_eq(code, "NumpadDivide") { entry(VK_DIVIDE, true) }
    else if text_eq(code, "NumpadDecimal") { entry(VK_DECIMAL, false) }
    else { None }
}

/// Resolves a key by name, given the name's upper-case form `upper`.
pub fn lookup_name(key: &str, upper: &str) -> (r: Option<VirtualKeyMapping>)
    ensures
        r == name_mapping(key@, upper@),
{
    if text_eq(key, "Control") {
        entry(VK_CONTROL, true)
    } else if text_eq(key, "Shift") {
        entry(VK_SHIFT, false)
    } else if text_eq(key, "Alt") {
        entry(VK_MENU, true)
    } else if upper.unicode_len() == 1 {
        let c = upper.get_char(0);
        if ('A' <= c && c <= 'Z') || ('0' <= c && c <= '9') {
            entry(c as u32 as u16, false)
        } else {
            None
        }
    } else {
        None
    }
}

/// Resolves a key given the upper-case form `upper` of its name: by physical
/// code first, then by name.
pub fn lookup_key(code: &str, key: &str, upper: &str) -> (r: Option<VirtualKeyMapping>)
    ensures
        r == key_mapping(code@, key@, upper@),
{
    match lookup_code(code) {
        Some(m) => Some(m),
        None => lookup_name(key, upper),
    }
}

/// Resolves `(key, code)` to a native key; `None` where neither the physical
/// code nor the name has an entry.
pub fn vk_from_keycode(key: &str, code: &str) -> (r: Option<VirtualKeyMapping>)
    ensures
        r == key_mapping(code@, key@, upper_of(key@)),
{
    let upper = to_upper(key);
    lookup_key(code, key, upper.as_str())
}

} // verus!

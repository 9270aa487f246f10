//! The chord that switches the virtual terminal.

use vstd::prelude::*;

verus! {

/// The modifiers that the chord asks for.
#[derive(Clone, Copy, Debug, PartialEq, Eq, Structural)]
pub struct ModifiersState {
    pub ctrl: bool,
    pub alt: bool,
}

/// The terminal of a function key, by the code of the key.
pub open spec fn function_key(xkb_keycode: u32) -> Option<i32> {
    if 67 <= xkb_keycode <= 76 {
        Some((xkb_keycode - 66) as i32)
    } else if xkb_keycode == 95 {
        Some(11)
    } else if xkb_keycode == 96 {
        Some(12)
    } else {
        None
    }
}

/// Resolves Ctrl+Alt+Fn, below the ordinary routing of keys: it works through modal
/// dialogs, the session lock and clients that inhibit shortcuts.
///
/// The codes are those of XKB, eight above the kernel's: the first ten function keys
/// are 67 to 76, the last two 95 and 96.
pub fn target_from_keycode(xkb_keycode: u32, pressed: bool, modifiers: ModifiersState) -> (target:
    Option<i32>)
    ensures
        target == (if pressed && modifiers.ctrl && modifiers.alt {
            function_key(xkb_keycode)
        } else {
            None
        }),
{
    if !pressed || !modifiers.ctrl || !modifiers.alt {
        return None;
    }
    if 67 <= xkb_keycode && xkb_keycode <= 76 {
        Some((xkb_keycode - 66) as i32)
    } else if xkb_keycode == 95 {
        Some(11)
    } else if xkb_keycode == 96 {
        Some(12)
    } else {
        None
    }
}

/// Every terminal from the first to the twelfth has exactly one key.
pub proof fn function_keys_name_the_terminals(a: u32, b: u32)
    requires
        function_key(a) is Some,
        function_key(a) == function_key(b),
    ensures
        a == b,
        1 <= function_key(a)->0 <= 12,
{
}

/// The first ten function keys follow one another, as do the last two.
pub proof fn function_keys_follow_one_another(code: u32)
    ensures
        function_key(67) == Some(1i32),
        67 <= code < 76 ==> function_key((code + 1) as u32)->0 == function_key(code)->0 + 1,
        67 <= code <= 76 ==> function_key(code) is Some,
        function_key(95) == Some(11i32),
        function_key(96) == Some(12i32),
        function_key(code) is Some ==> 67 <= code <= 76 || code == 95 || code == 96,
{
}

} // verus!

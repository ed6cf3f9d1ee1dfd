//! Values exchanged with the application: input vocabulary and callbacks.
use vstd::prelude::*;

verus! {

/// Phase of a touch contact.
#[derive(Clone, Copy, Debug, PartialEq, Eq, Structural)]
pub enum TouchPhase {
    Started,
    Moved,
    Ended,
    Cancelled,
}

/// A mouse button.
#[derive(Clone, Copy, Debug, PartialEq, Eq, Structural)]
pub enum MouseButton {
    Left,
    Middle,
    Right,
    Unknown,
}

/// Modifier keys held while a key or character event is produced.
#[derive(Clone, Copy, Debug, PartialEq, Eq, Structural)]
pub struct KeyMods {
    pub shift: bool,
    pub ctrl: bool,
    pub alt: bool,
    pub logo: bool,
}

impl KeyMods {
    /// The modifier set with no key held.
    pub open spec fn none() -> KeyMods {
        KeyMods { shift: false, ctrl: false, alt: false, logo: false }
    }
}

impl Default for KeyMods {
    fn default() -> (mods: KeyMods)
        ensures
            mods == KeyMods::none(),
    {
        KeyMods { shift: false, ctrl: false, alt: false, logo: false }
    }
}

/// Shape of the mouse pointer.
#[derive(Clone, Copy, Debug, PartialEq, Eq, Structural)]
pub enum CursorIcon {
    Default,
    Help,
    Pointer,
    Wait,
    Crosshair,
    Text,
    Move,
    NotAllowed,
    EWResize,
    NSResize,
    NESWResize,
    NWSEResize,
}

/// Whether `code` is a Unicode scalar value: a code point that is no
/// surrogate.
pub open spec fn is_scalar_value(code: u32) -> bool {
    code <= 0xD7FF || (0xE000 <= code && code <= 0x10FFFF)
}

/// `char::from_u32` of the standard library: the character with the given
/// code if the code is a Unicode scalar value, and nothing otherwise.
pub assume_specification[ char::from_u32 ](code: u32) -> (character: Option<char>)
    ensures
        is_scalar_value(code) ==> character == Some(code as char),
        !is_scalar_value(code) ==> character is None,
;

/// One invocation of the application's event handler.
///
/// Pointer and touch coordinates are carried as the bit pattern of a
/// single-precision number, exactly as the platform produced it; key codes are
/// the backend's raw codes.
#[derive(Clone, Copy, Debug, PartialEq, Eq, Structural)]
pub enum Callback {
    Update,
    Draw,
    Resize { width: i32, height: i32 },
    MouseMotion { x: u32, y: u32 },
    MouseButtonDown { button: MouseButton, x: u32, y: u32 },
    MouseButtonUp { button: MouseButton, x: u32, y: u32 },
    MouseWheel { dx: u32, dy: u32 },
    Char { character: char, mods: KeyMods, repeat: bool },
    KeyDown { keycode: u32, mods: KeyMods, repeat: bool },
    KeyUp { keycode: u32, mods: KeyMods },
    Touch { phase: TouchPhase, id: u64, x: u32, y: u32 },
    WindowMinimized,
    WindowRestored,
    QuitRequested,
}

} // verus!

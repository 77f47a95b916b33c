//! The host engine's input events, modelled as plain values.
//!
//! The engine reports keyboard, mouse, controller and window events; the
//! adapter reads only the parts modelled here. Mouse coordinates arrive
//! from the engine as single-precision floats; they are carried through
//! untouched as their bit patterns, and the unverified shell converts at
//! the boundary.

use vstd::prelude::*;

verus! {

/// A keyboard key as the host engine names it.
#[derive(Clone, Copy, Debug, PartialEq, Eq, Structural)]
pub enum Key {
    Space,
    Backspace,
    Enter,
    Tab,
    CapsLock,
    Escape,
    LeftShift,
    RightShift,
    LeftCtrl,
    RightCtrl,
    LeftAlt,
    RightAlt,
    LeftCommand,
    RightCommand,
    Delete,
    Up,
    Down,
    Left,
    Right,
    A,
    B,
    C,
    D,
    E,
    F,
    G,
    H,
    I,
    J,
    K,
    L,
    M,
    N,
    O,
    P,
    Q,
    R,
    S,
    T,
    U,
    V,
    W,
    X,
    Y,
    Z,
    Grave,
    Num0,
    Num1,
    Num2,
    Num3,
    Num4,
    Num5,
    Num6,
    Num7,
    Num8,
    Num9,
    Minus,
    Equals,
    F1,
    F2,
    F3,
    F4,
    F5,
    F6,
    F7,
    F8,
    F9,
    F10,
    F11,
    F12,
}

/// A mouse button as the host engine names it.
#[derive(Clone, Copy, Debug, PartialEq, Eq, Structural)]
pub enum MouseButton {
    Left,
    Middle,
    Right,
    X1,
    X2,
}

/// A pointer position in logical screen coordinates.
///
/// Each field holds the bit pattern of the single-precision float the
/// engine reported; the adapter only stores and forwards positions, so
/// the bits are carried through unchanged.
#[derive(Clone, Copy, Debug, PartialEq, Eq, Structural)]
pub struct PointerPos {
    pub x_bits: u32,
    pub y_bits: u32,
}

/// A window size in physical pixels.
#[derive(Clone, Copy, Debug, PartialEq, Eq, Structural)]
pub struct ScreenSize {
    pub width: u32,
    pub height: u32,
}

/// An input event from the host engine.
///
/// Controller events are listed because the engine delivers them, but the
/// adapter ignores them, so their payloads are not modelled.
#[derive(Clone, Debug, PartialEq, Eq)]
pub enum Event {
    KeyDown(Key),
    KeyUp(Key),
    TextInput { text: String },
    MouseButtonDown(MouseButton),
    MouseButtonUp(MouseButton),
    MouseMotion { new_position: PointerPos },
    ControllerDeviceAdded,
    ControllerDeviceRemoved,
    ControllerButtonDown,
    ControllerButtonUp,
    ControllerAxisMotion,
    WindowResized { width: u32, height: u32 },
}

} // verus!

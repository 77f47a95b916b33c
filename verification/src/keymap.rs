//! Translation of the engine's key and mouse-button names into the GUI
//! toolkit's names.
//!
//! The key map is a fixed finite mapping: every printable or editing key
//! has a toolkit counterpart; caps lock and the modifier keys have none,
//! since the toolkit receives modifiers through its modifier set instead
//! of as key events.

use vstd::prelude::*;

use crate::input::Key;
use crate::input::MouseButton;

verus! {

/// A keyboard key as the GUI toolkit names it. Only the keys the engine
/// can report are listed.
#[derive(Clone, Copy, Debug, PartialEq, Eq, Structural)]
pub enum EguiKey {
    Space,
    Backspace,
    Enter,
    Tab,
    Escape,
    Delete,
    ArrowUp,
    ArrowDown,
    ArrowLeft,
    ArrowRight,
    A,
    B,
    C,
    D,
    E,
    F,
    G,
    H,
    I,
    J,
    K,
    L,
    M,
    N,
    O,
    P,
    Q,
    R,
    S,
    T,
    U,
    V,
    W,
    X,
    Y,
    Z,
    Backtick,
    Num0,
    Num1,
    Num2,
    Num3,
    Num4,
    Num5,
    Num6,
    Num7,
    Num8,
    Num9,
    Minus,
    Equals,
    F1,
    F2,
    F3,
    F4,
    F5,
    F6,
    F7,
    F8,
    F9,
    F10,
    F11,
    F12,
}

/// A pointer button as the GUI toolkit names it.
#[derive(Clone, Copy, Debug, PartialEq, Eq, Structural)]
pub enum PointerButton {
    Primary,
    Secondary,
    Middle,
    Extra1,
    Extra2,
}

/// The toolkit key that stands for an engine key, or `None` for caps
/// lock and the modifier keys, which the toolkit does not take as key
/// events.
pub open spec fn egui_key_of(key: Key) -> Option<EguiKey> {
    match key {
        Key::Space => Some(EguiKey::Space),
        Key::Backspace => Some(EguiKey::Backspace),
        Key::Enter => Some(EguiKey::Enter),
        Key::Tab => Some(EguiKey::Tab),
        Key::CapsLock => None,
        Key::Escape => Some(EguiKey::Escape),
        Key::LeftShift => None,
        Key::RightShift => None,
        Key::LeftCtrl => None,
        Key::RightCtrl => None,
        Key::LeftAlt => None,
        Key::RightAlt => None,
        Key::LeftCommand => None,
        Key::RightCommand => None,
        Key::Delete => Some(EguiKey::Delete),
        Key::Up => Some(EguiKey::ArrowUp),
        Key::Down => Some(EguiKey::ArrowDown),
        Key::Left => Some(EguiKey::ArrowLeft),
        Key::Right => Some(EguiKey::ArrowRight),
        Key::A => Some(EguiKey::A),
        Key::B => Some(EguiKey::B),
        Key::C => Some(EguiKey::C),
        Key::D => Some(EguiKey::D),
        Key::E => Some(EguiKey::E),
        Key::F => Some(EguiKey::F),
        Key::G => Some(EguiKey::G),
        Key::H => Some(EguiKey::H),
        Key::I => Some(EguiKey::I),
        Key::J => Some(EguiKey::J),
        Key::K => Some(EguiKey::K),
        Key::L => Some(EguiKey::L),
        Key::M => Some(EguiKey::M),
        Key::N => Some(EguiKey::N),
        Key::O => Some(EguiKey::O),
        Key::P => Some(EguiKey::P),
        Key::Q => Some(EguiKey::Q),
        Key::R => Some(EguiKey::R),
        Key::S => Some(EguiKey::S),
        Key::T => Some(EguiKey::T),
        Key::U => Some(EguiKey::U),
        Key::V => Some(EguiKey::V),
        Key::W => Some(EguiKey::W),
        Key::X => Some(EguiKey::X),
        Key::Y => Some(EguiKey::Y),
        Key::Z => Some(EguiKey::Z),
        Key::Grave => Some(EguiKey::Backtick),
        Key::Num0 => Some(EguiKey::Num0),
        Key::Num1 => Some(EguiKey::Num1),
        Key::Num2 => Some(EguiKey::Num2),
        Key::Num3 => Some(EguiKey::Num3),
        Key::Num4 => Some(EguiKey::Num4),
        Key::Num5 => Some(EguiKey::Num5),
        Key::Num6 => Some(EguiKey::Num6),
        Key::Num7 => Some(EguiKey::Num7),
        Key::Num8 => Some(EguiKey::Num8),
        Key::Num9 => Some(EguiKey::Num9),
        Key::Minus => Some(EguiKey::Minus),
        Key::Equals => Some(EguiKey::Equals),
        Key::F1 => Some(EguiKey::F1),
        Key::F2 => Some(EguiKey::F2),
        Key::F3 => Some(EguiKey::F3),
        Key::F4 => Some(EguiKey::F4),
        Key::F5 => Some(EguiKey::F5),
        Key::F6 => Some(EguiKey::F6),
        Key::F7 => Some(EguiKey::F7),
        Key::F8 => Some(EguiKey::F8),
        Key::F9 => Some(EguiKey::F9),
        Key::F10 => Some(EguiKey::F10),
        Key::F11 => Some(EguiKey::F11),
        Key::F12 => Some(EguiKey::F12),
    }
}

/// Whether `key` is one of the eight physical modifier keys.
pub open spec fn is_modifier_key(key: Key) -> bool {
    match key {
        Key::LeftShift => true,
        Key::RightShift => true,
        Key::LeftCtrl => true,
        Key::RightCtrl => true,
        Key::LeftAlt => true,
        Key::RightAlt => true,
        Key::LeftCommand => true,
        Key::RightCommand => true,
        _ => false,
    }
}

/// The toolkit button that stands for an engine mouse button. Every
/// engine button has one; the result is an `Option` because the toolkit
/// has buttons with no engine counterpart and callers match on it.
pub open spec fn egui_button_of(button: MouseButton) -> Option<PointerButton> {
    match button {
        MouseButton::Left => Some(PointerButton::Primary),
        MouseButton::Middle => Some(PointerButton::Middle),
        MouseButton::Right => Some(PointerButton::Secondary),
        MouseButton::X1 => Some(PointerButton::Extra1),
        MouseButton::X2 => Some(PointerButton::Extra2),
    }
}

impl Key {
    /// The toolkit key for this engine key, or `None` for caps lock and
    /// the modifier keys.
    pub fn to_egui_key(&self) -> (r: Option<EguiKey>)
        ensures
            r == egui_key_of(*self),
    {
        match self {
            Key::Space => Some(EguiKey::Space),
            Key::Backspace => Some(EguiKey::Backspace),
            Key::Enter => Some(EguiKey::Enter),
            Key::Tab => Some(EguiKey::Tab),
            Key::CapsLock => None,
            Key::Escape => Some(EguiKey::Escape),
            Key::LeftShift => None,
            Key::RightShift => None,
            Key::LeftCtrl => None,
            Key::RightCtrl => None,
            Key::LeftAlt => None,
            Key::RightAlt => None,
            Key::LeftCommand => None,
            Key::RightCommand => None,
            Key::Delete => Some(EguiKey::Delete),
            Key::Up => Some(EguiKey::ArrowUp),
            Key::Down => Some(EguiKey::ArrowDown),
            Key::Left => Some(EguiKey::ArrowLeft),
            Key::Right => Some(EguiKey::ArrowRight),
            Key::A => Some(EguiKey::A),
            Key::B => Some(EguiKey::B),
            Key::C => Some(EguiKey::C),
            Key::D => Some(EguiKey::D),
            Key::E => Some(EguiKey::E),
            Key::F => Some(EguiKey::F),
            Key::G => Some(EguiKey::G),
            Key::H => Some(EguiKey::H),
            Key::I => Some(EguiKey::I),
            Key::J => Some(EguiKey::J),
            Key::K => Some(EguiKey::K),
            Key::L => Some(EguiKey::L),
            Key::M => Some(EguiKey::M),
            Key::N => Some(EguiKey::N),
            Key::O => Some(EguiKey::O),
            Key::P => Some(EguiKey::P),
            Key::Q => Some(EguiKey::Q),
            Key::R => Some(EguiKey::R),
            Key::S => Some(EguiKey::S),
            Key::T => Some(EguiKey::T),
            Key::U => Some(EguiKey::U),
            Key::V => Some(EguiKey::V),
            Key::W => Some(EguiKey::W),
            Key::X => Some(EguiKey::X),
            Key::Y => Some(EguiKey::Y),
            Key::Z => Some(EguiKey::Z),
            Key::Grave => Some(EguiKey::Backtick),
            Key::Num0 => Some(EguiKey::Num0),
            Key::Num1 => Some(EguiKey::Num1),
            Key::Num2 => Some(EguiKey::Num2),
            Key::Num3 => Some(EguiKey::Num3),
            Key::Num4 => Some(EguiKey::Num4),
            Key::Num5 => Some(EguiKey::Num5),
            Key::Num6 => Some(EguiKey::Num6),
            Key::Num7 => Some(EguiKey::Num7),
            Key::Num8 => Some(EguiKey::Num8),
            Key::Num9 => Some(EguiKey::Num9),
            Key::Minus => Some(EguiKey::Minus),
            Key::Equals => Some(EguiKey::Equals),
            Key::F1 => Some(EguiKey::F1),
            Key::F2 => Some(EguiKey::F2),
            Key::F3 => Some(EguiKey::F3),
            Key::F4 => Some(EguiKey::F4),
            Key::F5 => Some(EguiKey::F5),
            Key::F6 => Some(EguiKey::F6),
            Key::F7 => Some(EguiKey::F7),
            Key::F8 => Some(EguiKey::F8),
            Key::F9 => Some(EguiKey::F9),
            Key::F10 => Some(EguiKey::F10),
            Key::F11 => Some(EguiKey::F11),
            Key::F12 => Some(EguiKey::F12),
        }
    }
}

impl MouseButton {
    /// The toolkit button for this engine mouse button.
    pub fn to_egui_button(&self) -> (r: Option<PointerButton>)
        ensures
            r == egui_button_of(*self),
    {
        match self {
            MouseButton::Left => Some(PointerButton::Primary),
            MouseButton::Middle => Some(PointerButton::Middle),
            MouseButton::Right => Some(PointerButton::Secondary),
            MouseButton::X1 => Some(PointerButton::Extra1),
            MouseButton::X2 => Some(PointerButton::Extra2),
        }
    }
}

/// A key event is dropped by the key map exactly when the key is caps
/// lock or a modifier key; every other key reaches the toolkit.
pub proof fn lemma_key_map_drops_only_modifiers(key: Key)
    ensures
        egui_key_of(key) is None <==> (is_modifier_key(key) || key == Key::CapsLock),
{
}

} // verus!

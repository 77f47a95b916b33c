//! Modifier-key bookkeeping.
//!
//! The adapter tracks each physical modifier key (left and right shift,
//! ctrl, alt and command) with one flag, updated on every key press and
//! release, and combines the flags into the five-field modifier set that
//! the GUI toolkit expects with each event.

use vstd::prelude::*;

use crate::input::Key;

verus! {

/// One flag per physical modifier key.
#[derive(Clone, Copy, Debug, PartialEq, Eq, Structural)]
pub struct Modifiers {
    pub left_shift: bool,
    pub right_shift: bool,
    pub left_ctrl: bool,
    pub right_ctrl: bool,
    pub left_alt: bool,
    pub right_alt: bool,
    pub left_command: bool,
    pub right_command: bool,
}

/// The GUI toolkit's modifier set: one flag per logical modifier, plus
/// `command`, which stands for the platform's primary shortcut key
/// (the command key on mac platforms, ctrl elsewhere).
#[derive(Clone, Copy, Debug, PartialEq, Eq, Structural)]
pub struct EguiModifiers {
    pub alt: bool,
    pub ctrl: bool,
    pub shift: bool,
    pub mac_cmd: bool,
    pub command: bool,
}

impl Modifiers {
    /// All modifier keys up.
    pub open spec fn released() -> Modifiers {
        Modifiers {
            left_shift: false,
            right_shift: false,
            left_ctrl: false,
            right_ctrl: false,
            left_alt: false,
            right_alt: false,
            left_command: false,
            right_command: false,
        }
    }

    /// The flags after `key` is pressed: the matching flag set, every
    /// other flag unchanged, and nothing changed for a non-modifier key.
    pub open spec fn with_key_down(self, key: Key) -> Modifiers {
        match key {
            Key::LeftShift => Modifiers { left_shift: true, ..self },
            Key::RightShift => Modifiers { right_shift: true, ..self },
            Key::LeftCtrl => Modifiers { left_ctrl: true, ..self },
            Key::RightCtrl => Modifiers { right_ctrl: true, ..self },
            Key::LeftAlt => Modifiers { left_alt: true, ..self },
            Key::RightAlt => Modifiers { right_alt: true, ..self },
            Key::LeftCommand => Modifiers { left_command: true, ..self },
            Key::RightCommand => Modifiers { right_command: true, ..self },
            _ => self,
        }
    }

    /// The flags after `key` is released: the matching flag cleared,
    /// every other flag unchanged, and nothing changed for a
    /// non-modifier key.
    pub open spec fn with_key_up(self, key: Key) -> Modifiers {
        match key {
            Key::LeftShift => Modifiers { left_shift: false, ..self },
            Key::RightShift => Modifiers { right_shift: false, ..self },
            Key::LeftCtrl => Modifiers { left_ctrl: false, ..self },
            Key::RightCtrl => Modifiers { right_ctrl: false, ..self },
            Key::LeftAlt => Modifiers { left_alt: false, ..self },
            Key::RightAlt => Modifiers { right_alt: false, ..self },
            Key::LeftCommand => Modifiers { left_command: false, ..self },
            Key::RightCommand => Modifiers { right_command: false, ..self },
            _ => self,
        }
    }

    /// The toolkit-side modifier set these flags combine to: each logical
    /// modifier is down when either of its physical keys is, and
    /// `command` follows the command keys on mac platforms and the ctrl
    /// keys elsewhere.
    pub open spec fn combined(self, mac: bool) -> EguiModifiers {
        EguiModifiers {
            alt: self.left_alt || self.right_alt,
            ctrl: self.left_ctrl || self.right_ctrl,
            shift: self.left_shift || self.right_shift,
            mac_cmd: self.left_command || self.right_command,
            command: if mac {
                self.left_command || self.right_command
            } else {
                self.left_ctrl || self.right_ctrl
            },
        }
    }

    /// Record that `key` was pressed.
    pub fn key_down(&mut self, key: Key)
        ensures
            *final(self) == old(self).with_key_down(key),
    {
        match key {
            Key::LeftShift => self.left_shift = true,
            Key::RightShift => self.right_shift = true,
            Key::LeftCtrl => self.left_ctrl = true,
            Key::RightCtrl => self.right_ctrl = true,
            Key::LeftAlt => self.left_alt = true,
            Key::RightAlt => self.right_alt = true,
            Key::LeftCommand => self.left_command = true,
            Key::RightCommand => self.right_command = true,
            _ => {},
        }
    }

    /// Record that `key` was released.
    pub fn key_up(&mut self, key: Key)
        ensures
            *final(self) == old(self).with_key_up(key),
    {
        match key {
            Key::LeftShift => self.left_shift = false,
            Key::RightShift => self.right_shift = false,
            Key::LeftCtrl => self.left_ctrl = false,
            Key::RightCtrl => self.right_ctrl = false,
            Key::LeftAlt => self.left_alt = false,
            Key::RightAlt => self.right_alt = false,
            Key::LeftCommand => self.left_command = false,
            Key::RightCommand => self.right_command = false,
            _ => {},
        }
    }

    /// Combine the flags into the toolkit's modifier set. `mac` says
    /// whether the platform treats the command key as the primary
    /// shortcut key.
    pub fn to_egui(&self, mac: bool) -> (r: EguiModifiers)
        ensures
            r == self.combined(mac),
    {
        EguiModifiers {
            alt: self.left_alt || self.right_alt,
            ctrl: self.left_ctrl || self.right_ctrl,
            shift: self.left_shift || self.right_shift,
            mac_cmd: self.left_command || self.right_command,
            command: if mac {
                self.left_command || self.right_command
            } else {
                self.left_ctrl || self.right_ctrl
            },
        }
    }
}

/// Releasing a key clears its flag whatever came before: a press
/// followed by a release leaves the flags exactly as the release alone
/// would.
pub proof fn lemma_release_overrides_press(m: Modifiers, key: Key)
    ensures
        m.with_key_down(key).with_key_up(key) == m.with_key_up(key),
{
}

/// Key repeats are harmless: pressing a key that is already down, or
/// releasing one that is already up, changes nothing.
pub proof fn lemma_press_and_release_are_idempotent(m: Modifiers, key: Key)
    ensures
        m.with_key_down(key).with_key_down(key) == m.with_key_down(key),
        m.with_key_up(key).with_key_up(key) == m.with_key_up(key),
{
}

impl Default for Modifiers {
    /// All modifier keys start up.
    fn default() -> (r: Self)
        ensures
            r == Modifiers::released(),
    {
        Modifiers {
            left_shift: false,
            right_shift: false,
            left_ctrl: false,
            right_ctrl: false,
            left_alt: false,
            right_alt: false,
            left_command: false,
            right_command: false,
        }
    }
}

impl EguiModifiers {
    /// No logical modifier down.
    pub open spec fn released() -> EguiModifiers {
        EguiModifiers { alt: false, ctrl: false, shift: false, mac_cmd: false, command: false }
    }
}

impl Default for EguiModifiers {
    /// No logical modifier down.
    fn default() -> (r: Self)
        ensures
            r == EguiModifiers::released(),
    {
        EguiModifiers { alt: false, ctrl: false, shift: false, mac_cmd: false, command: false }
    }
}

} // verus!

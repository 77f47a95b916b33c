//! The adapter itself: the state carried between frames and the
//! translation of each engine event into the toolkit's event buffer.
//!
//! The adapter keeps the per-frame input buffer, the modifier flags, the
//! window size and the last pointer position. Each engine event updates
//! the flags and appends at most one toolkit event to the buffer; once a
//! frame, the shell takes the whole buffer and hands it to the toolkit.

use vstd::prelude::*;

use crate::input::Event;
use crate::input::PointerPos;
use crate::input::ScreenSize;
use crate::keymap::EguiKey;
use crate::keymap::PointerButton;
use crate::keymap::egui_button_of;
use crate::keymap::egui_key_of;
use crate::modifiers::EguiModifiers;
use crate::modifiers::Modifiers;

verus! {

/// An input event as the GUI toolkit takes it. Only the variants the
/// adapter emits are listed.
#[derive(Clone, Debug, PartialEq, Eq)]
pub enum EguiEvent {
    Key {
        key: EguiKey,
        physical_key: Option<EguiKey>,
        repeat: bool,
        pressed: bool,
        modifiers: EguiModifiers,
    },
    Text(String),
    PointerButton { pos: PointerPos, button: PointerButton, pressed: bool, modifiers: EguiModifiers },
    PointerMoved(PointerPos),
}

/// The input the toolkit is handed each frame: the events gathered since
/// the last frame, the screen rectangle if it changed, the frame time,
/// and the modifier set at frame start. The frame time is the engine's
/// total running time in seconds, carried as the bit pattern of the
/// double-precision float the engine reported.
#[derive(Clone, Debug, PartialEq, Eq)]
pub struct FrameInput {
    pub screen_rect: Option<ScreenSize>,
    pub time_bits: Option<u64>,
    pub modifiers: EguiModifiers,
    pub events: Vec<EguiEvent>,
}

impl FrameInput {
    /// A buffer with nothing in it: what a fresh frame starts from.
    pub open spec fn is_empty(self) -> bool {
        &&& self.screen_rect is None
        &&& self.time_bits is None
        &&& self.modifiers == EguiModifiers::released()
        &&& self.events@ == Seq::<EguiEvent>::empty()
    }
}

/// The key event the adapter emits for a translated key press or
/// release: the logical and physical key are the same, and the event is
/// never marked as a repeat.
pub open spec fn key_event(key: EguiKey, pressed: bool, modifiers: EguiModifiers) -> EguiEvent {
    EguiEvent::Key { key, physical_key: Some(key), repeat: false, pressed, modifiers }
}

/// The adapter state carried between frames.
pub struct NovaEguiCtx {
    pub raw_input: FrameInput,
    pub modifiers: Modifiers,
    pub screen_size: ScreenSize,
    pub last_mouse_position: PointerPos,
    pub mac: bool,
}

impl NovaEguiCtx {
    /// The modifier flags after `event`: updated by a key press or
    /// release, untouched by everything else.
    pub open spec fn modifiers_after(self, event: Event) -> Modifiers {
        match event {
            Event::KeyDown(key) => self.modifiers.with_key_down(key),
            Event::KeyUp(key) => self.modifiers.with_key_up(key),
            _ => self.modifiers,
        }
    }

    /// The last pointer position after `event`: moved by mouse motion,
    /// untouched by everything else.
    pub open spec fn mouse_after(self, event: Event) -> PointerPos {
        match event {
            Event::MouseMotion { new_position } => new_position,
            _ => self.last_mouse_position,
        }
    }

    /// The window size after `event`: set by a resize, untouched by
    /// everything else.
    pub open spec fn screen_after(self, event: Event) -> ScreenSize {
        match event {
            Event::WindowResized { width, height } => ScreenSize { width, height },
            _ => self.screen_size,
        }
    }

    /// The buffered screen rectangle after `event`: set by a resize,
    /// untouched by everything else.
    pub open spec fn screen_rect_after(self, event: Event) -> Option<ScreenSize> {
        match event {
            Event::WindowResized { width, height } => Some(ScreenSize { width, height }),
            _ => self.raw_input.screen_rect,
        }
    }

    /// The toolkit events that `event` appends to the buffer.
    ///
    /// A key press or release becomes one key event carrying the
    /// modifier flags as they stand after the press or release itself,
    /// or nothing when the key map drops the key. A mouse button becomes
    /// one pointer event at the last known pointer position. Mouse
    /// motion becomes one pointer-moved event. Text input is passed
    /// through. Controller events and resizes append nothing.
    pub open spec fn emitted(self, event: Event) -> Seq<EguiEvent> {
        match event {
            Event::KeyDown(key) => match egui_key_of(key) {
                Some(k) => seq![
                    key_event(k, true, self.modifiers.with_key_down(key).combined(self.mac)),
                ],
                None => seq![],
            },
            Event::KeyUp(key) => match egui_key_of(key) {
                Some(k) => seq![
                    key_event(k, false, self.modifiers.with_key_up(key).combined(self.mac)),
                ],
                None => seq![],
            },
            Event::TextInput { text } => seq![EguiEvent::Text(text)],
            Event::MouseButtonDown(button) => match egui_button_of(button) {
                Some(b) => seq![
                    (EguiEvent::PointerButton {
                        pos: self.last_mouse_position,
                        button: b,
                        pressed: true,
                        modifiers: self.modifiers.combined(self.mac),
                    }),
                ],
                None => seq![],
            },
            Event::MouseButtonUp(button) => match egui_button_of(button) {
                Some(b) => seq![
                    (EguiEvent::PointerButton {
                        pos: self.last_mouse_position,
                        button: b,
                        pressed: false,
                        modifiers: self.modifiers.combined(self.mac),
                    }),
                ],
                None => seq![],
            },
            Event::MouseMotion { new_position } => seq![EguiEvent::PointerMoved(new_position)],
            _ => seq![],
        }
    }

    /// Start the adapter for a window of the given size, with the
    /// pointer at `mouse_position` and no key held. `mac` says whether
    /// the platform treats the command key as the primary shortcut key.
    ///
    /// The first frame's buffer already carries the screen rectangle, so
    /// the toolkit learns the window size before any event arrives.
    pub fn new(width: u32, height: u32, mouse_position: PointerPos, mac: bool) -> (r: Self)
        ensures
            r.raw_input.screen_rect == Some(ScreenSize { width, height }),
            r.raw_input.time_bits is None,
            r.raw_input.modifiers == EguiModifiers::released(),
            r.raw_input.events@ == Seq::<EguiEvent>::empty(),
            r.modifiers == Modifiers::released(),
            r.screen_size == (ScreenSize { width, height }),
            r.last_mouse_position == mouse_position,
            r.mac == mac,
    {
        NovaEguiCtx {
            raw_input: FrameInput {
                screen_rect: Some(ScreenSize { width, height }),
                time_bits: None,
                modifiers: EguiModifiers::default(),
                events: Vec::new(),
            },
            modifiers: Modifiers::default(),
            screen_size: ScreenSize { width, height },
            last_mouse_position: mouse_position,
            mac,
        }
    }

    /// Feed one engine event into the adapter: update the modifier
    /// flags, the pointer position and the window size, and append the
    /// translated toolkit events to the frame buffer.
    #[verifier::rlimit(30)]
    #[verifier::spinoff_prover]
    pub fn event(&mut self, event: &Event)
        ensures
            final(self).modifiers == old(self).modifiers_after(*event),
            final(self).last_mouse_position == old(self).mouse_after(*event),
            final(self).screen_size == old(self).screen_after(*event),
            final(self).mac == old(self).mac,
            final(self).raw_input.screen_rect == old(self).screen_rect_after(*event),
            final(self).raw_input.time_bits == old(self).raw_input.time_bits,
            final(self).raw_input.modifiers == old(self).raw_input.modifiers,
            final(self).raw_input.events@ == old(self).raw_input.events@ + old(self).emitted(
                *event,
            ),
    {
        let ghost pre = *self;
        match event {
            Event::KeyDown(key) => {
                self.modifiers.key_down(*key);
                if let Some(k) = key.to_egui_key() {
                    self.raw_input.events.push(
                        EguiEvent::Key {
                            key: k,
                            physical_key: Some(k),
                            repeat: false,
                            pressed: true,
                            modifiers: self.modifiers.to_egui(self.mac),
                        },
                    );
                }
                proof {
                    assert(self.raw_input.events@ =~= pre.raw_input.events@ + pre.emitted(*event));
                }
            },
            Event::KeyUp(key) => {
                self.modifiers.key_up(*key);
                if let Some(k) = key.to_egui_key() {
                    self.raw_input.events.push(
                        EguiEvent::Key {
                            key: k,
                            physical_key: Some(k),
                            repeat: false,
                            pressed: false,
                            modifiers: self.modifiers.to_egui(self.mac),
                        },
                    );
                }
                proof {
                    assert(self.raw_input.events@ =~= pre.raw_input.events@ + pre.emitted(*event));
                }
            },
            Event::TextInput { text } => {
                self.raw_input.events.push(EguiEvent::Text(text.clone()));
                proof {
                    assert(self.raw_input.events@ =~= pre.raw_input.events@ + pre.emitted(*event));
                }
            },
            Event::MouseButtonDown(button) => {
                if let Some(b) = button.to_egui_button() {
                    self.raw_input.events.push(
                        EguiEvent::PointerButton {
                            pos: self.last_mouse_position,
                            button: b,
                            pressed: true,
                            modifiers: self.modifiers.to_egui(self.mac),
                        },
                    );
                }
                proof {
                    assert(self.raw_input.events@ =~= pre.raw_input.events@ + pre.emitted(*event));
                }
            },
            Event::MouseButtonUp(button) => {
                if let Some(b) = button.to_egui_button() {
                    self.raw_input.events.push(
                        EguiEvent::PointerButton {
                            pos: self.last_mouse_position,
                            button: b,
                            pressed: false,
                            modifiers: self.modifiers.to_egui(self.mac),
                        },
                    );
                }
                proof {
                    assert(self.raw_input.events@ =~= pre.raw_input.events@ + pre.emitted(*event));
                }
            },
            Event::MouseMotion { new_position } => {
                self.last_mouse_position = *new_position;
                self.raw_input.events.push(EguiEvent::PointerMoved(self.last_mouse_position));
                proof {
                    assert(self.raw_input.events@ =~= pre.raw_input.events@ + pre.emitted(*event));
                }
            },
            Event::ControllerDeviceAdded
            | Event::ControllerDeviceRemoved
            | Event::ControllerButtonDown
            | Event::ControllerButtonUp
            | Event::ControllerAxisMotion => {
                proof {
                    assert(self.raw_input.events@ =~= pre.raw_input.events@ + pre.emitted(*event));
                }
            },
            Event::WindowResized { width, height } => {
                self.raw_input.screen_rect = Some(ScreenSize { width: *width, height: *height });
                self.screen_size = ScreenSize { width: *width, height: *height };
                proof {
                    assert(self.raw_input.events@ =~= pre.raw_input.events@ + pre.emitted(*event));
                }
            },
        }
    }

    /// Stamp the frame: record the frame time (the bit pattern of the
    /// engine's total running time in seconds) and the modifier set as
    /// it stands now. Called once per frame before the buffer is taken.
    pub fn update(&mut self, time_bits: u64)
        ensures
            final(self).raw_input.time_bits == Some(time_bits),
            final(self).raw_input.modifiers == old(self).modifiers.combined(old(self).mac),
            final(self).raw_input.screen_rect == old(self).raw_input.screen_rect,
            final(self).raw_input.events@ == old(self).raw_input.events@,
            final(self).modifiers == old(self).modifiers,
            final(self).screen_size == old(self).screen_size,
            final(self).last_mouse_position == old(self).last_mouse_position,
            final(self).mac == old(self).mac,
    {
        self.raw_input.time_bits = Some(time_bits);
        self.raw_input.modifiers = self.modifiers.to_egui(self.mac);
    }

    /// Hand out the frame's input buffer and leave an empty one behind,
    /// as the shell does once per frame before running the toolkit.
    pub fn take_raw_input(&mut self) -> (r: FrameInput)
        ensures
            r == old(self).raw_input,
            final(self).raw_input.is_empty(),
            final(self).modifiers == old(self).modifiers,
            final(self).screen_size == old(self).screen_size,
            final(self).last_mouse_position == old(self).last_mouse_position,
            final(self).mac == old(self).mac,
    {
        let mut fresh = FrameInput {
            screen_rect: None,
            time_bits: None,
            modifiers: EguiModifiers::default(),
            events: Vec::new(),
        };
        core::mem::swap(&mut self.raw_input, &mut fresh);
        fresh
    }
}

} // verus!

//! Adapter state for feeding a host application's keyboard and mouse input
//! into an immediate-mode GUI toolkit.
//!
//! The crate models the data that crosses the boundary — keys, mouse
//! buttons, modifier flags, and the per-frame input buffer — as plain
//! values, and verifies the translation logic that fills that buffer.
//! The unverified shell that owns the GUI context and the GL painter
//! converts these values to the toolkit's own types at the edge.

pub mod adapter;
pub mod input;
pub mod keymap;
pub mod modifiers;

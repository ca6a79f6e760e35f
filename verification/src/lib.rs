//! A streaming keyboard-event remapper: decodes fixed-size input-event
//! records, tracks Left-Ctrl and Caps-Lock modifier state, and turns
//! Caps-Lock into a momentary arrow-key layer over I/J/K/L while swallowing
//! the physical Caps-Lock key itself.

use vstd::prelude::*;

pub mod codec;
pub mod engine;

pub use codec::DecodeError;
pub use codec::EventRecord;
pub use codec::KeyEvent;
pub use codec::KeyValue;
pub use engine::Engine;
pub use engine::KeyState;
pub use engine::ModifierState;

verus! {

/// Type tag of a key event on the wire (`EV_KEY` in the kernel protocol).
pub const EV_KEY_TYPE: u16 = 1;

/// Key code of the Left-Ctrl key.
pub const KEY_LEFTCTRL_CODE: u16 = 29;

/// Key code of the Caps-Lock key.
pub const KEY_CAPSLOCK_CODE: u16 = 58;

/// Key code of the "I" key.
pub const KEY_I_CODE: u16 = 23;

/// Key code of the "J" key.
pub const KEY_J_CODE: u16 = 36;

/// Key code of the "K" key.
pub const KEY_K_CODE: u16 = 37;

/// Key code of the "L" key.
pub const KEY_L_CODE: u16 = 38;

/// Key code of the Up-Arrow key.
pub const KEY_UP_CODE: u16 = 103;

/// Key code of the Left-Arrow key.
pub const KEY_LEFT_CODE: u16 = 105;

/// Key code of the Right-Arrow key.
pub const KEY_RIGHT_CODE: u16 = 106;

/// Key code of the Down-Arrow key.
pub const KEY_DOWN_CODE: u16 = 108;

} // verus!

//! Recording and playback of keyboard and mouse input.
//!
//! The library holds the logic of a macro recorder: the action log and
//! the session state it is captured into, the scheduler that decides
//! which actions are due during playback, the translation of captured
//! key names and button numbers into what an input simulator accepts,
//! and the assembly of a recording from its persisted fields.
mod action;
mod guard;
mod keys;
mod macros;
mod persist;
mod playback;

pub use action::{KeyAction, MacroAction, MacroMetadata, MouseButtonAction, MouseMoveAction, UserAction};
pub use device_query::Keycode;
pub use guard::MacroGuard;
pub use keys::{key_for, remap, SimKey};
pub use macros::{CaptureEvent, Macro};
pub use playback::{button_for, command_for, Button, Command, PlaybackStep, Player};
pub use persist::{DecodeError, Field};

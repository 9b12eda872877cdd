use vstd::prelude::*;

verus! {

/// A pointer movement, relative to the previous pointer sample.
#[derive(Debug, Clone, Copy, PartialEq, Eq, Structural)]
pub struct MouseMoveAction {
    pub delta_x: i32,
    pub delta_y: i32,
}

/// A pointer button going down or up. `button` is the number that the
/// capture layer reports (1 left, 2 right, 3 middle, 4 back, 5 forward).
#[derive(Debug, Clone, Copy, PartialEq, Eq, Structural)]
pub struct MouseButtonAction {
    pub button: usize,
    pub pressed: bool,
}

/// A key going down or up, named as the capture layer names it.
#[derive(Debug, Clone)]
pub struct KeyAction {
    pub key: String,
    pub pressed: bool,
}

/// One user action of a recording.
#[derive(Debug, Clone)]
pub enum UserAction {
    MouseMove(MouseMoveAction),
    MouseButton(MouseButtonAction),
    Key(KeyAction),
}

/// A user action with the milliseconds elapsed since the recording began.
#[derive(Debug, Clone)]
pub struct MacroAction {
    pub action: UserAction,
    pub offset: u64,
}

/// What a recording needs besides its actions: its length in
/// milliseconds and the absolute pointer position it started from.
#[derive(Debug, Clone, Copy)]
pub struct MacroMetadata {
    pub end: u64,
    pub cursor_pos: (i32, i32),
}

impl MacroMetadata {
    /// Metadata of a recording that has not run: no length, pointer at the origin.
    pub fn empty() -> (r: Self)
        ensures
            r.end == 0,
            r.cursor_pos == (0i32, 0i32),
    {
        MacroMetadata { end: 0, cursor_pos: (0, 0) }
    }
}

/// The offsets of a log, in log order.
pub open spec fn offsets(log: Seq<MacroAction>) -> Seq<u64> {
    log.map_values(|a: MacroAction| a.offset)
}

} // verus!

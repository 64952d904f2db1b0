use vstd::prelude::*;

verus! {

/// A key the simulation accepts: the four directional keys, the action key
/// `Z`, and the two pointer buttons (accepted but currently ignored).
#[derive(Copy, Clone, Debug, PartialEq, Eq, Structural)]
pub enum Key {
    Up,
    Down,
    Left,
    Right,
    Z,
    Lmb,
    Rmb,
}

/// One input event handed to the simulation by the platform boundary.
/// Pointer events are accepted but currently ignored.
#[derive(Copy, Clone, Debug, PartialEq, Eq, Structural)]
pub enum Event {
    Exit,
    KeyDown(Key),
    KeyUp(Key),
    MouseMove(i64, i64),
}

} // verus!

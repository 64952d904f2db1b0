use crate::common::{Direction, Vec2};
use vstd::prelude::*;

verus! {

/// What occupies a grid tile.
#[derive(Copy, Clone, Debug, PartialEq, Eq, Structural)]
pub enum BlockType {
    /// A pushable block.
    Normal,
    /// An immovable block; a push candidate holding one rejects the push.
    Solid,
    /// A block meant to pass or break depending on the push direction. The
    /// direction rule is an open product decision; push resolution currently
    /// treats it like a pushable block.
    OneWay(Direction),
}

/// The texture-atlas origin, in pixels, of the sprite for a block type. The
/// atlas position of a `OneWay` block is not assigned yet, so that variant
/// is outside this function's domain.
pub fn block_to_uv(block_type: BlockType) -> (r: Vec2<i64>)
    requires
        !(block_type is OneWay),
    ensures
        block_type is Normal ==> r == Vec2(16i64, 0i64),
        block_type is Solid ==> r == Vec2(32i64, 0i64),
{
    match block_type {
        BlockType::Normal => Vec2(16, 0),
        BlockType::Solid => Vec2(32, 0),
        BlockType::OneWay(_) => Vec2(0, 0),
    }
}

/// The behavior state of one tank. Timers run on a wrapping 16-bit
/// millisecond clock; elapsed-time comparisons stay correct across a wrap as
/// long as the measured duration is below 2^15 milliseconds.
#[derive(Copy, Clone, Debug, PartialEq, Eq, Structural)]
pub enum TankState {
    /// Accepts new commands.
    Idle,
    /// Interpolating from `start` toward `start + facing * 8 px` over
    /// `duration` milliseconds, measured from `timestamp`.
    Moving { timestamp: u16, duration: u16, start: Vec2<i64> },
    /// Ignores commands until `duration` milliseconds have elapsed since
    /// `timestamp`.
    Delayed { timestamp: u16, duration: u16 },
}

} // verus!

use crate::array2d::Array2D;
use crate::common::{Direction, Vec2, Vec4};
use crate::misc::{BlockType, TankState};
use vstd::prelude::*;

verus! {

/// One frame's render snapshot: an independent value describing exactly what
/// must be drawn, with no aliasing back into live simulation state. It
/// carries the exit flag, the camera rectangle, the session display pair,
/// the offset and cloned sub-grid of visible static blocks, and the entity
/// positions and selectors a renderer needs to build one quad per visible
/// tile or entity.
pub struct RenderState {
    pub exit: bool,
    pub time: u8,
    pub remaining_tanks: u8,
    pub camera: Vec4<i64>,
    pub static_blocks_offset: Vec2<i64>,
    pub static_block_types: Array2D<Option<BlockType>>,
    pub sliding_block_positions: Vec<Vec2<i64>>,
    pub sliding_block_types: Vec<BlockType>,
    pub tank_positions: Vec<Vec2<i64>>,
    pub tank_directions: Vec<Direction>,
    pub tank_states: Vec<TankState>,
}

} // verus!

//! Core of a tile-based tank/block-pushing simulation.
//!
//! The library owns the deterministic part of the game: a dense 2-D grid of
//! static blocks, parallel entity stores for tanks and sliding blocks, the
//! tank state machine with its push/move disambiguation rule, and the
//! fixed-timestep catch-up scheduler. Window creation, input translation and
//! rendering are collaborators outside the library; they exchange plain
//! values with it (an input-event list in, a render snapshot out).
//!
//! All coordinates are integers in subpixel units: one pixel is [`PX`]
//! subpixels, one grid tile is 16 pixels.

mod array2d;
mod common;
mod event;
mod func;
mod misc;
mod render_state;
mod sched;
mod state;

pub use array2d::{clamp_usize_range, lemma_row_major_index, lemma_row_major_order, sub_len, Array2D};
pub use common::{clamp, copy_vec, narrow64, sat64, Direction, Vec2, Vec3, Vec4, PX, TILE};
pub use event::{Event, Key};
pub use func::{
    block_at, block_lookup, candidate_a, candidate_b, candidates, delay_step, elapsed_ms,
    grid_of, held_direction, lemma_move_completes, lemma_move_intents_bounds,
    lemma_push_intents_bounds, lemma_push_resolution, move_allowed, move_check, move_fold,
    move_intents, move_step, movement_step, ms_of_us, push_decision, push_fold, push_intents,
    push_resolve, push_step, slide_step, sliding_block_movement, spec_elapsed, spec_ms_of_us,
    tank_ai, tank_delay, tank_move_command, tank_movement, tank_push_command, target_point,
    tile_of, tile_of_exec, GridModel, PushState, MOVE_DURATION_MS, MOVE_STEP, PUSH_DELAY_MS,
};
pub use misc::{block_to_uv, BlockType, TankState};
pub use render_state::RenderState;
pub use sched::{lemma_plan_shape, plan, plan_steps, run_plan, MAX_TIME_PER_UPDATE};
pub use state::{
    apply_event, apply_events, camera_step, delay_all, initial_blocks, latch_previous, move_all,
    movement_all, pre_step_spec, push_all, slide_all, step_spec, visible_hi, visible_lo, z_edge,
    State, StateModel, CAMERA_H, CAMERA_W,
};

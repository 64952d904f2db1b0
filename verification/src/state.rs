use crate::array2d::Array2D;
use crate::common::{copy_vec, narrow64, sat64, Direction, Vec2, Vec4, PX, TILE};
use crate::event::{Event, Key};
use crate::func::{
    delay_step, grid_of, held_direction, lemma_move_intents_bounds, lemma_push_intents_bounds,
    move_fold, move_intents, movement_step, push_fold, push_intents, slide_step, spec_ms_of_us,
    sliding_block_movement, tank_ai, tank_delay, tank_move_command, tank_movement,
    tank_push_command, GridModel, PushState,
};
use crate::misc::{BlockType, TankState};
use crate::render_state::RenderState;
use vstd::prelude::*;

verus! {

/// Width, in subpixels, of the camera rectangle: a 160 px view.
pub const CAMERA_W: i64 = 160_000_000;

/// Height, in subpixels, of the camera rectangle: a 144 px view.
pub const CAMERA_H: i64 = 144_000_000;

/// The whole simulation in one explicitly owned value: the static grid, the
/// index-aligned entity stores, the camera rectangle, edge-tracked input,
/// and the session counters. The step pipeline mutates it in place; nothing
/// else holds a reference into it.
pub struct State {
    pub exit: bool,
    pub upkey_down: bool,
    pub downkey_down: bool,
    pub leftkey_down: bool,
    pub rightkey_down: bool,
    pub zkey_down: bool,
    pub upkey_was_down: bool,
    pub downkey_was_down: bool,
    pub leftkey_was_down: bool,
    pub rightkey_was_down: bool,
    pub zkey_was_down: bool,
    pub camera: Vec4<i64>,
    pub rem_time: u64,
    pub rem_tanks: u8,
    pub static_block_types: Array2D<Option<BlockType>>,
    pub id_counter: u32,
    pub sliding_block_ids: Vec<u32>,
    pub sliding_block_positions: Vec<Vec2<i64>>,
    pub sliding_block_directions: Vec<Direction>,
    pub sliding_block_types: Vec<BlockType>,
    pub tank_ids: Vec<u32>,
    pub tank_positions: Vec<Vec2<i64>>,
    pub tank_directions: Vec<Direction>,
    pub tank_states: Vec<TankState>,
}

/// The specification view of the simulation: the same fields with the
/// containers abstracted to sequences.
pub ghost struct StateModel {
    pub exit: bool,
    pub upkey_down: bool,
    pub downkey_down: bool,
    pub leftkey_down: bool,
    pub rightkey_down: bool,
    pub zkey_down: bool,
    pub upkey_was_down: bool,
    pub downkey_was_down: bool,
    pub leftkey_was_down: bool,
    pub rightkey_was_down: bool,
    pub zkey_was_down: bool,
    pub camera: Vec4<i64>,
    pub rem_time: u64,
    pub rem_tanks: u8,
    pub grid: GridModel,
    pub id_counter: int,
    pub slide_ids: Seq<u32>,
    pub slide_positions: Seq<Vec2<i64>>,
    pub slide_directions: Seq<Direction>,
    pub slide_types: Seq<BlockType>,
    pub tank_ids: Seq<u32>,
    pub tank_positions: Seq<Vec2<i64>>,
    pub tank_directions: Seq<Direction>,
    pub tank_states: Seq<TankState>,
}

impl View for State {
    type V = StateModel;

    open spec fn view(&self) -> StateModel {
        StateModel {
            exit: self.exit,
            upkey_down: self.upkey_down,
            downkey_down: self.downkey_down,
            leftkey_down: self.leftkey_down,
            rightkey_down: self.rightkey_down,
            zkey_down: self.zkey_down,
            upkey_was_down: self.upkey_was_down,
            downkey_was_down: self.downkey_was_down,
            leftkey_was_down: self.leftkey_was_down,
            rightkey_was_down: self.rightkey_was_down,
            zkey_was_down: self.zkey_was_down,
            camera: self.camera,
            rem_time: self.rem_time,
            rem_tanks: self.rem_tanks,
            grid: grid_of(self.static_block_types),
            id_counter: self.id_counter as int,
            slide_ids: self.sliding_block_ids@,
            slide_positions: self.sliding_block_positions@,
            slide_directions: self.sliding_block_directions@,
            slide_types: self.sliding_block_types@,
            tank_ids: self.tank_ids@,
            tank_positions: self.tank_positions@,
            tank_directions: self.tank_directions@,
            tank_states: self.tank_states@,
        }
    }
}

// ---------------------------------------------------------------------------
// The step pipeline, phase by phase, in specification
// ---------------------------------------------------------------------------

/// Phase one: the camera re-centers on the tracked tank (the one at index
/// zero, or the origin when the roster is empty) and clamps its corner to a
/// non-negative position. Its extents are kept.
pub open spec fn camera_step(s: StateModel) -> StateModel {
    let p = if s.tank_positions.len() > 0 {
        s.tank_positions[0]
    } else {
        Vec2(0i64, 0i64)
    };
    let cx = sat64(p.0 - s.camera.2 / 2);
    let cy = sat64(p.1 - s.camera.3 / 2);
    StateModel {
        camera: Vec4(
            if cx < 0 {
                0i64
            } else {
                cx
            },
            if cy < 0 {
                0i64
            } else {
                cy
            },
            s.camera.2,
            s.camera.3,
        ),
        ..s
    }
}

/// Phase two: every tank's delay timer advances.
pub open spec fn delay_all(s: StateModel, now_ms: u16) -> StateModel {
    StateModel {
        tank_states: Seq::new(
            s.tank_states.len(),
            |i: int| delay_step(s.tank_states[i], now_ms),
        ),
        ..s
    }
}

/// The action key's rising edge: pressed this frame, not the previous one.
pub open spec fn z_edge(s: StateModel) -> bool {
    s.zkey_down && !s.zkey_was_down
}

/// Phase three: the push intents act in order on the grid, the tank states,
/// the id counter and the sliding-block stores.
pub open spec fn push_all(s: StateModel, now_ms: u16) -> StateModel {
    let list = push_intents(s.tank_states, s.tank_ids.len() as int, z_edge(s));
    let r = push_fold(
        PushState {
            grid: s.grid,
            tank_states: s.tank_states,
            id_counter: s.id_counter,
            slide_ids: s.slide_ids,
            slide_positions: s.slide_positions,
            slide_directions: s.slide_directions,
            slide_types: s.slide_types,
        },
        s.tank_positions,
        s.tank_directions,
        list,
        now_ms,
    );
    StateModel {
        grid: r.grid,
        tank_states: r.tank_states,
        id_counter: r.id_counter,
        slide_ids: r.slide_ids,
        slide_positions: r.slide_positions,
        slide_directions: r.slide_directions,
        slide_types: r.slide_types,
        ..s
    }
}

/// Phase four: the move intents act in order against the post-push grid.
/// The intents themselves were decided before the pushes ran (phase three
/// and this one share the post-delay states).
pub open spec fn move_all(s: StateModel, intents: Seq<(usize, Direction)>, now_ms: u16) -> StateModel {
    let r = move_fold(s.tank_directions, s.tank_states, s.grid, s.tank_positions, intents, now_ms);
    StateModel { tank_directions: r.0, tank_states: r.1, ..s }
}

/// Phase five: every moving tank's position interpolates, and finished moves
/// return to `Idle`.
pub open spec fn movement_all(s: StateModel, now_ms: u16) -> StateModel {
    StateModel {
        tank_positions: Seq::new(
            s.tank_positions.len(),
            |i: int| movement_step(s.tank_positions[i], s.tank_directions[i], s.tank_states[i], now_ms).0,
        ),
        tank_states: Seq::new(
            s.tank_states.len(),
            |i: int| movement_step(s.tank_positions[i], s.tank_directions[i], s.tank_states[i], now_ms).1,
        ),
        ..s
    }
}

/// Phase six: every sliding block advances kinematically over the simulated
/// time slice.
pub open spec fn slide_all(s: StateModel, simtime: u64) -> StateModel {
    StateModel {
        slide_positions: Seq::new(
            s.slide_positions.len(),
            |i: int| slide_step(s.slide_positions[i], s.slide_directions[i], simtime),
        ),
        ..s
    }
}

/// One simulation step of `simtime` microseconds at frame timestamp
/// `us_frame_timestamp`, as the composition of the six phases in their fixed
/// order: camera, delay advance, intent resolution and push commands, move
/// commands, tank motion, sliding-block motion. The order matters: intents
/// see post-delay states, pushes and moves see pre-movement positions, and
/// motion runs after freshly started moves so the first visible frame
/// already reflects them.
pub open spec fn step_spec(s0: StateModel, us_frame_timestamp: u64, simtime: u64) -> StateModel {
    let ms = spec_ms_of_us(us_frame_timestamp);
    let s1 = camera_step(s0);
    let s2 = delay_all(s1, ms);
    let moves = move_intents(
        s2.tank_states,
        s2.tank_ids.len() as int,
        z_edge(s2),
        held_direction(s2.upkey_down, s2.downkey_down, s2.leftkey_down, s2.rightkey_down),
    );
    let s3 = push_all(s2, ms);
    let s4 = move_all(s3, moves, ms);
    let s5 = movement_all(s4, ms);
    slide_all(s5, simtime)
}

// ---------------------------------------------------------------------------
// Input ingestion, in specification
// ---------------------------------------------------------------------------

/// The effect of one input event on the edge-tracked key state: `Exit` sets
/// the exit flag, key events latch the held state of the five keys the
/// simulation acts on, and everything else (pointer events, pointer buttons)
/// is accepted and ignored.
pub open spec fn apply_event(s: StateModel, e: Event) -> StateModel {
    match e {
        Event::Exit => StateModel { exit: true, ..s },
        Event::KeyDown(Key::Z) => StateModel { zkey_down: true, ..s },
        Event::KeyDown(Key::Up) => StateModel { upkey_down: true, ..s },
        Event::KeyDown(Key::Down) => StateModel { downkey_down: true, ..s },
        Event::KeyDown(Key::Left) => StateModel { leftkey_down: true, ..s },
        Event::KeyDown(Key::Right) => StateModel { rightkey_down: true, ..s },
        Event::KeyUp(Key::Z) => StateModel { zkey_down: false, ..s },
        Event::KeyUp(Key::Up) => StateModel { upkey_down: false, ..s },
        Event::KeyUp(Key::Down) => StateModel { downkey_down: false, ..s },
        Event::KeyUp(Key::Left) => StateModel { leftkey_down: false, ..s },
        Event::KeyUp(Key::Right) => StateModel { rightkey_down: false, ..s },
        _ => s,
    }
}

/// The first `n` events applied in order.
pub open spec fn apply_events(s: StateModel, events: Seq<Event>, n: int) -> StateModel
    decreases n,
{
    if n <= 0 {
        s
    } else {
        apply_event(apply_events(s, events, n - 1), events[n - 1])
    }
}

/// The previous frame's key state latched for edge detection.
pub open spec fn latch_previous(s: StateModel) -> StateModel {
    StateModel {
        upkey_was_down: s.upkey_down,
        downkey_was_down: s.downkey_down,
        leftkey_was_down: s.leftkey_down,
        rightkey_was_down: s.rightkey_down,
        zkey_was_down: s.zkey_down,
        ..s
    }
}

/// The pre-step as a whole: latch the previous key state, then apply every
/// pending event in order.
pub open spec fn pre_step_spec(s: StateModel, events: Seq<Event>) -> StateModel {
    apply_events(latch_previous(s), events, events.len() as int)
}

/// The first grid column (or row) visible to a camera whose left (or top)
/// edge is at `cam` subpixels, clamped into the grid: tiles are 16 px.
pub open spec fn visible_lo(cam: i64, limit: usize) -> usize {
    let t = cam as int / (TILE as int);
    if t > limit {
        limit
    } else {
        t as usize
    }
}

/// One past the last grid column (or row) visible to a camera whose left
/// (or top) edge is at `cam` subpixels and whose extent is `extent`
/// subpixels, clamped into the grid: the covering range's end rounds up.
pub open spec fn visible_hi(cam: i64, extent: i64, limit: usize) -> usize {
    let t = (cam as int + extent as int + (TILE as int) - 1) / (TILE as int);
    if t > limit {
        limit
    } else {
        t as usize
    }
}

/// The starting 5 x 5 arena, row-major: a solid border, one pushable block
/// in the middle, and gaps beside it.
pub open spec fn initial_blocks() -> Seq<Option<BlockType>> {
    seq![
        Some(BlockType::Solid),
        Some(BlockType::Solid),
        Some(BlockType::Solid),
        Some(BlockType::Solid),
        Some(BlockType::Solid),
        Some(BlockType::Solid),
        None,
        None,
        None,
        Some(BlockType::Solid),
        Some(BlockType::Solid),
        None,
        Some(BlockType::Normal),
        None,
        Some(BlockType::Solid),
        Some(BlockType::Solid),
        None,
        None,
        None,
        Some(BlockType::Solid),
        Some(BlockType::Solid),
        Some(BlockType::Solid),
        Some(BlockType::Solid),
        Some(BlockType::Solid),
        Some(BlockType::Solid),
    ]
}

impl State {
    /// The structural invariant: the grid is well shaped, the parallel
    /// stores of each entity kind are index-aligned, and the camera
    /// rectangle has a non-negative corner and extents.
    pub open spec fn wf(self) -> bool {
        &&& self.static_block_types.wf()
        &&& self.tank_ids.len() == self.tank_positions.len()
        &&& self.tank_positions.len() == self.tank_directions.len()
        &&& self.tank_positions.len() == self.tank_states.len()
        &&& self.sliding_block_ids.len() == self.sliding_block_positions.len()
        &&& self.sliding_block_positions.len() == self.sliding_block_directions.len()
        &&& self.sliding_block_positions.len() == self.sliding_block_types.len()
        &&& self.camera.0 >= 0
        &&& self.camera.1 >= 0
        &&& self.camera.2 >= 0
        &&& self.camera.3 >= 0
    }

    /// The simulation at session start: the fixed 5 x 5 arena, one tank at
    /// pixel (16, 16) facing up and idle, one sliding block already in
    /// flight, the camera at the origin, and all keys released.
    pub fn new() -> (r: State)
        ensures
            r.wf(),
            !r.exit,
            !r.upkey_down && !r.downkey_down && !r.leftkey_down && !r.rightkey_down
                && !r.zkey_down,
            !r.upkey_was_down && !r.downkey_was_down && !r.leftkey_was_down
                && !r.rightkey_was_down && !r.zkey_was_down,
            r.camera == Vec4(0i64, 0i64, CAMERA_W, CAMERA_H),
            r.rem_time == 66u64,
            r.rem_tanks == 8u8,
            r.id_counter == 0u32,
            r.static_block_types.width == 5,
            r.static_block_types.height == 5,
            r.static_block_types.data@ == initial_blocks(),
            r.sliding_block_ids@ == seq![0u32],
            r.sliding_block_positions@ == seq![Vec2(0i64, (64 * PX) as i64)],
            r.sliding_block_directions@ == seq![Direction::Right],
            r.sliding_block_types@ == seq![BlockType::Normal],
            r.tank_ids@ == seq![0u32],
            r.tank_positions@ == seq![Vec2((16 * PX) as i64, (16 * PX) as i64)],
            r.tank_directions@ == seq![Direction::Up],
            r.tank_states@ == seq![TankState::Idle],
    {
        let mut data: Vec<Option<BlockType>> = Vec::new();
        data.push(Some(BlockType::Solid));
        data.push(Some(BlockType::Solid));
        data.push(Some(BlockType::Solid));
        data.push(Some(BlockType::Solid));
        data.push(Some(BlockType::Solid));
        data.push(Some(BlockType::Solid));
        data.push(None);
        data.push(None);
        data.push(None);
        data.push(Some(BlockType::Solid));
        data.push(Some(BlockType::Solid));
        data.push(None);
        data.push(Some(BlockType::Normal));
        data.push(None);
        data.push(Some(BlockType::Solid));
        data.push(Some(BlockType::Solid));
        data.push(None);
        data.push(None);
        data.push(None);
        data.push(Some(BlockType::Solid));
        data.push(Some(BlockType::Solid));
        data.push(Some(BlockType::Solid));
        data.push(Some(BlockType::Solid));
        data.push(Some(BlockType::Solid));
        data.push(Some(BlockType::Solid));
        proof {
            assert(data@ =~= initial_blocks());
        }
        let static_block_types = Array2D::from_box(5, 5, data);

        let mut sliding_block_ids: Vec<u32> = Vec::new();
        sliding_block_ids.push(0);
        let mut sliding_block_positions: Vec<Vec2<i64>> = Vec::new();
        sliding_block_positions.push(Vec2(0, 64 * PX));
        let mut sliding_block_directions: Vec<Direction> = Vec::new();
        sliding_block_directions.push(Direction::Right);
        let mut sliding_block_types: Vec<BlockType> = Vec::new();
        sliding_block_types.push(BlockType::Normal);

        let mut tank_ids: Vec<u32> = Vec::new();
        tank_ids.push(0);
        let mut tank_positions: Vec<Vec2<i64>> = Vec::new();
        tank_positions.push(Vec2(16 * PX, 16 * PX));
        let mut tank_directions: Vec<Direction> = Vec::new();
        tank_directions.push(Direction::Up);
        let mut tank_states: Vec<TankState> = Vec::new();
        tank_states.push(TankState::Idle);

        proof {
            assert(sliding_block_ids@ =~= seq![0u32]);
            assert(sliding_block_positions@ =~= seq![Vec2(0i64, (64 * PX) as i64)]);
            assert(sliding_block_directions@ =~= seq![Direction::Right]);
            assert(sliding_block_types@ =~= seq![BlockType::Normal]);
            assert(tank_ids@ =~= seq![0u32]);
            assert(tank_positions@ =~= seq![Vec2((16 * PX) as i64, (16 * PX) as i64)]);
            assert(tank_directions@ =~= seq![Direction::Up]);
            assert(tank_states@ =~= seq![TankState::Idle]);
        }

        State {
            exit: false,
            upkey_down: false,
            downkey_down: false,
            leftkey_down: false,
            rightkey_down: false,
            zkey_down: false,
            upkey_was_down: false,
            downkey_was_down: false,
            leftkey_was_down: false,
            rightkey_was_down: false,
            zkey_was_down: false,
            camera: Vec4(0, 0, CAMERA_W, CAMERA_H),
            rem_time: 66,
            rem_tanks: 8,
            id_counter: 0,
            static_block_types,
            sliding_block_ids,
            sliding_block_positions,
            sliding_block_directions,
            sliding_block_types,
            tank_ids,
            tank_positions,
            tank_directions,
            tank_states,
        }
    }

    /// Whether the simulation observed an `Exit` event.
    pub fn exit(&self) -> (r: bool)
        ensures
            r == self.exit,
    {
        self.exit
    }

    /// Folds one input event into the edge-tracked key state.
    #[verifier::rlimit(100)]
    fn apply_input_event(&mut self, e: Event)
        ensures
            final(self)@ == apply_event(old(self)@, e),
            final(self).wf() == old(self).wf(),
    {
        match e {
            Event::Exit => {
                self.exit = true;
            },
            Event::KeyDown(Key::Z) => {
                self.zkey_down = true;
            },
            Event::KeyDown(Key::Up) => {
                self.upkey_down = true;
            },
            Event::KeyDown(Key::Down) => {
                self.downkey_down = true;
            },
            Event::KeyDown(Key::Left) => {
                self.leftkey_down = true;
            },
            Event::KeyDown(Key::Right) => {
                self.rightkey_down = true;
            },
            Event::KeyUp(Key::Z) => {
                self.zkey_down = false;
            },
            Event::KeyUp(Key::Up) => {
                self.upkey_down = false;
            },
            Event::KeyUp(Key::Down) => {
                self.downkey_down = false;
            },
            Event::KeyUp(Key::Left) => {
                self.leftkey_down = false;
            },
            Event::KeyUp(Key::Right) => {
                self.rightkey_down = false;
            },
            _ => {},
        }
    }

    /// Drains this frame's pending input events into the edge-tracked key
    /// state: the previous frame's key state is latched first, then every
    /// event applies in order.
    pub fn pre_step(&mut self, _us_frame_timestamp: u64, events: &Vec<Event>)
        ensures
            final(self)@ == pre_step_spec(old(self)@, events@),
            old(self).wf() ==> final(self).wf(),
    {
        self.upkey_was_down = self.upkey_down;
        self.downkey_was_down = self.downkey_down;
        self.rightkey_was_down = self.rightkey_down;
        self.leftkey_was_down = self.leftkey_down;
        self.zkey_was_down = self.zkey_down;
        let ghost latched = self@;

        let mut k: usize = 0;
        while k < events.len()
            invariant
                k <= events.len(),
                self@ == apply_events(latched, events@, k as int),
                latched == latch_previous(old(self)@),
                self.wf() == old(self).wf(),
            decreases events.len() - k,
        {
            let e = events[k];
            self.apply_input_event(e);
            k += 1;
        }
    }

    /// The end-of-frame bookkeeping hook; reserved, currently a no-op.
    pub fn post_step(&mut self, _us_timestamp: u64)
        ensures
            *final(self) == *old(self),
    {
    }

    /// One simulation step covering `simtime` microseconds at frame
    /// timestamp `us_frame_timestamp`. The phases run in their fixed order:
    /// camera re-centering on the tracked tank, tank delay advance, intent
    /// resolution, push commands, move commands, tank motion interpolation,
    /// sliding-block motion. The id-counter and store-capacity headroom in
    /// the preconditions keep the run free of overflow: at most one block
    /// can spawn per tank per step.
    #[verifier::rlimit(100)]
    pub fn step(&mut self, us_frame_timestamp: u64, simtime: u64)
        requires
            old(self).wf(),
            old(self).id_counter + old(self).tank_ids.len() <= u32::MAX,
            old(self).sliding_block_ids.len() + old(self).tank_ids.len() <= usize::MAX,
        ensures
            final(self).wf(),
            final(self)@ == step_spec(old(self)@, us_frame_timestamp, simtime),
            final(self).tank_ids@ == old(self).tank_ids@,
            final(self).tank_positions.len() == old(self).tank_positions.len(),
            final(self).id_counter <= old(self).id_counter + old(self).tank_ids.len(),
            final(self).sliding_block_ids.len() <= old(self).sliding_block_ids.len() + old(
                self,
            ).tank_ids.len(),
    {
        let ghost m0 = self@;
        let ghost ms = spec_ms_of_us(us_frame_timestamp);

        // camera follows the tracked tank, clamped to a non-negative corner
        let p = if self.tank_positions.len() > 0 {
            self.tank_positions[0]
        } else {
            Vec2(0, 0)
        };
        let cx0 = narrow64(p.0 as i128 - ((self.camera.2 / 2) as i128));
        let cy0 = narrow64(p.1 as i128 - ((self.camera.3 / 2) as i128));
        let cx: i64 = if cx0 < 0 {
            0
        } else {
            cx0
        };
        let cy: i64 = if cy0 < 0 {
            0
        } else {
            cy0
        };
        self.camera = Vec4(cx, cy, self.camera.2, self.camera.3);
        let ghost m1 = camera_step(m0);
        proof {
            assert(self@ == m1);
        }

        // tank delay advance
        let tanks = self.tank_ids.len();
        tank_delay(tanks, us_frame_timestamp, &mut self.tank_states);
        let ghost m2 = delay_all(m1, ms);
        proof {
            assert(self.tank_states@ =~= m2.tank_states);
            assert(self@ == m2);
        }

        // intent resolution: push on the action key's rising edge
        let z = self.zkey_down && !self.zkey_was_down;
        let (push, mov) = tank_ai(
            tanks,
            &self.tank_states,
            z,
            self.upkey_down,
            self.downkey_down,
            self.leftkey_down,
            self.rightkey_down,
        );
        let ghost moves = move_intents(
            m2.tank_states,
            m2.tank_ids.len() as int,
            z_edge(m2),
            held_direction(m2.upkey_down, m2.downkey_down, m2.leftkey_down, m2.rightkey_down),
        );
        proof {
            lemma_push_intents_bounds(m2.tank_states, tanks as int, z_edge(m2));
            lemma_move_intents_bounds(
                m2.tank_states,
                tanks as int,
                z_edge(m2),
                held_direction(m2.upkey_down, m2.downkey_down, m2.leftkey_down, m2.rightkey_down),
            );
            assert(mov@ == moves);
        }

        // push commands
        tank_push_command(
            &push,
            us_frame_timestamp,
            &mut self.static_block_types,
            &self.tank_positions,
            &self.tank_directions,
            &mut self.tank_states,
            &mut self.id_counter,
            &mut self.sliding_block_ids,
            &mut self.sliding_block_positions,
            &mut self.sliding_block_directions,
            &mut self.sliding_block_types,
        );
        let ghost m3 = push_all(m2, ms);
        proof {
            assert(self@ == m3);
        }

        // move commands, decided before the pushes ran
        tank_move_command(
            &mov,
            us_frame_timestamp,
            &self.tank_positions,
            &mut self.tank_directions,
            &mut self.tank_states,
            &self.static_block_types,
        );
        let ghost m4 = move_all(m3, moves, ms);
        proof {
            assert(self@ == m4);
        }

        // tank motion interpolation
        tank_movement(
            tanks,
            us_frame_timestamp,
            &mut self.tank_positions,
            &self.tank_directions,
            &mut self.tank_states,
        );
        let ghost m5 = movement_all(m4, ms);
        proof {
            assert(self.tank_positions@ =~= m5.tank_positions);
            assert(self.tank_states@ =~= m5.tank_states);
            assert(self@ == m5);
        }

        // sliding-block motion
        let slides = self.sliding_block_ids.len();
        sliding_block_movement(
            slides,
            simtime,
            &mut self.sliding_block_positions,
            &self.sliding_block_directions,
        );
        let ghost m6 = slide_all(m5, simtime);
        proof {
            assert(self.sliding_block_positions@ =~= m6.slide_positions);
            assert(self@ == m6);
            assert(m6 == step_spec(m0, us_frame_timestamp, simtime));
        }
    }

    /// Builds this frame's render snapshot: an independent value with the
    /// exit flag, the display pair, the camera, the visible sub-grid of
    /// static blocks (clamped to the grid and re-based to a subpixel
    /// offset), and copies of the entity stores.
    pub fn render_prep(&self) -> (r: RenderState)
        requires
            self.wf(),
        ensures
            r.exit == self.exit,
            r.time == (self.rem_time % 256) as u8,
            r.remaining_tanks == self.rem_tanks,
            r.camera == self.camera,
            r.static_blocks_offset == Vec2(
                sat64((self.camera.0 as int / (TILE as int)) * (TILE as int)),
                sat64((self.camera.1 as int / (TILE as int)) * (TILE as int)),
            ),
            r.static_block_types.wf(),
            r.static_block_types.width == ({
                let x1 = visible_lo(self.camera.0, self.static_block_types.width);
                let x2 = visible_hi(self.camera.0, self.camera.2, self.static_block_types.width);
                if x2 > x1 {
                    x2 - x1
                } else {
                    0
                }
            }),
            r.static_block_types.height == ({
                let y1 = visible_lo(self.camera.1, self.static_block_types.height);
                let y2 = visible_hi(self.camera.1, self.camera.3, self.static_block_types.height);
                if y2 > y1 {
                    y2 - y1
                } else {
                    0
                }
            }),
            forall|i: int, j: int|
                0 <= i < r.static_block_types.width && 0 <= j < r.static_block_types.height
                    ==> #[trigger] r.static_block_types.cell(i, j) == self.static_block_types.cell(
                    visible_lo(self.camera.0, self.static_block_types.width) + i,
                    visible_lo(self.camera.1, self.static_block_types.height) + j,
                ),
            r.sliding_block_positions@ == self.sliding_block_positions@,
            r.sliding_block_types@ == self.sliding_block_types@,
            r.tank_positions@ == self.tank_positions@,
            r.tank_directions@ == self.tank_directions@,
            r.tank_states@ == self.tank_states@,
    {
        let w = self.static_block_types.get_width();
        let h = self.static_block_types.get_height();

        // visible tile range, clamped into the grid
        let t1x = self.camera.0 / TILE;
        let t1y = self.camera.1 / TILE;
        let x1: usize = if (t1x as u64) > (w as u64) {
            w
        } else {
            t1x as usize
        };
        let y1: usize = if (t1y as u64) > (h as u64) {
            h
        } else {
            t1y as usize
        };
        let t2x = (self.camera.0 as i128 + self.camera.2 as i128 + (TILE - 1) as i128) / (
        TILE as i128);
        let t2y = (self.camera.1 as i128 + self.camera.3 as i128 + (TILE - 1) as i128) / (
        TILE as i128);
        let x2: usize = if t2x > (w as i128) {
            w
        } else {
            t2x as usize
        };
        let y2: usize = if t2y > (h as i128) {
            h
        } else {
            t2y as usize
        };
        let static_block_types = self.static_block_types.clone_sub(x1..x2, y1..y2);

        let offset_x = narrow64((t1x as i128) * (TILE as i128));
        let offset_y = narrow64((t1y as i128) * (TILE as i128));

        RenderState {
            exit: self.exit,
            time: (self.rem_time % 256) as u8,
            remaining_tanks: self.rem_tanks,
            camera: self.camera,
            static_blocks_offset: Vec2(offset_x, offset_y),
            static_block_types,
            sliding_block_positions: copy_vec(&self.sliding_block_positions),
            sliding_block_types: copy_vec(&self.sliding_block_types),
            tank_positions: copy_vec(&self.tank_positions),
            tank_directions: copy_vec(&self.tank_directions),
            tank_states: copy_vec(&self.tank_states),
        }
    }
}

} // verus!

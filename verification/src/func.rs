use crate::array2d::Array2D;
use crate::common::{narrow64, sat64, unit_times, Direction, Vec2, PX, TILE};
use crate::misc::{BlockType, TankState};
use vstd::prelude::*;

verus! {

/// Cooldown, in milliseconds, that a resolved push puts a tank into.
pub const PUSH_DELAY_MS: u16 = 1000;

/// Duration, in milliseconds, of one tank move.
pub const MOVE_DURATION_MS: u16 = 400;

/// Distance, in subpixels, that one tank move covers.
pub const MOVE_STEP: i64 = 8_000_000;

// ---------------------------------------------------------------------------
// The wrapping millisecond clock
// ---------------------------------------------------------------------------

/// The milliseconds of a microsecond timestamp, on the wrapping 16-bit
/// millisecond clock that tank timers run on.
pub open spec fn spec_ms_of_us(us: u64) -> u16 {
    ((us / 1000) % 0x10000) as u16
}

/// The wrapping 16-bit millisecond reading of a microsecond timestamp.
pub fn ms_of_us(us: u64) -> (r: u16)
    ensures
        r == spec_ms_of_us(us),
{
    ((us / 1000) % 0x10000) as u16
}

/// Wraparound-safe elapsed time on the 16-bit millisecond clock:
/// `(now_ms - timestamp) mod 2^16`. A wrap of the counter between
/// `timestamp` and `now_ms` does not corrupt the reading as long as the true
/// elapsed time is below 2^16 milliseconds.
pub open spec fn spec_elapsed(now_ms: u16, timestamp: u16) -> u16 {
    if now_ms - timestamp < 0 {
        (now_ms - timestamp + 0x10000) as u16
    } else {
        (now_ms - timestamp) as u16
    }
}

/// Elapsed time on the wrapping 16-bit millisecond clock.
pub fn elapsed_ms(now_ms: u16, timestamp: u16) -> (r: u16)
    ensures
        r == spec_elapsed(now_ms, timestamp),
{
    now_ms.wrapping_sub(timestamp)
}

// ---------------------------------------------------------------------------
// Delay advance
// ---------------------------------------------------------------------------

/// One tank's delay bookkeeping: a `Delayed` tank whose cooldown has elapsed
/// becomes `Idle`; any other state is kept.
pub open spec fn delay_step(s: TankState, now_ms: u16) -> TankState {
    match s {
        TankState::Delayed { timestamp, duration } => {
            if spec_elapsed(now_ms, timestamp) >= duration {
                TankState::Idle
            } else {
                s
            }
        },
        _ => s,
    }
}

/// Advances the delay timers of the first `tanks` tanks: every `Delayed`
/// tank whose cooldown has elapsed at `us_timestamp` becomes `Idle`.
pub fn tank_delay(tanks: usize, us_timestamp: u64, tank_states: &mut Vec<TankState>)
    requires
        tanks <= old(tank_states).len(),
    ensures
        final(tank_states).len() == old(tank_states).len(),
        forall|i: int|
            0 <= i < tanks ==> final(tank_states)[i] == delay_step(
                old(tank_states)[i],
                spec_ms_of_us(us_timestamp),
            ),
        forall|i: int|
            tanks <= i < old(tank_states).len() ==> final(tank_states)[i] == old(tank_states)[i],
{
    let ms_timestamp = ms_of_us(us_timestamp);
    let mut index: usize = 0;
    while index < tanks
        invariant
            index <= tanks <= tank_states.len() == old(tank_states).len(),
            forall|i: int|
                0 <= i < index ==> tank_states[i] == delay_step(
                    old(tank_states)[i],
                    spec_ms_of_us(us_timestamp),
                ),
            forall|i: int| index <= i < tank_states.len() ==> tank_states[i] == old(tank_states)[i],
            ms_timestamp == spec_ms_of_us(us_timestamp),
        decreases tanks - index,
    {
        match tank_states[index] {
            TankState::Delayed { timestamp, duration } => {
                let diff = elapsed_ms(ms_timestamp, timestamp);
                if diff >= duration {
                    tank_states[index] = TankState::Idle;
                }
            },
            _ => {},
        }
        index += 1;
    }
}

// ---------------------------------------------------------------------------
// Intent resolution
// ---------------------------------------------------------------------------

/// The move direction chosen from the held directional keys, in the fixed
/// priority Right > Left > Up > Down.
pub open spec fn held_direction(up: bool, down: bool, left: bool, right: bool) -> Option<
    Direction,
> {
    if right {
        Some(Direction::Right)
    } else if left {
        Some(Direction::Left)
    } else if up {
        Some(Direction::Up)
    } else if down {
        Some(Direction::Down)
    } else {
        None
    }
}

/// The ascending indices below `n` of `Idle` tanks when the action key shows
/// a rising edge; empty otherwise. These tanks emit a push intent.
pub open spec fn push_intents(states: Seq<TankState>, n: int, push: bool) -> Seq<usize>
    decreases n,
{
    if n <= 0 {
        Seq::empty()
    } else {
        let rest = push_intents(states, n - 1, push);
        if states[n - 1] is Idle && push {
            rest.push((n - 1) as usize)
        } else {
            rest
        }
    }
}

/// The ascending `(index, direction)` pairs below `n` of `Idle` tanks when
/// the action key shows no rising edge and a directional key is held. These
/// tanks emit a move intent. Push takes precedence over move.
pub open spec fn move_intents(
    states: Seq<TankState>,
    n: int,
    push: bool,
    dir: Option<Direction>,
) -> Seq<(usize, Direction)>
    decreases n,
{
    if n <= 0 {
        Seq::empty()
    } else {
        let rest = move_intents(states, n - 1, push, dir);
        if states[n - 1] is Idle && !push && dir is Some {
            rest.push((((n - 1) as usize), dir->0))
        } else {
            rest
        }
    }
}

/// Push intents stay inside the roster: there are at most `n` of them and
/// each names a tank index below `n`.
pub proof fn lemma_push_intents_bounds(states: Seq<TankState>, n: int, push: bool)
    ensures
        push_intents(states, n, push).len() <= (if n >= 0 {
            n
        } else {
            0
        }),
        forall|k: int|
            0 <= k < push_intents(states, n, push).len() ==> #[trigger] push_intents(
                states,
                n,
                push,
            )[k] < n,
    decreases n,
{
    if n > 0 {
        lemma_push_intents_bounds(states, n - 1, push);
    }
}

/// Move intents stay inside the roster: there are at most `n` of them and
/// each names a tank index below `n`.
pub proof fn lemma_move_intents_bounds(
    states: Seq<TankState>,
    n: int,
    push: bool,
    dir: Option<Direction>,
)
    ensures
        move_intents(states, n, push, dir).len() <= (if n >= 0 {
            n
        } else {
            0
        }),
        forall|k: int|
            0 <= k < move_intents(states, n, push, dir).len() ==> #[trigger] move_intents(
                states,
                n,
                push,
                dir,
            )[k].0 < n,
    decreases n,
{
    if n > 0 {
        lemma_move_intents_bounds(states, n - 1, push, dir);
    }
}

/// Decides, for every currently `Idle` tank, whether it intends to push
/// (on the action key's rising edge, passed in `zkey_down`) or to move (on a
/// held directional key, Right > Left > Up > Down); push takes precedence.
/// Returns the push intents and the move intents, each in ascending index
/// order. Tanks with no active input emit nothing.
pub fn tank_ai(
    tanks: usize,
    tank_states: &Vec<TankState>,
    zkey_down: bool,
    upkey_down: bool,
    downkey_down: bool,
    leftkey_down: bool,
    rightkey_down: bool,
) -> (r: (Vec<usize>, Vec<(usize, Direction)>))
    requires
        tanks <= tank_states.len(),
    ensures
        r.0@ == push_intents(tank_states@, tanks as int, zkey_down),
        r.1@ == move_intents(
            tank_states@,
            tanks as int,
            zkey_down,
            held_direction(upkey_down, downkey_down, leftkey_down, rightkey_down),
        ),
{
    let mut push: Vec<usize> = Vec::new();
    let mut mov: Vec<(usize, Direction)> = Vec::new();

    let mdir: Option<Direction> = if rightkey_down {
        Some(Direction::Right)
    } else if leftkey_down {
        Some(Direction::Left)
    } else if upkey_down {
        Some(Direction::Up)
    } else if downkey_down {
        Some(Direction::Down)
    } else {
        None
    };

    let mut index: usize = 0;
    while index < tanks
        invariant
            index <= tanks <= tank_states.len(),
            mdir == held_direction(upkey_down, downkey_down, leftkey_down, rightkey_down),
            push@ == push_intents(tank_states@, index as int, zkey_down),
            mov@ == move_intents(tank_states@, index as int, zkey_down, mdir),
        decreases tanks - index,
    {
        match tank_states[index] {
            TankState::Idle => {
                if zkey_down {
                    push.push(index);
                } else {
                    match mdir {
                        Some(dir) => {
                            mov.push((index, dir));
                        },
                        None => {},
                    }
                }
            },
            _ => {},
        }
        index += 1;
    }
    (push, mov)
}

// ---------------------------------------------------------------------------
// Push and move targeting
// ---------------------------------------------------------------------------

/// The push/move target point: 9 px ahead of the center of the tank's 8 px
/// body, with coordinates saturating at the numeric range edges exactly as
/// the executable arithmetic does.
pub open spec fn target_point(pos: Vec2<i64>, dir: Direction) -> Vec2<i64> {
    let u = dir.spec_unit();
    Vec2(sat64(pos.0 + 8 * PX + u.0 * 9 * PX), sat64(pos.1 + 8 * PX + u.1 * 9 * PX))
}

/// The grid tile that a coordinate falls in: tiles are 16 px wide, and
/// negative coordinates clamp to tile zero.
pub open spec fn tile_of(c: i64) -> u64 {
    if c < 0 {
        0u64
    } else {
        (c / TILE) as u64
    }
}

/// The grid tile that a coordinate falls in.
pub fn tile_of_exec(c: i64) -> (r: u64)
    ensures
        r == tile_of(c),
{
    if c < 0 {
        0
    } else {
        (c / TILE) as u64
    }
}

/// The first candidate tile of a push or move: the target point shifted one
/// pixel along the tangent axis (the facing direction's components swapped).
pub open spec fn candidate_a(pos: Vec2<i64>, dir: Direction) -> (u64, u64) {
    let t = target_point(pos, dir);
    let u = dir.spec_unit();
    (tile_of(sat64(t.0 + u.1 * PX)), tile_of(sat64(t.1 + u.0 * PX)))
}

/// The second candidate tile: the target point shifted one pixel the other
/// way along the tangent axis.
pub open spec fn candidate_b(pos: Vec2<i64>, dir: Direction) -> (u64, u64) {
    let t = target_point(pos, dir);
    let u = dir.spec_unit();
    (tile_of(sat64(t.0 - u.1 * PX)), tile_of(sat64(t.1 - u.0 * PX)))
}

/// Both candidate tiles of a push or move from `pos` facing `dir`.
pub fn candidates(pos: Vec2<i64>, dir: Direction) -> (r: ((u64, u64), (u64, u64)))
    ensures
        r.0 == candidate_a(pos, dir),
        r.1 == candidate_b(pos, dir),
{
    let u = dir.vec2i();
    let tx = narrow64(pos.0 as i128 + (8 * PX) as i128 + unit_times(u.0, (9 * PX) as i128));
    let ty = narrow64(pos.1 as i128 + (8 * PX) as i128 + unit_times(u.1, (9 * PX) as i128));
    let ax = narrow64(tx as i128 + unit_times(u.1, PX as i128));
    let ay = narrow64(ty as i128 + unit_times(u.0, PX as i128));
    let bx = narrow64(tx as i128 - unit_times(u.1, PX as i128));
    let by = narrow64(ty as i128 - unit_times(u.0, PX as i128));
    ((tile_of_exec(ax), tile_of_exec(ay)), (tile_of_exec(bx), tile_of_exec(by)))
}

/// The cells of the static-block grid, as specifications see them.
pub ghost struct GridModel {
    pub width: int,
    pub height: int,
    pub cells: Seq<Option<BlockType>>,
}

/// The specification view of a static-block grid.
pub open spec fn grid_of(g: Array2D<Option<BlockType>>) -> GridModel {
    GridModel { width: g.width as int, height: g.height as int, cells: g.data@ }
}

/// The static block in tile `c`: absence when the tile lies outside the
/// grid or is empty.
pub open spec fn block_at(g: GridModel, c: (u64, u64)) -> Option<BlockType> {
    if c.0 < g.width && c.1 < g.height {
        g.cells[c.0 + c.1 * g.width]
    } else {
        None
    }
}

/// Looks a candidate tile up in the static grid; tiles outside the grid
/// read as empty.
pub fn block_lookup(grid: &Array2D<Option<BlockType>>, cx: u64, cy: u64) -> (r: Option<BlockType>)
    requires
        grid.wf(),
    ensures
        r == block_at(grid_of(*grid), (cx, cy)),
{
    if cx < grid.width as u64 && cy < grid.height as u64 {
        match grid.coord_get(cx as usize, cy as usize) {
            Some(b) => *b,
            None => None,
        }
    } else {
        None
    }
}

/// The outcome of one push attempt from `pos` facing `dir`: the tile whose
/// block leaves the grid together with that block, or absence when the
/// two-candidate rule rejects the push. A push is rejected when both
/// candidates are occupied or both are empty, when an occupied candidate
/// holds a `Solid` block, and when both candidates fall on one empty tile.
pub open spec fn push_decision(g: GridModel, pos: Vec2<i64>, dir: Direction) -> Option<
    ((u64, u64), BlockType),
> {
    let ca = candidate_a(pos, dir);
    let cb = candidate_b(pos, dir);
    let b1 = block_at(g, ca);
    let b2 = if ca == cb {
        None
    } else {
        block_at(g, cb)
    };
    match (b1, b2) {
        (None, None) => None,
        (Some(_), Some(_)) => None,
        (None, Some(b)) => if b is Solid {
            None
        } else {
            Some((cb, b))
        },
        (Some(b), None) => if b is Solid {
            None
        } else {
            Some((ca, b))
        },
    }
}

/// Resolves one push attempt against the static grid.
pub fn push_resolve(grid: &Array2D<Option<BlockType>>, pos: Vec2<i64>, dir: Direction) -> (r:
    Option<((u64, u64), BlockType)>)
    requires
        grid.wf(),
    ensures
        r == push_decision(grid_of(*grid), pos, dir),
{
    let (ca, cb) = candidates(pos, dir);
    let b1 = block_lookup(grid, ca.0, ca.1);
    let b2 = if ca.0 == cb.0 && ca.1 == cb.1 {
        None
    } else {
        block_lookup(grid, cb.0, cb.1)
    };
    match (b1, b2) {
        (None, None) => None,
        (Some(_), Some(_)) => None,
        (None, Some(b)) => match b {
            BlockType::Solid => None,
            _ => Some((cb, b)),
        },
        (Some(b), None) => match b {
            BlockType::Solid => None,
            _ => Some((ca, b)),
        },
    }
}

/// Whether a move from `pos` in `dir` is unobstructed: both candidate tiles
/// must be empty. A single adjacent block anywhere along the path blocks the
/// move; candidates falling on one tile are simply read twice.
pub open spec fn move_allowed(g: GridModel, pos: Vec2<i64>, dir: Direction) -> bool {
    block_at(g, candidate_a(pos, dir)) is None && block_at(g, candidate_b(pos, dir)) is None
}

/// Checks a move attempt against the static grid.
pub fn move_check(grid: &Array2D<Option<BlockType>>, pos: Vec2<i64>, dir: Direction) -> (r: bool)
    requires
        grid.wf(),
    ensures
        r == move_allowed(grid_of(*grid), pos, dir),
{
    let (ca, cb) = candidates(pos, dir);
    let b1 = block_lookup(grid, ca.0, ca.1);
    let b2 = block_lookup(grid, cb.0, cb.1);
    match (b1, b2) {
        (None, None) => true,
        _ => false,
    }
}

// ---------------------------------------------------------------------------
// Push commands
// ---------------------------------------------------------------------------

/// The parts of the simulation that push commands change, bundled for
/// specification: the grid, the tank states, the id counter, and the
/// sliding-block stores.
pub ghost struct PushState {
    pub grid: GridModel,
    pub tank_states: Seq<TankState>,
    pub id_counter: int,
    pub slide_ids: Seq<u32>,
    pub slide_positions: Seq<Vec2<i64>>,
    pub slide_directions: Seq<Direction>,
    pub slide_types: Seq<BlockType>,
}

/// One tank's push attempt: on a resolved push the chosen block leaves the
/// grid, a sliding block with the next id spawns at that tile's top-left
/// corner travelling in the tank's facing direction, and the tank starts a
/// 1000 ms cooldown; on a rejected push nothing changes.
pub open spec fn push_step(
    s: PushState,
    pos: Vec2<i64>,
    dir: Direction,
    index: int,
    now_ms: u16,
) -> PushState {
    match push_decision(s.grid, pos, dir) {
        None => s,
        Some((c, b)) => PushState {
            grid: GridModel {
                cells: s.grid.cells.update(c.0 + c.1 * s.grid.width, None),
                ..s.grid
            },
            tank_states: s.tank_states.update(
                index,
                TankState::Delayed { timestamp: now_ms, duration: PUSH_DELAY_MS },
            ),
            id_counter: s.id_counter + 1,
            slide_ids: s.slide_ids.push(s.id_counter as u32),
            slide_positions: s.slide_positions.push(
                Vec2(sat64(c.0 * TILE), sat64(c.1 * TILE)),
            ),
            slide_directions: s.slide_directions.push(dir),
            slide_types: s.slide_types.push(b),
        },
    }
}

/// Push commands applied in order: each intent acts on the state the
/// previous ones left, so an earlier push can consume the block a later one
/// targets.
pub open spec fn push_fold(
    s: PushState,
    positions: Seq<Vec2<i64>>,
    dirs: Seq<Direction>,
    list: Seq<usize>,
    now_ms: u16,
) -> PushState
    decreases list.len(),
{
    if list.len() == 0 {
        s
    } else {
        push_fold(
            push_step(s, positions[list[0] as int], dirs[list[0] as int], list[0] as int, now_ms),
            positions,
            dirs,
            list.drop_first(),
            now_ms,
        )
    }
}

/// Carries out the push intents in order. For each pushing tank, the
/// two-candidate rule picks at most one tile: that tile's block is removed
/// from the static grid, a sliding block with a fresh monotonic id spawns at
/// the tile's top-left corner with the tank's facing direction and the
/// block's type, and the tank enters a 1000 ms cooldown. A rejected push
/// changes nothing for that tank.
pub fn tank_push_command(
    push: &Vec<usize>,
    us_timestamp: u64,
    static_block_types: &mut Array2D<Option<BlockType>>,
    tank_positions: &Vec<Vec2<i64>>,
    tank_directions: &Vec<Direction>,
    tank_states: &mut Vec<TankState>,
    id_counter: &mut u32,
    sliding_block_ids: &mut Vec<u32>,
    sliding_block_positions: &mut Vec<Vec2<i64>>,
    sliding_block_directions: &mut Vec<Direction>,
    sliding_block_types: &mut Vec<BlockType>,
)
    requires
        old(static_block_types).wf(),
        forall|k: int|
            0 <= k < push.len() ==> #[trigger] push[k] < tank_positions.len() && push[k]
                < tank_directions.len() && push[k] < old(tank_states).len(),
        *old(id_counter) + push.len() <= u32::MAX,
        old(sliding_block_ids).len() + push.len() <= usize::MAX,
        old(sliding_block_positions).len() == old(sliding_block_ids).len(),
        old(sliding_block_directions).len() == old(sliding_block_ids).len(),
        old(sliding_block_types).len() == old(sliding_block_ids).len(),
    ensures
        final(static_block_types).wf(),
        final(static_block_types).width == old(static_block_types).width,
        final(static_block_types).height == old(static_block_types).height,
        final(tank_states).len() == old(tank_states).len(),
        final(sliding_block_positions).len() == final(sliding_block_ids).len(),
        final(sliding_block_directions).len() == final(sliding_block_ids).len(),
        final(sliding_block_types).len() == final(sliding_block_ids).len(),
        old(sliding_block_ids).len() <= final(sliding_block_ids).len() <= old(
            sliding_block_ids,
        ).len() + push.len(),
        *old(id_counter) <= *final(id_counter) <= *old(id_counter) + push.len(),
        (PushState {
            grid: grid_of(*final(static_block_types)),
            tank_states: final(tank_states)@,
            id_counter: *final(id_counter) as int,
            slide_ids: final(sliding_block_ids)@,
            slide_positions: final(sliding_block_positions)@,
            slide_directions: final(sliding_block_directions)@,
            slide_types: final(sliding_block_types)@,
        }) == push_fold(
            PushState {
                grid: grid_of(*old(static_block_types)),
                tank_states: old(tank_states)@,
                id_counter: *old(id_counter) as int,
                slide_ids: old(sliding_block_ids)@,
                slide_positions: old(sliding_block_positions)@,
                slide_directions: old(sliding_block_directions)@,
                slide_types: old(sliding_block_types)@,
            },
            tank_positions@,
            tank_directions@,
            push@,
            spec_ms_of_us(us_timestamp),
        ),
{
    let ghost ms = spec_ms_of_us(us_timestamp);
    let ghost init = PushState {
        grid: grid_of(*static_block_types),
        tank_states: tank_states@,
        id_counter: *id_counter as int,
        slide_ids: sliding_block_ids@,
        slide_positions: sliding_block_positions@,
        slide_directions: sliding_block_directions@,
        slide_types: sliding_block_types@,
    };
    let ms_timestamp = ms_of_us(us_timestamp);
    let base = sliding_block_ids.len();
    proof {
        assert(push@.skip(0) =~= push@);
    }
    let mut k: usize = 0;
    while k < push.len()
        invariant
            k <= push.len(),
            static_block_types.wf(),
            static_block_types.width == old(static_block_types).width,
            static_block_types.height == old(static_block_types).height,
            tank_states.len() == old(tank_states).len(),
            forall|m: int|
                0 <= m < push.len() ==> #[trigger] push[m] < tank_positions.len() && push[m]
                    < tank_directions.len() && push[m] < old(tank_states).len(),
            *old(id_counter) + push.len() <= u32::MAX,
            *old(id_counter) <= *id_counter,
            *id_counter as int <= *old(id_counter) + k,
            base == old(sliding_block_ids).len(),
            base + push.len() <= usize::MAX,
            base <= sliding_block_ids.len() <= base + k,
            sliding_block_positions.len() == sliding_block_ids.len(),
            sliding_block_directions.len() == sliding_block_ids.len(),
            sliding_block_types.len() == sliding_block_ids.len(),
            ms_timestamp == ms,
            init == (PushState {
                grid: grid_of(*old(static_block_types)),
                tank_states: old(tank_states)@,
                id_counter: *old(id_counter) as int,
                slide_ids: old(sliding_block_ids)@,
                slide_positions: old(sliding_block_positions)@,
                slide_directions: old(sliding_block_directions)@,
                slide_types: old(sliding_block_types)@,
            }),
            push_fold(init, tank_positions@, tank_directions@, push@, ms) == push_fold(
                PushState {
                    grid: grid_of(*static_block_types),
                    tank_states: tank_states@,
                    id_counter: *id_counter as int,
                    slide_ids: sliding_block_ids@,
                    slide_positions: sliding_block_positions@,
                    slide_directions: sliding_block_directions@,
                    slide_types: sliding_block_types@,
                },
                tank_positions@,
                tank_directions@,
                push@.skip(k as int),
                ms,
            ),
        decreases push.len() - k,
    {
        let ghost cur = PushState {
            grid: grid_of(*static_block_types),
            tank_states: tank_states@,
            id_counter: *id_counter as int,
            slide_ids: sliding_block_ids@,
            slide_positions: sliding_block_positions@,
            slide_directions: sliding_block_directions@,
            slide_types: sliding_block_types@,
        };
        let index = push[k];
        let pos = tank_positions[index];
        let dir = tank_directions[index];
        match push_resolve(static_block_types, pos, dir) {
            None => {},
            Some((c, b)) => {
                let id = *id_counter;
                *id_counter = id + 1;
                sliding_block_ids.push(id);
                let sx = narrow64((c.0 as i128) * (TILE as i128));
                let sy = narrow64((c.1 as i128) * (TILE as i128));
                sliding_block_positions.push(Vec2(sx, sy));
                sliding_block_directions.push(dir);
                sliding_block_types.push(b);
                proof {
                    assert(c.0 < static_block_types.width && c.1 < static_block_types.height);
                }
                static_block_types.coord_set(c.0 as usize, c.1 as usize, None);
                tank_states[index] = TankState::Delayed {
                    timestamp: ms_timestamp,
                    duration: PUSH_DELAY_MS,
                };
            },
        }
        proof {
            assert(push@.skip(k as int)[0] == push@[k as int]);
            assert(push@.skip(k as int).drop_first() =~= push@.skip(k as int + 1));
            assert((PushState {
                grid: grid_of(*static_block_types),
                tank_states: tank_states@,
                id_counter: *id_counter as int,
                slide_ids: sliding_block_ids@,
                slide_positions: sliding_block_positions@,
                slide_directions: sliding_block_directions@,
                slide_types: sliding_block_types@,
            }) == push_step(cur, tank_positions@[index as int], tank_directions@[index as int], index as int, ms));
        }
        k += 1;
    }
    proof {
        assert(push@.skip(push@.len() as int) =~= Seq::<usize>::empty());
    }
}

// ---------------------------------------------------------------------------
// Move commands
// ---------------------------------------------------------------------------

/// One tank's move command: the tank's facing turns to the commanded
/// direction unconditionally, even when the move is rejected; when the move
/// is unobstructed the tank starts a 400 ms move recorded from its current
/// position.
pub open spec fn move_step(
    dirs: Seq<Direction>,
    states: Seq<TankState>,
    g: GridModel,
    pos: Vec2<i64>,
    index: int,
    dir: Direction,
    now_ms: u16,
) -> (Seq<Direction>, Seq<TankState>) {
    let d2 = dirs.update(index, dir);
    if move_allowed(g, pos, dir) {
        (
            d2,
            states.update(
                index,
                TankState::Moving { timestamp: now_ms, duration: MOVE_DURATION_MS, start: pos },
            ),
        )
    } else {
        (d2, states)
    }
}

/// Move commands applied in order against the fixed post-push grid.
pub open spec fn move_fold(
    dirs: Seq<Direction>,
    states: Seq<TankState>,
    g: GridModel,
    positions: Seq<Vec2<i64>>,
    list: Seq<(usize, Direction)>,
    now_ms: u16,
) -> (Seq<Direction>, Seq<TankState>)
    decreases list.len(),
{
    if list.len() == 0 {
        (dirs, states)
    } else {
        let r = move_step(
            dirs,
            states,
            g,
            positions[list[0].0 as int],
            list[0].0 as int,
            list[0].1,
            now_ms,
        );
        move_fold(r.0, r.1, g, positions, list.drop_first(), now_ms)
    }
}

/// Carries out the move intents in order. Each commanded tank turns to face
/// its direction unconditionally; when both candidate tiles ahead are empty
/// it also enters a 400 ms move starting at its current position.
pub fn tank_move_command(
    mov: &Vec<(usize, Direction)>,
    us_timestamp: u64,
    tank_positions: &Vec<Vec2<i64>>,
    tank_directions: &mut Vec<Direction>,
    tank_states: &mut Vec<TankState>,
    static_block_types: &Array2D<Option<BlockType>>,
)
    requires
        static_block_types.wf(),
        forall|k: int|
            0 <= k < mov.len() ==> #[trigger] mov[k].0 < tank_positions.len() && mov[k].0 < old(
                tank_directions,
            ).len() && mov[k].0 < old(tank_states).len(),
    ensures
        final(tank_directions).len() == old(tank_directions).len(),
        final(tank_states).len() == old(tank_states).len(),
        (final(tank_directions)@, final(tank_states)@) == move_fold(
            old(tank_directions)@,
            old(tank_states)@,
            grid_of(*static_block_types),
            tank_positions@,
            mov@,
            spec_ms_of_us(us_timestamp),
        ),
{
    let ghost ms = spec_ms_of_us(us_timestamp);
    let ghost init_dirs = tank_directions@;
    let ghost init_states = tank_states@;
    let ms_timestamp = ms_of_us(us_timestamp);
    proof {
        assert(mov@.skip(0) =~= mov@);
    }
    let mut k: usize = 0;
    while k < mov.len()
        invariant
            k <= mov.len(),
            static_block_types.wf(),
            tank_directions.len() == init_dirs.len(),
            tank_states.len() == init_states.len(),
            init_dirs == old(tank_directions)@,
            init_states == old(tank_states)@,
            forall|m: int|
                0 <= m < mov.len() ==> #[trigger] mov[m].0 < tank_positions.len() && mov[m].0
                    < init_dirs.len() && mov[m].0 < init_states.len(),
            ms_timestamp == ms,
            move_fold(init_dirs, init_states, grid_of(*static_block_types), tank_positions@, mov@, ms)
                == move_fold(
                tank_directions@,
                tank_states@,
                grid_of(*static_block_types),
                tank_positions@,
                mov@.skip(k as int),
                ms,
            ),
        decreases mov.len() - k,
    {
        let ghost cur_dirs = tank_directions@;
        let ghost cur_states = tank_states@;
        let (index, dir) = mov[k];
        let pos = tank_positions[index];
        tank_directions[index] = dir;
        if move_check(static_block_types, pos, dir) {
            tank_states[index] = TankState::Moving {
                timestamp: ms_timestamp,
                duration: MOVE_DURATION_MS,
                start: pos,
            };
        }
        proof {
            assert(mov@.skip(k as int)[0] == mov@[k as int]);
            assert(mov@.skip(k as int).drop_first() =~= mov@.skip(k as int + 1));
            assert((tank_directions@, tank_states@) == move_step(
                cur_dirs,
                cur_states,
                grid_of(*static_block_types),
                tank_positions@[index as int],
                index as int,
                dir,
                ms,
            ));
        }
        k += 1;
    }
    proof {
        assert(mov@.skip(mov@.len() as int) =~= Seq::<(usize, Direction)>::empty());
    }
}

/// Push resolution, as a law over one push attempt. When both candidate
/// tiles are empty or both are occupied, the attempt changes nothing. When
/// the two-candidate rule picks a block (exactly one candidate occupied, not
/// by a `Solid` block), the attempt removes exactly that block from the
/// grid, appends exactly one sliding block at the tile's subpixel origin
/// with the tank's facing and the block's type, and puts the tank into a
/// 1000 ms cooldown; every other grid cell is kept.
pub proof fn lemma_push_resolution(
    s: PushState,
    pos: Vec2<i64>,
    dir: Direction,
    index: int,
    now_ms: u16,
)
    requires
        0 <= index < s.tank_states.len(),
        s.grid.width >= 0,
        s.grid.height >= 0,
        s.grid.cells.len() == s.grid.width * s.grid.height,
    ensures
        ({
            let ca = candidate_a(pos, dir);
            let cb = candidate_b(pos, dir);
            let b1 = block_at(s.grid, ca);
            let b2 = if ca == cb {
                None
            } else {
                block_at(s.grid, cb)
            };
            let r = push_step(s, pos, dir, index, now_ms);
            &&& (b1 is None && b2 is None ==> r == s)
            &&& (b1 is Some && b2 is Some ==> r == s)
            &&& (push_decision(s.grid, pos, dir) matches Some((c, b)) ==> {
                &&& !(b is Solid)
                &&& block_at(s.grid, c) == Some(b)
                &&& block_at(r.grid, c) is None
                &&& (forall|o: (u64, u64)| o != c ==> #[trigger] block_at(r.grid, o) == block_at(s.grid, o))
                &&& r.slide_ids.len() == s.slide_ids.len() + 1
                &&& r.slide_positions == s.slide_positions.push(
                    Vec2(sat64(c.0 * TILE), sat64(c.1 * TILE)),
                )
                &&& r.slide_directions == s.slide_directions.push(dir)
                &&& r.slide_types == s.slide_types.push(b)
                &&& r.tank_states == s.tank_states.update(
                    index,
                    TankState::Delayed { timestamp: now_ms, duration: PUSH_DELAY_MS },
                )
                &&& r.id_counter == s.id_counter + 1
            })
        }),
{
    let ca = candidate_a(pos, dir);
    let cb = candidate_b(pos, dir);
    match push_decision(s.grid, pos, dir) {
        None => {},
        Some((c, b)) => {
            let r = push_step(s, pos, dir, index, now_ms);
            assert(c.0 < s.grid.width && c.1 < s.grid.height);
            crate::array2d::lemma_row_major_index(s.grid.width, s.grid.height, c.0 as int, c.1 as int);
            assert(block_at(r.grid, c) is None);
            assert forall|o: (u64, u64)| o != c implies #[trigger] block_at(r.grid, o) == block_at(
                s.grid,
                o,
            ) by {
                if o.0 < s.grid.width && o.1 < s.grid.height {
                    crate::array2d::lemma_row_major_order(
                        s.grid.width,
                        o.0 as int,
                        o.1 as int,
                        c.0 as int,
                        c.1 as int,
                    );
                    crate::array2d::lemma_row_major_order(
                        s.grid.width,
                        c.0 as int,
                        c.1 as int,
                        o.0 as int,
                        o.1 as int,
                    );
                    crate::array2d::lemma_row_major_index(
                        s.grid.width,
                        s.grid.height,
                        o.0 as int,
                        o.1 as int,
                    );
                }
            };
        },
    }
}

/// Move and interpolation, as a law over one commanded tank. An idle tank
/// commanded toward an unobstructed direction turns to face it and starts a
/// move recorded at its current position; once exactly the move duration has
/// elapsed on the wrapping millisecond clock, the tank stands one whole 8 px
/// step away in that direction and is idle again.
pub proof fn lemma_move_completes(
    dirs: Seq<Direction>,
    states: Seq<TankState>,
    g: GridModel,
    pos: Vec2<i64>,
    index: int,
    dir: Direction,
    start_ms: u16,
    now_ms: u16,
)
    requires
        0 <= index < states.len(),
        dirs.len() == states.len(),
        move_allowed(g, pos, dir),
        spec_elapsed(now_ms, start_ms) == MOVE_DURATION_MS,
    ensures
        ({
            let r = move_step(dirs, states, g, pos, index, dir, start_ms);
            &&& r.0[index] == dir
            &&& r.1[index] == TankState::Moving {
                timestamp: start_ms,
                duration: MOVE_DURATION_MS,
                start: pos,
            }
            &&& ({
                let m = movement_step(pos, dir, r.1[index], now_ms);
                &&& m.1 == TankState::Idle
                &&& m.0 == Vec2(
                    sat64(pos.0 + dir.spec_unit().0 * (MOVE_STEP as int)),
                    sat64(pos.1 + dir.spec_unit().1 * (MOVE_STEP as int)),
                )
            })
        }),
{
}

// ---------------------------------------------------------------------------
// Motion integration
// ---------------------------------------------------------------------------

/// One tank's motion interpolation: a `Moving` tank sits at its move start
/// plus its facing direction scaled by the covered fraction of the 8 px
/// step; the fraction is clamped to one, a zero duration counts as complete,
/// and the tank returns to `Idle` once the duration has elapsed. Tanks in
/// other states are untouched.
pub open spec fn movement_step(
    pos: Vec2<i64>,
    dir: Direction,
    s: TankState,
    now_ms: u16,
) -> (Vec2<i64>, TankState) {
    match s {
        TankState::Moving { timestamp, duration, start } => {
            let diff = spec_elapsed(now_ms, timestamp);
            let done = diff >= duration;
            let off: int = if done {
                MOVE_STEP as int
            } else {
                (MOVE_STEP as int) * diff / (duration as int)
            };
            let u = dir.spec_unit();
            let np = Vec2(sat64(start.0 + u.0 * off), sat64(start.1 + u.1 * off));
            (
                np,
                if done {
                    TankState::Idle
                } else {
                    s
                },
            )
        },
        _ => (pos, s),
    }
}

/// Interpolates the position of every `Moving` tank among the first `tanks`
/// and returns a tank to `Idle` once its move duration has elapsed.
pub fn tank_movement(
    tanks: usize,
    us_timestamp: u64,
    tank_positions: &mut Vec<Vec2<i64>>,
    tank_directions: &Vec<Direction>,
    tank_states: &mut Vec<TankState>,
)
    requires
        tanks <= old(tank_positions).len(),
        tanks <= tank_directions.len(),
        tanks <= old(tank_states).len(),
    ensures
        final(tank_positions).len() == old(tank_positions).len(),
        final(tank_states).len() == old(tank_states).len(),
        forall|i: int|
            0 <= i < tanks ==> #[trigger] final(tank_positions)[i] == movement_step(
                old(tank_positions)[i],
                tank_directions[i],
                old(tank_states)[i],
                spec_ms_of_us(us_timestamp),
            ).0,
        forall|i: int|
            0 <= i < tanks ==> #[trigger] final(tank_states)[i] == movement_step(
                old(tank_positions)[i],
                tank_directions[i],
                old(tank_states)[i],
                spec_ms_of_us(us_timestamp),
            ).1,
        forall|i: int|
            tanks <= i < old(tank_positions).len() ==> final(tank_positions)[i]
                == old(tank_positions)[i],
        forall|i: int|
            tanks <= i < old(tank_states).len() ==> final(tank_states)[i] == old(tank_states)[i],
{
    let ms_timestamp = ms_of_us(us_timestamp);
    let mut index: usize = 0;
    while index < tanks
        invariant
            index <= tanks,
            tanks <= tank_positions.len() == old(tank_positions).len(),
            tanks <= tank_directions.len(),
            tanks <= tank_states.len() == old(tank_states).len(),
            ms_timestamp == spec_ms_of_us(us_timestamp),
            forall|i: int|
                0 <= i < index ==> #[trigger] tank_positions[i] == movement_step(
                    old(tank_positions)[i],
                    tank_directions[i],
                    old(tank_states)[i],
                    spec_ms_of_us(us_timestamp),
                ).0,
            forall|i: int|
                0 <= i < index ==> #[trigger] tank_states[i] == movement_step(
                    old(tank_positions)[i],
                    tank_directions[i],
                    old(tank_states)[i],
                    spec_ms_of_us(us_timestamp),
                ).1,
            forall|i: int|
                index <= i < tank_positions.len() ==> tank_positions[i] == old(tank_positions)[i],
            forall|i: int| index <= i < tank_states.len() ==> tank_states[i] == old(tank_states)[i],
        decreases tanks - index,
    {
        match tank_states[index] {
            TankState::Moving { timestamp, duration, start } => {
                let diff = elapsed_ms(ms_timestamp, timestamp);
                let done = diff >= duration;
                let off: i64 = if done {
                    MOVE_STEP
                } else {
                    MOVE_STEP * (diff as i64) / (duration as i64)
                };
                let u = tank_directions[index].vec2i();
                let nx = narrow64(start.0 as i128 + unit_times(u.0, off as i128));
                let ny = narrow64(start.1 as i128 + unit_times(u.1, off as i128));
                tank_positions[index] = Vec2(nx, ny);
                if done {
                    tank_states[index] = TankState::Idle;
                }
            },
            _ => {},
        }
        index += 1;
    }
}

// ---------------------------------------------------------------------------
// Sliding block motion
// ---------------------------------------------------------------------------

/// One sliding block's kinematic advance over a microsecond delta: 60 px/s
/// along its travel direction, with no collision detection and no settling;
/// coordinates saturate at the numeric range edges.
pub open spec fn slide_step(pos: Vec2<i64>, dir: Direction, dt_us: u64) -> Vec2<i64> {
    let delta: int = if dt_us > i64::MAX as u64 / 60 {
        i64::MAX as int
    } else {
        60 * (dt_us as int)
    };
    let u = dir.spec_unit();
    Vec2(sat64(pos.0 + u.0 * delta), sat64(pos.1 + u.1 * delta))
}

/// Advances every sliding block by `dt_us` microseconds of travel at
/// 60 px/s along its stored direction.
pub fn sliding_block_movement(
    sliding_blocks: usize,
    dt_us: u64,
    sliding_block_positions: &mut Vec<Vec2<i64>>,
    sliding_block_directions: &Vec<Direction>,
)
    requires
        sliding_blocks <= old(sliding_block_positions).len(),
        sliding_blocks <= sliding_block_directions.len(),
    ensures
        final(sliding_block_positions).len() == old(sliding_block_positions).len(),
        forall|i: int|
            0 <= i < sliding_blocks ==> #[trigger] final(sliding_block_positions)[i] == slide_step(
                old(sliding_block_positions)[i],
                sliding_block_directions[i],
                dt_us,
            ),
        forall|i: int|
            sliding_blocks <= i < old(sliding_block_positions).len()
                ==> final(sliding_block_positions)[i] == old(sliding_block_positions)[i],
{
    let delta: i64 = if dt_us > (i64::MAX as u64) / 60 {
        i64::MAX
    } else {
        (60 * dt_us) as i64
    };
    let mut index: usize = 0;
    while index < sliding_blocks
        invariant
            index <= sliding_blocks,
            sliding_blocks <= sliding_block_positions.len() == old(sliding_block_positions).len(),
            sliding_blocks <= sliding_block_directions.len(),
            delta as int == (if dt_us > i64::MAX as u64 / 60 {
                i64::MAX as int
            } else {
                60 * (dt_us as int)
            }),
            forall|i: int|
                0 <= i < index ==> #[trigger] sliding_block_positions[i] == slide_step(
                    old(sliding_block_positions)[i],
                    sliding_block_directions[i],
                    dt_us,
                ),
            forall|i: int|
                index <= i < sliding_block_positions.len() ==> sliding_block_positions[i] == old(
                    sliding_block_positions,
                )[i],
        decreases sliding_blocks - index,
    {
        let u = sliding_block_directions[index].vec2i();
        let p = sliding_block_positions[index];
        let nx = narrow64(p.0 as i128 + unit_times(u.0, delta as i128));
        let ny = narrow64(p.1 as i128 + unit_times(u.1, delta as i128));
        sliding_block_positions[index] = Vec2(nx, ny);
        index += 1;
    }
}

} // verus!

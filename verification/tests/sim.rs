use blockhop::{
    block_to_uv, clamp, elapsed_ms, ms_of_us, move_check, push_resolve, sliding_block_movement,
    tank_ai, tank_delay, tank_move_command, tank_movement, tank_push_command, Array2D, BlockType,
    Direction, TankState, Vec2, PX,
};

fn empty_grid() -> Array2D<Option<BlockType>> {
    Array2D::from_closure(5, 5, |_, _| None)
}

#[test]
fn wrapping_elapsed_across_the_counter_wrap() {
    // distance on the wrapping 16-bit millisecond clock: (now - t0) mod 2^16
    assert_eq!(elapsed_ms(300, 65500), 336);
    assert_eq!(elapsed_ms(1300, 65500), 1336);
    assert_eq!(elapsed_ms(65500, 65500), 0);
    assert_eq!(elapsed_ms(65500, 300), 65200);
}

#[test]
fn ms_of_us_truncates_to_sixteen_bits() {
    assert_eq!(ms_of_us(1_300_000), 1300);
    assert_eq!(ms_of_us(65_536_000), 0);
    assert_eq!(ms_of_us(65_537_500), 1);
}

#[test]
fn delayed_tank_wakes_after_wraparound_timer() {
    // timer started at 65500 ms with a 1000 ms cooldown; the counter wraps
    let mut states = vec![TankState::Delayed { timestamp: 65500, duration: 1000 }];

    // at 300 ms past the wrap only 336 ms have elapsed: still delayed
    tank_delay(1, 300_000, &mut states);
    assert!(matches!(states[0], TankState::Delayed { .. }));

    // at 1300 ms past the wrap, 1336 ms have elapsed: idle again
    tank_delay(1, 1_300_000, &mut states);
    assert_eq!(states[0], TankState::Idle);
}

#[test]
fn delay_releases_exactly_at_the_duration() {
    // the cooldown ends once elapsed >= duration
    let mut states = vec![
        TankState::Delayed { timestamp: 100, duration: 50 },
        TankState::Delayed { timestamp: 101, duration: 50 },
    ];
    tank_delay(2, 150_000, &mut states);
    assert_eq!(states[0], TankState::Idle);
    assert!(matches!(states[1], TankState::Delayed { .. }));
}

#[test]
fn sliding_positions_saturate_at_the_numeric_edge() {
    // an absurdly large time delta pins the coordinate to the range edge
    // instead of wrapping it
    let mut positions = vec![Vec2(0, 0)];
    let directions = vec![Direction::Right];
    sliding_block_movement(1, u64::MAX, &mut positions, &directions);
    assert_eq!(positions[0], Vec2(i64::MAX, 0));
    sliding_block_movement(1, u64::MAX, &mut positions, &directions);
    assert_eq!(positions[0], Vec2(i64::MAX, 0));
}

#[test]
fn delay_only_touches_the_counted_tanks() {
    let mut states = vec![
        TankState::Delayed { timestamp: 0, duration: 10 },
        TankState::Delayed { timestamp: 0, duration: 10 },
    ];
    tank_delay(1, 50_000, &mut states);
    assert_eq!(states[0], TankState::Idle);
    assert!(matches!(states[1], TankState::Delayed { .. }));
}

#[test]
fn ai_prefers_push_and_orders_directions() {
    let states = vec![TankState::Idle, TankState::Delayed { timestamp: 0, duration: 1000 }, TankState::Idle];

    // action edge: every idle tank pushes, nobody moves
    let (push, mov) = tank_ai(3, &states, true, true, true, true, true);
    assert_eq!(push, vec![0, 2]);
    assert!(mov.is_empty());

    // no action edge: held directions resolve Right > Left > Up > Down
    let (push, mov) = tank_ai(3, &states, false, true, false, true, true);
    assert!(push.is_empty());
    assert_eq!(mov, vec![(0, Direction::Right), (2, Direction::Right)]);

    let (_, mov) = tank_ai(3, &states, false, true, false, true, false);
    assert_eq!(mov, vec![(0, Direction::Left), (2, Direction::Left)]);

    let (_, mov) = tank_ai(3, &states, false, true, true, false, false);
    assert_eq!(mov, vec![(0, Direction::Up), (2, Direction::Up)]);

    let (_, mov) = tank_ai(3, &states, false, false, true, false, false);
    assert_eq!(mov, vec![(0, Direction::Down), (2, Direction::Down)]);

    // nothing held: no intent at all
    let (push, mov) = tank_ai(3, &states, false, false, false, false, false);
    assert!(push.is_empty());
    assert!(mov.is_empty());
}

#[test]
fn push_resolves_single_normal_candidate() {
    // tank at pixel (16, 16) facing Right: both candidate points fall in
    // tile (2, 1), which holds a Normal block
    let mut grid = empty_grid();
    grid.coord_set(2, 1, Some(BlockType::Normal));
    let r = push_resolve(&grid, Vec2(16 * PX, 16 * PX), Direction::Right);
    assert_eq!(r, Some(((2, 1), BlockType::Normal)));
}

#[test]
fn push_rejected_when_both_candidates_empty() {
    let grid = empty_grid();
    let r = push_resolve(&grid, Vec2(16 * PX, 16 * PX), Direction::Right);
    assert_eq!(r, None);
}

#[test]
fn push_rejected_when_both_candidates_occupied() {
    // tank at pixel (8, 16) facing Up: the target point (16, 15) straddles
    // the boundary between tiles (0, 0) and (1, 0)
    let mut grid = empty_grid();
    grid.coord_set(0, 0, Some(BlockType::Normal));
    grid.coord_set(1, 0, Some(BlockType::Normal));
    let r = push_resolve(&grid, Vec2(8 * PX, 16 * PX), Direction::Up);
    assert_eq!(r, None);
}

#[test]
fn push_rejected_when_candidate_is_solid() {
    let mut grid = empty_grid();
    grid.coord_set(1, 0, Some(BlockType::Solid));
    let r = push_resolve(&grid, Vec2(8 * PX, 16 * PX), Direction::Up);
    assert_eq!(r, None);
}

#[test]
fn push_picks_the_single_occupied_candidate_of_two() {
    let mut grid = empty_grid();
    grid.coord_set(1, 0, Some(BlockType::Normal));
    let r = push_resolve(&grid, Vec2(8 * PX, 16 * PX), Direction::Up);
    assert_eq!(r, Some(((1, 0), BlockType::Normal)));
}

#[test]
fn push_command_removes_block_and_spawns_slider() {
    let mut grid = empty_grid();
    grid.coord_set(2, 1, Some(BlockType::Normal));
    let push = vec![0usize];
    let positions = vec![Vec2(16 * PX, 16 * PX)];
    let directions = vec![Direction::Right];
    let mut states = vec![TankState::Idle];
    let mut id_counter = 7u32;
    let mut slide_ids = Vec::new();
    let mut slide_positions = Vec::new();
    let mut slide_directions = Vec::new();
    let mut slide_types = Vec::new();

    tank_push_command(
        &push,
        2_000_000,
        &mut grid,
        &positions,
        &directions,
        &mut states,
        &mut id_counter,
        &mut slide_ids,
        &mut slide_positions,
        &mut slide_directions,
        &mut slide_types,
    );

    // the block left the grid
    assert_eq!(grid.coord_get(2, 1), Some(&None));
    // exactly one sliding block spawned at the tile's origin
    assert_eq!(slide_ids, vec![7]);
    assert_eq!(slide_positions, vec![Vec2(32 * PX, 16 * PX)]);
    assert_eq!(slide_directions, vec![Direction::Right]);
    assert_eq!(slide_types, vec![BlockType::Normal]);
    assert_eq!(id_counter, 8);
    // the tank entered its 1000 ms cooldown
    assert_eq!(states[0], TankState::Delayed { timestamp: 2000, duration: 1000 });
}

#[test]
fn push_command_changes_nothing_on_rejection() {
    let mut grid = empty_grid();
    let push = vec![0usize];
    let positions = vec![Vec2(16 * PX, 16 * PX)];
    let directions = vec![Direction::Right];
    let mut states = vec![TankState::Idle];
    let mut id_counter = 0u32;
    let mut slide_ids = Vec::new();
    let mut slide_positions: Vec<Vec2<i64>> = Vec::new();
    let mut slide_directions = Vec::new();
    let mut slide_types = Vec::new();

    tank_push_command(
        &push,
        0,
        &mut grid,
        &positions,
        &directions,
        &mut states,
        &mut id_counter,
        &mut slide_ids,
        &mut slide_positions,
        &mut slide_directions,
        &mut slide_types,
    );

    assert!(slide_ids.is_empty());
    assert_eq!(id_counter, 0);
    assert_eq!(states[0], TankState::Idle);
    for j in 0..5 {
        for i in 0..5 {
            assert_eq!(grid.coord_get(i, j), Some(&None));
        }
    }
}

#[test]
fn move_command_turns_and_starts_move() {
    let grid = empty_grid();
    let mov = vec![(0usize, Direction::Up)];
    let positions = vec![Vec2(16 * PX, 16 * PX)];
    let mut directions = vec![Direction::Down];
    let mut states = vec![TankState::Idle];

    tank_move_command(&mov, 0, &positions, &mut directions, &mut states, &grid);

    assert_eq!(directions[0], Direction::Up);
    assert_eq!(
        states[0],
        TankState::Moving { timestamp: 0, duration: 400, start: Vec2(16 * PX, 16 * PX) },
    );
}

#[test]
fn blocked_move_still_turns_the_tank() {
    // a single obstruction in the candidate tile blocks the move, but the
    // facing direction updates unconditionally
    let mut grid = empty_grid();
    grid.coord_set(2, 1, Some(BlockType::Normal));
    let mov = vec![(0usize, Direction::Right)];
    let positions = vec![Vec2(16 * PX, 16 * PX)];
    let mut directions = vec![Direction::Up];
    let mut states = vec![TankState::Idle];

    tank_move_command(&mov, 0, &positions, &mut directions, &mut states, &grid);

    assert_eq!(directions[0], Direction::Right);
    assert_eq!(states[0], TankState::Idle);
}

#[test]
fn move_check_requires_both_candidates_empty() {
    let mut grid = empty_grid();
    assert!(move_check(&grid, Vec2(8 * PX, 16 * PX), Direction::Up));
    grid.coord_set(0, 0, Some(BlockType::Normal));
    assert!(!move_check(&grid, Vec2(8 * PX, 16 * PX), Direction::Up));
}

#[test]
fn movement_interpolates_and_completes() {
    // an upward move from (16, 16): halfway after 200 ms, one full 8 px
    // step after exactly the 400 ms duration, then idle
    let start = Vec2(16 * PX, 16 * PX);
    let mut positions = vec![start];
    let directions = vec![Direction::Up];
    let mut states = vec![TankState::Moving { timestamp: 0, duration: 400, start }];

    tank_movement(1, 200_000, &mut positions, &directions, &mut states);
    assert_eq!(positions[0], Vec2(16 * PX, 12 * PX));
    assert!(matches!(states[0], TankState::Moving { .. }));

    tank_movement(1, 400_000, &mut positions, &directions, &mut states);
    assert_eq!(positions[0], Vec2(16 * PX, 8 * PX));
    assert_eq!(states[0], TankState::Idle);
}

#[test]
fn movement_leaves_idle_tanks_alone() {
    let mut positions = vec![Vec2(3 * PX, 4 * PX)];
    let directions = vec![Direction::Left];
    let mut states = vec![TankState::Idle];
    tank_movement(1, 123_000, &mut positions, &directions, &mut states);
    assert_eq!(positions[0], Vec2(3 * PX, 4 * PX));
    assert_eq!(states[0], TankState::Idle);
}

#[test]
fn sliding_blocks_travel_sixty_pixels_per_second() {
    let mut positions = vec![Vec2(0, 64 * PX), Vec2(10 * PX, 0)];
    let directions = vec![Direction::Right, Direction::Down];
    sliding_block_movement(2, 1_000_000, &mut positions, &directions);
    assert_eq!(positions[0], Vec2(60 * PX, 64 * PX));
    assert_eq!(positions[1], Vec2(10 * PX, 60 * PX));

    // a quarter-second step covers 15 px
    sliding_block_movement(2, 250_000, &mut positions, &directions);
    assert_eq!(positions[0], Vec2(75 * PX, 64 * PX));
}

#[test]
fn block_uv_origins() {
    assert_eq!(block_to_uv(BlockType::Normal), Vec2(16, 0));
    assert_eq!(block_to_uv(BlockType::Solid), Vec2(32, 0));
}

#[test]
fn clamp_orders_bounds() {
    assert_eq!(clamp(0, -5, 10), 0);
    assert_eq!(clamp(0, 5, 10), 5);
    assert_eq!(clamp(0, 15, 10), 10);
}

#[test]
fn direction_unit_vectors() {
    assert_eq!(Direction::Up.vec2i().tuple(), (0, -1));
    assert_eq!(Direction::Down.vec2i().tuple(), (0, 1));
    assert_eq!(Direction::Left.vec2i().tuple(), (-1, 0));
    assert_eq!(Direction::Right.vec2i().tuple(), (1, 0));
}

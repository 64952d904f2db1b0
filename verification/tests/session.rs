use blockhop::{
    plan_steps, BlockType, Direction, Event, Key, State, TankState, Vec2, Vec4, CAMERA_H,
    CAMERA_W, PX,
};

#[test]
fn new_state_matches_the_initial_roster() {
    let s = State::new();
    assert!(!s.exit);
    assert_eq!(s.camera, Vec4(0, 0, CAMERA_W, CAMERA_H));
    assert_eq!(s.rem_time, 66);
    assert_eq!(s.rem_tanks, 8);
    assert_eq!(s.tank_positions, vec![Vec2(16 * PX, 16 * PX)]);
    assert_eq!(s.tank_directions, vec![Direction::Up]);
    assert_eq!(s.tank_states, vec![TankState::Idle]);
    assert_eq!(s.sliding_block_positions, vec![Vec2(0, 64 * PX)]);
    assert_eq!(s.sliding_block_directions, vec![Direction::Right]);
    assert_eq!(s.sliding_block_types, vec![BlockType::Normal]);

    // the arena: a solid border, one pushable block in the middle
    for k in 0..5 {
        assert_eq!(s.static_block_types.coord_get(k, 0), Some(&Some(BlockType::Solid)));
        assert_eq!(s.static_block_types.coord_get(k, 4), Some(&Some(BlockType::Solid)));
        assert_eq!(s.static_block_types.coord_get(0, k), Some(&Some(BlockType::Solid)));
        assert_eq!(s.static_block_types.coord_get(4, k), Some(&Some(BlockType::Solid)));
    }
    assert_eq!(s.static_block_types.coord_get(2, 2), Some(&Some(BlockType::Normal)));
    assert_eq!(s.static_block_types.coord_get(1, 1), Some(&None));
    assert_eq!(s.static_block_types.coord_get(3, 3), Some(&None));
}

#[test]
fn pre_step_tracks_edges_and_exit() {
    let mut s = State::new();
    s.pre_step(0, &vec![Event::KeyDown(Key::Right), Event::KeyDown(Key::Z)]);
    assert!(s.rightkey_down && s.zkey_down);
    assert!(!s.rightkey_was_down && !s.zkey_was_down);

    // the next frame latches the previous one: the edge is gone
    s.pre_step(0, &vec![]);
    assert!(s.rightkey_down && s.zkey_down);
    assert!(s.rightkey_was_down && s.zkey_was_down);

    s.pre_step(0, &vec![Event::KeyUp(Key::Right)]);
    assert!(!s.rightkey_down);

    // pointer input is accepted and ignored
    s.pre_step(0, &vec![Event::MouseMove(3, 4), Event::KeyDown(Key::Lmb)]);
    assert!(!s.exit);

    s.pre_step(0, &vec![Event::Exit]);
    assert!(s.exit);
    assert!(s.exit());
}

#[test]
fn one_held_frame_moves_the_tank_right() {
    // from the initial roster, one frame with Right held and no obstruction:
    // after 400 ms the tank faces Right at pixel (24, 16)
    let mut s = State::new();
    s.pre_step(0, &vec![Event::KeyDown(Key::Right)]);
    s.step(0, 0);
    assert_eq!(s.tank_directions[0], Direction::Right);
    assert_eq!(
        s.tank_states[0],
        TankState::Moving { timestamp: 0, duration: 400, start: Vec2(16 * PX, 16 * PX) },
    );
    assert_eq!(s.tank_positions[0], Vec2(16 * PX, 16 * PX));

    s.step(400_000, 0);
    assert_eq!(s.tank_directions[0], Direction::Right);
    assert_eq!(s.tank_positions[0], Vec2(24 * PX, 16 * PX));
    assert_eq!(s.tank_states[0], TankState::Idle);
}

#[test]
fn blocked_directions_only_turn_the_tank() {
    // from (16, 16) the bordering wall blocks Up and Left
    let mut s = State::new();
    s.pre_step(0, &vec![Event::KeyDown(Key::Up)]);
    s.step(0, 0);
    assert_eq!(s.tank_directions[0], Direction::Up);
    assert_eq!(s.tank_states[0], TankState::Idle);
    assert_eq!(s.tank_positions[0], Vec2(16 * PX, 16 * PX));
}

#[test]
fn push_through_the_session_pipeline() {
    // stand left of the arena's middle block and push it
    let mut s = State::new();
    s.tank_positions[0] = Vec2(16 * PX, 32 * PX);
    s.tank_directions[0] = Direction::Right;

    s.pre_step(0, &vec![Event::KeyDown(Key::Z)]);
    s.step(0, 0);

    // the middle block left the grid and one sliding block spawned at its
    // tile origin, travelling the tank's way
    assert_eq!(s.static_block_types.coord_get(2, 2), Some(&None));
    assert_eq!(s.sliding_block_ids.len(), 2);
    assert_eq!(s.sliding_block_positions[1], Vec2(32 * PX, 32 * PX));
    assert_eq!(s.sliding_block_directions[1], Direction::Right);
    assert_eq!(s.sliding_block_types[1], BlockType::Normal);
    assert_eq!(s.id_counter, 1);
    assert_eq!(s.tank_states[0], TankState::Delayed { timestamp: 0, duration: 1000 });

    // the cooldown holds at 500 ms and releases by 1100 ms
    s.pre_step(500_000, &vec![Event::KeyUp(Key::Z)]);
    s.step(500_000, 0);
    assert!(matches!(s.tank_states[0], TankState::Delayed { .. }));
    s.step(1_100_000, 0);
    assert_eq!(s.tank_states[0], TankState::Idle);
}

#[test]
fn ambiguous_push_changes_nothing() {
    // both candidate tiles of an upward push from (8, 32) hold a block
    let mut s = State::new();
    s.tank_positions[0] = Vec2(8 * PX, 32 * PX);
    s.tank_directions[0] = Direction::Up;
    s.static_block_types.coord_set(0, 1, Some(BlockType::Normal));
    s.static_block_types.coord_set(1, 1, Some(BlockType::Normal));

    s.pre_step(0, &vec![Event::KeyDown(Key::Z)]);
    s.step(0, 0);

    assert_eq!(s.static_block_types.coord_get(0, 1), Some(&Some(BlockType::Normal)));
    assert_eq!(s.static_block_types.coord_get(1, 1), Some(&Some(BlockType::Normal)));
    assert_eq!(s.sliding_block_ids.len(), 1);
    assert_eq!(s.tank_states[0], TankState::Idle);
}

#[test]
fn camera_follows_and_clamps() {
    let mut s = State::new();
    s.step(0, 0);
    // the tank at (16, 16) would put the camera corner negative: it clamps
    assert_eq!(s.camera, Vec4(0, 0, CAMERA_W, CAMERA_H));

    s.tank_positions[0] = Vec2(200 * PX, 180 * PX);
    s.step(0, 0);
    assert_eq!(s.camera, Vec4(120 * PX, 108 * PX, CAMERA_W, CAMERA_H));
}

#[test]
fn render_snapshot_reflects_the_state() {
    let s = State::new();
    let r = s.render_prep();
    assert!(!r.exit);
    assert_eq!(r.time, 66);
    assert_eq!(r.remaining_tanks, 8);
    assert_eq!(r.camera, Vec4(0, 0, CAMERA_W, CAMERA_H));
    assert_eq!(r.static_blocks_offset, Vec2(0, 0));
    // the camera covers the whole 5 x 5 arena
    assert_eq!(r.static_block_types.get_width(), 5);
    assert_eq!(r.static_block_types.get_height(), 5);
    for j in 0..5 {
        for i in 0..5 {
            assert_eq!(r.static_block_types.coord_get(i, j), s.static_block_types.coord_get(i, j));
        }
    }
    assert_eq!(r.tank_positions, s.tank_positions);
    assert_eq!(r.tank_directions, s.tank_directions);
    assert_eq!(r.tank_states, s.tank_states);
    assert_eq!(r.sliding_block_positions, s.sliding_block_positions);
    assert_eq!(r.sliding_block_types, s.sliding_block_types);
}

#[test]
fn render_snapshot_clips_to_the_camera() {
    let mut s = State::new();
    s.camera = Vec4(16 * PX, 16 * PX, 32 * PX, 16 * PX);
    let r = s.render_prep();
    // tiles [1, 3) x [1, 2): re-based to origin, offset (16, 16) px
    assert_eq!(r.static_blocks_offset, Vec2(16 * PX, 16 * PX));
    assert_eq!(r.static_block_types.get_width(), 2);
    assert_eq!(r.static_block_types.get_height(), 1);
    assert_eq!(r.static_block_types.coord_get(0, 0), Some(&None));
}

#[test]
fn catch_up_plan_is_bounded() {
    // a one-second stall against the 250 000 us quantum: exactly four
    // full-quantum steps, then a zero-length final step
    let p = plan_steps(0, 1_000_000, 250_000);
    assert_eq!(
        p,
        vec![(0, 250_000), (250_000, 250_000), (500_000, 250_000), (750_000, 250_000), (
            1_000_000,
            0,
        )],
    );

    // a partial remainder becomes the final step
    let p = plan_steps(0, 900_000, 250_000);
    assert_eq!(p, vec![(0, 250_000), (250_000, 250_000), (500_000, 250_000), (750_000, 150_000)]);

    // no lag: one zero-length step
    assert_eq!(plan_steps(5, 5, 250_000), vec![(5, 0)]);
}

#[test]
fn advance_runs_the_whole_plan() {
    let mut s = State::new();
    let g = s.advance(0, 1_000_000);
    assert_eq!(g, 1_000_000);
    // one second of travel at 60 px/s moved the initial sliding block
    assert_eq!(s.sliding_block_positions[0], Vec2(60 * PX, 64 * PX));
}

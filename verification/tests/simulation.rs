//! End-to-end checks of the simulation core: input state, the player
//! state machine, timers, animation frames, the level layout and the
//! collision query, all on concrete values.

use platformer_core::POS_SCALE;
use platformer_core::anim::FrameRect;
use platformer_core::anim::frame_rect;
use platformer_core::block::Aabb;
use platformer_core::block::Block;
use platformer_core::collision::Collision;
use platformer_core::collision::CollisionObjectData;
use platformer_core::game::Game;
use platformer_core::game::GameState;
use platformer_core::game::WindowCommand;
use platformer_core::input::Holding;
use platformer_core::input::Key;
use platformer_core::level::Level;
use platformer_core::player::Player;
use platformer_core::player::PlayerState;
use platformer_core::Direction;

fn rect(x: u32, y: u32) -> FrameRect {
    FrameRect { x, y, width: 64, height: 64 }
}

#[test]
fn holding_tracks_each_side_independently() {
    let mut h = Holding::new();
    assert!(!*h.get_right());
    assert!(!*h.get_left());
    h.set_right(true);
    assert!(*h.get_right());
    assert!(!*h.get_left());
    h.set_left(true);
    h.set_right(false);
    assert!(!*h.get_right());
    assert!(*h.get_left());
}

#[test]
fn player_spawns_standing_at_rest() {
    let p = Player::new();
    assert_eq!(p.get_dt(), 0);
    assert_eq!(p.get_position(), (300 * POS_SCALE, 300 * POS_SCALE));
    assert_eq!(*p.get_state(), PlayerState::Standing(Direction::Right));
    assert_eq!(p.velocity, (0, 0));
    assert_eq!(p.facing, Direction::Right);
    assert_eq!(p.hp, 100);
}

#[test]
fn holding_right_with_right_pressed_walks_right() {
    // Holding.right = true, last_pressed = the right key, vertical velocity
    // zero: the next update walks right at one unit per second.
    let mut p = Player::new();
    let mut h = Holding::new();
    h.set_right(true);
    let ok = p.update_char(1, &h, Key::D);
    assert!(ok);
    assert_eq!(*p.get_state(), PlayerState::Walking(Direction::Right));
    assert_eq!(p.velocity, (100, 0));
    assert_eq!(p.facing, Direction::Right);
    assert_eq!(p.get_position(), (300 * POS_SCALE + 100, 300 * POS_SCALE));
    assert_eq!(p.get_dt(), 1);
}

#[test]
fn holding_left_with_left_pressed_walks_left() {
    let mut p = Player::new();
    let mut h = Holding::new();
    h.set_left(true);
    let ok = p.update_char(1, &h, Key::A);
    assert!(ok);
    assert_eq!(*p.get_state(), PlayerState::Walking(Direction::Left));
    assert_eq!(p.velocity, (-100, 0));
    assert_eq!(p.facing, Direction::Left);
}

#[test]
fn held_key_without_matching_last_press_does_not_walk() {
    // Holding right while the most recent press was something else drops
    // the walk: with zero vertical velocity the player just stands.
    let mut p = Player::new();
    let mut h = Holding::new();
    h.set_right(true);
    let ok = p.update_char(1, &h, Key::Other);
    assert!(ok);
    assert_eq!(*p.get_state(), PlayerState::Standing(Direction::Right));
    assert_eq!(p.velocity, (0, 0));
}

#[test]
fn jump_then_update_starts_jumping_under_gravity() {
    // One jump from standing at (0,0) velocity, then an update with the
    // jump key as last press: jumping, with the impulse already curving
    // under gravity.
    let mut p = Player::new();
    p.jump();
    assert_eq!(p.velocity, (0, -200));
    let h = Holding::new();
    let ok = p.update_char(1, &h, Key::Space);
    assert!(ok);
    assert_eq!(*p.get_state(), PlayerState::Jumping(Direction::Right));
    assert_eq!(p.velocity, (0, -200 + 80));
    assert_eq!(p.get_dt(), 1);
    assert_eq!(
        p.get_position(),
        (300 * POS_SCALE, 300 * POS_SCALE - 120)
    );
}

#[test]
fn repeated_jumps_stack_the_impulse() {
    // Two jump calls with no update in between stack additively.
    let mut p = Player::new();
    p.jump();
    p.jump();
    assert_eq!(p.velocity, (0, -400));
}

#[test]
fn standing_update_is_a_hard_stop() {
    // Whatever the prior state, an update that resolves to standing zeroes
    // the velocity and the elapsed timer and leaves the position alone.
    let mut p = Player::new();
    let mut h = Holding::new();
    h.set_right(true);
    assert!(p.update_char(7, &h, Key::D));
    assert_eq!(*p.get_state(), PlayerState::Walking(Direction::Right));
    let pos = p.get_position();
    let quiet = Holding::new();
    assert!(p.update_char(5, &quiet, Key::Other));
    assert_eq!(*p.get_state(), PlayerState::Standing(Direction::Right));
    assert_eq!(p.velocity, (0, 0));
    assert_eq!(p.get_dt(), 0);
    assert_eq!(p.get_position(), pos);
}

#[test]
fn descending_player_falls_and_accelerates() {
    // No input held, vertical velocity positive: the state resolves to
    // falling and the vertical velocity rises monotonically across
    // successive updates at constant dt.
    let mut p = Player::new();
    p.velocity = (0, 50);
    let h = Holding::new();
    assert!(p.update_char(1, &h, Key::Other));
    assert_eq!(*p.get_state(), PlayerState::Falling(Direction::Right));
    assert_eq!(p.velocity.1, 50 + 80);
    assert!(p.update_char(1, &h, Key::Other));
    assert_eq!(*p.get_state(), PlayerState::Falling(Direction::Right));
    assert_eq!(p.velocity.1, 50 + 160);
}

#[test]
fn walk_timer_wraps_by_integer_modulo() {
    // One second of walking (100 ticks) wraps the timer to exactly 0;
    // 1.05 seconds wraps to 0.05 (5 ticks).
    let mut p = Player::new();
    let mut h = Holding::new();
    h.set_right(true);
    assert!(p.update_char(100, &h, Key::D));
    assert_eq!(p.get_dt(), 0);
    let mut q = Player::new();
    assert!(q.update_char(105, &h, Key::D));
    assert_eq!(q.get_dt(), 5);
}

#[test]
fn jump_timer_wraps_at_its_own_threshold() {
    // 0.6 second of jumping (60 ticks) wraps the jump timer to exactly 0.
    let mut p = Player::new();
    p.jump();
    let h = Holding::new();
    assert!(p.update_char(60, &h, Key::Space));
    assert_eq!(*p.get_state(), PlayerState::Jumping(Direction::Right));
    assert_eq!(p.get_dt(), 0);
    assert_eq!(p.velocity.1, -200 + 80 * 60);
}

#[test]
fn falling_timer_accumulates_without_wrapping() {
    let mut p = Player::new();
    p.velocity = (0, 1);
    let h = Holding::new();
    assert!(p.update_char(150, &h, Key::Other));
    assert_eq!(*p.get_state(), PlayerState::Falling(Direction::Right));
    assert_eq!(p.get_dt(), 150);
}

#[test]
fn unrepresentable_tick_is_refused_and_changes_nothing() {
    // A step whose position would overflow is reported and not applied.
    let mut p = Player::new();
    p.position = (i64::MAX - 50, 300 * POS_SCALE);
    let mut h = Holding::new();
    h.set_right(true);
    let ok = p.update_char(1, &h, Key::D);
    assert!(!ok);
    assert_eq!(p.get_position(), (i64::MAX - 50, 300 * POS_SCALE));
    assert_eq!(*p.get_state(), PlayerState::Standing(Direction::Right));
    assert_eq!(p.velocity, (0, 0));
}

#[test]
fn walk_frames_step_every_eleven_ticks_with_closed_boundaries() {
    let walking = PlayerState::Walking(Direction::Right);
    assert_eq!(frame_rect(&walking, 0), rect(0, 704));
    assert_eq!(frame_rect(&walking, 11), rect(0, 704));
    assert_eq!(frame_rect(&walking, 12), rect(64, 704));
    assert_eq!(frame_rect(&walking, 22), rect(64, 704));
    assert_eq!(frame_rect(&walking, 55), rect(256, 704));
    assert_eq!(frame_rect(&walking, 88), rect(448, 704));
    assert_eq!(frame_rect(&walking, 89), rect(512, 704));
    assert_eq!(frame_rect(&walking, 99), rect(512, 704));
    let left = PlayerState::Walking(Direction::Left);
    assert_eq!(frame_rect(&left, 0), rect(0, 576));
    assert_eq!(frame_rect(&left, 34), rect(192, 576));
}

#[test]
fn times_outside_the_cycle_fall_back_to_the_last_frame() {
    let walking = PlayerState::Walking(Direction::Right);
    assert_eq!(frame_rect(&walking, 100), rect(512, 704));
    assert_eq!(frame_rect(&walking, 100000), rect(512, 704));
    assert_eq!(frame_rect(&walking, -1), rect(512, 704));
    let jumping = PlayerState::Jumping(Direction::Left);
    assert_eq!(frame_rect(&jumping, 67), rect(384, 64));
    assert_eq!(frame_rect(&jumping, 1000), rect(384, 64));
}

#[test]
fn frame_selection_is_deterministic() {
    // Same state, same elapsed time: same rectangle, every time.
    let jumping = PlayerState::Jumping(Direction::Right);
    let first = frame_rect(&jumping, 33);
    let second = frame_rect(&jumping, 33);
    assert_eq!(first, second);
    assert_eq!(first, rect(128, 192));
}

#[test]
fn standing_and_falling_use_single_static_frames() {
    assert_eq!(frame_rect(&PlayerState::Standing(Direction::Right), 0), rect(0, 704));
    assert_eq!(frame_rect(&PlayerState::Standing(Direction::Left), 40), rect(0, 576));
    assert_eq!(frame_rect(&PlayerState::Falling(Direction::Right), 0), rect(320, 192));
    assert_eq!(frame_rect(&PlayerState::Falling(Direction::Left), 123), rect(320, 64));
}

#[test]
fn block_bounding_box_is_center_minus_half_extents() {
    let mut b = Block::new();
    assert_eq!(b.get_position(), (0, 0));
    b.set_position((64 * POS_SCALE, 364 * POS_SCALE));
    let bb = b.get_bounding();
    assert_eq!(bb.min_x, 32 * POS_SCALE);
    assert_eq!(bb.min_y, 332 * POS_SCALE);
    assert_eq!(bb.size_x, 64 * POS_SCALE);
    assert_eq!(bb.size_y, 64 * POS_SCALE);
}

#[test]
fn loading_blocks_twice_still_yields_nine_blocks() {
    // Loading replaces the content outright: nine blocks in a 64-unit
    // spaced row at height 364, both times.
    let mut level = Level::new();
    assert_eq!(level.get_blocks().len(), 0);
    level.load_blocks();
    level.load_blocks();
    let blocks = level.get_blocks();
    assert_eq!(blocks.len(), 9);
    for (i, b) in blocks.iter().enumerate() {
        let expected_x = (i as i64 + 1) * 64 * POS_SCALE;
        assert_eq!(b.get_position(), (expected_x, 364 * POS_SCALE));
    }
}

#[test]
fn collision_object_data_keeps_its_fields() {
    let d = CollisionObjectData::new(7u32, Some((3, -4)));
    assert_eq!(d.entity_type, 7);
    assert_eq!(d.velocity, Some((3, -4)));
    let still: CollisionObjectData<u32> = CollisionObjectData::new(9, None);
    assert_eq!(still.velocity, None);
}

#[test]
fn query_without_dynamic_collider_is_empty() {
    let mut world = Collision::new();
    world.add_static(Aabb { min_x: 0, min_y: 0, size_x: 100, size_y: 100 });
    assert_eq!(world.query(10), Vec::<usize>::new());
}

#[test]
fn query_reports_current_and_swept_overlaps() {
    // Static box 0 sits left of the dynamic box; static box 1 is only
    // reached after sweeping the dynamic box by its velocity for dt ticks.
    let mut world = Collision::new();
    world.add_static(Aabb { min_x: 0, min_y: 0, size_x: 100, size_y: 100 });
    world.add_static(Aabb { min_x: 1000, min_y: 0, size_x: 100, size_y: 100 });
    world.set_dynamic(Aabb { min_x: 200, min_y: 0, size_x: 100, size_y: 100 }, Some((80, 0)));
    // 80 steps/tick for 10 ticks moves the box to [1000, 1100]: it reaches
    // box 1 exactly and still misses box 0.
    assert_eq!(world.query(10), vec![1]);
    // With no velocity it overlaps nothing.
    world.set_dynamic(Aabb { min_x: 200, min_y: 0, size_x: 100, size_y: 100 }, None);
    assert_eq!(world.query(10), Vec::<usize>::new());
    // A box touching static 0 edge-to-edge counts as overlapping.
    world.set_dynamic(Aabb { min_x: 100, min_y: 0, size_x: 100, size_y: 100 }, None);
    assert_eq!(world.query(0), vec![0]);
}

#[test]
fn player_bounds_against_the_default_level() {
    let mut level = Level::new();
    level.load_blocks();
    let mut world = Collision::new();
    for b in level.get_blocks() {
        world.add_static(b.get_bounding());
    }
    let p = Player::new();
    let player_box = Aabb {
        min_x: p.get_position().0 - 32 * POS_SCALE,
        min_y: p.get_position().1 - 32 * POS_SCALE,
        size_x: 64 * POS_SCALE,
        size_y: 64 * POS_SCALE,
    };
    // No dynamic collider registered yet: nothing can be hit.
    assert_eq!(world.query(0), Vec::<usize>::new());
    // A block-sized box around the spawn point (300, 300) reaches down to
    // y = 332, exactly the top edge of the block row, and spans x 268 to
    // 332: it touches the two blocks centered at 256 and 320, whatever
    // the sweep adds.
    world.set_dynamic(player_box, Some((0, 800)));
    assert_eq!(world.query(400), vec![3, 4]);
}

#[test]
fn game_starts_in_the_menu_and_switches_modes() {
    let mut g = Game::new();
    assert_eq!(g.game_state, GameState::Menu);
    assert_eq!(g.last_pressed, Key::D);
    assert_eq!(g.key_press(Key::D2), WindowCommand::NoOp);
    assert_eq!(g.game_state, GameState::Playing);
    assert_eq!(g.key_press(Key::D1), WindowCommand::NoOp);
    assert_eq!(g.game_state, GameState::Menu);
}

#[test]
fn window_keys_come_back_as_commands() {
    let mut g = Game::new();
    assert_eq!(g.key_press(Key::C), WindowCommand::ToggleCaptureCursor);
    assert_eq!(g.key_press(Key::F), WindowCommand::CloseWindow);
    assert_eq!(g.key_press(Key::Other), WindowCommand::NoOp);
    assert_eq!(g.game_state, GameState::Menu);
    assert_eq!(g.last_pressed, Key::D);
}

#[test]
fn movement_keys_update_the_input_snapshot() {
    let mut g = Game::new();
    g.key_press(Key::D);
    assert!(*g.holding.get_right());
    assert_eq!(g.last_pressed, Key::D);
    g.key_press(Key::A);
    assert!(*g.holding.get_left());
    assert_eq!(g.last_pressed, Key::A);
    g.release_key(Key::D);
    assert!(!*g.holding.get_right());
    assert!(*g.holding.get_left());
    // Releasing does not rewrite the last-pressed record.
    assert_eq!(g.last_pressed, Key::A);
    g.release_key(Key::Other);
    assert!(*g.holding.get_left());
}

#[test]
fn space_jumps_and_records_itself() {
    let mut g = Game::new();
    assert_eq!(g.key_press(Key::Space), WindowCommand::NoOp);
    assert_eq!(g.last_pressed, Key::Space);
    assert_eq!(g.player.velocity, (0, -200));
}

#[test]
fn menu_updates_do_not_move_the_player() {
    let mut g = Game::new();
    g.key_press(Key::Space);
    let before = g.player.get_position();
    assert!(g.update(10));
    assert_eq!(g.player.get_position(), before);
    assert_eq!(g.player.velocity, (0, -200));
}

#[test]
fn playing_updates_drive_the_state_machine() {
    let mut g = Game::new();
    g.key_press(Key::D2);
    g.key_press(Key::D);
    assert!(g.update(1));
    assert_eq!(*g.player.get_state(), PlayerState::Walking(Direction::Right));
    assert_eq!(g.player.velocity, (100, 0));
    assert_eq!(
        g.player.get_position(),
        (300 * POS_SCALE + 100, 300 * POS_SCALE)
    );
}

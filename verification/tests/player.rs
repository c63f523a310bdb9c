use tale_rpg::input::HeldKeys;
use tale_rpg::input::Key;
use tale_rpg::map::WorldMap;
use tale_rpg::player::Player;
use tale_rpg::rooms::GridRoom;
use tale_rpg::units::Direction;
use tale_rpg::units::Point;

fn hold(d: Direction) -> HeldKeys {
    HeldKeys::only(d)
}

fn at_most_half_a_pixel_off(p: Point) -> bool {
    let off = |v: i32| {
        let r = v.rem_euclid(3200);
        r <= 50 || r >= 3150
    };
    off(p.x) && off(p.y)
}

#[test]
fn player_moves_right() {
    let mut p = Player::test_new();
    let map = WorldMap::new();
    let start_x = p.get_position().x;
    p.update_with_dir(Some(Direction::Right), 500_000, &map);
    assert!(p.get_position().x > start_x, "Player should have moved right");
}

#[test]
fn push_covers_speed_times_time() {
    let mut p = Player::test_new();
    let map = WorldMap::new();
    p.update_with_dir(Some(Direction::Right), 500_000, &map);
    assert_eq!(p.get_position(), Point { x: 17600, y: 9600 });
    p.update_with_dir(Some(Direction::Down), 250_000, &map);
    assert_eq!(p.get_position(), Point { x: 17600, y: 13600 });
    p.update_with_dir(Some(Direction::Left), 1, &map);
    assert_eq!(p.get_position(), Point { x: 17600, y: 13600 });
    p.update_with_dir(Some(Direction::Up), 63, &map);
    assert_eq!(p.get_position(), Point { x: 17600, y: 13599 });
}

#[test]
fn push_without_direction_or_into_a_wall_does_nothing() {
    let mut p = Player::test_new();
    let map = WorldMap::new();
    p.update_with_dir(None, 500_000, &map);
    assert_eq!(p.get_position(), Point { x: 9600, y: 9600 });
    p.update_with_dir(Some(Direction::Left), 500_000, &map);
    assert_eq!(p.get_position(), Point { x: 9600, y: 9600 });
    p.update_with_dir(Some(Direction::Left), 1_000_000, &map);
    assert_eq!(p.get_position(), Point { x: 9600, y: 9600 });
    p.update_with_dir(Some(Direction::Right), u64::MAX, &map);
    assert_eq!(p.get_position(), Point { x: 9600, y: 9600 });
    p.update_with_dir(Some(Direction::Up), 300_000_000, &map);
    assert_eq!(p.get_position(), Point { x: 9600, y: 9600 });
}

#[test]
fn new_player_lies_in_bed() {
    let p = Player::new();
    assert_eq!(p.get_position(), Point { x: 6400, y: 38400 });
    assert_eq!(p.get_target(), Point { x: 6400, y: 38400 });
    assert_eq!(p.target, Point { x: 6400, y: 38400 });
    assert!(!p.moving);
    assert!(!p.is_moving());
    assert_eq!(p.grid_size, 3200);
    assert_eq!(p.facing, Direction::Down);
    assert_eq!(p.get_facing(), Direction::Down);
}

#[test]
fn one_tile_step_right_lands_on_next_tile() {
    let mut p = Player::test_new();
    let map = WorldMap::new();
    assert_eq!(p.get_position(), Point { x: 9600, y: 9600 });
    // a tile at 16000 units a second takes a fifth of a second
    p.update(&hold(Direction::Right), 200_000, &map);
    assert_eq!(p.get_position(), Point { x: 12800, y: 9600 });
    assert!(!p.moving);
    assert_eq!(p.facing, Direction::Right);
    assert_eq!(p.target, Point { x: 12800, y: 9600 });
}

#[test]
fn step_takes_several_ticks_along_one_axis() {
    let mut p = Player::test_new();
    let map = WorldMap::new();
    // a sixtieth of a second: 16000 * 16667 / 1000000 = 266
    p.update(&hold(Direction::Down), 16_667, &map);
    assert_eq!(p.get_position(), Point { x: 9600, y: 9866 });
    assert!(p.moving);
    assert_eq!(p.target, Point { x: 9600, y: 12800 });
    assert_eq!(p.facing, Direction::Down);
    let mut ticks = 1;
    while p.moving {
        let before = p.get_position();
        p.update(&HeldKeys::none(), 16_667, &map);
        let after = p.get_position();
        assert_eq!(after.x, before.x);
        assert!(after.y > before.y);
        ticks += 1;
        assert!(ticks < 100);
    }
    // 3200 / 266 is a little over twelve
    assert_eq!(ticks, 13);
    assert_eq!(p.get_position(), Point { x: 9600, y: 12800 });
}

#[test]
fn keys_have_a_fixed_order() {
    let map = WorldMap::new();
    let all = HeldKeys { left: true, right: true, up: true, down: true };
    let mut p = Player::test_new();
    p.update(&all, 200_000, &map);
    assert_eq!(p.get_position(), Point { x: 6400, y: 9600 });
    assert_eq!(p.facing, Direction::Left);
    let mut p = Player::test_new();
    p.update(&HeldKeys { left: false, right: true, up: true, down: true }, 200_000, &map);
    assert_eq!(p.get_position(), Point { x: 12800, y: 9600 });
    let mut p = Player::test_new();
    p.update(&HeldKeys { left: false, right: false, up: true, down: true }, 200_000, &map);
    assert_eq!(p.get_position(), Point { x: 9600, y: 6400 });
    assert_eq!(p.facing, Direction::Up);
    let mut p = Player::test_new();
    p.update(&HeldKeys { left: false, right: false, up: false, down: true }, 200_000, &map);
    assert_eq!(p.get_position(), Point { x: 9600, y: 12800 });
}

#[test]
fn keys_are_not_read_between_lattice_points() {
    let mut p = Player::test_new();
    let map = WorldMap::new();
    p.update(&hold(Direction::Right), 50_000, &map);
    assert_eq!(p.get_position(), Point { x: 10400, y: 9600 });
    assert!(p.moving);
    // under way: the new key is not read, target and facing stay
    p.update(&hold(Direction::Up), 50_000, &map);
    assert_eq!(p.get_position(), Point { x: 11200, y: 9600 });
    assert_eq!(p.target, Point { x: 12800, y: 9600 });
    assert_eq!(p.facing, Direction::Right);
    p.update(&hold(Direction::Up), 100_000, &map);
    assert_eq!(p.get_position(), Point { x: 12800, y: 9600 });
    assert!(!p.moving);
    // on the lattice again: now it is
    p.update(&hold(Direction::Up), 200_000, &map);
    assert_eq!(p.get_position(), Point { x: 12800, y: 6400 });
    assert_eq!(p.facing, Direction::Up);
}

#[test]
fn blocked_step_is_not_taken_but_turns_the_player() {
    let mut p = Player::test_new();
    let map = WorldMap::new();
    // walk to the left wall: tiles 3 -> 1
    p.update(&hold(Direction::Left), 200_000, &map);
    p.update(&hold(Direction::Left), 200_000, &map);
    assert_eq!(p.get_position(), Point { x: 3200, y: 9600 });
    p.update(&hold(Direction::Left), 200_000, &map);
    assert_eq!(p.get_position(), Point { x: 3200, y: 9600 });
    assert!(!p.moving);
    assert_eq!(p.facing, Direction::Left);
    // a small step toward the wall is refused as well: the hitbox is inset
    // by 160 units, so 266 units reach into the wall
    p.update(&hold(Direction::Left), 16_667, &map);
    assert_eq!(p.get_position(), Point { x: 3200, y: 9600 });
    assert!(!p.moving);
    // one of 100 units fits into the inset, and is undone once the step
    // is blocked on the next tick
    p.update(&hold(Direction::Left), 6_250, &map);
    assert_eq!(p.get_position(), Point { x: 3100, y: 9600 });
    assert!(p.moving);
    p.update(&hold(Direction::Left), 6_250, &map);
    assert!(!p.moving);
    assert_eq!(p.get_position(), Point { x: 3200, y: 9600 });
}

#[test]
fn idle_player_is_on_the_lattice_after_every_tick() {
    let map = WorldMap::new();
    let mut p = Player::test_new();
    let dirs = [
        Direction::Left,
        Direction::Up,
        Direction::Right,
        Direction::Down,
        Direction::Right,
        Direction::Down,
    ];
    let times: [u64; 7] = [1, 999, 6_250, 16_667, 33_333, 70_000, 200_000];
    let mut n = 0;
    for round in 0..40 {
        for d in dirs.iter() {
            let dt = times[(n * 3 + round) % times.len()];
            p.update(&hold(*d), dt, &map);
            if !p.moving {
                assert!(at_most_half_a_pixel_off(p.get_position()));
            }
            let pos = p.get_position();
            assert!(0 <= pos.x && pos.x <= 64000 - 3200);
            assert!(0 <= pos.y && pos.y <= 48000 - 3200);
            n += 1;
        }
    }
}

#[test]
fn player_leaves_the_bed_to_the_east_only() {
    let map = WorldMap::new();
    // from (2, 12) up to (2, 11): bed to bed
    let mut p = Player::new();
    p.update(&hold(Direction::Up), 200_000, &map);
    assert_eq!(p.get_position(), Point { x: 6400, y: 35200 });
    // from (2, 11) up into the table
    p.update(&hold(Direction::Up), 200_000, &map);
    assert_eq!(p.get_position(), Point { x: 6400, y: 35200 });
    // from (2, 11) left to (1, 11), then up into the other table
    p.update(&hold(Direction::Left), 200_000, &map);
    assert_eq!(p.get_position(), Point { x: 3200, y: 35200 });
    p.update(&hold(Direction::Up), 200_000, &map);
    assert_eq!(p.get_position(), Point { x: 3200, y: 35200 });
    // back to the right column and out to the east
    p.update(&hold(Direction::Right), 200_000, &map);
    assert_eq!(p.get_position(), Point { x: 6400, y: 35200 });
    p.update(&hold(Direction::Right), 200_000, &map);
    assert_eq!(p.get_position(), Point { x: 9600, y: 35200 });
    // and in again, westward
    p.update(&hold(Direction::Left), 200_000, &map);
    assert_eq!(p.get_position(), Point { x: 6400, y: 35200 });
    // down to (2, 12) and further down into the solid foot of the bed
    p.update(&hold(Direction::Down), 200_000, &map);
    assert_eq!(p.get_position(), Point { x: 6400, y: 38400 });
    p.update(&hold(Direction::Down), 200_000, &map);
    assert_eq!(p.get_position(), Point { x: 6400, y: 38400 });
}

#[test]
fn player_cannot_step_onto_the_bed_from_above_or_below() {
    let map = WorldMap::new();
    let mut p = Player::test_new();
    // walk from (3, 3) down to (3, 11), beside the bed
    for _ in 0..8 {
        p.update(&hold(Direction::Down), 200_000, &map);
    }
    assert_eq!(p.get_position(), Point { x: 9600, y: 35200 });
    // in small steps the hitbox crosses into the bed tile westward
    p.update(&hold(Direction::Left), 100_000, &map);
    assert_eq!(p.get_position(), Point { x: 8000, y: 35200 });
    assert!(p.moving);
    p.update(&hold(Direction::Left), 100_000, &map);
    assert_eq!(p.get_position(), Point { x: 6400, y: 35200 });
    assert!(!p.moving);
}

#[test]
fn open_door_frame_stops_the_player() {
    let mut map = WorldMap::new();
    let mut p = Player::test_new();
    // from (3, 3) to (10, 1), below the door
    for _ in 0..7 {
        p.update(&hold(Direction::Right), 200_000, &map);
    }
    for _ in 0..2 {
        p.update(&hold(Direction::Up), 200_000, &map);
    }
    assert_eq!(p.get_position(), Point { x: 32000, y: 3200 });
    p.update(&hold(Direction::Up), 200_000, &map);
    assert_eq!(p.get_position(), Point { x: 32000, y: 3200 });
    assert!(map.interact_tile(10, 0));
    p.update(&hold(Direction::Up), 200_000, &map);
    assert_eq!(p.get_position(), Point { x: 32000, y: 3200 });
    assert!(!p.moving);
}

#[test]
fn player_is_kept_inside_a_smaller_room() {
    let mut map = WorldMap::new();
    map.add_room(GridRoom::new(3, 3));
    map.set_current(1);
    let mut p = Player::test_new();
    p.update(&HeldKeys::none(), 16_667, &map);
    assert_eq!(p.get_position(), Point { x: 6400, y: 6400 });
    let mut p = Player::test_new();
    p.update_with_dir(None, 16_667, &map);
    assert_eq!(p.get_position(), Point { x: 6400, y: 6400 });
}

#[test]
fn handle_key_aims_one_step_away() {
    let mut p = Player::test_new();
    p.handle_key(Key::Right);
    assert!(p.moving);
    assert_eq!(p.target, Point { x: 12800, y: 9600 });
    assert_eq!(p.get_position(), Point { x: 9600, y: 9600 });
    assert_eq!(p.facing, Direction::Down);
    p.handle_key(Key::A);
    assert_eq!(p.target, Point { x: 6400, y: 9600 });
    p.handle_key(Key::W);
    assert_eq!(p.target, Point { x: 9600, y: 6400 });
    p.handle_key(Key::Down);
    assert_eq!(p.target, Point { x: 9600, y: 12800 });
    p.handle_key(Key::D);
    assert_eq!(p.target, Point { x: 12800, y: 9600 });
    p.handle_key(Key::Left);
    assert_eq!(p.target, Point { x: 6400, y: 9600 });
    p.handle_key(Key::Up);
    assert_eq!(p.target, Point { x: 9600, y: 6400 });
    p.handle_key(Key::S);
    assert_eq!(p.target, Point { x: 9600, y: 12800 });
}

#[test]
fn handle_key_ignores_other_keys() {
    let mut p = Player::test_new();
    for key in [Key::X, Key::Z, Key::C, Key::Return, Key::Space, Key::Escape, Key::Other] {
        p.handle_key(key);
        assert!(!p.moving);
        assert_eq!(p.target, Point { x: 9600, y: 9600 });
    }
}

#[test]
fn handle_key_steps_at_least_half_a_tile() {
    let mut p = Player::test_new();
    p.grid_size = 0;
    // half a tile to the right is half way: the farther lattice line wins
    p.handle_key(Key::Right);
    assert_eq!(p.target, Point { x: 12800, y: 9600 });
    // half a tile to the left as well, which for this player is its own
    p.handle_key(Key::Left);
    assert_eq!(p.target, Point { x: 9600, y: 9600 });
    p.grid_size = -5;
    p.handle_key(Key::Down);
    assert_eq!(p.target, Point { x: 9600, y: 12800 });
    p.grid_size = 6400;
    p.handle_key(Key::Down);
    assert_eq!(p.target, Point { x: 9600, y: 16000 });
    p.grid_size = 4700;
    p.handle_key(Key::Up);
    assert_eq!(p.target, Point { x: 9600, y: 6400 });
    p.grid_size = 4800;
    p.handle_key(Key::Up);
    assert_eq!(p.target, Point { x: 9600, y: 6400 });
    p.grid_size = 4801;
    p.handle_key(Key::Up);
    assert_eq!(p.target, Point { x: 9600, y: 3200 });
}

#[test]
fn key_press_starts_a_step_that_update_carries_out() {
    let mut p = Player::test_new();
    let map = WorldMap::new();
    p.handle_key(Key::Right);
    p.update(&HeldKeys::none(), 100_000, &map);
    assert_eq!(p.get_position(), Point { x: 11200, y: 9600 });
    assert!(p.moving);
    p.update(&HeldKeys::none(), 100_000, &map);
    assert_eq!(p.get_position(), Point { x: 12800, y: 9600 });
    assert!(!p.moving);
}

#[test]
fn snap_to_grid_center_goes_to_the_middle_of_the_tile() {
    let mut p = Player::test_new();
    p.snap_to_grid_center();
    assert_eq!(p.get_position(), Point { x: 11200, y: 11200 });
    // from the middle the nearest lattice point is the next one
    p.snap_to_grid_center();
    assert_eq!(p.get_position(), Point { x: 14400, y: 14400 });
}

#[test]
fn standing_still_costs_nothing() {
    let mut p = Player::test_new();
    let map = WorldMap::new();
    p.update(&HeldKeys::none(), 0, &map);
    p.update(&HeldKeys::none(), 16_667, &map);
    p.update(&HeldKeys::none(), u64::MAX, &map);
    assert_eq!(p.get_position(), Point { x: 9600, y: 9600 });
    assert!(!p.moving);
    assert_eq!(p.facing, Direction::Down);
}

#[test]
fn tick_of_no_time_starts_a_step_without_moving() {
    let mut p = Player::test_new();
    let map = WorldMap::new();
    p.update(&hold(Direction::Right), 0, &map);
    assert_eq!(p.get_position(), Point { x: 9600, y: 9600 });
    assert!(p.moving);
    assert_eq!(p.target, Point { x: 12800, y: 9600 });
}

#[test]
fn step_on_the_way_moves_along_one_axis_by_the_step() {
    let map = WorldMap::new();
    // target to the right, a little lower than the player: the larger
    // distance decides the axis
    let mut p = Player::test_new();
    p.moving = true;
    p.target = Point { x: 12800, y: 9700 };
    p.update(&HeldKeys::none(), 10_000, &map);
    assert_eq!(p.get_position(), Point { x: 9760, y: 9600 });
    assert!(p.moving);
    // equal distances: the vertical axis
    let mut p = Player::test_new();
    p.update(&HeldKeys::only(Direction::Down), 50_000, &map);
    assert_eq!(p.get_position(), Point { x: 9600, y: 10400 });
    let mut p = Player::test_new();
    p.moving = true;
    p.target = Point { x: 6400, y: 6400 };
    p.update(&HeldKeys::none(), 500_000 / 16, &map);
    assert_eq!(p.get_position(), Point { x: 9600, y: 9100 });
    assert!(p.moving);
    // a tick too short for one unit moves nothing
    let mut p = Player::test_new();
    p.update(&HeldKeys::only(Direction::Right), 62, &map);
    assert_eq!(p.get_position(), Point { x: 9600, y: 9600 });
    assert!(p.moving);
    p.update(&HeldKeys::only(Direction::Right), 63, &map);
    assert_eq!(p.get_position(), Point { x: 9601, y: 9600 });
}

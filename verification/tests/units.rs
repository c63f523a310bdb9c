use tale_rpg::units::distance_squared;
use tale_rpg::units::nearest_tile_index;
use tale_rpg::units::tile_index;
use tale_rpg::units::tile_index_of_sum;
use tale_rpg::units::Direction;
use tale_rpg::units::Point;
use tale_rpg::units::TILE_SIZE;
use tale_rpg::units::UNITS_PER_PIXEL;

#[test]
fn a_tile_is_thirty_two_pixels() {
    assert_eq!(TILE_SIZE, 32 * UNITS_PER_PIXEL);
    assert_eq!(tale_rpg::units::TILE_PIXELS, 32);
    assert_eq!(tale_rpg::units::HALF_TILE * 2, TILE_SIZE);
    assert_eq!(tale_rpg::units::WORLD_LIMIT, tale_rpg::units::MAX_SIDE as i64 * TILE_SIZE);
}

#[test]
fn tile_index_is_a_floor() {
    assert_eq!(tile_index(0), 0);
    assert_eq!(tile_index(3199), 0);
    assert_eq!(tile_index(3200), 1);
    assert_eq!(tile_index(-1), -1);
    assert_eq!(tile_index(-3200), -1);
    assert_eq!(tile_index(-3201), -2);
    assert_eq!(tile_index(i64::MIN), -2882303761517118);
    assert_eq!(tile_index(i64::MAX), 2882303761517117);
}

#[test]
fn tile_index_of_sum_does_not_overflow() {
    assert_eq!(tile_index_of_sum(3000, 200), 1);
    assert_eq!(tile_index_of_sum(3000, 199), 0);
    assert_eq!(tile_index_of_sum(0, -1), -1);
    assert_eq!(tile_index_of_sum(i64::MAX, i64::MAX), 5764607523034234);
    assert_eq!(tile_index_of_sum(i64::MIN, i64::MIN), -5764607523034235);
}

#[test]
fn nearest_tile_rounds_half_away_from_zero() {
    assert_eq!(nearest_tile_index(0), 0);
    assert_eq!(nearest_tile_index(1599), 0);
    assert_eq!(nearest_tile_index(1600), 1);
    assert_eq!(nearest_tile_index(4799), 1);
    assert_eq!(nearest_tile_index(4800), 2);
    assert_eq!(nearest_tile_index(-1599), 0);
    assert_eq!(nearest_tile_index(-1600), -1);
    assert_eq!(nearest_tile_index(-4799), -1);
    assert_eq!(nearest_tile_index(-4800), -2);
    assert_eq!(nearest_tile_index(i32::MAX), 671089);
    assert_eq!(nearest_tile_index(i32::MIN), -671089);
}

#[test]
fn distance_squared_of_far_points() {
    let a = Point { x: 3, y: 4 };
    let b = Point { x: 0, y: 0 };
    assert_eq!(distance_squared(a, b), 25);
    assert_eq!(distance_squared(b, a), 25);
    let lo = Point { x: i32::MIN, y: i32::MIN };
    let hi = Point { x: i32::MAX, y: i32::MAX };
    assert_eq!(distance_squared(lo, hi), 2 * 4294967295u128 * 4294967295u128);
}

#[test]
fn direction_deltas() {
    assert_eq!(Direction::Left.delta(), (-1, 0));
    assert_eq!(Direction::Right.delta(), (1, 0));
    assert_eq!(Direction::Up.delta(), (0, -1));
    assert_eq!(Direction::Down.delta(), (0, 1));
}

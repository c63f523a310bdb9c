use tale_rpg::rooms::surround;
use tale_rpg::rooms::GridRoom;
use tale_rpg::rooms::Room;
use tale_rpg::rooms::Surround;
use tale_rpg::rooms::Tile;

fn default_room() -> GridRoom {
    GridRoom::new(20, 15)
}

#[test]
fn new_room_has_a_wall_all_around() {
    let room = default_room();
    for x in 0..20 {
        if x != 10 {
            assert_eq!(room.tile(x, 0), Some(Tile::Wall));
        }
        assert_eq!(room.tile(x, 14), Some(Tile::Wall));
    }
    for y in 0..15 {
        assert_eq!(room.tile(0, y), Some(Tile::Wall));
        assert_eq!(room.tile(19, y), Some(Tile::Wall));
    }
    assert_eq!(room.tile(5, 5), Some(Tile::Floor));
    assert_eq!(room.tile(18, 13), Some(Tile::Floor));
}

#[test]
fn new_room_has_its_door_in_the_middle_of_the_top_wall() {
    let room = default_room();
    assert_eq!(room.tile(10, 0), Some(Tile::DoorClosed));
    let odd = GridRoom::new(7, 6);
    assert_eq!(odd.tile(3, 0), Some(Tile::DoorClosed));
    let tiny = GridRoom::new(1, 1);
    assert_eq!(tiny.tile(0, 0), Some(Tile::DoorClosed));
}

#[test]
fn new_room_has_the_nook() {
    let room = default_room();
    assert_eq!(room.tile(1, 10), Some(Tile::Table));
    assert_eq!(room.tile(2, 10), Some(Tile::Table));
    assert_eq!(room.tile(1, 11), Some(Tile::Bed));
    assert_eq!(room.tile(2, 11), Some(Tile::Bed));
    assert_eq!(room.tile(1, 12), Some(Tile::Bed));
    assert_eq!(room.tile(2, 12), Some(Tile::Bed));
    assert_eq!(room.tile(1, 13), Some(Tile::Fwall));
    assert_eq!(room.tile(2, 13), Some(Tile::Fwall));
    assert_eq!(room.tile(3, 11), Some(Tile::Floor));
    assert_eq!(room.tile(3, 10), Some(Tile::Floor));
}

#[test]
fn small_rooms_have_no_nook() {
    let narrow = GridRoom::new(3, 10);
    assert_eq!(narrow.tile(1, 6), Some(Tile::Floor));
    assert_eq!(narrow.tile(1, 7), Some(Tile::Floor));
    let low = GridRoom::new(10, 4);
    assert_eq!(low.tile(1, 1), Some(Tile::Floor));
    assert_eq!(low.tile(2, 2), Some(Tile::Floor));
}

#[test]
fn five_row_room_has_the_bed_but_no_tables() {
    let room = GridRoom::new(5, 5);
    // the row above the nook is the top wall, which stays wall and door
    assert_eq!(room.tile(1, 0), Some(Tile::Wall));
    assert_eq!(room.tile(2, 0), Some(Tile::DoorClosed));
    assert_eq!(room.tile(1, 1), Some(Tile::Bed));
    assert_eq!(room.tile(2, 1), Some(Tile::Bed));
    assert_eq!(room.tile(1, 2), Some(Tile::Bed));
    assert_eq!(room.tile(2, 2), Some(Tile::Bed));
    assert_eq!(room.tile(1, 3), Some(Tile::Fwall));
    assert_eq!(room.tile(2, 3), Some(Tile::Fwall));
    assert_eq!(room.tile(3, 1), Some(Tile::Floor));
    assert_eq!(room.tile(0, 0), Some(Tile::Wall));
}

#[test]
fn six_row_room_has_its_tables_below_the_top_wall() {
    let room = GridRoom::new(4, 6);
    assert_eq!(room.tile(1, 0), Some(Tile::Wall));
    assert_eq!(room.tile(2, 0), Some(Tile::DoorClosed));
    assert_eq!(room.tile(1, 1), Some(Tile::Table));
    assert_eq!(room.tile(2, 1), Some(Tile::Table));
    assert_eq!(room.tile(1, 2), Some(Tile::Bed));
    assert_eq!(room.tile(2, 3), Some(Tile::Bed));
    assert_eq!(room.tile(1, 4), Some(Tile::Fwall));
}

#[test]
fn every_room_is_walled_all_around_with_one_door() {
    for height in 1..9 {
        for width in 1..9 {
            let room = GridRoom::new(width, height);
            let mut doors = 0;
            for y in 0..height {
                for x in 0..width {
                    let tile = room.tile(x, y);
                    if tile == Some(Tile::DoorClosed) {
                        doors += 1;
                        assert_eq!((x, y), (width / 2, 0));
                    }
                    let border = x == 0 || y == 0 || x == width - 1 || y == height - 1;
                    if border && (x, y) != (width / 2, 0) {
                        assert_eq!(tile, Some(Tile::Wall));
                    }
                    if !border {
                        assert_ne!(tile, Some(Tile::Wall));
                    }
                }
            }
            assert_eq!(doors, 1);
        }
    }
}

#[test]
fn tile_outside_the_room_is_none() {
    let room = default_room();
    assert_eq!(room.tile(20, 0), None);
    assert_eq!(room.tile(0, 15), None);
    assert_eq!(room.tile(usize::MAX, usize::MAX), None);
}

#[test]
fn room_size_in_pixels() {
    let room = default_room();
    assert_eq!(room.width_pixels(), 640);
    assert_eq!(room.height_pixels(), 480);
    let other = GridRoom::new(7, 3);
    assert_eq!(other.width_pixels(), 224);
    assert_eq!(other.height_pixels(), 96);
}

#[test]
fn rect_with_negative_corner_is_not_free() {
    let room = default_room();
    assert!(!room.is_rect_free(-100, 500, 1000, 1000));
    assert!(!room.is_rect_free(500, -100, 1000, 1000));
    assert!(!room.is_rect_free(-1, -1, 0, 0));
    assert!(!room.is_rect_free(i64::MIN, 5000, 100, 100));
}

#[test]
fn rect_that_leaves_the_room_is_not_free() {
    let room = default_room();
    assert!(room.is_rect_free(57600, 41600, 3199, 3199));
    assert!(!room.is_rect_free(57600, 41600, 6400, 100));
    assert!(!room.is_rect_free(57600, 41600, 100, 6400));
    assert!(!room.is_rect_free(64000, 4000, 100, 100));
    assert!(!room.is_rect_free(4000, 48000, 100, 100));
    assert!(!room.is_rect_free(4000, 4000, i64::MAX, 100));
    assert!(!room.is_rect_free(i64::MAX, i64::MAX, i64::MAX, i64::MAX));
}

#[test]
fn rect_on_open_floor_is_free() {
    let room = default_room();
    assert!(room.is_rect_free(9600, 9600, 3199, 3199));
    assert!(room.is_rect_free(9600, 9600, 6400, 6400));
    assert!(room.is_rect_free(3200, 3200, 0, 0));
}

#[test]
fn rect_that_covers_nothing_is_free() {
    let room = default_room();
    // The span ends left of where it starts, so no cell is overlapped.
    assert!(room.is_rect_free(9600, 9600, -6400, 100));
    assert!(room.is_rect_free(9600, 9600, 100, -6400));
    // Even where the other span leaves the room.
    assert!(room.is_rect_free(9600, 9600, i64::MAX, -6400));
}

#[test]
fn solid_tiles_block() {
    let room = default_room();
    // wall
    assert!(!room.is_rect_free(100, 9600, 100, 100));
    // reaching into the wall from the floor
    assert!(!room.is_rect_free(3200, 3200, 100, 100) == false);
    assert!(!room.is_rect_free(3100, 3200, 200, 100));
    // closed door
    assert!(!room.is_rect_free(32100, 100, 100, 100));
    // table
    assert!(!room.is_rect_free(3300, 32100, 100, 100));
    // solid foot of the bed
    assert!(!room.is_rect_free(3300, 41700, 100, 100));
}

#[test]
fn bed_is_walkable() {
    let room = default_room();
    assert!(room.is_rect_free(3360, 35360, 2880, 2880));
    assert!(room.is_rect_free(6560, 38560, 2880, 2880));
    assert!(room.is_rect_free(3200, 35200, 6399, 6399));
}

#[test]
fn open_door_is_free_but_for_its_frame() {
    let mut room = default_room();
    assert!(room.interact_tile(10, 0));
    assert_eq!(room.tile(10, 0), Some(Tile::DoorOpen));
    // The door has walls left and right: its frame runs along the top and
    // bottom edge, 256 units thick.
    assert!(room.is_rect_free(32100, 256, 1000, 2688));
    assert!(!room.is_rect_free(32100, 255, 1000, 1000));
    assert!(!room.is_rect_free(32100, 256, 1000, 2689));
    assert!(room.is_rect_free(32000, 1000, 3199, 1000));
    // the player's hitbox, nine tenths of a tile, touches both strips
    assert!(!room.is_rect_free(32160, 160, 2880, 2880));
}

#[test]
fn point_probe_is_centred() {
    let room = default_room();
    assert!(!room.is_solid_at_point(11200, 11200));
    assert!(room.is_solid_at_point(1600, 1600));
    // one pixel wide: 50 units to each side
    assert!(room.is_solid_at_point(3249, 8000));
    assert!(!room.is_solid_at_point(3250, 8000));
    assert!(room.is_solid_at_point(49, 8000));
    assert!(room.is_solid_at_point(8000, 49));
    assert!(room.is_solid_at_point(-5, 8000));
    assert!(room.is_solid_at_point(i64::MIN, i64::MIN));
    assert!(room.is_solid_at_point(i64::MAX, i64::MAX));
    // right up to the wall on the far side
    assert!(!room.is_solid_at_point(60749, 8000));
    assert!(room.is_solid_at_point(60750, 8000));
}

#[test]
fn door_toggles_in_pairs() {
    let mut room = default_room();
    assert_eq!(room.tile(10, 0), Some(Tile::DoorClosed));
    assert!(room.interact_tile(10, 0));
    assert_eq!(room.tile(10, 0), Some(Tile::DoorOpen));
    assert!(room.interact_tile(10, 0));
    assert_eq!(room.tile(10, 0), Some(Tile::DoorClosed));
}

#[test]
fn interaction_leaves_other_tiles_alone() {
    let mut room = default_room();
    let before = default_room();
    assert!(!room.interact_tile(5, 5));
    assert!(!room.interact_tile(0, 0));
    assert!(!room.interact_tile(1, 11));
    assert!(!room.interact_tile(1, 10));
    assert!(!room.interact_tile(1, 13));
    assert!(!room.interact_tile(20, 0));
    assert!(!room.interact_tile(0, 15));
    assert!(!room.interact_tile(usize::MAX, usize::MAX));
    for y in 0..15 {
        for x in 0..20 {
            assert_eq!(room.tile(x, y), before.tile(x, y));
        }
    }
    assert!(room.interact_tile(10, 0));
    for y in 0..15 {
        for x in 0..20 {
            if (x, y) != (10, 0) {
                assert_eq!(room.tile(x, y), before.tile(x, y));
            }
        }
    }
}

#[test]
fn door_wants_an_orthogonal_neighbour() {
    let mut room = default_room();
    assert!(room.can_interact_tile(10, 0, 10, 1));
    assert!(room.can_interact_tile(10, 0, 9, 0));
    assert!(room.can_interact_tile(10, 0, 11, 0));
    // the same cell
    assert!(!room.can_interact_tile(10, 0, 10, 0));
    // diagonal
    assert!(!room.can_interact_tile(10, 0, 9, 1));
    assert!(!room.can_interact_tile(10, 0, 11, 1));
    // two away
    assert!(!room.can_interact_tile(10, 0, 10, 2));
    assert!(!room.can_interact_tile(10, 0, 12, 0));
    assert!(!room.can_interact_tile(10, 0, 8, 0));
    // far away, where a narrow integer would wrap
    assert!(!room.can_interact_tile(10, 0, 4294967307, 0));
    assert!(!room.can_interact_tile(10, 0, usize::MAX, 0));
    // an open door is a door as well
    assert!(room.interact_tile(10, 0));
    assert!(room.can_interact_tile(10, 0, 10, 1));
    assert!(!room.can_interact_tile(10, 0, 10, 0));
}

#[test]
fn only_doors_can_be_interacted_with() {
    let room = default_room();
    assert!(!room.can_interact_tile(5, 5, 5, 6));
    assert!(!room.can_interact_tile(0, 0, 0, 1));
    assert!(!room.can_interact_tile(1, 11, 1, 12));
    assert!(!room.can_interact_tile(20, 0, 19, 0));
    assert!(!room.can_interact_tile(0, 15, 0, 14));
}

#[test]
fn bed_is_entered_only_westward_onto_its_right_column() {
    let room = default_room();
    // from the floor east of the bed, west onto (2, 11)
    assert!(room.is_movement_allowed(9760, 35360, 6560, 35360, 2880, 2880));
    assert!(room.is_movement_allowed(9760, 38560, 6560, 38560, 2880, 2880));
    // eastward onto the same tile
    assert!(!room.is_movement_allowed(3360, 32160, 6560, 35360, 2880, 2880));
    // straight down onto it
    assert!(!room.is_movement_allowed(6560, 32160, 6560, 35360, 2880, 2880));
    // westward, but onto the left column
    assert!(!room.is_movement_allowed(9760, 35360, 3360, 35360, 2880, 2880));
}

#[test]
fn bed_is_left_only_eastward_from_its_right_column() {
    let room = default_room();
    // east out of (2, 11) and (2, 12)
    assert!(room.is_movement_allowed(6560, 35360, 9760, 35360, 2880, 2880));
    assert!(room.is_movement_allowed(6560, 38560, 9760, 38560, 2880, 2880));
    // east out of the left column, past the right one
    assert!(!room.is_movement_allowed(3360, 35360, 9760, 35360, 2880, 2880));
    // north-east out of the upper row
    assert!(!room.is_movement_allowed(6560, 35360, 9760, 32160, 2880, 2880));
    // north-east out of the lower row is a way out to the east
    assert!(room.is_movement_allowed(6560, 38560, 9760, 35360, 2880, 2880));
    // south-east out of the upper row as well
    assert!(room.is_movement_allowed(6560, 35360, 9760, 38560, 2880, 2880));
}

#[test]
fn moves_on_the_bed_and_off_it_follow_collision_alone() {
    let room = default_room();
    assert!(room.is_movement_allowed(3360, 35360, 6560, 35360, 2880, 2880));
    assert!(room.is_movement_allowed(6560, 35360, 3360, 38560, 2880, 2880));
    assert!(room.is_movement_allowed(9760, 9760, 12960, 9760, 2880, 2880));
    assert!(room.is_movement_allowed(12960, 9760, 9760, 9760, 2880, 2880));
    // into a wall
    assert!(!room.is_movement_allowed(3360, 9760, 160, 9760, 2880, 2880));
    // off the bed into the table above it
    assert!(!room.is_movement_allowed(6560, 35360, 6560, 32160, 2880, 2880));
    // out of the room
    assert!(!room.is_movement_allowed(9760, 9760, -160, 9760, 2880, 2880));
}

#[test]
fn surround_of_a_corner_wall() {
    let room = default_room();
    let s = surround(&room, 0, 0);
    assert_eq!(
        s,
        Surround {
            left_wall: false,
            right_wall: true,
            up_wall: false,
            down_wall: true,
            left_joint: false,
            right_joint: true,
            up_joint: false,
            down_joint: true,
            horizontal: true,
        }
    );
}

#[test]
fn surround_tells_open_doors_from_joints() {
    let mut room = default_room();
    let closed = surround(&room, 9, 0);
    assert!(closed.right_wall);
    assert!(closed.right_joint);
    assert!(room.interact_tile(10, 0));
    let open = surround(&room, 9, 0);
    assert!(open.right_wall);
    assert!(!open.right_joint);
    assert!(open.left_wall);
    assert!(open.left_joint);
}

#[test]
fn surround_orientation() {
    let room = default_room();
    // left wall, away from the corners: walls above and below only
    let side = surround(&room, 0, 5);
    assert!(side.up_wall && side.down_wall && !side.left_wall && !side.right_wall);
    assert!(!side.horizontal);
    // bottom row is always horizontal
    assert!(surround(&room, 5, 14).horizontal);
    assert!(surround(&room, 0, 14).horizontal);
    // open floor has no wall about it: as many beside as above and below
    let floor = surround(&room, 5, 5);
    assert!(floor.horizontal);
    assert!(!floor.left_wall && !floor.right_wall && !floor.up_wall && !floor.down_wall);
    // floor under the top wall
    let under = surround(&room, 5, 1);
    assert!(under.up_wall);
    assert!(!under.horizontal);
}

#[test]
fn bed_is_drawn_from_its_upper_left_tile() {
    let room = default_room();
    assert!(tale_rpg::rooms::is_bed_anchor(&room, 1, 11));
    assert!(!tale_rpg::rooms::is_bed_anchor(&room, 2, 11));
    assert!(!tale_rpg::rooms::is_bed_anchor(&room, 1, 12));
    assert!(!tale_rpg::rooms::is_bed_anchor(&room, 1, 10));
    assert!(!tale_rpg::rooms::is_bed_anchor(&room, 5, 5));
    assert!(!tale_rpg::rooms::is_bed_anchor(&room, 1, 15));
    let low = GridRoom::new(10, 4);
    assert!(!tale_rpg::rooms::is_bed_anchor(&low, 1, 0));
}

//! The bordered rectangular room with a door and a furniture nook.
//!
//! The nook sits against the left wall near the bottom: two columns wide
//! and three rows tall. Its upper two rows are bed tiles one can walk on, its
//! lowest row is solid, and a table stands on the row above it where that
//! row is not the top wall. The bed can only be entered and left through
//! its right-hand column.
//!
//! The outermost rows and columns are wall throughout, but for the one door
//! in the middle of the top row; no furniture ever stands in them.

use vstd::prelude::*;
use super::Room;
use super::cell_clear;
use super::cols;
use super::grid_wf;
use super::in_grid;
use super::lemma_toggle_touches_one_door;
use super::lemma_free_cells_in_grid;
use super::joint_at;
use super::rect_free;
use super::rows;
use super::span_hits_frame;
use super::tile_at;
use super::toggled;
use super::FRAME_MARGIN;
use super::PROBE_SIZE;
use crate::units::tile_index;
use crate::units::tile_index_of_sum;
use crate::units::tile_of;
use crate::units::MAX_SIDE;
use crate::units::TILE_PIXELS;
use crate::units::TILE_SIZE;

verus! {

/// The kind of one grid cell.
#[derive(Clone, Copy, Debug, PartialEq, Eq, Structural)]
pub enum Tile {
    /// Walkable ground.
    Floor,
    /// Solid wall.
    Wall,
    /// A closed door: solid, opens on interaction.
    DoorClosed,
    /// An open door: passable but for its frame, closes on interaction.
    DoorOpen,
    /// Walkable bed, subject to the rules of the nook.
    Bed,
    /// Solid like a wall, but not drawn or joined as one.
    Fwall,
    /// Solid furniture.
    Table,
}

impl Tile {
    /// A door in either state.
    pub open spec fn is_door(self) -> bool {
        self == Tile::DoorClosed || self == Tile::DoorOpen
    }

    /// The other state of a door; any other tile stays what it is.
    pub open spec fn flipped(self) -> Tile {
        match self {
            Tile::DoorClosed => Tile::DoorOpen,
            Tile::DoorOpen => Tile::DoorClosed,
            _ => self,
        }
    }

    /// A wall or a closed door: what the orientation of a door goes by.
    pub open spec fn anchors_door(self) -> bool {
        self == Tile::Wall || self == Tile::DoorClosed
    }

    /// A wall or a door in either state: what the renderer joins walls to.
    pub open spec fn is_wall_like(self) -> bool {
        self == Tile::Wall || self == Tile::DoorClosed || self == Tile::DoorOpen
    }

    /// Equal, or two states of a door.
    pub open spec fn same_up_to_door(self, other: Tile) -> bool {
        self == other || (self.is_door() && other.is_door())
    }
}

/// Whether a room of this size is large enough to hold the nook.
pub open spec fn has_nook(width: int, height: int) -> bool {
    width > 3 && height > 4
}

/// Whether a room of this size has tables above its nook: it has the nook,
/// and the row above the nook is not the top wall.
pub open spec fn has_tables(width: int, height: int) -> bool {
    has_nook(width, height) && height > 5
}

/// Whether `(x, y)` lies in an outermost row or column of a room of `width`
/// by `height` tiles.
pub open spec fn on_border(width: int, height: int, x: int, y: int) -> bool {
    x == 0 || y == 0 || x == width - 1 || y == height - 1
}

/// Whether `(x, y)` is the cell of the door of a room `width` tiles wide:
/// the middle of the top row.
pub open spec fn is_door_cell(width: int, x: int, y: int) -> bool {
    y == 0 && x == width / 2
}

/// The tile a new room of `width` by `height` tiles has at `(x, y)`.
///
/// The border is wall all around, with a closed door in the middle of the
/// top row. Inside, where the room is large enough, stands the nook: bed at
/// columns 1 and 2 of the fourth and third row from the bottom, a solid row
/// below the bed, and, in a room of more than five rows, tables on the row
/// above it. Everything else is floor.
pub open spec fn initial_tile(width: int, height: int, x: int, y: int) -> Tile {
    if is_door_cell(width, x, y) {
        Tile::DoorClosed
    } else if on_border(width, height, x, y) {
        Tile::Wall
    } else if has_tables(width, height) && 1 <= x <= 2 && y == height - 5 {
        Tile::Table
    } else if has_nook(width, height) && 1 <= x <= 2 && height - 4 <= y <= height - 3 {
        Tile::Bed
    } else if has_nook(width, height) && 1 <= x <= 2 && y == height - 2 {
        Tile::Fwall
    } else {
        Tile::Floor
    }
}

/// The grid of a new room of `width` by `height` tiles.
pub open spec fn initial_grid(width: int, height: int) -> Seq<Seq<Tile>> {
    Seq::new(
        height as nat,
        |y: int| Seq::new(width as nat, |x: int| initial_tile(width, height, x, y)),
    )
}

/// Whether every cell of the grid is what it was when the room was made, but
/// for the state of its doors.
pub open spec fn keeps_layout(g: Seq<Seq<Tile>>) -> bool {
    forall|x: int, y: int|
        in_grid(g, x, y) ==> (#[trigger] g[y][x]).same_up_to_door(
            initial_tile(cols(g), rows(g), x, y),
        )
}

/// Whether the point `(x, y)` lies on a bed tile.
pub open spec fn on_bed(g: Seq<Seq<Tile>>, x: int, y: int) -> bool {
    tile_at(g, tile_of(x), tile_of(y)) == Some(Tile::Bed)
}

/// Whether the point `(x, y)` lies on a bed tile of the right-hand column,
/// the only way into and out of the nook.
pub open spec fn bed_door(g: Seq<Seq<Tile>>, x: int, y: int) -> bool {
    on_bed(g, x, y) && tile_of(x) == 2
}

/// Whether the point `(x, y)` lies in the row of the upper bed tiles.
pub open spec fn in_top_bed_row(g: Seq<Seq<Tile>>, y: int) -> bool {
    tile_of(y) == rows(g) - 4
}

/// The rule of the nook on a move from `(from_x, from_y)` to
/// `(to_x, to_y)`. The bed is entered only westward, onto its right-hand
/// column; it is left only eastward, from that column, and never northward
/// from its upper row. Moves that stay on the bed or off it are free.
pub open spec fn nook_rule(
    g: Seq<Seq<Tile>>,
    from_x: int,
    from_y: int,
    to_x: int,
    to_y: int,
) -> bool {
    let from_bed = on_bed(g, from_x, from_y);
    let to_bed = on_bed(g, to_x, to_y);
    if from_bed && !to_bed && to_y < from_y && in_top_bed_row(g, from_y) {
        false
    } else if !from_bed && to_bed {
        to_x < from_x && bed_door(g, to_x, to_y)
    } else if from_bed && !to_bed {
        to_x > from_x && bed_door(g, from_x, from_y)
    } else {
        true
    }
}

/// A rectangular room: a wall all around, a door in the top wall, and the
/// nook where there is space for it.
pub struct GridRoom {
    tiles: Vec<Vec<Tile>>,
}

impl GridRoom {
    /// The room is a valid grid that still has the layout it was made with.
    pub open spec fn wf(&self) -> bool {
        grid_wf(self.grid()) && keeps_layout(self.grid())
    }

    /// Makes a room of `width` by `height` tiles.
    pub fn new(width: usize, height: usize) -> (room: GridRoom)
        requires
            1 <= width <= MAX_SIDE,
            1 <= height <= MAX_SIDE,
        ensures
            room.grid() == initial_grid(width as int, height as int),
            room.wf(),
            forall|x: int, y: int|
                0 <= x < width && 0 <= y < height && on_border(width as int, height as int, x, y)
                    ==> #[trigger] tile_at(room.grid(), x, y) == Some(
                    if is_door_cell(width as int, x, y) {
                        Tile::DoorClosed
                    } else {
                        Tile::Wall
                    },
                ),
    {
        let mut tiles: Vec<Vec<Tile>> = Vec::new();
        let mut y: usize = 0;
        while y < height
            invariant
                1 <= width <= MAX_SIDE,
                y <= height <= MAX_SIDE,
                tiles@.len() == y,
                forall|j: int|
                    0 <= j < y ==> (#[trigger] tiles@[j])@ == Seq::new(
                        width as nat,
                        |x: int| initial_tile(width as int, height as int, x, j),
                    ),
            decreases height - y,
        {
            let mut row: Vec<Tile> = Vec::new();
            let mut x: usize = 0;
            while x < width
                invariant
                    1 <= width <= MAX_SIDE,
                    y < height <= MAX_SIDE,
                    x <= width,
                    row@.len() == x,
                    forall|i: int|
                        0 <= i < x ==> #[trigger] row@[i] == initial_tile(
                            width as int,
                            height as int,
                            i,
                            y as int,
                        ),
                decreases width - x,
            {
                row.push(Self::starting_tile(width, height, x, y));
                x += 1;
            }
            assert(row@ =~= Seq::new(
                width as nat,
                |x: int| initial_tile(width as int, height as int, x, y as int),
            ));
            tiles.push(row);
            y += 1;
        }
        let room = GridRoom { tiles };
        assert(room.grid() =~= initial_grid(width as int, height as int));
        proof {
            lemma_initial_grid_wf(width as int, height as int);
        }
        room
    }

    /// Computes [`initial_tile`].
    fn starting_tile(width: usize, height: usize, x: usize, y: usize) -> (t: Tile)
        requires
            1 <= width <= MAX_SIDE,
            1 <= height <= MAX_SIDE,
            x < width,
            y < height,
        ensures
            t == initial_tile(width as int, height as int, x as int, y as int),
    {
        let nook: bool = width > 3 && height > 4 && 1 <= x && x <= 2;
        if y == 0 && x == width / 2 {
            Tile::DoorClosed
        } else if x == 0 || y == 0 || x == width - 1 || y == height - 1 {
            Tile::Wall
        } else if nook && height > 5 && y == height - 5 {
            Tile::Table
        } else if nook && (y == height - 4 || y == height - 3) {
            Tile::Bed
        } else if nook && y == height - 2 {
            Tile::Fwall
        } else {
            Tile::Floor
        }
    }

    /// Whether the grid has a wall or a closed door at `(tx, ty)`.
    fn joint(&self, tx: i64, ty: i64) -> (b: bool)
        requires
            grid_wf(self.grid()),
        ensures
            b == joint_at(self.grid(), tx as int, ty as int),
    {
        if tx < 0 || ty < 0 || tx >= MAX_SIDE as i64 || ty >= MAX_SIDE as i64 {
            return false;
        }
        match self.tile(tx as usize, ty as usize) {
            Some(Tile::Wall) => true,
            Some(Tile::DoorClosed) => true,
            _ => false,
        }
    }

    /// Computes [`span_hits_frame`] for a tile index inside a room.
    fn hits_frame(lo: i64, len: i64, t: usize) -> (b: bool)
        requires
            t < MAX_SIDE,
        ensures
            b == span_hits_frame(lo as int, len as int, t as int),
    {
        let near: i128 = (t as i128) * (TILE_SIZE as i128);
        let far: i128 = near + (TILE_SIZE as i128);
        let start: i128 = lo as i128;
        let end: i128 = lo as i128 + len as i128;
        (start < near + (FRAME_MARGIN as i128) && end > near) || (start < far && end > far - (
        FRAME_MARGIN as i128))
    }

    /// Computes [`cell_clear`] for a cell of the room.
    fn cell_is_clear(&self, tx: usize, ty: usize, x: i64, y: i64, w: i64, h: i64) -> (b: bool)
        requires
            grid_wf(self.grid()),
            in_grid(self.grid(), tx as int, ty as int),
        ensures
            b == cell_clear(
                self.grid(),
                tx as int,
                ty as int,
                x as int,
                y as int,
                w as int,
                h as int,
            ),
    {
        match self.tiles[ty][tx] {
            Tile::Floor => true,
            Tile::Bed => true,
            Tile::DoorOpen => {
                let cx: i64 = tx as i64;
                let cy: i64 = ty as i64;
                let mut beside: u8 = 0;
                let mut above_below: u8 = 0;
                if self.joint(cx - 1, cy) {
                    beside += 1;
                }
                if self.joint(cx + 1, cy) {
                    beside += 1;
                }
                if self.joint(cx, cy - 1) {
                    above_below += 1;
                }
                if self.joint(cx, cy + 1) {
                    above_below += 1;
                }
                if beside >= above_below {
                    !Self::hits_frame(y, h, ty)
                } else {
                    !Self::hits_frame(x, w, tx)
                }
            },
            Tile::Wall => false,
            Tile::DoorClosed => false,
            Tile::Fwall => false,
            Tile::Table => false,
        }
    }

    /// Computes [`rect_free`] by visiting the overlapped cells.
    fn scan(&self, x: i64, y: i64, w: i64, h: i64) -> (free: bool)
        requires
            grid_wf(self.grid()),
        ensures
            free == rect_free(self.grid(), x as int, y as int, w as int, h as int),
    {
        if x < 0 || y < 0 {
            return false;
        }
        let left: i64 = tile_index(x);
        let top: i64 = tile_index(y);
        let right: i128 = tile_index_of_sum(x, w);
        let bottom: i128 = tile_index_of_sum(y, h);
        if right < left as i128 || bottom < top as i128 {
            return true;
        }
        let height: usize = self.tiles.len();
        let width: usize = self.tiles[0].len();
        if right >= width as i128 || bottom >= height as i128 {
            assert(!cell_clear(
                self.grid(),
                right as int,
                bottom as int,
                x as int,
                y as int,
                w as int,
                h as int,
            ));
            return false;
        }
        let first_col: usize = left as usize;
        let last_col: usize = right as usize;
        let last_row: usize = bottom as usize;
        let mut ty: usize = top as usize;
        while ty <= last_row
            invariant
                grid_wf(self.grid()),
                x >= 0,
                y >= 0,
                first_col == tile_of(x as int),
                last_col == tile_of(x + w),
                top == tile_of(y as int),
                last_row == tile_of(y + h),
                first_col <= last_col < cols(self.grid()),
                last_row < rows(self.grid()),
                top <= ty <= last_row + 1,
                forall|cx: int, cy: int|
                    first_col <= cx <= last_col && top <= cy < ty ==> #[trigger] cell_clear(
                        self.grid(),
                        cx,
                        cy,
                        x as int,
                        y as int,
                        w as int,
                        h as int,
                    ),
            decreases last_row + 1 - ty,
        {
            let mut tx: usize = first_col;
            while tx <= last_col
                invariant
                    grid_wf(self.grid()),
                    x >= 0,
                    y >= 0,
                    first_col == tile_of(x as int),
                    last_col == tile_of(x + w),
                    top == tile_of(y as int),
                    last_row == tile_of(y + h),
                    first_col <= last_col < cols(self.grid()),
                    last_row < rows(self.grid()),
                    top <= ty <= last_row,
                    first_col <= tx <= last_col + 1,
                    forall|cx: int, cy: int|
                        first_col <= cx <= last_col && top <= cy < ty ==> #[trigger] cell_clear(
                            self.grid(),
                            cx,
                            cy,
                            x as int,
                            y as int,
                            w as int,
                            h as int,
                        ),
                    forall|cx: int|
                        first_col <= cx < tx ==> #[trigger] cell_clear(
                            self.grid(),
                            cx,
                            ty as int,
                            x as int,
                            y as int,
                            w as int,
                            h as int,
                        ),
                decreases last_col + 1 - tx,
            {
                if !self.cell_is_clear(tx, ty, x, y, w, h) {
                    return false;
                }
                tx += 1;
            }
            ty += 1;
        }
        true
    }

    /// Whether the point `(x, y)` lies on a bed tile.
    fn is_on_top_bed_tile(&self, x: i64, y: i64) -> (b: bool)
        requires
            grid_wf(self.grid()),
        ensures
            b == on_bed(self.grid(), x as int, y as int),
    {
        let tx: i64 = tile_index(x);
        let ty: i64 = tile_index(y);
        if tx < 0 || ty < 0 {
            return false;
        }
        if ty >= MAX_SIDE as i64 || tx >= MAX_SIDE as i64 {
            return false;
        }
        match self.tile(tx as usize, ty as usize) {
            Some(Tile::Bed) => true,
            _ => false,
        }
    }

    /// Whether the point `(x, y)` lies on a bed tile of the right-hand
    /// column.
    fn is_bed_door_tile(&self, x: i64, y: i64) -> (b: bool)
        requires
            grid_wf(self.grid()),
        ensures
            b == bed_door(self.grid(), x as int, y as int),
    {
        tile_index(x) == 2 && self.is_on_top_bed_tile(x, y)
    }
}

impl Room for GridRoom {
    closed spec fn grid(&self) -> Seq<Seq<Tile>> {
        Seq::new(self.tiles@.len(), |y: int| self.tiles@[y]@)
    }

    open spec fn step_rule(&self, from_x: int, from_y: int, to_x: int, to_y: int) -> bool {
        nook_rule(self.grid(), from_x, from_y, to_x, to_y)
    }

    fn is_solid_at_point(&self, x: i64, y: i64) -> (solid: bool) {
        if x < PROBE_SIZE / 2 || y < PROBE_SIZE / 2 {
            return true;
        }
        !self.is_rect_free(x - PROBE_SIZE / 2, y - PROBE_SIZE / 2, PROBE_SIZE, PROBE_SIZE)
    }

    fn is_rect_free(&self, x: i64, y: i64, w: i64, h: i64) -> (free: bool) {
        let free: bool = self.scan(x, y, w, h);
        proof {
            if free {
                lemma_free_cells_in_grid(self.grid(), x as int, y as int, w as int, h as int);
            }
        }
        free
    }
    fn width_pixels(&self) -> (px: usize) {
        self.tiles[0].len() * TILE_PIXELS
    }

    fn height_pixels(&self) -> (px: usize) {
        self.tiles.len() * TILE_PIXELS
    }

    fn interact_tile(&mut self, tx: usize, ty: usize) -> (changed: bool)
        ensures
            old(self).wf() ==> final(self).wf(),
    {
        proof {
            lemma_toggle_keeps_layout(self.grid(), tx as int, ty as int);
        }
        if ty >= self.tiles.len() || tx >= self.tiles[ty].len() {
            return false;
        }
        let flipped: Tile = match self.tiles[ty][tx] {
            Tile::DoorClosed => Tile::DoorOpen,
            Tile::DoorOpen => Tile::DoorClosed,
            _ => {
                return false;
            },
        };
        self.tiles[ty][tx] = flipped;
        assert(self.grid() =~= toggled(old(self).grid(), tx as int, ty as int));
        true
    }

    fn can_interact_tile(
        &self,
        tx: usize,
        ty: usize,
        player_tx: usize,
        player_ty: usize,
    ) -> (ok: bool) {
        match self.tile(tx, ty) {
            Some(Tile::DoorClosed) | Some(Tile::DoorOpen) => {
                let beside: bool = ty == player_ty && ((tx > player_tx && tx - player_tx == 1) || (
                player_tx > tx && player_tx - tx == 1));
                let above_below: bool = tx == player_tx && ((ty > player_ty && ty - player_ty == 1)
                    || (player_ty > ty && player_ty - ty == 1));
                beside || above_below
            },
            _ => false,
        }
    }

    fn is_movement_allowed(
        &self,
        from_x: i64,
        from_y: i64,
        to_x: i64,
        to_y: i64,
        w: i64,
        h: i64,
    ) -> (ok: bool) {
        if !self.is_rect_free(to_x, to_y, w, h) {
            return false;
        }
        let from_bed: bool = self.is_on_top_bed_tile(from_x, from_y);
        let to_bed: bool = self.is_on_top_bed_tile(to_x, to_y);
        if from_bed && !to_bed && to_y < from_y {
            let height: usize = self.tiles.len();
            if height >= 4 && tile_index(from_y) == (height - 4) as i64 {
                return false;
            }
        }
        if !from_bed && to_bed {
            return to_x < from_x && self.is_bed_door_tile(to_x, to_y);
        }
        if from_bed && !to_bed {
            return to_x > from_x && self.is_bed_door_tile(from_x, from_y);
        }
        true
    }

    fn tile(&self, tx: usize, ty: usize) -> (t: Option<Tile>) {
        if ty < self.tiles.len() && tx < self.tiles[ty].len() {
            Some(self.tiles[ty][tx])
        } else {
            None
        }
    }
}

/// A new room is a valid grid with its own layout.
pub proof fn lemma_initial_grid_wf(width: int, height: int)
    requires
        1 <= width <= MAX_SIDE,
        1 <= height <= MAX_SIDE,
    ensures
        grid_wf(initial_grid(width, height)),
        keeps_layout(initial_grid(width, height)),
        rows(initial_grid(width, height)) == height,
        cols(initial_grid(width, height)) == width,
{
}

/// Interactions keep the layout: toggling a door leaves every cell what it
/// was made as, but for the state of doors, and leaves the rule of the nook
/// as it was.
pub proof fn lemma_toggle_keeps_layout(g: Seq<Seq<Tile>>, tx: int, ty: int)
    requires
        grid_wf(g),
    ensures
        keeps_layout(g) ==> keeps_layout(toggled(g, tx, ty)),
        forall|x: int, y: int| on_bed(toggled(g, tx, ty), x, y) == on_bed(g, x, y),
        forall|fx: int, fy: int, x: int, y: int|
            nook_rule(toggled(g, tx, ty), fx, fy, x, y) == nook_rule(g, fx, fy, x, y),
{
    let t = toggled(g, tx, ty);
    assert(rows(t) == rows(g) && cols(t) == cols(g));
    assert forall|x: int, y: int| on_bed(t, x, y) == on_bed(g, x, y) by {
        lemma_toggle_touches_one_door(g, tx, ty, tile_of(x), tile_of(y));
    }
    if keeps_layout(g) {
        assert forall|x: int, y: int| in_grid(t, x, y) implies (#[trigger] t[y][x]).same_up_to_door(
            initial_tile(cols(t), rows(t), x, y),
        ) by {
            lemma_toggle_touches_one_door(g, tx, ty, x, y);
            assert(g[y][x].same_up_to_door(initial_tile(cols(g), rows(g), x, y)));
        }
    }
}

/// The border of a room that keeps its layout is walled: every cell of the
/// outermost rows and columns is a wall, but for the cell in the middle of
/// the top row, which is a door, open or closed.
pub proof fn lemma_border_is_walled(g: Seq<Seq<Tile>>, x: int, y: int)
    requires
        grid_wf(g),
        keeps_layout(g),
        in_grid(g, x, y),
        on_border(cols(g), rows(g), x, y),
    ensures
        is_door_cell(cols(g), x, y) ==> g[y][x].is_door(),
        !is_door_cell(cols(g), x, y) ==> g[y][x] == Tile::Wall,
{
    assert(g[y][x].same_up_to_door(initial_tile(cols(g), rows(g), x, y)));
}

/// A new room has a wall all around and one closed door in it, whatever its
/// size: every border cell is a wall, but for the middle of the top row,
/// which is the door; and every room has that door.
pub proof fn lemma_new_room_is_walled(width: int, height: int, x: int, y: int)
    requires
        1 <= width <= MAX_SIDE,
        1 <= height <= MAX_SIDE,
        0 <= x < width,
        0 <= y < height,
        on_border(width, height, x, y),
    ensures
        initial_grid(width, height)[y][x] == if is_door_cell(width, x, y) {
            Tile::DoorClosed
        } else {
            Tile::Wall
        },
        initial_grid(width, height)[0][width / 2] == Tile::DoorClosed,
{
}

/// In a room that keeps its layout the bed tiles are exactly the upper two
/// rows of the nook: columns 1 and 2 of the fourth and third row from the
/// bottom.
pub proof fn lemma_bed_is_the_nook(g: Seq<Seq<Tile>>, x: int, y: int)
    requires
        grid_wf(g),
        keeps_layout(g),
    ensures
        on_bed(g, x, y) <==> has_nook(cols(g), rows(g)) && 1 <= tile_of(x) <= 2 && rows(g) - 4
            <= tile_of(y) <= rows(g) - 3,
{
    let tx = tile_of(x);
    let ty = tile_of(y);
    if in_grid(g, tx, ty) {
        assert(g[ty][tx].same_up_to_door(initial_tile(cols(g), rows(g), tx, ty)));
    }
}

/// Whether a room with grid `g` lets a body of size `(w, h)` move its corner
/// from `(from_x, from_y)` to `(to_x, to_y)`.
pub open spec fn grid_room_allows(
    g: Seq<Seq<Tile>>,
    from_x: int,
    from_y: int,
    to_x: int,
    to_y: int,
    w: int,
    h: int,
) -> bool {
    rect_free(g, to_x, to_y, w, h) && nook_rule(g, from_x, from_y, to_x, to_y)
}

/// Entering the nook: a move from off the bed onto a tile of its right-hand
/// column is accepted when it goes west and the destination is free, and
/// rejected when it goes east. A move from off the bed onto any other bed
/// tile is rejected.
pub proof fn lemma_nook_entry(
    g: Seq<Seq<Tile>>,
    from_x: int,
    from_y: int,
    to_x: int,
    to_y: int,
    w: int,
    h: int,
)
    requires
        !on_bed(g, from_x, from_y),
        on_bed(g, to_x, to_y),
    ensures
        bed_door(g, to_x, to_y) && to_x < from_x && rect_free(g, to_x, to_y, w, h)
            ==> grid_room_allows(g, from_x, from_y, to_x, to_y, w, h),
        to_x > from_x ==> !grid_room_allows(g, from_x, from_y, to_x, to_y, w, h),
        !bed_door(g, to_x, to_y) ==> !grid_room_allows(g, from_x, from_y, to_x, to_y, w, h),
{
}

/// Leaving the nook: a move from a tile of its right-hand column to a
/// destination off the bed is accepted when it goes east, does not go north
/// out of the upper bed row, and the destination is free. A move north out
/// of the upper bed row is rejected, and so is any move off the bed that does
/// not start in the right-hand column.
pub proof fn lemma_nook_exit(
    g: Seq<Seq<Tile>>,
    from_x: int,
    from_y: int,
    to_x: int,
    to_y: int,
    w: int,
    h: int,
)
    requires
        on_bed(g, from_x, from_y),
        !on_bed(g, to_x, to_y),
    ensures
        bed_door(g, from_x, from_y) && to_x > from_x && to_y >= from_y && rect_free(
            g,
            to_x,
            to_y,
            w,
            h,
        ) ==> grid_room_allows(g, from_x, from_y, to_x, to_y, w, h),
        in_top_bed_row(g, from_y) && to_y < from_y ==> !grid_room_allows(
            g,
            from_x,
            from_y,
            to_x,
            to_y,
            w,
            h,
        ),
        !bed_door(g, from_x, from_y) ==> !grid_room_allows(g, from_x, from_y, to_x, to_y, w, h),
{
}

/// Moves that stay on the bed, or stay off it, are bound by the collision
/// check alone.
pub proof fn lemma_nook_leaves_other_moves(
    g: Seq<Seq<Tile>>,
    from_x: int,
    from_y: int,
    to_x: int,
    to_y: int,
    w: int,
    h: int,
)
    requires
        on_bed(g, from_x, from_y) == on_bed(g, to_x, to_y),
    ensures
        grid_room_allows(g, from_x, from_y, to_x, to_y, w, h) == rect_free(g, to_x, to_y, w, h),
{
}

/// Nothing wider than the opening between the two frame strips of a door
/// fits into a door: a free square of such a size in a room that keeps its
/// layout touches no cell of the border, the door included.
pub proof fn lemma_body_keeps_off_the_border(g: Seq<Seq<Tile>>, x: int, y: int, size: int)
    requires
        grid_wf(g),
        keeps_layout(g),
        TILE_SIZE - 2 * FRAME_MARGIN < size,
        rect_free(g, x, y, size, size),
    ensures
        TILE_SIZE <= x,
        x + size < cols(g) * TILE_SIZE - TILE_SIZE,
        TILE_SIZE <= y,
        y + size < rows(g) * TILE_SIZE - TILE_SIZE,
{
    let left = tile_of(x);
    let right = tile_of(x + size);
    let top = tile_of(y);
    let bottom = tile_of(y + size);
    assert(cell_clear(g, left, top, x, y, size, size));
    assert(cell_clear(g, right, top, x, y, size, size));
    assert(cell_clear(g, left, bottom, x, y, size, size));
    assert(cell_clear(g, right, bottom, x, y, size, size));
    assert(g[top][left].same_up_to_door(initial_tile(cols(g), rows(g), left, top)));
    assert(g[top][right].same_up_to_door(initial_tile(cols(g), rows(g), right, top)));
    assert(g[bottom][left].same_up_to_door(initial_tile(cols(g), rows(g), left, bottom)));
    assert(g[bottom][right].same_up_to_door(initial_tile(cols(g), rows(g), right, bottom)));
}

} // verus!

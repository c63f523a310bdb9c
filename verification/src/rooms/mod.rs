//! Rooms: grids of typed tiles that answer collision and interaction queries.
//!
//! A room is modelled by its grid, a sequence of rows of [`Tile`]s. The
//! collision primitive [`rect_free`] and the door rules are functions of the
//! grid alone and hold for every kind of room; what a kind of room adds is a
//! rule on single moves ([`Room::step_rule`]).

use vstd::prelude::*;

pub mod grid_room;

pub use crate::units::TILE_SIZE;
pub use self::grid_room::GridRoom;
pub use self::grid_room::Tile;
use crate::units::tile_of;
use crate::units::MAX_SIDE;
use crate::units::TILE_PIXELS;

verus! {

/// Thickness of the frame strip of an open door: eight hundredths of a
/// tile. This is the one margin of a door frame: the strip is solid this
/// deep, and whoever draws the frame draws it this thick.
pub const FRAME_MARGIN: i64 = 256;

/// Side of the square probe that stands for a point: one pixel.
pub const PROBE_SIZE: i64 = 100;

/// Number of rows of a grid.
pub open spec fn rows(g: Seq<Seq<Tile>>) -> int {
    g.len() as int
}

/// Number of columns of a grid, read off its first row.
pub open spec fn cols(g: Seq<Seq<Tile>>) -> int {
    if g.len() > 0 {
        g[0].len() as int
    } else {
        0
    }
}

/// A grid a room can hold: rectangular, with at least one and at most
/// [`MAX_SIDE`] tiles along each side.
pub open spec fn grid_wf(g: Seq<Seq<Tile>>) -> bool {
    &&& 1 <= g.len() <= MAX_SIDE
    &&& 1 <= g[0].len() <= MAX_SIDE
    &&& forall|y: int| 0 <= y < g.len() ==> (#[trigger] g[y]).len() == g[0].len()
}

/// Whether `(tx, ty)` names a cell of the grid.
pub open spec fn in_grid(g: Seq<Seq<Tile>>, tx: int, ty: int) -> bool {
    0 <= ty < g.len() && 0 <= tx < g[ty].len()
}

/// The tile at `(tx, ty)`, if the grid has such a cell.
pub open spec fn tile_at(g: Seq<Seq<Tile>>, tx: int, ty: int) -> Option<Tile> {
    if in_grid(g, tx, ty) {
        Some(g[ty][tx])
    } else {
        None
    }
}

/// Whether the grid has a door, open or closed, at `(tx, ty)`.
pub open spec fn is_door_at(g: Seq<Seq<Tile>>, tx: int, ty: int) -> bool {
    in_grid(g, tx, ty) && g[ty][tx].is_door()
}

/// The grid after an interaction with cell `(tx, ty)`: a door there changes
/// state, and nothing else changes.
pub open spec fn toggled(g: Seq<Seq<Tile>>, tx: int, ty: int) -> Seq<Seq<Tile>> {
    if is_door_at(g, tx, ty) {
        g.update(ty, g[ty].update(tx, g[ty][tx].flipped()))
    } else {
        g
    }
}

/// Whether `(tx, ty)` is one of the four orthogonal neighbours of `(px, py)`.
pub open spec fn adjacent(tx: int, ty: int, px: int, py: int) -> bool {
    ||| (ty == py && (tx == px + 1 || tx + 1 == px))
    ||| (tx == px && (ty == py + 1 || ty + 1 == py))
}

/// Whether the grid has a wall or a closed door at `(tx, ty)`.
pub open spec fn joint_at(g: Seq<Seq<Tile>>, tx: int, ty: int) -> bool {
    in_grid(g, tx, ty) && g[ty][tx].anchors_door()
}

/// Zero or one, for counting neighbours.
pub open spec fn count(b: bool) -> int {
    if b {
        1
    } else {
        0
    }
}

/// Orientation of a door at `(tx, ty)`: horizontal when it has at least as
/// many walls or closed doors beside it as above and below it.
pub open spec fn door_is_horizontal(g: Seq<Seq<Tile>>, tx: int, ty: int) -> bool {
    count(joint_at(g, tx - 1, ty)) + count(joint_at(g, tx + 1, ty)) >= count(
        joint_at(g, tx, ty - 1),
    ) + count(joint_at(g, tx, ty + 1))
}

/// Whether the span `[lo, lo + len]` reaches into one of the two frame strips
/// of the tile with index `t`.
pub open spec fn span_hits_frame(lo: int, len: int, t: int) -> bool {
    let near = t * TILE_SIZE;
    let far = (t + 1) * TILE_SIZE;
    ||| (lo < near + FRAME_MARGIN && lo + len > near)
    ||| (lo < far && lo + len > far - FRAME_MARGIN)
}

/// Whether the rectangle `(x, y, w, h)` reaches into the frame of an open
/// door at `(tx, ty)`. A horizontal door has its frame strips along its top
/// and bottom edges, a vertical one along its left and right edges.
pub open spec fn touches_frame(
    g: Seq<Seq<Tile>>,
    tx: int,
    ty: int,
    x: int,
    y: int,
    w: int,
    h: int,
) -> bool {
    if door_is_horizontal(g, tx, ty) {
        span_hits_frame(y, h, ty)
    } else {
        span_hits_frame(x, w, tx)
    }
}

/// Whether cell `(tx, ty)` lets the rectangle `(x, y, w, h)` be where it
/// is. A cell outside the grid never does.
pub open spec fn cell_clear(
    g: Seq<Seq<Tile>>,
    tx: int,
    ty: int,
    x: int,
    y: int,
    w: int,
    h: int,
) -> bool {
    in_grid(g, tx, ty) && match g[ty][tx] {
        Tile::Floor => true,
        Tile::Bed => true,
        Tile::DoorOpen => !touches_frame(g, tx, ty, x, y, w, h),
        Tile::Wall => false,
        Tile::DoorClosed => false,
        Tile::Fwall => false,
        Tile::Table => false,
    }
}

/// Whether the span `[x, x + w]` overlaps the tile column (or row) `t`.
pub open spec fn covers(x: int, w: int, t: int) -> bool {
    tile_of(x) <= t <= tile_of(x + w)
}

/// The collision primitive: the rectangle with corner `(x, y)` and size
/// `(w, h)` is free when its corner is not negative and every cell it
/// overlaps is inside the grid and clear.
pub open spec fn rect_free(g: Seq<Seq<Tile>>, x: int, y: int, w: int, h: int) -> bool {
    &&& x >= 0
    &&& y >= 0
    &&& forall|tx: int, ty: int|
        covers(x, w, tx) && covers(y, h, ty) ==> #[trigger] cell_clear(g, tx, ty, x, y, w, h)
}

/// Whether the point `(x, y)` is solid: the one-pixel square centred on it
/// is not free.
pub open spec fn solid_at(g: Seq<Seq<Tile>>, x: int, y: int) -> bool {
    !rect_free(g, x - PROBE_SIZE / 2, y - PROBE_SIZE / 2, PROBE_SIZE as int, PROBE_SIZE as int)
}

/// What a room tells its renderer about the surroundings of one cell.
#[derive(Clone, Copy, Debug, PartialEq, Eq, Structural)]
pub struct Surround {
    /// The neighbour on that side is a wall or a door in either state.
    pub left_wall: bool,
    pub right_wall: bool,
    pub up_wall: bool,
    pub down_wall: bool,
    /// The neighbour on that side is a wall or a closed door.
    pub left_joint: bool,
    pub right_joint: bool,
    pub up_joint: bool,
    pub down_joint: bool,
    /// The cell is drawn as part of a horizontal run.
    pub horizontal: bool,
}

/// Whether the grid has a wall or a door in either state at `(tx, ty)`.
pub open spec fn wall_like_at(g: Seq<Seq<Tile>>, tx: int, ty: int) -> bool {
    in_grid(g, tx, ty) && g[ty][tx].is_wall_like()
}

/// The surroundings of cell `(tx, ty)`. Cells of the top and bottom row are
/// always part of a horizontal run; elsewhere a cell is when it has at least
/// as many wall-like neighbours beside it as above and below it.
pub open spec fn surround_of(g: Seq<Seq<Tile>>, tx: int, ty: int) -> Surround {
    Surround {
        left_wall: wall_like_at(g, tx - 1, ty),
        right_wall: wall_like_at(g, tx + 1, ty),
        up_wall: wall_like_at(g, tx, ty - 1),
        down_wall: wall_like_at(g, tx, ty + 1),
        left_joint: joint_at(g, tx - 1, ty),
        right_joint: joint_at(g, tx + 1, ty),
        up_joint: joint_at(g, tx, ty - 1),
        down_joint: joint_at(g, tx, ty + 1),
        horizontal: ty == 0 || ty + 1 == rows(g) || count(wall_like_at(g, tx - 1, ty)) + count(
            wall_like_at(g, tx + 1, ty),
        ) >= count(wall_like_at(g, tx, ty - 1)) + count(wall_like_at(g, tx, ty + 1)),
    }
}

/// Whether `(tx, ty)` is the cell the bed is drawn from: the upper left
/// bed tile.
pub open spec fn bed_anchor(g: Seq<Seq<Tile>>, tx: int, ty: int) -> bool {
    tile_at(g, tx, ty) == Some(Tile::Bed) && tx == 1 && ty == rows(g) - 4
}

/// A game area: owns a grid of tiles and answers the questions actors and
/// the renderer ask of it.
pub trait Room {
    /// The tiles of the room, row by row from the top.
    spec fn grid(&self) -> Seq<Seq<Tile>>;

    /// The rule this kind of room puts on a single move from
    /// `(from_x, from_y)` to `(to_x, to_y)`, on top of the collision check.
    spec fn step_rule(&self, from_x: int, from_y: int, to_x: int, to_y: int) -> bool;

    /// Whether the point `(x, y)` is solid.
    fn is_solid_at_point(&self, x: i64, y: i64) -> (solid: bool)
        requires
            grid_wf(self.grid()),
        ensures
            solid == solid_at(self.grid(), x as int, y as int),
    ;

    /// Whether the rectangle `(x, y, w, h)` is free of solid tiles.
    fn is_rect_free(&self, x: i64, y: i64, w: i64, h: i64) -> (free: bool)
        requires
            grid_wf(self.grid()),
        ensures
            free == rect_free(self.grid(), x as int, y as int, w as int, h as int),
            free ==> x >= 0 && y >= 0 && forall|tx: int, ty: int|
                covers(x as int, w as int, tx) && covers(y as int, h as int, ty)
                    ==> #[trigger] in_grid(self.grid(), tx, ty),
    ;

    /// Width of the room in screen pixels.
    fn width_pixels(&self) -> (px: usize)
        requires
            grid_wf(self.grid()),
        ensures
            px == cols(self.grid()) * TILE_PIXELS,
    ;

    /// Height of the room in screen pixels.
    fn height_pixels(&self) -> (px: usize)
        requires
            grid_wf(self.grid()),
        ensures
            px == rows(self.grid()) * TILE_PIXELS,
    ;

    /// Opens a closed door or closes an open one at `(tx, ty)` and says
    /// whether it did; any other cell is left alone, and so is the room's
    /// rule on moves.
    fn interact_tile(&mut self, tx: usize, ty: usize) -> (changed: bool)
        requires
            grid_wf(old(self).grid()),
        ensures
            changed == is_door_at(old(self).grid(), tx as int, ty as int),
            final(self).grid() == toggled(old(self).grid(), tx as int, ty as int),
            grid_wf(final(self).grid()),
            forall|from_x: int, from_y: int, to_x: int, to_y: int|
                #[trigger] final(self).step_rule(from_x, from_y, to_x, to_y) == old(self).step_rule(
                    from_x,
                    from_y,
                    to_x,
                    to_y,
                ),
    ;

    /// Whether someone standing on cell `(player_tx, player_ty)` can
    /// interact with cell `(tx, ty)`: it must hold a door and be an
    /// orthogonal neighbour.
    fn can_interact_tile(
        &self,
        tx: usize,
        ty: usize,
        player_tx: usize,
        player_ty: usize,
    ) -> (ok: bool)
        requires
            grid_wf(self.grid()),
        ensures
            ok == (is_door_at(self.grid(), tx as int, ty as int) && adjacent(
                tx as int,
                ty as int,
                player_tx as int,
                player_ty as int,
            )),
    ;

    /// Whether a body of size `(w, h)` may move its corner from
    /// `(from_x, from_y)` to `(to_x, to_y)`: the rectangle at the
    /// destination must be free and the room's own rule must permit the move.
    fn is_movement_allowed(
        &self,
        from_x: i64,
        from_y: i64,
        to_x: i64,
        to_y: i64,
        w: i64,
        h: i64,
    ) -> (ok: bool)
        requires
            grid_wf(self.grid()),
        ensures
            ok == (rect_free(self.grid(), to_x as int, to_y as int, w as int, h as int)
                && self.step_rule(from_x as int, from_y as int, to_x as int, to_y as int)),
    ;

    /// The tile at `(tx, ty)`, if there is one.
    fn tile(&self, tx: usize, ty: usize) -> (t: Option<Tile>)
        requires
            grid_wf(self.grid()),
        ensures
            t == tile_at(self.grid(), tx as int, ty as int),
    ;
}

/// Computes [`surround_of`] for a cell of any room.
pub fn surround<R: Room>(room: &R, tx: usize, ty: usize) -> (s: Surround)
    requires
        grid_wf(room.grid()),
    ensures
        s == surround_of(room.grid(), tx as int, ty as int),
{
    let left: Option<Tile> = if tx > 0 {
        room.tile(tx - 1, ty)
    } else {
        None
    };
    let right: Option<Tile> = if tx < usize::MAX {
        room.tile(tx + 1, ty)
    } else {
        None
    };
    let up: Option<Tile> = if ty > 0 {
        room.tile(tx, ty - 1)
    } else {
        None
    };
    let down: Option<Tile> = if ty < usize::MAX {
        room.tile(tx, ty + 1)
    } else {
        None
    };
    let height: usize = room.height_pixels() / TILE_PIXELS;
    let left_wall: bool = is_wall_like(left);
    let right_wall: bool = is_wall_like(right);
    let up_wall: bool = is_wall_like(up);
    let down_wall: bool = is_wall_like(down);
    let beside: u8 = tally(left_wall) + tally(right_wall);
    let above_below: u8 = tally(up_wall) + tally(down_wall);
    Surround {
        left_wall,
        right_wall,
        up_wall,
        down_wall,
        left_joint: is_joint(left),
        right_joint: is_joint(right),
        up_joint: is_joint(up),
        down_joint: is_joint(down),
        horizontal: ty == 0 || (ty < usize::MAX && ty + 1 == height) || beside >= above_below,
    }
}

/// Computes [`bed_anchor`] for a cell of any room.
pub fn is_bed_anchor<R: Room>(room: &R, tx: usize, ty: usize) -> (b: bool)
    requires
        grid_wf(room.grid()),
    ensures
        b == bed_anchor(room.grid(), tx as int, ty as int),
{
    let height: usize = room.height_pixels() / TILE_PIXELS;
    match room.tile(tx, ty) {
        Some(Tile::Bed) => tx == 1 && height >= 4 && ty == height - 4,
        _ => false,
    }
}

/// Whether there is a tile and it is a wall or a door in either state.
fn is_wall_like(t: Option<Tile>) -> (b: bool)
    ensures
        b == (t is Some && t->0.is_wall_like()),
{
    match t {
        Some(Tile::Wall) => true,
        Some(Tile::DoorClosed) => true,
        Some(Tile::DoorOpen) => true,
        _ => false,
    }
}

/// Whether there is a tile and it is a wall or a closed door.
fn is_joint(t: Option<Tile>) -> (b: bool)
    ensures
        b == (t is Some && t->0.anchors_door()),
{
    match t {
        Some(Tile::Wall) => true,
        Some(Tile::DoorClosed) => true,
        _ => false,
    }
}

/// Computes [`count`].
fn tally(b: bool) -> (n: u8)
    ensures
        n == count(b),
{
    if b {
        1
    } else {
        0
    }
}

/// Fail-closed bounds: a rectangle that overlaps a cell outside the grid is
/// never free.
pub proof fn lemma_rect_free_fail_closed(
    g: Seq<Seq<Tile>>,
    x: int,
    y: int,
    w: int,
    h: int,
    tx: int,
    ty: int,
)
    requires
        grid_wf(g),
        covers(x, w, tx),
        covers(y, h, ty),
        tx < 0 || tx >= cols(g) || ty < 0 || ty >= rows(g),
    ensures
        !rect_free(g, x, y, w, h),
{
    assert(!cell_clear(g, tx, ty, x, y, w, h));
}

/// Fail-closed bounds: a rectangle whose corner has a negative coordinate is
/// never free, and neither is a point with a negative coordinate.
pub proof fn lemma_negative_is_blocked(g: Seq<Seq<Tile>>, x: int, y: int, w: int, h: int)
    requires
        x < 0 || y < 0,
    ensures
        !rect_free(g, x, y, w, h),
        solid_at(g, x, y),
{
}

/// A free rectangle overlaps only cells of the grid.
pub proof fn lemma_free_cells_in_grid(g: Seq<Seq<Tile>>, x: int, y: int, w: int, h: int)
    requires
        rect_free(g, x, y, w, h),
    ensures
        x >= 0,
        y >= 0,
        forall|tx: int, ty: int|
            covers(x, w, tx) && covers(y, h, ty) ==> #[trigger] in_grid(g, tx, ty),
{
    assert forall|tx: int, ty: int| covers(x, w, tx) && covers(y, h, ty) implies #[trigger] in_grid(
        g,
        tx,
        ty,
    ) by {
        assert(cell_clear(g, tx, ty, x, y, w, h));
    }
}

/// A free rectangle of a size that is not negative lies wholly within the
/// room.
pub proof fn lemma_free_rect_inside(g: Seq<Seq<Tile>>, x: int, y: int, w: int, h: int)
    requires
        grid_wf(g),
        rect_free(g, x, y, w, h),
        w >= 0,
        h >= 0,
    ensures
        0 <= x,
        x + w < cols(g) * TILE_SIZE,
        0 <= y,
        y + h < rows(g) * TILE_SIZE,
{
    assert(cell_clear(g, tile_of(x + w), tile_of(y + h), x, y, w, h));
}

/// Doors toggle in pairs: interacting with a closed door opens it,
/// interacting with it again closes it and gives the first grid back, and
/// both interactions report a change. Interacting with a cell that holds no
/// door reports none and leaves the grid as it is.
pub proof fn lemma_door_toggle_pairs(g: Seq<Seq<Tile>>, tx: int, ty: int)
    requires
        in_grid(g, tx, ty),
    ensures
        g[ty][tx] == Tile::DoorClosed ==> {
            &&& is_door_at(g, tx, ty)
            &&& tile_at(toggled(g, tx, ty), tx, ty) == Some(Tile::DoorOpen)
            &&& is_door_at(toggled(g, tx, ty), tx, ty)
            &&& toggled(toggled(g, tx, ty), tx, ty) == g
        },
        g[ty][tx] == Tile::DoorOpen ==> {
            &&& is_door_at(g, tx, ty)
            &&& tile_at(toggled(g, tx, ty), tx, ty) == Some(Tile::DoorClosed)
            &&& toggled(toggled(g, tx, ty), tx, ty) == g
        },
        !g[ty][tx].is_door() ==> !is_door_at(g, tx, ty) && toggled(g, tx, ty) == g,
{
    if g[ty][tx].is_door() {
        let once = toggled(g, tx, ty);
        assert(once[ty] =~= g[ty].update(tx, g[ty][tx].flipped()));
        let twice = toggled(once, tx, ty);
        assert(twice[ty] =~= g[ty]);
        assert(twice =~= g);
    }
}

/// An interaction changes no cell but a door at the cell it is aimed at,
/// and keeps the shape of the grid.
pub proof fn lemma_toggle_touches_one_door(g: Seq<Seq<Tile>>, tx: int, ty: int, cx: int, cy: int)
    ensures
        in_grid(toggled(g, tx, ty), cx, cy) == in_grid(g, cx, cy),
        in_grid(g, cx, cy) && (cx != tx || cy != ty) ==> toggled(g, tx, ty)[cy][cx] == g[cy][cx],
        in_grid(g, cx, cy) ==> toggled(g, tx, ty)[cy][cx].same_up_to_door(g[cy][cx]),
        grid_wf(g) ==> grid_wf(toggled(g, tx, ty)),
{
}

/// Door adjacency: two cells are adjacent exactly when they are one
/// step apart along one axis and level along the other. A cell is not
/// adjacent to itself, to its diagonal neighbours, or to any cell two or
/// more steps away.
pub proof fn lemma_adjacent_is_one_step(tx: int, ty: int, px: int, py: int)
    ensures
        adjacent(tx, ty, px, py) <==> vstd::math::abs(tx - px) + vstd::math::abs(ty - py) == 1,
        !adjacent(px, py, px, py),
        adjacent(tx, ty, px, py) == adjacent(px, py, tx, ty),
{
}

} // verus!

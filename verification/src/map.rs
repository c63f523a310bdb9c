//! The map: the rooms of the world and which of them is active.
//!
//! Every query and every interaction goes to the active room.

use vstd::prelude::*;
pub use crate::rooms::TILE_SIZE;
use crate::rooms::adjacent;
use crate::rooms::cols;
use crate::rooms::covers;
use crate::rooms::grid_room::initial_grid;
use crate::rooms::grid_room::keeps_layout;
use crate::rooms::grid_room::lemma_initial_grid_wf;
use crate::rooms::grid_room::nook_rule;
use crate::rooms::grid_wf;
use crate::rooms::in_grid;
use crate::rooms::is_door_at;
use crate::rooms::rect_free;
use crate::rooms::rows;
use crate::rooms::solid_at;
use crate::rooms::surround;
use crate::rooms::surround_of;
use crate::rooms::tile_at;
use crate::rooms::toggled;
use crate::rooms::GridRoom;
use crate::rooms::Room;
use crate::rooms::Surround;
use crate::rooms::Tile;
use crate::units::TILE_PIXELS;

verus! {

/// An ordered collection of rooms with a cursor on the active one.
pub struct WorldMap<R: Room> {
    rooms: Vec<R>,
    current: usize,
}

impl WorldMap<GridRoom> {
    /// A map with one room of 20 by 15 tiles, which is active.
    pub fn new() -> (m: WorldMap<GridRoom>)
        ensures
            m.wf(),
            m.room_count() == 1,
            m.current_index() == 0,
            m.grid() == initial_grid(20, 15),
            keeps_layout(m.grid()),
            forall|from_x: int, from_y: int, to_x: int, to_y: int|
                #[trigger] m.step_rule(from_x, from_y, to_x, to_y) == nook_rule(
                    initial_grid(20, 15),
                    from_x,
                    from_y,
                    to_x,
                    to_y,
                ),
    {
        proof {
            lemma_initial_grid_wf(20, 15);
        }
        let mut rooms: Vec<GridRoom> = Vec::new();
        rooms.push(GridRoom::new(20, 15));
        WorldMap { rooms, current: 0 }
    }
}

impl<R: Room> WorldMap<R> {
    /// How many rooms the map holds.
    pub closed spec fn room_count(&self) -> nat {
        self.rooms@.len()
    }

    /// Index of the active room.
    pub closed spec fn current_index(&self) -> int {
        self.current as int
    }

    /// The grid of room `i`.
    pub closed spec fn room_grid(&self, i: int) -> Seq<Seq<Tile>> {
        self.rooms@[i].grid()
    }

    /// The rule of room `i` on a single move.
    pub closed spec fn room_rule(
        &self,
        i: int,
        from_x: int,
        from_y: int,
        to_x: int,
        to_y: int,
    ) -> bool {
        self.rooms@[i].step_rule(from_x, from_y, to_x, to_y)
    }

    /// The grid of the active room.
    pub open spec fn grid(&self) -> Seq<Seq<Tile>> {
        self.room_grid(self.current_index())
    }

    /// The rule of the active room on a single move.
    pub open spec fn step_rule(&self, from_x: int, from_y: int, to_x: int, to_y: int) -> bool {
        self.room_rule(self.current_index(), from_x, from_y, to_x, to_y)
    }

    /// Whether the active room lets a body of size `(w, h)` move its corner
    /// from `(from_x, from_y)` to `(to_x, to_y)`.
    pub open spec fn movement_allowed(
        &self,
        from_x: int,
        from_y: int,
        to_x: int,
        to_y: int,
        w: int,
        h: int,
    ) -> bool {
        rect_free(self.grid(), to_x, to_y, w, h) && self.step_rule(from_x, from_y, to_x, to_y)
    }

    /// The cursor points at a room, and every room has a valid grid.
    pub open spec fn wf(&self) -> bool {
        &&& 0 <= self.current_index() < self.room_count()
        &&& grid_wf(self.grid())
        &&& forall|i: int| 0 <= i < self.room_count() ==> grid_wf(#[trigger] self.room_grid(i))
    }

    /// Whether two maps hold the same rooms up to index `n`.
    pub open spec fn same_rooms(&self, other: &WorldMap<R>, n: int) -> bool {
        forall|i: int|
            0 <= i < n ==> {
                &&& #[trigger] self.room_grid(i) == other.room_grid(i)
                &&& forall|from_x: int, from_y: int, to_x: int, to_y: int|
                    #[trigger] self.room_rule(i, from_x, from_y, to_x, to_y) == other.room_rule(
                        i,
                        from_x,
                        from_y,
                        to_x,
                        to_y,
                    )
            }
    }

    /// Whether this map is what `before` is after an interaction with cell
    /// `(tx, ty)` of its active room: a door there has changed state, and
    /// no other cell, room, rule or the cursor has changed.
    pub open spec fn is_toggled(&self, before: &WorldMap<R>, tx: int, ty: int) -> bool {
        &&& self.room_count() == before.room_count()
        &&& self.current_index() == before.current_index()
        &&& self.grid() == toggled(before.grid(), tx, ty)
        &&& forall|i: int|
            0 <= i < before.room_count() && i != before.current_index()
                ==> #[trigger] self.room_grid(i) == before.room_grid(i)
        &&& forall|i: int, from_x: int, from_y: int, to_x: int, to_y: int|
            0 <= i < before.room_count() ==> #[trigger] self.room_rule(
                i,
                from_x,
                from_y,
                to_x,
                to_y,
            ) == before.room_rule(i, from_x, from_y, to_x, to_y)
    }

    /// Whether the point `(x, y)` of the active room is solid.
    pub fn is_solid_at_point(&self, x: i64, y: i64) -> (solid: bool)
        requires
            self.wf(),
        ensures
            solid == solid_at(self.grid(), x as int, y as int),
    {
        self.rooms[self.current].is_solid_at_point(x, y)
    }

    /// Whether the rectangle `(x, y, w, h)` is free in the active room.
    pub fn is_rect_free(&self, x: i64, y: i64, w: i64, h: i64) -> (free: bool)
        requires
            self.wf(),
        ensures
            free == rect_free(self.grid(), x as int, y as int, w as int, h as int),
            free ==> x >= 0 && y >= 0 && forall|tx: int, ty: int|
                covers(x as int, w as int, tx) && covers(y as int, h as int, ty)
                    ==> #[trigger] in_grid(self.grid(), tx, ty),
    {
        self.rooms[self.current].is_rect_free(x, y, w, h)
    }

    /// Width of the active room in screen pixels.
    pub fn width_pixels(&self) -> (px: usize)
        requires
            self.wf(),
        ensures
            px == cols(self.grid()) * TILE_PIXELS,
    {
        self.rooms[self.current].width_pixels()
    }

    /// Height of the active room in screen pixels.
    pub fn height_pixels(&self) -> (px: usize)
        requires
            self.wf(),
        ensures
            px == rows(self.grid()) * TILE_PIXELS,
    {
        self.rooms[self.current].height_pixels()
    }

    /// Toggles a door at `(tx, ty)` of the active room and says whether it
    /// did. No other cell, room or rule changes.
    pub fn interact_tile(&mut self, tx: usize, ty: usize) -> (changed: bool)
        requires
            old(self).wf(),
        ensures
            final(self).wf(),
            changed == is_door_at(old(self).grid(), tx as int, ty as int),
            final(self).is_toggled(old(self), tx as int, ty as int),
    {
        let changed: bool = self.rooms[self.current].interact_tile(tx, ty);
        assert forall|i: int| 0 <= i < self.room_count() implies grid_wf(
            #[trigger] self.room_grid(i),
        ) by {
            if i != self.current_index() {
                assert(grid_wf(old(self).room_grid(i)));
            }
        }
        changed
    }

    /// Whether someone on cell `(player_tx, player_ty)` of the active room
    /// can interact with cell `(tx, ty)`.
    pub fn can_interact_tile(
        &self,
        tx: usize,
        ty: usize,
        player_tx: usize,
        player_ty: usize,
    ) -> (ok: bool)
        requires
            self.wf(),
        ensures
            ok == (is_door_at(self.grid(), tx as int, ty as int) && adjacent(
                tx as int,
                ty as int,
                player_tx as int,
                player_ty as int,
            )),
    {
        self.rooms[self.current].can_interact_tile(tx, ty, player_tx, player_ty)
    }

    /// Whether the active room lets a body of size `(w, h)` move its corner
    /// from `(from_x, from_y)` to `(to_x, to_y)`.
    pub fn is_movement_allowed(
        &self,
        from_x: i64,
        from_y: i64,
        to_x: i64,
        to_y: i64,
        w: i64,
        h: i64,
    ) -> (ok: bool)
        requires
            self.wf(),
        ensures
            ok == self.movement_allowed(
                from_x as int,
                from_y as int,
                to_x as int,
                to_y as int,
                w as int,
                h as int,
            ),
    {
        self.rooms[self.current].is_movement_allowed(from_x, from_y, to_x, to_y, w, h)
    }

    /// The tile at `(tx, ty)` of the active room, if there is one.
    pub fn tile(&self, tx: usize, ty: usize) -> (t: Option<Tile>)
        requires
            self.wf(),
        ensures
            t == tile_at(self.grid(), tx as int, ty as int),
    {
        self.rooms[self.current].tile(tx, ty)
    }

    /// The surroundings of cell `(tx, ty)` of the active room.
    pub fn surround(&self, tx: usize, ty: usize) -> (s: Surround)
        requires
            self.wf(),
        ensures
            s == surround_of(self.grid(), tx as int, ty as int),
    {
        surround(&self.rooms[self.current], tx, ty)
    }

    /// Appends a room and returns its index. The active room stays active.
    pub fn add_room(&mut self, room: R) -> (idx: usize)
        requires
            old(self).wf(),
            grid_wf(room.grid()),
        ensures
            final(self).wf(),
            idx == old(self).room_count(),
            final(self).room_count() == old(self).room_count() + 1,
            final(self).current_index() == old(self).current_index(),
            final(self).same_rooms(old(self), old(self).room_count() as int),
            final(self).room_grid(idx as int) == room.grid(),
            forall|from_x: int, from_y: int, to_x: int, to_y: int|
                #[trigger] final(self).room_rule(idx as int, from_x, from_y, to_x, to_y)
                    == room.step_rule(from_x, from_y, to_x, to_y),
    {
        self.rooms.push(room);
        assert forall|i: int| 0 <= i < self.room_count() implies grid_wf(
            #[trigger] self.room_grid(i),
        ) by {
            if i < old(self).room_count() {
                assert(grid_wf(old(self).room_grid(i)));
            }
        }
        self.rooms.len() - 1
    }

    /// Makes room `idx` the active one.
    pub fn set_current(&mut self, idx: usize)
        requires
            old(self).wf(),
            idx < old(self).room_count(),
        ensures
            final(self).wf(),
            final(self).current_index() == idx,
            final(self).room_count() == old(self).room_count(),
            final(self).same_rooms(old(self), old(self).room_count() as int),
    {
        self.current = idx;
        assert forall|i: int| 0 <= i < self.room_count() implies grid_wf(
            #[trigger] self.room_grid(i),
        ) by {
            assert(grid_wf(old(self).room_grid(i)));
        }
    }

    /// The active room.
    pub fn room(&self) -> (r: &R)
        requires
            self.wf(),
        ensures
            r.grid() == self.grid(),
            grid_wf(r.grid()),
            forall|from_x: int, from_y: int, to_x: int, to_y: int|
                #[trigger] r.step_rule(from_x, from_y, to_x, to_y) == self.step_rule(
                    from_x,
                    from_y,
                    to_x,
                    to_y,
                ),
    {
        &self.rooms[self.current]
    }

    /// How many rooms the map holds.
    pub fn len(&self) -> (n: usize)
        ensures
            n == self.room_count(),
    {
        self.rooms.len()
    }

    /// Index of the active room.
    pub fn current(&self) -> (idx: usize)
        ensures
            idx == self.current_index(),
    {
        self.current
    }
}

} // verus!

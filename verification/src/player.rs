//! The player: grid-stepped movement driven by the held keys.
//!
//! A player is either idle on a lattice point or stepping toward the next
//! one. Each tick takes the held keys and the elapsed time and runs four
//! phases in turn: [`PlayerView::steer`] takes input, [`PlayerView::advance`]
//! moves, [`PlayerView::confine`] keeps the player inside the room and
//! [`PlayerView::settle`] puts an idle player back on the lattice.

use vstd::prelude::*;
use crate::input::HeldKeys;
use crate::input::Key;
use crate::map::WorldMap;
use crate::rooms::cols;
use crate::rooms::grid_room::keeps_layout;
use crate::rooms::grid_room::lemma_body_keeps_off_the_border;
use crate::rooms::lemma_free_rect_inside;
use crate::rooms::rows;
use crate::rooms::Room;
use crate::units::distance_squared;
use crate::units::lemma_square_bound;
use crate::units::lemma_square_nonnegative;
use crate::units::nearest_lattice;
use crate::units::nearest_tile_index;
use crate::units::toward;
use crate::units::travel;
use crate::units::Direction;
use crate::units::Point;
use crate::units::Spot;
use crate::units::HALF_TILE;
use crate::units::MICROS_PER_SECOND;
use crate::units::TILE_SIZE;
use crate::units::UNITS_PER_PIXEL;
use crate::units::WORLD_LIMIT;

verus! {

/// Side of the player's hitbox: nine tenths of a tile.
pub const HITBOX_SIZE: i64 = 2880;

/// Distance from the corner of the player's tile to the corner of the
/// hitbox, which is centred in the tile.
pub const HITBOX_INSET: i64 = 160;

/// A player closer than this to a lattice point is on it: one pixel.
pub const ON_LATTICE_RADIUS: i64 = 100;

/// A new target farther than this from the current one replaces it: a tenth
/// of a pixel.
pub const RETARGET_RADIUS: i64 = 10;

/// An idle player farther than this from the lattice is put back on it: half
/// a pixel.
pub const SETTLE_RADIUS: i64 = 50;

/// The smallest step a single key press asks for: half a tile.
pub const MIN_KEY_STEP: i64 = 1600;

/// The largest `grid_size` a player may have.
pub const MAX_GRID_SIZE: i32 = 100_000_000;

/// Speed of the player in world units per second.
pub const PLAYER_SPEED: u32 = 16_000;

/// The player's state as contracts see it.
pub struct PlayerView {
    pub position: Spot,
    pub speed: int,
    pub grid_size: int,
    pub moving: bool,
    pub target: Spot,
    pub facing: Direction,
}

/// The value `v` kept within `[lo, hi]`: raised to `lo` first, then lowered
/// to `hi`.
pub open spec fn clamped(v: int, lo: int, hi: int) -> int {
    if v < lo {
        if lo < hi {
            lo
        } else {
            hi
        }
    } else if v < hi {
        v
    } else {
        hi
    }
}

/// Whether the way from `from` to `to` runs along exactly one axis and is
/// `len` long.
pub open spec fn one_axis_move(from: Spot, to: Spot, len: int) -> bool {
    &&& (to.x != from.x) != (to.y != from.y)
    &&& vstd::math::abs(to.x - from.x) + vstd::math::abs(to.y - from.y) == vstd::math::abs(len)
}

/// The move of one tick toward a target that is `(dx, dy)` away and out of
/// reach: `step` along the axis of the larger distance, the vertical one
/// when they are equal, and nothing along the other.
pub open spec fn increment(dx: int, dy: int, step: int) -> Spot {
    if vstd::math::abs(dx) > vstd::math::abs(dy) {
        Spot {
            x: if dx > 0 {
                step
            } else {
                -step
            },
            y: 0,
        }
    } else {
        Spot {
            x: 0,
            y: if dy > 0 {
                step
            } else {
                -step
            },
        }
    }
}

impl PlayerView {
    /// Whether the player is on a lattice point.
    pub open spec fn at_lattice(self) -> bool {
        self.position.dist_sq(self.position.lattice()) < ON_LATTICE_RADIUS * ON_LATTICE_RADIUS
    }

    /// The direction taken from the keys this tick. Input is read only when
    /// the player is idle or on a lattice point, so a step under way between
    /// two lattice points is never redirected.
    pub open spec fn sampled(self, keys: HeldKeys) -> Option<Direction> {
        if !self.moving || self.at_lattice() {
            keys.direction()
        } else {
            None
        }
    }

    /// The lattice point next to the player's own in direction `d`.
    pub open spec fn candidate(self, d: Direction) -> Spot {
        self.position.lattice().toward(d, TILE_SIZE as int)
    }

    /// First phase: take input. A sampled direction becomes the facing, and
    /// its candidate becomes the target when the player is idle or the
    /// candidate is not the target already; the player is then stepping.
    pub open spec fn steer(self, keys: HeldKeys) -> PlayerView {
        match self.sampled(keys) {
            None => self,
            Some(d) => {
                let candidate = self.candidate(d);
                if !self.moving || self.target.dist_sq(candidate) > RETARGET_RADIUS
                    * RETARGET_RADIUS {
                    PlayerView { facing: d, target: candidate, moving: true, ..self }
                } else {
                    PlayerView { facing: d, ..self }
                }
            },
        }
    }

    /// Whether the map lets the player's hitbox move from where the player
    /// is to where it would be with the player at `to`.
    pub open spec fn may_move<R: Room>(self, map: WorldMap<R>, to: Spot) -> bool {
        map.movement_allowed(
            self.position.x + HITBOX_INSET,
            self.position.y + HITBOX_INSET,
            to.x + HITBOX_INSET,
            to.y + HITBOX_INSET,
            HITBOX_SIZE as int,
            HITBOX_SIZE as int,
        )
    }

    /// Whether a move of length `step` reaches the target.
    pub open spec fn reaches(self, step: int) -> bool {
        step >= 0 && self.position.dist_sq(self.target) <= step * step
    }

    /// Where a move of length `step` that does not reach the target would
    /// put the player.
    pub open spec fn next_spot(self, step: int) -> Spot {
        let inc = increment(
            self.target.x - self.position.x,
            self.target.y - self.position.y,
            step,
        );
        self.position.shifted(inc.x, inc.y)
    }

    /// Second phase: move. An idle player stays. A stepping player whose
    /// target is within `step` lands on it if the map allows and is idle
    /// either way. Otherwise the player moves by `step` along one axis if
    /// the map allows, and stops where it is if not.
    pub open spec fn advance<R: Room>(self, step: int, map: WorldMap<R>) -> PlayerView {
        if !self.moving {
            self
        } else if self.reaches(step) {
            if self.may_move(map, self.target) {
                PlayerView { position: self.target, moving: false, ..self }
            } else {
                PlayerView { moving: false, ..self }
            }
        } else {
            if self.may_move(map, self.next_spot(step)) {
                PlayerView { position: self.next_spot(step), ..self }
            } else {
                PlayerView { moving: false, ..self }
            }
        }
    }

    /// Third phase: keep the player's tile inside a room of the given size.
    pub open spec fn confine(self, width: int, height: int) -> PlayerView {
        PlayerView {
            position: Spot {
                x: clamped(self.position.x, 0, width - TILE_SIZE),
                y: clamped(self.position.y, 0, height - TILE_SIZE),
            },
            ..self
        }
    }

    /// Fourth phase: an idle player that is off the lattice by more than
    /// [`SETTLE_RADIUS`] goes to the nearest lattice point.
    pub open spec fn settle(self) -> PlayerView {
        if !self.moving && self.position.dist_sq(self.position.lattice()) > SETTLE_RADIUS
            * SETTLE_RADIUS {
            PlayerView { position: self.position.lattice(), ..self }
        } else {
            self
        }
    }

    /// Whether a tick is a step on the way: after input the player is
    /// stepping, its target is farther off than the tick's step, the map
    /// allows the move, and the player's tile is inside the room where the
    /// move ends.
    pub open spec fn steps_on<R: Room>(
        self,
        keys: HeldKeys,
        dt_micros: int,
        map: WorldMap<R>,
    ) -> bool {
        let steered = self.steer(keys);
        let step = travel(self.speed, dt_micros);
        let to = steered.next_spot(step);
        &&& steered.moving
        &&& !steered.reaches(step)
        &&& steered.may_move(map, to)
        &&& 0 <= to.x <= cols(map.grid()) * TILE_SIZE - TILE_SIZE
        &&& 0 <= to.y <= rows(map.grid()) * TILE_SIZE - TILE_SIZE
    }

    /// Whether the player is on course. An idle player is on course within
    /// [`SETTLE_RADIUS`] of the lattice. A stepping player is on course when
    /// its target is a lattice point and the player is within
    /// [`ON_LATTICE_RADIUS`] of a stretch of one tile that ends there and
    /// runs along an axis.
    pub open spec fn on_course(self) -> bool {
        if self.moving {
            let dx = vstd::math::abs(self.target.x - self.position.x);
            let dy = vstd::math::abs(self.target.y - self.position.y);
            &&& self.target.lattice() == self.target
            &&& ((dx <= TILE_SIZE + ON_LATTICE_RADIUS && dy <= ON_LATTICE_RADIUS) || (dx
                <= ON_LATTICE_RADIUS && dy <= TILE_SIZE + ON_LATTICE_RADIUS))
        } else {
            self.position.aligned_within(SETTLE_RADIUS as int)
        }
    }

    /// One tick: the four phases in turn, with the step that the player's
    /// speed gives for `dt_micros` microseconds.
    pub open spec fn tick<R: Room>(
        self,
        keys: HeldKeys,
        dt_micros: int,
        map: WorldMap<R>,
    ) -> PlayerView {
        self.steer(keys).advance(travel(self.speed, dt_micros), map).confine(
            cols(map.grid()) * TILE_SIZE,
            rows(map.grid()) * TILE_SIZE,
        ).settle()
    }

    /// A push in direction `dir`, or none: the player moves by `step` that
    /// way if the map allows, and is then kept inside the room.
    pub open spec fn pushed<R: Room>(
        self,
        dir: Option<Direction>,
        step: int,
        map: WorldMap<R>,
    ) -> PlayerView {
        let moved = match dir {
            None => self,
            Some(d) => {
                let to = self.position.toward(d, step);
                if self.may_move(map, to) {
                    PlayerView { position: to, ..self }
                } else {
                    self
                }
            },
        };
        moved.confine(cols(map.grid()) * TILE_SIZE, rows(map.grid()) * TILE_SIZE)
    }

    /// The length of the step a key press asks for.
    pub open spec fn key_step(self) -> int {
        if self.grid_size > MIN_KEY_STEP {
            self.grid_size
        } else {
            MIN_KEY_STEP as int
        }
    }

    /// A single press of `key`: a movement key sets the target to the
    /// lattice point nearest to one key step from the player in the key's
    /// direction and starts a step. Any other key changes nothing.
    pub open spec fn pressed(self, key: Key) -> PlayerView {
        match key.direction() {
            None => self,
            Some(d) => PlayerView {
                target: self.position.toward(d, self.key_step()).lattice(),
                moving: true,
                ..self
            },
        }
    }

    /// The player moved to the middle of the tile whose corner is the
    /// nearest lattice point.
    pub open spec fn centred(self) -> PlayerView {
        PlayerView {
            position: self.position.lattice().shifted(HALF_TILE as int, HALF_TILE as int),
            ..self
        }
    }
}

/// The player-controlled actor.
pub struct Player {
    position: Point,
    speed: u32,
    /// Length of the step a single key press asks for.
    pub grid_size: i32,
    /// Whether a step is under way.
    pub moving: bool,
    /// Where the step under way leads.
    pub target: Point,
    /// The direction last chosen, whether or not the step was taken.
    pub facing: Direction,
}

impl View for Player {
    type V = PlayerView;

    closed spec fn view(&self) -> PlayerView {
        PlayerView {
            position: self.position@,
            speed: self.speed as int,
            grid_size: self.grid_size as int,
            moving: self.moving,
            target: self.target@,
            facing: self.facing,
        }
    }
}

impl Player {
    /// The player's position is inside the world and its key step is not
    /// larger than [`MAX_GRID_SIZE`].
    pub open spec fn wf(&self) -> bool {
        &&& 0 <= self@.position.x <= WORLD_LIMIT
        &&& 0 <= self@.position.y <= WORLD_LIMIT
        &&& self@.grid_size <= MAX_GRID_SIZE
        &&& self@.speed == PLAYER_SPEED
    }

    /// The player at the start of a game: idle on the lower right bed tile of
    /// the first room, tile (2, 12), facing down.
    pub open spec fn at_start() -> PlayerView {
        PlayerView {
            position: Spot { x: 6400, y: 38400 },
            speed: PLAYER_SPEED as int,
            grid_size: TILE_SIZE as int,
            moving: false,
            target: Spot { x: 6400, y: 38400 },
            facing: Direction::Down,
        }
    }

    /// The player at the start of a game.
    pub fn new() -> (p: Player)
        ensures
            p.wf(),
            p@ == Self::at_start(),
            p@.on_course(),
    {
        let pos = Point { x: 6400, y: 38400 };
        Player {
            position: pos,
            speed: PLAYER_SPEED,
            grid_size: TILE_SIZE as i32,
            moving: false,
            target: pos,
            facing: Direction::Down,
        }
    }

    /// A player idle on open floor, at tile (3, 3), facing down.
    pub fn test_new() -> (p: Player)
        ensures
            p.wf(),
            p@.on_course(),
            p@ == (PlayerView {
                position: Spot { x: 9600, y: 9600 },
                speed: PLAYER_SPEED as int,
                grid_size: TILE_SIZE as int,
                moving: false,
                target: Spot { x: 9600, y: 9600 },
                facing: Direction::Down,
            }),
    {
        let pos = Point { x: 9600, y: 9600 };
        Player {
            position: pos,
            speed: PLAYER_SPEED,
            grid_size: TILE_SIZE as i32,
            moving: false,
            target: pos,
            facing: Direction::Down,
        }
    }

    /// The player's position.
    pub fn get_position(&self) -> (p: Point)
        ensures
            p@ == self@.position,
    {
        self.position
    }

    /// The direction last chosen.
    pub fn get_facing(&self) -> (d: Direction)
        ensures
            d == self@.facing,
    {
        self.facing
    }

    /// Where the step under way, or the last one, leads.
    pub fn get_target(&self) -> (p: Point)
        ensures
            p@ == self@.target,
    {
        self.target
    }

    /// Whether a step is under way.
    pub fn is_moving(&self) -> (m: bool)
        ensures
            m == self@.moving,
    {
        self.moving
    }

    /// The lattice point nearest to `p`.
    fn lattice_point(p: Point) -> (l: Point)
        requires
            -WORLD_LIMIT <= p.x <= WORLD_LIMIT,
            -WORLD_LIMIT <= p.y <= WORLD_LIMIT,
        ensures
            l@ == p@.lattice(),
    {
        Point {
            x: nearest_tile_index(p.x) * (TILE_SIZE as i32),
            y: nearest_tile_index(p.y) * (TILE_SIZE as i32),
        }
    }

    /// The distance covered in `dt_micros` microseconds.
    fn step_length(&self, dt_micros: u64) -> (step: u128)
        ensures
            step == travel(self@.speed, dt_micros as int),
    {
        let speed: u128 = self.speed as u128;
        let elapsed: u128 = dt_micros as u128;
        assert(speed * elapsed <= 0xFFFF_FFFF * 0xFFFF_FFFF_FFFF_FFFF) by (nonlinear_arith)
            requires
                0 <= speed <= 0xFFFF_FFFF,
                0 <= elapsed <= 0xFFFF_FFFF_FFFF_FFFF,
        ;
        speed * elapsed / (MICROS_PER_SECOND as u128)
    }

    /// Computes [`PlayerView::may_move`] for a destination near the world.
    fn hitbox_may_move<R: Room>(&self, map: &WorldMap<R>, to_x: i64, to_y: i64) -> (ok: bool)
        requires
            map.wf(),
            -0x3_0000_0000 <= to_x <= 0x3_0000_0000,
            -0x3_0000_0000 <= to_y <= 0x3_0000_0000,
        ensures
            ok == self@.may_move(*map, Spot { x: to_x as int, y: to_y as int }),
    {
        map.is_movement_allowed(
            self.position.x as i64 + HITBOX_INSET,
            self.position.y as i64 + HITBOX_INSET,
            to_x + HITBOX_INSET,
            to_y + HITBOX_INSET,
            HITBOX_SIZE,
            HITBOX_SIZE,
        )
    }

    /// Keeps a coordinate within `[0, limit - TILE_SIZE]`.
    fn confined(v: i64, limit: i64) -> (c: i32)
        requires
            TILE_SIZE <= limit <= WORLD_LIMIT,
        ensures
            c == clamped(v as int, 0, limit - TILE_SIZE),
            0 <= c <= limit - TILE_SIZE,
    {
        if v < 0 {
            0
        } else if v < limit - TILE_SIZE {
            v as i32
        } else {
            (limit - TILE_SIZE) as i32
        }
    }

    /// Width and height of the active room in world units.
    fn room_size<R: Room>(map: &WorldMap<R>) -> (size: (i64, i64))
        requires
            map.wf(),
        ensures
            size.0 == cols(map.grid()) * TILE_SIZE,
            size.1 == rows(map.grid()) * TILE_SIZE,
            TILE_SIZE <= size.0 <= WORLD_LIMIT,
            TILE_SIZE <= size.1 <= WORLD_LIMIT,
    {
        let w: i64 = map.width_pixels() as i64 * UNITS_PER_PIXEL;
        let h: i64 = map.height_pixels() as i64 * UNITS_PER_PIXEL;
        (w, h)
    }

    /// First phase of a tick: takes input.
    fn steer(&mut self, keys: &HeldKeys)
        requires
            old(self).wf(),
        ensures
            final(self).wf(),
            final(self)@ == old(self)@.steer(*keys),
    {
        let lattice: Point = Self::lattice_point(self.position);
        let at_lattice: bool = distance_squared(self.position, lattice) < (ON_LATTICE_RADIUS
            * ON_LATTICE_RADIUS) as u128;
        if !self.moving || at_lattice {
            if let Some(d) = keys.pick() {
                let next: (i64, i64) = toward(lattice.x as i64, lattice.y as i64, d, TILE_SIZE);
                let candidate = Point { x: next.0 as i32, y: next.1 as i32 };
                self.facing = d;
                if !self.moving || distance_squared(self.target, candidate) > (RETARGET_RADIUS
                    * RETARGET_RADIUS) as u128 {
                    self.target = candidate;
                    self.moving = true;
                }
            }
        }
    }

    /// Computes [`PlayerView::reaches`].
    fn reaches(&self, step: u128) -> (r: bool)
        ensures
            r == self@.reaches(step as int),
            !r ==> step < 0x2_0000_0000,
    {
        let gap: u128 = distance_squared(self.position, self.target);
        if step >= 0x2_0000_0000 {
            assert(step * step >= 0x2_0000_0000 * 0x2_0000_0000) by (nonlinear_arith)
                requires
                    step >= 0x2_0000_0000,
            ;
            true
        } else {
            assert(step * step < 0x2_0000_0000 * 0x2_0000_0000) by (nonlinear_arith)
                requires
                    0 <= step < 0x2_0000_0000,
            ;
            gap <= step * step
        }
    }

    /// Computes [`PlayerView::next_spot`] for a step that does not reach
    /// the target.
    fn next_spot(&self, step: u128) -> (to: (i64, i64))
        requires
            step < 0x2_0000_0000,
        ensures
            self@.next_spot(step as int) == (Spot { x: to.0 as int, y: to.1 as int }),
            -0x3_0000_0000 <= to.0 <= 0x3_0000_0000,
            -0x3_0000_0000 <= to.1 <= 0x3_0000_0000,
    {
        let x: i64 = self.position.x as i64;
        let y: i64 = self.position.y as i64;
        let dx: i64 = self.target.x as i64 - x;
        let dy: i64 = self.target.y as i64 - y;
        let len: i64 = step as i64;
        if abs_i64(dx) > abs_i64(dy) {
            if dx > 0 {
                (x + len, y)
            } else {
                (x - len, y)
            }
        } else {
            if dy > 0 {
                (x, y + len)
            } else {
                (x, y - len)
            }
        }
    }

    /// Second phase of a tick: moves. Returns where the player is after the
    /// move; the position itself is stored once it has been confined.
    fn advance<R: Room>(&mut self, step: u128, map: &WorldMap<R>) -> (at: (i64, i64))
        requires
            old(self).wf(),
            map.wf(),
        ensures
            final(self).wf(),
            old(self)@.advance(step as int, *map) == (PlayerView {
                position: Spot { x: at.0 as int, y: at.1 as int },
                ..final(self)@
            }),
            final(self)@.position == old(self)@.position,
    {
        let x: i64 = self.position.x as i64;
        let y: i64 = self.position.y as i64;
        if !self.moving {
            return (x, y);
        }
        if self.reaches(step) {
            let land: bool = self.hitbox_may_move(map, self.target.x as i64, self.target.y as i64);
            self.moving = false;
            if land {
                (self.target.x as i64, self.target.y as i64)
            } else {
                (x, y)
            }
        } else {
            let to: (i64, i64) = self.next_spot(step);
            if self.hitbox_may_move(map, to.0, to.1) {
                to
            } else {
                self.moving = false;
                (x, y)
            }
        }
    }

    /// Fourth phase of a tick: puts an idle player back on the lattice.
    fn settle(&mut self)
        requires
            old(self).wf(),
        ensures
            final(self).wf(),
            final(self)@ == old(self)@.settle(),
            !final(self)@.moving ==> final(self)@.position.aligned_within(SETTLE_RADIUS as int),
    {
        if !self.moving {
            let nearest: Point = Self::lattice_point(self.position);
            let off: u128 = distance_squared(self.position, nearest);
            if off > (SETTLE_RADIUS * SETTLE_RADIUS) as u128 {
                self.position = nearest;
            } else {
                proof {
                    let p = self@.position;
                    let l = p.lattice();
                    lemma_square_nonnegative(p.x - l.x);
                    lemma_square_nonnegative(p.y - l.y);
                    lemma_square_bound(p.x - l.x, SETTLE_RADIUS as int);
                    lemma_square_bound(p.y - l.y, SETTLE_RADIUS as int);
                }
            }
        }
    }

    /// Advances the player by one tick of `dt_micros` microseconds with the
    /// given keys held. An idle player ends the tick within
    /// [`SETTLE_RADIUS`] of the lattice on both axes, a player on course
    /// stays on course, and the player's tile is always inside the room. A
    /// tick that is a step on the way moves the player along one axis by
    /// the length of the step; in a room with the layout of a grid room
    /// that is every tick that leaves the player stepping.
    pub fn update<R: Room>(&mut self, keys: &HeldKeys, dt_micros: u64, map: &WorldMap<R>)
        requires
            old(self).wf(),
            map.wf(),
        ensures
            final(self).wf(),
            final(self)@ == old(self)@.tick(*keys, dt_micros as int, *map),
            !final(self)@.moving ==> final(self)@.position.aligned_within(SETTLE_RADIUS as int),
            old(self)@.on_course() ==> final(self)@.on_course(),
            old(self)@.steps_on(*keys, dt_micros as int, *map) && travel(
                old(self)@.speed,
                dt_micros as int,
            ) != 0 ==> final(self)@.moving && one_axis_move(
                old(self)@.position,
                final(self)@.position,
                travel(old(self)@.speed, dt_micros as int),
            ),
            keeps_layout(map.grid()) && final(self)@.moving && travel(
                old(self)@.speed,
                dt_micros as int,
            ) != 0 ==> one_axis_move(
                old(self)@.position,
                final(self)@.position,
                travel(old(self)@.speed, dt_micros as int),
            ),
            0 <= final(self)@.position.x <= cols(map.grid()) * TILE_SIZE - TILE_SIZE,
            0 <= final(self)@.position.y <= rows(map.grid()) * TILE_SIZE - TILE_SIZE,
    {
        proof {
            if self@.on_course() {
                lemma_tick_keeps_course(self@, *keys, dt_micros as int, *map);
            }
            if keeps_layout(map.grid()) && self@.tick(*keys, dt_micros as int, *map).moving
                && travel(self@.speed, dt_micros as int) != 0 {
                lemma_stepping_tick_goes_along_one_axis(self@, *keys, dt_micros as int, *map);
            }
            if self@.steps_on(*keys, dt_micros as int, *map) && travel(
                self@.speed,
                dt_micros as int,
            ) != 0 {
                lemma_step_goes_along_one_axis(self@, *keys, dt_micros as int, *map);
            }
        }
        let step: u128 = self.step_length(dt_micros);
        self.steer(keys);
        let at: (i64, i64) = self.advance(step, map);
        let (width, height) = Self::room_size(map);
        self.position = Point { x: Self::confined(at.0, width), y: Self::confined(at.1, height) };
        self.settle();
    }

    /// Moves the player by one push in direction `dir` lasting `dt_micros`
    /// microseconds, all at once, if the map allows it.
    pub fn update_with_dir<R: Room>(
        &mut self,
        dir: Option<Direction>,
        dt_micros: u64,
        map: &WorldMap<R>,
    )
        requires
            old(self).wf(),
            map.wf(),
        ensures
            final(self).wf(),
            final(self)@ == old(self)@.pushed(
                dir,
                travel(old(self)@.speed, dt_micros as int),
                *map,
            ),
    {
        let mut x: i64 = self.position.x as i64;
        let mut y: i64 = self.position.y as i64;
        if let Some(d) = dir {
            let step: u128 = self.step_length(dt_micros);
            if step < 0x1_0000_0000 {
                let to: (i64, i64) = toward(x, y, d, step as i64);
                if self.hitbox_may_move(map, to.0, to.1) {
                    x = to.0;
                    y = to.1;
                }
            } else {
                proof {
                    let to = self@.position.toward(d, step as int);
                    if self@.may_move(*map, to) {
                        lemma_free_rect_inside(
                            map.grid(),
                            to.x + HITBOX_INSET,
                            to.y + HITBOX_INSET,
                            HITBOX_SIZE as int,
                            HITBOX_SIZE as int,
                        );
                    }
                }
            }
        }
        let (width, height) = Self::room_size(map);
        self.position = Point { x: Self::confined(x, width), y: Self::confined(y, height) };
    }

    /// Starts a step on a single press of a movement key; any other key is
    /// ignored.
    pub fn handle_key(&mut self, key: Key)
        requires
            old(self).wf(),
        ensures
            final(self).wf(),
            final(self)@ == old(self)@.pressed(key),
    {
        if let Some(d) = key.as_direction() {
            let step: i64 = if self.grid_size as i64 > MIN_KEY_STEP {
                self.grid_size as i64
            } else {
                MIN_KEY_STEP
            };
            let aim: (i64, i64) = toward(self.position.x as i64, self.position.y as i64, d, step);
            self.target = Point {
                x: nearest_tile_index(aim.0 as i32) * (TILE_SIZE as i32),
                y: nearest_tile_index(aim.1 as i32) * (TILE_SIZE as i32),
            };
            self.moving = true;
        }
    }

    /// Moves the player to the middle of the tile whose corner is the
    /// nearest lattice point.
    pub fn snap_to_grid_center(&mut self)
        requires
            old(self).wf(),
            old(self)@.position.x <= WORLD_LIMIT - TILE_SIZE,
            old(self)@.position.y <= WORLD_LIMIT - TILE_SIZE,
        ensures
            final(self).wf(),
            final(self)@ == old(self)@.centred(),
    {
        let nearest: Point = Self::lattice_point(self.position);
        self.position = Point {
            x: nearest.x + (HALF_TILE as i32),
            y: nearest.y + (HALF_TILE as i32),
        };
    }
}

/// The magnitude of a difference of two coordinates.
fn abs_i64(v: i64) -> (a: i64)
    requires
        v > i64::MIN,
    ensures
        a == vstd::math::abs(v as int),
{
    if v < 0 {
        -v
    } else {
        v
    }
}

/// Grid alignment: whatever the state, the keys, the time and the map, a
/// player that is idle after a tick is within [`SETTLE_RADIUS`] of a
/// multiple of the tile size on both axes.
pub proof fn lemma_idle_player_is_aligned<R: Room>(
    s: PlayerView,
    keys: HeldKeys,
    dt_micros: int,
    map: WorldMap<R>,
)
    ensures
        !s.tick(keys, dt_micros, map).moving ==> s.tick(
            keys,
            dt_micros,
            map,
        ).position.aligned_within(SETTLE_RADIUS as int),
{
    let before = s.steer(keys).advance(travel(s.speed, dt_micros), map).confine(
        cols(map.grid()) * TILE_SIZE,
        rows(map.grid()) * TILE_SIZE,
    );
    lemma_settled_is_aligned(before);
}

/// An idle player is within [`SETTLE_RADIUS`] of the lattice once it has
/// settled.
pub proof fn lemma_settled_is_aligned(s: PlayerView)
    ensures
        !s.settle().moving ==> s.settle().position.aligned_within(SETTLE_RADIUS as int),
        s.settle().moving == s.moving,
{
    let p = s.position;
    let l = p.lattice();
    if !s.moving && p.dist_sq(l) <= SETTLE_RADIUS * SETTLE_RADIUS {
        lemma_square_nonnegative(p.x - l.x);
        lemma_square_nonnegative(p.y - l.y);
        lemma_square_bound(p.x - l.x, SETTLE_RADIUS as int);
        lemma_square_bound(p.y - l.y, SETTLE_RADIUS as int);
    }
}

/// A step that falls short of a point `(dx, dy)` away is shorter than twice
/// the larger of the two distances.
proof fn lemma_short_step(dx: int, dy: int, step: int)
    by (nonlinear_arith)
    requires
        step >= 0,
        dx * dx + dy * dy > step * step,
        -dx <= dy <= dx || dx <= dy <= -dx,
    ensures
        step < 2 * dx || step < -2 * dx,
{
}

/// The first phase of a tick keeps a player on course: a new target is the
/// lattice point next to the one the player stands on, or is within a
/// pixel of.
pub proof fn lemma_steer_keeps_course(s: PlayerView, keys: HeldKeys)
    requires
        s.on_course(),
    ensures
        s.steer(keys).moving ==> s.steer(keys).on_course(),
{
    let p = s.position;
    let l = p.lattice();
    if s.moving && s.at_lattice() {
        lemma_square_nonnegative(p.x - l.x);
        lemma_square_nonnegative(p.y - l.y);
        lemma_square_bound(p.x - l.x, ON_LATTICE_RADIUS as int);
        lemma_square_bound(p.y - l.y, ON_LATTICE_RADIUS as int);
    }
}

/// A move that falls short of the target brings the player no farther from
/// it along either axis.
proof fn lemma_increment_comes_closer(s: PlayerView, step: int)
    requires
        s.moving,
        step >= 0,
        !s.reaches(step),
    ensures
        vstd::math::abs(s.target.x - s.next_spot(step).x) <= vstd::math::abs(
            s.target.x - s.position.x,
        ),
        vstd::math::abs(s.target.y - s.next_spot(step).y) <= vstd::math::abs(
            s.target.y - s.position.y,
        ),
{
    let dx = s.target.x - s.position.x;
    let dy = s.target.y - s.position.y;
    if vstd::math::abs(dx) > vstd::math::abs(dy) {
        lemma_short_step(-dx, -dy, step);
    } else {
        lemma_short_step(-dy, -dx, step);
    }
}

/// Keeping a coordinate inside the room keeps it as near to a lattice
/// coordinate as it was, if it was within reach of the room and the
/// distance is one of the two that a player on course can have.
proof fn lemma_confining_keeps_near(target: int, v: int, tiles: int, near: int)
    requires
        target == nearest_lattice(target),
        tiles >= 1,
        -HITBOX_INSET <= v < tiles * TILE_SIZE - TILE_SIZE + HITBOX_INSET,
        vstd::math::abs(target - v) <= near,
        near == ON_LATTICE_RADIUS || near == TILE_SIZE + ON_LATTICE_RADIUS,
    ensures
        vstd::math::abs(target - clamped(v, 0, tiles * TILE_SIZE - TILE_SIZE)) <= near,
{
    let k = crate::units::nearest_tile(target);
    assert(target == k * TILE_SIZE);
}

/// Staying on course: a player that is on course before a tick is on
/// course after it. Between two lattice points the player is therefore
/// never more than a pixel away from the straight way to its target, and
/// never more than a tile and a pixel away from the target itself.
pub proof fn lemma_tick_keeps_course<R: Room>(
    s: PlayerView,
    keys: HeldKeys,
    dt_micros: int,
    map: WorldMap<R>,
)
    requires
        s.on_course(),
        map.wf(),
        s.speed >= 0,
        dt_micros >= 0,
    ensures
        s.tick(keys, dt_micros, map).on_course(),
{
    let step = travel(s.speed, dt_micros);
    assert(s.speed * dt_micros >= 0) by (nonlinear_arith)
        requires
            s.speed >= 0,
            dt_micros >= 0,
    ;
    let steered = s.steer(keys);
    let advanced = steered.advance(step, map);
    let confined = advanced.confine(
        cols(map.grid()) * TILE_SIZE,
        rows(map.grid()) * TILE_SIZE,
    );
    lemma_settled_is_aligned(confined);
    if advanced.moving {
        lemma_steer_keeps_course(s, keys);
        lemma_increment_comes_closer(steered, step);
        let to = steered.next_spot(step);
        let t = steered.target;
        lemma_free_rect_inside(
            map.grid(),
            to.x + HITBOX_INSET,
            to.y + HITBOX_INSET,
            HITBOX_SIZE as int,
            HITBOX_SIZE as int,
        );
        let dx = vstd::math::abs(t.x - steered.position.x);
        let dy = vstd::math::abs(t.y - steered.position.y);
        if dx <= TILE_SIZE + ON_LATTICE_RADIUS && dy <= ON_LATTICE_RADIUS {
            lemma_confining_keeps_near(
                t.x,
                to.x,
                cols(map.grid()),
                TILE_SIZE + ON_LATTICE_RADIUS,
            );
            lemma_confining_keeps_near(t.y, to.y, rows(map.grid()), ON_LATTICE_RADIUS as int);
        } else {
            lemma_confining_keeps_near(t.x, to.x, cols(map.grid()), ON_LATTICE_RADIUS as int);
            lemma_confining_keeps_near(
                t.y,
                to.y,
                rows(map.grid()),
                TILE_SIZE + ON_LATTICE_RADIUS,
            );
        }
    }
}

/// No diagonal steps: the move of a tick that does not reach the target
/// goes along exactly one axis, by exactly the length of the step.
pub proof fn lemma_increment_is_axis_aligned(dx: int, dy: int, step: int)
    requires
        step != 0,
    ensures
        (increment(dx, dy, step).x != 0) != (increment(dx, dy, step).y != 0),
        vstd::math::abs(increment(dx, dy, step).x) + vstd::math::abs(increment(dx, dy, step).y)
            == vstd::math::abs(step),
{
}

/// No diagonal steps, for the whole tick: a tick that is a step on the way
/// moves the player along exactly one axis, by exactly the length of the
/// step, and leaves it stepping. The axis is the horizontal one when the
/// target is farther off that way than the other, else the vertical one.
pub proof fn lemma_step_goes_along_one_axis<R: Room>(
    s: PlayerView,
    keys: HeldKeys,
    dt_micros: int,
    map: WorldMap<R>,
)
    requires
        s.steps_on(keys, dt_micros, map),
        travel(s.speed, dt_micros) != 0,
    ensures
        s.tick(keys, dt_micros, map).moving,
        s.tick(keys, dt_micros, map).position == s.steer(keys).next_spot(
            travel(s.speed, dt_micros),
        ),
        one_axis_move(
            s.position,
            s.tick(keys, dt_micros, map).position,
            travel(s.speed, dt_micros),
        ),
        vstd::math::abs(s.steer(keys).target.x - s.position.x) > vstd::math::abs(
            s.steer(keys).target.y - s.position.y,
        ) ==> s.tick(keys, dt_micros, map).position.y == s.position.y,
        vstd::math::abs(s.steer(keys).target.x - s.position.x) <= vstd::math::abs(
            s.steer(keys).target.y - s.position.y,
        ) ==> s.tick(keys, dt_micros, map).position.x == s.position.x,
{
    let steered = s.steer(keys);
    let step = travel(s.speed, dt_micros);
    lemma_increment_is_axis_aligned(
        steered.target.x - steered.position.x,
        steered.target.y - steered.position.y,
        step,
    );
}

/// No diagonal steps in a walled room: where the active room keeps the
/// layout of a grid room, every tick that leaves the player stepping is a
/// step on the way, and so moves the player along exactly one axis by
/// exactly the length of the step. The player's hitbox never reaches into
/// the border of such a room, so the player is not pushed back into it.
pub proof fn lemma_stepping_tick_goes_along_one_axis<R: Room>(
    s: PlayerView,
    keys: HeldKeys,
    dt_micros: int,
    map: WorldMap<R>,
)
    requires
        map.wf(),
        keeps_layout(map.grid()),
        s.tick(keys, dt_micros, map).moving,
        travel(s.speed, dt_micros) != 0,
    ensures
        s.steps_on(keys, dt_micros, map),
        one_axis_move(
            s.position,
            s.tick(keys, dt_micros, map).position,
            travel(s.speed, dt_micros),
        ),
{
    let steered = s.steer(keys);
    let step = travel(s.speed, dt_micros);
    let to = steered.next_spot(step);
    lemma_body_keeps_off_the_border(
        map.grid(),
        to.x + HITBOX_INSET,
        to.y + HITBOX_INSET,
        HITBOX_SIZE as int,
    );
    lemma_step_goes_along_one_axis(s, keys, dt_micros, map);
}

/// All or nothing: the second phase of a tick leaves the player where it
/// was, or puts it on the target, or moves it by one increment; only the
/// last keeps the player stepping.
pub proof fn lemma_advance_is_all_or_nothing<R: Room>(s: PlayerView, step: int, map: WorldMap<R>)
    ensures
        ({
            let a = s.advance(step, map);
            ||| a == s
            ||| a == (PlayerView { moving: false, ..s })
            ||| s.moving && a == (PlayerView { position: s.target, moving: false, ..s })
                && s.reaches(step) && s.may_move(map, s.target)
            ||| s.moving && a == (PlayerView { position: s.next_spot(step), ..s })
                && !s.reaches(step) && s.may_move(map, s.next_spot(step))
        }),
        s.advance(step, map).target == s.target,
        s.advance(step, map).facing == s.facing,
{
}

/// A step under way between two lattice points is never redirected: input
/// is not read, and target and facing stay.
pub proof fn lemma_no_redirect_between_lattice_points(s: PlayerView, keys: HeldKeys)
    requires
        s.moving,
        !s.at_lattice(),
    ensures
        s.steer(keys) == s,
{
}

/// The facing follows the last direction chosen, whether or not the step
/// is taken: when a direction is sampled, it is the facing after the tick.
pub proof fn lemma_facing_follows_input<R: Room>(
    s: PlayerView,
    keys: HeldKeys,
    dt_micros: int,
    map: WorldMap<R>,
)
    ensures
        s.tick(keys, dt_micros, map).facing == match s.sampled(keys) {
            Some(d) => d,
            None => s.facing,
        },
{
}

} // verus!

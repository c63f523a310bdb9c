//! World units and the tile lattice.
//!
//! Every position, size and distance in this crate is a whole number of
//! *world units*; one screen pixel is [`UNITS_PER_PIXEL`] of them. A tile is
//! [`TILE_SIZE`] units on a side, so the hitbox inset (a tenth of a tile) and
//! the door-frame margin (eight hundredths of a tile) are whole numbers too.
//! Time is counted in microseconds and speed in world units per second.

use vstd::prelude::*;

verus! {

/// World units in one screen pixel.
pub const UNITS_PER_PIXEL: i64 = 100;

/// Side of a tile in screen pixels.
pub const TILE_PIXELS: usize = 32;

/// Side of a tile in world units.
pub const TILE_SIZE: i64 = 3200;

/// Half a tile in world units.
pub const HALF_TILE: i64 = 1600;

/// The largest number of tiles a room may have along one side.
pub const MAX_SIDE: usize = 625_000;

/// The largest coordinate magnitude an actor may hold; a room of
/// [`MAX_SIDE`] tiles is exactly this wide.
pub const WORLD_LIMIT: i64 = 2_000_000_000;

/// Microseconds in one second.
pub const MICROS_PER_SECOND: u64 = 1_000_000;

/// A point of the world, in world units.
#[derive(Clone, Copy, Debug, PartialEq, Eq, Structural)]
pub struct Point {
    pub x: i32,
    pub y: i32,
}

/// A point of the world as contracts see it: a pair of integers.
pub struct Spot {
    pub x: int,
    pub y: int,
}

impl View for Point {
    type V = Spot;

    open spec fn view(&self) -> Spot {
        Spot { x: self.x as int, y: self.y as int }
    }
}

impl Spot {
    /// The point moved by `(dx, dy)`.
    pub open spec fn shifted(self, dx: int, dy: int) -> Spot {
        Spot { x: self.x + dx, y: self.y + dy }
    }

    /// The point moved by `len` in direction `d`.
    pub open spec fn toward(self, d: Direction, len: int) -> Spot {
        match d {
            Direction::Left => Spot { x: self.x - len, y: self.y },
            Direction::Right => Spot { x: self.x + len, y: self.y },
            Direction::Up => Spot { x: self.x, y: self.y - len },
            Direction::Down => Spot { x: self.x, y: self.y + len },
        }
    }

    /// Square of the distance to `other`.
    pub open spec fn dist_sq(self, other: Spot) -> int {
        dist_sq(self.x, self.y, other.x, other.y)
    }

    /// The lattice point nearest to this point.
    pub open spec fn lattice(self) -> Spot {
        Spot { x: nearest_lattice(self.x), y: nearest_lattice(self.y) }
    }

    /// Whether each coordinate is within `eps` of a multiple of the tile
    /// size.
    pub open spec fn aligned_within(self, eps: int) -> bool {
        near_lattice(self.x, eps) && near_lattice(self.y, eps)
    }
}

/// One of the four directions an actor can step in.
#[derive(Clone, Copy, Debug, PartialEq, Eq, Structural)]
pub enum Direction {
    Left,
    Right,
    Up,
    Down,
}

impl Direction {
    /// Horizontal component of the unit step: -1, 0 or 1.
    pub open spec fn dx(self) -> int {
        match self {
            Direction::Left => -1,
            Direction::Right => 1,
            Direction::Up => 0,
            Direction::Down => 0,
        }
    }

    /// Vertical component of the unit step: -1, 0 or 1 (down is positive).
    pub open spec fn dy(self) -> int {
        match self {
            Direction::Left => 0,
            Direction::Right => 0,
            Direction::Up => -1,
            Direction::Down => 1,
        }
    }

    /// The unit step of this direction as a pair `(dx, dy)`.
    pub fn delta(self) -> (d: (i32, i32))
        ensures
            d.0 == self.dx(),
            d.1 == self.dy(),
    {
        match self {
            Direction::Left => (-1, 0),
            Direction::Right => (1, 0),
            Direction::Up => (0, -1),
            Direction::Down => (0, 1),
        }
    }
}

/// Index of the tile column (or row) that holds coordinate `x`: the floor of
/// `x / TILE_SIZE`.
pub open spec fn tile_of(x: int) -> int {
    x / (TILE_SIZE as int)
}

/// Index of the lattice line nearest to `x`; a coordinate exactly half way
/// between two lines goes to the one farther from zero.
pub open spec fn nearest_tile(x: int) -> int {
    if x >= 0 {
        (x + HALF_TILE) / (TILE_SIZE as int)
    } else {
        -((HALF_TILE - x) / (TILE_SIZE as int))
    }
}

/// The lattice coordinate nearest to `x`.
pub open spec fn nearest_lattice(x: int) -> int {
    lattice_line(nearest_tile(x))
}

/// Coordinate of lattice line `k`: a multiple of the tile size.
pub open spec fn lattice_line(k: int) -> int {
    k * TILE_SIZE
}

/// Whether `x` lies within `eps` of the nearest multiple of the tile size.
pub open spec fn near_lattice(x: int, eps: int) -> bool {
    -eps <= x - nearest_lattice(x) <= eps
}

/// Square of the distance between `(ax, ay)` and `(bx, by)`.
pub open spec fn dist_sq(ax: int, ay: int, bx: int, by: int) -> int {
    (ax - bx) * (ax - bx) + (ay - by) * (ay - by)
}

/// Distance covered in `dt_micros` microseconds at `speed` units per second,
/// rounded down to a whole unit.
pub open spec fn travel(speed: int, dt_micros: int) -> int {
    speed * dt_micros / (MICROS_PER_SECOND as int)
}

/// Computes [`Spot::toward`] on coordinates far from the ends of their
/// range.
pub(crate) fn toward(x: i64, y: i64, d: Direction, len: i64) -> (to: (i64, i64))
    requires
        -0x4000_0000_0000 <= x <= 0x4000_0000_0000,
        -0x4000_0000_0000 <= y <= 0x4000_0000_0000,
        -0x4000_0000_0000 <= len <= 0x4000_0000_0000,
    ensures
        (Spot { x: to.0 as int, y: to.1 as int }) == (Spot { x: x as int, y: y as int }).toward(
            d,
            len as int,
        ),
{
    match d {
        Direction::Left => (x - len, y),
        Direction::Right => (x + len, y),
        Direction::Up => (x, y - len),
        Direction::Down => (x, y + len),
    }
}

/// Computes [`tile_of`].
pub fn tile_index(x: i64) -> (t: i64)
    ensures
        t == tile_of(x as int),
{
    if x >= 0 {
        x / TILE_SIZE
    } else {
        let m: i64 = -(x + 1);
        -(m / TILE_SIZE) - 1
    }
}

/// Computes [`tile_of`] of the sum `x + w` without overflow.
pub fn tile_index_of_sum(x: i64, w: i64) -> (t: i128)
    ensures
        t == tile_of(x + w),
{
    let s: i128 = x as i128 + w as i128;
    if s >= 0 {
        s / (TILE_SIZE as i128)
    } else {
        let m: i128 = -(s + 1);
        -(m / (TILE_SIZE as i128)) - 1
    }
}

/// Computes [`nearest_tile`].
pub fn nearest_tile_index(x: i32) -> (g: i32)
    ensures
        g == nearest_tile(x as int),
        -HALF_TILE <= x - g * TILE_SIZE <= HALF_TILE,
{
    let wide: i64 = x as i64;
    if wide >= 0 {
        ((wide + HALF_TILE) / TILE_SIZE) as i32
    } else {
        (-((HALF_TILE - wide) / TILE_SIZE)) as i32
    }
}

/// Computes [`dist_sq`] for two points.
pub fn distance_squared(a: Point, b: Point) -> (d: u128)
    ensures
        d == a@.dist_sq(b@),
        d < 0x2_0000_0000_0000_0000,
{
    let dx: i64 = a.x as i64 - b.x as i64;
    let dy: i64 = a.y as i64 - b.y as i64;
    square(dx) + square(dy)
}

/// The square of a difference of two coordinates.
fn square(d: i64) -> (s: u128)
    requires
        -0x1_0000_0000 < d < 0x1_0000_0000,
    ensures
        s == d * d,
        s < 0x1_0000_0000_0000_0000,
{
    let m: u128 = if d >= 0 {
        d as u128
    } else {
        (-d) as u128
    };
    assert(m * m == d * d) by (nonlinear_arith)
        requires
            m == d || m == -d,
    ;
    assert(m * m < 0x1_0000_0000_0000_0000) by (nonlinear_arith)
        requires
            0 <= m < 0x1_0000_0000,
    ;
    m * m
}

/// The nearest lattice coordinate is never more than half a tile away, and no
/// lattice coordinate is nearer.
pub proof fn lemma_nearest_lattice_is_nearest(x: int, k: int)
    ensures
        -HALF_TILE <= x - nearest_lattice(x) <= HALF_TILE,
        vstd::math::abs(x - nearest_lattice(x)) <= vstd::math::abs(x - lattice_line(k)),
{
}

/// A coordinate is within `eps` of its nearest lattice coordinate exactly
/// when it is within `eps` of some multiple of the tile size.
pub proof fn lemma_near_lattice_is_near_a_multiple(x: int, eps: int)
    ensures
        near_lattice(x, eps) <==> exists|k: int| -eps <= x - #[trigger] lattice_line(k) <= eps,
{
    if near_lattice(x, eps) {
        assert(-eps <= x - lattice_line(nearest_tile(x)) <= eps);
    }
    if exists|k: int| -eps <= x - #[trigger] lattice_line(k) <= eps {
        let k = choose|k: int| -eps <= x - #[trigger] lattice_line(k) <= eps;
        lemma_nearest_lattice_is_nearest(x, k);
    }
}

/// A number whose square is at most `r * r` lies between `-r` and `r`.
pub proof fn lemma_square_bound(d: int, r: int)
    by (nonlinear_arith)
    requires
        r >= 0,
        d * d <= r * r,
    ensures
        -r <= d <= r,
{
}

/// Squares are never negative.
pub proof fn lemma_square_nonnegative(d: int)
    by (nonlinear_arith)
    ensures
        d * d >= 0,
{
}

} // verus!

//! The enemy: an actor that steps toward the player one tile at a time.
//!
//! An idle enemy picks the next step by the sign of its horizontal distance
//! to the player and, when that is zero, of its vertical distance. It knows
//! no way around obstacles: a blocked step ends, and the enemy picks again
//! on the next tick. Its target always lies straight to one side of it, so
//! all of its distances are distances along one axis.

use vstd::prelude::*;
use crate::map::WorldMap;
use crate::player::Player;
use crate::rooms::lemma_free_rect_inside;
use crate::rooms::solid_at;
use crate::rooms::Room;
use crate::rooms::PROBE_SIZE;
use crate::units::travel;
use crate::units::Point;
use crate::units::Spot;
use crate::units::HALF_TILE;
use crate::units::MICROS_PER_SECOND;
use crate::units::TILE_SIZE;
use crate::units::WORLD_LIMIT;

verus! {

/// Speed of an enemy in world units per second.
pub const ENEMY_SPEED: u32 = 8_000;

/// The enemy's state as contracts see it.
pub struct EnemyView {
    pub position: Spot,
    pub speed: int,
    pub grid_size: int,
    pub moving: bool,
    pub target: Spot,
}

/// The coordinate `from` moved by `step` toward `to`; it stays when the two
/// are equal.
pub open spec fn approach(from: int, to: int, step: int) -> int {
    if to > from {
        from + step
    } else if to < from {
        from - step
    } else {
        from
    }
}

impl EnemyView {
    /// The target lies straight left, right, above or below the enemy, or
    /// on it.
    pub open spec fn axis_aligned(self) -> bool {
        self.position.x == self.target.x || self.position.y == self.target.y
    }

    /// Distance to the target along the axes.
    pub open spec fn gap(self) -> int {
        (vstd::math::abs(self.target.x - self.position.x) + vstd::math::abs(
            self.target.y - self.position.y,
        )) as int
    }

    /// Whether the enemy is on course: its target lies straight to one side
    /// of it, and while it steps it is no farther from the target than the
    /// length of a step.
    pub open spec fn on_course(self) -> bool {
        self.axis_aligned() && (self.moving ==> self.gap() <= self.grid_size)
    }

    /// First phase: an idle enemy aims one step toward `quarry`, along the
    /// horizontal axis if it is not level with it there, else along the
    /// vertical one, and is then stepping. An enemy on its quarry stays idle.
    pub open spec fn pursue(self, quarry: Spot) -> EnemyView {
        if self.moving {
            self
        } else if quarry.x != self.position.x {
            EnemyView {
                target: Spot {
                    x: approach(self.position.x, quarry.x, self.grid_size),
                    y: self.position.y,
                },
                moving: true,
                ..self
            }
        } else if quarry.y != self.position.y {
            EnemyView {
                target: Spot {
                    x: self.position.x,
                    y: approach(self.position.y, quarry.y, self.grid_size),
                },
                moving: true,
                ..self
            }
        } else {
            self
        }
    }

    /// Whether the middle of the tile that an enemy at `at` would stand on
    /// is free of solid tiles.
    pub open spec fn may_stand<R: Room>(self, map: WorldMap<R>, at: Spot) -> bool {
        !solid_at(map.grid(), at.x + HALF_TILE, at.y + HALF_TILE)
    }

    /// Where a move of length `step` that does not reach the target would
    /// put the enemy.
    pub open spec fn next_spot(self, step: int) -> Spot {
        Spot {
            x: approach(self.position.x, self.target.x, step),
            y: approach(self.position.y, self.target.y, step),
        }
    }

    /// Second phase: a stepping enemy whose target is within `step` lands
    /// on it if the place is free and is idle either way. Otherwise it moves
    /// by `step` toward the target if the place is free, and stops if not.
    pub open spec fn advance<R: Room>(self, step: int, map: WorldMap<R>) -> EnemyView {
        if !self.moving {
            self
        } else if self.gap() <= step {
            if self.may_stand(map, self.target) {
                EnemyView { position: self.target, moving: false, ..self }
            } else {
                EnemyView { moving: false, ..self }
            }
        } else {
            if self.may_stand(map, self.next_spot(step)) {
                EnemyView { position: self.next_spot(step), ..self }
            } else {
                EnemyView { moving: false, ..self }
            }
        }
    }

    /// One tick: aim, then move with the step that the enemy's speed gives
    /// for `dt_micros` microseconds.
    pub open spec fn tick<R: Room>(
        self,
        quarry: Spot,
        dt_micros: int,
        map: WorldMap<R>,
    ) -> EnemyView {
        self.pursue(quarry).advance(travel(self.speed, dt_micros), map)
    }
}

/// An actor that walks toward the player.
pub struct Enemy {
    position: Point,
    speed: u32,
    grid_size: i32,
    moving: bool,
    target: Point,
}

impl View for Enemy {
    type V = EnemyView;

    closed spec fn view(&self) -> EnemyView {
        EnemyView {
            position: self.position@,
            speed: self.speed as int,
            grid_size: self.grid_size as int,
            moving: self.moving,
            target: self.target@,
        }
    }
}

impl Enemy {
    /// The enemy is inside the world, steps a tile at a time at its own
    /// speed, and has its target straight to one side.
    pub open spec fn wf(&self) -> bool {
        &&& -WORLD_LIMIT <= self@.position.x <= WORLD_LIMIT
        &&& -WORLD_LIMIT <= self@.position.y <= WORLD_LIMIT
        &&& self@.grid_size == TILE_SIZE
        &&& self@.speed == ENEMY_SPEED
        &&& self@.axis_aligned()
    }

    /// An enemy idle at pixel (200, 200).
    pub fn new() -> (e: Enemy)
        ensures
            e.wf(),
            e@.on_course(),
            e@ == (EnemyView {
                position: Spot { x: 20000, y: 20000 },
                speed: ENEMY_SPEED as int,
                grid_size: TILE_SIZE as int,
                moving: false,
                target: Spot { x: 20000, y: 20000 },
            }),
    {
        let pos = Point { x: 20000, y: 20000 };
        Enemy {
            position: pos,
            speed: ENEMY_SPEED,
            grid_size: TILE_SIZE as i32,
            moving: false,
            target: pos,
        }
    }

    /// An enemy idle at `position`.
    pub fn at(position: Point) -> (e: Enemy)
        requires
            -WORLD_LIMIT <= position.x <= WORLD_LIMIT,
            -WORLD_LIMIT <= position.y <= WORLD_LIMIT,
        ensures
            e.wf(),
            e@.on_course(),
            e@ == (EnemyView {
                position: position@,
                speed: ENEMY_SPEED as int,
                grid_size: TILE_SIZE as int,
                moving: false,
                target: position@,
            }),
    {
        Enemy {
            position,
            speed: ENEMY_SPEED,
            grid_size: TILE_SIZE as i32,
            moving: false,
            target: position,
        }
    }

    /// The enemy's position.
    pub fn get_position(&self) -> (p: Point)
        ensures
            p@ == self@.position,
    {
        self.position
    }

    /// Where the step under way, or the last one, leads.
    pub fn get_target(&self) -> (p: Point)
        ensures
            p@ == self@.target,
    {
        self.target
    }

    /// Whether a step is under way.
    pub fn is_moving(&self) -> (m: bool)
        ensures
            m == self@.moving,
    {
        self.moving
    }

    /// Computes [`approach`].
    fn approach(from: i64, to: i64, step: i64) -> (r: i64)
        requires
            -0x4000_0000_0000 <= from <= 0x4000_0000_0000,
            -0x4000_0000_0000 <= step <= 0x4000_0000_0000,
        ensures
            r == approach(from as int, to as int, step as int),
    {
        if to > from {
            from + step
        } else if to < from {
            from - step
        } else {
            from
        }
    }

    /// Computes [`EnemyView::may_stand`] and says where a free place lies.
    fn may_stand<R: Room>(&self, map: &WorldMap<R>, x: i64, y: i64) -> (ok: bool)
        requires
            map.wf(),
            -0x4000_0000_0000 <= x <= 0x4000_0000_0000,
            -0x4000_0000_0000 <= y <= 0x4000_0000_0000,
        ensures
            ok == self@.may_stand(*map, Spot { x: x as int, y: y as int }),
            ok ==> -WORLD_LIMIT <= x <= WORLD_LIMIT && -WORLD_LIMIT <= y <= WORLD_LIMIT,
    {
        let solid: bool = map.is_solid_at_point(x + HALF_TILE, y + HALF_TILE);
        proof {
            if !solid {
                lemma_free_rect_inside(
                    map.grid(),
                    x + HALF_TILE - PROBE_SIZE / 2,
                    y + HALF_TILE - PROBE_SIZE / 2,
                    PROBE_SIZE as int,
                    PROBE_SIZE as int,
                );
            }
        }
        !solid
    }

    /// First phase of a tick: aims at the quarry.
    fn pursue(&mut self, quarry: Point)
        requires
            old(self).wf(),
        ensures
            final(self).wf(),
            final(self)@ == old(self)@.pursue(quarry@),
    {
        if self.moving {
            return ;
        }
        let x: i64 = self.position.x as i64;
        let y: i64 = self.position.y as i64;
        if quarry.x != self.position.x {
            self.target = Point {
                x: Self::approach(x, quarry.x as i64, self.grid_size as i64) as i32,
                y: self.position.y,
            };
            self.moving = true;
        } else if quarry.y != self.position.y {
            self.target = Point {
                x: self.position.x,
                y: Self::approach(y, quarry.y as i64, self.grid_size as i64) as i32,
            };
            self.moving = true;
        }
    }

    /// Second phase of a tick: moves.
    fn advance<R: Room>(&mut self, step: u128, map: &WorldMap<R>)
        requires
            old(self).wf(),
            map.wf(),
        ensures
            final(self).wf(),
            final(self)@ == old(self)@.advance(step as int, *map),
    {
        if !self.moving {
            return ;
        }
        let x: i64 = self.position.x as i64;
        let y: i64 = self.position.y as i64;
        let dx: i64 = self.target.x as i64 - x;
        let dy: i64 = self.target.y as i64 - y;
        let gap: i64 = (if dx < 0 {
            -dx
        } else {
            dx
        }) + (if dy < 0 {
            -dy
        } else {
            dy
        });
        if gap as u128 <= step {
            if self.may_stand(map, self.target.x as i64, self.target.y as i64) {
                self.position = self.target;
            }
            self.moving = false;
        } else {
            let len: i64 = step as i64;
            let to_x: i64 = Self::approach(x, self.target.x as i64, len);
            let to_y: i64 = Self::approach(y, self.target.y as i64, len);
            if self.may_stand(map, to_x, to_y) {
                self.position = Point { x: to_x as i32, y: to_y as i32 };
            } else {
                self.moving = false;
            }
        }
    }

    /// Advances the enemy by one tick of `dt_micros` microseconds in
    /// pursuit of the point `quarry`.
    pub fn chase<R: Room>(&mut self, dt_micros: u64, quarry: Point, map: &WorldMap<R>)
        requires
            old(self).wf(),
            map.wf(),
        ensures
            final(self).wf(),
            final(self)@ == old(self)@.tick(quarry@, dt_micros as int, *map),
            old(self)@.on_course() ==> final(self)@.on_course(),
    {
        proof {
            if self@.on_course() {
                lemma_tick_keeps_course(self@, quarry@, dt_micros as int, *map);
            }
        }
        let speed: u128 = self.speed as u128;
        let elapsed: u128 = dt_micros as u128;
        assert(speed * elapsed <= 0xFFFF_FFFF * 0xFFFF_FFFF_FFFF_FFFF) by (nonlinear_arith)
            requires
                0 <= speed <= 0xFFFF_FFFF,
                0 <= elapsed <= 0xFFFF_FFFF_FFFF_FFFF,
        ;
        let step: u128 = speed * elapsed / (MICROS_PER_SECOND as u128);
        self.pursue(quarry);
        self.advance(step, map);
    }

    /// Advances the enemy by one tick of `dt_micros` microseconds in
    /// pursuit of `player`.
    pub fn update<R: Room>(&mut self, dt_micros: u64, player: &Player, map: &WorldMap<R>)
        requires
            old(self).wf(),
            map.wf(),
        ensures
            final(self).wf(),
            final(self)@ == old(self)@.tick(player@.position, dt_micros as int, *map),
            old(self)@.on_course() ==> final(self)@.on_course(),
    {
        self.chase(dt_micros, player.get_position(), map);
    }
}

/// The first step of a hunt goes along the horizontal axis whenever the
/// enemy is not level with its quarry there: an idle enemy then aims one
/// tile to the side of the quarry and keeps its height.
pub proof fn lemma_pursuit_prefers_horizontal(e: EnemyView, quarry: Spot)
    requires
        !e.moving,
        quarry.x != e.position.x,
    ensures
        e.pursue(quarry).moving,
        e.pursue(quarry).target.y == e.position.y,
        e.pursue(quarry).target.x == if quarry.x < e.position.x {
            e.position.x - e.grid_size
        } else {
            e.position.x + e.grid_size
        },
{
}

/// Staying on course: an enemy that is on course before a tick is on
/// course after it, so it walks the straight way from where a step began
/// to its target.
pub proof fn lemma_tick_keeps_course<R: Room>(
    e: EnemyView,
    quarry: Spot,
    dt_micros: int,
    map: WorldMap<R>,
)
    requires
        e.on_course(),
        e.grid_size >= 0,
        e.speed >= 0,
        dt_micros >= 0,
    ensures
        e.tick(quarry, dt_micros, map).on_course(),
{
    assert(e.speed * dt_micros >= 0) by (nonlinear_arith)
        requires
            e.speed >= 0,
            dt_micros >= 0,
    ;
}

/// A blocked enemy does not move: after a tick the enemy is where it was,
/// or on a place that is free.
pub proof fn lemma_enemy_never_enters_solid<R: Room>(
    e: EnemyView,
    quarry: Spot,
    dt_micros: int,
    map: WorldMap<R>,
)
    ensures
        e.tick(quarry, dt_micros, map).position == e.position || e.may_stand(
            map,
            e.tick(quarry, dt_micros, map).position,
        ),
{
}

} // verus!

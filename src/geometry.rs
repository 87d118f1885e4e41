//! Spatial primitives.
//!
//! Lengths are counted in fine units: one world unit is `UNIT` fine units.
//! Velocities are counted in `VEL_UNIT` per world unit per second, and time in
//! microseconds, so that a velocity times a duration is a length in fine units.
use vstd::prelude::*;

verus! {

/// Fine units per world unit.
pub const UNIT: i64 = 1_000_000_000_000;

/// Velocity units per world unit per second.
pub const VEL_UNIT: i64 = 1_000_000;

/// Microseconds per second.
pub const SECOND: i64 = 1_000_000;

/// Bound on the coordinates of stored positions (one hundred thousand world units).
pub const COORD_LIMIT: i64 = 100_000_000_000_000_000;

/// Bound on box coordinates that the intersection test accepts.
pub const BOX_LIMIT: i64 = 4_000_000_000_000_000_000;

/// Bound on half extents.
pub const HALF_LIMIT: i64 = 1_000_000_000_000_000_000;

/// A 2D vector of integers.
#[derive(Clone, Copy, Debug, PartialEq, Eq, Structural)]
pub struct Vec2 {
    pub x: i64,
    pub y: i64,
}

impl Vec2 {
    pub fn new(x: i64, y: i64) -> (r: Vec2)
        ensures
            r.x == x,
            r.y == y,
    {
        Vec2 { x, y }
    }
}

/// An axis-aligned box given by its center and its half extent.
#[derive(Clone, Copy, Debug, PartialEq, Eq, Structural)]
pub struct Aabb {
    pub center: Vec2,
    pub half: Vec2,
}

impl Aabb {
    pub open spec fn min_x(self) -> int {
        self.center.x - self.half.x
    }

    pub open spec fn max_x(self) -> int {
        self.center.x + self.half.x
    }

    pub open spec fn min_y(self) -> int {
        self.center.y - self.half.y
    }

    pub open spec fn max_y(self) -> int {
        self.center.y + self.half.y
    }

    /// The box's coordinates are small enough for its bounds to be computed.
    pub open spec fn fits(self) -> bool {
        -BOX_LIMIT <= self.center.x <= BOX_LIMIT && -BOX_LIMIT <= self.center.y <= BOX_LIMIT
            && 0 <= self.half.x <= HALF_LIMIT && 0 <= self.half.y <= HALF_LIMIT
    }

    /// The box is a stored one: its center lies within `COORD_LIMIT`.
    pub open spec fn in_range(self) -> bool {
        -COORD_LIMIT <= self.center.x <= COORD_LIMIT && -COORD_LIMIT <= self.center.y
            <= COORD_LIMIT && 0 <= self.half.x <= COORD_LIMIT && 0 <= self.half.y <= COORD_LIMIT
    }

    /// Overlap on both axes, boundaries included.
    pub open spec fn overlaps(self, o: Aabb) -> bool {
        self.min_x() <= o.max_x() && self.max_x() >= o.min_x() && self.min_y() <= o.max_y()
            && self.max_y() >= o.min_y()
    }

    /// The box moved by `dx` along x.
    pub open spec fn moved_x(self, dx: int) -> Aabb {
        Aabb { center: Vec2 { x: (self.center.x + dx) as i64, y: self.center.y }, half: self.half }
    }

    /// The box moved by `dy` along y.
    pub open spec fn moved_y(self, dy: int) -> Aabb {
        Aabb { center: Vec2 { x: self.center.x, y: (self.center.y + dy) as i64 }, half: self.half }
    }

    pub fn new(center: Vec2, half: Vec2) -> (r: Aabb)
        ensures
            r.center == center,
            r.half == half,
    {
        Aabb { center, half }
    }

    pub fn left(&self) -> (r: i64)
        requires
            self.fits(),
        ensures
            r == self.min_x(),
    {
        self.center.x - self.half.x
    }

    pub fn right(&self) -> (r: i64)
        requires
            self.fits(),
        ensures
            r == self.max_x(),
    {
        self.center.x + self.half.x
    }

    pub fn bottom(&self) -> (r: i64)
        requires
            self.fits(),
        ensures
            r == self.min_y(),
    {
        self.center.y - self.half.y
    }

    pub fn top(&self) -> (r: i64)
        requires
            self.fits(),
        ensures
            r == self.max_y(),
    {
        self.center.y + self.half.y
    }

    /// Whether the two boxes overlap, boundaries included.
    pub fn intersects(&self, o: &Aabb) -> (r: bool)
        requires
            self.fits(),
            o.fits(),
        ensures
            r == self.overlaps(*o),
    {
        self.left() <= o.right() && self.right() >= o.left() && self.bottom() <= o.top()
            && self.top() >= o.bottom()
    }

    /// The box moved by `dx` along x.
    pub fn shifted_x(&self, dx: i64) -> (r: Aabb)
        requires
            -BOX_LIMIT <= self.center.x + dx <= BOX_LIMIT,
        ensures
            r == self.moved_x(dx as int),
    {
        Aabb { center: Vec2 { x: self.center.x + dx, y: self.center.y }, half: self.half }
    }

    /// The box moved by `dy` along y.
    pub fn shifted_y(&self, dy: i64) -> (r: Aabb)
        requires
            -BOX_LIMIT <= self.center.y + dy <= BOX_LIMIT,
        ensures
            r == self.moved_y(dy as int),
    {
        Aabb { center: Vec2 { x: self.center.x, y: self.center.y + dy }, half: self.half }
    }
}

/// What touching a collider does.
#[derive(Clone, Copy, Debug, PartialEq, Eq, Structural)]
pub enum ColliderTrigger {
    Passive,
    Kill,
    Block,
}

/// A box tagged with what touching it does.
#[derive(Clone, Copy, Debug, PartialEq, Eq, Structural)]
pub struct Collider {
    pub trigger: ColliderTrigger,
    pub bounds: Aabb,
}

impl Collider {
    pub fn new(trigger: ColliderTrigger, center: Vec2, half_size: Vec2) -> (r: Collider)
        ensures
            r.trigger == trigger,
            r.bounds.center == center,
            r.bounds.half == half_size,
    {
        Collider { trigger, bounds: Aabb::new(center, half_size) }
    }
}

/// The play area: the player's box may not leave it.
#[derive(Clone, Copy, Debug, PartialEq, Eq, Structural)]
pub struct GameRect {
    pub bounds: Aabb,
}

/// Half the side of the standard play area (240 world units).
pub const GAME_RECT_HALF: i64 = 240 * UNIT;

/// The standard play area: a square of half side `GAME_RECT_HALF` centered on the origin.
pub fn setup_game_rect() -> (r: GameRect)
    ensures
        r.bounds.center == (Vec2 { x: 0, y: 0 }),
        r.bounds.half == (Vec2 { x: GAME_RECT_HALF, y: GAME_RECT_HALF }),
        r.bounds.in_range(),
{
    let h: i64 = GAME_RECT_HALF;
    GameRect { bounds: Aabb::new(Vec2::new(0, 0), Vec2::new(h, h)) }
}

} // verus!

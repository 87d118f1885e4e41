//! Blocks: indestructible metal blocks and crates that lose a hit each time
//! the player's probe touches them. Both fall at a constant rate.
use vstd::prelude::*;

use crate::geometry::{Aabb, Vec2, COORD_LIMIT, SECOND, UNIT};

verus! {

/// Half the side of a block's footprint (8 world units).
pub const BLOCK_HALF_SIZE: i64 = 8 * UNIT;

/// Half width of a crate's hit probe (12 world units).
pub const PROBE_HALF_X: i64 = 12 * UNIT;

/// Half height of a crate's hit probe (4 world units).
pub const PROBE_HALF_Y: i64 = 4 * UNIT;

/// Fall of a crate per microsecond: 1000 world units per second.
pub const CRATE_FALL_RATE: i64 = 1_000_000_000;

/// Fall of a metal block per microsecond: one and a half times a crate's.
pub const METAL_FALL_RATE: i64 = 1_500_000_000;

/// Longest tick accepted, in microseconds.
pub const MAX_DT: i64 = SECOND;

#[derive(Clone, Copy, Debug, PartialEq, Eq, Structural)]
pub enum Block {
    Metal,
    Crate { hits_left: u8 },
}

/// A block and where it stands.
#[derive(Clone, Copy, Debug, PartialEq, Eq, Structural)]
pub struct PlacedBlock {
    pub block: Block,
    pub position: Vec2,
}

/// The square a block at `position` occupies.
pub open spec fn footprint(position: Vec2) -> Aabb {
    Aabb { center: position, half: Vec2 { x: BLOCK_HALF_SIZE, y: BLOCK_HALF_SIZE } }
}

/// The narrow box that detects hits on a crate at `position`.
pub open spec fn probe(position: Vec2) -> Aabb {
    Aabb {
        center: Vec2 { x: position.x, y: (position.y + BLOCK_HALF_SIZE) as i64 },
        half: Vec2 { x: PROBE_HALF_X, y: PROBE_HALF_Y },
    }
}

/// The swept boxes after a block at `position` stops them: a swept box that
/// touches the footprint goes back to `current` on its own axis.
pub open spec fn stopped(position: Vec2, current: Aabb, box_x: Aabb, box_y: Aabb) -> (Aabb, Aabb) {
    let fp = footprint(position);
    let bx = if fp.overlaps(box_x) {
        Aabb {
            center: Vec2 { x: current.center.x, y: box_x.center.y },
            half: Vec2 { x: current.half.x, y: box_x.half.y },
        }
    } else {
        box_x
    };
    let by = if fp.overlaps(box_y) {
        Aabb {
            center: Vec2 { x: box_y.center.x, y: current.center.y },
            half: Vec2 { x: box_y.half.x, y: current.half.y },
        }
    } else {
        box_y
    };
    (bx, by)
}

/// A position whose block footprint and probe can be computed.
pub open spec fn position_in_range(p: Vec2) -> bool {
    -COORD_LIMIT <= p.x <= COORD_LIMIT && -COORD_LIMIT <= p.y <= COORD_LIMIT
}

impl Block {
    /// Fall per microsecond.
    pub open spec fn fall_rate(self) -> int {
        match self {
            Block::Metal => METAL_FALL_RATE as int,
            Block::Crate { .. } => CRATE_FALL_RATE as int,
        }
    }

    /// The block after the swept boxes (as they stand once it has stopped them)
    /// were tested against its probe: a touched crate loses one hit, never
    /// going below zero.
    pub open spec fn hit(self, position: Vec2, box_x: Aabb, box_y: Aabb) -> Block {
        match self {
            Block::Metal => Block::Metal,
            Block::Crate { hits_left } => {
                if probe(position).overlaps(box_x) || probe(position).overlaps(box_y) {
                    Block::Crate { hits_left: if hits_left == 0 { 0 } else { (hits_left - 1) as u8 } }
                } else {
                    self
                }
            },
        }
    }

    /// A crate with no hit left, due for removal.
    pub open spec fn is_depleted(self) -> bool {
        match self {
            Block::Metal => false,
            Block::Crate { hits_left } => hits_left == 0,
        }
    }

    /// Stops the swept boxes against this block at `position`; a crate whose
    /// probe touches either swept box then loses a hit.
    pub fn collide(&mut self, position: Vec2, current: &Aabb, box_x: &mut Aabb, box_y: &mut Aabb)
        requires
            position_in_range(position),
            current.fits(),
            old(box_x).fits(),
            old(box_y).fits(),
        ensures
            (*final(box_x), *final(box_y)) == stopped(position, *current, *old(box_x), *old(box_y)),
            *final(self) == old(self).hit(position, *final(box_x), *final(box_y)),
    {
        Self::block_collision(&position, current, box_x, box_y);
        match self {
            Block::Metal => {},
            Block::Crate { hits_left } => {
                let probe = Aabb::new(
                    Vec2::new(position.x, position.y + BLOCK_HALF_SIZE),
                    Vec2::new(PROBE_HALF_X, PROBE_HALF_Y),
                );
                if probe.intersects(box_x) || probe.intersects(box_y) {
                    if *hits_left > 0 {
                        *hits_left = *hits_left - 1;
                    }
                }
            },
        }
    }

    fn block_collision(position: &Vec2, current: &Aabb, box_x: &mut Aabb, box_y: &mut Aabb)
        requires
            position_in_range(*position),
            current.fits(),
            old(box_x).fits(),
            old(box_y).fits(),
        ensures
            (*final(box_x), *final(box_y)) == stopped(*position, *current, *old(box_x), *old(box_y)),
            final(box_x).fits(),
            final(box_y).fits(),
    {
        let footprint = Aabb::new(*position, Vec2::new(BLOCK_HALF_SIZE, BLOCK_HALF_SIZE));
        if footprint.intersects(box_x) {
            box_x.center.x = current.center.x;
            box_x.half.x = current.half.x;
        }
        if footprint.intersects(box_y) {
            box_y.center.y = current.center.y;
            box_y.half.y = current.half.y;
        }
    }
}

/// A crate's hits never increase: after any collision, a crate is still a
/// crate with at most as many hits left, and a metal block is still metal.
pub proof fn lemma_hits_never_increase(b: Block, position: Vec2, box_x: Aabb, box_y: Aabb)
    ensures
        match b {
            Block::Metal => b.hit(position, box_x, box_y) == Block::Metal,
            Block::Crate { hits_left } => match b.hit(position, box_x, box_y) {
                Block::Crate { hits_left: after } => after <= hits_left,
                Block::Metal => false,
            },
        },
{
}

impl PlacedBlock {
    /// Where the block stands after falling for `dt` microseconds; a tick
    /// with no positive duration moves nothing.
    pub open spec fn fallen(self, dt: int) -> PlacedBlock {
        if dt > 0 {
            PlacedBlock {
                block: self.block,
                position: Vec2 {
                    x: self.position.x,
                    y: (self.position.y - self.block.fall_rate() * dt) as i64,
                },
            }
        } else {
            self
        }
    }

    pub fn fall_tick(&mut self, dt: i64)
        requires
            position_in_range(old(self).position),
            dt <= MAX_DT,
        ensures
            *final(self) == old(self).fallen(dt as int),
    {
        if dt > 0 {
            let rate: i64 = match self.block {
                Block::Metal => METAL_FALL_RATE,
                Block::Crate { .. } => CRATE_FALL_RATE,
            };
            assert(0 < rate * dt <= 1_500_000_000_000_000) by (nonlinear_arith)
                requires
                    0 < dt <= 1_000_000,
                    0 < rate <= 1_500_000_000,
            ;
            self.position.y = self.position.y - rate * dt;
        }
    }
}

} // verus!

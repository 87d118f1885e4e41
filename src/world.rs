//! The tick driver: blocks fall first, then the player moves and collides,
//! then depleted crates are removed.
use vstd::prelude::*;

use crate::block::{position_in_range, Block, PlacedBlock, MAX_DT, METAL_FALL_RATE};
use crate::geometry::{Aabb, GameRect, Vec2, COORD_LIMIT, UNIT};
use crate::inputs::PlayerInput;
use crate::player::{blocks_in_range, movement, setup, Player, TIME_LIMIT};

verus! {

/// Height at which the metal block appears on the first tick (200 world units).
pub const METAL_SPAWN_Y: i64 = 200 * UNIT;

/// Lowest block height that one more fall keeps in range.
pub const FALL_FLOOR: i64 = -COORD_LIMIT + METAL_FALL_RATE * MAX_DT;

/// The metal block that the first tick brings in.
pub open spec fn spawned_metal() -> PlacedBlock {
    PlacedBlock { block: Block::Metal, position: Vec2 { x: 0, y: METAL_SPAWN_Y } }
}

/// Every block can fall for one more tick and stay in range.
pub open spec fn blocks_can_fall(blocks: Seq<PlacedBlock>) -> bool {
    forall|i: int|
        0 <= i < blocks.len() ==> position_in_range(#[trigger] blocks[i].position)
            && blocks[i].position.y >= FALL_FLOOR
}

/// The blocks, with the metal block added if it has not been spawned yet.
pub open spec fn with_spawn(blocks: Seq<PlacedBlock>, spawned: bool) -> Seq<PlacedBlock> {
    if spawned {
        blocks
    } else {
        blocks.push(spawned_metal())
    }
}

/// Every block after falling for `dt` microseconds.
pub open spec fn all_fallen(blocks: Seq<PlacedBlock>, dt: int) -> Seq<PlacedBlock> {
    blocks.map_values(|b: PlacedBlock| b.fallen(dt))
}

/// Whether a block stays in the simulation.
pub open spec fn survives(b: PlacedBlock) -> bool {
    !b.block.is_depleted()
}

/// The blocks that stay: all but the crates with no hit left, in order.
pub open spec fn survivors(blocks: Seq<PlacedBlock>) -> Seq<PlacedBlock> {
    blocks.filter(|b: PlacedBlock| survives(b))
}

/// Spawns the metal block if that has not been done yet, then lets every
/// block fall for `dt` microseconds.
pub fn update(blocks: &mut Vec<PlacedBlock>, spawned: &mut bool, dt: i64)
    requires
        blocks_can_fall(old(blocks)@),
        dt <= MAX_DT,
    ensures
        final(blocks)@ == all_fallen(with_spawn(old(blocks)@, *old(spawned)), dt as int),
        *final(spawned),
{
    if !*spawned {
        blocks.push(PlacedBlock { block: Block::Metal, position: Vec2::new(0, METAL_SPAWN_Y) });
        *spawned = true;
    }
    let ghost start = blocks@;
    assert(blocks_can_fall(start));
    let n = blocks.len();
    let mut i: usize = 0;
    while i < n
        invariant
            0 <= i <= n,
            n == blocks@.len(),
            n == start.len(),
            blocks_can_fall(start),
            dt <= MAX_DT,
            forall|j: int| 0 <= j < i ==> blocks@[j] == (#[trigger] start[j]).fallen(dt as int),
            forall|j: int| i <= j < n ==> blocks@[j] == #[trigger] start[j],
        decreases n - i,
    {
        let mut b = blocks[i];
        assert(position_in_range(start[i as int].position));
        b.fall_tick(dt);
        blocks.set(i, b);
        i = i + 1;
    }
    assert(blocks@ =~= all_fallen(start, dt as int));
}

/// Removes the crates with no hit left, keeping the other blocks in order.
pub fn remove_depleted(blocks: &mut Vec<PlacedBlock>)
    ensures
        final(blocks)@ == survivors(old(blocks)@),
{
    let ghost start = blocks@;
    let mut kept: Vec<PlacedBlock> = Vec::new();
    let n = blocks.len();
    let mut i: usize = 0;
    while i < n
        invariant
            0 <= i <= n,
            n == start.len(),
            blocks@ == start,
            kept@ == survivors(start.take(i as int)),
        decreases n - i,
    {
        let b = blocks[i];
        let keep = match b.block {
            Block::Metal => true,
            Block::Crate { hits_left } => hits_left != 0,
        };
        proof {
            assert(start.take(i + 1) =~= start.take(i as int).push(b));
            start.take(i as int).lemma_filter_push(b, |b: PlacedBlock| survives(b));
        }
        if keep {
            kept.push(b);
        }
        i = i + 1;
    }
    assert(start.take(n as int) =~= start);
    *blocks = kept;
}

/// One game session: the player, the blocks and the play area.
pub struct World {
    pub player: Player,
    pub blocks: Vec<PlacedBlock>,
    pub rect: GameRect,
    /// Whether the metal block has been brought in.
    pub spawned: bool,
}

impl World {
    /// A session with the player at `position` in `rect`, and `blocks`.
    pub fn new(rect: GameRect, position: Vec2, blocks: Vec<PlacedBlock>) -> (r: World)
        requires
            -COORD_LIMIT <= position.x <= COORD_LIMIT,
            -COORD_LIMIT <= position.y <= COORD_LIMIT,
        ensures
            r.player == Player::spawned_at(position),
            r.blocks@ == blocks@,
            r.rect == rect,
            !r.spawned,
    {
        World { player: setup(position), blocks, rect, spawned: false }
    }

    /// Runs one tick: blocks fall, then the player moves and collides, then
    /// depleted crates go. Returns the player's resolved box, for drawing.
    pub fn tick(&mut self, input: &PlayerInput, dt: i64, now: i64) -> (shown: Aabb)
        requires
            old(self).player.wf(),
            old(self).rect.bounds.in_range(),
            blocks_can_fall(old(self).blocks@),
            dt <= MAX_DT,
            -TIME_LIMIT <= now <= TIME_LIMIT,
        ensures
            ({
                let fallen = all_fallen(with_spawn(old(self).blocks@, old(self).spawned), dt as int);
                &&& final(self).player == old(self).player.ticked(
                    *input,
                    old(self).rect,
                    fallen,
                    dt as int,
                    now as int,
                )
                &&& final(self).blocks@ == survivors(
                    old(self).player.blocks_hit(*input, old(self).rect, fallen, dt as int, now as int),
                )
            }),
            final(self).rect == old(self).rect,
            final(self).spawned,
            shown == final(self).player.bounding_box,
    {
        update(&mut self.blocks, &mut self.spawned, dt);
        proof {
            lemma_fallen_in_range(old(self).blocks@, old(self).spawned, dt as int);
        }
        let shown = movement(&mut self.player, input, &self.rect, &mut self.blocks, dt, now);
        remove_depleted(&mut self.blocks);
        shown
    }
}

/// Metal blocks are never removed: a metal block goes through a tick's
/// collision pass unchanged and survives the removal of depleted crates.
pub proof fn lemma_metal_never_removed(
    p: Player,
    input: PlayerInput,
    rect: GameRect,
    blocks: Seq<PlacedBlock>,
    dt: int,
    now: int,
    i: int,
)
    requires
        0 <= i < blocks.len(),
        blocks[i].block == Block::Metal,
    ensures
        p.blocks_hit(input, rect, blocks, dt, now)[i] == blocks[i],
        !blocks[i].block.is_depleted(),
        survivors(p.blocks_hit(input, rect, blocks, dt, now)).contains(blocks[i]),
{
    let after = p.blocks_hit(input, rect, blocks, dt, now);
    assert(after[i] == blocks[i]);
    after.lemma_filter_contains(|b: PlacedBlock| survives(b), i);
}

/// Depleted crates do not outlive the tick: no block that survives removal is
/// a crate with no hit left.
pub proof fn lemma_no_depleted_survivor(blocks: Seq<PlacedBlock>)
    ensures
        forall|i: int|
            0 <= i < survivors(blocks).len() ==> !(#[trigger] survivors(blocks)[i]).block.is_depleted(),
{
    assert forall|i: int| 0 <= i < survivors(blocks).len() implies !(
    #[trigger] survivors(blocks)[i]).block.is_depleted() by {
        blocks.lemma_filter_pred(|b: PlacedBlock| survives(b), i);
    }
}

proof fn lemma_fallen_in_range(blocks: Seq<PlacedBlock>, spawned: bool, dt: int)
    requires
        blocks_can_fall(blocks),
        dt <= MAX_DT,
    ensures
        blocks_in_range(all_fallen(with_spawn(blocks, spawned), dt)),
{
    let s = with_spawn(blocks, spawned);
    assert forall|i: int| 0 <= i < s.len() implies position_in_range(
        #[trigger] all_fallen(s, dt)[i].position,
    ) by {
        if i < blocks.len() {
            assert(s[i] == blocks[i]);
            assert(position_in_range(blocks[i].position));
        }
        assert(all_fallen(s, dt)[i] == s[i].fallen(dt));
        if dt > 0 {
            match s[i].block {
                Block::Metal => assert(s[i].block.fall_rate() * dt == METAL_FALL_RATE * dt),
                Block::Crate { .. } => assert(s[i].block.fall_rate() * dt == 1_000_000_000 * dt),
            }
        }
    }
}

} // verus!

//! The player's kinematic state machine: jump timing windows, horizontal
//! steering, gravity, and axis-split collision against the play area and
//! against blocks.
use vstd::prelude::*;

use crate::block::{position_in_range, stopped, PlacedBlock, MAX_DT};
use crate::geometry::{Aabb, GameRect, Vec2, COORD_LIMIT, UNIT, VEL_UNIT};
use crate::inputs::PlayerInput;

verus! {

/// Grace window after leaving the ground during which a jump still starts (50 ms).
pub const COYOTE_TIME: i64 = 50_000;

/// How long an early jump press is remembered (50 ms).
pub const JUMP_BUFFER_TIME: i64 = 50_000;

/// How long a held jump keeps its impulse (200 ms).
pub const JUMP_TIMER: i64 = 200_000;

/// Upward velocity while a jump is sustained (200 world units per second).
pub const JUMP_FORCE: i64 = 200 * VEL_UNIT;

/// Gravity, in velocity units per microsecond (-1000 world units per second squared).
pub const GRAVITY: i64 = -1000;

/// Horizontal speed (150 world units per second).
pub const MOVEMENT_SPEED: i64 = 150 * VEL_UNIT;

/// Half the side of the player's box (16 world units).
pub const PLAYER_HALF_SIZE: i64 = 16 * UNIT;

/// Bound on velocity components (a million world units per second).
pub const VEL_LIMIT: i64 = 1_000_000_000_000;

/// Bound on timestamps (about thirty years).
pub const TIME_LIMIT: i64 = 1_000_000_000_000_000;

#[derive(Clone, Copy, Debug, PartialEq, Eq, Structural)]
pub struct Player {
    pub velocity: Vec2,
    pub is_jumping: bool,
    pub on_ground: bool,
    /// When an early jump press was last remembered.
    pub jump_buffer_ts: i64,
    /// When the player was last on the ground.
    pub last_ground_ts: i64,
    /// When the current jump actually started.
    pub real_jump_start_ts: i64,
    pub alive: bool,
    pub bounding_box: Aabb,
}

/// The player's fixed half extent.
pub open spec fn player_half() -> Vec2 {
    Vec2 { x: PLAYER_HALF_SIZE, y: PLAYER_HALF_SIZE }
}

/// Every block stands where its footprint and probe can be computed.
pub open spec fn blocks_in_range(blocks: Seq<PlacedBlock>) -> bool {
    forall|i: int| 0 <= i < blocks.len() ==> position_in_range(#[trigger] blocks[i].position)
}

/// The swept boxes once the first `n` blocks have stopped them.
pub open spec fn boxes_after(blocks: Seq<PlacedBlock>, current: Aabb, box_x: Aabb, box_y: Aabb, n: nat) -> (Aabb, Aabb)
    decreases n,
{
    if n == 0 {
        (box_x, box_y)
    } else {
        let prev = boxes_after(blocks, current, box_x, box_y, (n - 1) as nat);
        stopped(blocks[n - 1].position, current, prev.0, prev.1)
    }
}

/// The blocks after the collision pass: each block is tested against the
/// swept boxes as they stand once it has stopped them.
pub open spec fn hit_blocks(blocks: Seq<PlacedBlock>, current: Aabb, box_x: Aabb, box_y: Aabb) -> Seq<PlacedBlock> {
    Seq::new(
        blocks.len(),
        |i: int|
            {
                let b = boxes_after(blocks, current, box_x, box_y, (i + 1) as nat);
                PlacedBlock {
                    block: blocks[i].block.hit(blocks[i].position, b.0, b.1),
                    position: blocks[i].position,
                }
            },
    )
}

impl Player {
    /// The values a player can hold: the fixed half extent, and coordinates,
    /// velocities and timestamps within their bounds.
    pub open spec fn wf(self) -> bool {
        &&& self.bounding_box.half == player_half()
        &&& self.bounding_box.in_range()
        &&& -VEL_LIMIT <= self.velocity.x <= VEL_LIMIT
        &&& -VEL_LIMIT <= self.velocity.y <= VEL_LIMIT
        &&& -TIME_LIMIT <= self.jump_buffer_ts <= TIME_LIMIT
        &&& -TIME_LIMIT <= self.last_ground_ts <= TIME_LIMIT
        &&& -TIME_LIMIT <= self.real_jump_start_ts <= TIME_LIMIT
    }

    /// Whether a jump starts on this tick: a fresh press on the ground or
    /// within the coyote window, or else a press remembered within the buffer
    /// window.
    pub open spec fn jump_starts(self, input: PlayerInput, now: int) -> bool {
        if input.jump.just_pressed {
            self.on_ground || now - self.last_ground_ts <= COYOTE_TIME
        } else {
            now - self.jump_buffer_ts <= JUMP_BUFFER_TIME
        }
    }

    /// Whether the jump impulse applies on this tick.
    pub open spec fn impulse(self, input: PlayerInput, now: int) -> bool {
        (self.is_jumping || input.jump.held) && (self.jump_starts(input, now) || now
            - self.real_jump_start_ts < JUMP_TIMER)
    }

    /// The player after the jump latch, the jump trigger and the impulse.
    pub open spec fn after_jump(self, input: PlayerInput, now: int) -> Player {
        let start = self.jump_starts(input, now);
        let impulse = self.impulse(input, now);
        Player {
            is_jumping: self.is_jumping || input.jump.held,
            jump_buffer_ts: if input.jump.just_pressed && !start {
                now as i64
            } else {
                self.jump_buffer_ts
            },
            real_jump_start_ts: if impulse && start {
                now as i64
            } else {
                self.real_jump_start_ts
            },
            velocity: Vec2 {
                x: self.velocity.x,
                y: if impulse {
                    JUMP_FORCE
                } else {
                    self.velocity.y
                },
            },
            ..self
        }
    }

    /// The player after horizontal steering and gravity.
    pub open spec fn steered(self, input: PlayerInput, dt: int) -> Player {
        Player {
            velocity: Vec2 {
                x: if input.left.held {
                    (-MOVEMENT_SPEED) as i64
                } else if input.right.held {
                    MOVEMENT_SPEED
                } else {
                    0
                },
                y: (self.velocity.y + GRAVITY * dt) as i64,
            },
            ..self
        }
    }

    /// The box moved along x only, kept where it is when that leaves the play
    /// area.
    pub open spec fn clamped_x(self, rect: GameRect, dt: int) -> Aabb {
        let moved = self.bounding_box.moved_x(self.velocity.x * dt);
        if rect.bounds.min_x() > moved.min_x() || rect.bounds.max_x() < moved.max_x() {
            self.bounding_box
        } else {
            moved
        }
    }

    /// Whether the play area's floor stops the player this tick.
    pub open spec fn grounded(self, rect: GameRect, dt: int) -> bool {
        rect.bounds.min_y() > self.clamped_x(rect, dt).min_y() && self.velocity.y <= 0
    }

    /// The box moved along y only, kept where it is on the floor or where it
    /// crosses the ceiling.
    pub open spec fn clamped_y(self, rect: GameRect, dt: int) -> Aabb {
        if self.grounded(rect, dt) || rect.bounds.max_y() < self.clamped_x(rect, dt).max_y() {
            self.bounding_box
        } else {
            self.bounding_box.moved_y(self.velocity.y * dt)
        }
    }

    /// The player after the play area's floor has been applied.
    pub open spec fn landed(self, rect: GameRect, dt: int, now: int) -> Player {
        let g = self.grounded(rect, dt);
        Player {
            on_ground: g,
            velocity: Vec2 {
                x: self.velocity.x,
                y: if g {
                    0
                } else {
                    self.velocity.y
                },
            },
            last_ground_ts: if g {
                now as i64
            } else {
                self.last_ground_ts
            },
            ..self
        }
    }

    /// The player's state before the block collision pass.
    pub open spec fn moved(self, input: PlayerInput, dt: int, now: int) -> Player {
        self.after_jump(input, now).steered(input, dt)
    }

    /// The swept boxes after the play area and every block have stopped them.
    pub open spec fn resolved_boxes(
        self,
        input: PlayerInput,
        rect: GameRect,
        blocks: Seq<PlacedBlock>,
        dt: int,
        now: int,
    ) -> (Aabb, Aabb) {
        let m = self.moved(input, dt, now);
        boxes_after(
            blocks,
            self.bounding_box,
            m.clamped_x(rect, dt),
            m.clamped_y(rect, dt),
            blocks.len(),
        )
    }

    /// The player after one tick of `dt` microseconds at time `now`; a tick
    /// with no positive duration changes nothing.
    pub open spec fn ticked(
        self,
        input: PlayerInput,
        rect: GameRect,
        blocks: Seq<PlacedBlock>,
        dt: int,
        now: int,
    ) -> Player {
        if dt <= 0 {
            self
        } else {
            let b = self.resolved_boxes(input, rect, blocks, dt, now);
            Player {
                bounding_box: Aabb {
                    center: Vec2 { x: b.0.center.x, y: b.1.center.y },
                    half: player_half(),
                },
                ..self.moved(input, dt, now).landed(rect, dt, now)
            }
        }
    }

    /// The blocks after one tick's collision pass.
    pub open spec fn blocks_hit(
        self,
        input: PlayerInput,
        rect: GameRect,
        blocks: Seq<PlacedBlock>,
        dt: int,
        now: int,
    ) -> Seq<PlacedBlock> {
        if dt <= 0 {
            blocks
        } else {
            let m = self.moved(input, dt, now);
            hit_blocks(blocks, self.bounding_box, m.clamped_x(rect, dt), m.clamped_y(rect, dt))
        }
    }

    /// A new player standing still at `position`, alive, airborne, with
    /// every timer at zero.
    pub open spec fn spawned_at(position: Vec2) -> Player {
        Player {
            velocity: Vec2 { x: 0, y: 0 },
            is_jumping: false,
            on_ground: false,
            jump_buffer_ts: 0,
            last_ground_ts: 0,
            real_jump_start_ts: 0,
            alive: true,
            bounding_box: Aabb { center: position, half: player_half() },
        }
    }
}

/// A new player standing still at `position`: see `Player::spawned_at`.
pub fn setup(position: Vec2) -> (r: Player)
    requires
        -COORD_LIMIT <= position.x <= COORD_LIMIT,
        -COORD_LIMIT <= position.y <= COORD_LIMIT,
    ensures
        r == Player::spawned_at(position),
        r.wf(),
{
    Player {
        velocity: Vec2::new(0, 0),
        is_jumping: false,
        on_ground: false,
        jump_buffer_ts: 0,
        last_ground_ts: 0,
        real_jump_start_ts: 0,
        alive: true,
        bounding_box: Aabb::new(position, Vec2::new(PLAYER_HALF_SIZE, PLAYER_HALF_SIZE)),
    }
}

/// Applies the jump latch, the jump trigger and the jump impulse.
fn jump_phase(player: &mut Player, input: &PlayerInput, now: i64)
    requires
        old(player).wf(),
        -TIME_LIMIT <= now <= TIME_LIMIT,
    ensures
        *final(player) == old(player).after_jump(*input, now as int),
{
    let jumping_start = if input.jump.just_pressed {
        if player.on_ground || now - player.last_ground_ts <= COYOTE_TIME {
            true
        } else {
            player.jump_buffer_ts = now;
            false
        }
    } else {
        now - player.jump_buffer_ts <= JUMP_BUFFER_TIME
    };
    player.is_jumping = player.is_jumping || input.jump.held;
    if player.is_jumping && (jumping_start || now - player.real_jump_start_ts < JUMP_TIMER) {
        if jumping_start {
            player.real_jump_start_ts = now;
        }
        player.velocity.y = JUMP_FORCE;
    }
}

/// Applies horizontal steering and gravity.
fn steer(player: &mut Player, input: &PlayerInput, dt: i64)
    requires
        -VEL_LIMIT <= old(player).velocity.y <= VEL_LIMIT,
        0 < dt <= MAX_DT,
    ensures
        *final(player) == old(player).steered(*input, dt as int),
        -VEL_LIMIT - 1_000_000_000 <= final(player).velocity.y <= VEL_LIMIT,
        -MOVEMENT_SPEED <= final(player).velocity.x <= MOVEMENT_SPEED,
{
    if input.left.held {
        player.velocity.x = -MOVEMENT_SPEED;
    } else if input.right.held {
        player.velocity.x = MOVEMENT_SPEED;
    } else {
        player.velocity.x = 0;
    }
    player.velocity.y = player.velocity.y + GRAVITY * dt;
}

/// Builds the swept boxes and applies the play area's bounds: returns the
/// swept boxes and updates the grounded state.
fn clamp_to_rect(player: &mut Player, rect: &GameRect, dt: i64, now: i64) -> (r: (Aabb, Aabb))
    requires
        old(player).bounding_box.in_range(),
        -VEL_LIMIT - 1_000_000_000 <= old(player).velocity.y <= VEL_LIMIT,
        -MOVEMENT_SPEED <= old(player).velocity.x <= MOVEMENT_SPEED,
        rect.bounds.in_range(),
        0 < dt <= MAX_DT,
    ensures
        r.0 == old(player).clamped_x(*rect, dt as int),
        r.1 == old(player).clamped_y(*rect, dt as int),
        r.0.fits(),
        r.1.fits(),
        *final(player) == old(player).landed(*rect, dt as int, now as int),
{
    let current = player.bounding_box;
    let vx = player.velocity.x;
    let vy = player.velocity.y;
    assert(-1_001_000_000_000_000_000 <= vy * dt <= 1_001_000_000_000_000_000) by (nonlinear_arith)
        requires
            -1_001_000_000_000 <= vy <= 1_001_000_000_000,
            0 < dt <= 1_000_000,
    ;
    assert(-150_000_000_000_000 <= vx * dt <= 150_000_000_000_000) by (nonlinear_arith)
        requires
            -150_000_000 <= vx <= 150_000_000,
            0 < dt <= 1_000_000,
    ;
    let mut box_x = current.shifted_x(vx * dt);
    let mut box_y = current.shifted_y(vy * dt);
    if rect.bounds.left() > box_x.left() || rect.bounds.right() < box_x.right() {
        box_x = current;
    }
    player.on_ground = false;
    if rect.bounds.bottom() > box_x.bottom() && vy <= 0 {
        box_y = current;
        player.velocity.y = 0;
        player.on_ground = true;
        player.last_ground_ts = now;
    } else if rect.bounds.top() < box_x.top() {
        box_y = current;
    }
    (box_x, box_y)
}

/// Lets every block stop the swept boxes, in order; crates touched by the
/// swept boxes lose hits. Returns the swept boxes once all blocks are passed.
fn collide_blocks(blocks: &mut Vec<PlacedBlock>, current: &Aabb, box_x: Aabb, box_y: Aabb) -> (r: (Aabb, Aabb))
    requires
        blocks_in_range(old(blocks)@),
        current.fits(),
        box_x.fits(),
        box_y.fits(),
    ensures
        r == boxes_after(old(blocks)@, *current, box_x, box_y, old(blocks)@.len()),
        final(blocks)@ == hit_blocks(old(blocks)@, *current, box_x, box_y),
{
    let ghost blocks0 = blocks@;
    let mut bx = box_x;
    let mut by = box_y;
    let n = blocks.len();
    let mut i: usize = 0;
    while i < n
        invariant
            0 <= i <= n,
            n == blocks@.len(),
            n == blocks0.len(),
            blocks_in_range(blocks0),
            current.fits(),
            bx.fits(),
            by.fits(),
            (bx, by) == boxes_after(blocks0, *current, box_x, box_y, i as nat),
            forall|j: int| 0 <= j < i ==> blocks@[j] == #[trigger] hit_blocks(blocks0, *current, box_x, box_y)[j],
            forall|j: int| i <= j < n ==> blocks@[j] == #[trigger] blocks0[j],
        decreases n - i,
    {
        let mut b = blocks[i];
        assert(position_in_range(blocks0[i as int].position));
        b.block.collide(b.position, current, &mut bx, &mut by);
        blocks.set(i, b);
        i = i + 1;
    }
    assert(blocks@ =~= hit_blocks(blocks0, *current, box_x, box_y));
    (bx, by)
}

/// Runs one tick of `dt` microseconds at time `now` for the player: jump
/// timing, steering, gravity, the play area's bounds and the blocks, which
/// stop the player and may lose hits. Returns the resolved box, for drawing.
pub fn movement(
    player: &mut Player,
    input: &PlayerInput,
    rect: &GameRect,
    blocks: &mut Vec<PlacedBlock>,
    dt: i64,
    now: i64,
) -> (shown: Aabb)
    requires
        old(player).wf(),
        rect.bounds.in_range(),
        blocks_in_range(old(blocks)@),
        dt <= MAX_DT,
        -TIME_LIMIT <= now <= TIME_LIMIT,
    ensures
        *final(player) == old(player).ticked(*input, *rect, old(blocks)@, dt as int, now as int),
        final(blocks)@ == old(player).blocks_hit(*input, *rect, old(blocks)@, dt as int, now as int),
        shown == final(player).bounding_box,
{
    if dt <= 0 {
        return player.bounding_box;
    }
    let current = player.bounding_box;
    jump_phase(player, input, now);
    steer(player, input, dt);
    let swept = clamp_to_rect(player, rect, dt, now);
    let resolved = collide_blocks(blocks, &current, swept.0, swept.1);
    player.bounding_box = Aabb::new(
        Vec2::new(resolved.0.center.x, resolved.1.center.y),
        Vec2::new(PLAYER_HALF_SIZE, PLAYER_HALF_SIZE),
    );
    player.bounding_box
}

impl Player {
    /// The player's box lies inside the play area horizontally, and its
    /// center lies inside it vertically, bounds included.
    pub open spec fn within_play_area(self, rect: GameRect) -> bool {
        &&& rect.bounds.min_x() <= self.bounding_box.min_x()
        &&& self.bounding_box.max_x() <= rect.bounds.max_x()
        &&& rect.bounds.min_y() <= self.bounding_box.center.y <= rect.bounds.max_y()
    }
}

/// Each swept box that the blocks give back is, on its own axis, either the
/// box they were handed or the player's current box.
proof fn lemma_boxes_after_choices(blocks: Seq<PlacedBlock>, current: Aabb, box_x: Aabb, box_y: Aabb, n: nat)
    requires
        n <= blocks.len(),
    ensures
        ({
            let r = boxes_after(blocks, current, box_x, box_y, n);
            &&& (r.0.center.x == box_x.center.x || r.0.center.x == current.center.x)
            &&& (r.1.center.y == box_y.center.y || r.1.center.y == current.center.y)
        }),
    decreases n,
{
    if n > 0 {
        lemma_boxes_after_choices(blocks, current, box_x, box_y, (n - 1) as nat);
    }
}

/// Blocks leave swept boxes alone that have not moved.
proof fn lemma_boxes_after_still(blocks: Seq<PlacedBlock>, current: Aabb, n: nat)
    requires
        n <= blocks.len(),
    ensures
        boxes_after(blocks, current, current, current, n) == (current, current),
    decreases n,
{
    if n > 0 {
        lemma_boxes_after_still(blocks, current, (n - 1) as nat);
    }
}

/// The play area holds the player: a player whose box lies inside the play
/// area horizontally and whose center lies inside it vertically is still so
/// after any tick that moves it by at most its half height vertically; in
/// particular its center stays within the play area on both axes.
pub proof fn lemma_stays_in_play_area(
    p: Player,
    input: PlayerInput,
    rect: GameRect,
    blocks: Seq<PlacedBlock>,
    dt: int,
    now: int,
)
    requires
        p.wf(),
        rect.bounds.in_range(),
        p.within_play_area(rect),
        dt <= MAX_DT,
        -PLAYER_HALF_SIZE <= p.moved(input, dt, now).velocity.y * dt <= PLAYER_HALF_SIZE,
    ensures
        p.ticked(input, rect, blocks, dt, now).within_play_area(rect),
        rect.bounds.min_x() <= p.ticked(input, rect, blocks, dt, now).bounding_box.center.x
            <= rect.bounds.max_x(),
        rect.bounds.min_y() <= p.ticked(input, rect, blocks, dt, now).bounding_box.center.y
            <= rect.bounds.max_y(),
{
    if dt > 0 {
        let m = p.moved(input, dt, now);
        let vx = m.velocity.x;
        assert(-150_000_000_000_000 <= vx * dt <= 150_000_000_000_000) by (nonlinear_arith)
            requires
                -150_000_000 <= vx <= 150_000_000,
                0 < dt <= 1_000_000,
        ;
        let bx = m.clamped_x(rect, dt);
        let by = m.clamped_y(rect, dt);
        lemma_boxes_after_choices(blocks, p.bounding_box, bx, by, blocks.len());
    }
}

/// Landing: a player moving down, with no jump held or under way, whose box
/// reaches below the play area's floor when a tick starts, is on the ground
/// with no vertical velocity after it.
pub proof fn lemma_landing(
    p: Player,
    input: PlayerInput,
    rect: GameRect,
    blocks: Seq<PlacedBlock>,
    dt: int,
    now: int,
)
    requires
        p.wf(),
        p.velocity.y < 0,
        !p.is_jumping,
        !input.jump.held,
        0 < dt <= MAX_DT,
        rect.bounds.min_y() > p.bounding_box.min_y(),
    ensures
        p.ticked(input, rect, blocks, dt, now).on_ground,
        p.ticked(input, rect, blocks, dt, now).velocity.y == 0,
{
}

/// Rest is steady: a grounded player at rest on the play area's floor, with
/// no input and no jump under way, keeps its box and stays on the ground.
pub proof fn lemma_rest_is_steady(
    p: Player,
    input: PlayerInput,
    rect: GameRect,
    blocks: Seq<PlacedBlock>,
    dt: int,
    now: int,
)
    requires
        p.wf(),
        input.is_idle(),
        p.velocity == (Vec2 { x: 0, y: 0 }),
        p.on_ground,
        !p.is_jumping,
        rect.bounds.min_y() > p.bounding_box.min_y(),
        dt <= MAX_DT,
    ensures
        p.ticked(input, rect, blocks, dt, now).bounding_box == p.bounding_box,
        p.ticked(input, rect, blocks, dt, now).on_ground,
{
    if dt > 0 {
        let m = p.moved(input, dt, now);
        assert(m.velocity.x == 0);
        assert(m.bounding_box.moved_x(0) == p.bounding_box);
        assert(m.clamped_x(rect, dt) == p.bounding_box);
        assert(m.grounded(rect, dt));
        lemma_boxes_after_still(blocks, p.bounding_box, blocks.len());
    }
}

} // verus!

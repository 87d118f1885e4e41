use platformer::block::{Block, PlacedBlock, BLOCK_HALF_SIZE};
use platformer::geometry::{setup_game_rect, Aabb, Collider, ColliderTrigger, GameRect, Vec2, UNIT};
use platformer::inputs::{ActionMap, ActionState, GameAction, Key, KeyboardState, PlayerInput};
use platformer::player::{
    movement, setup, Player, GRAVITY, JUMP_FORCE, MOVEMENT_SPEED, PLAYER_HALF_SIZE,
};
use platformer::world::{remove_depleted, update, World, METAL_SPAWN_Y};

const DT: i64 = 16_667;
const T0: i64 = 1_000_000;

fn press_jump() -> PlayerInput {
    let mut input = PlayerInput::idle();
    input.jump = ActionState { held: true, just_pressed: true, just_released: false };
    input
}

fn hold_jump() -> PlayerInput {
    let mut input = PlayerInput::idle();
    input.jump.held = true;
    input
}

fn hold_left() -> PlayerInput {
    let mut input = PlayerInput::idle();
    input.left.held = true;
    input
}

fn bottom(p: &Player) -> i64 {
    p.bounding_box.center.y - p.bounding_box.half.y
}

/// A grounded player at rest with its box reaching just below the floor.
fn grounded_player() -> Player {
    let mut p = setup(Vec2::new(0, -230 * UNIT));
    p.on_ground = true;
    p
}

fn tick(p: &mut Player, input: &PlayerInput, rect: &GameRect, dt: i64, now: i64) -> Aabb {
    let mut blocks: Vec<PlacedBlock> = Vec::new();
    movement(p, input, rect, &mut blocks, dt, now)
}

#[test]
fn stays_in_play_area_walking_into_a_wall() {
    let rect = setup_game_rect();
    let mut p = setup(Vec2::new(0, 0));
    let mut now = T0;
    for _ in 0..400 {
        tick(&mut p, &hold_left(), &rect, DT, now);
        now += DT;
        let c = p.bounding_box.center;
        assert!(c.x >= -240 * UNIT && c.x <= 240 * UNIT);
        assert!(c.y >= -240 * UNIT && c.y <= 240 * UNIT);
        assert!(c.x - PLAYER_HALF_SIZE >= -240 * UNIT);
    }
    // 150 units per second for over six seconds: the player has reached the wall.
    assert!(p.bounding_box.center.x - PLAYER_HALF_SIZE > -240 * UNIT - 1);
    assert!(p.bounding_box.center.x - PLAYER_HALF_SIZE < -235 * UNIT);
    assert_eq!(p.velocity.x, -MOVEMENT_SPEED);
}

#[test]
fn landing_sets_ground_and_stops_fall() {
    let rect = setup_game_rect();
    let mut p = setup(Vec2::new(0, -230 * UNIT));
    p.velocity.y = -50 * 1_000_000;
    let before = p.bounding_box;
    tick(&mut p, &PlayerInput::idle(), &rect, DT, T0);
    assert!(p.on_ground);
    assert_eq!(p.velocity.y, 0);
    assert_eq!(p.last_ground_ts, T0);
    assert_eq!(p.bounding_box, before);
}

#[test]
fn coyote_jump_within_window() {
    let rect = setup_game_rect();
    let mut p = setup(Vec2::new(0, 0));
    p.last_ground_ts = T0;
    tick(&mut p, &press_jump(), &rect, DT, T0 + 40_000);
    assert_eq!(p.real_jump_start_ts, T0 + 40_000);
    assert_eq!(p.velocity.y, JUMP_FORCE + GRAVITY * DT);
    assert!(p.bounding_box.center.y > 0);
}

#[test]
fn coyote_jump_too_late() {
    let rect = setup_game_rect();
    let mut p = setup(Vec2::new(0, 0));
    p.last_ground_ts = T0;
    tick(&mut p, &press_jump(), &rect, DT, T0 + 60_000);
    assert_eq!(p.real_jump_start_ts, 0);
    assert_eq!(p.jump_buffer_ts, T0 + 60_000);
    assert_eq!(p.velocity.y, GRAVITY * DT);
    assert!(p.bounding_box.center.y < 0);
}

#[test]
fn buffered_jump_fires_on_landing() {
    let rect = setup_game_rect();
    let mut p = setup(Vec2::new(0, 0));
    tick(&mut p, &press_jump(), &rect, DT, T0);
    assert_eq!(p.jump_buffer_ts, T0);
    assert_eq!(p.velocity.y, GRAVITY * DT);
    // The player now reaches the floor.
    p.bounding_box.center.y = -230 * UNIT;
    tick(&mut p, &hold_jump(), &rect, DT, T0 + 30_000);
    assert_eq!(p.real_jump_start_ts, T0 + 30_000);
    assert_eq!(p.velocity.y, JUMP_FORCE + GRAVITY * DT);
    assert!(!p.on_ground);
}

#[test]
fn buffered_jump_expires() {
    let rect = setup_game_rect();
    let mut p = setup(Vec2::new(0, 0));
    tick(&mut p, &press_jump(), &rect, DT, T0);
    p.bounding_box.center.y = -230 * UNIT;
    tick(&mut p, &hold_jump(), &rect, DT, T0 + 60_000);
    assert_eq!(p.real_jump_start_ts, 0);
    assert!(p.on_ground);
    assert_eq!(p.velocity.y, 0);
}

#[test]
fn jump_sustained_for_jump_timer() {
    let rect = setup_game_rect();
    let mut p = grounded_player();
    let step: i64 = 10_000;
    tick(&mut p, &press_jump(), &rect, step, T0);
    assert_eq!(p.real_jump_start_ts, T0);
    let sustained = JUMP_FORCE + GRAVITY * step;
    assert_eq!(p.velocity.y, sustained);
    for k in 1..20 {
        tick(&mut p, &hold_jump(), &rect, step, T0 + k * step);
        assert_eq!(p.velocity.y, sustained);
    }
    tick(&mut p, &hold_jump(), &rect, step, T0 + 20 * step);
    assert_eq!(p.velocity.y, sustained + GRAVITY * step);
    tick(&mut p, &hold_jump(), &rect, step, T0 + 21 * step);
    assert_eq!(p.velocity.y, sustained + 2 * GRAVITY * step);
}

#[test]
fn crate_depleted_after_two_hits() {
    let rect = setup_game_rect();
    let c = PlacedBlock { block: Block::Crate { hits_left: 2 }, position: Vec2::new(0, -230 * UNIT) };
    let mut world = World::new(rect, Vec2::new(0, -230 * UNIT), vec![c]);
    let dt: i64 = 1_000;
    world.tick(&PlayerInput::idle(), dt, T0);
    assert_eq!(world.blocks.len(), 2);
    assert_eq!(world.blocks[0].block, Block::Crate { hits_left: 1 });
    assert_eq!(world.blocks[1].block, Block::Metal);
    world.tick(&PlayerInput::idle(), dt, T0 + dt);
    assert_eq!(world.blocks.len(), 1);
    assert_eq!(world.blocks[0].block, Block::Metal);
    world.tick(&PlayerInput::idle(), dt, T0 + 2 * dt);
    assert_eq!(world.blocks.len(), 1);
    assert_eq!(world.blocks[0].block, Block::Metal);
}

#[test]
fn metal_block_never_removed() {
    let rect = setup_game_rect();
    let m = PlacedBlock { block: Block::Metal, position: Vec2::new(0, -230 * UNIT) };
    let mut world = World::new(rect, Vec2::new(0, -230 * UNIT), vec![m]);
    let mut now = T0;
    for _ in 0..50 {
        world.tick(&PlayerInput::idle(), 1_000, now);
        now += 1_000;
    }
    assert_eq!(world.blocks.len(), 2);
    assert_eq!(world.blocks[0].block, Block::Metal);
    assert_eq!(world.blocks[0].position.y, -230 * UNIT - 50 * 1_500 * 1_000_000_000);
    let mut blocks = vec![m, PlacedBlock { block: Block::Crate { hits_left: 0 }, position: Vec2::new(0, 0) }];
    remove_depleted(&mut blocks);
    assert_eq!(blocks, vec![m]);
}

#[test]
fn rest_is_steady() {
    let rect = setup_game_rect();
    let mut p = grounded_player();
    let before = p.bounding_box;
    for k in 0..10 {
        let shown = tick(&mut p, &PlayerInput::idle(), &rect, DT, T0 + k * DT);
        assert_eq!(p.bounding_box, before);
        assert_eq!(shown, before);
        assert!(p.on_ground);
    }
}

#[test]
fn spawned_player_falls_and_settles_on_floor() {
    let rect = setup_game_rect();
    assert_eq!(rect.bounds.half, Vec2::new(240 * UNIT, 240 * UNIT));
    let mut p = setup(Vec2::new(0, 0));
    assert_eq!(p.bounding_box.half, Vec2::new(16 * UNIT, 16 * UNIT));
    let mut now: i64 = 0;
    for _ in 0..10 {
        now += DT;
        tick(&mut p, &PlayerInput::idle(), &rect, DT, now);
    }
    // Ten ticks of free fall: about fifteen units, still in the air.
    assert!(!p.on_ground);
    assert!(p.bounding_box.center.y < -15 * UNIT && p.bounding_box.center.y > -16 * UNIT);
    let mut ticks = 0;
    while !p.on_ground && ticks < 200 {
        now += DT;
        tick(&mut p, &PlayerInput::idle(), &rect, DT, now);
        ticks += 1;
    }
    assert!(p.on_ground);
    assert!(bottom(&p) < -240 * UNIT);
    assert!(p.bounding_box.center.y >= -240 * UNIT);
    let settled = p.bounding_box;
    for _ in 0..30 {
        now += DT;
        tick(&mut p, &PlayerInput::idle(), &rect, DT, now);
        assert_eq!(p.bounding_box, settled);
        assert!(p.on_ground);
    }
}

#[test]
fn gravity_and_displacement_exact() {
    let rect = setup_game_rect();
    let mut p = setup(Vec2::new(0, 0));
    tick(&mut p, &PlayerInput::idle(), &rect, 10_000, T0);
    // -1000 units/s^2 for 10 ms: -10 units/s, then 10 ms of motion: -0.1 units.
    assert_eq!(p.velocity.y, -10 * 1_000_000);
    assert_eq!(p.bounding_box.center.y, -UNIT / 10);
    let mut right = PlayerInput::idle();
    right.right.held = true;
    tick(&mut p, &right, &rect, 10_000, T0 + 10_000);
    assert_eq!(p.velocity.x, MOVEMENT_SPEED);
    assert_eq!(p.bounding_box.center.x, 3 * UNIT / 2);
}

#[test]
fn degenerate_tick_changes_nothing() {
    let rect = setup_game_rect();
    let mut p = setup(Vec2::new(0, 0));
    let before = p;
    tick(&mut p, &press_jump(), &rect, 0, T0);
    assert_eq!(p, before);
    tick(&mut p, &press_jump(), &rect, -5, T0);
    assert_eq!(p, before);
}

#[test]
fn ceiling_stops_rise() {
    let rect = setup_game_rect();
    let mut p = setup(Vec2::new(0, 230 * UNIT));
    p.velocity.y = 100 * 1_000_000;
    let before = p.bounding_box;
    tick(&mut p, &PlayerInput::idle(), &rect, DT, T0);
    assert_eq!(p.bounding_box, before);
    assert_eq!(p.velocity.y, 100 * 1_000_000 + GRAVITY * DT);
    assert!(!p.on_ground);
}

#[test]
fn block_stops_player() {
    let rect = setup_game_rect();
    let mut p = setup(Vec2::new(0, 0));
    let mut blocks = vec![PlacedBlock { block: Block::Metal, position: Vec2::new(20 * UNIT, 0) }];
    let mut right = PlayerInput::idle();
    right.right.held = true;
    let shown = movement(&mut p, &right, &rect, &mut blocks, DT, T0);
    // The horizontal move would touch the block, so it is refused.
    assert_eq!(p.bounding_box.center.x, 0);
    assert_eq!(shown, p.bounding_box);
    assert_eq!(blocks[0].block, Block::Metal);
}

#[test]
fn aabb_intersection_is_inclusive() {
    let a = Aabb::new(Vec2::new(0, 0), Vec2::new(10, 10));
    let touching = Aabb::new(Vec2::new(20, 0), Vec2::new(10, 10));
    let apart = Aabb::new(Vec2::new(21, 0), Vec2::new(10, 10));
    let corner = Aabb::new(Vec2::new(20, 20), Vec2::new(10, 10));
    assert!(a.intersects(&touching));
    assert!(!a.intersects(&apart));
    assert!(a.intersects(&corner));
    assert_eq!(a.shifted_x(5).center, Vec2::new(5, 0));
    assert_eq!(a.shifted_y(-5).center, Vec2::new(0, -5));
    assert_eq!(a.left(), -10);
    assert_eq!(a.top(), 10);
}

#[test]
fn crate_collision_decrements_and_saturates() {
    let current = Aabb::new(Vec2::new(0, 0), Vec2::new(16 * UNIT, 16 * UNIT));
    let position = Vec2::new(0, 0);
    let mut b = Block::Crate { hits_left: 1 };
    let mut box_x = current.shifted_x(UNIT);
    let mut box_y = current.shifted_y(-UNIT);
    b.collide(position, &current, &mut box_x, &mut box_y);
    assert_eq!(b, Block::Crate { hits_left: 0 });
    assert_eq!(box_x, current);
    assert_eq!(box_y, current);
    b.collide(position, &current, &mut box_x, &mut box_y);
    assert_eq!(b, Block::Crate { hits_left: 0 });
    let mut m = Block::Metal;
    m.collide(position, &current, &mut box_x, &mut box_y);
    assert_eq!(m, Block::Metal);
}

#[test]
fn crate_probe_misses_far_boxes() {
    let current = Aabb::new(Vec2::new(100 * UNIT, 0), Vec2::new(16 * UNIT, 16 * UNIT));
    let mut b = Block::Crate { hits_left: 3 };
    let mut box_x = current.shifted_x(UNIT);
    let mut box_y = current;
    b.collide(Vec2::new(0, 0), &current, &mut box_x, &mut box_y);
    assert_eq!(b, Block::Crate { hits_left: 3 });
    assert_eq!(box_x.center.x, 101 * UNIT);
}

#[test]
fn blocks_fall_at_their_rates() {
    let mut blocks = vec![
        PlacedBlock { block: Block::Metal, position: Vec2::new(0, 0) },
        PlacedBlock { block: Block::Crate { hits_left: 1 }, position: Vec2::new(5, 0) },
    ];
    let mut spawned = true;
    update(&mut blocks, &mut spawned, 10_000);
    // 1000 units per second for a crate, 1.5 times that for metal, for 10 ms.
    assert_eq!(blocks[0].position.y, -15 * UNIT);
    assert_eq!(blocks[1].position.y, -10 * UNIT);
    assert_eq!(blocks[1].position.x, 5);
    assert_eq!(blocks.len(), 2);
    let mut fresh: Vec<PlacedBlock> = Vec::new();
    let mut not_yet = false;
    update(&mut fresh, &mut not_yet, 0);
    assert!(not_yet);
    assert_eq!(fresh, vec![PlacedBlock { block: Block::Metal, position: Vec2::new(0, METAL_SPAWN_Y) }]);
    let mut b = fresh[0];
    b.fall_tick(-1);
    assert_eq!(b.position.y, METAL_SPAWN_Y);
    assert_eq!(BLOCK_HALF_SIZE, 8 * UNIT);
}

#[test]
fn collider_new_keeps_fields() {
    let c = Collider::new(ColliderTrigger::Kill, Vec2::new(1, 2), Vec2::new(3, 4));
    assert_eq!(c.trigger, ColliderTrigger::Kill);
    assert_eq!(c.bounds, Aabb::new(Vec2::new(1, 2), Vec2::new(3, 4)));
}

#[test]
fn action_map_default_bindings() {
    let map = ActionMap::default();
    let keys = KeyboardState {
        pressed: vec![Key::Space, Key::KeyQ],
        just_pressed: vec![Key::Space],
        just_released: vec![Key::ArrowUp],
    };
    assert!(map.pressed(GameAction::Jump, &keys));
    assert!(map.pressed(GameAction::Left, &keys));
    assert!(!map.pressed(GameAction::Right, &keys));
    assert!(map.just_pressed(GameAction::Jump, &keys));
    assert!(!map.just_pressed(GameAction::Left, &keys));
    assert!(map.just_released(GameAction::Up, &keys));
    assert!(!map.just_released(GameAction::Down, &keys));
    let input = map.resolve(&keys);
    assert!(input.jump.held && input.jump.just_pressed && !input.jump.just_released);
    assert!(input.left.held);
    assert!(input.up.just_released && !input.up.held);
    assert!(!input.object.held);
}

#[test]
fn action_map_custom_bindings() {
    let map = ActionMap::new(
        vec![Key::Other(7)],
        vec![],
        vec![Key::KeyD],
        vec![],
        vec![],
        vec![Key::KeyE, Key::Other(9)],
    );
    let keys = KeyboardState { pressed: vec![Key::Other(9), Key::Other(7)], just_pressed: vec![], just_released: vec![] };
    assert!(map.pressed(GameAction::Jump, &keys));
    assert!(map.pressed(GameAction::Object, &keys));
    assert!(!map.pressed(GameAction::Left, &keys));
    assert!(!map.pressed(GameAction::Right, &keys));
}

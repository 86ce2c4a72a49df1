use l1core::engine::{GameWorld, NpcTemplate};
use l1core::position::Position;

fn make_test_template(npc_id: i32, name: &str, impl_type: &str) -> NpcTemplate {
    NpcTemplate {
        npc_id,
        name: name.to_string(),
        nameid: name.to_string(),
        impl_type: impl_type.to_string(),
        gfxid: 100,
        level: 1,
        hp: 100,
        mp: 50,
        passispeed: 640,
    }
}

#[test]
fn test_spawn_npc() {
    let templates = vec![make_test_template(45000, "TestMob", "L1Monster")];

    let mut world = GameWorld::new(templates);
    let id = world.spawn_npc(45000, 32800, 32800, 4);

    assert!(id.is_some());
    assert_eq!(world.npc_count(), 1);
    assert_eq!(world.grid().total_objects(), 1);
}

#[test]
fn test_spawn_10000_npcs() {
    let templates = vec![make_test_template(45000, "TestMob", "L1Monster")];

    let mut world = GameWorld::new(templates);

    for i in 0..10_000 {
        let x = 32000 + (i % 200);
        let y = 32000 + (i / 200);
        world.spawn_npc(45000, x, y, 4);
    }

    assert_eq!(world.npc_count(), 10_000);
    assert_eq!(world.grid().total_objects(), 10_000);
}

#[test]
fn test_tick_no_players_skips_ai() {
    let templates = vec![make_test_template(45000, "TestMob", "L1Monster")];

    let mut world = GameWorld::new(templates);
    world.spawn_npc(45000, 32800, 32800, 4);

    // No players registered - NPCs should not move
    let movements = world.tick(30);
    assert!(movements.is_empty());
}

#[test]
fn test_tick_with_player_nearby() {
    let templates = vec![make_test_template(45000, "TestMob", "L1Monster")];

    let mut world = GameWorld::new(templates);
    let npc_id = world.spawn_npc(45000, 32800, 32800, 4).unwrap();

    // Register a player nearby
    world.set_player_position(99999, Position::new(32810, 32810, 4));

    // Tick - NPC should attempt to move
    let movements = world.tick(30);

    // NPC should have moved (random walk)
    assert_eq!(movements.len(), 1);
    assert_eq!(movements[0].npc_id, npc_id);
    assert_ne!(movements[0].old_pos, movements[0].new_pos);
}

#[test]
fn test_tick_10000_npcs_with_player() {
    let templates = vec![make_test_template(45000, "TestMob", "L1Monster")];

    let mut world = GameWorld::new(templates);

    for i in 0..10_000 {
        let x = 32000 + (i % 200);
        let y = 32000 + (i / 200);
        world.spawn_npc(45000, x, y, 4);
    }

    // Player at center
    world.set_player_position(99999, Position::new(32100, 32025, 4));

    // Run 10 ticks
    let mut total_movements = 0;
    for _ in 0..10 {
        let movements = world.tick(30);
        total_movements += movements.len();
    }

    // Some NPCs near the player should have moved
    assert!(total_movements > 0);
    // But NOT all 10,000 should be active (sleep optimization)
    assert!(total_movements < 100_000); // max 10k * 10 ticks
}

#[test]
fn test_remove_npc() {
    let templates = vec![make_test_template(45000, "TestMob", "L1Monster")];

    let mut world = GameWorld::new(templates);
    let id = world.spawn_npc(45000, 32800, 32800, 4).unwrap();

    world.remove_npc(id);
    assert_eq!(world.npc_count(), 0);
    assert_eq!(world.grid().total_objects(), 0);
}

#[test]
fn test_grid_occupants_within() {
    let templates = vec![make_test_template(45000, "TestMob", "L1Monster")];
    let mut world = GameWorld::new(templates);
    let a = world.spawn_npc(45000, 100, 100, 4).unwrap();
    let b = world.spawn_npc(45000, 104, 100, 4).unwrap();
    let far = world.spawn_npc(45000, 200, 100, 4).unwrap();
    let other_map = world.spawn_npc(45000, 100, 100, 9).unwrap();

    let near = world.grid().occupants_within(4, 100, 100, 5);
    assert_eq!(near, vec![a, b]);
    assert!(!near.contains(&far));
    assert!(!near.contains(&other_map));
}

#[test]
fn test_spawn_unknown_template() {
    let templates = vec![make_test_template(45000, "TestMob", "L1Monster")];

    let mut world = GameWorld::new(templates);
    let id = world.spawn_npc(77777, 32800, 32800, 4);

    assert!(id.is_none());
    assert_eq!(world.npc_count(), 0);
    assert_eq!(world.grid().total_objects(), 0);
}

#[test]
fn test_tick_movement_is_one_tile() {
    let templates = vec![make_test_template(45000, "TestMob", "L1Monster")];

    let mut world = GameWorld::new(templates);
    world.spawn_npc(45000, 32800, 32800, 4).unwrap();
    world.set_player_position(99999, Position::new(32805, 32805, 4));

    for _ in 0..20 {
        for m in world.tick(30) {
            let h = m.new_pos.heading;
            assert!((0..8).contains(&h));
            let (dx, dy) = l1core::position::heading_delta(h);
            assert_eq!(m.new_pos.x, m.old_pos.x + dx);
            assert_eq!(m.new_pos.y, m.old_pos.y + dy);
            assert_eq!(m.new_pos.map_id, m.old_pos.map_id);
            assert!(dx != 0 || dy != 0);
        }
    }
}

#[test]
fn test_tick_out_of_range_player_keeps_npc_dormant() {
    let templates = vec![make_test_template(45000, "TestMob", "L1Monster")];

    let mut world = GameWorld::new(templates);
    world.spawn_npc(45000, 32800, 32800, 4).unwrap();
    // Player far outside the 30-tile sleep range
    world.set_player_position(99999, Position::new(40000, 40000, 4));

    for _ in 0..5 {
        assert!(world.tick(30).is_empty());
    }
}

#[test]
fn test_non_roaming_template_never_moves() {
    let templates = vec![make_test_template(70010, "Shopkeeper", "L1Merchant")];

    let mut world = GameWorld::new(templates);
    world.spawn_npc(70010, 32800, 32800, 4).unwrap();
    world.set_player_position(99999, Position::new(32801, 32801, 4));

    for _ in 0..5 {
        assert!(world.tick(30).is_empty());
    }
}

#[test]
fn test_cooldown_frozen_while_unobserved() {
    let templates = vec![make_test_template(45000, "TestMob", "L1Monster")];

    let mut world = GameWorld::new(templates); // passispeed 640 -> 3-tick move delay
    let npc_id = world.spawn_npc(45000, 32800, 32800, 4).unwrap();
    world.set_player_position(99999, Position::new(32805, 32805, 4));

    // First observed tick: the entity steps and its cooldown restarts.
    assert_eq!(world.tick(30).len(), 1);
    assert_eq!(world.get_npc(npc_id).unwrap().movement.cooldown_ticks, 3);

    // Unobserved ticks freeze the countdown exactly where it stands.
    world.remove_player_position(99999);
    for _ in 0..5 {
        assert!(world.tick(30).is_empty());
        assert_eq!(world.get_npc(npc_id).unwrap().movement.cooldown_ticks, 3);
        assert!(!world.get_npc(npc_id).unwrap().ai.players_nearby);
    }

    // Once re-observed the countdown resumes where it left off: two quiet
    // ticks, and a step on the third.
    world.set_player_position(99999, Position::new(32805, 32805, 4));
    assert!(world.tick(30).is_empty());
    assert_eq!(world.get_npc(npc_id).unwrap().movement.cooldown_ticks, 2);
    assert!(world.tick(30).is_empty());
    assert_eq!(world.get_npc(npc_id).unwrap().movement.cooldown_ticks, 1);
    assert_eq!(world.tick(30).len(), 1);
    assert_eq!(world.get_npc(npc_id).unwrap().movement.cooldown_ticks, 3);
}

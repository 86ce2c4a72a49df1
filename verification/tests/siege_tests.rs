use l1core::black_knights;
use l1core::siege::{
    official_guard_templates, CatapultAction, CatapultSide, CatapultState, GuardState, GuardType,
    SiegeUnitManager,
};
use l1core::siege_buff;

#[test]
fn test_catapult_official_rules() {
    let mut cat = CatapultState::new(1, 1, CatapultSide::Attacker, 100, 200, 4);

    // A commoner cannot operate it
    assert!(!cat.mount(100, false));
    // A royal can
    assert!(cat.mount(100, true));

    // With a bomb, the shot goes out
    let result = cat.try_fire(110, 210, true);
    match result {
        CatapultAction::Fire { damage, .. } => assert_eq!(damage, 80),
        _ => panic!("Expected Fire"),
    }

    // Reloading
    assert!(matches!(cat.try_fire(110, 210, true), CatapultAction::Reloading { .. }));

    // Wait out the 50-tick reload
    for _ in 0..50 {
        cat.tick();
    }
    assert!(matches!(cat.try_fire(110, 210, true), CatapultAction::Fire { .. }));

    // No bombs
    for _ in 0..50 {
        cat.tick();
    }
    assert!(matches!(cat.try_fire(110, 210, false), CatapultAction::NoBombs));
}

#[test]
fn test_catapult_repair() {
    let mut cat = CatapultState::new(1, 1, CatapultSide::Defender, 100, 200, 4);
    cat.receive_damage(600);
    assert!(cat.destroyed);

    cat.repair();
    assert!(!cat.destroyed);
    assert_eq!(cat.cur_hp, cat.max_hp);
}

#[test]
fn test_official_guard_hp() {
    let templates = official_guard_templates();

    let king = templates.iter().find(|t| t.guard_type == GuardType::King).unwrap();
    assert_eq!(king.level, 75);
    assert_eq!(king.hp, 8_403);

    let guard = templates
        .iter()
        .find(|t| t.guard_type == GuardType::RoyalGuard && t.aden_only)
        .unwrap();
    assert_eq!(guard.level, 68);
    assert_eq!(guard.hp, 11_049);

    let knight = templates
        .iter()
        .find(|t| t.guard_type == GuardType::RoyalKnight && t.aden_only)
        .unwrap();
    assert_eq!(knight.level, 70);
    assert_eq!(knight.hp, 11_513);

    let archer = templates.iter().find(|t| t.guard_type == GuardType::GuardArcher).unwrap();
    assert_eq!(archer.level, 66);
    assert_eq!(archer.hp, 10_572);

    let other_guard = templates
        .iter()
        .find(|t| t.guard_type == GuardType::RoyalGuard && t.non_aden)
        .unwrap();
    assert_eq!(other_guard.level, 75);
    assert_eq!(other_guard.hp, 8_403);

    let priest = templates.iter().find(|t| t.guard_type == GuardType::RoyalPriest).unwrap();
    assert_eq!(priest.level, 70);
    assert_eq!(priest.hp, 11_513);
}

#[test]
fn test_guard_combat() {
    let templates = official_guard_templates();
    let knight_t = templates
        .iter()
        .find(|t| t.guard_type == GuardType::RoyalKnight && t.aden_only)
        .unwrap();

    let mut guard = GuardState::from_template(1, knight_t, 7, 100, 200, 4);
    assert_eq!(guard.max_hp, 11_513);
    guard.target_id = 999;

    let dmg = guard.try_attack();
    assert!(dmg >= 30 && dmg <= 60);

    // Attack cooldown
    assert_eq!(guard.try_attack(), 0);
}

#[test]
fn test_siege_buff_constants() {
    assert_eq!(siege_buff::KINGS_GUARD_ATK_BONUS, 30);
    assert_eq!(siege_buff::MIN_CLAN_RANK, 6);
}

#[test]
fn test_black_knight_constants() {
    assert_eq!(black_knights::BLACK_KNIGHT_COUNT, 10);
    assert_eq!(black_knights::CERENIS_LEVEL, 70);
}

#[test]
fn test_guard_death_clears_target() {
    let templates = official_guard_templates();
    let king_t = templates.iter().find(|t| t.guard_type == GuardType::King).unwrap();
    let mut guard = GuardState::from_template(9, king_t, 1, 10, 10, 4);
    guard.target_id = 555;

    assert!(!guard.receive_damage(8_402));
    assert_eq!(guard.cur_hp, 1);
    assert!(guard.receive_damage(1));
    assert!(!guard.is_alive);
    assert_eq!(guard.target_id, 0);
    assert_eq!(guard.try_attack(), 0);
}

#[test]
fn test_manager_repairs_only_own_castle() {
    let mut mgr = SiegeUnitManager::new();
    let mut a = CatapultState::new(1, 1, CatapultSide::Attacker, 0, 0, 4);
    let mut b = CatapultState::new(2, 2, CatapultSide::Defender, 0, 0, 4);
    a.receive_damage(600);
    b.receive_damage(600);
    mgr.add_catapult(a);
    mgr.add_catapult(b);

    mgr.repair_all_catapults(1);
    assert!(!mgr.catapults[0].destroyed);
    assert!(mgr.catapults[1].destroyed);
}

#[test]
fn test_alive_guard_count() {
    let templates = official_guard_templates();
    let king_t = templates.iter().find(|t| t.guard_type == GuardType::King).unwrap();
    let mut mgr = SiegeUnitManager::new();
    mgr.add_guard(GuardState::from_template(1, king_t, 7, 0, 0, 4));
    mgr.add_guard(GuardState::from_template(2, king_t, 7, 1, 0, 4));
    mgr.add_guard(GuardState::from_template(3, king_t, 8, 2, 0, 4));

    assert_eq!(mgr.alive_guard_count(7), 2);
    assert_eq!(mgr.alive_guard_count(8), 1);

    mgr.guards[0].receive_damage(999_999);
    assert_eq!(mgr.alive_guard_count(7), 1);
}

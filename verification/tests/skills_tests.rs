use l1core::skills::{
    calc_buff_flat_bonus, calc_debuff_ac_modifier, calc_mp_cost, execute_skill, is_incapacitated,
    is_silenced, CasterInfo, SkillCooldowns, SkillEffects, SkillResult, SkillTemplate, TargetInfo,
};

fn make_test_skill() -> SkillTemplate {
    SkillTemplate {
        skill_id: 17,
        name: "\u{706b}\u{7403}\u{8853}".to_string(),
        skill_level: 4,
        skill_number: 17,
        mp_consume: 10,
        hp_consume: 0,
        item_consume_id: 0,
        item_consume_count: 0,
        reuse_delay: 0,
        buff_duration: 0,
        target: "attack".to_string(),
        target_to: 1,
        damage_value: 6,
        damage_dice: 6,
        damage_dice_count: 2,
        probability_value: 0,
        attr: 2,
        skill_type: 0,
        is_through: false,
        range: 10,
        area: 0,
        action_id: 19,
        cast_gfx: 1505,
        cast_gfx2: 0,
        sys_msg_id_happen: 0,
        sys_msg_id_stop: 0,
        sys_msg_id_fail: 0,
    }
}

fn make_caster() -> CasterInfo {
    CasterInfo {
        object_id: 100,
        x: 32800,
        y: 32800,
        map_id: 4,
        heading: 0,
        level: 52,
        cur_hp: 300,
        cur_mp: 200,
        int_stat: 18,
        sp_bonus: 3,
        class_type: 3,
    }
}

fn make_target() -> TargetInfo {
    TargetInfo {
        object_id: 200,
        x: 32805,
        y: 32800,
        map_id: 4,
        level: 50,
        cur_hp: 500,
        max_hp: 500,
        cur_mp: 100,
        mr: 30,
        is_undead: false,
    }
}

#[test]
fn test_mp_cost_reduction() {
    assert_eq!(calc_mp_cost(10, 10), 10); // no reduction
    assert_eq!(calc_mp_cost(10, 15), 9); // -1
    assert_eq!(calc_mp_cost(10, 20), 8); // -2
    assert_eq!(calc_mp_cost(1, 20), 1); // minimum 1
}

#[test]
fn test_execute_attack_skill() {
    let skill = make_test_skill();
    let caster = make_caster();
    let target = make_target();
    let cd = SkillCooldowns::new();
    let effects = SkillEffects::new();

    // Run 100 times - should succeed most of the time
    let mut successes = 0;
    for _ in 0..100 {
        match execute_skill(&skill, &caster, &[target.clone()], &cd, &effects) {
            SkillResult::Success(outcome) => {
                assert!(outcome.mp_consumed > 0);
                assert!(!outcome.damage.is_empty());
                let (tid, dmg) = outcome.damage[0];
                assert_eq!(tid, 200);
                assert!(dmg > 0, "Damage should be positive");
                successes += 1;
            }
            SkillResult::Resisted => {} // MR can resist
            other => panic!("Unexpected result: {:?}", other),
        }
    }
    assert!(successes > 30, "Should hit at least 30% of the time, got {}", successes);
}

#[test]
fn test_insufficient_mp() {
    let skill = make_test_skill();
    let mut caster = make_caster();
    caster.cur_mp = 2; // not enough
    let target = make_target();
    let cd = SkillCooldowns::new();
    let effects = SkillEffects::new();

    assert!(matches!(
        execute_skill(&skill, &caster, &[target], &cd, &effects),
        SkillResult::InsufficientMp
    ));
}

#[test]
fn test_skill_cooldown() {
    let skill = make_test_skill();
    let caster = make_caster();
    let target = make_target();
    let mut cd = SkillCooldowns::new();
    cd.set_cooldown(17, 10);
    let effects = SkillEffects::new();

    assert!(matches!(
        execute_skill(&skill, &caster, &[target], &cd, &effects),
        SkillResult::OnCooldown { ticks_left: 10 }
    ));
}

#[test]
fn test_incapacitated_check() {
    let mut effects = SkillEffects::new();
    assert!(!is_incapacitated(&effects));

    effects.add_effect(120, 25, 0); // shock stun
    assert!(is_incapacitated(&effects));
}

#[test]
fn test_silenced_check() {
    let mut effects = SkillEffects::new();
    assert!(!is_silenced(&effects));

    effects.add_effect(132, 80, 0); // area silence
    assert!(is_silenced(&effects));
}

#[test]
fn test_self_buff_no_target() {
    // Shield spell (skill 3) - self buff, no target needed
    let skill = SkillTemplate {
        skill_id: 3,
        name: "\u{4fdd}\u{8b77}\u{7f69}".to_string(),
        skill_level: 1,
        skill_number: 3,
        mp_consume: 8,
        hp_consume: 0,
        item_consume_id: 0,
        item_consume_count: 0,
        reuse_delay: 0,
        buff_duration: 1800,
        target: "self".to_string(),
        target_to: 0,
        damage_value: 2,
        damage_dice: 0,
        damage_dice_count: 0,
        probability_value: 0,
        attr: 0,
        skill_type: 0,
        is_through: false,
        range: 0,
        area: 0,
        action_id: 0,
        cast_gfx: 768,
        cast_gfx2: 0,
        sys_msg_id_happen: 0,
        sys_msg_id_stop: 0,
        sys_msg_id_fail: 0,
    };
    let caster = make_caster();
    let cd = SkillCooldowns::new();
    let effects = SkillEffects::new();

    match execute_skill(&skill, &caster, &[], &cd, &effects) {
        SkillResult::Success(outcome) => {
            assert_eq!(outcome.buffs.len(), 1);
            assert_eq!(outcome.buffs[0].0, 100); // caster's id
            assert_eq!(outcome.buffs[0].1, 3); // skill_id = Shield
            assert_eq!(outcome.mp_consumed, 6); // 8 - 2 (INT 18)
        }
        other => panic!("Expected Success, got {:?}", other),
    }
}

#[test]
fn test_flat_bonus_stacking() {
    let mut effects = SkillEffects::new();
    assert_eq!(calc_buff_flat_bonus(&effects), 0);

    effects.add_effect(107, 100, 5);
    assert_eq!(calc_buff_flat_bonus(&effects), 5);

    effects.add_effect(114, 100, 5);
    assert_eq!(calc_buff_flat_bonus(&effects), 10);
}

#[test]
fn test_debuff_ac_modifier() {
    let mut effects = SkillEffects::new();
    assert_eq!(calc_debuff_ac_modifier(&effects), 0);
    effects.add_effect(142, 40, 0);
    assert_eq!(calc_debuff_ac_modifier(&effects), -10);
    effects.add_effect(113, 40, 0);
    assert_eq!(calc_debuff_ac_modifier(&effects), -13);
}

#[test]
fn test_insufficient_hp() {
    let mut skill = make_test_skill();
    skill.hp_consume = 300;
    let caster = make_caster(); // cur_hp 300, not strictly more than the cost
    let target = make_target();
    let cd = SkillCooldowns::new();
    let effects = SkillEffects::new();

    assert!(matches!(
        execute_skill(&skill, &caster, &[target], &cd, &effects),
        SkillResult::InsufficientHp
    ));
}

#[test]
fn test_level_too_low() {
    let mut skill = make_test_skill();
    skill.skill_level = 60;
    let caster = make_caster(); // level 52
    let target = make_target();
    let cd = SkillCooldowns::new();
    let effects = SkillEffects::new();

    assert!(matches!(
        execute_skill(&skill, &caster, &[target], &cd, &effects),
        SkillResult::LevelTooLow
    ));
}

#[test]
fn test_no_target() {
    let skill = make_test_skill(); // target_to = 1: needs a target
    let caster = make_caster();
    let cd = SkillCooldowns::new();
    let effects = SkillEffects::new();

    assert!(matches!(
        execute_skill(&skill, &caster, &[], &cd, &effects),
        SkillResult::NoTarget
    ));
}

#[test]
fn test_guaranteed_buff_lands() {
    let mut skill = make_test_skill();
    skill.damage_value = 0;
    skill.damage_dice = 0;
    skill.damage_dice_count = 0;
    skill.buff_duration = 60;
    skill.probability_value = 0;
    let caster = make_caster();
    let target = make_target();
    let cd = SkillCooldowns::new();
    let effects = SkillEffects::new();

    match execute_skill(&skill, &caster, &[target], &cd, &effects) {
        SkillResult::Success(outcome) => {
            assert_eq!(outcome.buffs.len(), 1);
            assert_eq!(outcome.buffs[0].0, 200);
            assert_eq!(outcome.buffs[0].2, 300); // 60 s -> 300 ticks
        }
        other => panic!("Expected Success, got {:?}", other),
    }
}

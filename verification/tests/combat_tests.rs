use l1core::combat::{calculate_attack, calculate_npc_attack, AttackType, AttackerStats, DefenderStats};

#[test]
fn test_attack_always_does_min_1_damage() {
    let attacker = AttackerStats {
        level: 1,
        str_stat: 10,
        dex_stat: 10,
        hit_modifier: 100, // guaranteed hit
        dmg_modifier: 0,
        weapon_max_damage: 1,
        weapon_enchant: 0,
        is_ranged: false,
    };
    let defender = DefenderStats {
        level: 99,
        ac: -50,
        dex_stat: 30,
        mr: 100,
        damage_reduction: 100,
        cur_hp: 9999,
        max_hp: 9999,
    };

    let result = calculate_attack(&attacker, &defender, AttackType::PcVsNpc);
    if result.hit {
        assert!(result.damage >= 1, "Minimum damage should be 1");
    }
}

#[test]
fn test_high_stats_attacker() {
    let attacker = AttackerStats {
        level: 50,
        str_stat: 30,
        dex_stat: 20,
        hit_modifier: 10,
        dmg_modifier: 15,
        weapon_max_damage: 20,
        weapon_enchant: 7,
        is_ranged: false,
    };
    let defender = DefenderStats {
        level: 10,
        ac: 5,
        dex_stat: 10,
        mr: 0,
        damage_reduction: 0,
        cur_hp: 100,
        max_hp: 100,
    };

    // Run 100 attacks, most should hit with decent damage
    let mut hits = 0;
    let mut total_damage = 0;
    for _ in 0..100 {
        let result = calculate_attack(&attacker, &defender, AttackType::PcVsNpc);
        if result.hit {
            hits += 1;
            total_damage += result.damage;
        }
    }

    assert!(hits > 50, "High-stat attacker should hit more than 50% of the time");
    assert!(total_damage > 0, "Should deal some damage");
}

#[test]
fn test_npc_attack() {
    let defender = DefenderStats {
        level: 10,
        ac: 0,
        dex_stat: 12,
        mr: 0,
        damage_reduction: 0,
        cur_hp: 200,
        max_hp: 200,
    };

    let result = calculate_npc_attack(20, 14, &defender);
    assert!(result.damage >= 0 || !result.hit);
}

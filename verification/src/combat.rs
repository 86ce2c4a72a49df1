//! Hit/miss determination and damage calculation for melee and ranged
//! auto-attacks.
//!
//! The dice are drawn through the crate's random-range wrapper; everything
//! downstream of the dice is computed by exactly specified functions that
//! take the rolls as arguments.

use vstd::prelude::*;

verus! {

/// Who attacks whom, for calculation branching.
#[derive(Debug, Clone, Copy)]
pub enum AttackType {
    PcVsPc,
    PcVsNpc,
    NpcVsPc,
    NpcVsNpc,
}

/// Attacker stats needed for combat calculation.
#[derive(Debug, Clone)]
pub struct AttackerStats {
    pub level: i32,
    pub str_stat: i32,
    pub dex_stat: i32,
    /// Weapon hit bonus.
    pub hit_modifier: i32,
    /// Weapon damage bonus.
    pub dmg_modifier: i32,
    pub weapon_max_damage: i32,
    pub weapon_enchant: i32,
    pub is_ranged: bool,
}

/// Defender stats needed for combat calculation.
#[derive(Debug, Clone)]
pub struct DefenderStats {
    pub level: i32,
    pub ac: i32,
    pub dex_stat: i32,
    pub mr: i32,
    pub damage_reduction: i32,
    pub cur_hp: i32,
    pub max_hp: i32,
}

/// Result of a single attack calculation.
#[derive(Debug)]
pub struct AttackResult {
    pub hit: bool,
    pub damage: i32,
    pub is_critical: bool,
}

/// Stat ranges under which the attack arithmetic cannot overflow.
pub open spec fn attacker_in_bounds(a: AttackerStats) -> bool {
    &&& 0 <= a.level <= 1000
    &&& -1000 <= a.str_stat <= 1000
    &&& -1000 <= a.dex_stat <= 1000
    &&& -1000000 <= a.hit_modifier <= 1000000
    &&& -1000000 <= a.dmg_modifier <= 1000000
    &&& -1000000 <= a.weapon_max_damage <= 1000000
    &&& -1000000 <= a.weapon_enchant <= 1000000
}

/// Stat ranges under which the attack arithmetic cannot overflow.
pub open spec fn defender_in_bounds(d: DefenderStats) -> bool {
    &&& 0 <= d.level <= 1000
    &&& -1000000 <= d.ac <= 1000000
    &&& -1000 <= d.dex_stat <= 1000
    &&& -1000000 <= d.damage_reduction <= 1000000
}

/// `(stat - base) / divisor` with Rust's truncating signed division.
pub open spec fn spec_stat_bonus(stat: int, base: int, divisor: int) -> int
    recommends
        divisor > 0,
{
    if stat >= base {
        (stat - base) / divisor
    } else {
        -((base - stat) / divisor)
    }
}

/// Truncating `(stat - base) / divisor`, the stat-bonus formula shared by
/// hit and damage calculation.
fn stat_bonus(stat: i32, base: i32, divisor: i32) -> (r: i32)
    requires
        -1000 <= stat <= 1000,
        0 <= base <= 1000,
        1 <= divisor <= 10,
    ensures
        r == spec_stat_bonus(stat as int, base as int, divisor as int),
        -2000 <= r <= 2000,
{
    if stat >= base {
        (stat - base) / divisor
    } else {
        -((base - stat) / divisor)
    }
}

/// Attack roll total: d20 roll plus hit modifier, STR or DEX bonus, and
/// half the attacker's level.
pub open spec fn spec_attack_roll(roll: int, a: AttackerStats) -> int {
    let bonus = if a.is_ranged {
        spec_stat_bonus(a.dex_stat as int, 10, 2)
    } else {
        spec_stat_bonus(a.str_stat as int, 10, 2)
    };
    roll + a.hit_modifier + bonus + a.level as int / 2
}

/// Dodge target the attack roll must meet: 10 minus AC plus a DEX bonus.
pub open spec fn spec_dodge(d: DefenderStats) -> int {
    10 - d.ac + spec_stat_bonus(d.dex_stat as int, 10, 3)
}

/// Whether a d20 roll of `roll` hits: the attack roll total meets the
/// defender's dodge target.
pub open spec fn spec_hit(roll: int, a: AttackerStats, d: DefenderStats) -> bool {
    spec_attack_roll(roll, a) >= spec_dodge(d)
}

/// Hit determination for a concrete d20 roll.
pub fn calc_hit(roll: i32, attacker: &AttackerStats, defender: &DefenderStats) -> (hit: bool)
    requires
        1 <= roll <= 20,
        attacker_in_bounds(*attacker),
        defender_in_bounds(*defender),
    ensures
        hit == spec_hit(roll as int, *attacker, *defender),
{
    let bonus = if attacker.is_ranged {
        stat_bonus(attacker.dex_stat, 10, 2)
    } else {
        stat_bonus(attacker.str_stat, 10, 2)
    };
    let attacker_roll = roll + attacker.hit_modifier + bonus + attacker.level / 2;
    let defender_dodge = 10 - defender.ac + stat_bonus(defender.dex_stat, 10, 3);
    attacker_roll >= defender_dodge
}

/// Damage dealt by a hit, given the weapon roll and the crit roll: weapon
/// damage plus modifiers, doubled on a natural-20 crit roll, less the
/// defender's reduction, and never below 1.
pub open spec fn spec_damage(weapon_roll: int, crit: bool, a: AttackerStats, d: DefenderStats) -> int {
    let bonus = if a.is_ranged {
        spec_stat_bonus(a.dex_stat as int, 10, 2)
    } else {
        spec_stat_bonus(a.str_stat as int, 10, 2)
    };
    let raw = (weapon_roll + a.dmg_modifier + bonus + a.weapon_enchant) * (if crit {
        2int
    } else {
        1int
    });
    let ac_abs = if d.ac >= 0 {
        d.ac as int
    } else {
        -(d.ac as int)
    };
    let reduction = d.damage_reduction + ac_abs / 3;
    let total = raw - reduction;
    if total >= 1 {
        total
    } else {
        1
    }
}

/// Damage calculation for concrete weapon and crit rolls; the second
/// result reports whether the crit roll was a natural 20.
pub fn calc_damage(
    weapon_roll: i32,
    crit_roll: i32,
    attacker: &AttackerStats,
    defender: &DefenderStats,
) -> (r: (i32, bool))
    requires
        1 <= weapon_roll <= 1000000,
        1 <= crit_roll <= 20,
        attacker_in_bounds(*attacker),
        defender_in_bounds(*defender),
    ensures
        r.1 == (crit_roll == 20),
        r.0 == spec_damage(weapon_roll as int, crit_roll == 20, *attacker, *defender),
        r.0 >= 1,
{
    let bonus = if attacker.is_ranged {
        stat_bonus(attacker.dex_stat, 10, 2)
    } else {
        stat_bonus(attacker.str_stat, 10, 2)
    };
    let is_critical = crit_roll == 20;
    let crit_multiplier: i32 = if is_critical {
        2
    } else {
        1
    };
    let raw = (weapon_roll + attacker.dmg_modifier + bonus + attacker.weapon_enchant)
        * crit_multiplier;
    let ac_abs = if defender.ac >= 0 {
        defender.ac
    } else {
        -defender.ac
    };
    let reduction = defender.damage_reduction + ac_abs / 3;
    let total = raw - reduction;
    let damage = if total >= 1 {
        total
    } else {
        1
    };
    (damage, is_critical)
}

/// Calculate a melee or ranged attack.
///
/// A miss deals no damage; a hit deals at least 1 damage even against the
/// heaviest armor. The d20 hit roll decides between them, so an attack
/// that would hit even on a 1 always hits, and one that would miss even
/// on a 20 always misses.
pub fn calculate_attack(
    attacker: &AttackerStats,
    defender: &DefenderStats,
    attack_type: AttackType,
) -> (r: AttackResult)
    requires
        attacker_in_bounds(*attacker),
        defender_in_bounds(*defender),
    ensures
        !r.hit ==> r.damage == 0 && !r.is_critical,
        r.hit ==> r.damage >= 1,
        r.hit ==> exists|w: int|
            1 <= w <= (if attacker.weapon_max_damage > 0 {
                attacker.weapon_max_damage as int
            } else {
                4int
            }) && r.damage == #[trigger] spec_damage(w, r.is_critical, *attacker, *defender),
        spec_hit(1, *attacker, *defender) ==> r.hit,
        !spec_hit(20, *attacker, *defender) ==> !r.hit,
{
    let _ = attack_type;
    let roll = crate::rng::roll_range(1, 20);
    let hit = calc_hit(roll, attacker, defender);
    if !hit {
        proof {
            assert(spec_attack_roll(1, *attacker) <= spec_attack_roll(roll as int, *attacker));
        }
        return AttackResult { hit: false, damage: 0, is_critical: false };
    }
    let weapon_roll = if attacker.weapon_max_damage > 0 {
        crate::rng::roll_range(1, attacker.weapon_max_damage)
    } else {
        crate::rng::roll_range(1, 4)
    };
    let crit_roll = crate::rng::roll_range(1, 20);
    let (damage, is_critical) = calc_damage(weapon_roll, crit_roll, attacker, defender);
    let result = AttackResult { hit: true, damage, is_critical };
    proof {
        assert(spec_attack_roll(roll as int, *attacker) <= spec_attack_roll(20, *attacker));
        assert(exists|w: int|
            1 <= w <= (if attacker.weapon_max_damage > 0 {
                attacker.weapon_max_damage as int
            } else {
                4int
            }) && result.damage == #[trigger] spec_damage(w, result.is_critical, *attacker, *defender))
            by {
            assert(result.damage == spec_damage(
                weapon_roll as int,
                result.is_critical,
                *attacker,
                *defender,
            ));
        }
    }
    result
}

/// Damage formula for an NPC auto-attack with concrete rolls: a random
/// base up to the NPC's level, half its strength plus one, less the
/// defender's damage reduction, and never below 1.
pub open spec fn spec_npc_damage(base_roll: int, npc_str: int, d: DefenderStats) -> int {
    let total = base_roll + spec_stat_bonus(npc_str, 0, 2) + 1 - d.damage_reduction;
    if total >= 1 {
        total
    } else {
        1
    }
}

/// Calculate an NPC auto-attack against a defender.
///
/// The d20 hit roll plus half the NPC's level must reach the defender's
/// `10 - AC` dodge; a hit deals at least 1 damage. A non-positive level
/// contributes no damage die.
pub fn calculate_npc_attack(npc_level: i32, npc_str: i32, defender: &DefenderStats) -> (r:
    AttackResult)
    requires
        -1000 <= npc_level <= 1000,
        -1000 <= npc_str <= 1000,
        defender_in_bounds(*defender),
    ensures
        !r.is_critical,
        !r.hit ==> r.damage == 0,
        r.hit ==> r.damage >= 1,
        r.hit ==> exists|b: int|
            0 <= b <= (if npc_level > 0 {
                npc_level - 1
            } else {
                0int
            }) && r.damage == spec_npc_damage(b, npc_str as int, *defender),
        1 + spec_stat_bonus(npc_level as int, 0, 2) >= 10 - defender.ac ==> r.hit,
        20 + spec_stat_bonus(npc_level as int, 0, 2) < 10 - defender.ac ==> !r.hit,
{
    let roll = crate::rng::roll_range(1, 20);
    let hit_roll = roll + stat_bonus(npc_level, 0, 2);
    let dodge = 10 - defender.ac;
    if hit_roll < dodge {
        return AttackResult { hit: false, damage: 0, is_critical: false };
    }
    let base_damage = if npc_level > 0 {
        crate::rng::roll_range(0, npc_level - 1)
    } else {
        0
    };
    let total = base_damage + stat_bonus(npc_str, 0, 2) + 1 - defender.damage_reduction;
    let damage = if total >= 1 {
        total
    } else {
        1
    };
    proof {
        assert(damage == spec_npc_damage(base_damage as int, npc_str as int, *defender));
    }
    AttackResult { hit: true, damage, is_critical: false }
}

} // verus!

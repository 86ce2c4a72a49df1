//! Skill execution: validate the cast, price it, compute the per-target
//! effects, and hand back the outcome for the caller to apply and
//! broadcast.
//!
//! Magic-resist checks and damage dice are drawn through the crate's
//! random-range wrapper; everything downstream of the dice is computed by
//! exactly specified functions that take the rolls as arguments.

use vstd::prelude::*;

use crate::position::chebyshev;

verus! {

/// Immutable description of one skill, as loaded from the skill tables.
#[derive(Debug, Clone)]
pub struct SkillTemplate {
    pub skill_id: i32,
    pub name: String,
    pub skill_level: i32,
    pub skill_number: i32,
    pub mp_consume: i32,
    pub hp_consume: i32,
    pub item_consume_id: i32,
    pub item_consume_count: i32,
    pub reuse_delay: i32,
    pub buff_duration: i32,
    pub target: String,
    pub target_to: i32,
    pub damage_value: i32,
    pub damage_dice: i32,
    pub damage_dice_count: i32,
    pub probability_value: i32,
    pub attr: i32,
    pub skill_type: i32,
    pub is_through: bool,
    pub range: i32,
    pub area: i32,
    pub action_id: i32,
    pub cast_gfx: i32,
    pub cast_gfx2: i32,
    pub sys_msg_id_happen: i32,
    pub sys_msg_id_stop: i32,
    pub sys_msg_id_fail: i32,
}

/// Everything needed about the caster to execute a skill.
#[derive(Debug, Clone)]
pub struct CasterInfo {
    pub object_id: u32,
    pub x: i32,
    pub y: i32,
    pub map_id: i32,
    pub heading: i32,
    pub level: i32,
    pub cur_hp: i32,
    pub cur_mp: i32,
    /// Affects damage and MP cost reduction.
    pub int_stat: i32,
    /// Spell power from equipment.
    pub sp_bonus: i32,
    /// Character class.
    pub class_type: i32,
}

/// Everything needed about a target.
#[derive(Debug, Clone)]
pub struct TargetInfo {
    pub object_id: u32,
    pub x: i32,
    pub y: i32,
    pub map_id: i32,
    pub level: i32,
    pub cur_hp: i32,
    pub max_hp: i32,
    pub cur_mp: i32,
    /// Magic resistance.
    pub mr: i32,
    pub is_undead: bool,
}

/// Remaining cooldown ticks per skill id.
pub struct SkillCooldowns {
    entries: Vec<(i32, u32)>,
}

/// Remaining cooldown in a cooldown list: the first entry for the id, or
/// 0 when the skill has no entry.
pub open spec fn spec_cd(s: Seq<(i32, u32)>, id: int) -> u32
    decreases s.len(),
{
    if s.len() == 0 {
        0u32
    } else if s[0].0 == id {
        s[0].1
    } else {
        spec_cd(s.skip(1), id)
    }
}

/// Unfolds `spec_cd` at position `i` of the list.
proof fn lemma_cd_step(s: Seq<(i32, u32)>, i: int, id: int)
    requires
        0 <= i < s.len(),
    ensures
        spec_cd(s.skip(i), id) == if s[i].0 == id {
            s[i].1
        } else {
            spec_cd(s.skip(i + 1), id)
        },
{
    assert(s.skip(i)[0] == s[i]);
    assert(s.skip(i).skip(1) =~= s.skip(i + 1));
}

/// Updating the first entry for `id` sets its cooldown and leaves every
/// other id's cooldown unchanged.
proof fn lemma_cd_update(s: Seq<(i32, u32)>, i: int, id: i32, ticks: u32)
    requires
        0 <= i < s.len(),
        forall|j: int| 0 <= j < i ==> (#[trigger] s[j]).0 != id,
        s[i].0 == id,
    ensures
        spec_cd(s.update(i, (id, ticks)), id as int) == ticks,
        forall|id2: int| id2 != id ==> spec_cd(s.update(i, (id, ticks)), id2) == spec_cd(s, id2),
    decreases i,
{
    let s2 = s.update(i, (id, ticks));
    if i == 0 {
        assert(s2[0] == (id, ticks));
        assert forall|id2: int| id2 != id implies spec_cd(s2, id2) == spec_cd(s, id2) by {
            assert(s2.skip(1) =~= s.skip(1));
        }
    } else {
        assert(s2[0] == s[0]);
        assert(s.skip(1).update(i - 1, (id, ticks)) =~= s2.skip(1));
        assert forall|j: int| 0 <= j < i - 1 implies (#[trigger] s.skip(1)[j]).0 != id by {
            assert(s.skip(1)[j] == s[j + 1]);
        }
        lemma_cd_update(s.skip(1), i - 1, id, ticks);
        assert forall|id2: int| id2 != id implies spec_cd(s2, id2) == spec_cd(s, id2) by {
            assert(spec_cd(s2.skip(1), id2) == spec_cd(s.skip(1), id2));
        }
    }
}

/// Appending an entry for an id with no earlier entry sets its cooldown
/// and leaves every other id's cooldown unchanged.
proof fn lemma_cd_push(s: Seq<(i32, u32)>, id: i32, ticks: u32)
    requires
        forall|j: int| 0 <= j < s.len() ==> (#[trigger] s[j]).0 != id,
    ensures
        spec_cd(s.push((id, ticks)), id as int) == ticks,
        forall|id2: int| id2 != id ==> spec_cd(s.push((id, ticks)), id2) == spec_cd(s, id2),
    decreases s.len(),
{
    let s2 = s.push((id, ticks));
    if s.len() == 0 {
        assert(s2[0] == (id, ticks));
        assert(s2.skip(1) =~= Seq::<(i32, u32)>::empty());
        assert forall|id2: int| id2 != id implies spec_cd(s2, id2) == spec_cd(s, id2) by {
            assert(spec_cd(s2.skip(1), id2) == 0);
        }
    } else {
        assert(s2[0] == s[0]);
        assert(s.skip(1).push((id, ticks)) =~= s2.skip(1));
        assert forall|j: int| 0 <= j < s.skip(1).len() implies (#[trigger] s.skip(1)[j]).0 != id by {
            assert(s.skip(1)[j] == s[j + 1]);
        }
        lemma_cd_push(s.skip(1), id, ticks);
        assert forall|id2: int| id2 != id implies spec_cd(s2, id2) == spec_cd(s, id2) by {
            assert(spec_cd(s2.skip(1), id2) == spec_cd(s.skip(1), id2));
        }
    }
}

impl SkillCooldowns {
    /// Remaining cooldown recorded for a skill id.
    pub closed spec fn cooldown_of(&self, id: int) -> u32 {
        spec_cd(self.entries@, id)
    }

    pub fn new() -> (c: SkillCooldowns)
        ensures
            forall|id: int| c.cooldown_of(id) == 0,
    {
        SkillCooldowns { entries: Vec::new() }
    }

    /// Remaining cooldown for a skill, 0 when ready.
    pub fn get_cooldown(&self, skill_id: i32) -> (ticks: u32)
        ensures
            ticks == self.cooldown_of(skill_id as int),
    {
        let n = self.entries.len();
        let mut i: usize = 0;
        proof {
            assert(self.entries@.skip(0) =~= self.entries@);
        }
        while i < n
            invariant
                i <= n,
                n == self.entries@.len(),
                spec_cd(self.entries@, skill_id as int) == spec_cd(
                    self.entries@.skip(i as int),
                    skill_id as int,
                ),
            decreases n - i,
        {
            proof {
                lemma_cd_step(self.entries@, i as int, skill_id as int);
            }
            if self.entries[i].0 == skill_id {
                return self.entries[i].1;
            }
            i += 1;
        }
        0
    }

    /// Whether the skill may be cast now.
    pub fn is_ready(&self, skill_id: i32) -> (ready: bool)
        ensures
            ready == (self.cooldown_of(skill_id as int) == 0),
    {
        self.get_cooldown(skill_id) == 0
    }

    /// Record a cooldown for a skill, replacing any earlier entry.
    pub fn set_cooldown(&mut self, skill_id: i32, ticks: u32)
        ensures
            final(self).cooldown_of(skill_id as int) == ticks,
            forall|id2: int|
                id2 != skill_id ==> final(self).cooldown_of(id2) == old(self).cooldown_of(id2),
    {
        let n = self.entries.len();
        let mut i: usize = 0;
        while i < n
            invariant
                i <= n,
                n == self.entries@.len(),
                self.entries@ == old(self).entries@,
                forall|j: int| 0 <= j < i ==> (#[trigger] self.entries@[j]).0 != skill_id,
            decreases n - i,
        {
            if self.entries[i].0 == skill_id {
                proof {
                    lemma_cd_update(self.entries@, i as int, skill_id, ticks);
                }
                self.entries.set(i, (skill_id, ticks));
                return ;
            }
            i += 1;
        }
        proof {
            lemma_cd_push(self.entries@, skill_id, ticks);
        }
        self.entries.push((skill_id, ticks));
    }
}

/// Active skill effects on an actor: `(skill id, remaining ticks, value)`.
pub struct SkillEffects {
    entries: Vec<(i32, u32, i32)>,
}

impl SkillEffects {
    /// The recorded effect entries.
    pub closed spec fn effects_seq(&self) -> Seq<(i32, u32, i32)> {
        self.entries@
    }

    /// Whether an effect of the given skill id is active.
    pub open spec fn spec_has_effect(&self, id: int) -> bool {
        exists|j: int| 0 <= j < self.effects_seq().len() && (#[trigger] self.effects_seq()[j]).0 == id
    }

    pub fn new() -> (e: SkillEffects)
        ensures
            e.effects_seq() == Seq::<(i32, u32, i32)>::empty(),
            forall|id: int| !e.spec_has_effect(id),
    {
        SkillEffects { entries: Vec::new() }
    }

    /// Whether an effect of the given skill id is active.
    pub fn has_effect(&self, skill_id: i32) -> (r: bool)
        ensures
            r == self.spec_has_effect(skill_id as int),
    {
        let n = self.entries.len();
        let mut i: usize = 0;
        while i < n
            invariant
                i <= n,
                n == self.entries@.len(),
                self.entries@ == self.effects_seq(),
                forall|j: int| 0 <= j < i ==> (#[trigger] self.entries@[j]).0 != skill_id,
            decreases n - i,
        {
            if self.entries[i].0 == skill_id {
                return true;
            }
            i += 1;
        }
        false
    }

    /// Record an effect.
    pub fn add_effect(&mut self, skill_id: i32, duration_ticks: u32, value: i32)
        ensures
            final(self).effects_seq() == old(self).effects_seq().push(
                (skill_id, duration_ticks, value),
            ),
            final(self).spec_has_effect(skill_id as int),
    {
        self.entries.push((skill_id, duration_ticks, value));
        proof {
            let s = self.entries@;
            assert(s[s.len() - 1].0 == skill_id);
        }
    }
}

/// Result of a skill execution attempt.
#[derive(Debug)]
pub enum SkillResult {
    /// The skill goes off; carries the effects to apply.
    Success(SkillOutcome),
    /// Not enough MP.
    InsufficientMp,
    /// Not enough HP.
    InsufficientHp,
    /// Skill on cooldown.
    OnCooldown { ticks_left: u32 },
    /// Caster level too low.
    LevelTooLow,
    /// Target out of range.
    OutOfRange,
    /// Every target resisted.
    Resisted,
    /// Counter magic blocked the spell.
    CounterMagic,
    /// No valid target.
    NoTarget,
}

/// What to apply after a successful skill use.
#[derive(Debug)]
pub struct SkillOutcome {
    /// Damage per target id; negative means healing.
    pub damage: Vec<(u32, i32)>,
    /// Buffs to add: `(target id, skill id, duration ticks, value)`.
    pub buffs: Vec<(u32, i32, u32, i32)>,
    /// MP consumed from the caster.
    pub mp_consumed: i32,
    /// HP consumed from the caster.
    pub hp_consumed: i32,
    /// Animation to play.
    pub gfx_id: i32,
    /// Whether this is an area skill.
    pub is_aoe: bool,
    /// Skill id, for cooldown tracking.
    pub skill_id: i32,
    /// Cooldown ticks to set.
    pub cooldown_ticks: u32,
}

/// MP cost after the INT reduction: INT 13..=17 saves 1 MP, INT 18 and up
/// saves 2, and a cast never costs less than 1.
pub open spec fn spec_mp_cost(base_cost: int, int_stat: int) -> int {
    let reduction: int = if int_stat >= 18 {
        2
    } else if int_stat >= 13 {
        1
    } else {
        0
    };
    let c = base_cost - reduction;
    if c >= 1 {
        c
    } else {
        1
    }
}

/// Actual MP cost of a cast after the caster's INT reduction.
pub fn calc_mp_cost(base_cost: i32, int_stat: i32) -> (cost: i32)
    requires
        i32::MIN + 2 <= base_cost,
    ensures
        cost == spec_mp_cost(base_cost as int, int_stat as int),
{
    let reduction: i32 = if int_stat >= 18 {
        2
    } else if int_stat >= 13 {
        1
    } else {
        0
    };
    let c = base_cost - reduction;
    if c >= 1 {
        c
    } else {
        1
    }
}

/// Field ranges under which the skill arithmetic cannot overflow.
pub open spec fn skill_in_bounds(s: SkillTemplate) -> bool {
    &&& -1000000 <= s.damage_value <= 1000000
    &&& 0 <= s.damage_dice <= 10000
    &&& 0 <= s.damage_dice_count <= 100
    &&& 0 <= s.buff_duration <= 1000000
    &&& 0 <= s.reuse_delay <= 1000000000
    &&& i32::MIN + 2 <= s.mp_consume
}

/// Field ranges under which the skill arithmetic cannot overflow.
pub open spec fn caster_in_bounds(c: CasterInfo) -> bool {
    &&& -10000 <= c.level <= 10000
    &&& -1000 <= c.int_stat <= 1000
    &&& -1000000 <= c.sp_bonus <= 1000000
}

/// Field ranges under which the skill arithmetic cannot overflow.
pub open spec fn target_in_bounds(t: TargetInfo) -> bool {
    &&& -10000 <= t.level <= 10000
    &&& -1000000 <= t.mr <= 1000000
}

/// Cooldown ticks a successful cast sets: the reuse delay in
/// milliseconds, converted to 200 ms ticks.
pub open spec fn spec_cooldown_ticks(s: SkillTemplate) -> int {
    if s.reuse_delay > 0 {
        s.reuse_delay as int / 200
    } else {
        0
    }
}

/// Whether a target at `(tx, ty)` is within the skill's range of the
/// caster; a non-positive range reaches everywhere.
pub open spec fn spec_in_range(s: SkillTemplate, c: CasterInfo, t: TargetInfo) -> bool {
    s.range <= 0 || chebyshev(c.x as int, c.y as int, t.x as int, t.y as int) <= s.range
}

/// Whether the skill's per-target effect lands without any dice: a buff
/// with no resist probability, or a pure healing spell. Attack spells and
/// probability debuffs go through the magic-resist roll instead.
pub open spec fn spec_guaranteed_effect(s: SkillTemplate) -> bool {
    &&& !(s.damage_value > 0 || s.damage_dice > 0)
    &&& if s.buff_duration > 0 {
        s.probability_value <= 0
    } else {
        s.damage_value < 0
    }
}

/// Membership test for the skill's reach: the target lies within range
/// of the caster.
pub open spec fn in_range_pred(s: SkillTemplate, c: CasterInfo) -> spec_fn(TargetInfo) -> bool {
    |t: TargetInfo| spec_in_range(s, c, t)
}

/// Whether `id` is the object id of one of the targets within the
/// skill's range.
pub open spec fn spec_in_range_target_id(
    s: SkillTemplate,
    c: CasterInfo,
    targets: Seq<TargetInfo>,
    id: int,
) -> bool {
    exists|j: int|
        0 <= j < targets.len() && (#[trigger] targets[j]).object_id == id && spec_in_range(
            s,
            c,
            targets[j],
        )
}

/// Whether the up-front checks (cooldown, MP, HP, level) all pass.
pub open spec fn spec_checks_pass(s: SkillTemplate, c: CasterInfo, cd: &SkillCooldowns) -> bool {
    &&& cd.cooldown_of(s.skill_id as int) == 0
    &&& c.cur_mp >= spec_mp_cost(s.mp_consume as int, c.int_stat as int)
    &&& c.cur_hp > s.hp_consume
    &&& c.level >= s.skill_level
}

/// Whether a spell with hit rate clamped into 10..=95 percent penetrates
/// magic resistance on a given percent roll.
pub open spec fn spec_resist_pass(
    caster_level: int,
    target_level: int,
    target_mr: int,
    roll: int,
) -> bool {
    let mr_penalty = if target_mr >= 0 {
        target_mr
    } else {
        0
    };
    let rate = 90 - mr_penalty + (caster_level - target_level) * 2;
    let clamped = if rate < 10 {
        10
    } else if rate > 95 {
        95
    } else {
        rate
    };
    roll <= clamped
}

/// Magic-resist check for a concrete percent roll: the hit rate starts at
/// 90, loses the target's MR, gains twice the level difference, and is
/// clamped into 10..=95.
pub fn magic_resist_check(caster_level: i32, target_level: i32, target_mr: i32, roll: i32) -> (hits:
    bool)
    requires
        -10000 <= caster_level <= 10000,
        -10000 <= target_level <= 10000,
        -1000000 <= target_mr <= 1000000,
    ensures
        hits == spec_resist_pass(caster_level as int, target_level as int, target_mr as int, roll as int),
{
    let mr_penalty = if target_mr >= 0 {
        target_mr
    } else {
        0
    };
    let rate = 90 - mr_penalty + (caster_level - target_level) * 2;
    let clamped = if rate < 10 {
        10
    } else if rate > 95 {
        95
    } else {
        rate
    };
    roll <= clamped
}

/// INT bonus to spell damage and healing: one point for every two INT
/// above 12.
pub open spec fn spec_int_bonus(int_stat: int) -> int {
    let above = if int_stat - 12 >= 0 {
        int_stat - 12
    } else {
        0
    };
    above / 2
}

/// Attack spell damage for a concrete dice total: base value plus dice
/// plus INT and spell-power bonuses, never negative.
pub open spec fn spec_magic_damage(s: SkillTemplate, c: CasterInfo, dice_total: int) -> int {
    let d = s.damage_value + dice_total + spec_int_bonus(c.int_stat as int) + c.sp_bonus;
    if d >= 0 {
        d
    } else {
        0
    }
}

/// Attack spell damage from a concrete dice total.
pub fn magic_damage_from(skill: &SkillTemplate, caster: &CasterInfo, dice_total: i32) -> (damage:
    i32)
    requires
        skill_in_bounds(*skill),
        caster_in_bounds(*caster),
        0 <= dice_total <= 1000000,
    ensures
        damage == spec_magic_damage(*skill, *caster, dice_total as int),
{
    let above = if caster.int_stat - 12 >= 0 {
        caster.int_stat - 12
    } else {
        0
    };
    let d = skill.damage_value + dice_total + above / 2 + caster.sp_bonus;
    if d >= 0 {
        d
    } else {
        0
    }
}

/// Healing amount for a concrete dice total: the magnitude of the base
/// value plus dice plus the INT bonus, at least 1.
pub open spec fn spec_healing(s: SkillTemplate, c: CasterInfo, dice_total: int) -> int {
    let base = if s.damage_value >= 0 {
        s.damage_value as int
    } else {
        -(s.damage_value as int)
    };
    let h = base + dice_total + spec_int_bonus(c.int_stat as int);
    if h >= 1 {
        h
    } else {
        1
    }
}

/// Healing amount from a concrete dice total.
pub fn healing_from(skill: &SkillTemplate, caster: &CasterInfo, dice_total: i32) -> (heal: i32)
    requires
        skill_in_bounds(*skill),
        caster_in_bounds(*caster),
        0 <= dice_total <= 1000000,
    ensures
        heal == spec_healing(*skill, *caster, dice_total as int),
{
    let base = if skill.damage_value >= 0 {
        skill.damage_value
    } else {
        -skill.damage_value
    };
    let above = if caster.int_stat - 12 >= 0 {
        caster.int_stat - 12
    } else {
        0
    };
    let h = base + dice_total + above / 2;
    if h >= 1 {
        h
    } else {
        1
    }
}

/// Total of `count` dice of `dice` faces each, drawn fresh; zero dice
/// total zero.
fn roll_dice_total(dice: i32, count: i32) -> (total: i32)
    requires
        0 <= dice <= 10000,
        0 <= count <= 100,
    ensures
        count <= 0 || dice <= 0 ==> total == 0,
        count > 0 && dice > 0 ==> count <= total <= count * dice,
        0 <= total <= 1000000,
{
    if dice <= 0 || count <= 0 {
        return 0;
    }
    let mut total: i32 = 0;
    let mut i: i32 = 0;
    while i < count
        invariant
            0 <= i <= count,
            0 < dice <= 10000,
            0 < count <= 100,
            i <= total <= i * dice,
        decreases count - i,
    {
        proof {
            assert(i * dice <= 99 * 10000) by (nonlinear_arith)
                requires
                    0 <= i <= 99,
                    0 < dice <= 10000,
            ;
            assert((i + 1) * dice == i * dice + dice) by (nonlinear_arith);
        }
        let roll = crate::rng::roll_range(1, dice);
        total = total + roll;
        i += 1;
    }
    proof {
        assert(count * dice <= 1000000) by (nonlinear_arith)
            requires
                0 < count <= 100,
                0 < dice <= 10000,
        ;
    }
    total
}

/// Execute a skill: validate the cast, compute the per-target effects,
/// and return the outcome for the caller to apply.
///
/// The up-front rejections are exact: a cooling-down skill reports its
/// remaining ticks, then MP, HP and level are checked in that order, and
/// a targeted skill with no targets reports `NoTarget`. A cast with no
/// targets that needs none succeeds deterministically, buffing the caster
/// when the skill carries a buff duration. With targets, the cast either
/// succeeds or is fully resisted; a buff with no resist probability or a
/// pure heal on an in-range target cannot be resisted.
#[verifier::rlimit(50)]
pub fn execute_skill(
    skill: &SkillTemplate,
    caster: &CasterInfo,
    targets: &[TargetInfo],
    cooldowns: &SkillCooldowns,
    _caster_effects: &SkillEffects,
) -> (r: SkillResult)
    requires
        skill_in_bounds(*skill),
        caster_in_bounds(*caster),
        forall|j: int| 0 <= j < targets@.len() ==> target_in_bounds(#[trigger] targets@[j]),
    ensures
        cooldowns.cooldown_of(skill.skill_id as int) != 0 ==> r == (SkillResult::OnCooldown {
            ticks_left: cooldowns.cooldown_of(skill.skill_id as int),
        }),
        cooldowns.cooldown_of(skill.skill_id as int) == 0 && caster.cur_mp < spec_mp_cost(
            skill.mp_consume as int,
            caster.int_stat as int,
        ) ==> r == SkillResult::InsufficientMp,
        cooldowns.cooldown_of(skill.skill_id as int) == 0 && caster.cur_mp >= spec_mp_cost(
            skill.mp_consume as int,
            caster.int_stat as int,
        ) && caster.cur_hp <= skill.hp_consume ==> r == SkillResult::InsufficientHp,
        cooldowns.cooldown_of(skill.skill_id as int) == 0 && caster.cur_mp >= spec_mp_cost(
            skill.mp_consume as int,
            caster.int_stat as int,
        ) && caster.cur_hp > skill.hp_consume && caster.level < skill.skill_level ==> r
            == SkillResult::LevelTooLow,
        spec_checks_pass(*skill, *caster, cooldowns) && targets@.len() == 0 && skill.target_to != 0
            ==> r == SkillResult::NoTarget,
        spec_checks_pass(*skill, *caster, cooldowns) && targets@.len() == 0 && skill.target_to == 0
            ==> (r matches SkillResult::Success(o) && o.damage@.len() == 0 && (
            if skill.buff_duration > 0 {
                o.buffs@ =~= seq![
                    (
                        caster.object_id,
                        skill.skill_id,
                        (skill.buff_duration * 5) as u32,
                        skill.damage_value,
                    ),
                ]
            } else {
                o.buffs@.len() == 0
            })),
        spec_checks_pass(*skill, *caster, cooldowns) && targets@.len() > 0 ==> (r matches
            SkillResult::Success(_) || r == SkillResult::Resisted),
        spec_checks_pass(*skill, *caster, cooldowns) && targets@.len() > 0
            && spec_guaranteed_effect(*skill) && (exists|j: int|
            0 <= j < targets@.len() && spec_in_range(*skill, *caster, #[trigger] targets@[j]))
            ==> r matches SkillResult::Success(_),
        r matches SkillResult::Success(o) ==> o.mp_consumed == spec_mp_cost(
            skill.mp_consume as int,
            caster.int_stat as int,
        ) && o.hp_consumed == skill.hp_consume && o.skill_id == skill.skill_id && o.gfx_id
            == skill.cast_gfx && o.is_aoe == (skill.area > 0) && o.cooldown_ticks
            == spec_cooldown_ticks(*skill),
        r matches SkillResult::Success(o) ==> forall|k: int|
            0 <= k < o.damage@.len() ==> spec_in_range_target_id(
                *skill,
                *caster,
                targets@,
                (#[trigger] o.damage@[k]).0 as int,
            ),
        r matches SkillResult::Success(o) ==> forall|k: int|
            0 <= k < o.buffs@.len() ==> spec_in_range_target_id(
                *skill,
                *caster,
                targets@,
                (#[trigger] o.buffs@[k]).0 as int,
            ) || o.buffs@[k].0 == caster.object_id,
        r matches SkillResult::Success(o) ==> forall|k: int|
            0 <= k < o.buffs@.len() ==> (#[trigger] o.buffs@[k]).1 == skill.skill_id
                && o.buffs@[k].2 == (skill.buff_duration * 5) as u32 && o.buffs@[k].3
                == skill.damage_value,
        spec_checks_pass(*skill, *caster, cooldowns) && targets@.len() > 0
            && spec_guaranteed_effect(*skill) && skill.buff_duration > 0 && (exists|j: int|
            0 <= j < targets@.len() && spec_in_range(*skill, *caster, #[trigger] targets@[j]))
            ==> (r matches SkillResult::Success(o) && o.damage@.len() == 0 && o.buffs@.map_values(
            |b: (u32, i32, u32, i32)| b.0,
        ) == targets@.filter(in_range_pred(*skill, *caster)).map_values(
            |t: TargetInfo| t.object_id,
        )),
        spec_checks_pass(*skill, *caster, cooldowns) && targets@.len() > 0
            && spec_guaranteed_effect(*skill) && skill.buff_duration <= 0 && (exists|j: int|
            0 <= j < targets@.len() && spec_in_range(*skill, *caster, #[trigger] targets@[j]))
            ==> (r matches SkillResult::Success(o) && o.buffs@.len() == 0 && o.damage@.map_values(
            |d: (u32, i32)| d.0,
        ) == targets@.filter(in_range_pred(*skill, *caster)).map_values(
            |t: TargetInfo| t.object_id,
        )),
{
    let ticks = cooldowns.get_cooldown(skill.skill_id);
    if ticks != 0 {
        return SkillResult::OnCooldown { ticks_left: ticks };
    }
    let mp_cost = calc_mp_cost(skill.mp_consume, caster.int_stat);
    let hp_cost = skill.hp_consume;
    if caster.cur_mp < mp_cost {
        return SkillResult::InsufficientMp;
    }
    if caster.cur_hp <= hp_cost {
        return SkillResult::InsufficientHp;
    }
    if caster.level < skill.skill_level {
        return SkillResult::LevelTooLow;
    }
    let target_count = targets.len();
    if target_count == 0 && skill.target_to != 0 {
        return SkillResult::NoTarget;
    }
    let mut damage_list: Vec<(u32, i32)> = Vec::new();
    let mut buff_list: Vec<(u32, i32, u32, i32)> = Vec::new();
    let mut any_hit = false;
    let ghost rp = in_range_pred(*skill, *caster);
    proof {
        assert(targets@.take(0) =~= Seq::<TargetInfo>::empty());
        assert(Seq::<TargetInfo>::empty().filter(rp).map_values(|t: TargetInfo| t.object_id)
            =~= Seq::<u32>::empty());
    }
    let mut j: usize = 0;
    while j < target_count
        invariant
            j <= target_count,
            target_count == targets@.len(),
            skill_in_bounds(*skill),
            caster_in_bounds(*caster),
            forall|jj: int| 0 <= jj < targets@.len() ==> target_in_bounds(#[trigger] targets@[jj]),
            rp == in_range_pred(*skill, *caster),
            forall|k: int|
                0 <= k < damage_list@.len() ==> spec_in_range_target_id(
                    *skill,
                    *caster,
                    targets@,
                    (#[trigger] damage_list@[k]).0 as int,
                ),
            forall|k: int|
                0 <= k < buff_list@.len() ==> spec_in_range_target_id(
                    *skill,
                    *caster,
                    targets@,
                    (#[trigger] buff_list@[k]).0 as int,
                ),
            forall|k: int|
                0 <= k < buff_list@.len() ==> (#[trigger] buff_list@[k]).1 == skill.skill_id
                    && buff_list@[k].2 == (skill.buff_duration * 5) as u32 && buff_list@[k].3
                    == skill.damage_value,
            spec_guaranteed_effect(*skill) && (exists|jj: int|
                0 <= jj < j && spec_in_range(*skill, *caster, #[trigger] targets@[jj])) ==> any_hit,
            spec_guaranteed_effect(*skill) && skill.buff_duration > 0 ==> damage_list@.len() == 0
                && buff_list@.map_values(|b: (u32, i32, u32, i32)| b.0) == targets@.take(
                j as int,
            ).filter(rp).map_values(|t: TargetInfo| t.object_id),
            spec_guaranteed_effect(*skill) && skill.buff_duration <= 0 ==> buff_list@.len() == 0
                && damage_list@.map_values(|d: (u32, i32)| d.0) == targets@.take(j as int).filter(
                rp,
            ).map_values(|t: TargetInfo| t.object_id),
            target_count == 0 ==> buff_list@.len() == 0 && damage_list@.len() == 0 && !any_hit,
        decreases target_count - j,
    {
        let t = &targets[j];
        let dist = crate::position::Position::new(caster.x, caster.y, caster.map_id).tile_distance(
            &crate::position::Position::new(t.x, t.y, t.map_id),
        );
        let in_range = !(skill.range > 0 && dist > skill.range as i64);
        proof {
            assert(in_range == rp(targets@[j as int]));
            targets@.take(j as int).lemma_filter_push(targets@[j as int], rp);
            assert(targets@.take(j as int).push(targets@[j as int]) =~= targets@.take(j + 1));
            if !rp(targets@[j as int]) {
                assert(targets@.take(j + 1).filter(rp).map_values(|t2: TargetInfo| t2.object_id)
                    =~= targets@.take(j as int).filter(rp).map_values(
                    |t2: TargetInfo| t2.object_id,
                ));
            }
        }
        if in_range {
            if skill.damage_value > 0 || skill.damage_dice > 0 {
                let resist_roll = crate::rng::roll_range(1, 100);
                if magic_resist_check(caster.level, t.level, t.mr, resist_roll) {
                    let dice_total = roll_dice_total(skill.damage_dice, skill.damage_dice_count);
                    let damage = magic_damage_from(skill, caster, dice_total);
                    let final_damage = if t.is_undead && damage < 0 {
                        -damage
                    } else {
                        damage
                    };
                    damage_list.push((t.object_id, final_damage));
                    any_hit = true;
                    proof {
                        assert(spec_in_range_target_id(
                            *skill,
                            *caster,
                            targets@,
                            targets@[j as int].object_id as int,
                        ));
                    }
                }
            } else if skill.buff_duration > 0 {
                let landed = if skill.probability_value > 0 {
                    let resist_roll = crate::rng::roll_range(1, 100);
                    magic_resist_check(caster.level, t.level, t.mr, resist_roll)
                } else {
                    true
                };
                if landed {
                    let duration_ticks = (skill.buff_duration as u32) * 5;
                    let ghost buffs_before = buff_list@;
                    buff_list.push((t.object_id, skill.skill_id, duration_ticks, skill.damage_value));
                    any_hit = true;
                    proof {
                        assert(duration_ticks == (skill.buff_duration * 5) as u32);
                        assert(spec_in_range_target_id(
                            *skill,
                            *caster,
                            targets@,
                            targets@[j as int].object_id as int,
                        ));
                        assert(buff_list@.map_values(|b: (u32, i32, u32, i32)| b.0)
                            =~= buffs_before.map_values(|b: (u32, i32, u32, i32)| b.0).push(
                            targets@[j as int].object_id,
                        ));
                        assert(targets@.take(j + 1).filter(rp).map_values(
                            |t2: TargetInfo| t2.object_id,
                        ) =~= targets@.take(j as int).filter(rp).map_values(
                            |t2: TargetInfo| t2.object_id,
                        ).push(targets@[j as int].object_id));
                    }
                }
            } else if skill.damage_value < 0 {
                let dice_total = roll_dice_total(
                    skill.damage_dice,
                    if skill.damage_dice_count > 0 {
                        skill.damage_dice_count
                    } else {
                        1
                    },
                );
                let heal = healing_from(skill, caster, dice_total);
                let ghost damage_before = damage_list@;
                damage_list.push((t.object_id, -heal));
                any_hit = true;
                proof {
                    assert(spec_in_range_target_id(
                        *skill,
                        *caster,
                        targets@,
                        targets@[j as int].object_id as int,
                    ));
                    assert(damage_list@.map_values(|d: (u32, i32)| d.0)
                        =~= damage_before.map_values(|d: (u32, i32)| d.0).push(
                        targets@[j as int].object_id,
                    ));
                    assert(targets@.take(j + 1).filter(rp).map_values(
                        |t2: TargetInfo| t2.object_id,
                    ) =~= targets@.take(j as int).filter(rp).map_values(
                        |t2: TargetInfo| t2.object_id,
                    ).push(targets@[j as int].object_id));
                }
            }
        }
        j += 1;
    }
    proof {
        assert(targets@.take(target_count as int) =~= targets@);
    }
    if target_count == 0 && skill.buff_duration > 0 && skill.target_to == 0 {
        let duration_ticks = (skill.buff_duration as u32) * 5;
        buff_list.push((caster.object_id, skill.skill_id, duration_ticks, skill.damage_value));
        any_hit = true;
        proof {
            assert(duration_ticks == (skill.buff_duration * 5) as u32);
            assert(buff_list@ =~= seq![
                (caster.object_id, skill.skill_id, (skill.buff_duration * 5) as u32, skill.damage_value),
            ]);
        }
    }
    if !any_hit && target_count != 0 {
        return SkillResult::Resisted;
    }
    let cooldown_ticks: u32 = if skill.reuse_delay > 0 {
        (skill.reuse_delay as u32) / 200
    } else {
        0
    };
    SkillResult::Success(
        SkillOutcome {
            damage: damage_list,
            buffs: buff_list,
            mp_consumed: mp_cost,
            hp_consumed: hp_cost,
            gfx_id: skill.cast_gfx,
            is_aoe: skill.area > 0,
            skill_id: skill.skill_id,
            cooldown_ticks,
        },
    )
}

/// Flat damage bonus from active buffs: shadow fang +5, blazing weapon
/// +5, imitation magic weapon +2, and the royal brave-weapon buff +10.
pub fn calc_buff_flat_bonus(effects: &SkillEffects) -> (bonus: i32)
    ensures
        bonus == (if effects.spec_has_effect(107) {
            5int
        } else {
            0int
        }) + (if effects.spec_has_effect(114) {
            5int
        } else {
            0int
        }) + (if effects.spec_has_effect(12) {
            2int
        } else {
            0int
        }) + (if effects.spec_has_effect(119) {
            10int
        } else {
            0int
        }),
{
    let mut bonus: i32 = 0;
    if effects.has_effect(107) {
        bonus += 5;
    }
    if effects.has_effect(114) {
        bonus += 5;
    }
    if effects.has_effect(12) {
        bonus += 2;
    }
    if effects.has_effect(119) {
        bonus += 10;
    }
    bonus
}

/// AC change from active debuffs on a target: guard break lowers AC by
/// 10, precise target by 3.
pub fn calc_debuff_ac_modifier(target_effects: &SkillEffects) -> (ac_change: i32)
    ensures
        ac_change == (if target_effects.spec_has_effect(142) {
            -10int
        } else {
            0int
        }) + (if target_effects.spec_has_effect(113) {
            -3int
        } else {
            0int
        }),
{
    let mut ac_change: i32 = 0;
    if target_effects.has_effect(142) {
        ac_change -= 10;
    }
    if target_effects.has_effect(113) {
        ac_change -= 3;
    }
    ac_change
}

/// Whether the actor is stunned, sleeping or petrified and cannot act.
pub fn is_incapacitated(effects: &SkillEffects) -> (r: bool)
    ensures
        r == (effects.spec_has_effect(120) || effects.spec_has_effect(103)
            || effects.spec_has_effect(153)),
{
    effects.has_effect(120) || effects.has_effect(103) || effects.has_effect(153)
}

/// Whether the actor is silenced or confused and cannot cast.
pub fn is_silenced(effects: &SkillEffects) -> (r: bool)
    ensures
        r == (effects.spec_has_effect(132) || effects.spec_has_effect(154)),
{
    effects.has_effect(132) || effects.has_effect(154)
}

} // verus!

//! Siege units: player-operated catapults, castle guards built from the
//! official guard roster, and the manager that ticks them together.

use vstd::prelude::*;

verus! {

/// Bomb item consumed by each catapult shot.
pub const BOMB_ITEM_ID: i32 = 41900;

/// Catapult reload time in ticks (10 seconds at 200 ms per tick).
pub const CATAPULT_RELOAD_TICKS: u32 = 50;

/// Which side of a siege a catapult serves; it constrains the directions
/// the catapult may bombard.
#[derive(Debug, Clone, Copy, PartialEq, Eq, Structural)]
pub enum CatapultSide {
    /// Defender catapults fire outward past the outer gate.
    Defender,
    /// Attacker catapults fire toward the inner gate and towers.
    Attacker,
}

/// State of one catapult.
#[derive(Debug, Clone, Copy, PartialEq, Eq, Structural)]
pub struct CatapultState {
    pub object_id: u32,
    pub side: CatapultSide,
    pub castle_id: i32,
    pub x: i32,
    pub y: i32,
    pub map_id: i32,
    pub cur_hp: i32,
    pub max_hp: i32,
    /// Object id of the royal currently operating it; 0 when unmanned.
    pub operator_id: u32,
    /// Remaining reload ticks before the next shot.
    pub reload_remaining: u32,
    pub destroyed: bool,
}

/// Outcome of asking a catapult to fire.
#[derive(Debug, PartialEq, Eq, Structural)]
pub enum CatapultAction {
    /// The shot goes out; it damages only players and player-owned
    /// summons, never gates or towers.
    Fire { impact_x: i32, impact_y: i32, damage: i32, splash_radius: i32 },
    /// Still reloading.
    Reloading { ticks_left: u32 },
    /// Nobody is operating the catapult.
    NoOperator,
    /// The would-be operator is not a royal.
    NotRoyal,
    /// The catapult has been destroyed.
    Destroyed,
    /// The operator carries no bombs.
    NoBombs,
}

impl CatapultState {
    /// Fresh catapult, as built when a siege starts or the castle changes
    /// hands.
    pub fn new(object_id: u32, castle_id: i32, side: CatapultSide, x: i32, y: i32, map_id: i32) -> (c:
        CatapultState)
        ensures
            c == (CatapultState {
                object_id,
                side,
                castle_id,
                x,
                y,
                map_id,
                cur_hp: 500,
                max_hp: 500,
                operator_id: 0,
                reload_remaining: 0,
                destroyed: false,
            }),
    {
        CatapultState {
            object_id,
            side,
            castle_id,
            x,
            y,
            map_id,
            cur_hp: 500,
            max_hp: 500,
            operator_id: 0,
            reload_remaining: 0,
            destroyed: false,
        }
    }

    /// A player mounts the catapult; only a royal may operate one, and
    /// only while it is intact and unmanned.
    pub fn mount(&mut self, player_id: u32, is_royal: bool) -> (r: bool)
        ensures
            r == (!old(self).destroyed && old(self).operator_id == 0 && is_royal),
            r ==> *final(self) == (CatapultState { operator_id: player_id, ..*old(self) }),
            !r ==> *final(self) == *old(self),
    {
        if self.destroyed || self.operator_id != 0 || !is_royal {
            return false;
        }
        self.operator_id = player_id;
        true
    }

    /// The operator dismounts.
    pub fn dismount(&mut self)
        ensures
            *final(self) == (CatapultState { operator_id: 0, ..*old(self) }),
    {
        self.operator_id = 0;
    }

    /// Try to fire at a target tile. The caller must have checked the
    /// operator's inventory for a bomb and reports it as `has_bomb`.
    pub fn try_fire(&mut self, target_x: i32, target_y: i32, has_bomb: bool) -> (r: CatapultAction)
        ensures
            old(self).destroyed ==> r == CatapultAction::Destroyed && *final(self) == *old(self),
            !old(self).destroyed && old(self).operator_id == 0 ==> r == CatapultAction::NoOperator
                && *final(self) == *old(self),
            !old(self).destroyed && old(self).operator_id != 0 && old(self).reload_remaining > 0
                ==> r == (CatapultAction::Reloading { ticks_left: old(self).reload_remaining })
                && *final(self) == *old(self),
            !old(self).destroyed && old(self).operator_id != 0 && old(self).reload_remaining == 0
                && !has_bomb ==> r == CatapultAction::NoBombs && *final(self) == *old(self),
            !old(self).destroyed && old(self).operator_id != 0 && old(self).reload_remaining == 0
                && has_bomb ==> r == (CatapultAction::Fire {
                impact_x: target_x,
                impact_y: target_y,
                damage: 80,
                splash_radius: 3,
            }) && *final(self) == (CatapultState {
                reload_remaining: CATAPULT_RELOAD_TICKS,
                ..*old(self)
            }),
    {
        if self.destroyed {
            return CatapultAction::Destroyed;
        }
        if self.operator_id == 0 {
            return CatapultAction::NoOperator;
        }
        if self.reload_remaining > 0 {
            return CatapultAction::Reloading { ticks_left: self.reload_remaining };
        }
        if !has_bomb {
            return CatapultAction::NoBombs;
        }
        self.reload_remaining = CATAPULT_RELOAD_TICKS;
        CatapultAction::Fire { impact_x: target_x, impact_y: target_y, damage: 80, splash_radius: 3 }
    }

    /// One tick of reload progress.
    pub fn tick(&mut self)
        ensures
            *final(self) == (CatapultState { reload_remaining: spec_dec_u32(old(self).reload_remaining), ..*old(self) }),
    {
        if self.reload_remaining > 0 {
            self.reload_remaining = self.reload_remaining - 1;
        }
    }

    /// Apply damage; the catapult is destroyed when its hit points reach
    /// zero, and a destroyed catapult throws its operator off.
    /// Returns true when this hit destroyed it.
    pub fn receive_damage(&mut self, damage: i32) -> (destroyed: bool)
        requires
            i32::MIN <= old(self).cur_hp - damage <= i32::MAX,
        ensures
            destroyed == (old(self).cur_hp - damage <= 0),
            destroyed ==> *final(self) == (CatapultState {
                cur_hp: 0,
                destroyed: true,
                operator_id: 0,
                ..*old(self)
            }),
            !destroyed ==> *final(self) == (CatapultState {
                cur_hp: (old(self).cur_hp - damage) as i32,
                ..*old(self)
            }),
    {
        let nh = self.cur_hp - damage;
        if nh <= 0 {
            self.cur_hp = 0;
            self.destroyed = true;
            self.operator_id = 0;
            true
        } else {
            self.cur_hp = nh;
            false
        }
    }

    /// Full automatic repair, performed when a siege starts or the castle
    /// changes hands.
    pub fn repair(&mut self)
        ensures
            *final(self) == (CatapultState {
                cur_hp: old(self).max_hp,
                destroyed: false,
                operator_id: 0,
                reload_remaining: 0,
                ..*old(self)
            }),
    {
        self.cur_hp = self.max_hp;
        self.destroyed = false;
        self.operator_id = 0;
        self.reload_remaining = 0;
    }
}

/// Saturating decrement used by the per-tick cooldown counters.
pub open spec fn spec_dec_u32(v: u32) -> u32 {
    if v > 0 {
        (v - 1) as u32
    } else {
        0
    }
}

/// Castle guard roster entries.
#[derive(Debug, Clone, Copy, PartialEq, Eq, Structural)]
pub enum GuardType {
    /// The king, Aden castle only.
    King,
    /// Royal guard.
    RoyalGuard,
    /// Royal guard knight.
    RoyalKnight,
    /// Royal guard priest, non-Aden castles.
    RoyalPriest,
    /// Watch archer, Aden castle only.
    GuardArcher,
    /// Watch spearman, Aden castle only.
    GuardSpearman,
    /// Watch warrior, Aden castle only.
    GuardWarrior,
}

/// Immutable roster data for one guard kind at one castle tier.
#[derive(Debug, Clone, Copy)]
pub struct GuardTemplate {
    pub guard_type: GuardType,
    pub name: &'static str,
    pub level: i32,
    pub hp: i32,
    pub is_ranged: bool,
    pub attack_range: i32,
    pub damage_min: i32,
    pub damage_max: i32,
    /// Appears only at Aden castle.
    pub aden_only: bool,
    /// Appears at the non-Aden castles.
    pub non_aden: bool,
}

/// Roster shape of one template entry, used to pin the official table.
pub open spec fn template_is(
    t: GuardTemplate,
    guard_type: GuardType,
    level: int,
    hp: int,
    is_ranged: bool,
    attack_range: int,
    damage_min: int,
    damage_max: int,
    aden_only: bool,
) -> bool {
    &&& t.guard_type == guard_type
    &&& t.level == level
    &&& t.hp == hp
    &&& t.is_ranged == is_ranged
    &&& t.attack_range == attack_range
    &&& t.damage_min == damage_min
    &&& t.damage_max == damage_max
    &&& t.aden_only == aden_only
    &&& t.non_aden == !aden_only
}

/// The official guard roster: the Aden-only guard kinds first, the Aden
/// royal retinue, and the retinue of the other castles.
pub fn official_guard_templates() -> (r: Vec<GuardTemplate>)
    ensures
        r@.len() == 9,
        template_is(r@[0], GuardType::King, 75, 8403, false, 1, 30, 60, true),
        template_is(r@[1], GuardType::GuardArcher, 66, 10572, true, 10, 20, 45, true),
        template_is(r@[2], GuardType::GuardSpearman, 66, 10572, false, 2, 25, 50, true),
        template_is(r@[3], GuardType::GuardWarrior, 66, 10572, false, 1, 28, 55, true),
        template_is(r@[4], GuardType::RoyalGuard, 68, 11049, false, 1, 25, 50, true),
        template_is(r@[5], GuardType::RoyalKnight, 70, 11513, false, 1, 30, 60, true),
        template_is(r@[6], GuardType::RoyalGuard, 75, 8403, false, 1, 30, 55, false),
        template_is(r@[7], GuardType::RoyalKnight, 68, 11049, false, 1, 25, 50, false),
        template_is(r@[8], GuardType::RoyalPriest, 70, 11513, false, 1, 20, 40, false),
{
    let mut r: Vec<GuardTemplate> = Vec::new();
    r.push(
        GuardTemplate {
            guard_type: GuardType::King,
            name: "\u{570b}\u{738b}",
            level: 75,
            hp: 8403,
            is_ranged: false,
            attack_range: 1,
            damage_min: 30,
            damage_max: 60,
            aden_only: true,
            non_aden: false,
        },
    );
    r.push(
        GuardTemplate {
            guard_type: GuardType::GuardArcher,
            name: "\u{8b66}\u{885b}\u{5f13}\u{7bad}\u{624b}",
            level: 66,
            hp: 10572,
            is_ranged: true,
            attack_range: 10,
            damage_min: 20,
            damage_max: 45,
            aden_only: true,
            non_aden: false,
        },
    );
    r.push(
        GuardTemplate {
            guard_type: GuardType::GuardSpearman,
            name: "\u{8b66}\u{885b}\u{69cd}\u{5175}",
            level: 66,
            hp: 10572,
            is_ranged: false,
            attack_range: 2,
            damage_min: 25,
            damage_max: 50,
            aden_only: true,
            non_aden: false,
        },
    );
    r.push(
        GuardTemplate {
            guard_type: GuardType::GuardWarrior,
            name: "\u{8b66}\u{885b}\u{6230}\u{58eb}",
            level: 66,
            hp: 10572,
            is_ranged: false,
            attack_range: 1,
            damage_min: 28,
            damage_max: 55,
            aden_only: true,
            non_aden: false,
        },
    );
    r.push(
        GuardTemplate {
            guard_type: GuardType::RoyalGuard,
            name: "\u{89aa}\u{885b}\u{968a}",
            level: 68,
            hp: 11049,
            is_ranged: false,
            attack_range: 1,
            damage_min: 25,
            damage_max: 50,
            aden_only: true,
            non_aden: false,
        },
    );
    r.push(
        GuardTemplate {
            guard_type: GuardType::RoyalKnight,
            name: "\u{89aa}\u{885b}\u{968a}\u{9a0e}\u{58eb}",
            level: 70,
            hp: 11513,
            is_ranged: false,
            attack_range: 1,
            damage_min: 30,
            damage_max: 60,
            aden_only: true,
            non_aden: false,
        },
    );
    r.push(
        GuardTemplate {
            guard_type: GuardType::RoyalGuard,
            name: "\u{89aa}\u{885b}\u{968a}",
            level: 75,
            hp: 8403,
            is_ranged: false,
            attack_range: 1,
            damage_min: 30,
            damage_max: 55,
            aden_only: false,
            non_aden: true,
        },
    );
    r.push(
        GuardTemplate {
            guard_type: GuardType::RoyalKnight,
            name: "\u{89aa}\u{885b}\u{968a}\u{9a0e}\u{58eb}",
            level: 68,
            hp: 11049,
            is_ranged: false,
            attack_range: 1,
            damage_min: 25,
            damage_max: 50,
            aden_only: false,
            non_aden: true,
        },
    );
    r.push(
        GuardTemplate {
            guard_type: GuardType::RoyalPriest,
            name: "\u{89aa}\u{885b}\u{968a}\u{7267}\u{5e2b}",
            level: 70,
            hp: 11513,
            is_ranged: false,
            attack_range: 1,
            damage_min: 20,
            damage_max: 40,
            aden_only: false,
            non_aden: true,
        },
    );
    r
}

/// One live guard.
#[derive(Debug, Clone, Copy, PartialEq, Eq, Structural)]
pub struct GuardState {
    pub object_id: u32,
    pub guard_type: GuardType,
    pub castle_id: i32,
    pub x: i32,
    pub y: i32,
    pub map_id: i32,
    pub heading: i32,
    pub cur_hp: i32,
    pub max_hp: i32,
    pub level: i32,
    pub target_id: u32,
    pub atk_cooldown: u32,
    pub is_alive: bool,
    pub damage_min: i32,
    pub damage_max: i32,
    pub attack_range: i32,
}

impl GuardState {
    /// Instantiate a guard from a roster entry at a spawn point.
    pub fn from_template(
        object_id: u32,
        t: &GuardTemplate,
        castle_id: i32,
        x: i32,
        y: i32,
        map_id: i32,
    ) -> (g: GuardState)
        ensures
            g == (GuardState {
                object_id,
                guard_type: t.guard_type,
                castle_id,
                x,
                y,
                map_id,
                heading: 0,
                cur_hp: t.hp,
                max_hp: t.hp,
                level: t.level,
                target_id: 0,
                atk_cooldown: 0,
                is_alive: true,
                damage_min: t.damage_min,
                damage_max: t.damage_max,
                attack_range: t.attack_range,
            }),
    {
        GuardState {
            object_id,
            guard_type: t.guard_type,
            castle_id,
            x,
            y,
            map_id,
            heading: 0,
            cur_hp: t.hp,
            max_hp: t.hp,
            level: t.level,
            target_id: 0,
            atk_cooldown: 0,
            is_alive: true,
            damage_min: t.damage_min,
            damage_max: t.damage_max,
            attack_range: t.attack_range,
        }
    }

    /// One tick of attack-cooldown progress.
    pub fn tick(&mut self)
        ensures
            *final(self) == (GuardState { atk_cooldown: spec_dec_u32(old(self).atk_cooldown), ..*old(self) }),
    {
        if self.atk_cooldown > 0 {
            self.atk_cooldown = self.atk_cooldown - 1;
        }
    }

    /// Swing at the current target: a dead, idle or cooling-down guard
    /// deals 0, otherwise the damage is drawn from the guard's damage
    /// range and a 2-second cooldown starts.
    pub fn try_attack(&mut self) -> (damage: i32)
        requires
            old(self).damage_min <= old(self).damage_max,
        ensures
            (!old(self).is_alive || old(self).target_id == 0 || old(self).atk_cooldown > 0) ==> damage
                == 0 && *final(self) == *old(self),
            old(self).is_alive && old(self).target_id != 0 && old(self).atk_cooldown == 0 ==> old(
                self,
            ).damage_min <= damage <= old(self).damage_max && *final(self) == (GuardState {
                atk_cooldown: 10,
                ..*old(self)
            }),
    {
        if !self.is_alive || self.target_id == 0 || self.atk_cooldown > 0 {
            return 0;
        }
        self.atk_cooldown = 10;
        crate::rng::roll_range(self.damage_min, self.damage_max)
    }

    /// Apply damage; a guard that drops to zero hit points dies and loses
    /// its target. Returns true when the guard is dead after the hit.
    pub fn receive_damage(&mut self, damage: i32) -> (dead: bool)
        requires
            old(self).is_alive ==> i32::MIN <= old(self).cur_hp - damage <= i32::MAX,
        ensures
            !old(self).is_alive ==> dead && *final(self) == *old(self),
            old(self).is_alive ==> dead == (old(self).cur_hp - damage <= 0),
            old(self).is_alive && dead ==> *final(self) == (GuardState {
                cur_hp: 0,
                is_alive: false,
                target_id: 0,
                ..*old(self)
            }),
            old(self).is_alive && !dead ==> *final(self) == (GuardState {
                cur_hp: (old(self).cur_hp - damage) as i32,
                ..*old(self)
            }),
    {
        if !self.is_alive {
            return true;
        }
        let nh = self.cur_hp - damage;
        if nh <= 0 {
            self.cur_hp = 0;
            self.is_alive = false;
            self.target_id = 0;
            true
        } else {
            self.cur_hp = nh;
            false
        }
    }
}

/// All catapults and guards of the running sieges.
pub struct SiegeUnitManager {
    pub catapults: Vec<CatapultState>,
    pub guards: Vec<GuardState>,
}

/// A guard counted by `alive_guard_count`: alive and serving the castle.
pub open spec fn guard_counted(g: GuardState, castle_id: i32) -> bool {
    g.castle_id == castle_id && g.is_alive
}

impl SiegeUnitManager {
    pub fn new() -> (m: SiegeUnitManager)
        ensures
            m.catapults@.len() == 0,
            m.guards@.len() == 0,
    {
        SiegeUnitManager { catapults: Vec::new(), guards: Vec::new() }
    }

    /// Register a catapult.
    pub fn add_catapult(&mut self, c: CatapultState)
        ensures
            final(self).catapults@ == old(self).catapults@.push(c),
            final(self).guards@ == old(self).guards@,
    {
        self.catapults.push(c);
    }

    /// Register a guard.
    pub fn add_guard(&mut self, g: GuardState)
        ensures
            final(self).guards@ == old(self).guards@.push(g),
            final(self).catapults@ == old(self).catapults@,
    {
        self.guards.push(g);
    }

    /// Repair every catapult of one castle, as happens when its siege
    /// starts; other castles' catapults are untouched.
    pub fn repair_all_catapults(&mut self, castle_id: i32)
        ensures
            final(self).catapults@.len() == old(self).catapults@.len(),
            forall|i: int|
                0 <= i < old(self).catapults@.len() ==> #[trigger] final(self).catapults@[i] == (
                if old(self).catapults@[i].castle_id == castle_id {
                    CatapultState {
                        cur_hp: old(self).catapults@[i].max_hp,
                        destroyed: false,
                        operator_id: 0,
                        reload_remaining: 0,
                        ..old(self).catapults@[i]
                    }
                } else {
                    old(self).catapults@[i]
                }),
            final(self).guards@ == old(self).guards@,
    {
        let n = self.catapults.len();
        let mut i: usize = 0;
        while i < n
            invariant
                i <= n,
                n == self.catapults@.len(),
                self.catapults@.len() == old(self).catapults@.len(),
                self.guards@ == old(self).guards@,
                forall|j: int|
                    0 <= j < i ==> #[trigger] self.catapults@[j] == (if old(
                        self,
                    ).catapults@[j].castle_id == castle_id {
                        CatapultState {
                            cur_hp: old(self).catapults@[j].max_hp,
                            destroyed: false,
                            operator_id: 0,
                            reload_remaining: 0,
                            ..old(self).catapults@[j]
                        }
                    } else {
                        old(self).catapults@[j]
                    }),
                forall|j: int|
                    i <= j < n ==> #[trigger] self.catapults@[j] == old(self).catapults@[j],
            decreases n - i,
        {
            if self.catapults[i].castle_id == castle_id {
                let mut c = self.catapults[i];
                c.repair();
                self.catapults.set(i, c);
            }
            i += 1;
        }
    }

    /// One tick of reload and cooldown progress for every unit.
    pub fn tick(&mut self)
        ensures
            final(self).catapults@.len() == old(self).catapults@.len(),
            final(self).guards@.len() == old(self).guards@.len(),
            forall|i: int|
                0 <= i < old(self).catapults@.len() ==> #[trigger] final(self).catapults@[i] == (
                CatapultState {
                    reload_remaining: spec_dec_u32(old(self).catapults@[i].reload_remaining),
                    ..old(self).catapults@[i]
                }),
            forall|i: int|
                0 <= i < old(self).guards@.len() ==> #[trigger] final(self).guards@[i] == (
                GuardState {
                    atk_cooldown: spec_dec_u32(old(self).guards@[i].atk_cooldown),
                    ..old(self).guards@[i]
                }),
    {
        let n = self.catapults.len();
        let mut i: usize = 0;
        while i < n
            invariant
                i <= n,
                n == self.catapults@.len(),
                self.catapults@.len() == old(self).catapults@.len(),
                self.guards@ == old(self).guards@,
                forall|j: int|
                    0 <= j < i ==> #[trigger] self.catapults@[j] == (CatapultState {
                        reload_remaining: spec_dec_u32(old(self).catapults@[j].reload_remaining),
                        ..old(self).catapults@[j]
                    }),
                forall|j: int|
                    i <= j < n ==> #[trigger] self.catapults@[j] == old(self).catapults@[j],
            decreases n - i,
        {
            let mut c = self.catapults[i];
            c.tick();
            self.catapults.set(i, c);
            i += 1;
        }
        let m = self.guards.len();
        let mut k: usize = 0;
        while k < m
            invariant
                k <= m,
                m == self.guards@.len(),
                self.guards@.len() == old(self).guards@.len(),
                self.catapults@.len() == old(self).catapults@.len(),
                forall|j: int|
                    0 <= j < self.catapults@.len() ==> #[trigger] self.catapults@[j] == (
                    CatapultState {
                        reload_remaining: spec_dec_u32(old(self).catapults@[j].reload_remaining),
                        ..old(self).catapults@[j]
                    }),
                forall|j: int|
                    0 <= j < k ==> #[trigger] self.guards@[j] == (GuardState {
                        atk_cooldown: spec_dec_u32(old(self).guards@[j].atk_cooldown),
                        ..old(self).guards@[j]
                    }),
                forall|j: int| k <= j < m ==> #[trigger] self.guards@[j] == old(self).guards@[j],
            decreases m - k,
        {
            let mut g = self.guards[k];
            g.tick();
            self.guards.set(k, g);
            k += 1;
        }
    }

    /// Number of guards of one castle still alive.
    pub fn alive_guard_count(&self, castle_id: i32) -> (count: usize)
        ensures
            count == self.guards@.filter(|g: GuardState| guard_counted(g, castle_id)).len(),
    {
        let n = self.guards.len();
        let mut count: usize = 0;
        let mut i: usize = 0;
        proof {
            assert(self.guards@.take(0) =~= Seq::<GuardState>::empty());
            assert(Seq::<GuardState>::empty().filter(|g: GuardState| guard_counted(g, castle_id))
                =~= Seq::<GuardState>::empty());
        }
        while i < n
            invariant
                i <= n,
                n == self.guards@.len(),
                count == self.guards@.take(i as int).filter(
                    |g: GuardState| guard_counted(g, castle_id),
                ).len(),
                count <= i,
            decreases n - i,
        {
            proof {
                self.guards@.take(i as int).lemma_filter_len_push(
                    |g: GuardState| guard_counted(g, castle_id),
                    self.guards@[i as int],
                );
                assert(self.guards@.take(i as int).push(self.guards@[i as int]) =~= self.guards@.take(
                    i + 1,
                ));
            }
            if self.guards[i].castle_id == castle_id && self.guards[i].is_alive {
                count += 1;
            }
            i += 1;
        }
        proof {
            assert(self.guards@.take(n as int) =~= self.guards@);
        }
        count
    }
}

} // verus!

//! The fire-god artisan: smelting enchanted gear into crystals and
//! crafting weapons and armor from contracts plus crystals.

use vstd::prelude::*;

verus! {

/// Fire-god crystal item id.
pub const VULCAN_CRYSTAL_ID: i32 = 41246;

/// Fire-god contract item id.
pub const VULCAN_CONTRACT_ID: i32 = 41247;

/// Fire-god hammer item id; raises crafting success rates.
pub const VULCAN_HAMMER_ID: i32 = 41248;

/// Artisan NPC location.
pub const VULCAN_NPC_X: i32 = 33456;

pub const VULCAN_NPC_Y: i32 = 32776;

pub const VULCAN_NPC_MAP: i32 = 4;

/// One smeltable item: which enchant levels it may be smelted at and how
/// many crystals each level yields.
#[derive(Debug, Clone)]
pub struct SmeltEntry {
    pub item_name: &'static str,
    pub item_id: i32,
    pub is_weapon: bool,
    pub min_enchant: i32,
    /// Pairs of (enchant level, crystals yielded).
    pub crystal_by_enchant: Vec<(i32, i32)>,
}

/// Shape of one smelt-table entry, used to pin the official tables.
pub open spec fn smelt_entry_is(
    e: SmeltEntry,
    item_id: int,
    is_weapon: bool,
    min_enchant: int,
    pairs: Seq<(i32, i32)>,
) -> bool {
    &&& e.item_id == item_id
    &&& e.is_weapon == is_weapon
    &&& e.min_enchant == min_enchant
    &&& e.crystal_by_enchant@ == pairs
}

/// Official armor smelt data.
pub fn armor_smelt_table() -> (r: Vec<SmeltEntry>)
    ensures
        r@.len() == 3,
        smelt_entry_is(
            r@[0],
            20011,
            false,
            4,
            seq![(4, 1), (5, 3), (6, 7), (7, 13), (8, 23), (9, 39), (10, 65)],
        ),
        smelt_entry_is(
            r@[1],
            20164,
            false,
            4,
            seq![(4, 9), (5, 25), (6, 55), (7, 107), (8, 189), (9, 353), (10, 583)],
        ),
        smelt_entry_is(
            r@[2],
            20013,
            false,
            4,
            seq![(4, 8), (5, 22), (6, 49), (7, 95), (8, 168), (9, 311), (10, 518)],
        ),
{
    let mut r: Vec<SmeltEntry> = Vec::new();
    r.push(
        SmeltEntry {
            item_name: "\u{91d1}\u{5c6c}\u{76d4}\u{7532}",
            item_id: 20011,
            is_weapon: false,
            min_enchant: 4,
            crystal_by_enchant: vec![(4, 1), (5, 3), (6, 7), (7, 13), (8, 23), (9, 39), (10, 65)],
        },
    );
    r.push(
        SmeltEntry {
            item_name: "\u{529b}\u{91cf}\u{624b}\u{5957}",
            item_id: 20164,
            is_weapon: false,
            min_enchant: 4,
            crystal_by_enchant: vec![
                (4, 9),
                (5, 25),
                (6, 55),
                (7, 107),
                (8, 189),
                (9, 353),
                (10, 583),
            ],
        },
    );
    r.push(
        SmeltEntry {
            item_name: "\u{6cd5}\u{5e2b}\u{4e4b}\u{5e3d}",
            item_id: 20013,
            is_weapon: false,
            min_enchant: 4,
            crystal_by_enchant: vec![
                (4, 8),
                (5, 22),
                (6, 49),
                (7, 95),
                (8, 168),
                (9, 311),
                (10, 518),
            ],
        },
    );
    r
}

/// Official weapon smelt data.
pub fn weapon_smelt_table() -> (r: Vec<SmeltEntry>)
    ensures
        r@.len() == 3,
        smelt_entry_is(
            r@[0],
            4,
            true,
            6,
            seq![(6, 2), (7, 5), (8, 9), (9, 16), (10, 27), (11, 37), (12, 48)],
        ),
        smelt_entry_is(
            r@[1],
            54,
            true,
            6,
            seq![(6, 10), (7, 22), (8, 42), (9, 72), (10, 120), (11, 175), (12, 240)],
        ),
        smelt_entry_is(
            r@[2],
            64,
            true,
            6,
            seq![(6, 13), (7, 28), (8, 54), (9, 93), (10, 155), (11, 225), (12, 312)],
        ),
{
    let mut r: Vec<SmeltEntry> = Vec::new();
    r.push(
        SmeltEntry {
            item_name: "\u{9577}\u{528d}",
            item_id: 4,
            is_weapon: true,
            min_enchant: 6,
            crystal_by_enchant: vec![(6, 2), (7, 5), (8, 9), (9, 16), (10, 27), (11, 37), (12, 48)],
        },
    );
    r.push(
        SmeltEntry {
            item_name: "\u{745f}\u{9b6f}\u{57fa}\u{4e4b}\u{528d}",
            item_id: 54,
            is_weapon: true,
            min_enchant: 6,
            crystal_by_enchant: vec![
                (6, 10),
                (7, 22),
                (8, 42),
                (9, 72),
                (10, 120),
                (11, 175),
                (12, 240),
            ],
        },
    );
    r.push(
        SmeltEntry {
            item_name: "\u{5927}\u{99ac}\u{58eb}\u{9769}\u{96d9}\u{5200}",
            item_id: 64,
            is_weapon: true,
            min_enchant: 6,
            crystal_by_enchant: vec![
                (6, 13),
                (7, 28),
                (8, 54),
                (9, 93),
                (10, 155),
                (11, 225),
                (12, 312),
            ],
        },
    );
    r
}

/// Crystals yielded by smelting one item at one enchant level, `None`
/// where the item or the level cannot be smelted. This is the whole smelt
/// table as a function.
pub open spec fn spec_smelt_crystals(item_id: int, enchant: int) -> Option<i32> {
    if item_id == 20011 {
        if enchant == 4 {
            Some(1i32)
        } else if enchant == 5 {
            Some(3i32)
        } else if enchant == 6 {
            Some(7i32)
        } else if enchant == 7 {
            Some(13i32)
        } else if enchant == 8 {
            Some(23i32)
        } else if enchant == 9 {
            Some(39i32)
        } else if enchant == 10 {
            Some(65i32)
        } else {
            None
        }
    } else if item_id == 20164 {
        if enchant == 4 {
            Some(9i32)
        } else if enchant == 5 {
            Some(25i32)
        } else if enchant == 6 {
            Some(55i32)
        } else if enchant == 7 {
            Some(107i32)
        } else if enchant == 8 {
            Some(189i32)
        } else if enchant == 9 {
            Some(353i32)
        } else if enchant == 10 {
            Some(583i32)
        } else {
            None
        }
    } else if item_id == 20013 {
        if enchant == 4 {
            Some(8i32)
        } else if enchant == 5 {
            Some(22i32)
        } else if enchant == 6 {
            Some(49i32)
        } else if enchant == 7 {
            Some(95i32)
        } else if enchant == 8 {
            Some(168i32)
        } else if enchant == 9 {
            Some(311i32)
        } else if enchant == 10 {
            Some(518i32)
        } else {
            None
        }
    } else if item_id == 4 {
        if enchant == 6 {
            Some(2i32)
        } else if enchant == 7 {
            Some(5i32)
        } else if enchant == 8 {
            Some(9i32)
        } else if enchant == 9 {
            Some(16i32)
        } else if enchant == 10 {
            Some(27i32)
        } else if enchant == 11 {
            Some(37i32)
        } else if enchant == 12 {
            Some(48i32)
        } else {
            None
        }
    } else if item_id == 54 {
        if enchant == 6 {
            Some(10i32)
        } else if enchant == 7 {
            Some(22i32)
        } else if enchant == 8 {
            Some(42i32)
        } else if enchant == 9 {
            Some(72i32)
        } else if enchant == 10 {
            Some(120i32)
        } else if enchant == 11 {
            Some(175i32)
        } else if enchant == 12 {
            Some(240i32)
        } else {
            None
        }
    } else if item_id == 64 {
        if enchant == 6 {
            Some(13i32)
        } else if enchant == 7 {
            Some(28i32)
        } else if enchant == 8 {
            Some(54i32)
        } else if enchant == 9 {
            Some(93i32)
        } else if enchant == 10 {
            Some(155i32)
        } else if enchant == 11 {
            Some(225i32)
        } else if enchant == 12 {
            Some(312i32)
        } else {
            None
        }
    } else {
        None
    }
}

/// Crystals yielded by smelting `item_id` at `enchant_level`; `None` means
/// the item is not smeltable at that level (unknown item, below the
/// minimum enchant, or above the table's top level).
pub fn calc_smelt_crystals(item_id: i32, enchant_level: i32) -> (r: Option<i32>)
    ensures
        r == spec_smelt_crystals(item_id as int, enchant_level as int),
{
    let mut tables = armor_smelt_table();
    let mut weapons = weapon_smelt_table();
    tables.append(&mut weapons);
    let n = tables.len();
    let mut i: usize = 0;
    while i < n
        invariant
            i <= n,
            n == 6,
            tables@.len() == 6,
            smelt_entry_is(
                tables@[0],
                20011,
                false,
                4,
                seq![(4, 1), (5, 3), (6, 7), (7, 13), (8, 23), (9, 39), (10, 65)],
            ),
            smelt_entry_is(
                tables@[1],
                20164,
                false,
                4,
                seq![(4, 9), (5, 25), (6, 55), (7, 107), (8, 189), (9, 353), (10, 583)],
            ),
            smelt_entry_is(
                tables@[2],
                20013,
                false,
                4,
                seq![(4, 8), (5, 22), (6, 49), (7, 95), (8, 168), (9, 311), (10, 518)],
            ),
            smelt_entry_is(
                tables@[3],
                4,
                true,
                6,
                seq![(6, 2), (7, 5), (8, 9), (9, 16), (10, 27), (11, 37), (12, 48)],
            ),
            smelt_entry_is(
                tables@[4],
                54,
                true,
                6,
                seq![(6, 10), (7, 22), (8, 42), (9, 72), (10, 120), (11, 175), (12, 240)],
            ),
            smelt_entry_is(
                tables@[5],
                64,
                true,
                6,
                seq![(6, 13), (7, 28), (8, 54), (9, 93), (10, 155), (11, 225), (12, 312)],
            ),
            forall|j: int| 0 <= j < i ==> #[trigger] tables@[j].item_id != item_id,
        decreases n - i,
    {
        if tables[i].item_id == item_id {
            if enchant_level < tables[i].min_enchant {
                return None;
            }
            let pairs = &tables[i].crystal_by_enchant;
            let m = pairs.len();
            let mut k: usize = 0;
            while k < m
                invariant
                    k <= m,
                    m == pairs@.len(),
                    0 <= i < 6,
                    pairs@ == tables@[i as int].crystal_by_enchant@,
                    tables@[i as int].item_id == item_id,
                    smelt_entry_is(
                        tables@[0],
                        20011,
                        false,
                        4,
                        seq![(4, 1), (5, 3), (6, 7), (7, 13), (8, 23), (9, 39), (10, 65)],
                    ),
                    smelt_entry_is(
                        tables@[1],
                        20164,
                        false,
                        4,
                        seq![(4, 9), (5, 25), (6, 55), (7, 107), (8, 189), (9, 353), (10, 583)],
                    ),
                    smelt_entry_is(
                        tables@[2],
                        20013,
                        false,
                        4,
                        seq![(4, 8), (5, 22), (6, 49), (7, 95), (8, 168), (9, 311), (10, 518)],
                    ),
                    smelt_entry_is(
                        tables@[3],
                        4,
                        true,
                        6,
                        seq![(6, 2), (7, 5), (8, 9), (9, 16), (10, 27), (11, 37), (12, 48)],
                    ),
                    smelt_entry_is(
                        tables@[4],
                        54,
                        true,
                        6,
                        seq![(6, 10), (7, 22), (8, 42), (9, 72), (10, 120), (11, 175), (12, 240)],
                    ),
                    smelt_entry_is(
                        tables@[5],
                        64,
                        true,
                        6,
                        seq![(6, 13), (7, 28), (8, 54), (9, 93), (10, 155), (11, 225), (12, 312)],
                    ),
                    forall|j: int| 0 <= j < k ==> #[trigger] pairs@[j].0 != enchant_level,
                decreases m - k,
            {
                if pairs[k].0 == enchant_level {
                    return Some(pairs[k].1);
                }
                k += 1;
            }
            proof {
                assert(pairs@.len() == 7);
                assert(pairs@[0].0 != enchant_level);
                assert(pairs@[1].0 != enchant_level);
                assert(pairs@[2].0 != enchant_level);
                assert(pairs@[3].0 != enchant_level);
                assert(pairs@[4].0 != enchant_level);
                assert(pairs@[5].0 != enchant_level);
                assert(pairs@[6].0 != enchant_level);
            }
            return None;
        }
        i += 1;
    }
    None
}

/// One crafting recipe: material costs and success rates.
#[derive(Debug, Clone)]
pub struct CraftRecipe {
    pub result_item_name: &'static str,
    pub result_item_id: i32,
    /// Fire-god contracts consumed.
    pub contract_cost: i32,
    /// Fire-god crystals consumed.
    pub crystal_cost: i32,
    /// Base success rate in percent; the fire-god hammer raises it.
    pub base_success_rate: i32,
    /// Extra success rate in percent granted by the hammer.
    pub hammer_bonus_rate: i32,
}

/// Shape of one recipe entry, used to pin the official recipe list.
pub open spec fn recipe_is(
    r: CraftRecipe,
    result_item_id: int,
    contract_cost: int,
    crystal_cost: int,
    base_success_rate: int,
    hammer_bonus_rate: int,
) -> bool {
    &&& r.result_item_id == result_item_id
    &&& r.contract_cost == contract_cost
    &&& r.crystal_cost == crystal_cost
    &&& r.base_success_rate == base_success_rate
    &&& r.hammer_bonus_rate == hammer_bonus_rate
}

/// Official recipe list: five weapons, two armors.
pub fn craft_recipes() -> (r: Vec<CraftRecipe>)
    ensures
        r@.len() == 7,
        recipe_is(r@[0], 80, 8, 40, 80, 10),
        recipe_is(r@[1], 81, 10, 40, 75, 10),
        recipe_is(r@[2], 82, 9, 75, 70, 10),
        recipe_is(r@[3], 83, 20, 80, 60, 15),
        recipe_is(r@[4], 84, 40, 60, 55, 15),
        recipe_is(r@[5], 20200, 5, 100, 65, 10),
        recipe_is(r@[6], 20201, 5, 100, 65, 10),
{
    let mut r: Vec<CraftRecipe> = Vec::new();
    r.push(
        CraftRecipe {
            result_item_name: "\u{6b66}\u{5b98}\u{4e4b}\u{5203}",
            result_item_id: 80,
            contract_cost: 8,
            crystal_cost: 40,
            base_success_rate: 80,
            hammer_bonus_rate: 10,
        },
    );
    r.push(
        CraftRecipe {
            result_item_name: "\u{9ed1}\u{6697}\u{96d9}\u{5200}",
            result_item_id: 81,
            contract_cost: 10,
            crystal_cost: 40,
            base_success_rate: 75,
            hammer_bonus_rate: 10,
        },
    );
    r.push(
        CraftRecipe {
            result_item_name: "\u{514b}\u{7279}\u{4e4b}\u{528d}",
            result_item_id: 82,
            contract_cost: 9,
            crystal_cost: 75,
            base_success_rate: 70,
            hammer_bonus_rate: 10,
        },
    );
    r.push(
        CraftRecipe {
            result_item_name: "\u{5b99}\u{65af}\u{5de8}\u{528d}",
            result_item_id: 83,
            contract_cost: 20,
            crystal_cost: 80,
            base_success_rate: 60,
            hammer_bonus_rate: 15,
        },
    );
    r.push(
        CraftRecipe {
            result_item_name: "\u{746a}\u{90a3}\u{9b54}\u{6756}",
            result_item_id: 84,
            contract_cost: 40,
            crystal_cost: 60,
            base_success_rate: 55,
            hammer_bonus_rate: 15,
        },
    );
    r.push(
        CraftRecipe {
            result_item_name: "\u{86a9}\u{5c24}\u{93a7}\u{7532}",
            result_item_id: 20200,
            contract_cost: 5,
            crystal_cost: 100,
            base_success_rate: 65,
            hammer_bonus_rate: 10,
        },
    );
    r.push(
        CraftRecipe {
            result_item_name: "\u{9ed1}\u{9577}\u{8005}\u{9577}\u{888d}",
            result_item_id: 20201,
            contract_cost: 5,
            crystal_cost: 100,
            base_success_rate: 65,
            hammer_bonus_rate: 10,
        },
    );
    r
}

/// Costs and rates of the recipe for `result_item_id`:
/// `(contract_cost, crystal_cost, base_success_rate, hammer_bonus_rate)`,
/// or `None` for an unknown recipe. This is the recipe list as a function.
pub open spec fn spec_recipe_of(result_item_id: int) -> Option<(int, int, int, int)> {
    if result_item_id == 80 {
        Some((8int, 40int, 80int, 10int))
    } else if result_item_id == 81 {
        Some((10int, 40int, 75int, 10int))
    } else if result_item_id == 82 {
        Some((9int, 75int, 70int, 10int))
    } else if result_item_id == 83 {
        Some((20int, 80int, 60int, 15int))
    } else if result_item_id == 84 {
        Some((40int, 60int, 55int, 15int))
    } else if result_item_id == 20200 {
        Some((5int, 100int, 65int, 10int))
    } else if result_item_id == 20201 {
        Some((5int, 100int, 65int, 10int))
    } else {
        None
    }
}

/// Outcome of a crafting attempt.
#[derive(Debug, PartialEq, Eq, Structural)]
pub enum CraftResult {
    /// Crafting succeeded; carries the produced item id.
    Success(i32),
    /// The roll failed; materials are still consumed.
    Failure,
    /// Not enough contracts or crystals.
    InsufficientMaterials,
    /// No recipe produces the requested item.
    RecipeNotFound,
}

/// Attempt to craft `recipe_item_id` given the materials on hand.
/// Unknown recipes and missing materials are reported exactly; whether a
/// well-supplied attempt succeeds is decided by a fresh percent roll
/// against the recipe's success rate.
pub fn try_craft(recipe_item_id: i32, has_contracts: i32, has_crystals: i32, has_hammer: bool) -> (r:
    CraftResult)
    ensures
        spec_recipe_of(recipe_item_id as int) is None <==> r == CraftResult::RecipeNotFound,
        spec_recipe_of(recipe_item_id as int) matches Some(c) ==> ((has_contracts < c.0
            || has_crystals < c.1) <==> r == CraftResult::InsufficientMaterials),
        spec_recipe_of(recipe_item_id as int) matches Some(c) && has_contracts >= c.0
            && has_crystals >= c.1 ==> (r == CraftResult::Success(recipe_item_id) || r
            == CraftResult::Failure),
{
    let recipes = craft_recipes();
    let n = recipes.len();
    let mut i: usize = 0;
    while i < n
        invariant
            i <= n,
            n == 7,
            recipes@.len() == 7,
            recipe_is(recipes@[0], 80, 8, 40, 80, 10),
            recipe_is(recipes@[1], 81, 10, 40, 75, 10),
            recipe_is(recipes@[2], 82, 9, 75, 70, 10),
            recipe_is(recipes@[3], 83, 20, 80, 60, 15),
            recipe_is(recipes@[4], 84, 40, 60, 55, 15),
            recipe_is(recipes@[5], 20200, 5, 100, 65, 10),
            recipe_is(recipes@[6], 20201, 5, 100, 65, 10),
            forall|j: int| 0 <= j < i ==> #[trigger] recipes@[j].result_item_id != recipe_item_id,
        decreases n - i,
    {
        if recipes[i].result_item_id == recipe_item_id {
            if has_contracts < recipes[i].contract_cost || has_crystals
                < recipes[i].crystal_cost {
                return CraftResult::InsufficientMaterials;
            }
            let success_rate = if has_hammer {
                recipes[i].base_success_rate + recipes[i].hammer_bonus_rate
            } else {
                recipes[i].base_success_rate
            };
            let roll = crate::rng::roll_range(1, 100);
            if roll <= success_rate {
                return CraftResult::Success(recipe_item_id);
            } else {
                return CraftResult::Failure;
            }
        }
        i += 1;
    }
    CraftResult::RecipeNotFound
}

} // verus!

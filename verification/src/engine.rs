//! The tick engine: the single authoritative owner of all simulated
//! entities. One call to `tick` is one simulation pass over every entity;
//! entities with no observer nearby are skipped wholesale, with their
//! cooldown counters frozen, so a world of tens of thousands of dormant
//! entities costs almost nothing per pass.

use vstd::prelude::*;

use crate::grid::WorldGrid;
use crate::position::{
    chebyshev, direction_from_delta, dx_of, dy_of, heading_delta, ObjectId, Position,
};

verus! {

/// Coordinates further than this from the origin never occur in a real
/// world; an entity standing at the limit does not roam, which keeps one
/// tile of headroom for every movement.
pub const COORD_LIMIT: i32 = 1000000000;

/// Hit and mana pools of an entity.
#[derive(Debug, Clone, Copy)]
pub struct Health {
    pub cur_hp: i32,
    pub max_hp: i32,
    pub cur_mp: i32,
    pub max_mp: i32,
}

/// Movement cooldown of an entity: after each step the cooldown restarts
/// from the entity's move delay and the entity stands still until it
/// reaches zero again.
#[derive(Debug, Clone, Copy)]
pub struct Movement {
    pub cooldown_ticks: u32,
    pub move_delay_ticks: u32,
}

/// AI scratch state of an entity.
#[derive(Debug, Clone, Copy)]
pub struct AiState {
    /// Current combat target; 0 means none.
    pub target_id: ObjectId,
    pub active: bool,
    /// Whether an observer was near on the latest pass.
    pub players_nearby: bool,
    /// Remaining tiles of the current random walk.
    pub random_walk_distance: i32,
    /// Heading of the current random walk, always in 0..8.
    pub random_walk_direction: i32,
    /// Home point the entity drifts back toward; (0, 0) means none.
    pub home_x: i32,
    pub home_y: i32,
}

/// A single simulated entity.
#[derive(Debug, Clone, Copy)]
pub struct NpcEntity {
    pub id: ObjectId,
    pub pos: Position,
    pub health: Health,
    pub movement: Movement,
    pub ai: AiState,
    pub template_id: i32,
    pub alive: bool,
}

/// Immutable template a species of entity is spawned from.
#[derive(Debug, Clone)]
pub struct NpcTemplate {
    pub npc_id: i32,
    pub name: String,
    pub nameid: String,
    /// Behavior category tag; a tag containing "Monster" marks a roaming
    /// kind.
    pub impl_type: String,
    pub gfxid: i32,
    pub level: i32,
    pub hp: i32,
    pub mp: i32,
    /// Milliseconds per step; 200 ms is one tick.
    pub passispeed: i32,
}

/// One entity movement produced by a tick.
#[derive(Debug, Clone, Copy)]
pub struct NpcMovement {
    pub npc_id: ObjectId,
    pub old_pos: Position,
    pub new_pos: Position,
}

/// Whether `bytes` contains the ASCII tag "Monster" starting at `k`.
pub open spec fn monster_tag_at(bytes: Seq<u8>, k: int) -> bool {
    &&& 0 <= k
    &&& k + 7 <= bytes.len()
    &&& bytes[k] == 77u8
    &&& bytes[k + 1] == 111u8
    &&& bytes[k + 2] == 110u8
    &&& bytes[k + 3] == 115u8
    &&& bytes[k + 4] == 116u8
    &&& bytes[k + 5] == 101u8
    &&& bytes[k + 6] == 114u8
}

/// Whether `bytes` contains the ASCII tag "Monster" anywhere.
pub open spec fn has_monster_tag(bytes: Seq<u8>) -> bool {
    exists|k: int| monster_tag_at(bytes, k)
}

/// Whether a behavior tag marks a roaming kind: it contains "Monster".
fn tag_is_monster(impl_type: &str) -> (r: bool)
    ensures
        r == has_monster_tag(vstd::utf8::encode_utf8(impl_type@)),
{
    let b = impl_type.as_bytes();
    let n = b.len();
    if n < 7 {
        proof {
            assert(forall|k: int| !monster_tag_at(b@, k));
        }
        return false;
    }
    let mut i: usize = 0;
    while i <= n - 7
        invariant
            7 <= n == b@.len(),
            i <= n - 7 + 1,
            b@ == vstd::utf8::encode_utf8(impl_type@),
            forall|k: int| 0 <= k < i ==> !monster_tag_at(b@, k),
        decreases n - i,
    {
        if b[i] == 77 && b[i + 1] == 111 && b[i + 2] == 110 && b[i + 3] == 115 && b[i + 4] == 116
            && b[i + 5] == 101 && b[i + 6] == 114 {
            proof {
                assert(monster_tag_at(b@, i as int));
            }
            return true;
        }
        i += 1;
    }
    proof {
        assert(forall|k: int| i <= k ==> !monster_tag_at(b@, k));
    }
    false
}

/// First template with a given id, if any.
pub open spec fn spec_template_of(templates: Seq<NpcTemplate>, template_id: int) -> Option<
    NpcTemplate,
>
    decreases templates.len(),
{
    if templates.len() == 0 {
        None
    } else if templates[0].npc_id == template_id {
        Some(templates[0])
    } else {
        spec_template_of(templates.skip(1), template_id)
    }
}

/// Unfolds `spec_template_of` at position `i` of the list.
proof fn lemma_template_step(templates: Seq<NpcTemplate>, i: int, template_id: int)
    requires
        0 <= i < templates.len(),
    ensures
        spec_template_of(templates.skip(i), template_id) == if templates[i].npc_id == template_id {
            Some(templates[i])
        } else {
            spec_template_of(templates.skip(i + 1), template_id)
        },
{
    assert(templates.skip(i)[0] == templates[i]);
    assert(templates.skip(i).skip(1) =~= templates.skip(i + 1));
}

/// Index of the first template with a given id.
fn template_index(templates: &Vec<NpcTemplate>, template_id: i32) -> (r: Option<usize>)
    ensures
        r matches Some(k) ==> k < templates@.len() && spec_template_of(
            templates@,
            template_id as int,
        ) == Some(templates@[k as int]),
        r is None <==> spec_template_of(templates@, template_id as int) is None,
{
    let n = templates.len();
    let mut i: usize = 0;
    proof {
        assert(templates@.skip(0) =~= templates@);
    }
    while i < n
        invariant
            i <= n,
            n == templates@.len(),
            spec_template_of(templates@, template_id as int) == spec_template_of(
                templates@.skip(i as int),
                template_id as int,
            ),
        decreases n - i,
    {
        proof {
            lemma_template_step(templates@, i as int, template_id as int);
        }
        if templates[i].npc_id == template_id {
            return Some(i);
        }
        i += 1;
    }
    None
}

/// Whether a template id names a roaming (monster-tagged) kind in the
/// template list.
pub open spec fn spec_is_roaming(templates: Seq<NpcTemplate>, template_id: int) -> bool {
    match spec_template_of(templates, template_id) {
        Some(t) => has_monster_tag(vstd::utf8::encode_utf8(t.impl_type@)),
        None => false,
    }
}

/// Whether some observer position lies within Chebyshev `range` tiles of
/// `pos`.
pub open spec fn spec_observed(
    players: Seq<(ObjectId, Position)>,
    pos: Position,
    range: int,
) -> bool {
    exists|j: int|
        0 <= j < players.len() && chebyshev(
            pos.x as int,
            pos.y as int,
            (#[trigger] players[j]).1.x as int,
            players[j].1.y as int,
        ) <= range
}

/// Whether an entity takes a step on this pass: it is alive, observed,
/// its cooldown has run out, it has no combat target, its template is a
/// roaming kind, and it stands clear of the coordinate limit.
pub open spec fn spec_moves_now(
    templates: Seq<NpcTemplate>,
    players: Seq<(ObjectId, Position)>,
    range: int,
    e: NpcEntity,
) -> bool {
    &&& e.alive
    &&& spec_observed(players, e.pos, range)
    &&& e.movement.cooldown_ticks <= 1
    &&& e.ai.target_id == 0
    &&& spec_is_roaming(templates, e.template_id as int)
    &&& -COORD_LIMIT < e.pos.x < COORD_LIMIT
    &&& -COORD_LIMIT < e.pos.y < COORD_LIMIT
}

/// One movement is a single tile step: the new position sits exactly one
/// step from the old one along the returned heading, on the same map.
pub open spec fn spec_movement_ok(m: NpcMovement) -> bool {
    &&& 0 <= m.new_pos.heading < 8
    &&& m.new_pos.x == m.old_pos.x + dx_of(m.new_pos.heading as int)
    &&& m.new_pos.y == m.old_pos.y + dy_of(m.new_pos.heading as int)
    &&& m.new_pos.map_id == m.old_pos.map_id
    &&& m.new_pos.x != m.old_pos.x || m.new_pos.y != m.old_pos.y
}

/// A reported movement backed by entity records, up to index `hi`: some
/// entity below `hi` carries the movement's id, stood at its old position
/// before the pass and stands at its new position after it.
pub open spec fn move_backed_upto(
    npcs_before: Seq<NpcEntity>,
    npcs_after: Seq<NpcEntity>,
    m: NpcMovement,
    hi: int,
) -> bool {
    exists|j: int|
        0 <= j < hi && hi <= npcs_before.len() && (#[trigger] npcs_before[j]).id == m.npc_id
            && npcs_before[j].pos == m.old_pos && npcs_after[j].pos == m.new_pos
}

/// Index of the first observer entry carrying `id`, or the list length
/// when no entry does.
pub open spec fn spec_player_idx(players: Seq<(ObjectId, Position)>, id: ObjectId) -> int
    decreases players.len(),
{
    if players.len() == 0 {
        0
    } else if players[0].0 == id {
        0
    } else {
        1 + spec_player_idx(players.skip(1), id)
    }
}

/// Unfolds `spec_player_idx` at position `i` of the list.
proof fn lemma_player_idx_step(players: Seq<(ObjectId, Position)>, i: int, id: ObjectId)
    requires
        0 <= i < players.len(),
    ensures
        spec_player_idx(players.skip(i), id) == if players[i].0 == id {
            0
        } else {
            1 + spec_player_idx(players.skip(i + 1), id)
        },
{
    assert(players.skip(i)[0] == players[i]);
    assert(players.skip(i).skip(1) =~= players.skip(i + 1));
}

/// Whether `e` is one of the entities of `npcs`.
pub open spec fn npc_from(npcs: Seq<NpcEntity>, e: NpcEntity) -> bool {
    exists|j: int| 0 <= j < npcs.len() && #[trigger] npcs[j] == e
}

/// The per-entity state a tick never touches.
pub open spec fn npc_statics_eq(a: NpcEntity, b: NpcEntity) -> bool {
    &&& a.id == b.id
    &&& a.template_id == b.template_id
    &&& a.alive == b.alive
    &&& a.health == b.health
    &&& a.movement.move_delay_ticks == b.movement.move_delay_ticks
}

/// Saturating decrement of a cooldown counter.
pub open spec fn spec_cooldown_dec(v: u32) -> u32 {
    if v > 0 {
        (v - 1) as u32
    } else {
        0
    }
}

/// An unobserved entity after a pass: only the observation flag drops;
/// cooldown and walk counters are frozen, not merely paused with drift.
pub open spec fn spec_dormant_step(e: NpcEntity) -> NpcEntity {
    NpcEntity { ai: AiState { players_nearby: false, ..e.ai }, ..e }
}

/// An observed entity that does not step this pass: it wakes (flags set),
/// its cooldown ticks down by one, and everything else — position, walk
/// counters, target, home — is untouched.
pub open spec fn spec_cooling_step(e: NpcEntity) -> NpcEntity {
    NpcEntity {
        movement: Movement {
            cooldown_ticks: spec_cooldown_dec(e.movement.cooldown_ticks),
            ..e.movement
        },
        ai: AiState { players_nearby: true, active: true, ..e.ai },
        ..e
    }
}

/// An entity that steps this pass: it wakes; its new heading is its walk
/// heading, redrawn into 0..8 if the walk was exhausted and kept
/// otherwise (with the remaining distance counted down by one, or redrawn
/// into 1..=5); the position moves one tile along that heading on the
/// same map; and the cooldown restarts from the entity's move delay.
pub open spec fn spec_walk_step(old_e: NpcEntity, new_e: NpcEntity) -> bool {
    &&& new_e.id == old_e.id
    &&& new_e.template_id == old_e.template_id
    &&& new_e.alive == old_e.alive
    &&& new_e.health == old_e.health
    &&& new_e.movement.move_delay_ticks == old_e.movement.move_delay_ticks
    &&& new_e.movement.cooldown_ticks == old_e.movement.move_delay_ticks
    &&& new_e.ai.players_nearby
    &&& new_e.ai.active
    &&& new_e.ai.target_id == old_e.ai.target_id
    &&& new_e.ai.home_x == old_e.ai.home_x
    &&& new_e.ai.home_y == old_e.ai.home_y
    &&& if old_e.ai.random_walk_distance == 0 {
        1 <= new_e.ai.random_walk_distance <= 5
    } else {
        new_e.ai.random_walk_distance == old_e.ai.random_walk_distance - 1
            && new_e.ai.random_walk_direction == old_e.ai.random_walk_direction
    }
    &&& 0 <= new_e.ai.random_walk_direction < 8
    &&& new_e.pos.heading == new_e.ai.random_walk_direction
    &&& new_e.pos.x == old_e.pos.x + dx_of(new_e.pos.heading as int)
    &&& new_e.pos.y == old_e.pos.y + dy_of(new_e.pos.heading as int)
    &&& new_e.pos.map_id == old_e.pos.map_id
}

/// Exactly what one pass does to one entity: a dead entity is untouched,
/// an unobserved one goes dormant with frozen counters, an observed
/// non-mover cools down by one tick, and a mover takes a walk step.
pub open spec fn npc_tick_step(
    templates: Seq<NpcTemplate>,
    players: Seq<(ObjectId, Position)>,
    range: int,
    old_e: NpcEntity,
    new_e: NpcEntity,
) -> bool {
    if !old_e.alive {
        new_e == old_e
    } else if !spec_observed(players, old_e.pos, range) {
        new_e == spec_dormant_step(old_e)
    } else if !spec_moves_now(templates, players, range, old_e) {
        new_e == spec_cooling_step(old_e)
    } else {
        spec_walk_step(old_e, new_e)
    }
}

/// A stepping entity pauses for its configured move delay: right after a
/// walk step its cooldown equals `move_delay_ticks`, so with a delay
/// above one it cannot step on the next pass, whatever the observers do.
/// Together with the batch being exactly the observed roaming entities
/// whose cooldown has run out, this is the arithmetic basis of the sleep
/// optimization: a large, mostly unobserved population produces far
/// fewer movements than one per entity per pass.
pub proof fn lemma_mover_pauses(
    templates: Seq<NpcTemplate>,
    players: Seq<(ObjectId, Position)>,
    range: int,
    e0: NpcEntity,
    e1: NpcEntity,
    players2: Seq<(ObjectId, Position)>,
    range2: int,
)
    requires
        spec_moves_now(templates, players, range, e0),
        npc_tick_step(templates, players, range, e0, e1),
        e0.movement.move_delay_ticks > 1,
    ensures
        e1.movement.cooldown_ticks == e0.movement.move_delay_ticks,
        !spec_moves_now(templates, players2, range2, e1),
{
}

/// The game world: all simulated entities, the spatial index over them,
/// the observer positions the bridge feeds in, and the template table.
pub struct GameWorld {
    npcs: Vec<NpcEntity>,
    grid: WorldGrid,
    player_positions: Vec<(ObjectId, Position)>,
    npc_templates: Vec<NpcTemplate>,
    next_object_id: ObjectId,
    tick_count: u64,
}

impl GameWorld {
    /// The entity list.
    pub closed spec fn npcs_seq(&self) -> Seq<NpcEntity> {
        self.npcs@
    }

    /// The spatial index contents.
    pub closed spec fn grid_seq(&self) -> Seq<crate::grid::GridEntry> {
        self.grid.entries_seq()
    }

    /// The observer positions.
    pub closed spec fn players_seq(&self) -> Seq<(ObjectId, Position)> {
        self.player_positions@
    }

    /// The template table.
    pub closed spec fn templates_seq(&self) -> Seq<NpcTemplate> {
        self.npc_templates@
    }

    /// The next object id the world will allocate.
    pub closed spec fn next_id_spec(&self) -> ObjectId {
        self.next_object_id
    }

    /// Completed simulation passes.
    pub closed spec fn tick_count_spec(&self) -> u64 {
        self.tick_count
    }

    /// Well-formedness: the spatial index holds exactly one entry per
    /// entity, at the entity's stored cell; entity ids are unique and
    /// below the allocation counter; walk headings are octants; and every
    /// entity stands within the coordinate limit.
    pub open spec fn wf(&self) -> bool {
        &&& self.grid_seq().len() == self.npcs_seq().len()
        &&& forall|i: int|
            0 <= i < self.npcs_seq().len() ==> #[trigger] self.grid_seq()[i] == (
            self.npcs_seq()[i].id,
            self.npcs_seq()[i].pos.map_id,
            self.npcs_seq()[i].pos.x,
            self.npcs_seq()[i].pos.y,
            )
        &&& forall|i: int, j: int|
            0 <= i < j < self.npcs_seq().len() ==> (#[trigger] self.npcs_seq()[i]).id != (
            #[trigger] self.npcs_seq()[j]).id
        &&& forall|i: int|
            0 <= i < self.npcs_seq().len() ==> (#[trigger] self.npcs_seq()[i]).id
                < self.next_id_spec()
        &&& forall|i: int|
            0 <= i < self.npcs_seq().len() ==> 0 <= (
            #[trigger] self.npcs_seq()[i]).ai.random_walk_direction < 8
        &&& forall|i: int|
            0 <= i < self.npcs_seq().len() ==> 0 <= (
            #[trigger] self.npcs_seq()[i]).ai.random_walk_distance
        &&& forall|i: int|
            0 <= i < self.npcs_seq().len() ==> -COORD_LIMIT <= (
            #[trigger] self.npcs_seq()[i]).pos.x <= COORD_LIMIT && -COORD_LIMIT
                <= self.npcs_seq()[i].pos.y <= COORD_LIMIT
    }

    /// A fresh world with a template table and no entities or observers.
    /// Object ids start at a high base so they never collide with
    /// externally known id ranges.
    pub fn new(npc_templates: Vec<NpcTemplate>) -> (w: GameWorld)
        ensures
            w.wf(),
            w.npcs_seq().len() == 0,
            w.players_seq().len() == 0,
            w.templates_seq() == npc_templates@,
            w.next_id_spec() == 0x10000000u32,
            w.tick_count_spec() == 0,
    {
        GameWorld {
            npcs: Vec::new(),
            grid: WorldGrid::new(),
            player_positions: Vec::new(),
            npc_templates,
            next_object_id: 0x10000000,
            tick_count: 0,
        }
    }

    /// Allocate a fresh, never-reused object id.
    pub fn next_id(&mut self) -> (id: ObjectId)
        requires
            old(self).next_id_spec() < u32::MAX,
    ensures
            id == old(self).next_id_spec(),
            final(self).next_id_spec() == old(self).next_id_spec() + 1,
            final(self).npcs_seq() == old(self).npcs_seq(),
            final(self).grid_seq() == old(self).grid_seq(),
            final(self).players_seq() == old(self).players_seq(),
            final(self).templates_seq() == old(self).templates_seq(),
            final(self).tick_count_spec() == old(self).tick_count_spec(),
            old(self).wf() ==> final(self).wf(),
    {
        let id = self.next_object_id;
        self.next_object_id += 1;
        id
    }

    /// Whether the id allocator has reached the end of its space; no
    /// more entities can be spawned once it has.
    pub fn id_space_exhausted(&self) -> (r: bool)
        ensures
            r == (self.next_id_spec() == u32::MAX),
    {
        self.next_object_id == u32::MAX
    }

    /// Number of live entity records (alive or corpse) the engine owns.
    pub fn npc_count(&self) -> (n: usize)
        ensures
            n == self.npcs_seq().len(),
    {
        self.npcs.len()
    }

    /// The record of the entity with an id, if the engine owns one.
    pub fn get_npc(&self, id: ObjectId) -> (r: Option<&NpcEntity>)
        ensures
            r matches Some(e) ==> e.id == id && npc_from(self.npcs_seq(), *e),
            r is None ==> forall|j: int|
                0 <= j < self.npcs_seq().len() ==> (#[trigger] self.npcs_seq()[j]).id != id,
    {
        let n = self.npcs.len();
        let mut i: usize = 0;
        while i < n
            invariant
                i <= n,
                n == self.npcs@.len(),
                forall|j: int| 0 <= j < i ==> (#[trigger] self.npcs@[j]).id != id,
            decreases n - i,
        {
            if self.npcs[i].id == id {
                proof {
                    assert(self.npcs_seq()[i as int] == self.npcs@[i as int]);
                }
                return Some(&self.npcs[i]);
            }
            i += 1;
        }
        None
    }

    /// The spatial index, for queries.
    pub fn grid(&self) -> (g: &WorldGrid)
        ensures
            g.entries_seq() == self.grid_seq(),
    {
        &self.grid
    }

    /// Completed simulation passes.
    pub fn tick_count(&self) -> (n: u64)
        ensures
            n == self.tick_count_spec(),
    {
        self.tick_count
    }

    /// Record or move an observer position for the sleep optimization.
    pub fn set_player_position(&mut self, id: ObjectId, pos: Position)
        ensures
            spec_player_idx(old(self).players_seq(), id) == old(self).players_seq().len() as int
                ==> final(self).players_seq() == old(self).players_seq().push((id, pos)),
            spec_player_idx(old(self).players_seq(), id) < old(self).players_seq().len() as int
                ==> final(self).players_seq() == old(self).players_seq().update(
                spec_player_idx(old(self).players_seq(), id),
                (id, pos),
            ),
            final(self).npcs_seq() == old(self).npcs_seq(),
            final(self).grid_seq() == old(self).grid_seq(),
            final(self).templates_seq() == old(self).templates_seq(),
            final(self).next_id_spec() == old(self).next_id_spec(),
            final(self).tick_count_spec() == old(self).tick_count_spec(),
            old(self).wf() ==> final(self).wf(),
    {
        let n = self.player_positions.len();
        let mut i: usize = 0;
        proof {
            assert(self.player_positions@.skip(0) =~= self.player_positions@);
        }
        while i < n
            invariant
                i <= n,
                n == self.player_positions@.len(),
                *self == *old(self),
                spec_player_idx(self.player_positions@, id) == i + spec_player_idx(
                    self.player_positions@.skip(i as int),
                    id,
                ),
                forall|j: int|
                    0 <= j < i ==> (#[trigger] self.player_positions@[j]).0 != id,
            decreases n - i,
        {
            proof {
                lemma_player_idx_step(self.player_positions@, i as int, id);
            }
            if self.player_positions[i].0 == id {
                proof {
                    assert(spec_player_idx(self.player_positions@, id) == i as int);
                }
                self.player_positions.set(i, (id, pos));
                return ;
            }
            i += 1;
        }
        proof {
            assert(self.player_positions@.skip(n as int) =~= Seq::<(ObjectId, Position)>::empty());
            assert(spec_player_idx(self.player_positions@, id) == n as int);
        }
        self.player_positions.push((id, pos));
    }

    /// Drop the first observer entry carrying `id`; the other entries are
    /// kept in order, and an absent id is a no-op.
    pub fn remove_player_position(&mut self, id: ObjectId)
        ensures
            spec_player_idx(old(self).players_seq(), id) == old(self).players_seq().len() as int
                ==> final(self).players_seq() == old(self).players_seq(),
            spec_player_idx(old(self).players_seq(), id) < old(self).players_seq().len() as int
                ==> final(self).players_seq() == old(self).players_seq().remove(
                spec_player_idx(old(self).players_seq(), id),
            ),
            final(self).npcs_seq() == old(self).npcs_seq(),
            final(self).grid_seq() == old(self).grid_seq(),
            final(self).templates_seq() == old(self).templates_seq(),
            final(self).next_id_spec() == old(self).next_id_spec(),
            final(self).tick_count_spec() == old(self).tick_count_spec(),
            old(self).wf() ==> final(self).wf(),
    {
        let n = self.player_positions.len();
        let mut i: usize = 0;
        proof {
            assert(self.player_positions@.skip(0) =~= self.player_positions@);
        }
        while i < n
            invariant
                i <= n,
                n == self.player_positions@.len(),
                *self == *old(self),
                spec_player_idx(self.player_positions@, id) == i + spec_player_idx(
                    self.player_positions@.skip(i as int),
                    id,
                ),
            decreases n - i,
        {
            proof {
                lemma_player_idx_step(self.player_positions@, i as int, id);
            }
            if self.player_positions[i].0 == id {
                proof {
                    assert(spec_player_idx(self.player_positions@, id) == i as int);
                }
                self.player_positions.remove(i);
                return ;
            }
            i += 1;
        }
        proof {
            assert(self.player_positions@.skip(n as int) =~= Seq::<(ObjectId, Position)>::empty());
            assert(spec_player_idx(self.player_positions@, id) == n as int);
        }
    }

    /// Whether any observer is within `range` tiles of `pos`.
    pub fn any_player_nearby(&self, pos: &Position, range: i32) -> (r: bool)
        ensures
            r == spec_observed(self.players_seq(), *pos, range as int),
    {
        let n = self.player_positions.len();
        let mut j: usize = 0;
        while j < n
            invariant
                j <= n,
                n == self.player_positions@.len(),
                forall|k: int|
                    0 <= k < j ==> chebyshev(
                        pos.x as int,
                        pos.y as int,
                        (#[trigger] self.player_positions@[k]).1.x as int,
                        self.player_positions@[k].1.y as int,
                    ) > range,
            decreases n - j,
        {
            let d = pos.tile_distance(&self.player_positions[j].1);
            if d <= range as i64 {
                return true;
            }
            j += 1;
        }
        false
    }

    /// The entity a spawn creates: template-derived pools and speed, a
    /// fresh walk state homed at the spawn point, facing south.
    pub open spec fn spec_new_entity(
        id: ObjectId,
        t: NpcTemplate,
        template_id: i32,
        x: i32,
        y: i32,
        map_id: i32,
    ) -> NpcEntity {
        NpcEntity {
            id,
            pos: Position { x, y, map_id, heading: 0 },
            health: Health { cur_hp: t.hp, max_hp: t.hp, cur_mp: t.mp, max_mp: t.mp },
            movement: Movement {
                cooldown_ticks: 0,
                move_delay_ticks: (if t.passispeed > 0 {
                    (t.passispeed / 200) as u32
                } else {
                    0u32
                }),
            },
            ai: AiState {
                target_id: 0,
                active: false,
                players_nearby: false,
                random_walk_distance: 0,
                random_walk_direction: 0,
                home_x: x,
                home_y: y,
            },
            template_id,
            alive: true,
        }
    }

    /// Spawn an entity of a template at a position. Returns the allocated
    /// object id, or `None` — with the world left exactly as it was — when
    /// the template id is unknown.
    pub fn spawn_npc(&mut self, template_id: i32, x: i32, y: i32, map_id: i32) -> (r: Option<
        ObjectId,
    >)
        requires
            old(self).wf(),
            old(self).next_id_spec() < u32::MAX,
            -COORD_LIMIT <= x <= COORD_LIMIT,
            -COORD_LIMIT <= y <= COORD_LIMIT,
        ensures
            final(self).wf(),
            final(self).players_seq() == old(self).players_seq(),
            final(self).templates_seq() == old(self).templates_seq(),
            final(self).tick_count_spec() == old(self).tick_count_spec(),
            spec_template_of(old(self).templates_seq(), template_id as int) is None ==> r is None
                && final(self).npcs_seq() == old(self).npcs_seq() && final(self).grid_seq() == old(self).grid_seq() && final(self).next_id_spec() == old(self).next_id_spec(),
            spec_template_of(old(self).templates_seq(), template_id as int) matches Some(t) ==> r
                == Some(old(self).next_id_spec()) && final(self).npcs_seq() == old(self).npcs_seq().push(
                Self::spec_new_entity(old(self).next_id_spec(), t, template_id, x, y, map_id),
            ) && final(self).grid_seq() == old(self).grid_seq().push(
                (old(self).next_id_spec(), map_id, x, y),
            ) && final(self).next_id_spec() == old(self).next_id_spec() + 1,
    {
        let ti = match template_index(&self.npc_templates, template_id) {
            Some(k) => k,
            None => {
                return None;
            },
        };
        let hp = self.npc_templates[ti].hp;
        let mp = self.npc_templates[ti].mp;
        let passispeed = self.npc_templates[ti].passispeed;
        let id = self.next_id();
        let entity = NpcEntity {
            id,
            pos: Position { x, y, map_id, heading: 0 },
            health: Health { cur_hp: hp, max_hp: hp, cur_mp: mp, max_mp: mp },
            movement: Movement {
                cooldown_ticks: 0,
                move_delay_ticks: (if passispeed > 0 {
                    (passispeed / 200) as u32
                } else {
                    0
                }),
            },
            ai: AiState {
                target_id: 0,
                active: false,
                players_nearby: false,
                random_walk_distance: 0,
                random_walk_direction: 0,
                home_x: x,
                home_y: y,
            },
            template_id,
            alive: true,
        };
        self.grid.add(id, map_id, x, y);
        self.npcs.push(entity);
        Some(id)
    }

    /// Remove the entity with an id, along with its spatial index entry;
    /// no-op when the id is absent.
    pub fn remove_npc(&mut self, id: ObjectId)
        requires
            old(self).wf(),
        ensures
            final(self).wf(),
            final(self).players_seq() == old(self).players_seq(),
            final(self).templates_seq() == old(self).templates_seq(),
            final(self).next_id_spec() == old(self).next_id_spec(),
            final(self).tick_count_spec() == old(self).tick_count_spec(),
            (forall|i: int|
                0 <= i < old(self).npcs_seq().len() ==> (#[trigger] old(self).npcs_seq()[i]).id
                    != id) ==> final(self).npcs_seq() == old(self).npcs_seq()
                && final(self).grid_seq() == old(self).grid_seq(),
            (exists|i: int|
                0 <= i < old(self).npcs_seq().len() && (#[trigger] old(self).npcs_seq()[i]).id
                    == id) ==> final(self).npcs_seq().len() == old(self).npcs_seq().len() - 1,
            forall|i: int|
                0 <= i < final(self).npcs_seq().len() ==> (#[trigger] final(self).npcs_seq()[i]).id
                    != id,
            forall|i: int|
                0 <= i < final(self).npcs_seq().len() ==> npc_from(
                    old(self).npcs_seq(),
                    #[trigger] final(self).npcs_seq()[i],
                ),
    {
        let n = self.npcs.len();
        let mut i: usize = 0;
        while i < n
            invariant
                i <= n,
                n == self.npcs@.len(),
                self.npcs@ == old(self).npcs@,
                self.grid.entries_seq() == old(self).grid.entries_seq(),
                self.player_positions@ == old(self).player_positions@,
                self.npc_templates@ == old(self).npc_templates@,
                self.next_object_id == old(self).next_object_id,
                self.tick_count == old(self).tick_count,
                self.wf(),
                forall|j: int| 0 <= j < i ==> (#[trigger] self.npcs@[j]).id != id,
            decreases n - i,
        {
            if self.npcs[i].id == id {
                self.npcs.remove(i);
                self.grid.remove_at(i);
                proof {
                    assert(self.npcs@ =~= old(self).npcs@.remove(i as int));
                    assert(self.grid.entries_seq() =~= old(self).grid.entries_seq().remove(
                        i as int,
                    ));
                    assert forall|a: int|
                        0 <= a < self.npcs_seq().len() implies npc_from(
                        old(self).npcs_seq(),
                        self.npcs_seq()[a],
                    ) by {
                        if a < i {
                            assert(old(self).npcs_seq()[a] == self.npcs_seq()[a]);
                        } else {
                            assert(old(self).npcs_seq()[a + 1] == self.npcs_seq()[a]);
                        }
                    }
                }
                return ;
            }
            i += 1;
        }
        proof {
            assert forall|a: int|
                0 <= a < self.npcs_seq().len() implies npc_from(
                old(self).npcs_seq(),
                self.npcs_seq()[a],
            ) by {
                assert(old(self).npcs_seq()[a] == self.npcs_seq()[a]);
            }
        }
    }

    /// One simulation pass.
    ///
    /// Exactly the alive, observed, roaming entities whose cooldown has
    /// run out and that have no combat target take one tile step, in
    /// entity order; each reported movement is a single step consistent
    /// with its heading; every other entity keeps its position. Every
    /// entity record changes exactly as `npc_tick_step` says: dead
    /// entities are untouched, unobserved ones go dormant with their
    /// cooldown and walk counters frozen, observed non-movers cool down
    /// by exactly one tick, and movers restart their cooldown from their
    /// move delay with their walk counters redrawn or counted down. With
    /// no observers at all, nothing moves and the batch is empty. Health,
    /// ids, liveness and the observer set are never touched, and the
    /// spatial index tracks every position change in the same pass.
    #[verifier::rlimit(100)]
    pub fn tick(&mut self, ai_sleep_range: i32) -> (moves: Vec<NpcMovement>)
        requires
            old(self).wf(),
            old(self).tick_count_spec() < u64::MAX,
        ensures
            final(self).wf(),
            final(self).tick_count_spec() == old(self).tick_count_spec() + 1,
            final(self).players_seq() == old(self).players_seq(),
            final(self).templates_seq() == old(self).templates_seq(),
            final(self).next_id_spec() == old(self).next_id_spec(),
            final(self).npcs_seq().len() == old(self).npcs_seq().len(),
            moves@.len() <= old(self).npcs_seq().len(),
            forall|i: int|
                0 <= i < old(self).npcs_seq().len() ==> npc_statics_eq(
                    #[trigger] final(self).npcs_seq()[i],
                    old(self).npcs_seq()[i],
                ),
            forall|i: int|
                0 <= i < old(self).npcs_seq().len() ==> npc_tick_step(
                    old(self).templates_seq(),
                    old(self).players_seq(),
                    ai_sleep_range as int,
                    old(self).npcs_seq()[i],
                    #[trigger] final(self).npcs_seq()[i],
                ),
            moves@.map_values(|m: NpcMovement| m.npc_id) == old(self).npcs_seq().filter(
                |e: NpcEntity|
                    spec_moves_now(
                        old(self).templates_seq(),
                        old(self).players_seq(),
                        ai_sleep_range as int,
                        e,
                    ),
            ).map_values(|e: NpcEntity| e.id),
            forall|k: int| 0 <= k < moves@.len() ==> spec_movement_ok(#[trigger] moves@[k]),
            forall|k: int|
                0 <= k < moves@.len() ==> move_backed_upto(
                    old(self).npcs_seq(),
                    final(self).npcs_seq(),
                    #[trigger] moves@[k],
                    old(self).npcs_seq().len() as int,
                ),
            forall|i: int|
                0 <= i < old(self).npcs_seq().len() && !spec_moves_now(
                    old(self).templates_seq(),
                    old(self).players_seq(),
                    ai_sleep_range as int,
                    #[trigger] old(self).npcs_seq()[i],
                ) ==> final(self).npcs_seq()[i].pos == old(self).npcs_seq()[i].pos,
            old(self).players_seq().len() == 0 ==> moves@.len() == 0 && (forall|i: int|
                0 <= i < old(self).npcs_seq().len() ==> (#[trigger] final(self).npcs_seq()[i]).pos
                    == old(self).npcs_seq()[i].pos),
    {
        let ghost npcs0 = self.npcs@;
        let ghost players0 = self.player_positions@;
        let ghost templates0 = self.npc_templates@;
        let ghost cond = |e: NpcEntity|
            spec_moves_now(templates0, players0, ai_sleep_range as int, e);
        self.tick_count += 1;
        let mut moves: Vec<NpcMovement> = Vec::new();
        let n = self.npcs.len();
        let mut i: usize = 0;
        proof {
            assert(npcs0.take(0) =~= Seq::<NpcEntity>::empty());
            assert(Seq::<NpcEntity>::empty().filter(cond).map_values(|e: NpcEntity| e.id)
                =~= Seq::<ObjectId>::empty());
        }
        while i < n
            invariant
                i <= n,
                n == npcs0.len(),
                self.npcs@.len() == n,
                npcs0 == old(self).npcs@,
                players0 == old(self).player_positions@,
                templates0 == old(self).npc_templates@,
                cond == (|e: NpcEntity|
                    spec_moves_now(templates0, players0, ai_sleep_range as int, e)),
                self.player_positions@ == players0,
                self.npc_templates@ == templates0,
                self.next_object_id == old(self).next_object_id,
                self.tick_count == old(self).tick_count + 1,
                old(self).wf(),
                self.wf(),
                forall|j: int| i <= j < n ==> #[trigger] self.npcs@[j] == npcs0[j],
                forall|j: int|
                    0 <= j < i ==> npc_statics_eq(#[trigger] self.npcs@[j], npcs0[j]),
                forall|j: int|
                    0 <= j < i ==> npc_tick_step(
                        templates0,
                        players0,
                        ai_sleep_range as int,
                        npcs0[j],
                        #[trigger] self.npcs@[j],
                    ),
                forall|j: int|
                    0 <= j < i && !cond(npcs0[j]) ==> (#[trigger] self.npcs@[j]).pos
                        == npcs0[j].pos,
                moves@.map_values(|m: NpcMovement| m.npc_id) == npcs0.take(i as int).filter(
                    cond,
                ).map_values(|e: NpcEntity| e.id),
                forall|k: int| 0 <= k < moves@.len() ==> spec_movement_ok(#[trigger] moves@[k]),
                forall|k: int|
                    0 <= k < moves@.len() ==> move_backed_upto(
                        npcs0,
                        self.npcs@,
                        #[trigger] moves@[k],
                        i as int,
                    ),
                moves@.len() <= i,
            decreases n - i,
        {
            let ghost npcs_entry = self.npcs@;
            proof {
                npcs0.take(i as int).lemma_filter_push(npcs0[i as int], cond);
                npcs0.take(i as int).lemma_filter_len_push(cond, npcs0[i as int]);
                assert(npcs0.take(i as int).push(npcs0[i as int]) =~= npcs0.take(i + 1));
            }
            let npc = self.npcs[i];
            if !npc.alive {
                proof {
                    assert(!cond(npcs0[i as int]));
                    assert(npcs0.take(i + 1).filter(cond).map_values(|e: NpcEntity| e.id)
                        =~= npcs0.take(i as int).filter(cond).map_values(|e: NpcEntity| e.id));
                    assert(npc_tick_step(
                        templates0,
                        players0,
                        ai_sleep_range as int,
                        npcs0[i as int],
                        self.npcs@[i as int],
                    ));
                    assert forall|k: int|
                        0 <= k < moves@.len() implies move_backed_upto(
                        npcs0,
                        self.npcs@,
                        moves@[k],
                        i + 1,
                    ) by {
                        let j0 = choose|j: int|
                            0 <= j < i && i <= npcs0.len() && (#[trigger] npcs0[j]).id
                                == moves@[k].npc_id && npcs0[j].pos == moves@[k].old_pos
                                && npcs_entry[j].pos == moves@[k].new_pos;
                        assert(self.npcs@[j0] == npcs_entry[j0]);
                    }
                }
                i += 1;
                continue ;
            }
            let observed = self.any_player_nearby(&npc.pos, ai_sleep_range);
            if !observed {
                let mut e = npc;
                e.ai.players_nearby = false;
                self.npcs.set(i, e);
                proof {
                    assert(!cond(npcs0[i as int]));
                    assert(npcs0.take(i + 1).filter(cond).map_values(|e2: NpcEntity| e2.id)
                        =~= npcs0.take(i as int).filter(cond).map_values(|e2: NpcEntity| e2.id));
                    assert(self.npcs@[i as int] == spec_dormant_step(npcs0[i as int]));
                    assert(npc_tick_step(
                        templates0,
                        players0,
                        ai_sleep_range as int,
                        npcs0[i as int],
                        self.npcs@[i as int],
                    ));
                    assert forall|k: int|
                        0 <= k < moves@.len() implies move_backed_upto(
                        npcs0,
                        self.npcs@,
                        moves@[k],
                        i + 1,
                    ) by {
                        let j0 = choose|j: int|
                            0 <= j < i && i <= npcs0.len() && (#[trigger] npcs0[j]).id
                                == moves@[k].npc_id && npcs0[j].pos == moves@[k].old_pos
                                && npcs_entry[j].pos == moves@[k].new_pos;
                        assert(self.npcs@[j0] == npcs_entry[j0]);
                    }
                }
                i += 1;
                continue ;
            }
            let is_roaming = match template_index(&self.npc_templates, npc.template_id) {
                Some(k) => {
                    let r = tag_is_monster(self.npc_templates[k].impl_type.as_str());
                    proof {
                        assert(r == spec_is_roaming(templates0, npc.template_id as int));
                    }
                    r
                },
                None => {
                    proof {
                        assert(!spec_is_roaming(templates0, npc.template_id as int));
                    }
                    false
                },
            };
            let mut e = npc;
            e.ai.players_nearby = true;
            e.ai.active = true;
            if e.movement.cooldown_ticks > 0 {
                e.movement.cooldown_ticks = e.movement.cooldown_ticks - 1;
            }
            let can_move = e.movement.cooldown_ticks == 0;
            let clear_of_limit = -COORD_LIMIT < e.pos.x && e.pos.x < COORD_LIMIT && -COORD_LIMIT
                < e.pos.y && e.pos.y < COORD_LIMIT;
            if can_move && e.ai.target_id == 0 && is_roaming && clear_of_limit {
                proof {
                    assert(cond(npcs0[i as int]));
                }
                if e.ai.random_walk_distance == 0 {
                    e.ai.random_walk_distance = crate::rng::roll_range(1, 5);
                    e.ai.random_walk_direction = crate::rng::roll_range(0, 7);
                    if e.ai.home_x != 0 && e.ai.home_y != 0 && crate::rng::roll_range(0, 2) == 0 {
                        let dxs: i32 = if e.ai.home_x > e.pos.x {
                            1
                        } else if e.ai.home_x < e.pos.x {
                            -1
                        } else {
                            0
                        };
                        let dys: i32 = if e.ai.home_y > e.pos.y {
                            1
                        } else if e.ai.home_y < e.pos.y {
                            -1
                        } else {
                            0
                        };
                        if dxs != 0 || dys != 0 {
                            e.ai.random_walk_direction = direction_from_delta(dxs, dys);
                        }
                    }
                } else {
                    e.ai.random_walk_distance = e.ai.random_walk_distance - 1;
                }
                let heading = e.ai.random_walk_direction;
                let (dx, dy) = heading_delta(heading);
                let old_pos = e.pos;
                proof {
                    crate::position::lemma_heading_delta_inverse();
                }
                e.pos.x = e.pos.x + dx;
                e.pos.y = e.pos.y + dy;
                e.pos.heading = heading;
                e.movement.cooldown_ticks = e.movement.move_delay_ticks;
                self.npcs.set(i, e);
                self.grid.update_at(i, e.pos.x, e.pos.y);
                let movement = NpcMovement { npc_id: e.id, old_pos, new_pos: e.pos };
                proof {
                    assert(spec_movement_ok(movement));
                    assert(spec_walk_step(npcs0[i as int], self.npcs@[i as int]));
                    assert(npc_tick_step(
                        templates0,
                        players0,
                        ai_sleep_range as int,
                        npcs0[i as int],
                        self.npcs@[i as int],
                    ));
                }
                let ghost moves_before = moves@;
                moves.push(movement);
                proof {
                    assert(moves@ =~= moves_before.push(movement));
                    assert(moves@.map_values(|m: NpcMovement| m.npc_id) =~= moves_before.map_values(
                        |m: NpcMovement| m.npc_id,
                    ).push(movement.npc_id));
                    assert(movement.npc_id == npcs0[i as int].id);
                    assert(npcs0.take(i + 1).filter(cond) =~= npcs0.take(i as int).filter(
                        cond,
                    ).push(npcs0[i as int]));
                    assert(npcs0.take(i + 1).filter(cond).map_values(|e2: NpcEntity| e2.id)
                        =~= npcs0.take(i as int).filter(cond).map_values(|e2: NpcEntity| e2.id).push(
                        npcs0[i as int].id,
                    ));
                    assert(moves@.map_values(|m: NpcMovement| m.npc_id) =~= npcs0.take(i + 1).filter(
                        cond,
                    ).map_values(|e2: NpcEntity| e2.id));
                    assert forall|k: int|
                        0 <= k < moves@.len() implies move_backed_upto(
                        npcs0,
                        self.npcs@,
                        moves@[k],
                        i + 1,
                    ) by {
                        if k < moves_before.len() {
                            assert(moves@[k] == moves_before[k]);
                            let j0 = choose|j: int|
                                0 <= j < i && i <= npcs0.len() && (#[trigger] npcs0[j]).id
                                    == moves_before[k].npc_id && npcs0[j].pos
                                    == moves_before[k].old_pos && npcs_entry[j].pos
                                    == moves_before[k].new_pos;
                            assert(self.npcs@[j0] == npcs_entry[j0]);
                        } else {
                            assert(moves@[k] == movement);
                            assert(npcs0[i as int].id == movement.npc_id);
                            assert(npcs0[i as int].pos == movement.old_pos);
                            assert(self.npcs@[i as int].pos == movement.new_pos);
                        }
                    }
                }
            } else {
                self.npcs.set(i, e);
                proof {
                    assert(!cond(npcs0[i as int]));
                    assert(npcs0.take(i + 1).filter(cond).map_values(|e2: NpcEntity| e2.id)
                        =~= npcs0.take(i as int).filter(cond).map_values(|e2: NpcEntity| e2.id));
                    assert(self.npcs@[i as int] == spec_cooling_step(npcs0[i as int]));
                    assert(npc_tick_step(
                        templates0,
                        players0,
                        ai_sleep_range as int,
                        npcs0[i as int],
                        self.npcs@[i as int],
                    ));
                    assert forall|k: int|
                        0 <= k < moves@.len() implies move_backed_upto(
                        npcs0,
                        self.npcs@,
                        moves@[k],
                        i + 1,
                    ) by {
                        let j0 = choose|j: int|
                            0 <= j < i && i <= npcs0.len() && (#[trigger] npcs0[j]).id
                                == moves@[k].npc_id && npcs0[j].pos == moves@[k].old_pos
                                && npcs_entry[j].pos == moves@[k].new_pos;
                        assert(self.npcs@[j0] == npcs_entry[j0]);
                    }
                }
            }
            i += 1;
        }
        proof {
            assert(npcs0.take(n as int) =~= npcs0);
            if players0.len() == 0 {
                assert forall|j: int| 0 <= j < npcs0.len() implies !cond(npcs0[j]) by {
                    assert(!spec_observed(players0, npcs0[j].pos, ai_sleep_range as int));
                }
                npcs0.lemma_all_neg_filter_empty(cond);
                assert forall|j: int|
                    0 <= j < npcs0.len() implies (#[trigger] self.npcs_seq()[j]).pos
                    == npcs0[j].pos by {
                    assert(!cond(npcs0[j]));
                }
            }
            broadcast use vstd::prelude::Seq::lemma_filter_len;

        }
        moves
    }
}

} // verus!

//! The shared connection registry: the table of every in-world player
//! connection, with area-of-interest queries and broadcast.
//!
//! Each occupant record carries its outbound delivery queue; a broadcast
//! appends the payload to the queue of every occupant in range except the
//! sender, and the connection layer drains the queues outside the
//! registry's critical section (lock, copy, release, send).

use vstd::prelude::*;

use crate::position::chebyshev;

verus! {

/// How far, in tiles, an occupant can see: broadcasts and nearby queries
/// reach exactly this Chebyshev radius.
pub const VISIBILITY_RANGE: i32 = 20;

/// The registry's record of one in-world connection.
#[derive(Debug, Clone)]
pub struct OnlinePlayer {
    pub object_id: i32,
    pub name: String,
    pub x: i32,
    pub y: i32,
    pub map_id: i32,
    pub heading: i32,
    pub gfx_id: i32,
    pub level: i32,
    pub lawful: i32,
    pub char_type: i32,
    pub sex: i32,
    pub clan_name: String,
    pub title: String,
    /// Outbound delivery queue, drained by the owning connection.
    pub outbox: Vec<Vec<u8>>,
}

/// Whether a candidate occupant sees an event at `(x, y)` on `map_id`
/// originated by `exclude_id`: same map, within visibility range, and not
/// the originator itself.
pub open spec fn sees_event(map_id: i32, x: i32, y: i32, exclude_id: i32) -> spec_fn(
    OnlinePlayer,
) -> bool {
    |p: OnlinePlayer|
        p.map_id == map_id && chebyshev(p.x as int, p.y as int, x as int, y as int)
            <= VISIBILITY_RANGE && p.object_id != exclude_id
}

/// Whether two records agree on everything but the delivery queue.
pub open spec fn same_player_data(a: OnlinePlayer, b: OnlinePlayer) -> bool {
    &&& a.object_id == b.object_id
    &&& a.name == b.name
    &&& a.x == b.x
    &&& a.y == b.y
    &&& a.map_id == b.map_id
    &&& a.heading == b.heading
    &&& a.gfx_id == b.gfx_id
    &&& a.level == b.level
    &&& a.lawful == b.lawful
    &&& a.char_type == b.char_type
    &&& a.sex == b.sex
    &&& a.clan_name == b.clan_name
    &&& a.title == b.title
}

/// Uniqueness of occupant ids in a registry list.
pub open spec fn unique_ids(s: Seq<OnlinePlayer>) -> bool {
    forall|i: int, j: int|
        0 <= i < j < s.len() ==> (#[trigger] s[i]).object_id != (#[trigger] s[j]).object_id
}

/// Id uniqueness transfers between lists that agree pointwise on ids.
proof fn lemma_unique_ids_pointwise(s1: Seq<OnlinePlayer>, s2: Seq<OnlinePlayer>)
    requires
        s1.len() == s2.len(),
        forall|a: int| 0 <= a < s1.len() ==> (#[trigger] s1[a]).object_id == s2[a].object_id,
        unique_ids(s2),
    ensures
        unique_ids(s1),
{
    assert forall|i: int, j: int|
        0 <= i < j < s1.len() implies (#[trigger] s1[i]).object_id != (
    #[trigger] s1[j]).object_id by {
        assert(s2[i].object_id != s2[j].object_id);
    }
}

/// A list with unique ids keeps them unique after removing an element.
proof fn lemma_unique_ids_remove(s: Seq<OnlinePlayer>, i: int)
    requires
        0 <= i < s.len(),
        unique_ids(s),
    ensures
        unique_ids(s.remove(i)),
{
    let s2 = s.remove(i);
    assert forall|a: int, b: int|
        0 <= a < b < s2.len() implies (#[trigger] s2[a]).object_id != (
    #[trigger] s2[b]).object_id by {
        let a2: int = if a < i {
            a
        } else {
            a + 1
        };
        let b2: int = if b < i {
            b
        } else {
            b + 1
        };
        assert(s2[a] == s[a2]);
        assert(s2[b] == s[b2]);
        assert(s[a2].object_id != s[b2].object_id);
    }
}

/// Every element of `s` satisfies `pred`, so filtering keeps all of it.
proof fn lemma_filter_all_true<A>(s: Seq<A>, pred: spec_fn(A) -> bool)
    requires
        forall|j: int| 0 <= j < s.len() ==> pred(#[trigger] s[j]),
    ensures
        s.filter(pred) =~= s,
    decreases s.len(),
{
    if s.len() == 0 {
        assert(s.filter(pred) =~= s);
    } else {
        let s1 = s.drop_last();
        assert(forall|j: int| 0 <= j < s1.len() ==> pred(#[trigger] s1[j]));
        lemma_filter_all_true(s1, pred);
        s1.lemma_filter_push(s.last(), pred);
        assert(s1.push(s.last()) =~= s);
    }
}

/// Removing the single element that fails `pred` is the same as
/// filtering by `pred`.
proof fn lemma_filter_one_out<A>(s: Seq<A>, pred: spec_fn(A) -> bool, i: int)
    requires
        0 <= i < s.len(),
        !pred(s[i]),
        forall|j: int| 0 <= j < s.len() && j != i ==> pred(#[trigger] s[j]),
    ensures
        s.filter(pred) =~= s.remove(i),
    decreases s.len(),
{
    let s1 = s.drop_last();
    if i == s.len() - 1 {
        assert(forall|j: int| 0 <= j < s1.len() ==> pred(#[trigger] s1[j]));
        lemma_filter_all_true(s1, pred);
        s1.lemma_filter_push(s.last(), pred);
        assert(s1.push(s.last()) =~= s);
        assert(s.remove(i) =~= s1);
    } else {
        assert(forall|j: int|
            0 <= j < s1.len() && j != i ==> pred(#[trigger] s1[j]));
        lemma_filter_one_out(s1, pred, i);
        s1.lemma_filter_push(s.last(), pred);
        assert(s1.push(s.last()) =~= s);
        assert(s.remove(i) =~= s1.remove(i).push(s.last()));
    }
}

/// The registry itself. All operations take `&mut self` or `&self` on the
/// whole registry, matching the single critical section the connection
/// layer serializes them under.
pub struct PlayerRegistry {
    players: Vec<OnlinePlayer>,
}

impl PlayerRegistry {
    /// The registered occupants, in registration order.
    pub closed spec fn players_seq(&self) -> Seq<OnlinePlayer> {
        self.players@
    }

    /// Well-formedness: occupant ids are unique.
    pub open spec fn wf(&self) -> bool {
        unique_ids(self.players_seq())
    }

    pub fn new() -> (r: PlayerRegistry)
        ensures
            r.wf(),
            r.players_seq().len() == 0,
    {
        PlayerRegistry { players: Vec::new() }
    }

    /// Number of registered occupants.
    pub fn player_count(&self) -> (n: usize)
        ensures
            n == self.players_seq().len(),
    {
        self.players.len()
    }

    /// Register an occupant. The caller guarantees the id is fresh, as
    /// ids are allocated from a monotone counter.
    pub fn add_player(&mut self, p: OnlinePlayer)
        requires
            old(self).wf(),
            forall|i: int|
                0 <= i < old(self).players_seq().len() ==> (
                #[trigger] old(self).players_seq()[i]).object_id != p.object_id,
        ensures
            final(self).wf(),
            final(self).players_seq() == old(self).players_seq().push(p),
    {
        self.players.push(p);
    }

    /// Deregister an occupant: afterwards the registry holds exactly the
    /// occupants whose id differs, in their old order; absent ids are a
    /// no-op.
    pub fn remove_player(&mut self, object_id: i32)
        requires
            old(self).wf(),
        ensures
            final(self).wf(),
            final(self).players_seq() == old(self).players_seq().filter(
                |p: OnlinePlayer| p.object_id != object_id,
            ),
    {
        let ghost pred = |p: OnlinePlayer| p.object_id != object_id;
        let n = self.players.len();
        let mut i: usize = 0;
        while i < n
            invariant
                i <= n,
                n == self.players@.len(),
                *self == *old(self),
                old(self).wf(),
                pred == (|p: OnlinePlayer| p.object_id != object_id),
                forall|j: int| 0 <= j < i ==> (#[trigger] self.players@[j]).object_id != object_id,
            decreases n - i,
        {
            if self.players[i].object_id == object_id {
                proof {
                    assert(!pred(self.players@[i as int]));
                    assert forall|j: int|
                        0 <= j < self.players@.len() && j != i implies pred(
                        #[trigger] self.players@[j],
                    ) by {
                        if j > i {
                            assert(self.players_seq()[i as int].object_id
                                != self.players_seq()[j].object_id);
                        }
                    }
                    lemma_filter_one_out(self.players@, pred, i as int);
                    lemma_unique_ids_remove(self.players@, i as int);
                }
                self.players.remove(i);
                return ;
            }
            i += 1;
        }
        proof {
            assert forall|j: int|
                0 <= j < self.players@.len() implies pred(#[trigger] self.players@[j]) by {}
            lemma_filter_all_true(self.players@, pred);
        }
    }

    /// Move an occupant: the record with the id gets the new position and
    /// heading, every other record is untouched; absent ids are a no-op.
    pub fn update_position(&mut self, object_id: i32, x: i32, y: i32, heading: i32)
        requires
            old(self).wf(),
        ensures
            final(self).wf(),
            final(self).players_seq().len() == old(self).players_seq().len(),
            forall|j: int|
                0 <= j < old(self).players_seq().len() && (
                #[trigger] old(self).players_seq()[j]).object_id != object_id ==> final(self).players_seq()[j] == old(self).players_seq()[j],
            forall|j: int|
                0 <= j < old(self).players_seq().len() && (
                #[trigger] old(self).players_seq()[j]).object_id == object_id ==> final(self).players_seq()[j] == (OnlinePlayer { x, y, heading, ..old(self).players_seq()[j] }),
    {
        let n = self.players.len();
        let mut i: usize = 0;
        while i < n
            invariant
                i <= n,
                n == self.players@.len(),
                *self == *old(self),
                old(self).wf(),
                forall|j: int| 0 <= j < i ==> (#[trigger] self.players@[j]).object_id != object_id,
            decreases n - i,
        {
            if self.players[i].object_id == object_id {
                let mut p = self.players.remove(i);
                p.x = x;
                p.y = y;
                p.heading = heading;
                self.players.insert(i, p);
                proof {
                    assert(self.players_seq() =~= old(self).players_seq().update(
                        i as int,
                        (OnlinePlayer { x, y, heading, ..old(self).players_seq()[i as int] }),
                    ));
                    assert forall|a: int|
                        0 <= a < self.players_seq().len() implies (
                    #[trigger] self.players_seq()[a]).object_id == old(
                        self,
                    ).players_seq()[a].object_id by {}
                    lemma_unique_ids_pointwise(self.players_seq(), old(self).players_seq());
                    assert forall|j: int|
                        0 <= j < old(self).players_seq().len() && (
                    #[trigger] old(self).players_seq()[j]).object_id == object_id implies
                        self.players_seq()[j] == (OnlinePlayer {
                        x,
                        y,
                        heading,
                        ..old(self).players_seq()[j]
                    }) by {
                        if j != i {
                            assert(old(self).players_seq()[i as int].object_id == object_id);
                        }
                    }
                }
                return ;
            }
            i += 1;
        }
    }

    /// Ids of the occupants on `map_id` within visibility range of
    /// `(x, y)`, excluding `exclude_id`, in registration order.
    pub fn get_nearby_players(&self, map_id: i32, x: i32, y: i32, exclude_id: i32) -> (r: Vec<i32>)
        ensures
            r@ == self.players_seq().filter(sees_event(map_id, x, y, exclude_id)).map_values(
                |p: OnlinePlayer| p.object_id,
            ),
    {
        let ghost pred = sees_event(map_id, x, y, exclude_id);
        let n = self.players.len();
        let mut r: Vec<i32> = Vec::new();
        let mut i: usize = 0;
        proof {
            assert(self.players@.take(0) =~= Seq::<OnlinePlayer>::empty());
            assert(Seq::<OnlinePlayer>::empty().filter(pred).map_values(
                |p: OnlinePlayer| p.object_id,
            ) =~= Seq::<i32>::empty());
        }
        while i < n
            invariant
                i <= n,
                n == self.players@.len(),
                pred == sees_event(map_id, x, y, exclude_id),
                r@ == self.players@.take(i as int).filter(pred).map_values(
                    |p: OnlinePlayer| p.object_id,
                ),
            decreases n - i,
        {
            proof {
                self.players@.take(i as int).lemma_filter_push(self.players@[i as int], pred);
                assert(self.players@.take(i as int).push(self.players@[i as int])
                    =~= self.players@.take(i + 1));
            }
            let visible = self.is_visible(i, map_id, x, y, exclude_id);
            if visible {
                r.push(self.players[i].object_id);
                proof {
                    assert(r@ =~= self.players@.take(i + 1).filter(pred).map_values(
                        |p: OnlinePlayer| p.object_id,
                    ));
                }
            }
            i += 1;
        }
        proof {
            assert(self.players@.take(n as int) =~= self.players@);
        }
        r
    }

    /// Whether occupant `i` sees an event at `(x, y)`.
    fn is_visible(&self, i: usize, map_id: i32, x: i32, y: i32, exclude_id: i32) -> (r: bool)
        requires
            i < self.players_seq().len(),
        ensures
            r == sees_event(map_id, x, y, exclude_id)(self.players_seq()[i as int]),
    {
        let p = &self.players[i];
        if p.map_id != map_id || p.object_id == exclude_id {
            return false;
        }
        let dx: i64 = if p.x as i64 >= x as i64 {
            p.x as i64 - x as i64
        } else {
            x as i64 - p.x as i64
        };
        let dy: i64 = if p.y as i64 >= y as i64 {
            p.y as i64 - y as i64
        } else {
            y as i64 - p.y as i64
        };
        let d = if dx >= dy {
            dx
        } else {
            dy
        };
        d <= VISIBILITY_RANGE as i64
    }

    /// Snapshot of every occupant's id and position, in registration
    /// order: the bridge copies this out under the critical section and
    /// feeds it to the tick engine as its observer set.
    pub fn positions_snapshot(&self) -> (r: Vec<(i32, i32, i32, i32)>)
        ensures
            r@ == self.players_seq().map_values(
                |p: OnlinePlayer| (p.object_id, p.x, p.y, p.map_id),
            ),
    {
        let n = self.players.len();
        let mut r: Vec<(i32, i32, i32, i32)> = Vec::new();
        let mut i: usize = 0;
        proof {
            assert(self.players@.take(0) =~= Seq::<OnlinePlayer>::empty());
            assert(r@ =~= Seq::<OnlinePlayer>::empty().map_values(
                |p: OnlinePlayer| (p.object_id, p.x, p.y, p.map_id),
            ));
        }
        while i < n
            invariant
                i <= n,
                n == self.players@.len(),
                r@ == self.players@.take(i as int).map_values(
                    |p: OnlinePlayer| (p.object_id, p.x, p.y, p.map_id),
                ),
            decreases n - i,
        {
            let p = &self.players[i];
            r.push((p.object_id, p.x, p.y, p.map_id));
            proof {
                assert(self.players@.take(i as int).push(self.players@[i as int])
                    =~= self.players@.take(i + 1));
                assert(r@ =~= self.players@.take(i + 1).map_values(
                    |q: OnlinePlayer| (q.object_id, q.x, q.y, q.map_id),
                ));
            }
            i += 1;
        }
        proof {
            assert(self.players@.take(n as int) =~= self.players@);
        }
        r
    }

    /// A reference to the record with an id, if present.
    pub fn get_player(&self, object_id: i32) -> (r: Option<&OnlinePlayer>)
        ensures
            r matches Some(p) ==> p.object_id == object_id && (exists|j: int|
                0 <= j < self.players_seq().len() && #[trigger] self.players_seq()[j] == *p),
            r is None ==> forall|j: int|
                0 <= j < self.players_seq().len() ==> (#[trigger] self.players_seq()[j]).object_id
                    != object_id,
    {
        let n = self.players.len();
        let mut i: usize = 0;
        while i < n
            invariant
                i <= n,
                n == self.players@.len(),
                forall|j: int| 0 <= j < i ==> (#[trigger] self.players@[j]).object_id != object_id,
            decreases n - i,
        {
            if self.players[i].object_id == object_id {
                proof {
                    assert(self.players_seq()[i as int] == self.players@[i as int]);
                }
                return Some(&self.players[i]);
            }
            i += 1;
        }
        None
    }

    /// Area-of-interest broadcast: append `payload` to the delivery queue
    /// of every occupant on `map_id` within visibility range of `(x, y)`
    /// except `exclude_id` — the originator's own queue is never touched,
    /// and neither is anyone out of range or on another map.
    pub fn broadcast_to_nearby(
        &mut self,
        map_id: i32,
        x: i32,
        y: i32,
        exclude_id: i32,
        payload: &[u8],
    )
        requires
            old(self).wf(),
        ensures
            final(self).wf(),
            final(self).players_seq().len() == old(self).players_seq().len(),
            forall|j: int|
                0 <= j < old(self).players_seq().len() && sees_event(map_id, x, y, exclude_id)(
                    #[trigger] old(self).players_seq()[j],
                ) ==> same_player_data(final(self).players_seq()[j], old(self).players_seq()[j])
                    && final(self).players_seq()[j].outbox.deep_view() == old(self).players_seq()[j].outbox.deep_view().push(payload@),
            forall|j: int|
                0 <= j < old(self).players_seq().len() && !sees_event(map_id, x, y, exclude_id)(
                    #[trigger] old(self).players_seq()[j],
                ) ==> final(self).players_seq()[j] == old(self).players_seq()[j],
            forall|j: int|
                0 <= j < old(self).players_seq().len() && (
                #[trigger] old(self).players_seq()[j]).object_id == exclude_id ==> final(self).players_seq()[j] == old(self).players_seq()[j],
    {
        let ghost pred = sees_event(map_id, x, y, exclude_id);
        let n = self.players.len();
        let mut i: usize = 0;
        while i < n
            invariant
                i <= n,
                n == self.players@.len(),
                pred == sees_event(map_id, x, y, exclude_id),
                old(self).wf(),
                self.players@.len() == old(self).players@.len(),
                forall|j: int| i <= j < n ==> #[trigger] self.players@[j] == old(self).players@[j],
                forall|j: int|
                    0 <= j < i && pred(#[trigger] old(self).players@[j]) ==> same_player_data(
                        self.players@[j],
                        old(self).players@[j],
                    ) && self.players@[j].outbox.deep_view() == old(self).players@[j].outbox.deep_view().push(payload@),
                forall|j: int|
                    0 <= j < i && !pred(#[trigger] old(self).players@[j]) ==> self.players@[j]
                        == old(self).players@[j],
            decreases n - i,
        {
            let ghost before = self.players@;
            let visible = self.is_visible(i, map_id, x, y, exclude_id);
            if visible {
                let mut p = self.players.remove(i);
                let ghost outbox0 = p.outbox.deep_view();
                let msg = vstd::slice::slice_to_vec(payload);
                p.outbox.push(msg);
                proof {
                    assert(p.outbox.deep_view() =~~= outbox0.push(payload@));
                }
                self.players.insert(i, p);
                proof {
                    assert(self.players@ =~= before.update(i as int, p));
                    assert(same_player_data(p, before[i as int]));
                }
            }
            i += 1;
        }
        proof {
            assert forall|a: int|
                0 <= a < self.players_seq().len() implies (
            #[trigger] self.players_seq()[a]).object_id == old(
                self,
            ).players_seq()[a].object_id by {
                if sees_event(map_id, x, y, exclude_id)(old(self).players@[a]) {
                } else {
                }
            }
            lemma_unique_ids_pointwise(self.players_seq(), old(self).players_seq());
        }
    }

    /// Take every queued payload for an occupant, leaving its queue
    /// empty; the caller delivers them outside the critical section.
    /// Unknown ids get an empty batch.
    pub fn drain_outbox(&mut self, object_id: i32) -> (msgs: Vec<Vec<u8>>)
        requires
            old(self).wf(),
        ensures
            final(self).wf(),
            final(self).players_seq().len() == old(self).players_seq().len(),
            forall|j: int|
                0 <= j < old(self).players_seq().len() && (
                #[trigger] old(self).players_seq()[j]).object_id != object_id ==> final(self).players_seq()[j] == old(self).players_seq()[j],
            forall|j: int|
                0 <= j < old(self).players_seq().len() && (
                #[trigger] old(self).players_seq()[j]).object_id == object_id ==> same_player_data(
                    final(self).players_seq()[j],
                    old(self).players_seq()[j],
                ) && final(self).players_seq()[j].outbox.deep_view().len() == 0
                    && msgs.deep_view() == old(self).players_seq()[j].outbox.deep_view(),
    {
        let n = self.players.len();
        let mut i: usize = 0;
        while i < n
            invariant
                i <= n,
                n == self.players@.len(),
                *self == *old(self),
                old(self).wf(),
                forall|j: int| 0 <= j < i ==> (#[trigger] self.players@[j]).object_id != object_id,
            decreases n - i,
        {
            if self.players[i].object_id == object_id {
                let mut p = self.players.remove(i);
                let mut msgs: Vec<Vec<u8>> = Vec::new();
                core::mem::swap(&mut p.outbox, &mut msgs);
                self.players.insert(i, p);
                proof {
                    assert(self.players@ =~= old(self).players@.update(i as int, p));
                    lemma_unique_ids_pointwise(self.players_seq(), old(self).players_seq());
                }
                return msgs;
            }
            i += 1;
        }
        Vec::new()
    }
}

/// Registering an occupant with a fresh id and immediately deregistering
/// it returns the registry to exactly its prior contents, so every
/// `nearby` query answers as before: no ghost entries.
pub proof fn lemma_register_deregister(players: Seq<OnlinePlayer>, p: OnlinePlayer)
    requires
        forall|i: int|
            0 <= i < players.len() ==> (#[trigger] players[i]).object_id != p.object_id,
    ensures
        players.push(p).filter(|q: OnlinePlayer| q.object_id != p.object_id) == players,
{
    let pred = |q: OnlinePlayer| q.object_id != p.object_id;
    players.lemma_filter_push(p, pred);
    lemma_filter_all_true(players, pred);
}

} // verus!

//! Spatial index for simulated entities: one entry per entity carrying
//! its cell, kept aligned with the tick engine's entity list so that
//! membership updates are constant-time.

use vstd::prelude::*;

use crate::position::{chebyshev, ObjectId};

verus! {

/// One index entry: `(object id, map, x, y)`.
pub type GridEntry = (ObjectId, i32, i32, i32);

/// The spatial index. The engine keeps entry `i` in sync with its `i`-th
/// entity, so every entity mutation updates both in the same step.
pub struct WorldGrid {
    entries: Vec<GridEntry>,
}

/// Membership test for a visibility query: the entry lies on `map_id`
/// within Chebyshev `range` of `(x, y)`.
pub open spec fn within_cell(map_id: i32, x: i32, y: i32, range: i32) -> spec_fn(GridEntry) -> bool {
    |e: GridEntry| e.1 == map_id && chebyshev(e.2 as int, e.3 as int, x as int, y as int) <= range
}

impl WorldGrid {
    /// The index contents.
    pub closed spec fn entries_seq(&self) -> Seq<GridEntry> {
        self.entries@
    }

    pub fn new() -> (g: WorldGrid)
        ensures
            g.entries_seq() == Seq::<GridEntry>::empty(),
    {
        WorldGrid { entries: Vec::new() }
    }

    /// Number of objects the index tracks.
    pub fn total_objects(&self) -> (n: usize)
        ensures
            n == self.entries_seq().len(),
    {
        self.entries.len()
    }

    /// Record a new object at a cell.
    pub(crate) fn add(&mut self, id: ObjectId, map_id: i32, x: i32, y: i32)
        ensures
            final(self).entries_seq() == old(self).entries_seq().push((id, map_id, x, y)),
    {
        self.entries.push((id, map_id, x, y));
    }

    /// Move the object tracked by entry `i` to a new cell on its map.
    pub(crate) fn update_at(&mut self, i: usize, x: i32, y: i32)
        requires
            i < old(self).entries_seq().len(),
        ensures
            final(self).entries_seq() == old(self).entries_seq().update(
                i as int,
                (old(self).entries_seq()[i as int].0, old(self).entries_seq()[i as int].1, x, y),
            ),
    {
        let e = self.entries[i];
        self.entries.set(i, (e.0, e.1, x, y));
    }

    /// Drop entry `i` from the index.
    pub(crate) fn remove_at(&mut self, i: usize)
        requires
            i < old(self).entries_seq().len(),
        ensures
            final(self).entries_seq() == old(self).entries_seq().remove(i as int),
    {
        self.entries.remove(i);
    }

    /// Ids of the objects on `map_id` within Chebyshev `range` of
    /// `(x, y)`, in index order.
    pub fn occupants_within(&self, map_id: i32, x: i32, y: i32, range: i32) -> (r: Vec<ObjectId>)
        ensures
            r@ == self.entries_seq().filter(within_cell(map_id, x, y, range)).map_values(
                |e: GridEntry| e.0,
            ),
    {
        let ghost p = within_cell(map_id, x, y, range);
        let n = self.entries.len();
        let mut r: Vec<ObjectId> = Vec::new();
        let mut i: usize = 0;
        proof {
            assert(self.entries@.take(0) =~= Seq::<GridEntry>::empty());
            assert(Seq::<GridEntry>::empty().filter(p).map_values(|e: GridEntry| e.0)
                =~= Seq::<ObjectId>::empty());
        }
        while i < n
            invariant
                i <= n,
                n == self.entries@.len(),
                p == within_cell(map_id, x, y, range),
                r@ == self.entries@.take(i as int).filter(p).map_values(|e: GridEntry| e.0),
            decreases n - i,
        {
            proof {
                self.entries@.take(i as int).lemma_filter_push(self.entries@[i as int], p);
                assert(self.entries@.take(i as int).push(self.entries@[i as int]) =~= self.entries@.take(
                    i + 1,
                ));
            }
            let e = self.entries[i];
            let dx: i64 = if e.2 as i64 >= x as i64 {
                e.2 as i64 - x as i64
            } else {
                x as i64 - e.2 as i64
            };
            let dy: i64 = if e.3 as i64 >= y as i64 {
                e.3 as i64 - y as i64
            } else {
                y as i64 - e.3 as i64
            };
            let d = if dx >= dy {
                dx
            } else {
                dy
            };
            if e.1 == map_id && d <= range as i64 {
                r.push(e.0);
                proof {
                    assert(p(e));
                    assert(self.entries@.take(i as int).filter(p).map_values(
                        |en: GridEntry| en.0,
                    ).push(e.0) =~= self.entries@.take(i as int).filter(p).push(e).map_values(
                        |en: GridEntry| en.0,
                    ));
                }
            } else {
                proof {
                    assert(!p(e));
                }
            }
            i += 1;
        }
        proof {
            assert(self.entries@.take(n as int) =~= self.entries@);
        }
        r
    }
}

} // verus!

//! The sparse grid: an unordered mapping from cell coordinates to at most
//! one occupant each. Insertion at an occupied cell silently replaces the
//! prior occupant; absence is an empty optional, never an error.
//!
//! The backing table is keyed by the two coordinates packed into one
//! 64-bit word, a bijection, so the grid's abstract state is exactly a
//! finite map from positions to occupant records.

use vstd::prelude::*;
use vstd::set_lib::lemma_map_size;
use vstd::std_specs::hash::spec_hash_map_iter;
use vstd::std_specs::iter::IteratorSpec;

use std::collections::HashMap;

use crate::entity::{EntityId, GridEntity};
use crate::position::GridPosition;
use crate::rotation::Rotation;

verus! {

broadcast use vstd::std_specs::hash::group_hash_axioms;

/// The packed table key that stands for a position: the `x` coordinate in
/// the upper half of the word, the `y` coordinate in the lower half.
spec fn key_of(p: GridPosition) -> u64 {
    (((p.x as u32) as u64) << 32) | ((p.y as u32) as u64)
}

/// The position a packed table key stands for; the inverse of `key_of`.
spec fn pos_of(k: u64) -> GridPosition {
    GridPosition { x: (((k >> 32) as u32) as i32), y: ((k as u32) as i32) }
}

proof fn lemma_pos_key_inverse(p: GridPosition)
    ensures
        pos_of(key_of(p)) == p,
{
    let x = p.x;
    let y = p.y;
    let k = key_of(p);
    assert((((k >> 32) as u32) as i32) == x && (((k as u32) as i32) == y)) by (bit_vector)
        requires
            k == (((x as u32) as u64) << 32) | ((y as u32) as u64),
    ;
}

proof fn lemma_key_pos_inverse(k: u64)
    ensures
        key_of(pos_of(k)) == k,
{
    let x = ((k >> 32) as u32) as i32;
    let y = (k as u32) as i32;
    assert((((x as u32) as u64) << 32) | ((y as u32) as u64) == k) by (bit_vector)
        requires
            x == ((k >> 32) as u32) as i32 && y == ((k as u32) as i32),
    ;
}

/// Distinct positions pack to distinct keys.
proof fn lemma_key_injective(p: GridPosition, q: GridPosition)
    ensures
        key_of(p) == key_of(q) ==> p == q,
{
    lemma_pos_key_inverse(p);
    lemma_pos_key_inverse(q);
}

/// Advance an iterator one step. The call goes through the `Iterator`
/// trait, whose contract relates the result to the prophesied sequence of
/// items the iterator will yield.
fn next_item<I: Iterator>(it: &mut I) -> (ret: Option<I::Item>)
    ensures
        (*final(it)).obeys_prophetic_iter_laws() == (*old(it)).obeys_prophetic_iter_laws(),
        (*final(it)).obeys_prophetic_iter_laws() ==> ((*old(it)).decrease() is Some <==> (*final(it)).decrease() is Some),
        (*final(it)).obeys_prophetic_iter_laws() ==> ({
            if (*old(it)).remaining().len() > 0 {
                &&& (*final(it)).remaining() == (*old(it)).remaining().drop_first()
                &&& ret == Some((*old(it)).remaining()[0])
            } else {
                (*final(it)).remaining() == (*old(it)).remaining() && ret is None
            }
        }),
        (*final(it)).obeys_prophetic_iter_laws() && (*old(it)).remaining().len() > 0 && (*final(it)).decrease() is Some ==> (decreases_to!(
            (*old(it)).decrease()->0 => (*final(it)).decrease()->0
        )),
{
    it.next()
}

/// Unpack a table key into the position it stands for.
fn unkey(k: u64) -> (p: GridPosition)
    ensures
        p == pos_of(k),
{
    GridPosition {
        x: (#[verifier::truncate] (((k >> 32u64) as u32) as i32)),
        y: (#[verifier::truncate] ((k as u32) as i32)),
    }
}

/// Pack a position into its table key.
fn key(position: GridPosition) -> (k: u64)
    ensures
        k == key_of(position),
{
    ((#[verifier::truncate] (position.x as u32)) as u64) << 32u64 | ((#[verifier::truncate] (
    position.y as u32)) as u64)
}

/// What a value lookup at `p` reports of the grid contents `g`: the
/// occupant if `p` is occupied, absence otherwise.
pub open spec fn spec_lookup(g: Map<GridPosition, GridEntity>, p: GridPosition) -> Option<
    GridEntity,
> {
    if g.contains_key(p) {
        Some(g[p])
    } else {
        None
    }
}

/// The half-extent of the square that `fill` writes: `radius` reduced
/// modulo 2, keeping the sign of `radius` as the machine remainder does.
pub open spec fn fill_extent(radius: int) -> int {
    if radius >= 0 {
        radius % 2
    } else {
        -((-radius) % 2)
    }
}

/// Whether `fill` with the given `radius` writes the cell `p`: both
/// coordinates lie in `[-m, m)` for `m` the reduced extent.
pub open spec fn in_fill_range(p: GridPosition, radius: int) -> bool {
    let m = fill_extent(radius);
    -m <= p.x < m && -m <= p.y < m
}

/// The grid contents after `fill`: every cell of the written square holds
/// the new occupant; every other entry of `g` is kept.
pub open spec fn fill_result(
    g: Map<GridPosition, GridEntity>,
    entity: EntityId,
    rotation: Rotation,
    radius: int,
) -> Map<GridPosition, GridEntity> {
    Map::new(
        |p: GridPosition| g.contains_key(p) || in_fill_range(p, radius),
        |p: GridPosition|
            if in_fill_range(p, radius) {
                GridEntity { entity, rotation }
            } else {
                g[p]
            },
    )
}

/// The grid contents part-way through `fill`'s column-by-column sweep:
/// the cells written so far are those of the square that precede column
/// `x`, or sit in column `x` below row `y`.
spec fn filled_upto(
    g: Map<GridPosition, GridEntity>,
    entry: GridEntity,
    m: int,
    x: int,
    y: int,
) -> Map<GridPosition, GridEntity> {
    let written = |p: GridPosition|
        -m <= p.x < m && -m <= p.y < m && (p.x < x || (p.x == x && p.y < y));
    Map::new(
        |p: GridPosition| g.contains_key(p) || written(p),
        |p: GridPosition|
            if written(p) {
                entry
            } else {
                g[p]
            },
    )
}

/// The sparse coordinate-to-occupant mapping. Its abstract state, written
/// `self@`, is a finite `Map` from positions to occupant records; every
/// operation's contract is stated over that map.
#[derive(Debug, PartialEq, Eq)]
pub struct Grid {
    data: HashMap<u64, GridEntity>,
}

impl View for Grid {
    type V = Map<GridPosition, GridEntity>;

    closed spec fn view(&self) -> Map<GridPosition, GridEntity> {
        Map::new(
            |p: GridPosition| self.data@.contains_key(key_of(p)),
            |p: GridPosition| self.data@[key_of(p)],
        )
    }
}

impl Clone for Grid {
    /// An independent grid holding the same entries.
    fn clone(&self) -> (r: Self)
        ensures
            r@ == self@,
    {
        Grid { data: self.data.clone() }
    }
}

impl Default for Grid {
    /// The empty grid.
    fn default() -> (r: Self)
        ensures
            r@ == Map::<GridPosition, GridEntity>::empty(),
    {
        let g = Grid { data: HashMap::new() };
        proof {
            assert(g@ =~= Map::<GridPosition, GridEntity>::empty());
        }
        g
    }
}

impl Grid {
    /// Create an empty grid.
    pub fn new() -> (r: Self)
        ensures
            r@ == Map::<GridPosition, GridEntity>::empty(),
    {
        Self::default()
    }

    /// Place `entity` with `rotation` at `position`, silently replacing any
    /// prior occupant of that cell. Total: it succeeds on every input.
    pub fn insert(&mut self, position: GridPosition, entity: EntityId, rotation: Rotation)
        ensures
            final(self)@ == old(self)@.insert(position, GridEntity { entity, rotation }),
    {
        let entry = GridEntity { entity, rotation };
        self.data.insert(key(position), entry);
        proof {
            assert forall|q: GridPosition| key_of(q) == key_of(position) implies q == position by {
                lemma_key_injective(q, position);
            }
            assert(self@ =~= old(self)@.insert(position, entry));
        }
    }

    /// Remove and return the occupant of `position`, or `None` if the cell
    /// was empty (not an error).
    pub fn remove(&mut self, position: GridPosition) -> (r: Option<GridEntity>)
        ensures
            final(self)@ == old(self)@.remove(position),
            r == spec_lookup(old(self)@, position),
    {
        let r = self.data.remove(&key(position));
        proof {
            assert forall|q: GridPosition| key_of(q) == key_of(position) implies q == position by {
                lemma_key_injective(q, position);
            }
            assert(self@ =~= old(self)@.remove(position));
        }
        r
    }

    /// Look up the occupant of `position` by value.
    pub fn get(&self, position: GridPosition) -> (r: Option<GridEntity>)
        ensures
            r == spec_lookup(self@, position),
    {
        match self.data.get(&key(position)) {
            Some(e) => Some(*e),
            None => None,
        }
    }

    /// Borrow the occupant of `position` mutably, to update its identity or
    /// facing in place without removing and reinserting, or `None` if the
    /// cell is empty.
    pub fn get_mut(&mut self, position: GridPosition) -> (r: Option<&mut GridEntity>)
        ensures
            match r {
                Some(v) => old(self)@.contains_key(position) && *v == old(self)@[position]
                    && final(self)@ == old(self)@.insert(position, *final(v)),
                None => !old(self)@.contains_key(position) && final(self)@ == old(self)@,
            },
    {
        let k = key(position);
        if self.data.contains_key(&k) {
            match self.data.entry(k) {
                std::collections::hash_map::Entry::Occupied(e) => {
                    let v = e.into_mut();
                    proof {
                        assert forall|q: GridPosition|
                            key_of(q) == key_of(position) implies q == position by {
                            lemma_key_injective(q, position);
                        }
                        assert(after_borrow(self)@ =~= old(self)@.insert(position, *final(v)));
                    }
                    Some(v)
                },
                std::collections::hash_map::Entry::Vacant(_) => {
                    proof {
                        assert(false);
                    }
                    None
                },
            }
        } else {
            None
        }
    }

    /// Whether `position` is occupied.
    pub fn contains(&self, position: GridPosition) -> (r: bool)
        ensures
            r == self@.contains_key(position),
    {
        self.data.contains_key(&key(position))
    }

    /// The number of occupied cells.
    pub fn len(&self) -> (r: usize)
        ensures
            r == self@.dom().len(),
    {
        proof {
            self.lemma_view_len();
        }
        self.data.len()
    }

    /// Traverse all entries: every occupied position, paired with its
    /// occupant, each exactly once, in no particular order (the backing
    /// table is unordered, so callers must not rely on the order).
    pub fn iter(&self) -> (r: Vec<(GridPosition, GridEntity)>)
        ensures
            r@.len() == self@.dom().len(),
            forall|i: int|
                0 <= i < r@.len() ==> self@.contains_key(#[trigger] r@[i].0) && r@[i].1
                    == self@[r@[i].0],
            forall|p: GridPosition|
                self@.contains_key(p) ==> exists|i: int|
                    0 <= i < r@.len() && (#[trigger] r@[i]).0 == p,
            forall|i: int, j: int| 0 <= i < j < r@.len() ==> (#[trigger] r@[i]).0 != (#[trigger] r@[j]).0,
    {
        let mut out: Vec<(GridPosition, GridEntity)> = Vec::new();
        let mut entries = self.data.iter();
        proof {
            assert(entries.remaining() =~= spec_hash_map_iter(&self.data).remaining().skip(0));
        }
        loop
            invariant_except_break
                entries.obeys_prophetic_iter_laws(),
                entries.decrease() is Some,
                out@.len() <= spec_hash_map_iter(&self.data).remaining().len(),
                entries.remaining() == spec_hash_map_iter(&self.data).remaining().skip(
                    out@.len() as int,
                ),
                forall|j: int|
                    0 <= j < out@.len() ==> #[trigger] out@[j] == (
                        pos_of(*spec_hash_map_iter(&self.data).remaining()[j].0),
                        *spec_hash_map_iter(&self.data).remaining()[j].1,
                    ),
            ensures
                out@.len() == spec_hash_map_iter(&self.data).remaining().len(),
                forall|j: int|
                    0 <= j < out@.len() ==> #[trigger] out@[j] == (
                        pos_of(*spec_hash_map_iter(&self.data).remaining()[j].0),
                        *spec_hash_map_iter(&self.data).remaining()[j].1,
                    ),
            decreases entries.decrease()->0,
        {
            match next_item(&mut entries) {
                Some(kv) => {
                    proof {
                        let s = spec_hash_map_iter(&self.data).remaining();
                        let n = out@.len() as int;
                        assert(kv == s.skip(n)[0]);
                        assert(s.skip(n)[0] == s[n]);
                        assert(s.skip(n).drop_first() =~= s.skip(n + 1));
                    }
                    out.push((unkey(*kv.0), *kv.1));
                },
                None => {
                    proof {
                        let s = spec_hash_map_iter(&self.data).remaining();
                        assert(s.skip(out@.len() as int).len() == 0);
                    }
                    break;
                },
            }
        }
        proof {
            self.lemma_view_len();
            let s = spec_hash_map_iter(&self.data).remaining();
            assert forall|i: int|
                0 <= i < out@.len() implies self@.contains_key(#[trigger] out@[i].0) && out@[i].1
                == self@[out@[i].0] by {
                let k = *s[i].0;
                lemma_key_pos_inverse(k);
                assert(self.data@.contains_key(k) && self.data@[k] == *s[i].1);
            }
            assert forall|p: GridPosition| self@.contains_key(p) implies exists|i: int|
                0 <= i < out@.len() && (#[trigger] out@[i]).0 == p by {
                lemma_pos_key_inverse(p);
                let pair = (&key_of(p), &self.data@[key_of(p)]);
                assert(s.contains(pair));
                let i = choose|i: int| 0 <= i < s.len() && s[i] == pair;
                assert(out@[i].0 == p);
            }
            assert forall|i: int, j: int| 0 <= i < j < out@.len() implies (#[trigger] out@[i]).0
                != (#[trigger] out@[j]).0 by {
                lemma_key_pos_inverse(*s[i].0);
                lemma_key_pos_inverse(*s[j].0);
                if *s[i].0 == *s[j].0 {
                    assert(self.data@[*s[i].0] == *s[i].1);
                    assert(self.data@[*s[j].0] == *s[j].1);
                    assert(s[i] == s[j]);
                    assert(s.no_duplicates());
                }
            }
        }
        out
    }

    /// Traverse all entries mutably: replace each occupant record in place
    /// by what `f` returns for its position and current record, visiting
    /// every occupied cell exactly once. The updating counterpart of
    /// `iter`; the set of occupied positions is unchanged.
    pub fn iter_mut<F: Fn(GridPosition, GridEntity) -> GridEntity>(&mut self, f: F)
        requires
            forall|p: GridPosition, e: GridEntity| #[trigger] call_requires(f, (p, e)),
        ensures
            final(self)@.dom() == old(self)@.dom(),
            forall|p: GridPosition|
                old(self)@.contains_key(p) ==> call_ensures(
                    f,
                    (p, old(self)@[p]),
                    #[trigger] final(self)@[p],
                ),
    {
        let entries = self.iter();
        let mut i: usize = 0;
        while i < entries.len()
            invariant
                forall|p: GridPosition, e: GridEntity| #[trigger] call_requires(f, (p, e)),
                i <= entries@.len(),
                forall|j: int|
                    0 <= j < entries@.len() ==> old(self)@.contains_key(#[trigger] entries@[j].0)
                        && entries@[j].1 == old(self)@[entries@[j].0],
                forall|p: GridPosition|
                    old(self)@.contains_key(p) ==> exists|j: int|
                        0 <= j < entries@.len() && (#[trigger] entries@[j]).0 == p,
                forall|j: int, k: int|
                    0 <= j < k < entries@.len() ==> (#[trigger] entries@[j]).0 != (
                    #[trigger] entries@[k]).0,
                self@.dom() == old(self)@.dom(),
                forall|j: int|
                    0 <= j < i ==> call_ensures(
                        f,
                        (entries@[j].0, entries@[j].1),
                        #[trigger] self@[entries@[j].0],
                    ),
                forall|j: int|
                    i <= j < entries@.len() ==> #[trigger] self@[entries@[j].0] == entries@[j].1,
            decreases entries@.len() - i,
        {
            let (p, e) = entries[i];
            let updated = f(p, e);
            self.insert(p, updated.entity, updated.rotation);
            proof {
                assert(GridEntity { entity: updated.entity, rotation: updated.rotation }
                    == updated);
                assert(self@.dom() =~= old(self)@.dom());
            }
            i = i + 1;
        }
        proof {
            assert forall|p: GridPosition| old(self)@.contains_key(p) implies call_ensures(
                f,
                (p, old(self)@[p]),
                #[trigger] self@[p],
            ) by {
                let j = choose|j: int| 0 <= j < entries@.len() && (#[trigger] entries@[j]).0 == p;
                assert(call_ensures(f, (entries@[j].0, entries@[j].1), self@[entries@[j].0]));
            }
        }
    }

    /// Bulk-insert the same occupant into every cell of the square
    /// `[-m, m) x [-m, m)` where `m` is `radius` reduced modulo 2 (with the
    /// sign of `radius`, as `%` leaves it). Only an odd positive `radius`
    /// fills anything, and then only the four cells with coordinates in
    /// `{-1, 0}`; any other radius leaves the grid unchanged.
    pub fn fill(&mut self, entity: EntityId, rotation: Rotation, radius: i32)
        ensures
            final(self)@ == fill_result(old(self)@, entity, rotation, radius as int),
    {
        let m: i32 = radius % 2;
        let ghost grid0 = self@;
        let entry = GridEntity { entity, rotation };
        let mut x: i32 = -m;
        proof {
            assert(self@ =~= filled_upto(grid0, entry, m as int, -m as int, -m as int));
        }
        while x < m
            invariant
                -m <= x <= m || (m <= 0 && x == -m),
                -1 <= m <= 1,
                entry == (GridEntity { entity, rotation }),
                self@ == filled_upto(grid0, entry, m as int, x as int, -m as int),
            decreases m - x,
        {
            let mut y: i32 = -m;
            while y < m
                invariant
                    -m <= x < m,
                    -m <= y <= m,
                    -1 <= m <= 1,
                    entry == (GridEntity { entity, rotation }),
                    self@ == filled_upto(grid0, entry, m as int, x as int, y as int),
                decreases m - y,
            {
                let position = GridPosition::new(x, y);
                self.insert(position, entity, rotation);
                proof {
                    let prev = filled_upto(grid0, entry, m as int, x as int, y as int);
                    let next = filled_upto(grid0, entry, m as int, x as int, y + 1);
                    assert(self@ == prev.insert(position, entry));
                    assert forall|q: GridPosition| next.contains_key(q) implies
                        prev.insert(position, entry).contains_key(q) && next[q] == prev.insert(
                        position, entry)[q] by {
                        if q != position {
                            assert(!(q.x == x && q.y == y));
                        }
                    }
                    assert forall|q: GridPosition|
                        prev.insert(position, entry).contains_key(q) implies next.contains_key(
                        q) by {}
                    assert(self@ =~= next);
                }
                y = y + 1;
            }
            proof {
                assert(self@ =~= filled_upto(grid0, entry, m as int, x + 1, -m as int));
            }
            x = x + 1;
        }
        proof {
            assert(self@ =~= fill_result(grid0, entity, rotation, radius as int));
        }
    }

    /// The set of occupied positions is finite: the grid always holds
    /// finitely many entries.
    pub proof fn lemma_dom_finite(&self)
        ensures
            self@.dom().finite(),
    {
        self.lemma_view_len();
    }

    /// The abstract map has exactly as many entries as the backing table:
    /// unpacking keys is injective, so the domains are in bijection.
    proof fn lemma_view_len(&self)
        ensures
            self@.dom().len() == self.data@.dom().len(),
            self@.dom().finite(),
    {
        let f = |k: u64| pos_of(k);
        assert forall|k1: u64, k2: u64|
            #![trigger f(k1), f(k2)]
            f(k1) == f(k2) implies k1 == k2 by {
            lemma_key_pos_inverse(k1);
            lemma_key_pos_inverse(k2);
        }
        assert(self.data@.dom().map(f) =~= self@.dom()) by {
            assert forall|q: GridPosition| #[trigger]
                self@.dom().contains(q) implies self.data@.dom().map(f).contains(q) by {
                lemma_pos_key_inverse(q);
                assert(self.data@.dom().contains(key_of(q)) && f(key_of(q)) == q);
            }
            assert forall|q: GridPosition| #[trigger]
                self.data@.dom().map(f).contains(q) implies self@.dom().contains(q) by {
                let k = choose|k: u64| self.data@.dom().contains(k) && f(k) == q;
                lemma_key_pos_inverse(k);
            }
        }
        lemma_map_size(self.data@.dom(), self@.dom(), f);
    }
}

/// Placing an occupant at a position makes it what a lookup of that
/// position reports; removing it afterward reports it once more, and a
/// lookup of the emptied cell reports nothing.
pub proof fn lemma_insert_get_remove(
    g: Map<GridPosition, GridEntity>,
    position: GridPosition,
    occupant: GridEntity,
)
    ensures
        spec_lookup(g.insert(position, occupant), position) == Some(occupant),
        spec_lookup(g.insert(position, occupant).remove(position), position) is None,
{
}

/// A position is occupied exactly when a lookup of it reports an occupant.
pub proof fn lemma_contains_iff_lookup(g: Map<GridPosition, GridEntity>, position: GridPosition)
    ensures
        g.contains_key(position) <==> spec_lookup(g, position) is Some,
{
}

/// The count of entries is the size of the set of positions that are
/// occupied: exactly those on which `contains` answers true.
pub proof fn lemma_len_counts_occupied(g: Map<GridPosition, GridEntity>)
    ensures
        g.dom() == Set::new(|p: GridPosition| g.contains_key(p)),
        g.dom().len() == Set::new(|p: GridPosition| g.contains_key(p)).len(),
{
    assert(g.dom() =~= Set::new(|p: GridPosition| g.contains_key(p)));
}

} // verus!

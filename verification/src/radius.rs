//! The radius neighbor query: every occupied cell of the square
//! neighborhood `[-radius, radius] x [-radius, radius]` around a position
//! (Chebyshev distance at most `radius`), the center included when
//! occupied.

use vstd::prelude::*;
use vstd::arithmetic::div_mod::lemma_fundamental_div_mod_converse;

use crate::entity::{EntityId, GridEntity};
use crate::grid::Grid;
use crate::neighbor::Neighbor;
use crate::position::GridPosition;

verus! {

/// The displacements a radius query visits, in scan order: `dx` rising
/// from `-radius` to `radius` and, within each `dx`, `dy` rising likewise.
/// Empty for a negative radius.
pub open spec fn spec_scan_offsets(radius: int) -> Seq<(int, int)> {
    if radius < 0 {
        Seq::empty()
    } else {
        let side = 2 * radius + 1;
        Seq::new((side * side) as nat, |i: int| (-radius + i / side, -radius + i % side))
    }
}

/// The neighbors reported after the first `n` visited displacements: each
/// cell displaced from `center`, kept exactly when occupied, paired with
/// its occupant.
pub open spec fn spec_scan_prefix(
    g: Map<GridPosition, GridEntity>,
    center: GridPosition,
    radius: int,
    n: int,
) -> Seq<Neighbor>
    decreases n,
{
    if n <= 0 {
        Seq::empty()
    } else {
        let d = spec_scan_offsets(radius)[n - 1];
        let p = center.spec_offset(d.0, d.1);
        spec_scan_prefix(g, center, radius, n - 1) + (if g.contains_key(p) {
            seq![Neighbor { position: p, entry: g[p] }]
        } else {
            Seq::empty()
        })
    }
}

/// Everything a radius query reports: the occupied cells of the square
/// neighborhood, in scan order, each paired with its occupant.
pub open spec fn spec_radius_scan(
    g: Map<GridPosition, GridEntity>,
    center: GridPosition,
    radius: int,
) -> Seq<Neighbor> {
    spec_scan_prefix(g, center, radius, spec_scan_offsets(radius).len() as int)
}

/// The unordered collection a radius query returns.
#[derive(Debug, Clone, PartialEq)]
pub struct RadiusNeighbors {
    pub neighbors: Vec<Neighbor>,
}

impl RadiusNeighbors {
    /// The empty collection.
    pub fn new() -> (r: Self)
        ensures
            r.neighbors@ == Seq::<Neighbor>::empty(),
    {
        RadiusNeighbors { neighbors: Vec::new() }
    }

    /// `self` with every entry redacted: each keeps its position and
    /// facing, while its occupant identity becomes the sentinel. For
    /// comparisons where identity is irrelevant.
    pub fn with_empty_entities(&self) -> (r: Self)
        ensures
            r.neighbors@ == self.neighbors@.map_values(|n: Neighbor| n.spec_redacted()),
    {
        let mut out: Vec<Neighbor> = Vec::new();
        let mut i: usize = 0;
        while i < self.neighbors.len()
            invariant
                i <= self.neighbors@.len(),
                out@.len() == i,
                forall|j: int| 0 <= j < i ==> out@[j] == self.neighbors@[j].spec_redacted(),
            decreases self.neighbors@.len() - i,
        {
            let n = &self.neighbors[i];
            out.push(
                Neighbor {
                    position: n.position,
                    entry: GridEntity {
                        entity: EntityId::placeholder(),
                        rotation: n.entry.rotation,
                    },
                },
            );
            i = i + 1;
        }
        proof {
            assert(out@ =~= self.neighbors@.map_values(|n: Neighbor| n.spec_redacted()));
        }
        RadiusNeighbors { neighbors: out }
    }
}

/// The displacement `(dx, dy)` is visited at scan index
/// `(dx + radius) * side + (dy + radius)`, and reporting that cell extends
/// the scanned prefix by its entry exactly when it is occupied.
proof fn lemma_scan_cell(
    g: Map<GridPosition, GridEntity>,
    center: GridPosition,
    radius: int,
    dx: int,
    dy: int,
)
    requires
        radius >= 0,
        -radius <= dx <= radius,
        -radius <= dy <= radius,
    ensures
        ({
            let side = 2 * radius + 1;
            let n = (dx + radius) * side + (dy + radius);
            let p = center.spec_offset(dx, dy);
            &&& 0 <= n < side * side
            &&& spec_scan_offsets(radius)[n] == (dx, dy)
            &&& spec_scan_prefix(g, center, radius, n + 1) == (if g.contains_key(p) {
                spec_scan_prefix(g, center, radius, n).push(
                    Neighbor { position: p, entry: g[p] },
                )
            } else {
                spec_scan_prefix(g, center, radius, n)
            })
        }),
{
    let side = 2 * radius + 1;
    let n = (dx + radius) * side + (dy + radius);
    let p = center.spec_offset(dx, dy);
    assert(0 <= n < side * side) by (nonlinear_arith)
        requires
            radius >= 0,
            -radius <= dx <= radius,
            -radius <= dy <= radius,
            side == 2 * radius + 1,
            n == (dx + radius) * side + (dy + radius),
    ;
    lemma_fundamental_div_mod_converse(n, side, dx + radius, dy + radius);
    assert(spec_scan_offsets(radius)[n] == (dx, dy));
    let pre = spec_scan_prefix(g, center, radius, n);
    if g.contains_key(p) {
        assert(pre + seq![Neighbor { position: p, entry: g[p] }] =~= pre.push(
            Neighbor { position: p, entry: g[p] },
        ));
    } else {
        assert(pre + Seq::<Neighbor>::empty() =~= pre);
    }
}

/// Redacting a query's entries twice yields the same collection as
/// redacting them once.
pub proof fn lemma_redact_seq_idempotent(s: Seq<Neighbor>)
    ensures
        s.map_values(|n: Neighbor| n.spec_redacted()).map_values(|n: Neighbor| n.spec_redacted())
            == s.map_values(|n: Neighbor| n.spec_redacted()),
{
    assert(s.map_values(|n: Neighbor| n.spec_redacted()).map_values(
        |n: Neighbor| n.spec_redacted(),
    ) =~= s.map_values(|n: Neighbor| n.spec_redacted()));
}

/// Whether the `k`-th visited cell of a radius scan is occupied and its
/// reported entry is `nb`.
spec fn spec_scan_match(
    g: Map<GridPosition, GridEntity>,
    center: GridPosition,
    radius: int,
    k: int,
    nb: Neighbor,
) -> bool {
    let d = spec_scan_offsets(radius)[k];
    let p = center.spec_offset(d.0, d.1);
    g.contains_key(p) && nb == (Neighbor { position: p, entry: g[p] })
}

proof fn lemma_prefix_contains(
    g: Map<GridPosition, GridEntity>,
    center: GridPosition,
    radius: int,
    n: int,
    nb: Neighbor,
)
    requires
        radius >= 0,
        n <= spec_scan_offsets(radius).len(),
    ensures
        spec_scan_prefix(g, center, radius, n).contains(nb) <==> exists|k: int|
            0 <= k < n && #[trigger] spec_scan_match(g, center, radius, k, nb),
    decreases n,
{
    if n <= 0 {
        assert(!spec_scan_prefix(g, center, radius, n).contains(nb));
    } else {
        lemma_prefix_contains(g, center, radius, n - 1, nb);
        let d = spec_scan_offsets(radius)[n - 1];
        let p = center.spec_offset(d.0, d.1);
        let pre = spec_scan_prefix(g, center, radius, n - 1);
        let cur = spec_scan_prefix(g, center, radius, n);
        if g.contains_key(p) {
            let e = Neighbor { position: p, entry: g[p] };
            assert(cur =~= pre.push(e));
            if cur.contains(nb) {
                let i = choose|i: int| 0 <= i < cur.len() && cur[i] == nb;
                if i < pre.len() {
                    assert(pre.contains(nb));
                } else {
                    assert(spec_scan_match(g, center, radius, n - 1, nb));
                }
            }
            if exists|k: int| 0 <= k < n && #[trigger] spec_scan_match(g, center, radius, k, nb) {
                let k = choose|k: int|
                    0 <= k < n && #[trigger] spec_scan_match(g, center, radius, k, nb);
                if k < n - 1 {
                    let i = choose|i: int| 0 <= i < pre.len() && pre[i] == nb;
                    assert(cur[i] == nb);
                } else {
                    assert(cur[pre.len() as int] == nb);
                }
            }
        } else {
            assert(cur =~= pre);
            assert forall|k: int|
                0 <= k < n && #[trigger] spec_scan_match(g, center, radius, k, nb) implies 0 <= k
                < n - 1 by {
                if k == n - 1 {
                    assert(!g.contains_key(p));
                }
            }
        }
    }
}

/// What a radius scan holds: exactly the occupied cells whose displacement
/// from the center is at most `radius` in each coordinate, each paired
/// with its occupant.
pub proof fn lemma_radius_scan_contains(
    g: Map<GridPosition, GridEntity>,
    center: GridPosition,
    radius: int,
    nb: Neighbor,
)
    ensures
        spec_radius_scan(g, center, radius).contains(nb) <==> ({
            &&& g.contains_key(nb.position)
            &&& nb.entry == g[nb.position]
            &&& exists|dx: int, dy: int|
                -radius <= dx <= radius && -radius <= dy <= radius && nb.position == #[trigger] center.spec_offset(
                    dx,
                    dy,
                )
        }),
{
    if radius < 0 {
        assert(!spec_radius_scan(g, center, radius).contains(nb));
    } else {
        let side = 2 * radius + 1;
        let total = spec_scan_offsets(radius).len() as int;
        lemma_prefix_contains(g, center, radius, total, nb);
        if spec_radius_scan(g, center, radius).contains(nb) {
            let k = choose|k: int|
                0 <= k < total && #[trigger] spec_scan_match(g, center, radius, k, nb);
            assert(0 <= k / side <= 2 * radius && 0 <= k % side <= 2 * radius) by (nonlinear_arith)
                requires
                    radius >= 0,
                    side == 2 * radius + 1,
                    0 <= k < side * side,
            ;
            let d = spec_scan_offsets(radius)[k];
            assert(-radius <= d.0 <= radius && -radius <= d.1 <= radius && nb.position
                == center.spec_offset(d.0, d.1));
        }
        if ({
            &&& g.contains_key(nb.position)
            &&& nb.entry == g[nb.position]
            &&& exists|dx: int, dy: int|
                -radius <= dx <= radius && -radius <= dy <= radius && nb.position == #[trigger] center.spec_offset(
                    dx,
                    dy,
                )
        }) {
            let (dx, dy) = choose|dx: int, dy: int|
                -radius <= dx <= radius && -radius <= dy <= radius && nb.position == #[trigger] center.spec_offset(
                    dx,
                    dy,
                );
            lemma_scan_cell(g, center, radius, dx, dy);
            let k = (dx + radius) * side + (dy + radius);
            assert(spec_scan_match(g, center, radius, k, nb));
        }
    }
}

impl Grid {
    /// Scan the square neighborhood `[-radius, radius] x [-radius, radius]`
    /// around `position` (so `(2 * radius + 1)` squared cells, the center
    /// included) and collect every occupied cell with its occupant, in scan
    /// order. A negative radius scans nothing. Displacements wrap at the
    /// ends of the coordinate range.
    pub fn get_square_radius_neighbors(&self, position: GridPosition, radius: i32) -> (r:
        RadiusNeighbors)
        ensures
            r.neighbors@ == spec_radius_scan(self@, position, radius as int),
    {
        let mut acc: Vec<Neighbor> = Vec::new();
        if radius < 0 {
            return RadiusNeighbors { neighbors: acc };
        }
        let extent: i64 = radius as i64;
        let ghost side: int = 2 * (radius as int) + 1;
        let ghost mut n: int = 0;
        let mut x: i64 = -extent;
        while x <= extent
            invariant
                radius >= 0,
                extent == radius as int,
                side == 2 * (radius as int) + 1,
                -extent <= x <= extent + 1,
                n == (x + extent) * side,
                acc@ == spec_scan_prefix(self@, position, radius as int, n),
            decreases extent + 1 - x,
        {
            let mut y: i64 = -extent;
            while y <= extent
                invariant
                    radius >= 0,
                    extent == radius as int,
                    side == 2 * (radius as int) + 1,
                    -extent <= x <= extent,
                    -extent <= y <= extent + 1,
                    n == (x + extent) * side + (y + extent),
                    acc@ == spec_scan_prefix(self@, position, radius as int, n),
                decreases extent + 1 - y,
            {
                proof {
                    lemma_scan_cell(self@, position, radius as int, x as int, y as int);
                }
                match self.probe_offset(position, x as i32, y as i32) {
                    Some(nb) => acc.push(nb),
                    None => (),
                }
                proof {
                    n = n + 1;
                }
                y = y + 1;
            }
            proof {
                assert(n == ((x + 1) + extent) * side) by (nonlinear_arith)
                    requires
                        n == (x + extent) * side + (y + extent),
                        y == extent + 1,
                        side == 2 * extent + 1,
                ;
            }
            x = x + 1;
        }
        proof {
            assert(n == side * side) by (nonlinear_arith)
                requires
                    n == (x + extent) * side,
                    x == extent + 1,
                    side == 2 * extent + 1,
            ;
        }
        RadiusNeighbors { neighbors: acc }
    }

    /// Presently the same square scan as `get_square_radius_neighbors`:
    /// the name stands for a neighborhood rounded to Euclidean distance,
    /// a filter this query does not yet apply.
    pub fn get_rounded_radius_neighbors(&self, position: GridPosition, radius: i32) -> (r:
        RadiusNeighbors)
        ensures
            r.neighbors@ == spec_radius_scan(self@, position, radius as int),
    {
        self.get_square_radius_neighbors(position, radius)
    }
}

} // verus!

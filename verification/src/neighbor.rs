//! The entry common to all neighbor queries: an occupied cell's position
//! paired with its occupant record, and the redaction transform that
//! replaces the occupant's identity with the sentinel while keeping its
//! position and facing.

use vstd::prelude::*;

use crate::entity::{EntityId, GridEntity};
use crate::grid::Grid;
use crate::position::GridPosition;

verus! {

/// One occupied cell as a neighbor query reports it: where it is, and what
/// occupies it.
#[derive(Debug, Clone, PartialEq, Eq, Structural, Hash)]
pub struct Neighbor {
    pub position: GridPosition,
    pub entry: GridEntity,
}

impl Neighbor {
    /// Pair a position with the occupant found there.
    pub fn new(position: GridPosition, entry: GridEntity) -> (r: Self)
        ensures
            r == (Neighbor { position, entry }),
    {
        Neighbor { position, entry }
    }

    /// `self` with the occupant's identity replaced by the sentinel; the
    /// position and the facing are kept.
    pub open spec fn spec_redacted(self) -> Neighbor {
        Neighbor {
            position: self.position,
            entry: GridEntity {
                entity: EntityId::spec_placeholder(),
                rotation: self.entry.rotation,
            },
        }
    }
}

/// The redaction of an optional neighbor: absence is kept, a present entry
/// is redacted.
pub open spec fn spec_redact(o: Option<Neighbor>) -> Option<Neighbor> {
    match o {
        Some(n) => Some(n.spec_redacted()),
        None => None,
    }
}

/// What a point probe of the grid reports for cell `p`: the position and
/// occupant if `p` is occupied, absence otherwise.
pub open spec fn spec_neighbor_at(
    g: Map<GridPosition, GridEntity>,
    p: GridPosition,
) -> Option<Neighbor> {
    if g.contains_key(p) {
        Some(Neighbor { position: p, entry: g[p] })
    } else {
        None
    }
}

/// Redaction keeps every entry's position and facing, normalizes the
/// identity to the sentinel, and applying it twice changes nothing more
/// than applying it once.
pub proof fn lemma_redact_properties(n: Neighbor)
    ensures
        n.spec_redacted().position == n.position,
        n.spec_redacted().entry.rotation == n.entry.rotation,
        n.spec_redacted().entry.entity == EntityId::spec_placeholder(),
        n.spec_redacted().spec_redacted() == n.spec_redacted(),
{
}

/// Redaction of an optional entry is present exactly where the entry is,
/// and is idempotent.
pub proof fn lemma_redact_idempotent(o: Option<Neighbor>)
    ensures
        spec_redact(spec_redact(o)) == spec_redact(o),
        spec_redact(o) is Some <==> o is Some,
{
}

impl Grid {
    /// Probe one cell and report it as a neighbor entry if occupied.
    fn probe(&self, p: GridPosition) -> (r: Option<Neighbor>)
        ensures
            r == spec_neighbor_at(self@, p),
    {
        match self.get(p) {
            Some(entry) => Some(Neighbor { position: p, entry }),
            None => None,
        }
    }

    /// Probe the cell displaced from `position` by `(dx, dy)` (wrapping at
    /// the ends of the coordinate range) and report it if occupied.
    pub(crate) fn probe_offset(&self, position: GridPosition, dx: i32, dy: i32) -> (r: Option<
        Neighbor,
    >)
        ensures
            r == spec_neighbor_at(self@, position.spec_offset(dx as int, dy as int)),
    {
        let p = GridPosition {
            x: position.x.wrapping_add(dx),
            y: position.y.wrapping_add(dy),
        };
        self.probe(p)
    }
}

/// Redact an optional neighbor entry in place of the occupant's identity.
pub(crate) fn redact(o: &Option<Neighbor>) -> (r: Option<Neighbor>)
    ensures
        r == spec_redact(*o),
{
    match o {
        Some(n) => Some(
            Neighbor {
                position: n.position,
                entry: GridEntity { entity: EntityId::placeholder(), rotation: n.entry.rotation },
            },
        ),
        None => None,
    }
}

} // verus!

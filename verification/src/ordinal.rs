//! The ordinal neighbor query: the four diagonal cells adjacent to a
//! position, named north-west through south-west after the cardinal axes.

use vstd::prelude::*;

use crate::entity::GridEntity;
use crate::grid::Grid;
use crate::neighbor::{spec_neighbor_at, spec_redact, redact, Neighbor};
use crate::position::GridPosition;

verus! {

/// The four diagonal neighbors of a queried position, each present exactly
/// when the corresponding cell is occupied.
#[derive(Debug, Clone, PartialEq, Eq, Structural, Hash)]
pub struct OrdinalNeighbors {
    pub north_west: Option<Neighbor>,
    pub north_east: Option<Neighbor>,
    pub south_east: Option<Neighbor>,
    pub south_west: Option<Neighbor>,
}

impl OrdinalNeighbors {
    /// The result with every direction absent.
    pub fn new() -> (r: Self)
        ensures
            r.north_west is None,
            r.north_east is None,
            r.south_east is None,
            r.south_west is None,
    {
        OrdinalNeighbors { north_west: None, north_east: None, south_east: None, south_west: None }
    }

    /// `self` with every direction redacted: each present entry keeps its
    /// position and facing, while its occupant identity becomes the
    /// sentinel. For comparisons where identity is irrelevant.
    pub fn with_empty_entities(&self) -> (r: Self)
        ensures
            r.north_west == spec_redact(self.north_west),
            r.north_east == spec_redact(self.north_east),
            r.south_east == spec_redact(self.south_east),
            r.south_west == spec_redact(self.south_west),
    {
        OrdinalNeighbors {
            north_west: redact(&self.north_west),
            north_east: redact(&self.north_east),
            south_east: redact(&self.south_east),
            south_west: redact(&self.south_west),
        }
    }
}

impl Grid {
    /// Probe the four diagonal cells adjacent to `position`: north-west at
    /// `(x-1, y+1)`, north-east at `(x+1, y+1)`, south-east at `(x+1, y-1)`,
    /// south-west at `(x-1, y-1)`, each reported exactly when occupied.
    /// Offsets wrap at the ends of the coordinate range.
    pub fn get_ordinal_neighbors(&self, position: GridPosition) -> (r: OrdinalNeighbors)
        ensures
            r.north_west == spec_neighbor_at(self@, position.spec_offset(-1, 1)),
            r.north_east == spec_neighbor_at(self@, position.spec_offset(1, 1)),
            r.south_east == spec_neighbor_at(self@, position.spec_offset(1, -1)),
            r.south_west == spec_neighbor_at(self@, position.spec_offset(-1, -1)),
    {
        OrdinalNeighbors {
            north_west: self.probe_offset(position, -1, 1),
            north_east: self.probe_offset(position, 1, 1),
            south_east: self.probe_offset(position, 1, -1),
            south_west: self.probe_offset(position, -1, -1),
        }
    }
}

/// Occupants on the four diagonals of a queried position are reported in
/// the correspondingly named entries, each present with its own position
/// and record.
pub proof fn lemma_ordinal_directions(
    g: Map<GridPosition, GridEntity>,
    position: GridPosition,
)
    requires
        g.contains_key(position.spec_offset(-1, 1)),
        g.contains_key(position.spec_offset(1, 1)),
        g.contains_key(position.spec_offset(1, -1)),
        g.contains_key(position.spec_offset(-1, -1)),
    ensures
        spec_neighbor_at(g, position.spec_offset(-1, 1)) == Some(
            Neighbor {
                position: position.spec_offset(-1, 1),
                entry: g[position.spec_offset(-1, 1)],
            },
        ),
        spec_neighbor_at(g, position.spec_offset(1, 1)) == Some(
            Neighbor { position: position.spec_offset(1, 1), entry: g[position.spec_offset(1, 1)] },
        ),
        spec_neighbor_at(g, position.spec_offset(1, -1)) == Some(
            Neighbor {
                position: position.spec_offset(1, -1),
                entry: g[position.spec_offset(1, -1)],
            },
        ),
        spec_neighbor_at(g, position.spec_offset(-1, -1)) == Some(
            Neighbor {
                position: position.spec_offset(-1, -1),
                entry: g[position.spec_offset(-1, -1)],
            },
        ),
{
}

} // verus!

//! The cardinal neighbor query: the four axis-aligned cells adjacent to a
//! position. North is the `+y` direction, east is `+x`, which fixes the
//! rest of the directional naming.

use vstd::prelude::*;

use crate::entity::GridEntity;
use crate::grid::Grid;
use crate::neighbor::{spec_neighbor_at, spec_redact, redact, Neighbor};
use crate::position::GridPosition;

verus! {

/// The four axis-aligned neighbors of a queried position, each present
/// exactly when the corresponding cell is occupied.
#[derive(Debug, Clone, PartialEq, Eq, Structural, Hash)]
pub struct CardinalNeighbors {
    pub north: Option<Neighbor>,
    pub east: Option<Neighbor>,
    pub south: Option<Neighbor>,
    pub west: Option<Neighbor>,
}

impl CardinalNeighbors {
    /// The result with every direction absent.
    pub fn new() -> (r: Self)
        ensures
            r.north is None,
            r.east is None,
            r.south is None,
            r.west is None,
    {
        CardinalNeighbors { north: None, east: None, south: None, west: None }
    }

    /// `self` with every direction redacted: each present entry keeps its
    /// position and facing, while its occupant identity becomes the
    /// sentinel. For comparisons where identity is irrelevant.
    pub fn with_empty_entities(&self) -> (r: Self)
        ensures
            r.north == spec_redact(self.north),
            r.east == spec_redact(self.east),
            r.south == spec_redact(self.south),
            r.west == spec_redact(self.west),
    {
        CardinalNeighbors {
            north: redact(&self.north),
            east: redact(&self.east),
            south: redact(&self.south),
            west: redact(&self.west),
        }
    }
}

impl Grid {
    /// Probe the four axis-aligned cells adjacent to `position`: north at
    /// `(x, y+1)`, east at `(x+1, y)`, south at `(x, y-1)`, west at
    /// `(x-1, y)`, each reported exactly when occupied. Offsets wrap at
    /// the ends of the coordinate range.
    pub fn get_cardinal_neighbors(&self, position: GridPosition) -> (r: CardinalNeighbors)
        ensures
            r.north == spec_neighbor_at(self@, position.spec_offset(0, 1)),
            r.east == spec_neighbor_at(self@, position.spec_offset(1, 0)),
            r.south == spec_neighbor_at(self@, position.spec_offset(0, -1)),
            r.west == spec_neighbor_at(self@, position.spec_offset(-1, 0)),
    {
        CardinalNeighbors {
            north: self.probe_offset(position, 0, 1),
            east: self.probe_offset(position, 1, 0),
            south: self.probe_offset(position, 0, -1),
            west: self.probe_offset(position, -1, 0),
        }
    }
}

/// An occupant sitting directly above a queried position is reported as
/// that query's north entry, with its position and record intact.
pub proof fn lemma_cardinal_north(
    g: Map<GridPosition, GridEntity>,
    position: GridPosition,
    occupant: GridEntity,
)
    requires
        g.contains_key(position.spec_offset(0, 1)),
        g[position.spec_offset(0, 1)] == occupant,
    ensures
        spec_neighbor_at(g, position.spec_offset(0, 1)) == Some(
            Neighbor { position: position.spec_offset(0, 1), entry: occupant },
        ),
{
}

} // verus!

//! A sparse, unbounded two-dimensional integer grid that maps cell
//! coordinates to occupants (an opaque object handle plus a facing), with
//! neighbor queries over the four cardinal cells, the four diagonal cells,
//! and square neighborhoods of arbitrary radius.

pub mod cardinal;
pub mod entity;
pub mod grid;
pub mod neighbor;
pub mod ordinal;
pub mod position;
pub mod radius;
pub mod rotation;


//! The four-valued facing carried by every grid occupant, with its
//! rotation algebra: quarter turns in both directions and the half turn.

use vstd::prelude::*;

verus! {

/// Relies on `rand::random`: a value of the requested type, drawn from the
/// thread-local generator. Nothing is promised of which value comes back.
pub assume_specification<T>[ rand::random::<T> ]() -> (r: T)
    where
        rand::distr::StandardUniform: rand::distr::Distribution<T>,
;

/// The facing that stands for an empty or not-yet-assigned slot: `Up`,
/// the default.
pub const EMPTY: Rotation = Rotation::Up;

/// A facing on the grid plane. `next` cycles Up, Right, Down, Left and
/// back to Up; `previous` is its inverse; `opposite` is the half turn.
#[derive(Debug, Copy, Clone, PartialEq, Eq, Structural, Hash)]
pub enum Rotation {
    Up,
    Down,
    Left,
    Right,
}

impl Default for Rotation {
    /// The facing assigned when none was chosen: `Up`.
    fn default() -> (r: Self)
        ensures
            r == Rotation::Up,
    {
        Rotation::Up
    }
}

impl Rotation {
    /// The facing one quarter turn clockwise from `self`.
    pub open spec fn spec_next(self) -> Rotation {
        match self {
            Rotation::Up => Rotation::Right,
            Rotation::Right => Rotation::Down,
            Rotation::Down => Rotation::Left,
            Rotation::Left => Rotation::Up,
        }
    }

    /// The facing one quarter turn counter-clockwise from `self`.
    pub open spec fn spec_previous(self) -> Rotation {
        match self {
            Rotation::Up => Rotation::Left,
            Rotation::Left => Rotation::Down,
            Rotation::Down => Rotation::Right,
            Rotation::Right => Rotation::Up,
        }
    }

    /// The facing a half turn from `self`.
    pub open spec fn spec_opposite(self) -> Rotation {
        match self {
            Rotation::Up => Rotation::Down,
            Rotation::Down => Rotation::Up,
            Rotation::Left => Rotation::Right,
            Rotation::Right => Rotation::Left,
        }
    }

    /// Rotate one quarter turn clockwise.
    pub fn next(&self) -> (r: Self)
        ensures
            r == self.spec_next(),
    {
        match self {
            Self::Up => Self::Right,
            Self::Right => Self::Down,
            Self::Down => Self::Left,
            Self::Left => Self::Up,
        }
    }

    /// Rotate one quarter turn counter-clockwise.
    pub fn previous(&self) -> (r: Self)
        ensures
            r == self.spec_previous(),
    {
        match self {
            Self::Up => Self::Left,
            Self::Left => Self::Down,
            Self::Down => Self::Right,
            Self::Right => Self::Up,
        }
    }

    /// The facing's angle, measured in quarter turns clockwise from `Up`:
    /// `Up` is 0, `Right` 1, `Down` 2, `Left` 3. A consumer recovers the
    /// angle in radians by multiplying with a quarter turn.
    pub open spec fn spec_quarter_turns(self) -> u32 {
        match self {
            Rotation::Up => 0u32,
            Rotation::Right => 1u32,
            Rotation::Down => 2u32,
            Rotation::Left => 3u32,
        }
    }

    /// The angle of the facing in quarter turns clockwise from `Up`.
    pub fn quarter_turns(&self) -> (r: u32)
        ensures
            r == self.spec_quarter_turns(),
    {
        match self {
            Self::Up => 0,
            Self::Right => 1,
            Self::Down => 2,
            Self::Left => 3,
        }
    }

    /// The facing a drawn byte selects: the byte's residue modulo 4 picks
    /// `Up`, `Right`, `Down` or `Left`, in that order, so the four facings
    /// split the byte range evenly.
    pub fn from_byte(b: u8) -> (r: Self)
        ensures
            r == (if b % 4 == 0 {
                Rotation::Up
            } else if b % 4 == 1 {
                Rotation::Right
            } else if b % 4 == 2 {
                Rotation::Down
            } else {
                Rotation::Left
            }),
    {
        match b % 4 {
            0 => Self::Up,
            1 => Self::Right,
            2 => Self::Down,
            _ => Self::Left,
        }
    }

    /// A facing drawn from the host's entropy source: a byte, uniform over
    /// its range, selects the facing through `from_byte`, so each of the
    /// four values is equally likely. Which one comes back is chance;
    /// callers treat every facing as possible.
    pub fn random() -> (r: Self) {
        Self::from_byte(rand::random::<u8>())
    }

    /// Rotate a half turn.
    pub fn opposite(&self) -> (r: Self)
        ensures
            r == self.spec_opposite(),
    {
        match self {
            Self::Up => Self::Down,
            Self::Down => Self::Up,
            Self::Left => Self::Right,
            Self::Right => Self::Left,
        }
    }
}

/// Four quarter turns clockwise lead back to the starting facing,
/// and `previous` undoes `next`.
pub proof fn lemma_next_cycle(r: Rotation)
    ensures
        r.spec_next().spec_next().spec_next().spec_next() == r,
        r.spec_next().spec_previous() == r,
        r.spec_previous().spec_next() == r,
{
}

/// Two half turns lead back to the starting facing.
pub proof fn lemma_opposite_involution(r: Rotation)
    ensures
        r.spec_opposite().spec_opposite() == r,
{
}

} // verus!

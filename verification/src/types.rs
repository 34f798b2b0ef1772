//! Shared plain types: note directions, song identifiers, scroll settings.

use vstd::prelude::*;

verus! {

/// One of the four receptor lanes. The declaration order fixes the ordinal
/// encoding 0-3 (Left, Down, Up, Right), which is part of the wire contract
/// used by key mappings.
#[derive(Clone, Copy, PartialEq, Eq, Hash, Debug, Structural)]
pub enum Direction {
    Left,
    Down,
    Up,
    Right,
}

/// The ordinal a direction is encoded as on the wire.
pub open spec fn direction_ordinal(d: Direction) -> u32 {
    match d {
        Direction::Left => 0,
        Direction::Down => 1,
        Direction::Up => 2,
        Direction::Right => 3,
    }
}

impl Direction {
    /// The wire encoding of this direction.
    pub fn ordinal(&self) -> (r: u32)
        ensures
            r == direction_ordinal(*self),
    {
        match self {
            Direction::Left => 0,
            Direction::Down => 1,
            Direction::Up => 2,
            Direction::Right => 3,
        }
    }
}

/// Identifier of a song in a playlist.
#[derive(Clone, Copy, PartialEq, Eq, Hash, Debug, Structural)]
pub struct SongID(pub u16);

/// Whether notes travel up or down the screen.
#[derive(Clone, Copy, PartialEq, Eq, Debug, Structural)]
pub enum ScrollDirection {
    Up,
    Down,
}

impl Default for ScrollDirection {
    fn default() -> (r: Self)
        ensures
            r == ScrollDirection::Up,
    {
        ScrollDirection::Up
    }
}

/// Vertical position of the receptor row, in pixels from the field edge.
#[derive(Clone, Copy, PartialEq, Eq, Debug, Structural)]
pub struct ReceptorPosition(pub u32);

impl Default for ReceptorPosition {
    fn default() -> (r: Self)
        ensures
            r == ReceptorPosition(64),
    {
        ReceptorPosition(64)
    }
}

} // verus!

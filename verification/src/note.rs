//! Note records and their intrinsic ordering.

use vstd::prelude::*;

use crate::types::Direction;

verus! {

/// The closed set of note colours. `Receptor` is a sentinel used only by the
/// noteskin collaborator; the parser never produces it.
#[derive(Clone, Copy, PartialEq, Eq, Hash, Debug, Structural)]
pub enum Color {
    Red,
    Yellow,
    Blue,
    Orange,
    Green,
    Pink,
    Purple,
    Cyan,
    White,
    Receptor,
}

/// Rank of a colour in the intrinsic note ordering (declaration order).
pub open spec fn color_rank(c: Color) -> int {
    match c {
        Color::Red => 0,
        Color::Yellow => 1,
        Color::Blue => 2,
        Color::Orange => 3,
        Color::Green => 4,
        Color::Pink => 5,
        Color::Purple => 6,
        Color::Cyan => 7,
        Color::White => 8,
        Color::Receptor => 9,
    }
}

/// Rank of a direction in the intrinsic note ordering (declaration order).
pub open spec fn direction_rank(d: Direction) -> int {
    match d {
        Direction::Left => 0,
        Direction::Down => 1,
        Direction::Up => 2,
        Direction::Right => 3,
    }
}

/// One playable note of a chart. Immutable once constructed.
#[derive(Clone, Copy, PartialEq, Eq, Hash, Debug, Structural)]
pub struct RuntimeNote {
    pub beat_position: u32,
    pub color: Color,
    pub direction: Direction,
    pub timestamp: u32,
}

/// Intrinsic comparison of two note records: primary key beat position, ties
/// broken by colour, then direction, then timestamp.
pub open spec fn note_le(a: RuntimeNote, b: RuntimeNote) -> bool {
    if a.beat_position != b.beat_position {
        a.beat_position < b.beat_position
    } else if color_rank(a.color) != color_rank(b.color) {
        color_rank(a.color) < color_rank(b.color)
    } else if direction_rank(a.direction) != direction_rank(b.direction) {
        direction_rank(a.direction) < direction_rank(b.direction)
    } else {
        a.timestamp <= b.timestamp
    }
}

impl Color {
    /// Rank of this colour in the intrinsic note ordering.
    pub fn rank(&self) -> (r: u32)
        ensures
            r == color_rank(*self),
    {
        match self {
            Color::Red => 0,
            Color::Yellow => 1,
            Color::Blue => 2,
            Color::Orange => 3,
            Color::Green => 4,
            Color::Pink => 5,
            Color::Purple => 6,
            Color::Cyan => 7,
            Color::White => 8,
            Color::Receptor => 9,
        }
    }
}

impl RuntimeNote {
    /// Decides the intrinsic ordering between two note records.
    pub fn le(&self, other: &RuntimeNote) -> (r: bool)
        ensures
            r == note_le(*self, *other),
    {
        if self.beat_position != other.beat_position {
            self.beat_position < other.beat_position
        } else if self.color.rank() != other.color.rank() {
            self.color.rank() < other.color.rank()
        } else if self.direction.ordinal() != other.direction.ordinal() {
            self.direction.ordinal() < other.direction.ordinal()
        } else {
            self.timestamp <= other.timestamp
        }
    }
}

/// A single note in a note row, identified by its lane.
#[derive(Clone, Copy, PartialEq, Eq, Hash, Debug, Structural)]
pub struct Note {
    pub lane: usize,
}

impl Note {
    /// Builds a note for the given lane.
    pub fn new(lane: usize) -> (r: Self)
        ensures
            r == (Note { lane }),
    {
        Note { lane }
    }
}

/// A row of simultaneous notes at a beat offset.
#[derive(Clone, PartialEq, Eq, Debug)]
pub struct NoteRow {
    pub offset: u32,
    pub notes: Vec<Note>,
}

impl NoteRow {
    /// Builds a row from an offset and its notes.
    pub fn new(offset: u32, notes: Vec<Note>) -> (r: Self)
        ensures
            r.offset == offset,
            r.notes@ == notes@,
    {
        NoteRow { offset, notes }
    }
}

} // verus!

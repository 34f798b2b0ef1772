//! The runtime chart: an ordered sequence of note records.

use vstd::prelude::*;

use crate::note::{NoteRow, RuntimeNote};

verus! {

/// A runtime-efficient representation of a chart: the note records in the
/// order the extractor produced them.
#[derive(Clone, PartialEq, Eq, Debug)]
pub struct RuntimeChart {
    pub notes: Vec<RuntimeNote>,
}

/// Raised when a chart is asked for data it does not hold.
#[derive(Clone, Copy, PartialEq, Eq, Debug, Structural)]
pub enum ChartError {
    /// The chart holds no notes.
    EmptyChart,
}

impl RuntimeChart {
    /// Wraps a sequence of note records into a chart, keeping their order.
    pub fn new(notes: Vec<RuntimeNote>) -> (r: Self)
        ensures
            r.notes@ == notes@,
    {
        RuntimeChart { notes }
    }

    /// Hands back the timestamp of the chart's leading note record, or
    /// `ChartError::EmptyChart` if, and only if, the chart holds no notes.
    pub fn get_duration(&self) -> (r: Result<u32, ChartError>)
        ensures
            self.notes@.len() > 0 ==> r == Ok::<u32, ChartError>(self.notes@[0].timestamp),
            self.notes@.len() == 0 ==> r == Err::<u32, ChartError>(ChartError::EmptyChart),
    {
        if self.notes.len() > 0 {
            Ok(self.notes[0].timestamp)
        } else {
            Err(ChartError::EmptyChart)
        }
    }
}

/// All of the note rows that make up one beat.
#[derive(Clone, PartialEq, Eq, Debug)]
pub struct Beat {
    pub note_rows: Vec<NoteRow>,
    pub subdivisions: u32,
}

impl Beat {
    /// Builds a beat from its rows and subdivision count.
    pub fn new(note_rows: Vec<NoteRow>, subdivisions: u32) -> (r: Self)
        ensures
            r.note_rows@ == note_rows@,
            r.subdivisions == subdivisions,
    {
        Beat { note_rows, subdivisions }
    }
}

} // verus!

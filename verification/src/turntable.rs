//! The turntable: a clocked playback state machine over a loaded record.

use vstd::prelude::*;

use crate::index::{keys_match, range_filter, ts_sorted};
use crate::note::RuntimeNote;
use crate::record::Record;

verus! {

/// Raised when a view would reach past the representable timestamp domain.
#[derive(Clone, Copy, PartialEq, Eq, Debug, Structural)]
pub enum ViewError {
    /// The view's upper bound exceeds the largest representable timestamp.
    RangeOverflow,
}

/// The lower bound of a windowed view: the progress clock minus the
/// look-behind, floored at zero.
pub open spec fn view_low(progress: u32, look_behind: u32) -> u32 {
    if progress >= look_behind {
        (progress - look_behind) as u32
    } else {
        0
    }
}

/// No record is loaded.
pub struct Empty {}

/// A record is loaded and ready to play.
pub struct Loaded {}

/// The record is playing; the progress clock is set by `tick`.
pub struct Playing {
    pub progress: u32,
}

/// Marker for the turntable's states.
pub trait TurntableState {}

impl TurntableState for Empty {}

impl TurntableState for Loaded {}

impl TurntableState for Playing {}

/// The playback state machine: `Empty -load-> Loaded -play-> Playing
/// -stop-> Loaded`. Only `Playing` answers clocked queries.
pub struct Turntable<S: TurntableState> {
    record: Record,
    state: S,
}

impl<S: TurntableState> Turntable<S> {
    /// The record this turntable plays.
    pub closed spec fn spec_record(self) -> Record {
        self.record
    }
}

impl Turntable<Empty> {
    /// Loads a record, yielding a turntable ready to play.
    pub fn load(record: Record) -> (t: Turntable<Loaded>)
        ensures
            t.spec_record() == record,
    {
        Turntable { record, state: Loaded {} }
    }
}

impl Turntable<Loaded> {
    /// Starts playing the record, with the progress clock at zero.
    pub fn play(self) -> (t: Turntable<Playing>)
        ensures
            t.spec_record() == self.spec_record(),
            t.spec_progress() == 0,
    {
        Turntable { record: self.record, state: Playing { progress: 0 } }
    }
}

impl Turntable<Playing> {
    /// The current value of the progress clock.
    pub closed spec fn spec_progress(self) -> u32 {
        self.state.progress
    }

    /// Stops playback, keeping the record loaded.
    pub fn stop(self) -> (t: Turntable<Loaded>)
        ensures
            t.spec_record() == self.spec_record(),
    {
        Turntable { record: self.record, state: Loaded {} }
    }

    /// Sets the progress clock.
    pub fn tick(&mut self, progress: u32)
        ensures
            final(self).spec_record() == old(self).spec_record(),
            final(self).spec_progress() == progress,
    {
        self.state.progress = progress;
    }

    /// Whether the progress clock has reached the record's duration.
    pub fn is_finished(&self) -> (r: bool)
        ensures
            r == (self.spec_progress() >= self.spec_record().spec_duration()),
    {
        self.state.progress >= self.record.duration()
    }

    /// The current value of the progress clock.
    pub fn progress(&self) -> (r: u32)
        ensures
            r == self.spec_progress(),
    {
        self.state.progress
    }

    /// Windowed lookbehind/lookahead query: the notes whose timestamp lies in
    /// `[max(0, progress - look_behind), progress + look_ahead]`, ascending
    /// by timestamp. Fails with `ViewError::RangeOverflow` if, and only if,
    /// the upper bound exceeds the representable timestamp domain.
    pub fn view(&self, look_behind: u32, look_ahead: u32) -> (r: Result<
        Vec<(u32, RuntimeNote)>,
        ViewError,
    >)
        ensures
            self.spec_progress() + look_ahead <= u32::MAX ==> (r matches Ok(v) && v@
                == range_filter(
                self.spec_record().chart(),
                view_low(self.spec_progress(), look_behind),
                (self.spec_progress() + look_ahead) as u32,
            ) && ts_sorted(v@) && keys_match(v@)),
            self.spec_progress() + look_ahead > u32::MAX ==> r == Err::<
                Vec<(u32, RuntimeNote)>,
                ViewError,
            >(ViewError::RangeOverflow),
    {
        let progress = self.state.progress;
        let first = if progress >= look_behind {
            progress - look_behind
        } else {
            0
        };
        if progress <= u32::MAX - look_ahead {
            let last = progress + look_ahead;
            Ok(self.record.range(first, last))
        } else {
            Err(ViewError::RangeOverflow)
        }
    }
}

} // verus!

//! Raw frame-time samples gathered while benchmarking.

use vstd::prelude::*;

verus! {

/// The frame times recorded so far, in milliseconds.
#[derive(Clone, PartialEq, Eq, Debug)]
pub struct BenchmarkData {
    pub frame_times: Vec<u32>,
}

impl BenchmarkData {
    /// An empty set of samples.
    pub fn new() -> (r: Self)
        ensures
            r.frame_times@ == Seq::<u32>::empty(),
    {
        BenchmarkData { frame_times: Vec::new() }
    }

    /// Records one frame time.
    pub fn add_frame_time(&mut self, frame_time: u32)
        ensures
            final(self).frame_times@ == old(self).frame_times@.push(frame_time),
    {
        self.frame_times.push(frame_time);
    }
}

} // verus!

//! Timing-window classification of player input against note records.

use vstd::prelude::*;

use crate::note::RuntimeNote;

verus! {

/// A named timing window, identified by its exact signed delta boundary in
/// milliseconds. The eight boundary values are the single source of truth for
/// timing tolerance and form a deliberately asymmetric judgement curve.
#[derive(Clone, Copy, PartialEq, Eq, Hash, Debug, Structural)]
pub struct JudgeWindow(pub i8);

/// The signed difference between the hit and the note's timestamp.
pub open spec fn hit_delta(hit_ms: u32, note_ts: u32) -> int {
    hit_ms - note_ts
}

/// The window a signed delta falls in: one of the eight exact boundary values
/// `{-118, -85, -51, -18, 17, 50, 84, 117}`, or none.
pub open spec fn window_for_delta(delta: int) -> Option<JudgeWindow> {
    if delta == -118 || delta == -85 || delta == -51 || delta == -18 || delta == 17 || delta == 50
        || delta == 84 || delta == 117 {
        Some(JudgeWindow(delta as i8))
    } else {
        None
    }
}

/// The classification of a hit at `hit_ms` against a note at `note_ts`.
pub open spec fn spec_judge(hit_ms: u32, note_ts: u32) -> Option<JudgeWindow> {
    window_for_delta(hit_delta(hit_ms, note_ts))
}

/// The judged-note map: each note that has received a judgement, with its
/// window, in judgement order.
#[derive(Clone, PartialEq, Eq, Debug)]
pub struct Judgement {
    pub entries: Vec<(RuntimeNote, JudgeWindow)>,
}

/// True when `s` records a judgement for note `n`.
pub open spec fn judged_contains(s: Seq<(RuntimeNote, JudgeWindow)>, n: RuntimeNote) -> bool {
    exists|i: int| 0 <= i < s.len() && #[trigger] s[i].0 == n
}

impl Judgement {
    /// An empty judgement record.
    pub fn new() -> (r: Self)
        ensures
            r.entries@ == Seq::<(RuntimeNote, JudgeWindow)>::empty(),
    {
        Judgement { entries: Vec::new() }
    }

    /// Whether this note has already been judged.
    pub fn contains_key(&self, n: &RuntimeNote) -> (r: bool)
        ensures
            r == judged_contains(self.entries@, *n),
    {
        let mut i: usize = 0;
        while i < self.entries.len()
            invariant
                i <= self.entries@.len(),
                forall|j: int| 0 <= j < i ==> #[trigger] self.entries@[j].0 != *n,
            decreases self.entries@.len() - i,
        {
            if self.entries[i].0 == *n {
                return true;
            }
            i = i + 1;
        }
        false
    }

    /// Records a judgement for a note.
    pub fn record(&mut self, n: RuntimeNote, w: JudgeWindow)
        ensures
            final(self).entries@ == old(self).entries@.push((n, w)),
    {
        self.entries.push((n, w));
    }

    /// How many judgements have been recorded.
    pub fn len(&self) -> (r: usize)
        ensures
            r == self.entries@.len(),
    {
        self.entries.len()
    }
}

/// The judgement engine: a stateless classifier plus the record of which
/// notes have been judged.
#[derive(Clone, PartialEq, Eq, Debug)]
pub struct Judge {
    pub judgements: Judgement,
}

impl Judge {
    /// A fresh judge with no judgements recorded.
    pub fn new() -> (r: Self)
        ensures
            r.judgements.entries@ == Seq::<(RuntimeNote, JudgeWindow)>::empty(),
    {
        Judge { judgements: Judgement::new() }
    }

    /// Stateless classification of a hit against a note: the window whose
    /// exact boundary the signed delta `hit_ms - note.timestamp` equals, or
    /// `None` for every other delta.
    pub fn judge(&self, hit_ms: u32, note: &RuntimeNote) -> (r: Option<JudgeWindow>)
        ensures
            r == spec_judge(hit_ms, note.timestamp),
    {
        judge_hit(hit_ms, note.timestamp)
    }
}

/// Classification of a hit timestamp against a note timestamp; see
/// [`spec_judge`].
pub fn judge_hit(hit_ms: u32, note_ts: u32) -> (r: Option<JudgeWindow>)
    ensures
        r == spec_judge(hit_ms, note_ts),
{
    let delta: i64 = hit_ms as i64 - note_ts as i64;
    if delta == -118 || delta == -85 || delta == -51 || delta == -18 || delta == 17 || delta == 50
        || delta == 84 || delta == 117 {
        Some(JudgeWindow(delta as i8))
    } else {
        None
    }
}

/// Addition on a counter that sticks at the top of the range instead of
/// wrapping.
pub open spec fn sat_plus(a: usize, b: usize) -> usize {
    if a + b > usize::MAX {
        usize::MAX
    } else {
        (a + b) as usize
    }
}

/// Saturating counter addition; see [`sat_plus`].
pub fn saturating_plus(a: usize, b: usize) -> (r: usize)
    ensures
        r == sat_plus(a, b),
{
    if a > usize::MAX - b {
        usize::MAX
    } else {
        a + b
    }
}

/// The six saturating judgement counters. Never decremented.
#[derive(Clone, Copy, PartialEq, Eq, Debug, Structural)]
pub struct JudgementReport {
    pub amazings: usize,
    pub perfects: usize,
    pub goods: usize,
    pub averages: usize,
    pub misses: usize,
    pub boos: usize,
}

/// The report after counting one judged window: `-18` feeds the amazing
/// counter, `-51` and `17` the perfects, `-85`, `50` and `84` the goods,
/// `-118` and `117` the averages; any other value changes nothing.
pub open spec fn report_with_window(r: JudgementReport, w: JudgeWindow) -> JudgementReport {
    if w == JudgeWindow(-118i8) || w == JudgeWindow(117i8) {
        JudgementReport { averages: sat_plus(r.averages, 1), ..r }
    } else if w == JudgeWindow(-85i8) || w == JudgeWindow(50i8) || w == JudgeWindow(84i8) {
        JudgementReport { goods: sat_plus(r.goods, 1), ..r }
    } else if w == JudgeWindow(-51i8) || w == JudgeWindow(17i8) {
        JudgementReport { perfects: sat_plus(r.perfects, 1), ..r }
    } else if w == JudgeWindow(-18i8) {
        JudgementReport { amazings: sat_plus(r.amazings, 1), ..r }
    } else {
        r
    }
}

/// The report after counting one boo.
pub open spec fn report_with_boo(r: JudgementReport) -> JudgementReport {
    JudgementReport { boos: sat_plus(r.boos, 1), ..r }
}

/// The report after counting `n` misses.
pub open spec fn report_with_misses(r: JudgementReport, n: usize) -> JudgementReport {
    JudgementReport { misses: sat_plus(r.misses, n), ..r }
}

impl JudgementReport {
    /// A report with every counter at zero.
    pub fn new() -> (r: Self)
        ensures
            r == (JudgementReport {
                amazings: 0usize,
                perfects: 0usize,
                goods: 0usize,
                averages: 0usize,
                misses: 0usize,
                boos: 0usize,
            }),
    {
        JudgementReport { amazings: 0, perfects: 0, goods: 0, averages: 0, misses: 0, boos: 0 }
    }

    /// Counts one judged window into the report.
    pub fn count_window(&mut self, w: JudgeWindow)
        ensures
            *final(self) == report_with_window(*old(self), w),
    {
        if w.0 == -118 || w.0 == 117 {
            self.averages = saturating_plus(self.averages, 1);
        } else if w.0 == -85 || w.0 == 50 || w.0 == 84 {
            self.goods = saturating_plus(self.goods, 1);
        } else if w.0 == -51 || w.0 == 17 {
            self.perfects = saturating_plus(self.perfects, 1);
        } else if w.0 == -18 {
            self.amazings = saturating_plus(self.amazings, 1);
        }
    }

    /// Counts one boo into the report.
    pub fn count_boo(&mut self)
        ensures
            *final(self) == report_with_boo(*old(self)),
    {
        self.boos = saturating_plus(self.boos, 1);
    }

    /// Counts `n` misses into the report.
    pub fn count_misses(&mut self, n: usize)
        ensures
            *final(self) == report_with_misses(*old(self), n),
    {
        self.misses = saturating_plus(self.misses, n);
    }
}

/// The judgement curve maps each of the eight boundary deltas to its named
/// window and rejects every other delta; the window mapping feeds exactly one
/// counter.
pub proof fn lemma_judge_windows()
    ensures
        window_for_delta(-118) == Some(JudgeWindow(-118i8)),
        window_for_delta(-85) == Some(JudgeWindow(-85i8)),
        window_for_delta(-51) == Some(JudgeWindow(-51i8)),
        window_for_delta(-18) == Some(JudgeWindow(-18i8)),
        window_for_delta(17) == Some(JudgeWindow(17i8)),
        window_for_delta(50) == Some(JudgeWindow(50i8)),
        window_for_delta(84) == Some(JudgeWindow(84i8)),
        window_for_delta(117) == Some(JudgeWindow(117i8)),
        forall|d: int|
            !(d == -118 || d == -85 || d == -51 || d == -18 || d == 17 || d == 50 || d == 84
                || d == 117) ==> #[trigger] window_for_delta(d) is None,
{
}

} // verus!

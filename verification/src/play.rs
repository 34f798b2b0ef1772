//! The play session: turntable, judgement engine, miss sweep, and the
//! accumulated judgement report, driven per frame by the game loop.

use vstd::prelude::*;

use crate::index::range_filter;
use crate::judge::{
    judged_contains, report_with_boo, report_with_misses, report_with_window, sat_plus,
    spec_judge, Judge, JudgeWindow, Judgement, JudgementReport,
};
use crate::note::RuntimeNote;
use crate::turntable::{self, view_low, Turntable, ViewError};
use crate::types::Direction;

verus! {

/// How far past its timestamp a note may go before the miss sweep counts it.
pub open spec fn spec_miss_offset() -> u32 {
    250
}

/// The action recorded against a judged note: the direction pressed and the
/// hit timestamp.
#[derive(Clone, Copy, PartialEq, Eq, Debug, Structural)]
pub struct NoteAction {
    pub direction: Direction,
    pub timestamp: u32,
}

/// True when `s` records an action against note `n`.
pub open spec fn action_contains(s: Seq<(RuntimeNote, NoteAction)>, n: RuntimeNote) -> bool {
    exists|i: int| 0 <= i < s.len() && #[trigger] s[i].0 == n
}

/// The judged-action map: each judged note with the action that judged it, in
/// judgement order.
#[derive(Clone, PartialEq, Eq, Debug)]
pub struct ActionMap {
    pub entries: Vec<(RuntimeNote, NoteAction)>,
}

impl ActionMap {
    /// An empty action map.
    pub fn new() -> (r: Self)
        ensures
            r.entries@ == Seq::<(RuntimeNote, NoteAction)>::empty(),
    {
        ActionMap { entries: Vec::new() }
    }

    /// Whether an action is recorded against this note.
    pub fn contains_key(&self, n: &RuntimeNote) -> (r: bool)
        ensures
            r == action_contains(self.entries@, *n),
    {
        let mut i: usize = 0;
        while i < self.entries.len()
            invariant
                i <= self.entries@.len(),
                forall|j: int| 0 <= j < i ==> #[trigger] self.entries@[j].0 != *n,
            decreases self.entries@.len() - i,
        {
            if self.entries[i].0 == *n {
                return true;
            }
            i = i + 1;
        }
        false
    }

    /// Records an action against a note.
    pub fn record(&mut self, n: RuntimeNote, a: NoteAction)
        ensures
            final(self).entries@ == old(self).entries@.push((n, a)),
    {
        self.entries.push((n, a));
    }

    /// How many actions have been recorded.
    pub fn len(&self) -> (r: usize)
        ensures
            r == self.entries@.len(),
    {
        self.entries.len()
    }
}

/// True when `s` holds note `n`.
pub open spec fn miss_contains(s: Seq<RuntimeNote>, n: RuntimeNote) -> bool {
    exists|i: int| 0 <= i < s.len() && #[trigger] s[i] == n
}

/// The set of notes the miss sweep has counted, in sweep order.
#[derive(Clone, PartialEq, Eq, Debug)]
pub struct MissSet {
    pub notes: Vec<RuntimeNote>,
}

impl MissSet {
    /// An empty miss set.
    pub fn new() -> (r: Self)
        ensures
            r.notes@ == Seq::<RuntimeNote>::empty(),
    {
        MissSet { notes: Vec::new() }
    }

    /// Whether this note has been counted as missed.
    pub fn contains(&self, n: &RuntimeNote) -> (r: bool)
        ensures
            r == miss_contains(self.notes@, *n),
    {
        let mut i: usize = 0;
        while i < self.notes.len()
            invariant
                i <= self.notes@.len(),
                forall|j: int| 0 <= j < i ==> #[trigger] self.notes@[j] != *n,
            decreases self.notes@.len() - i,
        {
            if self.notes[i] == *n {
                return true;
            }
            i = i + 1;
        }
        false
    }

    /// Adds a note to the miss set.
    pub fn insert(&mut self, n: RuntimeNote)
        ensures
            final(self).notes@ == old(self).notes@.push(n),
    {
        self.notes.push(n);
    }

    /// How many notes have been counted as missed.
    pub fn len(&self) -> (r: usize)
        ensures
            r == self.notes@.len(),
    {
        self.notes.len()
    }
}

/// The mathematical state of an active play session.
#[verifier::ext_equal]
pub ghost struct PlayModel {
    /// The indexed chart, ascending by timestamp.
    pub chart: Seq<(u32, RuntimeNote)>,
    /// The progress clock.
    pub progress: u32,
    /// The judged-action map.
    pub actions: Seq<(RuntimeNote, NoteAction)>,
    /// The judged-note map.
    pub judged: Seq<(RuntimeNote, JudgeWindow)>,
    /// The notes counted as missed.
    pub misses: Seq<RuntimeNote>,
    /// The accumulated counters.
    pub report: JudgementReport,
}

/// Addition on timestamps that sticks at the top of the range.
pub open spec fn sat_plus32(a: u32, b: u32) -> u32 {
    if a + b > u32::MAX {
        u32::MAX
    } else {
        (a + b) as u32
    }
}

/// True when the progress clock has moved at least the miss offset past the
/// note's timestamp.
pub open spec fn missable(n: RuntimeNote, progress: u32) -> bool {
    progress >= sat_plus32(n.timestamp, spec_miss_offset())
}

/// One left-to-right pass of the miss sweep over the windowed entries from
/// position `i` on: each note that is far enough past the clock and neither
/// already missed nor already judged is appended to the misses and counted.
pub open spec fn spec_sweep(
    rs: Seq<(u32, RuntimeNote)>,
    i: int,
    progress: u32,
    misses: Seq<RuntimeNote>,
    count: int,
    judged: Seq<(RuntimeNote, JudgeWindow)>,
) -> (Seq<RuntimeNote>, int)
    decreases rs.len() - i,
{
    if i < 0 || i >= rs.len() {
        (misses, count)
    } else {
        let n = rs[i].1;
        if missable(n, progress) && !miss_contains(misses, n) && !judged_contains(judged, n) {
            spec_sweep(rs, i + 1, progress, misses.push(n), count + 1, judged)
        } else {
            spec_sweep(rs, i + 1, progress, misses, count, judged)
        }
    }
}

/// The windowed entries the miss sweep looks at: twice the miss offset behind
/// the clock, nothing ahead of it.
pub open spec fn miss_window(m: PlayModel) -> Seq<(u32, RuntimeNote)> {
    range_filter(m.chart, view_low(m.progress, ((2 * spec_miss_offset()) as u32)), m.progress)
}

/// The state after one miss sweep: newly missed notes appended to the miss
/// set and their number added, saturating, to the miss counter.
pub open spec fn spec_check_miss(m: PlayModel) -> PlayModel {
    let swept = spec_sweep(miss_window(m), 0, m.progress, m.misses, 0, m.judged);
    PlayModel {
        misses: swept.0,
        report: report_with_misses(m.report, swept.1 as usize),
        ..m
    }
}

/// The state after one frame tick: the clock set, then the miss sweep run.
pub open spec fn spec_tick(m: PlayModel, progress: u32) -> PlayModel {
    spec_check_miss(PlayModel { progress, ..m })
}

/// The magnitude of the judge offset.
pub open spec fn offset_mag(offset: i8) -> u32 {
    if offset >= 0 {
        offset as u32
    } else {
        (-(offset as int)) as u32
    }
}

/// The half-width of the candidate window for an input: 120 ms plus the
/// magnitude of the judge offset.
pub open spec fn action_window(offset: i8) -> u32 {
    (120 + offset_mag(offset)) as u32
}

/// The windowed entries an input considers, anchored at the progress clock.
pub open spec fn input_window(m: PlayModel, offset: i8) -> Seq<(u32, RuntimeNote)> {
    range_filter(
        m.chart,
        view_low(m.progress, action_window(offset)),
        (m.progress + action_window(offset)) as u32,
    )
}

/// The first entry from position `i` on whose note matches the direction and
/// has no action recorded against it. This is the first in range order, not
/// the temporally closest.
pub open spec fn first_candidate(
    rs: Seq<(u32, RuntimeNote)>,
    i: int,
    dir: Direction,
    actions: Seq<(RuntimeNote, NoteAction)>,
) -> Option<RuntimeNote>
    decreases rs.len() - i,
{
    if i < 0 || i >= rs.len() {
        None
    } else if rs[i].1.direction == dir && !action_contains(actions, rs[i].1) {
        Some(rs[i].1)
    } else {
        first_candidate(rs, i + 1, dir, actions)
    }
}

/// The state after one input: if the window holds no unjudged note of the
/// direction, or the hit misses every judge window, one boo is counted;
/// otherwise the note's window is counted and the note is recorded as judged
/// so it cannot be judged twice. An input whose window would overflow the
/// timestamp domain changes nothing.
pub open spec fn spec_do_action(m: PlayModel, dir: Direction, ts: u32, offset: i8) -> PlayModel {
    if m.progress + action_window(offset) > u32::MAX {
        m
    } else {
        match first_candidate(input_window(m, offset), 0, dir, m.actions) {
            None => PlayModel { report: report_with_boo(m.report), ..m },
            Some(n) => match spec_judge(ts, n.timestamp) {
                None => PlayModel { report: report_with_boo(m.report), ..m },
                Some(w) => PlayModel {
                    report: report_with_window(m.report, w),
                    judged: m.judged.push((n, w)),
                    actions: m.actions.push(
                        (n, NoteAction { direction: dir, timestamp: ts }),
                    ),
                    ..m
                },
            },
        }
    }
}

/// The session is ready to start: a loaded turntable.
pub struct Ready {
    turntable: Turntable<turntable::Loaded>,
}

/// The session is active: a playing turntable, the judged maps, the miss set
/// and the running report.
pub struct Active {
    turntable: Turntable<turntable::Playing>,
    actions: ActionMap,
    judge: Judge,
    misses: MissSet,
    judgement_report: JudgementReport,
}

/// The session has concluded; the judged actions are retained.
pub struct Concluded {
    turntable: Turntable<turntable::Loaded>,
    actions: ActionMap,
}

/// Marker for the session's states.
pub trait PlayState {}

impl PlayState for Ready {}

impl PlayState for Active {}

impl PlayState for Concluded {}

/// The session state machine: `Ready -start-> Active -finish-> Concluded
/// -finalize-> Ready`, with `Active -stop-> Ready` to abandon a run.
pub struct Play<S: PlayState> {
    state: S,
}

impl Play<Ready> {
    /// The record loaded on the session's turntable.
    pub closed spec fn spec_record(self) -> crate::record::Record {
        self.state.turntable.spec_record()
    }

    /// Wraps a loaded turntable into a session ready to start.
    pub fn new(turntable: Turntable<turntable::Loaded>) -> (r: Self)
        ensures
            r.spec_record() == turntable.spec_record(),
    {
        Play { state: Ready { turntable } }
    }

    /// Starts the session: the clock at zero, no judgements, no misses, every
    /// counter at zero.
    pub fn start(self) -> (r: Play<Active>)
        ensures
            r.model() == (PlayModel {
                chart: self.spec_record().chart(),
                progress: 0u32,
                actions: Seq::<(RuntimeNote, NoteAction)>::empty(),
                judged: Seq::<(RuntimeNote, JudgeWindow)>::empty(),
                misses: Seq::<RuntimeNote>::empty(),
                report: JudgementReport {
                    amazings: 0usize,
                    perfects: 0usize,
                    goods: 0usize,
                    averages: 0usize,
                    misses: 0usize,
                    boos: 0usize,
                },
            }),
            r.spec_record() == self.spec_record(),
    {
        Play {
            state: Active {
                turntable: self.state.turntable.play(),
                actions: ActionMap::new(),
                judge: Judge::new(),
                misses: MissSet::new(),
                judgement_report: JudgementReport::new(),
            },
        }
    }
}

impl Play<Active> {
    /// The record playing on the session's turntable.
    pub closed spec fn spec_record(self) -> crate::record::Record {
        self.state.turntable.spec_record()
    }

    /// The mathematical state of this session.
    pub closed spec fn model(self) -> PlayModel {
        PlayModel {
            chart: self.state.turntable.spec_record().chart(),
            progress: self.state.turntable.spec_progress(),
            actions: self.state.actions.entries@,
            judged: self.state.judge.judgements.entries@,
            misses: self.state.misses.notes@,
            report: self.state.judgement_report,
        }
    }

    /// Abandons the run without concluding it.
    pub fn stop(self) -> (r: Play<Ready>)
        ensures
            r.spec_record() == self.spec_record(),
    {
        Play { state: Ready { turntable: self.state.turntable.stop() } }
    }

    /// Concludes the run, retaining the judged actions.
    pub fn finish(self) -> (r: Play<Concluded>)
        ensures
            r.spec_actions() == self.model().actions,
            r.spec_record() == self.spec_record(),
    {
        Play {
            state: Concluded {
                turntable: self.state.turntable.stop(),
                actions: self.state.actions,
            },
        }
    }

    /// A view into the playing turntable; see [`Turntable::view`].
    pub fn view(&self, look_behind: u32, look_ahead: u32) -> (r: Result<
        Vec<(u32, RuntimeNote)>,
        ViewError,
    >)
        ensures
            self.model().progress + look_ahead <= u32::MAX ==> (r matches Ok(v) && v@
                == range_filter(
                self.model().chart,
                view_low(self.model().progress, look_behind),
                (self.model().progress + look_ahead) as u32,
            )),
            self.model().progress + look_ahead > u32::MAX ==> r == Err::<
                Vec<(u32, RuntimeNote)>,
                ViewError,
            >(ViewError::RangeOverflow),
    {
        self.state.turntable.view(look_behind, look_ahead)
    }

    /// The current value of the progress clock.
    pub fn progress(&self) -> (r: u32)
        ensures
            r == self.model().progress,
    {
        self.state.turntable.progress()
    }

    /// The notes the miss sweep has counted.
    pub fn missed_notes(&self) -> (r: &MissSet)
        ensures
            r.notes@ == self.model().misses,
    {
        &self.state.misses
    }

    /// The judged-action map.
    pub fn actions(&self) -> (r: &ActionMap)
        ensures
            r.entries@ == self.model().actions,
    {
        &self.state.actions
    }

    /// The judged-note map.
    pub fn judgements(&self) -> (r: &Judgement)
        ensures
            r.entries@ == self.model().judged,
    {
        &self.state.judge.judgements
    }

    /// The accumulated judgement counters.
    pub fn judgement_results(&self) -> (r: &JudgementReport)
        ensures
            *r == self.model().report,
    {
        &self.state.judgement_report
    }

    /// One frame tick: sets the progress clock, then runs the miss sweep.
    pub fn tick(&mut self, progress: u32)
        ensures
            final(self).model() == spec_tick(old(self).model(), progress),
            final(self).spec_record() == old(self).spec_record(),
    {
        self.state.turntable.tick(progress);
        self.check_miss();
    }

    /// The miss sweep: counts every note far enough past the clock that is
    /// neither already missed nor already judged, once.
    pub fn check_miss(&mut self)
        ensures
            final(self).model() == spec_check_miss(old(self).model()),
            final(self).spec_record() == old(self).spec_record(),
    {
        let song_progress = self.state.turntable.progress();
        let view = match self.state.turntable.view(500, 0) {
            Ok(v) => v,
            Err(_) => {
                proof {
                    assert(false);
                }
                return ;
            },
        };
        let ghost m0 = self.model();
        let ghost rs = view@;
        proof {
            assert(rs == miss_window(m0));
        }
        let mut count: usize = 0;
        let mut k: usize = 0;
        while k < view.len()
            invariant
                k <= view@.len(),
                view@ == rs,
                count <= k,
                song_progress == m0.progress,
                self.state.turntable.spec_record() == old(self).state.turntable.spec_record(),
                self.state.turntable.spec_progress() == m0.progress,
                self.state.actions == old(self).state.actions,
                self.state.judge == old(self).state.judge,
                self.state.judgement_report == m0.report,
                self.model().judged == m0.judged,
                spec_sweep(rs, 0, m0.progress, m0.misses, 0, m0.judged) == spec_sweep(
                    rs,
                    k as int,
                    m0.progress,
                    self.state.misses.notes@,
                    count as int,
                    m0.judged,
                ),
            decreases view@.len() - k,
        {
            let ghost pre_misses = self.state.misses.notes@;
            let ghost pre_count = count as int;
            let entry = view[k];
            let note = entry.1;
            let threshold = if note.timestamp > u32::MAX - 250 {
                u32::MAX
            } else {
                note.timestamp + 250
            };
            proof {
                assert((song_progress >= threshold) == missable(note, m0.progress));
            }
            if song_progress >= threshold && !self.state.misses.contains(&note)
                && !self.state.judge.judgements.contains_key(&note) {
                self.state.misses.insert(note);
                count = count + 1;
                proof {
                    assert(spec_sweep(rs, k as int, m0.progress, pre_misses, pre_count, m0.judged)
                        == spec_sweep(rs, k + 1, m0.progress, self.state.misses.notes@,
                        count as int, m0.judged));
                }
            } else {
                proof {
                    assert(spec_sweep(rs, k as int, m0.progress, pre_misses, pre_count, m0.judged)
                        == spec_sweep(rs, k + 1, m0.progress, self.state.misses.notes@,
                        count as int, m0.judged));
                }
            }
            k = k + 1;
        }
        self.state.judgement_report.count_misses(count);
        proof {
            assert(spec_sweep(rs, rs.len() as int, m0.progress, self.state.misses.notes@,
                count as int, m0.judged) == (self.state.misses.notes@, count as int));
            assert(self.model() =~= spec_check_miss(m0));
        }
    }

    /// One input event: scans the window around the clock for the first
    /// unjudged note of the direction and judges the hit timestamp against
    /// it; see [`spec_do_action`].
    pub fn do_action(&mut self, direction: &Direction, ts: u32, offset: i8)
        ensures
            final(self).model() == spec_do_action(old(self).model(), *direction, ts, offset),
            final(self).spec_record() == old(self).spec_record(),
    {
        let mag: u32 = if offset >= 0 {
            offset as u32
        } else {
            (-(offset as i32)) as u32
        };
        let w = 120 + mag;
        let ghost m0 = self.model();
        proof {
            assert(w == action_window(offset));
        }
        let view = match self.state.turntable.view(w, w) {
            Ok(v) => v,
            Err(_) => {
                proof {
                    assert(self.model() =~= spec_do_action(m0, *direction, ts, offset));
                }
                return ;
            },
        };
        let ghost rs = view@;
        proof {
            assert(rs == input_window(m0, offset));
        }
        let mut i: usize = 0;
        let mut found: Option<RuntimeNote> = None;
        while i < view.len() && found.is_none()
            invariant
                i <= view@.len(),
                view@ == rs,
                self == old(self),
                m0 == self.model(),
                found is None ==> first_candidate(rs, 0, *direction, m0.actions)
                    == first_candidate(rs, i as int, *direction, m0.actions),
                found matches Some(n) ==> first_candidate(rs, 0, *direction, m0.actions)
                    == Some(n),
            decreases view@.len() - i + (if found is None { 1int } else { 0int }),
        {
            let entry = view[i];
            let note = entry.1;
            if note.direction == *direction && !self.state.actions.contains_key(&note) {
                found = Some(note);
                proof {
                    assert(first_candidate(rs, i as int, *direction, m0.actions) == Some(note));
                }
            } else {
                proof {
                    assert(first_candidate(rs, i as int, *direction, m0.actions)
                        == first_candidate(rs, i + 1, *direction, m0.actions));
                }
                i = i + 1;
            }
        }
        match found {
            None => {
                proof {
                    assert(first_candidate(rs, rs.len() as int, *direction, m0.actions) is None);
                }
                self.state.judgement_report.count_boo();
                proof {
                    assert(self.model() =~= spec_do_action(m0, *direction, ts, offset));
                }
            },
            Some(note) => {
                match self.state.judge.judge(ts, &note) {
                    None => {
                        self.state.judgement_report.count_boo();
                        proof {
                            assert(self.model() =~= spec_do_action(m0, *direction, ts, offset));
                        }
                    },
                    Some(window) => {
                        self.state.judgement_report.count_window(window);
                        self.state.judge.judgements.record(note, window);
                        self.state.actions.record(
                            note,
                            NoteAction { direction: *direction, timestamp: ts },
                        );
                        proof {
                            assert(self.model() =~= spec_do_action(m0, *direction, ts, offset));
                        }
                    },
                }
            },
        }
    }
}

impl Play<Concluded> {
    /// The record loaded on the session's turntable.
    pub closed spec fn spec_record(self) -> crate::record::Record {
        self.state.turntable.spec_record()
    }

    /// The judged actions retained from the run.
    pub closed spec fn spec_actions(self) -> Seq<(RuntimeNote, NoteAction)> {
        self.state.actions.entries@
    }

    /// The judged-action map retained from the run.
    pub fn actions(&self) -> (r: &ActionMap)
        ensures
            r.entries@ == self.spec_actions(),
    {
        &self.state.actions
    }

    /// Returns the session to its ready state.
    pub fn finalize(self) -> (r: Play<Ready>)
        ensures
            r.spec_record() == self.spec_record(),
    {
        Play { state: Ready { turntable: self.state.turntable } }
    }
}

/// After a sweep, everything already missed stays missed, and every missable
/// unjudged note of the swept window is in the miss set.
proof fn lemma_sweep_covers(
    rs: Seq<(u32, RuntimeNote)>,
    i: int,
    progress: u32,
    misses: Seq<RuntimeNote>,
    count: int,
    judged: Seq<(RuntimeNote, JudgeWindow)>,
)
    requires
        0 <= i <= rs.len(),
    ensures
        forall|n: RuntimeNote|
            #[trigger] miss_contains(misses, n) ==> miss_contains(
                spec_sweep(rs, i, progress, misses, count, judged).0,
                n,
            ),
        forall|k: int|
            #![trigger rs[k]]
            i <= k < rs.len() && missable(rs[k].1, progress) && !judged_contains(judged, rs[k].1)
                ==> miss_contains(spec_sweep(rs, i, progress, misses, count, judged).0, rs[k].1),
    decreases rs.len() - i,
{
    if i < rs.len() {
        let n = rs[i].1;
        if missable(n, progress) && !miss_contains(misses, n) && !judged_contains(judged, n) {
            let pushed = misses.push(n);
            assert forall|x: RuntimeNote| #[trigger] miss_contains(misses, x) implies miss_contains(
                pushed,
                x,
            ) by {
                let j = choose|j: int| 0 <= j < misses.len() && misses[j] == x;
                assert(pushed[j] == x);
            }
            assert(miss_contains(pushed, n)) by {
                assert(pushed[misses.len() as int] == n);
            }
            lemma_sweep_covers(rs, i + 1, progress, pushed, count + 1, judged);
        } else {
            lemma_sweep_covers(rs, i + 1, progress, misses, count, judged);
        }
    }
}

/// A sweep over a window whose missable unjudged notes are all already in the
/// miss set changes nothing.
proof fn lemma_sweep_noop(
    rs: Seq<(u32, RuntimeNote)>,
    i: int,
    progress: u32,
    misses: Seq<RuntimeNote>,
    count: int,
    judged: Seq<(RuntimeNote, JudgeWindow)>,
)
    requires
        0 <= i <= rs.len(),
        forall|k: int|
            #![trigger rs[k]]
            i <= k < rs.len() && missable(rs[k].1, progress) && !judged_contains(judged, rs[k].1)
                ==> miss_contains(misses, rs[k].1),
    ensures
        spec_sweep(rs, i, progress, misses, count, judged) == (misses, count),
    decreases rs.len() - i,
{
    if i < rs.len() {
        lemma_sweep_noop(rs, i + 1, progress, misses, count, judged);
    }
}

/// The miss sweep is idempotent: at unchanged progress, a second sweep counts
/// no note again and leaves the whole state unchanged.
pub proof fn lemma_check_miss_idempotent(m: PlayModel)
    ensures
        spec_check_miss(spec_check_miss(m)) == spec_check_miss(m),
{
    let rs = miss_window(m);
    let swept = spec_sweep(rs, 0, m.progress, m.misses, 0, m.judged);
    let m1 = spec_check_miss(m);
    assert(miss_window(m1) == rs);
    lemma_sweep_covers(rs, 0, m.progress, m.misses, 0, m.judged);
    lemma_sweep_noop(rs, 0, m.progress, swept.0, 0, m.judged);
    assert(report_with_misses(m1.report, 0) == m1.report);
    assert(spec_check_miss(m1) =~= m1);
}

/// From position `i` on, a window with no matching unjudged note yields no
/// candidate.
proof fn lemma_first_candidate_none(
    rs: Seq<(u32, RuntimeNote)>,
    i: int,
    dir: Direction,
    actions: Seq<(RuntimeNote, NoteAction)>,
)
    requires
        0 <= i <= rs.len(),
        forall|k: int|
            #![trigger rs[k]]
            i <= k < rs.len() ==> !(rs[k].1.direction == dir && !action_contains(
                actions,
                rs[k].1,
            )),
    ensures
        first_candidate(rs, i, dir, actions) is None,
    decreases rs.len() - i,
{
    if i < rs.len() {
        lemma_first_candidate_none(rs, i + 1, dir, actions);
    }
}

/// An input with no unjudged note of its direction inside the window counts
/// exactly one boo, saturating, and leaves every other counter, the judged
/// maps and the miss set unchanged.
pub proof fn lemma_do_action_boo(m: PlayModel, dir: Direction, ts: u32, offset: i8)
    requires
        m.progress + action_window(offset) <= u32::MAX,
        forall|k: int|
            #![trigger input_window(m, offset)[k]]
            0 <= k < input_window(m, offset).len() ==> !(input_window(m, offset)[k].1.direction
                == dir && !action_contains(m.actions, input_window(m, offset)[k].1)),
    ensures
        spec_do_action(m, dir, ts, offset) == (PlayModel { report: report_with_boo(m.report), ..m }),
        spec_do_action(m, dir, ts, offset).report.boos == sat_plus(m.report.boos, 1),
        spec_do_action(m, dir, ts, offset).report.amazings == m.report.amazings,
        spec_do_action(m, dir, ts, offset).report.perfects == m.report.perfects,
        spec_do_action(m, dir, ts, offset).report.goods == m.report.goods,
        spec_do_action(m, dir, ts, offset).report.averages == m.report.averages,
        spec_do_action(m, dir, ts, offset).report.misses == m.report.misses,
        spec_do_action(m, dir, ts, offset).actions == m.actions,
        spec_do_action(m, dir, ts, offset).judged == m.judged,
        spec_do_action(m, dir, ts, offset).misses == m.misses,
{
    lemma_first_candidate_none(input_window(m, offset), 0, dir, m.actions);
}

/// Distances between unsigned timestamps.
pub trait Difference {
    /// The absolute difference between the two values.
    fn abs_difference(self, right: &u32) -> Self;

    /// The difference floored at zero.
    fn difference(self, right: &u32) -> u32;
}

impl Difference for u32 {
    /// The absolute difference of the two timestamps.
    fn abs_difference(self, right: &u32) -> (r: Self)
        ensures
            r == if self >= *right {
                (self - *right) as u32
            } else {
                (*right - self) as u32
            },
    {
        if self < *right {
            *right - self
        } else {
            self - *right
        }
    }

    /// The difference of the two timestamps, floored at zero.
    fn difference(self, right: &u32) -> (r: u32)
        ensures
            r == if self >= *right {
                (self - *right) as u32
            } else {
                0u32
            },
    {
        if self >= *right {
            self - *right
        } else {
            0
        }
    }
}

} // verus!

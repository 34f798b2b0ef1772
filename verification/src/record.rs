//! The pressed record: audio bytes plus the chart wrapped in an interval
//! index, with its total duration.

use vstd::prelude::*;

use crate::chart::{ChartError, RuntimeChart};
use crate::index::{index_seq, keys_match, range_filter, ts_sorted, IntervalIndex};
use crate::note::{note_le, RuntimeNote};

verus! {

/// True when the notes appear in intrinsic order.
pub open spec fn notes_sorted(s: Seq<RuntimeNote>) -> bool {
    forall|i: int, j: int| #![trigger s[i], s[j]] 0 <= i < j < s.len() ==> note_le(s[i], s[j])
}

/// The position at which a note is inserted to keep a sequence in intrinsic
/// order and stable: directly after the last note that compares at most equal.
pub open spec fn note_insert_pos(s: Seq<RuntimeNote>, n: RuntimeNote) -> int
    decreases s.len(),
{
    if s.len() == 0 {
        0
    } else if note_le(s.last(), n) {
        s.len() as int
    } else {
        note_insert_pos(s.drop_last(), n)
    }
}

/// One stable insertion of a note in intrinsic order.
pub open spec fn note_insert(s: Seq<RuntimeNote>, n: RuntimeNote) -> Seq<RuntimeNote> {
    s.insert(note_insert_pos(s, n), n)
}

/// The notes of `s` in intrinsic order, by stable insertion: primary key beat
/// position, ties broken by colour, then direction, then timestamp; equal
/// records keep their relative order.
pub open spec fn sort_notes(s: Seq<RuntimeNote>) -> Seq<RuntimeNote>
    decreases s.len(),
{
    if s.len() == 0 {
        s
    } else {
        note_insert(sort_notes(s.drop_last()), s.last())
    }
}

/// `note_insert_pos` splits an intrinsically sorted sequence into a prefix of
/// notes at most `n` and a suffix of notes strictly above it.
pub proof fn lemma_note_insert_pos_props(s: Seq<RuntimeNote>, n: RuntimeNote)
    requires
        notes_sorted(s),
    ensures
        0 <= note_insert_pos(s, n) <= s.len(),
        forall|i: int| #![trigger s[i]] 0 <= i < note_insert_pos(s, n) ==> note_le(s[i], n),
        forall|i: int| #![trigger s[i]] note_insert_pos(s, n) <= i < s.len() ==> !note_le(s[i], n),
    decreases s.len(),
{
    if s.len() == 0 {
    } else if note_le(s.last(), n) {
        assert forall|i: int| 0 <= i < s.len() implies note_le(#[trigger] s[i], n) by {
            assert(note_le(s[i], s[s.len() - 1]));
        }
    } else {
        let t = s.drop_last();
        assert(notes_sorted(t));
        lemma_note_insert_pos_props(t, n);
        assert(forall|i: int| 0 <= i < t.len() ==> t[i] == #[trigger] s[i]);
        assert forall|i: int| note_insert_pos(s, n) <= i < s.len() implies !note_le(
            #[trigger] s[i],
            n,
        ) by {
            if i < s.len() - 1 {
                assert(s[i] == t[i]);
            }
        }
    }
}

/// Any position with the prefix/suffix split property is `note_insert_pos`.
pub proof fn lemma_note_insert_pos_unique(s: Seq<RuntimeNote>, n: RuntimeNote, p: int)
    requires
        0 <= p <= s.len(),
        forall|i: int| #![trigger s[i]] p <= i < s.len() ==> !note_le(s[i], n),
        p == 0 || note_le(s[p - 1], n),
    ensures
        note_insert_pos(s, n) == p,
    decreases s.len(),
{
    if s.len() == 0 {
    } else if note_le(s.last(), n) {
        if p < s.len() {
            assert(!note_le(s[s.len() - 1], n));
            assert(false);
        }
    } else {
        if p == s.len() {
            assert(note_le(s[p - 1], n));
            assert(false);
        }
        let t = s.drop_last();
        assert forall|i: int| p <= i < t.len() implies !note_le(#[trigger] t[i], n) by {
            assert(t[i] == s[i]);
        }
        if p > 0 {
            assert(t[p - 1] == s[p - 1]);
        }
        lemma_note_insert_pos_unique(t, n, p);
    }
}

/// Stable insertion keeps a note sequence intrinsically sorted.
pub proof fn lemma_note_insert_sorted(s: Seq<RuntimeNote>, n: RuntimeNote)
    requires
        notes_sorted(s),
    ensures
        notes_sorted(note_insert(s, n)),
        note_insert(s, n).len() == s.len() + 1,
    decreases s.len(),
{
    let p = note_insert_pos(s, n);
    lemma_note_insert_pos_props(s, n);
    let r = s.insert(p, n);
    s.insert_ensures(p, n);
    assert forall|i: int, j: int| 0 <= i < j < r.len() implies note_le(r[i], r[j]) by {
        let si = if i < p { s[i] } else if i == p { n } else { s[i - 1] };
        let sj = if j < p { s[j] } else if j == p { n } else { s[j - 1] };
        assert(r[i] == si);
        assert(r[j] == sj);
    }
}

/// The stable sort of any note sequence is intrinsically sorted and a
/// rearrangement of the same length.
pub proof fn lemma_sort_notes_sorted(s: Seq<RuntimeNote>)
    ensures
        notes_sorted(sort_notes(s)),
        sort_notes(s).len() == s.len(),
    decreases s.len(),
{
    if s.len() > 0 {
        lemma_sort_notes_sorted(s.drop_last());
        lemma_note_insert_sorted(sort_notes(s.drop_last()), s.last());
    }
}

/// Sorts a chart's notes into intrinsic order by stable insertion.
pub fn sort_notes_stable(notes: &Vec<RuntimeNote>) -> (r: Vec<RuntimeNote>)
    ensures
        r@ == sort_notes(notes@),
        notes_sorted(r@),
{
    let ghost gnotes = notes@;
    let mut out: Vec<RuntimeNote> = Vec::new();
    proof {
        assert(gnotes.take(0) =~= Seq::<RuntimeNote>::empty());
        assert(out@ =~= sort_notes(gnotes.take(0)));
    }
    let mut idx: usize = 0;
    while idx < notes.len()
        invariant
            idx <= notes.len(),
            gnotes == notes@,
            out@ == sort_notes(gnotes.take(idx as int)),
            notes_sorted(out@),
        decreases notes.len() - idx,
    {
        let note = notes[idx];
        let mut p: usize = out.len();
        while p > 0 && !out[p - 1].le(&note)
            invariant
                p <= out.len(),
                forall|i: int| #![trigger out@[i]] p <= i < out@.len() ==> !note_le(out@[i], note),
            decreases p,
        {
            p = p - 1;
        }
        proof {
            lemma_note_insert_pos_unique(out@, note, p as int);
            lemma_note_insert_sorted(out@, note);
        }
        let ghost old_out = out@;
        out.insert(p, note);
        proof {
            assert(out@ == note_insert(old_out, note));
            assert(gnotes.take(idx + 1).drop_last() =~= gnotes.take(idx as int));
            assert(gnotes.take(idx + 1).last() == gnotes[idx as int]);
            assert(out@ == sort_notes(gnotes.take(idx + 1)));
        }
        idx = idx + 1;
    }
    proof {
        assert(gnotes.take(notes.len() as int) =~= gnotes);
    }
    out
}

/// The persisted runtime unit a turntable plays: audio bytes and the chart
/// wrapped in an interval index, with the chart's total duration. Constructed
/// once by pressing a source; immutable thereafter.
pub struct Record {
    mp3: Vec<u8>,
    optimized_chart: IntervalIndex,
    duration: u32,
}

impl Record {
    /// The audio bytes of this record.
    pub closed spec fn spec_mp3(self) -> Seq<u8> {
        self.mp3@
    }

    /// The indexed chart of this record, ascending by timestamp.
    pub closed spec fn chart(self) -> Seq<(u32, RuntimeNote)> {
        self.optimized_chart@
    }

    /// The duration of this record: the largest note timestamp.
    pub closed spec fn spec_duration(self) -> u32 {
        self.duration
    }

    /// A record always holds a non-empty, sorted chart whose duration is the
    /// timestamp of its chronologically last note.
    #[verifier::type_invariant]
    pub closed spec fn wf(self) -> bool {
        &&& self.chart().len() > 0
        &&& ts_sorted(self.chart())
        &&& keys_match(self.chart())
        &&& self.duration == self.chart().last().0
    }

    /// Assembles a record from audio bytes and an extracted chart: orders the
    /// notes intrinsically, indexes them by timestamp, and derives the
    /// duration as the largest timestamp. Fails with
    /// `ChartError::EmptyChart` if, and only if, the chart holds no notes.
    pub fn new(mp3: Vec<u8>, chart: RuntimeChart) -> (r: Result<Record, ChartError>)
        ensures
            r is Ok <==> chart.notes@.len() > 0,
            r is Err ==> r == Err::<Record, ChartError>(ChartError::EmptyChart),
            r matches Ok(rec) ==> {
                &&& rec.spec_mp3() == mp3@
                &&& rec.chart() == index_seq(sort_notes(chart.notes@))
                &&& rec.chart().len() == chart.notes@.len()
                &&& rec.spec_duration() == rec.chart().last().0
                &&& forall|i: int|
                    #![trigger rec.chart()[i]]
                    0 <= i < rec.chart().len() ==> rec.chart()[i].0 <= rec.spec_duration()
            },
    {
        if chart.notes.len() == 0 {
            return Err(ChartError::EmptyChart);
        }
        let sorted = sort_notes_stable(&chart.notes);
        let index = IntervalIndex::new(&sorted);
        proof {
            lemma_sort_notes_sorted(chart.notes@);
            crate::index::lemma_index_seq_wf(sorted@);
        }
        let duration = index.last_key();
        Ok(Record { mp3, optimized_chart: index, duration })
    }

    /// The audio bytes of this record.
    pub fn mp3(&self) -> (r: &Vec<u8>)
        ensures
            r@ == self.spec_mp3(),
    {
        &self.mp3
    }

    /// The duration of this record in milliseconds.
    pub fn duration(&self) -> (r: u32)
        ensures
            r == self.spec_duration(),
    {
        self.duration
    }

    /// Inclusive range query against the indexed chart; see
    /// [`IntervalIndex::range`].
    pub fn range(&self, low: u32, high: u32) -> (r: Vec<(u32, RuntimeNote)>)
        ensures
            r@ == range_filter(self.chart(), low, high),
            ts_sorted(r@),
            keys_match(r@),
    {
        self.optimized_chart.range(low, high)
    }
}

} // verus!

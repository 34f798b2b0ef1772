//! The interval index: a timestamp-keyed, insertion-stable multimap over note
//! records, built once from a chart and then queried by inclusive timestamp
//! range.

use vstd::prelude::*;

use crate::note::RuntimeNote;

verus! {

/// True when an entry's key lies in the inclusive range `[low, high]`.
pub open spec fn in_range(p: (u32, RuntimeNote), low: u32, high: u32) -> bool {
    low <= p.0 && p.0 <= high
}

/// The entries of `s` whose key lies in `[low, high]`, order preserved.
pub open spec fn range_filter(
    s: Seq<(u32, RuntimeNote)>,
    low: u32,
    high: u32,
) -> Seq<(u32, RuntimeNote)> {
    s.filter(|p: (u32, RuntimeNote)| in_range(p, low, high))
}

/// Keys appear in ascending order.
pub open spec fn ts_sorted(s: Seq<(u32, RuntimeNote)>) -> bool {
    forall|i: int, j: int|
        #![trigger s[i], s[j]]
        0 <= i < j < s.len() ==> s[i].0 <= s[j].0
}

/// Every entry is keyed by its note's timestamp.
pub open spec fn keys_match(s: Seq<(u32, RuntimeNote)>) -> bool {
    forall|i: int| #![trigger s[i]] 0 <= i < s.len() ==> s[i].0 == s[i].1.timestamp
}

/// The position at which a note with key `ts` is inserted to keep the index
/// sorted and insertion-stable: directly after the last entry whose key is at
/// most `ts`.
pub open spec fn insert_pos(s: Seq<(u32, RuntimeNote)>, ts: u32) -> int
    decreases s.len(),
{
    if s.len() == 0 {
        0
    } else if s.last().0 <= ts {
        s.len() as int
    } else {
        insert_pos(s.drop_last(), ts)
    }
}

/// One stable insertion of a note into the index sequence.
pub open spec fn insert_entry(
    s: Seq<(u32, RuntimeNote)>,
    n: RuntimeNote,
) -> Seq<(u32, RuntimeNote)> {
    s.insert(insert_pos(s, n.timestamp), (n.timestamp, n))
}

/// The index sequence built from `notes` by stable insertion, in order.
pub open spec fn index_seq(notes: Seq<RuntimeNote>) -> Seq<(u32, RuntimeNote)>
    decreases notes.len(),
{
    if notes.len() == 0 {
        Seq::empty()
    } else {
        insert_entry(index_seq(notes.drop_last()), notes.last())
    }
}

/// `insert_pos` splits a sorted sequence into a prefix of keys at most `ts`
/// and a suffix of keys above it.
pub proof fn lemma_insert_pos_props(s: Seq<(u32, RuntimeNote)>, ts: u32)
    requires
        ts_sorted(s),
    ensures
        0 <= insert_pos(s, ts) <= s.len(),
        forall|i: int| #![trigger s[i]] 0 <= i < insert_pos(s, ts) ==> s[i].0 <= ts,
        forall|i: int| #![trigger s[i]] insert_pos(s, ts) <= i < s.len() ==> s[i].0 > ts,
    decreases s.len(),
{
    if s.len() == 0 {
    } else if s.last().0 <= ts {
        assert forall|i: int| 0 <= i < s.len() implies #[trigger] s[i].0 <= ts by {
            assert(s[i].0 <= s[s.len() - 1].0);
        }
    } else {
        let t = s.drop_last();
        assert(ts_sorted(t));
        lemma_insert_pos_props(t, ts);
        assert(forall|i: int| 0 <= i < t.len() ==> t[i] == #[trigger] s[i]);
        assert forall|i: int| insert_pos(s, ts) <= i < s.len() implies #[trigger] s[i].0 > ts by {
            if i < s.len() - 1 {
                assert(s[i] == t[i]);
            }
        }
    }
}

/// Any position with the prefix/suffix split property is `insert_pos`.
pub proof fn lemma_insert_pos_unique(s: Seq<(u32, RuntimeNote)>, ts: u32, p: int)
    requires
        0 <= p <= s.len(),
        forall|i: int| #![trigger s[i]] p <= i < s.len() ==> s[i].0 > ts,
        p == 0 || s[p - 1].0 <= ts,
    ensures
        insert_pos(s, ts) == p,
    decreases s.len(),
{
    if s.len() == 0 {
    } else if s.last().0 <= ts {
        if p < s.len() {
            assert(s[s.len() - 1].0 > ts);
            assert(false);
        }
    } else {
        if p == s.len() {
            assert(s[p - 1].0 <= ts);
            assert(false);
        }
        let t = s.drop_last();
        assert forall|i: int| p <= i < t.len() implies #[trigger] t[i].0 > ts by {
            assert(t[i] == s[i]);
        }
        if p > 0 {
            assert(t[p - 1] == s[p - 1]);
        }
        lemma_insert_pos_unique(t, ts, p);
    }
}

/// Stable insertion preserves the index invariants.
pub proof fn lemma_insert_entry_wf(s: Seq<(u32, RuntimeNote)>, n: RuntimeNote)
    requires
        ts_sorted(s),
        keys_match(s),
    ensures
        ts_sorted(insert_entry(s, n)),
        keys_match(insert_entry(s, n)),
        insert_entry(s, n).len() == s.len() + 1,
{
    let ts = n.timestamp;
    let p = insert_pos(s, ts);
    lemma_insert_pos_props(s, ts);
    let r = s.insert(p, (ts, n));
    s.insert_ensures(p, (ts, n));
    assert forall|i: int, j: int| 0 <= i < j < r.len() implies r[i].0 <= r[j].0 by {
        let si = if i < p { s[i] } else if i == p { (ts, n) } else { s[i - 1] };
        let sj = if j < p { s[j] } else if j == p { (ts, n) } else { s[j - 1] };
        assert(r[i] == si);
        assert(r[j] == sj);
    }
    assert forall|i: int| 0 <= i < r.len() implies r[i].0 == r[i].1.timestamp by {
        if i < p {
            assert(r[i] == s[i]);
        } else if i > p {
            assert(r[i] == s[i - 1]);
        }
    }
}

/// The index built from any note sequence satisfies the index invariants.
pub proof fn lemma_index_seq_wf(notes: Seq<RuntimeNote>)
    ensures
        ts_sorted(index_seq(notes)),
        keys_match(index_seq(notes)),
        index_seq(notes).len() == notes.len(),
    decreases notes.len(),
{
    if notes.len() > 0 {
        lemma_index_seq_wf(notes.drop_last());
        lemma_insert_entry_wf(index_seq(notes.drop_last()), notes.last());
    }
}

/// A filter keeps nothing of a sequence none of whose elements satisfy it.
proof fn lemma_filter_empty<A>(s: Seq<A>, pred: spec_fn(A) -> bool)
    requires
        forall|i: int| 0 <= i < s.len() ==> !pred(#[trigger] s[i]),
    ensures
        s.filter(pred) == Seq::<A>::empty(),
    decreases s.len(),
{
    reveal(Seq::filter);
    if s.len() > 0 {
        assert(!pred(s[s.len() - 1]));
        lemma_filter_empty(s.drop_last(), pred);
    }
    assert(s.filter(pred) =~= Seq::<A>::empty());
}

/// The index is insertion-stable: for every timestamp, the entries keyed by
/// it carry exactly the chart's notes with that timestamp, in chart order.
pub proof fn lemma_index_seq_stable(notes: Seq<RuntimeNote>, k: u32)
    ensures
        index_seq(notes).filter(|p: (u32, RuntimeNote)| p.0 == k).map_values(
            |p: (u32, RuntimeNote)| p.1,
        ) == notes.filter(|n: RuntimeNote| n.timestamp == k),
    decreases notes.len(),
{
    reveal(Seq::filter);
    let epred = |p: (u32, RuntimeNote)| p.0 == k;
    let npred = |n: RuntimeNote| n.timestamp == k;
    let to_note = |p: (u32, RuntimeNote)| p.1;
    if notes.len() == 0 {
        assert(index_seq(notes).filter(epred) =~= Seq::<(u32, RuntimeNote)>::empty());
        assert(index_seq(notes).filter(epred).map_values(to_note) =~= Seq::<
            RuntimeNote,
        >::empty());
        assert(notes.filter(npred) =~= Seq::<RuntimeNote>::empty());
    } else {
        let t = notes.drop_last();
        let n = notes.last();
        let ts = n.timestamp;
        lemma_index_seq_stable(t, k);
        let prev = index_seq(t);
        lemma_index_seq_wf(t);
        lemma_insert_pos_props(prev, ts);
        let p = insert_pos(prev, ts);
        let e = (ts, n);
        let pre = prev.subrange(0, p);
        let suf = prev.subrange(p, prev.len() as int);
        let cur = index_seq(notes);
        assert(cur == pre.push(e) + suf);
        assert(pre.push(e) =~= pre + seq![e]);
        Seq::filter_distributes_over_add(pre + seq![e], suf, epred);
        Seq::filter_distributes_over_add(pre, seq![e], epred);
        assert(prev =~= pre + suf);
        Seq::filter_distributes_over_add(pre, suf, epred);
        // the suffix holds only keys above the inserted timestamp
        assert forall|i: int| 0 <= i < suf.len() implies suf[i].0 > ts by {
            assert(suf[i] == prev[p + i]);
        }
        assert(seq![e].drop_last() =~= Seq::<(u32, RuntimeNote)>::empty());
        assert(Seq::<(u32, RuntimeNote)>::empty().filter(epred) =~= Seq::<
            (u32, RuntimeNote),
        >::empty());
        assert(seq![e].drop_last().filter(epred) == Seq::<(u32, RuntimeNote)>::empty());
        if epred(e) {
            assert(seq![e].filter(epred) =~= seq![e]);
        } else {
            assert(seq![e].filter(epred) =~= Seq::<(u32, RuntimeNote)>::empty());
        }
        assert(notes.drop_last() =~= t);
        assert(notes.filter(npred) == if npred(n) {
            t.filter(npred).push(n)
        } else {
            t.filter(npred)
        });
        if k == ts {
            // the new entry joins the end of its timestamp block
            lemma_filter_empty(suf, epred);
            assert(cur.filter(epred) =~= prev.filter(epred).push(e));
            assert(cur.filter(epred).map_values(to_note) =~= prev.filter(epred).map_values(
                to_note,
            ).push(n));
        } else {
            assert(seq![e].filter(epred) =~= Seq::<(u32, RuntimeNote)>::empty());
            assert(cur.filter(epred) =~= prev.filter(epred));
        }
    }
}

/// In a sorted sequence split by `a` and `b` into keys below `low`, keys in
/// `[low, high]`, and keys above `high`, the range filter is exactly the
/// middle block.
pub proof fn lemma_filter_interval(
    s: Seq<(u32, RuntimeNote)>,
    low: u32,
    high: u32,
    a: int,
    b: int,
)
    requires
        0 <= a <= s.len(),
        0 <= b <= s.len(),
        forall|i: int| #![trigger s[i]] 0 <= i < a ==> s[i].0 < low,
        forall|i: int| #![trigger s[i]] a <= i < b ==> in_range(s[i], low, high),
        forall|i: int| #![trigger s[i]] b <= i < s.len() ==> s[i].0 > high,
    ensures
        a <= b ==> range_filter(s, low, high) == s.subrange(a, b),
        a > b ==> range_filter(s, low, high) == Seq::<(u32, RuntimeNote)>::empty(),
    decreases s.len(),
{
    reveal(Seq::filter);
    if s.len() == 0 {
        assert(range_filter(s, low, high) =~= Seq::<(u32, RuntimeNote)>::empty());
        assert(s.subrange(0, 0) =~= Seq::<(u32, RuntimeNote)>::empty());
    } else {
        let t = s.drop_last();
        let last = s.last();
        assert(forall|i: int| 0 <= i < t.len() ==> t[i] == #[trigger] s[i]);
        if b == s.len() && a < b {
            // the last entry lies in the middle block
            assert(in_range(last, low, high));
            lemma_filter_interval(t, low, high, a, b - 1);
            assert(range_filter(s, low, high) == range_filter(t, low, high).push(last));
            assert(t.subrange(a, b - 1).push(last) =~= s.subrange(a, b));
        } else if b == s.len() {
            // a == b == s.len(): every key is below low
            assert(s[s.len() - 1].0 < low);
            assert(!in_range(last, low, high));
            lemma_filter_interval(t, low, high, a - 1, b - 1);
            assert(range_filter(s, low, high) == range_filter(t, low, high));
            assert(s.subrange(a, b) =~= Seq::<(u32, RuntimeNote)>::empty());
            assert(t.subrange(a - 1, b - 1) =~= Seq::<(u32, RuntimeNote)>::empty());
        } else {
            // the last entry lies above the range
            assert(s[s.len() - 1].0 > high);
            assert(!in_range(last, low, high));
            let a1 = if a <= t.len() { a } else { t.len() as int };
            lemma_filter_interval(t, low, high, a1, b);
            assert(range_filter(s, low, high) == range_filter(t, low, high));
            if a <= b {
                assert(t.subrange(a1, b) =~= s.subrange(a, b));
            }
        }
    }
}

/// A timestamp-keyed, insertion-stable multimap over note records. Built once
/// from a chart's notes; read-only afterward.
pub struct IntervalIndex {
    entries: Vec<(u32, RuntimeNote)>,
}

impl View for IntervalIndex {
    type V = Seq<(u32, RuntimeNote)>;

    closed spec fn view(&self) -> Seq<(u32, RuntimeNote)> {
        self.entries@
    }
}

impl IntervalIndex {
    /// The index invariant: entries sorted by key, keys equal to the notes'
    /// timestamps.
    #[verifier::type_invariant]
    pub closed spec fn wf(self) -> bool {
        ts_sorted(self@) && keys_match(self@)
    }

    /// Builds the index from a chart's notes by stable insertion: among equal
    /// timestamps, the notes' order is kept.
    pub fn new(notes: &Vec<RuntimeNote>) -> (r: Self)
        ensures
            r@ == index_seq(notes@),
            ts_sorted(r@),
            keys_match(r@),
    {
        let ghost gnotes = notes@;
        let mut entries: Vec<(u32, RuntimeNote)> = Vec::new();
        proof {
            assert(gnotes.take(0) =~= Seq::<RuntimeNote>::empty());
            assert(entries@ =~= index_seq(gnotes.take(0)));
        }
        let mut idx: usize = 0;
        while idx < notes.len()
            invariant
                idx <= notes.len(),
                gnotes == notes@,
                entries@ == index_seq(gnotes.take(idx as int)),
                ts_sorted(entries@),
                keys_match(entries@),
            decreases notes.len() - idx,
        {
            let note = notes[idx];
            let ts = note.timestamp;
            let mut p: usize = entries.len();
            while p > 0 && entries[p - 1].0 > ts
                invariant
                    p <= entries.len(),
                    forall|i: int|
                        #![trigger entries@[i]]
                        p <= i < entries@.len() ==> entries@[i].0 > ts,
                decreases p,
            {
                p = p - 1;
            }
            proof {
                lemma_insert_pos_unique(entries@, ts, p as int);
                lemma_insert_entry_wf(entries@, note);
            }
            let ghost old_entries = entries@;
            entries.insert(p, (ts, note));
            proof {
                assert(entries@ == insert_entry(old_entries, note));
                assert(gnotes.take(idx + 1).drop_last() =~= gnotes.take(idx as int));
                assert(gnotes.take(idx + 1).last() == gnotes[idx as int]);
                assert(entries@ == index_seq(gnotes.take(idx + 1)));
            }
            idx = idx + 1;
        }
        proof {
            assert(gnotes.take(notes.len() as int) =~= gnotes);
        }
        IntervalIndex { entries }
    }

    /// How many entries the index holds.
    pub fn len(&self) -> (r: usize)
        ensures
            r == self@.len(),
    {
        self.entries.len()
    }

    /// The entry at a position, ascending by timestamp.
    pub fn entry_at(&self, i: usize) -> (r: (u32, RuntimeNote))
        requires
            i < self@.len(),
        ensures
            r == self@[i as int],
    {
        self.entries[i]
    }

    /// The key of the index's last entry: the largest timestamp it holds.
    pub fn last_key(&self) -> (r: u32)
        requires
            self@.len() > 0,
        ensures
            r == self@.last().0,
            forall|i: int| #![trigger self@[i]] 0 <= i < self@.len() ==> self@[i].0 <= r,
    {
        proof {
            use_type_invariant(self);
        }
        self.entries[self.entries.len() - 1].0
    }

    /// Inclusive range query: exactly the entries whose timestamp lies in
    /// `[low, high]`, ascending by timestamp, insertion-stable among equal
    /// timestamps.
    pub fn range(&self, low: u32, high: u32) -> (r: Vec<(u32, RuntimeNote)>)
        ensures
            r@ == range_filter(self@, low, high),
            ts_sorted(r@),
            keys_match(r@),
    {
        proof {
            use_type_invariant(self);
        }
        let lo = Self::lower_bound(&self.entries, low);
        let hi = Self::upper_bound(&self.entries, high);
        let mut out: Vec<(u32, RuntimeNote)> = Vec::new();
        let mut k = lo;
        while k < hi
            invariant
                lo <= k,
                k <= self.entries@.len(),
                hi <= self.entries@.len(),
                lo <= hi ==> k <= hi,
                lo <= hi ==> out@ == self.entries@.subrange(lo as int, k as int),
                lo > hi ==> out@ == Seq::<(u32, RuntimeNote)>::empty(),
            decreases hi - k,
        {
            out.push(self.entries[k]);
            proof {
                assert(out@ =~= self.entries@.subrange(lo as int, k + 1));
            }
            k = k + 1;
        }
        proof {
            lemma_filter_interval(self.entries@, low, high, lo as int, hi as int);
            if lo <= hi {
                assert(out@ == self.entries@.subrange(lo as int, hi as int));
            }
            assert(out@ == range_filter(self@, low, high));
        }
        out
    }

    /// First position whose key is at least `low`.
    fn lower_bound(v: &Vec<(u32, RuntimeNote)>, low: u32) -> (r: usize)
        requires
            ts_sorted(v@),
        ensures
            r <= v@.len(),
            forall|i: int| #![trigger v@[i]] 0 <= i < r ==> v@[i].0 < low,
            forall|i: int| #![trigger v@[i]] r <= i < v@.len() ==> v@[i].0 >= low,
    {
        let mut lo: usize = 0;
        let mut hi: usize = v.len();
        while lo < hi
            invariant
                lo <= hi <= v@.len(),
                ts_sorted(v@),
                forall|i: int| #![trigger v@[i]] 0 <= i < lo ==> v@[i].0 < low,
                forall|i: int| #![trigger v@[i]] hi <= i < v@.len() ==> v@[i].0 >= low,
            decreases hi - lo,
        {
            let mid = lo + (hi - lo) / 2;
            if v[mid].0 < low {
                assert forall|i: int| 0 <= i < mid + 1 implies #[trigger] v@[i].0 < low by {
                    assert(v@[i].0 <= v@[mid as int].0);
                }
                lo = mid + 1;
            } else {
                assert forall|i: int| mid <= i < v@.len() implies #[trigger] v@[i].0 >= low by {
                    assert(v@[mid as int].0 <= v@[i].0);
                }
                hi = mid;
            }
        }
        lo
    }

    /// First position whose key is above `high`.
    fn upper_bound(v: &Vec<(u32, RuntimeNote)>, high: u32) -> (r: usize)
        requires
            ts_sorted(v@),
        ensures
            r <= v@.len(),
            forall|i: int| #![trigger v@[i]] 0 <= i < r ==> v@[i].0 <= high,
            forall|i: int| #![trigger v@[i]] r <= i < v@.len() ==> v@[i].0 > high,
    {
        let mut lo: usize = 0;
        let mut hi: usize = v.len();
        while lo < hi
            invariant
                lo <= hi <= v@.len(),
                ts_sorted(v@),
                forall|i: int| #![trigger v@[i]] 0 <= i < lo ==> v@[i].0 <= high,
                forall|i: int| #![trigger v@[i]] hi <= i < v@.len() ==> v@[i].0 > high,
            decreases hi - lo,
        {
            let mid = lo + (hi - lo) / 2;
            if v[mid].0 <= high {
                assert forall|i: int| 0 <= i < mid + 1 implies #[trigger] v@[i].0 <= high by {
                    assert(v@[i].0 <= v@[mid as int].0);
                }
                lo = mid + 1;
            } else {
                assert forall|i: int| mid <= i < v@.len() implies #[trigger] v@[i].0 > high by {
                    assert(v@[mid as int].0 <= v@[i].0);
                }
                hi = mid;
            }
        }
        lo
    }
}

} // verus!

//! Observations, series ordered by time, and their alignment.

use vstd::prelude::*;

verus! {

/// An instant on the UTC time line: whole seconds since the Unix epoch and the
/// nanoseconds into that second.
#[derive(Clone, Copy, Debug, PartialEq, Eq, Structural)]
pub struct Timestamp {
    pub secs: i64,
    pub nanos: u32,
}

impl Timestamp {
    /// The position of the instant in time order: `a` is before `b` exactly
    /// when `a.key() < b.key()`, and two instants share a key only when equal.
    pub open spec fn key(self) -> int {
        self.secs * 0x1_0000_0000 + self.nanos
    }

    pub fn new(secs: i64, nanos: u32) -> (t: Timestamp)
        ensures
            t == (Timestamp { secs, nanos }),
    {
        Timestamp { secs, nanos }
    }

    /// Whether `self` lies strictly before `other`.
    pub fn is_before(&self, other: &Timestamp) -> (r: bool)
        ensures
            r == (self.key() < other.key()),
    {
        self.secs < other.secs || (self.secs == other.secs && self.nanos < other.nanos)
    }

    /// Whether `self` and `other` are the same instant.
    pub fn same_instant(&self, other: &Timestamp) -> (r: bool)
        ensures
            r == (self.key() == other.key()),
            r == (*self == *other),
    {
        self.secs == other.secs && self.nanos == other.nanos
    }
}

/// Two instants with one key are one instant.
pub proof fn lemma_key_injective(a: Timestamp, b: Timestamp)
    ensures
        a.key() == b.key() <==> a == b,
{
}

/// One observation of an indicator. `value` is the 64-bit pattern of the
/// observed number; the library carries it and never interprets it.
#[derive(Clone, Copy, Debug, PartialEq, Eq, Structural)]
pub struct DataPoint {
    pub timestamp: Timestamp,
    pub value: u64,
}

impl DeepView for DataPoint {
    type V = DataPoint;

    open spec fn deep_view(&self) -> DataPoint {
        *self
    }
}

/// Whether the points stand in strictly ascending time order, which also
/// means that no instant occurs twice.
pub open spec fn ascending(s: Seq<DataPoint>) -> bool {
    forall|i: int, j: int|
        0 <= i < j < s.len() ==> s[i].timestamp.key() < s[j].timestamp.key()
}

/// What a store that is keyed by instant holds after the points were saved one
/// after the other: a later point replaces an earlier one at the same instant.
pub open spec fn series_map(s: Seq<DataPoint>) -> Map<Timestamp, u64>
    decreases s.len(),
{
    if s.len() == 0 {
        Map::empty()
    } else {
        series_map(s.drop_last()).insert(s.last().timestamp, s.last().value)
    }
}

/// The series after `p` was saved into it: `p` replaces the point at its
/// instant if there is one, and otherwise takes its place in time order.
pub open spec fn upserted(s: Seq<DataPoint>, p: DataPoint) -> Seq<DataPoint>
    decreases s.len(),
{
    if s.len() == 0 {
        seq![p]
    } else if s.last().timestamp.key() < p.timestamp.key() {
        s.push(p)
    } else if s.last().timestamp.key() == p.timestamp.key() {
        s.drop_last().push(p)
    } else {
        upserted(s.drop_last(), p).push(s.last())
    }
}

/// The ordered series that results from saving the points of `s` in turn.
pub open spec fn normalized(s: Seq<DataPoint>) -> Seq<DataPoint>
    decreases s.len(),
{
    if s.len() == 0 {
        Seq::empty()
    } else {
        upserted(normalized(s.drop_last()), s.last())
    }
}

/// The value that an ascending series `b` carries forward to the instant `t`:
/// that of its latest point at or before `t`, if it has one.
pub open spec fn carried(b: Seq<DataPoint>, t: Timestamp) -> Option<u64>
    decreases b.len(),
{
    if b.len() == 0 {
        None
    } else if b.last().timestamp.key() <= t.key() {
        Some(b.last().value)
    } else {
        carried(b.drop_last(), t)
    }
}

/// The rows of `a` joined with the values that `b` carries forward: one row
/// for each point of `a` at which `b` has begun, in the order of `a`.
pub open spec fn aligned(a: Seq<DataPoint>, b: Seq<DataPoint>) -> Seq<(Timestamp, u64, u64)>
    decreases a.len(),
{
    if a.len() == 0 {
        Seq::empty()
    } else {
        let head = aligned(a.drop_last(), b);
        match carried(b, a.last().timestamp) {
            Some(v) => head.push((a.last().timestamp, a.last().value, v)),
            None => head,
        }
    }
}

/// Where `p` lands in a series: `k` is the first position whose point is
/// later than `p`.
proof fn lemma_upserted_at(s: Seq<DataPoint>, p: DataPoint, k: int)
    requires
        0 <= k <= s.len(),
        forall|j: int| k <= j < s.len() ==> s[j].timestamp.key() > p.timestamp.key(),
        k > 0 ==> s[k - 1].timestamp.key() <= p.timestamp.key(),
    ensures
        upserted(s, p) == (if k > 0 && s[k - 1].timestamp.key() == p.timestamp.key() {
            s.update(k - 1, p)
        } else {
            s.insert(k, p)
        }),
    decreases s.len() - k,
{
    if k == s.len() {
        if s.len() == 0 {
            assert(seq![p] =~= s.insert(0, p));
        } else if s.last().timestamp.key() < p.timestamp.key() {
            assert(s.push(p) =~= s.insert(k, p));
        } else {
            assert(s.drop_last().push(p) =~= s.update(k - 1, p));
        }
    } else {
        let t = s.drop_last();
        lemma_upserted_at(t, p, k);
        if k > 0 && s[k - 1].timestamp.key() == p.timestamp.key() {
            assert(t.update(k - 1, p).push(s.last()) =~= s.update(k - 1, p));
        } else {
            assert(t.insert(k, p).push(s.last()) =~= s.insert(k, p));
        }
    }
}

/// Saving a point keeps a series in ascending order.
pub proof fn lemma_upserted_ascending(s: Seq<DataPoint>, p: DataPoint)
    requires
        ascending(s),
    ensures
        ascending(upserted(s, p)),
    decreases s.len(),
{
    if s.len() == 0 {
    } else if s.last().timestamp.key() < p.timestamp.key() {
    } else if s.last().timestamp.key() == p.timestamp.key() {
    } else {
        let t = s.drop_last();
        lemma_upserted_ascending(t, p);
        lemma_upserted_bounded(t, p, s.last().timestamp.key());
    }
}

/// A bound above every point of a series and above `p` is above every point
/// of the series with `p` saved into it.
proof fn lemma_upserted_bounded(s: Seq<DataPoint>, p: DataPoint, bound: int)
    requires
        forall|i: int| 0 <= i < s.len() ==> s[i].timestamp.key() < bound,
        p.timestamp.key() < bound,
    ensures
        forall|i: int|
            0 <= i < upserted(s, p).len() ==> (#[trigger] upserted(s, p)[i]).timestamp.key()
                < bound,
    decreases s.len(),
{
    let u = upserted(s, p);
    if s.len() == 0 {
    } else if s.last().timestamp.key() < p.timestamp.key() {
    } else if s.last().timestamp.key() == p.timestamp.key() {
        let h = s.drop_last();
        assert forall|i: int| 0 <= i < u.len() implies (#[trigger] u[i]).timestamp.key()
            < bound by {
            if i < h.len() {
                assert(u[i] == s[i]);
            }
        }
    } else {
        let h = s.drop_last();
        lemma_upserted_bounded(h, p, bound);
        assert forall|i: int| 0 <= i < u.len() implies (#[trigger] u[i]).timestamp.key()
            < bound by {
            if i < upserted(h, p).len() {
                assert(u[i] == upserted(h, p)[i]);
            } else {
                assert(u[i] == s.last());
            }
        }
    }
}

/// The points of an ascending series are exactly the entries of its map.
pub proof fn lemma_series_map_of_ascending(s: Seq<DataPoint>)
    requires
        ascending(s),
    ensures
        forall|i: int|
            0 <= i < s.len() ==> series_map(s).contains_key((#[trigger] s[i]).timestamp)
                && series_map(s)[s[i].timestamp] == s[i].value,
        forall|t: Timestamp|
            series_map(s).contains_key(t) ==> exists|i: int|
                0 <= i < s.len() && (#[trigger] s[i]).timestamp == t,
    decreases s.len(),
{
    if s.len() > 0 {
        let h = s.drop_last();
        let m = series_map(h);
        lemma_series_map_of_ascending(h);
        assert(series_map(s) == m.insert(s.last().timestamp, s.last().value));
        assert forall|i: int| 0 <= i < s.len() implies series_map(s).contains_key(
            (#[trigger] s[i]).timestamp,
        ) && series_map(s)[s[i].timestamp] == s[i].value by {
            if i < s.len() - 1 {
                assert(h[i] == s[i]);
                assert(m.contains_key(h[i].timestamp));
                assert(s[i].timestamp.key() < s[s.len() - 1].timestamp.key());
                assert(s[i].timestamp != s.last().timestamp);
            }
        }
        assert forall|t: Timestamp| series_map(s).contains_key(t) implies exists|i: int|
            0 <= i < s.len() && (#[trigger] s[i]).timestamp == t by {
            if t == s.last().timestamp {
                assert(s[s.len() - 1].timestamp == t);
            } else {
                assert(m.contains_key(t));
                let i = choose|i: int| 0 <= i < h.len() && (#[trigger] h[i]).timestamp == t;
                assert(s[i] == h[i]);
            }
        }
    }
}

/// Saving a point sets the entry at its instant and leaves every other entry.
pub proof fn lemma_upserted_map(s: Seq<DataPoint>, p: DataPoint)
    ensures
        series_map(upserted(s, p)) == series_map(s).insert(p.timestamp, p.value),
    decreases s.len(),
{
    let u = upserted(s, p);
    if s.len() == 0 {
        assert(u.drop_last() =~= Seq::<DataPoint>::empty());
        assert(series_map(u) == series_map(u.drop_last()).insert(p.timestamp, p.value));
    } else {
        let h = s.drop_last();
        let l = s.last();
        assert(series_map(s) == series_map(h).insert(l.timestamp, l.value));
        if l.timestamp.key() < p.timestamp.key() {
            assert(u.drop_last() =~= s);
            assert(u.last() == p);
        } else if l.timestamp.key() == p.timestamp.key() {
            assert(u.drop_last() =~= h);
            assert(u.last() == p);
            assert(l.timestamp == p.timestamp);
            assert(series_map(h).insert(p.timestamp, p.value) =~= series_map(h).insert(
                l.timestamp,
                l.value,
            ).insert(p.timestamp, p.value));
        } else {
            lemma_upserted_map(h, p);
            let v = upserted(h, p);
            assert(u.drop_last() =~= v);
            assert(u.last() == l);
            assert(l.timestamp != p.timestamp);
            assert(series_map(u) == series_map(v).insert(l.timestamp, l.value));
            assert(series_map(h).insert(p.timestamp, p.value).insert(l.timestamp, l.value)
                =~= series_map(h).insert(l.timestamp, l.value).insert(p.timestamp, p.value));
        }
    }
}

/// Saving the same observation twice leaves what saving it once leaves, with
/// exactly one point at its instant, and that point holds its value.
pub proof fn lemma_upsert_idempotent(s: Seq<DataPoint>, p: DataPoint)
    requires
        ascending(s),
    ensures
        upserted(upserted(s, p), p) == upserted(s, p),
        series_map(upserted(s, p))[p.timestamp] == p.value,
        exists|i: int|
            0 <= i < upserted(s, p).len() && #[trigger] upserted(s, p)[i] == p && forall|j: int|
                0 <= j < upserted(s, p).len() && j != i ==> (#[trigger] upserted(
                    s,
                    p,
                )[j]).timestamp != p.timestamp,
{
    lemma_upsert_overwrites(s, p, p.value);
    lemma_upserted_map(s, p);
    lemma_upserted_ascending(s, p);
    let u = upserted(s, p);
    lemma_series_map_of_ascending(u);
    assert(series_map(u).contains_key(p.timestamp));
    let i = choose|i: int| 0 <= i < u.len() && (#[trigger] u[i]).timestamp == p.timestamp;
    assert(series_map(u)[u[i].timestamp] == u[i].value);
    assert(u[i] == p);
    assert forall|j: int| 0 <= j < u.len() && j != i implies (#[trigger] u[j]).timestamp
        != p.timestamp by {
        if j < i {
            assert(u[j].timestamp.key() < u[i].timestamp.key());
        } else {
            assert(u[i].timestamp.key() < u[j].timestamp.key());
        }
    }
}

/// Saving another value at an instant that is already stored replaces the
/// stored value: the first save leaves no trace.
pub proof fn lemma_upsert_overwrites(s: Seq<DataPoint>, p: DataPoint, value: u64)
    requires
        ascending(s),
    ensures
        upserted(upserted(s, p), DataPoint { timestamp: p.timestamp, value })
            == upserted(s, DataPoint { timestamp: p.timestamp, value }),
    decreases s.len(),
{
    let q = DataPoint { timestamp: p.timestamp, value };
    if s.len() == 0 {
        assert(seq![p].drop_last().push(q) =~= seq![q]);
    } else if s.last().timestamp.key() < p.timestamp.key() {
        assert(s.push(p).drop_last() =~= s);
    } else if s.last().timestamp.key() == p.timestamp.key() {
        let h = s.drop_last();
        assert(h.push(p).drop_last() =~= h);
    } else {
        let h = s.drop_last();
        lemma_upsert_overwrites(h, p, value);
        let u = upserted(h, p);
        assert(u.push(s.last()).drop_last() =~= u);
    }
}

/// The ordered series of given points is ascending and holds what the store
/// holds after the points were saved in turn.
pub proof fn lemma_normalized(s: Seq<DataPoint>)
    ensures
        ascending(normalized(s)),
        series_map(normalized(s)) == series_map(s),
    decreases s.len(),
{
    if s.len() > 0 {
        lemma_normalized(s.drop_last());
        lemma_upserted_ascending(normalized(s.drop_last()), s.last());
        lemma_upserted_map(normalized(s.drop_last()), s.last());
    }
}

/// With `j` points of an ascending series at or before `t`, the series
/// carries the value of its point `j - 1` to `t`.
proof fn lemma_carried_at(b: Seq<DataPoint>, t: Timestamp, j: int)
    requires
        ascending(b),
        0 <= j <= b.len(),
        forall|q: int| 0 <= q < j ==> b[q].timestamp.key() <= t.key(),
        j < b.len() ==> b[j].timestamp.key() > t.key(),
    ensures
        carried(b, t) == (if j == 0 {
            None
        } else {
            Some(b[j - 1].value)
        }),
    decreases b.len() - j,
{
    if j < b.len() {
        assert(b[j].timestamp.key() <= b.last().timestamp.key());
        lemma_carried_at(b.drop_last(), t, j);
    }
}

/// What an ascending series carries forward to an instant is the value of
/// its latest point at or before that instant; it carries nothing only where
/// all its points are later.
pub proof fn lemma_carried(b: Seq<DataPoint>, t: Timestamp)
    requires
        ascending(b),
    ensures
        match carried(b, t) {
            Some(v) => exists|j: int|
                0 <= j < b.len() && (#[trigger] b[j]).timestamp.key() <= t.key() && b[j].value == v
                    && forall|q: int|
                    0 <= q < b.len() && (#[trigger] b[q]).timestamp.key() <= t.key() ==> q <= j,
            None => forall|q: int| 0 <= q < b.len() ==> (#[trigger] b[q]).timestamp.key() > t.key(),
        },
    decreases b.len(),
{
    if b.len() > 0 {
        let last = b.len() - 1;
        if b[last].timestamp.key() <= t.key() {
            assert(b[last].value == carried(b, t)->0);
        } else {
            let h = b.drop_last();
            lemma_carried(h, t);
            match carried(h, t) {
                Some(v) => {
                    let j = choose|j: int|
                        0 <= j < h.len() && (#[trigger] h[j]).timestamp.key() <= t.key()
                            && h[j].value == v && forall|q: int|
                            0 <= q < h.len() && (#[trigger] h[q]).timestamp.key() <= t.key() ==> q
                                <= j;
                    assert(b[j] == h[j]);
                    assert forall|q: int|
                        0 <= q < b.len() && (#[trigger] b[q]).timestamp.key() <= t.key() implies q
                        <= j by {
                        if q < h.len() {
                            assert(h[q] == b[q]);
                        }
                    }
                },
                None => {
                    assert forall|q: int| 0 <= q < b.len() implies (#[trigger] b[q]).timestamp.key()
                        > t.key() by {
                        if q < h.len() {
                            assert(h[q] == b[q]);
                        }
                    }
                },
            }
        }
    }
}

/// The rows of two aligned ascending series stand in ascending time order.
/// Each row is a point of the first series together with the value that the
/// second carries forward to it, and each point of the first series to which
/// the second carries a value has its row.
pub proof fn lemma_aligned(a: Seq<DataPoint>, b: Seq<DataPoint>)
    requires
        ascending(a),
    ensures
        forall|i: int, j: int|
            0 <= i < j < aligned(a, b).len() ==> (#[trigger] aligned(a, b)[i]).0.key() < (
            #[trigger] aligned(a, b)[j]).0.key(),
        forall|i: int|
            0 <= i < aligned(a, b).len() ==> exists|k: int|
                0 <= k < a.len() && (#[trigger] a[k]).timestamp == (#[trigger] aligned(a, b)[i]).0
                    && a[k].value == aligned(a, b)[i].1 && carried(b, a[k].timestamp) == Some(
                    aligned(a, b)[i].2,
                ),
        forall|k: int|
            0 <= k < a.len() && carried(b, (#[trigger] a[k]).timestamp) is Some ==> exists|i: int|
                0 <= i < aligned(a, b).len() && (#[trigger] aligned(a, b)[i]).0 == a[k].timestamp,
    decreases a.len(),
{
    let rows = aligned(a, b);
    if a.len() > 0 {
        let h = a.drop_last();
        let head = aligned(h, b);
        let last = a.len() - 1;
        lemma_aligned(h, b);
        assert(a[last] == a.last());
        assert forall|i: int| 0 <= i < head.len() implies (#[trigger] head[i]).0.key()
            < a[last].timestamp.key() by {
            let k = choose|k: int|
                0 <= k < h.len() && (#[trigger] h[k]).timestamp == head[i].0 && h[k].value
                    == head[i].1 && carried(b, h[k].timestamp) == Some(head[i].2);
            assert(a[k] == h[k]);
        }
        assert forall|i: int| 0 <= i < rows.len() implies exists|k: int|
            0 <= k < a.len() && (#[trigger] a[k]).timestamp == (#[trigger] rows[i]).0 && a[k].value
                == rows[i].1 && carried(b, a[k].timestamp) == Some(rows[i].2) by {
            if i < head.len() {
                assert(rows[i] == head[i]);
                let k = choose|k: int|
                    0 <= k < h.len() && (#[trigger] h[k]).timestamp == head[i].0 && h[k].value
                        == head[i].1 && carried(b, h[k].timestamp) == Some(head[i].2);
                assert(a[k] == h[k]);
            } else {
                assert(a[last].timestamp == rows[i].0);
            }
        }
        assert forall|k: int|
            0 <= k < a.len() && carried(b, (#[trigger] a[k]).timestamp) is Some implies exists|
            i: int,
        | 0 <= i < rows.len() && (#[trigger] rows[i]).0 == a[k].timestamp by {
            if k < h.len() {
                assert(h[k] == a[k]);
                let i = choose|i: int|
                    0 <= i < head.len() && (#[trigger] head[i]).0 == h[k].timestamp;
                assert(rows[i] == head[i]);
            } else {
                assert(rows[rows.len() - 1].0 == a[k].timestamp);
            }
        }
        assert forall|i: int, j: int| 0 <= i < j < rows.len() implies (#[trigger] rows[i]).0.key() < (
        #[trigger] rows[j]).0.key() by {
            assert(rows[i] == head[i]);
            if j < head.len() {
                assert(rows[j] == head[j]);
            }
        }
    }
}

/// A series of observations in strictly ascending time order, as a store keyed
/// by instant returns it.
pub struct TimeSeries {
    points: Vec<DataPoint>,
}

impl View for TimeSeries {
    type V = Seq<DataPoint>;

    closed spec fn view(&self) -> Seq<DataPoint> {
        self.points@
    }
}

impl TimeSeries {
    /// The invariant of the type: strictly ascending instants.
    pub open spec fn wf(&self) -> bool {
        ascending(self@)
    }

    pub fn new() -> (s: TimeSeries)
        ensures
            s.wf(),
            s@ == Seq::<DataPoint>::empty(),
    {
        TimeSeries { points: Vec::new() }
    }

    /// Saves the points in turn into an empty series.
    pub fn from_points(points: &[DataPoint]) -> (s: TimeSeries)
        ensures
            s.wf(),
            s@ == normalized(points@),
    {
        let mut s = TimeSeries::new();
        s.save(points);
        proof {
            lemma_saved_from_empty(points@);
        }
        s
    }

    pub fn len(&self) -> (n: usize)
        ensures
            n == self@.len(),
    {
        self.points.len()
    }

    /// The point at position `i` in time order, if there is one.
    pub fn get(&self, i: usize) -> (p: Option<DataPoint>)
        ensures
            p == (if i < self@.len() {
                Some(self@[i as int])
            } else {
                None
            }),
    {
        if i < self.points.len() {
            Some(self.points[i])
        } else {
            None
        }
    }

    /// The points in time order.
    pub fn points(&self) -> (v: Vec<DataPoint>)
        ensures
            v@ == self@,
    {
        let mut v: Vec<DataPoint> = Vec::new();
        let mut i: usize = 0;
        while i < self.points.len()
            invariant
                i <= self.points.len(),
                v@ == self.points@.subrange(0, i as int),
            decreases self.points.len() - i,
        {
            v.push(self.points[i]);
            assert(self.points@.subrange(0, i + 1) =~= self.points@.subrange(0, i as int).push(
                self.points@[i as int],
            ));
            i += 1;
        }
        assert(self.points@.subrange(0, i as int) =~= self.points@);
        v
    }

    /// The value stored at the instant `t`, if there is one.
    pub fn value_at(&self, t: &Timestamp) -> (v: Option<u64>)
        requires
            self.wf(),
        ensures
            v == (if series_map(self@).contains_key(*t) {
                Some(series_map(self@)[*t])
            } else {
                None
            }),
    {
        proof {
            lemma_series_map_of_ascending(self@);
        }
        let mut i: usize = 0;
        while i < self.points.len()
            invariant
                i <= self.points.len(),
                forall|j: int| 0 <= j < i ==> self.points@[j].timestamp != *t,
                forall|i: int|
                    0 <= i < self@.len() ==> series_map(self@).contains_key(
                        (#[trigger] self@[i]).timestamp,
                    ) && series_map(self@)[self@[i].timestamp] == self@[i].value,
            decreases self.points.len() - i,
        {
            if self.points[i].timestamp.same_instant(t) {
                assert(self@[i as int].timestamp == *t);
                return Some(self.points[i].value);
            }
            i += 1;
        }
        None
    }

    /// The value that the series carries forward to the instant `t`.
    pub fn carried_to(&self, t: &Timestamp) -> (v: Option<u64>)
        ensures
            v == carried(self@, *t),
    {
        let mut k: usize = self.points.len();
        assert(self@.subrange(0, k as int) =~= self@);
        while k > 0
            invariant
                k <= self.points.len(),
                carried(self@, *t) == carried(self@.subrange(0, k as int), *t),
            decreases k,
        {
            assert(self@.subrange(0, k as int).drop_last() =~= self@.subrange(0, k - 1));
            if !t.is_before(&self.points[k - 1].timestamp) {
                return Some(self.points[k - 1].value);
            }
            k -= 1;
        }
        None
    }

    /// Saves one observation: insert, or overwrite at the same instant.
    pub fn upsert(&mut self, p: DataPoint)
        requires
            old(self).wf(),
        ensures
            final(self).wf(),
            final(self)@ == upserted(old(self)@, p),
            series_map(final(self)@) == series_map(old(self)@).insert(p.timestamp, p.value),
    {
        let mut k: usize = self.points.len();
        while k > 0 && p.timestamp.is_before(&self.points[k - 1].timestamp)
            invariant
                k <= self.points.len(),
                forall|j: int|
                    k <= j < self.points.len() ==> self.points@[j].timestamp.key()
                        > p.timestamp.key(),
            decreases k,
        {
            k -= 1;
        }
        proof {
            lemma_upserted_at(self.points@, p, k as int);
            lemma_upserted_ascending(self.points@, p);
            lemma_upserted_map(self.points@, p);
        }
        if k > 0 && self.points[k - 1].timestamp.same_instant(&p.timestamp) {
            self.points[k - 1] = p;
        } else {
            self.points.insert(k, p);
        }
    }

    /// Saves the points in turn.
    pub fn save(&mut self, points: &[DataPoint])
        requires
            old(self).wf(),
        ensures
            final(self).wf(),
            final(self)@ == saved(old(self)@, points@),
    {
        let mut i: usize = 0;
        while i < points.len()
            invariant
                i <= points.len(),
                self.wf(),
                self@ == saved(old(self)@, points@.subrange(0, i as int)),
            decreases points.len() - i,
        {
            self.upsert(points[i]);
            assert(points@.subrange(0, i + 1).drop_last() =~= points@.subrange(0, i as int));
            i += 1;
        }
        assert(points@.subrange(0, i as int) =~= points@);
    }
}

/// The series `s` after the points of `incoming` were saved into it in turn.
pub open spec fn saved(s: Seq<DataPoint>, incoming: Seq<DataPoint>) -> Seq<DataPoint>
    decreases incoming.len(),
{
    if incoming.len() == 0 {
        s
    } else {
        upserted(saved(s, incoming.drop_last()), incoming.last())
    }
}

/// Saving into an empty series orders the points.
pub proof fn lemma_saved_from_empty(incoming: Seq<DataPoint>)
    ensures
        saved(Seq::empty(), incoming) == normalized(incoming),
    decreases incoming.len(),
{
    if incoming.len() > 0 {
        lemma_saved_from_empty(incoming.drop_last());
    }
}

/// Joins two ordered series: each point of `a` with the value that `b`
/// carries forward to its instant. Points of `a` before the first point of `b`
/// give no row.
pub fn align(a: &TimeSeries, b: &TimeSeries) -> (rows: Vec<(Timestamp, u64, u64)>)
    requires
        a.wf(),
        b.wf(),
    ensures
        rows@ == aligned(a@, b@),
{
    let mut rows: Vec<(Timestamp, u64, u64)> = Vec::new();
    let mut j: usize = 0;
    let mut i: usize = 0;
    while i < a.points.len()
        invariant
            i <= a.points.len(),
            j <= b.points.len(),
            a.wf(),
            b.wf(),
            rows@ == aligned(a@.subrange(0, i as int), b@),
            forall|q: int|
                0 <= q < j && i < a.points.len() ==> b@[q].timestamp.key()
                    <= a@[i as int].timestamp.key(),
        decreases a.points.len() - i,
    {
        let p = a.points[i];
        while j < b.points.len() && !p.timestamp.is_before(&b.points[j].timestamp)
            invariant
                j <= b.points.len(),
                forall|q: int| 0 <= q < j ==> b@[q].timestamp.key() <= p.timestamp.key(),
            decreases b.points.len() - j,
        {
            j += 1;
        }
        proof {
            lemma_carried_at(b@, p.timestamp, j as int);
            assert(a@.subrange(0, i + 1).drop_last() =~= a@.subrange(0, i as int));
        }
        if j > 0 {
            rows.push((p.timestamp, p.value, b.points[j - 1].value));
        }
        i += 1;
    }
    assert(a@.subrange(0, i as int) =~= a@);
    rows
}

/// Aligns two series of observations by forward fill. Each series is first
/// put in time order, a later point replacing an earlier one at the same
/// instant. Every instant of the first series then gives one row, with the
/// latest value of the second series at or before it; instants before the
/// second series begins give none. `_method` is accepted and not read.
pub fn align_series(series_a: &[DataPoint], series_b: &[DataPoint], _method: &str) -> (rows: Vec<
    (Timestamp, u64, u64),
>)
    ensures
        rows@ == aligned(normalized(series_a@), normalized(series_b@)),
{
    let a = TimeSeries::from_points(series_a);
    let b = TimeSeries::from_points(series_b);
    align(&a, &b)
}


/// One row of several aligned series: an instant and, for each series, the
/// value that the series has at that instant.
#[derive(Clone, Debug, PartialEq, Eq)]
pub struct MultiAlignedData {
    pub timestamp: Timestamp,
    pub values: Vec<u64>,
}

/// The mathematical content of a [`MultiAlignedData`].
pub struct MultiAlignedView {
    pub timestamp: Timestamp,
    pub values: Seq<u64>,
}

impl DeepView for MultiAlignedData {
    type V = MultiAlignedView;

    open spec fn deep_view(&self) -> MultiAlignedView {
        MultiAlignedView { timestamp: self.timestamp, values: self.values@ }
    }
}

impl View for MultiAlignedData {
    type V = MultiAlignedView;

    open spec fn view(&self) -> MultiAlignedView {
        self.deep_view()
    }
}

/// The series behind a list of references.
pub open spec fn series_views(list: Seq<&Vec<DataPoint>>) -> Seq<Seq<DataPoint>> {
    Seq::new(list.len(), |i: int| list[i]@)
}

/// All points of all series, series after series.
pub open spec fn all_points(series_list: Seq<Seq<DataPoint>>) -> Seq<DataPoint>
    decreases series_list.len(),
{
    if series_list.len() == 0 {
        Seq::empty()
    } else {
        all_points(series_list.drop_last()) + series_list.last()
    }
}

/// The instants at which any of the series has a point, in ascending order,
/// each once.
pub open spec fn instants_of(series_list: Seq<Seq<DataPoint>>) -> Seq<Timestamp> {
    let merged = normalized(all_points(series_list));
    Seq::new(merged.len(), |i: int| merged[i].timestamp)
}

/// How far a series has been read, and the value it had last.
pub struct Cursor {
    pub position: int,
    pub value: Option<u64>,
}

/// The cursor after the series was read on up to the instant `t`: points
/// before `t` are passed over, points at `t` give their value, and the first
/// later point stops the reading.
pub open spec fn scanned(s: Seq<DataPoint>, from: Cursor, t: Timestamp) -> Cursor
    decreases s.len() - from.position,
{
    if 0 <= from.position < s.len() {
        let p = s[from.position];
        if p.timestamp.key() < t.key() {
            scanned(s, Cursor { position: from.position + 1, value: from.value }, t)
        } else if p.timestamp.key() == t.key() {
            scanned(s, Cursor { position: from.position + 1, value: Some(p.value) }, t)
        } else {
            from
        }
    } else {
        from
    }
}

/// The cursor of a series after the first `k` instants.
pub open spec fn cursor_at(s: Seq<DataPoint>, instants: Seq<Timestamp>, k: nat) -> Cursor
    decreases k,
{
    if k == 0 {
        Cursor { position: 0, value: None }
    } else {
        scanned(s, cursor_at(s, instants, (k - 1) as nat), instants[k - 1])
    }
}

/// Whether every series has had a value after the first `k` instants.
pub open spec fn all_begun(series_list: Seq<Seq<DataPoint>>, instants: Seq<Timestamp>, k: nat) -> bool {
    forall|i: int|
        0 <= i < series_list.len() ==> (#[trigger] cursor_at(series_list[i], instants, k)).value
            is Some
}

/// The row at the `k`th instant: the value that each series had last.
pub open spec fn row_at(series_list: Seq<Seq<DataPoint>>, instants: Seq<Timestamp>, k: nat) -> MultiAlignedView {
    MultiAlignedView {
        timestamp: instants[k - 1],
        values: Seq::new(
            series_list.len(),
            |i: int| cursor_at(series_list[i], instants, k).value->0,
        ),
    }
}

/// The rows of the first `k` instants: one for each instant at which every
/// series has begun.
pub open spec fn multi_rows(series_list: Seq<Seq<DataPoint>>, instants: Seq<Timestamp>, k: nat) -> Seq<
    MultiAlignedView,
>
    decreases k,
{
    if k == 0 {
        Seq::empty()
    } else {
        let head = multi_rows(series_list, instants, (k - 1) as nat);
        if all_begun(series_list, instants, k) {
            head.push(row_at(series_list, instants, k))
        } else {
            head
        }
    }
}

/// The rows of several series aligned by forward fill over the instants of
/// all of them.
pub open spec fn multi_aligned(series_list: Seq<Seq<DataPoint>>) -> Seq<MultiAlignedView> {
    multi_rows(series_list, instants_of(series_list), instants_of(series_list).len())
}

/// Saving two lists one after the other is saving their concatenation.
pub proof fn lemma_saved_concat(s: Seq<DataPoint>, a: Seq<DataPoint>, b: Seq<DataPoint>)
    ensures
        saved(saved(s, a), b) == saved(s, a + b),
    decreases b.len(),
{
    if b.len() == 0 {
        assert(a + b =~= a);
    } else {
        lemma_saved_concat(s, a, b.drop_last());
        assert((a + b).drop_last() =~= a + b.drop_last());
        assert((a + b).last() == b.last());
    }
}

/// Whether the instants stand in strictly ascending order.
pub open spec fn instants_ascending(instants: Seq<Timestamp>) -> bool {
    forall|i: int, j: int| 0 <= i < j < instants.len() ==> instants[i].key() < instants[j].key()
}

/// Whether the instant is one of the instants.
pub open spec fn among(instants: Seq<Timestamp>, t: Timestamp) -> bool {
    exists|j: int| 0 <= j < instants.len() && #[trigger] instants[j] == t
}

/// Whether the instant of every point of the series is among the instants.
pub open spec fn instants_cover(instants: Seq<Timestamp>, s: Seq<DataPoint>) -> bool {
    forall|i: int| 0 <= i < s.len() ==> among(instants, (#[trigger] s[i]).timestamp)
}

/// Every point of a series has its instant in the map of the series.
proof fn lemma_series_map_has(s: Seq<DataPoint>, i: int)
    requires
        0 <= i < s.len(),
    ensures
        series_map(s).contains_key(s[i].timestamp),
    decreases s.len(),
{
    if i < s.len() - 1 {
        lemma_series_map_has(s.drop_last(), i);
    }
}

/// Every point of every series is among all points.
proof fn lemma_all_points_has(series_list: Seq<Seq<DataPoint>>, n: int, i: int)
    requires
        0 <= n < series_list.len(),
        0 <= i < series_list[n].len(),
    ensures
        exists|q: int|
            0 <= q < all_points(series_list).len() && #[trigger] all_points(series_list)[q]
                == series_list[n][i],
    decreases series_list.len(),
{
    let head = all_points(series_list.drop_last());
    if n == series_list.len() - 1 {
        assert(all_points(series_list)[head.len() + i] == series_list[n][i]);
    } else {
        lemma_all_points_has(series_list.drop_last(), n, i);
        let q = choose|q: int| 0 <= q < head.len() && #[trigger] head[q] == series_list[n][i];
        assert(all_points(series_list)[q] == series_list[n][i]);
    }
}

/// The instants of several series stand in strictly ascending order and
/// hold the instant of every point of every series.
pub proof fn lemma_instants_of(series_list: Seq<Seq<DataPoint>>)
    ensures
        instants_ascending(instants_of(series_list)),
        forall|n: int|
            0 <= n < series_list.len() ==> instants_cover(
                instants_of(series_list),
                #[trigger] series_list[n],
            ),
{
    let all = all_points(series_list);
    let merged = normalized(all);
    let instants = instants_of(series_list);
    lemma_normalized(all);
    lemma_series_map_of_ascending(merged);
    assert forall|i: int, j: int| 0 <= i < j < instants.len() implies instants[i].key()
        < instants[j].key() by {
        assert(merged[i].timestamp.key() < merged[j].timestamp.key());
    }
    assert forall|n: int| 0 <= n < series_list.len() implies instants_cover(
        instants,
        #[trigger] series_list[n],
    ) by {
        let s = series_list[n];
        assert forall|i: int| 0 <= i < s.len() implies among(
            instants,
            (#[trigger] s[i]).timestamp,
        ) by {
            lemma_all_points_has(series_list, n, i);
            let q = choose|q: int| 0 <= q < all.len() && #[trigger] all[q] == s[i];
            lemma_series_map_has(all, q);
            let j = choose|j: int|
                0 <= j < merged.len() && (#[trigger] merged[j]).timestamp == s[i].timestamp;
            assert(instants[j] == s[i].timestamp);
        }
        assert(instants_cover(instants, s));
    }
}

/// Reading an ascending series on to an instant that none of its unread
/// points precedes takes the point at that instant, if there is one.
proof fn lemma_scanned_step(s: Seq<DataPoint>, from: Cursor, t: Timestamp)
    requires
        ascending(s),
        0 <= from.position <= s.len(),
        from.position < s.len() ==> s[from.position].timestamp.key() >= t.key(),
    ensures
        scanned(s, from, t) == (if from.position < s.len() && s[from.position].timestamp.key()
            == t.key() {
            Cursor { position: from.position + 1, value: Some(s[from.position].value) }
        } else {
            from
        }),
{
    if from.position < s.len() && s[from.position].timestamp.key() == t.key() {
        let next = Cursor { position: from.position + 1, value: Some(s[from.position].value) };
        if next.position < s.len() {
            assert(s[from.position].timestamp.key() < s[next.position].timestamp.key());
        }
        assert(scanned(s, next, t) == next);
    }
}

/// Where a series stands in time order and the instants hold all its
/// instants in ascending order, the series has at each instant the value
/// that it carries forward to it: that of its latest point at or before the
/// instant.
pub proof fn lemma_cursor_carries(s: Seq<DataPoint>, instants: Seq<Timestamp>, k: nat)
    requires
        ascending(s),
        instants_ascending(instants),
        instants_cover(instants, s),
        1 <= k <= instants.len(),
    ensures
        cursor_at(s, instants, k).value == carried(s, instants[k - 1]),
{
    lemma_cursor_position(s, instants, k);
    let c = cursor_at(s, instants, k);
    lemma_carried_at(s, instants[k - 1], c.position);
}

/// After `k` instants the cursor stands behind the points at or before the
/// last of them, and holds the value of the last point that it passed.
proof fn lemma_cursor_position(s: Seq<DataPoint>, instants: Seq<Timestamp>, k: nat)
    requires
        ascending(s),
        instants_ascending(instants),
        instants_cover(instants, s),
        k <= instants.len(),
    ensures
        0 <= cursor_at(s, instants, k).position <= s.len(),
        cursor_at(s, instants, k).value == (if cursor_at(s, instants, k).position == 0 {
            None
        } else {
            Some(s[cursor_at(s, instants, k).position - 1].value)
        }),
        k >= 1 ==> forall|q: int|
            0 <= q < cursor_at(s, instants, k).position ==> (#[trigger] s[q]).timestamp.key()
                <= instants[k - 1].key(),
        k >= 1 && cursor_at(s, instants, k).position < s.len() ==> s[cursor_at(
            s,
            instants,
            k,
        ).position].timestamp.key() > instants[k - 1].key(),
        k == 0 ==> cursor_at(s, instants, k).position == 0,
    decreases k,
{
    if k > 0 {
        let before = cursor_at(s, instants, (k - 1) as nat);
        let t = instants[k - 1];
        lemma_cursor_position(s, instants, (k - 1) as nat);
        if before.position < s.len() {
            let p = s[before.position];
            assert(among(instants, s[before.position].timestamp));
            let j = choose|j: int|
                0 <= j < instants.len() && #[trigger] instants[j] == s[before.position].timestamp;
            if k >= 2 {
                assert(p.timestamp.key() > instants[k - 2].key());
                if j < k - 1 {
                    if j < k - 2 {
                        assert(instants[j].key() < instants[k - 2].key());
                    }
                    assert(false);
                }
            }
            if j > k - 1 {
                assert(instants[k - 1].key() < instants[j].key());
            }
            assert(p.timestamp.key() >= t.key());
        }
        lemma_scanned_step(s, before, t);
        let after = cursor_at(s, instants, k);
        assert forall|q: int| 0 <= q < after.position implies (#[trigger] s[q]).timestamp.key()
            <= t.key() by {
            if q < before.position {
                if k >= 2 {
                    assert(instants[k - 2].key() < instants[k - 1].key());
                }
            }
        }
        if after.position < s.len() {
            if after.position > before.position {
                assert(s[before.position].timestamp.key() < s[after.position].timestamp.key());
            }
        }
    }
}

/// Where every series stands in time order, the aligned rows are those of
/// forward fill: the instants of the rows are the instants at which every
/// series has begun, and a row holds for each series the value of its
/// latest point at or before the row's instant.
pub proof fn lemma_multi_aligned(series_list: Seq<Seq<DataPoint>>)
    requires
        forall|n: int| 0 <= n < series_list.len() ==> ascending(#[trigger] series_list[n]),
    ensures
        forall|n: int, k: nat|
            0 <= n < series_list.len() && 1 <= k <= instants_of(series_list).len()
                ==> (#[trigger] cursor_at(series_list[n], instants_of(series_list), k)).value
                == carried(series_list[n], instants_of(series_list)[k - 1]),
{
    let instants = instants_of(series_list);
    lemma_instants_of(series_list);
    assert forall|n: int, k: nat|
        0 <= n < series_list.len() && 1 <= k <= instants.len() implies (#[trigger] cursor_at(
        series_list[n],
        instants,
        k,
    )).value == carried(series_list[n], instants[k - 1]) by {
        lemma_cursor_carries(series_list[n], instants, k);
    }
}

/// The instants of all series, in ascending order.
fn merged_instants(series_list: &Vec<&Vec<DataPoint>>) -> (instants: Vec<Timestamp>)
    ensures
        instants@ == instants_of(series_views(series_list@)),
{
    let ghost views = series_views(series_list@);
    let mut merged = TimeSeries::new();
    let mut i: usize = 0;
    while i < series_list.len()
        invariant
            i <= series_list.len(),
            views == series_views(series_list@),
            merged.wf(),
            merged@ == saved(Seq::empty(), all_points(views.subrange(0, i as int))),
        decreases series_list.len() - i,
    {
        proof {
            assert(views.subrange(0, i + 1).drop_last() =~= views.subrange(0, i as int));
            assert(views.subrange(0, i + 1).last() == series_list@[i as int]@);
            lemma_saved_concat(
                Seq::empty(),
                all_points(views.subrange(0, i as int)),
                series_list@[i as int]@,
            );
        }
        merged.save(series_list[i].as_slice());
        i += 1;
    }
    proof {
        assert(views.subrange(0, i as int) =~= views);
        lemma_saved_from_empty(all_points(views));
    }
    let mut instants: Vec<Timestamp> = Vec::new();
    let mut k: usize = 0;
    while k < merged.points.len()
        invariant
            k <= merged.points.len(),
            instants@.len() == k,
            forall|j: int| 0 <= j < k ==> instants@[j] == merged@[j].timestamp,
        decreases merged.points.len() - k,
    {
        instants.push(merged.points[k].timestamp);
        k += 1;
    }
    assert(instants@ =~= instants_of(views));
    instants
}

/// Aligns several series by forward fill. The instants are those at which
/// any series has a point, in ascending order. Each series is read once from
/// its beginning, in the order in which it is given: at each instant the
/// points before it are passed over and a point at it gives the value of the
/// series from then on. An instant gives a row as soon as every series has
/// had a value. `_method` is accepted and not read.
pub fn align_series_multi(series_list: Vec<&Vec<DataPoint>>, _method: &str) -> (rows: Vec<
    MultiAlignedData,
>)
    ensures
        rows.deep_view() == multi_aligned(series_views(series_list@)),
{
    let ghost views = series_views(series_list@);
    let instants = merged_instants(&series_list);
    let n = series_list.len();
    let mut positions: Vec<usize> = Vec::new();
    let mut values: Vec<Option<u64>> = Vec::new();
    let mut i: usize = 0;
    while i < n
        invariant
            i <= n,
            positions@.len() == i,
            values@.len() == i,
            forall|j: int| 0 <= j < i ==> positions@[j] == 0 && values@[j] is None,
        decreases n - i,
    {
        positions.push(0);
        values.push(None);
        i += 1;
    }
    let mut rows: Vec<MultiAlignedData> = Vec::new();
    let mut k: usize = 0;
    while k < instants.len()
        invariant
            k <= instants.len(),
            n == series_list.len(),
            views == series_views(series_list@),
            instants@ == instants_of(views),
            positions@.len() == n,
            values@.len() == n,
            forall|j: int|
                0 <= j < n ==> positions@[j] <= series_list@[j]@.len() && cursor_at(
                    #[trigger] views[j],
                    instants@,
                    k as nat,
                ) == (Cursor { position: positions@[j] as int, value: values@[j] }),
            rows.deep_view() == multi_rows(views, instants@, k as nat),
        decreases instants.len() - k,
    {
        let t = instants[k];
        let mut begun = true;
        let ghost mut missing: int = 0;
        let mut i: usize = 0;
        while i < n
            invariant
                i <= n,
                k < instants.len(),
                t == instants@[k as int],
                n == series_list.len(),
                views == series_views(series_list@),
                positions@.len() == n,
                values@.len() == n,
                forall|j: int|
                    0 <= j < i ==> positions@[j] <= series_list@[j]@.len() && cursor_at(
                        #[trigger] views[j],
                        instants@,
                        (k + 1) as nat,
                    ) == (Cursor { position: positions@[j] as int, value: values@[j] }),
                forall|j: int|
                    i <= j < n ==> positions@[j] <= series_list@[j]@.len() && cursor_at(
                        #[trigger] views[j],
                        instants@,
                        k as nat,
                    ) == (Cursor { position: positions@[j] as int, value: values@[j] }),
                begun ==> forall|j: int| 0 <= j < i ==> values@[j] is Some,
                !begun ==> 0 <= missing < i && values@[missing] is None,
            decreases n - i,
        {
            let series = series_list[i];
            let mut position = positions[i];
            let mut value = values[i];
            let ghost from = Cursor { position: position as int, value };
            assert(views[i as int] == series@);
            assert(cursor_at(views[i as int], instants@, k as nat) == from);
            while position < series.len() && !t.is_before(&series[position].timestamp)
                invariant
                    position <= series.len(),
                    scanned(series@, Cursor { position: position as int, value }, t) == scanned(
                        series@,
                        from,
                        t,
                    ),
                decreases series.len() - position,
            {
                if series[position].timestamp.same_instant(&t) {
                    value = Some(series[position].value);
                }
                position += 1;
            }
            assert(scanned(series@, from, t) == (Cursor { position: position as int, value }));
            positions[i] = position;
            values[i] = value;
            if value.is_none() {
                begun = false;
                proof {
                    missing = i as int;
                }
            }
            i += 1;
        }
        proof {
            assert(begun == all_begun(views, instants@, (k + 1) as nat)) by {
                if begun {
                    assert forall|j: int| 0 <= j < views.len() implies (#[trigger] cursor_at(
                        views[j],
                        instants@,
                        (k + 1) as nat,
                    )).value is Some by {
                        assert(values@[j] is Some);
                    }
                } else {
                    assert(cursor_at(views[missing], instants@, (k + 1) as nat).value is None);
                }
            }
        }
        if begun {
            let ghost before = rows.deep_view();
            let mut row: Vec<u64> = Vec::new();
            let mut i: usize = 0;
            while i < n
                invariant
                    i <= n,
                    values@.len() == n,
                    forall|j: int| 0 <= j < n ==> values@[j] is Some,
                    row@.len() == i,
                    forall|j: int| 0 <= j < i ==> row@[j] == values@[j]->0,
                decreases n - i,
            {
                match values[i] {
                    Some(v) => {
                        row.push(v);
                    },
                    None => {},
                }
                i += 1;
            }
            assert(row@ =~= row_at(views, instants@, (k + 1) as nat).values);
            let found = MultiAlignedData { timestamp: t, values: row };
            let ghost content = found@;
            rows.push(found);
            assert(rows.deep_view() =~= before.push(content));
        }
        k += 1;
    }
    rows
}

} // verus!

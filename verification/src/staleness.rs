//! Which indicators are due for an update.

use vstd::prelude::*;
use crate::batch::{Target, TargetView};
use crate::text::chars_of;
use crate::timeseries::Timestamp;

verus! {

/// The refresh interval of an indicator whose stored one is absent or cannot
/// be read: a day, in minutes.
pub const DEFAULT_REFRESH_MINUTES: i64 = 1440;

/// The text without the run of `c` at its end.
pub open spec fn without_trailing(s: Seq<char>, c: char) -> Seq<char>
    decreases s.len(),
{
    if s.len() > 0 && s.last() == c {
        without_trailing(s.drop_last(), c)
    } else {
        s
    }
}

/// The number that a decimal digit stands for.
pub open spec fn digit_value(c: char) -> Option<int> {
    if '0' <= c <= '9' {
        Some(c as int - '0' as int)
    } else {
        None
    }
}

/// The number that a run of one or more decimal digits stands for.
pub open spec fn digits_value(s: Seq<char>) -> Option<int>
    decreases s.len(),
{
    if s.len() == 0 {
        None
    } else if s.len() == 1 {
        digit_value(s[0])
    } else {
        match (digits_value(s.drop_last()), digit_value(s.last())) {
            (Some(head), Some(digit)) => Some(head * 10 + digit),
            _ => None,
        }
    }
}

/// The integer that a text stands for: an optional sign, then one or more
/// decimal digits, and nothing else.
pub open spec fn signed_decimal(s: Seq<char>) -> Option<int> {
    if s.len() > 0 && s[0] == '-' {
        match digits_value(s.drop_first()) {
            Some(v) => Some(-v),
            None => None,
        }
    } else if s.len() > 0 && s[0] == '+' {
        digits_value(s.drop_first())
    } else {
        digits_value(s)
    }
}

/// The integer of 64 bits that a text stands for, if it stands for one.
pub open spec fn decimal_i64(s: Seq<char>) -> Option<i64> {
    match signed_decimal(s) {
        Some(v) => if i64::MIN <= v <= i64::MAX {
            Some(v as i64)
        } else {
            None
        },
        None => None,
    }
}

/// The minutes that a stored refresh interval stands for: the integer before
/// its trailing `m`s where that is one of 64 bits, else the default.
pub open spec fn refresh_minutes(text: Seq<char>) -> int {
    match decimal_i64(without_trailing(text, 'm')) {
        Some(v) => v as int,
        None => DEFAULT_REFRESH_MINUTES as int,
    }
}

/// A run of digits stands for no less than any of its beginnings.
proof fn lemma_digits_grow(s: Seq<char>, n: int)
    requires
        1 <= n <= s.len(),
        digits_value(s) is Some,
    ensures
        digits_value(s.subrange(0, n)) is Some,
        0 <= digits_value(s.subrange(0, n))->0 <= digits_value(s)->0,
    decreases s.len(),
{
    if n == s.len() {
        assert(s.subrange(0, n) =~= s);
        lemma_digits_nonnegative(s);
    } else {
        let head = s.drop_last();
        lemma_digits_grow(head, n);
        assert(head.subrange(0, n) =~= s.subrange(0, n));
    }
}

/// A run of digits stands for no negative number.
proof fn lemma_digits_nonnegative(s: Seq<char>)
    requires
        digits_value(s) is Some,
    ensures
        digits_value(s)->0 >= 0,
    decreases s.len(),
{
    if s.len() > 1 {
        lemma_digits_nonnegative(s.drop_last());
    }
}

/// The number that a run of digits stands for, where it is at most `limit`.
fn parse_digits(s: &Vec<char>, start: usize, end: usize, limit: u64) -> (r: Option<u64>)
    requires
        start <= end <= s.len(),
    ensures
        r == (match digits_value(s@.subrange(start as int, end as int)) {
            Some(v) => if v <= limit {
                Some(v as u64)
            } else {
                None
            },
            None => None,
        }),
        r matches Some(v) ==> v <= limit,
{
    if start == end {
        return None;
    }
    let ghost run = s@.subrange(start as int, end as int);
    let mut acc: u64 = 0;
    let mut i: usize = start;
    while i < end
        invariant
            start <= i <= end <= s.len(),
            run == s@.subrange(start as int, end as int),
            acc <= limit,
            i == start ==> acc == 0,
            i > start ==> digits_value(run.subrange(0, i - start)) == Some(acc as int),
        decreases end - i,
    {
        let c = s[i];
        let ghost prefix = run.subrange(0, i + 1 - start);
        proof {
            assert(prefix.last() == c);
            assert(prefix.drop_last() =~= run.subrange(0, i - start));
        }
        if c < '0' || c > '9' {
            proof {
                assert(digits_value(prefix) is None);
                if digits_value(run) is Some {
                    lemma_digits_grow(run, i + 1 - start);
                }
            }
            return None;
        }
        let digit: u64 = (c as u32 - '0' as u32) as u64;
        assert(digit_value(c) == Some(digit as int));
        assert(digits_value(prefix) == Some(acc * 10 + digit));
        if digit > limit || acc > (limit - digit) / 10 {
            proof {
                assert(acc * 10 + digit > limit);
                if digits_value(run) is Some {
                    lemma_digits_grow(run, i + 1 - start);
                }
            }
            return None;
        }
        acc = acc * 10 + digit;
        i += 1;
    }
    assert(run.subrange(0, end - start) =~= run);
    Some(acc)
}

/// The integer of 64 bits that the first `end` characters stand for.
fn parse_decimal(s: &Vec<char>, end: usize) -> (r: Option<i64>)
    requires
        end <= s.len(),
    ensures
        r == decimal_i64(s@.subrange(0, end as int)),
{
    let ghost body = s@.subrange(0, end as int);
    proof {
        if digits_value(body) is Some {
            lemma_digits_nonnegative(body);
        }
        if body.len() > 0 && digits_value(body.drop_first()) is Some {
            lemma_digits_nonnegative(body.drop_first());
        }
    }
    if end > 0 && s[0] == '-' {
        assert(body.drop_first() =~= s@.subrange(1, end as int));
        match parse_digits(s, 1, end, 0x8000_0000_0000_0000) {
            Some(v) => {
                if v == 0x8000_0000_0000_0000 {
                    Some(i64::MIN)
                } else {
                    Some(-(v as i64))
                }
            },
            None => None,
        }
    } else if end > 0 && s[0] == '+' {
        assert(body.drop_first() =~= s@.subrange(1, end as int));
        match parse_digits(s, 1, end, 0x7fff_ffff_ffff_ffff) {
            Some(v) => Some(v as i64),
            None => None,
        }
    } else {
        match parse_digits(s, 0, end, 0x7fff_ffff_ffff_ffff) {
            Some(v) => Some(v as i64),
            None => None,
        }
    }
}

/// The integer of 64 bits that a text stands for: an optional sign, then
/// one or more decimal digits, and nothing else.
pub fn parse_integer(text: &str) -> (r: Option<i64>)
    ensures
        r == decimal_i64(text@),
{
    let s = chars_of(text);
    assert(s@.subrange(0, s.len() as int) =~= s@);
    parse_decimal(&s, s.len())
}

/// The minutes that a stored refresh interval stands for.
pub fn parse_refresh_interval(text: &str) -> (minutes: i64)
    ensures
        minutes == refresh_minutes(text@),
{
    let s = chars_of(text);
    let mut end: usize = s.len();
    assert(s@.subrange(0, end as int) =~= s@);
    while end > 0 && s[end - 1] == 'm'
        invariant
            end <= s.len(),
            without_trailing(s@, 'm') == without_trailing(s@.subrange(0, end as int), 'm'),
        decreases end,
    {
        assert(s@.subrange(0, end as int).drop_last() =~= s@.subrange(0, end - 1));
        end -= 1;
    }
    assert(without_trailing(s@, 'm') == s@.subrange(0, end as int));
    match parse_decimal(&s, end) {
        Some(minutes) => minutes,
        None => DEFAULT_REFRESH_MINUTES,
    }
}

/// The first second of the calendar of the outside time library: the
/// beginning of its earliest year.
pub const CALENDAR_FIRST_SECOND: i64 = -8_334_601_228_800;

/// The last second of the calendar of the outside time library: the end of
/// its latest year.
pub const CALENDAR_LAST_SECOND: i64 = 8_210_266_876_799;

impl Timestamp {
    /// Whether the instant lies in the years that the calendar of the
    /// outside time library covers, with a plain count of nanoseconds.
    pub open spec fn representable(self) -> bool {
        CALENDAR_FIRST_SECOND <= self.secs <= CALENDAR_LAST_SECOND && self.nanos < 1_000_000_000
    }

    /// Whether the instant lies in the years that the calendar of the
    /// outside time library covers, with a plain count of nanoseconds.
    pub fn is_representable(&self) -> (r: bool)
        ensures
            r == self.representable(),
    {
        CALENDAR_FIRST_SECOND <= self.secs && self.secs <= CALENDAR_LAST_SECOND && self.nanos
            < 1_000_000_000
    }
}

/// The quotient rounded toward zero.
pub open spec fn toward_zero(a: int, b: int) -> int {
    if a >= 0 {
        a / b
    } else {
        -((-a) / b)
    }
}

/// The nanoseconds from `last` to `now`.
pub open spec fn elapsed_nanos(now: Timestamp, last: Timestamp) -> int {
    (now.secs - last.secs) * 1_000_000_000 + (now.nanos - last.nanos)
}

/// The whole minutes from `last` to `now`: the whole seconds first, then the
/// whole minutes of those, each rounded toward zero.
pub open spec fn elapsed_minutes(now: Timestamp, last: Timestamp) -> int {
    toward_zero(toward_zero(elapsed_nanos(now, last), 1_000_000_000), 60)
}

/// `DateTime::signed_duration_since` and `TimeDelta::num_minutes` of chrono,
/// on the two instants as `DateTime::from_timestamp` makes them. Trusted: the
/// result is the number of whole minutes between the instants, rounded
/// toward zero. `requires` keeps to the instants that `from_timestamp`
/// accepts without a leap second: the seconds of its calendar, from the
/// first day of the year -262143 to the last day of the year 262142, and
/// nanoseconds below a whole second.
#[verifier::external_body]
fn minutes_between(now: Timestamp, last: Timestamp) -> (minutes: i64)
    requires
        now.representable(),
        last.representable(),
    ensures
        minutes == elapsed_minutes(now, last),
{
    let a = chrono::DateTime::from_timestamp(now.secs, now.nanos).unwrap();
    let b = chrono::DateTime::from_timestamp(last.secs, last.nanos).unwrap();
    a.signed_duration_since(b).num_minutes()
}

/// Whether an indicator is stale: it was never updated, or the whole minutes
/// since its last update have reached its refresh interval.
pub open spec fn stale_at(now: Timestamp, last_updated: Option<Timestamp>, minutes: int) -> bool {
    match last_updated {
        Some(last) => elapsed_minutes(now, last) >= minutes,
        None => true,
    }
}

/// Whether an indicator is stale at `now`.
pub fn is_stale(now: Timestamp, last_updated: Option<Timestamp>, minutes: i64) -> (r: bool)
    requires
        now.representable(),
        last_updated matches Some(last) ==> last.representable(),
    ensures
        r == stale_at(now, last_updated, minutes as int),
{
    match last_updated {
        Some(last) => minutes_between(now, last) >= minutes,
        None => true,
    }
}

/// With a refresh interval of at least a minute, an indicator that was
/// updated before is stale exactly when the time since then has reached the
/// interval; one that was never updated is stale whatever the interval.
pub proof fn lemma_staleness_boundary(now: Timestamp, last: Timestamp, minutes: int)
    requires
        minutes >= 1,
    ensures
        stale_at(now, Some(last), minutes) <==> elapsed_nanos(now, last) >= minutes
            * 60_000_000_000,
        stale_at(now, None, minutes),
{
    let n = elapsed_nanos(now, last);
    if n >= 0 {
        let secs = n / 1_000_000_000;
        assert(toward_zero(n, 1_000_000_000) == secs);
        assert(toward_zero(secs, 60) == secs / 60);
    } else {
        let secs = -((-n) / 1_000_000_000);
        assert(toward_zero(n, 1_000_000_000) == secs);
        assert(secs <= 0);
        assert(toward_zero(secs, 60) <= 0);
    }
}

/// What the store holds of one indicator, each column as it could be read.
#[derive(Clone, Debug, PartialEq, Eq)]
pub struct IndicatorRow {
    pub slug: Option<String>,
    pub source: Option<String>,
    pub last_updated_at: Option<Timestamp>,
    pub refresh_interval: Option<String>,
}

/// The mathematical content of an [`IndicatorRow`].
pub struct IndicatorRowView {
    pub slug: Option<Seq<char>>,
    pub source: Option<Seq<char>>,
    pub last_updated_at: Option<Timestamp>,
    pub refresh_interval: Option<Seq<char>>,
}

impl DeepView for IndicatorRow {
    type V = IndicatorRowView;

    open spec fn deep_view(&self) -> IndicatorRowView {
        IndicatorRowView {
            slug: self.slug.deep_view(),
            source: self.source.deep_view(),
            last_updated_at: self.last_updated_at,
            refresh_interval: self.refresh_interval.deep_view(),
        }
    }
}

impl View for IndicatorRow {
    type V = IndicatorRowView;

    open spec fn view(&self) -> IndicatorRowView {
        self.deep_view()
    }
}

impl IndicatorRowView {
    /// The slug, empty where the column could not be read.
    pub open spec fn slug_or_default(self) -> Seq<char> {
        match self.slug {
            Some(slug) => slug,
            None => Seq::empty(),
        }
    }

    /// The provider, the statistics provider where the column could not be
    /// read.
    pub open spec fn source_or_default(self) -> Seq<char> {
        match self.source {
            Some(source) => source,
            None => "FRED"@,
        }
    }

    /// The refresh interval in minutes, a day where the column could not be
    /// read.
    pub open spec fn minutes(self) -> int {
        match self.refresh_interval {
            Some(text) => refresh_minutes(text),
            None => refresh_minutes("1440m"@),
        }
    }

    /// Whether the indicator is stale at `now`.
    pub open spec fn stale(self, now: Timestamp) -> bool {
        stale_at(now, self.last_updated_at, self.minutes())
    }
}

/// The stale indicators among the rows, in the order of the rows, each with
/// its provider.
pub open spec fn stale_targets(rows: Seq<IndicatorRowView>, now: Timestamp) -> Seq<TargetView>
    decreases rows.len(),
{
    if rows.len() == 0 {
        Seq::empty()
    } else {
        let head = stale_targets(rows.drop_last(), now);
        let row = rows.last();
        if row.stale(now) {
            head.push(TargetView { slug: row.slug_or_default(), provider: row.source_or_default() })
        } else {
            head
        }
    }
}

/// The stale indicators among the rows of the store, in the order of the
/// rows, each with its provider.
pub fn get_stale_indicators(rows: &Vec<IndicatorRow>, now: Timestamp) -> (stale: Vec<Target>)
    requires
        now.representable(),
        forall|i: int|
            0 <= i < rows.len() ==> ((#[trigger] rows[i]).last_updated_at matches Some(last)
                ==> last.representable()),
    ensures
        stale.deep_view() == stale_targets(rows.deep_view(), now),
{
    let mut stale: Vec<Target> = Vec::new();
    let mut i: usize = 0;
    while i < rows.len()
        invariant
            i <= rows.len(),
            now.representable(),
            forall|i: int|
                0 <= i < rows.len() ==> ((#[trigger] rows[i]).last_updated_at matches Some(last)
                    ==> last.representable()),
            stale.deep_view() == stale_targets(rows.deep_view().subrange(0, i as int), now),
        decreases rows.len() - i,
    {
        let row = &rows[i];
        proof {
            assert(rows.deep_view().subrange(0, i + 1).drop_last() =~= rows.deep_view().subrange(
                0,
                i as int,
            ));
            assert(rows.deep_view().subrange(0, i + 1).last() == row@);
        }
        let minutes = match &row.refresh_interval {
            Some(text) => parse_refresh_interval(text.as_str()),
            None => parse_refresh_interval("1440m"),
        };
        if is_stale(now, row.last_updated_at, minutes) {
            let ghost before = stale.deep_view();
            let slug = match &row.slug {
                Some(slug) => slug.clone(),
                None => String::new(),
            };
            let provider = match &row.source {
                Some(source) => source.clone(),
                None => "FRED".to_owned(),
            };
            let target = Target { slug, provider };
            stale.push(target);
            assert(stale.deep_view() =~= before.push(target@));
        }
        i += 1;
    }
    assert(rows.deep_view().subrange(0, i as int) =~= rows.deep_view());
    stale
}

} // verus!

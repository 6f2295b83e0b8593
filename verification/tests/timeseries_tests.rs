use indicator_sync::timeseries::{
    align, align_series, align_series_multi, DataPoint, MultiAlignedData, TimeSeries, Timestamp,
};

fn at(secs: i64) -> Timestamp {
    Timestamp { secs, nanos: 0 }
}

fn point(secs: i64, value: f64) -> DataPoint {
    DataPoint { timestamp: at(secs), value: value.to_bits() }
}

fn stored(series: &TimeSeries) -> Vec<(i64, f64)> {
    series.points().iter().map(|p| (p.timestamp.secs, f64::from_bits(p.value))).collect()
}

fn rows(found: Vec<(Timestamp, u64, u64)>) -> Vec<(i64, f64, f64)> {
    found.into_iter().map(|(t, a, b)| (t.secs, f64::from_bits(a), f64::from_bits(b))).collect()
}

#[test]
fn upsert_same_point_twice_keeps_one() {
    let mut series = TimeSeries::new();
    series.upsert(point(100, 1.5));
    series.upsert(point(100, 1.5));
    assert_eq!(series.len(), 1);
    assert_eq!(series.get(0), Some(point(100, 1.5)));
    assert_eq!(series.value_at(&at(100)), Some(1.5f64.to_bits()));
}

#[test]
fn upsert_other_value_overwrites() {
    let mut series = TimeSeries::new();
    series.upsert(point(100, 1.5));
    series.upsert(point(100, 2.5));
    assert_eq!(stored(&series), vec![(100, 2.5)]);
    series.upsert(point(50, 0.5));
    series.upsert(point(150, 3.5));
    series.upsert(point(100, 9.0));
    assert_eq!(stored(&series), vec![(50, 0.5), (100, 9.0), (150, 3.5)]);
    assert_eq!(series.value_at(&at(100)), Some(9.0f64.to_bits()));
    assert_eq!(series.value_at(&at(101)), None);
    assert_eq!(series.get(3), None);
}

#[test]
fn points_are_kept_in_time_order() {
    let series = TimeSeries::from_points(&[point(30, 3.0), point(10, 1.0), point(20, 2.0), point(10, 1.1)]);
    assert_eq!(stored(&series), vec![(10, 1.1), (20, 2.0), (30, 3.0)]);
    assert_eq!(series.len(), 3);
}

#[test]
fn nanoseconds_order_instants_within_a_second() {
    let early = DataPoint { timestamp: Timestamp { secs: 5, nanos: 1 }, value: 1 };
    let late = DataPoint { timestamp: Timestamp { secs: 5, nanos: 2 }, value: 2 };
    let before = DataPoint { timestamp: Timestamp { secs: 4, nanos: 999_999_999 }, value: 0 };
    let negative = DataPoint { timestamp: Timestamp { secs: -1, nanos: 500 }, value: 9 };
    let series = TimeSeries::from_points(&[late, before, early, negative]);
    assert_eq!(series.points(), vec![negative, before, early, late]);
    assert!(Timestamp::new(-1, 500).is_before(&Timestamp::new(0, 0)));
    assert!(!Timestamp::new(5, 2).is_before(&Timestamp::new(5, 2)));
    assert!(Timestamp::new(5, 2).same_instant(&Timestamp::new(5, 2)));
    assert!(!Timestamp::new(5, 2).same_instant(&Timestamp::new(5, 3)));
    assert!(Timestamp::new(i64::MIN, u32::MAX).is_before(&Timestamp::new(i64::MAX, 0)));
}

#[test]
fn save_is_a_sequence_of_upserts() {
    let mut series = TimeSeries::from_points(&[point(1, 1.0), point(2, 2.0)]);
    series.save(&[point(2, 20.0), point(3, 30.0), point(2, 21.0)]);
    assert_eq!(stored(&series), vec![(1, 1.0), (2, 21.0), (3, 30.0)]);
    series.save(&[]);
    assert_eq!(series.len(), 3);
}

#[test]
fn carried_value_is_the_latest_at_or_before() {
    let series = TimeSeries::from_points(&[point(10, 1.0), point(20, 2.0)]);
    assert_eq!(series.carried_to(&at(9)), None);
    assert_eq!(series.carried_to(&at(10)), Some(1.0f64.to_bits()));
    assert_eq!(series.carried_to(&at(19)), Some(1.0f64.to_bits()));
    assert_eq!(series.carried_to(&at(20)), Some(2.0f64.to_bits()));
    assert_eq!(series.carried_to(&at(1000)), Some(2.0f64.to_bits()));
    assert_eq!(TimeSeries::new().carried_to(&at(0)), None);
}

#[test]
fn align_forward_fills_second_series() {
    let a = vec![point(1, 10.0), point(2, 12.0), point(3, 14.0)];
    let b = vec![point(2, 4.0)];
    assert_eq!(rows(align_series(&a, &b, "ffill")), vec![(2, 12.0, 4.0), (3, 14.0, 4.0)]);
}

#[test]
fn align_joins_equal_instants() {
    let a = vec![point(1, 10.0), point(2, 12.0)];
    let b = vec![point(1, 4.0), point(2, 4.0)];
    assert_eq!(rows(align_series(&a, &b, "inner")), vec![(1, 10.0, 4.0), (2, 12.0, 4.0)]);
}

#[test]
fn align_orders_and_deduplicates_its_inputs() {
    let a = vec![point(3, 3.0), point(1, 1.0), point(2, 2.0), point(1, 1.5)];
    let b = vec![point(2, 20.0), point(0, 5.0), point(2, 25.0)];
    assert_eq!(
        rows(align_series(&a, &b, "anything")),
        vec![(1, 1.5, 5.0), (2, 2.0, 25.0), (3, 3.0, 25.0)]
    );
}

#[test]
fn align_with_an_empty_side_gives_nothing() {
    let a = vec![point(1, 1.0)];
    assert!(align_series(&a, &[], "ffill").is_empty());
    assert!(align_series(&[], &a, "ffill").is_empty());
    assert!(align_series(&[], &[], "ffill").is_empty());
    assert!(align(&TimeSeries::new(), &TimeSeries::new()).is_empty());
}

#[test]
fn align_follows_the_master_series() {
    let daily = vec![point(10, 1.0), point(20, 2.0), point(30, 3.0), point(40, 4.0)];
    let slow = vec![point(15, 100.0), point(16, 101.0), point(17, 102.0), point(35, 200.0), point(99, 0.0)];
    assert_eq!(
        rows(align_series(&daily, &slow, "ffill")),
        vec![(20, 2.0, 102.0), (30, 3.0, 102.0), (40, 4.0, 200.0)]
    );
}

fn multi(found: Vec<MultiAlignedData>) -> Vec<(i64, Vec<f64>)> {
    found
        .into_iter()
        .map(|row| (row.timestamp.secs, row.values.into_iter().map(f64::from_bits).collect()))
        .collect()
}

#[test]
fn multi_alignment_waits_until_every_series_has_begun() {
    let a = vec![point(1, 1.0), point(3, 3.0)];
    let b = vec![point(2, 20.0), point(4, 40.0)];
    let c = vec![point(2, 200.0)];
    assert_eq!(
        multi(align_series_multi(vec![&a, &b, &c], "ffill")),
        vec![(2, vec![1.0, 20.0, 200.0]), (3, vec![3.0, 20.0, 200.0]), (4, vec![3.0, 40.0, 200.0])]
    );
}

#[test]
fn multi_alignment_of_nothing_is_empty() {
    assert!(align_series_multi(Vec::new(), "ffill").is_empty());
    let empty: Vec<DataPoint> = Vec::new();
    let a = vec![point(1, 1.0)];
    assert!(align_series_multi(vec![&a, &empty], "ffill").is_empty());
    assert!(align_series_multi(vec![&empty], "ffill").is_empty());
}

#[test]
fn multi_alignment_of_one_series_gives_its_instants_once() {
    let a = vec![point(1, 1.0), point(2, 2.0), point(2, 2.5), point(3, 3.0)];
    assert_eq!(
        multi(align_series_multi(vec![&a], "ffill")),
        vec![(1, vec![1.0]), (2, vec![2.5]), (3, vec![3.0])]
    );
}

#[test]
fn multi_alignment_reads_each_series_in_its_given_order() {
    let unordered = vec![point(5, 5.0), point(1, 1.0), point(7, 7.0)];
    let master = vec![point(1, 10.0), point(5, 50.0), point(7, 70.0)];
    assert_eq!(
        multi(align_series_multi(vec![&master, &unordered], "ffill")),
        vec![(5, vec![50.0, 5.0]), (7, vec![70.0, 7.0])]
    );
}

use indicator_sync::indicators::{
    CalcError, Calculator, NdxSpxRatio, RuleOf20, VixTermStructure, RATE_WINDOW_DAYS,
};
use indicator_sync::timeseries::{DataPoint, MultiAlignedData, Timestamp};

fn at(secs: i64) -> Timestamp {
    Timestamp { secs, nanos: 0 }
}

fn point(secs: i64, value: f64) -> DataPoint {
    DataPoint { timestamp: at(secs), value: value.to_bits() }
}

fn row(secs: i64, values: &[f64]) -> MultiAlignedData {
    MultiAlignedData { timestamp: at(secs), values: values.iter().map(|v| v.to_bits()).collect() }
}

fn number(row: &MultiAlignedData, i: usize) -> f64 {
    f64::from_bits(row.values[i])
}

#[test]
fn test_gold_silver_ratio() {
    let gold_data = vec![point(1700000000, 2000.0)];
    let silver_data = vec![point(1700000000, 25.0)];
    let rows = Calculator::GoldSilver.rows(&vec![gold_data, silver_data]).unwrap();
    assert_eq!(rows, vec![row(1700000000, &[2000.0, 25.0])]);
    assert_eq!(rows.len(), 1);
    assert!((number(&rows[0], 0) / number(&rows[0], 1) - 80.0).abs() < 1e-6);
}

#[test]
fn test_zero_division_safety() {
    let gold_data = vec![point(1700000000, 2000.0)];
    let silver_data = vec![point(1700000000, 0.0)];
    let rows = Calculator::GoldSilver.rows(&vec![gold_data, silver_data]).unwrap();
    assert_eq!(rows, vec![row(1700000000, &[2000.0, 0.0])]);
    assert_eq!(rows.len(), 1);
    assert_eq!(number(&rows[0], 1), 0.0);
}

#[test]
fn test_cp_spread_calculation() {
    let cp_data = vec![point(1700000000, 5.35)];
    let tb_data = vec![point(1700000000, 5.10)];
    let rows = Calculator::CommercialPaperSpread.rows(&vec![cp_data, tb_data]).unwrap();
    assert_eq!(rows, vec![row(1700000000, &[5.35, 5.10])]);
    assert_eq!(rows.len(), 1);
    let spread = number(&rows[0], 0) - number(&rows[0], 1);
    assert!((spread - 0.25).abs() < 1e-6, "Expected 0.25, got {}", spread);
}

#[test]
fn test_sofr_spread_calculation() {
    let sofr_data = vec![point(1700000000, 5.31)];
    let effr_data = vec![point(1700000000, 5.33)];
    let rows = Calculator::SofrSpread.rows(&vec![sofr_data, effr_data]).unwrap();
    assert_eq!(rows, vec![row(1700000000, &[5.31, 5.33])]);
    assert_eq!(rows.len(), 1);
    let spread = number(&rows[0], 0) - number(&rows[0], 1);
    assert!((spread - (-0.02)).abs() < 1e-6, "Expected -0.02, got {}", spread);
}

#[test]
fn pair_calculators_join_by_forward_fill() {
    let daily = vec![point(10, 1.0), point(20, 2.0), point(30, 3.0), point(40, 4.0)];
    let quarterly = vec![point(15, 100.0), point(35, 200.0)];
    let rows = Calculator::YieldCurve10Y2Y.rows(&vec![daily, quarterly]).unwrap();
    assert_eq!(
        rows,
        vec![row(20, &[2.0, 100.0]), row(30, &[3.0, 100.0]), row(40, &[4.0, 200.0])]
    );
}

#[test]
fn pair_calculators_ignore_further_inputs() {
    let a = vec![point(1, 1.0)];
    let b = vec![point(1, 2.0)];
    let c = vec![point(1, 3.0)];
    let rows = Calculator::RealYield.rows(&vec![a, b, c]).unwrap();
    assert_eq!(rows, vec![row(1, &[1.0, 2.0])]);
}

#[test]
fn too_few_inputs_are_refused() {
    let one = vec![vec![point(1, 1.0)]];
    assert_eq!(Calculator::Buffett.rows(&one), Err(CalcError::MissingInputs));
    assert_eq!(Calculator::YieldGap.rows(&one), Err(CalcError::MissingInputs));
    assert_eq!(Calculator::FinancialStress.rows(&Vec::new()), Err(CalcError::MissingInputs));
    let two = vec![vec![point(1, 1.0)], vec![point(1, 1.0)]];
    assert_eq!(Calculator::NetLiquidity.rows(&two), Err(CalcError::MissingInputs));
    assert_eq!(
        Calculator::Buffett.describe(CalcError::MissingInputs),
        "Buffett Indicator requires 2 inputs: Market Cap and GDP"
    );
    assert_eq!(
        Calculator::YieldCurve10Y3M.describe(CalcError::MissingInputs),
        "Spread calculation requires 2 inputs: 10Y (DGS10) and 3M (DGS3MO)"
    );
    assert_eq!(
        Calculator::CopperGold.describe(CalcError::MissingInputs),
        "Missing input data (copper, gold)"
    );
}

#[test]
fn buffett_refuses_an_empty_input() {
    let cap = vec![point(1, 50_000_000.0)];
    assert_eq!(Calculator::Buffett.rows(&vec![cap.clone(), Vec::new()]), Err(CalcError::EmptyInput));
    assert_eq!(Calculator::Buffett.rows(&vec![Vec::new(), cap.clone()]), Err(CalcError::EmptyInput));
    assert_eq!(
        Calculator::Buffett.describe(CalcError::EmptyInput),
        "Empty input data for Buffett Indicator"
    );
    let gdp = vec![point(1, 25_000.0)];
    let rows = Calculator::Buffett.rows(&vec![cap, gdp]).unwrap();
    let ratio = (number(&rows[0], 0) / 1000.0 / number(&rows[0], 1)) * 100.0;
    assert!((ratio - 200.0).abs() < 1e-9);
}

#[test]
fn copper_gold_refuses_inputs_without_overlap() {
    let copper = vec![point(1, 4.0)];
    let gold = vec![point(2, 2000.0)];
    assert_eq!(Calculator::CopperGold.rows(&vec![copper, gold]), Err(CalcError::NoOverlap));
    assert_eq!(
        Calculator::CopperGold.describe(CalcError::NoOverlap),
        "No overlapping data after alignment"
    );
    let copper = vec![point(3, 4.0)];
    let gold = vec![point(2, 2000.0)];
    let rows = Calculator::CopperGold.rows(&vec![copper, gold]).unwrap();
    assert_eq!(rows, vec![row(3, &[4.0, 2000.0])]);
    assert!(((number(&rows[0], 0) / number(&rows[0], 1)) * 1000.0 - 2.0).abs() < 1e-9);
}

#[test]
fn gold_silver_accepts_inputs_without_overlap() {
    let gold = vec![point(1, 2000.0)];
    let silver = vec![point(2, 25.0)];
    assert_eq!(Calculator::GoldSilver.rows(&vec![gold, silver]), Ok(Vec::new()));
}

#[test]
fn financial_stress_takes_its_input_as_it_is() {
    let raw = vec![point(30, 0.3), point(10, 0.1), point(10, 0.2)];
    let rows = Calculator::FinancialStress.rows(&vec![raw]).unwrap();
    assert_eq!(rows, vec![row(30, &[0.3]), row(10, &[0.1]), row(10, &[0.2])]);
}

#[test]
fn net_liquidity_joins_three_series() {
    let fed = vec![point(10, 8_000_000.0), point(20, 7_900_000.0), point(30, 7_800_000.0)];
    let tga = vec![point(5, 500_000.0), point(25, 700_000.0)];
    let rrp = vec![point(15, 2_000.0), point(30, 1_500.0)];
    let rows = Calculator::NetLiquidity.rows(&vec![fed, tga, rrp]).unwrap();
    assert_eq!(
        rows,
        vec![row(20, &[7_900_000.0, 500_000.0, 2_000.0]), row(30, &[7_800_000.0, 700_000.0, 1_500.0])]
    );
    let net = (number(&rows[0], 0) * 1_000_000.0 - number(&rows[0], 1) * 1_000_000.0)
        - number(&rows[0], 2) * 1_000_000_000.0;
    assert_eq!(net, 5_400_000_000_000.0);
}

#[test]
fn quotients_join_at_the_instant_or_else_on_the_day() {
    let day = 86_400;
    let above = vec![
        point(10 * day, 20.0),
        point(11 * day + 3600, 21.0),
        point(12 * day, 22.0),
        point(14 * day, 24.0),
    ];
    let below = vec![
        point(11 * day, 110.0),
        point(10 * day + 60, 100.5),
        point(10 * day, 100.0),
        point(12 * day + 86_399, 120.0),
        point(13 * day, 130.0),
    ];
    let found = VixTermStructure.rows(&vec![above.clone(), below.clone()]).unwrap();
    assert_eq!(
        found,
        vec![
            (at(10 * day), 20.0f64.to_bits(), 100.0f64.to_bits()),
            (at(11 * day + 3600), 21.0f64.to_bits(), 110.0f64.to_bits()),
            (at(12 * day), 22.0f64.to_bits(), 120.0f64.to_bits()),
        ]
    );
    assert_eq!(NdxSpxRatio.rows(&vec![above, below]).unwrap(), found);
}

#[test]
fn quotients_take_exactly_two_inputs() {
    let one = vec![point(1, 1.0)];
    assert_eq!(VixTermStructure.rows(&vec![one.clone()]), Err(CalcError::MissingInputs));
    assert_eq!(
        NdxSpxRatio.rows(&vec![one.clone(), one.clone(), one.clone()]),
        Err(CalcError::MissingInputs)
    );
    assert_eq!(VixTermStructure.rows(&vec![one.clone(), Vec::new()]), Ok(Vec::new()));
}

#[test]
fn days_are_those_of_the_calendar() {
    let instants = [
        0i64, 1, 86_399, 86_400, 86_401, -1, -86_399, -86_400, -86_401, 1_700_000_000,
        -1_700_000_000, 951_782_400, 951_868_799, 8_000_000_000_000, -8_000_000_000_000,
    ];
    for a in instants {
        for b in instants {
            let same = chrono::DateTime::from_timestamp(a, 0).unwrap().date_naive()
                == chrono::DateTime::from_timestamp(b, 0).unwrap().date_naive();
            let above = vec![DataPoint { timestamp: at(a), value: 1 }];
            let below = vec![DataPoint { timestamp: at(b), value: 2 }];
            let rows = VixTermStructure.rows(&vec![above, below]).unwrap();
            assert_eq!(rows.len() == 1, same, "for {} and {}", a, b);
        }
    }
}

#[test]
fn valuations_take_the_nearest_rate_within_the_window() {
    let day = 86_400;
    assert_eq!(RATE_WINDOW_DAYS, 65);
    let valuations = vec![
        point(100 * day, 20.0),
        point(10 * day, 21.0),
        point(165 * day - 1, 22.0),
        point(165 * day, 23.0),
        point(40 * day + 5, 24.0),
    ];
    let rates = vec![point(100 * day, 3.0), point(40 * day, 2.0), point(101 * day, 9.0), point(99 * day, 1.0)];
    let rows = RuleOf20.pair(&valuations, &rates);
    assert_eq!(
        rows,
        vec![
            (at(100 * day), 20.0f64.to_bits(), 3.0f64.to_bits()),
            (at(165 * day - 1), 22.0f64.to_bits(), 9.0f64.to_bits()),
            (at(165 * day), 23.0f64.to_bits(), 9.0f64.to_bits()),
            (at(40 * day + 5), 24.0f64.to_bits(), 2.0f64.to_bits()),
        ]
    );
    assert!(RuleOf20.pair(&valuations, &Vec::new()).is_empty());
    assert!(RuleOf20.pair(&Vec::new(), &rates).is_empty());
}

#[test]
fn of_equally_near_rates_the_first_is_taken() {
    let day = 86_400;
    let valuations = vec![point(50 * day + 7200, 20.0)];
    let rates = vec![point(50 * day + 3600, 1.0), point(50 * day, 2.0), point(50 * day + 7200, 3.0)];
    assert_eq!(
        RuleOf20.pair(&valuations, &rates),
        vec![(at(50 * day + 7200), 20.0f64.to_bits(), 1.0f64.to_bits())]
    );
    let later_nearer = vec![point(48 * day, 1.0), point(50 * day, 2.0)];
    assert_eq!(
        RuleOf20.pair(&valuations, &later_nearer),
        vec![(at(50 * day + 7200), 20.0f64.to_bits(), 2.0f64.to_bits())]
    );
}

#[test]
fn rate_window_counts_whole_days_as_the_calendar_does() {
    let day = 86_400i64;
    for (valuation, rate) in [
        (65 * day - 1, 0),
        (65 * day, 0),
        (65 * day + 1, 0),
        (1_700_000_000, 1_700_000_000 - 64 * day - 86_399),
        (1_700_000_000, 1_700_000_000 - 65 * day),
        (-5 * day, -70 * day + 1),
        (-5 * day, -70 * day),
        (0, 1),
    ] {
        let later = chrono::DateTime::from_timestamp(valuation, 0).unwrap();
        let earlier = chrono::DateTime::from_timestamp(rate, 0).unwrap();
        let expected = earlier <= later && (later - earlier).num_days() < 65;
        let rows = RuleOf20.pair(&vec![point(valuation, 1.0)], &vec![point(rate, 2.0)]);
        assert_eq!(rows.len() == 1, expected, "for {} and {}", valuation, rate);
    }
}

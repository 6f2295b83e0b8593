use indicator_sync::indicators::Calculator;
use indicator_sync::orchestrator::{
    is_series_id, route, series_id_rule, source_name, throttle_provider, Request, ResolveError,
    Resolver, Route, Step,
};
use indicator_sync::registry::{Category, IndicatorMetadata, Registry, SourceType, UnitType};
use indicator_sync::seeder::obsolete_slugs;
use indicator_sync::timeseries::{DataPoint, TimeSeries, Timestamp};
use std::collections::HashMap;

fn point(secs: i64, value: f64) -> DataPoint {
    DataPoint { timestamp: Timestamp { secs, nanos: 0 }, value: value.to_bits() }
}

fn values(points: &[DataPoint]) -> Vec<(i64, f64)> {
    points.iter().map(|p| (p.timestamp.secs, f64::from_bits(p.value))).collect()
}

fn entry(slug: &str, source: SourceType, symbol: Option<&str>) -> IndicatorMetadata {
    IndicatorMetadata {
        slug: slug.to_string(),
        name: slug.to_uppercase(),
        source,
        category: Category::UsMacro,
        description: None,
        source_symbol: symbol.map(|s| s.to_string()),
        unit: UnitType::Percent,
        source_url: None,
        frequency: None,
        has_history: true,
    }
}

/// A stand-in for the providers, the store and the arithmetic.
struct World {
    provider: HashMap<String, Result<Vec<DataPoint>, String>>,
    store: HashMap<String, TimeSeries>,
    unreadable: Vec<String>,
    save_fails: bool,
    log: Vec<String>,
}

impl World {
    fn new() -> World {
        World {
            provider: HashMap::new(),
            store: HashMap::new(),
            unreadable: Vec::new(),
            save_fails: false,
            log: Vec::new(),
        }
    }

    fn serve(&mut self, symbol: &str, points: Vec<DataPoint>) {
        self.provider.insert(symbol.to_string(), Ok(points));
    }

    fn keep(&mut self, slug: &str, points: &[DataPoint]) {
        self.store.insert(slug.to_string(), TimeSeries::from_points(points));
    }

    fn difference(calculator: Calculator, inputs: &Vec<Vec<DataPoint>>) -> Result<Vec<DataPoint>, String> {
        match calculator.rows(inputs) {
            Ok(rows) => Ok(rows
                .iter()
                .map(|row| DataPoint {
                    timestamp: row.timestamp,
                    value: row
                        .values
                        .iter()
                        .skip(1)
                        .fold(f64::from_bits(row.values[0]), |acc, v| acc - f64::from_bits(*v))
                        .to_bits(),
                })
                .collect()),
            Err(error) => Err(calculator.describe(error).to_string()),
        }
    }

    fn perform(&mut self, request: Request) -> Result<Vec<DataPoint>, String> {
        match request {
            Request::Fetch { slug, source, symbol, backfill } => {
                self.log.push(format!("fetch {} {} {} {}", slug, source_name(source), symbol, backfill));
                match self.provider.get(&symbol) {
                    Some(outcome) => outcome.clone(),
                    None => Err(format!("HTTP 404 for {}", symbol)),
                }
            }
            Request::ReadSeries { slug } => {
                self.log.push(format!("read {}", slug));
                if self.unreadable.contains(&slug) {
                    return Err("disk I/O error".to_string());
                }
                Ok(self.store.get(&slug).map(|s| s.points()).unwrap_or_default())
            }
            Request::Descend { slug } => {
                self.log.push(format!("descend {}", slug));
                Ok(Vec::new())
            }
            Request::Calculate { slug, calculator, inputs } => {
                self.log.push(format!("calculate {} with {} inputs", slug, inputs.len()));
                World::difference(calculator, &inputs)
            }
            Request::Save { slug, points, source_name, category } => {
                self.log.push(format!("save {} {} {} {}", slug, points.len(), source_name, category));
                if self.save_fails {
                    return Err("database is locked".to_string());
                }
                self.store.entry(slug).or_insert_with(TimeSeries::new).save(&points);
                Ok(Vec::new())
            }
        }
    }

    fn resolve(
        &mut self,
        registry: &Registry,
        slug: &str,
        backfill: bool,
        fetch_deps: bool,
    ) -> Result<Vec<DataPoint>, ResolveError> {
        let mut step = Resolver::start(registry, slug, backfill, fetch_deps);
        loop {
            match step {
                Step::Done(outcome) => return outcome,
                Step::Act(resolver, request) => {
                    let outcome = self.perform(request);
                    step = resolver.resume(registry, outcome);
                }
            }
        }
    }
}

#[test]
fn calculated_indicator_composes_its_dependencies() {
    let registry = Registry::standard();
    let mut world = World::new();
    world.keep("us_10y", &[point(1, 10.0), point(2, 12.0)]);
    world.keep("us_2y", &[point(1, 4.0), point(2, 4.0)]);
    let result = world.resolve(&registry, "yield_curve_10y_2y", false, false).unwrap();
    assert_eq!(values(&result), vec![(1, 6.0), (2, 8.0)]);
    assert_eq!(
        world.log,
        vec![
            "read us_10y",
            "read us_2y",
            "calculate yield_curve_10y_2y with 2 inputs",
            "save yield_curve_10y_2y 2 System Calculated",
        ]
    );
    assert_eq!(values(&world.store["yield_curve_10y_2y"].points()), vec![(1, 6.0), (2, 8.0)]);
}

#[test]
fn without_fetch_deps_no_provider_is_called() {
    let registry = Registry::standard();
    let mut world = World::new();
    world.serve("DGS10", vec![point(1, 99.0)]);
    world.serve("DGS2", vec![point(1, 98.0)]);
    world.keep("us_10y", &[point(1, 10.0)]);
    world.keep("us_2y", &[point(1, 4.0)]);
    let result = world.resolve(&registry, "yield_curve_10y_2y", true, false).unwrap();
    assert_eq!(values(&result), vec![(1, 6.0)]);
    assert!(world.log.iter().all(|line| !line.starts_with("fetch")));
}

#[test]
fn with_fetch_deps_dependencies_are_fetched_and_saved_in_order() {
    let registry = Registry::standard();
    let mut world = World::new();
    world.serve("DGS10", vec![point(1, 10.0), point(2, 12.0)]);
    world.serve("DGS2", vec![point(1, 4.0), point(2, 4.0)]);
    let result = world.resolve(&registry, "yield_curve_10y_2y", false, true).unwrap();
    assert_eq!(values(&result), vec![(1, 6.0), (2, 8.0)]);
    assert_eq!(
        world.log,
        vec![
            "fetch us_10y FRED DGS10 false",
            "save us_10y 2 FRED Macro",
            "fetch us_2y FRED DGS2 false",
            "save us_2y 2 FRED Macro",
            "calculate yield_curve_10y_2y with 2 inputs",
            "save yield_curve_10y_2y 2 System Calculated",
        ]
    );
}

#[test]
fn external_indicator_is_fetched_under_its_symbol_and_saved() {
    let registry = Registry::standard();
    let mut world = World::new();
    world.serve("DGS10", vec![point(5, 4.25)]);
    let result = world.resolve(&registry, "us_10y", true, true).unwrap();
    assert_eq!(values(&result), vec![(5, 4.25)]);
    assert_eq!(world.log, vec!["fetch us_10y FRED DGS10 true", "save us_10y 1 FRED Macro"]);
}

#[test]
fn entry_without_symbol_is_fetched_under_its_slug() {
    let registry = Registry::standard();
    let mut world = World::new();
    world.serve("SP500PE12M", vec![point(5, 25.0)]);
    let result = world.resolve(&registry, "SP500PE12M", false, true).unwrap();
    assert_eq!(values(&result), vec![(5, 25.0)]);
    assert_eq!(
        world.log,
        vec!["fetch SP500PE12M Alternative SP500PE12M false", "save SP500PE12M 1 Alternative Macro"]
    );
}

#[test]
fn unknown_uppercase_slug_is_tried_at_the_default_provider() {
    let registry = Registry::standard();
    let mut world = World::new();
    world.serve("DGS10X", vec![point(1, 1.0)]);
    let result = world.resolve(&registry, "DGS10X", false, true).unwrap();
    assert_eq!(values(&result), vec![(1, 1.0)]);
    assert_eq!(world.log, vec!["fetch DGS10X FRED DGS10X false", "save DGS10X 1 FRED Macro"]);
}

#[test]
fn unknown_lowercase_slug_fails_without_any_request() {
    let registry = Registry::standard();
    let mut world = World::new();
    let error = world.resolve(&registry, "my_custom_thing", false, true).unwrap_err();
    assert_eq!(error, ResolveError::UnknownIndicator { slug: "my_custom_thing".to_string() });
    assert_eq!(error.message(), "Unknown indicator 'my_custom_thing'. Not a valid external ID.");
    assert!(world.log.is_empty());
}

#[test]
fn unknown_slug_with_hyphen_fails_without_any_request() {
    let registry = Registry::standard();
    let mut world = World::new();
    let error = world.resolve(&registry, "BTC-USD", false, true).unwrap_err();
    assert_eq!(error, ResolveError::UnknownIndicator { slug: "BTC-USD".to_string() });
    assert!(world.log.is_empty());
}

#[test]
fn series_id_rule_needs_neither_lowercase_nor_hyphen() {
    assert!(series_id_rule(false, false));
    assert!(!series_id_rule(true, false));
    assert!(!series_id_rule(false, true));
    assert!(!series_id_rule(true, true));
    assert!(is_series_id("DGS10X"));
    assert!(is_series_id("T10Y2Y"));
    assert!(!is_series_id("my_custom_thing"));
    assert!(!is_series_id("dGS10"));
    assert!(!is_series_id("ΔGSδ"));
    assert!(!is_series_id("BTC-USD"));
}

#[test]
fn manual_indicator_resolves_to_an_empty_series() {
    let registry = Registry::standard();
    let manual = registry.get_by_source(SourceType::Manual);
    assert_eq!(manual.len(), 2);
    let mut world = World::new();
    let result = world.resolve(&registry, &manual[0].slug, false, true).unwrap();
    assert!(result.is_empty());
    assert!(world.log.is_empty());
}

#[test]
fn fetch_failure_names_slug_symbol_and_cause() {
    let registry = Registry::standard();
    let mut world = World::new();
    world.provider.insert("DGS10".to_string(), Err("HTTP 429 Too Many Requests".to_string()));
    let error = world.resolve(&registry, "us_10y", false, true).unwrap_err();
    assert_eq!(
        error,
        ResolveError::FetchFailed {
            slug: "us_10y".to_string(),
            source: SourceType::Fred,
            symbol: "DGS10".to_string(),
            cause: "HTTP 429 Too Many Requests".to_string(),
        }
    );
    assert_eq!(error.message(), "Fetch failed for us_10y (DGS10): HTTP 429 Too Many Requests");
    assert_eq!(world.log, vec!["fetch us_10y FRED DGS10 false"]);
}

#[test]
fn failure_of_a_dependency_ends_the_run_with_its_error() {
    let registry = Registry::standard();
    let mut world = World::new();
    world.serve("DGS10", vec![point(1, 10.0)]);
    world.provider.insert("DGS2".to_string(), Err("timeout".to_string()));
    let error = world.resolve(&registry, "yield_curve_10y_2y", false, true).unwrap_err();
    assert_eq!(error.message(), "Fetch failed for us_2y (DGS2): timeout");
    assert_eq!(
        world.log,
        vec!["fetch us_10y FRED DGS10 false", "save us_10y 1 FRED Macro", "fetch us_2y FRED DGS2 false"]
    );
}

#[test]
fn unreadable_dependency_is_a_dependency_error() {
    let registry = Registry::standard();
    let mut world = World::new();
    world.keep("us_10y", &[point(1, 10.0)]);
    world.unreadable.push("us_2y".to_string());
    let error = world.resolve(&registry, "yield_curve_10y_2y", false, false).unwrap_err();
    assert_eq!(
        error,
        ResolveError::DependencyResolutionFailed {
            slug: "us_2y".to_string(),
            cause: "disk I/O error".to_string(),
        }
    );
    assert_eq!(error.message(), "Failed to read dependency us_2y from DB: disk I/O error");
}

#[test]
fn persistence_failure_is_reported_for_raw_and_calculated_series() {
    let registry = Registry::standard();
    let mut world = World::new();
    world.save_fails = true;
    world.serve("DGS10", vec![point(1, 10.0)]);
    let raw = world.resolve(&registry, "us_10y", false, true).unwrap_err();
    assert_eq!(
        raw,
        ResolveError::PersistenceFailed { calculated: false, cause: "database is locked".to_string() }
    );
    assert_eq!(raw.message(), "Failed to save raw data: database is locked");
    world.keep("us_10y", &[point(1, 10.0)]);
    world.keep("us_2y", &[point(1, 4.0)]);
    let calculated = world.resolve(&registry, "yield_curve_10y_2y", false, false).unwrap_err();
    assert_eq!(calculated.message(), "Failed to save calculated indicator: database is locked");
}

#[test]
fn calculated_entry_without_calculator_is_missing_calculator() {
    let registry = Registry::from_entries(vec![entry("rule_of_20", SourceType::Calculated, None)]);
    let mut world = World::new();
    let error = world.resolve(&registry, "rule_of_20", false, true).unwrap_err();
    assert_eq!(error, ResolveError::MissingCalculator { slug: "rule_of_20".to_string() });
    assert_eq!(error.message(), "Calculator implementation not found for rule_of_20");
    assert!(world.log.is_empty());
}

#[test]
fn glassnode_entry_is_unsupported() {
    let registry = Registry::from_entries(vec![entry("mvrv", SourceType::Glassnode, Some("MVRV"))]);
    let mut world = World::new();
    let error = world.resolve(&registry, "mvrv", false, true).unwrap_err();
    assert_eq!(error, ResolveError::UnsupportedSource { slug: "mvrv".to_string() });
    assert_eq!(error.message(), "Glassnode fetcher not implemented for mvrv");
}

#[test]
fn calculation_failure_is_wrapped_with_the_slug() {
    let registry = Registry::standard();
    let mut world = World::new();
    world.keep("us_market_cap", &[]);
    world.keep("gdp", &[point(1, 2.0)]);
    let error = world.resolve(&registry, "buffett_indicator", false, false).unwrap_err();
    assert_eq!(
        error.message(),
        "Calculation failed for buffett_indicator: Empty input data for Buffett Indicator"
    );
}

#[test]
fn calculated_dependency_without_calculator_fails_for_that_slug() {
    let registry = Registry::from_entries(vec![
        entry("yield_gap", SourceType::Calculated, None),
        entry("SP500PE12M", SourceType::Calculated, None),
        entry("us_10y", SourceType::Manual, None),
        entry("financial_stress", SourceType::Calculated, None),
        entry("stlfsi4", SourceType::Fred, Some("STLFSI4")),
    ]);
    assert_eq!(route(&registry, "SP500PE12M"), Route::NoCalculator);
    let mut world = World::new();
    let error = world.resolve(&registry, "yield_gap", false, true).unwrap_err();
    assert_eq!(error, ResolveError::MissingCalculator { slug: "SP500PE12M".to_string() });
    world.serve("STLFSI4", vec![point(7, 0.5)]);
    let stress = world.resolve(&registry, "financial_stress", true, true).unwrap();
    assert_eq!(values(&stress), vec![(7, 0.5)]);
}

#[test]
fn routes_follow_the_source_of_the_entry() {
    let registry = Registry::standard();
    assert_eq!(
        route(&registry, "us_10y"),
        Route::Fetch { source: SourceType::Fred, symbol: "DGS10".to_string() }
    );
    assert_eq!(
        route(&registry, "net_liquidity"),
        Route::Compute { calculator: Calculator::NetLiquidity }
    );
    assert_eq!(
        route(&registry, "DGS10X"),
        Route::Fetch { source: SourceType::Fred, symbol: "DGS10X".to_string() }
    );
    assert_eq!(route(&registry, "nothing_here"), Route::Unknown);
    let custom = Registry::from_entries(vec![
        entry("by_hand", SourceType::Manual, None),
        entry("chain", SourceType::Glassnode, None),
        entry("oil", SourceType::Eia, Some("PET.RWTC.D")),
    ]);
    assert_eq!(route(&custom, "by_hand"), Route::Empty);
    assert_eq!(route(&custom, "chain"), Route::Unsupported);
    assert_eq!(
        route(&custom, "oil"),
        Route::Fetch { source: SourceType::Eia, symbol: "PET.RWTC.D".to_string() }
    );
}

#[test]
fn series_names_of_sources() {
    assert_eq!(source_name(SourceType::Fred), "FRED");
    assert_eq!(source_name(SourceType::Yahoo), "Yahoo");
    assert_eq!(source_name(SourceType::Tiingo), "Tiingo");
    assert_eq!(source_name(SourceType::Binance), "Binance");
    assert_eq!(source_name(SourceType::WorldBank), "WorldBank");
    assert_eq!(source_name(SourceType::Eia), "EIA");
    assert_eq!(source_name(SourceType::Glassnode), "Glassnode");
    assert_eq!(source_name(SourceType::Alternative), "Alternative");
    assert_eq!(source_name(SourceType::Manual), "Manual");
    assert_eq!(source_name(SourceType::Calculated), "Calculated");
}

#[test]
fn manual_refresh_waits_for_the_three_paced_providers() {
    let registry = Registry::standard();
    assert_eq!(throttle_provider(&registry, "us_10y"), Some("FRED"));
    assert_eq!(throttle_provider(&registry, "spx"), Some("Tiingo"));
    assert_eq!(throttle_provider(&registry, "binance_btc_usdt"), Some("Binance"));
    assert_eq!(throttle_provider(&registry, "yield_curve_10y_2y"), None);
    assert_eq!(throttle_provider(&registry, "skew"), None);
    assert_eq!(throttle_provider(&registry, "crypto_fear_greed"), None);
    assert_eq!(throttle_provider(&registry, "not_in_the_catalog"), Some("FRED"));
}

#[test]
fn no_run_over_the_standard_catalog_takes_more_than_eight_requests() {
    let registry = Registry::standard();
    for entry in registry.get_all_indicators() {
        for fetch_deps in [false, true] {
            let mut requests = 0;
            let mut step = Resolver::start(&registry, &entry.slug, false, fetch_deps);
            loop {
                match step {
                    Step::Done(_) => break,
                    Step::Act(resolver, request) => {
                        requests += 1;
                        assert!(!matches!(request, Request::Descend { .. }));
                        step = resolver.resume(&registry, Ok(Vec::new()));
                    }
                }
            }
            assert!(requests <= 8, "{} took {} requests", entry.slug, requests);
            if entry.slug == "net_liquidity" && fetch_deps {
                assert_eq!(requests, 8);
            }
        }
    }
}

#[test]
fn stress_index_reads_the_series_that_the_catalog_lists() {
    let registry = Registry::standard();
    let mut world = World::new();
    world.serve("STLFSI4", vec![point(7, 0.5), point(14, 0.75)]);
    let result = world.resolve(&registry, "financial_stress", false, true).unwrap();
    assert_eq!(values(&result), vec![(7, 0.5), (14, 0.75)]);
    assert_eq!(
        world.log,
        vec![
            "fetch stlfsi4 FRED STLFSI4 false",
            "save stlfsi4 2 FRED Macro",
            "calculate financial_stress with 1 inputs",
            "save financial_stress 2 System Calculated",
        ]
    );
    assert!(world.store.contains_key("stlfsi4"));
    assert!(!world.store.contains_key("STLFSI4"));
    let mut stored = World::new();
    stored.keep("stlfsi4", &[point(7, 0.5)]);
    let again = stored.resolve(&registry, "financial_stress", false, false).unwrap();
    assert_eq!(values(&again), vec![(7, 0.5)]);
    assert_eq!(stored.log[0], "read stlfsi4");
}

#[test]
fn nothing_that_a_computed_indicator_saves_is_obsolete_at_the_next_seeding() {
    let registry = Registry::standard();
    for entry in registry.get_by_source(SourceType::Calculated) {
        let mut world = World::new();
        let calculator = Registry::get_calculator(&entry.slug).unwrap();
        for input in calculator.required_inputs() {
            let listed = registry.get_metadata(input).unwrap();
            let symbol = listed.source_symbol.unwrap_or(listed.slug);
            world.serve(&symbol, vec![point(1, 1.0), point(2, 2.0)]);
        }
        world.resolve(&registry, &entry.slug, false, true).unwrap();
        assert!(world.log.iter().all(|line| !line.starts_with("descend")));
        let stored: Vec<String> = world.store.keys().cloned().collect();
        assert_eq!(stored.len(), calculator.required_inputs().len() + 1);
        assert!(obsolete_slugs(&registry, &stored).is_empty(), "for {}", entry.slug);
    }
}

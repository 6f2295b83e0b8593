use indicator_sync::batch::{
    batch_calculate_derived_indicators, batch_sync_base_indicators, pacing_key, targets_of,
    BatchRun, BatchStep, Stage, SyncRequest, Target,
};
use indicator_sync::registry::{Category, IndicatorMetadata, Registry, SourceType, UnitType};

fn entry(slug: &str, source: SourceType, category: Category) -> IndicatorMetadata {
    IndicatorMetadata {
        slug: slug.to_string(),
        name: slug.to_uppercase(),
        source,
        category,
        description: None,
        source_symbol: None,
        unit: UnitType::Index,
        source_url: None,
        frequency: None,
        has_history: true,
    }
}

fn mixed_registry() -> Registry {
    Registry::from_entries(vec![
        entry("us_10y", SourceType::Fred, Category::UsMacro),
        entry("by_hand", SourceType::Manual, Category::Risk),
        entry("spx", SourceType::Tiingo, Category::UsStocks),
        entry("sector", SourceType::Tiingo, Category::Internal),
        entry("real_yield", SourceType::Calculated, Category::UsMacro),
        entry("btc", SourceType::Binance, Category::Crypto),
        entry("fng", SourceType::Alternative, Category::Risk),
        entry("hidden", SourceType::Calculated, Category::Internal),
    ])
}

fn drive(mut step: BatchStep, failing: &[&str]) -> (usize, usize, Vec<String>) {
    let mut log = Vec::new();
    loop {
        match step {
            BatchStep::Done(success, failed) => return (success, failed, log),
            BatchStep::Act(run, request) => {
                let ok = match request {
                    SyncRequest::ReportProgress { current, total, slug, stage } => {
                        log.push(format!("progress {}/{} {} {}", current, total, slug, stage.as_str()));
                        true
                    }
                    SyncRequest::Wait { provider } => {
                        log.push(format!("wait {}", provider));
                        true
                    }
                    SyncRequest::Resolve { slug, backfill, fetch_deps } => {
                        log.push(format!("resolve {} {} {}", slug, backfill, fetch_deps));
                        !failing.contains(&slug.as_str())
                    }
                    other => panic!("a batch does not ask for {:?}", other),
                };
                step = run.resume(ok);
            }
        }
    }
}

#[test]
fn base_batch_waits_then_fetches_each_listed_provider_indicator() {
    let registry = mixed_registry();
    let (success, failed, log) = drive(batch_sync_base_indicators(&registry), &["spx"]);
    assert_eq!((success, failed), (3, 1));
    assert_eq!(
        log,
        vec![
            "progress 1/4 us_10y fetching",
            "wait FRED",
            "resolve us_10y true true",
            "progress 2/4 spx fetching",
            "wait Tiingo",
            "resolve spx true true",
            "progress 3/4 btc fetching",
            "wait Binance",
            "resolve btc true true",
            "progress 4/4 fng fetching",
            "wait Default",
            "resolve fng true true",
        ]
    );
}

#[test]
fn derived_batch_recalculates_listed_computed_indicators_from_the_store() {
    let registry = mixed_registry();
    let (success, failed, log) = drive(batch_calculate_derived_indicators(&registry), &[]);
    assert_eq!((success, failed), (1, 0));
    assert_eq!(log, vec!["progress 1/1 real_yield calculating", "resolve real_yield true false"]);
}

#[test]
fn empty_batch_is_done_at_once() {
    let registry = Registry::from_entries(Vec::new());
    assert!(matches!(batch_sync_base_indicators(&registry), BatchStep::Done(0, 0)));
    assert!(matches!(BatchRun::start(Vec::new(), Stage::Calculating), BatchStep::Done(0, 0)));
}

#[test]
fn tally_counts_every_indicator_once() {
    let items: Vec<Target> = (0..7)
        .map(|i| Target { slug: format!("s{}", i), provider: "Default".to_string() })
        .collect();
    let (success, failed, _) = drive(BatchRun::start(items, Stage::Fetching), &["s1", "s4", "s6"]);
    assert_eq!(success, 4);
    assert_eq!(failed, 3);
}

#[test]
fn standard_catalog_batches() {
    let registry = Registry::standard();
    let base = targets_of(&registry, Stage::Fetching, true);
    let derived = targets_of(&registry, Stage::Calculating, true);
    assert_eq!(targets_of(&registry, Stage::Fetching, false).len(), 107 - 11 - 2);
    assert_eq!(targets_of(&registry, Stage::Calculating, false).len(), 11);
    assert_eq!(base.len(), 92 - 11 - 2);
    assert_eq!(derived.len(), 11);
    assert_eq!(derived[0], Target { slug: "buffett_indicator".to_string(), provider: "Default".to_string() });
    assert_eq!(base[0], Target { slug: "us_market_cap".to_string(), provider: "FRED".to_string() });
}

#[test]
fn pacing_keys_of_sources() {
    assert_eq!(pacing_key(SourceType::Fred), "FRED");
    assert_eq!(pacing_key(SourceType::Tiingo), "Tiingo");
    assert_eq!(pacing_key(SourceType::Binance), "Binance");
    assert_eq!(pacing_key(SourceType::Yahoo), "Default");
    assert_eq!(pacing_key(SourceType::Alternative), "Default");
    assert_eq!(pacing_key(SourceType::Eia), "Default");
}

use indicator_sync::batch::{Stage, SyncRequest, Target, UpdateStatus};
use indicator_sync::registry::{Category, IndicatorMetadata, Registry, SourceType, UnitType};
use indicator_sync::scheduler::{
    cron_schedule, signals_quota, RunSummary, SyncError, SyncRun, SyncStep, BATCH_PAUSE_SECS,
    BATCH_SIZE, STARTUP_DELAY_SECS,
};
use std::collections::HashMap;

fn target(slug: &str, provider: &str) -> Target {
    Target { slug: slug.to_string(), provider: provider.to_string() }
}

fn entry(slug: &str, source: SourceType, category: Category) -> IndicatorMetadata {
    IndicatorMetadata {
        slug: slug.to_string(),
        name: slug.to_uppercase(),
        source,
        category,
        description: None,
        source_symbol: None,
        unit: UnitType::Index,
        source_url: None,
        frequency: None,
        has_history: true,
    }
}

fn small_registry() -> Registry {
    Registry::from_entries(vec![
        entry("us_10y", SourceType::Fred, Category::UsMacro),
        entry("yield_curve_10y_2y", SourceType::Calculated, Category::UsMacro),
        entry("hidden_calc", SourceType::Calculated, Category::Internal),
        entry("real_yield", SourceType::Calculated, Category::UsMacro),
    ])
}

/// A stand-in for the store and the orchestrator.
struct Host {
    failures: HashMap<String, String>,
    status: HashMap<String, (UpdateStatus, Option<String>)>,
    log: Vec<String>,
}

impl Host {
    fn new() -> Host {
        Host { failures: HashMap::new(), status: HashMap::new(), log: Vec::new() }
    }

    fn perform(&mut self, request: SyncRequest) -> Result<(), String> {
        match request {
            SyncRequest::CheckAlerts => {
                self.log.push("alerts".to_string());
                Ok(())
            }
            SyncRequest::MarkStatus { slug, status, error } => {
                self.log.push(format!("mark {} {}", slug, status.as_str()));
                self.status.insert(slug, (status, error));
                Ok(())
            }
            SyncRequest::Resolve { slug, backfill, fetch_deps } => {
                self.log.push(format!("resolve {} {} {}", slug, backfill, fetch_deps));
                match self.failures.get(&slug) {
                    Some(message) => Err(message.clone()),
                    None => Ok(()),
                }
            }
            SyncRequest::Wait { provider } => {
                self.log.push(format!("wait {}", provider));
                Ok(())
            }
            SyncRequest::Pause => {
                self.log.push("pause".to_string());
                Ok(())
            }
            SyncRequest::ReportProgress { current, total, slug, stage } => {
                self.log.push(format!("progress {}/{} {} {}", current, total, slug, stage.as_str()));
                Ok(())
            }
            SyncRequest::EmitUpdated => {
                self.log.push("emit".to_string());
                Ok(())
            }
        }
    }

    fn run(
        &mut self,
        registry: &Registry,
        has_credential: bool,
        stale: Vec<Target>,
    ) -> Result<RunSummary, SyncError> {
        let mut step = SyncRun::start(registry, has_credential, stale);
        loop {
            match step {
                SyncStep::Done(outcome) => return outcome,
                SyncStep::Act(run, request) => {
                    let outcome = self.perform(request);
                    step = run.resume(outcome);
                }
            }
        }
    }
}

#[test]
fn canary_failure_aborts_the_run_and_touches_nothing_else() {
    let registry = small_registry();
    let mut host = Host::new();
    host.failures.insert("A".to_string(), "Fetch failed for A (A): connection refused".to_string());
    let stale = vec![target("A", "FRED"), target("B", "FRED"), target("C", "Tiingo")];
    let outcome = host.run(&registry, true, stale);
    assert_eq!(
        outcome,
        Err(SyncError::CanaryFailed {
            slug: "A".to_string(),
            message: "Fetch failed for A (A): connection refused".to_string(),
        })
    );
    assert_eq!(outcome.unwrap_err().message(), "Canary probe failed.");
    assert_eq!(host.log, vec!["alerts", "mark A updating", "resolve A false true", "mark A error"]);
    assert_eq!(
        host.status.get("A"),
        Some(&(UpdateStatus::Error, Some("Fetch failed for A (A): connection refused".to_string())))
    );
    assert!(host.status.get("B").is_none());
    assert!(host.status.get("C").is_none());
}

#[test]
fn quota_failure_stops_the_batches_and_still_recalculates() {
    let registry = small_registry();
    let mut host = Host::new();
    host.failures.insert("e4".to_string(), "Fetch failed for e4 (E4): HTTP 429".to_string());
    let mut stale = vec![target("canary", "FRED")];
    for i in 1..=10 {
        stale.push(target(&format!("e{}", i), "Tiingo"));
    }
    let summary = host.run(&registry, true, stale).unwrap();
    assert_eq!(
        summary,
        RunSummary {
            skipped: false,
            stale: 11,
            updated: 4,
            failed: 1,
            stopped_early: true,
            recalculated: 3,
            recalculation_failed: 0,
        }
    );
    for slug in ["canary", "e1", "e2", "e3"] {
        assert_eq!(host.status.get(slug), Some(&(UpdateStatus::Success, None)));
    }
    assert_eq!(
        host.status.get("e4"),
        Some(&(UpdateStatus::Error, Some("Fetch failed for e4 (E4): HTTP 429".to_string())))
    );
    for slug in ["e5", "e6", "e7", "e8", "e9", "e10"] {
        assert!(host.status.get(slug).is_none());
    }
    let tail: Vec<&str> = host.log.iter().rev().take(9).rev().map(|s| s.as_str()).collect();
    assert_eq!(
        tail,
        vec![
            "resolve e4 false true",
            "mark e4 error",
            "progress 1/3 yield_curve_10y_2y calculating",
            "resolve yield_curve_10y_2y true false",
            "progress 2/3 hidden_calc calculating",
            "resolve hidden_calc true false",
            "progress 3/3 real_yield calculating",
            "resolve real_yield true false",
            "emit",
        ]
    );
}

#[test]
fn ordinary_failure_is_counted_and_the_run_goes_on() {
    let registry = small_registry();
    let mut host = Host::new();
    host.failures.insert("B".to_string(), "Fetch failed for B (B): timeout".to_string());
    let stale = vec![target("A", "FRED"), target("B", "Binance"), target("C", "Tiingo")];
    let summary = host.run(&registry, true, stale).unwrap();
    assert_eq!(summary.updated, 2);
    assert_eq!(summary.failed, 1);
    assert!(!summary.stopped_early);
    assert_eq!(
        host.log,
        vec![
            "alerts",
            "mark A updating",
            "resolve A false true",
            "mark A success",
            "wait FRED",
            "mark B updating",
            "resolve B false true",
            "mark B error",
            "wait Binance",
            "mark C updating",
            "resolve C false true",
            "mark C success",
            "wait Tiingo",
            "progress 1/3 yield_curve_10y_2y calculating",
            "resolve yield_curve_10y_2y true false",
            "progress 2/3 hidden_calc calculating",
            "resolve hidden_calc true false",
            "progress 3/3 real_yield calculating",
            "resolve real_yield true false",
            "emit",
        ]
    );
}

#[test]
fn missing_credential_skips_the_run() {
    let registry = small_registry();
    let mut host = Host::new();
    let summary = host.run(&registry, false, vec![target("A", "FRED")]).unwrap();
    assert!(summary.skipped);
    assert_eq!(summary.updated, 0);
    assert!(host.log.is_empty());
    assert!(host.status.is_empty());
}

#[test]
fn empty_stale_set_ends_after_the_alerts() {
    let registry = small_registry();
    let mut host = Host::new();
    let summary = host.run(&registry, true, Vec::new()).unwrap();
    assert_eq!(
        summary,
        RunSummary {
            skipped: false,
            stale: 0,
            updated: 0,
            failed: 0,
            stopped_early: false,
            recalculated: 0,
            recalculation_failed: 0,
        }
    );
    assert_eq!(host.log, vec!["alerts"]);
}

#[test]
fn run_rests_after_each_full_batch() {
    let registry = Registry::from_entries(Vec::new());
    let mut host = Host::new();
    let mut stale = vec![target("canary", "FRED")];
    for i in 1..=25 {
        stale.push(target(&format!("e{}", i), "Default"));
    }
    let summary = host.run(&registry, true, stale).unwrap();
    assert_eq!(summary.updated, 26);
    let pauses: Vec<usize> = host
        .log
        .iter()
        .enumerate()
        .filter(|(_, line)| line.as_str() == "pause")
        .map(|(i, _)| i)
        .collect();
    assert_eq!(pauses.len(), 2);
    assert_eq!(host.log[pauses[0] - 1], "wait Default");
    assert_eq!(host.log[pauses[0] - 3], "resolve e10 false true");
    assert_eq!(host.log[pauses[0] + 1], "mark e11 updating");
    assert_eq!(host.log[pauses[1] - 3], "resolve e20 false true");
    assert_eq!(host.log.last().unwrap(), "emit");
}

#[test]
fn run_rests_after_a_last_batch_that_is_full() {
    let registry = Registry::from_entries(Vec::new());
    let mut host = Host::new();
    let mut stale = vec![target("canary", "FRED")];
    for i in 1..=10 {
        stale.push(target(&format!("e{}", i), "Default"));
    }
    host.run(&registry, true, stale).unwrap();
    let tail: Vec<&str> = host.log.iter().rev().take(3).rev().map(|s| s.as_str()).collect();
    assert_eq!(tail, vec!["wait Default", "pause", "emit"]);
}

#[test]
fn failed_recalculation_is_counted_and_does_not_fail_the_run() {
    let registry = small_registry();
    let mut host = Host::new();
    host.failures.insert("real_yield".to_string(), "Calculation failed".to_string());
    let summary = host.run(&registry, true, vec![target("A", "FRED")]).unwrap();
    assert_eq!(summary.recalculated, 2);
    assert_eq!(summary.recalculation_failed, 1);
    assert_eq!(summary.updated, 1);
    assert!(host.log.iter().any(|line| line == "resolve hidden_calc true false"));
}

#[test]
fn quota_markers_are_found_in_messages() {
    assert!(signals_quota("HTTP 403 Forbidden"));
    assert!(signals_quota("status: 429"));
    assert!(signals_quota("Fetch failed for x (X): 400 Bad Request"));
    assert!(signals_quota("API Limit Reached for today"));
    assert!(signals_quota("Fetch failed for series_4030 (S): timeout"));
    assert!(!signals_quota("HTTP 404 Not Found"));
    assert!(!signals_quota("limit reached"));
    assert!(!signals_quota("4 0 3"));
    assert!(!signals_quota(""));
}

#[test]
fn schedule_constants() {
    assert_eq!(cron_schedule(), "0 0 0,6,12,18 * * *");
    assert_eq!(BATCH_SIZE, 10);
    assert_eq!(BATCH_PAUSE_SECS, 1);
    assert_eq!(STARTUP_DELAY_SECS, 5);
    assert_eq!(Stage::Calculating.as_str(), "calculating");
    assert_eq!(Stage::Fetching.as_str(), "fetching");
}

#[test]
fn only_success_sets_the_time_of_the_last_update() {
    assert!(UpdateStatus::Success.sets_last_updated());
    assert!(!UpdateStatus::Updating.sets_last_updated());
    assert!(!UpdateStatus::Error.sets_last_updated());
    assert!(!UpdateStatus::Idle.sets_last_updated());
    assert_eq!(UpdateStatus::Idle.as_str(), "idle");
    assert_eq!(UpdateStatus::Updating.as_str(), "updating");
    assert_eq!(UpdateStatus::Success.as_str(), "success");
    assert_eq!(UpdateStatus::Error.as_str(), "error");
}

#[test]
fn runs_end_within_their_bound() {
    let registry = small_registry();
    let derived = 3;
    for n in [1usize, 2, 10, 11, 12, 21, 35] {
        for failing in [None, Some(n / 2), Some(n - 1)] {
            let mut host = Host::new();
            let stale: Vec<Target> = (0..n).map(|i| target(&format!("s{}", i), "Default")).collect();
            if let Some(i) = failing {
                if i > 0 {
                    host.failures.insert(format!("s{}", i), "timeout".to_string());
                }
            }
            let summary = host.run(&registry, true, stale).unwrap();
            assert!(host.log.len() <= 5 * n + 3 * derived + 5);
            assert_eq!(summary.stale, n);
            assert_eq!(summary.updated + summary.failed, n);
            assert_eq!(summary.recalculated + summary.recalculation_failed, derived);
        }
    }
}

//! Resolving a list of indicators one after the other, with a tally.
//!
//! A [`BatchRun`] is the protocol behind a manual "sync everything": first
//! every listed indicator that a provider delivers, then every listed
//! indicator that is computed. The caller carries out each request and
//! reports whether it succeeded.

use vstd::prelude::*;
use crate::registry::{Category, MetadataView, Registry, SourceType};

verus! {

/// An indicator to resolve, and the provider to pace the requests by.
#[derive(Clone, Debug, PartialEq, Eq)]
pub struct Target {
    pub slug: String,
    pub provider: String,
}

/// The mathematical content of a [`Target`].
pub struct TargetView {
    pub slug: Seq<char>,
    pub provider: Seq<char>,
}

impl DeepView for Target {
    type V = TargetView;

    open spec fn deep_view(&self) -> TargetView {
        TargetView { slug: self.slug@, provider: self.provider@ }
    }
}

impl View for Target {
    type V = TargetView;

    open spec fn view(&self) -> TargetView {
        self.deep_view()
    }
}

/// The state of an indicator's last synchronization.
#[derive(Clone, Copy, Debug, PartialEq, Eq, Structural)]
pub enum UpdateStatus {
    Idle,
    Updating,
    Success,
    Error,
}

impl UpdateStatus {
    /// The name under which the status is stored.
    pub open spec fn text(self) -> Seq<char> {
        match self {
            UpdateStatus::Idle => "idle"@,
            UpdateStatus::Updating => "updating"@,
            UpdateStatus::Success => "success"@,
            UpdateStatus::Error => "error"@,
        }
    }

    /// The name under which the status is stored.
    pub fn as_str(&self) -> (r: &'static str)
        ensures
            r@ == self.text(),
    {
        match self {
            UpdateStatus::Idle => "idle",
            UpdateStatus::Updating => "updating",
            UpdateStatus::Success => "success",
            UpdateStatus::Error => "error",
        }
    }

    /// Whether storing the status also sets the instant of the last update:
    /// only a success does.
    pub fn sets_last_updated(&self) -> (r: bool)
        ensures
            r == (*self == UpdateStatus::Success),
    {
        match self {
            UpdateStatus::Success => true,
            _ => false,
        }
    }
}

/// What a batch is doing with its indicators.
#[derive(Clone, Copy, Debug, PartialEq, Eq, Structural)]
pub enum Stage {
    Fetching,
    Calculating,
}

impl Stage {
    /// The word with which progress is reported.
    pub open spec fn text(self) -> Seq<char> {
        match self {
            Stage::Fetching => "fetching"@,
            Stage::Calculating => "calculating"@,
        }
    }

    /// The word with which progress is reported.
    pub fn as_str(&self) -> (r: &'static str)
        ensures
            r@ == self.text(),
    {
        match self {
            Stage::Fetching => "fetching",
            Stage::Calculating => "calculating",
        }
    }
}

/// The work that a step of a synchronization asks of the caller. The caller
/// reports success or a failure message; only the outcome of `Resolve` is
/// read.
#[derive(Clone, Debug, PartialEq, Eq)]
pub enum SyncRequest {
    /// Check the alerts and send those that are due.
    CheckAlerts,
    /// Store the status of the indicator, with the error message if any.
    MarkStatus { slug: String, status: UpdateStatus, error: Option<String> },
    /// Resolve the indicator to its series.
    Resolve { slug: String, backfill: bool, fetch_deps: bool },
    /// Wait as the policy of the provider asks.
    Wait { provider: String },
    /// Rest for the short fixed time between two batches.
    Pause,
    /// Tell the listeners how far the batch has come.
    ReportProgress { current: usize, total: usize, slug: String, stage: Stage },
    /// Tell the listeners that indicators were updated.
    EmitUpdated,
}

/// The mathematical content of a [`SyncRequest`].
pub enum SyncRequestView {
    CheckAlerts,
    MarkStatus { slug: Seq<char>, status: UpdateStatus, error: Option<Seq<char>> },
    Resolve { slug: Seq<char>, backfill: bool, fetch_deps: bool },
    Wait { provider: Seq<char> },
    Pause,
    ReportProgress { current: usize, total: usize, slug: Seq<char>, stage: Stage },
    EmitUpdated,
}

impl View for SyncRequest {
    type V = SyncRequestView;

    open spec fn view(&self) -> SyncRequestView {
        match self {
            SyncRequest::CheckAlerts => SyncRequestView::CheckAlerts,
            SyncRequest::MarkStatus { slug, status, error } => SyncRequestView::MarkStatus {
                slug: slug@,
                status: *status,
                error: error.deep_view(),
            },
            SyncRequest::Resolve { slug, backfill, fetch_deps } => SyncRequestView::Resolve {
                slug: slug@,
                backfill: *backfill,
                fetch_deps: *fetch_deps,
            },
            SyncRequest::Wait { provider } => SyncRequestView::Wait { provider: provider@ },
            SyncRequest::Pause => SyncRequestView::Pause,
            SyncRequest::ReportProgress {
                current,
                total,
                slug,
                stage,
            } => SyncRequestView::ReportProgress {
                current: *current,
                total: *total,
                slug: slug@,
                stage: *stage,
            },
            SyncRequest::EmitUpdated => SyncRequestView::EmitUpdated,
        }
    }
}

/// The provider by whose policy a manual sync paces the requests for an
/// indicator of the source.
pub open spec fn pacing_key_text(source: SourceType) -> Seq<char> {
    match source {
        SourceType::Fred => "FRED"@,
        SourceType::Tiingo => "Tiingo"@,
        SourceType::Binance => "Binance"@,
        _ => "Default"@,
    }
}

/// The provider by whose policy a manual sync paces the requests for an
/// indicator of the source.
pub fn pacing_key(source: SourceType) -> (r: &'static str)
    ensures
        r@ == pacing_key_text(source),
{
    match source {
        SourceType::Fred => "FRED",
        SourceType::Tiingo => "Tiingo",
        SourceType::Binance => "Binance",
        _ => "Default",
    }
}

/// Whether a stage takes the entry: the fetching stage takes the entries
/// that a provider delivers, the calculating stage those that are computed.
/// With `listed_only`, entries that are not listed are left out.
pub open spec fn in_stage(stage: Stage, listed_only: bool, entry: MetadataView) -> bool {
    (listed_only ==> entry.category != Category::Internal) && match stage {
        Stage::Fetching => entry.source != SourceType::Calculated && entry.source
            != SourceType::Manual,
        Stage::Calculating => entry.source == SourceType::Calculated,
    }
}

/// The indicators of a stage, in catalog order.
pub open spec fn stage_targets(entries: Seq<MetadataView>, stage: Stage, listed_only: bool) -> Seq<
    TargetView,
>
    decreases entries.len(),
{
    if entries.len() == 0 {
        Seq::empty()
    } else {
        let head = stage_targets(entries.drop_last(), stage, listed_only);
        let entry = entries.last();
        if in_stage(stage, listed_only, entry) {
            head.push(TargetView { slug: entry.slug, provider: pacing_key_text(entry.source) })
        } else {
            head
        }
    }
}

/// The indicators of a stage, in catalog order.
pub fn targets_of(registry: &Registry, stage: Stage, listed_only: bool) -> (r: Vec<Target>)
    ensures
        r.deep_view() == stage_targets(registry@, stage, listed_only),
{
    let entries = registry.get_all_indicators();
    let mut r: Vec<Target> = Vec::new();
    let mut i: usize = 0;
    while i < entries.len()
        invariant
            i <= entries.len(),
            entries.deep_view() == registry@,
            r.deep_view() == stage_targets(registry@.subrange(0, i as int), stage, listed_only),
        decreases entries.len() - i,
    {
        let entry = &entries[i];
        proof {
            assert(registry@.subrange(0, i + 1).drop_last() =~= registry@.subrange(0, i as int));
            assert(registry@.subrange(0, i + 1).last() == entry@);
        }
        let listed = !listed_only || entry.category != Category::Internal;
        let wanted = match stage {
            Stage::Fetching => entry.source != SourceType::Calculated && entry.source
                != SourceType::Manual,
            Stage::Calculating => entry.source == SourceType::Calculated,
        };
        if listed && wanted {
            let ghost before = r.deep_view();
            let target = Target {
                slug: entry.slug.clone(),
                provider: pacing_key(entry.source).to_owned(),
            };
            r.push(target);
            assert(r.deep_view() =~= before.push(target@));
        }
        i += 1;
    }
    assert(registry@.subrange(0, i as int) =~= registry@);
    r
}

/// What a batch waits for.
#[derive(Clone, Copy, Debug, PartialEq, Eq, Structural)]
pub enum BatchPhase {
    Reporting,
    Waiting,
    Resolving,
}

/// The state of a batch between two requests.
pub struct BatchRun {
    items: Vec<Target>,
    stage: Stage,
    index: usize,
    success: usize,
    failed: usize,
    phase: BatchPhase,
}

/// The mathematical content of a [`BatchRun`]: the indicators of the batch,
/// the position of the one in work, the tally so far, and the request that
/// is under way.
pub struct BatchRunView {
    pub items: Seq<TargetView>,
    pub stage: Stage,
    pub index: usize,
    pub success: usize,
    pub failed: usize,
    pub phase: BatchPhase,
}

/// What a step of a batch gives: a request to carry out, with the state to
/// resume from, or the tally of successes and failures.
pub enum BatchStep {
    Act(BatchRun, SyncRequest),
    Done(usize, usize),
}

/// The mathematical content of a [`BatchStep`].
pub enum BatchStepView {
    Act(BatchRunView, SyncRequestView),
    Done(usize, usize),
}

impl BatchRunView {
    /// The validity of a state: the indicator in work exists, and the tally
    /// counts the indicators before it.
    pub open spec fn wf(self) -> bool {
        &&& self.index < self.items.len()
        &&& self.items.len() <= usize::MAX
        &&& self.success + self.failed == self.index
    }

    /// Takes up the indicator at `index`, or ends the batch after the last.
    pub open spec fn begin(self, index: usize) -> BatchStepView {
        if index < self.items.len() {
            BatchStepView::Act(
                BatchRunView { index, phase: BatchPhase::Reporting, ..self },
                SyncRequestView::ReportProgress {
                    current: (index + 1) as usize,
                    total: self.items.len() as usize,
                    slug: self.items[index as int].slug,
                    stage: self.stage,
                },
            )
        } else {
            BatchStepView::Done(self.success, self.failed)
        }
    }

    /// The step that follows the outcome of the request under way. Each
    /// indicator is announced and then resolved with the whole history; a
    /// fetching batch waits for the provider in between and resolves
    /// dependencies, a calculating batch reads them from the store. A
    /// failure is counted, and the batch goes on.
    pub open spec fn resume(self, succeeded: bool) -> BatchStepView {
        let item = self.items[self.index as int];
        match self.phase {
            BatchPhase::Reporting => match self.stage {
                Stage::Fetching => BatchStepView::Act(
                    BatchRunView { phase: BatchPhase::Waiting, ..self },
                    SyncRequestView::Wait { provider: item.provider },
                ),
                Stage::Calculating => BatchStepView::Act(
                    BatchRunView { phase: BatchPhase::Resolving, ..self },
                    SyncRequestView::Resolve { slug: item.slug, backfill: true, fetch_deps: false },
                ),
            },
            BatchPhase::Waiting => BatchStepView::Act(
                BatchRunView { phase: BatchPhase::Resolving, ..self },
                SyncRequestView::Resolve { slug: item.slug, backfill: true, fetch_deps: true },
            ),
            BatchPhase::Resolving => if succeeded {
                BatchRunView { success: (self.success + 1) as usize, ..self }.begin(
                    (self.index + 1) as usize,
                )
            } else {
                BatchRunView { failed: (self.failed + 1) as usize, ..self }.begin(
                    (self.index + 1) as usize,
                )
            },
        }
    }
}

/// The first step of a batch over the given indicators.
pub open spec fn batch_start_of(items: Seq<TargetView>, stage: Stage) -> BatchStepView {
    BatchRunView {
        items,
        stage,
        index: 0,
        success: 0,
        failed: 0,
        phase: BatchPhase::Reporting,
    }.begin(0)
}

/// A batch counts every indicator once: from a valid state the next state
/// is valid, and the tally at the end sums to the number of indicators.
pub proof fn lemma_batch_tally(state: BatchRunView, succeeded: bool)
    requires
        state.wf(),
    ensures
        match state.resume(succeeded) {
            BatchStepView::Act(next, _) => next.wf() && next.items == state.items,
            BatchStepView::Done(success, failed) => success + failed == state.items.len(),
        },
{
}

/// A bound on the outcomes that a batch can still take before it ends:
/// three for each indicator that is not done, less what the indicator in
/// work has behind it.
pub open spec fn batch_effort(state: BatchRunView) -> int {
    3 * (state.items.len() - state.index) - match state.phase {
        BatchPhase::Reporting => 0int,
        BatchPhase::Waiting => 1int,
        BatchPhase::Resolving => 2int,
    }
}

/// Every outcome brings a batch nearer to its end.
pub proof fn lemma_batch_makes_progress(state: BatchRunView, succeeded: bool)
    requires
        state.wf(),
    ensures
        batch_effort(state) >= 1,
        state.resume(succeeded) matches BatchStepView::Act(next, _) ==> batch_effort(next)
            < batch_effort(state),
{
}

impl View for BatchRun {
    type V = BatchRunView;

    closed spec fn view(&self) -> BatchRunView {
        BatchRunView {
            items: self.items.deep_view(),
            stage: self.stage,
            index: self.index,
            success: self.success,
            failed: self.failed,
            phase: self.phase,
        }
    }
}

impl View for BatchStep {
    type V = BatchStepView;

    open spec fn view(&self) -> BatchStepView {
        match self {
            BatchStep::Act(run, request) => BatchStepView::Act(run@, request@),
            BatchStep::Done(success, failed) => BatchStepView::Done(*success, *failed),
        }
    }
}

impl BatchRun {
    #[verifier::type_invariant]
    closed spec fn valid(self) -> bool {
        self@.wf()
    }

    /// Takes up the indicator at `index`, or ends the batch after the last.
    fn begin(items: Vec<Target>, stage: Stage, index: usize, success: usize, failed: usize) -> (step:
        BatchStep)
        requires
            index <= items.len(),
            success + failed == index,
        ensures
            step@ == (BatchRunView {
                items: items.deep_view(),
                stage,
                index: 0,
                success,
                failed,
                phase: BatchPhase::Reporting,
            }).begin(index),
            step matches BatchStep::Act(run, _) ==> run@.wf(),
    {
        if index < items.len() {
            let request = SyncRequest::ReportProgress {
                current: index + 1,
                total: items.len(),
                slug: items[index].slug.clone(),
                stage,
            };
            let run = BatchRun { items, stage, index, success, failed, phase: BatchPhase::Reporting };
            BatchStep::Act(run, request)
        } else {
            BatchStep::Done(success, failed)
        }
    }

    /// The first step of a batch over the given indicators.
    pub fn start(items: Vec<Target>, stage: Stage) -> (step: BatchStep)
        ensures
            step@ == batch_start_of(items.deep_view(), stage),
            step matches BatchStep::Act(run, _) ==> run@.wf(),
    {
        BatchRun::begin(items, stage, 0, 0, 0)
    }

    /// The step that follows the outcome of the request that the last step
    /// made.
    pub fn resume(self, succeeded: bool) -> (step: BatchStep)
        ensures
            step@ == self@.resume(succeeded),
            step matches BatchStep::Act(run, _) ==> run@.wf(),
    {
        proof {
            use_type_invariant(&self);
        }
        let BatchRun { items, stage, index, success, failed, phase } = self;
        match phase {
            BatchPhase::Reporting => match stage {
                Stage::Fetching => {
                    let request = SyncRequest::Wait { provider: items[index].provider.clone() };
                    BatchStep::Act(
                        BatchRun { items, stage, index, success, failed, phase: BatchPhase::Waiting },
                        request,
                    )
                },
                Stage::Calculating => {
                    let request = SyncRequest::Resolve {
                        slug: items[index].slug.clone(),
                        backfill: true,
                        fetch_deps: false,
                    };
                    BatchStep::Act(
                        BatchRun {
                            items,
                            stage,
                            index,
                            success,
                            failed,
                            phase: BatchPhase::Resolving,
                        },
                        request,
                    )
                },
            },
            BatchPhase::Waiting => {
                let request = SyncRequest::Resolve {
                    slug: items[index].slug.clone(),
                    backfill: true,
                    fetch_deps: true,
                };
                BatchStep::Act(
                    BatchRun { items, stage, index, success, failed, phase: BatchPhase::Resolving },
                    request,
                )
            },
            BatchPhase::Resolving => if succeeded {
                BatchRun::begin(items, stage, index + 1, success + 1, failed)
            } else {
                BatchRun::begin(items, stage, index + 1, success, failed + 1)
            },
        }
    }
}

/// The first stage of a manual sync: every listed indicator that a provider
/// delivers is fetched with its whole history, after the wait that its
/// provider asks for.
pub fn batch_sync_base_indicators(registry: &Registry) -> (step: BatchStep)
    ensures
        step@ == batch_start_of(stage_targets(registry@, Stage::Fetching, true), Stage::Fetching),
{
    BatchRun::start(targets_of(registry, Stage::Fetching, true), Stage::Fetching)
}

/// The second stage of a manual sync: every listed indicator that is
/// computed is computed anew from the stored series of its inputs.
pub fn batch_calculate_derived_indicators(registry: &Registry) -> (step: BatchStep)
    ensures
        step@ == batch_start_of(
            stage_targets(registry@, Stage::Calculating, true),
            Stage::Calculating,
        ),
{
    BatchRun::start(targets_of(registry, Stage::Calculating, true), Stage::Calculating)
}

} // verus!

//! The periodic reconciliation of all indicators.
//!
//! A [`SyncRun`] decides the order of a run: the alerts, then the first
//! stale indicator as a probe of the providers' health, then the other stale
//! indicators in batches, then every computed indicator once more from the
//! stored series. The caller carries out each request and reports whether
//! it succeeded.

use vstd::prelude::*;
use crate::batch::{
    batch_effort,
    batch_start_of,
    lemma_batch_makes_progress,
    lemma_batch_tally,
    stage_targets,
    BatchPhase,
    targets_of,
    BatchRun,
    BatchRunView,
    BatchStep,
    BatchStepView,
    Stage,
    SyncRequest,
    SyncRequestView,
    Target,
    TargetView,
    UpdateStatus,
};
use crate::registry::Registry;
use crate::text::{contains, contains_text};

verus! {

/// How many stale indicators make a batch.
pub const BATCH_SIZE: usize = 10;

/// The seconds to rest between two batches.
pub const BATCH_PAUSE_SECS: u64 = 1;

/// The seconds to let the host settle before the run at startup.
pub const STARTUP_DELAY_SECS: u64 = 5;

/// The times of the scheduled runs, four a day, as a cron expression with a
/// field for seconds.
pub fn cron_schedule() -> (r: &'static str)
    ensures
        r@ == "0 0 0,6,12,18 * * *"@,
{
    "0 0 0,6,12,18 * * *"
}

/// Whether a failure message tells of a quota, a refusal or a bad request
/// at the provider: it holds `403`, `429`, `400` or `Limit Reached`.
pub open spec fn is_quota_message(message: Seq<char>) -> bool {
    contains_text(message, "403"@) || contains_text(message, "429"@) || contains_text(
        message,
        "400"@,
    ) || contains_text(message, "Limit Reached"@)
}

/// Whether a failure message tells of a quota, a refusal or a bad request
/// at the provider.
pub fn signals_quota(message: &str) -> (r: bool)
    ensures
        r == is_quota_message(message@),
{
    contains(message, "403") || contains(message, "429") || contains(message, "400") || contains(
        message,
        "Limit Reached",
    )
}

/// What a run did.
#[derive(Clone, Copy, Debug, PartialEq, Eq, Structural)]
pub struct RunSummary {
    /// The run did nothing, for want of the provider credential.
    pub skipped: bool,
    /// How many indicators were stale.
    pub stale: usize,
    /// How many of them were updated.
    pub updated: usize,
    /// How many of them failed.
    pub failed: usize,
    /// The batches were stopped by a failure that tells of a quota.
    pub stopped_early: bool,
    /// How many computed indicators were computed anew.
    pub recalculated: usize,
    /// How many computed indicators failed to compute.
    pub recalculation_failed: usize,
}

/// Why a run was given up.
#[derive(Clone, Debug, PartialEq, Eq)]
pub enum SyncError {
    /// The first stale indicator could not be resolved.
    CanaryFailed { slug: String, message: String },
}

/// The mathematical content of a [`SyncError`].
pub enum SyncErrorView {
    CanaryFailed { slug: Seq<char>, message: Seq<char> },
}

impl View for SyncError {
    type V = SyncErrorView;

    open spec fn view(&self) -> SyncErrorView {
        match self {
            SyncError::CanaryFailed { slug, message } => SyncErrorView::CanaryFailed {
                slug: slug@,
                message: message@,
            },
        }
    }
}

impl SyncError {
    /// The message of the error.
    pub fn message(&self) -> (r: &'static str)
        ensures
            r@ == "Canary probe failed."@,
    {
        "Canary probe failed."
    }
}

/// What a run waits for.
enum SyncPhase {
    Alerts,
    MarkingUpdating,
    Resolving,
    MarkingSuccess,
    MarkingError { quota: bool, message: String },
    Waiting,
    Pausing,
    Recalculating { batch: BatchRun },
    Emitting { recalculated: usize, recalculation_failed: usize },
}

/// The mathematical content of what a run waits for.
pub enum SyncPhaseView {
    /// The alerts are being checked.
    Alerts,
    /// The indicator in work is being marked as updating.
    MarkingUpdating,
    /// The indicator in work is being resolved.
    Resolving,
    /// The indicator in work is being marked as updated.
    MarkingSuccess,
    /// The indicator in work is being marked as failed, with the message.
    MarkingError { quota: bool, message: Seq<char> },
    /// The wait after the indicator in work.
    Waiting,
    /// The rest after a full batch.
    Pausing,
    /// The computed indicators are being computed anew.
    Recalculating { batch: BatchRunView },
    /// The listeners are being told of the update.
    Emitting { recalculated: usize, recalculation_failed: usize },
}

impl View for SyncPhase {
    type V = SyncPhaseView;

    closed spec fn view(&self) -> SyncPhaseView {
        match self {
            SyncPhase::Alerts => SyncPhaseView::Alerts,
            SyncPhase::MarkingUpdating => SyncPhaseView::MarkingUpdating,
            SyncPhase::Resolving => SyncPhaseView::Resolving,
            SyncPhase::MarkingSuccess => SyncPhaseView::MarkingSuccess,
            SyncPhase::MarkingError { quota, message } => SyncPhaseView::MarkingError {
                quota: *quota,
                message: message@,
            },
            SyncPhase::Waiting => SyncPhaseView::Waiting,
            SyncPhase::Pausing => SyncPhaseView::Pausing,
            SyncPhase::Recalculating { batch } => SyncPhaseView::Recalculating { batch: batch@ },
            SyncPhase::Emitting { recalculated, recalculation_failed } => SyncPhaseView::Emitting {
                recalculated: *recalculated,
                recalculation_failed: *recalculation_failed,
            },
        }
    }
}

/// The state of a run between two requests.
pub struct SyncRun {
    stale: Vec<Target>,
    derived: Vec<Target>,
    index: usize,
    updated: usize,
    failed: usize,
    stopped_early: bool,
    phase: SyncPhase,
}

/// The mathematical content of a [`SyncRun`]: the stale indicators, the
/// first of them being the probe; the computed indicators that are still to
/// be computed anew; the position of the stale indicator in work; the tally;
/// and the request that is under way.
pub struct SyncRunView {
    pub stale: Seq<TargetView>,
    pub derived: Seq<TargetView>,
    pub index: usize,
    pub updated: usize,
    pub failed: usize,
    pub stopped_early: bool,
    pub phase: SyncPhaseView,
}

/// What a step of a run gives: a request to carry out, with the state to
/// resume from, or the end of the run.
pub enum SyncStep {
    Act(SyncRun, SyncRequest),
    Done(Result<RunSummary, SyncError>),
}

/// The mathematical content of a [`SyncStep`].
pub enum SyncStepView {
    Act(SyncRunView, SyncRequestView),
    Done(Result<RunSummary, SyncErrorView>),
}

/// The outcome of a request, as the caller reports it.
pub open spec fn report_view(outcome: Result<(), String>) -> Result<(), Seq<char>> {
    match outcome {
        Ok(_) => Ok(()),
        Err(message) => Err(message@),
    }
}

impl SyncRunView {
    /// The validity of a state: the stale indicator in work exists, and the
    /// tally counts the stale indicators that were resolved.
    pub open spec fn wf(self) -> bool {
        &&& self.stale.len() <= usize::MAX
        &&& self.derived.len() <= usize::MAX
        &&& match self.phase {
            SyncPhaseView::Alerts => self.index == 0 && self.updated == 0 && self.failed == 0,
            SyncPhaseView::MarkingUpdating | SyncPhaseView::Resolving => self.index
                < self.stale.len() && self.updated + self.failed == self.index,
            SyncPhaseView::MarkingSuccess | SyncPhaseView::MarkingError { .. }
            | SyncPhaseView::Waiting | SyncPhaseView::Pausing => self.index < self.stale.len()
                && self.updated + self.failed == self.index + 1,
            SyncPhaseView::Recalculating { batch } => batch.wf() && self.settled(),
            SyncPhaseView::Emitting { .. } => self.settled(),
        }
    }

    /// Whether the tally of the stale indicators is closed: it counts no
    /// more indicators than were stale, and all of them unless the batches
    /// were stopped early.
    pub open spec fn settled(self) -> bool {
        &&& self.updated + self.failed <= self.stale.len()
        &&& !self.stopped_early ==> self.updated + self.failed == self.stale.len()
    }

    /// What the run did, with the tally of the last phase.
    pub open spec fn summary(self, recalculated: usize, recalculation_failed: usize) -> RunSummary {
        RunSummary {
            skipped: false,
            stale: self.stale.len() as usize,
            updated: self.updated,
            failed: self.failed,
            stopped_early: self.stopped_early,
            recalculated,
            recalculation_failed,
        }
    }

    /// Takes up the stale indicator at `index`: it is marked as updating.
    pub open spec fn take_up(self, index: usize) -> SyncStepView {
        SyncStepView::Act(
            SyncRunView { index, phase: SyncPhaseView::MarkingUpdating, ..self },
            SyncRequestView::MarkStatus {
                slug: self.stale[index as int].slug,
                status: UpdateStatus::Updating,
                error: None,
            },
        )
    }

    /// Ends the run: the listeners are told if anything was updated.
    pub open spec fn conclude(self, recalculated: usize, recalculation_failed: usize) -> SyncStepView {
        if self.updated > 0 {
            SyncStepView::Act(
                SyncRunView {
                    phase: SyncPhaseView::Emitting { recalculated, recalculation_failed },
                    ..self
                },
                SyncRequestView::EmitUpdated,
            )
        } else {
            SyncStepView::Done(Ok(self.summary(recalculated, recalculation_failed)))
        }
    }

    /// Goes on as the batch of computed indicators says.
    pub open spec fn follow(self, step: BatchStepView) -> SyncStepView {
        match step {
            BatchStepView::Act(batch, request) => SyncStepView::Act(
                SyncRunView { phase: SyncPhaseView::Recalculating { batch }, ..self },
                request,
            ),
            BatchStepView::Done(recalculated, recalculation_failed) => self.conclude(
                recalculated,
                recalculation_failed,
            ),
        }
    }

    /// Leaves the stale indicators and computes the computed ones anew.
    pub open spec fn recalculate(self) -> SyncStepView {
        SyncRunView { derived: Seq::empty(), ..self }.follow(
            batch_start_of(self.derived, Stage::Calculating),
        )
    }

    /// Takes up the next stale indicator, or leaves them after the last.
    pub open spec fn next_entry(self) -> SyncStepView {
        if self.index + 1 < self.stale.len() {
            self.take_up((self.index + 1) as usize)
        } else {
            self.recalculate()
        }
    }

    /// The step that follows the outcome of the request under way.
    ///
    /// After the alerts, a run without stale indicators ends. Each stale
    /// indicator is marked as updating, resolved without backfill and with
    /// its dependencies, and marked with the outcome. A failure of the first
    /// one ends the run with an error. A later failure is counted; if its
    /// message tells of a quota, the stale indicators are left at once, else
    /// the run waits as after a success and goes on. After every tenth
    /// indicator behind the first, the run rests. The computed indicators
    /// follow, and at last the word to the listeners.
    pub open spec fn resume(self, outcome: Result<(), Seq<char>>) -> SyncStepView {
        let item = self.stale[self.index as int];
        match self.phase {
            SyncPhaseView::Alerts => if self.stale.len() == 0 {
                SyncStepView::Done(Ok(self.summary(0, 0)))
            } else {
                self.take_up(0)
            },
            SyncPhaseView::MarkingUpdating => SyncStepView::Act(
                SyncRunView { phase: SyncPhaseView::Resolving, ..self },
                SyncRequestView::Resolve { slug: item.slug, backfill: false, fetch_deps: true },
            ),
            SyncPhaseView::Resolving => match outcome {
                Ok(_) => SyncStepView::Act(
                    SyncRunView {
                        updated: (self.updated + 1) as usize,
                        phase: SyncPhaseView::MarkingSuccess,
                        ..self
                    },
                    SyncRequestView::MarkStatus {
                        slug: item.slug,
                        status: UpdateStatus::Success,
                        error: None,
                    },
                ),
                Err(message) => SyncStepView::Act(
                    SyncRunView {
                        failed: (self.failed + 1) as usize,
                        phase: SyncPhaseView::MarkingError {
                            quota: is_quota_message(message),
                            message,
                        },
                        ..self
                    },
                    SyncRequestView::MarkStatus {
                        slug: item.slug,
                        status: UpdateStatus::Error,
                        error: Some(message),
                    },
                ),
            },
            SyncPhaseView::MarkingSuccess => SyncStepView::Act(
                SyncRunView { phase: SyncPhaseView::Waiting, ..self },
                SyncRequestView::Wait { provider: item.provider },
            ),
            SyncPhaseView::MarkingError { quota, message } => if self.index == 0 {
                SyncStepView::Done(Err(SyncErrorView::CanaryFailed { slug: item.slug, message }))
            } else if quota {
                SyncRunView { stopped_early: true, ..self }.recalculate()
            } else {
                SyncStepView::Act(
                    SyncRunView { phase: SyncPhaseView::Waiting, ..self },
                    SyncRequestView::Wait { provider: item.provider },
                )
            },
            SyncPhaseView::Waiting => if self.index > 0 && self.index % BATCH_SIZE == 0 {
                SyncStepView::Act(
                    SyncRunView { phase: SyncPhaseView::Pausing, ..self },
                    SyncRequestView::Pause,
                )
            } else {
                self.next_entry()
            },
            SyncPhaseView::Pausing => self.next_entry(),
            SyncPhaseView::Recalculating { batch } => self.follow(batch.resume(outcome is Ok)),
            SyncPhaseView::Emitting { recalculated, recalculation_failed } => SyncStepView::Done(
                Ok(self.summary(recalculated, recalculation_failed)),
            ),
        }
    }
}

/// The first step of a run. Without the provider credential the run does
/// nothing and is no failure. Else the alerts are checked first, whatever
/// is stale.
pub open spec fn sync_start_of(
    has_credential: bool,
    stale: Seq<TargetView>,
    derived: Seq<TargetView>,
) -> SyncStepView {
    if !has_credential {
        SyncStepView::Done(
            Ok(
                RunSummary {
                    skipped: true,
                    stale: 0,
                    updated: 0,
                    failed: 0,
                    stopped_early: false,
                    recalculated: 0,
                    recalculation_failed: 0,
                },
            ),
        )
    } else {
        SyncStepView::Act(
            SyncRunView {
                stale,
                derived,
                index: 0,
                updated: 0,
                failed: 0,
                stopped_early: false,
                phase: SyncPhaseView::Alerts,
            },
            SyncRequestView::CheckAlerts,
        )
    }
}

impl View for SyncRun {
    type V = SyncRunView;

    closed spec fn view(&self) -> SyncRunView {
        SyncRunView {
            stale: self.stale.deep_view(),
            derived: self.derived.deep_view(),
            index: self.index,
            updated: self.updated,
            failed: self.failed,
            stopped_early: self.stopped_early,
            phase: self.phase@,
        }
    }
}

impl View for SyncStep {
    type V = SyncStepView;

    open spec fn view(&self) -> SyncStepView {
        match self {
            SyncStep::Act(run, request) => SyncStepView::Act(run@, request@),
            SyncStep::Done(Ok(summary)) => SyncStepView::Done(Ok(*summary)),
            SyncStep::Done(Err(error)) => SyncStepView::Done(Err(error@)),
        }
    }
}

impl SyncRun {
    #[verifier::type_invariant]
    closed spec fn valid(self) -> bool {
        self@.wf()
    }

    /// Takes up the stale indicator at `index`.
    fn take_up(
        stale: Vec<Target>,
        derived: Vec<Target>,
        index: usize,
        updated: usize,
        failed: usize,
        stopped_early: bool,
    ) -> (step: SyncStep)
        requires
            index < stale.len(),
            updated + failed == index,
        ensures
            step@ == (SyncRunView {
                stale: stale.deep_view(),
                derived: derived.deep_view(),
                index: 0,
                updated,
                failed,
                stopped_early,
                phase: SyncPhaseView::Alerts,
            }).take_up(index),
            step matches SyncStep::Act(run, _) && run@.wf(),
    {
        let request = SyncRequest::MarkStatus {
            slug: stale[index].slug.clone(),
            status: UpdateStatus::Updating,
            error: None,
        };
        assert(stale.deep_view().len() == stale.len());
        assert(derived.deep_view().len() == derived.len());
        SyncStep::Act(
            SyncRun {
                stale,
                derived,
                index,
                updated,
                failed,
                stopped_early,
                phase: SyncPhase::MarkingUpdating,
            },
            request,
        )
    }

    /// Leaves the stale indicators and computes the computed ones anew.
    fn recalculate(
        stale: Vec<Target>,
        derived: Vec<Target>,
        index: usize,
        updated: usize,
        failed: usize,
        stopped_early: bool,
    ) -> (step: SyncStep)
        requires
            updated + failed <= stale.len(),
            !stopped_early ==> updated + failed == stale.len(),
        ensures
            step@ == (SyncRunView {
                stale: stale.deep_view(),
                derived: derived.deep_view(),
                index,
                updated,
                failed,
                stopped_early,
                phase: SyncPhaseView::Alerts,
            }).recalculate(),
            step matches SyncStep::Act(run, _) ==> run@.wf(),
    {
        let quiet = SyncRun::rest(stale, index, updated, failed, stopped_early);
        quiet.follow(BatchRun::start(derived, Stage::Calculating))
    }

    /// The state in which only the word to the listeners is left.
    fn rest(stale: Vec<Target>, index: usize, updated: usize, failed: usize, stopped_early: bool) -> (run:
        SyncRun)
        requires
            updated + failed <= stale.len(),
            !stopped_early ==> updated + failed == stale.len(),
        ensures
            run@ == (SyncRunView {
                stale: stale.deep_view(),
                derived: Seq::empty(),
                index,
                updated,
                failed,
                stopped_early,
                phase: SyncPhaseView::Emitting { recalculated: 0, recalculation_failed: 0 },
            }),
    {
        let derived: Vec<Target> = Vec::new();
        assert(derived.deep_view() =~= Seq::<TargetView>::empty());
        assert(stale.deep_view().len() == stale.len());
        assert(derived.deep_view().len() == derived.len());
        SyncRun {
            stale,
            derived,
            index,
            updated,
            failed,
            stopped_early,
            phase: SyncPhase::Emitting { recalculated: 0, recalculation_failed: 0 },
        }
    }

    /// Goes on as the batch of computed indicators says.
    fn follow(self, step: BatchStep) -> (next: SyncStep)
        requires
            step matches BatchStep::Act(batch, _) ==> batch@.wf(),
            self@.settled(),
        ensures
            next@ == self@.follow(step@),
            next matches SyncStep::Act(run, _) ==> run@.wf(),
    {
        let SyncRun { stale, derived, index, updated, failed, stopped_early, phase } = self;
        assert(stale.deep_view().len() == stale.len());
        assert(derived.deep_view().len() == derived.len());
        match step {
            BatchStep::Act(batch, request) => SyncStep::Act(
                SyncRun {
                    stale,
                    derived,
                    index,
                    updated,
                    failed,
                    stopped_early,
                    phase: SyncPhase::Recalculating { batch },
                },
                request,
            ),
            BatchStep::Done(recalculated, recalculation_failed) => {
                if updated > 0 {
                    SyncStep::Act(
                        SyncRun {
                            stale,
                            derived,
                            index,
                            updated,
                            failed,
                            stopped_early,
                            phase: SyncPhase::Emitting { recalculated, recalculation_failed },
                        },
                        SyncRequest::EmitUpdated,
                    )
                } else {
                    SyncStep::Done(
                        Ok(
                            RunSummary {
                                skipped: false,
                                stale: stale.len(),
                                updated,
                                failed,
                                stopped_early,
                                recalculated,
                                recalculation_failed,
                            },
                        ),
                    )
                }
            },
        }
    }

    /// Takes up the next stale indicator, or leaves them after the last.
    fn next_entry(
        stale: Vec<Target>,
        derived: Vec<Target>,
        index: usize,
        updated: usize,
        failed: usize,
        stopped_early: bool,
    ) -> (step: SyncStep)
        requires
            index < stale.len(),
            updated + failed == index + 1,
        ensures
            step@ == (SyncRunView {
                stale: stale.deep_view(),
                derived: derived.deep_view(),
                index,
                updated,
                failed,
                stopped_early,
                phase: SyncPhaseView::Alerts,
            }).next_entry(),
            step matches SyncStep::Act(run, _) ==> run@.wf(),
    {
        if index + 1 < stale.len() {
            SyncRun::take_up(stale, derived, index + 1, updated, failed, stopped_early)
        } else {
            SyncRun::recalculate(stale, derived, index, updated, failed, stopped_early)
        }
    }

    /// The first step of a run over the stale indicators, the first of
    /// which is the probe. `has_credential` says whether the credential of
    /// the primary provider is at hand. The indicators to compute anew at
    /// the end are all computed indicators of the catalog, listed or not.
    pub fn start(registry: &Registry, has_credential: bool, stale: Vec<Target>) -> (step: SyncStep)
        ensures
            step@ == sync_start_of(
                has_credential,
                stale.deep_view(),
                stage_targets(registry@, Stage::Calculating, false),
            ),
            step matches SyncStep::Act(run, _) ==> run@.wf(),
    {
        if !has_credential {
            return SyncStep::Done(
                Ok(
                    RunSummary {
                        skipped: true,
                        stale: 0,
                        updated: 0,
                        failed: 0,
                        stopped_early: false,
                        recalculated: 0,
                        recalculation_failed: 0,
                    },
                ),
            );
        }
        let derived = targets_of(registry, Stage::Calculating, false);
        assert(stale.deep_view().len() == stale.len());
        assert(derived.deep_view().len() == derived.len());
        SyncStep::Act(
            SyncRun {
                stale,
                derived,
                index: 0,
                updated: 0,
                failed: 0,
                stopped_early: false,
                phase: SyncPhase::Alerts,
            },
            SyncRequest::CheckAlerts,
        )
    }

    /// The step that follows the outcome of the request that the last step
    /// made.
    pub fn resume(self, outcome: Result<(), String>) -> (step: SyncStep)
        ensures
            step@ == self@.resume(report_view(outcome)),
            step matches SyncStep::Act(run, _) ==> run@.wf(),
    {
        proof {
            use_type_invariant(&self);
        }
        let SyncRun { stale, derived, index, updated, failed, stopped_early, phase } = self;
        assert(stale.deep_view().len() == stale.len());
        assert(derived.deep_view().len() == derived.len());
        match phase {
            SyncPhase::Alerts => {
                if stale.len() == 0 {
                    SyncStep::Done(
                        Ok(
                            RunSummary {
                                skipped: false,
                                stale: 0,
                                updated,
                                failed,
                                stopped_early,
                                recalculated: 0,
                                recalculation_failed: 0,
                            },
                        ),
                    )
                } else {
                    SyncRun::take_up(stale, derived, 0, updated, failed, stopped_early)
                }
            },
            SyncPhase::MarkingUpdating => {
                let request = SyncRequest::Resolve {
                    slug: stale[index].slug.clone(),
                    backfill: false,
                    fetch_deps: true,
                };
                SyncStep::Act(
                    SyncRun {
                        stale,
                        derived,
                        index,
                        updated,
                        failed,
                        stopped_early,
                        phase: SyncPhase::Resolving,
                    },
                    request,
                )
            },
            SyncPhase::Resolving => match outcome {
                Ok(_) => {
                    let request = SyncRequest::MarkStatus {
                        slug: stale[index].slug.clone(),
                        status: UpdateStatus::Success,
                        error: None,
                    };
                    SyncStep::Act(
                        SyncRun {
                            stale,
                            derived,
                            index,
                            updated: updated + 1,
                            failed,
                            stopped_early,
                            phase: SyncPhase::MarkingSuccess,
                        },
                        request,
                    )
                },
                Err(message) => {
                    let request = SyncRequest::MarkStatus {
                        slug: stale[index].slug.clone(),
                        status: UpdateStatus::Error,
                        error: Some(message.clone()),
                    };
                    let quota = signals_quota(message.as_str());
                    SyncStep::Act(
                        SyncRun {
                            stale,
                            derived,
                            index,
                            updated,
                            failed: failed + 1,
                            stopped_early,
                            phase: SyncPhase::MarkingError { quota, message },
                        },
                        request,
                    )
                },
            },
            SyncPhase::MarkingSuccess => {
                let request = SyncRequest::Wait { provider: stale[index].provider.clone() };
                SyncStep::Act(
                    SyncRun {
                        stale,
                        derived,
                        index,
                        updated,
                        failed,
                        stopped_early,
                        phase: SyncPhase::Waiting,
                    },
                    request,
                )
            },
            SyncPhase::MarkingError { quota, message } => {
                if index == 0 {
                    SyncStep::Done(
                        Err(SyncError::CanaryFailed { slug: stale[index].slug.clone(), message }),
                    )
                } else if quota {
                    SyncRun::recalculate(stale, derived, index, updated, failed, true)
                } else {
                    let request = SyncRequest::Wait { provider: stale[index].provider.clone() };
                    SyncStep::Act(
                        SyncRun {
                            stale,
                            derived,
                            index,
                            updated,
                            failed,
                            stopped_early,
                            phase: SyncPhase::Waiting,
                        },
                        request,
                    )
                }
            },
            SyncPhase::Waiting => {
                if index > 0 && index % BATCH_SIZE == 0 {
                    SyncStep::Act(
                        SyncRun {
                            stale,
                            derived,
                            index,
                            updated,
                            failed,
                            stopped_early,
                            phase: SyncPhase::Pausing,
                        },
                        SyncRequest::Pause,
                    )
                } else {
                    SyncRun::next_entry(stale, derived, index, updated, failed, stopped_early)
                }
            },
            SyncPhase::Pausing => SyncRun::next_entry(
                stale,
                derived,
                index,
                updated,
                failed,
                stopped_early,
            ),
            SyncPhase::Recalculating { batch } => {
                let step = batch.resume(outcome.is_ok());
                assert(stale.deep_view().len() == stale.len());
        assert(derived.deep_view().len() == derived.len());
                let quiet = SyncRun {
                    stale,
                    derived,
                    index,
                    updated,
                    failed,
                    stopped_early,
                    phase: SyncPhase::Emitting { recalculated: 0, recalculation_failed: 0 },
                };
                quiet.follow(step)
            },
            SyncPhase::Emitting { recalculated, recalculation_failed } => SyncStep::Done(
                Ok(
                    RunSummary {
                        skipped: false,
                        stale: stale.len(),
                        updated,
                        failed,
                        stopped_early,
                        recalculated,
                        recalculation_failed,
                    },
                ),
            ),
        }
    }
}


/// Begins a run over the stale indicators: the first step. The caller
/// carries out the request of each step and hands its outcome to
/// [`SyncRun::resume`], until a step is done.
pub fn run_pending_updates(registry: &Registry, has_credential: bool, stale: Vec<Target>) -> (step:
    SyncStep)
    ensures
        step@ == sync_start_of(
            has_credential,
            stale.deep_view(),
            stage_targets(registry@, Stage::Calculating, false),
        ),
        step matches SyncStep::Act(run, _) ==> run@.wf(),
{
    SyncRun::start(registry, has_credential, stale)
}

/// What a run asks for when its requests meet the given outcomes in turn,
/// and the step at which the outcomes leave it.
pub open spec fn sync_run(step: SyncStepView, outcomes: Seq<Result<(), Seq<char>>>) -> (
    Seq<SyncRequestView>,
    SyncStepView,
)
    decreases outcomes.len(),
{
    match step {
        SyncStepView::Done(_) => (Seq::empty(), step),
        SyncStepView::Act(state, request) => if outcomes.len() == 0 {
            (seq![request], step)
        } else {
            let rest = sync_run(state.resume(outcomes[0]), outcomes.drop_first());
            (seq![request] + rest.0, rest.1)
        },
    }
}

/// Whether a state has left the stale indicators behind: the computed
/// indicators are being computed anew, or only the word to the listeners is
/// left.
pub open spec fn beyond_stale(state: SyncRunView) -> bool {
    match state.phase {
        SyncPhaseView::Recalculating { batch } => batch.stage == Stage::Calculating
            && batch.phase != BatchPhase::Waiting,
        SyncPhaseView::Emitting { .. } => true,
        _ => false,
    }
}

/// Whether a request belongs to the last part of a run: progress, a
/// computation from the stored series, or the word to the listeners. No
/// status is marked by it, and no provider is reached.
pub open spec fn is_recalculation(request: SyncRequestView) -> bool {
    match request {
        SyncRequestView::ReportProgress { stage, .. } => stage == Stage::Calculating,
        SyncRequestView::Resolve { backfill, fetch_deps, .. } => backfill && !fetch_deps,
        SyncRequestView::EmitUpdated => true,
        _ => false,
    }
}

/// Whether a step has left the stale indicators behind for good.
pub open spec fn stays_beyond_stale(step: SyncStepView) -> bool {
    match step {
        SyncStepView::Act(state, request) => beyond_stale(state) && is_recalculation(request),
        SyncStepView::Done(outcome) => outcome is Ok,
    }
}

/// Without the provider credential a run asks for nothing and ends as
/// skipped, which is no failure.
pub proof fn lemma_no_credential_no_request(
    stale: Seq<TargetView>,
    derived: Seq<TargetView>,
    outcomes: Seq<Result<(), Seq<char>>>,
)
    ensures
        sync_run(sync_start_of(false, stale, derived), outcomes).0 == Seq::<
            SyncRequestView,
        >::empty(),
        sync_run(sync_start_of(false, stale, derived), outcomes).1 == sync_start_of(
            false,
            stale,
            derived,
        ),
        sync_start_of(false, stale, derived) matches SyncStepView::Done(Ok(summary))
            && summary.skipped,
{
}

/// With nothing stale a run checks the alerts and ends: no status is
/// marked, and nothing is computed anew.
pub proof fn lemma_nothing_stale(derived: Seq<TargetView>, alerts: Result<(), Seq<char>>)
    ensures
        sync_run(sync_start_of(true, Seq::empty(), derived), seq![alerts]) == (
            seq![SyncRequestView::CheckAlerts],
            SyncStepView::Done(
                Ok(
                    RunSummary {
                        skipped: false,
                        stale: 0,
                        updated: 0,
                        failed: 0,
                        stopped_early: false,
                        recalculated: 0,
                        recalculation_failed: 0,
                    },
                ),
            ),
        ),
{
    let start = sync_start_of(true, Seq::empty(), derived);
    let outcomes = seq![alerts];
    let state = start->Act_0;
    let done = state.resume(outcomes[0]);
    assert(outcomes.drop_first() =~= Seq::empty());
    assert(sync_run(done, outcomes.drop_first()) == (Seq::<SyncRequestView>::empty(), done));
    assert(seq![SyncRequestView::CheckAlerts] + Seq::<SyncRequestView>::empty() =~= seq![
        SyncRequestView::CheckAlerts,
    ]);
}

/// If the first stale indicator cannot be resolved, the run is given up
/// with an error. Up to then it has checked the alerts, marked the first
/// indicator as updating, tried to resolve it, and marked it as failed with
/// the message. No other indicator was marked or resolved, and nothing is
/// computed anew.
pub proof fn lemma_canary_gating(
    stale: Seq<TargetView>,
    derived: Seq<TargetView>,
    message: Seq<char>,
    alerts: Result<(), Seq<char>>,
    marked_updating: Result<(), Seq<char>>,
    marked_error: Result<(), Seq<char>>,
)
    requires
        stale.len() >= 1,
    ensures
        sync_run(
            sync_start_of(true, stale, derived),
            seq![alerts, marked_updating, Err(message), marked_error],
        ) == (
            seq![
                SyncRequestView::CheckAlerts,
                SyncRequestView::MarkStatus {
                    slug: stale[0].slug,
                    status: UpdateStatus::Updating,
                    error: None,
                },
                SyncRequestView::Resolve { slug: stale[0].slug, backfill: false, fetch_deps: true },
                SyncRequestView::MarkStatus {
                    slug: stale[0].slug,
                    status: UpdateStatus::Error,
                    error: Some(message),
                },
            ],
            SyncStepView::Done(
                Err(SyncErrorView::CanaryFailed { slug: stale[0].slug, message }),
            ),
        ),
{
    let r0 = SyncRequestView::CheckAlerts;
    let r1 = SyncRequestView::MarkStatus {
        slug: stale[0].slug,
        status: UpdateStatus::Updating,
        error: None,
    };
    let r2 = SyncRequestView::Resolve { slug: stale[0].slug, backfill: false, fetch_deps: true };
    let r3 = SyncRequestView::MarkStatus {
        slug: stale[0].slug,
        status: UpdateStatus::Error,
        error: Some(message),
    };
    let o0 = seq![alerts, marked_updating, Err(message), marked_error];
    let o1 = o0.drop_first();
    let o2 = o1.drop_first();
    let o3 = o2.drop_first();
    let o4 = o3.drop_first();
    assert(o1 =~= seq![marked_updating, Err(message), marked_error]);
    assert(o2 =~= seq![Err(message), marked_error]);
    assert(o3 =~= seq![marked_error]);
    assert(o4 =~= Seq::empty());
    let step0 = sync_start_of(true, stale, derived);
    let s0 = step0->Act_0;
    let step1 = s0.resume(o0[0]);
    let s1 = step1->Act_0;
    assert(step1 == SyncStepView::Act(s1, r1));
    let step2 = s1.resume(o1[0]);
    let s2 = step2->Act_0;
    assert(step2 == SyncStepView::Act(s2, r2));
    let step3 = s2.resume(o2[0]);
    let s3 = step3->Act_0;
    assert(step3 == SyncStepView::Act(s3, r3));
    let done = s3.resume(o3[0]);
    assert(done == SyncStepView::Done(
        Err(SyncErrorView::CanaryFailed { slug: stale[0].slug, message }),
    ));
    assert(sync_run(done, o4) == (Seq::<SyncRequestView>::empty(), done));
    assert(sync_run(step3, o3) == (seq![r3] + Seq::<SyncRequestView>::empty(), done));
    assert(sync_run(step2, o2) == (seq![r2] + (seq![r3] + Seq::<SyncRequestView>::empty()), done));
    assert(sync_run(step1, o1) == (
        seq![r1] + (seq![r2] + (seq![r3] + Seq::<SyncRequestView>::empty())),
        done,
    ));
    assert(seq![r0] + (seq![r1] + (seq![r2] + (seq![r3] + Seq::<SyncRequestView>::empty())))
        =~= seq![r0, r1, r2, r3]);
}

/// A stale indicator that was resolved is marked as updated and counted,
/// and the run then waits as its provider asks.
pub proof fn lemma_success_is_marked(state: SyncRunView, marked: Result<(), Seq<char>>)
    requires
        state.phase is Resolving,
    ensures
        sync_run(state.resume(Ok(())), seq![marked]).0 == seq![
            SyncRequestView::MarkStatus {
                slug: state.stale[state.index as int].slug,
                status: UpdateStatus::Success,
                error: None,
            },
            SyncRequestView::Wait { provider: state.stale[state.index as int].provider },
        ],
        state.resume(Ok(())) is Act,
        state.resume(Ok(()))->Act_0.updated == (state.updated + 1) as usize,
        state.resume(Ok(()))->Act_0.failed == state.failed,
{
    let step = state.resume(Ok(()));
    let next = step->Act_0;
    let outcomes = seq![marked];
    assert(outcomes.drop_first() =~= Seq::empty());
    let waiting = next.resume(outcomes[0]);
    assert(sync_run(waiting, outcomes.drop_first()).0 =~= seq![
        SyncRequestView::Wait { provider: state.stale[state.index as int].provider },
    ]);
    assert(sync_run(step, outcomes).0 =~= seq![
        SyncRequestView::MarkStatus {
            slug: state.stale[state.index as int].slug,
            status: UpdateStatus::Success,
            error: None,
        },
        SyncRequestView::Wait { provider: state.stale[state.index as int].provider },
    ]);
}

/// A stale indicator behind the first that fails with a message that tells
/// of no quota is marked as failed and counted; the run waits as after a
/// success and goes on.
pub proof fn lemma_ordinary_failure_goes_on(
    state: SyncRunView,
    message: Seq<char>,
    marked: Result<(), Seq<char>>,
)
    requires
        state.phase is Resolving,
        state.index >= 1,
        !is_quota_message(message),
    ensures
        sync_run(state.resume(Err(message)), seq![marked]).0 == seq![
            SyncRequestView::MarkStatus {
                slug: state.stale[state.index as int].slug,
                status: UpdateStatus::Error,
                error: Some(message),
            },
            SyncRequestView::Wait { provider: state.stale[state.index as int].provider },
        ],
        state.resume(Err(message)) is Act,
        state.resume(Err(message))->Act_0.failed == (state.failed + 1) as usize,
        state.resume(Err(message))->Act_0.updated == state.updated,
{
    let step = state.resume(Err(message));
    let next = step->Act_0;
    let outcomes = seq![marked];
    assert(outcomes.drop_first() =~= Seq::empty());
    let waiting = next.resume(outcomes[0]);
    assert(sync_run(waiting, outcomes.drop_first()).0 =~= seq![
        SyncRequestView::Wait { provider: state.stale[state.index as int].provider },
    ]);
    assert(sync_run(step, outcomes).0 =~= seq![
        SyncRequestView::MarkStatus {
            slug: state.stale[state.index as int].slug,
            status: UpdateStatus::Error,
            error: Some(message),
        },
        SyncRequestView::Wait { provider: state.stale[state.index as int].provider },
    ]);
}

/// A stale indicator behind the first that fails with a message that tells
/// of a quota is marked as failed, and the stale indicators are left at
/// once: the run does not wait, takes up no further stale indicator, and
/// turns to the computed indicators, which it computes anew from the stored
/// series, the first of them first. The run is no failure.
pub proof fn lemma_quota_stop(state: SyncRunView, message: Seq<char>, marked: Result<(), Seq<char>>)
    requires
        state.phase is Resolving,
        state.index >= 1,
        is_quota_message(message),
    ensures
        state.resume(Err(message)) is Act,
        state.resume(Err(message))->Act_1 == (SyncRequestView::MarkStatus {
            slug: state.stale[state.index as int].slug,
            status: UpdateStatus::Error,
            error: Some(message),
        }),
        stays_beyond_stale(state.resume(Err(message))->Act_0.resume(marked)),
        state.derived.len() > 0 ==> ({
            let announced = state.resume(Err(message))->Act_0.resume(marked);
            &&& announced is Act
            &&& announced->Act_0.stopped_early
            &&& announced->Act_1 == (SyncRequestView::ReportProgress {
                current: 1,
                total: state.derived.len() as usize,
                slug: state.derived[0].slug,
                stage: Stage::Calculating,
            })
            &&& announced->Act_0.resume(marked) is Act
            &&& announced->Act_0.resume(marked)->Act_1 == (SyncRequestView::Resolve {
                slug: state.derived[0].slug,
                backfill: true,
                fetch_deps: false,
            })
        }),
{
}

/// Once a run has left the stale indicators behind, it stays so up to its
/// end, whatever the outcomes are: every further request is progress, a
/// computation from the stored series, or the word to the listeners, and
/// the run ends without an error.
pub proof fn lemma_beyond_stale_for_good(state: SyncRunView, outcome: Result<(), Seq<char>>)
    requires
        beyond_stale(state),
    ensures
        stays_beyond_stale(state.resume(outcome)),
{
}

/// The whole rest of a run that has left the stale indicators behind marks
/// no status and reaches no provider.
pub proof fn lemma_rest_beyond_stale(step: SyncStepView, outcomes: Seq<Result<(), Seq<char>>>)
    requires
        stays_beyond_stale(step),
    ensures
        stays_beyond_stale(sync_run(step, outcomes).1),
        forall|i: int|
            0 <= i < sync_run(step, outcomes).0.len() ==> is_recalculation(
                #[trigger] sync_run(step, outcomes).0[i],
            ),
    decreases outcomes.len(),
{
    match step {
        SyncStepView::Done(_) => {},
        SyncStepView::Act(state, request) => {
            if outcomes.len() > 0 {
                lemma_beyond_stale_for_good(state, outcomes[0]);
                lemma_rest_beyond_stale(state.resume(outcomes[0]), outcomes.drop_first());
            }
        },
    }
}

/// Whether a summary tells truly of a run over the stale indicators: it
/// counts no more indicators than were stale, and every one of them unless
/// the batches were stopped early.
pub open spec fn tallied(summary: RunSummary, stale: Seq<TargetView>) -> bool {
    &&& summary.stale == stale.len()
    &&& summary.updated + summary.failed <= summary.stale
    &&& !summary.stopped_early ==> summary.updated + summary.failed == summary.stale
}

/// Whether a step belongs to a valid run over the stale indicators.
pub open spec fn sound(step: SyncStepView, stale: Seq<TargetView>) -> bool {
    match step {
        SyncStepView::Act(state, _) => state.wf() && state.stale == stale,
        SyncStepView::Done(Ok(summary)) => tallied(summary, stale),
        SyncStepView::Done(Err(_)) => true,
    }
}

/// A run keeps its state valid, and its tally is true. An error ends a run
/// only at the first stale indicator.
pub proof fn lemma_sync_tally(state: SyncRunView, outcome: Result<(), Seq<char>>)
    requires
        state.wf(),
    ensures
        sound(state.resume(outcome), state.stale),
        state.resume(outcome) matches SyncStepView::Done(Err(_)) ==> state.index == 0,
{
    match state.phase {
        SyncPhaseView::Recalculating { batch } => {
            lemma_batch_tally(batch, outcome is Ok);
        },
        _ => {},
    }
}

/// Every run with the credential at hand is valid from its first step to its
/// last, whatever the outcomes are, and if it ends with a summary, the
/// summary tells truly of it.
pub proof fn lemma_run_tally(
    stale: Seq<TargetView>,
    derived: Seq<TargetView>,
    outcomes: Seq<Result<(), Seq<char>>>,
)
    requires
        stale.len() <= usize::MAX,
        derived.len() <= usize::MAX,
    ensures
        sound(sync_run(sync_start_of(true, stale, derived), outcomes).1, stale),
{
    lemma_sound_run(sync_start_of(true, stale, derived), outcomes, stale);
}

/// From a step of a valid run, the run stays valid.
proof fn lemma_sound_run(
    step: SyncStepView,
    outcomes: Seq<Result<(), Seq<char>>>,
    stale: Seq<TargetView>,
)
    requires
        sound(step, stale),
    ensures
        sound(sync_run(step, outcomes).1, stale),
    decreases outcomes.len(),
{
    match step {
        SyncStepView::Done(_) => {},
        SyncStepView::Act(state, _) => {
            if outcomes.len() > 0 {
                lemma_sync_tally(state, outcomes[0]);
                lemma_sound_run(state.resume(outcomes[0]), outcomes.drop_first(), stale);
            }
        },
    }
}

/// Each stale indicator goes from updating to updated or failed: once it
/// is marked as updating, the run resolves it without backfill and with its
/// dependencies, and then marks it with the outcome.
pub proof fn lemma_status_cycle(
    state: SyncRunView,
    marked: Result<(), Seq<char>>,
    resolved: Result<(), Seq<char>>,
)
    requires
        state.phase is MarkingUpdating,
    ensures
        sync_run(state.resume(marked), seq![resolved]).0 == seq![
            SyncRequestView::Resolve {
                slug: state.stale[state.index as int].slug,
                backfill: false,
                fetch_deps: true,
            },
            SyncRequestView::MarkStatus {
                slug: state.stale[state.index as int].slug,
                status: match resolved {
                    Ok(_) => UpdateStatus::Success,
                    Err(_) => UpdateStatus::Error,
                },
                error: match resolved {
                    Ok(_) => None,
                    Err(message) => Some(message),
                },
            },
        ],
{
    let step = state.resume(marked);
    let resolving = step->Act_0;
    let outcomes = seq![resolved];
    assert(outcomes.drop_first() =~= Seq::empty());
    let marking = resolving.resume(outcomes[0]);
    assert(sync_run(marking, outcomes.drop_first()).0 =~= seq![marking->Act_1]);
    assert(sync_run(step, outcomes).0 =~= seq![step->Act_1, marking->Act_1]);
}

/// A bound on the outcomes that a run can still take before it ends: five
/// for each stale indicator that is not done, three for each computed
/// indicator, and the word to the listeners.
pub open spec fn sync_effort(state: SyncRunView) -> int {
    let rest: int = (state.stale.len() - 1 - state.index) * 5;
    let tail: int = 3 * (state.derived.len() as int) + 3;
    match state.phase {
        SyncPhaseView::Alerts => 5 * (state.stale.len() as int) + tail + 1,
        SyncPhaseView::MarkingUpdating => rest + 5 + tail,
        SyncPhaseView::Resolving => rest + 4 + tail,
        SyncPhaseView::MarkingSuccess | SyncPhaseView::MarkingError { .. } => rest + 3 + tail,
        SyncPhaseView::Waiting => rest + 2 + tail,
        SyncPhaseView::Pausing => rest + 1 + tail,
        SyncPhaseView::Recalculating { batch } => batch_effort(batch) + 2,
        SyncPhaseView::Emitting { .. } => 1,
    }
}

/// Every outcome brings a run nearer to its end.
pub proof fn lemma_sync_makes_progress(state: SyncRunView, outcome: Result<(), Seq<char>>)
    requires
        state.wf(),
    ensures
        sync_effort(state) >= 1,
        state.resume(outcome) matches SyncStepView::Act(next, _) ==> next.wf() && sync_effort(next)
            < sync_effort(state),
{
    lemma_sync_tally(state, outcome);
    match state.phase {
        SyncPhaseView::Recalculating { batch } => {
            lemma_batch_makes_progress(batch, outcome is Ok);
        },
        _ => {},
    }
}

/// A run ends. Over `n` stale indicators and `d` computed ones it makes at
/// most `5 n + 3 d + 5` requests and is over when their outcomes are in,
/// whatever they are.
pub proof fn lemma_run_ends(
    stale: Seq<TargetView>,
    derived: Seq<TargetView>,
    outcomes: Seq<Result<(), Seq<char>>>,
)
    requires
        stale.len() <= usize::MAX,
        derived.len() <= usize::MAX,
        outcomes.len() >= 5 * stale.len() + 3 * derived.len() + 4,
    ensures
        sync_run(sync_start_of(true, stale, derived), outcomes).1 is Done,
        sync_run(sync_start_of(true, stale, derived), outcomes).0.len() <= 5 * stale.len() + 3
            * derived.len() + 5,
{
    lemma_bounded_run(sync_start_of(true, stale, derived), outcomes);
}

/// A valid run ends within the outcomes that its effort allows.
proof fn lemma_bounded_run(step: SyncStepView, outcomes: Seq<Result<(), Seq<char>>>)
    requires
        step matches SyncStepView::Act(state, _) ==> state.wf() && sync_effort(state)
            <= outcomes.len(),
    ensures
        sync_run(step, outcomes).1 is Done,
        step matches SyncStepView::Act(state, _) ==> sync_run(step, outcomes).0.len() <= sync_effort(
            state,
        ) + 1,
        step is Done ==> sync_run(step, outcomes).0.len() == 0,
    decreases outcomes.len(),
{
    match step {
        SyncStepView::Done(_) => {},
        SyncStepView::Act(state, _) => {
            lemma_sync_makes_progress(state, outcomes[0]);
            lemma_bounded_run(state.resume(outcomes[0]), outcomes.drop_first());
        },
    }
}

/// The rest after a batch comes after every tenth stale indicator behind
/// the first, and only there.
pub proof fn lemma_pause_after_full_batch(state: SyncRunView, waited: Result<(), Seq<char>>)
    requires
        state.phase is Waiting,
    ensures
        (state.resume(waited) is Act && state.resume(waited)->Act_1 is Pause) <==> (state.index
            >= 1 && state.index % BATCH_SIZE == 0),
{
}

} // verus!

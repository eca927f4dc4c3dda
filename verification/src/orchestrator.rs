//! One orchestration run: several sync engines against one remote service.
//!
//! The engines run in the order in which the caller lists them. Before an
//! engine syncs, its local state is wiped or reset if that was asked for. A
//! failure inside one engine is recorded against that engine and the run goes
//! on; a failure of the transport or of authentication ends the run at once
//! and becomes its overall result. The run decides what happens next; the
//! caller, who owns the engines and talks to the service, does it and reports
//! back.
//!
//! A run carries two pieces of state that the work against the service
//! reads and renews: one that is kept between runs on disk, and one that
//! lasts as long as the process. Both are opaque to the run. It hands them
//! back at its end, however it ended, for the caller to keep.

use crate::interrupt::{interrupted_between, SqlInterruptScope};
use vstd::prelude::*;

verus! {

/// Whether an engine is tied to a collection of the remote service.
#[derive(Debug, Clone, PartialEq, Eq)]
pub enum EngineSyncAssociation {
    /// Tied to the collection with this id.
    Connected(String),
    /// Tied to none.
    Disconnected,
}

/// An [`EngineSyncAssociation`] as a mathematical value.
pub enum AssociationView {
    Connected(Seq<char>),
    Disconnected,
}

impl View for EngineSyncAssociation {
    type V = AssociationView;

    open spec fn view(&self) -> AssociationView {
        match self {
            EngineSyncAssociation::Connected(id) => AssociationView::Connected(id@),
            EngineSyncAssociation::Disconnected => AssociationView::Disconnected,
        }
    }
}

impl EngineSyncAssociation {
    /// A second association with the same content.
    pub fn copy(&self) -> (r: EngineSyncAssociation)
        ensures
            r@ == self@,
    {
        match self {
            EngineSyncAssociation::Connected(id) => EngineSyncAssociation::Connected(id.clone()),
            EngineSyncAssociation::Disconnected => EngineSyncAssociation::Disconnected,
        }
    }
}

/// What is done to the local state of an engine before it syncs.
#[derive(Debug, Clone, PartialEq, Eq)]
pub enum Preparation {
    /// Nothing.
    Keep,
    /// All local data is removed.
    Wipe,
    /// The sync metadata is reset to this association.
    Reset(EngineSyncAssociation),
}

/// A failure that ends a run.
#[derive(Debug, Clone, PartialEq, Eq)]
pub enum RunFailure {
    /// The remote service could not be reached or answered out of protocol.
    Transport(String),
    /// The remote service refused the credentials.
    Authentication(String),
    /// The run was cancelled.
    Interrupted,
}

/// How the work on one engine ended.
#[derive(Debug, Clone, PartialEq, Eq)]
pub enum EngineOutcome {
    /// The engine did what was asked.
    Completed,
    /// The engine failed at the level of its own data.
    Failed(String),
    /// The run cannot go on.
    Aborted(RunFailure),
}

/// What the caller is asked to do next.
#[derive(Debug, Clone, Copy, PartialEq, Eq, Structural)]
pub enum SyncAction {
    /// Wipe or reset the local state of the engine at this position, as its
    /// plan says.
    Prepare { engine: usize },
    /// Run the full incoming and outgoing cycle of the engine at this
    /// position.
    Sync { engine: usize },
    /// Nothing: the run is over.
    Finish,
}

/// One engine of a run, as the caller lists it.
#[derive(Debug, Clone, PartialEq, Eq)]
pub struct EnginePlan {
    /// The name of the collection that the engine syncs.
    pub collection_name: String,
    /// What to do to its local state first.
    pub preparation: Preparation,
}

/// The outcome recorded for one engine.
#[derive(Debug, Clone, PartialEq, Eq)]
pub struct EngineResult {
    /// The name of the collection that the engine syncs.
    pub collection_name: String,
    /// The failure of the engine, if it failed.
    pub failure: Option<String>,
}

/// What a run reports: one entry for each engine that ran, in the order in
/// which they ran.
#[derive(Debug, Clone, PartialEq, Eq)]
pub struct SyncTelemetryPing {
    pub engines: Vec<EngineResult>,
}

/// What a run hands back to its caller.
#[derive(Debug, PartialEq, Eq)]
pub struct SyncResult {
    /// The overall result: a failure only where the run was aborted.
    pub result: Result<(), RunFailure>,
    /// The outcome of each engine that ran.
    pub engine_results: Vec<EngineResult>,
    /// The same, as the report for the application.
    pub telemetry: SyncTelemetryPing,
    /// The state to keep on disk for the next run.
    pub persisted_state: Option<String>,
    /// The state to keep in memory for the next run of this process.
    pub mem_cached_state: Option<String>,
}

/// The view of a state that may be absent.
pub open spec fn state_view(state: Option<String>) -> Option<Seq<char>> {
    match state {
        Some(s) => Some(s@),
        None => None,
    }
}

/// An [`EngineResult`] as a mathematical value.
pub struct EngineResultView {
    pub collection_name: Seq<char>,
    pub failure: Option<Seq<char>>,
}

impl View for EngineResult {
    type V = EngineResultView;

    open spec fn view(&self) -> EngineResultView {
        EngineResultView {
            collection_name: self.collection_name@,
            failure: match self.failure {
                Some(f) => Some(f@),
                None => None,
            },
        }
    }
}

/// The results in `rs`, each taken by its view.
pub open spec fn results_view(rs: Seq<EngineResult>) -> Seq<EngineResultView> {
    rs.map_values(|r: EngineResult| r@)
}

/// The phase of the work on the current engine.
#[derive(Debug, Clone, Copy, PartialEq, Eq, Structural)]
pub enum Phase {
    /// The engine has yet to be prepared, if it asks for that.
    Preparing,
    /// The engine is prepared and has yet to sync.
    Syncing,
}

/// The state of one orchestration run.
pub struct SyncRun {
    engines: Vec<EnginePlan>,
    next: usize,
    phase: Phase,
    engine_results: Vec<EngineResult>,
    failure: Option<RunFailure>,
    persisted_state: Option<String>,
    mem_cached_state: Option<String>,
}

/// A [`SyncRun`] as a mathematical value.
pub struct SyncRunView {
    /// The engines of the run, in execution order.
    pub engines: Seq<EnginePlan>,
    /// The position of the engine that is worked on; the number of engines
    /// once all are done.
    pub next: int,
    /// The phase of the work on that engine.
    pub phase: Phase,
    /// The outcome of each engine that ran, in execution order.
    pub engine_results: Seq<EngineResultView>,
    /// The failure that ended the run, if one did.
    pub failure: Option<RunFailure>,
    /// The state that is kept on disk between runs, as it stands.
    pub persisted_state: Option<Seq<char>>,
    /// The state that is kept in memory between runs, as it stands.
    pub mem_cached_state: Option<Seq<char>>,
}

impl SyncRunView {
    /// The run before anything was done, for these engines and with the
    /// state that earlier runs left.
    pub open spec fn start(
        engines: Seq<EnginePlan>,
        persisted_state: Option<Seq<char>>,
        mem_cached_state: Option<Seq<char>>,
    ) -> Self {
        SyncRunView {
            engines,
            next: 0,
            phase: Phase::Preparing,
            engine_results: Seq::empty(),
            failure: None,
            persisted_state,
            mem_cached_state,
        }
    }

    /// The run after a check for cancellation: where a signal has arrived
    /// since the scope of the run began, the run is aborted as interrupted.
    pub open spec fn checked(self, start_value: usize, current: usize) -> Self {
        if interrupted_between(start_value, current) {
            self.recorded(EngineOutcome::Aborted(RunFailure::Interrupted))
        } else {
            self
        }
    }

    /// Whether the run is over: it was aborted, or every engine is done.
    pub open spec fn finished(self) -> bool {
        self.failure is Some || self.next >= self.engines.len()
    }

    /// What the caller is asked to do next.
    pub open spec fn action(self) -> SyncAction {
        if self.finished() {
            SyncAction::Finish
        } else if self.phase == Phase::Preparing && self.engines[self.next].preparation
            != Preparation::Keep {
            SyncAction::Prepare { engine: self.next as usize }
        } else {
            SyncAction::Sync { engine: self.next as usize }
        }
    }

    /// The run after the current engine was recorded with `failure` and the
    /// next engine became current.
    pub open spec fn advanced(self, failure: Option<Seq<char>>) -> Self {
        SyncRunView {
            next: self.next + 1,
            phase: Phase::Preparing,
            engine_results: self.engine_results.push(
                EngineResultView {
                    collection_name: self.engines[self.next].collection_name@,
                    failure,
                },
            ),
            ..self
        }
    }

    /// The run after the caller reported `outcome` for the action that was
    /// asked for. A completed preparation leads to the sync of the same
    /// engine; a completed sync, and a failure of the engine in either phase,
    /// is recorded and leads to the next engine; an abort ends the run. A
    /// report on a finished run changes nothing.
    pub open spec fn recorded(self, outcome: EngineOutcome) -> Self {
        if self.finished() {
            self
        } else {
            match outcome {
                EngineOutcome::Aborted(f) => SyncRunView { failure: Some(f), ..self },
                EngineOutcome::Failed(reason) => self.advanced(Some(reason@)),
                EngineOutcome::Completed => if self.action() is Prepare {
                    SyncRunView { phase: Phase::Syncing, ..self }
                } else {
                    self.advanced(None)
                },
            }
        }
    }

    /// One engine has a result for each position before the current one, and
    /// none from there on.
    pub open spec fn wf(self) -> bool {
        &&& 0 <= self.next <= self.engines.len() <= usize::MAX
        &&& self.engine_results.len() == self.next
        &&& forall|k: int|
            0 <= k < self.next ==> (#[trigger] self.engine_results[k]).collection_name
                == self.engines[k].collection_name@
    }
}

impl View for SyncRun {
    type V = SyncRunView;

    closed spec fn view(&self) -> SyncRunView {
        SyncRunView {
            engines: self.engines@,
            next: self.next as int,
            phase: self.phase,
            engine_results: results_view(self.engine_results@),
            failure: self.failure,
            persisted_state: state_view(self.persisted_state),
            mem_cached_state: state_view(self.mem_cached_state),
        }
    }
}

impl SyncRun {
    /// The invariant of a run: see [`SyncRunView::wf`].
    pub closed spec fn wf(&self) -> bool {
        self@.wf()
    }

    /// What the invariant says of the view.
    pub proof fn lemma_wf(&self)
        requires
            self.wf(),
        ensures
            self@.wf(),
    {
    }

    /// Begins a run of `engines`, in this order, with the state that
    /// earlier runs left on disk and in memory.
    pub fn new(
        engines: Vec<EnginePlan>,
        persisted_state: Option<String>,
        mem_cached_state: Option<String>,
    ) -> (r: Self)
        ensures
            r.wf(),
            r@ == SyncRunView::start(
                engines@,
                state_view(persisted_state),
                state_view(mem_cached_state),
            ),
    {
        // the number of engines fits the machine
        let ghost count = engines.len();
        let r = SyncRun {
            engines,
            next: 0,
            phase: Phase::Preparing,
            engine_results: Vec::new(),
            failure: None,
            persisted_state,
            mem_cached_state,
        };
        assert(r@.engine_results =~= Seq::<EngineResultView>::empty());
        r
    }

    /// The state that is kept on disk between runs, as it stands.
    pub fn persisted_state(&self) -> (r: &Option<String>)
        ensures
            state_view(*r) == self@.persisted_state,
    {
        &self.persisted_state
    }

    /// The state that is kept in memory between runs, as it stands.
    pub fn mem_cached_state(&self) -> (r: &Option<String>)
        ensures
            state_view(*r) == self@.mem_cached_state,
    {
        &self.mem_cached_state
    }

    /// Takes `state` as the state to keep on disk, in place of what the run
    /// held.
    pub fn set_persisted_state(&mut self, state: Option<String>)
        ensures
            final(self)@ == (SyncRunView { persisted_state: state_view(state), ..old(self)@ }),
            old(self).wf() ==> final(self).wf(),
    {
        self.persisted_state = state;
    }

    /// Takes `state` as the state to keep in memory, in place of what the
    /// run held.
    pub fn set_mem_cached_state(&mut self, state: Option<String>)
        ensures
            final(self)@ == (SyncRunView { mem_cached_state: state_view(state), ..old(self)@ }),
            old(self).wf() ==> final(self).wf(),
    {
        self.mem_cached_state = state;
    }

    /// Checks for cancellation, given the value `current` that the counter
    /// of `scope` reads now: where a signal has arrived since the scope
    /// began, the run is aborted as interrupted.
    pub fn check_interrupted_at(&mut self, scope: &SqlInterruptScope, current: usize)
        requires
            old(self).wf(),
        ensures
            final(self).wf(),
            final(self)@ == old(self)@.checked(scope.start_value(), current),
    {
        if scope.was_interrupted_at(current) {
            self.record(EngineOutcome::Aborted(RunFailure::Interrupted));
        }
    }

    /// Checks for cancellation: where a signal has arrived since `scope`
    /// began, the run is aborted as interrupted. The counter of the scope is
    /// read once.
    pub fn check_interrupted(&mut self, scope: &SqlInterruptScope)
        requires
            old(self).wf(),
        ensures
            final(self).wf(),
            final(self)@ == old(self)@ || final(self)@ == old(self)@.recorded(
                EngineOutcome::Aborted(RunFailure::Interrupted),
            ),
    {
        let current = scope.counter_value();
        self.check_interrupted_at(scope, current);
    }

    /// Whether the run is over.
    pub fn is_finished(&self) -> (r: bool)
        requires
            self.wf(),
        ensures
            r == self@.finished(),
    {
        self.failure.is_some() || self.next >= self.engines.len()
    }

    /// What the caller is asked to do next.
    pub fn next_action(&self) -> (r: SyncAction)
        requires
            self.wf(),
        ensures
            r == self@.action(),
    {
        if self.is_finished() {
            return SyncAction::Finish;
        }
        let preparing = match self.phase {
            Phase::Preparing => true,
            Phase::Syncing => false,
        };
        if preparing {
            match &self.engines[self.next].preparation {
                Preparation::Keep => SyncAction::Sync { engine: self.next },
                _ => SyncAction::Prepare { engine: self.next },
            }
        } else {
            SyncAction::Sync { engine: self.next }
        }
    }

    /// The plan of the engine at position `engine`, for the caller to see
    /// which preparation is asked for.
    pub fn plan(&self, engine: usize) -> (r: Option<&EnginePlan>)
        ensures
            r.is_some() <==> engine < self@.engines.len(),
            r matches Some(p) ==> *p == self@.engines[engine as int],
    {
        if engine < self.engines.len() {
            Some(&self.engines[engine])
        } else {
            None
        }
    }

    /// Takes the caller's report on the action that was asked for.
    pub fn record(&mut self, outcome: EngineOutcome)
        requires
            old(self).wf(),
        ensures
            final(self).wf(),
            final(self)@ == old(self)@.recorded(outcome),
    {
        if self.is_finished() {
            return ;
        }
        match outcome {
            EngineOutcome::Aborted(f) => {
                self.failure = Some(f);
            },
            EngineOutcome::Failed(reason) => {
                self.advance(Some(reason));
            },
            EngineOutcome::Completed => {
                match self.next_action() {
                    SyncAction::Prepare { .. } => {
                        self.phase = Phase::Syncing;
                    },
                    _ => {
                        self.advance(None);
                    },
                }
            },
        }
    }

    fn advance(&mut self, failure: Option<String>)
        requires
            old(self).wf(),
            !old(self)@.finished(),
        ensures
            final(self).wf(),
            final(self)@ == old(self)@.advanced(
                match failure {
                    Some(f) => Some(f@),
                    None => None,
                },
            ),
    {
        let collection_name = self.engines[self.next].collection_name.clone();
        self.engine_results.push(EngineResult { collection_name, failure });
        self.next = self.next + 1;
        self.phase = Phase::Preparing;
        assert(self@.engine_results =~= old(self)@.advanced(
            match failure {
                Some(f) => Some(f@),
                None => None,
            },
        ).engine_results);
    }

    /// Ends the run and hands back what it produced. The report holds an
    /// entry for each engine that ran, whether the run was aborted or not.
    pub fn finish(self) -> (r: SyncResult)
        requires
            self.wf(),
        ensures
            r.result == (match self@.failure {
                Some(f) => Err::<(), RunFailure>(f),
                None => Ok(()),
            }),
            results_view(r.engine_results@) == self@.engine_results,
            results_view(r.telemetry.engines@) == self@.engine_results,
            state_view(r.persisted_state) == self@.persisted_state,
            state_view(r.mem_cached_state) == self@.mem_cached_state,
    {
        let engines = copy_results(&self.engine_results);
        let result = match self.failure {
            Some(f) => Err(f),
            None => Ok(()),
        };
        SyncResult {
            result,
            engine_results: self.engine_results,
            telemetry: SyncTelemetryPing { engines },
            persisted_state: self.persisted_state,
            mem_cached_state: self.mem_cached_state,
        }
    }
}

fn copy_results(rs: &Vec<EngineResult>) -> (r: Vec<EngineResult>)
    ensures
        results_view(r@) == results_view(rs@),
{
    let mut r: Vec<EngineResult> = Vec::new();
    let mut k: usize = 0;
    while k < rs.len()
        invariant
            k <= rs@.len(),
            r@.len() == k,
            forall|j: int| 0 <= j < k ==> (#[trigger] r@[j])@ == rs@[j]@,
        decreases rs@.len() - k,
    {
        let failure = match &rs[k].failure {
            Some(f) => Some(f.clone()),
            None => None,
        };
        r.push(EngineResult { collection_name: rs[k].collection_name.clone(), failure });
        k = k + 1;
    }
    r
}

/// Why a sync, as the application sees it, failed.
#[derive(Debug, Clone, PartialEq, Eq)]
pub enum SyncFailure {
    /// The run was aborted.
    Run(RunFailure),
    /// The primary engine failed, for this reason.
    Engine(String),
}

/// The outcome recorded for the collection `name`: `None` where no engine of
/// that name ran, and otherwise the failure, if any, of the last that did.
pub open spec fn outcome_of(results: Seq<EngineResultView>, name: Seq<char>) -> Option<
    Option<Seq<char>>,
>
    decreases results.len(),
{
    if results.len() == 0 {
        None
    } else if results.last().collection_name == name {
        Some(results.last().failure)
    } else {
        outcome_of(results.drop_last(), name)
    }
}

/// What the application gets to see of a run when the engine of the
/// collection `primary` is the one it cares about.
pub enum Escalation {
    /// The report of the run.
    Report,
    /// The failure that ended the run.
    Run(RunFailure),
    /// The failure of the primary engine.
    Engine(Seq<char>),
}

/// The policy of escalation: an aborted run is a failure; so is a failure of
/// the primary engine; failures of other engines are left to the report.
pub open spec fn escalation_of(
    result: Result<(), RunFailure>,
    results: Seq<EngineResultView>,
    primary: Seq<char>,
) -> Escalation {
    match result {
        Err(f) => Escalation::Run(f),
        Ok(_) => match outcome_of(results, primary) {
            Some(Some(reason)) => Escalation::Engine(reason),
            _ => Escalation::Report,
        },
    }
}

fn find_outcome(results: &Vec<EngineResult>, name: &str) -> (r: Option<usize>)
    ensures
        r is None ==> outcome_of(results_view(results@), name@) is None,
        r matches Some(k) ==> k < results@.len() && outcome_of(results_view(results@), name@)
            == Some(results@[k as int]@.failure),
{
    let target = name.to_owned();
    let mut k: usize = results.len();
    assert(results_view(results@).take(k as int) =~= results_view(results@));
    while k > 0
        invariant
            k <= results@.len(),
            target@ == name@,
            outcome_of(results_view(results@), name@) == outcome_of(
                results_view(results@).take(k as int),
                name@,
            ),
        decreases k,
    {
        let ghost prefix = results_view(results@).take(k as int);
        assert(prefix.drop_last() =~= results_view(results@).take(k - 1));
        if results[k - 1].collection_name == target {
            return Some(k - 1);
        }
        k = k - 1;
    }
    None
}

/// Turns the outcome of a run into what the application is told, with the
/// engine of the collection `primary` as the one whose failure counts: see
/// [`escalation_of`]. The report is returned in every other case, even where
/// other engines failed.
pub fn escalate(result: SyncResult, primary: &str) -> (r: Result<SyncTelemetryPing, SyncFailure>)
    ensures
        match escalation_of(result.result, results_view(result.engine_results@), primary@) {
            Escalation::Report => r matches Ok(t) && t == result.telemetry,
            Escalation::Run(f) => r matches Err(SyncFailure::Run(g)) && g == f,
            Escalation::Engine(reason) => r matches Err(SyncFailure::Engine(g)) && g@ == reason,
        },
{
    let SyncResult { result: overall, engine_results, telemetry, .. } = result;
    if let Err(e) = overall {
        return Err(SyncFailure::Run(e));
    }
    match find_outcome(&engine_results, primary) {
        None => Ok(telemetry),
        Some(k) => match &engine_results[k].failure {
            None => Ok(telemetry),
            Some(reason) => Err(SyncFailure::Engine(reason.clone())),
        },
    }
}

/// Engines run in the order given and each at most once: what is asked next
/// always concerns the engine whose position is the number of engines that
/// have a result.
pub proof fn lemma_runs_in_order(run: SyncRunView)
    requires
        run.wf(),
    ensures
        run.action() matches SyncAction::Prepare { engine } ==> engine == run.engine_results.len(),
        run.action() matches SyncAction::Sync { engine } ==> engine == run.engine_results.len(),
        run.action() is Finish <==> run.finished(),
{
}

/// The state of a run is what was handed in or set last: no report and no
/// check for cancellation changes it, so it comes out at the end however the
/// run ended.
pub proof fn lemma_state_is_carried(
    run: SyncRunView,
    outcome: EngineOutcome,
    start_value: usize,
    current: usize,
)
    ensures
        run.recorded(outcome).persisted_state == run.persisted_state,
        run.recorded(outcome).mem_cached_state == run.mem_cached_state,
        run.checked(start_value, current).persisted_state == run.persisted_state,
        run.checked(start_value, current).mem_cached_state == run.mem_cached_state,
{
}

/// Every report keeps the run well-formed.
pub proof fn lemma_recorded_wf(run: SyncRunView, outcome: EngineOutcome)
    requires
        run.wf(),
    ensures
        run.recorded(outcome).wf(),
{
}

/// An abort ends the run at once: no further engine runs, whatever is
/// reported afterwards, and the results recorded so far stay.
pub proof fn lemma_abort_ends_run(run: SyncRunView, failure: RunFailure, later: EngineOutcome)
    requires
        run.wf(),
        !run.finished(),
    ensures
        run.recorded(EngineOutcome::Aborted(failure)).action() is Finish,
        run.recorded(EngineOutcome::Aborted(failure)).failure == Some(failure),
        run.recorded(EngineOutcome::Aborted(failure)).engine_results == run.engine_results,
        run.recorded(EngineOutcome::Aborted(failure)).recorded(later) == run.recorded(
            EngineOutcome::Aborted(failure),
        ),
{
}

/// A failure of one engine is recorded against that engine and does not end
/// the run: the result of the engine holds the reason, the overall result
/// stays as it was, and the next engine, if there is one, is asked for.
pub proof fn lemma_engine_failure_is_recorded(run: SyncRunView, reason: String)
    requires
        run.wf(),
        !run.finished(),
    ensures
        ({
            let after = run.recorded(EngineOutcome::Failed(reason));
            &&& after.failure == run.failure
            &&& after.engine_results.len() == run.engine_results.len() + 1
            &&& after.engine_results.last() == (EngineResultView {
                collection_name: run.engines[run.next].collection_name@,
                failure: Some(reason@),
            })
            &&& after.engine_results.drop_last() == run.engine_results
            &&& after.next == run.next + 1
            &&& (after.next < run.engines.len() ==> !after.finished())
        }),
{
}

} // verus!

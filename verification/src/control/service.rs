//! The use cases: create, next, start, complete, park, recover, and the
//! operator's controls, written over the ports that adapters implement.
use vstd::prelude::*;

use crate::control::error::AppError;
use crate::control::ports::{
    ControlDirective, ControlKind, ExecutionObservation, OperatorInput, OperatorInputKind,
    SequencedEvent,
};
use crate::control::queue::Clock;
use crate::control::usecases::{
    check_control, check_execution_spec, check_operator_body, check_parked, check_start, begin_start,
    control_plane_outcome, plan_retry,
    generated_attempt_id, generated_execution_id, next_startable, plan_complete, plan_confirm,
    plan_park, plan_recover, prepare_create, react_to_run, running_work_ids, RecoverPlan,
    RunReaction,
};
use crate::domain::event::WorkEvent;
use crate::domain::execution::ExecutionSpec;
use crate::domain::ids::{AttemptId, ExecutionId, WorkId};
use crate::domain::outcome::{Outcome, OutcomeKind};
use crate::domain::status::{is_terminal, WorkStatus};
use crate::domain::work::{spec_complete, Work};

verus! {

/// Read-only access to Work snapshots and their append-only history.
/// Observers implement only this port: reads never recover, transition or
/// otherwise change Work.
pub trait WorkQuery {
    /// The Work with this id, if the store has it.
    fn get(&self, id: &WorkId) -> (r: Result<Option<Work>, AppError>)
        ensures
            r matches Ok(Some(w)) ==> w@.id == id@,
    ;

    fn list(&self) -> Result<Vec<Work>, AppError>;

    fn events(&self, id: &WorkId) -> Result<Vec<WorkEvent>, AppError>;

    fn events_after(&self, after_seq: u64, work_id: Option<&WorkId>) -> Result<
        Vec<SequencedEvent>,
        AppError,
    >;

    fn executions(&self, id: &WorkId) -> Result<Vec<ExecutionObservation>, AppError>;
}

/// What claiming an attempt commits at once: the one active lease and the
/// `running` Work with its start event.
pub struct AttemptClaim<'a> {
    pub execution_id: &'a ExecutionId,
    pub attempt_id: &'a AttemptId,
    pub spec: &'a ExecutionSpec,
    pub work: &'a Work,
    pub event: WorkEvent,
    pub started_at_unix_ms: u64,
}

/// Persists Work status together with the append-only event log.
pub trait WorkStore: WorkQuery {
    /// Status update and event append are one operation.
    fn put(&mut self, work: &Work, event: WorkEvent) -> Result<(), AppError>;

    /// Installs the one active-attempt lease and commits `running`.
    fn claim_attempt(&mut self, claim: &AttemptClaim) -> Result<(), AppError>;

    /// Replaces a retrying attempt without changing Work status.
    fn retry_attempt(
        &mut self,
        execution_id: &ExecutionId,
        previous_attempt_id: &AttemptId,
        next_attempt_id: &AttemptId,
        started_at_unix_ms: u64,
    ) -> Result<(), AppError>;

    /// Confirms the matching lease, the terminal Work, its event and proof.
    fn confirm_attempt(
        &mut self,
        work: &Work,
        event: WorkEvent,
        outcome: &crate::domain::execution::ConfirmedOutcome,
    ) -> Result<(), AppError>;

    /// Releases the matching lease into the parked queue.
    fn park_attempt(
        &mut self,
        work: &Work,
        event: WorkEvent,
        execution_id: &ExecutionId,
        attempt_id: &AttemptId,
    ) -> Result<(), AppError>;

    /// Releases an abandoned active lease back into the queue.
    fn reclaim_attempt(
        &mut self,
        work: &Work,
        event: WorkEvent,
        execution_id: &ExecutionId,
        attempt_id: &AttemptId,
    ) -> Result<(), AppError>;

    /// Persists an attempt-scoped operator request.
    fn request_control(&mut self, work_id: &WorkId, kind: ControlKind, created_at_unix_ms: u64) -> Result<
        ControlDirective,
        AppError,
    >;

    /// Appends an operator input for parked Work.
    fn append_operator_input(
        &mut self,
        work_id: &WorkId,
        kind: OperatorInputKind,
        body: &str,
        created_at_unix_ms: u64,
    ) -> Result<OperatorInput, AppError>;
}

/// How to bind the isolated directory of one Work.
pub struct BindRequest<'a> {
    pub work_id: &'a WorkId,
    pub goal: &'a str,
    pub checkout: Option<&'a str>,
}

/// What `start` asks of the workspaces for Work `work` under `id`: its
/// goal, and the checkout the request names.
pub fn bind_request<'a>(id: &'a WorkId, work: &'a Work, checkout: Option<&'a str>) -> (r: BindRequest<'a>)
    ensures
        r.work_id == id,
        r.goal@ == work@.attributes.goal,
        r.checkout == checkout,
{
    BindRequest { work_id: id, goal: work.attributes().goal(), checkout }
}

/// The wall-clock budget left after `elapsed_ms` of `budget_ms`: none once
/// it is spent.
pub fn remaining_budget(budget_ms: u64, elapsed_ms: u64) -> (r: u64)
    ensures
        r == if elapsed_ms >= budget_ms {
            0
        } else {
            budget_ms - elapsed_ms
        },
{
    budget_ms.saturating_sub(elapsed_ms)
}

/// The isolated directory of one Work for its whole life.
pub trait WorkspaceFactory {
    fn bind(&self, request: &BindRequest) -> Result<String, AppError>;

    fn read_artifact(&self, work_id: &WorkId) -> Result<Option<Vec<u8>>, AppError>;

    fn record_memory(&self, work_id: &WorkId, status: WorkStatus, outcome_kind: OutcomeKind) -> Result<
        (),
        AppError,
    >;

    fn record_operator_input(&self, work_id: &WorkId, input: &OperatorInput) -> Result<(), AppError>;
}

/// One Worker run: the Work, its workspace and the budget left.
pub struct RunRequest<'a> {
    pub work: &'a Work,
    pub workspace_root: &'a str,
    pub budget_ms: u64,
}

/// Spawns, waits and decodes. Implementations own process groups and hang
/// detection.
pub trait WorkerRunner {
    fn run(&self, request: &RunRequest) -> Result<Outcome, AppError>;

    fn decode(&self, bytes: &[u8]) -> Result<Outcome, AppError>;
}

/// What `start` is asked for besides its ports.
pub struct StartRequest<'a> {
    pub id: &'a WorkId,
    pub execution_spec: &'a ExecutionSpec,
    pub checkout: Option<&'a str>,
}

#[verifier::external_type_specification]
#[verifier::external_body]
pub struct ExInstant(std::time::Instant);

/// `std::time::Instant::now`. The reading is the machine's: nothing is
/// promised of it.
#[verifier::external_body]
fn monotonic_now() -> std::time::Instant {
    std::time::Instant::now()
}

/// The whole milliseconds elapsed since `since` (`Instant::elapsed`),
/// saturating at `u64::MAX`. It depends on the time: nothing is promised
/// of it.
#[verifier::external_body]
fn elapsed_ms(since: &std::time::Instant) -> u64 {
    u64::try_from(since.elapsed().as_millis()).unwrap_or(u64::MAX)
}

fn not_found(id: &WorkId) -> (r: AppError)
    ensures
        r matches AppError::NotFound(i) && i@ == id@,
{
    AppError::NotFound(id.clone())
}

/// What a lookup of `id` gives: the Work the store has, `NotFound` when it
/// has none, and the store's own error unchanged.
pub fn found_work(id: &WorkId, got: Result<Option<Work>, AppError>) -> (r: Result<Work, AppError>)
    ensures
        match got {
            Ok(Some(w)) => r == Ok::<Work, AppError>(w),
            Ok(None) => r matches Err(AppError::NotFound(i)) && i@ == id@,
            Err(e) => r == Err::<Work, AppError>(e),
        },
{
    match got {
        Ok(Some(w)) => Ok(w),
        Ok(None) => Err(not_found(id)),
        Err(e) => Err(e),
    }
}

fn load<S: WorkQuery>(store: &S, id: &WorkId) -> (r: Result<Work, AppError>)
    ensures
        r matches Ok(w) ==> w@.id == id@,
        r matches Ok(w) ==> call_ensures(S::get, (store, id), Ok::<Option<Work>, AppError>(Some(w))),
{
    found_work(id, store.get(id))
}

/// Creates Work as `ready` under a fresh id, at the clock's time. It does
/// not spawn a Worker. An empty goal or profile is refused before the
/// store is asked.
pub fn create<S: WorkStore, C: Clock>(store: &mut S, clock: &C, goal: &str, worker_profile: &str) -> (r:
    Result<Work, AppError>)
    ensures
        goal@.len() == 0 || worker_profile@.len() == 0 ==> (r matches Err(AppError::Domain(
            crate::domain::error::DomainError::InvalidAttributes,
        )) && *final(store) == *old(store)),
        r matches Ok(w) ==> w@.status == WorkStatus::Ready && w@.attributes.goal == goal@
            && w@.attributes.worker_profile == worker_profile@ && w@.workspace_root is None,
{
    let (work, event) = prepare_create(goal, worker_profile, clock.unix_ms())?;
    if store.get(work.id())?.is_some() {
        return Err(AppError::Conflict(crate::text::owned(work.id().as_str())));
    }
    store.put(&work, event)?;
    Ok(work)
}

/// The oldest `ready` Work, else the oldest `parked` one. It does not
/// spawn.
pub fn next<S: WorkQuery>(store: &S) -> (r: Result<Option<WorkId>, AppError>)
    ensures
        match r {
            Ok(found) => exists|listed: Vec<Work>|
                #[trigger] call_ensures(S::list, (store,), Ok::<Vec<Work>, AppError>(listed))
                    && crate::control::usecases::next_choice(
                    crate::control::usecases::work_views(listed@),
                    found,
                ),
            Err(e) => call_ensures(S::list, (store,), Err::<Vec<Work>, AppError>(e)),
        },
{
    let works = store.list()?;
    Ok(next_startable(works.as_slice()))
}

fn park_claim<S: WorkStore, C: Clock>(
    store: &mut S,
    clock: &C,
    work: Work,
    execution_id: &ExecutionId,
    attempt_id: &AttemptId,
) -> (r: Result<Work, AppError>)
    ensures
        r matches Ok(w) ==> w@.status == WorkStatus::Parked && w@.id == work@.id,
{
    proof {
        crate::domain::work::lemma_operations_change_only_status(work@, OutcomeKind::Succeeded);
    }
    let (work, event) = plan_park(work, clock.unix_ms())?;
    match event {
        Some(e) => store.park_attempt(&work, e, execution_id, attempt_id)?,
        None => {},
    }
    Ok(work)
}

fn confirm<S: WorkStore, W: WorkspaceFactory, C: Clock>(
    store: &mut S,
    workspaces: &W,
    clock: &C,
    work: Work,
    spec: &ExecutionSpec,
    execution_id: &ExecutionId,
    attempt_id: &AttemptId,
    outcome: Outcome,
) -> (r: Result<Work, AppError>)
    ensures
        r matches Ok(w) ==> is_terminal(w@.status) && w@.id == work@.id,
{
    proof {
        crate::domain::work::lemma_operations_change_only_status(work@, outcome@.kind);
    }
    let plan = plan_confirm(work, spec, execution_id.clone(), attempt_id.clone(), outcome, clock.unix_ms())?;
    let kind = plan.confirmed.outcome().kind();
    store.confirm_attempt(&plan.work, plan.event, &plan.confirmed)?;
    workspaces.record_memory(plan.work.id(), plan.work.status(), kind)?;
    Ok(plan.work)
}

/// Claims an attempt, binds the workspace, runs the Worker within the
/// execution's wall-clock budget, and confirms its outcome. A broken
/// outcome artifact parks the claim and fails; a channel park parks; a
/// channel retry replaces the attempt while retries are left; an exhausted
/// budget confirms `budget_exceeded`; anything else confirms
/// `channel_error`. A Work it returns has finished or is parked: never
/// still running.
pub fn start<S: WorkStore, W: WorkspaceFactory, R: WorkerRunner, C: Clock>(
    store: &mut S,
    workspaces: &W,
    runner: &R,
    clock: &C,
    request: &StartRequest,
) -> (r: Result<Work, AppError>)
    ensures
        r matches Ok(w) ==> (is_terminal(w@.status) || w@.status == WorkStatus::Parked) && w@.id
            == request.id@,
{
    let id = request.id;
    let work = load(store, id)?;
    check_execution_spec(id, &work, request.execution_spec)?;
    let artifact = workspaces.read_artifact(id)?;
    check_start(id, &work, request.execution_spec, artifact.is_some())?;
    let root = workspaces.bind(&bind_request(id, &work, request.checkout))?;
    let started_at = clock.unix_ms();
    proof {
        crate::domain::work::lemma_operations_change_only_status(
            work@.with_root(Some(root@)),
            OutcomeKind::Succeeded,
        );
    }
    let (work, event) = begin_start(work, root.as_str(), started_at)?;
    let execution_id = generated_execution_id();
    let mut attempt_id = generated_attempt_id();
    store.claim_attempt(
        &AttemptClaim {
            execution_id: &execution_id,
            attempt_id: &attempt_id,
            spec: request.execution_spec,
            work: &work,
            event,
            started_at_unix_ms: started_at,
        },
    )?;
    let budget = request.execution_spec.wall_clock_budget_ms();
    let started = monotonic_now();
    let mut remaining_retries = request.execution_spec.retry_limit();
    loop
        invariant
            work@.id == request.id@,
        decreases remaining_retries,
    {
        let elapsed = elapsed_ms(&started);
        let left = remaining_budget(budget, elapsed);
        if left == 0 {
            let outcome = control_plane_outcome(&work, OutcomeKind::BudgetExceeded)?;
            return confirm(store, workspaces, clock, work, request.execution_spec, &execution_id, &attempt_id, outcome);
        }
        let result = runner.run(&RunRequest { work: &work, workspace_root: root.as_str(), budget_ms: left });
        match react_to_run(result, remaining_retries) {
            RunReaction::Confirm(outcome) => {
                return confirm(store, workspaces, clock, work, request.execution_spec, &execution_id, &attempt_id, outcome);
            },
            RunReaction::ConfirmKind(kind) => {
                let outcome = control_plane_outcome(&work, kind)?;
                return confirm(store, workspaces, clock, work, request.execution_spec, &execution_id, &attempt_id, outcome);
            },
            RunReaction::ParkThenFail(err) => {
                park_claim(store, clock, work, &execution_id, &attempt_id)?;
                return Err(err);
            },
            RunReaction::Park => {
                return park_claim(store, clock, work, &execution_id, &attempt_id);
            },
            RunReaction::Retry => {
                let (replacement, left) = plan_retry(&attempt_id, generated_attempt_id(), remaining_retries);
                store.retry_attempt(&execution_id, &replacement.previous, &replacement.next, clock.unix_ms())?;
                remaining_retries = left;
                attempt_id = replacement.next;
            },
        }
    }
}

/// Applies a closed outcome to Work. A repeat appends no second event; the
/// memory line is written every time, so a retry after a lost memory write
/// still records it. A Work it returns has finished.
pub fn complete<S: WorkStore, W: WorkspaceFactory, C: Clock>(
    store: &mut S,
    workspaces: &W,
    clock: &C,
    id: &WorkId,
    outcome: &Outcome,
) -> (r: Result<Work, AppError>)
    ensures
        r matches Ok(w) ==> is_terminal(w@.status) && w@.status == crate::domain::outcome::outcome_status(
            outcome@.kind,
        ) && w@.id == id@,
{
    proof {
        assert forall|v: crate::domain::work::WorkView| #[trigger] spec_complete(v, outcome@.kind).1.id == v.id by {
            crate::domain::work::lemma_operations_change_only_status(v, outcome@.kind);
        }
    }
    let work = load(store, id)?;
    let terminal = work.status() == WorkStatus::Succeeded || work.status() == WorkStatus::Failed;
    let recorded = if terminal {
        let events = store.events(id)?;
        if events.len() == 0 {
            None
        } else {
            events[events.len() - 1].outcome_kind()
        }
    } else {
        None
    };
    let plan = plan_complete(work, outcome, recorded, clock.unix_ms())?;
    match plan.event {
        Some(e) => store.put(&plan.work, e)?,
        None => {},
    }
    workspaces.record_memory(id, plan.memory_status, plan.memory_kind)?;
    Ok(plan.work)
}

/// The historical recovery transition: running Work to `parked`. A Work it
/// returns is parked.
pub fn park<S: WorkStore, C: Clock>(store: &mut S, clock: &C, id: &WorkId) -> (r: Result<Work, AppError>)
    ensures
        r matches Ok(w) ==> w@.status == WorkStatus::Parked && w@.id == id@,
{
    let work = load(store, id)?;
    proof {
        crate::domain::work::lemma_operations_change_only_status(work@, OutcomeKind::Succeeded);
    }
    let (work, event) = plan_park(work, clock.unix_ms())?;
    match event {
        Some(e) => store.put(&work, e)?,
        None => {},
    }
    Ok(work)
}

/// Parks every Work left running by a previous daemon, releasing its
/// unconfirmed lease when it has one, before new controls are accepted.
/// The ids of the Work it parked, in list order: `recover_listed` on what
/// the store lists.
pub fn recover_unconfirmed<S: WorkStore, C: Clock>(store: &mut S, clock: &C) -> (r: Result<
    Vec<WorkId>,
    AppError,
>)
    ensures
        r matches Ok(ids) ==> exists|listed: Vec<Work>|
            #[trigger] call_ensures(S::list, (&*old(store),), Ok::<Vec<Work>, AppError>(listed))
                && ids@.map_values(|id: WorkId| id@) == running_ids(listed@),
{
    let works = store.list()?;
    recover_listed(store, clock, works.as_slice())
}

/// The ids of the running Works in `listed`, in order.
pub open spec fn running_ids(listed: Seq<Work>) -> Seq<Seq<char>> {
    crate::control::usecases::work_views(listed).filter(
        |w: crate::domain::work::WorkView| w.status == WorkStatus::Running,
    ).map_values(|w: crate::domain::work::WorkView| w.id)
}

/// `x` is the id of a running Work of `listed`.
pub open spec fn is_running_id_of(listed: Seq<Work>, x: Seq<char>) -> bool {
    exists|j: int| 0 <= j < listed.len() && (#[trigger] listed[j])@.status == WorkStatus::Running && listed[j]@.id == x
}

/// Recovery takes every running Work and nothing else: the id of each
/// listed running Work is among the recovered ids, each recovered id is
/// the id of a listed running Work, and there are no more ids than listed
/// Works.
pub proof fn lemma_running_ids_are_the_running_works(listed: Seq<Work>)
    ensures
        forall|j: int|
            0 <= j < listed.len() && (#[trigger] listed[j])@.status == WorkStatus::Running
                ==> running_ids(listed).contains(listed[j]@.id),
        forall|k: int|
            0 <= k < running_ids(listed).len() ==> is_running_id_of(listed, #[trigger] running_ids(listed)[k]),
        running_ids(listed).len() <= listed.len(),
{
    let vs = crate::control::usecases::work_views(listed);
    let pred = |w: crate::domain::work::WorkView| w.status == WorkStatus::Running;
    let f = vs.filter(pred);
    let ids = running_ids(listed);
    assert(ids == f.map_values(|w: crate::domain::work::WorkView| w.id));
    vs.lemma_filter_len(pred);
    assert forall|j: int| 0 <= j < listed.len() && (#[trigger] listed[j])@.status == WorkStatus::Running
        implies ids.contains(listed[j]@.id) by {
        assert(vs[j] == listed[j]@);
        vs.lemma_filter_contains(pred, j);
        let k = choose|k: int| 0 <= k < f.len() && f[k] == vs[j];
        assert(ids[k] == listed[j]@.id);
    }
    assert forall|k: int| 0 <= k < ids.len() implies is_running_id_of(listed, #[trigger] ids[k]) by {
        vs.lemma_filter_pred(pred, k);
        assert(f.contains(f[k]));
        vs.lemma_filter_contains_rev(pred, f[k]);
        let j = choose|j: int| 0 <= j < vs.len() && vs[j] == f[k];
        assert(vs[j] == listed[j]@);
        assert(ids[k] == f[k].id);
    }
}

/// Recovers the running Works among `listed`, one after the other: each is
/// read again, parked by `plan_recover`, and written with its active lease
/// released when it has one. The first failure stops the recovery. On
/// success, the ids it returns are exactly those of the running Works of
/// `listed`, in list order: every one it parked or reclaimed.
pub fn recover_listed<S: WorkStore, C: Clock>(store: &mut S, clock: &C, listed: &[Work]) -> (r: Result<
    Vec<WorkId>,
    AppError,
>)
    ensures
        r matches Ok(ids) ==> ids@.map_values(|id: WorkId| id@) == running_ids(listed@),
{
    let leftover = running_work_ids(listed);
    let mut parked: Vec<WorkId> = Vec::new();
    let mut i: usize = 0;
    while i < leftover.len()
        invariant
            i <= leftover.len(),
            parked@.map_values(|id: WorkId| id@) == leftover@.take(i as int).map_values(
                |id: WorkId| id@,
            ),
        decreases leftover.len() - i,
    {
        let id = &leftover[i];
        let work = load(store, id)?;
        proof {
            crate::domain::work::lemma_operations_change_only_status(work@, OutcomeKind::Succeeded);
        }
        let executions = store.executions(id)?;
        let recovered = match plan_recover(work, executions.as_slice(), clock.unix_ms())? {
            RecoverPlan::Park { work, event } => {
                match event {
                    Some(e) => store.put(&work, e)?,
                    None => {},
                }
                work
            },
            RecoverPlan::Reclaim { work, event, execution_id, attempt_id } => {
                store.reclaim_attempt(&work, event, &execution_id, &attempt_id)?;
                work
            },
        };
        assert(recovered@.id == id@);
        let ghost before = parked@;
        let recovered_id = recovered.id().clone();
        parked.push(recovered_id);
        proof {
            assert(leftover@.take(i + 1) =~= leftover@.take(i as int).push(leftover@[i as int]));
            assert(parked@ =~= before.push(recovered_id));
            assert(parked@.map_values(|id: WorkId| id@) =~= before.map_values(|id: WorkId| id@).push(
                recovered_id@,
            ));
            assert(leftover@.take(i + 1).map_values(|id: WorkId| id@) =~= leftover@.take(
                i as int,
            ).map_values(|id: WorkId| id@).push(leftover@[i as int]@));
        }
        i = i + 1;
    }
    proof {
        assert(leftover@.take(leftover@.len() as int) =~= leftover@);
    }
    Ok(parked)
}

/// Records an operator request for running Work. Work in any other status
/// is a conflict: `request_control_of` on the Work the store has.
pub fn request_control<S: WorkStore, C: Clock>(store: &mut S, clock: &C, id: &WorkId, kind: ControlKind) -> (r:
    Result<ControlDirective, AppError>)
    ensures
        r matches Ok(d) ==> d.kind == kind && exists|w: Work|
            #[trigger] call_ensures(S::get, (&*old(store), id), Ok::<Option<Work>, AppError>(Some(w)))
                && w@.status == WorkStatus::Running,
{
    let work = load(store, id)?;
    request_control_of(store, clock, &work, kind)
}

/// Records an operator request for `work`. When it is not running, the
/// answer is the Conflict `check_control` gives and nothing is asked of the
/// store; when it runs, the store records a request of kind `kind` under
/// its id, and the directive answered is that request: the store's request
/// id, with the kind asked for.
pub fn request_control_of<S: WorkStore, C: Clock>(
    store: &mut S,
    clock: &C,
    work: &Work,
    kind: ControlKind,
) -> (r: Result<ControlDirective, AppError>)
    ensures
        work@.status != WorkStatus::Running ==> (r matches Err(AppError::Conflict(m)) && m@
            == crate::control::usecases::work_message(work@.id, " is not running"@)) && *final(store)
            == *old(store),
        r matches Ok(d) ==> d.kind == kind && work@.status == WorkStatus::Running,
{
    check_control(work)?;
    let recorded = store.request_control(work.id(), kind, clock.unix_ms())?;
    Ok(ControlDirective { request_id: recorded.request_id, kind })
}

/// Records an operator input for parked Work, in the store and in its
/// workspace. A blank body is refused before anything is read.
pub fn record_operator_input<S: WorkStore, W: WorkspaceFactory, C: Clock>(
    store: &mut S,
    workspaces: &W,
    clock: &C,
    id: &WorkId,
    kind: OperatorInputKind,
    body: &str,
) -> (r: Result<OperatorInput, AppError>)
    ensures
        crate::text::is_blank(body@) ==> (r matches Err(AppError::Conflict(m)) && m@
            == "operator input is empty"@) && *final(store) == *old(store),
{
    check_operator_body(body)?;
    let work = load(store, id)?;
    check_parked(&work)?;
    let input = store.append_operator_input(id, kind, body, clock.unix_ms())?;
    workspaces.record_operator_input(id, &input)?;
    Ok(input)
}

} // verus!

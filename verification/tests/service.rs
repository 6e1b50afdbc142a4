use std::cell::{Cell, RefCell};
use std::collections::HashMap;

use workengine::control::error::{AppError, ChannelReaction};
use workengine::control::ports::{
    ControlDirective, ControlKind, ExecutionObservation, OperatorInput, OperatorInputKind,
    SequencedEvent,
};
use workengine::control::queue::Clock;
use workengine::control::usecases::{check_execution_spec, plan_retry};
use workengine::control::service::{
    complete, create, found_work, next, park, record_operator_input, recover_listed, recover_unconfirmed,
    request_control, request_control_of, bind_request, remaining_budget,
    start, AttemptClaim, BindRequest, RunRequest, StartRequest, WorkQuery, WorkStore,
    WorkerRunner, WorkspaceFactory,
};
use workengine::{
    AttemptId, ChannelPolicy, ConfirmedOutcome, ContentDigest, EventKind, ExecutionId,
    ExecutionSpec, Outcome, OutcomeKind, Work, WorkEvent, WorkId, WorkStatus,
    EXECUTION_SPEC_SCHEMA_VERSION, OUTCOME_SCHEMA_VERSION,
};

const BUDGET_MS: u64 = 5000;

struct FakeClock {
    unix_ms: u64,
}

impl Clock for FakeClock {
    fn unix_ms(&self) -> u64 {
        self.unix_ms
    }
}

#[derive(Default)]
struct FakeStore {
    works: HashMap<String, Work>,
    order: Vec<String>,
    events: Vec<WorkEvent>,
    active: HashMap<String, (String, String)>,
}

impl WorkQuery for FakeStore {
    fn get(&self, id: &WorkId) -> Result<Option<Work>, AppError> {
        Ok(self.works.get(id.as_str()).cloned())
    }

    fn list(&self) -> Result<Vec<Work>, AppError> {
        Ok(self.order.iter().map(|id| self.works[id].clone()).collect())
    }

    fn events(&self, id: &WorkId) -> Result<Vec<WorkEvent>, AppError> {
        Ok(self.events.iter().filter(|e| e.work_id() == id).cloned().collect())
    }

    fn events_after(&self, after_seq: u64, work_id: Option<&WorkId>) -> Result<Vec<SequencedEvent>, AppError> {
        Ok(self
            .events
            .iter()
            .enumerate()
            .filter(|(index, event)| {
                (*index as u64) + 1 > after_seq && work_id.is_none_or(|id| event.work_id() == id)
            })
            .map(|(index, event)| SequencedEvent { seq: index as u64 + 1, event: event.clone() })
            .collect())
    }

    fn executions(&self, _id: &WorkId) -> Result<Vec<ExecutionObservation>, AppError> {
        Ok(Vec::new())
    }
}

impl FakeStore {
    fn store(&mut self, work: &Work) {
        let key = work.id().as_str().to_owned();
        if !self.works.contains_key(&key) {
            self.order.push(key.clone());
        }
        self.works.insert(key, work.clone());
    }

    fn release_matching(&mut self, work_id: &WorkId, execution_id: &ExecutionId, attempt_id: &AttemptId) -> Result<(), AppError> {
        let expected = (execution_id.as_str().to_owned(), attempt_id.as_str().to_owned());
        if self.active.get(work_id.as_str()) != Some(&expected) {
            return Err(AppError::Conflict("foreign attempt".to_owned()));
        }
        self.active.remove(work_id.as_str());
        Ok(())
    }
}

impl WorkStore for FakeStore {
    fn put(&mut self, work: &Work, event: WorkEvent) -> Result<(), AppError> {
        self.store(work);
        self.events.push(event);
        Ok(())
    }

    fn claim_attempt(&mut self, claim: &AttemptClaim) -> Result<(), AppError> {
        let key = claim.work.id().as_str().to_owned();
        if self.active.contains_key(&key)
            || self.works.get(&key).is_none_or(|stored| stored.status() == WorkStatus::Running)
        {
            return Err(AppError::Conflict("active attempt".to_owned()));
        }
        self.active.insert(
            key,
            (claim.execution_id.as_str().to_owned(), claim.attempt_id.as_str().to_owned()),
        );
        self.store(claim.work);
        self.events.push(claim.event.clone());
        Ok(())
    }

    fn retry_attempt(&mut self, execution_id: &ExecutionId, previous: &AttemptId, next: &AttemptId, _at: u64) -> Result<(), AppError> {
        let Some((_, active)) = self.active.values_mut().find(|(e, _)| e == execution_id.as_str()) else {
            return Err(AppError::Conflict("missing execution lease".to_owned()));
        };
        if active != previous.as_str() {
            return Err(AppError::Conflict("foreign attempt".to_owned()));
        }
        *active = next.as_str().to_owned();
        Ok(())
    }

    fn confirm_attempt(&mut self, work: &Work, event: WorkEvent, outcome: &ConfirmedOutcome) -> Result<(), AppError> {
        self.release_matching(work.id(), outcome.execution_id(), outcome.attempt_id())?;
        self.store(work);
        self.events.push(event);
        Ok(())
    }

    fn park_attempt(&mut self, work: &Work, event: WorkEvent, execution_id: &ExecutionId, attempt_id: &AttemptId) -> Result<(), AppError> {
        self.release_matching(work.id(), execution_id, attempt_id)?;
        self.store(work);
        self.events.push(event);
        Ok(())
    }

    fn reclaim_attempt(&mut self, work: &Work, event: WorkEvent, _execution_id: &ExecutionId, _attempt_id: &AttemptId) -> Result<(), AppError> {
        self.put(work, event)
    }

    fn request_control(&mut self, _work_id: &WorkId, kind: ControlKind, _at: u64) -> Result<ControlDirective, AppError> {
        Ok(ControlDirective { request_id: 1, kind })
    }

    fn append_operator_input(&mut self, _work_id: &WorkId, kind: OperatorInputKind, body: &str, at: u64) -> Result<OperatorInput, AppError> {
        Ok(OperatorInput { id: 1, kind, body: body.to_owned(), created_at_unix_ms: at })
    }
}

#[derive(Default)]
struct FakeWorkspace {
    artifacts: HashMap<String, Vec<u8>>,
    memory: RefCell<HashMap<String, Vec<(WorkStatus, OutcomeKind)>>>,
    goals: RefCell<HashMap<String, String>>,
    inputs: RefCell<Vec<String>>,
}

impl WorkspaceFactory for FakeWorkspace {
    fn bind(&self, request: &BindRequest) -> Result<String, AppError> {
        self.goals.borrow_mut().insert(request.work_id.as_str().to_owned(), request.goal.to_owned());
        Ok(format!("/workspace/{}", request.work_id.as_str()))
    }

    fn read_artifact(&self, work_id: &WorkId) -> Result<Option<Vec<u8>>, AppError> {
        Ok(self.artifacts.get(work_id.as_str()).cloned())
    }

    fn record_memory(&self, work_id: &WorkId, status: WorkStatus, outcome_kind: OutcomeKind) -> Result<(), AppError> {
        let mut memory = self.memory.borrow_mut();
        let lines = memory.entry(work_id.as_str().to_owned()).or_default();
        if lines.last() == Some(&(status, outcome_kind)) {
            return Ok(());
        }
        lines.push((status, outcome_kind));
        Ok(())
    }

    fn record_operator_input(&self, _work_id: &WorkId, input: &OperatorInput) -> Result<(), AppError> {
        self.inputs.borrow_mut().push(input.body.clone());
        Ok(())
    }
}

struct FakeRunner {
    runs: Cell<u32>,
    kind: OutcomeKind,
}

impl FakeRunner {
    fn new(kind: OutcomeKind) -> Self {
        Self { runs: Cell::new(0), kind }
    }
}

impl WorkerRunner for FakeRunner {
    fn run(&self, request: &RunRequest) -> Result<Outcome, AppError> {
        self.runs.set(self.runs.get() + 1);
        Outcome::new(OUTCOME_SCHEMA_VERSION, self.kind, request.work.attributes().worker_profile()).map_err(AppError::from)
    }

    fn decode(&self, _bytes: &[u8]) -> Result<Outcome, AppError> {
        Err(AppError::worker("unused"))
    }
}

fn ready_work(store: &mut FakeStore, clock: &FakeClock) -> Work {
    create(store, clock, "do the thing", "stub").unwrap()
}

fn execution_spec(id: &WorkId, retry_limit: u32) -> ExecutionSpec {
    ExecutionSpec::new(
        EXECUTION_SPEC_SCHEMA_VERSION,
        id.clone(),
        "stub",
        ContentDigest::parse(&format!("sha256:{}", "1".repeat(64))).unwrap(),
        ContentDigest::parse(&format!("sha256:{}", "2".repeat(64))).unwrap(),
        BUDGET_MS,
        retry_limit,
        if retry_limit == 0 { ChannelPolicy::Fail } else { ChannelPolicy::RetryThenFail },
        Vec::new(),
    )
    .unwrap()
}

fn start_work_with(
    store: &mut FakeStore,
    ws: &FakeWorkspace,
    runner: &impl WorkerRunner,
    clock: &FakeClock,
    id: &WorkId,
    retry_limit: u32,
) -> Result<Work, AppError> {
    let spec = execution_spec(id, retry_limit);
    start(store, ws, runner, clock, &StartRequest { id, execution_spec: &spec, checkout: None })
}

fn start_work(store: &mut FakeStore, ws: &FakeWorkspace, runner: &impl WorkerRunner, clock: &FakeClock, id: &WorkId) -> Result<Work, AppError> {
    start_work_with(store, ws, runner, clock, id, 0)
}

fn run_by_hand(store: &mut FakeStore, id: &WorkId) {
    let mut running = store.get(id).unwrap().unwrap();
    running.start().unwrap();
    let event = WorkEvent::started(&running, WorkStatus::Ready, 2);
    store.put(&running, event).unwrap();
}

#[test]
fn create_then_next_returns_it() {
    let mut store = FakeStore::default();
    let clock = FakeClock { unix_ms: 10 };
    let work = ready_work(&mut store, &clock);
    assert_eq!(work.status(), WorkStatus::Ready);
    assert_eq!(next(&store).unwrap().as_ref(), Some(work.id()));
}

#[test]
fn next_fifo_oldest_ready() {
    let mut store = FakeStore::default();
    let first = create(&mut store, &FakeClock { unix_ms: 1 }, "a", "stub").unwrap();
    let _second = create(&mut store, &FakeClock { unix_ms: 2 }, "b", "stub").unwrap();
    assert_eq!(next(&store).unwrap().as_ref(), Some(first.id()));
}

#[test]
fn next_prefers_ready_over_parked() {
    let mut store = FakeStore::default();
    let clock = FakeClock { unix_ms: 1 };
    let parked = create(&mut store, &clock, "old", "stub").unwrap();
    run_by_hand(&mut store, parked.id());
    park(&mut store, &clock, parked.id()).unwrap();
    let ready = create(&mut store, &FakeClock { unix_ms: 99 }, "new", "stub").unwrap();
    assert_eq!(next(&store).unwrap().as_ref(), Some(ready.id()));
}

#[test]
fn next_is_idempotent() {
    let mut store = FakeStore::default();
    let work = ready_work(&mut store, &FakeClock { unix_ms: 1 });
    assert_eq!(next(&store).unwrap(), next(&store).unwrap());
    assert_eq!(next(&store).unwrap().as_ref(), Some(work.id()));
}

#[test]
fn start_spawns_once_and_completes() {
    let mut store = FakeStore::default();
    let ws = FakeWorkspace::default();
    let runner = FakeRunner::new(OutcomeKind::Succeeded);
    let clock = FakeClock { unix_ms: 1 };
    let work = ready_work(&mut store, &clock);
    let done = start_work(&mut store, &ws, &runner, &clock, work.id()).unwrap();
    assert_eq!(done.status(), WorkStatus::Succeeded);
    assert_eq!(runner.runs.get(), 1);
    assert_eq!(ws.memory.borrow()[work.id().as_str()].len(), 1);
    assert_eq!(store.events(work.id()).unwrap().len(), 3);
    assert_eq!(done.workspace_root(), Some(format!("/workspace/{}", work.id().as_str()).as_str()));
}

#[test]
fn ready_work_rejects_a_preexisting_outcome_artifact() {
    let mut store = FakeStore::default();
    let clock = FakeClock { unix_ms: 1 };
    let work = ready_work(&mut store, &clock);
    let mut ws = FakeWorkspace::default();
    ws.artifacts.insert(work.id().as_str().to_owned(), b"succeeded".to_vec());
    let runner = FakeRunner::new(OutcomeKind::Failed);
    let err = start_work(&mut store, &ws, &runner, &clock, work.id()).unwrap_err();
    assert!(matches!(err, AppError::OutcomeSchema(_)));
    assert_eq!(runner.runs.get(), 0);
}

#[test]
fn terminal_failed_outcome_cannot_be_reclassified() {
    let mut store = FakeStore::default();
    let ws = FakeWorkspace::default();
    let runner = FakeRunner::new(OutcomeKind::Failed);
    let clock = FakeClock { unix_ms: 1 };
    let work = ready_work(&mut store, &clock);
    start_work(&mut store, &ws, &runner, &clock, work.id()).unwrap();
    let replacement = Outcome::new(OUTCOME_SCHEMA_VERSION, OutcomeKind::TimedOut, "stub").unwrap();
    let err = complete(&mut store, &ws, &clock, work.id(), &replacement).unwrap_err();
    assert!(matches!(err, AppError::Conflict(_)));
    assert_eq!(ws.memory.borrow()[work.id().as_str()].len(), 1);
}

#[test]
fn outcome_profile_must_match_work_profile() {
    let mut store = FakeStore::default();
    let ws = FakeWorkspace::default();
    let clock = FakeClock { unix_ms: 1 };
    let work = ready_work(&mut store, &clock);
    let wrong = Outcome::new(OUTCOME_SCHEMA_VERSION, OutcomeKind::Succeeded, "other").unwrap();
    let err = complete(&mut store, &ws, &clock, work.id(), &wrong).unwrap_err();
    assert!(matches!(err, AppError::OutcomeSchema(_)));
}

#[test]
fn complete_is_idempotent_and_does_not_append_a_second_event() {
    let mut store = FakeStore::default();
    let ws = FakeWorkspace::default();
    let runner = FakeRunner::new(OutcomeKind::Succeeded);
    let clock = FakeClock { unix_ms: 1 };
    let work = ready_work(&mut store, &clock);
    start_work(&mut store, &ws, &runner, &clock, work.id()).unwrap();
    let n = store.events(work.id()).unwrap().len();
    let outcome = Outcome::new(OUTCOME_SCHEMA_VERSION, OutcomeKind::Succeeded, "stub").unwrap();
    complete(&mut store, &ws, &clock, work.id(), &outcome).unwrap();
    assert_eq!(store.events(work.id()).unwrap().len(), n);
    assert_eq!(ws.memory.borrow()[work.id().as_str()].len(), 1);
}

#[test]
fn complete_retry_writes_memory_if_the_first_write_was_lost() {
    let mut store = FakeStore::default();
    let ws = FakeWorkspace::default();
    let runner = FakeRunner::new(OutcomeKind::Succeeded);
    let clock = FakeClock { unix_ms: 1 };
    let work = ready_work(&mut store, &clock);
    start_work(&mut store, &ws, &runner, &clock, work.id()).unwrap();
    ws.memory.borrow_mut().clear();
    let outcome = Outcome::new(OUTCOME_SCHEMA_VERSION, OutcomeKind::Succeeded, "stub").unwrap();
    complete(&mut store, &ws, &clock, work.id(), &outcome).unwrap();
    assert_eq!(ws.memory.borrow()[work.id().as_str()].len(), 1);
    complete(&mut store, &ws, &clock, work.id(), &outcome).unwrap();
    assert_eq!(ws.memory.borrow()[work.id().as_str()].len(), 1);
}

#[test]
fn recover_parks_leftover_running() {
    let mut store = FakeStore::default();
    let clock = FakeClock { unix_ms: 1 };
    let work = ready_work(&mut store, &clock);
    run_by_hand(&mut store, work.id());
    let parked = recover_unconfirmed(&mut store, &clock).unwrap();
    assert_eq!(parked.len(), 1);
    assert_eq!(store.get(work.id()).unwrap().unwrap().status(), WorkStatus::Parked);
    assert_eq!(next(&store).unwrap().as_ref(), Some(work.id()));
}

#[test]
fn park_does_not_run_the_worker() {
    let mut store = FakeStore::default();
    let runner = FakeRunner::new(OutcomeKind::Succeeded);
    let clock = FakeClock { unix_ms: 1 };
    let work = ready_work(&mut store, &clock);
    run_by_hand(&mut store, work.id());
    park(&mut store, &clock, work.id()).unwrap();
    park(&mut store, &clock, work.id()).unwrap();
    assert_eq!(runner.runs.get(), 0);
    assert_eq!(store.get(work.id()).unwrap().unwrap().status(), WorkStatus::Parked);
}

#[test]
fn start_after_success_is_illegal() {
    let mut store = FakeStore::default();
    let ws = FakeWorkspace::default();
    let runner = FakeRunner::new(OutcomeKind::Succeeded);
    let clock = FakeClock { unix_ms: 1 };
    let work = ready_work(&mut store, &clock);
    start_work(&mut store, &ws, &runner, &clock, work.id()).unwrap();
    let err = start_work(&mut store, &ws, &runner, &clock, work.id()).unwrap_err();
    assert!(matches!(err, AppError::Domain(_)));
}

#[test]
fn timeout_outcome_fails_work_without_a_second_spawn_on_complete() {
    let mut store = FakeStore::default();
    let ws = FakeWorkspace::default();
    let runner = FakeRunner::new(OutcomeKind::TimedOut);
    let clock = FakeClock { unix_ms: 1 };
    let work = ready_work(&mut store, &clock);
    let done = start_work(&mut store, &ws, &runner, &clock, work.id()).unwrap();
    assert_eq!(done.status(), WorkStatus::Failed);
    assert_eq!(runner.runs.get(), 1);
}

#[test]
fn next_skips_succeeded() {
    let mut store = FakeStore::default();
    let ws = FakeWorkspace::default();
    let runner = FakeRunner::new(OutcomeKind::Succeeded);
    let clock = FakeClock { unix_ms: 1 };
    let work = ready_work(&mut store, &clock);
    start_work(&mut store, &ws, &runner, &clock, work.id()).unwrap();
    assert_eq!(next(&store).unwrap(), None);
}

#[test]
fn parked_work_rejects_a_legacy_shared_outcome_artifact() {
    let mut store = FakeStore::default();
    let clock = FakeClock { unix_ms: 1 };
    let work = ready_work(&mut store, &clock);
    run_by_hand(&mut store, work.id());
    park(&mut store, &clock, work.id()).unwrap();
    let mut ws = FakeWorkspace::default();
    ws.artifacts.insert(work.id().as_str().to_owned(), b"succeeded".to_vec());
    let runner = FakeRunner::new(OutcomeKind::Failed);
    let err = start_work(&mut store, &ws, &runner, &clock, work.id()).unwrap_err();
    assert!(matches!(err, AppError::OutcomeSchema(_)));
    assert_eq!(runner.runs.get(), 0);
}

#[test]
fn complete_after_recover_applies_to_parked() {
    let mut store = FakeStore::default();
    let ws = FakeWorkspace::default();
    let clock = FakeClock { unix_ms: 1 };
    let work = ready_work(&mut store, &clock);
    run_by_hand(&mut store, work.id());
    recover_unconfirmed(&mut store, &clock).unwrap();
    assert_eq!(store.get(work.id()).unwrap().unwrap().status(), WorkStatus::Parked);
    let outcome = Outcome::new(OUTCOME_SCHEMA_VERSION, OutcomeKind::Succeeded, "stub").unwrap();
    let done = complete(&mut store, &ws, &clock, work.id(), &outcome).unwrap();
    assert_eq!(done.status(), WorkStatus::Succeeded);
}

#[test]
fn bad_artifact_is_schema_error_and_does_not_complete() {
    let mut store = FakeStore::default();
    let clock = FakeClock { unix_ms: 1 };
    let work = ready_work(&mut store, &clock);
    let mut ws = FakeWorkspace::default();
    ws.artifacts.insert(work.id().as_str().to_owned(), b"not-json".to_vec());
    let runner = FakeRunner::new(OutcomeKind::Succeeded);
    let err = start_work(&mut store, &ws, &runner, &clock, work.id()).unwrap_err();
    assert!(matches!(err, AppError::OutcomeSchema(_)));
    assert_eq!(store.get(work.id()).unwrap().unwrap().status(), WorkStatus::Ready);
    assert_eq!(runner.runs.get(), 0);
}

#[test]
fn started_and_completed_events_use_clock_not_work_birth() {
    let mut store = FakeStore::default();
    let ws = FakeWorkspace::default();
    let runner = FakeRunner::new(OutcomeKind::Succeeded);
    let work = ready_work(&mut store, &FakeClock { unix_ms: 10 });
    start_work(&mut store, &ws, &runner, &FakeClock { unix_ms: 50 }, work.id()).unwrap();
    let events = store.events(work.id()).unwrap();
    assert_eq!(events[0].created_at_unix_ms(), 10);
    assert_eq!(events[1].created_at_unix_ms(), 50);
    assert_eq!(events[2].created_at_unix_ms(), 50);
}

struct BoomRunner;

impl WorkerRunner for BoomRunner {
    fn run(&self, _request: &RunRequest) -> Result<Outcome, AppError> {
        Err(AppError::worker("spawn failed"))
    }

    fn decode(&self, _bytes: &[u8]) -> Result<Outcome, AppError> {
        Err(AppError::worker("unused"))
    }
}

#[test]
fn runner_error_completes_as_channel_error_without_returning_err() {
    let mut store = FakeStore::default();
    let ws = FakeWorkspace::default();
    let clock = FakeClock { unix_ms: 1 };
    let work = ready_work(&mut store, &clock);
    let done = start_work(&mut store, &ws, &BoomRunner, &clock, work.id()).unwrap();
    assert_eq!(done.status(), WorkStatus::Failed);
    let last = store.events(work.id()).unwrap().pop().unwrap();
    assert_eq!(last.outcome_kind(), Some(OutcomeKind::ChannelError));
}

struct ChannelRunner {
    runs: Cell<u32>,
    reactions: Vec<ChannelReaction>,
    then: Option<OutcomeKind>,
}

impl WorkerRunner for ChannelRunner {
    fn run(&self, request: &RunRequest) -> Result<Outcome, AppError> {
        let i = self.runs.get() as usize;
        self.runs.set(self.runs.get() + 1);
        if i < self.reactions.len() {
            return Err(AppError::Channel(self.reactions[i]));
        }
        let kind = self.then.unwrap_or(OutcomeKind::Succeeded);
        Outcome::new(OUTCOME_SCHEMA_VERSION, kind, request.work.attributes().worker_profile()).map_err(AppError::from)
    }

    fn decode(&self, _bytes: &[u8]) -> Result<Outcome, AppError> {
        Err(AppError::worker("unused"))
    }
}

fn kinds(store: &FakeStore, id: &WorkId) -> Vec<EventKind> {
    store.events(id).unwrap().iter().map(|e| e.kind()).collect()
}

#[test]
fn channel_fail_completes_failed_without_retry() {
    let mut store = FakeStore::default();
    let ws = FakeWorkspace::default();
    let clock = FakeClock { unix_ms: 1 };
    let work = ready_work(&mut store, &clock);
    let runner = ChannelRunner { runs: Cell::new(0), reactions: vec![ChannelReaction::Fail], then: None };
    let done = start_work_with(&mut store, &ws, &runner, &clock, work.id(), 3).unwrap();
    assert_eq!(done.status(), WorkStatus::Failed);
    assert_eq!(runner.runs.get(), 1);
    let last = store.events(work.id()).unwrap().pop().unwrap();
    assert_eq!(last.outcome_kind(), Some(OutcomeKind::ChannelError));
}

#[test]
fn channel_park_parks_the_same_work_without_complete() {
    let mut store = FakeStore::default();
    let ws = FakeWorkspace::default();
    let clock = FakeClock { unix_ms: 1 };
    let work = ready_work(&mut store, &clock);
    let runner = ChannelRunner { runs: Cell::new(0), reactions: vec![ChannelReaction::Park], then: None };
    let done = start_work(&mut store, &ws, &runner, &clock, work.id()).unwrap();
    assert_eq!(done.status(), WorkStatus::Parked);
    assert_eq!(done.id(), work.id());
    assert!(ws.memory.borrow().get(work.id().as_str()).is_none());
    assert_eq!(kinds(&store, work.id()), vec![EventKind::Created, EventKind::Started, EventKind::Parked]);
}

#[test]
fn channel_retry_respawns_inside_start_then_succeeds() {
    let mut store = FakeStore::default();
    let ws = FakeWorkspace::default();
    let clock = FakeClock { unix_ms: 1 };
    let work = ready_work(&mut store, &clock);
    let runner = ChannelRunner {
        runs: Cell::new(0),
        reactions: vec![ChannelReaction::Retry, ChannelReaction::Retry],
        then: Some(OutcomeKind::Succeeded),
    };
    let done = start_work_with(&mut store, &ws, &runner, &clock, work.id(), 2).unwrap();
    assert_eq!(done.status(), WorkStatus::Succeeded);
    assert_eq!(runner.runs.get(), 3);
    assert_eq!(kinds(&store, work.id()), vec![EventKind::Created, EventKind::Started, EventKind::Completed]);
}

#[test]
fn channel_retry_exhaustion_fails_closed() {
    let mut store = FakeStore::default();
    let ws = FakeWorkspace::default();
    let clock = FakeClock { unix_ms: 1 };
    let work = ready_work(&mut store, &clock);
    let runner = ChannelRunner { runs: Cell::new(0), reactions: vec![ChannelReaction::Retry], then: None };
    let done = start_work_with(&mut store, &ws, &runner, &clock, work.id(), 0).unwrap();
    assert_eq!(done.status(), WorkStatus::Failed);
    assert_eq!(runner.runs.get(), 1);
    let last = store.events(work.id()).unwrap().pop().unwrap();
    assert_eq!(last.outcome_kind(), Some(OutcomeKind::ChannelError));
}

#[test]
fn start_writes_the_goal_into_the_workspace_bind() {
    let mut store = FakeStore::default();
    let ws = FakeWorkspace::default();
    let runner = FakeRunner::new(OutcomeKind::Succeeded);
    let clock = FakeClock { unix_ms: 1 };
    let work = ready_work(&mut store, &clock);
    start_work(&mut store, &ws, &runner, &clock, work.id()).unwrap();
    assert_eq!(ws.goals.borrow().get(work.id().as_str()).map(String::as_str), Some("do the thing"));
}

#[test]
fn operator_controls_check_status() {
    let mut store = FakeStore::default();
    let ws = FakeWorkspace::default();
    let clock = FakeClock { unix_ms: 1 };
    let work = ready_work(&mut store, &clock);
    match request_control(&mut store, &clock, work.id(), ControlKind::Park) {
        Err(AppError::Conflict(m)) => assert_eq!(m, format!("Work {} is not running", work.id().as_str())),
        other => panic!("{other:?}"),
    }
    assert!(matches!(
        record_operator_input(&mut store, &ws, &clock, work.id(), OperatorInputKind::Answer, "  "),
        Err(AppError::Conflict(m)) if m == "operator input is empty"
    ));
    run_by_hand(&mut store, work.id());
    assert_eq!(request_control(&mut store, &clock, work.id(), ControlKind::Abort).unwrap().kind, ControlKind::Abort);
    park(&mut store, &clock, work.id()).unwrap();
    let input = record_operator_input(&mut store, &ws, &clock, work.id(), OperatorInputKind::Answer, "choose B").unwrap();
    assert_eq!(input.body, "choose B");
    assert_eq!(ws.inputs.borrow().as_slice(), ["choose B".to_owned()]);
    let missing = WorkId::parse("missing").unwrap();
    assert!(matches!(park(&mut store, &clock, &missing), Err(AppError::NotFound(_))));
}

#[test]
fn found_work_distinguishes_missing_from_failing() {
    let mut store = FakeStore::default();
    let clock = FakeClock { unix_ms: 1 };
    let work = ready_work(&mut store, &clock);
    let id = work.id().clone();
    assert_eq!(found_work(&id, Ok(Some(work))).unwrap().id(), &id);
    match found_work(&id, Ok(None)) {
        Err(AppError::NotFound(missing)) => assert_eq!(missing, id),
        other => panic!("{other:?}"),
    }
    match found_work(&id, Err(AppError::Conflict("busy".to_owned()))) {
        Err(AppError::Conflict(m)) => assert_eq!(m, "busy"),
        other => panic!("{other:?}"),
    }
}

struct UnreadableArtifacts(FakeWorkspace);

impl WorkspaceFactory for UnreadableArtifacts {
    fn bind(&self, request: &BindRequest) -> Result<String, AppError> {
        self.0.bind(request)
    }

    fn read_artifact(&self, _work_id: &WorkId) -> Result<Option<Vec<u8>>, AppError> {
        Err(AppError::worker("artifact unreadable"))
    }

    fn record_memory(&self, work_id: &WorkId, status: WorkStatus, outcome_kind: OutcomeKind) -> Result<(), AppError> {
        self.0.record_memory(work_id, status, outcome_kind)
    }

    fn record_operator_input(&self, work_id: &WorkId, input: &OperatorInput) -> Result<(), AppError> {
        self.0.record_operator_input(work_id, input)
    }
}

#[test]
fn start_checks_the_spec_before_reading_the_workspace() {
    let mut store = FakeStore::default();
    let clock = FakeClock { unix_ms: 1 };
    let work = ready_work(&mut store, &clock);
    let ws = UnreadableArtifacts(FakeWorkspace::default());
    let runner = FakeRunner::new(OutcomeKind::Succeeded);
    let other = WorkId::parse("work-other").unwrap();
    let spec = execution_spec(&other, 0);
    let err = start(&mut store, &ws, &runner, &clock, &StartRequest { id: work.id(), execution_spec: &spec, checkout: None })
        .unwrap_err();
    match err {
        AppError::Conflict(m) => assert_eq!(m, "execution spec does not belong to this Work and profile"),
        other => panic!("{other:?}"),
    }
    let spec = execution_spec(work.id(), 0);
    let err = start(&mut store, &ws, &runner, &clock, &StartRequest { id: work.id(), execution_spec: &spec, checkout: None })
        .unwrap_err();
    assert!(matches!(err, AppError::Worker(_)));
    assert_eq!(runner.runs.get(), 0);
}

#[test]
fn recover_listed_returns_the_running_ids_in_list_order() {
    let mut store = FakeStore::default();
    let clock = FakeClock { unix_ms: 1 };
    let first = ready_work(&mut store, &clock);
    let idle = ready_work(&mut store, &clock);
    let second = ready_work(&mut store, &clock);
    run_by_hand(&mut store, first.id());
    run_by_hand(&mut store, second.id());
    let listed = store.list().unwrap();
    let ids = recover_listed(&mut store, &clock, &listed).unwrap();
    assert_eq!(ids, vec![first.id().clone(), second.id().clone()]);
    assert_eq!(store.get(first.id()).unwrap().unwrap().status(), WorkStatus::Parked);
    assert_eq!(store.get(second.id()).unwrap().unwrap().status(), WorkStatus::Parked);
    assert_eq!(store.get(idle.id()).unwrap().unwrap().status(), WorkStatus::Ready);
    let relisted = store.list().unwrap();
    assert!(recover_listed(&mut store, &clock, &relisted).unwrap().is_empty());
}

#[test]
fn request_control_of_idle_work_is_a_conflict() {
    let mut store = FakeStore::default();
    let clock = FakeClock { unix_ms: 1 };
    let work = ready_work(&mut store, &clock);
    match request_control_of(&mut store, &clock, &work, ControlKind::Park) {
        Err(AppError::Conflict(m)) => assert!(m.ends_with(" is not running")),
        other => panic!("{other:?}"),
    }
    run_by_hand(&mut store, work.id());
    let running = store.get(work.id()).unwrap().unwrap();
    assert_eq!(request_control_of(&mut store, &clock, &running, ControlKind::Abort).unwrap().kind, ControlKind::Abort);
}

#[test]
fn a_retry_replaces_the_claimed_attempt() {
    let current = AttemptId::parse("attempt-1").unwrap();
    let fresh = AttemptId::parse("attempt-2").unwrap();
    let (replacement, left) = plan_retry(&current, fresh, 3);
    assert_eq!(replacement.previous.as_str(), "attempt-1");
    assert_eq!(replacement.next.as_str(), "attempt-2");
    assert_eq!(left, 2);
}

#[test]
fn the_execution_spec_must_belong_to_the_work() {
    let mut store = FakeStore::default();
    let clock = FakeClock { unix_ms: 1 };
    let work = ready_work(&mut store, &clock);
    assert!(check_execution_spec(work.id(), &work, &execution_spec(work.id(), 0)).is_ok());
    let other = WorkId::parse("work-other").unwrap();
    match check_execution_spec(&other, &work, &execution_spec(work.id(), 0)) {
        Err(AppError::Conflict(m)) => assert_eq!(m, "execution spec does not belong to this Work and profile"),
        other => panic!("{other:?}"),
    }
}

#[test]
fn budget_left_and_bind_request_follow_their_inputs() {
    assert_eq!(remaining_budget(5000, 1200), 3800);
    assert_eq!(remaining_budget(5000, 5000), 0);
    assert_eq!(remaining_budget(5000, 9000), 0);
    let mut store = FakeStore::default();
    let clock = FakeClock { unix_ms: 1 };
    let work = ready_work(&mut store, &clock);
    let request = bind_request(work.id(), &work, Some("/checkout"));
    assert_eq!(request.work_id, work.id());
    assert_eq!(request.goal, "do the thing");
    assert_eq!(request.checkout, Some("/checkout"));
}

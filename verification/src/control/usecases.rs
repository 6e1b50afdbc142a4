//! The decisions of the lifecycle use cases: create, next, start, complete,
//! park, recover, and operator controls.
//!
//! Each use case reads from the store, decides, then writes. The decisions
//! stand here as functions from what was read to what is to be written; the
//! reads and writes themselves belong to the adapters.
use vstd::prelude::*;
use vstd::string::StringExecFns;

use crate::control::error::{AppError, ChannelReaction};
use crate::control::ports::{AttemptState, ExecutionObservation};
use crate::domain::error::DomainError;
use crate::domain::event::{completed_event, created_event, parked_event, started_event, WorkEvent};
use crate::domain::execution::{ConfirmedOutcome, ConfirmedOutcomeView, ExecutionSpec, CONFIRMED_OUTCOME_SCHEMA_VERSION};
use crate::domain::ids::{default_project_name, AttemptId, ExecutionId, WorkId};
use crate::domain::outcome::{Outcome, OutcomeKind, OutcomeView, OUTCOME_SCHEMA_VERSION};
use crate::domain::status::{is_terminal, WorkStatus};
use crate::domain::work::{
    fresh_work, spec_complete, spec_park, spec_start, Apply, AttributesView, Work, WorkAttributes,
    WorkView,
};
use crate::external::{random_uuid_text, uuid_text_shape};
use crate::text::{blank, is_blank, is_id_char, join2, owned, str_eq, valid_opaque_id};

verus! {

/// The views of a list of Works.
pub open spec fn work_views(works: Seq<Work>) -> Seq<WorkView> {
    works.map_values(|w: Work| w@)
}

/// Some Work in `ws` has status `st`.
pub open spec fn has_status(ws: Seq<WorkView>, st: WorkStatus) -> bool {
    exists|j: int| 0 <= j < ws.len() && (#[trigger] ws[j]).status == st
}

/// `ws[i]` is the oldest Work with status `st`; among Works born at the same
/// time, the first one listed.
pub open spec fn is_oldest_with(ws: Seq<WorkView>, i: int, st: WorkStatus) -> bool {
    &&& 0 <= i < ws.len()
    &&& ws[i].status == st
    &&& forall|j: int|
        0 <= j < ws.len() && (#[trigger] ws[j]).status == st ==> ws[i].created_at_unix_ms
            < ws[j].created_at_unix_ms || (ws[i].created_at_unix_ms == ws[j].created_at_unix_ms
            && i <= j)
}

/// The index of the oldest Work with status `st`, if any.
pub fn oldest_with(works: &[Work], st: WorkStatus) -> (r: Option<usize>)
    ensures
        match r {
            Some(i) => is_oldest_with(work_views(works@), i as int, st),
            None => !has_status(work_views(works@), st),
        },
{
    let ghost ws = work_views(works@);
    let mut best: Option<usize> = None;
    let mut i: usize = 0;
    while i < works.len()
        invariant
            ws == work_views(works@),
            i <= works.len(),
            match best {
                Some(b) => b < i && ws[b as int].status == st && forall|j: int|
                    0 <= j < i && (#[trigger] ws[j]).status == st ==> ws[b as int].created_at_unix_ms
                        < ws[j].created_at_unix_ms || (ws[b as int].created_at_unix_ms
                        == ws[j].created_at_unix_ms && b <= j),
                None => forall|j: int| 0 <= j < i ==> (#[trigger] ws[j]).status != st,
            },
        decreases works.len() - i,
    {
        assert(ws[i as int] == works@[i as int]@);
        if works[i].status() == st {
            match best {
                Some(b) => {
                    assert(ws[b as int] == works@[b as int]@);
                    if works[i].created_at_unix_ms() < works[b].created_at_unix_ms() {
                        best = Some(i);
                    }
                },
                None => {
                    best = Some(i);
                },
            }
        }
        i = i + 1;
    }
    best
}

/// What `next` may answer for the listed Works `ws`: the id of the oldest
/// `ready` Work, else of the oldest `parked` one; nothing when neither is
/// listed.
pub open spec fn next_choice(ws: Seq<WorkView>, found: Option<WorkId>) -> bool {
    match found {
        Some(id) => exists|i: int|
            (is_oldest_with(ws, i, WorkStatus::Ready) || (!has_status(ws, WorkStatus::Ready)
                && is_oldest_with(ws, i, WorkStatus::Parked))) && id@ == (#[trigger] ws[i]).id,
        None => !has_status(ws, WorkStatus::Ready) && !has_status(ws, WorkStatus::Parked),
    }
}

/// `ws[i]` is a Work `next` may start and no listed Work should go first:
/// it is `ready` or `parked`; no listed `ready` Work is older, and none is
/// `ready` at all when it is `parked`; no listed `parked` Work is older
/// than a `parked` one.
#[verifier::opaque]
pub open spec fn first_candidate(ws: Seq<WorkView>, i: int) -> bool {
    &&& 0 <= i < ws.len()
    &&& (ws[i].status == WorkStatus::Ready || ws[i].status == WorkStatus::Parked)
    &&& forall|j: int|
        0 <= j < ws.len() && (#[trigger] ws[j]).status == WorkStatus::Ready ==> ws[i].status
            == WorkStatus::Ready && ws[i].created_at_unix_ms <= ws[j].created_at_unix_ms
    &&& forall|j: int|
        0 <= j < ws.len() && ws[i].status == WorkStatus::Parked && (#[trigger] ws[j]).status
            == WorkStatus::Parked ==> ws[i].created_at_unix_ms <= ws[j].created_at_unix_ms
}

proof fn lemma_oldest_is_first_candidate(ws: Seq<WorkView>, i: int)
    requires
        is_oldest_with(ws, i, WorkStatus::Ready) || (!has_status(ws, WorkStatus::Ready)
            && is_oldest_with(ws, i, WorkStatus::Parked)),
    ensures
        first_candidate(ws, i),
{
    reveal(first_candidate);
    if !is_oldest_with(ws, i, WorkStatus::Ready) {
        assert forall|j: int| 0 <= j < ws.len() implies (#[trigger] ws[j]).status != WorkStatus::Ready by {
            if ws[j].status == WorkStatus::Ready {
                assert(has_status(ws, WorkStatus::Ready));
            }
        }
    }
}

/// `next` never passes over an older candidate: the Work it names is a
/// `first_candidate` of the list, and it names nothing only when no listed
/// Work is `ready` or `parked`.
pub proof fn lemma_next_names_the_oldest_candidate(ws: Seq<WorkView>, found: Option<WorkId>)
    requires
        next_choice(ws, found),
    ensures
        found matches Some(id) ==> exists|i: int| #[trigger] first_candidate(ws, i) && ws[i].id == id@,
        found is None ==> forall|j: int|
            0 <= j < ws.len() ==> (#[trigger] ws[j]).status != WorkStatus::Ready && ws[j].status
                != WorkStatus::Parked,
{
    match found {
        Some(id) => {
            let i = choose|i: int|
                (is_oldest_with(ws, i, WorkStatus::Ready) || (!has_status(ws, WorkStatus::Ready)
                    && is_oldest_with(ws, i, WorkStatus::Parked))) && id@ == (#[trigger] ws[i]).id;
            lemma_oldest_is_first_candidate(ws, i);
        },
        None => {
            assert forall|j: int| 0 <= j < ws.len() implies (#[trigger] ws[j]).status != WorkStatus::Ready
                && ws[j].status != WorkStatus::Parked by {
                if ws[j].status == WorkStatus::Ready {
                    assert(has_status(ws, WorkStatus::Ready));
                }
                if ws[j].status == WorkStatus::Parked {
                    assert(has_status(ws, WorkStatus::Parked));
                }
            }
        },
    }
}

/// The Work that `next` offers: the oldest `ready` Work, else the oldest
/// `parked` Work. Nothing is spawned.
pub fn next_startable(works: &[Work]) -> (r: Option<WorkId>)
    ensures
        ({
            let ws = work_views(works@);
            match r {
                Some(id) => exists|i: int|
                    (is_oldest_with(ws, i, WorkStatus::Ready) || (!has_status(ws, WorkStatus::Ready)
                        && is_oldest_with(ws, i, WorkStatus::Parked))) && id@ == (#[trigger] ws[i]).id,
                None => !has_status(ws, WorkStatus::Ready) && !has_status(ws, WorkStatus::Parked),
            }
        }),
        next_choice(work_views(works@), r),
{
    let ghost ws = work_views(works@);
    match oldest_with(works, WorkStatus::Ready) {
        Some(i) => {
            assert(ws[i as int] == works@[i as int]@);
            Some(works[i].id().clone())
        },
        None => match oldest_with(works, WorkStatus::Parked) {
            Some(i) => {
                assert(ws[i as int] == works@[i as int]@);
                Some(works[i].id().clone())
            },
            None => None,
        },
    }
}

/// The oldest Work with a status is unique, so `next` names one Work.
pub proof fn lemma_oldest_is_unique(ws: Seq<WorkView>, i: int, j: int, st: WorkStatus)
    requires
        is_oldest_with(ws, i, st),
        is_oldest_with(ws, j, st),
    ensures
        i == j,
{
    assert(ws[j].status == st);
    assert(ws[i].status == st);
}

/// A new identifier of the form `prefix` + random UUID text.
pub open spec fn generated_id_shape(prefix: Seq<char>, s: Seq<char>) -> bool {
    &&& s.len() == prefix.len() + 36
    &&& s.subrange(0, prefix.len() as int) == prefix
    &&& uuid_text_shape(s.subrange(prefix.len() as int, s.len() as int))
}

proof fn lemma_uuid_id_is_opaque(prefix: Seq<char>, s: Seq<char>)
    requires
        generated_id_shape(prefix, s),
        prefix.len() <= 92,
        forall|i: int| 0 <= i < prefix.len() ==> #[trigger] is_id_char(prefix[i]),
    ensures
        valid_opaque_id(s),
{
    let u = s.subrange(prefix.len() as int, s.len() as int);
    assert forall|i: int| 0 <= i < s.len() implies #[trigger] is_id_char(s[i]) by {
        if i < prefix.len() {
            assert(s.subrange(0, prefix.len() as int)[i] == s[i]);
        } else {
            assert(u[i - prefix.len()] == s[i]);
            assert(crate::text::is_lower_hex_spec(u[i - prefix.len()]) || u[i - prefix.len()]
                == '-');
        }
    }
}

/// A fresh Work id: a random UUID in its hyphenated lower-case form.
pub fn generated_work_id() -> (r: WorkId)
    ensures
        uuid_text_shape(r@),
        valid_opaque_id(r@),
{
    let text = random_uuid_text();
    proof {
        assert(generated_id_shape(Seq::empty(), text@)) by {
            assert(text@.subrange(0, 0) =~= Seq::<char>::empty());
            assert(text@.subrange(0, 36) =~= text@);
        }
        lemma_uuid_id_is_opaque(Seq::empty(), text@);
    }
    match WorkId::parse(text.as_str()) {
        Ok(id) => id,
        Err(_) => {
            assert(false);
            WorkId::parse("unreachable").unwrap()
        },
    }
}

/// A fresh execution id: `execution-` and a random UUID.
pub fn generated_execution_id() -> (r: ExecutionId)
    ensures
        generated_id_shape("execution-"@, r@),
        valid_opaque_id(r@),
{
    let text = random_uuid_text();
    let full = join2("execution-", text.as_str());
    proof {
        reveal_strlit("execution-");
        assert(full@.subrange(0, 10) =~= "execution-"@);
        assert(full@.subrange(10, 46) =~= text@);
        lemma_uuid_id_is_opaque("execution-"@, full@);
    }
    match ExecutionId::parse(full.as_str()) {
        Ok(id) => id,
        Err(_) => {
            assert(false);
            ExecutionId::parse("unreachable").unwrap()
        },
    }
}

/// A fresh attempt id: `attempt-` and a random UUID.
pub fn generated_attempt_id() -> (r: AttemptId)
    ensures
        generated_id_shape("attempt-"@, r@),
        valid_opaque_id(r@),
{
    let text = random_uuid_text();
    let full = join2("attempt-", text.as_str());
    proof {
        reveal_strlit("attempt-");
        assert(full@.subrange(0, 8) =~= "attempt-"@);
        assert(full@.subrange(8, 44) =~= text@);
        lemma_uuid_id_is_opaque("attempt-"@, full@);
    }
    match AttemptId::parse(full.as_str()) {
        Ok(id) => id,
        Err(_) => {
            assert(false);
            AttemptId::parse("unreachable").unwrap()
        },
    }
}

/// The Work that `create` persists, as `ready`, and its creation event.
/// Fails exactly when the goal or the profile is empty.
pub fn prepare_create(goal: &str, worker_profile: &str, now_unix_ms: u64) -> (r: Result<
    (Work, WorkEvent),
    AppError,
>)
    ensures
        goal@.len() == 0 || worker_profile@.len() == 0 ==> r matches Err(AppError::Domain(
            DomainError::InvalidAttributes,
        )),
        goal@.len() > 0 && worker_profile@.len() > 0 ==> (r matches Ok((w, e)) && valid_opaque_id(
            w@.id,
        ) && uuid_text_shape(w@.id) && w@ == fresh_work(
            w@.id,
            AttributesView {
                goal: goal@,
                worker_profile: worker_profile@,
                project_id: default_project_name(),
                repository: None,
                notification_target: None,
            },
            now_unix_ms,
        ) && e@ == created_event(w@)),
{
    let id = generated_work_id();
    let attributes = match WorkAttributes::new(goal, worker_profile) {
        Ok(a) => a,
        Err(e) => {
            return Err(AppError::Domain(e));
        },
    };
    let work = match Work::new(id, attributes, now_unix_ms) {
        Ok(w) => w,
        Err(e) => {
            return Err(AppError::Domain(e));
        },
    };
    let event = WorkEvent::created(&work);
    Ok((work, event))
}

/// What `complete` writes: the Work afterwards, the completion event when
/// the status changed, and the memory line (status and outcome kind).
pub struct CompletePlan {
    pub work: Work,
    pub event: Option<WorkEvent>,
    pub memory_status: WorkStatus,
    pub memory_kind: OutcomeKind,
}

/// The decision of `complete` for a Work, an outcome, and the outcome kind
/// recorded by the Work's last event.
///
/// The outcome must come from the Work's own profile. A terminal Work whose
/// recorded outcome kind differs is a conflict. Otherwise the domain
/// transition decides: a change appends a completion event at `now`; an
/// idempotent repeat appends nothing. Either way the memory line is
/// written again, so a retry after a lost memory write still records it.
pub fn plan_complete(
    work: Work,
    outcome: &Outcome,
    recorded_kind: Option<OutcomeKind>,
    now_unix_ms: u64,
) -> (r: Result<CompletePlan, AppError>)
    ensures
        ({
            let w = work@;
            let k = outcome@.kind;
            if outcome@.worker_profile != w.attributes.worker_profile {
                r matches Err(AppError::OutcomeSchema(m)) && m@ == "outcome profile "@
                    + outcome@.worker_profile + " does not match Work profile "@
                    + w.attributes.worker_profile
            } else if is_terminal(w.status) && recorded_kind is Some && recorded_kind != Some(k) {
                r matches Err(AppError::Conflict(m)) && m@ == "terminal outcome for "@ + w.id
                    + " differs from the recorded outcome"@
            } else {
                match spec_complete(w, k) {
                    (Err(e), _) => r matches Err(AppError::Domain(d)) && d == e,
                    (Ok(Apply::Idempotent { status }), w1) => r matches Ok(p) && p.work@ == w1
                        && p.event is None && p.memory_status == status && p.memory_kind == k,
                    (Ok(Apply::Changed { to, .. }), w1) => r matches Ok(p) && p.work@ == w1 && (
                    p.event matches Some(e) && e@ == completed_event(w1, w.status, k, now_unix_ms))
                        && p.memory_status == to && p.memory_kind == k,
                }
            }
        }),
{
    let mut work = work;
    if !str_eq(outcome.worker_profile(), work.attributes().worker_profile()) {
        let mut m = owned("outcome profile ");
        m.append(outcome.worker_profile());
        m.append(" does not match Work profile ");
        m.append(work.attributes().worker_profile());
        return Err(AppError::OutcomeSchema(m));
    }
    let terminal = work.status() == WorkStatus::Succeeded || work.status() == WorkStatus::Failed;
    if terminal {
        match recorded_kind {
            Some(kind) => {
                if kind != outcome.kind() {
                    let mut m = owned("terminal outcome for ");
                    m.append(work.id().as_str());
                    m.append(" differs from the recorded outcome");
                    return Err(AppError::Conflict(m));
                }
            },
            None => {},
        }
    }
    let from = work.status();
    match work.complete(outcome) {
        Err(e) => Err(AppError::Domain(e)),
        Ok(Apply::Idempotent { status }) => Ok(
            CompletePlan { work, event: None, memory_status: status, memory_kind: outcome.kind() },
        ),
        Ok(Apply::Changed { to, .. }) => {
            let event = WorkEvent::completed(&work, from, outcome.kind(), now_unix_ms);
            Ok(
                CompletePlan {
                    work,
                    event: Some(event),
                    memory_status: to,
                    memory_kind: outcome.kind(),
                },
            )
        },
    }
}

/// The decision of the historical `park` transition: a change appends a
/// park event at `now`; an already parked Work appends nothing.
pub fn plan_park(work: Work, now_unix_ms: u64) -> (r: Result<(Work, Option<WorkEvent>), AppError>)
    ensures
        match spec_park(work@) {
            (Err(e), _) => r matches Err(AppError::Domain(d)) && d == e,
            (Ok(Apply::Idempotent { .. }), w1) => r matches Ok((w, None)) && w@ == w1,
            (Ok(Apply::Changed { .. }), w1) => r matches Ok((w, Some(e))) && w@ == w1 && e@
                == parked_event(w1, work@.status, now_unix_ms),
        },
{
    let mut work = work;
    let from = work.status();
    match work.park() {
        Err(e) => Err(AppError::Domain(e)),
        Ok(Apply::Idempotent { .. }) => Ok((work, None)),
        Ok(Apply::Changed { .. }) => {
            let event = WorkEvent::parked(&work, from, now_unix_ms);
            Ok((work, Some(event)))
        },
    }
}

/// The ids of every `running` Work, in list order: the leftovers that
/// recovery must release.
pub fn running_work_ids(works: &[Work]) -> (r: Vec<WorkId>)
    ensures
        r@.map_values(|id: WorkId| id@) == work_views(works@).filter(
            |w: WorkView| w.status == WorkStatus::Running,
        ).map_values(|w: WorkView| w.id),
{
    let ghost ws = work_views(works@);
    let ghost pred = |w: WorkView| w.status == WorkStatus::Running;
    let mut out: Vec<WorkId> = Vec::new();
    let mut i: usize = 0;
    while i < works.len()
        invariant
            ws == work_views(works@),
            i <= works.len(),
            pred == (|w: WorkView| w.status == WorkStatus::Running),
            out@.map_values(|id: WorkId| id@) == ws.take(i as int).filter(pred).map_values(
                |w: WorkView| w.id,
            ),
        decreases works.len() - i,
    {
        let ghost before = out@;
        assert(ws.take(i + 1).drop_last() =~= ws.take(i as int));
        assert(ws.take(i + 1).last() == works@[i as int]@);
        reveal_with_fuel(Seq::filter, 1);
        if works[i].status() == WorkStatus::Running {
            out.push(works[i].id().clone());
            assert(out@.map_values(|id: WorkId| id@) =~= before.map_values(|id: WorkId| id@).push(
                works@[i as int]@.id,
            ));
            assert(ws.take(i + 1).filter(pred) =~= ws.take(i as int).filter(pred).push(
                works@[i as int]@,
            ));
            assert(ws.take(i + 1).filter(pred).map_values(|w: WorkView| w.id) =~= ws.take(
                i as int,
            ).filter(pred).map_values(|w: WorkView| w.id).push(works@[i as int]@.id));
        } else {
            assert(ws.take(i + 1).filter(pred) =~= ws.take(i as int).filter(pred));
        }
        i = i + 1;
    }
    assert(ws.take(works.len() as int) =~= ws);
    out
}

/// The last attempt of an execution is the active lease.
pub open spec fn has_active_last_attempt(e: ExecutionObservation) -> bool {
    e.attempts@.len() > 0 && e.attempts@.last().state == AttemptState::Active
}

/// The active lease of a Work: the latest execution whose last attempt is
/// still active, with that attempt.
pub fn active_lease(executions: &[ExecutionObservation]) -> (r: Option<(ExecutionId, AttemptId)>)
    ensures
        match r {
            Some((e, a)) => exists|i: int|
                0 <= i < executions@.len() && has_active_last_attempt(#[trigger] executions@[i])
                    && e@ == executions@[i].execution_id@ && a@ == executions@[i].attempts@.last().attempt_id@
                    && forall|j: int| i < j < executions@.len() ==> !has_active_last_attempt(
                    #[trigger] executions@[j],
                ),
            None => forall|j: int|
                0 <= j < executions@.len() ==> !has_active_last_attempt(#[trigger] executions@[j]),
        },
{
    let mut i = executions.len();
    while i > 0
        invariant
            i <= executions@.len(),
            forall|j: int| i <= j < executions@.len() ==> !has_active_last_attempt(
                #[trigger] executions@[j],
            ),
        decreases i,
    {
        i = i - 1;
        let execution = &executions[i];
        let n = execution.attempts.len();
        if n > 0 {
            let attempt = &execution.attempts[n - 1];
            if attempt.state == AttemptState::Active {
                assert(has_active_last_attempt(executions@[i as int]));
                return Some((execution.execution_id.clone(), attempt.attempt_id.clone()));
            }
        }
    }
    None
}

/// What recovery writes for one leftover `running` Work.
pub enum RecoverPlan {
    /// No active lease: the historical park, with its event when the status changed.
    Park { work: Work, event: Option<WorkEvent> },
    /// An active lease: release it and park the Work, recording the park.
    Reclaim { work: Work, event: WorkEvent, execution_id: ExecutionId, attempt_id: AttemptId },
}

/// The decision of recovery for one leftover Work, given its executions.
pub fn plan_recover(work: Work, executions: &[ExecutionObservation], now_unix_ms: u64) -> (r:
    Result<RecoverPlan, AppError>)
    ensures
        match spec_park(work@) {
            (Err(e), _) => r matches Err(AppError::Domain(d)) && d == e,
            (Ok(a), w1) => r matches Ok(p) && match p {
                RecoverPlan::Park { work: w, event } => w@ == w1 && (forall|j: int|
                    0 <= j < executions@.len() ==> !has_active_last_attempt(
                        #[trigger] executions@[j],
                    )) && match a {
                    Apply::Idempotent { .. } => event is None,
                    Apply::Changed { .. } => event matches Some(e) && e@ == parked_event(
                        w1,
                        work@.status,
                        now_unix_ms,
                    ),
                },
                RecoverPlan::Reclaim { work: w, event, execution_id, attempt_id } => w@ == w1
                    && event@ == parked_event(w1, work@.status, now_unix_ms) && exists|i: int|
                    0 <= i < executions@.len() && has_active_last_attempt(
                        #[trigger] executions@[i],
                    ) && execution_id@ == executions@[i].execution_id@ && attempt_id@
                        == executions@[i].attempts@.last().attempt_id@,
            },
        },
{
    match active_lease(executions) {
        None => match plan_park(work, now_unix_ms) {
            Ok((w, e)) => Ok(RecoverPlan::Park { work: w, event: e }),
            Err(e) => Err(e),
        },
        Some((execution_id, attempt_id)) => {
            let mut work = work;
            let from = work.status();
            match work.park() {
                Err(e) => Err(AppError::Domain(e)),
                Ok(_) => {
                    let event = WorkEvent::parked(&work, from, now_unix_ms);
                    Ok(RecoverPlan::Reclaim { work, event, execution_id, attempt_id })
                },
            }
        },
    }
}

/// The first check `start` makes, before it reads the workspace: the
/// execution spec belongs to this Work and its profile.
pub fn check_execution_spec(id: &WorkId, work: &Work, spec: &ExecutionSpec) -> (r: Result<(), AppError>)
    ensures
        spec@.work_id != id@ || spec@.worker_profile != work@.attributes.worker_profile ==> (r matches Err(
            AppError::Conflict(m),
        ) && m@ == "execution spec does not belong to this Work and profile"@),
        spec@.work_id == id@ && spec@.worker_profile == work@.attributes.worker_profile ==> r is Ok,
{
    if !str_eq(spec.work_id().as_str(), id.as_str()) || !str_eq(
        spec.worker_profile(),
        work.attributes().worker_profile(),
    ) {
        return Err(AppError::conflict("execution spec does not belong to this Work and profile"));
    }
    Ok(())
}

/// The checks `start` makes before it binds a workspace: the execution spec
/// belongs to this Work and its profile, and no shared outcome artifact is
/// left in the workspace.
pub fn check_start(id: &WorkId, work: &Work, spec: &ExecutionSpec, shared_artifact: bool) -> (r:
    Result<(), AppError>)
    ensures
        spec@.work_id != id@ || spec@.worker_profile != work@.attributes.worker_profile ==> (r matches Err(
            AppError::Conflict(m),
        ) && m@ == "execution spec does not belong to this Work and profile"@),
        spec@.work_id == id@ && spec@.worker_profile == work@.attributes.worker_profile
            && shared_artifact ==> (r matches Err(AppError::OutcomeSchema(m)) && m@
            == "shared workspace outcome artifacts are unsupported; a protected attempt artifact is required"@),
        spec@.work_id == id@ && spec@.worker_profile == work@.attributes.worker_profile
            && !shared_artifact ==> r is Ok,
{
    if !str_eq(spec.work_id().as_str(), id.as_str()) || !str_eq(
        spec.worker_profile(),
        work.attributes().worker_profile(),
    ) {
        return Err(AppError::conflict("execution spec does not belong to this Work and profile"));
    }
    if shared_artifact {
        return Err(
            AppError::outcome_schema(
                "shared workspace outcome artifacts are unsupported; a protected attempt artifact is required",
            ),
        );
    }
    Ok(())
}

/// Binds the workspace at `root`, starts the Work, and records the start at
/// `now`: what the active-attempt claim commits.
pub fn begin_start(work: Work, root: &str, now_unix_ms: u64) -> (r: Result<(Work, WorkEvent), AppError>)
    ensures
        ({
            let w = work@;
            if is_terminal(w.status) {
                r matches Err(AppError::Domain(d)) && d == DomainError::CannotBindWorkspace(w.status)
            } else {
                let bound = w.with_root(Some(root@));
                match spec_start(bound) {
                    (Err(e), _) => r matches Err(AppError::Domain(d)) && d == e,
                    (Ok(_), w1) => r matches Ok((w2, e)) && w2@ == w1 && e@ == started_event(
                        w1,
                        w.status,
                        now_unix_ms,
                    ),
                }
            }
        }),
{
    let mut work = work;
    match work.bind_workspace(root) {
        Ok(()) => {},
        Err(e) => {
            return Err(AppError::Domain(e));
        },
    }
    let from = work.status();
    match work.start() {
        Ok(_) => {},
        Err(e) => {
            return Err(AppError::Domain(e));
        },
    }
    let event = WorkEvent::started(&work, from, now_unix_ms);
    Ok((work, event))
}

/// How the start loop goes on after one Worker run.
pub enum RunReaction {
    /// Confirm the Worker's outcome.
    Confirm(Outcome),
    /// Confirm an outcome of this kind, written by the control plane.
    ConfirmKind(OutcomeKind),
    /// Park the claim, then report the schema error.
    ParkThenFail(AppError),
    /// Park the claim.
    Park,
    /// Replace the attempt and run again.
    Retry,
}

/// The start loop's reaction to one run, given the retries left.
///
/// An outcome is confirmed. A broken outcome artifact parks and fails. A
/// channel park parks. A channel retry retries while retries are left; an
/// exhausted retry, a channel failure, or any other error fails closed as a
/// channel error.
pub fn react_to_run(result: Result<Outcome, AppError>, remaining_retries: u32) -> (r: RunReaction)
    ensures
        match result {
            Ok(o) => r matches RunReaction::Confirm(p) && p@ == o@,
            Err(AppError::OutcomeSchema(_)) => r is ParkThenFail,
            Err(AppError::Channel(ChannelReaction::Park)) => r is Park,
            Err(AppError::Channel(ChannelReaction::Retry)) => if remaining_retries > 0 {
                r is Retry
            } else {
                r == RunReaction::ConfirmKind(OutcomeKind::ChannelError)
            },
            Err(_) => r == RunReaction::ConfirmKind(OutcomeKind::ChannelError),
        },
        r is Retry ==> remaining_retries > 0,
{
    match result {
        Ok(outcome) => RunReaction::Confirm(outcome),
        Err(AppError::OutcomeSchema(m)) => RunReaction::ParkThenFail(AppError::OutcomeSchema(m)),
        Err(AppError::Channel(ChannelReaction::Park)) => RunReaction::Park,
        Err(AppError::Channel(ChannelReaction::Retry)) => {
            if remaining_retries > 0 {
                RunReaction::Retry
            } else {
                RunReaction::ConfirmKind(OutcomeKind::ChannelError)
            }
        },
        Err(_) => RunReaction::ConfirmKind(OutcomeKind::ChannelError),
    }
}

/// The attempt a channel retry replaces, and the one that replaces it.
pub struct AttemptReplacement {
    pub previous: AttemptId,
    pub next: AttemptId,
}

/// A channel retry: the attempt now claimed is replaced by the freshly
/// generated `next`, and one retry is used up.
pub fn plan_retry(current: &AttemptId, next: AttemptId, remaining_retries: u32) -> (r: (
    AttemptReplacement,
    u32,
))
    requires
        remaining_retries > 0,
    ensures
        r.0.previous@ == current@,
        r.0.next@ == next@,
        r.1 == remaining_retries - 1,
{
    (AttemptReplacement { previous: current.clone(), next }, remaining_retries - 1)
}

/// An outcome of `kind` written by the control plane under the Work's
/// profile, as when the budget runs out or the channel fails.
pub fn control_plane_outcome(work: &Work, kind: OutcomeKind) -> (r: Result<Outcome, AppError>)
    ensures
        work@.attributes.worker_profile.len() == 0 ==> r matches Err(AppError::Domain(
            DomainError::InvalidAttributes,
        )),
        work@.attributes.worker_profile.len() > 0 ==> (r matches Ok(o) && o@ == (OutcomeView {
            schema_version: OUTCOME_SCHEMA_VERSION,
            kind,
            worker_profile: work@.attributes.worker_profile,
        })),
{
    match Outcome::new(OUTCOME_SCHEMA_VERSION, kind, work.attributes().worker_profile()) {
        Ok(o) => Ok(o),
        Err(e) => Err(AppError::Domain(e)),
    }
}

/// What confirming an attempt commits: the terminal Work, its completion
/// event, and the confirmed outcome that proves which attempt wrote it.
pub struct ConfirmPlan {
    pub work: Work,
    pub event: WorkEvent,
    pub confirmed: ConfirmedOutcome,
}

/// Confirms `outcome` for the active attempt at `now`: stamps it with the
/// execution and attempt, completes the Work, and records the completion.
pub fn plan_confirm(
    work: Work,
    spec: &ExecutionSpec,
    execution_id: ExecutionId,
    attempt_id: AttemptId,
    outcome: Outcome,
    now_unix_ms: u64,
) -> (r: Result<ConfirmPlan, AppError>)
    ensures
        ({
            let w = work@;
            let k = outcome@.kind;
            if outcome@.worker_profile != spec@.worker_profile {
                r matches Err(AppError::Domain(d)) && d == DomainError::InvalidConfirmedOutcome
            } else {
                match spec_complete(w, k) {
                    (Err(e), _) => r matches Err(AppError::Domain(d)) && d == e,
                    (Ok(_), w1) => r matches Ok(p) && p.work@ == w1 && p.event@ == completed_event(
                        w1,
                        w.status,
                        k,
                        now_unix_ms,
                    ) && p.confirmed@ == (ConfirmedOutcomeView {
                        schema_version: CONFIRMED_OUTCOME_SCHEMA_VERSION,
                        work_id: spec@.work_id,
                        execution_id: execution_id@,
                        attempt_id: attempt_id@,
                        outcome: outcome@,
                        confirmed_at_unix_ms: now_unix_ms,
                    }),
                }
            }
        }),
{
    let ghost o = outcome@;
    let confirmed = match ConfirmedOutcome::new(
        CONFIRMED_OUTCOME_SCHEMA_VERSION,
        execution_id,
        attempt_id,
        spec,
        outcome,
        now_unix_ms,
    ) {
        Ok(c) => c,
        Err(e) => {
            return Err(AppError::Domain(e));
        },
    };
    let mut work = work;
    let from = work.status();
    match work.complete(confirmed.outcome()) {
        Ok(_) => {},
        Err(e) => {
            return Err(AppError::Domain(e));
        },
    }
    let event = WorkEvent::completed(&work, from, confirmed.outcome().kind(), now_unix_ms);
    Ok(ConfirmPlan { work, event, confirmed })
}

/// The message of a conflict that names a Work: `Work <id> <rest>`.
pub open spec fn work_message(id: Seq<char>, rest: Seq<char>) -> Seq<char> {
    "Work "@ + id + rest
}

fn work_conflict(id: &WorkId, rest: &str) -> (r: AppError)
    ensures
        r matches AppError::Conflict(m) && m@ == work_message(id@, rest@),
{
    let mut m = owned("Work ");
    m.append(id.as_str());
    m.append(rest);
    AppError::Conflict(m)
}

/// A live control request needs a `running` Work.
pub fn check_control(work: &Work) -> (r: Result<(), AppError>)
    ensures
        work@.status == WorkStatus::Running ==> r is Ok,
        work@.status != WorkStatus::Running ==> (r matches Err(AppError::Conflict(m)) && m@
            == work_message(work@.id, " is not running"@)),
{
    if work.status() != WorkStatus::Running {
        return Err(work_conflict(work.id(), " is not running"));
    }
    Ok(())
}

/// An operator input must say something.
pub fn check_operator_body(body: &str) -> (r: Result<(), AppError>)
    ensures
        is_blank(body@) ==> (r matches Err(AppError::Conflict(m)) && m@ == "operator input is empty"@),
        !is_blank(body@) ==> r is Ok,
{
    if blank(body) {
        return Err(AppError::conflict("operator input is empty"));
    }
    Ok(())
}

/// Operator input is recorded only for a `parked` Work.
pub fn check_parked(work: &Work) -> (r: Result<(), AppError>)
    ensures
        work@.status == WorkStatus::Parked ==> r is Ok,
        work@.status != WorkStatus::Parked ==> (r matches Err(AppError::Conflict(m)) && m@
            == work_message(work@.id, " is not parked"@)),
{
    if work.status() != WorkStatus::Parked {
        return Err(work_conflict(work.id(), " is not parked"));
    }
    Ok(())
}

} // verus!

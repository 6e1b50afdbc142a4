//! One Work and its finite-state machine.
//!
//! `ready` or `parked` -> `running` by start; `running` -> `parked` by park;
//! `running` or a leftover `parked` -> `succeeded` or `failed` by complete.
//! Workengine is the only writer of a Work's status.
use vstd::prelude::*;
use vstd::string::StrSliceExecFns;

use crate::domain::error::DomainError;
use crate::domain::ids::{default_project_name, ProjectId, WorkId};
use crate::domain::outcome::{outcome_status, Outcome, OutcomeKind};
use crate::domain::status::{is_terminal, WorkStatus};
use crate::text::{any_control, blank, has_control, is_blank, owned, utf8_len, utf8_len_at_most};

verus! {

/// Result of applying a lifecycle operation. An idempotent repeat does not
/// change the status.
#[derive(Clone, Copy, Debug, PartialEq, Eq, Structural)]
pub enum Apply {
    Changed { from: WorkStatus, to: WorkStatus },
    Idempotent { status: WorkStatus },
}

/// The view of an optional string.
pub open spec fn opt_view(o: Option<String>) -> Option<Seq<char>> {
    match o {
        Some(s) => Some(s@),
        None => None,
    }
}

/// An optional repository or notification target: absent, or a non-blank
/// line of at most 512 bytes without control characters.
pub open spec fn valid_optional_text(o: Option<Seq<char>>) -> bool {
    match o {
        None => true,
        Some(s) => !is_blank(s) && utf8_len(s) <= 512 && !has_control(s),
    }
}

/// The content of a Work that is not its lifecycle status.
pub struct AttributesView {
    pub goal: Seq<char>,
    pub worker_profile: Seq<char>,
    pub project_id: Seq<char>,
    pub repository: Option<Seq<char>>,
    pub notification_target: Option<Seq<char>>,
}

/// What `WorkAttributes::scoped` accepts.
pub open spec fn valid_attributes(a: AttributesView) -> bool {
    &&& a.goal.len() > 0
    &&& a.worker_profile.len() > 0
    &&& valid_optional_text(a.repository)
    &&& valid_optional_text(a.notification_target)
}

/// Content of Work that is not lifecycle status.
#[derive(Debug, PartialEq, Eq)]
pub struct WorkAttributes {
    goal: String,
    worker_profile: String,
    project_id: ProjectId,
    repository: Option<String>,
    notification_target: Option<String>,
}

impl View for WorkAttributes {
    type V = AttributesView;

    closed spec fn view(&self) -> AttributesView {
        AttributesView {
            goal: self.goal@,
            worker_profile: self.worker_profile@,
            project_id: self.project_id@,
            repository: opt_view(self.repository),
            notification_target: opt_view(self.notification_target),
        }
    }
}

/// A copy of an optional string.
pub fn clone_opt(o: &Option<String>) -> (r: Option<String>)
    ensures
        opt_view(r) == opt_view(*o),
{
    match o {
        Some(s) => Some(s.clone()),
        None => None,
    }
}

fn opt_as_str(o: &Option<String>) -> (r: Option<&str>)
    ensures
        match r {
            Some(s) => opt_view(*o) == Some(s@),
            None => opt_view(*o) is None,
        },
{
    match o {
        Some(s) => Some(s.as_str()),
        None => None,
    }
}

fn valid_optional(o: &Option<String>) -> (r: bool)
    ensures
        r == valid_optional_text(opt_view(*o)),
{
    match o {
        None => true,
        Some(s) => !blank(s.as_str()) && utf8_len_at_most(s.as_str(), 512) && !any_control(
            s.as_str(),
        ),
    }
}

impl Clone for WorkAttributes {
    fn clone(&self) -> (r: Self)
        ensures
            r@ == self@,
    {
        WorkAttributes {
            goal: self.goal.clone(),
            worker_profile: self.worker_profile.clone(),
            project_id: self.project_id.clone(),
            repository: clone_opt(&self.repository),
            notification_target: clone_opt(&self.notification_target),
        }
    }
}

impl WorkAttributes {
    /// Attributes in the default project, with no repository and no
    /// notification target. Goal and profile must not be empty.
    pub fn new(goal: &str, worker_profile: &str) -> (r: Result<WorkAttributes, DomainError>)
        ensures
            match r {
                Ok(a) => goal@.len() > 0 && worker_profile@.len() > 0 && a@ == (AttributesView {
                    goal: goal@,
                    worker_profile: worker_profile@,
                    project_id: default_project_name(),
                    repository: None,
                    notification_target: None,
                }),
                Err(e) => (goal@.len() == 0 || worker_profile@.len() == 0) && e
                    == DomainError::InvalidAttributes,
            },
    {
        if goal.unicode_len() == 0 || worker_profile.unicode_len() == 0 {
            return Err(DomainError::InvalidAttributes);
        }
        WorkAttributes::scoped(goal, worker_profile, ProjectId::default_project(), None, None)
    }

    /// Attributes scoped to a project, with an optional repository and
    /// notification target.
    pub fn scoped(
        goal: &str,
        worker_profile: &str,
        project_id: ProjectId,
        repository: Option<String>,
        notification_target: Option<String>,
    ) -> (r: Result<WorkAttributes, DomainError>)
        ensures
            ({
                let v = AttributesView {
                    goal: goal@,
                    worker_profile: worker_profile@,
                    project_id: project_id@,
                    repository: opt_view(repository),
                    notification_target: opt_view(notification_target),
                };
                match r {
                    Ok(a) => valid_attributes(v) && a@ == v,
                    Err(e) => !valid_attributes(v) && e == DomainError::InvalidAttributes,
                }
            }),
    {
        if goal.unicode_len() == 0 || worker_profile.unicode_len() == 0 || !valid_optional(
            &repository,
        ) || !valid_optional(&notification_target) {
            return Err(DomainError::InvalidAttributes);
        }
        Ok(
            WorkAttributes {
                goal: owned(goal),
                worker_profile: owned(worker_profile),
                project_id,
                repository,
                notification_target,
            },
        )
    }

    pub fn goal(&self) -> (r: &str)
        ensures
            r@ == self@.goal,
    {
        self.goal.as_str()
    }

    pub fn worker_profile(&self) -> (r: &str)
        ensures
            r@ == self@.worker_profile,
    {
        self.worker_profile.as_str()
    }

    pub fn project_id(&self) -> (r: &ProjectId)
        ensures
            r@ == self@.project_id,
    {
        &self.project_id
    }

    pub fn repository(&self) -> (r: Option<&str>)
        ensures
            match r {
                Some(s) => self@.repository == Some(s@),
                None => self@.repository is None,
            },
    {
        opt_as_str(&self.repository)
    }

    pub fn notification_target(&self) -> (r: Option<&str>)
        ensures
            match r {
                Some(s) => self@.notification_target == Some(s@),
                None => self@.notification_target is None,
            },
    {
        opt_as_str(&self.notification_target)
    }
}

/// A Work as data.
pub struct WorkView {
    pub id: Seq<char>,
    pub status: WorkStatus,
    pub attributes: AttributesView,
    pub workspace_root: Option<Seq<char>>,
    pub created_at_unix_ms: u64,
}

impl WorkView {
    /// The same Work with another status.
    pub open spec fn with_status(self, status: WorkStatus) -> WorkView {
        WorkView { status, ..self }
    }

    /// The same Work with another workspace root.
    pub open spec fn with_root(self, root: Option<Seq<char>>) -> WorkView {
        WorkView { workspace_root: root, ..self }
    }
}

/// A new Work: `ready`, with no workspace.
pub open spec fn fresh_work(id: Seq<char>, attributes: AttributesView, created_at_unix_ms: u64) -> WorkView {
    WorkView { id, status: WorkStatus::Ready, attributes, workspace_root: None, created_at_unix_ms }
}

/// The result of `start` from a status: `ready` and `parked` change to
/// `running`; every other status is an illegal transition.
pub open spec fn start_result(s: WorkStatus) -> Result<Apply, DomainError> {
    match s {
        WorkStatus::Ready | WorkStatus::Parked => Ok(Apply::Changed { from: s, to: WorkStatus::Running }),
        _ => Err(DomainError::IllegalTransition { from: s, to: WorkStatus::Running, via: "start" }),
    }
}

/// The result of `park` from a status: `running` changes to `parked`, an
/// already `parked` Work is idempotent, anything else is illegal.
pub open spec fn park_result(s: WorkStatus) -> Result<Apply, DomainError> {
    match s {
        WorkStatus::Running => Ok(Apply::Changed { from: s, to: WorkStatus::Parked }),
        WorkStatus::Parked => Ok(Apply::Idempotent { status: WorkStatus::Parked }),
        _ => Err(DomainError::IllegalTransition { from: s, to: WorkStatus::Parked, via: "park" }),
    }
}

/// The result of `complete` from a status with an outcome that leads to `to`:
/// `running` and a leftover `parked` change to `to`; the same terminal again
/// is idempotent; another terminal is a conflict; `ready` is illegal.
pub open spec fn complete_result(s: WorkStatus, to: WorkStatus) -> Result<Apply, DomainError> {
    match s {
        WorkStatus::Running | WorkStatus::Parked => Ok(Apply::Changed { from: s, to }),
        WorkStatus::Succeeded | WorkStatus::Failed => if s == to {
            Ok(Apply::Idempotent { status: s })
        } else {
            Err(DomainError::TerminalConflict(s))
        },
        WorkStatus::Ready => Err(DomainError::IllegalTransition { from: s, to, via: "complete" }),
    }
}

/// The status after an operation with result `r` applied to status `s`.
pub open spec fn status_after(s: WorkStatus, r: Result<Apply, DomainError>) -> WorkStatus {
    match r {
        Ok(Apply::Changed { to, .. }) => to,
        _ => s,
    }
}

/// `start` on a Work: its result and the Work afterwards.
pub open spec fn spec_start(w: WorkView) -> (Result<Apply, DomainError>, WorkView) {
    let r = start_result(w.status);
    (r, w.with_status(status_after(w.status, r)))
}

/// `park` on a Work: its result and the Work afterwards.
pub open spec fn spec_park(w: WorkView) -> (Result<Apply, DomainError>, WorkView) {
    let r = park_result(w.status);
    (r, w.with_status(status_after(w.status, r)))
}

/// `complete` with an outcome of kind `k`: its result and the Work afterwards.
pub open spec fn spec_complete(w: WorkView, k: OutcomeKind) -> (Result<Apply, DomainError>, WorkView) {
    let r = complete_result(w.status, outcome_status(k));
    (r, w.with_status(status_after(w.status, r)))
}

/// Binding a workspace is allowed while the Work is not terminal.
pub open spec fn can_bind_workspace(s: WorkStatus) -> bool {
    !is_terminal(s)
}

/// One Work. Workengine is the only writer of its status.
#[derive(Debug, PartialEq, Eq)]
pub struct Work {
    id: WorkId,
    status: WorkStatus,
    attributes: WorkAttributes,
    workspace_root: Option<String>,
    created_at_unix_ms: u64,
}

impl View for Work {
    type V = WorkView;

    closed spec fn view(&self) -> WorkView {
        WorkView {
            id: self.id@,
            status: self.status,
            attributes: self.attributes@,
            workspace_root: opt_view(self.workspace_root),
            created_at_unix_ms: self.created_at_unix_ms,
        }
    }
}

impl Clone for Work {
    fn clone(&self) -> (r: Self)
        ensures
            r@ == self@,
    {
        Work {
            id: self.id.clone(),
            status: self.status,
            attributes: self.attributes.clone(),
            workspace_root: clone_opt(&self.workspace_root),
            created_at_unix_ms: self.created_at_unix_ms,
        }
    }
}

impl Work {
    /// A new Work, `ready` and without a workspace.
    pub fn new(id: WorkId, attributes: WorkAttributes, created_at_unix_ms: u64) -> (r: Result<
        Work,
        DomainError,
    >)
        ensures
            r matches Ok(w) && w@ == fresh_work(id@, attributes@, created_at_unix_ms),
    {
        Ok(Work { id, status: WorkStatus::Ready, attributes, workspace_root: None, created_at_unix_ms })
    }

    /// Loads a persisted snapshot. Not a transition; the store is the writer.
    pub fn restore(
        id: WorkId,
        status: WorkStatus,
        attributes: WorkAttributes,
        workspace_root: Option<String>,
        created_at_unix_ms: u64,
    ) -> (r: Work)
        ensures
            r@ == (WorkView {
                id: id@,
                status,
                attributes: attributes@,
                workspace_root: opt_view(workspace_root),
                created_at_unix_ms,
            }),
    {
        Work { id, status, attributes, workspace_root, created_at_unix_ms }
    }

    pub fn id(&self) -> (r: &WorkId)
        ensures
            r@ == self@.id,
    {
        &self.id
    }

    pub fn status(&self) -> (r: WorkStatus)
        ensures
            r == self@.status,
    {
        self.status
    }

    pub fn attributes(&self) -> (r: &WorkAttributes)
        ensures
            r@ == self@.attributes,
    {
        &self.attributes
    }

    pub fn workspace_root(&self) -> (r: Option<&str>)
        ensures
            match r {
                Some(s) => self@.workspace_root == Some(s@),
                None => self@.workspace_root is None,
            },
    {
        opt_as_str(&self.workspace_root)
    }

    pub fn created_at_unix_ms(&self) -> (r: u64)
        ensures
            r == self@.created_at_unix_ms,
    {
        self.created_at_unix_ms
    }

    /// Binds the isolated workspace address. Allowed in `ready`, `parked` or
    /// `running`; a terminal Work keeps its root.
    pub fn bind_workspace(&mut self, root: &str) -> (r: Result<(), DomainError>)
        ensures
            can_bind_workspace(old(self)@.status) ==> r is Ok && final(self)@ == old(self)@.with_root(
                Some(root@),
            ),
            !can_bind_workspace(old(self)@.status) ==> r == Err::<(), DomainError>(
                DomainError::CannotBindWorkspace(old(self)@.status),
            ) && final(self)@ == old(self)@,
            final(self)@ == spec_bind(old(self)@, root@),
    {
        match self.status {
            WorkStatus::Ready | WorkStatus::Parked | WorkStatus::Running => {
                self.workspace_root = Some(owned(root));
                Ok(())
            },
            other => Err(DomainError::CannotBindWorkspace(other)),
        }
    }

    /// `ready` or `parked` -> `running`. A leftover `running` is not started
    /// again: recovery parks it first.
    pub fn start(&mut self) -> (r: Result<Apply, DomainError>)
        ensures
            (r, final(self)@) == spec_start(old(self)@),
    {
        match self.status {
            WorkStatus::Ready | WorkStatus::Parked => {
                let from = self.status;
                self.status = WorkStatus::Running;
                Ok(Apply::Changed { from, to: WorkStatus::Running })
            },
            other => Err(
                DomainError::IllegalTransition { from: other, to: WorkStatus::Running, via: "start" },
            ),
        }
    }

    /// `running` or a leftover `parked` -> `succeeded` or `failed` from a
    /// closed outcome. A repeat of the same terminal is idempotent.
    pub fn complete(&mut self, outcome: &Outcome) -> (r: Result<Apply, DomainError>)
        ensures
            (r, final(self)@) == spec_complete(old(self)@, outcome@.kind),
    {
        let to = outcome.kind().to_status();
        match self.status {
            WorkStatus::Running | WorkStatus::Parked => {
                let from = self.status;
                self.status = to;
                Ok(Apply::Changed { from, to })
            },
            WorkStatus::Succeeded => {
                if to == WorkStatus::Succeeded {
                    Ok(Apply::Idempotent { status: WorkStatus::Succeeded })
                } else {
                    Err(DomainError::TerminalConflict(self.status))
                }
            },
            WorkStatus::Failed => {
                if to == WorkStatus::Failed {
                    Ok(Apply::Idempotent { status: WorkStatus::Failed })
                } else {
                    Err(DomainError::TerminalConflict(self.status))
                }
            },
            WorkStatus::Ready => Err(
                DomainError::IllegalTransition { from: WorkStatus::Ready, to, via: "complete" },
            ),
        }
    }

    /// `running` -> `parked`. Already parked is idempotent. Does not kill a
    /// process group.
    pub fn park(&mut self) -> (r: Result<Apply, DomainError>)
        ensures
            (r, final(self)@) == spec_park(old(self)@),
    {
        match self.status {
            WorkStatus::Running => {
                self.status = WorkStatus::Parked;
                Ok(Apply::Changed { from: WorkStatus::Running, to: WorkStatus::Parked })
            },
            WorkStatus::Parked => Ok(Apply::Idempotent { status: WorkStatus::Parked }),
            other => Err(
                DomainError::IllegalTransition { from: other, to: WorkStatus::Parked, via: "park" },
            ),
        }
    }
}

/// Completing again with an outcome of the same kind is idempotent: it
/// succeeds, reports the terminal status, and changes nothing.
pub proof fn lemma_complete_is_idempotent(w: WorkView, k: OutcomeKind)
    requires
        spec_complete(w, k).0 is Ok,
    ensures
        spec_complete(spec_complete(w, k).1, k) == (
            Ok::<Apply, DomainError>(Apply::Idempotent { status: outcome_status(k) }),
            spec_complete(w, k).1,
        ),
{
}

/// Completing a terminal Work with an outcome of the other terminal kind is
/// a conflict that changes nothing.
pub proof fn lemma_complete_conflicts_on_other_terminal(w: WorkView, k: OutcomeKind)
    requires
        is_terminal(w.status),
        w.status != outcome_status(k),
    ensures
        spec_complete(w, k) == (Err::<Apply, DomainError>(DomainError::TerminalConflict(w.status)), w),
{
}

/// Parking again is idempotent: it succeeds and changes nothing.
pub proof fn lemma_park_is_idempotent(w: WorkView)
    requires
        spec_park(w).0 is Ok,
    ensures
        spec_park(spec_park(w).1) == (
            Ok::<Apply, DomainError>(Apply::Idempotent { status: WorkStatus::Parked }),
            spec_park(w).1,
        ),
{
}

/// Start is not idempotent: a started Work cannot be started again until it
/// is parked.
pub proof fn lemma_start_is_not_idempotent(w: WorkView)
    requires
        spec_start(w).0 is Ok,
    ensures
        spec_start(spec_start(w).1).0 is Err,
        spec_start(spec_park(spec_start(w).1).1).0 is Ok,
{
}

/// A failed operation leaves the Work as it was, and a successful one
/// changes only the status: id, attributes, workspace and birth time stay.
pub proof fn lemma_operations_change_only_status(w: WorkView, k: OutcomeKind)
    ensures
        spec_start(w).0 is Err ==> spec_start(w).1 == w,
        spec_park(w).0 is Err ==> spec_park(w).1 == w,
        spec_complete(w, k).0 is Err ==> spec_complete(w, k).1 == w,
        spec_start(w).1 == w.with_status(spec_start(w).1.status),
        spec_park(w).1 == w.with_status(spec_park(w).1.status),
        spec_complete(w, k).1 == w.with_status(spec_complete(w, k).1.status),
{
}

/// One lifecycle operation on a Work, as data.
pub enum WorkOp {
    Start,
    Park,
    Complete(OutcomeKind),
    Bind(Seq<char>),
}

/// `bind_workspace` on a Work: the Work afterwards (unchanged when refused).
pub open spec fn spec_bind(w: WorkView, root: Seq<char>) -> WorkView {
    if can_bind_workspace(w.status) {
        w.with_root(Some(root))
    } else {
        w
    }
}

/// The Work after one operation, whether it succeeded or was refused.
pub open spec fn apply_op(w: WorkView, op: WorkOp) -> WorkView {
    match op {
        WorkOp::Start => spec_start(w).1,
        WorkOp::Park => spec_park(w).1,
        WorkOp::Complete(k) => spec_complete(w, k).1,
        WorkOp::Bind(root) => spec_bind(w, root),
    }
}

/// The Work after a sequence of operations, applied in order.
pub open spec fn apply_ops(w: WorkView, ops: Seq<WorkOp>) -> WorkView
    decreases ops.len(),
{
    if ops.len() == 0 {
        w
    } else {
        apply_ops(apply_op(w, ops[0]), ops.drop_first())
    }
}

/// A Work keeps its id, attributes and creation time across any sequence
/// of start, park, complete and bind, each succeeding or refused: a Work
/// parked and started again is the same Work.
pub proof fn lemma_operations_keep_identity(w: WorkView, ops: Seq<WorkOp>)
    ensures
        apply_ops(w, ops).id == w.id,
        apply_ops(w, ops).attributes == w.attributes,
        apply_ops(w, ops).created_at_unix_ms == w.created_at_unix_ms,
    decreases ops.len(),
{
    if ops.len() > 0 {
        lemma_operations_keep_identity(apply_op(w, ops[0]), ops.drop_first());
    }
}

/// A terminal Work stays terminal with the same status: start and park are
/// refused, and complete is either idempotent or a conflict.
pub proof fn lemma_terminal_is_absorbing(w: WorkView, k: OutcomeKind)
    requires
        is_terminal(w.status),
    ensures
        spec_start(w).0 is Err,
        spec_park(w).0 is Err,
        spec_start(w).1 == w,
        spec_park(w).1 == w,
        spec_complete(w, k).1 == w,
{
}

/// The lifecycle reaches `running` only by start, and only from `ready` or
/// `parked`; it reaches `parked` only from `running` (or stays there).
pub proof fn lemma_reachable_statuses(w: WorkView, k: OutcomeKind)
    ensures
        spec_start(w).0 is Ok <==> (w.status == WorkStatus::Ready || w.status == WorkStatus::Parked),
        spec_park(w).0 is Ok <==> (w.status == WorkStatus::Running || w.status == WorkStatus::Parked),
        spec_complete(w, k).1.status != WorkStatus::Running,
        spec_complete(w, k).0 is Ok ==> spec_complete(w, k).1.status == outcome_status(k),
{
}

} // verus!

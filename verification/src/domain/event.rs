//! The append-only Work log, and the replay that rebuilds a Work from it.
use vstd::prelude::*;

use crate::domain::error::DomainError;
use crate::domain::ids::WorkId;
use crate::domain::outcome::{Outcome, OutcomeKind, OUTCOME_SCHEMA_VERSION};
use crate::domain::status::WorkStatus;
use crate::domain::work::{
    fresh_work, opt_view, spec_complete, spec_park, spec_start, valid_attributes, Apply,
    AttributesView, Work, WorkAttributes, WorkView,
};
use crate::text::{owned, str_eq};

verus! {

/// Schema version of a stored Work event.
pub const EVENT_SCHEMA_VERSION: u32 = 1;

/// Kinds of events in the append-only Work log.
#[derive(Clone, Copy, Debug, PartialEq, Eq, Hash, Structural)]
pub enum EventKind {
    Created,
    Started,
    Completed,
    Parked,
}

/// The wire name of an event kind.
pub open spec fn event_kind_name(k: EventKind) -> Seq<char> {
    match k {
        EventKind::Created => "created"@,
        EventKind::Started => "started"@,
        EventKind::Completed => "completed"@,
        EventKind::Parked => "parked"@,
    }
}

/// The event kind whose wire name is `s`, if any.
pub open spec fn event_kind_named(s: Seq<char>) -> Option<EventKind> {
    if s == "created"@ {
        Some(EventKind::Created)
    } else if s == "started"@ {
        Some(EventKind::Started)
    } else if s == "completed"@ {
        Some(EventKind::Completed)
    } else if s == "parked"@ {
        Some(EventKind::Parked)
    } else {
        None
    }
}

impl EventKind {
    pub const ALL: [EventKind; 4] = [
        EventKind::Created,
        EventKind::Started,
        EventKind::Completed,
        EventKind::Parked,
    ];

    pub fn as_str(self) -> (r: &'static str)
        ensures
            r@ == event_kind_name(self),
    {
        match self {
            EventKind::Created => "created",
            EventKind::Started => "started",
            EventKind::Completed => "completed",
            EventKind::Parked => "parked",
        }
    }

    pub fn parse(s: &str) -> (r: Result<EventKind, DomainError>)
        ensures
            match event_kind_named(s@) {
                Some(k) => r == Ok::<EventKind, DomainError>(k),
                None => r matches Err(DomainError::UnknownEventKind(t)) && t@ == s@,
            },
    {
        if str_eq(s, "created") {
            Ok(EventKind::Created)
        } else if str_eq(s, "started") {
            Ok(EventKind::Started)
        } else if str_eq(s, "completed") {
            Ok(EventKind::Completed)
        } else if str_eq(s, "parked") {
            Ok(EventKind::Parked)
        } else {
            Err(DomainError::UnknownEventKind(owned(s)))
        }
    }
}

impl core::str::FromStr for EventKind {
    type Err = DomainError;

    fn from_str(s: &str) -> (r: Result<EventKind, DomainError>)
        ensures
            match event_kind_named(s@) {
                Some(k) => r == Ok::<EventKind, DomainError>(k),
                None => r matches Err(DomainError::UnknownEventKind(t)) && t@ == s@,
            },
    {
        EventKind::parse(s)
    }
}

/// Every event kind is read back from its own wire name.
pub proof fn lemma_event_kind_name_roundtrip(k: EventKind)
    ensures
        event_kind_named(event_kind_name(k)) == Some(k),
{
    reveal_strlit("created");
    reveal_strlit("started");
    reveal_strlit("completed");
    reveal_strlit("parked");
    assert("created"@.len() == 7 && "started"@.len() == 7);
    assert("created"@[0] == 'c' && "started"@[0] == 's');
    assert("completed"@.len() == 9);
    assert("parked"@.len() == 6);
}

/// One record of the log, as data.
pub struct EventView {
    pub schema_version: u32,
    pub work_id: Seq<char>,
    pub kind: EventKind,
    pub from: Option<WorkStatus>,
    pub to: WorkStatus,
    pub attributes: Option<AttributesView>,
    pub outcome_kind: Option<OutcomeKind>,
    pub workspace_root: Option<Seq<char>>,
    pub created_at_unix_ms: u64,
}

/// The view of optional attributes.
pub open spec fn opt_attributes_view(o: Option<WorkAttributes>) -> Option<AttributesView> {
    match o {
        Some(a) => Some(a@),
        None => None,
    }
}

/// The event of kind `kind` recorded for Work `w` at `unix_ms`. Only the
/// creation event carries the attributes; every other event carries the
/// workspace root that the Work has at that point.
pub open spec fn event_at(
    w: WorkView,
    kind: EventKind,
    from: Option<WorkStatus>,
    to: WorkStatus,
    outcome_kind: Option<OutcomeKind>,
    unix_ms: u64,
) -> EventView {
    EventView {
        schema_version: EVENT_SCHEMA_VERSION,
        work_id: w.id,
        kind,
        from,
        to,
        attributes: if kind == EventKind::Created {
            Some(w.attributes)
        } else {
            None
        },
        outcome_kind,
        workspace_root: if kind == EventKind::Created {
            None
        } else {
            w.workspace_root
        },
        created_at_unix_ms: unix_ms,
    }
}

pub open spec fn created_event(w: WorkView) -> EventView {
    event_at(w, EventKind::Created, None, WorkStatus::Ready, None, w.created_at_unix_ms)
}

pub open spec fn started_event(w: WorkView, from: WorkStatus, unix_ms: u64) -> EventView {
    event_at(w, EventKind::Started, Some(from), WorkStatus::Running, None, unix_ms)
}

pub open spec fn completed_event(
    w: WorkView,
    from: WorkStatus,
    kind: OutcomeKind,
    unix_ms: u64,
) -> EventView {
    event_at(w, EventKind::Completed, Some(from), w.status, Some(kind), unix_ms)
}

pub open spec fn parked_event(w: WorkView, from: WorkStatus, unix_ms: u64) -> EventView {
    event_at(w, EventKind::Parked, Some(from), WorkStatus::Parked, None, unix_ms)
}

/// One immutable record in the Work history. Replay reconstructs status.
#[derive(Debug, PartialEq, Eq)]
pub struct WorkEvent {
    schema_version: u32,
    work_id: WorkId,
    kind: EventKind,
    from: Option<WorkStatus>,
    to: WorkStatus,
    attributes: Option<WorkAttributes>,
    outcome_kind: Option<OutcomeKind>,
    workspace_root: Option<String>,
    created_at_unix_ms: u64,
}

impl View for WorkEvent {
    type V = EventView;

    closed spec fn view(&self) -> EventView {
        EventView {
            schema_version: self.schema_version,
            work_id: self.work_id@,
            kind: self.kind,
            from: self.from,
            to: self.to,
            attributes: opt_attributes_view(self.attributes),
            outcome_kind: self.outcome_kind,
            workspace_root: opt_view(self.workspace_root),
            created_at_unix_ms: self.created_at_unix_ms,
        }
    }
}

fn clone_opt_string(o: &Option<String>) -> (r: Option<String>)
    ensures
        opt_view(r) == opt_view(*o),
{
    match o {
        Some(s) => Some(s.clone()),
        None => None,
    }
}

fn owned_opt(o: Option<&str>) -> (r: Option<String>)
    ensures
        match o {
            Some(s) => opt_view(r) == Some(s@),
            None => r is None,
        },
{
    match o {
        Some(s) => Some(owned(s)),
        None => None,
    }
}

impl Clone for WorkEvent {
    fn clone(&self) -> (r: Self)
        ensures
            r@ == self@,
    {
        WorkEvent {
            schema_version: self.schema_version,
            work_id: self.work_id.clone(),
            kind: self.kind,
            from: self.from,
            to: self.to,
            attributes: match &self.attributes {
                Some(a) => Some(a.clone()),
                None => None,
            },
            outcome_kind: self.outcome_kind,
            workspace_root: clone_opt_string(&self.workspace_root),
            created_at_unix_ms: self.created_at_unix_ms,
        }
    }
}

impl WorkEvent {
    /// Loads a persisted event. Rejects any schema version but the current one.
    pub fn restore(
        schema_version: u32,
        work_id: WorkId,
        kind: EventKind,
        from: Option<WorkStatus>,
        to: WorkStatus,
        attributes: Option<WorkAttributes>,
        outcome_kind: Option<OutcomeKind>,
        workspace_root: Option<String>,
        created_at_unix_ms: u64,
    ) -> (r: Result<WorkEvent, DomainError>)
        ensures
            schema_version != EVENT_SCHEMA_VERSION ==> r == Err::<WorkEvent, DomainError>(
                DomainError::UnsupportedSchemaVersion(schema_version),
            ),
            schema_version == EVENT_SCHEMA_VERSION ==> (r matches Ok(e) && e@ == (EventView {
                schema_version,
                work_id: work_id@,
                kind,
                from,
                to,
                attributes: opt_attributes_view(attributes),
                outcome_kind,
                workspace_root: opt_view(workspace_root),
                created_at_unix_ms,
            })),
    {
        if schema_version != EVENT_SCHEMA_VERSION {
            return Err(DomainError::UnsupportedSchemaVersion(schema_version));
        }
        Ok(
            WorkEvent {
                schema_version,
                work_id,
                kind,
                from,
                to,
                attributes,
                outcome_kind,
                workspace_root,
                created_at_unix_ms,
            },
        )
    }

    fn at(
        work: &Work,
        kind: EventKind,
        from: Option<WorkStatus>,
        to: WorkStatus,
        outcome_kind: Option<OutcomeKind>,
        unix_ms: u64,
    ) -> (r: WorkEvent)
        ensures
            r@ == event_at(work@, kind, from, to, outcome_kind, unix_ms),
    {
        let attributes = match kind {
            EventKind::Created => Some(work.attributes().clone()),
            _ => None,
        };
        let workspace_root = match kind {
            EventKind::Created => None,
            _ => owned_opt(work.workspace_root()),
        };
        WorkEvent {
            schema_version: EVENT_SCHEMA_VERSION,
            work_id: work.id().clone(),
            kind,
            from,
            to,
            attributes,
            outcome_kind,
            workspace_root,
            created_at_unix_ms: unix_ms,
        }
    }

    /// The event that records the creation of `work`, at its birth time.
    pub fn created(work: &Work) -> (r: WorkEvent)
        ensures
            r@ == created_event(work@),
    {
        WorkEvent::at(
            work,
            EventKind::Created,
            None,
            WorkStatus::Ready,
            None,
            work.created_at_unix_ms(),
        )
    }

    /// The event that records a start of `work` from `from` at `unix_ms`.
    pub fn started(work: &Work, from: WorkStatus, unix_ms: u64) -> (r: WorkEvent)
        ensures
            r@ == started_event(work@, from, unix_ms),
    {
        WorkEvent::at(work, EventKind::Started, Some(from), WorkStatus::Running, None, unix_ms)
    }

    /// The event that records the completion of `work` from `from` with an
    /// outcome of kind `kind` at `unix_ms`.
    pub fn completed(work: &Work, from: WorkStatus, kind: OutcomeKind, unix_ms: u64) -> (r:
        WorkEvent)
        ensures
            r@ == completed_event(work@, from, kind, unix_ms),
    {
        WorkEvent::at(work, EventKind::Completed, Some(from), work.status(), Some(kind), unix_ms)
    }

    /// The event that records a park of `work` from `from` at `unix_ms`.
    pub fn parked(work: &Work, from: WorkStatus, unix_ms: u64) -> (r: WorkEvent)
        ensures
            r@ == parked_event(work@, from, unix_ms),
    {
        WorkEvent::at(work, EventKind::Parked, Some(from), WorkStatus::Parked, None, unix_ms)
    }

    pub fn schema_version(&self) -> (r: u32)
        ensures
            r == self@.schema_version,
    {
        self.schema_version
    }

    pub fn work_id(&self) -> (r: &WorkId)
        ensures
            r@ == self@.work_id,
    {
        &self.work_id
    }

    pub fn kind(&self) -> (r: EventKind)
        ensures
            r == self@.kind,
    {
        self.kind
    }

    pub fn from(&self) -> (r: Option<WorkStatus>)
        ensures
            r == self@.from,
    {
        self.from
    }

    pub fn to(&self) -> (r: WorkStatus)
        ensures
            r == self@.to,
    {
        self.to
    }

    pub fn attributes(&self) -> (r: Option<&WorkAttributes>)
        ensures
            match r {
                Some(a) => self@.attributes == Some(a@),
                None => self@.attributes is None,
            },
    {
        match &self.attributes {
            Some(a) => Some(a),
            None => None,
        }
    }

    pub fn outcome_kind(&self) -> (r: Option<OutcomeKind>)
        ensures
            r == self@.outcome_kind,
    {
        self.outcome_kind
    }

    pub fn workspace_root(&self) -> (r: Option<&str>)
        ensures
            match r {
                Some(s) => self@.workspace_root == Some(s@),
                None => self@.workspace_root is None,
            },
    {
        match &self.workspace_root {
            Some(s) => Some(s.as_str()),
            None => None,
        }
    }

    pub fn created_at_unix_ms(&self) -> (r: u64)
        ensures
            r == self@.created_at_unix_ms,
    {
        self.created_at_unix_ms
    }
}

/// Applies one logged event (after the first) to the Work rebuilt so far.
pub open spec fn replay_step(w: WorkView, e: EventView) -> Result<WorkView, DomainError> {
    if e.work_id != w.id {
        Err(DomainError::InvalidWorkId)
    } else if e.schema_version != EVENT_SCHEMA_VERSION {
        Err(DomainError::UnsupportedSchemaVersion(e.schema_version))
    } else {
        match e.kind {
            EventKind::Created => Err(DomainError::InvalidAttributes),
            EventKind::Started => {
                let (r, w2) = spec_start(w);
                match r {
                    Err(err) => Err(err),
                    Ok(_) => match e.workspace_root {
                        Some(root) => Ok(w2.with_root(Some(root))),
                        None => Ok(w2),
                    },
                }
            },
            EventKind::Completed => match e.outcome_kind {
                None => Err(DomainError::InvalidAttributes),
                Some(k) => if w.attributes.worker_profile.len() == 0 {
                    Err(DomainError::InvalidAttributes)
                } else {
                    let (r, w2) = spec_complete(w, k);
                    match r {
                        Err(err) => Err(err),
                        Ok(_) => Ok(w2),
                    }
                },
            },
            EventKind::Parked => {
                let (r, w2) = spec_park(w);
                match r {
                    Err(err) => Err(err),
                    Ok(_) => Ok(w2),
                }
            },
        }
    }
}

/// Folds events, in order, into the Work rebuilt so far.
pub open spec fn replay_from(w: WorkView, events: Seq<EventView>) -> Result<WorkView, DomainError>
    decreases events.len(),
{
    if events.len() == 0 {
        Ok(w)
    } else {
        match replay_step(w, events[0]) {
            Ok(w2) => replay_from(w2, events.drop_first()),
            Err(err) => Err(err),
        }
    }
}

/// What replay rebuilds from a whole log: the first event must record a
/// creation with attributes; the rest are folded in order.
pub open spec fn replay_spec(events: Seq<EventView>) -> Result<WorkView, DomainError> {
    if events.len() == 0 || events[0].kind != EventKind::Created {
        Err(DomainError::EmptyReplay)
    } else {
        match events[0].attributes {
            None => Err(DomainError::InvalidAttributes),
            Some(a) => replay_from(
                fresh_work(events[0].work_id, a, events[0].created_at_unix_ms),
                events.drop_first(),
            ),
        }
    }
}

/// The views of a list of events.
pub open spec fn event_views(events: Seq<WorkEvent>) -> Seq<EventView> {
    events.map_values(|e: WorkEvent| e@)
}

/// Folds an append-only event list into the current Work. Events are never
/// edited.
pub fn replay(events: &[WorkEvent]) -> (r: Result<Work, DomainError>)
    ensures
        match replay_spec(event_views(events@)) {
            Ok(v) => r matches Ok(w) && w@ == v,
            Err(e) => r == Err::<Work, DomainError>(e),
        },
{
    let ghost evs = event_views(events@);
    if events.len() == 0 {
        return Err(DomainError::EmptyReplay);
    }
    let first = &events[0];
    assert(evs[0] == first@);
    if first.kind != EventKind::Created {
        return Err(DomainError::EmptyReplay);
    }
    let attributes = match &first.attributes {
        Some(a) => a.clone(),
        None => {
            return Err(DomainError::InvalidAttributes);
        },
    };
    let mut work = match Work::new(first.work_id.clone(), attributes, first.created_at_unix_ms) {
        Ok(w) => w,
        Err(e) => {
            return Err(e);
        },
    };
    let n = events.len();
    let mut i: usize = 1;
    assert(evs.drop_first() =~= evs.subrange(1, n as int));
    while i < n
        invariant
            1 <= i <= n,
            n == events@.len(),
            evs == event_views(events@),
            replay_spec(evs) == replay_from(work@, evs.subrange(i as int, n as int)),
        decreases n - i,
    {
        let event = &events[i];
        assert(evs[i as int] == event@);
        assert(evs.subrange(i as int, n as int)[0] == event@);
        assert(evs.subrange(i as int, n as int).drop_first() =~= evs.subrange(
            i + 1,
            n as int,
        ));
        if !str_eq(event.work_id.as_str(), work.id().as_str()) {
            return Err(DomainError::InvalidWorkId);
        }
        if event.schema_version != EVENT_SCHEMA_VERSION {
            return Err(DomainError::UnsupportedSchemaVersion(event.schema_version));
        }
        match event.kind {
            EventKind::Created => {
                return Err(DomainError::InvalidAttributes);
            },
            EventKind::Started => {
                match work.start() {
                    Ok(Apply::Changed { .. }) => {
                        match &event.workspace_root {
                            Some(root) => {
                                match work.bind_workspace(root.as_str()) {
                                    Ok(()) => {},
                                    Err(e) => {
                                        return Err(e);
                                    },
                                }
                            },
                            None => {},
                        }
                    },
                    Ok(Apply::Idempotent { .. }) => {},
                    Err(e) => {
                        return Err(e);
                    },
                }
            },
            EventKind::Completed => {
                let kind = match event.outcome_kind {
                    Some(k) => k,
                    None => {
                        return Err(DomainError::InvalidAttributes);
                    },
                };
                let outcome = match Outcome::new(
                    OUTCOME_SCHEMA_VERSION,
                    kind,
                    work.attributes().worker_profile(),
                ) {
                    Ok(o) => o,
                    Err(e) => {
                        return Err(e);
                    },
                };
                match work.complete(&outcome) {
                    Ok(_) => {},
                    Err(e) => {
                        return Err(e);
                    },
                }
            },
            EventKind::Parked => {
                match work.park() {
                    Ok(_) => {},
                    Err(e) => {
                        return Err(e);
                    },
                }
            },
        }
        i = i + 1;
    }
    assert(evs.subrange(n as int, n as int).len() == 0);
    Ok(work)
}

/// One step of a Work's life: a start (with a workspace bound before or
/// after it, or none), a park, or a completion with an outcome of some kind;
/// each at some time.
pub enum LifeStep {
    Start { bind: Option<Seq<char>>, at: u64 },
    Park { at: u64 },
    Complete { kind: OutcomeKind, at: u64 },
}

/// A step applied to a Work: the operation's result and the Work afterwards.
pub open spec fn step_apply(w: WorkView, s: LifeStep) -> (Result<Apply, DomainError>, WorkView) {
    match s {
        LifeStep::Start { bind, at } => {
            let (r, ws) = spec_start(w);
            match bind {
                Some(root) => (r, ws.with_root(Some(root))),
                None => (r, ws),
            }
        },
        LifeStep::Park { at } => spec_park(w),
        LifeStep::Complete { kind, at } => spec_complete(w, kind),
    }
}

/// The event that a step appends, recorded from the Work after the step.
pub open spec fn step_event(w: WorkView, s: LifeStep) -> EventView {
    let w1 = step_apply(w, s).1;
    match s {
        LifeStep::Start { bind, at } => started_event(w1, w.status, at),
        LifeStep::Park { at } => parked_event(w1, w.status, at),
        LifeStep::Complete { kind, at } => completed_event(w1, w.status, kind, at),
    }
}

/// A Work's life: `works[0]` is a new Work whose creation is `events[0]`;
/// each later step succeeds on `works[i - 1]`, leaves `works[i]`, and
/// appends `events[i]`.
pub open spec fn lifecycle(works: Seq<WorkView>, events: Seq<EventView>, steps: Seq<LifeStep>) -> bool {
    &&& works.len() >= 1
    &&& works.len() == events.len()
    &&& works.len() == steps.len()
    &&& works[0] == fresh_work(works[0].id, works[0].attributes, works[0].created_at_unix_ms)
    &&& valid_attributes(works[0].attributes)
    &&& events[0] == created_event(works[0])
    &&& forall|i: int|
        1 <= i < works.len() ==> {
            &&& (#[trigger] step_apply(works[i - 1], steps[i])).0 is Ok
            &&& works[i] == step_apply(works[i - 1], steps[i]).1
            &&& events[i] == step_event(works[i - 1], steps[i])
        }
}

proof fn lemma_step_replays(w0: WorkView, s: LifeStep)
    requires
        step_apply(w0, s).0 is Ok,
        w0.attributes.worker_profile.len() > 0,
    ensures
        replay_step(w0, step_event(w0, s)) == Ok::<WorkView, DomainError>(step_apply(w0, s).1),
        step_apply(w0, s).1.id == w0.id,
        step_apply(w0, s).1.attributes == w0.attributes,
{
}

proof fn lemma_lifecycle_suffix(works: Seq<WorkView>, events: Seq<EventView>, steps: Seq<LifeStep>, k: int)
    requires
        lifecycle(works, events, steps),
        0 <= k < works.len(),
    ensures
        replay_from(works[k], events.subrange(k + 1, events.len() as int)) == Ok::<
            WorkView,
            DomainError,
        >(works.last()),
    decreases works.len() - k,
{
    lemma_lifecycle_keeps_attributes(works, events, steps, k);
    if k + 1 < works.len() {
        assert(step_apply(works[k + 1 - 1], steps[k + 1]).0 is Ok);
        lemma_step_replays(works[k], steps[k + 1]);
        lemma_lifecycle_suffix(works, events, steps, k + 1);
        assert(events.subrange(k + 1, events.len() as int).drop_first() =~= events.subrange(
            k + 2,
            events.len() as int,
        ));
        assert(events.subrange(k + 1, events.len() as int)[0] == events[k + 1]);
    } else {
        assert(events.subrange(k + 1, events.len() as int).len() == 0);
    }
}

proof fn lemma_lifecycle_keeps_attributes(works: Seq<WorkView>, events: Seq<EventView>, steps: Seq<LifeStep>, k: int)
    requires
        lifecycle(works, events, steps),
        0 <= k < works.len(),
    ensures
        works[k].attributes == works[0].attributes,
        works[k].id == works[0].id,
    decreases k,
{
    if k > 0 {
        lemma_lifecycle_keeps_attributes(works, events, steps, k - 1);
        assert(step_apply(works[k - 1], steps[k]).0 is Ok);
        lemma_step_replays(works[k - 1], steps[k]);
    }
}

/// Replay of the log that a Work's life appended gives back the Work as it
/// stands after the last step: its status, workspace root, id and
/// attributes.
pub proof fn lemma_replay_reconstructs_lifecycle(
    works: Seq<WorkView>,
    events: Seq<EventView>,
    steps: Seq<LifeStep>,
)
    requires
        lifecycle(works, events, steps),
    ensures
        replay_spec(events) == Ok::<WorkView, DomainError>(works.last()),
{
    lemma_lifecycle_suffix(works, events, steps, 0);
    assert(events.drop_first() =~= events.subrange(1, events.len() as int));
}

} // verus!

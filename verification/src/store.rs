//! The durable records of the store: Work rows, the JSON payloads of
//! events, execution snapshots and confirmed outcomes, and the checks the
//! store makes when it reads them back or claims an attempt.
use vstd::prelude::*;

use crate::control::error::AppError;
use crate::control::integrations::{signed_decimal, signed_decimal_text, Publication, PublicationKind};
use crate::control::ports::{
    attempt_state_named, process_event_named, AttemptObservation, AttemptState,
    ConfirmedOutcomeObservation, ExecutionSpecObservation, ProcessEvent, ProcessRecordObservation,
    SecretRefObservation,
};
use crate::decimal::{decimal, decimal_spec};
use crate::domain::error::DomainError;
use crate::domain::event::{event_kind_name, EventKind, EventView, WorkEvent, EVENT_SCHEMA_VERSION};
use crate::domain::execution::{
    channel_policy_name, runtime_kind_name, secret_ref_views, valid_digest, valid_env_name,
    ChannelPolicy, ConfirmedOutcome, ContentDigest, ExecutionSpec, RuntimeKind, SecretRef,
    SecretSource, CONFIRMED_OUTCOME_SCHEMA_VERSION, EXECUTION_SPEC_SCHEMA_VERSION,
};
use crate::domain::ids::{AttemptId, ExecutionId, ProjectId, WorkId};
use crate::domain::outcome::{outcome_kind_name, outcome_kind_named, OutcomeKind};
use crate::domain::status::{status_name, status_named, WorkStatus};
use crate::domain::work::{opt_view, AttributesView, Work, WorkAttributes, WorkView};
use crate::external::{json_quote, json_quoted};
use crate::text::{blank, is_blank, join2, join3, owned, str_eq, valid_opaque_id, valid_text};
use vstd::string::StringExecFns;

verus! {

/// Version of the persisted Work row.
pub const WORK_SCHEMA_VERSION: u32 = 1;

/// A stored integer that must not be negative.
pub fn unsigned(value: i64, field: &str) -> (r: Result<u64, AppError>)
    ensures
        value >= 0 ==> r == Ok::<u64, AppError>(value as u64),
        value < 0 ==> (r matches Err(AppError::Store(m)) && m@ == "negative "@ + field@),
{
    if value < 0 {
        return Err(AppError::Store(join2("negative ", field)));
    }
    Ok(value as u64)
}

/// One row of the `works` table.
pub struct WorkRow {
    pub id: String,
    pub status: String,
    pub goal: String,
    pub worker_profile: String,
    pub workspace_root: Option<String>,
    pub created_at_unix_ms: i64,
    pub schema_version: i64,
    pub project_id: String,
    pub repository: Option<String>,
    pub notification_target: Option<String>,
}

/// The Work a row holds, when every field is valid: the current schema
/// version (compared as 32 bits), an opaque id and project, a known status,
/// and valid attributes.
pub open spec fn row_work(row: WorkRow) -> Option<WorkView> {
    let attributes = AttributesView {
        goal: row.goal@,
        worker_profile: row.worker_profile@,
        project_id: row.project_id@,
        repository: opt_view(row.repository),
        notification_target: opt_view(row.notification_target),
    };
    if (row.schema_version as u32) != WORK_SCHEMA_VERSION || !valid_opaque_id(row.id@)
        || status_named(row.status@) is None || !valid_opaque_id(row.project_id@)
        || !crate::domain::work::valid_attributes(attributes) {
        None
    } else {
        Some(
            WorkView {
                id: row.id@,
                status: status_named(row.status@)->0,
                attributes,
                workspace_root: opt_view(row.workspace_root),
                created_at_unix_ms: row.created_at_unix_ms as u64,
            },
        )
    }
}

/// Loads the Work a row holds. A row of another schema version fails with
/// that version; any other invalid field fails with its domain error.
pub fn work_from_row(row: WorkRow) -> (r: Result<Work, AppError>)
    ensures
        match row_work(row) {
            Some(w) => r matches Ok(work) && work@ == w,
            None => r is Err,
        },
        (row.schema_version as u32) != WORK_SCHEMA_VERSION ==> r == Err::<Work, AppError>(
            AppError::Domain(DomainError::UnsupportedSchemaVersion(row.schema_version as u32)),
        ),
        (row.schema_version as u32) == WORK_SCHEMA_VERSION && !valid_opaque_id(row.id@) ==> r
            == Err::<Work, AppError>(AppError::Domain(DomainError::InvalidWorkId)),
        (row.schema_version as u32) == WORK_SCHEMA_VERSION && valid_opaque_id(row.id@) && status_named(
            row.status@,
        ) is None ==> (r matches Err(AppError::Domain(DomainError::UnknownStatus(t))) && t@
            == row.status@),
        (row.schema_version as u32) == WORK_SCHEMA_VERSION && valid_opaque_id(row.id@) && status_named(
            row.status@,
        ) is Some && !valid_opaque_id(row.project_id@) ==> r == Err::<Work, AppError>(
            AppError::Domain(DomainError::InvalidProjectId),
        ),
        (row.schema_version as u32) == WORK_SCHEMA_VERSION && valid_opaque_id(row.id@) && status_named(
            row.status@,
        ) is Some && valid_opaque_id(row.project_id@) && row_work(row) is None ==> r
            == Err::<Work, AppError>(AppError::Domain(DomainError::InvalidAttributes)),
{
    let version = row.schema_version as u32;
    if version != WORK_SCHEMA_VERSION {
        return Err(AppError::Domain(DomainError::UnsupportedSchemaVersion(version)));
    }
    let WorkRow {
        id,
        status,
        goal,
        worker_profile,
        workspace_root,
        created_at_unix_ms,
        schema_version,
        project_id,
        repository,
        notification_target,
    } = row;
    let id = match WorkId::parse(id.as_str()) {
        Ok(i) => i,
        Err(e) => return Err(AppError::Domain(e)),
    };
    let status = match WorkStatus::parse(status.as_str()) {
        Ok(s) => s,
        Err(e) => return Err(AppError::Domain(e)),
    };
    let project = match ProjectId::parse(project_id.as_str()) {
        Ok(p) => p,
        Err(e) => return Err(AppError::Domain(e)),
    };
    let attributes = match WorkAttributes::scoped(
        goal.as_str(),
        worker_profile.as_str(),
        project,
        repository,
        notification_target,
    ) {
        Ok(a) => a,
        Err(e) => return Err(AppError::Domain(e)),
    };
    Ok(Work::restore(id, status, attributes, workspace_root, created_at_unix_ms as u64))
}

/// The JSON text of an optional string: `null` or the string literal.
pub open spec fn json_opt(v: Option<Seq<char>>) -> Seq<char> {
    match v {
        None => "null"@,
        Some(s) => json_quoted(s),
    }
}

fn json_opt_exec(v: Option<&str>) -> (r: String)
    ensures
        r@ == json_opt(match v {
            None => None,
            Some(s) => Some(s@),
        }),
{
    match v {
        None => owned("null"),
        Some(s) => json_quote(s),
    }
}

/// The JSON payload of an event, fields in their stored order; absent
/// values are `null`.
pub open spec fn event_json(e: EventView) -> Seq<char> {
    let a = e.attributes;
    "{\"schemaVersion\":"@ + decimal_spec(e.schema_version as nat) + ",\"workId\":"@ + json_quoted(
        e.work_id,
    ) + ",\"kind\":"@ + json_quoted(event_kind_name(e.kind)) + ",\"from\":"@ + json_opt(
        match e.from {
            None => None,
            Some(s) => Some(status_name(s)),
        },
    ) + ",\"to\":"@ + json_quoted(status_name(e.to)) + ",\"goal\":"@ + json_opt(
        match a {
            None => None,
            Some(x) => Some(x.goal),
        },
    ) + ",\"workerProfile\":"@ + json_opt(
        match a {
            None => None,
            Some(x) => Some(x.worker_profile),
        },
    ) + ",\"projectId\":"@ + json_opt(
        match a {
            None => None,
            Some(x) => Some(x.project_id),
        },
    ) + ",\"repository\":"@ + json_opt(
        match a {
            None => None,
            Some(x) => x.repository,
        },
    ) + ",\"notificationTarget\":"@ + json_opt(
        match a {
            None => None,
            Some(x) => x.notification_target,
        },
    ) + ",\"outcomeKind\":"@ + json_opt(
        match e.outcome_kind {
            None => None,
            Some(k) => Some(outcome_kind_name(k)),
        },
    ) + ",\"workspaceRoot\":"@ + json_opt(e.workspace_root) + ",\"createdAtUnixMs\":"@
        + decimal_spec(e.created_at_unix_ms as nat) + "}"@
}

/// Writes the JSON payload of an event.
pub fn encode_event(event: &WorkEvent) -> (r: String)
    ensures
        r@ == event_json(event@),
{
    let mut s = join2("{\"schemaVersion\":", decimal(event.schema_version() as u64).as_str());
    s.append(",\"workId\":");
    s.append(json_quote(event.work_id().as_str()).as_str());
    s.append(",\"kind\":");
    s.append(json_quote(event.kind().as_str()).as_str());
    s.append(",\"from\":");
    let from = match event.from() {
        None => None,
        Some(st) => Some(st.as_str()),
    };
    s.append(json_opt_exec(from).as_str());
    s.append(",\"to\":");
    s.append(json_quote(event.to().as_str()).as_str());
    let attributes = event.attributes();
    s.append(",\"goal\":");
    s.append(
        json_opt_exec(
            match attributes {
                None => None,
                Some(a) => Some(a.goal()),
            },
        ).as_str(),
    );
    s.append(",\"workerProfile\":");
    s.append(
        json_opt_exec(
            match attributes {
                None => None,
                Some(a) => Some(a.worker_profile()),
            },
        ).as_str(),
    );
    s.append(",\"projectId\":");
    s.append(
        json_opt_exec(
            match attributes {
                None => None,
                Some(a) => Some(a.project_id().as_str()),
            },
        ).as_str(),
    );
    s.append(",\"repository\":");
    s.append(
        json_opt_exec(
            match attributes {
                None => None,
                Some(a) => a.repository(),
            },
        ).as_str(),
    );
    s.append(",\"notificationTarget\":");
    s.append(
        json_opt_exec(
            match attributes {
                None => None,
                Some(a) => a.notification_target(),
            },
        ).as_str(),
    );
    s.append(",\"outcomeKind\":");
    s.append(
        json_opt_exec(
            match event.outcome_kind() {
                None => None,
                Some(k) => Some(k.as_str()),
            },
        ).as_str(),
    );
    s.append(",\"workspaceRoot\":");
    s.append(json_opt_exec(event.workspace_root()).as_str());
    s.append(",\"createdAtUnixMs\":");
    s.append(decimal(event.created_at_unix_ms()).as_str());
    s.append("}");
    s
}

/// The fields of a stored event payload.
pub struct EventRecord {
    pub schema_version: u32,
    pub work_id: String,
    pub kind: String,
    pub from: Option<String>,
    pub to: String,
    pub goal: Option<String>,
    pub worker_profile: Option<String>,
    pub project_id: Option<String>,
    pub repository: Option<String>,
    pub notification_target: Option<String>,
    pub outcome_kind: Option<String>,
    pub workspace_root: Option<String>,
    pub created_at_unix_ms: u64,
}

/// The attributes a stored event carries: both goal and profile, or
/// neither; a missing project is the default one.
pub open spec fn record_attributes(rec: EventRecord) -> Option<Option<AttributesView>> {
    match (rec.goal, rec.worker_profile) {
        (Some(goal), Some(profile)) => {
            let project = match rec.project_id {
                None => crate::domain::ids::default_project_name(),
                Some(p) => p@,
            };
            let a = AttributesView {
                goal: goal@,
                worker_profile: profile@,
                project_id: project,
                repository: opt_view(rec.repository),
                notification_target: opt_view(rec.notification_target),
            };
            if (rec.project_id is Some && !valid_opaque_id(project))
                || !crate::domain::work::valid_attributes(a) {
                None
            } else {
                Some(Some(a))
            }
        },
        (None, None) => Some(None),
        _ => None,
    }
}

/// The event a stored payload holds, when every field is valid.
pub open spec fn record_event(rec: EventRecord) -> Option<EventView> {
    match record_attributes(rec) {
        None => None,
        Some(attributes) => {
            let from = match rec.from {
                None => Some(None),
                Some(f) => match status_named(f@) {
                    None => None,
                    Some(st) => Some(Some(st)),
                },
            };
            let outcome = match rec.outcome_kind {
                None => Some(None),
                Some(k) => match outcome_kind_named(k@) {
                    None => None,
                    Some(kind) => Some(Some(kind)),
                },
            };
            if rec.schema_version != EVENT_SCHEMA_VERSION || !valid_opaque_id(rec.work_id@)
                || crate::domain::event::event_kind_named(rec.kind@) is None || from is None
                || status_named(rec.to@) is None || outcome is None {
                None
            } else {
                Some(
                    EventView {
                        schema_version: rec.schema_version,
                        work_id: rec.work_id@,
                        kind: crate::domain::event::event_kind_named(rec.kind@)->0,
                        from: from->0,
                        to: status_named(rec.to@)->0,
                        attributes,
                        outcome_kind: outcome->0,
                        workspace_root: opt_view(rec.workspace_root),
                        created_at_unix_ms: rec.created_at_unix_ms,
                    },
                )
            }
        },
    }
}

fn optional_status(v: Option<String>) -> (r: Result<Option<WorkStatus>, AppError>)
    ensures
        match v {
            None => r == Ok::<Option<WorkStatus>, AppError>(None),
            Some(f) => match status_named(f@) {
                None => r is Err,
                Some(st) => r == Ok::<Option<WorkStatus>, AppError>(Some(st)),
            },
        },
{
    match v {
        None => Ok(None),
        Some(f) => match WorkStatus::parse(f.as_str()) {
            Ok(st) => Ok(Some(st)),
            Err(e) => Err(AppError::Domain(e)),
        },
    }
}

fn optional_outcome(v: Option<String>) -> (r: Result<Option<OutcomeKind>, AppError>)
    ensures
        match v {
            None => r == Ok::<Option<OutcomeKind>, AppError>(None),
            Some(k) => match outcome_kind_named(k@) {
                None => r is Err,
                Some(kind) => r == Ok::<Option<OutcomeKind>, AppError>(Some(kind)),
            },
        },
{
    match v {
        None => Ok(None),
        Some(k) => match OutcomeKind::parse(k.as_str()) {
            Ok(kind) => Ok(Some(kind)),
            Err(e) => Err(AppError::Domain(e)),
        },
    }
}

/// Reads an event back from its stored payload. A payload of another
/// schema version fails with that version; one with only one of goal and
/// profile is a schema error; any other invalid field fails with its domain
/// error.
pub fn decode_event(rec: EventRecord) -> (r: Result<WorkEvent, AppError>)
    ensures
        match record_event(rec) {
            Some(v) => r matches Ok(e) && e@ == v,
            None => r is Err,
        },
        rec.schema_version != EVENT_SCHEMA_VERSION ==> r == Err::<WorkEvent, AppError>(
            AppError::Domain(DomainError::UnsupportedSchemaVersion(rec.schema_version)),
        ),
        rec.schema_version == EVENT_SCHEMA_VERSION && (rec.goal is Some != rec.worker_profile is Some)
            ==> (r matches Err(AppError::OutcomeSchema(m)) && m@ == "event attributes incomplete"@),
{
    if rec.schema_version != EVENT_SCHEMA_VERSION {
        return Err(AppError::Domain(DomainError::UnsupportedSchemaVersion(rec.schema_version)));
    }
    let ghost given = rec;
    let EventRecord {
        schema_version,
        work_id,
        kind,
        from,
        to,
        goal,
        worker_profile,
        project_id,
        repository,
        notification_target,
        outcome_kind,
        workspace_root,
        created_at_unix_ms,
    } = rec;
    let attributes = match (goal, worker_profile) {
        (Some(goal), Some(profile)) => {
            let project = match project_id {
                None => ProjectId::default_project(),
                Some(p) => match ProjectId::parse(p.as_str()) {
                    Ok(p) => p,
                    Err(e) => return Err(AppError::Domain(e)),
                },
            };
            match WorkAttributes::scoped(
                goal.as_str(),
                profile.as_str(),
                project,
                repository,
                notification_target,
            ) {
                Ok(a) => Some(a),
                Err(e) => return Err(AppError::Domain(e)),
            }
        },
        (None, None) => None,
        _ => return Err(AppError::outcome_schema("event attributes incomplete")),
    };
    assert(record_attributes(given) == Some(
        crate::domain::event::opt_attributes_view(attributes),
    ));
    let work_id = match WorkId::parse(work_id.as_str()) {
        Ok(i) => i,
        Err(e) => return Err(AppError::Domain(e)),
    };
    let kind = match EventKind::parse(kind.as_str()) {
        Ok(k) => k,
        Err(e) => return Err(AppError::Domain(e)),
    };
    let from = optional_status(from)?;
    let to = match WorkStatus::parse(to.as_str()) {
        Ok(t) => t,
        Err(e) => return Err(AppError::Domain(e)),
    };
    let outcome_kind = optional_outcome(outcome_kind)?;
    match WorkEvent::restore(
        schema_version,
        work_id,
        kind,
        from,
        to,
        attributes,
        outcome_kind,
        workspace_root,
        created_at_unix_ms,
    ) {
        Ok(e) => Ok(e),
        Err(e) => Err(AppError::Domain(e)),
    }
}

/// The JSON items of a list of secret references.
pub open spec fn secret_refs_json(refs: Seq<crate::domain::execution::SecretRefView>) -> Seq<char>
    decreases refs.len(),
{
    if refs.len() == 0 {
        Seq::empty()
    } else {
        let last = refs.last();
        let item = "{\"name\":"@ + json_quoted(last.name) + ",\"source\":"@ + json_quoted(last.source)
            + "}"@;
        if refs.len() == 1 {
            item
        } else {
            secret_refs_json(refs.drop_last()) + ","@ + item
        }
    }
}

/// The JSON payload of an execution snapshot under a runtime kind.
pub open spec fn execution_spec_json(s: crate::domain::execution::ExecutionSpecView, runtime: RuntimeKind) -> Seq<char> {
    "{\"schemaVersion\":"@ + decimal_spec(s.schema_version as nat) + ",\"workId\":"@ + json_quoted(
        s.work_id,
    ) + ",\"workerProfile\":"@ + json_quoted(s.worker_profile) + ",\"workerConfigDigest\":"@
        + json_quoted(s.worker_config_digest) + ",\"runtimeKind\":"@ + json_quoted(
        runtime_kind_name(runtime),
    ) + ",\"runtimeDigest\":"@ + json_quoted(s.runtime_digest) + ",\"wallClockBudgetMs\":"@
        + decimal_spec(s.wall_clock_budget_ms as nat) + ",\"retryLimit\":"@ + decimal_spec(
        s.retry_limit as nat,
    ) + ",\"channelPolicy\":"@ + json_quoted(channel_policy_name(s.channel_policy))
        + ",\"secretRefs\":["@ + secret_refs_json(s.secret_refs) + "]}"@
}

/// Writes the JSON payload of an execution snapshot. Equal payloads are how
/// a resume proves it runs under the same configuration.
pub fn encode_execution_spec(spec: &ExecutionSpec, runtime: RuntimeKind) -> (r: String)
    ensures
        r@ == execution_spec_json(spec@, runtime),
{
    let mut s = join2("{\"schemaVersion\":", decimal(spec.schema_version() as u64).as_str());
    s.append(",\"workId\":");
    s.append(json_quote(spec.work_id().as_str()).as_str());
    s.append(",\"workerProfile\":");
    s.append(json_quote(spec.worker_profile()).as_str());
    s.append(",\"workerConfigDigest\":");
    s.append(json_quote(spec.worker_config_digest().as_str()).as_str());
    s.append(",\"runtimeKind\":");
    s.append(json_quote(runtime.as_str()).as_str());
    s.append(",\"runtimeDigest\":");
    s.append(json_quote(spec.runtime_digest().as_str()).as_str());
    s.append(",\"wallClockBudgetMs\":");
    s.append(decimal(spec.wall_clock_budget_ms()).as_str());
    s.append(",\"retryLimit\":");
    s.append(decimal(spec.retry_limit() as u64).as_str());
    s.append(",\"channelPolicy\":");
    s.append(json_quote(spec.channel_policy().as_str()).as_str());
    s.append(",\"secretRefs\":[");
    let refs = spec.secret_refs();
    let ghost views = secret_ref_views(refs@);
    let mut i: usize = 0;
    let ghost head = s@;
    while i < refs.len()
        invariant
            i <= refs.len(),
            views == secret_ref_views(refs@),
            s@ == head + secret_refs_json(views.subrange(0, i as int)),
        decreases refs.len() - i,
    {
        let ghost done = views.subrange(0, i + 1);
        assert(done.drop_last() =~= views.subrange(0, i as int));
        assert(done.last() == refs@[i as int]@);
        if i > 0 {
            s.append(",");
        }
        s.append("{\"name\":");
        s.append(json_quote(refs[i].name()).as_str());
        s.append(",\"source\":");
        s.append(json_quote(refs[i].source().reference()).as_str());
        s.append("}");
        i = i + 1;
    }
    assert(views.subrange(0, i as int) =~= views);
    s.append("]}");
    s
}

/// Whether a stored runtime kind is one this version knows; an absent one
/// is from before kinds were recorded.
pub open spec fn runtime_kind_known(k: Option<String>) -> bool {
    match k {
        None => true,
        Some(k) => crate::domain::execution::runtime_kind_named(k@) is Some,
    }
}

/// Whether every stored secret reference names a valid variable and a valid
/// mount name.
pub open spec fn stored_refs_valid(refs: Seq<SecretRefObservation>) -> bool {
    forall|i: int| 0 <= i < refs.len() ==> #[trigger] stored_ref_valid(refs[i])
}

/// A stored secret reference names a valid variable and a valid mount name.
pub open spec fn stored_ref_valid(r: SecretRefObservation) -> bool {
    valid_env_name(r.source@) && valid_text(r.name@)
}

/// Checks a stored execution snapshot before it is shown: the current
/// schema version, two well-formed digests, a known runtime kind and channel
/// policy, and valid secret references, in that order.
pub fn validate_execution_spec_payload(payload: &ExecutionSpecObservation) -> (r: Result<(), AppError>)
    ensures
        r is Ok <==> (payload.schema_version == EXECUTION_SPEC_SCHEMA_VERSION && valid_digest(
            payload.worker_config_digest@,
        ) && valid_digest(payload.runtime_digest@) && runtime_kind_known(payload.runtime_kind)
            && crate::domain::execution::channel_policy_named(payload.channel_policy@) is Some
            && stored_refs_valid(payload.secret_refs@)),
        payload.schema_version != EXECUTION_SPEC_SCHEMA_VERSION ==> r == Err::<(), AppError>(
            AppError::Domain(DomainError::UnsupportedSchemaVersion(payload.schema_version)),
        ),
        payload.schema_version == EXECUTION_SPEC_SCHEMA_VERSION && valid_digest(
            payload.worker_config_digest@,
        ) && valid_digest(payload.runtime_digest@) && !runtime_kind_known(payload.runtime_kind) ==> (r
            matches Err(AppError::Store(m)) && m@ == "execution payload has unknown runtime kind"@),
        payload.schema_version == EXECUTION_SPEC_SCHEMA_VERSION && valid_digest(
            payload.worker_config_digest@,
        ) && valid_digest(payload.runtime_digest@) && runtime_kind_known(payload.runtime_kind)
            && crate::domain::execution::channel_policy_named(payload.channel_policy@) is None ==> (r
            matches Err(AppError::Store(m)) && m@ == "execution payload has unknown channel policy"@),
{
    if payload.schema_version != EXECUTION_SPEC_SCHEMA_VERSION {
        return Err(AppError::Domain(DomainError::UnsupportedSchemaVersion(payload.schema_version)));
    }
    if let Err(e) = ContentDigest::parse(payload.worker_config_digest.as_str()) {
        return Err(AppError::Domain(e));
    }
    if let Err(e) = ContentDigest::parse(payload.runtime_digest.as_str()) {
        return Err(AppError::Domain(e));
    }
    match &payload.runtime_kind {
        None => {},
        Some(k) => {
            if RuntimeKind::named(k.as_str()).is_none() {
                return Err(AppError::store("execution payload has unknown runtime kind"));
            }
        },
    }
    if ChannelPolicy::named(payload.channel_policy.as_str()).is_none() {
        return Err(AppError::store("execution payload has unknown channel policy"));
    }
    let mut i: usize = 0;
    while i < payload.secret_refs.len()
        invariant
            i <= payload.secret_refs.len(),
            payload.schema_version == EXECUTION_SPEC_SCHEMA_VERSION,
            valid_digest(payload.worker_config_digest@),
            valid_digest(payload.runtime_digest@),
            runtime_kind_known(payload.runtime_kind),
            crate::domain::execution::channel_policy_named(payload.channel_policy@) is Some,
            forall|j: int| 0 <= j < i ==> #[trigger] stored_ref_valid(payload.secret_refs@[j]),
        decreases payload.secret_refs.len() - i,
    {
        let reference = &payload.secret_refs[i];
        let source = match SecretSource::environment_variable(reference.source.as_str()) {
            Ok(s) => s,
            Err(e) => {
                assert(!stored_ref_valid(payload.secret_refs@[i as int]));
                return Err(AppError::Domain(e));
            },
        };
        match SecretRef::new(reference.name.as_str(), source) {
            Ok(_) => {},
            Err(e) => {
                assert(!stored_ref_valid(payload.secret_refs@[i as int]));
                return Err(AppError::Domain(e));
            },
        }
        assert(stored_ref_valid(payload.secret_refs@[i as int]));
        i = i + 1;
    }
    Ok(())
}

/// A stored execution snapshot must belong to the Work it is read for.
pub fn check_payload_work(payload_work_id: &str, work_id: &WorkId) -> (r: Result<(), AppError>)
    ensures
        r is Ok <==> payload_work_id@ == work_id@,
        r matches Err(e) ==> (e matches AppError::Store(m) && m@ == "execution payload has foreign Work id"@),
{
    if !str_eq(payload_work_id, work_id.as_str()) {
        return Err(AppError::store("execution payload has foreign Work id"));
    }
    Ok(())
}

/// The JSON payload of a confirmed outcome.
pub open spec fn confirmed_outcome_json(c: crate::domain::execution::ConfirmedOutcomeView) -> Seq<char> {
    "{\"schemaVersion\":"@ + decimal_spec(c.schema_version as nat) + ",\"workId\":"@ + json_quoted(
        c.work_id,
    ) + ",\"executionId\":"@ + json_quoted(c.execution_id) + ",\"attemptId\":"@ + json_quoted(
        c.attempt_id,
    ) + ",\"kind\":"@ + json_quoted(outcome_kind_name(c.outcome.kind)) + ",\"workerProfile\":"@
        + json_quoted(c.outcome.worker_profile) + ",\"confirmedAtUnixMs\":"@ + decimal_spec(
        c.confirmed_at_unix_ms as nat,
    ) + "}"@
}

/// Writes the JSON payload of a confirmed outcome.
pub fn encode_confirmed_outcome(outcome: &ConfirmedOutcome) -> (r: String)
    ensures
        r@ == confirmed_outcome_json(outcome@),
{
    let mut s = join2("{\"schemaVersion\":", decimal(outcome.schema_version() as u64).as_str());
    s.append(",\"workId\":");
    s.append(json_quote(outcome.work_id().as_str()).as_str());
    s.append(",\"executionId\":");
    s.append(json_quote(outcome.execution_id().as_str()).as_str());
    s.append(",\"attemptId\":");
    s.append(json_quote(outcome.attempt_id().as_str()).as_str());
    s.append(",\"kind\":");
    s.append(json_quote(outcome.outcome().kind().as_str()).as_str());
    s.append(",\"workerProfile\":");
    s.append(json_quote(outcome.outcome().worker_profile()).as_str());
    s.append(",\"confirmedAtUnixMs\":");
    s.append(decimal(outcome.confirmed_at_unix_ms()).as_str());
    s.append("}");
    s
}

/// The fields of a stored confirmed outcome.
pub struct ConfirmedOutcomeRecord {
    pub schema_version: u32,
    pub work_id: String,
    pub execution_id: String,
    pub attempt_id: String,
    pub kind: String,
    pub worker_profile: String,
    pub confirmed_at_unix_ms: u64,
}

/// Reads a stored confirmed outcome for the attempt it is looked up under:
/// the current schema version, then the same Work, execution and attempt
/// (a proof written for another lease is refused), then a known kind.
pub fn check_confirmed_outcome(
    rec: ConfirmedOutcomeRecord,
    work_id: &WorkId,
    execution_id: &ExecutionId,
    attempt_id: &AttemptId,
) -> (r: Result<ConfirmedOutcomeObservation, AppError>)
    ensures
        rec.schema_version != CONFIRMED_OUTCOME_SCHEMA_VERSION ==> r == Err::<
            ConfirmedOutcomeObservation,
            AppError,
        >(AppError::Domain(DomainError::UnsupportedSchemaVersion(rec.schema_version))),
        rec.schema_version == CONFIRMED_OUTCOME_SCHEMA_VERSION && !(rec.work_id@ == work_id@
            && rec.execution_id@ == execution_id@ && rec.attempt_id@ == attempt_id@) ==> (r matches Err(
            AppError::Store(m),
        ) && m@ == "confirmed outcome payload has foreign provenance"@),
        rec.schema_version == CONFIRMED_OUTCOME_SCHEMA_VERSION && rec.work_id@ == work_id@
            && rec.execution_id@ == execution_id@ && rec.attempt_id@ == attempt_id@ ==> match outcome_kind_named(
            rec.kind@,
        ) {
            None => r is Err,
            Some(k) => r matches Ok(o) && o.schema_version == rec.schema_version && o.kind == k
                && o.worker_profile@ == rec.worker_profile@ && o.confirmed_at_unix_ms
                == rec.confirmed_at_unix_ms,
        },
{
    if rec.schema_version != CONFIRMED_OUTCOME_SCHEMA_VERSION {
        return Err(AppError::Domain(DomainError::UnsupportedSchemaVersion(rec.schema_version)));
    }
    if !str_eq(rec.work_id.as_str(), work_id.as_str()) || !str_eq(
        rec.execution_id.as_str(),
        execution_id.as_str(),
    ) || !str_eq(rec.attempt_id.as_str(), attempt_id.as_str()) {
        return Err(AppError::store("confirmed outcome payload has foreign provenance"));
    }
    let kind = match OutcomeKind::parse(rec.kind.as_str()) {
        Ok(k) => k,
        Err(e) => return Err(AppError::Domain(e)),
    };
    Ok(
        ConfirmedOutcomeObservation {
            schema_version: rec.schema_version,
            kind,
            worker_profile: rec.worker_profile,
            confirmed_at_unix_ms: rec.confirmed_at_unix_ms,
        },
    )
}

/// A captured start must use the capture of the same Work in the same
/// project.
pub fn check_capture_owner(captured: &Work, work: &Work) -> (r: Result<(), AppError>)
    ensures
        r is Ok <==> (captured@.id == work@.id && captured@.attributes.project_id
            == work@.attributes.project_id),
        r matches Err(e) ==> (e matches AppError::Conflict(m) && m@
            == "capture does not belong to the attempted Work"@),
{
    if !str_eq(captured.id().as_str(), work.id().as_str()) || !str_eq(
        captured.attributes().project_id().as_str(),
        work.attributes().project_id().as_str(),
    ) {
        return Err(AppError::conflict("capture does not belong to the attempted Work"));
    }
    Ok(())
}

/// A resumed execution must keep the Work and the exact snapshot payload it
/// was created with.
pub fn check_execution_unchanged(
    stored_work_id: &str,
    stored_payload: &str,
    work_id: &WorkId,
    payload: &str,
) -> (r: Result<(), AppError>)
    ensures
        r is Ok <==> (stored_work_id@ == work_id@ && stored_payload@ == payload@),
        r matches Err(e) ==> (e matches AppError::Conflict(m) && m@
            == "resume configuration differs from the immutable execution spec"@),
{
    if !str_eq(stored_work_id, work_id.as_str()) || !str_eq(stored_payload, payload) {
        return Err(
            AppError::conflict("resume configuration differs from the immutable execution spec"),
        );
    }
    Ok(())
}

/// The error of an attempt that does not hold the active lease.
pub fn attempt_conflict(attempt_id: &AttemptId) -> (r: AppError)
    ensures
        r matches AppError::Conflict(m) && m@ == "attempt "@ + attempt_id@
            + " does not own the active lease"@,
{
    AppError::Conflict(join3("attempt ", attempt_id.as_str(), " does not own the active lease"))
}

/// A guarded write must change exactly one row.
pub fn expect_one_change(changed: usize, message: &str) -> (r: Result<(), AppError>)
    ensures
        r is Ok <==> changed == 1,
        r matches Err(e) ==> (e matches AppError::Conflict(m) && m@ == message@),
{
    if changed != 1 {
        return Err(AppError::conflict(message));
    }
    Ok(())
}

/// The store's own schema version (SQLite `user_version`), distinct from
/// the version of each Work row.
pub const STORE_USER_VERSION: i32 = 6;

/// The migrations that bring a store at `current` to the current version,
/// in order: every migration after `current`. A store at the current
/// version, or one that reports a negative version, needs none.
pub open spec fn pending_migrations(current: int) -> Seq<u8> {
    if 0 <= current <= STORE_USER_VERSION {
        Seq::new((STORE_USER_VERSION - current) as nat, |i: int| (current + 1 + i) as u8)
    } else {
        Seq::empty()
    }
}

/// What opening a store at schema version `current` must do. Version 1
/// predates the supported upgrade path, and a newer version than this
/// build knows is refused; both are unsupported schema versions. Otherwise
/// the pending migrations run, and the version is set to the current one
/// when any ran.
pub fn migrations_from(current: i32) -> (r: Result<Vec<u8>, AppError>)
    ensures
        current == 1 || current > STORE_USER_VERSION ==> (r matches Err(AppError::Domain(
            DomainError::UnsupportedSchemaVersion(v),
        )) && v == current as u32),
        !(current == 1 || current > STORE_USER_VERSION) ==> (r matches Ok(steps) && steps@
            == pending_migrations(current as int)),
{
    if current == 1 || current > STORE_USER_VERSION {
        return Err(AppError::Domain(DomainError::UnsupportedSchemaVersion(current as u32)));
    }
    let mut steps: Vec<u8> = Vec::new();
    if current < 0 {
        assert(steps@ =~= pending_migrations(current as int));
        return Ok(steps);
    }
    let mut k: i32 = current + 1;
    while k <= STORE_USER_VERSION
        invariant
            0 <= current <= STORE_USER_VERSION,
            current + 1 <= k <= STORE_USER_VERSION + 1,
            steps@.len() == k - current - 1,
            forall|i: int| 0 <= i < steps@.len() ==> steps@[i] == (current + 1 + i) as u8,
        decreases STORE_USER_VERSION + 1 - k,
    {
        steps.push(k as u8);
        k = k + 1;
    }
    assert(steps@ =~= pending_migrations(current as int));
    Ok(steps)
}

/// How a quota limit is written.
#[derive(Clone, Copy, Debug, PartialEq, Eq, Structural)]
pub enum QuotaLimitWrite {
    /// A first limit for the resource, at generation 0.
    Insert,
    /// A new limit over the expected generation; the next generation.
    Update(u64),
}

/// The generation a configure write leaves behind.
pub open spec fn written_generation(w: QuotaLimitWrite) -> u64 {
    match w {
        QuotaLimitWrite::Insert => 0,
        QuotaLimitWrite::Update(g) => g,
    }
}

/// The generation a quota holds after a configure that names `expected`
/// while it holds `current`: `None` when the configure is refused.
pub open spec fn configured_generation(current: Option<u64>, expected: Option<u64>) -> Option<u64> {
    match (current, expected) {
        (None, None) => Some(0u64),
        (Some(c), Some(e)) => if c == e {
            Some(
                if c == u64::MAX {
                    u64::MAX
                } else {
                    (c + 1) as u64
                },
            )
        } else {
            None
        },
        _ => None,
    }
}

/// Quota limits change by compare-and-set on their generation. A configure
/// succeeds exactly when it names the generation the quota holds (none for
/// a new resource); it then yields a generation which the next configure
/// can name, while naming the one it replaced is refused, short of the
/// generation's ceiling.
pub proof fn lemma_quota_generation_cas(current: Option<u64>, expected: Option<u64>)
    ensures
        configured_generation(current, expected) is Some <==> current == expected,
        configured_generation(current, expected) matches Some(g) ==> configured_generation(
            Some(g),
            Some(g),
        ) is Some,
        configured_generation(current, expected) matches Some(g) ==> ((current is None
            || current.unwrap() < u64::MAX) ==> configured_generation(Some(g), expected) is None),
{
}

/// The write that configures a quota limit. A new resource takes no
/// expected generation; a known one takes exactly its current generation;
/// anything else means the quota changed under the caller.
pub fn plan_quota_limit(current: Option<u64>, expected: Option<u64>) -> (r: Result<
    QuotaLimitWrite,
    AppError,
>)
    ensures
        current is None && expected is None ==> r == Ok::<QuotaLimitWrite, AppError>(
            QuotaLimitWrite::Insert,
        ),
        current is Some && expected == current ==> r == Ok::<QuotaLimitWrite, AppError>(
            QuotaLimitWrite::Update(
                if current.unwrap() == u64::MAX {
                    u64::MAX
                } else {
                    (current.unwrap() + 1) as u64
                },
            ),
        ),
        !(current is None && expected is None) && !(current is Some && expected == current) ==> (r
            matches Err(AppError::Conflict(m)) && m@ == "quota context changed"@),
        match configured_generation(current, expected) {
            Some(g) => r matches Ok(w) && written_generation(w) == g,
            None => r is Err,
        },
{
    match (current, expected) {
        (None, None) => Ok(QuotaLimitWrite::Insert),
        (Some(c), Some(e)) if c == e => Ok(QuotaLimitWrite::Update(c.saturating_add(1))),
        _ => Err(AppError::conflict("quota context changed")),
    }
}

/// The message of a quota that cannot hold more units.
pub open spec fn insufficient_capacity(resource: Seq<char>) -> Seq<char> {
    "quota "@ + resource + " has insufficient capacity"@
}

/// Whether `units` more of `resource` may be leased, given its configured
/// limit and the units its active leases hold.
pub fn check_quota_acquire(resource: &str, units: u32, limit: Option<i64>, used: i64) -> (r:
    Result<(), AppError>)
    ensures
        units == 0 ==> (r matches Err(AppError::Conflict(m)) && m@
            == "quota units must be positive"@),
        units != 0 && limit is None ==> (r matches Err(AppError::Conflict(m)) && m@ == "quota "@
            + resource@ + " is not configured"@),
        units != 0 && limit is Some ==> ({
            let l = limit.unwrap();
            let wanted = if used + units > i64::MAX {
                i64::MAX as int
            } else {
                used + units
            };
            if wanted > l {
                r matches Err(AppError::Conflict(m)) && m@ == insufficient_capacity(resource@)
            } else {
                r is Ok
            }
        }),
{
    if units == 0 {
        return Err(AppError::conflict("quota units must be positive"));
    }
    match limit {
        None => Err(AppError::Conflict(join3("quota ", resource, " is not configured"))),
        Some(l) => {
            let u = units as i64;
            let wanted = if used > i64::MAX - u {
                i64::MAX
            } else {
                used + u
            };
            if wanted > l {
                Err(AppError::Conflict(join3("quota ", resource, " has insufficient capacity")))
            } else {
                Ok(())
            }
        },
    }
}

/// The queue quotas a Work holds while it is captured or running: the
/// global queue and its project's queue.
pub fn queue_quota_resources(work: &Work) -> (r: Vec<String>)
    ensures
        r@.len() == 2,
        r@[0]@ == "queue:global"@,
        r@[1]@ == "project:"@ + work@.attributes.project_id,
{
    let mut r: Vec<String> = Vec::new();
    r.push(owned("queue:global"));
    r.push(join2("project:", work.attributes().project_id().as_str()));
    r
}

/// The holder name of a Work's queue quota leases.
pub fn quota_holder(work: &Work) -> (r: String)
    ensures
        r@ == "work:"@ + work@.id,
{
    join2("work:", work.id().as_str())
}

/// Whether a Work may take a lease of one queue quota: a resource without
/// a limit is skipped (`false`); a full one refuses; otherwise one unit is
/// leased (`true`).
pub fn check_queue_quota(resource: &str, limit: Option<i64>, used: i64) -> (r: Result<bool, AppError>)
    ensures
        limit is None ==> r == Ok::<bool, AppError>(false),
        limit is Some && used >= limit.unwrap() ==> (r matches Err(AppError::Conflict(m)) && m@
            == insufficient_capacity(resource@)),
        limit is Some && used < limit.unwrap() ==> r == Ok::<bool, AppError>(true),
{
    match limit {
        None => Ok(false),
        Some(l) => {
            if used >= l {
                Err(AppError::Conflict(join3("quota ", resource, " has insufficient capacity")))
            } else {
                Ok(true)
            }
        },
    }
}

/// A queue capture names the Worker that holds it.
pub fn check_capture_worker(worker_id: &str) -> (r: Result<(), AppError>)
    ensures
        r is Ok <==> !is_blank(worker_id@),
        r matches Err(e) ==> (e matches AppError::Conflict(m) && m@ == "capture worker id is empty"@),
{
    if blank(worker_id) {
        return Err(AppError::conflict("capture worker id is empty"));
    }
    Ok(())
}

/// The refusal of a direct start of a Work that a queue Worker captured.
pub fn captured_conflict(work_id: &WorkId) -> (r: AppError)
    ensures
        r matches AppError::Conflict(m) && m@ == "Work "@ + work_id@ + " has an active queue capture"@,
{
    AppError::Conflict(join3("Work ", work_id.as_str(), " has an active queue capture"))
}

/// The refusal of a start that lost the race for the Work.
pub fn start_race_conflict(work_id: &WorkId) -> (r: AppError)
    ensures
        r matches AppError::Conflict(m) && m@ == "Work "@ + work_id@
            + " already has an active attempt or changed status"@,
{
    AppError::Conflict(join3("Work ", work_id.as_str(), " already has an active attempt or changed status"))
}

/// One row of the `attempt_process_records` table.
pub struct ProcessRecordRow {
    pub event: String,
    pub occurrences: i64,
    pub first_observed_at_unix_ms: i64,
    pub last_observed_at_unix_ms: i64,
    pub payload_redacted: bool,
}

/// Reads one process record back: a known event and non-negative counts
/// and times, checked in that order.
pub fn process_record_from_row(row: ProcessRecordRow) -> (r: Result<ProcessRecordObservation, AppError>)
    ensures
        process_event_named(row.event@) is None ==> (r matches Err(AppError::Store(m)) && m@
            == "unknown persisted process event "@ + row.event@),
        process_event_named(row.event@) is Some && row.occurrences < 0 ==> (r matches Err(
            AppError::Store(m),
        ) && m@ == "negative "@ + "process record occurrences"@),
        process_event_named(row.event@) is Some && row.occurrences >= 0
            && row.first_observed_at_unix_ms < 0 ==> (r matches Err(AppError::Store(m)) && m@
            == "negative "@ + "process record first time"@),
        process_event_named(row.event@) is Some && row.occurrences >= 0
            && row.first_observed_at_unix_ms >= 0 && row.last_observed_at_unix_ms < 0 ==> (r matches Err(
            AppError::Store(m),
        ) && m@ == "negative "@ + "process record last time"@),
        process_event_named(row.event@) is Some && row.occurrences >= 0
            && row.first_observed_at_unix_ms >= 0 && row.last_observed_at_unix_ms >= 0 ==> r
            == Ok::<ProcessRecordObservation, AppError>(
            ProcessRecordObservation {
                event: process_event_named(row.event@).unwrap(),
                occurrences: row.occurrences as u64,
                first_observed_at_unix_ms: row.first_observed_at_unix_ms as u64,
                last_observed_at_unix_ms: row.last_observed_at_unix_ms as u64,
                payload_redacted: row.payload_redacted,
            },
        ),
{
    let event = match ProcessEvent::parse(row.event.as_str()) {
        Ok(e) => e,
        Err(e) => return Err(e),
    };
    let occurrences = match unsigned(row.occurrences, "process record occurrences") {
        Ok(v) => v,
        Err(e) => return Err(e),
    };
    let first = match unsigned(row.first_observed_at_unix_ms, "process record first time") {
        Ok(v) => v,
        Err(e) => return Err(e),
    };
    let last = match unsigned(row.last_observed_at_unix_ms, "process record last time") {
        Ok(v) => v,
        Err(e) => return Err(e),
    };
    Ok(
        ProcessRecordObservation {
            event,
            occurrences,
            first_observed_at_unix_ms: first,
            last_observed_at_unix_ms: last,
            payload_redacted: row.payload_redacted,
        },
    )
}

/// One row of the `attempts` table; a missing heartbeat reads as the start.
pub struct AttemptRow {
    pub state: String,
    pub started_at_unix_ms: i64,
    pub last_heartbeat_at_unix_ms: i64,
    pub finished_at_unix_ms: Option<i64>,
    pub terminal_reason: Option<String>,
    pub checkpoint_recorded: bool,
}

/// The first refusal of an attempt row, if any: an unknown state, an
/// ordinal past `u32`, or a negative time, checked in that order.
pub open spec fn attempt_row_error(row: AttemptRow, retry_ordinal: int) -> Option<Seq<char>> {
    if attempt_state_named(row.state@) is None {
        Some("unknown persisted attempt state "@ + row.state@)
    } else if retry_ordinal > u32::MAX {
        Some("attempt retry ordinal overflow"@)
    } else if row.started_at_unix_ms < 0 {
        Some("negative "@ + "attempt start time"@)
    } else if row.last_heartbeat_at_unix_ms < 0 {
        Some("negative "@ + "attempt heartbeat time"@)
    } else if row.finished_at_unix_ms matches Some(f) && f < 0 {
        Some("negative "@ + "attempt finish time"@)
    } else {
        None
    }
}

/// Reads one attempt back. Its id, its process records and its confirmed
/// outcome were read before; `retry_ordinal` is its position among the
/// attempts of its execution, oldest first.
pub fn attempt_from_row(
    attempt_id: AttemptId,
    row: AttemptRow,
    retry_ordinal: usize,
    process_records: Vec<ProcessRecordObservation>,
    confirmed_outcome: Option<ConfirmedOutcomeObservation>,
) -> (r: Result<AttemptObservation, AppError>)
    ensures
        attempt_row_error(row, retry_ordinal as int) matches Some(m) ==> (r matches Err(
            AppError::Store(e),
        ) && e@ == m),
        attempt_row_error(row, retry_ordinal as int) is None ==> (r matches Ok(a) && a.attempt_id
            == attempt_id && a.state == attempt_state_named(row.state@).unwrap() && a.retry_ordinal
            == retry_ordinal && a.started_at_unix_ms == row.started_at_unix_ms
            && a.last_heartbeat_at_unix_ms == row.last_heartbeat_at_unix_ms
            && a.finished_at_unix_ms == (match row.finished_at_unix_ms {
            Some(f) => Some(f as u64),
            None => None,
        }) && a.terminal_reason == row.terminal_reason && a.checkpoint_recorded
            == row.checkpoint_recorded && a.process_records == process_records
            && a.confirmed_outcome == confirmed_outcome),
{
    let state = match AttemptState::parse(row.state.as_str()) {
        Ok(s) => s,
        Err(e) => return Err(e),
    };
    if retry_ordinal > u32::MAX as usize {
        return Err(AppError::store("attempt retry ordinal overflow"));
    }
    let started = match unsigned(row.started_at_unix_ms, "attempt start time") {
        Ok(v) => v,
        Err(e) => return Err(e),
    };
    let heartbeat = match unsigned(row.last_heartbeat_at_unix_ms, "attempt heartbeat time") {
        Ok(v) => v,
        Err(e) => return Err(e),
    };
    let finished = match row.finished_at_unix_ms {
        Some(f) => match unsigned(f, "attempt finish time") {
            Ok(v) => Some(v),
            Err(e) => return Err(e),
        },
        None => None,
    };
    Ok(
        AttemptObservation {
            attempt_id,
            state,
            retry_ordinal: retry_ordinal as u32,
            started_at_unix_ms: started,
            last_heartbeat_at_unix_ms: heartbeat,
            finished_at_unix_ms: finished,
            terminal_reason: row.terminal_reason,
            checkpoint_recorded: row.checkpoint_recorded,
            process_records,
            confirmed_outcome,
        },
    )
}

/// How an attempt's lease ends.
#[derive(Clone, Copy, Debug, PartialEq, Eq, Structural)]
pub enum AttemptEnd {
    /// Its outcome was confirmed.
    Confirmed(OutcomeKind),
    /// A channel error gave the execution a new attempt.
    Retried,
    /// It parked with a validated checkpoint.
    Parked,
    /// It was found active after a crash and parked by recovery.
    Reclaimed,
}

/// The state an ended attempt is stored in.
pub open spec fn end_state(end: AttemptEnd) -> AttemptState {
    match end {
        AttemptEnd::Confirmed(_) => AttemptState::Confirmed,
        AttemptEnd::Retried => AttemptState::Retried,
        AttemptEnd::Parked | AttemptEnd::Reclaimed => AttemptState::Parked,
    }
}

/// The terminal reason stored with an ended attempt.
pub open spec fn end_reason(end: AttemptEnd) -> Seq<char> {
    match end {
        AttemptEnd::Confirmed(k) => outcome_kind_name(k),
        AttemptEnd::Retried => "channel_retry"@,
        AttemptEnd::Parked => "parked"@,
        AttemptEnd::Reclaimed => "crash_reclaimed"@,
    }
}

impl AttemptEnd {
    /// The state the attempt is stored in.
    pub fn state(self) -> (r: AttemptState)
        ensures
            r == end_state(self),
    {
        match self {
            AttemptEnd::Confirmed(_) => AttemptState::Confirmed,
            AttemptEnd::Retried => AttemptState::Retried,
            AttemptEnd::Parked | AttemptEnd::Reclaimed => AttemptState::Parked,
        }
    }

    /// The terminal reason stored with the attempt.
    pub fn terminal_reason(self) -> (r: &'static str)
        ensures
            r@ == end_reason(self),
    {
        match self {
            AttemptEnd::Confirmed(k) => k.as_str(),
            AttemptEnd::Retried => "channel_retry",
            AttemptEnd::Parked => "parked",
            AttemptEnd::Reclaimed => "crash_reclaimed",
        }
    }
}

/// A park must carry a validated checkpoint of the attempt.
pub fn check_park_checkpoint(checkpoint_recorded: bool) -> (r: Result<(), AppError>)
    ensures
        r is Ok <==> checkpoint_recorded,
        r matches Err(e) ==> (e matches AppError::Conflict(m) && m@
            == "park requires a validated attempt checkpoint"@),
{
    if !checkpoint_recorded {
        return Err(AppError::conflict("park requires a validated attempt checkpoint"));
    }
    Ok(())
}

/// Whether a park asks the outside world for input: a park that answers
/// an operator's request does not; a park the Worker chose does.
pub fn park_requests_input(control_request_id: Option<i64>) -> (r: bool)
    ensures
        r == control_request_id is None,
{
    control_request_id.is_none()
}

/// The refusal of a control request for Work that holds no active attempt.
pub fn no_active_attempt(work_id: &WorkId) -> (r: AppError)
    ensures
        r matches AppError::Conflict(m) && m@ == "Work "@ + work_id@ + " has no active attempt"@,
{
    AppError::Conflict(join3("Work ", work_id.as_str(), " has no active attempt"))
}

/// The refusal of an operator input for Work that is not parked.
pub fn not_parked(work_id: &WorkId) -> (r: AppError)
    ensures
        r matches AppError::Conflict(m) && m@ == "Work "@ + work_id@ + " is not parked"@,
{
    AppError::Conflict(join3("Work ", work_id.as_str(), " is not parked"))
}

/// The heartbeat of an attempt after an observation at `now_ms`: the later
/// of its last heartbeat (its start when it has none) and the observation,
/// so heartbeats never move back.
pub fn advanced_heartbeat(last: Option<u64>, started_at_unix_ms: u64, now_ms: u64) -> (r: u64)
    ensures
        r >= now_ms,
        r >= match last {
            Some(l) => l,
            None => started_at_unix_ms,
        },
        r == now_ms || r == match last {
            Some(l) => l,
            None => started_at_unix_ms,
        },
{
    let previous = match last {
        Some(l) => l,
        None => started_at_unix_ms,
    };
    if previous > now_ms {
        previous
    } else {
        now_ms
    }
}

/// Whether the store keeps a process event's payload out of its record:
/// child output may carry credentials, so only its occurrence is kept.
pub open spec fn redacts_payload(event: ProcessEvent) -> bool {
    event == ProcessEvent::ChildStdout || event == ProcessEvent::ChildStderr
}

/// The record of an attempt's process event after one more observation
/// at `observed_at_unix_ms`: a first observation opens the record; a later
/// one counts once more, keeps the first time, moves the last time only
/// forward, and keeps a redaction once made.
pub fn fold_process_record(
    existing: Option<ProcessRecordObservation>,
    event: ProcessEvent,
    observed_at_unix_ms: u64,
) -> (r: ProcessRecordObservation)
    requires
        existing matches Some(p) ==> p.event == event && p.occurrences < u64::MAX,
    ensures
        r.event == event,
        match existing {
            None => r == (ProcessRecordObservation {
                event,
                occurrences: 1,
                first_observed_at_unix_ms: observed_at_unix_ms,
                last_observed_at_unix_ms: observed_at_unix_ms,
                payload_redacted: redacts_payload(event),
            }),
            Some(p) => r.occurrences == p.occurrences + 1 && r.first_observed_at_unix_ms
                == p.first_observed_at_unix_ms && r.last_observed_at_unix_ms == if p.last_observed_at_unix_ms
                > observed_at_unix_ms {
                p.last_observed_at_unix_ms
            } else {
                observed_at_unix_ms
            } && r.payload_redacted == (p.payload_redacted || redacts_payload(event)),
        },
{
    let redacted = match event {
        ProcessEvent::ChildStdout | ProcessEvent::ChildStderr => true,
        _ => false,
    };
    match existing {
        None => ProcessRecordObservation {
            event,
            occurrences: 1,
            first_observed_at_unix_ms: observed_at_unix_ms,
            last_observed_at_unix_ms: observed_at_unix_ms,
            payload_redacted: redacted,
        },
        Some(p) => ProcessRecordObservation {
            event,
            occurrences: p.occurrences + 1,
            first_observed_at_unix_ms: p.first_observed_at_unix_ms,
            last_observed_at_unix_ms: if p.last_observed_at_unix_ms > observed_at_unix_ms {
                p.last_observed_at_unix_ms
            } else {
                observed_at_unix_ms
            },
            payload_redacted: p.payload_redacted || redacted,
        },
    }
}

/// One row of the `publications` table.
pub struct PublicationRow {
    pub id: i64,
    pub kind: String,
    pub work_id: String,
    pub project_id: String,
    pub target: String,
    pub status: String,
    pub created_at_unix_ms: i64,
    pub attempt_count: i64,
}

/// The kind of a publication whose wire name is `s`, if any.
pub open spec fn publication_kind_named(s: Seq<char>) -> Option<PublicationKind> {
    if s == "work_transition"@ {
        Some(PublicationKind::WorkTransition)
    } else if s == "external_input_required"@ {
        Some(PublicationKind::ExternalInputRequired)
    } else {
        None
    }
}

/// Reads a pending publication back. Its kind, ids, status, time and
/// attempt count are checked in that order; the first refusal is returned.
pub fn publication_from_row(row: PublicationRow) -> (r: Result<Publication, AppError>)
    ensures
        publication_kind_named(row.kind@) is None ==> (r matches Err(AppError::Store(m)) && m@
            == "unknown publication kind"@),
        publication_kind_named(row.kind@) is Some && !valid_opaque_id(row.work_id@) ==> r matches Err(
            AppError::Domain(DomainError::InvalidWorkId),
        ),
        publication_kind_named(row.kind@) is Some && valid_opaque_id(row.work_id@) && !valid_opaque_id(
            row.project_id@,
        ) ==> r matches Err(AppError::Domain(DomainError::InvalidProjectId)),
        publication_kind_named(row.kind@) is Some && valid_opaque_id(row.work_id@) && valid_opaque_id(
            row.project_id@,
        ) && status_named(row.status@) is None ==> (r matches Err(
            AppError::Domain(DomainError::UnknownStatus(t)),
        ) && t@ == row.status@),
        publication_kind_named(row.kind@) is Some && valid_opaque_id(row.work_id@) && valid_opaque_id(
            row.project_id@,
        ) && status_named(row.status@) is Some && row.created_at_unix_ms < 0 ==> (r matches Err(
            AppError::Store(m),
        ) && m@ == "negative "@ + "publication time"@),
        publication_kind_named(row.kind@) is Some && valid_opaque_id(row.work_id@) && valid_opaque_id(
            row.project_id@,
        ) && status_named(row.status@) is Some && row.created_at_unix_ms >= 0 && !(0
            <= row.attempt_count <= u32::MAX) ==> (r matches Err(AppError::Store(m)) && m@
            == "publication attempt count overflow"@),
        publication_kind_named(row.kind@) is Some && valid_opaque_id(row.work_id@) && valid_opaque_id(
            row.project_id@,
        ) && status_named(row.status@) is Some && row.created_at_unix_ms >= 0 && 0 <= row.attempt_count
            <= u32::MAX ==> (r matches Ok(p) && p.publication_id == row.id && p.kind
            == publication_kind_named(row.kind@).unwrap() && p.work_id@ == row.work_id@
            && p.project_id@ == row.project_id@ && p.target@ == row.target@ && p.status
            == status_named(row.status@).unwrap() && p.created_at_unix_ms == row.created_at_unix_ms
            && p.attempt_count == row.attempt_count),
{
    proof {
        reveal_strlit("work_transition");
        reveal_strlit("external_input_required");
    }
    let kind = match PublicationKind::parse(row.kind.as_str()) {
        Some(k) => k,
        None => return Err(AppError::store("unknown publication kind")),
    };
    let work_id = match WorkId::parse(row.work_id.as_str()) {
        Ok(id) => id,
        Err(e) => return Err(AppError::Domain(e)),
    };
    let project_id = match ProjectId::parse(row.project_id.as_str()) {
        Ok(id) => id,
        Err(e) => return Err(AppError::Domain(e)),
    };
    let status = match WorkStatus::parse(row.status.as_str()) {
        Ok(st) => st,
        Err(e) => return Err(AppError::Domain(e)),
    };
    let created = match unsigned(row.created_at_unix_ms, "publication time") {
        Ok(v) => v,
        Err(e) => return Err(e),
    };
    if row.attempt_count < 0 || row.attempt_count > u32::MAX as i64 {
        return Err(AppError::store("publication attempt count overflow"));
    }
    Ok(
        Publication {
            publication_id: row.id,
            kind,
            work_id,
            project_id,
            target: row.target,
            status,
            created_at_unix_ms: created,
            attempt_count: row.attempt_count as u32,
        },
    )
}

/// The state a publication is left in after a delivery attempt.
pub fn publication_attempt_state(delivered: bool) -> (r: &'static str)
    ensures
        delivered ==> r@ == "delivered"@,
        !delivered ==> r@ == "failed"@,
{
    if delivered {
        "delivered"
    } else {
        "failed"
    }
}

/// The error stored with a failed delivery: a fixed code, never the
/// channel's own text, which may carry a credential.
pub fn scrubbed_delivery_error(error: Option<&str>) -> (r: Option<&'static str>)
    ensures
        error is None ==> r is None,
        error is Some ==> (r matches Some(c) && c@ == "delivery_failed"@),
{
    match error {
        Some(_) => Some("delivery_failed"),
        None => None,
    }
}

/// The refusal of a delivery record for a publication no longer pending.
pub fn publication_not_pending(publication_id: i64) -> (r: AppError)
    ensures
        r matches AppError::Conflict(m) && m@ == "publication "@ + signed_decimal(publication_id as int)
            + " is not pending"@,
{
    AppError::Conflict(
        join3("publication ", signed_decimal_text(publication_id).as_str(), " is not pending"),
    )
}

/// A relation joins two stored Works of one project.
pub fn check_relation_projects(from_project: Option<&str>, to_project: Option<&str>) -> (r: Result<
    (),
    AppError,
>)
    ensures
        (from_project matches Some(a) && to_project matches Some(b) && a@ == b@) ==> r is Ok,
        (from_project matches Some(a) && to_project matches Some(b) && a@ != b@) ==> (r matches Err(
            AppError::Conflict(m),
        ) && m@ == "Work relations cannot cross project boundaries"@),
        (from_project is None || to_project is None) ==> (r matches Err(AppError::Conflict(m)) && m@
            == "related Work was not found"@),
{
    match (from_project, to_project) {
        (Some(a), Some(b)) => {
            if str_eq(a, b) {
                Ok(())
            } else {
                Err(AppError::conflict("Work relations cannot cross project boundaries"))
            }
        },
        _ => Err(AppError::conflict("related Work was not found")),
    }
}

/// What the store holds of a Work that a write may not change: whether an
/// attempt is active, and its immutable attributes.
pub struct StoredWorkGuard {
    pub has_active_attempt: bool,
    pub attributes: WorkAttributes,
}

/// A snapshot write is allowed for a new Work, or for a stored one without
/// an active attempt whose goal, profile, project, repository and
/// notification target it keeps.
pub fn check_put_allowed(stored: &Option<StoredWorkGuard>, work: &Work) -> (r: Result<(), AppError>)
    ensures
        (match stored {
            None => true,
            Some(g) => !g.has_active_attempt && g.attributes@ == work@.attributes,
        }) ==> r is Ok,
        !(match stored {
            None => true,
            Some(g) => !g.has_active_attempt && g.attributes@ == work@.attributes,
        }) ==> (r matches Err(AppError::Conflict(m)) && m@ == "Work "@ + work@.id
            + " has an active attempt or changed immutable attributes"@),
{
    let allowed = match stored {
        None => true,
        Some(g) => !g.has_active_attempt && same_attributes(&g.attributes, work.attributes()),
    };
    if !allowed {
        return Err(
            AppError::Conflict(
                join3(
                    "Work ",
                    work.id().as_str(),
                    " has an active attempt or changed immutable attributes",
                ),
            ),
        );
    }
    Ok(())
}

fn opt_str_eq(a: Option<&str>, b: Option<&str>) -> (r: bool)
    ensures
        r == (match (a, b) {
            (Some(x), Some(y)) => x@ == y@,
            (None, None) => true,
            _ => false,
        }),
{
    match (a, b) {
        (Some(x), Some(y)) => str_eq(x, y),
        (None, None) => true,
        _ => false,
    }
}

fn same_attributes(a: &WorkAttributes, b: &WorkAttributes) -> (r: bool)
    ensures
        r == (a@ == b@),
{
    let same = str_eq(a.goal(), b.goal()) && str_eq(a.worker_profile(), b.worker_profile())
        && str_eq(a.project_id().as_str(), b.project_id().as_str()) && opt_str_eq(
        a.repository(),
        b.repository(),
    ) && opt_str_eq(a.notification_target(), b.notification_target());
    proof {
        if !same {
            assert(a@ != b@) by {
                if a@ == b@ {
                    assert(a@.goal == b@.goal);
                }
            }
        }
    }
    same
}

} // verus!

//! The small JSON records a Worker run reads and writes: its outcome, its
//! stream lines, its checkpoint candidate, and the proof of which attempt
//! owns a container.
use vstd::prelude::*;

use crate::control::error::AppError;
use crate::decimal::{decimal, decimal_spec};
use crate::domain::error::{domain_error_text, DomainError};
use crate::domain::outcome::{outcome_kind_name, outcome_kind_named, Outcome, OutcomeView, OUTCOME_SCHEMA_VERSION};
use crate::external::{json_quote, json_quoted, json_string_map, parse_json_string_map};
use crate::text::{join2, owned, str_eq};
use crate::worker::policy::{engine_allowed, oci_engine_allowed};
use vstd::string::StringExecFns;

verus! {

/// Version of the Worker stream line format.
pub const STREAM_SCHEMA_VERSION: u32 = 1;

pub const EVENT_SPAWNED: &'static str = "spawned";

pub const EVENT_EXITED: &'static str = "exited";

pub const EVENT_KILLED: &'static str = "killed";

pub const EVENT_CHILD_STDOUT: &'static str = "child_stdout";

pub const EVENT_CHILD_STDERR: &'static str = "child_stderr";

/// Every stream event, in schema order.
pub const STREAM_EVENTS: [&'static str; 5] = [
    "spawned",
    "exited",
    "killed",
    "child_stdout",
    "child_stderr",
];

/// The JSON of an outcome file: schema version, kind and profile.
pub open spec fn outcome_json(o: OutcomeView) -> Seq<char> {
    "{\"schemaVersion\":"@ + decimal_spec(o.schema_version as nat) + ",\"kind\":"@ + json_quoted(
        outcome_kind_name(o.kind),
    ) + ",\"workerProfile\":"@ + json_quoted(o.worker_profile) + "}"@
}

/// Writes an outcome as the JSON of an outcome file.
pub fn encode_outcome(outcome: &Outcome) -> (r: Result<String, AppError>)
    ensures
        r matches Ok(s) && s@ == outcome_json(outcome@),
{
    let mut s = join2("{\"schemaVersion\":", decimal(outcome.schema_version() as u64).as_str());
    s.append(",\"kind\":");
    s.append(json_quote(outcome.kind().as_str()).as_str());
    s.append(",\"workerProfile\":");
    s.append(json_quote(outcome.worker_profile()).as_str());
    s.append("}");
    Ok(s)
}

/// Reads the fields of an outcome file: an unknown kind or an unsupported
/// schema version is a schema error carrying the domain message; an empty
/// profile is the domain error itself.
pub fn decode_outcome_fields(schema_version: u32, kind: &str, worker_profile: &str) -> (r: Result<
    Outcome,
    AppError,
>)
    ensures
        match outcome_kind_named(kind@) {
            None => r matches Err(AppError::OutcomeSchema(m)) && m@ == domain_error_text(
                DomainError::UnknownOutcomeKind(arbitrary_string_with(kind@)),
            ),
            Some(k) => if schema_version != OUTCOME_SCHEMA_VERSION {
                r matches Err(AppError::OutcomeSchema(m)) && m@ == domain_error_text(
                    DomainError::UnsupportedSchemaVersion(schema_version),
                )
            } else if worker_profile@.len() == 0 {
                r matches Err(AppError::Domain(DomainError::InvalidAttributes))
            } else {
                r matches Ok(o) && o@ == (OutcomeView {
                    schema_version,
                    kind: k,
                    worker_profile: worker_profile@,
                })
            },
        },
{
    let k = match crate::domain::outcome::OutcomeKind::parse(kind) {
        Ok(k) => k,
        Err(e) => {
            proof {
                lemma_unknown_kind_text(e, kind@);
            }
            return Err(AppError::OutcomeSchema(e.describe()));
        },
    };
    match Outcome::new(schema_version, k, worker_profile) {
        Ok(o) => Ok(o),
        Err(e) => match e {
            DomainError::UnknownOutcomeKind(_) | DomainError::UnsupportedSchemaVersion(_) => Err(
                AppError::OutcomeSchema(e.describe()),
            ),
            other => Err(AppError::Domain(other)),
        },
    }
}

/// Some string whose text is `s`.
pub open spec fn arbitrary_string_with(s: Seq<char>) -> String {
    choose|t: String| t@ == s
}

proof fn lemma_unknown_kind_text(e: DomainError, s: Seq<char>)
    requires
        e matches DomainError::UnknownOutcomeKind(t) && t@ == s,
    ensures
        domain_error_text(e) == domain_error_text(
            DomainError::UnknownOutcomeKind(arbitrary_string_with(s)),
        ),
{
    let t = e->UnknownOutcomeKind_0;
    assert(exists|u: String| u@ == s);
}

/// One JSON line of the Worker stream: schema version, Work id, event, and
/// a payload only when there is one.
pub open spec fn stream_line(work_id: Seq<char>, event: Seq<char>, payload: Option<Seq<char>>) -> Seq<char> {
    "{\"schemaVersion\":1,\"workId\":"@ + json_quoted(work_id) + ",\"event\":"@ + json_quoted(event)
        + match payload {
        None => Seq::empty(),
        Some(p) => ",\"payload\":"@ + json_quoted(p),
    } + "}"@
}

/// Writes one stream line.
pub fn record_line(work_id: &str, event: &str, payload: Option<&str>) -> (r: String)
    ensures
        r@ == stream_line(
            work_id@,
            event@,
            match payload {
                None => None,
                Some(p) => Some(p@),
            },
        ),
{
    let mut s = join2("{\"schemaVersion\":1,\"workId\":", json_quote(work_id).as_str());
    s.append(",\"event\":");
    s.append(json_quote(event).as_str());
    match payload {
        None => {},
        Some(p) => {
            s.append(",\"payload\":");
            s.append(json_quote(p).as_str());
        },
    }
    s.append("}");
    s
}

/// The checkpoint candidate the control stub hands back when asked to
/// park: the attempt it belongs to and the profile, keys in sorted order.
pub open spec fn checkpoint_json(
    work_id: Seq<char>,
    execution_id: Seq<char>,
    attempt_id: Seq<char>,
    worker_profile: Seq<char>,
) -> Seq<char> {
    "{\"attemptId\":"@ + json_quoted(attempt_id) + ",\"executionId\":"@ + json_quoted(execution_id)
        + ",\"schemaVersion\":1,\"workId\":"@ + json_quoted(work_id) + ",\"workerProfile\":"@
        + json_quoted(worker_profile) + "}"@
}

/// Writes a checkpoint candidate.
pub fn checkpoint_payload(
    work_id: &str,
    execution_id: &str,
    attempt_id: &str,
    worker_profile: &str,
) -> (r: String)
    ensures
        r@ == checkpoint_json(work_id@, execution_id@, attempt_id@, worker_profile@),
{
    let mut s = join2("{\"attemptId\":", json_quote(attempt_id).as_str());
    s.append(",\"executionId\":");
    s.append(json_quote(execution_id).as_str());
    s.append(",\"schemaVersion\":1,\"workId\":");
    s.append(json_quote(work_id).as_str());
    s.append(",\"workerProfile\":");
    s.append(json_quote(worker_profile).as_str());
    s.append("}");
    s
}

/// Who owns a container: written before the container starts, checked
/// before anything tears it down.
pub struct OciOwner {
    pub schema_version: u32,
    pub engine: String,
    pub container: String,
    pub work_id: String,
    pub execution_id: String,
    pub attempt_id: String,
}

impl OciOwner {
    /// The ownership record of one attempt's container.
    pub fn for_attempt(engine: &str, work_id: &str, execution_id: &str, attempt_id: &str) -> (r:
        OciOwner)
        ensures
            r.schema_version == 1,
            r.engine@ == engine@,
            r.container@ == crate::worker::command::container_name(attempt_id@),
            r.work_id@ == work_id@,
            r.execution_id@ == execution_id@,
            r.attempt_id@ == attempt_id@,
    {
        OciOwner {
            schema_version: 1,
            engine: owned(engine),
            container: join2("workengine-", attempt_id),
            work_id: owned(work_id),
            execution_id: owned(execution_id),
            attempt_id: owned(attempt_id),
        }
    }
}

/// Message of an ownership record that belongs to another attempt.
pub open spec fn foreign_owner_message() -> Seq<char> {
    "OCI ownership proof does not match the active attempt"@
}

/// Checks an ownership record against the attempt that wants to tear its
/// container down: same version, Work, execution and attempt, then an
/// allowed engine.
pub fn check_oci_owner(owner: &OciOwner, work_id: &str, execution_id: &str, attempt_id: &str) -> (r:
    Result<(), AppError>)
    ensures
        !(owner.schema_version == 1 && owner.work_id@ == work_id@ && owner.execution_id@
            == execution_id@ && owner.attempt_id@ == attempt_id@) ==> (r matches Err(
            AppError::Worker(m),
        ) && m@ == foreign_owner_message()),
        (owner.schema_version == 1 && owner.work_id@ == work_id@ && owner.execution_id@
            == execution_id@ && owner.attempt_id@ == attempt_id@) ==> if engine_allowed(
            owner.engine@,
        ) {
            r is Ok
        } else {
            r matches Err(AppError::Worker(m)) && m@ == "OCI ownership proof names an invalid engine"@
        },
{
    if owner.schema_version != 1 || !str_eq(owner.work_id.as_str(), work_id) || !str_eq(
        owner.execution_id.as_str(),
        execution_id,
    ) || !str_eq(owner.attempt_id.as_str(), attempt_id) {
        return Err(AppError::worker("OCI ownership proof does not match the active attempt"));
    }
    if !oci_engine_allowed(owner.engine.as_str()) {
        return Err(AppError::worker("OCI ownership proof names an invalid engine"));
    }
    Ok(())
}

/// The value of the first entry with `key`.
pub open spec fn entry_value(entries: Seq<(Seq<char>, Seq<char>)>, key: Seq<char>) -> Option<Seq<char>>
    decreases entries.len(),
{
    if entries.len() == 0 {
        None
    } else if entries[0].0 == key {
        Some(entries[0].1)
    } else {
        entry_value(entries.drop_first(), key)
    }
}

fn lookup(entries: &Vec<(String, String)>, key: &str) -> (r: Option<String>)
    ensures
        match r {
            Some(v) => entry_value(entries@.map_values(|p: (String, String)| (p.0@, p.1@)), key@)
                == Some(v@),
            None => entry_value(entries@.map_values(|p: (String, String)| (p.0@, p.1@)), key@)
                is None,
        },
{
    let ghost all = entries@.map_values(|p: (String, String)| (p.0@, p.1@));
    assert(all.subrange(0, all.len() as int) =~= all);
    let mut i: usize = 0;
    while i < entries.len()
        invariant
            all == entries@.map_values(|p: (String, String)| (p.0@, p.1@)),
            i <= entries.len(),
            entry_value(all, key@) == entry_value(all.subrange(i as int, all.len() as int), key@),
        decreases entries.len() - i,
    {
        let ghost rest = all.subrange(i as int, all.len() as int);
        assert(rest.drop_first() =~= all.subrange(i + 1, all.len() as int));
        assert(rest[0] == all[i as int]);
        if str_eq(entries[i].0.as_str(), key) {
            return Some(owned(entries[i].1.as_str()));
        }
        i = i + 1;
    }
    None
}

/// Whether the container labels name this attempt: the engine's JSON map of
/// labels has `workengine.work_id`, `workengine.execution_id` and
/// `workengine.attempt_id` equal to the attempt's ids.
pub open spec fn labels_prove(
    labels: Seq<(Seq<char>, Seq<char>)>,
    work_id: Seq<char>,
    execution_id: Seq<char>,
    attempt_id: Seq<char>,
) -> bool {
    &&& entry_value(labels, "workengine.work_id"@) == Some(work_id)
    &&& entry_value(labels, "workengine.execution_id"@) == Some(execution_id)
    &&& entry_value(labels, "workengine.attempt_id"@) == Some(attempt_id)
}

/// Checks the labels the engine reports for a container against the
/// attempt that wants to tear it down.
pub fn check_oci_labels(bytes: &[u8], work_id: &str, execution_id: &str, attempt_id: &str) -> (r:
    Result<(), AppError>)
    ensures
        match json_string_map(bytes@) {
            None => r matches Err(e) && e is Worker,
            Some(labels) => if labels_prove(labels, work_id@, execution_id@, attempt_id@) {
                r is Ok
            } else {
                r matches Err(AppError::Worker(m)) && m@ == "OCI labels do not prove attempt ownership"@
            },
        },
{
    let labels = match parse_json_string_map(bytes) {
        Ok(l) => l,
        Err(message) => return Err(AppError::Worker(message)),
    };
    let w = lookup(&labels, "workengine.work_id");
    let e = lookup(&labels, "workengine.execution_id");
    let a = lookup(&labels, "workengine.attempt_id");
    let ok = match (w, e, a) {
        (Some(w), Some(e), Some(a)) => str_eq(w.as_str(), work_id) && str_eq(e.as_str(), execution_id)
            && str_eq(a.as_str(), attempt_id),
        _ => false,
    };
    if !ok {
        return Err(AppError::worker("OCI labels do not prove attempt ownership"));
    }
    Ok(())
}

} // verus!

//! Integrations: inbound records that become Work, publications that
//! leave, and guarded mutations of a remote system.
use vstd::prelude::*;

use crate::control::error::{app_error_text, AppError};
use crate::control::queue::Clock;
use crate::decimal::{decimal, decimal_spec};
use crate::domain::event::{created_event, WorkEvent};
use crate::domain::ids::{ProjectId, WorkId};
use crate::domain::status::{status_name, WorkStatus};
use crate::domain::work::{fresh_work, opt_view, valid_attributes, AttributesView, Work, WorkAttributes};
use crate::external::{json_quote, json_quoted};
use crate::text::{valid_opaque_id, blank, is_blank, is_valid_key, join2, owned, str_eq, valid_key};
use vstd::string::StringExecFns;

verus! {

/// Whether an inbound record asks for Work yet.
#[derive(Clone, Copy, Debug, PartialEq, Eq, Structural)]
pub enum InboundSignal {
    Pending,
    Ready,
}

/// One record read from an inbound source.
#[derive(Debug)]
pub struct InboundRecord {
    pub record_id: String,
    pub signal: InboundSignal,
    pub project_id: ProjectId,
    pub repository: Option<String>,
    pub goal: String,
    pub worker_profile: String,
    pub notification_target: Option<String>,
}

impl InboundRecord {
    /// A record from the fields of an inbound line: the signal must be
    /// `pending` or `ready` (a schema error otherwise), then the project id
    /// must parse.
    pub fn from_fields(
        record_id: String,
        signal: &str,
        project_id: &str,
        repository: Option<String>,
        goal: String,
        worker_profile: String,
        notification_target: Option<String>,
    ) -> (r: Result<InboundRecord, AppError>)
        ensures
            signal@ != "pending"@ && signal@ != "ready"@ ==> (r matches Err(
                AppError::OutcomeSchema(m),
            ) && m@ == "unknown inbound signal "@ + signal@),
            (signal@ == "pending"@ || signal@ == "ready"@) ==> if !valid_opaque_id(project_id@) {
                r matches Err(AppError::Domain(e)) && e
                    == crate::domain::error::DomainError::InvalidProjectId
            } else {
                r matches Ok(rec) && rec.record_id@ == record_id@ && rec.project_id@ == project_id@
                    && rec.goal@ == goal@ && rec.worker_profile@ == worker_profile@ && opt_view(
                    rec.repository,
                ) == opt_view(repository) && opt_view(rec.notification_target) == opt_view(
                    notification_target,
                ) && (rec.signal == if signal@ == "ready"@ {
                    InboundSignal::Ready
                } else {
                    InboundSignal::Pending
                })
            },
    {
        proof {
            reveal_strlit("pending");
            reveal_strlit("ready");
            assert("pending"@.len() != "ready"@.len());
        }
        let signal = if str_eq(signal, "pending") {
            InboundSignal::Pending
        } else if str_eq(signal, "ready") {
            InboundSignal::Ready
        } else {
            return Err(AppError::OutcomeSchema(join2("unknown inbound signal ", signal)));
        };
        let project_id = match ProjectId::parse(project_id) {
            Ok(p) => p,
            Err(e) => return Err(AppError::Domain(e)),
        };
        Ok(
            InboundRecord {
                record_id,
                signal,
                project_id,
                repository,
                goal,
                worker_profile,
                notification_target,
            },
        )
    }
}

/// A source of inbound records.
pub trait InboundSource {
    fn source_id(&self) -> &str;

    fn poll(&mut self) -> Result<Vec<InboundRecord>, AppError>;
}

/// Keeps Work created from inbound records, at most once per record.
pub trait InboundStore {
    /// Stores the Work unless the source already delivered the record;
    /// whether it was stored.
    fn put_inbound(&mut self, source_id: &str, record_id: &str, work: &Work, event: WorkEvent) -> Result<
        bool,
        AppError,
    >;
}

/// The attributes an inbound record asks for.
pub open spec fn record_attributes_view(record: InboundRecord) -> AttributesView {
    AttributesView {
        goal: record.goal@,
        worker_profile: record.worker_profile@,
        project_id: record.project_id@,
        repository: opt_view(record.repository),
        notification_target: opt_view(record.notification_target),
    }
}

/// What one inbound record becomes, under the fresh id `id` at `now_unix_ms`:
/// a record id that is not a valid key is a conflict; a pending record
/// becomes nothing; a ready record becomes a `ready` Work with its
/// attributes and its creation event, or the attributes' domain error.
pub fn inbound_work(record: &InboundRecord, id: WorkId, now_unix_ms: u64) -> (r: Result<
    Option<(Work, WorkEvent)>,
    AppError,
>)
    ensures
        !valid_key(record.record_id@) ==> (r matches Err(AppError::Conflict(m)) && m@
            == "inbound record id is invalid"@),
        valid_key(record.record_id@) && record.signal != InboundSignal::Ready ==> (r matches Ok(None)),
        valid_key(record.record_id@) && record.signal == InboundSignal::Ready && !valid_attributes(
            record_attributes_view(*record),
        ) ==> (r matches Err(AppError::Domain(d)) && d
            == crate::domain::error::DomainError::InvalidAttributes),
        valid_key(record.record_id@) && record.signal == InboundSignal::Ready && valid_attributes(
            record_attributes_view(*record),
        ) ==> (r matches Ok(Some((w, e))) && w@ == fresh_work(
            id@,
            record_attributes_view(*record),
            now_unix_ms,
        ) && e@ == created_event(w@)),
{
    if !is_valid_key(record.record_id.as_str()) {
        return Err(AppError::conflict("inbound record id is invalid"));
    }
    if record.signal != InboundSignal::Ready {
        return Ok(None);
    }
    let attributes = match WorkAttributes::scoped(
        record.goal.as_str(),
        record.worker_profile.as_str(),
        record.project_id.clone(),
        record.repository.clone(),
        record.notification_target.clone(),
    ) {
        Ok(a) => a,
        Err(e) => return Err(AppError::Domain(e)),
    };
    let work = match Work::new(id, attributes, now_unix_ms) {
        Ok(w) => w,
        Err(e) => return Err(AppError::Domain(e)),
    };
    let event = WorkEvent::created(&work);
    Ok(Some((work, event)))
}

/// Polls one source: every ready record with a valid id becomes a Work in
/// `ready` under a fresh id, at the clock's time, unless the store already
/// has it. A blank source id, or a blank, over-long or control-bearing
/// record id, is a conflict.
pub fn poll_inbound<S: InboundStore, I: InboundSource, C: Clock>(
    store: &mut S,
    source: &mut I,
    clock: &C,
) -> (r: Result<Vec<Work>, AppError>)
    ensures
        r matches Ok(created) ==> forall|i: int|
            0 <= i < created.len() ==> #[trigger] created@[i]@.status == WorkStatus::Ready,
{
    let source_id = owned(source.source_id());
    if blank(source_id.as_str()) {
        return Err(AppError::conflict("inbound source id is empty"));
    }
    let records = source.poll()?;
    let mut created: Vec<Work> = Vec::new();
    let mut i: usize = 0;
    while i < records.len()
        invariant
            i <= records.len(),
            forall|j: int| 0 <= j < created.len() ==> #[trigger] created@[j]@.status == WorkStatus::Ready,
        decreases records.len() - i,
    {
        let record = &records[i];
        let id = crate::control::usecases::generated_work_id();
        if let Some((work, event)) = inbound_work(record, id, clock.unix_ms())? {
            let stored = store.put_inbound(
                source_id.as_str(),
                record.record_id.as_str(),
                &work,
                event,
            )?;
            if stored {
                created.push(work);
            }
        }
        i = i + 1;
    }
    Ok(created)
}

/// What a publication announces.
#[derive(Clone, Copy, Debug, PartialEq, Eq, Structural)]
pub enum PublicationKind {
    WorkTransition,
    ExternalInputRequired,
}

/// The wire name of a publication kind.
pub open spec fn publication_kind_name(k: PublicationKind) -> Seq<char> {
    match k {
        PublicationKind::WorkTransition => "work_transition"@,
        PublicationKind::ExternalInputRequired => "external_input_required"@,
    }
}

impl PublicationKind {
    pub fn as_str(self) -> (r: &'static str)
        ensures
            r@ == publication_kind_name(self),
    {
        match self {
            PublicationKind::WorkTransition => "work_transition",
            PublicationKind::ExternalInputRequired => "external_input_required",
        }
    }

    /// Reads a publication kind from its wire name.
    pub fn parse(value: &str) -> (r: Option<PublicationKind>)
        ensures
            value@ == "work_transition"@ ==> r == Some(PublicationKind::WorkTransition),
            value@ == "external_input_required"@ ==> r == Some(
                PublicationKind::ExternalInputRequired,
            ),
            value@ != "work_transition"@ && value@ != "external_input_required"@ ==> r is None,
    {
        proof {
            reveal_strlit("work_transition");
            reveal_strlit("external_input_required");
            assert("work_transition"@.len() != "external_input_required"@.len());
        }
        if str_eq(value, "work_transition") {
            Some(PublicationKind::WorkTransition)
        } else if str_eq(value, "external_input_required") {
            Some(PublicationKind::ExternalInputRequired)
        } else {
            None
        }
    }
}

/// One pending notice about a Work for an outside channel. It carries no
/// goal and no secret.
#[derive(Debug)]
pub struct Publication {
    pub publication_id: i64,
    pub kind: PublicationKind,
    pub work_id: WorkId,
    pub project_id: ProjectId,
    pub target: String,
    pub status: WorkStatus,
    pub created_at_unix_ms: u64,
    pub attempt_count: u32,
}

/// Keeps publications and their delivery attempts.
pub trait PublicationStore {
    /// Up to `limit` pending publications, oldest first.
    fn pending_publications(&self, limit: usize) -> (r: Result<Vec<Publication>, AppError>)
        ensures
            r matches Ok(v) ==> v@.len() <= limit,
    ;

    fn record_publication_attempt(
        &mut self,
        publication_id: i64,
        delivered: bool,
        attempted_at_unix_ms: u64,
        error: Option<&str>,
    ) -> Result<(), AppError>;
}

/// Delivers publications to an outside channel.
pub trait Publisher {
    fn publish(&mut self, publication: &Publication) -> Result<(), AppError>;
}

/// What is recorded of one delivery: whether it was delivered, and the
/// text of the publisher's error when it was not.
pub fn delivery_record(result: &Result<(), AppError>) -> (r: (bool, Option<String>))
    ensures
        match result {
            Ok(()) => r.0 && r.1 is None,
            Err(e) => !r.0 && (r.1 matches Some(m) && m@ == app_error_text(*e)),
        },
{
    match result {
        Ok(()) => (true, None),
        Err(e) => (false, Some(e.describe())),
    }
}

/// One delivery attempt as it is recorded: the publication it was for,
/// whether it was delivered, and the publisher's error text when it was not.
#[derive(Debug)]
pub struct PublicationAttempt {
    pub publication_id: i64,
    pub delivered: bool,
    pub error: Option<String>,
}

/// The attempt recorded for `publication` once the publisher answered
/// `result`.
pub fn publication_attempt(publication: &Publication, result: &Result<(), AppError>) -> (r:
    PublicationAttempt)
    ensures
        r.publication_id == publication.publication_id,
        match result {
            Ok(()) => r.delivered && r.error is None,
            Err(e) => !r.delivered && (r.error matches Some(m) && m@ == app_error_text(*e)),
        },
{
    let (delivered, error) = delivery_record(result);
    PublicationAttempt { publication_id: publication.publication_id, delivered, error }
}

/// How many of `attempts` delivered their publication.
pub open spec fn delivered_count(attempts: Seq<PublicationAttempt>) -> nat
    decreases attempts.len(),
{
    if attempts.len() == 0 {
        0
    } else {
        delivered_count(attempts.drop_last()) + if attempts.last().delivered {
            1nat
        } else {
            0nat
        }
    }
}

/// Counts the attempts that delivered.
pub fn count_delivered(attempts: &[PublicationAttempt]) -> (n: usize)
    ensures
        n == delivered_count(attempts@),
        n <= attempts@.len(),
{
    let mut n: usize = 0;
    let mut i: usize = 0;
    while i < attempts.len()
        invariant
            i <= attempts@.len(),
            n <= i,
            n == delivered_count(attempts@.take(i as int)),
        decreases attempts.len() - i,
    {
        assert(attempts@.take(i + 1).drop_last() =~= attempts@.take(i as int));
        if attempts[i].delivered {
            n = n + 1;
        }
        i = i + 1;
    }
    assert(attempts@.take(attempts@.len() as int) =~= attempts@);
    n
}

/// Hands each of `pending` to the publisher once, in order, and records
/// each attempt under the publication's own id at the clock's time, with
/// the delivery and error text `publication_attempt` gives. No store
/// transaction is held while the publisher runs. The first failure to
/// record stops the dispatch. On success, one attempt per publication, in
/// the same order, each with its publication's id; an attempt carries an
/// error text exactly when it did not deliver.
pub fn deliver_pending<S: PublicationStore, P: Publisher, C: Clock>(
    store: &mut S,
    publisher: &mut P,
    clock: &C,
    pending: &[Publication],
) -> (r: Result<Vec<PublicationAttempt>, AppError>)
    ensures
        r matches Ok(attempts) ==> attempts@.len() == pending@.len() && forall|i: int|
            0 <= i < pending@.len() ==> (#[trigger] attempts@[i]).publication_id
                == pending@[i].publication_id && (attempts@[i].delivered <==> attempts@[i].error is None),
{
    let mut attempts: Vec<PublicationAttempt> = Vec::new();
    let mut i: usize = 0;
    while i < pending.len()
        invariant
            i <= pending@.len(),
            attempts@.len() == i,
            forall|j: int|
                0 <= j < i ==> (#[trigger] attempts@[j]).publication_id == pending@[j].publication_id
                    && (attempts@[j].delivered <==> attempts@[j].error is None),
        decreases pending.len() - i,
    {
        let publication = &pending[i];
        let result = publisher.publish(publication);
        let attempt = publication_attempt(publication, &result);
        let now = clock.unix_ms();
        match &attempt.error {
            Some(m) => store.record_publication_attempt(
                attempt.publication_id,
                attempt.delivered,
                now,
                Some(m.as_str()),
            )?,
            None => store.record_publication_attempt(attempt.publication_id, attempt.delivered, now, None)?,
        }
        attempts.push(attempt);
        i = i + 1;
    }
    Ok(attempts)
}

/// Fetches up to `limit` pending publications, delivers them with
/// `deliver_pending`, and returns how many were delivered: the
/// `delivered_count` of the attempts it recorded, so at most `limit`.
pub fn dispatch_publications<S: PublicationStore, P: Publisher, C: Clock>(
    store: &mut S,
    publisher: &mut P,
    clock: &C,
    limit: usize,
) -> (r: Result<usize, AppError>)
    ensures
        r matches Ok(n) ==> n <= limit,
{
    let pending = store.pending_publications(limit)?;
    let attempts = deliver_pending(store, publisher, clock, pending.as_slice())?;
    Ok(count_delivered(attempts.as_slice()))
}

/// The decimal text of a signed integer.
pub open spec fn signed_decimal(n: int) -> Seq<char> {
    if n < 0 {
        "-"@ + decimal_spec((-n) as nat)
    } else {
        decimal_spec(n as nat)
    }
}

/// Writes a signed 64-bit integer in decimal.
pub fn signed_decimal_text(n: i64) -> (r: String)
    ensures
        r@ == signed_decimal(n as int),
{
    if n < 0 {
        let magnitude: u64 = ((-(n + 1)) as u64) + 1;
        join2("-", decimal(magnitude).as_str())
    } else {
        decimal(n as u64)
    }
}

/// The JSON line a file publisher appends for a publication: no goal, no
/// secret, only ids, target, status and time.
pub open spec fn publication_json(p: Publication) -> Seq<char> {
    "{\"schemaVersion\":1,\"publicationId\":"@ + signed_decimal(p.publication_id as int)
        + ",\"kind\":"@ + json_quoted(publication_kind_name(p.kind)) + ",\"workId\":"@ + json_quoted(
        p.work_id@,
    ) + ",\"projectId\":"@ + json_quoted(p.project_id@) + ",\"target\":"@ + json_quoted(p.target@)
        + ",\"status\":"@ + json_quoted(status_name(p.status)) + ",\"createdAtUnixMs\":"@
        + decimal_spec(p.created_at_unix_ms as nat) + "}"@
}

/// Writes the JSON line of a publication.
pub fn publication_record(p: &Publication) -> (r: String)
    ensures
        r@ == publication_json(*p),
{
    let mut s = join2(
        "{\"schemaVersion\":1,\"publicationId\":",
        signed_decimal_text(p.publication_id).as_str(),
    );
    s.append(",\"kind\":");
    s.append(json_quote(p.kind.as_str()).as_str());
    s.append(",\"workId\":");
    s.append(json_quote(p.work_id.as_str()).as_str());
    s.append(",\"projectId\":");
    s.append(json_quote(p.project_id.as_str()).as_str());
    s.append(",\"target\":");
    s.append(json_quote(p.target.as_str()).as_str());
    s.append(",\"status\":");
    s.append(json_quote(p.status.as_str()).as_str());
    s.append(",\"createdAtUnixMs\":");
    s.append(decimal(p.created_at_unix_ms).as_str());
    s.append("}");
    s
}

/// A JSON-lines inbox. Re-reading is safe because the control plane keeps
/// receipts.
pub struct JsonLinesInbound {
    source_id: String,
    path: String,
}

impl JsonLinesInbound {
    /// An inbox read from `path` under a source id that is not blank.
    pub fn new(source_id: String, path: String) -> (r: Result<JsonLinesInbound, AppError>)
        ensures
            is_blank(source_id@) ==> (r matches Err(AppError::Conflict(m)) && m@
                == "inbound source id is empty"@),
            !is_blank(source_id@) ==> (r matches Ok(inbox) && inbox.source_id()@ == source_id@
                && inbox.path()@ == path@),
    {
        if blank(source_id.as_str()) {
            return Err(AppError::conflict("inbound source id is empty"));
        }
        Ok(JsonLinesInbound { source_id, path })
    }

    pub closed spec fn source_id(&self) -> String {
        self.source_id
    }

    pub closed spec fn path(&self) -> String {
        self.path
    }

    /// The source id.
    pub fn source(&self) -> (r: &str)
        ensures
            r@ == self.source_id()@,
    {
        self.source_id.as_str()
    }

    /// The inbox file.
    pub fn file(&self) -> (r: &str)
        ensures
            r@ == self.path()@,
    {
        self.path.as_str()
    }
}

/// A payload-minimal JSON-lines publisher. It never receives a goal or a
/// secret.
pub struct JsonLinesPublisher {
    path: String,
}

impl JsonLinesPublisher {
    pub fn new(path: String) -> (r: JsonLinesPublisher)
        ensures
            r.path()@ == path@,
    {
        JsonLinesPublisher { path }
    }

    pub closed spec fn path(&self) -> String {
        self.path
    }

    /// The output file.
    pub fn file(&self) -> (r: &str)
        ensures
            r@ == self.path()@,
    {
        self.path.as_str()
    }
}

/// The error for a file an integration refuses to follow.
pub fn symlink_refusal(label: &str) -> (r: AppError)
    ensures
        r matches AppError::Worker(m) && m@ == label@ + " must not be a symlink"@,
{
    AppError::Worker(join2(label, " must not be a symlink"))
}

/// The context a remote mutation expects to find.
#[derive(Debug)]
pub struct ExpectedContext {
    pub project_id: ProjectId,
    pub repository: String,
    pub revision: String,
}

/// A compare-and-swap of a remote system.
#[derive(Debug)]
pub struct MutationRequest {
    pub expected: ExpectedContext,
    pub change_digest: String,
}

/// The remote revision after a mutation.
#[derive(Debug)]
pub struct MutationResult {
    pub revision: String,
}

/// A remote system that changes only by compare-and-swap.
pub trait RemoteMutation {
    fn compare_and_swap(&mut self, request: &MutationRequest) -> Result<MutationResult, AppError>;
}

/// Whether a mutation request matches the Work it is made for: same
/// project, the Work's repository, and a revision and change digest that
/// are not blank.
pub open spec fn mutation_matches(work: crate::domain::work::WorkView, request: MutationRequest) -> bool {
    &&& work.attributes.project_id == request.expected.project_id@
    &&& work.attributes.repository == Some(request.expected.repository@)
    &&& !is_blank(request.expected.revision@)
    &&& !is_blank(request.change_digest@)
}

/// Mutates a remote system for a Work, only when the request matches the
/// Work; the remote is not touched otherwise.
pub fn mutate_remote<R: RemoteMutation>(work: &Work, remote: &mut R, request: &MutationRequest) -> (r:
    Result<MutationResult, AppError>)
    ensures
        !mutation_matches(work@, *request) ==> (r matches Err(AppError::Conflict(m)) && m@
            == "remote mutation expected context does not match Work"@) && *final(remote)
            == *old(remote),
{
    let attributes = work.attributes();
    let same_project = str_eq(attributes.project_id().as_str(), request.expected.project_id.as_str());
    let same_repository = match attributes.repository() {
        Some(repo) => str_eq(repo, request.expected.repository.as_str()),
        None => false,
    };
    if !same_project || !same_repository || blank(request.expected.revision.as_str()) || blank(
        request.change_digest.as_str(),
    ) {
        return Err(AppError::conflict("remote mutation expected context does not match Work"));
    }
    remote.compare_and_swap(request)
}

} // verus!

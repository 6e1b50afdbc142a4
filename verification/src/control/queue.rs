//! Queue captures, quotas and relations: the checks the control plane makes
//! before it hands a request to the store that keeps them.
use vstd::prelude::*;

use crate::control::error::AppError;
use crate::domain::ids::ProjectId;
use crate::domain::relation::WorkRelation;
use crate::domain::work::Work;
use crate::text::{blank, is_valid_key, join2, valid_key};

verus! {

/// Wall-clock timestamps for Work and events. Hang and budget deadlines
/// belong to the Worker runner, not to this clock.
pub trait Clock {
    fn unix_ms(&self) -> u64;
}

/// Milliseconds since the Unix epoch on the system clock, 0 before it.
/// The value is the time: nothing is promised of it.
#[verifier::external_body]
fn system_time_unix_ms() -> u64 {
    std::time::SystemTime::now().duration_since(std::time::UNIX_EPOCH).map(
        |d| d.as_millis() as u64,
    ).unwrap_or(0)
}

/// The wall clock.
#[derive(Clone, Copy, Debug, Default)]
pub struct SystemClock;

impl Clock for SystemClock {
    fn unix_ms(&self) -> u64 {
        system_time_unix_ms()
    }
}

/// A request to capture the next eligible Work for one Worker.
pub struct CaptureRequest<'a> {
    pub project_id: Option<&'a ProjectId>,
    pub worker_id: &'a str,
}

/// A Worker's hold on one Work at one generation.
#[derive(Debug)]
pub struct CaptureLease {
    pub capture_id: String,
    pub work: Work,
    pub worker_id: String,
    pub generation: u64,
    pub captured_at_unix_ms: u64,
}

/// A hold on some units of a quota resource.
#[derive(Clone, Debug, PartialEq, Eq)]
pub struct QuotaLease {
    pub lease_id: String,
    pub resource: String,
    pub holder: String,
    pub units: u32,
}

/// Keeps queue captures.
pub trait QueueStore {
    fn capture(&mut self, request: &CaptureRequest, captured_at_unix_ms: u64) -> Result<
        Option<CaptureLease>,
        AppError,
    >;

    fn release_capture(&mut self, lease: &CaptureLease) -> Result<(), AppError>;

    fn reclaim_captures(&mut self) -> Result<usize, AppError>;
}

/// Keeps quota limits and leases.
pub trait QuotaStore {
    fn configure_quota(&mut self, resource: &str, limit: u32, expected_generation: Option<u64>) -> Result<
        u64,
        AppError,
    >;

    fn acquire_quota(&mut self, resource: &str, holder: &str, units: u32) -> Result<
        QuotaLease,
        AppError,
    >;

    fn release_quota(&mut self, lease: &QuotaLease) -> Result<(), AppError>;
}

/// Keeps relations between Works.
pub trait RelationStore {
    fn add_relation(&mut self, relation: &WorkRelation) -> Result<(), AppError>;
}

/// Captures the next eligible Work for a Worker, at the clock's time. A
/// blank Worker id is refused before the store is asked.
pub fn capture<S: QueueStore, C: Clock>(
    store: &mut S,
    clock: &C,
    project_id: Option<&ProjectId>,
    worker_id: &str,
) -> (r: Result<Option<CaptureLease>, AppError>)
    ensures
        crate::text::is_blank(worker_id@) ==> (r matches Err(AppError::Conflict(m)) && m@
            == "capture worker id is empty"@) && *final(store) == *old(store),
{
    if blank(worker_id) {
        return Err(AppError::conflict("capture worker id is empty"));
    }
    let request = CaptureRequest { project_id, worker_id };
    let now = clock.unix_ms();
    store.capture(&request, now)
}

/// Gives a capture back.
pub fn release_capture<S: QueueStore>(store: &mut S, lease: &CaptureLease) -> (r: Result<(), AppError>) {
    store.release_capture(lease)
}

/// Releases every capture left active by a previous run; the count of those
/// released.
pub fn recover_captures<S: QueueStore>(store: &mut S) -> (r: Result<usize, AppError>) {
    store.reclaim_captures()
}

/// Records a relation between two Works.
pub fn add_relation<S: RelationStore>(store: &mut S, relation: &WorkRelation) -> (r: Result<(), AppError>) {
    store.add_relation(relation)
}

/// The message of a malformed quota key.
pub open spec fn invalid_key_message(label: Seq<char>) -> Seq<char> {
    label + " is invalid"@
}

/// Accepts a quota key: not blank, at most 256 bytes, no control character.
pub fn validate_key(value: &str, label: &str) -> (r: Result<(), AppError>)
    ensures
        r is Ok <==> valid_key(value@),
        r matches Err(e) ==> (e matches AppError::Conflict(m) && m@ == invalid_key_message(label@)),
{
    if !is_valid_key(value) {
        return Err(AppError::Conflict(join2(label, " is invalid")));
    }
    Ok(())
}

/// Sets a quota's limit; `expected_generation` guards a change against a
/// concurrent one. A malformed resource is refused before the store is asked.
pub fn configure_quota<S: QuotaStore>(
    store: &mut S,
    resource: &str,
    limit: u32,
    expected_generation: Option<u64>,
) -> (r: Result<u64, AppError>)
    ensures
        !valid_key(resource@) ==> (r matches Err(AppError::Conflict(m)) && m@
            == invalid_key_message("quota resource"@)) && *final(store) == *old(store),
{
    validate_key(resource, "quota resource")?;
    store.configure_quota(resource, limit, expected_generation)
}

/// Takes `units` of a quota for `holder`. A malformed resource or holder, or
/// zero units, is refused before the store is asked, in that order.
pub fn acquire_quota<S: QuotaStore>(store: &mut S, resource: &str, holder: &str, units: u32) -> (r:
    Result<QuotaLease, AppError>)
    ensures
        !valid_key(resource@) ==> (r matches Err(AppError::Conflict(m)) && m@
            == invalid_key_message("quota resource"@)) && *final(store) == *old(store),
        valid_key(resource@) && !valid_key(holder@) ==> (r matches Err(AppError::Conflict(m)) && m@
            == invalid_key_message("quota holder"@)) && *final(store) == *old(store),
        valid_key(resource@) && valid_key(holder@) && units == 0 ==> (r matches Err(
            AppError::Conflict(m),
        ) && m@ == "quota units must be positive"@) && *final(store) == *old(store),
{
    validate_key(resource, "quota resource")?;
    validate_key(holder, "quota holder")?;
    if units == 0 {
        return Err(AppError::conflict("quota units must be positive"));
    }
    store.acquire_quota(resource, holder, units)
}

/// Gives a quota lease back.
pub fn release_quota<S: QuotaStore>(store: &mut S, lease: &QuotaLease) -> (r: Result<(), AppError>) {
    store.release_quota(lease)
}

} // verus!

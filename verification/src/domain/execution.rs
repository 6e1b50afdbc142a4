//! Immutable execution snapshots and outcomes confirmed by the control plane.
use vstd::prelude::*;
use vstd::string::StrSliceExecFns;

use crate::domain::error::DomainError;
use crate::domain::ids::{AttemptId, ExecutionId, WorkId};
use crate::domain::outcome::{Outcome, OutcomeView};
use crate::text::{chars_of, is_ascii_alphanumeric, is_ascii_alphanumeric_spec, is_valid_text, owned, str_eq, valid_text};

verus! {

/// Schema version of a persisted execution specification.
pub const EXECUTION_SPEC_SCHEMA_VERSION: u32 = 1;

/// Schema version of a persisted control-plane confirmed outcome.
pub const CONFIRMED_OUTCOME_SCHEMA_VERSION: u32 = 1;

/// Reaction fixed for channel failures in one immutable execution spec.
#[derive(Clone, Copy, Debug, PartialEq, Eq, Hash, Structural)]
pub enum ChannelPolicy {
    Fail,
    Park,
    RetryThenFail,
}

/// The wire name of a channel policy.
pub open spec fn channel_policy_name(p: ChannelPolicy) -> Seq<char> {
    match p {
        ChannelPolicy::Fail => "fail"@,
        ChannelPolicy::Park => "park"@,
        ChannelPolicy::RetryThenFail => "retry_then_fail"@,
    }
}

/// The channel policy whose wire name is `s`, if any.
pub open spec fn channel_policy_named(s: Seq<char>) -> Option<ChannelPolicy> {
    if s == "fail"@ {
        Some(ChannelPolicy::Fail)
    } else if s == "park"@ {
        Some(ChannelPolicy::Park)
    } else if s == "retry_then_fail"@ {
        Some(ChannelPolicy::RetryThenFail)
    } else {
        None
    }
}

impl ChannelPolicy {
    pub const ALL: [ChannelPolicy; 3] = [
        ChannelPolicy::Fail,
        ChannelPolicy::Park,
        ChannelPolicy::RetryThenFail,
    ];

    pub fn as_str(self) -> (r: &'static str)
        ensures
            r@ == channel_policy_name(self),
    {
        match self {
            ChannelPolicy::Fail => "fail",
            ChannelPolicy::Park => "park",
            ChannelPolicy::RetryThenFail => "retry_then_fail",
        }
    }

    /// Reads a channel policy from its wire name.
    pub fn named(s: &str) -> (r: Option<ChannelPolicy>)
        ensures
            r == channel_policy_named(s@),
    {
        if str_eq(s, "fail") {
            Some(ChannelPolicy::Fail)
        } else if str_eq(s, "park") {
            Some(ChannelPolicy::Park)
        } else if str_eq(s, "retry_then_fail") {
            Some(ChannelPolicy::RetryThenFail)
        } else {
            None
        }
    }
}

/// Every channel policy is read back from its own wire name.
pub proof fn lemma_channel_policy_name_roundtrip(p: ChannelPolicy)
    ensures
        channel_policy_named(channel_policy_name(p)) == Some(p),
{
    reveal_strlit("fail");
    reveal_strlit("park");
    reveal_strlit("retry_then_fail");
    assert("fail"@[0] == 'f' && "park"@[0] == 'p');
    assert("retry_then_fail"@.len() == 15);
}

/// The kind of runtime that isolates a Worker.
#[derive(Clone, Copy, Debug, PartialEq, Eq, Hash, Structural)]
pub enum RuntimeKind {
    Stub,
    Bubblewrap,
    Oci,
}

/// The wire name of a runtime kind.
pub open spec fn runtime_kind_name(k: RuntimeKind) -> Seq<char> {
    match k {
        RuntimeKind::Stub => "stub"@,
        RuntimeKind::Bubblewrap => "bubblewrap"@,
        RuntimeKind::Oci => "oci"@,
    }
}

/// The runtime kind whose wire name is `s`, if any.
pub open spec fn runtime_kind_named(s: Seq<char>) -> Option<RuntimeKind> {
    if s == "stub"@ {
        Some(RuntimeKind::Stub)
    } else if s == "bubblewrap"@ {
        Some(RuntimeKind::Bubblewrap)
    } else if s == "oci"@ {
        Some(RuntimeKind::Oci)
    } else {
        None
    }
}

impl RuntimeKind {
    pub fn as_str(self) -> (r: &'static str)
        ensures
            r@ == runtime_kind_name(self),
    {
        match self {
            RuntimeKind::Stub => "stub",
            RuntimeKind::Bubblewrap => "bubblewrap",
            RuntimeKind::Oci => "oci",
        }
    }

    /// Reads a runtime kind from its wire name.
    pub fn named(s: &str) -> (r: Option<RuntimeKind>)
        ensures
            r == runtime_kind_named(s@),
    {
        if str_eq(s, "stub") {
            Some(RuntimeKind::Stub)
        } else if str_eq(s, "bubblewrap") {
            Some(RuntimeKind::Bubblewrap)
        } else if str_eq(s, "oci") {
            Some(RuntimeKind::Oci)
        } else {
            None
        }
    }
}

/// The prefix of a content digest.
pub open spec fn sha256_prefix() -> Seq<char> {
    seq!['s', 'h', 'a', '2', '5', '6', ':']
}

/// `sha256:` followed by exactly 64 lower-case hexadecimal digits.
pub open spec fn valid_digest(s: Seq<char>) -> bool {
    &&& s.len() == 71
    &&& s.subrange(0, 7) == sha256_prefix()
    &&& forall|i: int| 7 <= i < 71 ==> #[trigger] crate::text::is_lower_hex_spec(s[i])
}

/// Checks the shape of a content digest.
pub fn is_valid_digest(raw: &str) -> (r: bool)
    ensures
        r == valid_digest(raw@),
{
    let v = chars_of(raw);
    if v.len() != 71 {
        return false;
    }
    if !(v[0] == 's' && v[1] == 'h' && v[2] == 'a' && v[3] == '2' && v[4] == '5' && v[5] == '6'
        && v[6] == ':') {
        assert(raw@.subrange(0, 7)[0] == raw@[0]);
        assert(raw@.subrange(0, 7) != sha256_prefix()) by {
            if raw@.subrange(0, 7) == sha256_prefix() {
                assert(raw@.subrange(0, 7)[0] == raw@[0]);
                assert(raw@.subrange(0, 7)[1] == raw@[1]);
                assert(raw@.subrange(0, 7)[2] == raw@[2]);
                assert(raw@.subrange(0, 7)[3] == raw@[3]);
                assert(raw@.subrange(0, 7)[4] == raw@[4]);
                assert(raw@.subrange(0, 7)[5] == raw@[5]);
                assert(raw@.subrange(0, 7)[6] == raw@[6]);
            }
        }
        return false;
    }
    assert(raw@.subrange(0, 7) =~= sha256_prefix());
    let mut i: usize = 7;
    while i < 71
        invariant
            v@ == raw@,
            v.len() == 71,
            7 <= i <= 71,
            forall|j: int| 7 <= j < i ==> #[trigger] crate::text::is_lower_hex_spec(raw@[j]),
        decreases 71 - i,
    {
        let c = v[i];
        if !(('0' <= c && c <= '9') || ('a' <= c && c <= 'f')) {
            assert(!crate::text::is_lower_hex_spec(raw@[i as int]));
            return false;
        }
        i = i + 1;
    }
    true
}

/// A content-addressed SHA-256 digest persisted in an execution snapshot.
#[derive(Debug, PartialEq, Eq, Hash)]
pub struct ContentDigest(String);

impl View for ContentDigest {
    type V = Seq<char>;

    closed spec fn view(&self) -> Seq<char> {
        self.0@
    }
}

impl Clone for ContentDigest {
    fn clone(&self) -> (r: Self)
        ensures
            r@ == self@,
    {
        ContentDigest(self.0.clone())
    }
}

impl ContentDigest {
    /// Accepts `sha256:` followed by 64 lower-case hexadecimal digits.
    pub fn parse(raw: &str) -> (r: Result<ContentDigest, DomainError>)
        ensures
            match r {
                Ok(d) => valid_digest(raw@) && d@ == raw@,
                Err(e) => !valid_digest(raw@) && e == DomainError::InvalidExecutionSpec,
            },
    {
        if !is_valid_digest(raw) {
            return Err(DomainError::InvalidExecutionSpec);
        }
        Ok(ContentDigest(owned(raw)))
    }

    pub fn as_str(&self) -> (r: &str)
        ensures
            r@ == self@,
    {
        self.0.as_str()
    }
}

/// An environment-style reference name: an ASCII letter or `_`, then ASCII
/// letters, digits or `_`.
pub open spec fn valid_env_name(s: Seq<char>) -> bool {
    &&& s.len() > 0
    &&& (crate::text::is_ascii_alphabetic_spec(s[0]) || s[0] == '_')
    &&& forall|i: int| 1 <= i < s.len() ==> #[trigger] is_ascii_alphanumeric_spec(s[i]) || s[i] == '_'
}

/// Checks an environment-style reference name.
pub fn is_valid_env_name(raw: &str) -> (r: bool)
    ensures
        r == valid_env_name(raw@),
{
    let v = chars_of(raw);
    if v.len() == 0 {
        return false;
    }
    let c0 = v[0];
    if !(('a' <= c0 && c0 <= 'z') || ('A' <= c0 && c0 <= 'Z') || c0 == '_') {
        return false;
    }
    let mut i: usize = 1;
    while i < v.len()
        invariant
            v@ == raw@,
            1 <= i <= v.len(),
            forall|j: int| 1 <= j < i ==> #[trigger] is_ascii_alphanumeric_spec(raw@[j]) || raw@[j] == '_',
        decreases v.len() - i,
    {
        let c = v[i];
        if !(is_ascii_alphanumeric(c) || c == '_') {
            assert(!(is_ascii_alphanumeric_spec(raw@[i as int]) || raw@[i as int] == '_'));
            return false;
        }
        i = i + 1;
    }
    true
}

/// Current closed set of secret-reference sources.
#[derive(Debug, PartialEq, Eq, Hash)]
pub enum SecretSource {
    EnvironmentVariable(String),
}

impl View for SecretSource {
    type V = Seq<char>;

    open spec fn view(&self) -> Seq<char> {
        match self {
            SecretSource::EnvironmentVariable(name) => name@,
        }
    }
}

impl Clone for SecretSource {
    fn clone(&self) -> (r: Self)
        ensures
            r@ == self@,
    {
        match self {
            SecretSource::EnvironmentVariable(name) => SecretSource::EnvironmentVariable(name.clone()),
        }
    }
}

impl SecretSource {
    /// A reference to an environment variable by name. The value itself is
    /// never stored.
    pub fn environment_variable(name: &str) -> (r: Result<SecretSource, DomainError>)
        ensures
            match r {
                Ok(s) => valid_env_name(name@) && s@ == name@,
                Err(e) => !valid_env_name(name@) && e == DomainError::InvalidExecutionSpec,
            },
    {
        if !is_valid_env_name(name) {
            return Err(DomainError::InvalidExecutionSpec);
        }
        Ok(SecretSource::EnvironmentVariable(owned(name)))
    }

    pub fn reference(&self) -> (r: &str)
        ensures
            r@ == self@,
    {
        match self {
            SecretSource::EnvironmentVariable(name) => name.as_str(),
        }
    }
}

/// A secret reference as data: the mount name and the source reference.
pub struct SecretRefView {
    pub name: Seq<char>,
    pub source: Seq<char>,
}

/// Typed configuration reference for a secret made available to a Worker.
/// It stores a source identifier and has no field for the secret value.
#[derive(Debug, PartialEq, Eq, Hash)]
pub struct SecretRef {
    name: String,
    source: SecretSource,
}

impl View for SecretRef {
    type V = SecretRefView;

    closed spec fn view(&self) -> SecretRefView {
        SecretRefView { name: self.name@, source: self.source@ }
    }
}

impl Clone for SecretRef {
    fn clone(&self) -> (r: Self)
        ensures
            r@ == self@,
    {
        SecretRef { name: self.name.clone(), source: self.source.clone() }
    }
}

impl SecretRef {
    pub fn new(name: &str, source: SecretSource) -> (r: Result<SecretRef, DomainError>)
        ensures
            match r {
                Ok(s) => valid_text(name@) && s@ == (SecretRefView { name: name@, source: source@ }),
                Err(e) => !valid_text(name@) && e == DomainError::InvalidExecutionSpec,
            },
    {
        if !is_valid_text(name) {
            return Err(DomainError::InvalidExecutionSpec);
        }
        Ok(SecretRef { name: owned(name), source })
    }

    pub fn name(&self) -> (r: &str)
        ensures
            r@ == self@.name,
    {
        self.name.as_str()
    }

    pub fn source(&self) -> (r: &SecretSource)
        ensures
            r@ == self@.source,
    {
        &self.source
    }
}

/// The views of a list of secret references.
pub open spec fn secret_ref_views(refs: Seq<SecretRef>) -> Seq<SecretRefView> {
    refs.map_values(|r: SecretRef| r@)
}

/// A copy of a list of secret references.
pub fn clone_refs(refs: &Vec<SecretRef>) -> (r: Vec<SecretRef>)
    ensures
        secret_ref_views(r@) == secret_ref_views(refs@),
{
    let mut out: Vec<SecretRef> = Vec::new();
    let mut i: usize = 0;
    while i < refs.len()
        invariant
            i <= refs.len(),
            out@.len() == i,
            forall|j: int| 0 <= j < i ==> #[trigger] out@[j]@ == refs@[j]@,
        decreases refs.len() - i,
    {
        let c = refs[i].clone();
        out.push(c);
        i = i + 1;
    }
    assert(secret_ref_views(out@) =~= secret_ref_views(refs@));
    out
}

/// No two secret references share a mount name.
pub open spec fn distinct_secret_names(refs: Seq<SecretRefView>) -> bool {
    forall|i: int, j: int| 0 <= i < j < refs.len() ==> #[trigger] refs[i].name != #[trigger] refs[j].name
}

/// Checks that no two secret references share a mount name.
pub fn secret_names_distinct(refs: &Vec<SecretRef>) -> (r: bool)
    ensures
        r == distinct_secret_names(secret_ref_views(refs@)),
{
    let ghost views = secret_ref_views(refs@);
    let mut i: usize = 0;
    while i < refs.len()
        invariant
            views == secret_ref_views(refs@),
            i <= refs.len(),
            forall|a: int, b: int| 0 <= a < b < refs.len() && a < i ==> #[trigger] views[a].name != #[trigger] views[b].name,
        decreases refs.len() - i,
    {
        let mut j: usize = i + 1;
        while j < refs.len()
            invariant
                views == secret_ref_views(refs@),
                i < refs.len(),
                i + 1 <= j <= refs.len(),
                forall|a: int, b: int| 0 <= a < b < refs.len() && a < i ==> #[trigger] views[a].name != #[trigger] views[b].name,
                forall|b: int| i < b < j ==> views[i as int].name != #[trigger] views[b].name,
            decreases refs.len() - j,
        {
            if str_eq(refs[i].name(), refs[j].name()) {
                assert(views[i as int].name == views[j as int].name);
                return false;
            }
            j = j + 1;
        }
        i = i + 1;
    }
    true
}

/// An execution snapshot as data.
pub struct ExecutionSpecView {
    pub schema_version: u32,
    pub work_id: Seq<char>,
    pub worker_profile: Seq<char>,
    pub worker_config_digest: Seq<char>,
    pub runtime_digest: Seq<char>,
    pub wall_clock_budget_ms: u64,
    pub retry_limit: u32,
    pub channel_policy: ChannelPolicy,
    pub secret_refs: Seq<SecretRefView>,
}

/// Configuration snapshotted once for a logical execution.
///
/// Private fields and read-only accessors make mutation impossible after
/// construction. Resume loads it rather than resolving a profile again.
#[derive(Debug, PartialEq, Eq)]
pub struct ExecutionSpec {
    schema_version: u32,
    work_id: WorkId,
    worker_profile: String,
    worker_config_digest: ContentDigest,
    runtime_digest: ContentDigest,
    wall_clock_budget_ms: u64,
    retry_limit: u32,
    channel_policy: ChannelPolicy,
    secret_refs: Vec<SecretRef>,
}

impl View for ExecutionSpec {
    type V = ExecutionSpecView;

    closed spec fn view(&self) -> ExecutionSpecView {
        ExecutionSpecView {
            schema_version: self.schema_version,
            work_id: self.work_id@,
            worker_profile: self.worker_profile@,
            worker_config_digest: self.worker_config_digest@,
            runtime_digest: self.runtime_digest@,
            wall_clock_budget_ms: self.wall_clock_budget_ms,
            retry_limit: self.retry_limit,
            channel_policy: self.channel_policy,
            secret_refs: secret_ref_views(self.secret_refs@),
        }
    }
}

impl ExecutionSpec {
    /// Snapshots an execution. Rejects any schema version but the current
    /// one, an invalid profile name, a zero budget, and two secrets mounted
    /// under one name.
    pub fn new(
        schema_version: u32,
        work_id: WorkId,
        worker_profile: &str,
        worker_config_digest: ContentDigest,
        runtime_digest: ContentDigest,
        wall_clock_budget_ms: u64,
        retry_limit: u32,
        channel_policy: ChannelPolicy,
        secret_refs: Vec<SecretRef>,
    ) -> (r: Result<ExecutionSpec, DomainError>)
        ensures
            schema_version != EXECUTION_SPEC_SCHEMA_VERSION ==> r == Err::<ExecutionSpec, DomainError>(
                DomainError::UnsupportedSchemaVersion(schema_version),
            ),
            schema_version == EXECUTION_SPEC_SCHEMA_VERSION && !(valid_text(worker_profile@)
                && wall_clock_budget_ms > 0 && distinct_secret_names(secret_ref_views(secret_refs@)))
                ==> r == Err::<ExecutionSpec, DomainError>(DomainError::InvalidExecutionSpec),
            schema_version == EXECUTION_SPEC_SCHEMA_VERSION && valid_text(worker_profile@)
                && wall_clock_budget_ms > 0 && distinct_secret_names(secret_ref_views(secret_refs@))
                ==> (r matches Ok(s) && s@ == (ExecutionSpecView {
                schema_version,
                work_id: work_id@,
                worker_profile: worker_profile@,
                worker_config_digest: worker_config_digest@,
                runtime_digest: runtime_digest@,
                wall_clock_budget_ms,
                retry_limit,
                channel_policy,
                secret_refs: secret_ref_views(secret_refs@),
            })),
    {
        if schema_version != EXECUTION_SPEC_SCHEMA_VERSION {
            return Err(DomainError::UnsupportedSchemaVersion(schema_version));
        }
        if !is_valid_text(worker_profile) || wall_clock_budget_ms == 0 || !secret_names_distinct(
            &secret_refs,
        ) {
            return Err(DomainError::InvalidExecutionSpec);
        }
        Ok(
            ExecutionSpec {
                schema_version,
                work_id,
                worker_profile: owned(worker_profile),
                worker_config_digest,
                runtime_digest,
                wall_clock_budget_ms,
                retry_limit,
                channel_policy,
                secret_refs,
            },
        )
    }

    pub fn schema_version(&self) -> (r: u32)
        ensures
            r == self@.schema_version,
    {
        self.schema_version
    }

    pub fn work_id(&self) -> (r: &WorkId)
        ensures
            r@ == self@.work_id,
    {
        &self.work_id
    }

    pub fn worker_profile(&self) -> (r: &str)
        ensures
            r@ == self@.worker_profile,
    {
        self.worker_profile.as_str()
    }

    pub fn worker_config_digest(&self) -> (r: &ContentDigest)
        ensures
            r@ == self@.worker_config_digest,
    {
        &self.worker_config_digest
    }

    pub fn runtime_digest(&self) -> (r: &ContentDigest)
        ensures
            r@ == self@.runtime_digest,
    {
        &self.runtime_digest
    }

    pub fn wall_clock_budget_ms(&self) -> (r: u64)
        ensures
            r == self@.wall_clock_budget_ms,
    {
        self.wall_clock_budget_ms
    }

    pub fn retry_limit(&self) -> (r: u32)
        ensures
            r == self@.retry_limit,
    {
        self.retry_limit
    }

    pub fn channel_policy(&self) -> (r: ChannelPolicy)
        ensures
            r == self@.channel_policy,
    {
        self.channel_policy
    }

    pub fn secret_refs(&self) -> (r: &[SecretRef])
        ensures
            secret_ref_views(r@) == self@.secret_refs,
    {
        self.secret_refs.as_slice()
    }
}

/// A confirmed outcome as data.
pub struct ConfirmedOutcomeView {
    pub schema_version: u32,
    pub work_id: Seq<char>,
    pub execution_id: Seq<char>,
    pub attempt_id: Seq<char>,
    pub outcome: OutcomeView,
    pub confirmed_at_unix_ms: u64,
}

/// Outcome stamped by the control plane after matching active-attempt proof.
#[derive(Debug, PartialEq, Eq)]
pub struct ConfirmedOutcome {
    schema_version: u32,
    work_id: WorkId,
    execution_id: ExecutionId,
    attempt_id: AttemptId,
    outcome: Outcome,
    confirmed_at_unix_ms: u64,
}

impl View for ConfirmedOutcome {
    type V = ConfirmedOutcomeView;

    closed spec fn view(&self) -> ConfirmedOutcomeView {
        ConfirmedOutcomeView {
            schema_version: self.schema_version,
            work_id: self.work_id@,
            execution_id: self.execution_id@,
            attempt_id: self.attempt_id@,
            outcome: self.outcome@,
            confirmed_at_unix_ms: self.confirmed_at_unix_ms,
        }
    }
}

impl ConfirmedOutcome {
    /// Binds an outcome to the Work of `spec`, an execution and an attempt.
    /// The outcome must come from the profile that the spec snapshotted.
    pub fn new(
        schema_version: u32,
        execution_id: ExecutionId,
        attempt_id: AttemptId,
        spec: &ExecutionSpec,
        outcome: Outcome,
        confirmed_at_unix_ms: u64,
    ) -> (r: Result<ConfirmedOutcome, DomainError>)
        ensures
            schema_version != CONFIRMED_OUTCOME_SCHEMA_VERSION ==> r == Err::<
                ConfirmedOutcome,
                DomainError,
            >(DomainError::UnsupportedSchemaVersion(schema_version)),
            schema_version == CONFIRMED_OUTCOME_SCHEMA_VERSION && outcome@.worker_profile
                != spec@.worker_profile ==> r == Err::<ConfirmedOutcome, DomainError>(
                DomainError::InvalidConfirmedOutcome,
            ),
            schema_version == CONFIRMED_OUTCOME_SCHEMA_VERSION && outcome@.worker_profile
                == spec@.worker_profile ==> (r matches Ok(c) && c@ == (ConfirmedOutcomeView {
                schema_version,
                work_id: spec@.work_id,
                execution_id: execution_id@,
                attempt_id: attempt_id@,
                outcome: outcome@,
                confirmed_at_unix_ms,
            })),
    {
        if schema_version != CONFIRMED_OUTCOME_SCHEMA_VERSION {
            return Err(DomainError::UnsupportedSchemaVersion(schema_version));
        }
        if !str_eq(outcome.worker_profile(), spec.worker_profile()) {
            return Err(DomainError::InvalidConfirmedOutcome);
        }
        Ok(
            ConfirmedOutcome {
                schema_version,
                work_id: spec.work_id().clone(),
                execution_id,
                attempt_id,
                outcome,
                confirmed_at_unix_ms,
            },
        )
    }

    pub fn schema_version(&self) -> (r: u32)
        ensures
            r == self@.schema_version,
    {
        self.schema_version
    }

    pub fn work_id(&self) -> (r: &WorkId)
        ensures
            r@ == self@.work_id,
    {
        &self.work_id
    }

    pub fn execution_id(&self) -> (r: &ExecutionId)
        ensures
            r@ == self@.execution_id,
    {
        &self.execution_id
    }

    pub fn attempt_id(&self) -> (r: &AttemptId)
        ensures
            r@ == self@.attempt_id,
    {
        &self.attempt_id
    }

    pub fn outcome(&self) -> (r: &Outcome)
        ensures
            r@ == self@.outcome,
    {
        &self.outcome
    }

    pub fn confirmed_at_unix_ms(&self) -> (r: u64)
        ensures
            r == self@.confirmed_at_unix_ms,
    {
        self.confirmed_at_unix_ms
    }
}

} // verus!

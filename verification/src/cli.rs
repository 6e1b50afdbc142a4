//! What the command line decides: exit codes, the version line, which
//! runner a Work gets and the execution snapshot it is started under, and
//! when an operator request has been confirmed.
use vstd::prelude::*;

use crate::control::error::AppError;
use crate::control::ports::ControlKind;
use crate::domain::error::DomainError;
use crate::domain::execution::{
    secret_ref_views, valid_digest, ChannelPolicy, ContentDigest, ExecutionSpec, RuntimeKind,
    SecretRef, SecretRefView, EXECUTION_SPEC_SCHEMA_VERSION,
};
use crate::domain::ids::WorkId;
use crate::domain::work::{opt_view, Work};
use crate::domain::outcome::OutcomeKind;
use crate::domain::status::{status_name, WorkStatus};
use crate::external::{
    debug_path_quote, debug_path_quoted, debug_quote, debug_quoted, sha256_hex, sha256_lower_hex,
};
use crate::profile::{lists_profile, profile_spec, resolve_profile, ConfigValue, ResolvedProfile};
use crate::text::{join2, join3, owned, str_eq, texts};
use crate::worker::policy::Sandbox;
use crate::worker::stub::{stub_behavior_named, StubBehavior};
use vstd::string::StringExecFns;

verus! {

/// The default wall-clock budget of a Worker, in milliseconds.
pub const DEFAULT_BUDGET_MS: u64 = 60000;

/// The default port of the local daemon.
pub const DEFAULT_SERVE_PORT: u16 = 9410;

/// The exit code for a Work that ended in `status` with an outcome of
/// `kind`: 0 on success; 20 when the budget ran out and 21 when the Worker
/// hung, whatever the status; 1 for another failure; 0 otherwise.
pub open spec fn exit_code_for(status: WorkStatus, kind: Option<OutcomeKind>) -> u8 {
    if status == WorkStatus::Succeeded {
        0
    } else if kind == Some(OutcomeKind::BudgetExceeded) {
        20
    } else if kind == Some(OutcomeKind::TimedOut) {
        21
    } else if status == WorkStatus::Failed {
        1
    } else {
        0
    }
}

/// The exit code of a command that leaves Work in `status`.
pub fn exit_for_status(status: WorkStatus, kind: Option<OutcomeKind>) -> (r: u8)
    ensures
        r == exit_code_for(status, kind),
{
    match (status, kind) {
        (WorkStatus::Succeeded, _) => 0,
        (_, Some(OutcomeKind::BudgetExceeded)) => 20,
        (_, Some(OutcomeKind::TimedOut)) => 21,
        (WorkStatus::Failed, _) => 1,
        _ => 0,
    }
}

/// The exit code of a failed command: 10 for an illegal transition or a
/// terminal conflict, 11 for a store conflict or failure, 30 for a broken
/// outcome schema, 40 for a workspace failure, 2 for unknown Work, and 1
/// otherwise.
pub open spec fn error_exit_code(e: AppError) -> u8 {
    match e {
        AppError::Domain(DomainError::IllegalTransition { .. }) => 10,
        AppError::Domain(DomainError::TerminalConflict(_)) => 10,
        AppError::Conflict(_) | AppError::Store(_) => 11,
        AppError::OutcomeSchema(_) => 30,
        AppError::Workspace(_) => 40,
        AppError::NotFound(_) => 2,
        _ => 1,
    }
}

/// The exit code of a failed command.
pub fn exit_status(err: &AppError) -> (r: u8)
    ensures
        r == error_exit_code(*err),
{
    match err {
        AppError::Domain(DomainError::IllegalTransition { .. }) | AppError::Domain(
            DomainError::TerminalConflict(_),
        ) => 10,
        AppError::Conflict(_) | AppError::Store(_) => 11,
        AppError::OutcomeSchema(_) => 30,
        AppError::Workspace(_) => 40,
        AppError::NotFound(_) => 2,
        _ => 1,
    }
}

/// `workengine <version>`, then ` (<sha>)` when the build knows its commit.
pub open spec fn version_text(version: Seq<char>, sha: Seq<char>) -> Seq<char> {
    if sha.len() == 0 {
        "workengine "@ + version
    } else {
        "workengine "@ + version + " ("@ + sha + ")"@
    }
}

/// The version line.
pub fn version_line(version: &str, sha: &str) -> (r: String)
    ensures
        r@ == version_text(version@, sha@),
{
    if sha.is_empty() {
        join2("workengine ", version)
    } else {
        let mut s = join3("workengine ", version, " (");
        s.append(sha);
        s.append(")");
        s
    }
}

/// The budget of a launch: the one asked for, or the default.
pub fn budget_ms_or_default(budget_ms: Option<u64>) -> (r: u64)
    ensures
        r == match budget_ms {
            Some(b) => b,
            None => DEFAULT_BUDGET_MS,
        },
{
    match budget_ms {
        Some(b) => b,
        None => DEFAULT_BUDGET_MS,
    }
}

/// How channel errors are handled: fail at once without retries, retry
/// first otherwise.
pub fn channel_policy_for(retry_limit: u32) -> (r: ChannelPolicy)
    ensures
        retry_limit == 0 ==> r == ChannelPolicy::Fail,
        retry_limit > 0 ==> r == ChannelPolicy::RetryThenFail,
{
    if retry_limit == 0 {
        ChannelPolicy::Fail
    } else {
        ChannelPolicy::RetryThenFail
    }
}

/// The status an operator request leaves running Work in: `parked` for a
/// park, `failed` for an abort.
pub open spec fn control_target(kind: ControlKind) -> WorkStatus {
    match kind {
        ControlKind::Park => WorkStatus::Parked,
        ControlKind::Abort => WorkStatus::Failed,
    }
}

/// Whether an operator request has been confirmed, judged from the Work's
/// current status: still running means not yet (`Ok(false)`); the
/// request's target status means confirmed (`Ok(true)`); any other status
/// is a conflict.
pub fn control_confirmed(status: WorkStatus, kind: ControlKind) -> (r: Result<bool, AppError>)
    ensures
        status == WorkStatus::Running ==> r == Ok::<bool, AppError>(false),
        status != WorkStatus::Running && status == control_target(kind) ==> r == Ok::<
            bool,
            AppError,
        >(true),
        status != WorkStatus::Running && status != control_target(kind) ==> (r matches Err(
            AppError::Conflict(m),
        ) && m@ == "control ended in "@ + status_name(status) + " instead of "@ + status_name(
            control_target(kind),
        )),
{
    if status == WorkStatus::Running {
        return Ok(false);
    }
    let expected = match kind {
        ControlKind::Park => WorkStatus::Parked,
        ControlKind::Abort => WorkStatus::Failed,
    };
    if status != expected {
        let mut s = join3("control ended in ", status.as_str(), " instead of ");
        s.append(expected.as_str());
        return Err(AppError::Conflict(s));
    }
    Ok(true)
}

/// Grace period, beyond the Worker's budget, that an operator request
/// waits for the supervisor to confirm it.
pub const CONTROL_GRACE_MS: u64 = 2000;

/// How long an operator request waits for confirmation: the launch budget
/// and the grace period, saturating.
pub fn control_wait_ms(budget_ms: Option<u64>) -> (r: u64)
    ensures
        ({
            let b = match budget_ms {
                Some(b) => b,
                None => DEFAULT_BUDGET_MS,
            };
            r == if b + CONTROL_GRACE_MS > u64::MAX {
                u64::MAX
            } else {
                (b + CONTROL_GRACE_MS) as u64
            }
        }),
{
    budget_ms_or_default(budget_ms).saturating_add(CONTROL_GRACE_MS)
}

/// The name of a control request as its confirmation timeout reports it.
pub open spec fn control_kind_label(kind: ControlKind) -> Seq<char> {
    match kind {
        ControlKind::Park => "Park"@,
        ControlKind::Abort => "Abort"@,
    }
}

/// The refusal of an operator request whose confirmation did not come in
/// time.
pub fn control_timeout(kind: ControlKind) -> (r: AppError)
    ensures
        r matches AppError::Conflict(m) && m@ == "timed out waiting for "@ + control_kind_label(kind)
            + " confirmation"@,
{
    let label = match kind {
        ControlKind::Park => "Park",
        ControlKind::Abort => "Abort",
    };
    AppError::Conflict(join3("timed out waiting for ", label, " confirmation"))
}

/// Only parked Work can be resumed.
pub fn check_resumable(work: &Work) -> (r: Result<(), AppError>)
    ensures
        work@.status == WorkStatus::Parked ==> r is Ok,
        work@.status != WorkStatus::Parked ==> (r matches Err(AppError::Conflict(m)) && m@ == "Work "@
            + work@.id + " is not parked"@),
{
    if work.status() != WorkStatus::Parked {
        return Err(AppError::Conflict(join3("Work ", work.id().as_str(), " is not parked")));
    }
    Ok(())
}

/// The message of a `start --checkout` sent to the daemon.
pub open spec fn checkout_across_daemon_message() -> Seq<char> {
    "start --checkout cannot cross the daemon boundary; configure checkout in the Worker profile"@
}

/// A checkout directory can only be given to a start that runs in the
/// foreground.
pub fn check_checkout_allowed(has_checkout: bool, direct_control: bool) -> (r: Result<(), String>)
    ensures
        r is Ok <==> !has_checkout || direct_control,
        r matches Err(m) ==> m@ == checkout_across_daemon_message(),
{
    if has_checkout && !direct_control {
        return Err(
            owned(
                "start --checkout cannot cross the daemon boundary; configure checkout in the Worker profile",
            ),
        );
    }
    Ok(())
}

/// The texts `Debug` writes for a list of strings, between the brackets.
pub open spec fn debug_items(items: Seq<Seq<char>>) -> Seq<char>
    decreases items.len(),
{
    if items.len() == 0 {
        Seq::empty()
    } else if items.len() == 1 {
        debug_quoted(items[0])
    } else {
        debug_items(items.drop_last()) + ", "@ + debug_quoted(items.last())
    }
}

/// `Debug` of a list of strings.
pub open spec fn debug_list(items: Seq<Seq<char>>) -> Seq<char> {
    "["@ + debug_items(items) + "]"@
}

fn debug_list_exec(items: &Vec<String>) -> (r: String)
    ensures
        r@ == debug_list(texts(items@)),
{
    let mut s = owned("[");
    let mut i: usize = 0;
    while i < items.len()
        invariant
            i <= items.len(),
            s@ == "["@ + debug_items(texts(items@.subrange(0, i as int))),
        decreases items.len() - i,
    {
        let ghost done = texts(items@.subrange(0, i + 1));
        assert(done.drop_last() =~= texts(items@.subrange(0, i as int)));
        assert(done.last() == items@[i as int]@);
        if i > 0 {
            s.append(", ");
        } else {
            assert(texts(items@.subrange(0, i as int)) =~= Seq::<Seq<char>>::empty());
            assert(done[0] == items@[i as int]@);
        }
        s.append(debug_quote(items[i].as_str()).as_str());
        i = i + 1;
    }
    assert(items@.subrange(0, i as int) =~= items@);
    s.append("]");
    s
}

/// The texts `Debug` writes for a list of secret references as (name,
/// variable) pairs, between the brackets.
pub open spec fn debug_pairs(refs: Seq<SecretRefView>) -> Seq<char>
    decreases refs.len(),
{
    if refs.len() == 0 {
        Seq::empty()
    } else {
        let last = refs.last();
        let pair = "("@ + debug_quoted(last.name) + ", "@ + debug_quoted(last.source) + ")"@;
        if refs.len() == 1 {
            pair
        } else {
            debug_pairs(refs.drop_last()) + ", "@ + pair
        }
    }
}

fn debug_pairs_exec(refs: &Vec<SecretRef>) -> (r: String)
    ensures
        r@ == "["@ + debug_pairs(secret_ref_views(refs@)) + "]"@,
{
    let mut s = owned("[");
    let mut i: usize = 0;
    while i < refs.len()
        invariant
            i <= refs.len(),
            s@ == "["@ + debug_pairs(secret_ref_views(refs@.subrange(0, i as int))),
        decreases refs.len() - i,
    {
        let ghost done = secret_ref_views(refs@.subrange(0, i + 1));
        assert(done.drop_last() =~= secret_ref_views(refs@.subrange(0, i as int)));
        assert(done.last() == refs@[i as int]@);
        if i > 0 {
            s.append(", ");
        }
        s.append("(");
        s.append(debug_quote(refs[i].name()).as_str());
        s.append(", ");
        s.append(debug_quote(refs[i].source().reference()).as_str());
        s.append(")");
        i = i + 1;
    }
    assert(refs@.subrange(0, i as int) =~= refs@);
    s.append("]");
    s
}

/// `Debug` of a sandbox.
pub open spec fn debug_sandbox(s: Sandbox) -> Seq<char> {
    match s {
        Sandbox::Bubblewrap { rootfs, rootfs_digest, seccomp_profile, seccomp_digest } => "Bubblewrap { rootfs: "@
            + debug_path_quoted(rootfs@) + ", rootfs_digest: "@ + debug_quoted(rootfs_digest@)
            + ", seccomp_profile: "@ + debug_path_quoted(seccomp_profile@) + ", seccomp_digest: "@
            + debug_quoted(seccomp_digest@) + " }"@,
        Sandbox::Oci { engine, image, seccomp_profile, seccomp_digest } => "Oci { engine: "@
            + debug_quoted(engine@) + ", image: "@ + debug_quoted(image@) + ", seccomp_profile: "@
            + debug_path_quoted(seccomp_profile@) + ", seccomp_digest: "@ + debug_quoted(seccomp_digest@)
            + " }"@,
    }
}

fn debug_sandbox_exec(s: &Sandbox) -> (r: String)
    ensures
        r@ == debug_sandbox(*s),
{
    match s {
        Sandbox::Bubblewrap { rootfs, rootfs_digest, seccomp_profile, seccomp_digest } => {
            let mut t = join2("Bubblewrap { rootfs: ", debug_path_quote(rootfs.as_str()).as_str());
            t.append(", rootfs_digest: ");
            t.append(debug_quote(rootfs_digest.as_str()).as_str());
            t.append(", seccomp_profile: ");
            t.append(debug_path_quote(seccomp_profile.as_str()).as_str());
            t.append(", seccomp_digest: ");
            t.append(debug_quote(seccomp_digest.as_str()).as_str());
            t.append(" }");
            t
        },
        Sandbox::Oci { engine, image, seccomp_profile, seccomp_digest } => {
            let mut t = join2("Oci { engine: ", debug_quote(engine.as_str()).as_str());
            t.append(", image: ");
            t.append(debug_quote(image.as_str()).as_str());
            t.append(", seccomp_profile: ");
            t.append(debug_path_quote(seccomp_profile.as_str()).as_str());
            t.append(", seccomp_digest: ");
            t.append(debug_quote(seccomp_digest.as_str()).as_str());
            t.append(" }");
            t
        },
    }
}

/// The text a profile's configuration digest is taken over: its argv, its
/// sandbox and its secret references, as `Debug` writes them.
pub open spec fn config_material(argv: Seq<Seq<char>>, sandbox: Sandbox, refs: Seq<SecretRefView>) -> Seq<
    char,
> {
    "argv="@ + debug_list(argv) + ";sandbox="@ + debug_sandbox(sandbox) + ";secrets=["@
        + debug_pairs(refs) + "]"@
}

/// The content digest of a text's UTF-8 bytes.
pub open spec fn text_digest(s: Seq<char>) -> Seq<char> {
    "sha256:"@ + sha256_lower_hex(vstd::utf8::encode_utf8(s))
}

/// The content digest of a text.
pub fn digest_text(s: &str) -> (r: ContentDigest)
    ensures
        r@ == text_digest(s@),
{
    let bytes = s.as_bytes();
    let hex = sha256_hex(bytes);
    let full = join2("sha256:", hex.as_str());
    proof {
        reveal_strlit("sha256:");
        assert(full@.subrange(0, 7) =~= crate::domain::execution::sha256_prefix());
        assert forall|i: int| 7 <= i < 71 implies #[trigger] crate::text::is_lower_hex_spec(full@[i]) by {
            assert(full@[i] == hex@[i - 7]);
        }
        assert(valid_digest(full@));
    }
    match ContentDigest::parse(full.as_str()) {
        Ok(d) => d,
        Err(_) => {
            assert(false);
            ContentDigest::parse("unreachable").unwrap()
        },
    }
}

/// Which Worker a Work is run by.
pub enum RunnerChoice {
    /// The stub Worker with this behavior.
    Stub(StubBehavior),
    /// A process Worker launched from this profile.
    Process(ResolvedProfile),
}

/// The runner chosen for a Work, and what its execution snapshot records.
pub struct SelectedRunner {
    pub runner: RunnerChoice,
    pub retry_limit: u32,
    pub checkout: Option<String>,
    pub worker_config_digest: ContentDigest,
    pub runtime_kind: RuntimeKind,
    pub runtime_digest: ContentDigest,
    pub secret_refs: Vec<SecretRef>,
}

/// The message of a profile other than `stub` with no configuration.
pub open spec fn needs_config_message(profile: Seq<char>) -> Seq<char> {
    "profile "@ + profile + " needs --config-dir with a profile file"@
}

/// Whether a Work falls back to the stub Worker: no configuration and the
/// `stub` profile, or a configuration that neither resolves nor lists the
/// `stub` profile the Work asks for.
pub open spec fn uses_stub(
    config: Option<Seq<(String, ConfigValue)>>,
    profile: Seq<char>,
    env: Seq<(String, String)>,
) -> bool {
    match config {
        None => profile == "stub"@,
        Some(table) => profile_spec(table, profile, env) is Err && profile == "stub"@ && !lists_profile(
            table,
            profile,
        ),
    }
}

/// The secret references a resolved profile names, in order.
pub open spec fn profile_secret_refs(f: crate::profile::ProfileFields) -> Seq<
    crate::domain::execution::SecretRefView,
> {
    f.secrets.map_values(|s: crate::profile::SecretFields| s.reference)
}

/// Chooses the runner for a Work of profile `profile`. With a configuration
/// (a single profile file or a table of profiles), the profile is resolved
/// there and launched as a process; an unresolved `stub` profile that the
/// configuration does not list falls back to the stub Worker. Without one,
/// only the `stub` profile can run. The stub's behavior is read from
/// `stub_behavior`. An explicit retry limit and checkout win over the
/// profile's.
pub fn select_runner(
    config: Option<&Vec<(String, ConfigValue)>>,
    env: &Vec<(String, String)>,
    stub_behavior: &str,
    retry_limit: Option<u32>,
    profile: &str,
    checkout: Option<String>,
) -> (r: Result<SelectedRunner, String>)
    ensures
        match config {
            Some(table) => match profile_spec(table@, profile@, env@) {
                Ok(f) => r matches Ok(sel) && (sel.runner matches RunnerChoice::Process(p)
                    && crate::profile::profile_holds(p, f)) && secret_ref_views(sel.secret_refs@)
                    == profile_secret_refs(f) && opt_view(sel.checkout) == match checkout {
                    Some(c) => Some(c@),
                    None => f.checkout,
                } && sel.retry_limit == match retry_limit {
                    Some(n) => n,
                    None => f.retry_limit,
                } && sel.runtime_kind == match f.sandbox {
                    crate::profile::SandboxFields::Bubblewrap { .. } => RuntimeKind::Bubblewrap,
                    crate::profile::SandboxFields::Oci { .. } => RuntimeKind::Oci,
                },
                Err(m) => if uses_stub(Some(table@), profile@, env@) {
                    stub_selected(r, stub_behavior@, retry_limit) && (r matches Ok(sel) ==> opt_view(
                        sel.checkout,
                    ) == opt_view(checkout))
                } else {
                    r matches Err(e) && e@ == m
                },
            },
            None => if profile@ == "stub"@ {
                stub_selected(r, stub_behavior@, retry_limit) && (r matches Ok(sel) ==> opt_view(
                    sel.checkout,
                ) == opt_view(checkout))
            } else {
                r matches Err(e) && e@ == needs_config_message(profile@)
            },
        },
        process_digests(r),
{
    let mut fall_back = false;
    match config {
        Some(table) => {
            let listed = crate::profile::config_has_profile(table, profile);
            match resolve_profile(table, profile, env) {
                Ok(resolved) => {
                    let argv_text = debug_list_exec(&resolved.argv);
                    let sandbox_text = debug_sandbox_exec(&resolved.sandbox);
                    let refs_text = debug_pairs_exec(&resolved.secret_refs);
                    let mut material = join3("argv=", argv_text.as_str(), ";sandbox=");
                    material.append(sandbox_text.as_str());
                    material.append(";secrets=");
                    material.append(refs_text.as_str());
                    proof {
                        reveal_strlit(";secrets=");
                        reveal_strlit(";secrets=[");
                        reveal_strlit("[");
                        assert(";secrets="@ + "["@ =~= ";secrets=["@);
                        assert(material@ =~= config_material(
                            texts(resolved.argv@),
                            resolved.sandbox,
                            secret_ref_views(resolved.secret_refs@),
                        ));
                    }
                    let worker_config_digest = digest_text(material.as_str());
                    let runtime_digest = digest_text(sandbox_text.as_str());
                    let runtime_kind = match &resolved.sandbox {
                        Sandbox::Bubblewrap { .. } => RuntimeKind::Bubblewrap,
                        Sandbox::Oci { .. } => RuntimeKind::Oci,
                    };
                    let limit = match retry_limit {
                        Some(n) => n,
                        None => resolved.retry_limit,
                    };
                    let chosen_checkout = match checkout {
                        Some(c) => Some(c),
                        None => crate::domain::work::clone_opt(&resolved.checkout),
                    };
                    let refs = crate::domain::execution::clone_refs(&resolved.secret_refs);
                    proof {
                        let f = profile_spec(table@, profile@, env@)->Ok_0;
                        assert(profile_spec(table@, profile@, env@) is Ok);
                        assert forall|i: int| 0 <= i < f.secrets.len() implies resolved.secret_refs@[i]@
                            == f.secrets[i].reference by {
                            assert(resolved.secret_files@[i]@ == f.secrets[i].file);
                        }
                        assert(secret_ref_views(resolved.secret_refs@) =~= profile_secret_refs(f));
                    }
                    return Ok(
                        SelectedRunner {
                            runner: RunnerChoice::Process(resolved),
                            retry_limit: limit,
                            checkout: chosen_checkout,
                            worker_config_digest,
                            runtime_kind,
                            runtime_digest,
                            secret_refs: refs,
                        },
                    );
                },
                Err(e) => {
                    if str_eq(profile, "stub") && !listed {
                        fall_back = true;
                    } else {
                        return Err(e);
                    }
                },
            }
        },
        None => {
            if !str_eq(profile, "stub") {
                return Err(join3("profile ", profile, " needs --config-dir with a profile file"));
            }
        },
    }
    let behavior = StubBehavior::parse(stub_behavior)?;
    let worker_config_digest = digest_text(join2("stub:", stub_behavior).as_str());
    let runtime_digest = digest_text("workengine-stub-process-v1");
    Ok(
        SelectedRunner {
            runner: RunnerChoice::Stub(behavior),
            retry_limit: match retry_limit {
                Some(n) => n,
                None => 0,
            },
            checkout,
            worker_config_digest,
            runtime_kind: RuntimeKind::Stub,
            runtime_digest,
            secret_refs: Vec::new(),
        },
    )
}

/// A process runner's digests are taken over its configuration material
/// and its sandbox.
pub open spec fn process_digests(r: Result<SelectedRunner, String>) -> bool {
    match r {
        Ok(sel) => match sel.runner {
            RunnerChoice::Process(p) => sel.worker_config_digest@ == text_digest(
                config_material(texts(p.argv@), p.sandbox, secret_ref_views(sel.secret_refs@)),
            ) && sel.runtime_digest@ == text_digest(debug_sandbox(p.sandbox)),
            RunnerChoice::Stub(_) => true,
        },
        Err(_) => true,
    }
}

/// The stub Worker was chosen as its behavior's name says: the behavior
/// it names, no secrets, the stub runtime, and the retry limit asked for
/// (0 otherwise); or the name's error.
pub open spec fn stub_selected(r: Result<SelectedRunner, String>, behavior: Seq<char>, retry_limit: Option<u32>) -> bool {
    match stub_behavior_named(behavior) {
        None => r matches Err(e) && e@ == "unknown stub behavior "@ + behavior,
        Some(b) => r matches Ok(sel) && sel.runner == RunnerChoice::Stub(b) && sel.runtime_kind
            == RuntimeKind::Stub && sel.secret_refs@.len() == 0 && sel.retry_limit == match retry_limit {
            Some(n) => n,
            None => 0,
        } && sel.worker_config_digest@ == text_digest("stub:"@ + behavior)
            && sel.runtime_digest@ == text_digest("workengine-stub-process-v1"@),
    }
}

/// The execution snapshot a selected runner starts Work `work_id` under:
/// the current schema, the profile, both digests, the budget, the retry
/// limit, the channel policy it implies, and the secret references.
pub fn execution_spec(
    selected: &SelectedRunner,
    work_id: &WorkId,
    profile: &str,
    budget_ms: u64,
) -> (r: Result<ExecutionSpec, DomainError>)
    ensures
        r matches Ok(s) ==> s@.work_id == work_id@ && s@.worker_profile == profile@
            && s@.worker_config_digest == selected.worker_config_digest@ && s@.runtime_digest
            == selected.runtime_digest@ && s@.wall_clock_budget_ms == budget_ms && s@.retry_limit
            == selected.retry_limit && s@.secret_refs == secret_ref_views(selected.secret_refs@)
            && (selected.retry_limit == 0 <==> s@.channel_policy == ChannelPolicy::Fail),
        r is Err <==> !(crate::text::valid_text(profile@) && budget_ms > 0
            && crate::domain::execution::distinct_secret_names(
            secret_ref_views(selected.secret_refs@),
        )),
{
    let policy = channel_policy_for(selected.retry_limit);
    ExecutionSpec::new(
        EXECUTION_SPEC_SCHEMA_VERSION,
        work_id.clone(),
        profile,
        selected.worker_config_digest.clone(),
        selected.runtime_digest.clone(),
        budget_ms,
        selected.retry_limit,
        policy,
        crate::domain::execution::clone_refs(&selected.secret_refs),
    )
}

} // verus!

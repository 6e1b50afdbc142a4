//! The process Worker runner: what it checks before it agrees to launch
//! anything, the digests it pins a sandbox with, and the launch it builds.
use vstd::prelude::*;

use crate::control::error::AppError;
use crate::domain::execution::valid_digest;
use crate::external::{
    json_string_array, parse_json_string_array, sha256_hex, sha256_lower_hex,
};
use crate::text::{join2, owned, str_eq, texts};
use crate::worker::command::{
    bubblewrap_command, oci_command, BubblewrapLaunch, CommandLine, OciLaunch,
};
use crate::worker::policy::{
    engine_allowed, image_digest, image_digest_spec, limits_usable, oci_engine_allowed,
    secret_names, validate_digest, validate_resource_limits, EgressPolicy, Sandbox,
    SecretFile, SecretFileView, WorkerPolicy,
};
use vstd::string::StringExecFns;

verus! {

/// The verdict of a check: it passed, it refused with a Worker message, it
/// refused with a Worker error whose text is another reader's (a JSON reply
/// that did not parse), or an observation it rests on had already failed
/// with an error of its own.
pub ghost enum Verdict {
    Pass,
    Refuse(Seq<char>),
    Unreadable,
    Fail(AppError),
}

/// The first verdict that is not a pass.
pub open spec fn then(first: Verdict, next: Verdict) -> Verdict {
    if first is Pass {
        next
    } else {
        first
    }
}

/// A refusal with `message` unless `ok`.
pub open spec fn require(ok: bool, message: Seq<char>) -> Verdict {
    if ok {
        Verdict::Pass
    } else {
        Verdict::Refuse(message)
    }
}

/// `r` is what the verdict says.
pub open spec fn meets<T>(r: Result<T, AppError>, v: Verdict) -> bool {
    match v {
        Verdict::Pass => r is Ok,
        Verdict::Refuse(message) => r matches Err(e) && (e matches AppError::Worker(m) && m@
            == message),
        Verdict::Unreadable => r matches Err(e) && e is Worker,
        Verdict::Fail(error) => r matches Err(e) && e == error,
    }
}

/// One record of a rootfs tree: its kind (`d`, `l` or `f`), its path below
/// the root, its permission bits and its payload (a link's target, a
/// file's bytes, nothing for a directory).
pub struct RootfsEntry {
    pub kind: u8,
    pub path: Vec<u8>,
    pub mode: u32,
    pub payload: Vec<u8>,
}

/// Big-endian bytes of a 64-bit length.
pub open spec fn be64(n: u64) -> Seq<u8> {
    seq![
        (n >> 56u64) as u8,
        (n >> 48u64) as u8,
        (n >> 40u64) as u8,
        (n >> 32u64) as u8,
        (n >> 24u64) as u8,
        (n >> 16u64) as u8,
        (n >> 8u64) as u8,
        n as u8,
    ]
}

/// Big-endian bytes of a 32-bit mode.
pub open spec fn be32(n: u32) -> Seq<u8> {
    seq![(n >> 24u32) as u8, (n >> 16u32) as u8, (n >> 8u32) as u8, n as u8]
}

/// The bytes one record contributes to a rootfs digest: kind, path length,
/// path, mode, payload length, payload.
pub open spec fn entry_frame(e: RootfsEntry) -> Seq<u8> {
    seq![e.kind] + be64(e.path@.len() as u64) + e.path@ + be32(e.mode) + be64(
        e.payload@.len() as u64,
    ) + e.payload@
}

/// The framed records of a tree walk, in walk order.
pub open spec fn tree_frame(entries: Seq<RootfsEntry>) -> Seq<u8>
    decreases entries.len(),
{
    if entries.len() == 0 {
        Seq::empty()
    } else {
        tree_frame(entries.drop_last()) + entry_frame(entries.last())
    }
}

/// A content digest as text: `sha256:` and the lower-case hex digest.
pub open spec fn digest_text(bytes: Seq<u8>) -> Seq<char> {
    "sha256:"@ + sha256_lower_hex(bytes)
}

fn push_u8(out: &mut Vec<u8>, b: u8)
    ensures
        final(out)@ == old(out)@.push(b),
{
    out.push(b);
}

fn push_bytes(out: &mut Vec<u8>, bytes: &Vec<u8>)
    ensures
        final(out)@ == old(out)@ + bytes@,
{
    let mut i: usize = 0;
    while i < bytes.len()
        invariant
            i <= bytes.len(),
            out@ == old(out)@ + bytes@.subrange(0, i as int),
        decreases bytes.len() - i,
    {
        out.push(bytes[i]);
        assert(out@ =~= old(out)@ + bytes@.subrange(0, i + 1));
        i = i + 1;
    }
    assert(bytes@.subrange(0, i as int) =~= bytes@);
}

fn push_be64(out: &mut Vec<u8>, n: u64)
    ensures
        final(out)@ == old(out)@ + be64(n),
{
    push_u8(out, (n >> 56u64) as u8);
    push_u8(out, (n >> 48u64) as u8);
    push_u8(out, (n >> 40u64) as u8);
    push_u8(out, (n >> 32u64) as u8);
    push_u8(out, (n >> 24u64) as u8);
    push_u8(out, (n >> 16u64) as u8);
    push_u8(out, (n >> 8u64) as u8);
    push_u8(out, n as u8);
    assert(out@ =~= old(out)@ + be64(n));
}

fn push_be32(out: &mut Vec<u8>, n: u32)
    ensures
        final(out)@ == old(out)@ + be32(n),
{
    push_u8(out, (n >> 24u32) as u8);
    push_u8(out, (n >> 16u32) as u8);
    push_u8(out, (n >> 8u32) as u8);
    push_u8(out, n as u8);
    assert(out@ =~= old(out)@ + be32(n));
}

/// The bytes a rootfs digest is taken over.
pub fn frame_tree(entries: &Vec<RootfsEntry>) -> (r: Vec<u8>)
    ensures
        r@ == tree_frame(entries@),
{
    let mut out: Vec<u8> = Vec::new();
    let mut i: usize = 0;
    while i < entries.len()
        invariant
            i <= entries.len(),
            out@ == tree_frame(entries@.subrange(0, i as int)),
        decreases entries.len() - i,
    {
        let e = &entries[i];
        let ghost before = out@;
        push_u8(&mut out, e.kind);
        push_be64(&mut out, e.path.len() as u64);
        push_bytes(&mut out, &e.path);
        push_be32(&mut out, e.mode);
        push_be64(&mut out, e.payload.len() as u64);
        push_bytes(&mut out, &e.payload);
        assert(out@ =~= before + entry_frame(*e));
        assert(entries@.subrange(0, i + 1).drop_last() =~= entries@.subrange(0, i as int));
        i = i + 1;
    }
    assert(entries@.subrange(0, i as int) =~= entries@);
    out
}

/// `sha256:` and the SHA-256 of `bytes` in lower-case hex.
pub fn digest_bytes(bytes: &[u8]) -> (r: String)
    ensures
        r@ == digest_text(bytes@),
{
    let hex = sha256_hex(bytes);
    join2("sha256:", hex.as_str())
}

/// The digest of a rootfs tree from its walk.
pub fn rootfs_digest(entries: &Vec<RootfsEntry>) -> (r: String)
    ensures
        r@ == digest_text(tree_frame(entries@)),
{
    let bytes = frame_tree(entries);
    digest_bytes(bytes.as_slice())
}

/// What the host showed of a policy file: whether it is a non-empty regular
/// file (not a symlink), and if so its bytes.
pub struct PolicyFile {
    pub regular_nonempty: bool,
    pub bytes: Vec<u8>,
}

/// What a container engine answered when asked for an image's repo digests:
/// whether it succeeded, and what it wrote.
pub struct OciInspection {
    pub succeeded: bool,
    pub stdout: Vec<u8>,
}

/// What the host showed of a sandbox when a runner was built. Each field
/// that could not be observed holds the error of the attempt.
pub struct SandboxProbe {
    /// The bubblewrap rootfs is a directory and not `/`.
    pub rootfs_is_dedicated_dir: bool,
    /// The bubblewrap rootfs has a `run/secrets` directory.
    pub rootfs_has_secret_mount: bool,
    /// The records of the rootfs tree, root first, entries sorted by name.
    pub rootfs_entries: Result<Vec<RootfsEntry>, AppError>,
    /// The seccomp profile file.
    pub seccomp_file: Result<PolicyFile, AppError>,
    /// The engine's view of the pinned image.
    pub oci_image: Result<OciInspection, AppError>,
    /// The egress broker path is a Unix socket and not a symlink.
    pub egress_is_socket: Result<bool, AppError>,
}

/// Message of a rootfs that is not a dedicated directory.
pub open spec fn rootfs_dir_message() -> Seq<char> {
    "bubblewrap rootfs must be a dedicated directory"@
}

/// Message of a rootfs without a secrets mount point.
pub open spec fn rootfs_secrets_message() -> Seq<char> {
    "bubblewrap rootfs must provide /run/secrets for declared secret files"@
}

/// Message of a seccomp profile that is not a plain file.
pub open spec fn seccomp_file_message() -> Seq<char> {
    "seccomp profile must be a non-empty regular file and not a symlink"@
}

/// The verdict on a policy file pinned by `expected`.
pub open spec fn policy_file_verdict(expected: Seq<char>, file: Result<PolicyFile, AppError>) -> Verdict {
    then(
        require(valid_digest(expected), crate::worker::policy::digest_message()),
        match file {
            Err(e) => Verdict::Fail(e),
            Ok(f) => if !f.regular_nonempty {
                Verdict::Refuse(seccomp_file_message())
            } else {
                let actual = digest_text(f.bytes@);
                require(
                    actual == expected,
                    "seccomp profile digest mismatch: expected "@ + expected + ", got "@ + actual,
                )
            },
        },
    )
}

/// Whether some repo digest, taken after its last `@`, is `expected`.
pub open spec fn repo_digest_matches(value: Seq<char>, expected: Seq<char>) -> bool {
    exists|i: int|
        0 <= i < value.len() && value[i] == '@' && (forall|j: int| i < j < value.len() ==> value[j]
            != '@') && #[trigger] value.subrange(i + 1, value.len() as int) == expected
}

/// Whether any repo digest reported by the engine pins `expected`.
pub open spec fn inspection_matches(digests: Seq<Seq<char>>, expected: Seq<char>) -> bool {
    exists|k: int| 0 <= k < digests.len() && #[trigger] repo_digest_matches(digests[k], expected)
}

/// The verdict on the engine's answer for a pinned image. A reply that is
/// not a JSON array of strings fails with a Worker error whose text is the
/// JSON reader's.
pub open spec fn oci_image_verdict(expected: Seq<char>, image: Result<OciInspection, AppError>) -> Verdict {
    match image {
        Err(e) => Verdict::Fail(e),
        Ok(inspection) => if !inspection.succeeded {
            Verdict::Refuse("failed to inspect pinned OCI image"@)
        } else {
            match json_string_array(inspection.stdout@) {
                None => Verdict::Unreadable,
                Some(digests) => require(
                    inspection_matches(digests, expected),
                    "OCI engine did not resolve the configured image to its pinned digest"@,
                ),
            }
        },
    }
}

/// The verdict on the egress policy.
pub open spec fn egress_verdict(egress: EgressPolicy, socket: Result<bool, AppError>) -> Verdict {
    match egress {
        EgressPolicy::Deny => Verdict::Pass,
        EgressPolicy::BrokerSocket(_) => match socket {
            Err(e) => Verdict::Fail(e),
            Ok(is_socket) => require(
                is_socket,
                "egress broker must be a Unix socket and not a symlink"@,
            ),
        },
    }
}

/// The verdict on the sandbox itself.
pub open spec fn sandbox_verdict(sandbox: Sandbox, has_secrets: bool, probe: SandboxProbe) -> Verdict {
    match sandbox {
        Sandbox::Bubblewrap { rootfs_digest, seccomp_digest, .. } => then(
            require(probe.rootfs_is_dedicated_dir, rootfs_dir_message()),
            then(
                require(!has_secrets || probe.rootfs_has_secret_mount, rootfs_secrets_message()),
                then(
                    require(valid_digest(rootfs_digest@), crate::worker::policy::digest_message()),
                    then(
                        match probe.rootfs_entries {
                            Err(e) => Verdict::Fail(e),
                            Ok(entries) => {
                                let actual = digest_text(tree_frame(entries@));
                                require(
                                    actual == rootfs_digest@,
                                    "bubblewrap rootfs digest mismatch: expected "@ + rootfs_digest@
                                        + ", got "@ + actual,
                                )
                            },
                        },
                        policy_file_verdict(seccomp_digest@, probe.seccomp_file),
                    ),
                ),
            ),
        ),
        Sandbox::Oci { engine, image, seccomp_digest, .. } => then(
            require(engine_allowed(engine@), "OCI engine must be docker or podman"@),
            then(
                require(image_digest_spec(image@) is Some, "OCI image must be digest pinned"@),
                then(
                    policy_file_verdict(seccomp_digest@, probe.seccomp_file),
                    oci_image_verdict(image_digest_spec(image@)->0, probe.oci_image),
                ),
            ),
        ),
    }
}

/// The verdict on a whole runner configuration, checks in the order the
/// runner makes them.
pub open spec fn runner_verdict(
    argv: Seq<Seq<char>>,
    has_secrets: bool,
    sandbox: Sandbox,
    policy: WorkerPolicy,
    probe: SandboxProbe,
) -> Verdict {
    then(
        require(argv.len() > 0 && argv[0].len() > 0, "profile argv is empty"@),
        then(
            sandbox_verdict(sandbox, has_secrets, probe),
            then(
                require(
                    limits_usable(policy.resources),
                    "resource limits must be finite and large enough to launch a Worker"@,
                ),
                egress_verdict(policy.egress, probe.egress_is_socket),
            ),
        ),
    )
}

fn check(ok: bool, message: &str) -> (r: Result<(), AppError>)
    ensures
        meets(r, require(ok, message@)),
{
    if ok {
        Ok(())
    } else {
        Err(AppError::worker(message))
    }
}

fn mismatch(what: &str, expected: &str, actual: &str) -> (r: AppError)
    ensures
        r matches AppError::Worker(m) && m@ == what@ + expected@ + ", got "@ + actual@,
{
    let mut s = join2(what, expected);
    s.append(", got ");
    s.append(actual);
    AppError::Worker(s)
}

fn check_policy_file(expected: &str, file: Result<PolicyFile, AppError>) -> (r: Result<(), AppError>)
    ensures
        meets(r, policy_file_verdict(expected@, file)),
{
    if validate_digest(expected).is_err() {
        return Err(AppError::worker("digest must use sha256:<64 lowercase hex>"));
    }
    match file {
        Err(e) => Err(e),
        Ok(f) => {
            if !f.regular_nonempty {
                return Err(
                    AppError::worker(
                        "seccomp profile must be a non-empty regular file and not a symlink",
                    ),
                );
            }
            let actual = digest_bytes(f.bytes.as_slice());
            if !str_eq(actual.as_str(), expected) {
                return Err(
                    mismatch("seccomp profile digest mismatch: expected ", expected, actual.as_str()),
                );
            }
            Ok(())
        },
    }
}

/// The digest after the last `@` of a repo digest, if it has an `@`.
fn after_last_at(value: &str) -> (r: Option<String>)
    ensures
        match r {
            Some(d) => exists|i: int|
                0 <= i < value@.len() && value@[i] == '@' && (forall|j: int|
                    i < j < value@.len() ==> value@[j] != '@') && d@ == value@.subrange(
                    i + 1,
                    value@.len() as int,
                ),
            None => forall|i: int| 0 <= i < value@.len() ==> value@[i] != '@',
        },
{
    let v = crate::text::chars_of(value);
    let mut i: usize = v.len();
    while i > 0
        invariant
            v@ == value@,
            i <= v.len(),
            forall|j: int| i <= j < v.len() ==> value@[j] != '@',
        decreases i,
    {
        if v[i - 1] == '@' {
            let d = vstd::string::StrSliceExecFns::substring_char(value, i, v.len());
            return Some(owned(d));
        }
        i = i - 1;
    }
    None
}

/// Whether the engine's JSON list of repo digests pins `expected`: some
/// entry whose text after its last `@` is exactly `expected`.
pub fn oci_inspection_matches(bytes: &[u8], expected: &str) -> (r: Result<bool, AppError>)
    ensures
        match json_string_array(bytes@) {
            None => r matches Err(e) && e is Worker,
            Some(digests) => r == Ok::<bool, AppError>(inspection_matches(digests, expected@)),
        },
{
    let digests = match parse_json_string_array(bytes) {
        Ok(d) => d,
        Err(message) => return Err(AppError::Worker(message)),
    };
    let ghost all = texts(digests@);
    let mut k: usize = 0;
    while k < digests.len()
        invariant
            all == texts(digests@),
            json_string_array(bytes@) == Some(all),
            k <= digests.len(),
            forall|j: int| 0 <= j < k ==> !#[trigger] repo_digest_matches(all[j], expected@),
        decreases digests.len() - k,
    {
        let value = digests[k].as_str();
        assert(all[k as int] == value@);
        match after_last_at(value) {
            Some(d) => {
                if str_eq(d.as_str(), expected) {
                    assert(repo_digest_matches(all[k as int], expected@));
                    assert(inspection_matches(all, expected@));
                    return Ok(true);
                }
                assert(!repo_digest_matches(all[k as int], expected@)) by {
                    if repo_digest_matches(all[k as int], expected@) {
                        let i = choose|i: int|
                            0 <= i < value@.len() && value@[i] == '@' && (forall|j: int|
                                i < j < value@.len() ==> value@[j] != '@') && #[trigger] value@.subrange(
                                i + 1,
                                value@.len() as int,
                            ) == expected@;
                        let i2 = choose|i2: int|
                            0 <= i2 < value@.len() && value@[i2] == '@' && (forall|j: int|
                                i2 < j < value@.len() ==> value@[j] != '@') && d@ == value@.subrange(
                                i2 + 1,
                                value@.len() as int,
                            );
                        if i < i2 {
                            assert(value@[i2] != '@');
                        }
                        if i2 < i {
                            assert(value@[i] != '@');
                        }
                    }
                }
            },
            None => {
                assert(!repo_digest_matches(all[k as int], expected@));
            },
        }
        k = k + 1;
    }
    Ok(false)
}

fn check_oci_image(expected: &str, image: Result<OciInspection, AppError>) -> (r: Result<(), AppError>)
    ensures
        meets(r, oci_image_verdict(expected@, image)),
{
    match image {
        Err(e) => Err(e),
        Ok(inspection) => {
            if !inspection.succeeded {
                return Err(AppError::worker("failed to inspect pinned OCI image"));
            }
            match oci_inspection_matches(inspection.stdout.as_slice(), expected) {
                Err(e) => Err(e),
                Ok(found) => check(
                    found,
                    "OCI engine did not resolve the configured image to its pinned digest",
                ),
            }
        },
    }
}

fn check_sandbox(sandbox: &Sandbox, has_secrets: bool, probe: SandboxProbe) -> (r: (
    Result<(), AppError>,
    Result<bool, AppError>,
))
    ensures
        meets(r.0, sandbox_verdict(*sandbox, has_secrets, probe)),
        r.1 == probe.egress_is_socket,
{
    let SandboxProbe {
        rootfs_is_dedicated_dir,
        rootfs_has_secret_mount,
        rootfs_entries,
        seccomp_file,
        oci_image,
        egress_is_socket,
    } = probe;
    let verdict = match sandbox {
        Sandbox::Bubblewrap { rootfs_digest, seccomp_digest, .. } => {
            if !rootfs_is_dedicated_dir {
                Err(AppError::worker("bubblewrap rootfs must be a dedicated directory"))
            } else if has_secrets && !rootfs_has_secret_mount {
                Err(
                    AppError::worker(
                        "bubblewrap rootfs must provide /run/secrets for declared secret files",
                    ),
                )
            } else if validate_digest(rootfs_digest.as_str()).is_err() {
                Err(AppError::worker("digest must use sha256:<64 lowercase hex>"))
            } else {
                match rootfs_entries {
                    Err(e) => Err(e),
                    Ok(entries) => {
                        let actual = self::rootfs_digest(&entries);
                        if !str_eq(actual.as_str(), rootfs_digest.as_str()) {
                            Err(
                                mismatch(
                                    "bubblewrap rootfs digest mismatch: expected ",
                                    rootfs_digest.as_str(),
                                    actual.as_str(),
                                ),
                            )
                        } else {
                            check_policy_file(seccomp_digest.as_str(), seccomp_file)
                        }
                    },
                }
            }
        },
        Sandbox::Oci { engine, image, seccomp_digest, .. } => {
            if !oci_engine_allowed(engine.as_str()) {
                Err(AppError::worker("OCI engine must be docker or podman"))
            } else {
                match image_digest(image.as_str()) {
                    None => Err(AppError::worker("OCI image must be digest pinned")),
                    Some(expected) => {
                        match check_policy_file(seccomp_digest.as_str(), seccomp_file) {
                            Err(e) => Err(e),
                            Ok(()) => check_oci_image(expected.as_str(), oci_image),
                        }
                    },
                }
            }
        },
    };
    (verdict, egress_is_socket)
}

fn check_egress(egress: &EgressPolicy, socket: Result<bool, AppError>) -> (r: Result<(), AppError>)
    ensures
        meets(r, egress_verdict(*egress, socket)),
{
    match egress {
        EgressPolicy::Deny => Ok(()),
        EgressPolicy::BrokerSocket(_) => match socket {
            Err(e) => Err(e),
            Ok(is_socket) => check(is_socket, "egress broker must be a Unix socket and not a symlink"),
        },
    }
}

/// A Worker launched as a process from a profile's argv, inside a pinned
/// sandbox, under a resource and egress policy.
pub struct ProcessWorkerRunner {
    argv: Vec<String>,
    secret_files: Vec<SecretFile>,
    sandbox: Sandbox,
    policy: WorkerPolicy,
}

/// What a runner launches and how.
pub ghost struct RunnerView {
    pub argv: Seq<Seq<char>>,
    pub secrets: Seq<SecretFileView>,
    pub sandbox: Sandbox,
    pub policy: WorkerPolicy,
}

impl View for ProcessWorkerRunner {
    type V = RunnerView;

    closed spec fn view(&self) -> RunnerView {
        RunnerView {
            argv: texts(self.argv@),
            secrets: self.secret_files@.map_values(|f: SecretFile| f@),
            sandbox: self.sandbox,
            policy: self.policy,
        }
    }
}

/// Where and for whom one launch happens, and what the host holds for it.
pub struct LaunchContext<'a> {
    pub work_id: &'a str,
    pub execution_id: &'a str,
    pub attempt_id: &'a str,
    pub workspace_root: &'a str,
    pub control_root: &'a str,
    /// The private directory the secret files were written to, if any.
    pub secrets_dir: Option<&'a str>,
    /// The wall-clock budget in whole seconds.
    pub budget_secs: u64,
    /// The inherited descriptor of the seccomp filter (bubblewrap).
    pub seccomp_fd: u32,
    /// The processes the current user already runs (bubblewrap).
    pub running_processes: u64,
    /// The current user and group (containers).
    pub uid: u32,
    pub gid: u32,
}

/// The program and arguments a runner launches for one context.
pub open spec fn launch_spec(v: RunnerView, ctx: LaunchContext) -> (Seq<char>, Seq<Seq<char>>) {
    let names = v.secrets.map_values(|f: SecretFileView| f.name);
    match v.sandbox {
        Sandbox::Bubblewrap { rootfs, .. } => (
            "prlimit"@,
            crate::worker::command::bubblewrap_args(
                v.policy.resources,
                v.policy.egress,
                rootfs@,
                ctx.workspace_root@,
                ctx.control_root@,
                crate::worker::command::option_text(ctx.secrets_dir),
                names,
                ctx.seccomp_fd as int,
                ctx.budget_secs,
                ctx.running_processes,
                v.argv,
            ),
        ),
        Sandbox::Oci { engine, image, seccomp_profile, .. } => (
            engine@,
            crate::worker::command::oci_args(
                v.policy.resources,
                v.policy.egress,
                image@,
                seccomp_profile@,
                ctx.work_id@,
                ctx.execution_id@,
                ctx.attempt_id@,
                ctx.workspace_root@,
                ctx.control_root@,
                crate::worker::command::option_text(ctx.secrets_dir),
                names,
                ctx.uid,
                ctx.gid,
                ctx.budget_secs,
                v.argv,
            ),
        ),
    }
}

impl ProcessWorkerRunner {
    #[verifier::type_invariant]
    spec fn launchable(self) -> bool {
        self.argv@.len() > 0 && self.argv@[0]@.len() > 0
    }

    /// A runner under the default policy.
    pub fn new(argv: Vec<String>, secret_files: Vec<SecretFile>, sandbox: Sandbox, probe: SandboxProbe) -> (r: Result<ProcessWorkerRunner, AppError>)
        ensures
            meets(
                r,
                runner_verdict(
                    texts(argv@),
                    secret_files@.len() > 0,
                    sandbox,
                    WorkerPolicy { resources: crate::worker::policy::default_limits(), egress: EgressPolicy::Deny },
                    probe,
                ),
            ),
            r matches Ok(runner) ==> runner@ == (RunnerView {
                argv: texts(argv@),
                secrets: secret_files@.map_values(|f: SecretFile| f@),
                sandbox,
                policy: WorkerPolicy { resources: crate::worker::policy::default_limits(), egress: EgressPolicy::Deny },
            }),
    {
        let policy = WorkerPolicy::default();
        proof {
            assert(policy == WorkerPolicy { resources: crate::worker::policy::default_limits(), egress: EgressPolicy::Deny });
        }
        Self::new_with_policy(argv, secret_files, sandbox, policy, probe)
    }

    /// A runner whose argv, sandbox and policy passed every check, in this
    /// order: a non-empty program; for bubblewrap a dedicated rootfs
    /// directory, a secrets mount point when secrets are declared, a
    /// well-formed pinned digest that the rootfs tree matches, and a seccomp
    /// file that matches its digest; for a container an allowed engine, a
    /// digest-pinned image, the seccomp file, and the engine resolving the
    /// image to its pin; then usable limits and a socket for brokered egress.
    pub fn new_with_policy(
        argv: Vec<String>,
        secret_files: Vec<SecretFile>,
        sandbox: Sandbox,
        policy: WorkerPolicy,
        probe: SandboxProbe,
    ) -> (r: Result<ProcessWorkerRunner, AppError>)
        ensures
            meets(r, runner_verdict(texts(argv@), secret_files@.len() > 0, sandbox, policy, probe)),
            r matches Ok(runner) ==> runner@ == (RunnerView {
                argv: texts(argv@),
                secrets: secret_files@.map_values(|f: SecretFile| f@),
                sandbox,
                policy,
            }),
    {
        if argv.len() == 0 || argv[0].as_str().is_empty() {
            return Err(AppError::worker("profile argv is empty"));
        }
        assert(texts(argv@)[0] == argv@[0]@);
        let has_secrets = secret_files.len() > 0;
        let (verdict, egress_is_socket) = check_sandbox(&sandbox, has_secrets, probe);
        match verdict {
            Err(e) => return Err(e),
            Ok(()) => {},
        }
        if validate_resource_limits(&policy.resources).is_err() {
            return Err(
                AppError::worker(
                    "resource limits must be finite and large enough to launch a Worker",
                ),
            );
        }
        match check_egress(&policy.egress, egress_is_socket) {
            Err(e) => return Err(e),
            Ok(()) => {},
        }
        Ok(ProcessWorkerRunner { argv, secret_files, sandbox, policy })
    }

    /// The names of the secret files, in order.
    pub fn secret_names(&self) -> (r: Vec<String>)
        ensures
            texts(r@) == self@.secrets.map_values(|f: SecretFileView| f.name),
    {
        let mut out: Vec<String> = Vec::new();
        let mut i: usize = 0;
        while i < self.secret_files.len()
            invariant
                i <= self.secret_files.len(),
                texts(out@) == self.secret_files@.subrange(0, i as int).map_values(
                    |f: SecretFile| f@.name,
                ),
            decreases self.secret_files.len() - i,
        {
            crate::text::push_text(&mut out, self.secret_files[i].name());
            assert(self.secret_files@.subrange(0, i + 1).map_values(|f: SecretFile| f@.name)
                =~= self.secret_files@.subrange(0, i as int).map_values(|f: SecretFile| f@.name).push(
                self.secret_files@[i as int]@.name,
            ));
            i = i + 1;
        }
        assert(self.secret_files@.subrange(0, i as int) =~= self.secret_files@);
        assert(self@.secrets.map_values(|f: SecretFileView| f.name) =~= self.secret_files@.map_values(
            |f: SecretFile| f@.name,
        ));
        out
    }

    /// The secret files to write before a launch.
    pub fn secret_files(&self) -> (r: &Vec<SecretFile>)
        ensures
            r@.map_values(|f: SecretFile| f@) == self@.secrets,
    {
        &self.secret_files
    }

    /// The sandbox the runner launches in.
    pub fn sandbox(&self) -> (r: &Sandbox)
        ensures
            *r == self@.sandbox,
    {
        &self.sandbox
    }

    /// The policy the runner launches under.
    pub fn policy(&self) -> (r: &WorkerPolicy)
        ensures
            *r == self@.policy,
    {
        &self.policy
    }

    /// The command line of one launch.
    pub fn command(&self, ctx: &LaunchContext) -> (r: CommandLine)
        ensures
            (r.program@, texts(r.args@)) == launch_spec(self@, *ctx),
    {
        proof {
            use_type_invariant(self);
        }
        let names = self.secret_names();
        match &self.sandbox {
            Sandbox::Bubblewrap { rootfs, .. } => {
                let launch = BubblewrapLaunch {
                    rootfs: rootfs.as_str(),
                    workspace_root: ctx.workspace_root,
                    control_root: ctx.control_root,
                    secrets_dir: ctx.secrets_dir,
                    seccomp_fd: ctx.seccomp_fd,
                    budget_secs: ctx.budget_secs,
                    running_processes: ctx.running_processes,
                };
                bubblewrap_command(&launch, &self.policy.resources, &self.policy.egress, &names, &self.argv)
            },
            Sandbox::Oci { engine, image, seccomp_profile, .. } => {
                let launch = OciLaunch {
                    image: image.as_str(),
                    seccomp_profile: seccomp_profile.as_str(),
                    work_id: ctx.work_id,
                    execution_id: ctx.execution_id,
                    attempt_id: ctx.attempt_id,
                    workspace_root: ctx.workspace_root,
                    control_root: ctx.control_root,
                    secrets_dir: ctx.secrets_dir,
                    uid: ctx.uid,
                    gid: ctx.gid,
                    budget_secs: ctx.budget_secs,
                };
                oci_command(engine.as_str(), &launch, &self.policy.resources, &self.policy.egress, &names, &self.argv)
            },
        }
    }
}

/// Credentials never reach a command line: two runners that differ only in
/// the values of their secret files launch exactly the same program with
/// exactly the same arguments.
pub proof fn lemma_launch_ignores_secret_values(a: RunnerView, b: RunnerView, ctx: LaunchContext)
    requires
        a.argv == b.argv,
        a.sandbox == b.sandbox,
        a.policy == b.policy,
        a.secrets.map_values(|f: SecretFileView| f.name) == b.secrets.map_values(
            |f: SecretFileView| f.name,
        ),
    ensures
        launch_spec(a, ctx) == launch_spec(b, ctx),
{
}

/// Every launch is isolated before the Worker's own arguments begin:
/// bubblewrap unshares every namespace (the network among them) and drops
/// every capability; the OCI engine runs a read-only container with no
/// network and every capability dropped.
pub proof fn lemma_launch_is_isolated(v: RunnerView, ctx: LaunchContext)
    ensures
        ({
            let args = launch_spec(v, ctx).1;
            match v.sandbox {
                Sandbox::Bubblewrap { .. } => {
                    &&& launch_spec(v, ctx).0 == "prlimit"@
                    &&& args[6] == "bwrap"@
                    &&& args[7] == "--unshare-all"@
                    &&& args[12] == "--cap-drop"@
                    &&& args[13] == "ALL"@
                    &&& args.len() >= 14 + v.argv.len()
                    &&& args.subrange(args.len() - v.argv.len(), args.len() as int) == v.argv
                },
                Sandbox::Oci { .. } => {
                    &&& args[0] == "run"@
                    &&& args[2] == "--read-only"@
                    &&& args[3] == "--network"@
                    &&& args[4] == "none"@
                    &&& args[5] == "--cap-drop"@
                    &&& args[6] == "ALL"@
                    &&& args.len() >= 7 + v.argv.len()
                    &&& args.subrange(args.len() - v.argv.len(), args.len() as int) == v.argv
                },
            }
        }),
{
    let args = launch_spec(v, ctx).1;
    match v.sandbox {
        Sandbox::Bubblewrap { rootfs, .. } => {
            let limits = v.policy.resources;
            let head = crate::worker::command::prlimit_args(
                limits,
                crate::worker::command::process_ceiling(limits, ctx.running_processes),
                crate::worker::command::cpu_grant(limits, ctx.budget_secs),
            ) + crate::worker::command::bwrap_isolation_args(ctx.seccomp_fd as int);
            let rest = crate::worker::command::bwrap_mount_args(
                rootfs@,
                ctx.workspace_root@,
                ctx.control_root@,
            ) + crate::worker::command::bwrap_secret_args(
                crate::worker::command::option_text(ctx.secrets_dir),
                v.secrets.map_values(|f: SecretFileView| f.name),
            ) + crate::worker::command::bwrap_egress_args(
                crate::worker::command::broker_path(v.policy.egress),
            ) + seq!["--"@];
            assert(args =~= head + rest + v.argv);
            assert(args.subrange(args.len() - v.argv.len(), args.len() as int) =~= v.argv);
        },
        Sandbox::Oci { image, seccomp_profile, .. } => {
            let limits = v.policy.resources;
            let head = crate::worker::command::oci_run_args(
                limits,
                seccomp_profile@,
                crate::worker::command::cpu_grant(limits, ctx.budget_secs),
                crate::worker::command::container_name(ctx.attempt_id@),
                ctx.work_id@,
                ctx.execution_id@,
                ctx.attempt_id@,
            );
            let rest = crate::worker::command::oci_mount_args(
                ctx.uid,
                ctx.gid,
                ctx.workspace_root@,
                ctx.control_root@,
            ) + crate::worker::command::oci_secret_args(
                crate::worker::command::option_text(ctx.secrets_dir),
                v.secrets.map_values(|f: SecretFileView| f.name),
            ) + crate::worker::command::oci_egress_args(
                crate::worker::command::broker_path(v.policy.egress),
            ) + seq![image@];
            assert(args =~= head + rest + v.argv);
            assert(args.subrange(args.len() - v.argv.len(), args.len() as int) =~= v.argv);
        },
    }
}

} // verus!

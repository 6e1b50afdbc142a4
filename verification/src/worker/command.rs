//! The command lines a process Worker is launched with: `prlimit` around
//! `bwrap`, or a container engine's `run`. Building them is pure; spawning
//! them is the caller's business.
use vstd::prelude::*;

use crate::decimal::{decimal, decimal_spec};
use crate::text::{join2, join3, push_all, push_string, push_text, texts};
use crate::worker::policy::{EgressPolicy, ResourceLimits};
use vstd::string::StringExecFns;

verus! {

/// The only `PATH` a Worker launcher runs with; every other variable of the
/// supervisor's environment is cleared.
pub const WORKER_PATH: &'static str = "/usr/sbin:/usr/bin:/sbin:/bin";

/// A program and its arguments, ready to spawn with a cleared environment
/// holding only `PATH` = [`WORKER_PATH`].
pub struct CommandLine {
    pub program: String,
    pub args: Vec<String>,
}

/// The decimal text of an integer, as a sequence of characters.
pub open spec fn dec(n: int) -> Seq<char> {
    decimal_spec(n as nat)
}

/// CPU seconds granted to one launch: the policy's ceiling, but never more
/// than the wall-clock budget (at least one second).
pub open spec fn cpu_grant(limits: ResourceLimits, budget_secs: u64) -> int {
    let budget: int = if budget_secs < 1 { 1 } else { budget_secs as int };
    if limits.cpu_seconds < budget { limits.cpu_seconds as int } else { budget }
}

/// The process ceiling of a bubblewrap launch: the processes the user
/// already runs plus the policy's allowance, saturating at `u64::MAX`.
pub open spec fn process_ceiling(limits: ResourceLimits, running: u64) -> int {
    let sum = running + limits.max_processes;
    if sum > u64::MAX { u64::MAX as int } else { sum }
}

/// `prlimit` options, then `bwrap`.
pub open spec fn prlimit_args(limits: ResourceLimits, ceiling: int, cpu: int) -> Seq<Seq<char>> {
    seq![
        "--as="@ + dec(limits.memory_bytes as int),
        "--nproc="@ + dec(ceiling),
        "--nofile="@ + dec(limits.max_open_files as int),
        "--fsize="@ + dec(limits.max_file_bytes as int),
        "--cpu="@ + dec(cpu),
        "--"@,
        "bwrap"@,
    ]
}

/// Every namespace unshared, no capabilities, the seccomp filter read from
/// an inherited descriptor, and an empty environment.
pub open spec fn bwrap_isolation_args(seccomp_fd: int) -> Seq<Seq<char>> {
    seq![
        "--unshare-all"@,
        "--unshare-user"@,
        "--new-session"@,
        "--die-with-parent"@,
        "--disable-userns"@,
        "--cap-drop"@,
        "ALL"@,
        "--seccomp"@,
        dec(seccomp_fd),
        "--clearenv"@,
    ]
}

/// The read-only rootfs, the writable workspace and control directory, and
/// fresh `/tmp`, `/proc`, `/dev` and `/run`.
pub open spec fn bwrap_mount_args(rootfs: Seq<char>, workspace: Seq<char>, control: Seq<char>) -> Seq<
    Seq<char>,
> {
    seq![
        "--ro-bind"@,
        rootfs,
        "/"@,
        "--bind"@,
        workspace,
        "/workspace"@,
        "--chdir"@,
        "/workspace"@,
        "--tmpfs"@,
        "/tmp"@,
        "--proc"@,
        "/proc"@,
        "--dev"@,
        "/dev"@,
        "--tmpfs"@,
        "/run"@,
        "--dir"@,
        "/run/workengine"@,
        "--bind"@,
        control,
        "/run/workengine"@,
    ]
}

/// `--setenv NAME_FILE /run/secrets/NAME` for each secret name, in order.
pub open spec fn bwrap_secret_env_args(names: Seq<Seq<char>>) -> Seq<Seq<char>>
    decreases names.len(),
{
    if names.len() == 0 {
        Seq::empty()
    } else {
        let n = names.last();
        bwrap_secret_env_args(names.drop_last()) + seq![
            "--setenv"@,
            n + "_FILE"@,
            "/run/secrets/"@ + n,
        ]
    }
}

/// The secrets directory mounted read-only at `/run/secrets`, and where each
/// file is, when the Worker has secrets.
pub open spec fn bwrap_secret_args(secrets_dir: Option<Seq<char>>, names: Seq<Seq<char>>) -> Seq<
    Seq<char>,
> {
    match secrets_dir {
        None => Seq::empty(),
        Some(dir) => seq!["--dir"@, "/run/secrets"@, "--ro-bind"@, dir, "/run/secrets"@]
            + bwrap_secret_env_args(names),
    }
}

/// The host path of a brokered egress socket, if the policy has one.
pub open spec fn broker_path(egress: EgressPolicy) -> Option<Seq<char>> {
    match egress {
        EgressPolicy::Deny => None,
        EgressPolicy::BrokerSocket(p) => Some(p@),
    }
}

/// The egress broker socket, bound read-only and announced in
/// `WORKENGINE_EGRESS_SOCKET`; nothing when egress is denied.
pub open spec fn bwrap_egress_args(broker: Option<Seq<char>>) -> Seq<Seq<char>> {
    match broker {
        None => Seq::empty(),
        Some(path) => seq![
            "--ro-bind"@,
            path,
            "/run/workengine-egress.sock"@,
            "--setenv"@,
            "WORKENGINE_EGRESS_SOCKET"@,
            "/run/workengine-egress.sock"@,
        ],
    }
}

/// What a bubblewrap launch is given besides its program, `prlimit`.
pub struct BubblewrapLaunch<'a> {
    pub rootfs: &'a str,
    pub workspace_root: &'a str,
    pub control_root: &'a str,
    pub secrets_dir: Option<&'a str>,
    pub seccomp_fd: u32,
    pub budget_secs: u64,
    pub running_processes: u64,
}

/// The arguments of `prlimit` for a bubblewrap launch.
pub open spec fn bubblewrap_args(
    limits: ResourceLimits,
    egress: EgressPolicy,
    rootfs: Seq<char>,
    workspace: Seq<char>,
    control: Seq<char>,
    secrets_dir: Option<Seq<char>>,
    secret_names: Seq<Seq<char>>,
    seccomp_fd: int,
    budget_secs: u64,
    running: u64,
    argv: Seq<Seq<char>>,
) -> Seq<Seq<char>> {
    prlimit_args(limits, process_ceiling(limits, running), cpu_grant(limits, budget_secs))
        + bwrap_isolation_args(seccomp_fd) + bwrap_mount_args(rootfs, workspace, control)
        + bwrap_secret_args(secrets_dir, secret_names) + bwrap_egress_args(broker_path(egress))
        + seq!["--"@] + argv
}

/// A bubblewrap launch mounts the Worker's workspace writable: ahead of the
/// `--` that starts the Worker's own argv, its arguments hold `--bind`,
/// the workspace root and `/workspace` in a row, whatever the limits,
/// egress, secrets and argv.
pub proof fn lemma_bubblewrap_binds_workspace_writable(
    limits: ResourceLimits,
    egress: EgressPolicy,
    rootfs: Seq<char>,
    workspace: Seq<char>,
    control: Seq<char>,
    secrets_dir: Option<Seq<char>>,
    secret_names: Seq<Seq<char>>,
    seccomp_fd: int,
    budget_secs: u64,
    running: u64,
    argv: Seq<Seq<char>>,
)
    ensures
        ({
            let a = bubblewrap_args(
                limits,
                egress,
                rootfs,
                workspace,
                control,
                secrets_dir,
                secret_names,
                seccomp_fd,
                budget_secs,
                running,
                argv,
            );
            exists|i: int|
                0 <= i && i + 2 < a.len() - argv.len() - 1 && #[trigger] a[i] == "--bind"@ && a[i + 1]
                    == workspace && a[i + 2] == "/workspace"@
        }),
{
    let p = prlimit_args(limits, process_ceiling(limits, running), cpu_grant(limits, budget_secs));
    let iso = bwrap_isolation_args(seccomp_fd);
    let m = bwrap_mount_args(rootfs, workspace, control);
    let rest = bwrap_secret_args(secrets_dir, secret_names) + bwrap_egress_args(broker_path(egress))
        + seq!["--"@] + argv;
    let a = bubblewrap_args(
        limits,
        egress,
        rootfs,
        workspace,
        control,
        secrets_dir,
        secret_names,
        seccomp_fd,
        budget_secs,
        running,
        argv,
    );
    let head = p + iso + m;
    assert(a =~= head + rest);
    assert(p.len() == 7 && iso.len() == 10 && m.len() == 21);
    assert(head[20] == m[3]);
    assert(head[21] == m[4]);
    assert(head[22] == m[5]);
    assert(a[20] == "--bind"@ && a[21] == workspace && a[22] == "/workspace"@);
}

proof fn lemma_prlimit_words(limits: ResourceLimits, ceiling: int, cpu: int)
    ensures
        prlimit_args(limits, ceiling, cpu).len() == 7,
        forall|k: int|
            0 <= k < 7 ==> #[trigger] prlimit_args(limits, ceiling, cpu)[k] != "/workspace"@,
{
    reveal_strlit("/workspace");
    reveal_strlit("--as=");
    reveal_strlit("--nproc=");
    reveal_strlit("--nofile=");
    reveal_strlit("--fsize=");
    reveal_strlit("--cpu=");
    reveal_strlit("--");
    reveal_strlit("bwrap");
    let p = prlimit_args(limits, ceiling, cpu);
    assert forall|k: int| 0 <= k < 7 implies #[trigger] p[k] != "/workspace"@ by {
        assert("/workspace"@[0] == '/');
        if k < 5 {
            assert(p[k][0] == '-');
        } else if k == 5 {
            assert(p[k] == "--"@);
        } else {
            assert(p[k] == "bwrap"@);
        }
    }
}

proof fn lemma_isolation_words(seccomp_fd: int)
    ensures
        bwrap_isolation_args(seccomp_fd).len() == 10,
        forall|k: int|
            0 <= k < 10 && k != 8 ==> #[trigger] bwrap_isolation_args(seccomp_fd)[k] != "/workspace"@,
        bwrap_isolation_args(seccomp_fd)[6] != "--ro-bind"@,
        bwrap_isolation_args(seccomp_fd)[9] != "--ro-bind"@,
{
    reveal_strlit("/workspace");
    reveal_strlit("--ro-bind");
    reveal_strlit("--unshare-all");
    reveal_strlit("--unshare-user");
    reveal_strlit("--new-session");
    reveal_strlit("--die-with-parent");
    reveal_strlit("--disable-userns");
    reveal_strlit("--cap-drop");
    reveal_strlit("ALL");
    reveal_strlit("--seccomp");
    reveal_strlit("--clearenv");
    let v = bwrap_isolation_args(seccomp_fd);
    assert("--ro-bind"@.len() == 9);
    assert(v[6] == "ALL"@ && "ALL"@.len() == 3);
    assert(v[9] == "--clearenv"@ && "--clearenv"@.len() == 10);
    assert forall|k: int| 0 <= k < 10 && k != 8 implies #[trigger] v[k] != "/workspace"@ by {
        assert("/workspace"@[0] == '/');
        assert(v[k][0] == '-' || v[k] == "ALL"@);
    }
}

proof fn lemma_mount_words(rootfs: Seq<char>, workspace: Seq<char>, control: Seq<char>)
    ensures
        bwrap_mount_args(rootfs, workspace, control).len() == 21,
        forall|k: int|
            0 <= k < 21 && k != 1 && k != 4 && k != 5 && k != 7 && k != 19 ==> #[trigger] bwrap_mount_args(
                rootfs,
                workspace,
                control,
            )[k] != "/workspace"@,
        bwrap_mount_args(rootfs, workspace, control)[2] != "--ro-bind"@,
        bwrap_mount_args(rootfs, workspace, control)[3] != "--ro-bind"@,
        bwrap_mount_args(rootfs, workspace, control)[5] != "--ro-bind"@,
        bwrap_mount_args(rootfs, workspace, control)[17] != "--ro-bind"@,
        bwrap_mount_args(rootfs, workspace, control)[20] != "--ro-bind"@,
{
    reveal_strlit("/workspace");
    reveal_strlit("--ro-bind");
    reveal_strlit("/");
    reveal_strlit("--bind");
    reveal_strlit("--chdir");
    reveal_strlit("--tmpfs");
    reveal_strlit("/tmp");
    reveal_strlit("--proc");
    reveal_strlit("/proc");
    reveal_strlit("--dev");
    reveal_strlit("/dev");
    reveal_strlit("/run");
    reveal_strlit("--dir");
    reveal_strlit("/run/workengine");
    let m = bwrap_mount_args(rootfs, workspace, control);
    assert("--ro-bind"@.len() == 9);
    assert(m[2] == "/"@ && "/"@.len() == 1);
    assert(m[3] == "--bind"@ && "--bind"@.len() == 6);
    assert(m[5] == "/workspace"@ && "/workspace"@.len() == 10);
    assert(m[17] == "/run/workengine"@ && "/run/workengine"@.len() == 15);
    assert(m[20] == "/run/workengine"@);
    assert forall|k: int|
        0 <= k < 21 && k != 1 && k != 4 && k != 5 && k != 7 && k != 19 implies #[trigger] m[k]
        != "/workspace"@ by {
        assert("/workspace"@.len() == 10);
        assert(m[k].len() != 10 || m[k][1] == '-');
        assert("/workspace"@[1] == 'w');
    }
}

proof fn lemma_launch_head_never_remounts_workspace(
    limits: ResourceLimits,
    ceiling: int,
    cpu: int,
    seccomp_fd: int,
    rootfs: Seq<char>,
    workspace: Seq<char>,
    control: Seq<char>,
)
    ensures
        ({
            let head = prlimit_args(limits, ceiling, cpu) + bwrap_isolation_args(seccomp_fd)
                + bwrap_mount_args(rootfs, workspace, control);
            &&& head.len() == 38
            &&& head[37] != "--ro-bind"@
            &&& forall|i: int|
                0 <= i < 36 && #[trigger] head[i] == "--ro-bind"@ ==> head[i + 2] != "/workspace"@
        }),
{
    let p = prlimit_args(limits, ceiling, cpu);
    let v = bwrap_isolation_args(seccomp_fd);
    let m = bwrap_mount_args(rootfs, workspace, control);
    lemma_prlimit_words(limits, ceiling, cpu);
    lemma_isolation_words(seccomp_fd);
    lemma_mount_words(rootfs, workspace, control);
    let head = p + v + m;
    assert(head[37] == m[20]);
    assert forall|i: int| 0 <= i < 36 && #[trigger] head[i] == "--ro-bind"@ implies head[i + 2]
        != "/workspace"@ by {
        let j = i + 2;
        if j < 7 {
            assert(head[j] == p[j]);
        } else if j < 17 {
            if j == 15 {
                assert(head[i] == v[6]);
            } else {
                assert(head[j] == v[j - 7]);
            }
        } else {
            let x = j - 17;
            if x == 1 {
                assert(head[i] == v[9]);
            } else if x == 4 {
                assert(head[i] == m[2]);
            } else if x == 5 {
                assert(head[i] == m[3]);
            } else if x == 7 {
                assert(head[i] == m[5]);
            } else if x == 19 {
                assert(head[i] == m[17]);
            } else {
                assert(head[j] == m[x]);
            }
        }
    }
}

proof fn lemma_secret_env_holds_no_mount_words(names: Seq<Seq<char>>)
    ensures
        forall|k: int|
            0 <= k < bwrap_secret_env_args(names).len() ==> #[trigger] bwrap_secret_env_args(names)[k]
                != "/workspace"@ && bwrap_secret_env_args(names)[k] != "--ro-bind"@,
    decreases names.len(),
{
    reveal_strlit("--setenv");
    reveal_strlit("_FILE");
    reveal_strlit("/run/secrets/");
    reveal_strlit("/workspace");
    reveal_strlit("--ro-bind");
    if names.len() > 0 {
        lemma_secret_env_holds_no_mount_words(names.drop_last());
        let n = names.last();
        let prev = bwrap_secret_env_args(names.drop_last());
        let e = bwrap_secret_env_args(names);
        let a = n + "_FILE"@;
        let b = "/run/secrets/"@ + n;
        assert(a[a.len() - 1] == 'E');
        assert(a != "/workspace"@) by {
            if a.len() == 10 {
                assert("/workspace"@[9] == 'e');
            }
        }
        assert(a != "--ro-bind"@) by {
            if a.len() == 9 {
                assert("--ro-bind"@[8] == 'd');
            }
        }
        assert(b[0] == '/' && b[1] == 'r');
        assert(b != "/workspace"@) by {
            assert("/workspace"@[1] == 'w');
        }
        assert(b != "--ro-bind"@) by {
            assert("--ro-bind"@[0] == '-');
        }
        assert(e == prev + seq!["--setenv"@, a, b]);
        assert forall|k: int| 0 <= k < e.len() implies #[trigger] e[k] != "/workspace"@ && e[k]
            != "--ro-bind"@ by {
            if k < prev.len() {
                assert(e[k] == prev[k]);
            } else if k == prev.len() {
                assert(e[k] == "--setenv"@);
            } else if k == prev.len() + 1 {
                assert(e[k] == a);
            } else {
                assert(e[k] == b);
            }
        }
    }
}

proof fn lemma_tail_word_facts()
    ensures
        "/run/secrets"@ != "--ro-bind"@,
        "/run/secrets"@ != "/workspace"@,
        "--dir"@ != "/workspace"@,
        "--ro-bind"@ != "/workspace"@,
        "/run/workengine-egress.sock"@ != "/workspace"@,
        "--setenv"@ != "/workspace"@,
        "WORKENGINE_EGRESS_SOCKET"@ != "/workspace"@,
{
    reveal_strlit("--dir");
    reveal_strlit("/run/secrets");
    reveal_strlit("--ro-bind");
    reveal_strlit("/workspace");
    reveal_strlit("/run/workengine-egress.sock");
    reveal_strlit("--setenv");
    reveal_strlit("WORKENGINE_EGRESS_SOCKET");
    assert("/run/secrets"@.len() == 12);
    assert("--ro-bind"@.len() == 9);
    assert("/workspace"@.len() == 10);
    assert("--dir"@.len() == 5);
    assert("/run/workengine-egress.sock"@.len() == 27);
    assert("--setenv"@.len() == 8);
    assert("WORKENGINE_EGRESS_SOCKET"@.len() == 24);
}

proof fn lemma_launch_tail_never_remounts_workspace(
    secrets_dir: Option<Seq<char>>,
    names: Seq<Seq<char>>,
    broker: Option<Seq<char>>,
)
    ensures
        ({
            let t = bwrap_secret_args(secrets_dir, names) + bwrap_egress_args(broker);
            &&& t.len() > 0 ==> t[0] != "/workspace"@
            &&& forall|k: int|
                0 <= k && k + 2 < t.len() && #[trigger] t[k] == "--ro-bind"@ ==> t[k + 2] != "/workspace"@
        }),
{
    lemma_tail_word_facts();
    lemma_secret_env_holds_no_mount_words(names);
    let s = bwrap_secret_args(secrets_dir, names);
    let e = bwrap_egress_args(broker);
    let t = s + e;
    let env = bwrap_secret_env_args(names);
    let dir = secrets_dir.unwrap_or(Seq::empty());
    let fixed = seq!["--dir"@, "/run/secrets"@, "--ro-bind"@, dir, "/run/secrets"@];
    if secrets_dir is Some {
        assert(s == fixed + env);
    } else {
        assert(s.len() == 0);
    }
    let sock = "/run/workengine-egress.sock"@;
    let p = broker.unwrap_or(Seq::empty());
    let ew = seq!["--ro-bind"@, p, sock, "--setenv"@, "WORKENGINE_EGRESS_SOCKET"@, sock];
    if broker is Some {
        assert(e == ew);
    } else {
        assert(e.len() == 0);
    }
    assert forall|k: int| 0 <= k && k + 2 < t.len() && #[trigger] t[k] == "--ro-bind"@ implies t[k + 2]
        != "/workspace"@ by {
        let j = k + 2;
        if j < s.len() {
            if j < 5 {
                if j == 3 {
                    assert(t[k] == fixed[1]);
                } else {
                    assert(t[j] == fixed[j]);
                }
            } else {
                assert(t[j] == env[j - 5]);
            }
        } else {
            let x = j - s.len();
            if x == 1 {
                if env.len() > 0 {
                    assert(t[k] == s[s.len() - 1]);
                    assert(s[s.len() - 1] == env[env.len() - 1]);
                } else {
                    assert(t[k] == s[s.len() - 1]);
                    assert(s[s.len() - 1] == fixed[4]);
                }
            } else {
                assert(t[j] == e[x]);
                assert(e[x] == ew[x]);
            }
        }
    }
    if t.len() > 0 {
        if s.len() > 0 {
            assert(t[0] == fixed[0]);
        } else {
            assert(t[0] == ew[0]);
        }
    }
}

/// A bubblewrap launch never remounts a directory read-only at
/// `/workspace`: ahead of the `--` that starts the Worker's argv, no
/// `--ro-bind` has `/workspace` as its destination, whatever the paths,
/// limits, egress, secrets and argv.
pub proof fn lemma_bubblewrap_never_mounts_workspace_read_only(
    limits: ResourceLimits,
    egress: EgressPolicy,
    rootfs: Seq<char>,
    workspace: Seq<char>,
    control: Seq<char>,
    secrets_dir: Option<Seq<char>>,
    secret_names: Seq<Seq<char>>,
    seccomp_fd: int,
    budget_secs: u64,
    running: u64,
    argv: Seq<Seq<char>>,
)
    ensures
        ({
            let a = bubblewrap_args(
                limits,
                egress,
                rootfs,
                workspace,
                control,
                secrets_dir,
                secret_names,
                seccomp_fd,
                budget_secs,
                running,
                argv,
            );
            forall|i: int|
                0 <= i && i + 2 < a.len() - argv.len() - 1 && #[trigger] a[i] == "--ro-bind"@ ==> a[i + 2]
                    != "/workspace"@
        }),
{
    let ceiling = process_ceiling(limits, running);
    let cpu = cpu_grant(limits, budget_secs);
    let head = prlimit_args(limits, ceiling, cpu) + bwrap_isolation_args(seccomp_fd)
        + bwrap_mount_args(rootfs, workspace, control);
    let t = bwrap_secret_args(secrets_dir, secret_names) + bwrap_egress_args(broker_path(egress));
    lemma_launch_head_never_remounts_workspace(limits, ceiling, cpu, seccomp_fd, rootfs, workspace, control);
    lemma_launch_tail_never_remounts_workspace(secrets_dir, secret_names, broker_path(egress));
    let a = bubblewrap_args(
        limits,
        egress,
        rootfs,
        workspace,
        control,
        secrets_dir,
        secret_names,
        seccomp_fd,
        budget_secs,
        running,
        argv,
    );
    let pre = head + t;
    assert(a =~= pre + seq!["--"@] + argv);
    assert forall|i: int| 0 <= i && i + 2 < a.len() - argv.len() - 1 && #[trigger] a[i] == "--ro-bind"@
        implies a[i + 2] != "/workspace"@ by {
        assert(a[i] == pre[i] && a[i + 2] == pre[i + 2]);
        if i + 2 < 38 {
            assert(pre[i] == head[i] && pre[i + 2] == head[i + 2]);
        } else if i < 38 {
            assert(pre[i] == head[i] && pre[i + 2] == t[i + 2 - 38]);
            if i == 37 {
            } else {
                assert(i == 36);
            }
        } else {
            assert(pre[i] == t[i - 38] && pre[i + 2] == t[i - 36]);
        }
    }
}

fn cpu_grant_exec(limits: &ResourceLimits, budget_secs: u64) -> (r: u64)
    ensures
        r == cpu_grant(*limits, budget_secs),
{
    let budget = if budget_secs < 1 {
        1
    } else {
        budget_secs
    };
    if limits.cpu_seconds < budget {
        limits.cpu_seconds
    } else {
        budget
    }
}

/// The text of an optional string slice.
pub open spec fn option_text(v: Option<&str>) -> Option<Seq<char>> {
    match v {
        None => None,
        Some(s) => Some(s@),
    }
}

/// `flag` then the decimal text of `n`, as one argument.
fn flag_value(flag: &str, n: u64) -> (r: String)
    ensures
        r@ == flag@ + dec(n as int),
{
    let d = decimal(n);
    join2(flag, d.as_str())
}

fn push_prlimit(v: &mut Vec<String>, limits: &ResourceLimits, ceiling: u64, cpu: u64)
    ensures
        texts(final(v)@) == texts(old(v)@) + prlimit_args(*limits, ceiling as int, cpu as int),
{
    push_string(v, flag_value("--as=", limits.memory_bytes));
    push_string(v, flag_value("--nproc=", ceiling));
    push_string(v, flag_value("--nofile=", limits.max_open_files as u64));
    push_string(v, flag_value("--fsize=", limits.max_file_bytes));
    push_string(v, flag_value("--cpu=", cpu));
    push_text(v, "--");
    push_text(v, "bwrap");
    assert(texts(v@) =~= texts(old(v)@) + prlimit_args(*limits, ceiling as int, cpu as int));
}

fn push_isolation(v: &mut Vec<String>, seccomp_fd: u32)
    ensures
        texts(final(v)@) == texts(old(v)@) + bwrap_isolation_args(seccomp_fd as int),
{
    push_text(v, "--unshare-all");
    push_text(v, "--unshare-user");
    push_text(v, "--new-session");
    push_text(v, "--die-with-parent");
    push_text(v, "--disable-userns");
    push_text(v, "--cap-drop");
    push_text(v, "ALL");
    push_text(v, "--seccomp");
    push_string(v, decimal(seccomp_fd as u64));
    push_text(v, "--clearenv");
    assert(texts(v@) =~= texts(old(v)@) + bwrap_isolation_args(seccomp_fd as int));
}

fn push_mounts(v: &mut Vec<String>, rootfs: &str, workspace: &str, control: &str)
    ensures
        texts(final(v)@) == texts(old(v)@) + bwrap_mount_args(rootfs@, workspace@, control@),
{
    push_text(v, "--ro-bind");
    push_text(v, rootfs);
    push_text(v, "/");
    push_text(v, "--bind");
    push_text(v, workspace);
    push_text(v, "/workspace");
    push_text(v, "--chdir");
    push_text(v, "/workspace");
    push_text(v, "--tmpfs");
    push_text(v, "/tmp");
    push_text(v, "--proc");
    push_text(v, "/proc");
    push_text(v, "--dev");
    push_text(v, "/dev");
    push_text(v, "--tmpfs");
    push_text(v, "/run");
    push_text(v, "--dir");
    push_text(v, "/run/workengine");
    push_text(v, "--bind");
    push_text(v, control);
    push_text(v, "/run/workengine");
    assert(texts(v@) =~= texts(old(v)@) + bwrap_mount_args(rootfs@, workspace@, control@));
}

fn push_secret_env(v: &mut Vec<String>, names: &Vec<String>)
    ensures
        texts(final(v)@) == texts(old(v)@) + bwrap_secret_env_args(texts(names@)),
{
    let mut i: usize = 0;
    while i < names.len()
        invariant
            i <= names.len(),
            texts(v@) == texts(old(v)@) + bwrap_secret_env_args(texts(names@.subrange(0, i as int))),
        decreases names.len() - i,
    {
        let ghost before = texts(v@);
        let name = names[i].as_str();
        push_text(v, "--setenv");
        push_string(v, join2(name, "_FILE"));
        push_string(v, join2("/run/secrets/", name));
        let ghost done = texts(names@.subrange(0, i + 1));
        assert(done.drop_last() =~= texts(names@.subrange(0, i as int)));
        assert(done.last() == name@);
        assert(texts(v@) =~= texts(old(v)@) + bwrap_secret_env_args(done));
        i = i + 1;
    }
    assert(names@.subrange(0, i as int) =~= names@);
}

fn push_bwrap_egress(v: &mut Vec<String>, egress: &EgressPolicy)
    ensures
        texts(final(v)@) == texts(old(v)@) + bwrap_egress_args(broker_path(*egress)),
{
    match egress {
        EgressPolicy::Deny => {
            assert(texts(v@) =~= texts(old(v)@) + bwrap_egress_args(broker_path(*egress)));
        },
        EgressPolicy::BrokerSocket(path) => {
            push_text(v, "--ro-bind");
            push_text(v, path.as_str());
            push_text(v, "/run/workengine-egress.sock");
            push_text(v, "--setenv");
            push_text(v, "WORKENGINE_EGRESS_SOCKET");
            push_text(v, "/run/workengine-egress.sock");
            assert(texts(v@) =~= texts(old(v)@) + bwrap_egress_args(broker_path(*egress)));
        },
    }
}

/// The `prlimit` command line that launches `argv` inside bubblewrap.
pub fn bubblewrap_command(
    launch: &BubblewrapLaunch,
    limits: &ResourceLimits,
    egress: &EgressPolicy,
    secret_names: &Vec<String>,
    argv: &Vec<String>,
) -> (r: CommandLine)
    ensures
        r.program@ == "prlimit"@,
        texts(r.args@) == bubblewrap_args(
            *limits,
            *egress,
            launch.rootfs@,
            launch.workspace_root@,
            launch.control_root@,
            option_text(launch.secrets_dir),
            texts(secret_names@),
            launch.seccomp_fd as int,
            launch.budget_secs,
            launch.running_processes,
            texts(argv@),
        ),
        exists|i: int|
            0 <= i && i + 2 < r.args@.len() - argv@.len() - 1 && #[trigger] r.args@[i]@ == "--bind"@
                && r.args@[i + 1]@ == launch.workspace_root@ && r.args@[i + 2]@ == "/workspace"@,
{
    let cpu = cpu_grant_exec(limits, launch.budget_secs);
    let ceiling = launch.running_processes.saturating_add(limits.max_processes as u64);
    let mut v: Vec<String> = Vec::new();
    push_prlimit(&mut v, limits, ceiling, cpu);
    let ghost a = texts(v@);
    push_isolation(&mut v, launch.seccomp_fd);
    let ghost b = texts(v@);
    push_mounts(&mut v, launch.rootfs, launch.workspace_root, launch.control_root);
    let ghost c = texts(v@);
    match launch.secrets_dir {
        None => {},
        Some(dir) => {
            push_text(&mut v, "--dir");
            push_text(&mut v, "/run/secrets");
            push_text(&mut v, "--ro-bind");
            push_text(&mut v, dir);
            push_text(&mut v, "/run/secrets");
            push_secret_env(&mut v, secret_names);
        },
    }
    let ghost d = texts(v@);
    assert(d =~= c + bwrap_secret_args(option_text(launch.secrets_dir), texts(secret_names@)));
    push_bwrap_egress(&mut v, egress);
    let ghost e = texts(v@);
    push_text(&mut v, "--");
    push_all(&mut v, argv);
    proof {
        assert(texts(Seq::<String>::empty()) =~= Seq::<Seq<char>>::empty());
        assert(texts(v@) =~= bubblewrap_args(
            *limits,
            *egress,
            launch.rootfs@,
            launch.workspace_root@,
            launch.control_root@,
            option_text(launch.secrets_dir),
            texts(secret_names@),
            launch.seccomp_fd as int,
            launch.budget_secs,
            launch.running_processes,
            texts(argv@),
        ));
    }
    let ghost vv = v@;
    let out = CommandLine { program: crate::text::owned("prlimit"), args: v };
    proof {
        assert(out.args@ == vv);
        lemma_bubblewrap_binds_workspace_writable(
            *limits,
            *egress,
            launch.rootfs@,
            launch.workspace_root@,
            launch.control_root@,
            option_text(launch.secrets_dir),
            texts(secret_names@),
            launch.seccomp_fd as int,
            launch.budget_secs,
            launch.running_processes,
            texts(argv@),
        );
        let a = texts(vv);
        assert(a.len() == vv.len() && texts(argv@).len() == argv@.len());
        let i = choose|i: int|
            0 <= i && i + 2 < a.len() - texts(argv@).len() - 1 && #[trigger] a[i] == "--bind"@ && a[i
                + 1] == launch.workspace_root@ && a[i + 2] == "/workspace"@;
        assert(a[i] == "--bind"@);
        assert(a[i] == vv[i]@ && a[i + 1] == vv[i + 1]@ && a[i + 2] == vv[i + 2]@);
        assert(vv[i]@ == "--bind"@ && vv[i + 1]@ == launch.workspace_root@ && vv[i + 2]@ == "/workspace"@);
        assert(i + 2 < vv.len() - argv@.len() - 1);
        assert(out.args@[i]@ == "--bind"@ && out.args@[i + 1]@ == launch.workspace_root@ && out.args@[i
            + 2]@ == "/workspace"@);
    }
    out
}

/// The arguments of an engine's `run` up to `--user`: no network, no
/// capabilities, no privilege gain, the seccomp profile, the resource
/// ceilings, the container name and the labels that prove which attempt owns
/// the container.
pub open spec fn oci_run_args(
    limits: ResourceLimits,
    seccomp_profile: Seq<char>,
    cpu: int,
    container: Seq<char>,
    work_id: Seq<char>,
    execution_id: Seq<char>,
    attempt_id: Seq<char>,
) -> Seq<Seq<char>> {
    seq![
        "run"@,
        "--rm"@,
        "--read-only"@,
        "--network"@,
        "none"@,
        "--cap-drop"@,
        "ALL"@,
        "--security-opt"@,
        "no-new-privileges"@,
        "--security-opt"@,
        "seccomp="@ + seccomp_profile,
        "--memory"@,
        dec(limits.memory_bytes as int),
        "--pids-limit"@,
        dec(limits.max_processes as int),
        "--ulimit"@,
        "nofile="@ + dec(limits.max_open_files as int) + ":"@ + dec(limits.max_open_files as int),
        "--ulimit"@,
        "fsize="@ + dec(limits.max_file_bytes as int) + ":"@ + dec(limits.max_file_bytes as int),
        "--ulimit"@,
        "cpu="@ + dec(cpu) + ":"@ + dec(cpu),
        "--name"@,
        container,
        "--label"@,
        "workengine.work_id="@ + work_id,
        "--label"@,
        "workengine.execution_id="@ + execution_id,
        "--label"@,
        "workengine.attempt_id="@ + attempt_id,
        "--user"@,
    ]
}

/// The user, the container-id file, the workspace and control mounts and the
/// working directory of a container launch.
pub open spec fn oci_mount_args(uid: u32, gid: u32, workspace: Seq<char>, control: Seq<char>) -> Seq<
    Seq<char>,
> {
    seq![
        dec(uid as int) + ":"@ + dec(gid as int),
        "--cidfile"@,
        crate::text::path_join(control, "container.cid"@),
        "--mount"@,
        "type=bind,src="@ + workspace + ",dst=/workspace,rw"@,
        "--mount"@,
        "type=bind,src="@ + control + ",dst=/run/workengine,rw"@,
        "--workdir"@,
        "/workspace"@,
    ]
}

/// `--env NAME_FILE=/run/secrets/NAME` for each secret name, in order.
pub open spec fn oci_secret_env_args(names: Seq<Seq<char>>) -> Seq<Seq<char>>
    decreases names.len(),
{
    if names.len() == 0 {
        Seq::empty()
    } else {
        let n = names.last();
        oci_secret_env_args(names.drop_last()) + seq!["--env"@, n + "_FILE=/run/secrets/"@ + n]
    }
}

/// The secrets directory mounted read-only and where each file is.
pub open spec fn oci_secret_args(secrets_dir: Option<Seq<char>>, names: Seq<Seq<char>>) -> Seq<
    Seq<char>,
> {
    match secrets_dir {
        None => Seq::empty(),
        Some(dir) => seq!["--mount"@, "type=bind,src="@ + dir + ",dst=/run/secrets,readonly"@]
            + oci_secret_env_args(names),
    }
}

/// The egress broker socket mounted read-only and announced; nothing when
/// egress is denied.
pub open spec fn oci_egress_args(broker: Option<Seq<char>>) -> Seq<Seq<char>> {
    match broker {
        None => Seq::empty(),
        Some(path) => seq![
            "--mount"@,
            "type=bind,src="@ + path + ",dst=/run/workengine-egress.sock,readonly"@,
            "--env"@,
            "WORKENGINE_EGRESS_SOCKET=/run/workengine-egress.sock"@,
        ],
    }
}

/// The name of the container of one attempt.
pub open spec fn container_name(attempt_id: Seq<char>) -> Seq<char> {
    "workengine-"@ + attempt_id
}

/// What a container launch is given besides its engine.
pub struct OciLaunch<'a> {
    pub image: &'a str,
    pub seccomp_profile: &'a str,
    pub work_id: &'a str,
    pub execution_id: &'a str,
    pub attempt_id: &'a str,
    pub workspace_root: &'a str,
    pub control_root: &'a str,
    pub secrets_dir: Option<&'a str>,
    pub uid: u32,
    pub gid: u32,
    pub budget_secs: u64,
}

/// The arguments of the engine for a container launch.
pub open spec fn oci_args(
    limits: ResourceLimits,
    egress: EgressPolicy,
    image: Seq<char>,
    seccomp_profile: Seq<char>,
    work_id: Seq<char>,
    execution_id: Seq<char>,
    attempt_id: Seq<char>,
    workspace: Seq<char>,
    control: Seq<char>,
    secrets_dir: Option<Seq<char>>,
    secret_names: Seq<Seq<char>>,
    uid: u32,
    gid: u32,
    budget_secs: u64,
    argv: Seq<Seq<char>>,
) -> Seq<Seq<char>> {
    oci_run_args(
        limits,
        seccomp_profile,
        cpu_grant(limits, budget_secs),
        container_name(attempt_id),
        work_id,
        execution_id,
        attempt_id,
    ) + oci_mount_args(uid, gid, workspace, control) + oci_secret_args(secrets_dir, secret_names)
        + oci_egress_args(broker_path(egress)) + seq![image] + argv
}

fn pair_value(flag: &str, n: u64) -> (r: String)
    ensures
        r@ == flag@ + dec(n as int) + ":"@ + dec(n as int),
{
    let d = decimal(n);
    let mut s = join3(flag, d.as_str(), ":");
    s.append(d.as_str());
    s
}

fn push_oci_run(
    v: &mut Vec<String>,
    limits: &ResourceLimits,
    launch: &OciLaunch,
    cpu: u64,
    container: &str,
)
    ensures
        texts(final(v)@) == texts(old(v)@) + oci_run_args(
            *limits,
            launch.seccomp_profile@,
            cpu as int,
            container@,
            launch.work_id@,
            launch.execution_id@,
            launch.attempt_id@,
        ),
{
    push_text(v, "run");
    push_text(v, "--rm");
    push_text(v, "--read-only");
    push_text(v, "--network");
    push_text(v, "none");
    push_text(v, "--cap-drop");
    push_text(v, "ALL");
    push_text(v, "--security-opt");
    push_text(v, "no-new-privileges");
    push_text(v, "--security-opt");
    push_string(v, join2("seccomp=", launch.seccomp_profile));
    push_text(v, "--memory");
    push_string(v, decimal(limits.memory_bytes));
    push_text(v, "--pids-limit");
    push_string(v, decimal(limits.max_processes as u64));
    push_text(v, "--ulimit");
    push_string(v, pair_value("nofile=", limits.max_open_files as u64));
    push_text(v, "--ulimit");
    push_string(v, pair_value("fsize=", limits.max_file_bytes));
    push_text(v, "--ulimit");
    push_string(v, pair_value("cpu=", cpu));
    push_text(v, "--name");
    push_text(v, container);
    push_text(v, "--label");
    push_string(v, join2("workengine.work_id=", launch.work_id));
    push_text(v, "--label");
    push_string(v, join2("workengine.execution_id=", launch.execution_id));
    push_text(v, "--label");
    push_string(v, join2("workengine.attempt_id=", launch.attempt_id));
    push_text(v, "--user");
    assert(texts(v@) =~= texts(old(v)@) + oci_run_args(
        *limits,
        launch.seccomp_profile@,
        cpu as int,
        container@,
        launch.work_id@,
        launch.execution_id@,
        launch.attempt_id@,
    ));
}

fn push_oci_mounts(v: &mut Vec<String>, launch: &OciLaunch)
    ensures
        texts(final(v)@) == texts(old(v)@) + oci_mount_args(
            launch.uid,
            launch.gid,
            launch.workspace_root@,
            launch.control_root@,
        ),
{
    proof {
        reveal_strlit("container.cid");
    }
    let uid = decimal(launch.uid as u64);
    let gid = decimal(launch.gid as u64);
    push_string(v, join3(uid.as_str(), ":", gid.as_str()));
    push_text(v, "--cidfile");
    push_string(v, crate::text::join_path(launch.control_root, "container.cid"));
    push_text(v, "--mount");
    push_string(v, join3("type=bind,src=", launch.workspace_root, ",dst=/workspace,rw"));
    push_text(v, "--mount");
    push_string(v, join3("type=bind,src=", launch.control_root, ",dst=/run/workengine,rw"));
    push_text(v, "--workdir");
    push_text(v, "/workspace");
    assert(texts(v@) =~= texts(old(v)@) + oci_mount_args(
        launch.uid,
        launch.gid,
        launch.workspace_root@,
        launch.control_root@,
    ));
}

fn push_oci_secret_env(v: &mut Vec<String>, names: &Vec<String>)
    ensures
        texts(final(v)@) == texts(old(v)@) + oci_secret_env_args(texts(names@)),
{
    let mut i: usize = 0;
    while i < names.len()
        invariant
            i <= names.len(),
            texts(v@) == texts(old(v)@) + oci_secret_env_args(texts(names@.subrange(0, i as int))),
        decreases names.len() - i,
    {
        let name = names[i].as_str();
        push_text(v, "--env");
        push_string(v, join3(name, "_FILE=/run/secrets/", name));
        let ghost done = texts(names@.subrange(0, i + 1));
        assert(done.drop_last() =~= texts(names@.subrange(0, i as int)));
        assert(done.last() == name@);
        assert(texts(v@) =~= texts(old(v)@) + oci_secret_env_args(done));
        i = i + 1;
    }
    assert(names@.subrange(0, i as int) =~= names@);
}

fn push_oci_egress(v: &mut Vec<String>, egress: &EgressPolicy)
    ensures
        texts(final(v)@) == texts(old(v)@) + oci_egress_args(broker_path(*egress)),
{
    match egress {
        EgressPolicy::Deny => {
            assert(texts(v@) =~= texts(old(v)@) + oci_egress_args(broker_path(*egress)));
        },
        EgressPolicy::BrokerSocket(path) => {
            push_text(v, "--mount");
            push_string(
                v,
                join3("type=bind,src=", path.as_str(), ",dst=/run/workengine-egress.sock,readonly"),
            );
            push_text(v, "--env");
            push_text(v, "WORKENGINE_EGRESS_SOCKET=/run/workengine-egress.sock");
            assert(texts(v@) =~= texts(old(v)@) + oci_egress_args(broker_path(*egress)));
        },
    }
}

/// The engine command line that launches `argv` in a container.
pub fn oci_command(
    engine: &str,
    launch: &OciLaunch,
    limits: &ResourceLimits,
    egress: &EgressPolicy,
    secret_names: &Vec<String>,
    argv: &Vec<String>,
) -> (r: CommandLine)
    ensures
        r.program@ == engine@,
        texts(r.args@) == oci_args(
            *limits,
            *egress,
            launch.image@,
            launch.seccomp_profile@,
            launch.work_id@,
            launch.execution_id@,
            launch.attempt_id@,
            launch.workspace_root@,
            launch.control_root@,
            option_text(launch.secrets_dir),
            texts(secret_names@),
            launch.uid,
            launch.gid,
            launch.budget_secs,
            texts(argv@),
        ),
{
    let cpu = cpu_grant_exec(limits, launch.budget_secs);
    let container = join2("workengine-", launch.attempt_id);
    let mut v: Vec<String> = Vec::new();
    push_oci_run(&mut v, limits, launch, cpu, container.as_str());
    push_oci_mounts(&mut v, launch);
    let ghost c = texts(v@);
    match launch.secrets_dir {
        None => {},
        Some(dir) => {
            push_text(&mut v, "--mount");
            push_string(&mut v, join3("type=bind,src=", dir, ",dst=/run/secrets,readonly"));
            push_oci_secret_env(&mut v, secret_names);
        },
    }
    assert(texts(v@) =~= c + oci_secret_args(option_text(launch.secrets_dir), texts(secret_names@)));
    push_oci_egress(&mut v, egress);
    push_text(&mut v, launch.image);
    push_all(&mut v, argv);
    proof {
        assert(texts(Seq::<String>::empty()) =~= Seq::<Seq<char>>::empty());
        assert(texts(v@) =~= oci_args(
            *limits,
            *egress,
            launch.image@,
            launch.seccomp_profile@,
            launch.work_id@,
            launch.execution_id@,
            launch.attempt_id@,
            launch.workspace_root@,
            launch.control_root@,
            option_text(launch.secrets_dir),
            texts(secret_names@),
            launch.uid,
            launch.gid,
            launch.budget_secs,
            texts(argv@),
        ));
    }
    CommandLine { program: crate::text::owned(engine), args: v }
}

} // verus!

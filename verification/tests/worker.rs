use workengine::control::error::{AppError, ChannelReaction};
use workengine::control::ports::{
    AttemptObservation, AttemptState, ExecutionObservation, ExecutionSpecObservation, ProcessEvent,
};
use workengine::decimal::decimal;
use workengine::worker::command::WORKER_PATH;
use workengine::worker::policy::{
    image_digest, oci_engine_allowed, validate_digest, validate_resource_limits, EgressPolicy,
    ResourceLimits, Sandbox, SecretFile, WorkerPolicy,
};
use workengine::worker::records::{
    check_oci_labels, check_oci_owner, checkpoint_payload, decode_outcome_fields, encode_outcome,
    record_line, OciOwner, EVENT_CHILD_STDOUT, EVENT_SPAWNED, STREAM_EVENTS, STREAM_SCHEMA_VERSION,
};
use workengine::worker::runner::{
    digest_bytes, frame_tree, oci_inspection_matches, rootfs_digest, LaunchContext, OciInspection,
    PolicyFile, ProcessWorkerRunner, RootfsEntry, SandboxProbe,
};
use workengine::worker::reclaim::{
    reclaim_owned_process, reclaim_targets, recorded_process_group, teardown_outcome, OwnedRuntime,
};
use workengine::worker::host::{is_process_dir_name, owned_task_count, proc_status_uid, HostProcess};
use workengine::text::{first_word_of, text_lines};
use workengine::worker::supervise::{
    closing_event, kills_group_after_wait, wait_verdict, ChildState, WaitClock, WaitVerdict,
};
use workengine::worker::stub::{
    missing_outcome, needs_container_reclaim, settle_process, settle_stub, stub_script,
    stub_without_child_exit, stub_writer_kind, ChildWait, Settlement, StubBehavior,
    StubWorkerRunner, WorkerExit,
};
use workengine::{Outcome, OutcomeKind, OUTCOME_SCHEMA_VERSION};

fn worker_message(err: &AppError) -> String {
    match err {
        AppError::Worker(m) => m.clone(),
        other => panic!("expected a worker error, got {other:?}"),
    }
}

fn seccomp_bytes() -> Vec<u8> {
    vec![0x06, 0, 0, 0, 0, 0, 0xff, 0x7f]
}

fn rootfs_entries() -> Vec<RootfsEntry> {
    vec![
        RootfsEntry { kind: b'd', path: Vec::new(), mode: 0o755, payload: Vec::new() },
        RootfsEntry { kind: b'f', path: b"busybox".to_vec(), mode: 0o755, payload: b"binary".to_vec() },
    ]
}

fn bubblewrap_sandbox() -> Sandbox {
    Sandbox::Bubblewrap {
        rootfs: "/srv/rootfs".to_owned(),
        rootfs_digest: rootfs_digest(&rootfs_entries()),
        seccomp_profile: "/srv/seccomp.bpf".to_owned(),
        seccomp_digest: digest_bytes(&seccomp_bytes()),
    }
}

fn oci_sandbox() -> Sandbox {
    Sandbox::Oci {
        engine: "docker".to_owned(),
        image: format!("example@sha256:{}", "1".repeat(64)),
        seccomp_profile: "/srv/seccomp.json".to_owned(),
        seccomp_digest: digest_bytes(b"{}"),
    }
}

fn healthy_probe(seccomp: Vec<u8>) -> SandboxProbe {
    let repo = format!(r#"["registry.example/agent@sha256:{}"]"#, "1".repeat(64));
    SandboxProbe {
        rootfs_is_dedicated_dir: true,
        rootfs_has_secret_mount: true,
        rootfs_entries: Ok(rootfs_entries()),
        seccomp_file: Ok(PolicyFile { regular_nonempty: true, bytes: seccomp }),
        oci_image: Ok(OciInspection { succeeded: true, stdout: repo.into_bytes() }),
        egress_is_socket: Ok(true),
    }
}

fn context<'a>(dir: &'a str) -> LaunchContext<'a> {
    LaunchContext {
        work_id: "work-1",
        execution_id: "execution-owner",
        attempt_id: "attempt-owner",
        workspace_root: dir,
        control_root: dir,
        secrets_dir: None,
        budget_secs: 1,
        seccomp_fd: 3,
        running_processes: 5,
        uid: 1000,
        gid: 1000,
    }
}

#[test]
fn secret_file_rejects_path_escape() {
    assert!(SecretFile::new("../TOKEN".to_owned(), "value".to_owned()).is_err());
}

#[test]
fn secret_file_accepts_environment_style_names() {
    let file = SecretFile::new("TOKEN_2".to_owned(), "value".to_owned()).unwrap();
    assert_eq!(file.name(), "TOKEN_2");
    assert_eq!(file.value(), "value");
    let err = SecretFile::new("2TOKEN".to_owned(), "value".to_owned()).err().unwrap();
    assert_eq!(
        worker_message(&err),
        "secret-file name must be an ASCII environment-style identifier"
    );
}

#[test]
fn default_policy_limits_and_deny() {
    let policy = WorkerPolicy::default();
    assert_eq!(
        policy.resources,
        ResourceLimits {
            memory_bytes: 1_073_741_824,
            max_processes: 64,
            max_open_files: 256,
            max_file_bytes: 1_073_741_824,
            cpu_seconds: 900,
        }
    );
    assert_eq!(policy.egress, EgressPolicy::Deny);
}

#[test]
fn digest_shape_is_checked() {
    assert!(validate_digest(&format!("sha256:{}", "a".repeat(64))).is_ok());
    let err = validate_digest(&format!("sha256:{}", "A".repeat(64))).unwrap_err();
    assert_eq!(worker_message(&err), "digest must use sha256:<64 lowercase hex>");
    assert!(validate_digest("sha256:123").is_err());
}

#[test]
fn image_must_be_pinned_by_exactly_one_digest() {
    let digest = format!("sha256:{}", "b".repeat(64));
    assert_eq!(image_digest(&format!("repo/agent@{digest}")), Some(digest.clone()));
    assert_eq!(image_digest(&format!("@{digest}")), None);
    assert_eq!(image_digest(&format!("a@b@{digest}")), None);
    assert_eq!(image_digest("repo/agent:latest"), None);
    assert_eq!(image_digest("example@sha256:123"), None);
}

#[test]
fn engines_are_docker_or_podman() {
    assert!(oci_engine_allowed("docker"));
    assert!(oci_engine_allowed("podman"));
    assert!(!oci_engine_allowed("nerdctl"));
}

#[test]
fn tiny_limits_cannot_launch() {
    let mut limits = ResourceLimits::default();
    assert!(validate_resource_limits(&limits).is_ok());
    limits.max_open_files = 15;
    let err = validate_resource_limits(&limits).unwrap_err();
    assert_eq!(
        worker_message(&err),
        "resource limits must be finite and large enough to launch a Worker"
    );
    let mut limits = ResourceLimits::default();
    limits.memory_bytes = 16 * 1024 * 1024 - 1;
    assert!(validate_resource_limits(&limits).is_err());
}

#[test]
fn rootfs_frame_has_length_prefixed_records() {
    let frame = frame_tree(&vec![RootfsEntry {
        kind: b'f',
        path: b"a".to_vec(),
        mode: 0x01020304,
        payload: b"xy".to_vec(),
    }]);
    assert_eq!(
        frame,
        vec![b'f', 0, 0, 0, 0, 0, 0, 0, 1, b'a', 1, 2, 3, 4, 0, 0, 0, 0, 0, 0, 0, 2, b'x', b'y']
    );
}

#[test]
fn content_digest_of_known_bytes() {
    assert_eq!(
        digest_bytes(b"abc"),
        "sha256:ba7816bf8f01cfea414140de5dae2223b00361a396177a9cb410ff61f20015ad"
    );
}

#[test]
fn oci_inspection_requires_the_exact_configured_digest() {
    let expected = format!("sha256:{}", "1".repeat(64));
    let matching = format!(r#"["registry.example/agent@{expected}"]"#);
    assert!(oci_inspection_matches(matching.as_bytes(), &expected).unwrap());
    let different = format!(r#"["registry.example/agent@sha256:{}"]"#, "2".repeat(64));
    assert!(!oci_inspection_matches(different.as_bytes(), &expected).unwrap());
    assert!(oci_inspection_matches(b"not-json", &expected).is_err());
}

#[test]
fn runner_checks_run_in_order() {
    let err = ProcessWorkerRunner::new(vec![], vec![], bubblewrap_sandbox(), healthy_probe(seccomp_bytes()))
        .err()
        .unwrap();
    assert_eq!(worker_message(&err), "profile argv is empty");

    let mut probe = healthy_probe(seccomp_bytes());
    probe.rootfs_is_dedicated_dir = false;
    let err = ProcessWorkerRunner::new(vec!["/busybox".to_owned()], vec![], bubblewrap_sandbox(), probe)
        .err()
        .unwrap();
    assert_eq!(worker_message(&err), "bubblewrap rootfs must be a dedicated directory");

    let mut probe = healthy_probe(seccomp_bytes());
    probe.rootfs_has_secret_mount = false;
    let secret = SecretFile::new("TOKEN".to_owned(), "v".to_owned()).unwrap();
    let err = ProcessWorkerRunner::new(vec!["/busybox".to_owned()], vec![secret], bubblewrap_sandbox(), probe)
        .err()
        .unwrap();
    assert_eq!(
        worker_message(&err),
        "bubblewrap rootfs must provide /run/secrets for declared secret files"
    );

    let mut probe = healthy_probe(seccomp_bytes());
    probe.rootfs_entries = Ok(vec![RootfsEntry { kind: b'd', path: Vec::new(), mode: 0o700, payload: Vec::new() }]);
    let err = ProcessWorkerRunner::new(vec!["/busybox".to_owned()], vec![], bubblewrap_sandbox(), probe)
        .err()
        .unwrap();
    assert!(worker_message(&err).starts_with("bubblewrap rootfs digest mismatch: expected sha256:"));

    let err = ProcessWorkerRunner::new(vec!["/busybox".to_owned()], vec![], bubblewrap_sandbox(), healthy_probe(b"other".to_vec()))
        .err()
        .unwrap();
    assert!(worker_message(&err).starts_with("seccomp profile digest mismatch: expected sha256:"));

    let mut probe = healthy_probe(seccomp_bytes());
    probe.seccomp_file = Ok(PolicyFile { regular_nonempty: false, bytes: Vec::new() });
    let err = ProcessWorkerRunner::new(vec!["/busybox".to_owned()], vec![], bubblewrap_sandbox(), probe)
        .err()
        .unwrap();
    assert_eq!(
        worker_message(&err),
        "seccomp profile must be a non-empty regular file and not a symlink"
    );
}

#[test]
fn oci_runner_checks_engine_pin_and_resolution() {
    let mut sandbox = oci_sandbox();
    if let Sandbox::Oci { engine, .. } = &mut sandbox {
        *engine = "nerdctl".to_owned();
    }
    let err = ProcessWorkerRunner::new(vec!["worker".to_owned()], vec![], sandbox, healthy_probe(b"{}".to_vec()))
        .err()
        .unwrap();
    assert_eq!(worker_message(&err), "OCI engine must be docker or podman");

    let mut sandbox = oci_sandbox();
    if let Sandbox::Oci { image, .. } = &mut sandbox {
        *image = "example:latest".to_owned();
    }
    let err = ProcessWorkerRunner::new(vec!["worker".to_owned()], vec![], sandbox, healthy_probe(b"{}".to_vec()))
        .err()
        .unwrap();
    assert_eq!(worker_message(&err), "OCI image must be digest pinned");

    let mut probe = healthy_probe(b"{}".to_vec());
    probe.oci_image = Ok(OciInspection { succeeded: false, stdout: Vec::new() });
    let err = ProcessWorkerRunner::new(vec!["worker".to_owned()], vec![], oci_sandbox(), probe)
        .err()
        .unwrap();
    assert_eq!(worker_message(&err), "failed to inspect pinned OCI image");

    let mut probe = healthy_probe(b"{}".to_vec());
    probe.oci_image = Ok(OciInspection { succeeded: true, stdout: b"[\"other@sha256:00\"]".to_vec() });
    let err = ProcessWorkerRunner::new(vec!["worker".to_owned()], vec![], oci_sandbox(), probe)
        .err()
        .unwrap();
    assert_eq!(
        worker_message(&err),
        "OCI engine did not resolve the configured image to its pinned digest"
    );
}

#[test]
fn egress_requires_an_explicit_unix_broker_socket() {
    let policy = WorkerPolicy {
        resources: ResourceLimits::default(),
        egress: EgressPolicy::BrokerSocket("/run/broker.sock".to_owned()),
    };
    let mut probe = healthy_probe(b"{}".to_vec());
    probe.egress_is_socket = Ok(false);
    let err = ProcessWorkerRunner::new_with_policy(vec!["worker".to_owned()], vec![], oci_sandbox(), policy.clone(), probe)
        .err()
        .unwrap();
    assert_eq!(worker_message(&err), "egress broker must be a Unix socket and not a symlink");
    let runner = ProcessWorkerRunner::new_with_policy(
        vec!["worker".to_owned()],
        vec![],
        oci_sandbox(),
        policy,
        healthy_probe(b"{}".to_vec()),
    )
    .unwrap();
    let args = runner.command(&context("/tmp/w")).args;
    assert!(args.contains(&"WORKENGINE_EGRESS_SOCKET=/run/workengine-egress.sock".to_owned()));
}

#[test]
fn oci_command_carries_attempt_ownership_labels() {
    let runner = ProcessWorkerRunner::new(vec!["worker".to_owned()], vec![], oci_sandbox(), healthy_probe(b"{}".to_vec())).unwrap();
    let command = runner.command(&context("/tmp/w"));
    assert_eq!(command.program, "docker");
    let args = command.args;
    assert!(args.contains(&"workengine.work_id=work-1".to_owned()));
    assert!(args.contains(&"workengine.execution_id=execution-owner".to_owned()));
    assert!(args.contains(&"workengine.attempt_id=attempt-owner".to_owned()));
    assert!(args.contains(&"--network".to_owned()));
    assert!(args.contains(&"none".to_owned()));
    assert!(args.contains(&"--cap-drop".to_owned()));
    assert!(args.contains(&"ALL".to_owned()));
    assert!(args.contains(&"--memory".to_owned()));
    assert!(args.iter().any(|arg| arg.starts_with("seccomp=")));
    assert!(!args.iter().any(|arg| arg.contains("EGRESS")));
    assert!(args.contains(&"workengine-attempt-owner".to_owned()));
    assert!(args.contains(&"cpu=1:1".to_owned()));
    assert!(args.contains(&"1000:1000".to_owned()));
    assert!(args.contains(&"/tmp/w/container.cid".to_owned()));
    assert_eq!(args.last().unwrap(), "worker");
    assert_eq!(WORKER_PATH, "/usr/sbin:/usr/bin:/sbin:/bin");
}

#[test]
fn bubblewrap_command_applies_policy_without_a_network_capability() {
    let runner = ProcessWorkerRunner::new(vec!["/busybox".to_owned(), "true".to_owned()], vec![], bubblewrap_sandbox(), healthy_probe(seccomp_bytes())).unwrap();
    let command = runner.command(&context("/tmp/w"));
    assert_eq!(command.program, "prlimit");
    let args = command.args;
    assert_eq!(args[0], "--as=1073741824");
    assert_eq!(args[1], "--nproc=69");
    assert_eq!(args[4], "--cpu=1");
    assert!(args.windows(2).any(|args| args == ["--cap-drop", "ALL"]));
    assert!(args.windows(2).any(|args| args == ["--seccomp", "3"]));
    assert!(args.iter().any(|arg| arg == "--unshare-all"));
    assert!(!args.iter().any(|arg| arg == "--share-net"));
    assert_eq!(&args[args.len() - 3..], ["--", "/busybox", "true"]);
}

#[test]
fn declared_secret_is_exposed_only_as_a_file_path() {
    let secret = SecretFile::new("TOKEN".to_owned(), "hunter2".to_owned()).unwrap();
    let runner = ProcessWorkerRunner::new(vec!["/busybox".to_owned()], vec![secret], bubblewrap_sandbox(), healthy_probe(seccomp_bytes())).unwrap();
    let mut ctx = context("/tmp/w");
    ctx.secrets_dir = Some("/tmp/secrets");
    let args = runner.command(&ctx).args;
    assert!(args.windows(3).any(|w| w == ["--setenv", "TOKEN_FILE", "/run/secrets/TOKEN"]));
    assert!(args.windows(2).any(|w| w == ["/tmp/secrets", "/run/secrets"]));
    assert!(!args.iter().any(|arg| arg.contains("hunter2")));
    assert_eq!(runner.secret_names(), vec!["TOKEN".to_owned()]);
}

#[test]
fn stub_behavior_names_round_trip() {
    for name in ["succeed", "fail", "hang", "exceed_budget", "channel_fail", "channel_park", "channel_retry", "await_control"] {
        let behavior: StubBehavior = name.parse().unwrap();
        assert_eq!(behavior.as_str(), name);
    }
    assert_eq!(
        "sometimes".parse::<StubBehavior>().unwrap_err(),
        "unknown stub behavior sometimes"
    );
    let runner = StubWorkerRunner::new(StubBehavior::Hang);
    assert_eq!(runner.behavior_of(), StubBehavior::Hang);
}

#[test]
fn channel_behaviors_are_classified_not_prose() {
    assert!(matches!(
        stub_without_child_exit(StubBehavior::ChannelFail),
        Err(AppError::Channel(ChannelReaction::Fail))
    ));
    assert!(matches!(
        stub_without_child_exit(StubBehavior::ChannelRetry),
        Err(AppError::Channel(ChannelReaction::Retry))
    ));
    assert!(matches!(
        stub_without_child_exit(StubBehavior::ChannelPark),
        Ok(WorkerExit::Parked { control_request_id: None })
    ));
}

#[test]
fn stub_settlements() {
    assert!(matches!(settle_stub(StubBehavior::Succeed, ChildWait::Exited { success: true }), Settlement::ReadOutcome));
    match settle_stub(StubBehavior::Succeed, ChildWait::Exited { success: false }) {
        Settlement::Fail(e) => assert_eq!(worker_message(&e), "stub worker exited unsuccessfully"),
        other => panic!("{other:?}"),
    }
    assert!(matches!(settle_stub(StubBehavior::Hang, ChildWait::BudgetExceeded), Settlement::Persist(OutcomeKind::TimedOut)));
    assert!(matches!(settle_stub(StubBehavior::ExceedBudget, ChildWait::BudgetExceeded), Settlement::Persist(OutcomeKind::BudgetExceeded)));
    match settle_stub(StubBehavior::Hang, ChildWait::Exited { success: true }) {
        Settlement::Fail(e) => assert_eq!(worker_message(&e), "hang stub exited before budget"),
        other => panic!("{other:?}"),
    }
    assert!(matches!(
        settle_stub(StubBehavior::AwaitControl, ChildWait::Aborted { control_request_id: 7 }),
        Settlement::Aborted { control_request_id: 7 }
    ));
    assert_eq!(stub_writer_kind(StubBehavior::Fail), OutcomeKind::Failed);
    assert_eq!(stub_writer_kind(StubBehavior::Succeed), OutcomeKind::Succeeded);
    assert_eq!(stub_script(StubBehavior::ExceedBudget), Some("exec sleep 30"));
    assert_eq!(stub_script(StubBehavior::ChannelFail), None);
}

#[test]
fn process_settlements() {
    assert!(matches!(settle_process(Ok(ChildWait::BudgetExceeded)), Settlement::Persist(OutcomeKind::TimedOut)));
    assert!(matches!(settle_process(Ok(ChildWait::Exited { success: false })), Settlement::ReadOutcome));
    assert!(matches!(
        settle_process(Err(AppError::worker("lost"))),
        Settlement::Fail(AppError::Channel(ChannelReaction::Fail))
    ));
    assert!(!needs_container_reclaim(&Ok(ChildWait::Exited { success: true })));
    assert!(needs_container_reclaim(&Ok(ChildWait::BudgetExceeded)));
}

#[test]
fn missing_outcome_is_failed_not_succeeded() {
    let outcome = missing_outcome("echo").unwrap();
    assert_eq!(outcome.kind(), OutcomeKind::Failed);
    assert_eq!(outcome.worker_profile(), "echo");
}

#[test]
fn unknown_kind_is_schema_error() {
    let bytes = br#"{"schemaVersion":1,"kind":"needs_review","workerProfile":"stub"}"#;
    let value: serde_json::Value = serde_json::from_slice(bytes).unwrap();
    let err = decode_outcome_fields(
        value["schemaVersion"].as_u64().unwrap() as u32,
        value["kind"].as_str().unwrap(),
        value["workerProfile"].as_str().unwrap(),
    )
    .unwrap_err();
    assert!(matches!(err, AppError::OutcomeSchema(_)));
    match err {
        AppError::OutcomeSchema(m) => assert_eq!(m, "unknown outcome kind \"needs_review\""),
        _ => unreachable!(),
    }
}

#[test]
fn decode_outcome_fields_errors() {
    assert!(matches!(
        decode_outcome_fields(2, "succeeded", "stub"),
        Err(AppError::OutcomeSchema(m)) if m == "unsupported schema version 2"
    ));
    assert!(matches!(decode_outcome_fields(1, "succeeded", ""), Err(AppError::Domain(_))));
    let ok = decode_outcome_fields(1, "timed_out", "stub").unwrap();
    assert_eq!(ok.kind(), OutcomeKind::TimedOut);
}

#[test]
fn schema_outcome_file_is_decoded() {
    let outcome = Outcome::new(OUTCOME_SCHEMA_VERSION, OutcomeKind::Succeeded, "echo").unwrap();
    let json = encode_outcome(&outcome).unwrap();
    assert_eq!(json, r#"{"schemaVersion":1,"kind":"succeeded","workerProfile":"echo"}"#);
    let value: serde_json::Value = serde_json::from_str(&json).unwrap();
    let decoded = decode_outcome_fields(
        value["schemaVersion"].as_u64().unwrap() as u32,
        value["kind"].as_str().unwrap(),
        value["workerProfile"].as_str().unwrap(),
    )
    .unwrap();
    assert_eq!(decoded, outcome);
}

#[test]
fn writer_survives_quotes_in_the_worker_profile() {
    let outcome = Outcome::new(OUTCOME_SCHEMA_VERSION, OutcomeKind::Succeeded, "stub's \"quoted\"").unwrap();
    let json = encode_outcome(&outcome).unwrap();
    let value: serde_json::Value = serde_json::from_str(&json).unwrap();
    assert_eq!(value["workerProfile"], "stub's \"quoted\"");
}

#[test]
fn stream_line_carries_work_id_schema_version_and_event() {
    let line = record_line("work-1", EVENT_SPAWNED, None);
    let v: serde_json::Value = serde_json::from_str(&line).unwrap();
    assert_eq!(v["schemaVersion"], STREAM_SCHEMA_VERSION);
    assert_eq!(v["workId"], "work-1");
    assert_eq!(v["event"], EVENT_SPAWNED);
    assert!(v.get("payload").is_none());
    let with_payload = record_line("work-1", EVENT_CHILD_STDOUT, Some("stub"));
    let v: serde_json::Value = serde_json::from_str(&with_payload).unwrap();
    assert_eq!(v["payload"], "stub");
    assert_eq!(v["workId"], "work-1");
    assert_eq!(STREAM_EVENTS, ["spawned", "exited", "killed", "child_stdout", "child_stderr"]);
}

#[test]
fn checkpoint_candidate_names_its_attempt() {
    let payload = checkpoint_payload("work-1", "execution-park", "attempt-park", "stub");
    let v: serde_json::Value = serde_json::from_str(&payload).unwrap();
    assert_eq!(v["attemptId"], "attempt-park");
    assert_eq!(v["schemaVersion"], 1);
}

#[test]
fn oci_owner_proof_must_match_the_attempt() {
    let owner = OciOwner::for_attempt("docker", "work-1", "execution-1", "attempt-1");
    assert_eq!(owner.container, "workengine-attempt-1");
    assert!(check_oci_owner(&owner, "work-1", "execution-1", "attempt-1").is_ok());
    let err = check_oci_owner(&owner, "work-1", "execution-1", "attempt-2").unwrap_err();
    assert_eq!(worker_message(&err), "OCI ownership proof does not match the active attempt");
    let rogue = OciOwner::for_attempt("nerdctl", "work-1", "execution-1", "attempt-1");
    let err = check_oci_owner(&rogue, "work-1", "execution-1", "attempt-1").unwrap_err();
    assert_eq!(worker_message(&err), "OCI ownership proof names an invalid engine");
}

#[test]
fn oci_labels_prove_ownership() {
    let labels = br#"{"workengine.work_id":"work-1","workengine.execution_id":"execution-1","workengine.attempt_id":"attempt-1"}"#;
    assert!(check_oci_labels(labels, "work-1", "execution-1", "attempt-1").is_ok());
    let err = check_oci_labels(labels, "work-2", "execution-1", "attempt-1").unwrap_err();
    assert_eq!(worker_message(&err), "OCI labels do not prove attempt ownership");
    assert!(check_oci_labels(b"[]", "work-1", "execution-1", "attempt-1").is_err());
}

#[test]
fn decimal_text_of_integers() {
    assert_eq!(decimal(0), "0");
    assert_eq!(decimal(900), "900");
    assert_eq!(decimal(u64::MAX), "18446744073709551615");
}

#[test]
fn supervision_beats_heartbeats_and_enforces_the_budget() {
    let clock = WaitClock::start(100, 50);
    assert_eq!(clock.deadline_ms, 150);
    assert_eq!(clock.next_heartbeat_ms, 1100);
    assert!(!clock.heartbeat_due(1099));
    assert!(clock.heartbeat_due(1100));
    let later = clock.after_heartbeat(1105);
    assert_eq!(later.next_heartbeat_ms, 2105);
    assert_eq!(later.deadline_ms, 150);
    assert_eq!(
        wait_verdict(&clock, 120, ChildState::Running),
        WaitVerdict::Sleep
    );
    assert_eq!(
        wait_verdict(&clock, 150, ChildState::Running),
        WaitVerdict::KillOverBudget
    );
    assert_eq!(
        wait_verdict(&clock, 500, ChildState::Exited { success: false }),
        WaitVerdict::Done(ChildWait::Exited { success: false })
    );
    let endless = WaitClock::start(u64::MAX - 1, u64::MAX);
    assert_eq!(endless.deadline_ms, u64::MAX);
    assert_eq!(endless.next_heartbeat_ms, u64::MAX);
}

#[test]
fn closing_events_follow_how_the_wait_ended() {
    let killed: Result<ChildWait, AppError> = Ok(ChildWait::BudgetExceeded);
    let exited: Result<ChildWait, AppError> = Ok(ChildWait::Exited { success: true });
    let failed: Result<ChildWait, AppError> = Err(AppError::worker("gone"));
    assert_eq!(closing_event(&killed), Some(ProcessEvent::Killed));
    assert_eq!(closing_event(&exited), Some(ProcessEvent::Exited));
    assert_eq!(closing_event(&failed), None);
    assert!(!kills_group_after_wait(&killed));
    assert!(kills_group_after_wait(&exited));
    assert!(kills_group_after_wait(&failed));
}

fn observed_attempt(id: &str, state: AttemptState) -> AttemptObservation {
    AttemptObservation {
        attempt_id: workengine::AttemptId::parse(id).unwrap(),
        state,
        retry_ordinal: 0,
        started_at_unix_ms: 1,
        last_heartbeat_at_unix_ms: 1,
        finished_at_unix_ms: None,
        terminal_reason: None,
        checkpoint_recorded: false,
        process_records: Vec::new(),
        confirmed_outcome: None,
    }
}

fn observed_execution(id: &str, attempts: Vec<AttemptObservation>) -> ExecutionObservation {
    ExecutionObservation {
        execution_id: workengine::ExecutionId::parse(id).unwrap(),
        work_id: workengine::WorkId::parse("work-r").unwrap(),
        created_at_unix_ms: 1,
        spec: ExecutionSpecObservation {
            schema_version: 1,
            worker_profile: "stub".to_owned(),
            worker_config_digest: format!("sha256:{}", "a".repeat(64)),
            runtime_kind: None,
            runtime_digest: format!("sha256:{}", "b".repeat(64)),
            wall_clock_budget_ms: 10,
            retry_limit: 0,
            channel_policy: "fail".to_owned(),
            secret_refs: Vec::new(),
        },
        attempts,
    }
}

#[test]
fn reclaim_targets_are_active_last_attempts_of_running_work() {
    let executions = vec![
        observed_execution(
            "exec-1",
            vec![
                observed_attempt("attempt-1", AttemptState::Retried),
                observed_attempt("attempt-2", AttemptState::Active),
            ],
        ),
        observed_execution(
            "exec-2",
            vec![
                observed_attempt("attempt-3", AttemptState::Active),
                observed_attempt("attempt-4", AttemptState::Confirmed),
            ],
        ),
        observed_execution("exec-3", Vec::new()),
    ];
    let running = workengine::Work::restore(
        workengine::WorkId::parse("work-r").unwrap(),
        workengine::WorkStatus::Running,
        workengine::WorkAttributes::new("goal", "stub").unwrap(),
        None,
        1,
    );
    let targets = reclaim_targets(&running, &executions);
    assert_eq!(targets.len(), 1);
    assert_eq!(targets[0].work_id.as_str(), "work-r");
    assert_eq!(targets[0].execution_id.as_str(), "exec-1");
    assert_eq!(targets[0].attempt_id.as_str(), "attempt-2");
    let parked = workengine::Work::restore(
        workengine::WorkId::parse("work-r").unwrap(),
        workengine::WorkStatus::Parked,
        workengine::WorkAttributes::new("goal", "stub").unwrap(),
        None,
        1,
    );
    assert!(reclaim_targets(&parked, &executions).is_empty());
}

struct FakeRuntime {
    container: Result<bool, String>,
    process: Result<bool, String>,
    calls: Vec<&'static str>,
}

impl OwnedRuntime for FakeRuntime {
    fn reclaim_container(&mut self, _: &str, _: &str, _: &str, _: &str) -> Result<bool, AppError> {
        self.calls.push("container");
        self.container.clone().map_err(|m| AppError::worker(&m))
    }

    fn reclaim_runtime_owner(&mut self, _: &str, _: &str, _: &str, _: &str) -> Result<bool, AppError> {
        self.calls.push("process");
        self.process.clone().map_err(|m| AppError::worker(&m))
    }
}

#[test]
fn reclaim_tears_down_container_then_process() {
    let mut either = FakeRuntime { container: Ok(false), process: Ok(true), calls: Vec::new() };
    assert!(reclaim_owned_process(&mut either, "/c", "w", "e", "a").unwrap());
    assert_eq!(either.calls, vec!["container", "process"]);
    let mut none = FakeRuntime { container: Ok(false), process: Ok(false), calls: Vec::new() };
    assert!(!reclaim_owned_process(&mut none, "/c", "w", "e", "a").unwrap());
    let mut broken = FakeRuntime {
        container: Err("bad proof".to_owned()),
        process: Ok(true),
        calls: Vec::new(),
    };
    assert!(reclaim_owned_process(&mut broken, "/c", "w", "e", "a").is_err());
    assert_eq!(broken.calls, vec!["container"]);
}

#[test]
fn proc_entries_and_status_uids_are_read_like_the_host_table() {
    assert!(is_process_dir_name("1234"));
    assert!(!is_process_dir_name("self"));
    assert!(!is_process_dir_name("12a"));
    assert!(is_process_dir_name(""));
    let status = "Name:\tbash\nState:\tS (sleeping)\nUid:\t1000\t1000\t1000\t1000\nGid:\t1000\n";
    assert_eq!(proc_status_uid(status).as_deref(), Some("1000"));
    assert_eq!(proc_status_uid("Name:\tx\n"), None);
    assert_eq!(proc_status_uid("Uid:\t   \nUid:\t7\n"), None);
    for text in [status, "Uid:\t0 0", "a\r\nUid:\t42\r\n"] {
        let expected = text
            .lines()
            .find_map(|line| line.strip_prefix("Uid:\t"))
            .and_then(|ids| ids.split_whitespace().next().map(str::to_owned));
        assert_eq!(proc_status_uid(text), expected);
    }
}

#[test]
fn text_helpers_follow_str_semantics() {
    for text in ["", "a", "a\n", "a\r\nb", "x\n\n", "\r"] {
        let expected: Vec<String> = text.lines().map(str::to_owned).collect();
        assert_eq!(text_lines(text), expected);
    }
    for text in ["", "  ", " one two", "\tword\n", "\u{a0}x"] {
        assert_eq!(
            first_word_of(text),
            text.split_whitespace().next().map(str::to_owned)
        );
    }
}

#[test]
fn owned_tasks_are_counted_per_user() {
    let processes = vec![
        HostProcess { uid: Some("1000".to_owned()), tasks: Some(3) },
        HostProcess { uid: Some("0".to_owned()), tasks: Some(50) },
        HostProcess { uid: Some("1000".to_owned()), tasks: None },
        HostProcess { uid: None, tasks: Some(9) },
    ];
    assert_eq!(owned_task_count(&processes, "1000"), 4);
    assert_eq!(owned_task_count(&processes, "0"), 50);
    let huge = vec![
        HostProcess { uid: Some("1".to_owned()), tasks: Some(u64::MAX) },
        HostProcess { uid: Some("1".to_owned()), tasks: Some(1) },
    ];
    assert_eq!(owned_task_count(&huge, "1"), u64::MAX);
}

#[test]
fn teardown_outcome_reports_either_runtime() {
    assert_eq!(teardown_outcome(false, Ok(false)).unwrap(), false);
    assert_eq!(teardown_outcome(true, Ok(false)).unwrap(), true);
    assert_eq!(teardown_outcome(false, Ok(true)).unwrap(), true);
    match teardown_outcome(true, Err(AppError::Conflict("gone".to_owned()))) {
        Err(AppError::Conflict(m)) => assert_eq!(m, "gone"),
        other => panic!("{other:?}"),
    }
}

#[test]
fn stream_lines_escape_like_json() {
    let line = record_line("work-1", EVENT_SPAWNED, Some("a\"b\\c\n\t\u{1}\u{1f}/\u{7f}é"));
    assert_eq!(
        line,
        format!(
            "{{\"schemaVersion\":1,\"workId\":\"work-1\",\"event\":\"{}\",\"payload\":\"a\\\"b\\\\c\\n\\t\\u0001\\u001f/\u{7f}é\"}}",
            EVENT_SPAWNED
        )
    );
}

#[test]
fn recorded_process_group_reads_a_trimmed_u32() {
    assert_eq!(recorded_process_group("  4242\n").unwrap(), 4242);
    assert_eq!(recorded_process_group("+7").unwrap(), 7);
    assert_eq!(recorded_process_group("4294967295").unwrap(), u32::MAX);
    for bad in ["", "  ", "4294967296", "-1", "12a", "1 2"] {
        assert_eq!(worker_message(&recorded_process_group(bad).unwrap_err()), "recorded process group is not a number");
    }
}

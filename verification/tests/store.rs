use workengine::control::error::AppError;
use workengine::control::ports::{ExecutionSpecObservation, SecretRefObservation};
use workengine::store::{
    attempt_conflict, check_capture_owner, check_confirmed_outcome, check_execution_unchanged,
    check_payload_work, decode_event, encode_confirmed_outcome, encode_event,
    encode_execution_spec, expect_one_change, unsigned, validate_execution_spec_payload,
    work_from_row, ConfirmedOutcomeRecord, EventRecord, WorkRow,
};
use workengine::store::{
    captured_conflict, check_capture_worker, check_queue_quota, check_quota_acquire,
    migrations_from, plan_quota_limit, queue_quota_resources, quota_holder, start_race_conflict,
    QuotaLimitWrite, STORE_USER_VERSION,
};
use workengine::store::{
    check_put_allowed, check_relation_projects, publication_attempt_state, publication_from_row,
    publication_not_pending, scrubbed_delivery_error, PublicationRow, StoredWorkGuard,
};
use workengine::control::integrations::PublicationKind;
use workengine::store::{
    advanced_heartbeat, attempt_from_row, check_park_checkpoint, fold_process_record, no_active_attempt,
    not_parked, park_requests_input, process_record_from_row, AttemptEnd, AttemptRow, ProcessRecordRow,
};
use workengine::control::ports::{AttemptState, ProcessEvent};
use workengine::workspace::{
    check_checkout_source, copies_checkout, copy_action, last_line, lies_within, memory_line,
    operator_input_line, should_append, CopyAction, DirWorkspaceFactory, EntryKind, GOAL_FILE,
};
use workengine::control::ports::{OperatorInput, OperatorInputKind};
use workengine::{
    AttemptId, ChannelPolicy, ConfirmedOutcome, ContentDigest, DomainError, EventKind,
    ExecutionId, ExecutionSpec, Outcome, OutcomeKind, ProjectId, RuntimeKind, SecretRef,
    SecretSource, Work, WorkAttributes, WorkEvent, WorkId, WorkStatus,
    CONFIRMED_OUTCOME_SCHEMA_VERSION, EXECUTION_SPEC_SCHEMA_VERSION, OUTCOME_SCHEMA_VERSION,
};

fn row() -> WorkRow {
    WorkRow {
        id: "work-1".to_owned(),
        status: "parked".to_owned(),
        goal: "goal".to_owned(),
        worker_profile: "stub".to_owned(),
        workspace_root: Some("/w".to_owned()),
        created_at_unix_ms: 7,
        schema_version: 1,
        project_id: "default".to_owned(),
        repository: None,
        notification_target: None,
    }
}

fn digest(c: char) -> ContentDigest {
    ContentDigest::parse(&format!("sha256:{}", c.to_string().repeat(64))).unwrap()
}

#[test]
fn rows_restore_work() {
    let work = work_from_row(row()).unwrap();
    assert_eq!(work.id().as_str(), "work-1");
    assert_eq!(work.status(), WorkStatus::Parked);
    assert_eq!(work.workspace_root(), Some("/w"));
    let mut old = row();
    old.schema_version = 2;
    assert!(matches!(
        work_from_row(old),
        Err(AppError::Domain(DomainError::UnsupportedSchemaVersion(2)))
    ));
    let mut bad = row();
    bad.status = "paused".to_owned();
    assert!(work_from_row(bad).is_err());
}

#[test]
fn negative_store_integers_are_refused() {
    assert_eq!(unsigned(5, "x").unwrap(), 5);
    match unsigned(-1, "attempt start time") {
        Err(AppError::Store(m)) => assert_eq!(m, "negative attempt start time"),
        other => panic!("{other:?}"),
    }
}

#[test]
fn replay_matches_snapshot() {
    let work = Work::new(
        WorkId::parse("work-1").unwrap(),
        WorkAttributes::scoped("goal", "stub", ProjectId::parse("p").unwrap(), Some("r".to_owned()), None).unwrap(),
        3,
    )
    .unwrap();
    let event = WorkEvent::created(&work);
    let json = encode_event(&event);
    let value: serde_json::Value = serde_json::from_str(&json).unwrap();
    assert_eq!(value["kind"], "created");
    assert_eq!(value["from"], serde_json::Value::Null);
    assert_eq!(value["projectId"], "p");
    let record = EventRecord {
        schema_version: value["schemaVersion"].as_u64().unwrap() as u32,
        work_id: value["workId"].as_str().unwrap().to_owned(),
        kind: value["kind"].as_str().unwrap().to_owned(),
        from: value["from"].as_str().map(str::to_owned),
        to: value["to"].as_str().unwrap().to_owned(),
        goal: value["goal"].as_str().map(str::to_owned),
        worker_profile: value["workerProfile"].as_str().map(str::to_owned),
        project_id: value["projectId"].as_str().map(str::to_owned),
        repository: value["repository"].as_str().map(str::to_owned),
        notification_target: value["notificationTarget"].as_str().map(str::to_owned),
        outcome_kind: value["outcomeKind"].as_str().map(str::to_owned),
        workspace_root: value["workspaceRoot"].as_str().map(str::to_owned),
        created_at_unix_ms: value["createdAtUnixMs"].as_u64().unwrap(),
    };
    let decoded = decode_event(record).unwrap();
    assert_eq!(decoded.kind(), EventKind::Created);
    assert_eq!(decoded.to(), WorkStatus::Ready);
    assert_eq!(decoded.attributes().unwrap().repository(), Some("r"));
    assert_eq!(encode_event(&decoded), json);
}

#[test]
fn incomplete_event_attributes_are_a_schema_error() {
    let record = EventRecord {
        schema_version: 1,
        work_id: "work-1".to_owned(),
        kind: "created".to_owned(),
        from: None,
        to: "ready".to_owned(),
        goal: Some("goal".to_owned()),
        worker_profile: None,
        project_id: None,
        repository: None,
        notification_target: None,
        outcome_kind: None,
        workspace_root: None,
        created_at_unix_ms: 1,
    };
    match decode_event(record) {
        Err(AppError::OutcomeSchema(m)) => assert_eq!(m, "event attributes incomplete"),
        other => panic!("{other:?}"),
    }
}

fn spec() -> ExecutionSpec {
    ExecutionSpec::new(
        EXECUTION_SPEC_SCHEMA_VERSION,
        WorkId::parse("work-1").unwrap(),
        "stub",
        digest('a'),
        digest('b'),
        60000,
        1,
        ChannelPolicy::RetryThenFail,
        vec![SecretRef::new("TOKEN", SecretSource::environment_variable("TOKEN").unwrap()).unwrap()],
    )
    .unwrap()
}

#[test]
fn execution_payload_round_trips_through_validation() {
    let json = encode_execution_spec(&spec(), RuntimeKind::Stub);
    let value: serde_json::Value = serde_json::from_str(&json).unwrap();
    assert_eq!(value["runtimeKind"], "stub");
    assert_eq!(value["secretRefs"][0]["name"], "TOKEN");
    let payload = ExecutionSpecObservation {
        schema_version: value["schemaVersion"].as_u64().unwrap() as u32,
        worker_profile: value["workerProfile"].as_str().unwrap().to_owned(),
        worker_config_digest: value["workerConfigDigest"].as_str().unwrap().to_owned(),
        runtime_kind: value["runtimeKind"].as_str().map(str::to_owned),
        runtime_digest: value["runtimeDigest"].as_str().unwrap().to_owned(),
        wall_clock_budget_ms: value["wallClockBudgetMs"].as_u64().unwrap(),
        retry_limit: value["retryLimit"].as_u64().unwrap() as u32,
        channel_policy: value["channelPolicy"].as_str().unwrap().to_owned(),
        secret_refs: vec![SecretRefObservation { name: "TOKEN".to_owned(), source: "TOKEN".to_owned() }],
    };
    assert!(validate_execution_spec_payload(&payload).is_ok());
    let mut unknown = payload.clone();
    unknown.runtime_kind = Some("vm".to_owned());
    match validate_execution_spec_payload(&unknown) {
        Err(AppError::Store(m)) => assert_eq!(m, "execution payload has unknown runtime kind"),
        other => panic!("{other:?}"),
    }
    let mut policy = payload.clone();
    policy.channel_policy = "retry".to_owned();
    match validate_execution_spec_payload(&policy) {
        Err(AppError::Store(m)) => assert_eq!(m, "execution payload has unknown channel policy"),
        other => panic!("{other:?}"),
    }
    let mut refs = payload;
    refs.secret_refs[0].source = "1BAD".to_owned();
    assert!(matches!(validate_execution_spec_payload(&refs), Err(AppError::Domain(_))));
    assert!(check_payload_work("work-1", &WorkId::parse("work-1").unwrap()).is_ok());
    assert!(check_payload_work("work-2", &WorkId::parse("work-1").unwrap()).is_err());
}

#[test]
fn confirmed_outcome_provenance_is_checked() {
    let outcome = Outcome::new(OUTCOME_SCHEMA_VERSION, OutcomeKind::Succeeded, "stub").unwrap();
    let confirmed = ConfirmedOutcome::new(
        CONFIRMED_OUTCOME_SCHEMA_VERSION,
        ExecutionId::parse("execution-1").unwrap(),
        AttemptId::parse("attempt-1").unwrap(),
        &spec(),
        outcome,
        9,
    )
    .unwrap();
    let json = encode_confirmed_outcome(&confirmed);
    let value: serde_json::Value = serde_json::from_str(&json).unwrap();
    assert_eq!(value["attemptId"], "attempt-1");
    let record = |attempt: &str| ConfirmedOutcomeRecord {
        schema_version: 1,
        work_id: "work-1".to_owned(),
        execution_id: "execution-1".to_owned(),
        attempt_id: attempt.to_owned(),
        kind: "succeeded".to_owned(),
        worker_profile: "stub".to_owned(),
        confirmed_at_unix_ms: 9,
    };
    let work = WorkId::parse("work-1").unwrap();
    let execution = ExecutionId::parse("execution-1").unwrap();
    let attempt = AttemptId::parse("attempt-1").unwrap();
    let observed = check_confirmed_outcome(record("attempt-1"), &work, &execution, &attempt).unwrap();
    assert_eq!(observed.kind, OutcomeKind::Succeeded);
    match check_confirmed_outcome(record("attempt-2"), &work, &execution, &attempt) {
        Err(AppError::Store(m)) => assert_eq!(m, "confirmed outcome payload has foreign provenance"),
        other => panic!("{other:?}"),
    }
}

#[test]
fn claim_checks() {
    let a = Work::new(WorkId::parse("work-a").unwrap(), WorkAttributes::new("g", "stub").unwrap(), 1).unwrap();
    let b = Work::new(WorkId::parse("work-b").unwrap(), WorkAttributes::new("g", "stub").unwrap(), 1).unwrap();
    assert!(check_capture_owner(&a, &a).is_ok());
    assert!(matches!(check_capture_owner(&a, &b), Err(AppError::Conflict(_))));
    let id = WorkId::parse("work-a").unwrap();
    assert!(check_execution_unchanged("work-a", "{}", &id, "{}").is_ok());
    match check_execution_unchanged("work-a", "{}", &id, "{\"x\":1}") {
        Err(AppError::Conflict(m)) => {
            assert_eq!(m, "resume configuration differs from the immutable execution spec")
        }
        other => panic!("{other:?}"),
    }
    assert!(expect_one_change(1, "lost").is_ok());
    assert!(expect_one_change(0, "lost").is_err());
    match attempt_conflict(&AttemptId::parse("attempt-9").unwrap()) {
        AppError::Conflict(m) => assert_eq!(m, "attempt attempt-9 does not own the active lease"),
        other => panic!("{other:?}"),
    }
}

#[test]
fn two_work_ids_do_not_share_a_root() {
    let factory = DirWorkspaceFactory::new("/data");
    let a = factory.dir(&WorkId::parse("work-a").unwrap());
    let b = factory.dir(&WorkId::parse("work-b").unwrap());
    assert_ne!(a, b);
    assert!(a.starts_with("/data/workspaces/"));
    assert!(b.starts_with("/data/workspaces/"));
    assert_eq!(factory.workspaces_root(), "/data/workspaces");
    let control = factory.attempt_control_dir(
        &WorkId::parse("work-a").unwrap(),
        &ExecutionId::parse("execution-1").unwrap(),
        &AttemptId::parse("attempt-1").unwrap(),
    );
    assert_eq!(control, "/data/control/work-a/execution-1/attempt-1");
    assert_eq!(DirWorkspaceFactory::new("/data/").dir(&WorkId::parse("w").unwrap()), "/data/workspaces/w");
    assert_eq!(GOAL_FILE, "workengine-goal.txt");
}

#[test]
fn record_memory_does_not_duplicate_the_last_line() {
    let id = WorkId::parse("work-a").unwrap();
    let line = memory_line(&id, WorkStatus::Succeeded, OutcomeKind::Succeeded);
    assert_eq!(line, r#"{"schemaVersion":1,"workId":"work-a","status":"succeeded","outcomeKind":"succeeded"}"#);
    assert!(should_append(None, &line));
    assert!(!should_append(Some(&line), &line));
    let failed = memory_line(&id, WorkStatus::Failed, OutcomeKind::Failed);
    assert!(should_append(Some(&failed), &line));
}

#[test]
fn operator_inputs_are_append_only_data_for_the_same_work() {
    let id = WorkId::parse("work-input").unwrap();
    let input = OperatorInput {
        id: 7,
        kind: OperatorInputKind::Answer,
        body: "choose B".to_owned(),
        created_at_unix_ms: 42,
    };
    let line = operator_input_line(&id, &input);
    let value: serde_json::Value = serde_json::from_str(&line).unwrap();
    assert_eq!(value["workId"], "work-input");
    assert_eq!(value["kind"], "answer");
    assert_eq!(value["inputId"], 7);
    assert_eq!(value["schemaVersion"], 1);
}

#[test]
fn migrations_bring_store_to_current_version() {
    assert_eq!(STORE_USER_VERSION, 6);
    assert_eq!(migrations_from(0).unwrap(), vec![1, 2, 3, 4, 5, 6]);
    assert_eq!(migrations_from(2).unwrap(), vec![3, 4, 5, 6]);
    assert_eq!(migrations_from(5).unwrap(), vec![6]);
    assert!(migrations_from(6).unwrap().is_empty());
}

#[test]
fn unsupported_store_versions_are_refused() {
    assert!(matches!(
        migrations_from(1).unwrap_err(),
        AppError::Domain(DomainError::UnsupportedSchemaVersion(1))
    ));
    assert!(matches!(
        migrations_from(7).unwrap_err(),
        AppError::Domain(DomainError::UnsupportedSchemaVersion(7))
    ));
}

#[test]
fn quota_limits_are_generation_guarded() {
    assert_eq!(plan_quota_limit(None, None).unwrap(), QuotaLimitWrite::Insert);
    assert_eq!(
        plan_quota_limit(Some(3), Some(3)).unwrap(),
        QuotaLimitWrite::Update(4)
    );
    assert_eq!(
        plan_quota_limit(Some(u64::MAX), Some(u64::MAX)).unwrap(),
        QuotaLimitWrite::Update(u64::MAX)
    );
    for (current, expected) in [(Some(3), Some(2)), (None, Some(0)), (Some(0), None)] {
        assert_eq!(
            conflict_text(plan_quota_limit(current, expected).unwrap_err()),
            "quota context changed"
        );
    }
}

#[test]
fn quota_acquisition_respects_capacity() {
    assert_eq!(conflict_text(check_quota_acquire("gpu", 0, Some(4), 0).unwrap_err()), "quota units must be positive");
    assert_eq!(conflict_text(check_quota_acquire("gpu", 1, None, 0).unwrap_err()), "quota gpu is not configured");
    assert!(check_quota_acquire("gpu", 2, Some(4), 2).is_ok());
    assert_eq!(conflict_text(check_quota_acquire("gpu", 3, Some(4), 2).unwrap_err()), "quota gpu has insufficient capacity");
    assert!(check_quota_acquire("gpu", 1, Some(i64::MAX), i64::MAX).is_ok());
}

#[test]
fn queue_quotas_cover_global_and_project() {
    let work = Work::new(
        WorkId::parse("work-q").unwrap(),
        WorkAttributes::scoped("goal", "stub", ProjectId::parse("alpha").unwrap(), None, None)
            .unwrap(),
        1,
    )
    .unwrap();
    assert_eq!(
        queue_quota_resources(&work),
        vec!["queue:global".to_owned(), "project:alpha".to_owned()]
    );
    assert_eq!(quota_holder(&work), "work:work-q");
    assert_eq!(check_queue_quota("queue:global", None, 9).unwrap(), false);
    assert_eq!(check_queue_quota("queue:global", Some(2), 1).unwrap(), true);
    assert_eq!(
        conflict_text(check_queue_quota("queue:global", Some(2), 2).unwrap_err()),
        "quota queue:global has insufficient capacity"
    );
}

#[test]
fn capture_and_start_conflicts_name_the_work() {
    assert!(check_capture_worker("worker-1").is_ok());
    assert_eq!(conflict_text(check_capture_worker("  ").unwrap_err()), "capture worker id is empty");
    let id = WorkId::parse("work-q").unwrap();
    assert_eq!(conflict_text(captured_conflict(&id)), "Work work-q has an active queue capture");
    assert_eq!(conflict_text(start_race_conflict(&id)), "Work work-q already has an active attempt or changed status");
}

fn conflict_text(error: AppError) -> String {
    match error {
        AppError::Conflict(message) => message,
        other => panic!("expected a conflict, got {:?}", other),
    }
}

#[test]
fn last_line_follows_str_lines() {
    assert_eq!(last_line(""), None);
    assert_eq!(last_line("a\nb\n").as_deref(), Some("b"));
    assert_eq!(last_line("a\nb").as_deref(), Some("b"));
    assert_eq!(last_line("a\r\n").as_deref(), Some("a"));
    assert_eq!(last_line("\n").as_deref(), Some(""));
    assert_eq!(last_line("a\n\n").as_deref(), Some(""));
    for text in ["", "x", "x\n", "x\r\ny\r\n", "one\ntwo\nthree", "\n\n"] {
        assert_eq!(last_line(text).as_deref(), text.lines().next_back());
    }
}

#[test]
fn bind_copies_checkout_only_into_a_new_workspace() {
    assert!(copies_checkout(false, Some("/src")));
    assert!(!copies_checkout(true, Some("/src")));
    assert!(!copies_checkout(false, None));
    assert!(check_checkout_source(true, "/src", "/src", "/data/w").is_ok());
    match check_checkout_source(false, "/missing", "/missing", "/data/w") {
        Err(AppError::Workspace(m)) => assert_eq!(m, "checkout is not a directory: /missing"),
        other => panic!("{other:?}"),
    }
    match check_checkout_source(true, "/data/w", "/data/w", "/data/w") {
        Err(AppError::Workspace(m)) => assert_eq!(m, "checkout is the workspace root"),
        other => panic!("{other:?}"),
    }
}

#[test]
fn checkout_copy_skips_links_and_the_workspace() {
    assert!(lies_within("/src/data/w", "/src/data"));
    assert!(lies_within("/src", "/src"));
    assert!(!lies_within("/src/database", "/src/data"));
    assert!(lies_within("/x", "/"));
    assert_eq!(copy_action("/src/data", "/src/data/w", EntryKind::Directory), CopyAction::Skip);
    assert_eq!(copy_action("/src/lib", "/src/data/w", EntryKind::Directory), CopyAction::Descend);
    assert_eq!(copy_action("/src/a.rs", "/src/data/w", EntryKind::File), CopyAction::CopyFile);
    assert_eq!(copy_action("/src/link", "/src/data/w", EntryKind::Symlink), CopyAction::Skip);
    assert_eq!(copy_action("/src/fifo", "/src/data/w", EntryKind::Other), CopyAction::Skip);
}

fn attempt_row() -> AttemptRow {
    AttemptRow {
        state: "active".to_owned(),
        started_at_unix_ms: 5,
        last_heartbeat_at_unix_ms: 6,
        finished_at_unix_ms: None,
        terminal_reason: None,
        checkpoint_recorded: false,
    }
}

fn store_text(error: AppError) -> String {
    match error {
        AppError::Store(message) => message,
        other => panic!("expected a store error, got {:?}", other),
    }
}

#[test]
fn attempt_rows_are_read_back_in_order() {
    let id = AttemptId::parse("attempt-1").unwrap();
    let attempt = attempt_from_row(id.clone(), attempt_row(), 2, Vec::new(), None).unwrap();
    assert_eq!(attempt.attempt_id, id);
    assert_eq!(attempt.state, AttemptState::Active);
    assert_eq!(attempt.retry_ordinal, 2);
    assert_eq!(attempt.started_at_unix_ms, 5);
    assert_eq!(attempt.last_heartbeat_at_unix_ms, 6);
    assert_eq!(attempt.finished_at_unix_ms, None);

    let mut unknown = attempt_row();
    unknown.state = "zombie".to_owned();
    unknown.started_at_unix_ms = -1;
    assert_eq!(
        store_text(attempt_from_row(id.clone(), unknown, 0, Vec::new(), None).unwrap_err()),
        "unknown persisted attempt state zombie"
    );
    assert_eq!(
        store_text(
            attempt_from_row(id.clone(), attempt_row(), u32::MAX as usize + 1, Vec::new(), None)
                .unwrap_err()
        ),
        "attempt retry ordinal overflow"
    );
    let mut finished = attempt_row();
    finished.finished_at_unix_ms = Some(-3);
    assert_eq!(
        store_text(attempt_from_row(id, finished, 0, Vec::new(), None).unwrap_err()),
        "negative attempt finish time"
    );
}

#[test]
fn process_records_are_read_back() {
    let row = ProcessRecordRow {
        event: "child_stdout".to_owned(),
        occurrences: 3,
        first_observed_at_unix_ms: 10,
        last_observed_at_unix_ms: 12,
        payload_redacted: true,
    };
    let record = process_record_from_row(row).unwrap();
    assert_eq!(record.event, ProcessEvent::ChildStdout);
    assert_eq!(record.occurrences, 3);
    assert!(record.payload_redacted);
    let bad = ProcessRecordRow {
        event: "exited".to_owned(),
        occurrences: 1,
        first_observed_at_unix_ms: -1,
        last_observed_at_unix_ms: 0,
        payload_redacted: true,
    };
    assert_eq!(
        store_text(process_record_from_row(bad).unwrap_err()),
        "negative process record first time"
    );
}

#[test]
fn attempt_ends_name_their_state_and_reason() {
    assert_eq!(AttemptEnd::Confirmed(OutcomeKind::Succeeded).state(), AttemptState::Confirmed);
    assert_eq!(AttemptEnd::Confirmed(OutcomeKind::TimedOut).terminal_reason(), "timed_out");
    assert_eq!(AttemptEnd::Retried.state(), AttemptState::Retried);
    assert_eq!(AttemptEnd::Retried.terminal_reason(), "channel_retry");
    assert_eq!(AttemptEnd::Parked.terminal_reason(), "parked");
    assert_eq!(AttemptEnd::Reclaimed.state(), AttemptState::Parked);
    assert_eq!(AttemptEnd::Reclaimed.terminal_reason(), "crash_reclaimed");
}

#[test]
fn park_needs_a_checkpoint_and_worker_parks_ask_for_input() {
    assert!(check_park_checkpoint(true).is_ok());
    assert_eq!(
        conflict_text(check_park_checkpoint(false).unwrap_err()),
        "park requires a validated attempt checkpoint"
    );
    assert!(park_requests_input(None));
    assert!(!park_requests_input(Some(4)));
    let id = WorkId::parse("work-z").unwrap();
    assert_eq!(conflict_text(no_active_attempt(&id)), "Work work-z has no active attempt");
    assert_eq!(conflict_text(not_parked(&id)), "Work work-z is not parked");
}

#[test]
fn heartbeats_never_move_back() {
    assert_eq!(advanced_heartbeat(None, 5, 9), 9);
    assert_eq!(advanced_heartbeat(None, 12, 9), 12);
    assert_eq!(advanced_heartbeat(Some(20), 5, 9), 20);
    assert_eq!(advanced_heartbeat(Some(7), 5, 9), 9);
}

#[test]
fn process_records_count_observations_and_redact_child_output() {
    let first = fold_process_record(None, ProcessEvent::ChildStdout, 10);
    assert_eq!(first.occurrences, 1);
    assert!(first.payload_redacted);
    let second = fold_process_record(Some(first), ProcessEvent::ChildStdout, 8);
    assert_eq!(second.occurrences, 2);
    assert_eq!(second.first_observed_at_unix_ms, 10);
    assert_eq!(second.last_observed_at_unix_ms, 10);
    let third = fold_process_record(Some(second), ProcessEvent::ChildStdout, 15);
    assert_eq!(third.last_observed_at_unix_ms, 15);
    let spawned = fold_process_record(None, ProcessEvent::Spawned, 1);
    assert!(!spawned.payload_redacted);
}

fn publication_row() -> PublicationRow {
    PublicationRow {
        id: 9,
        kind: "external_input_required".to_owned(),
        work_id: "work-p".to_owned(),
        project_id: "alpha".to_owned(),
        target: "ops".to_owned(),
        status: "parked".to_owned(),
        created_at_unix_ms: 40,
        attempt_count: 2,
    }
}

#[test]
fn publication_rows_are_read_back() {
    let p = publication_from_row(publication_row()).unwrap();
    assert_eq!(p.publication_id, 9);
    assert_eq!(p.kind, PublicationKind::ExternalInputRequired);
    assert_eq!(p.work_id.as_str(), "work-p");
    assert_eq!(p.project_id.as_str(), "alpha");
    assert_eq!(p.status, WorkStatus::Parked);
    assert_eq!(p.attempt_count, 2);
    let mut kind = publication_row();
    kind.kind = "gossip".to_owned();
    assert_eq!(store_text(publication_from_row(kind).unwrap_err()), "unknown publication kind");
    let mut id = publication_row();
    id.work_id = "../x".to_owned();
    assert!(matches!(
        publication_from_row(id),
        Err(AppError::Domain(DomainError::InvalidWorkId))
    ));
    let mut count = publication_row();
    count.attempt_count = -1;
    assert_eq!(
        store_text(publication_from_row(count).unwrap_err()),
        "publication attempt count overflow"
    );
}

#[test]
fn delivery_attempts_store_no_channel_text() {
    assert_eq!(publication_attempt_state(true), "delivered");
    assert_eq!(publication_attempt_state(false), "failed");
    assert_eq!(scrubbed_delivery_error(Some("connection refused by host")), Some("delivery_failed"));
    assert_eq!(scrubbed_delivery_error(None), None);
    assert_eq!(conflict_text(publication_not_pending(-3)), "publication -3 is not pending");
}

#[test]
fn relations_stay_within_one_project() {
    assert!(check_relation_projects(Some("alpha"), Some("alpha")).is_ok());
    assert_eq!(
        conflict_text(check_relation_projects(Some("alpha"), Some("beta")).unwrap_err()),
        "Work relations cannot cross project boundaries"
    );
    assert_eq!(
        conflict_text(check_relation_projects(Some("alpha"), None).unwrap_err()),
        "related Work was not found"
    );
}

#[test]
fn snapshot_writes_keep_immutable_attributes() {
    let work = Work::new(
        WorkId::parse("work-s").unwrap(),
        WorkAttributes::new("goal", "stub").unwrap(),
        1,
    )
    .unwrap();
    assert!(check_put_allowed(&None, &work).is_ok());
    let same = StoredWorkGuard {
        has_active_attempt: false,
        attributes: WorkAttributes::new("goal", "stub").unwrap(),
    };
    assert!(check_put_allowed(&Some(same), &work).is_ok());
    let busy = StoredWorkGuard {
        has_active_attempt: true,
        attributes: WorkAttributes::new("goal", "stub").unwrap(),
    };
    assert_eq!(
        conflict_text(check_put_allowed(&Some(busy), &work).unwrap_err()),
        "Work work-s has an active attempt or changed immutable attributes"
    );
    let changed = StoredWorkGuard {
        has_active_attempt: false,
        attributes: WorkAttributes::new("other goal", "stub").unwrap(),
    };
    assert!(check_put_allowed(&Some(changed), &work).is_err());
}

#[test]
fn quota_generation_is_compare_and_set_across_configures() {
    assert_eq!(plan_quota_limit(None, None).unwrap(), QuotaLimitWrite::Insert);
    assert_eq!(conflict_text(plan_quota_limit(Some(0), Some(7)).unwrap_err()), "quota context changed");
    assert_eq!(plan_quota_limit(Some(0), Some(0)).unwrap(), QuotaLimitWrite::Update(1));
    assert_eq!(conflict_text(plan_quota_limit(Some(1), Some(0)).unwrap_err()), "quota context changed");
    assert_eq!(plan_quota_limit(Some(1), Some(1)).unwrap(), QuotaLimitWrite::Update(2));
}

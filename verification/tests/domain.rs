use workengine::{
    replay, Apply, AttemptId, ChannelPolicy, ConfirmedOutcome, ContentDigest, DomainError,
    EventKind, ExecutionId, ExecutionSpec, Outcome, OutcomeKind, ProjectId, RelationKind,
    SecretRef, SecretSource, Work, WorkAttributes, WorkEvent, WorkId, WorkRelation, WorkStatus,
    CONFIRMED_OUTCOME_SCHEMA_VERSION, EXECUTION_SPEC_SCHEMA_VERSION, OUTCOME_SCHEMA_VERSION,
};

// ---- identifiers ----

#[test]
fn accepts_uuid_shape() {
    let id = WorkId::parse("550e8400-e29b-41d4-a716-446655440000").unwrap();
    assert_eq!(id.as_str(), "550e8400-e29b-41d4-a716-446655440000");
}

#[test]
fn work_id_rejects_path_escape() {
    assert_eq!(WorkId::parse("../etc"), Err(DomainError::InvalidWorkId));
    assert_eq!(WorkId::parse("a/b"), Err(DomainError::InvalidWorkId));
    assert_eq!(WorkId::parse(""), Err(DomainError::InvalidWorkId));
}

#[test]
fn attempt_id_accepts_opaque_safe_id() {
    let id = AttemptId::parse("attempt-01").unwrap();
    assert_eq!(id.as_str(), "attempt-01");
}

#[test]
fn attempt_id_rejects_path_escape() {
    assert_eq!(
        AttemptId::parse("attempt/01"),
        Err(DomainError::InvalidAttemptId)
    );
}

#[test]
fn execution_id_accepts_opaque_safe_id() {
    let id = ExecutionId::parse("exec_550e8400-e29b-41d4-a716-446655440000").unwrap();
    assert_eq!(id.as_str(), "exec_550e8400-e29b-41d4-a716-446655440000");
}

#[test]
fn execution_id_rejects_path_escape() {
    assert_eq!(
        ExecutionId::parse("../execution"),
        Err(DomainError::InvalidExecutionId)
    );
}

#[test]
fn project_identity_is_path_safe() {
    assert_eq!(ProjectId::default_project().as_str(), "default");
    assert!(ProjectId::parse("repo_1").is_ok());
    assert_eq!(
        ProjectId::parse("../repo"),
        Err(DomainError::InvalidProjectId)
    );
}

#[test]
fn ids_reject_overlong_and_non_ascii_values() {
    let long = "a".repeat(129);
    assert_eq!(WorkId::parse(&long), Err(DomainError::InvalidWorkId));
    let max = "a".repeat(128);
    assert_eq!(WorkId::parse(&max).unwrap().as_str(), max);
    assert_eq!(WorkId::parse("wörk"), Err(DomainError::InvalidWorkId));
    assert_eq!(WorkId::parse("a b"), Err(DomainError::InvalidWorkId));
    assert!(WorkId::parse("A_z-9").is_ok());
}

#[test]
fn ids_parse_through_from_str() {
    let id: WorkId = "work-7".parse().unwrap();
    assert_eq!(id.as_str(), "work-7");
    assert!("x/y".parse::<ProjectId>().is_err());
}

// ---- statuses and outcomes ----

#[test]
fn first_slice_statuses_are_exactly_the_five() {
    let names: Vec<&str> = WorkStatus::ALL.iter().map(|s| s.as_str()).collect();
    assert_eq!(
        names,
        vec!["ready", "running", "succeeded", "failed", "parked"]
    );
}

#[test]
fn unknown_status_is_a_schema_error() {
    assert!(matches!(
        "planning".parse::<WorkStatus>(),
        Err(DomainError::UnknownStatus(_))
    ));
}

#[test]
fn status_names_read_back() {
    for status in WorkStatus::ALL {
        assert_eq!(status.as_str().parse::<WorkStatus>(), Ok(status));
    }
    assert_eq!(
        WorkStatus::parse("Ready"),
        Err(DomainError::UnknownStatus("Ready".to_owned()))
    );
}

#[test]
fn unknown_kind_is_a_schema_error() {
    assert!(matches!(
        "needs_review".parse::<OutcomeKind>(),
        Err(DomainError::UnknownOutcomeKind(_))
    ));
}

#[test]
fn unknown_schema_version_is_rejected() {
    let err = Outcome::new(99, OutcomeKind::Succeeded, "stub").unwrap_err();
    assert_eq!(err, DomainError::UnsupportedSchemaVersion(99));
}

#[test]
fn outcome_requires_a_profile() {
    assert_eq!(
        Outcome::new(1, OutcomeKind::Failed, ""),
        Err(DomainError::InvalidAttributes)
    );
    let outcome = Outcome::new(1, OutcomeKind::TimedOut, "stub").unwrap();
    assert_eq!(outcome.schema_version(), 1);
    assert_eq!(outcome.kind(), OutcomeKind::TimedOut);
    assert_eq!(outcome.worker_profile(), "stub");
}

#[test]
fn fail_closed_kinds_map_to_failed_status() {
    for kind in [
        OutcomeKind::Failed,
        OutcomeKind::TimedOut,
        OutcomeKind::BudgetExceeded,
        OutcomeKind::ChannelError,
    ] {
        assert_eq!(kind.to_status(), WorkStatus::Failed);
    }
    assert_eq!(OutcomeKind::Succeeded.to_status(), WorkStatus::Succeeded);
}

#[test]
fn first_slice_kinds_are_exactly_the_five() {
    let names: Vec<&str> = OutcomeKind::ALL.iter().map(|k| k.as_str()).collect();
    assert_eq!(
        names,
        vec![
            "succeeded",
            "failed",
            "timed_out",
            "budget_exceeded",
            "channel_error"
        ]
    );
}

#[test]
fn outcome_and_event_kind_names_read_back() {
    for kind in OutcomeKind::ALL {
        assert_eq!(kind.as_str().parse::<OutcomeKind>(), Ok(kind));
    }
    for kind in EventKind::ALL {
        assert_eq!(kind.as_str().parse::<EventKind>(), Ok(kind));
    }
    assert!(matches!(
        "deleted".parse::<EventKind>(),
        Err(DomainError::UnknownEventKind(_))
    ));
}

// ---- relations ----

#[test]
fn relations_are_closed_directional_data() {
    let parent = WorkId::parse("parent").unwrap();
    let child = WorkId::parse("child").unwrap();
    let relation =
        WorkRelation::new(parent.clone(), child.clone(), RelationKind::ParentChild).unwrap();
    assert_eq!(relation.from(), &parent);
    assert_eq!(relation.to(), &child);
    assert_eq!(
        RelationKind::ALL.map(RelationKind::as_str),
        ["parent_child", "blocks", "follows"]
    );
    assert!(WorkRelation::new(parent.clone(), parent, RelationKind::Blocks).is_err());
}

#[test]
fn relation_kind_names_read_back() {
    for kind in RelationKind::ALL {
        assert_eq!(kind.as_str().parse::<RelationKind>(), Ok(kind));
    }
    assert!(matches!(
        "duplicates".parse::<RelationKind>(),
        Err(DomainError::UnknownRelationKind(_))
    ));
}

// ---- work lifecycle ----

fn work() -> Work {
    Work::new(
        WorkId::parse("abc").unwrap(),
        WorkAttributes::new("goal", "stub").unwrap(),
        1,
    )
    .unwrap()
}

fn outcome(kind: OutcomeKind) -> Outcome {
    Outcome::new(1, kind, "stub").unwrap()
}

#[test]
fn ready_start_running() {
    let mut w = work();
    assert_eq!(
        w.start().unwrap(),
        Apply::Changed {
            from: WorkStatus::Ready,
            to: WorkStatus::Running,
        }
    );
    assert_eq!(w.status(), WorkStatus::Running);
}

#[test]
fn parked_start_running_same_id() {
    let mut w = work();
    w.start().unwrap();
    w.park().unwrap();
    let id = w.id().clone();
    w.start().unwrap();
    assert_eq!(w.status(), WorkStatus::Running);
    assert_eq!(w.id(), &id);
}

#[test]
fn running_complete_succeeded() {
    let mut w = work();
    w.start().unwrap();
    w.complete(&outcome(OutcomeKind::Succeeded)).unwrap();
    assert_eq!(w.status(), WorkStatus::Succeeded);
}

#[test]
fn timeout_completes_to_failed() {
    let mut w = work();
    w.start().unwrap();
    w.complete(&outcome(OutcomeKind::TimedOut)).unwrap();
    assert_eq!(w.status(), WorkStatus::Failed);
}

#[test]
fn illegal_transition_is_a_domain_error() {
    let mut w = work();
    let err = w.complete(&outcome(OutcomeKind::Succeeded)).unwrap_err();
    assert!(matches!(
        err,
        DomainError::IllegalTransition {
            from: WorkStatus::Ready,
            via: "complete",
            ..
        }
    ));
    assert_eq!(w.status(), WorkStatus::Ready);
}

#[test]
fn succeeded_cannot_start() {
    let mut w = work();
    w.start().unwrap();
    w.complete(&outcome(OutcomeKind::Succeeded)).unwrap();
    assert!(matches!(
        w.start(),
        Err(DomainError::IllegalTransition {
            from: WorkStatus::Succeeded,
            via: "start",
            ..
        })
    ));
}

#[test]
fn complete_is_idempotent_for_the_same_terminal() {
    let mut w = work();
    w.start().unwrap();
    w.complete(&outcome(OutcomeKind::Succeeded)).unwrap();
    assert_eq!(
        w.complete(&outcome(OutcomeKind::Succeeded)).unwrap(),
        Apply::Idempotent {
            status: WorkStatus::Succeeded,
        }
    );
    assert_eq!(w.status(), WorkStatus::Succeeded);
}

#[test]
fn complete_conflict_when_terminal_kind_differs() {
    let mut w = work();
    w.start().unwrap();
    w.complete(&outcome(OutcomeKind::Succeeded)).unwrap();
    assert!(matches!(
        w.complete(&outcome(OutcomeKind::Failed)),
        Err(DomainError::TerminalConflict(WorkStatus::Succeeded))
    ));
}

#[test]
fn park_from_ready_is_illegal() {
    let mut w = work();
    assert!(matches!(
        w.park(),
        Err(DomainError::IllegalTransition {
            from: WorkStatus::Ready,
            via: "park",
            ..
        })
    ));
}

#[test]
fn park_is_idempotent() {
    let mut w = work();
    w.start().unwrap();
    w.park().unwrap();
    assert_eq!(
        w.park().unwrap(),
        Apply::Idempotent {
            status: WorkStatus::Parked,
        }
    );
}

#[test]
fn parked_complete_is_recovery_without_a_second_start() {
    let mut w = work();
    w.start().unwrap();
    w.park().unwrap();
    w.complete(&outcome(OutcomeKind::Succeeded)).unwrap();
    assert_eq!(w.status(), WorkStatus::Succeeded);
}

#[test]
fn running_start_is_not_idempotent() {
    let mut w = work();
    w.start().unwrap();
    assert!(matches!(
        w.start(),
        Err(DomainError::IllegalTransition {
            from: WorkStatus::Running,
            via: "start",
            ..
        })
    ));
}

#[test]
fn bind_workspace_is_allowed_before_and_during_run() {
    let mut w = work();
    w.bind_workspace("/ws").unwrap();
    w.start().unwrap();
    w.bind_workspace("/ws").unwrap();
    w.park().unwrap();
    w.bind_workspace("/ws").unwrap();
}

#[test]
fn bind_workspace_is_rejected_when_terminal() {
    let mut w = work();
    w.start().unwrap();
    w.complete(&outcome(OutcomeKind::Succeeded)).unwrap();
    assert!(matches!(
        w.bind_workspace("/ws"),
        Err(DomainError::CannotBindWorkspace(WorkStatus::Succeeded))
    ));
}

#[test]
fn failed_operations_leave_the_work_unchanged() {
    let mut w = work();
    let before = w.clone();
    assert!(w.park().is_err());
    assert!(w.complete(&outcome(OutcomeKind::Failed)).is_err());
    assert_eq!(w, before);
    w.start().unwrap();
    let running = w.clone();
    assert!(w.start().is_err());
    assert_eq!(w, running);
}

#[test]
fn attributes_validate_optional_context() {
    let scoped = WorkAttributes::scoped(
        "goal",
        "stub",
        ProjectId::parse("project-a").unwrap(),
        Some("repo:project-a".to_owned()),
        Some("operator-a".to_owned()),
    )
    .unwrap();
    assert_eq!(scoped.project_id().as_str(), "project-a");
    assert_eq!(scoped.repository(), Some("repo:project-a"));
    assert_eq!(scoped.notification_target(), Some("operator-a"));
    for bad in ["   ", "line\nbreak", &"x".repeat(513)] {
        assert_eq!(
            WorkAttributes::scoped(
                "goal",
                "stub",
                ProjectId::default_project(),
                Some(bad.to_owned()),
                None,
            ),
            Err(DomainError::InvalidAttributes)
        );
    }
    assert_eq!(
        WorkAttributes::new("", "stub"),
        Err(DomainError::InvalidAttributes)
    );
    let plain = WorkAttributes::new("goal", "stub").unwrap();
    assert_eq!(plain.project_id().as_str(), "default");
    assert_eq!(plain.repository(), None);
}

// ---- events and replay ----

fn sample() -> Work {
    Work::new(
        WorkId::parse("work-1").unwrap(),
        WorkAttributes::new("do the thing", "stub").unwrap(),
        10,
    )
    .unwrap()
}

#[test]
fn replay_reconstructs_parked_then_succeeded() {
    let mut work = sample();
    let created = WorkEvent::created(&work);
    let from_ready = work.status();
    work.start().unwrap();
    work.bind_workspace("/tmp/w").unwrap();
    let started = WorkEvent::started(&work, from_ready, 11);
    let from_running = work.status();
    work.park().unwrap();
    let parked = WorkEvent::parked(&work, from_running, 12);
    let from_parked = work.status();
    work.start().unwrap();
    let started_again = WorkEvent::started(&work, from_parked, 13);
    let outcome = Outcome::new(1, OutcomeKind::Succeeded, "stub").unwrap();
    let from_running = work.status();
    work.complete(&outcome).unwrap();
    let completed = WorkEvent::completed(&work, from_running, OutcomeKind::Succeeded, 14);

    let replayed = replay(&[created, started, parked, started_again, completed]).unwrap();
    assert_eq!(replayed.status(), WorkStatus::Succeeded);
    assert_eq!(replayed.workspace_root(), Some("/tmp/w"));
    assert_eq!(replayed.id().as_str(), "work-1");
}

#[test]
fn replay_complete_from_parked_skips_a_second_start() {
    let mut work = sample();
    let created = WorkEvent::created(&work);
    let from_ready = work.status();
    work.start().unwrap();
    work.bind_workspace("/tmp/w").unwrap();
    let started = WorkEvent::started(&work, from_ready, 11);
    let from_running = work.status();
    work.park().unwrap();
    let parked = WorkEvent::parked(&work, from_running, 12);
    let outcome = Outcome::new(1, OutcomeKind::Succeeded, "stub").unwrap();
    let from_parked = work.status();
    work.complete(&outcome).unwrap();
    let completed = WorkEvent::completed(&work, from_parked, OutcomeKind::Succeeded, 13);

    let replayed = replay(&[created, started, parked, completed]).unwrap();
    assert_eq!(replayed.status(), WorkStatus::Succeeded);
    assert_eq!(replayed.workspace_root(), Some("/tmp/w"));
}

#[test]
fn non_created_events_store_occurrence_time() {
    let mut work = sample();
    work.start().unwrap();
    let started = WorkEvent::started(&work, WorkStatus::Ready, 99);
    assert_eq!(started.created_at_unix_ms(), 99);
    assert_eq!(WorkEvent::created(&work).created_at_unix_ms(), 10);
}

#[test]
fn replay_rejects_malformed_logs() {
    assert_eq!(replay(&[]), Err(DomainError::EmptyReplay));
    let mut work = sample();
    let created = WorkEvent::created(&work);
    work.start().unwrap();
    let started = WorkEvent::started(&work, WorkStatus::Ready, 11);
    assert_eq!(replay(&[started.clone()]), Err(DomainError::EmptyReplay));
    assert_eq!(
        replay(&[created.clone(), created.clone()]),
        Err(DomainError::InvalidAttributes)
    );
    assert!(matches!(
        replay(&[created.clone(), started.clone(), started]),
        Err(DomainError::IllegalTransition {
            from: WorkStatus::Running,
            via: "start",
            ..
        })
    ));
    let other = Work::new(
        WorkId::parse("work-2").unwrap(),
        WorkAttributes::new("other", "stub").unwrap(),
        10,
    )
    .unwrap();
    let mut other_running = other.clone();
    other_running.start().unwrap();
    let foreign = WorkEvent::started(&other_running, WorkStatus::Ready, 12);
    assert_eq!(replay(&[created, foreign]), Err(DomainError::InvalidWorkId));
}

#[test]
fn restored_events_check_the_schema_version() {
    let event = WorkEvent::restore(
        2,
        WorkId::parse("work-1").unwrap(),
        EventKind::Parked,
        Some(WorkStatus::Running),
        WorkStatus::Parked,
        None,
        None,
        None,
        5,
    );
    assert_eq!(event, Err(DomainError::UnsupportedSchemaVersion(2)));
}

// ---- execution snapshots ----

const CONFIG_DIGEST: &str =
    "sha256:1111111111111111111111111111111111111111111111111111111111111111";
const RUNTIME_DIGEST: &str =
    "sha256:2222222222222222222222222222222222222222222222222222222222222222";

fn spec() -> ExecutionSpec {
    ExecutionSpec::new(
        EXECUTION_SPEC_SCHEMA_VERSION,
        WorkId::parse("work-1").unwrap(),
        "stub",
        ContentDigest::parse(CONFIG_DIGEST).unwrap(),
        ContentDigest::parse(RUNTIME_DIGEST).unwrap(),
        5_000,
        2,
        ChannelPolicy::RetryThenFail,
        vec![
            SecretRef::new(
                "TOKEN",
                SecretSource::environment_variable("TOKEN").unwrap(),
            )
            .unwrap(),
        ],
    )
    .unwrap()
}

#[test]
fn spec_exposes_the_immutable_execution_snapshot() {
    let spec = spec();
    assert_eq!(spec.work_id().as_str(), "work-1");
    assert_eq!(spec.worker_profile(), "stub");
    assert_eq!(spec.worker_config_digest().as_str(), CONFIG_DIGEST);
    assert_eq!(spec.runtime_digest().as_str(), RUNTIME_DIGEST);
    assert_eq!(spec.wall_clock_budget_ms(), 5_000);
    assert_eq!(spec.retry_limit(), 2);
    assert_eq!(spec.channel_policy(), ChannelPolicy::RetryThenFail);
    assert_eq!(spec.secret_refs()[0].source().reference(), "TOKEN");
}

#[test]
fn duplicate_secret_mount_names_are_rejected() {
    let err = ExecutionSpec::new(
        EXECUTION_SPEC_SCHEMA_VERSION,
        WorkId::parse("work-1").unwrap(),
        "stub",
        ContentDigest::parse(CONFIG_DIGEST).unwrap(),
        ContentDigest::parse(RUNTIME_DIGEST).unwrap(),
        5_000,
        0,
        ChannelPolicy::Fail,
        vec![
            SecretRef::new(
                "TOKEN",
                SecretSource::environment_variable("FIRST").unwrap(),
            )
            .unwrap(),
            SecretRef::new(
                "TOKEN",
                SecretSource::environment_variable("SECOND").unwrap(),
            )
            .unwrap(),
        ],
    )
    .unwrap_err();
    assert_eq!(err, DomainError::InvalidExecutionSpec);
}

#[test]
fn spec_rejects_a_zero_budget_and_a_foreign_schema() {
    let build = |version: u32, budget: u64| {
        ExecutionSpec::new(
            version,
            WorkId::parse("work-1").unwrap(),
            "stub",
            ContentDigest::parse(CONFIG_DIGEST).unwrap(),
            ContentDigest::parse(RUNTIME_DIGEST).unwrap(),
            budget,
            0,
            ChannelPolicy::Fail,
            Vec::new(),
        )
    };
    assert_eq!(build(1, 0), Err(DomainError::InvalidExecutionSpec));
    assert_eq!(build(3, 10), Err(DomainError::UnsupportedSchemaVersion(3)));
    assert!(build(1, 1).is_ok());
}

#[test]
fn secret_source_accepts_a_reference_name_not_an_inline_value() {
    assert!(SecretSource::environment_variable("MODEL_TOKEN").is_ok());
    assert_eq!(
        SecretSource::environment_variable("token value with spaces"),
        Err(DomainError::InvalidExecutionSpec)
    );
}

#[test]
fn digest_rejects_unversioned_or_malformed_content() {
    assert!(ContentDigest::parse(CONFIG_DIGEST).is_ok());
    assert_eq!(
        ContentDigest::parse("worker-config"),
        Err(DomainError::InvalidExecutionSpec)
    );
    assert_eq!(
        ContentDigest::parse("sha256:ABC"),
        Err(DomainError::InvalidExecutionSpec)
    );
}

#[test]
fn confirmed_outcome_binds_work_execution_and_attempt() {
    let spec = spec();
    let confirmed = ConfirmedOutcome::new(
        CONFIRMED_OUTCOME_SCHEMA_VERSION,
        ExecutionId::parse("execution-1").unwrap(),
        AttemptId::parse("attempt-1").unwrap(),
        &spec,
        Outcome::new(OUTCOME_SCHEMA_VERSION, OutcomeKind::Succeeded, "stub").unwrap(),
        42,
    )
    .unwrap();
    assert_eq!(confirmed.schema_version(), CONFIRMED_OUTCOME_SCHEMA_VERSION);
    assert_eq!(confirmed.work_id(), spec.work_id());
    assert_eq!(confirmed.execution_id().as_str(), "execution-1");
    assert_eq!(confirmed.attempt_id().as_str(), "attempt-1");
    assert_eq!(confirmed.outcome().kind(), OutcomeKind::Succeeded);
    assert_eq!(confirmed.confirmed_at_unix_ms(), 42);
}

#[test]
fn confirmed_outcome_rejects_a_foreign_profile() {
    let err = ConfirmedOutcome::new(
        CONFIRMED_OUTCOME_SCHEMA_VERSION,
        ExecutionId::parse("execution-1").unwrap(),
        AttemptId::parse("attempt-1").unwrap(),
        &spec(),
        Outcome::new(OUTCOME_SCHEMA_VERSION, OutcomeKind::Succeeded, "foreign").unwrap(),
        42,
    )
    .unwrap_err();
    assert_eq!(err, DomainError::InvalidConfirmedOutcome);
}

#[test]
fn confirmed_outcome_rejects_an_unknown_schema_version() {
    let err = ConfirmedOutcome::new(
        99,
        ExecutionId::parse("execution-1").unwrap(),
        AttemptId::parse("attempt-1").unwrap(),
        &spec(),
        Outcome::new(OUTCOME_SCHEMA_VERSION, OutcomeKind::Succeeded, "stub").unwrap(),
        42,
    )
    .unwrap_err();
    assert_eq!(err, DomainError::UnsupportedSchemaVersion(99));
}

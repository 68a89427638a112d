//! The store keeps records, checks what they refer to, and numbers events.
use atelia_core::domain::{
    Actor, AuditRecord, EventRefs, EventSeverity, EventSubject, EventSubjectType, JobEvent,
    JobEventKind, JobKind, JobRecord, JobStatus, LedgerTimestamp, LockDecision, LockOwner,
    LockedScope, PolicyDecision, PolicyOutcome, RepositoryRecord, RepositoryTrustState,
    ResourceScope, RiskTier, StructuredValue, ToolInvocation, ToolResult, ToolResultField,
    ToolResultStatus,
};
use atelia_core::ids::{
    AuditRecordId, JobEventId, JobId, PolicyDecisionId, RepositoryId, ToolInvocationId,
    ToolResultId,
};
use atelia_core::store::{
    EventCursor, EventQuery, InMemoryStore, JobQuery, SecretaryStore, StoreError,
};

fn timestamp(value: i64) -> LedgerTimestamp {
    LedgerTimestamp::from_unix_millis(value)
}

fn actor() -> Actor {
    Actor::System {
        id: "store-test".to_string(),
    }
}

fn repository_record() -> RepositoryRecord {
    RepositoryRecord::new(
        "store test repository".to_string(),
        "/tmp/atelia-store-test".to_string(),
        RepositoryTrustState::Trusted,
        timestamp(1),
    )
}

fn job_record(repository_id: RepositoryId) -> JobRecord {
    JobRecord::new(
        actor(),
        repository_id,
        JobKind::Read,
        "store test job".to_string(),
        timestamp(2),
    )
}

fn job_event(repository_id: RepositoryId) -> JobEvent {
    JobEvent {
        id: JobEventId::new(),
        schema_version: 1,
        sequence_number: 0,
        created_at: timestamp(3),
        subject: EventSubject::repository(&repository_id),
        kind: JobEventKind::Message,
        severity: EventSeverity::Info,
        public_message: "store test event".to_string(),
        refs: EventRefs {
            repository_id: Some(repository_id),
            ..EventRefs::default()
        },
        redactions: Vec::new(),
    }
}

fn initial_job_event(repository_id: RepositoryId, job_id: &JobId) -> JobEvent {
    let mut event = job_event(repository_id);
    event.subject = EventSubject::job(job_id);
    event.refs.job_id = Some(job_id.clone());
    event.kind = JobEventKind::JobSubmitted;
    event
}

fn persist_job(store: &mut InMemoryStore, job: JobRecord) -> JobRecord {
    let event = initial_job_event(job.repository_id.clone(), &job.id);
    store
        .create_job_with_initial_event(job.clone(), event.clone())
        .unwrap();

    let mut stored_job = job;
    stored_job.latest_event_id = Some(event.id);
    stored_job
}

fn policy_decision(repository_id: RepositoryId) -> PolicyDecision {
    PolicyDecision {
        id: PolicyDecisionId::new(),
        schema_version: 1,
        created_at: timestamp(4),
        requester: actor(),
        repository_id,
        requested_capability: "filesystem.read".to_string(),
        resource_scope: ResourceScope {
            kind: "repository".to_string(),
            value: "store-test".to_string(),
        },
        tool_id: None,
        provider_id: None,
        declared_effect: "read repository metadata".to_string(),
        current_trust_state: RepositoryTrustState::Trusted,
        approval_available: false,
        policy_version: "test-policy-v1".to_string(),
        outcome: PolicyOutcome::Allowed,
        risk_tier: RiskTier::R1,
        reason_code: "test_allowed".to_string(),
        user_reason: "test policy decision".to_string(),
        approval_request_ref: None,
        audit_ref: None,
        redactions: Vec::new(),
    }
}

fn lock_decision(
    repository_id: RepositoryId,
    policy_decision_id: PolicyDecisionId,
) -> LockDecision {
    LockDecision::new(
        repository_id,
        policy_decision_id,
        LockOwner::System {
            id: "store-test".to_string(),
        },
        LockedScope::Repository,
        timestamp(5),
        timestamp(6),
    )
    .unwrap()
}

fn tool_invocation(
    repository_id: RepositoryId,
    job_id: JobId,
    policy_decision_id: PolicyDecisionId,
) -> ToolInvocation {
    ToolInvocation {
        id: ToolInvocationId::new(),
        schema_version: 1,
        created_at: timestamp(7),
        job_id,
        repository_id,
        policy_decision_id,
        actor: actor(),
        tool_id: "fs.search".to_string(),
        requested_capability: "filesystem.search".to_string(),
        args_summary: "search docs".to_string(),
        resolved_paths: Vec::new(),
        timeout_millis: Some(1000),
        redactions: Vec::new(),
    }
}

fn tool_result(invocation_id: ToolInvocationId) -> ToolResult {
    ToolResult {
        id: ToolResultId::new(),
        schema_version: 1,
        created_at: timestamp(8),
        invocation_id,
        tool_id: "fs.search".to_string(),
        status: ToolResultStatus::Succeeded,
        schema_ref: Some("tool_result.v1".to_string()),
        fields: vec![ToolResultField {
            key: "summary".to_string(),
            value: StructuredValue::String("ok".to_string()),
        }],
        evidence_refs: Vec::new(),
        output_refs: Vec::new(),
        truncation: None,
        redactions: Vec::new(),
    }
}

fn audit_record(
    repository_id: RepositoryId,
    policy_decision_id: PolicyDecisionId,
    tool_invocation_id: Option<ToolInvocationId>,
) -> AuditRecord {
    AuditRecord {
        id: AuditRecordId::new(),
        schema_version: 1,
        created_at: timestamp(9),
        actor: actor(),
        repository_id,
        requested_capability: "filesystem.search".to_string(),
        policy_decision_id,
        tool_invocation_id,
        effect_summary: "searched docs".to_string(),
        output_refs: Vec::new(),
        redactions: Vec::new(),
    }
}

#[test]
fn create_list_get_repository_records() {
    let mut store = InMemoryStore::new();
    let repository = repository_record();

    store.create_repository(repository.clone()).unwrap();

    assert_eq!(store.get_repository(&repository.id).unwrap(), repository);
    assert_eq!(store.list_repositories().unwrap().len(), 1);
}

#[test]
fn create_list_get_jobs() {
    let mut store = InMemoryStore::new();
    let repository = repository_record();
    let job = job_record(repository.id.clone());

    store.create_repository(repository).unwrap();
    let job = persist_job(&mut store, job);

    assert_eq!(store.get_job(&job.id).unwrap(), job);
    assert_eq!(store.list_jobs().unwrap().len(), 1);
}

#[test]
fn append_events_assigns_monotonic_sequences() {
    let mut store = InMemoryStore::new();
    let repository = repository_record();

    store.create_repository(repository.clone()).unwrap();

    let first = store
        .append_job_event(job_event(repository.id.clone()))
        .unwrap();
    let second = store.append_job_event(job_event(repository.id)).unwrap();

    assert_eq!(first.sequence_number, 1);
    assert_eq!(second.sequence_number, 2);
    assert_eq!(store.get_job_event(&first.id).unwrap(), first);
}

#[test]
fn append_event_reports_sequence_overflow() {
    let mut store = InMemoryStore::numbering_after(u64::MAX);
    let repository = repository_record();

    store.create_repository(repository.clone()).unwrap();

    assert_eq!(
        Err(StoreError::SequenceOverflow),
        store.append_job_event(job_event(repository.id))
    );
}

#[test]
fn replay_from_cursor_returns_events_after_cursor() {
    let mut store = InMemoryStore::new();
    let repository = repository_record();

    store.create_repository(repository.clone()).unwrap();

    let first = store
        .append_job_event(job_event(repository.id.clone()))
        .unwrap();
    let second = store
        .append_job_event(job_event(repository.id.clone()))
        .unwrap();
    let third = store.append_job_event(job_event(repository.id)).unwrap();

    assert_eq!(
        store
            .replay_job_events(EventCursor::AfterSequence(first.sequence_number), None)
            .unwrap(),
        vec![second.clone(), third.clone()]
    );
    assert_eq!(
        store
            .replay_job_events(EventCursor::AfterEventId(second.id), Some(1))
            .unwrap(),
        vec![third]
    );
}

#[test]
fn replay_after_max_sequence_returns_empty_events() {
    let mut store = InMemoryStore::new();
    let repository = repository_record();

    store.create_repository(repository.clone()).unwrap();

    store.append_job_event(job_event(repository.id)).unwrap();

    assert_eq!(
        store
            .replay_job_events(EventCursor::AfterSequence(u64::MAX), None)
            .unwrap(),
        Vec::<JobEvent>::new()
    );
}

#[test]
fn query_jobs_filters_and_paginates_without_full_scan_contract() {
    let mut store = InMemoryStore::new();
    let first_repository = repository_record();
    let second_repository = repository_record();
    let first_job = job_record(first_repository.id.clone());
    let second_job = job_record(second_repository.id.clone());

    store.create_repository(first_repository.clone()).unwrap();
    store.create_repository(second_repository).unwrap();
    let first_job = persist_job(&mut store, first_job);
    persist_job(&mut store, second_job);

    let page = store
        .query_jobs(JobQuery {
            repository_id: Some(first_repository.id),
            status: Some(JobStatus::Queued),
            page_size: Some(1),
            page_token: None,
            requester: None,
        })
        .unwrap();

    assert_eq!(page.jobs, vec![first_job]);
    assert_eq!(page.next_page_token, None);
}

#[test]
fn query_jobs_uses_stable_order_and_zero_size_does_not_loop() {
    let mut store = InMemoryStore::new();
    let repository = repository_record();
    let first_job = job_record(repository.id.clone());
    let second_job = job_record(repository.id.clone());

    store.create_repository(repository.clone()).unwrap();
    let second_job = persist_job(&mut store, second_job);
    let first_job = persist_job(&mut store, first_job);

    let page = store
        .query_jobs(JobQuery {
            repository_id: Some(repository.id.clone()),
            page_size: Some(10),
            ..JobQuery::default()
        })
        .unwrap();
    let mut expected = vec![first_job, second_job];
    expected.sort_by(|left, right| left.id.cmp(&right.id));

    assert_eq!(page.jobs, expected);

    let empty_page = store
        .query_jobs(JobQuery {
            repository_id: Some(repository.id),
            page_size: Some(0),
            ..JobQuery::default()
        })
        .unwrap();

    assert!(empty_page.jobs.is_empty());
    assert_eq!(empty_page.next_page_token, None);
}

#[test]
fn query_job_events_filters_by_repository_subject_and_severity() {
    let mut store = InMemoryStore::new();
    let first_repository = repository_record();
    let second_repository = repository_record();
    let mut first_event = job_event(first_repository.id.clone());
    let second_event = job_event(second_repository.id.clone());
    first_event.severity = EventSeverity::Warning;

    store.create_repository(first_repository.clone()).unwrap();
    store.create_repository(second_repository).unwrap();
    let first_event = store.append_job_event(first_event).unwrap();
    store.append_job_event(second_event).unwrap();

    let page = store
        .query_job_events(EventQuery {
            repository_id: Some(first_repository.id),
            cursor: EventCursor::Beginning,
            subject_ids: vec![first_event.subject.subject_id.clone()],
            min_severity: Some(EventSeverity::Warning),
            page_size: Some(1),
            page_token: None,
        })
        .unwrap();

    assert_eq!(page.events, vec![first_event]);
    assert_eq!(page.next_page_token, None);
}

#[test]
fn query_job_events_infers_repository_from_subject_when_ref_is_omitted() {
    let mut store = InMemoryStore::new();
    let repository = repository_record();
    let job = job_record(repository.id.clone());

    store.create_repository(repository.clone()).unwrap();
    let job = persist_job(&mut store, job);

    let mut event = job_event(repository.id.clone());
    event.subject = EventSubject::job(&job.id);
    event.refs.repository_id = None;
    event.refs.job_id = None;
    let event = store.append_job_event(event).unwrap();

    let page = store
        .query_job_events(EventQuery {
            repository_id: Some(repository.id),
            cursor: EventCursor::Beginning,
            page_size: Some(10),
            ..EventQuery::default()
        })
        .unwrap();

    assert!(page.events.contains(&event));
}

#[test]
fn query_job_events_zero_size_does_not_loop() {
    let mut store = InMemoryStore::new();
    let repository = repository_record();

    store.create_repository(repository.clone()).unwrap();
    store
        .append_job_event(job_event(repository.id.clone()))
        .unwrap();

    let page = store
        .query_job_events(EventQuery {
            repository_id: Some(repository.id),
            page_size: Some(0),
            ..EventQuery::default()
        })
        .unwrap();

    assert!(page.events.is_empty());
    assert_eq!(page.next_page_token, None);
}

#[test]
fn duplicate_ids_are_rejected() {
    let mut store = InMemoryStore::new();
    let repository = repository_record();

    store.create_repository(repository.clone()).unwrap();

    assert!(matches!(
        store.create_repository(repository),
        Err(StoreError::DuplicateId {
            collection: "repositories",
            ..
        })
    ));
}

#[test]
fn duplicate_event_ids_are_rejected() {
    let mut store = InMemoryStore::new();
    let repository = repository_record();
    let event = job_event(repository.id.clone());

    store.create_repository(repository).unwrap();

    store.append_job_event(event.clone()).unwrap();

    assert!(matches!(
        store.append_job_event(event),
        Err(StoreError::DuplicateId {
            collection: "job_events",
            ..
        })
    ));
}

#[test]
fn create_job_with_initial_event_persists_atomically() {
    let mut store = InMemoryStore::new();
    let repository = repository_record();
    let job = job_record(repository.id.clone());
    let mut event = job_event(repository.id.clone());
    event.subject = EventSubject::job(&job.id);
    event.refs.job_id = Some(job.id.clone());

    assert!(matches!(
        store.create_job_with_initial_event(job.clone(), event.clone()),
        Err(StoreError::NotFound {
            collection: "repositories",
            ..
        })
    ));
    assert!(matches!(
        store.get_job(&job.id),
        Err(StoreError::NotFound { .. })
    ));

    store.create_repository(repository).unwrap();
    let stored_event = store
        .create_job_with_initial_event(job.clone(), event.clone())
        .unwrap();
    let mut stored_job = job;
    stored_job.latest_event_id = Some(event.id.clone());

    assert_eq!(store.get_job(&stored_job.id).unwrap(), stored_job);
    assert_eq!(stored_event.sequence_number, 1);
    assert_eq!(store.get_job_event(&event.id).unwrap(), stored_event);
}

#[test]
fn create_job_with_initial_event_rejects_events_for_other_subjects() {
    let mut store = InMemoryStore::new();
    let repository = repository_record();
    let job = job_record(repository.id.clone());
    let event = job_event(repository.id.clone());

    store.create_repository(repository).unwrap();

    assert!(matches!(
        store.create_job_with_initial_event(job.clone(), event),
        Err(StoreError::InvalidReference {
            collection: "job_events",
            ..
        })
    ));
    assert!(matches!(
        store.get_job(&job.id),
        Err(StoreError::NotFound { .. })
    ));
}

#[test]
fn job_events_reject_invalid_subjects_and_missing_refs() {
    let mut store = InMemoryStore::new();
    let repository = repository_record();
    let mut event = job_event(repository.id.clone());
    event.subject = EventSubject {
        subject_type: EventSubjectType::Job,
        subject_id: repository.id.as_str().to_string(),
    };

    store.create_repository(repository.clone()).unwrap();

    assert!(matches!(
        store.append_job_event(event),
        Err(StoreError::InvalidReference {
            collection: "job_events",
            ..
        })
    ));

    let mut event = job_event(repository.id);
    event.refs.policy_decision_id = Some(PolicyDecisionId::new());

    assert!(matches!(
        store.append_job_event(event),
        Err(StoreError::NotFound {
            collection: "policy_decisions",
            ..
        })
    ));
}

#[test]
fn job_events_reject_cross_repository_refs() {
    let mut store = InMemoryStore::new();
    let first_repository = repository_record();
    let second_repository = repository_record();
    let second_job = job_record(second_repository.id.clone());
    let mut event = job_event(first_repository.id.clone());
    event.refs.job_id = Some(second_job.id.clone());
    let mut event_without_repository_ref = event.clone();
    event_without_repository_ref.id = JobEventId::new();
    event_without_repository_ref.refs.repository_id = None;

    store.create_repository(first_repository).unwrap();
    store.create_repository(second_repository).unwrap();
    persist_job(&mut store, second_job);

    assert!(matches!(
        store.append_job_event(event),
        Err(StoreError::InvalidReference {
            collection: "job_events",
            ..
        })
    ));
    assert!(matches!(
        store.append_job_event(event_without_repository_ref),
        Err(StoreError::InvalidReference {
            collection: "job_events",
            ..
        })
    ));
}

#[test]
fn lock_decisions_are_persisted() {
    let mut store = InMemoryStore::new();
    let repository = repository_record();
    let policy = policy_decision(repository.id.clone());
    let lock = lock_decision(repository.id.clone(), policy.id.clone());

    store.create_repository(repository).unwrap();
    store.create_policy_decision(policy).unwrap();
    store.create_lock_decision(lock.clone()).unwrap();

    assert_eq!(store.get_lock_decision(&lock.id).unwrap(), lock);
    assert_eq!(store.list_lock_decisions().unwrap().len(), 1);
}

#[test]
fn lock_decisions_require_existing_repository_and_policy_decision() {
    let mut store = InMemoryStore::new();
    let repository = repository_record();
    let policy = policy_decision(repository.id.clone());
    let lock = lock_decision(repository.id.clone(), policy.id.clone());

    assert!(matches!(
        store.create_lock_decision(lock.clone()),
        Err(StoreError::NotFound {
            collection: "repositories",
            ..
        })
    ));

    store.create_repository(repository).unwrap();

    assert!(matches!(
        store.create_lock_decision(lock.clone()),
        Err(StoreError::NotFound {
            collection: "policy_decisions",
            ..
        })
    ));

    store.create_policy_decision(policy).unwrap();
    store.create_lock_decision(lock).unwrap();
}

#[test]
fn lock_decisions_reject_cross_repository_policy_decisions() {
    let mut store = InMemoryStore::new();
    let first_repository = repository_record();
    let second_repository = repository_record();
    let policy = policy_decision(second_repository.id.clone());
    let lock = lock_decision(first_repository.id.clone(), policy.id.clone());

    store.create_repository(first_repository).unwrap();
    store.create_repository(second_repository).unwrap();
    store.create_policy_decision(policy).unwrap();

    assert!(matches!(
        store.create_lock_decision(lock),
        Err(StoreError::InvalidReference {
            collection: "lock_decisions",
            ..
        })
    ));
}

#[test]
fn policy_decisions_require_existing_repository() {
    let mut store = InMemoryStore::new();
    let repository = repository_record();
    let policy = policy_decision(repository.id.clone());

    assert!(matches!(
        store.create_policy_decision(policy.clone()),
        Err(StoreError::NotFound {
            collection: "repositories",
            ..
        })
    ));

    store.create_repository(repository).unwrap();
    store.create_policy_decision(policy).unwrap();
}

#[test]
fn lock_decisions_reject_missing_or_cross_repository_job_owner() {
    let mut store = InMemoryStore::new();
    let first_repository = repository_record();
    let second_repository = repository_record();
    let first_policy = policy_decision(first_repository.id.clone());
    let second_job = job_record(second_repository.id.clone());
    let mut missing_owner_lock =
        lock_decision(first_repository.id.clone(), first_policy.id.clone());
    missing_owner_lock.owner = LockOwner::Job(JobId::new());
    let mut cross_owner_lock =
        lock_decision(first_repository.id.clone(), first_policy.id.clone());
    cross_owner_lock.owner = LockOwner::Job(second_job.id.clone());

    store.create_repository(first_repository).unwrap();
    store.create_repository(second_repository).unwrap();
    store.create_policy_decision(first_policy).unwrap();

    assert!(matches!(
        store.create_lock_decision(missing_owner_lock),
        Err(StoreError::NotFound {
            collection: "jobs",
            ..
        })
    ));

    persist_job(&mut store, second_job);

    assert!(matches!(
        store.create_lock_decision(cross_owner_lock),
        Err(StoreError::InvalidReference {
            collection: "lock_decisions",
            ..
        })
    ));
}

#[test]
fn lock_decisions_reject_invalid_timing_even_from_struct_literal() {
    let mut store = InMemoryStore::new();
    let repository = repository_record();
    let policy = policy_decision(repository.id.clone());
    let mut lock = lock_decision(repository.id.clone(), policy.id.clone());
    lock.expires_at = lock.locked_at;

    store.create_repository(repository).unwrap();
    store.create_policy_decision(policy).unwrap();

    assert!(matches!(
        store.create_lock_decision(lock),
        Err(StoreError::InvalidRecord {
            collection: "lock_decisions",
            ..
        })
    ));
}

#[test]
fn tool_records_require_existing_parents() {
    let mut store = InMemoryStore::new();
    let repository = repository_record();
    let job = job_record(repository.id.clone());
    let policy = policy_decision(repository.id.clone());
    let invocation = tool_invocation(repository.id.clone(), job.id.clone(), policy.id.clone());
    let result = tool_result(invocation.id.clone());
    let audit = audit_record(
        repository.id.clone(),
        policy.id.clone(),
        Some(invocation.id.clone()),
    );

    assert!(matches!(
        store.create_tool_invocation(invocation.clone()),
        Err(StoreError::NotFound {
            collection: "jobs",
            ..
        })
    ));

    store.create_repository(repository).unwrap();
    persist_job(&mut store, job);

    assert!(matches!(
        store.create_tool_invocation(invocation.clone()),
        Err(StoreError::NotFound {
            collection: "policy_decisions",
            ..
        })
    ));

    store.create_policy_decision(policy).unwrap();
    store.create_tool_invocation(invocation.clone()).unwrap();
    store.create_tool_result(result.clone()).unwrap();
    store.create_audit_record(audit.clone()).unwrap();

    assert_eq!(store.get_tool_result(&result.id).unwrap(), result);
    assert_eq!(store.get_audit_record(&audit.id).unwrap(), audit);
}

#[test]
fn tool_invocations_reject_cross_repository_parents() {
    let mut store = InMemoryStore::new();
    let first_repository = repository_record();
    let second_repository = repository_record();
    let first_job = job_record(first_repository.id.clone());
    let second_job = job_record(second_repository.id.clone());
    let first_policy = policy_decision(first_repository.id.clone());
    let second_policy = policy_decision(second_repository.id.clone());

    store.create_repository(first_repository.clone()).unwrap();
    store.create_repository(second_repository.clone()).unwrap();
    persist_job(&mut store, first_job.clone());
    persist_job(&mut store, second_job.clone());
    store.create_policy_decision(first_policy.clone()).unwrap();
    store.create_policy_decision(second_policy.clone()).unwrap();

    assert!(matches!(
        store.create_tool_invocation(tool_invocation(
            first_repository.id.clone(),
            second_job.id,
            first_policy.id.clone()
        )),
        Err(StoreError::InvalidReference {
            collection: "tool_invocations",
            ..
        })
    ));
    assert!(matches!(
        store.create_tool_invocation(tool_invocation(
            first_repository.id,
            first_job.id,
            second_policy.id
        )),
        Err(StoreError::InvalidReference {
            collection: "tool_invocations",
            ..
        })
    ));
}

#[test]
fn tool_result_and_audit_reject_missing_invocation() {
    let mut store = InMemoryStore::new();
    let repository = repository_record();
    let policy = policy_decision(repository.id.clone());
    let invocation = tool_invocation(repository.id.clone(), JobId::new(), policy.id.clone());

    store.create_repository(repository.clone()).unwrap();
    store.create_policy_decision(policy.clone()).unwrap();

    assert!(matches!(
        store.create_tool_result(tool_result(invocation.id.clone())),
        Err(StoreError::NotFound {
            collection: "tool_invocations",
            ..
        })
    ));
    assert!(matches!(
        store.create_audit_record(audit_record(repository.id, policy.id, Some(invocation.id))),
        Err(StoreError::NotFound {
            collection: "tool_invocations",
            ..
        })
    ));
}

#[test]
fn tool_results_reject_mismatched_tool_id_and_duplicate_invocation() {
    let mut store = InMemoryStore::new();
    let repository = repository_record();
    let job = job_record(repository.id.clone());
    let policy = policy_decision(repository.id.clone());
    let invocation = tool_invocation(repository.id.clone(), job.id.clone(), policy.id.clone());
    let mut mismatched_result = tool_result(invocation.id.clone());
    mismatched_result.tool_id = "fs.write".to_string();

    store.create_repository(repository).unwrap();
    persist_job(&mut store, job);
    store.create_policy_decision(policy).unwrap();
    store.create_tool_invocation(invocation.clone()).unwrap();

    assert!(matches!(
        store.create_tool_result(mismatched_result),
        Err(StoreError::InvalidReference {
            collection: "tool_results",
            ..
        })
    ));

    store
        .create_tool_result(tool_result(invocation.id.clone()))
        .unwrap();

    assert!(matches!(
        store.create_tool_result(tool_result(invocation.id)),
        Err(StoreError::Conflict {
            collection: "tool_results",
            ..
        })
    ));
}

#[test]
fn audit_records_reject_cross_repository_policy_and_invocation() {
    let mut store = InMemoryStore::new();
    let first_repository = repository_record();
    let second_repository = repository_record();
    let first_job = job_record(first_repository.id.clone());
    let second_job = job_record(second_repository.id.clone());
    let first_policy = policy_decision(first_repository.id.clone());
    let second_policy = policy_decision(second_repository.id.clone());
    let second_invocation = tool_invocation(
        second_repository.id.clone(),
        second_job.id.clone(),
        second_policy.id.clone(),
    );

    store.create_repository(first_repository.clone()).unwrap();
    store.create_repository(second_repository.clone()).unwrap();
    persist_job(&mut store, first_job);
    persist_job(&mut store, second_job);
    store.create_policy_decision(first_policy.clone()).unwrap();
    store.create_policy_decision(second_policy.clone()).unwrap();
    store
        .create_tool_invocation(second_invocation.clone())
        .unwrap();

    assert!(matches!(
        store.create_audit_record(audit_record(
            first_repository.id.clone(),
            second_policy.id,
            None
        )),
        Err(StoreError::InvalidReference {
            collection: "audit_records",
            ..
        })
    ));
    assert!(matches!(
        store.create_audit_record(audit_record(
            first_repository.id,
            first_policy.id,
            Some(second_invocation.id)
        )),
        Err(StoreError::InvalidReference {
            collection: "audit_records",
            ..
        })
    ));
}

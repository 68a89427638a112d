//! Identifiers, the lifecycle of jobs, and locks.
use atelia_core::domain::{
    Actor, EventSubject, EventSubjectType, JobKind, JobRecord, JobStatus,
    JobStatusTransitionError, LedgerTimestamp, LockDecision, LockDecisionCreateError, LockOwner,
    LockReclaimError, LockStatus, LockedScope,
};
use atelia_core::ids::{
    ArtifactRefId, AuditRecordId, JobEventId, JobId, LockDecisionId, OutputRefId,
    PolicyDecisionId, RepositoryId, ToolInvocationId, ToolResultId,
};

fn text_round_trip(id: &RepositoryId) -> RepositoryId {
    RepositoryId::try_from_string(id.as_str().to_string()).unwrap()
}

#[test]
fn opaque_ids_have_expected_prefixes_and_round_trip_through_serde() {
    let repo_id = RepositoryId::new();
    let job_id = JobId::new();
    let event_id = JobEventId::new();
    let policy_id = PolicyDecisionId::new();
    let lock_id = LockDecisionId::new();
    let invocation_id = ToolInvocationId::new();
    let result_id = ToolResultId::new();
    let audit_id = AuditRecordId::new();
    let output_id = OutputRefId::new();
    let artifact_id = ArtifactRefId::new();

    assert!(repo_id.has_valid_prefix());
    assert!(job_id.has_valid_prefix());
    assert!(event_id.has_valid_prefix());
    assert!(policy_id.has_valid_prefix());
    assert!(lock_id.has_valid_prefix());
    assert!(invocation_id.has_valid_prefix());
    assert!(result_id.has_valid_prefix());
    assert!(audit_id.has_valid_prefix());
    assert!(output_id.has_valid_prefix());
    assert!(artifact_id.has_valid_prefix());

    assert_eq!(repo_id, text_round_trip(&repo_id));
    assert_eq!(
        job_id,
        JobId::try_from_string(job_id.as_str().to_string()).unwrap()
    );
    assert!(RepositoryId::try_from_string(job_id.as_str().to_string()).is_err());
    assert!(RepositoryId::try_from_string("repo_not-a-uuid".to_string()).is_err());
}

#[test]
fn job_status_transition_rules_match_lifecycle_boundaries() {
    assert!(JobStatus::Queued.can_transition_to(JobStatus::Running));
    assert!(JobStatus::Queued.can_transition_to(JobStatus::Blocked));
    assert!(JobStatus::Running.can_transition_to(JobStatus::Succeeded));
    assert!(JobStatus::Running.can_transition_to(JobStatus::Canceled));

    assert!(!JobStatus::Queued.can_transition_to(JobStatus::Succeeded));
    assert!(!JobStatus::Succeeded.can_transition_to(JobStatus::Running));
    assert!(!JobStatus::Failed.can_transition_to(JobStatus::Canceled));
}

#[test]
fn job_transition_helper_sets_lifecycle_timestamps() {
    let created_at = LedgerTimestamp::from_unix_millis(1000);
    let started_at = LedgerTimestamp::from_unix_millis(2000);
    let completed_at = LedgerTimestamp::from_unix_millis(3000);
    let mut job = JobRecord::new(
        Actor::User {
            id: "user-1".to_owned(),
            display_name: None,
        },
        RepositoryId::new(),
        JobKind::Read,
        "inspect repository".to_owned(),
        created_at,
    );

    job.transition_status(JobStatus::Running, started_at)
        .unwrap();
    job.transition_status(JobStatus::Succeeded, completed_at)
        .unwrap();

    assert_eq!(Some(started_at), job.started_at);
    assert_eq!(Some(completed_at), job.completed_at);
    assert_eq!(JobStatus::Succeeded, job.status);
}

#[test]
fn job_transition_rejects_non_monotonic_timestamp_without_mutating() {
    let created_at = LedgerTimestamp::from_unix_millis(1000);
    let started_at = LedgerTimestamp::from_unix_millis(2000);
    let mut job = JobRecord::new(
        Actor::User {
            id: "user-1".to_owned(),
            display_name: None,
        },
        RepositoryId::new(),
        JobKind::Read,
        "inspect repository".to_owned(),
        created_at,
    );

    job.transition_status(JobStatus::Running, started_at)
        .unwrap();

    assert_eq!(
        Err(JobStatusTransitionError::NonMonotonicTimestamp {
            at: LedgerTimestamp::from_unix_millis(1500),
            latest: started_at,
        }),
        job.transition_status(
            JobStatus::Succeeded,
            LedgerTimestamp::from_unix_millis(1500)
        )
    );
    assert_eq!(JobStatus::Running, job.status);
    assert_eq!(started_at, job.updated_at);
    assert_eq!(None, job.completed_at);
}

#[test]
fn event_subject_constructors_validate_expected_id_prefixes() {
    let repository_id = RepositoryId::new();
    let job_id = JobId::new();

    assert!(EventSubject::repository(&repository_id).has_valid_subject_id());
    assert!(EventSubject::job(&job_id).has_valid_subject_id());
    assert!(!EventSubject {
        subject_type: EventSubjectType::Job,
        subject_id: repository_id.as_str().to_string(),
    }
    .has_valid_subject_id());
}

#[test]
fn lock_decision_rejects_non_positive_duration() {
    let locked_at = LedgerTimestamp::from_unix_millis(1000);

    assert_eq!(
        Err(LockDecisionCreateError::NonPositiveDuration {
            locked_at,
            expires_at: locked_at,
        }),
        LockDecision::new(
            RepositoryId::new(),
            PolicyDecisionId::new(),
            LockOwner::Job(JobId::new()),
            LockedScope::Repository,
            locked_at,
            locked_at,
        )
    );
}

#[test]
fn lock_reclaim_is_idempotent_for_same_owner() {
    let owner = LockOwner::Job(JobId::new());
    let mut lock = LockDecision::new(
        RepositoryId::new(),
        PolicyDecisionId::new(),
        owner.clone(),
        LockedScope::Repository,
        LedgerTimestamp::from_unix_millis(1000),
        LedgerTimestamp::from_unix_millis(2000),
    )
    .unwrap();

    assert_eq!(
        Ok(true),
        lock.reclaim(&owner, LedgerTimestamp::from_unix_millis(3000))
    );
    assert_eq!(
        Ok(false),
        lock.reclaim(&owner, LedgerTimestamp::from_unix_millis(4000))
    );
    assert_eq!(LockStatus::Reclaimed, lock.status);
    assert_eq!(
        Some(LedgerTimestamp::from_unix_millis(3000)),
        lock.reclaimed_at
    );
}

#[test]
fn lock_reclaim_rejects_non_monotonic_timestamp_without_mutating() {
    let owner = LockOwner::Job(JobId::new());
    let mut lock = LockDecision::new(
        RepositoryId::new(),
        PolicyDecisionId::new(),
        owner.clone(),
        LockedScope::Repository,
        LedgerTimestamp::from_unix_millis(1000),
        LedgerTimestamp::from_unix_millis(2000),
    )
    .unwrap();

    assert_eq!(
        Err(LockReclaimError::NonMonotonicTimestamp {
            at: LedgerTimestamp::from_unix_millis(500),
            latest: LedgerTimestamp::from_unix_millis(1000),
        }),
        lock.reclaim(&owner, LedgerTimestamp::from_unix_millis(500))
    );
    assert_eq!(LockStatus::Held, lock.status);
    assert_eq!(LedgerTimestamp::from_unix_millis(1000), lock.updated_at);
    assert_eq!(None, lock.reclaimed_at);
}

#[test]
fn lock_reclaim_rejects_unexpired_lock_without_mutating() {
    let owner = LockOwner::Job(JobId::new());
    let mut lock = LockDecision::new(
        RepositoryId::new(),
        PolicyDecisionId::new(),
        owner.clone(),
        LockedScope::Repository,
        LedgerTimestamp::from_unix_millis(1000),
        LedgerTimestamp::from_unix_millis(3000),
    )
    .unwrap();

    assert_eq!(
        Err(LockReclaimError::NotExpired {
            reclaimed_at: LedgerTimestamp::from_unix_millis(2000),
            expires_at: LedgerTimestamp::from_unix_millis(3000),
        }),
        lock.reclaim(&owner, LedgerTimestamp::from_unix_millis(2000))
    );
    assert_eq!(LockStatus::Held, lock.status);
    assert_eq!(LedgerTimestamp::from_unix_millis(1000), lock.updated_at);
    assert_eq!(None, lock.reclaimed_at);
}

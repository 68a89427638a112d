//! The Secretary ledger as a mathematical object: what a store holds, what each of its
//! operations does, and what every store keeps true.
use vstd::prelude::*;

use crate::domain::{
    AuditRecord, AuditRecordModel, EventRefsModel, EventSeverity, EventSubjectModel,
    EventSubjectType, JobEvent, JobEventModel, JobRecord, JobRecordModel, LockDecision,
    LockDecisionModel, LockOwnerModel, LockStatus, PolicyDecision, PolicyDecisionModel,
    RepositoryRecord, RepositoryRecordModel, ToolInvocation, ToolInvocationModel, ToolResult,
    ToolResultModel,
};
use crate::ids::{
    AuditRecordId, JobEventId, JobId, LockDecisionId, PolicyDecisionId, RepositoryId,
    ToolInvocationId, ToolResultId,
};
use crate::store::{
    EventCursorModel, EventPageModel, EventQueryModel, JobPageModel, JobQueryModel, StoreError,
    StoreErrorModel,
};

verus! {

impl EventSubjectType {
    /// The kind of record as messages name it.
    pub open spec fn name(self) -> Seq<char> {
        match self {
            EventSubjectType::Repository => "Repository"@,
            EventSubjectType::Job => "Job"@,
            EventSubjectType::PolicyDecision => "PolicyDecision"@,
            EventSubjectType::LockDecision => "LockDecision"@,
            EventSubjectType::ToolInvocation => "ToolInvocation"@,
            EventSubjectType::ToolResult => "ToolResult"@,
            EventSubjectType::AuditRecord => "AuditRecord"@,
        }
    }
}

impl EventSeverity {
    pub open spec fn rank(self) -> int {
        match self {
            EventSeverity::Debug => 0,
            EventSeverity::Info => 1,
            EventSeverity::Warning => 2,
            EventSeverity::Error => 3,
        }
    }
}

impl StoreErrorModel {
    /// A record that something refers to is not there.
    pub open spec fn missing(collection: Seq<char>, id: Seq<char>, context: Seq<char>) -> Self {
        StoreErrorModel::NotFound { collection, id: id + " ("@ + context + ")"@ }
    }

    /// A record that something refers to belongs to another repository.
    pub open spec fn foreign(
        collection: Seq<char>,
        context: Seq<char>,
        expected: Seq<char>,
        actual: Seq<char>,
    ) -> Self {
        StoreErrorModel::InvalidReference {
            collection,
            reason: context + " belongs to repository "@ + RepositoryId::debug_form(actual)
                + ", not "@ + RepositoryId::debug_form(expected),
        }
    }
}

/// `expected` and `actual` are one repository, or that they are not is the error.
pub open spec fn same_repository_problem(
    collection: Seq<char>,
    context: Seq<char>,
    expected: Seq<char>,
    actual: Seq<char>,
) -> Option<StoreErrorModel> {
    if actual == expected {
        None
    } else {
        Some(StoreErrorModel::foreign(collection, context, expected, actual))
    }
}

/// One more reference of an event: the repository of the record it leads to, or why it
/// leads nowhere, is held against the repository that the event has shown so far.
pub open spec fn joined(
    so_far: Result<Option<Seq<char>>, StoreErrorModel>,
    reference: Option<Result<Seq<char>, StoreErrorModel>>,
    context: Seq<char>,
) -> Result<Option<Seq<char>>, StoreErrorModel> {
    match so_far {
        Err(error) => Err(error),
        Ok(expected) => match reference {
            None => Ok(expected),
            Some(Err(error)) => Err(error),
            Some(Ok(actual)) => match expected {
                None => Ok(Some(actual)),
                Some(expected) => if expected == actual {
                    Ok(Some(expected))
                } else {
                    Err(StoreErrorModel::foreign("job_events"@, context, expected, actual))
                },
            },
        },
    }
}

/// What the records of a collection are cut into: at most `size` of them from place
/// `start` on, and the token under which the next ones are found.
pub open spec fn page_of<T>(records: Seq<T>, start: int, size: int) -> (Seq<T>, Option<Seq<char>>) {
    if size == 0 || start >= records.len() {
        (Seq::empty(), None)
    } else if start + size >= records.len() {
        (records.skip(start), None)
    } else {
        (
            records.subrange(start, start + size),
            Some(crate::text::decimal((start + size) as nat)),
        )
    }
}

/// The place that a page token stands for.
pub open spec fn page_start_of(token: Option<Seq<char>>, collection: Seq<char>) -> Result<
    int,
    StoreErrorModel,
> {
    match token {
        Some(token) => if token.len() == 0 {
            Ok(0)
        } else {
            match crate::text::number_value(token, usize::MAX as nat) {
                Some(value) => Ok(value as int),
                None => Err(
                    StoreErrorModel::InvalidCursor {
                        reason: collection + " page token is not a numeric offset"@,
                    },
                ),
            }
        },
        None => Ok(0),
    }
}

/// Put a job into its place among jobs that are ordered by identifier.
pub open spec fn placed(jobs: Seq<JobRecordModel>, job: JobRecordModel) -> Seq<JobRecordModel>
    decreases jobs.len(),
{
    if jobs.len() > 0 && crate::text::text_before(job.id, jobs.last().id) {
        placed(jobs.drop_last(), job).push(jobs.last())
    } else {
        jobs.push(job)
    }
}

/// Jobs in the order of their identifiers.
pub open spec fn ordered(jobs: Seq<JobRecordModel>) -> Seq<JobRecordModel>
    decreases jobs.len(),
{
    if jobs.len() == 0 {
        Seq::empty()
    } else {
        placed(ordered(jobs.drop_last()), jobs.last())
    }
}

impl JobQueryModel {
    pub open spec fn selects(self, job: JobRecordModel) -> bool {
        &&& self.repository_id is Some ==> job.repository_id == self.repository_id->0
        &&& self.status is Some ==> job.status == self.status->0
        &&& self.requester is Some ==> job.requester == self.requester->0
    }

    /// The jobs that the query selects, in the order in which they stand.
    pub open spec fn selection(self, jobs: Seq<JobRecordModel>) -> Seq<JobRecordModel>
        decreases jobs.len(),
    {
        if jobs.len() == 0 {
            Seq::empty()
        } else if self.selects(jobs.last()) {
            self.selection(jobs.drop_last()).push(jobs.last())
        } else {
            self.selection(jobs.drop_last())
        }
    }

    pub open spec fn size(self) -> int {
        match self.page_size {
            Some(size) => size as int,
            None => usize::MAX as int,
        }
    }
}

impl EventQueryModel {
    pub open spec fn size(self) -> int {
        match self.page_size {
            Some(size) => size as int,
            None => usize::MAX as int,
        }
    }
}

impl LockDecisionModel {
    /// What is wrong with the points in time that the lock speaks of.
    pub open spec fn timing_problem(self) -> Option<Seq<char>> {
        if self.expires_at.unix_millis <= self.locked_at.unix_millis {
            Some("expires_at must be later than locked_at"@)
        } else if self.created_at != self.locked_at {
            Some("created_at must equal locked_at"@)
        } else if self.updated_at.unix_millis < self.locked_at.unix_millis {
            Some("updated_at must not be earlier than locked_at"@)
        } else if self.released_at is Some && self.reclaimed_at is Some {
            Some("released_at and reclaimed_at are mutually exclusive"@)
        } else {
            match self.status {
                LockStatus::Held | LockStatus::Expired => if self.released_at is Some
                    || self.reclaimed_at is Some {
                    Some("active or expired locks must not have terminal timestamps"@)
                } else {
                    None
                },
                LockStatus::Released => match self.released_at {
                    None => Some("released locks require released_at"@),
                    Some(at) => if at.unix_millis < self.locked_at.unix_millis
                        || self.updated_at.unix_millis < at.unix_millis {
                        Some("released_at must be monotonic with lock timestamps"@)
                    } else {
                        None
                    },
                },
                LockStatus::Reclaimed => match self.reclaimed_at {
                    None => Some("reclaimed locks require reclaimed_at"@),
                    Some(at) => if at.unix_millis < self.expires_at.unix_millis
                        || self.updated_at.unix_millis < at.unix_millis {
                        Some("reclaimed_at must be at or after expires_at and updated_at"@)
                    } else {
                        None
                    },
                },
            }
        }
    }

    /// Both locks are held, on the same scope of the same repository.
    pub open spec fn clashes_with(self, other: LockDecisionModel) -> bool {
        &&& self.status is Held
        &&& other.status is Held
        &&& self.repository_id == other.repository_id
        &&& self.locked_scope == other.locked_scope
    }
}

/// The first of `locks` that clashes with `lock`.
pub open spec fn first_clash(
    locks: Seq<LockDecisionModel>,
    lock: LockDecisionModel,
) -> Option<LockDecisionModel>
    decreases locks.len(),
{
    if locks.len() == 0 {
        None
    } else if locks[0].clashes_with(lock) {
        Some(locks[0])
    } else {
        first_clash(locks.drop_first(), lock)
    }
}

/// What a store holds: its records, each collection in the order of insertion, the
/// events in the order of their sequence numbers, and the last number given out.
#[verifier::ext_equal]
pub struct StoreModel {
    pub repositories: Seq<RepositoryRecordModel>,
    pub jobs: Seq<JobRecordModel>,
    pub events: Seq<JobEventModel>,
    pub last_sequence: u64,
    pub policy_decisions: Seq<PolicyDecisionModel>,
    pub lock_decisions: Seq<LockDecisionModel>,
    pub tool_invocations: Seq<ToolInvocationModel>,
    pub tool_results: Seq<ToolResultModel>,
    pub audit_records: Seq<AuditRecordModel>,
}

impl StoreModel {
    /// A store without records that gives out the number after `last_sequence` first.
    pub open spec fn empty(last_sequence: u64) -> StoreModel {
        StoreModel {
            repositories: Seq::empty(),
            jobs: Seq::empty(),
            events: Seq::empty(),
            last_sequence,
            policy_decisions: Seq::empty(),
            lock_decisions: Seq::empty(),
            tool_invocations: Seq::empty(),
            tool_results: Seq::empty(),
            audit_records: Seq::empty(),
        }
    }

    pub open spec fn repository(self, id: Seq<char>) -> Option<RepositoryRecordModel> {
        crate::table::lookup::<RepositoryRecord>(self.repositories, id)
    }

    pub open spec fn job(self, id: Seq<char>) -> Option<JobRecordModel> {
        crate::table::lookup::<JobRecord>(self.jobs, id)
    }

    pub open spec fn event(self, id: Seq<char>) -> Option<JobEventModel> {
        crate::table::lookup::<JobEvent>(self.events, id)
    }

    pub open spec fn policy_decision(self, id: Seq<char>) -> Option<PolicyDecisionModel> {
        crate::table::lookup::<PolicyDecision>(self.policy_decisions, id)
    }

    pub open spec fn lock_decision(self, id: Seq<char>) -> Option<LockDecisionModel> {
        crate::table::lookup::<LockDecision>(self.lock_decisions, id)
    }

    pub open spec fn tool_invocation(self, id: Seq<char>) -> Option<ToolInvocationModel> {
        crate::table::lookup::<ToolInvocation>(self.tool_invocations, id)
    }

    pub open spec fn tool_result(self, id: Seq<char>) -> Option<ToolResultModel> {
        crate::table::lookup::<ToolResult>(self.tool_results, id)
    }

    pub open spec fn audit_record(self, id: Seq<char>) -> Option<AuditRecordModel> {
        crate::table::lookup::<AuditRecord>(self.audit_records, id)
    }

    /// The job with the given identifier, among the stored ones or as the pending one.
    pub open spec fn job_or_pending(
        self,
        id: Seq<char>,
        pending: Option<JobRecordModel>,
    ) -> Option<JobRecordModel> {
        match self.job(id) {
            Some(job) => Some(job),
            None => match pending {
                Some(job) => if job.id == id {
                    Some(job)
                } else {
                    None
                },
                None => None,
            },
        }
    }

    /// The repository that the subject of an event belongs to.
    pub open spec fn subject_repository(
        self,
        subject: EventSubjectModel,
        pending: Option<JobRecordModel>,
    ) -> Result<Seq<char>, StoreErrorModel> {
        let id = subject.subject_id;
        let context = "job_event.subject_id"@;
        match subject.subject_type {
            EventSubjectType::Repository => match self.repository(id) {
                Some(record) => Ok(record.id),
                None => Err(StoreErrorModel::missing("repositories"@, id, context)),
            },
            EventSubjectType::Job => match self.job_or_pending(id, pending) {
                Some(record) => Ok(record.repository_id),
                None => Err(StoreErrorModel::missing("jobs"@, id, context)),
            },
            EventSubjectType::PolicyDecision => match self.policy_decision(id) {
                Some(record) => Ok(record.repository_id),
                None => Err(StoreErrorModel::missing("policy_decisions"@, id, context)),
            },
            EventSubjectType::LockDecision => match self.lock_decision(id) {
                Some(record) => Ok(record.repository_id),
                None => Err(StoreErrorModel::missing("lock_decisions"@, id, context)),
            },
            EventSubjectType::ToolInvocation => match self.tool_invocation(id) {
                Some(record) => Ok(record.repository_id),
                None => Err(StoreErrorModel::missing("tool_invocations"@, id, context)),
            },
            EventSubjectType::ToolResult => match self.tool_result(id) {
                Some(record) => self.result_repository(id, record),
                None => Err(StoreErrorModel::missing("tool_results"@, id, context)),
            },
            EventSubjectType::AuditRecord => match self.audit_record(id) {
                Some(record) => Ok(record.repository_id),
                None => Err(StoreErrorModel::missing("audit_records"@, id, context)),
            },
        }
    }

    /// The repository of a tool result: that of its invocation. `shown` is how an error
    /// shows the result's identifier.
    pub open spec fn result_repository(self, shown: Seq<char>, result: ToolResultModel) -> Result<
        Seq<char>,
        StoreErrorModel,
    > {
        match self.tool_invocation(result.invocation_id) {
            Some(invocation) => Ok(invocation.repository_id),
            None => Err(
                StoreErrorModel::Conflict {
                    collection: "tool_results"@,
                    reason: "tool_result "@ + shown + " references missing invocation "@
                        + ToolInvocationId::debug_form(result.invocation_id),
                },
            ),
        }
    }

    pub open spec fn job_reference(
        self,
        id: Option<Seq<char>>,
        pending: Option<JobRecordModel>,
    ) -> Option<Result<Seq<char>, StoreErrorModel>> {
        match id {
            None => None,
            Some(id) => Some(
                match self.job_or_pending(id, pending) {
                    Some(record) => Ok(record.repository_id),
                    None => Err(
                        StoreErrorModel::missing(
                            "jobs"@,
                            JobId::debug_form(id),
                            "job_event.refs.job_id"@,
                        ),
                    ),
                },
            ),
        }
    }

    pub open spec fn policy_reference(self, id: Option<Seq<char>>) -> Option<
        Result<Seq<char>, StoreErrorModel>,
    > {
        match id {
            None => None,
            Some(id) => Some(
                match self.policy_decision(id) {
                    Some(record) => Ok(record.repository_id),
                    None => Err(
                        StoreErrorModel::missing(
                            "policy_decisions"@,
                            PolicyDecisionId::debug_form(id),
                            "job_event.refs.policy_decision_id"@,
                        ),
                    ),
                },
            ),
        }
    }

    pub open spec fn lock_reference(self, id: Option<Seq<char>>) -> Option<
        Result<Seq<char>, StoreErrorModel>,
    > {
        match id {
            None => None,
            Some(id) => Some(
                match self.lock_decision(id) {
                    Some(record) => Ok(record.repository_id),
                    None => Err(
                        StoreErrorModel::missing(
                            "lock_decisions"@,
                            LockDecisionId::debug_form(id),
                            "job_event.refs.lock_decision_id"@,
                        ),
                    ),
                },
            ),
        }
    }

    pub open spec fn invocation_reference(self, id: Option<Seq<char>>) -> Option<
        Result<Seq<char>, StoreErrorModel>,
    > {
        match id {
            None => None,
            Some(id) => Some(
                match self.tool_invocation(id) {
                    Some(record) => Ok(record.repository_id),
                    None => Err(
                        StoreErrorModel::missing(
                            "tool_invocations"@,
                            ToolInvocationId::debug_form(id),
                            "job_event.refs.tool_invocation_id"@,
                        ),
                    ),
                },
            ),
        }
    }

    pub open spec fn result_reference(self, id: Option<Seq<char>>) -> Option<
        Result<Seq<char>, StoreErrorModel>,
    > {
        match id {
            None => None,
            Some(id) => Some(
                match self.tool_result(id) {
                    Some(record) => self.result_repository(ToolResultId::debug_form(id), record),
                    None => Err(
                        StoreErrorModel::missing(
                            "tool_results"@,
                            ToolResultId::debug_form(id),
                            "job_event.refs.tool_result_id"@,
                        ),
                    ),
                },
            ),
        }
    }

    pub open spec fn audit_reference(self, id: Option<Seq<char>>) -> Option<
        Result<Seq<char>, StoreErrorModel>,
    > {
        match id {
            None => None,
            Some(id) => Some(
                match self.audit_record(id) {
                    Some(record) => Ok(record.repository_id),
                    None => Err(
                        StoreErrorModel::missing(
                            "audit_records"@,
                            AuditRecordId::debug_form(id),
                            "job_event.refs.audit_record_id"@,
                        ),
                    ),
                },
            ),
        }
    }

    /// The repository that all references of an event lead to, beginning with the one
    /// that is known of it already; or the first reference that leads nowhere or to
    /// another repository.
    pub open spec fn refs_repository(
        self,
        refs: EventRefsModel,
        pending: Option<JobRecordModel>,
        known: Option<Seq<char>>,
    ) -> Result<Option<Seq<char>>, StoreErrorModel> {
        let a = joined(
            Ok(known),
            self.job_reference(refs.job_id, pending),
            "job_event.refs.job_id"@,
        );
        let b = joined(
            a,
            self.policy_reference(refs.policy_decision_id),
            "job_event.refs.policy_decision_id"@,
        );
        let c = joined(
            b,
            self.lock_reference(refs.lock_decision_id),
            "job_event.refs.lock_decision_id"@,
        );
        let d = joined(
            c,
            self.invocation_reference(refs.tool_invocation_id),
            "job_event.refs.tool_invocation_id"@,
        );
        let e = joined(
            d,
            self.result_reference(refs.tool_result_id),
            "job_event.refs.tool_result_id"@,
        );
        joined(e, self.audit_reference(refs.audit_record_id), "job_event.refs.audit_record_id"@)
    }

    /// What is wrong with the references of an event whose subject belongs to
    /// `subject_repository`.
    pub open spec fn refs_problem(
        self,
        refs: EventRefsModel,
        pending: Option<JobRecordModel>,
        subject_repository: Seq<char>,
    ) -> Option<StoreErrorModel> {
        let known = match refs.repository_id {
            Some(id) => Some(id),
            None => Some(subject_repository),
        };
        if refs.repository_id is Some && self.repository(refs.repository_id->0) is None {
            Some(
                StoreErrorModel::missing(
                    "repositories"@,
                    RepositoryId::debug_form(refs.repository_id->0),
                    "job_event.refs.repository_id"@,
                ),
            )
        } else {
            match self.refs_repository(refs, pending, known) {
                Ok(_) => None,
                Err(error) => Some(error),
            }
        }
    }

    /// What is wrong with a new event. `pending` is a job that is about to be stored with it.
    #[verifier::opaque]
    pub open spec fn event_problem(
        self,
        event: JobEventModel,
        pending: Option<JobRecordModel>,
    ) -> Option<StoreErrorModel> {
        if self.event(event.id) is Some {
            Some(
                StoreErrorModel::DuplicateId {
                    collection: "job_events"@,
                    id: JobEventId::debug_form(event.id),
                },
            )
        } else if !crate::ids::is_id_text(
            event.subject.subject_type.prefix(),
            event.subject.subject_id,
        ) {
            Some(
                StoreErrorModel::InvalidReference {
                    collection: "job_events"@,
                    reason: "event.subject_id "@ + event.subject.subject_id
                        + " does not match subject_type "@ + event.subject.subject_type.name(),
                },
            )
        } else {
            match self.subject_repository(event.subject, pending) {
                Err(error) => Some(error),
                Ok(repository) => if event.refs.repository_id is Some
                    && event.refs.repository_id->0 != repository {
                    Some(
                        StoreErrorModel::foreign(
                            "job_events"@,
                            "job_event.subject_id"@,
                            event.refs.repository_id->0,
                            repository,
                        ),
                    )
                } else {
                    self.refs_problem(event.refs, pending, repository)
                },
            }
        }
    }

    /// The event as it is stored: under the next sequence number.
    pub open spec fn numbered(self, event: JobEventModel) -> JobEventModel {
        JobEventModel { sequence_number: (self.last_sequence + 1) as u64, ..event }
    }

    /// The store with the event at the end of its ledger.
    pub open spec fn with_event(self, event: JobEventModel) -> StoreModel {
        StoreModel {
            events: self.events.push(self.numbered(event)),
            last_sequence: (self.last_sequence + 1) as u64,
            ..self
        }
    }

    /// Append an event to the ledger.
    pub open spec fn append_event(self, event: JobEventModel) -> Result<
        (StoreModel, JobEventModel),
        StoreErrorModel,
    > {
        match self.event_problem(event, None) {
            Some(error) => Err(error),
            None => if self.last_sequence == u64::MAX {
                Err(StoreErrorModel::SequenceOverflow)
            } else {
                Ok((self.with_event(event), self.numbered(event)))
            },
        }
    }

    pub open spec fn create_repository(self, record: RepositoryRecordModel) -> Result<
        (StoreModel, ()),
        StoreErrorModel,
    > {
        if self.repository(record.id) is Some {
            Err(
                StoreErrorModel::DuplicateId {
                    collection: "repositories"@,
                    id: RepositoryId::debug_form(record.id),
                },
            )
        } else {
            Ok((StoreModel { repositories: self.repositories.push(record), ..self }, ()))
        }
    }

    /// What is wrong with a job's first event.
    pub open spec fn initial_event_problem(
        self,
        job: JobRecordModel,
        event: JobEventModel,
    ) -> Option<StoreErrorModel> {
        if event.subject.subject_type != EventSubjectType::Job || event.subject.subject_id
            != job.id {
            Some(
                StoreErrorModel::InvalidReference {
                    collection: "job_events"@,
                    reason: "initial event subject must identify job "@ + JobId::debug_form(job.id),
                },
            )
        } else if event.refs.job_id != Some(job.id) {
            Some(
                StoreErrorModel::InvalidReference {
                    collection: "job_events"@,
                    reason: "initial event refs.job_id must identify job "@ + JobId::debug_form(
                        job.id,
                    ),
                },
            )
        } else if event.refs.repository_id != Some(job.repository_id) {
            Some(
                StoreErrorModel::InvalidReference {
                    collection: "job_events"@,
                    reason: "initial event refs.repository_id must identify repository "@
                        + RepositoryId::debug_form(job.repository_id),
                },
            )
        } else {
            None
        }
    }

    /// Store a job together with its first event, or neither.
    pub open spec fn create_job(self, job: JobRecordModel, event: JobEventModel) -> Result<
        (StoreModel, JobEventModel),
        StoreErrorModel,
    > {
        if self.repository(job.repository_id) is None {
            Err(
                StoreErrorModel::missing(
                    "repositories"@,
                    RepositoryId::debug_form(job.repository_id),
                    "job.repository_id"@,
                ),
            )
        } else if self.job(job.id) is Some {
            Err(
                StoreErrorModel::DuplicateId {
                    collection: "jobs"@,
                    id: JobId::debug_form(job.id),
                },
            )
        } else {
            match self.initial_event_problem(job, event) {
                Some(error) => Err(error),
                None => match self.event_problem(event, Some(job)) {
                    Some(error) => Err(error),
                    None => if self.last_sequence == u64::MAX {
                        Err(StoreErrorModel::SequenceOverflow)
                    } else {
                        Ok(
                            (
                                StoreModel {
                                    jobs: self.jobs.push(
                                        JobRecordModel { latest_event_id: Some(event.id), ..job },
                                    ),
                                    ..self.with_event(event)
                                },
                                self.numbered(event),
                            ),
                        )
                    },
                },
            }
        }
    }

    /// Replace a stored job by `job`, and append an event that becomes its latest one; or
    /// neither.
    pub open spec fn update_job(self, job: JobRecordModel, event: JobEventModel) -> Result<
        (StoreModel, JobEventModel),
        StoreErrorModel,
    > {
        match self.job(job.id) {
            None => Err(
                StoreErrorModel::NotFound { collection: "jobs"@, id: JobId::debug_form(job.id) },
            ),
            Some(stored) => if stored.repository_id != job.repository_id {
                Err(
                    StoreErrorModel::foreign(
                        "jobs"@,
                        "job.repository_id"@,
                        stored.repository_id,
                        job.repository_id,
                    ),
                )
            } else {
                match self.append_event(event) {
                    Err(error) => Err(error),
                    Ok((after, appended)) => Ok(
                        (
                            StoreModel {
                                jobs: self.jobs.update(
                                    crate::table::index_of::<JobRecord>(self.jobs, job.id),
                                    JobRecordModel { latest_event_id: Some(event.id), ..job },
                                ),
                                ..after
                            },
                            appended,
                        ),
                    ),
                }
            },
        }
    }

    /// Two updates of jobs, or none.
    pub open spec fn update_job_twice(
        self,
        first_job: JobRecordModel,
        first_event: JobEventModel,
        second_job: JobRecordModel,
        second_event: JobEventModel,
    ) -> Result<(StoreModel, (JobEventModel, JobEventModel)), StoreErrorModel> {
        match self.update_job(first_job, first_event) {
            Err(error) => Err(error),
            Ok((between, first)) => match between.update_job(second_job, second_event) {
                Err(error) => Err(error),
                Ok((after, second)) => Ok((after, (first, second))),
            },
        }
    }

    /// Store a tool result and the audit record on it, each with the event that tells of
    /// it; or nothing.
    pub open spec fn record_result_and_audit(
        self,
        job: JobRecordModel,
        result: ToolResultModel,
        result_event: JobEventModel,
        audit: AuditRecordModel,
        audit_event: JobEventModel,
    ) -> Result<(StoreModel, (JobEventModel, JobEventModel)), StoreErrorModel> {
        match self.create_tool_result(result) {
            Err(error) => Err(error),
            Ok((with_result, _)) => with_result.record_audit(job, result_event, audit, audit_event),
        }
    }

    /// The part of it that follows once the result is stored.
    pub open spec fn record_audit(
        self,
        job: JobRecordModel,
        result_event: JobEventModel,
        audit: AuditRecordModel,
        audit_event: JobEventModel,
    ) -> Result<(StoreModel, (JobEventModel, JobEventModel)), StoreErrorModel> {
        match self.update_job(job, result_event) {
            Err(error) => Err(error),
            Ok((between, first)) => match between.create_audit_record(audit) {
                Err(error) => Err(error),
                Ok((with_audit, _)) => match with_audit.update_job(job, audit_event) {
                    Err(error) => Err(error),
                    Ok((after, second)) => Ok((after, (first, second))),
                },
            },
        }
    }

    pub open spec fn create_policy_decision(self, record: PolicyDecisionModel) -> Result<
        (StoreModel, ()),
        StoreErrorModel,
    > {
        if self.repository(record.repository_id) is None {
            Err(
                StoreErrorModel::missing(
                    "repositories"@,
                    RepositoryId::debug_form(record.repository_id),
                    "policy_decision.repository_id"@,
                ),
            )
        } else if self.policy_decision(record.id) is Some {
            Err(
                StoreErrorModel::DuplicateId {
                    collection: "policy_decisions"@,
                    id: PolicyDecisionId::debug_form(record.id),
                },
            )
        } else {
            Ok((StoreModel { policy_decisions: self.policy_decisions.push(record), ..self }, ()))
        }
    }

    /// What is wrong with the owner of a new lock.
    pub open spec fn lock_owner_problem(self, record: LockDecisionModel) -> Option<
        StoreErrorModel,
    > {
        match record.owner {
            LockOwnerModel::Job(id) => match self.job(id) {
                None => Some(
                    StoreErrorModel::missing(
                        "jobs"@,
                        JobId::debug_form(id),
                        "lock_decision.owner"@,
                    ),
                ),
                Some(job) => same_repository_problem(
                    "lock_decisions"@,
                    "lock_decision.owner"@,
                    record.repository_id,
                    job.repository_id,
                ),
            },
            _ => None,
        }
    }

    #[verifier::opaque]
    pub open spec fn lock_problem(self, record: LockDecisionModel) -> Option<StoreErrorModel> {
        if self.lock_decision(record.id) is Some {
            Some(
                StoreErrorModel::DuplicateId {
                    collection: "lock_decisions"@,
                    id: LockDecisionId::debug_form(record.id),
                },
            )
        } else if record.timing_problem() is Some {
            Some(
                StoreErrorModel::InvalidRecord {
                    collection: "lock_decisions"@,
                    reason: record.timing_problem()->0,
                },
            )
        } else if self.repository(record.repository_id) is None {
            Some(
                StoreErrorModel::NotFound {
                    collection: "repositories"@,
                    id: RepositoryId::debug_form(record.repository_id),
                },
            )
        } else if self.policy_decision(record.policy_decision_id) is None {
            Some(
                StoreErrorModel::NotFound {
                    collection: "policy_decisions"@,
                    id: PolicyDecisionId::debug_form(record.policy_decision_id),
                },
            )
        } else {
            let policy = self.policy_decision(record.policy_decision_id)->0;
            if policy.repository_id != record.repository_id {
                Some(
                    StoreErrorModel::foreign(
                        "lock_decisions"@,
                        "lock_decision.policy_decision_id"@,
                        record.repository_id,
                        policy.repository_id,
                    ),
                )
            } else if self.lock_owner_problem(record) is Some {
                self.lock_owner_problem(record)
            } else {
                match first_clash(self.lock_decisions, record) {
                    Some(existing) => Some(
                        StoreErrorModel::Conflict {
                            collection: "lock_decisions"@,
                            reason: "active lock "@ + LockDecisionId::debug_form(existing.id)
                                + " already covers repository/scope"@,
                        },
                    ),
                    None => None,
                }
            }
        }
    }

    pub open spec fn create_lock_decision(self, record: LockDecisionModel) -> Result<
        (StoreModel, ()),
        StoreErrorModel,
    > {
        match self.lock_problem(record) {
            Some(error) => Err(error),
            None => {
                Ok((StoreModel { lock_decisions: self.lock_decisions.push(record), ..self }, ()))
            },
        }
    }

    #[verifier::opaque]
    pub open spec fn invocation_problem(self, record: ToolInvocationModel) -> Option<
        StoreErrorModel,
    > {
        if self.job(record.job_id) is None {
            Some(
                StoreErrorModel::missing(
                    "jobs"@,
                    JobId::debug_form(record.job_id),
                    "tool_invocation.job_id"@,
                ),
            )
        } else if self.repository(record.repository_id) is None {
            Some(
                StoreErrorModel::missing(
                    "repositories"@,
                    RepositoryId::debug_form(record.repository_id),
                    "tool_invocation.repository_id"@,
                ),
            )
        } else if self.job(record.job_id)->0.repository_id != record.repository_id {
            Some(
                StoreErrorModel::foreign(
                    "tool_invocations"@,
                    "tool_invocation.job_id"@,
                    record.repository_id,
                    self.job(record.job_id)->0.repository_id,
                ),
            )
        } else if self.policy_decision(record.policy_decision_id) is None {
            Some(
                StoreErrorModel::missing(
                    "policy_decisions"@,
                    PolicyDecisionId::debug_form(record.policy_decision_id),
                    "tool_invocation.policy_decision_id"@,
                ),
            )
        } else {
            same_repository_problem(
                "tool_invocations"@,
                "tool_invocation.policy_decision_id"@,
                record.repository_id,
                self.policy_decision(record.policy_decision_id)->0.repository_id,
            )
        }
    }

    pub open spec fn create_tool_invocation(self, record: ToolInvocationModel) -> Result<
        (StoreModel, ()),
        StoreErrorModel,
    > {
        match self.invocation_problem(record) {
            Some(error) => Err(error),
            None => if self.tool_invocation(record.id) is Some {
                Err(
                    StoreErrorModel::DuplicateId {
                        collection: "tool_invocations"@,
                        id: ToolInvocationId::debug_form(record.id),
                    },
                )
            } else {
                Ok((StoreModel { tool_invocations: self.tool_invocations.push(record), ..self }, ()))
            },
        }
    }

    /// Some stored result answers the invocation.
    pub open spec fn is_answered(self, invocation_id: Seq<char>) -> bool {
        exists|i: int|
            0 <= i < self.tool_results.len() && #[trigger] self.tool_results[i].invocation_id
                == invocation_id
    }

    #[verifier::opaque]
    pub open spec fn result_problem(self, record: ToolResultModel) -> Option<StoreErrorModel> {
        match self.tool_invocation(record.invocation_id) {
            None => Some(
                StoreErrorModel::missing(
                    "tool_invocations"@,
                    ToolInvocationId::debug_form(record.invocation_id),
                    "tool_result.invocation_id"@,
                ),
            ),
            Some(invocation) => if invocation.tool_id != record.tool_id {
                Some(
                    StoreErrorModel::InvalidReference {
                        collection: "tool_results"@,
                        reason: "tool_result.tool_id "@ + record.tool_id
                            + " does not match invocation tool_id "@ + invocation.tool_id,
                    },
                )
            } else if self.is_answered(record.invocation_id) {
                Some(
                    StoreErrorModel::Conflict {
                        collection: "tool_results"@,
                        reason: "tool_result already exists for invocation "@
                            + ToolInvocationId::debug_form(record.invocation_id),
                    },
                )
            } else {
                None
            },
        }
    }

    pub open spec fn create_tool_result(self, record: ToolResultModel) -> Result<
        (StoreModel, ()),
        StoreErrorModel,
    > {
        match self.result_problem(record) {
            Some(error) => Err(error),
            None => if self.tool_result(record.id) is Some {
                Err(
                    StoreErrorModel::DuplicateId {
                        collection: "tool_results"@,
                        id: ToolResultId::debug_form(record.id),
                    },
                )
            } else {
                Ok((StoreModel { tool_results: self.tool_results.push(record), ..self }, ()))
            },
        }
    }

    /// What is wrong with the invocation that an audit record speaks of.
    pub open spec fn audit_invocation_problem(self, record: AuditRecordModel) -> Option<
        StoreErrorModel,
    > {
        match record.tool_invocation_id {
            None => None,
            Some(id) => match self.tool_invocation(id) {
                None => Some(
                    StoreErrorModel::missing(
                        "tool_invocations"@,
                        ToolInvocationId::debug_form(id),
                        "audit_record.tool_invocation_id"@,
                    ),
                ),
                Some(invocation) => if invocation.repository_id != record.repository_id {
                    Some(
                        StoreErrorModel::foreign(
                            "audit_records"@,
                            "audit_record.tool_invocation_id"@,
                            record.repository_id,
                            invocation.repository_id,
                        ),
                    )
                } else if invocation.policy_decision_id != record.policy_decision_id {
                    Some(
                        StoreErrorModel::InvalidReference {
                            collection: "audit_records"@,
                            reason: "audit_record.tool_invocation_id "@
                                + ToolInvocationId::debug_form(id)
                                + " belongs to policy_decision_id "@ + PolicyDecisionId::debug_form(
                                invocation.policy_decision_id,
                            ) + ", not "@ + PolicyDecisionId::debug_form(record.policy_decision_id),
                        },
                    )
                } else {
                    None
                },
            },
        }
    }

    #[verifier::opaque]
    pub open spec fn audit_problem(self, record: AuditRecordModel) -> Option<StoreErrorModel> {
        if self.repository(record.repository_id) is None {
            Some(
                StoreErrorModel::missing(
                    "repositories"@,
                    RepositoryId::debug_form(record.repository_id),
                    "audit_record.repository_id"@,
                ),
            )
        } else if self.policy_decision(record.policy_decision_id) is None {
            Some(
                StoreErrorModel::missing(
                    "policy_decisions"@,
                    PolicyDecisionId::debug_form(record.policy_decision_id),
                    "audit_record.policy_decision_id"@,
                ),
            )
        } else {
            let policy = self.policy_decision(record.policy_decision_id)->0;
            if policy.repository_id != record.repository_id {
                Some(
                    StoreErrorModel::foreign(
                        "audit_records"@,
                        "audit_record.policy_decision_id"@,
                        record.repository_id,
                        policy.repository_id,
                    ),
                )
            } else {
                self.audit_invocation_problem(record)
            }
        }
    }

    pub open spec fn create_audit_record(self, record: AuditRecordModel) -> Result<
        (StoreModel, ()),
        StoreErrorModel,
    > {
        match self.audit_problem(record) {
            Some(error) => Err(error),
            None => if self.audit_record(record.id) is Some {
                Err(
                    StoreErrorModel::DuplicateId {
                        collection: "audit_records"@,
                        id: AuditRecordId::debug_form(record.id),
                    },
                )
            } else {
                Ok((StoreModel { audit_records: self.audit_records.push(record), ..self }, ()))
            },
        }
    }

    /// One page of the jobs that a query selects, in the order of their identifiers.
    pub open spec fn query_jobs(self, query: JobQueryModel) -> Result<
        JobPageModel,
        StoreErrorModel,
    > {
        match page_start_of(query.page_token, "jobs"@) {
            Err(error) => Err(error),
            Ok(start) => {
                let page = page_of(ordered(query.selection(self.jobs)), start, query.size());
                Ok(JobPageModel { jobs: page.0, next_page_token: page.1 })
            },
        }
    }

    /// The sequence number behind which a cursor stands.
    pub open spec fn cursor_sequence(self, cursor: EventCursorModel) -> Result<
        u64,
        StoreErrorModel,
    > {
        match cursor {
            EventCursorModel::Beginning => Ok(0),
            EventCursorModel::AfterSequence(sequence) => Ok(sequence),
            EventCursorModel::AfterEventId(id) => match self.event(id) {
                Some(event) => Ok(event.sequence_number),
                None => Err(
                    StoreErrorModel::InvalidCursor {
                        reason: "event id is not retained: "@ + JobEventId::debug_form(id),
                    },
                ),
            },
        }
    }

    /// The events that stand behind a cursor, in the order of their numbers, as far as
    /// the limit goes.
    pub open spec fn replay(self, cursor: EventCursorModel, limit: Option<usize>) -> Result<
        Seq<JobEventModel>,
        StoreErrorModel,
    > {
        match self.cursor_sequence(cursor) {
            Err(error) => Err(error),
            Ok(after) => {
                let later = events_after(self.events, after);
                match limit {
                    Some(limit) => if limit < later.len() {
                        Ok(later.take(limit as int))
                    } else {
                        Ok(later)
                    },
                    None => Ok(later),
                }
            },
        }
    }

    /// The repository that a stored event belongs to.
    pub open spec fn event_repository(self, event: JobEventModel) -> Result<
        Option<Seq<char>>,
        StoreErrorModel,
    > {
        match event.refs.repository_id {
            Some(id) => Ok(Some(id)),
            None => match self.subject_repository(event.subject, None) {
                Err(error) => Err(error),
                Ok(repository) => self.refs_repository(event.refs, None, Some(repository)),
            },
        }
    }

    /// Whether a query selects an event; an error where the event's repository matters
    /// and cannot be told.
    pub open spec fn event_matches(self, event: JobEventModel, query: EventQueryModel) -> Result<
        bool,
        StoreErrorModel,
    > {
        let others = (query.subject_ids.len() == 0 || query.subject_ids.contains(
            event.subject.subject_id,
        )) && (query.min_severity is Some ==> event.severity.rank()
            >= query.min_severity->0.rank());
        match query.repository_id {
            None => Ok(others),
            Some(id) => match self.event_repository(event) {
                Err(error) => Err(error),
                Ok(repository) => Ok(repository == Some(id) && others),
            },
        }
    }

    /// Those of `events` behind number `after` that a query selects.
    pub open spec fn matching_events(
        self,
        events: Seq<JobEventModel>,
        after: u64,
        query: EventQueryModel,
    ) -> Result<Seq<JobEventModel>, StoreErrorModel>
        decreases events.len(),
    {
        if events.len() == 0 {
            Ok(Seq::empty())
        } else {
            match self.matching_events(events.drop_last(), after, query) {
                Err(error) => Err(error),
                Ok(selected) => if events.last().sequence_number <= after {
                    Ok(selected)
                } else {
                    match self.event_matches(events.last(), query) {
                        Err(error) => Err(error),
                        Ok(matches) => if matches {
                            Ok(selected.push(events.last()))
                        } else {
                            Ok(selected)
                        },
                    }
                },
            }
        }
    }

    /// One page of the events that a query selects, in the order of their numbers.
    pub open spec fn query_events(self, query: EventQueryModel) -> Result<
        EventPageModel,
        StoreErrorModel,
    > {
        match page_start_of(query.page_token, "job_events"@) {
            Err(error) => Err(error),
            Ok(start) => match self.cursor_sequence(query.cursor) {
                Err(error) => Err(error),
                Ok(after) => match self.matching_events(self.events, after, query) {
                    Err(error) => Err(error),
                    Ok(selected) => {
                        let page = page_of(selected, start, query.size());
                        Ok(EventPageModel { events: page.0, next_page_token: page.1 })
                    },
                },
            },
        }
    }
}

/// Those of `events` with a number greater than `after`.
pub open spec fn events_after(events: Seq<JobEventModel>, after: u64) -> Seq<JobEventModel>
    decreases events.len(),
{
    if events.len() == 0 {
        Seq::empty()
    } else if events.last().sequence_number > after {
        events_after(events.drop_last(), after).push(events.last())
    } else {
        events_after(events.drop_last(), after)
    }
}

/// A call that changes the store: where it succeeded, the operation was in order, and the
/// store and the answer are what it gives; where it failed, the store is as before. A
/// reliable store fails only where the operation is not in order, and says why.
pub open spec fn outcome<T: DeepView>(
    operation: Result<(StoreModel, T::V), StoreErrorModel>,
    before: StoreModel,
    after: StoreModel,
    answer: Result<T, StoreError>,
    reliable: bool,
) -> bool {
    match answer {
        Ok(value) => operation == Ok::<(StoreModel, T::V), StoreErrorModel>(
            (after, value.deep_view()),
        ),
        Err(error) => {
            &&& after == before
            &&& reliable ==> operation == Err::<(StoreModel, T::V), StoreErrorModel>(
                error.deep_view(),
            )
        },
    }
}

/// A call that reads the store: where it succeeded, it gives what the store holds. A
/// reliable store fails only where there is nothing to give, and says why.
pub open spec fn answers<T: DeepView>(
    expected: Result<T::V, StoreErrorModel>,
    answer: Result<T, StoreError>,
    reliable: bool,
) -> bool {
    match answer {
        Ok(value) => expected == Ok::<T::V, StoreErrorModel>(value.deep_view()),
        Err(error) => reliable ==> expected == Err::<T::V, StoreErrorModel>(error.deep_view()),
    }
}

/// The record that was looked up, or that it is not there.
pub open spec fn found<M>(record: Option<M>, collection: Seq<char>, id: Seq<char>) -> Result<
    M,
    StoreErrorModel,
> {
    match record {
        Some(record) => Ok(record),
        None => Err(StoreErrorModel::NotFound { collection, id }),
    }
}

} // verus!

//! Storage abstractions for Secretary runtime records.
use vstd::prelude::*;

use crate::domain::{
    Actor, AuditRecord, EventSeverity, EventSubjectType, JobEvent, JobRecord, JobStatus,
    LockDecision, LockOwner, LockStatus, PolicyDecision, RepositoryRecord, ToolInvocation,
    ToolResult,
};
use crate::ids::{
    AuditRecordId, JobEventId, JobId, LockDecisionId, PolicyDecisionId, RepositoryId,
    ToolInvocationId, ToolResultId,
};
use crate::record::Record;
use crate::store_model::StoreModel;
use crate::table::{contains, find, position, Entity};
use crate::text::{comes_before, decimal_text, holds_text, parse_number, same_text};
use crate::domain::{
    ActorModel, AuditRecordModel, JobEventModel, JobRecordModel, LockDecisionModel,
    PolicyDecisionModel, RepositoryRecordModel, ToolInvocationModel, ToolResultModel,
};

verus! {

pub type StoreResult<T> = Result<T, StoreError>;

/// Cursor used by clients to replay the ordered job-event ledger.
#[derive(Debug, PartialEq, Eq)]
pub enum EventCursor {
    /// Replay from the first retained event.
    Beginning,
    /// Replay events with sequence numbers greater than this value.
    AfterSequence(u64),
    /// Replay events after the event with this id.
    AfterEventId(JobEventId),
}

/// What a [`EventCursor`] holds.
pub enum EventCursorModel {
    Beginning,
    AfterSequence(u64),
    AfterEventId(Seq<char>),
}

impl DeepView for EventCursor {
    type V = EventCursorModel;

    open spec fn deep_view(&self) -> EventCursorModel {
        match self {
            EventCursor::Beginning => EventCursorModel::Beginning,
            EventCursor::AfterSequence(value) => EventCursorModel::AfterSequence(value.deep_view()),
            EventCursor::AfterEventId(value) => EventCursorModel::AfterEventId(value.deep_view()),
        }
    }
}

impl View for EventCursor {
    type V = EventCursorModel;

    #[verifier::inline]
    open spec fn view(&self) -> EventCursorModel {
        self.deep_view()
    }
}

impl Record for EventCursor {
    fn duplicate(&self) -> (r: Self) {
        match self {
            EventCursor::Beginning => EventCursor::Beginning,
            EventCursor::AfterSequence(value) => EventCursor::AfterSequence(value.duplicate()),
            EventCursor::AfterEventId(value) => EventCursor::AfterEventId(value.duplicate()),
        }
    }

    fn same(&self, other: &Self) -> (r: bool) {
        match (self, other) {
            (EventCursor::Beginning, EventCursor::Beginning) => true,
            (EventCursor::AfterSequence(value_a), EventCursor::AfterSequence(value_b)) => {
                value_a.same(value_b)
            },
            (EventCursor::AfterEventId(value_a), EventCursor::AfterEventId(value_b)) => {
                value_a.same(value_b)
            },
            _ => false,
        }
    }
}

impl Clone for EventCursor {
    fn clone(&self) -> (r: Self)
        ensures
            r.deep_view() == self.deep_view(),
    {
        self.duplicate()
    }
}

impl Default for EventCursor {
    fn default() -> (r: Self)
        ensures
            r@ == EventCursorModel::Beginning,
    {
        EventCursor::Beginning
    }
}

/// Which jobs to list, and which page of them.
#[derive(Debug, PartialEq, Eq)]
pub struct JobQuery {
    pub repository_id: Option<RepositoryId>,
    pub status: Option<JobStatus>,
    pub requester: Option<Actor>,
    pub page_size: Option<usize>,
    pub page_token: Option<String>,
}

/// What a [`JobQuery`] holds.
pub struct JobQueryModel {
    pub repository_id: Option<Seq<char>>,
    pub status: Option<JobStatus>,
    pub requester: Option<ActorModel>,
    pub page_size: Option<usize>,
    pub page_token: Option<Seq<char>>,
}

impl DeepView for JobQuery {
    type V = JobQueryModel;

    open spec fn deep_view(&self) -> JobQueryModel {
        JobQueryModel {
            repository_id: self.repository_id.deep_view(),
            status: self.status.deep_view(),
            requester: self.requester.deep_view(),
            page_size: self.page_size.deep_view(),
            page_token: self.page_token.deep_view(),
        }
    }
}

impl View for JobQuery {
    type V = JobQueryModel;

    #[verifier::inline]
    open spec fn view(&self) -> JobQueryModel {
        self.deep_view()
    }
}

impl Record for JobQuery {
    fn duplicate(&self) -> (r: Self) {
        JobQuery {
            repository_id: self.repository_id.duplicate(),
            status: self.status.duplicate(),
            requester: self.requester.duplicate(),
            page_size: self.page_size.duplicate(),
            page_token: self.page_token.duplicate(),
        }
    }

    fn same(&self, other: &Self) -> (r: bool) {
        self.repository_id.same(&other.repository_id)
            && self.status.same(&other.status)
            && self.requester.same(&other.requester)
            && self.page_size.same(&other.page_size)
            && self.page_token.same(&other.page_token)
    }
}

impl Clone for JobQuery {
    fn clone(&self) -> (r: Self)
        ensures
            r.deep_view() == self.deep_view(),
    {
        self.duplicate()
    }
}

impl Default for JobQuery {
    fn default() -> (r: Self)
        ensures
            r@ == (JobQueryModel {
                repository_id: None,
                status: None,
                requester: None,
                page_size: None,
                page_token: None,
            }),
    {
        JobQuery {
            repository_id: None,
            status: None,
            requester: None,
            page_size: None,
            page_token: None,
        }
    }
}

#[derive(Debug, PartialEq, Eq)]
pub struct JobPage {
    pub jobs: Vec<JobRecord>,
    pub next_page_token: Option<String>,
}

/// What a [`JobPage`] holds.
pub struct JobPageModel {
    pub jobs: Seq<JobRecordModel>,
    pub next_page_token: Option<Seq<char>>,
}

impl DeepView for JobPage {
    type V = JobPageModel;

    open spec fn deep_view(&self) -> JobPageModel {
        JobPageModel {
            jobs: self.jobs.deep_view(),
            next_page_token: self.next_page_token.deep_view(),
        }
    }
}

impl View for JobPage {
    type V = JobPageModel;

    #[verifier::inline]
    open spec fn view(&self) -> JobPageModel {
        self.deep_view()
    }
}

impl Record for JobPage {
    fn duplicate(&self) -> (r: Self) {
        JobPage {
            jobs: self.jobs.duplicate(),
            next_page_token: self.next_page_token.duplicate(),
        }
    }

    fn same(&self, other: &Self) -> (r: bool) {
        self.jobs.same(&other.jobs)
            && self.next_page_token.same(&other.next_page_token)
    }
}

impl Clone for JobPage {
    fn clone(&self) -> (r: Self)
        ensures
            r.deep_view() == self.deep_view(),
    {
        self.duplicate()
    }
}

/// Which events to list, and which page of them.
#[derive(Debug, PartialEq, Eq)]
pub struct EventQuery {
    pub repository_id: Option<RepositoryId>,
    pub cursor: EventCursor,
    pub subject_ids: Vec<String>,
    pub min_severity: Option<EventSeverity>,
    pub page_size: Option<usize>,
    pub page_token: Option<String>,
}

/// What a [`EventQuery`] holds.
pub struct EventQueryModel {
    pub repository_id: Option<Seq<char>>,
    pub cursor: EventCursorModel,
    pub subject_ids: Seq<Seq<char>>,
    pub min_severity: Option<EventSeverity>,
    pub page_size: Option<usize>,
    pub page_token: Option<Seq<char>>,
}

impl DeepView for EventQuery {
    type V = EventQueryModel;

    open spec fn deep_view(&self) -> EventQueryModel {
        EventQueryModel {
            repository_id: self.repository_id.deep_view(),
            cursor: self.cursor.deep_view(),
            subject_ids: self.subject_ids.deep_view(),
            min_severity: self.min_severity.deep_view(),
            page_size: self.page_size.deep_view(),
            page_token: self.page_token.deep_view(),
        }
    }
}

impl View for EventQuery {
    type V = EventQueryModel;

    #[verifier::inline]
    open spec fn view(&self) -> EventQueryModel {
        self.deep_view()
    }
}

impl Record for EventQuery {
    fn duplicate(&self) -> (r: Self) {
        EventQuery {
            repository_id: self.repository_id.duplicate(),
            cursor: self.cursor.duplicate(),
            subject_ids: self.subject_ids.duplicate(),
            min_severity: self.min_severity.duplicate(),
            page_size: self.page_size.duplicate(),
            page_token: self.page_token.duplicate(),
        }
    }

    fn same(&self, other: &Self) -> (r: bool) {
        self.repository_id.same(&other.repository_id)
            && self.cursor.same(&other.cursor)
            && self.subject_ids.same(&other.subject_ids)
            && self.min_severity.same(&other.min_severity)
            && self.page_size.same(&other.page_size)
            && self.page_token.same(&other.page_token)
    }
}

impl Clone for EventQuery {
    fn clone(&self) -> (r: Self)
        ensures
            r.deep_view() == self.deep_view(),
    {
        self.duplicate()
    }
}

impl Default for EventQuery {
    fn default() -> (r: Self)
        ensures
            r@ == (EventQueryModel {
                repository_id: None,
                cursor: EventCursorModel::Beginning,
                subject_ids: Seq::empty(),
                min_severity: None,
                page_size: None,
                page_token: None,
            }),
    {
        let subject_ids: Vec<String> = Vec::new();
        assert(subject_ids.deep_view() =~= Seq::empty());
        EventQuery {
            repository_id: None,
            cursor: EventCursor::Beginning,
            subject_ids,
            min_severity: None,
            page_size: None,
            page_token: None,
        }
    }
}

#[derive(Debug, PartialEq, Eq)]
pub struct EventPage {
    pub events: Vec<JobEvent>,
    pub next_page_token: Option<String>,
}

/// What a [`EventPage`] holds.
pub struct EventPageModel {
    pub events: Seq<JobEventModel>,
    pub next_page_token: Option<Seq<char>>,
}

impl DeepView for EventPage {
    type V = EventPageModel;

    open spec fn deep_view(&self) -> EventPageModel {
        EventPageModel {
            events: self.events.deep_view(),
            next_page_token: self.next_page_token.deep_view(),
        }
    }
}

impl View for EventPage {
    type V = EventPageModel;

    #[verifier::inline]
    open spec fn view(&self) -> EventPageModel {
        self.deep_view()
    }
}

impl Record for EventPage {
    fn duplicate(&self) -> (r: Self) {
        EventPage {
            events: self.events.duplicate(),
            next_page_token: self.next_page_token.duplicate(),
        }
    }

    fn same(&self, other: &Self) -> (r: bool) {
        self.events.same(&other.events)
            && self.next_page_token.same(&other.next_page_token)
    }
}

impl Clone for EventPage {
    fn clone(&self) -> (r: Self)
        ensures
            r.deep_view() == self.deep_view(),
    {
        self.duplicate()
    }
}

#[derive(Debug, PartialEq, Eq)]
pub enum StoreError {
    NotFound { collection: &'static str, id: String },
    DuplicateId { collection: &'static str, id: String },
    Conflict { collection: &'static str, reason: String },
    InvalidReference { collection: &'static str, reason: String },
    InvalidCursor { reason: String },
    SequenceOverflow,
    InvalidRecord { collection: &'static str, reason: String },
}

/// What a [`StoreError`] holds.
pub enum StoreErrorModel {
    NotFound { collection: Seq<char>, id: Seq<char> },
    DuplicateId { collection: Seq<char>, id: Seq<char> },
    Conflict { collection: Seq<char>, reason: Seq<char> },
    InvalidReference { collection: Seq<char>, reason: Seq<char> },
    InvalidCursor { reason: Seq<char> },
    SequenceOverflow,
    InvalidRecord { collection: Seq<char>, reason: Seq<char> },
}

impl DeepView for StoreError {
    type V = StoreErrorModel;

    open spec fn deep_view(&self) -> StoreErrorModel {
        match self {
            StoreError::NotFound { collection, id } => StoreErrorModel::NotFound {
                collection: collection.deep_view(),
                id: id.deep_view(),
            },
            StoreError::DuplicateId { collection, id } => StoreErrorModel::DuplicateId {
                collection: collection.deep_view(),
                id: id.deep_view(),
            },
            StoreError::Conflict { collection, reason } => StoreErrorModel::Conflict {
                collection: collection.deep_view(),
                reason: reason.deep_view(),
            },
            StoreError::InvalidReference { collection, reason } => {
                StoreErrorModel::InvalidReference {
                    collection: collection.deep_view(),
                    reason: reason.deep_view(),
                }
            },
            StoreError::InvalidCursor { reason } => StoreErrorModel::InvalidCursor {
                reason: reason.deep_view(),
            },
            StoreError::SequenceOverflow => StoreErrorModel::SequenceOverflow,
            StoreError::InvalidRecord { collection, reason } => StoreErrorModel::InvalidRecord {
                collection: collection.deep_view(),
                reason: reason.deep_view(),
            },
        }
    }
}

impl View for StoreError {
    type V = StoreErrorModel;

    #[verifier::inline]
    open spec fn view(&self) -> StoreErrorModel {
        self.deep_view()
    }
}

impl Record for StoreError {
    fn duplicate(&self) -> (r: Self) {
        match self {
            StoreError::NotFound { collection, id } => StoreError::NotFound {
                collection: collection.duplicate(),
                id: id.duplicate(),
            },
            StoreError::DuplicateId { collection, id } => StoreError::DuplicateId {
                collection: collection.duplicate(),
                id: id.duplicate(),
            },
            StoreError::Conflict { collection, reason } => StoreError::Conflict {
                collection: collection.duplicate(),
                reason: reason.duplicate(),
            },
            StoreError::InvalidReference { collection, reason } => StoreError::InvalidReference {
                collection: collection.duplicate(),
                reason: reason.duplicate(),
            },
            StoreError::InvalidCursor { reason } => StoreError::InvalidCursor {
                reason: reason.duplicate(),
            },
            StoreError::SequenceOverflow => StoreError::SequenceOverflow,
            StoreError::InvalidRecord { collection, reason } => StoreError::InvalidRecord {
                collection: collection.duplicate(),
                reason: reason.duplicate(),
            },
        }
    }

    fn same(&self, other: &Self) -> (r: bool) {
        match (self, other) {
            (
                StoreError::NotFound { collection: collection_a, id: id_a },
                StoreError::NotFound { collection: collection_b, id: id_b },
            ) => collection_a.same(collection_b) && id_a.same(id_b),
            (
                StoreError::DuplicateId { collection: collection_a, id: id_a },
                StoreError::DuplicateId { collection: collection_b, id: id_b },
            ) => collection_a.same(collection_b) && id_a.same(id_b),
            (
                StoreError::Conflict { collection: collection_a, reason: reason_a },
                StoreError::Conflict { collection: collection_b, reason: reason_b },
            ) => collection_a.same(collection_b) && reason_a.same(reason_b),
            (
                StoreError::InvalidReference { collection: collection_a, reason: reason_a },
                StoreError::InvalidReference { collection: collection_b, reason: reason_b },
            ) => collection_a.same(collection_b) && reason_a.same(reason_b),
            (
                StoreError::InvalidCursor { reason: reason_a },
                StoreError::InvalidCursor { reason: reason_b },
            ) => reason_a.same(reason_b),
            (StoreError::SequenceOverflow, StoreError::SequenceOverflow) => true,
            (
                StoreError::InvalidRecord { collection: collection_a, reason: reason_a },
                StoreError::InvalidRecord { collection: collection_b, reason: reason_b },
            ) => collection_a.same(collection_b) && reason_a.same(reason_b),
            _ => false,
        }
    }
}

impl Clone for StoreError {
    fn clone(&self) -> (r: Self)
        ensures
            r.deep_view() == self.deep_view(),
    {
        self.duplicate()
    }
}

impl StoreErrorModel {
    /// The error as a sentence.
    pub open spec fn message(self) -> Seq<char> {
        match self {
            StoreErrorModel::NotFound { collection, id } => collection + " record was not found: "@
                + id,
            StoreErrorModel::DuplicateId { collection, id } => collection
                + " record already exists: "@ + id,
            StoreErrorModel::Conflict { collection, reason } => collection + " conflict: "@
                + reason,
            StoreErrorModel::InvalidReference { collection, reason } => collection
                + " invalid reference: "@ + reason,
            StoreErrorModel::InvalidCursor { reason } => "invalid event cursor: "@ + reason,
            StoreErrorModel::SequenceOverflow => "job event sequence overflowed"@,
            StoreErrorModel::InvalidRecord { collection, reason } => collection
                + " invalid record: "@ + reason,
        }
    }
}

impl StoreError {
    /// The error as a sentence.
    pub fn to_text(&self) -> (r: String)
        ensures
            r@ == self@.message(),
    {
        match self {
            StoreError::NotFound { collection, id } => (*collection).to_owned().concat(
                " record was not found: ",
            ).concat(id.as_str()),
            StoreError::DuplicateId { collection, id } => (*collection).to_owned().concat(
                " record already exists: ",
            ).concat(id.as_str()),
            StoreError::Conflict { collection, reason } => (*collection).to_owned().concat(
                " conflict: ",
            ).concat(reason.as_str()),
            StoreError::InvalidReference { collection, reason } => (*collection).to_owned().concat(
                " invalid reference: ",
            ).concat(reason.as_str()),
            StoreError::InvalidCursor { reason } => "invalid event cursor: ".to_owned().concat(
                reason.as_str(),
            ),
            StoreError::SequenceOverflow => "job event sequence overflowed".to_owned(),
            StoreError::InvalidRecord { collection, reason } => (*collection).to_owned().concat(
                " invalid record: ",
            ).concat(reason.as_str()),
        }
    }
}

impl Entity for RepositoryRecord {
    open spec fn key(model: RepositoryRecordModel) -> Seq<char> {
        model.id
    }

    fn id_text(&self) -> (r: &str) {
        self.id.as_str()
    }
}

impl Entity for JobRecord {
    open spec fn key(model: JobRecordModel) -> Seq<char> {
        model.id
    }

    fn id_text(&self) -> (r: &str) {
        self.id.as_str()
    }
}

impl Entity for JobEvent {
    open spec fn key(model: JobEventModel) -> Seq<char> {
        model.id
    }

    fn id_text(&self) -> (r: &str) {
        self.id.as_str()
    }
}

impl Entity for PolicyDecision {
    open spec fn key(model: PolicyDecisionModel) -> Seq<char> {
        model.id
    }

    fn id_text(&self) -> (r: &str) {
        self.id.as_str()
    }
}

impl Entity for LockDecision {
    open spec fn key(model: LockDecisionModel) -> Seq<char> {
        model.id
    }

    fn id_text(&self) -> (r: &str) {
        self.id.as_str()
    }
}

impl Entity for ToolInvocation {
    open spec fn key(model: ToolInvocationModel) -> Seq<char> {
        model.id
    }

    fn id_text(&self) -> (r: &str) {
        self.id.as_str()
    }
}

impl Entity for ToolResult {
    open spec fn key(model: ToolResultModel) -> Seq<char> {
        model.id
    }

    fn id_text(&self) -> (r: &str) {
        self.id.as_str()
    }
}

impl Entity for AuditRecord {
    open spec fn key(model: AuditRecordModel) -> Seq<char> {
        model.id
    }

    fn id_text(&self) -> (r: &str) {
        self.id.as_str()
    }
}

/// Synchronous logical store for the Secretary ledger.
///
/// Callers create immutable records, append ordered events, and replay events from
/// stable cursors. What a store holds and what each call does to it is said over
/// [`StoreModel`]; a call that fails leaves the store as it was.
pub trait SecretaryStore: Sized {
    /// What the store holds.
    spec fn state(&self) -> StoreModel;

    /// The store refuses nothing but what is not in order.
    spec fn reliable(&self) -> bool;

    fn create_repository(&mut self, record: RepositoryRecord) -> (r: StoreResult<()>)
        ensures
            final(self).reliable() == old(self).reliable(),
            crate::store_model::outcome(
                old(self).state().create_repository(record@),
                old(self).state(),
                final(self).state(),
                r,
                old(self).reliable(),
            ),
    ;

    fn list_repositories(&self) -> (r: StoreResult<Vec<RepositoryRecord>>)
        ensures
            crate::store_model::answers(Ok(self.state().repositories), r, self.reliable()),
    ;

    fn get_repository(&self, id: &RepositoryId) -> (r: StoreResult<RepositoryRecord>)
        ensures
            crate::store_model::answers(
                crate::store_model::found(
                    self.state().repository(id@),
                    "repositories"@,
                    RepositoryId::debug_form(id@),
                ),
                r,
                self.reliable(),
            ),
    ;

    /// Store a job together with its first event, or neither.
    fn create_job_with_initial_event(&mut self, record: JobRecord, initial_event: JobEvent) -> (r:
        StoreResult<JobEvent>)
        ensures
            final(self).reliable() == old(self).reliable(),
            crate::store_model::outcome(
                old(self).state().create_job(record@, initial_event@),
                old(self).state(),
                final(self).state(),
                r,
                old(self).reliable(),
            ),
    ;

    fn list_jobs(&self) -> (r: StoreResult<Vec<JobRecord>>)
        ensures
            crate::store_model::answers(Ok(self.state().jobs), r, self.reliable()),
    ;

    fn query_jobs(&self, query: JobQuery) -> (r: StoreResult<JobPage>)
        ensures
            crate::store_model::answers(self.state().query_jobs(query@), r, self.reliable()),
    ;

    fn get_job(&self, id: &JobId) -> (r: StoreResult<JobRecord>)
        ensures
            crate::store_model::answers(
                crate::store_model::found(
                    self.state().job(id@),
                    "jobs"@,
                    JobId::debug_form(id@),
                ),
                r,
                self.reliable(),
            ),
    ;

    /// Append a job event and assign the next store-wide sequence number.
    fn append_job_event(&mut self, event: JobEvent) -> (r: StoreResult<JobEvent>)
        ensures
            final(self).reliable() == old(self).reliable(),
            crate::store_model::outcome(
                old(self).state().append_event(event@),
                old(self).state(),
                final(self).state(),
                r,
                old(self).reliable(),
            ),
    ;

    /// Replace a stored job and append an event that becomes its latest one, or neither.
    fn append_job_event_and_update_job(&mut self, job: JobRecord, event: JobEvent) -> (r:
        StoreResult<JobEvent>)
        ensures
            final(self).reliable() == old(self).reliable(),
            crate::store_model::outcome(
                old(self).state().update_job(job@, event@),
                old(self).state(),
                final(self).state(),
                r,
                old(self).reliable(),
            ),
    ;

    /// Two such updates in a row, or none.
    fn append_job_events_and_update_job(
        &mut self,
        first_job: JobRecord,
        first_event: JobEvent,
        second_job: JobRecord,
        second_event: JobEvent,
    ) -> (r: StoreResult<(JobEvent, JobEvent)>)
        ensures
            final(self).reliable() == old(self).reliable(),
            crate::store_model::outcome(
                old(self).state().update_job_twice(
                    first_job@,
                    first_event@,
                    second_job@,
                    second_event@,
                ),
                old(self).state(),
                final(self).state(),
                r,
                old(self).reliable(),
            ),
    ;

    /// Store a tool result and the audit record on it, each with the event that tells of
    /// it; or nothing.
    fn record_tool_result_and_audit_with_events(
        &mut self,
        job: JobRecord,
        result: ToolResult,
        result_event: JobEvent,
        audit: AuditRecord,
        audit_event: JobEvent,
    ) -> (r: StoreResult<(JobEvent, JobEvent)>)
        ensures
            final(self).reliable() == old(self).reliable(),
            crate::store_model::outcome(
                old(self).state().record_result_and_audit(
                    job@,
                    result@,
                    result_event@,
                    audit@,
                    audit_event@,
                ),
                old(self).state(),
                final(self).state(),
                r,
                old(self).reliable(),
            ),
    ;

    fn replay_job_events(&self, cursor: EventCursor, limit: Option<usize>) -> (r: StoreResult<
        Vec<JobEvent>,
    >)
        ensures
            crate::store_model::answers(self.state().replay(cursor@, limit), r, self.reliable()),
    ;

    fn query_job_events(&self, query: EventQuery) -> (r: StoreResult<EventPage>)
        ensures
            crate::store_model::answers(self.state().query_events(query@), r, self.reliable()),
    ;

    fn get_job_event(&self, id: &JobEventId) -> (r: StoreResult<JobEvent>)
        ensures
            crate::store_model::answers(
                crate::store_model::found(
                    self.state().event(id@),
                    "job_events"@,
                    JobEventId::debug_form(id@),
                ),
                r,
                self.reliable(),
            ),
    ;

    fn create_policy_decision(&mut self, record: PolicyDecision) -> (r: StoreResult<()>)
        ensures
            final(self).reliable() == old(self).reliable(),
            crate::store_model::outcome(
                old(self).state().create_policy_decision(record@),
                old(self).state(),
                final(self).state(),
                r,
                old(self).reliable(),
            ),
    ;

    fn list_policy_decisions(&self) -> (r: StoreResult<Vec<PolicyDecision>>)
        ensures
            crate::store_model::answers(Ok(self.state().policy_decisions), r, self.reliable()),
    ;

    fn get_policy_decision(&self, id: &PolicyDecisionId) -> (r: StoreResult<PolicyDecision>)
        ensures
            crate::store_model::answers(
                crate::store_model::found(
                    self.state().policy_decision(id@),
                    "policy_decisions"@,
                    PolicyDecisionId::debug_form(id@),
                ),
                r,
                self.reliable(),
            ),
    ;

    fn create_lock_decision(&mut self, record: LockDecision) -> (r: StoreResult<()>)
        ensures
            final(self).reliable() == old(self).reliable(),
            crate::store_model::outcome(
                old(self).state().create_lock_decision(record@),
                old(self).state(),
                final(self).state(),
                r,
                old(self).reliable(),
            ),
    ;

    fn list_lock_decisions(&self) -> (r: StoreResult<Vec<LockDecision>>)
        ensures
            crate::store_model::answers(Ok(self.state().lock_decisions), r, self.reliable()),
    ;

    fn get_lock_decision(&self, id: &LockDecisionId) -> (r: StoreResult<LockDecision>)
        ensures
            crate::store_model::answers(
                crate::store_model::found(
                    self.state().lock_decision(id@),
                    "lock_decisions"@,
                    LockDecisionId::debug_form(id@),
                ),
                r,
                self.reliable(),
            ),
    ;

    fn create_tool_invocation(&mut self, record: ToolInvocation) -> (r: StoreResult<()>)
        ensures
            final(self).reliable() == old(self).reliable(),
            crate::store_model::outcome(
                old(self).state().create_tool_invocation(record@),
                old(self).state(),
                final(self).state(),
                r,
                old(self).reliable(),
            ),
    ;

    fn list_tool_invocations(&self) -> (r: StoreResult<Vec<ToolInvocation>>)
        ensures
            crate::store_model::answers(Ok(self.state().tool_invocations), r, self.reliable()),
    ;

    fn get_tool_invocation(&self, id: &ToolInvocationId) -> (r: StoreResult<ToolInvocation>)
        ensures
            crate::store_model::answers(
                crate::store_model::found(
                    self.state().tool_invocation(id@),
                    "tool_invocations"@,
                    ToolInvocationId::debug_form(id@),
                ),
                r,
                self.reliable(),
            ),
    ;

    fn create_tool_result(&mut self, record: ToolResult) -> (r: StoreResult<()>)
        ensures
            final(self).reliable() == old(self).reliable(),
            crate::store_model::outcome(
                old(self).state().create_tool_result(record@),
                old(self).state(),
                final(self).state(),
                r,
                old(self).reliable(),
            ),
    ;

    fn list_tool_results(&self) -> (r: StoreResult<Vec<ToolResult>>)
        ensures
            crate::store_model::answers(Ok(self.state().tool_results), r, self.reliable()),
    ;

    fn get_tool_result(&self, id: &ToolResultId) -> (r: StoreResult<ToolResult>)
        ensures
            crate::store_model::answers(
                crate::store_model::found(
                    self.state().tool_result(id@),
                    "tool_results"@,
                    ToolResultId::debug_form(id@),
                ),
                r,
                self.reliable(),
            ),
    ;

    fn create_audit_record(&mut self, record: AuditRecord) -> (r: StoreResult<()>)
        ensures
            final(self).reliable() == old(self).reliable(),
            crate::store_model::outcome(
                old(self).state().create_audit_record(record@),
                old(self).state(),
                final(self).state(),
                r,
                old(self).reliable(),
            ),
    ;

    fn list_audit_records(&self) -> (r: StoreResult<Vec<AuditRecord>>)
        ensures
            crate::store_model::answers(Ok(self.state().audit_records), r, self.reliable()),
    ;

    fn get_audit_record(&self, id: &AuditRecordId) -> (r: StoreResult<AuditRecord>)
        ensures
            crate::store_model::answers(
                crate::store_model::found(
                    self.state().audit_record(id@),
                    "audit_records"@,
                    AuditRecordId::debug_form(id@),
                ),
                r,
                self.reliable(),
            ),
    ;
}

/// A store in the memory of the process.
#[derive(Debug)]
pub struct InMemoryStore {
    repositories: Vec<RepositoryRecord>,
    jobs: Vec<JobRecord>,
    events: Vec<JobEvent>,
    last_sequence: u64,
    policy_decisions: Vec<PolicyDecision>,
    lock_decisions: Vec<LockDecision>,
    tool_invocations: Vec<ToolInvocation>,
    tool_results: Vec<ToolResult>,
    audit_records: Vec<AuditRecord>,
}

impl View for InMemoryStore {
    type V = StoreModel;

    closed spec fn view(&self) -> StoreModel {
        StoreModel {
            repositories: self.repositories.deep_view(),
            jobs: self.jobs.deep_view(),
            events: self.events.deep_view(),
            last_sequence: self.last_sequence,
            policy_decisions: self.policy_decisions.deep_view(),
            lock_decisions: self.lock_decisions.deep_view(),
            tool_invocations: self.tool_invocations.deep_view(),
            tool_results: self.tool_results.deep_view(),
            audit_records: self.audit_records.deep_view(),
        }
    }
}

/// Add a record at the end of a collection.
fn push_row<E: Record>(rows: &mut Vec<E>, row: E)
    ensures
        final(rows).deep_view() == old(rows).deep_view().push(row.deep_view()),
{
    rows.push(row);
    assert(rows.deep_view() =~= old(rows).deep_view().push(row.deep_view()));
}

/// Put a record in the place of another.
fn set_row<E: Record>(rows: &mut Vec<E>, at: usize, row: E)
    requires
        at < old(rows).deep_view().len(),
    ensures
        final(rows).deep_view() == old(rows).deep_view().update(at as int, row.deep_view()),
{
    rows[at] = row;
    assert(rows.deep_view() =~= old(rows).deep_view().update(at as int, row.deep_view()));
}

/// Take away the last record of a collection.
fn drop_row<E: Record>(rows: &mut Vec<E>)
    requires
        old(rows).deep_view().len() > 0,
    ensures
        final(rows).deep_view() == old(rows).deep_view().drop_last(),
{
    rows.pop();
    assert(rows.deep_view() =~= old(rows).deep_view().drop_last());
}

/// The place that a page token stands for.
fn page_start(page_token: &Option<String>, collection: &'static str) -> (r: StoreResult<usize>)
    ensures
        match r {
            Ok(start) => crate::store_model::page_start_of(page_token.deep_view(), collection@)
                == Ok::<int, StoreErrorModel>(start as int),
            Err(error) => crate::store_model::page_start_of(page_token.deep_view(), collection@)
                == Err::<int, StoreErrorModel>(error@),
        },
{
    match page_token {
        Some(token) => {
            if token.as_str().is_empty() {
                return Ok(0);
            }
            match parse_number(token.as_str()) {
                Some(value) => Ok(value),
                None => Err(
                    StoreError::InvalidCursor {
                        reason: collection.to_owned().concat(
                            " page token is not a numeric offset",
                        ),
                    },
                ),
            }
        },
        None => Ok(0),
    }
}

/// Cut one page out of a collection.
fn page_records<E: Record>(records: &Vec<E>, start: usize, page_size: usize) -> (r: (
    Vec<E>,
    Option<String>,
))
    ensures
        (r.0.deep_view(), r.1.deep_view()) == crate::store_model::page_of(
            records.deep_view(),
            start as int,
            page_size as int,
        ),
{
    let mut retained: Vec<E> = Vec::new();
    let ghost all = records.deep_view();
    if page_size == 0 || start >= records.len() {
        assert(retained.deep_view() =~= Seq::empty());
        return (retained, None);
    }
    let end: usize = if page_size >= records.len() - start {
        records.len()
    } else {
        start + page_size
    };
    let mut i: usize = start;
    assert(retained.deep_view() =~= all.subrange(start as int, i as int));
    while i < end
        invariant
            start <= i <= end <= records.len(),
            all == records.deep_view(),
            retained.deep_view() == all.subrange(start as int, i as int),
        decreases end - i,
    {
        let row = records[i].duplicate();
        push_row(&mut retained, row);
        proof {
            assert(row.deep_view() == all[i as int]);
            assert(all.subrange(start as int, i + 1) =~= all.subrange(start as int, i as int).push(
                all[i as int],
            ));
        }
        i += 1;
    }
    if end < records.len() {
        (retained, Some(decimal_text(end as u64)))
    } else {
        assert(all.subrange(start as int, end as int) =~= all.skip(start as int));
        (retained, None)
    }
}

/// Put a job into its place among jobs that are ordered by identifier.
fn place_job(jobs: &mut Vec<JobRecord>, job: JobRecord)
    ensures
        final(jobs).deep_view() == crate::store_model::placed(old(jobs).deep_view(), job@),
{
    let ghost all = jobs.deep_view();
    let mut at: usize = jobs.len();
    proof {
        assert(all.take(at as int) =~= all);
        assert(crate::store_model::placed(all, job@) =~= crate::store_model::placed(
            all.take(at as int),
            job@,
        ) + all.skip(at as int));
    }
    while at > 0 && comes_before(job.id.as_str(), jobs[at - 1].id.as_str())
        invariant
            at <= jobs.len(),
            all == jobs.deep_view(),
            crate::store_model::placed(all, job@) == crate::store_model::placed(
                all.take(at as int),
                job@,
            ) + all.skip(at as int),
        decreases at,
    {
        proof {
            let front = all.take(at as int);
            assert(front.last() == all[at - 1]);
            assert(front.drop_last() =~= all.take(at - 1));
            assert(crate::store_model::placed(front, job@) + all.skip(at as int)
                =~= crate::store_model::placed(front.drop_last(), job@) + all.skip(at - 1));
        }
        at -= 1;
    }
    proof {
        let front = all.take(at as int);
        if at > 0 {
            assert(front.last() == all[at - 1]);
        }
        assert(front.push(job@) + all.skip(at as int) =~= all.insert(at as int, job@));
    }
    jobs.insert(at, job);
    assert(jobs.deep_view() =~= all.insert(at as int, job@));
}

fn subject_type_name(subject_type: EventSubjectType) -> (r: &'static str)
    ensures
        r@ == subject_type.name(),
{
    match subject_type {
        EventSubjectType::Repository => "Repository",
        EventSubjectType::Job => "Job",
        EventSubjectType::PolicyDecision => "PolicyDecision",
        EventSubjectType::LockDecision => "LockDecision",
        EventSubjectType::ToolInvocation => "ToolInvocation",
        EventSubjectType::ToolResult => "ToolResult",
        EventSubjectType::AuditRecord => "AuditRecord",
    }
}

fn severity_rank(severity: EventSeverity) -> (r: u8)
    ensures
        r == severity.rank(),
{
    match severity {
        EventSeverity::Debug => 0,
        EventSeverity::Info => 1,
        EventSeverity::Warning => 2,
        EventSeverity::Error => 3,
    }
}

/// A lock that is in force.
fn is_active_lock_status(status: LockStatus) -> (r: bool)
    ensures
        r == (status is Held),
{
    status == LockStatus::Held
}

/// The error for a record that something refers to and that is not there.
fn missing(collection: &'static str, id: String, context: &str) -> (r: StoreError)
    ensures
        r@ == StoreErrorModel::missing(collection@, id@, context@),
{
    StoreError::NotFound { collection, id: id.concat(" (").concat(context).concat(")") }
}

fn ensure_same_repository(
    collection: &'static str,
    context: &str,
    expected: &RepositoryId,
    actual: &RepositoryId,
) -> (r: StoreResult<()>)
    ensures
        match r {
            Ok(()) => expected@ == actual@,
            Err(error) => expected@ != actual@ && error@ == StoreErrorModel::foreign(
                collection@,
                context@,
                expected@,
                actual@,
            ),
        },
{
    if actual.same(expected) {
        return Ok(());
    }
    Err(
        StoreError::InvalidReference {
            collection,
            reason: context.to_owned().concat(" belongs to repository ").concat(
                actual.debug_text().as_str(),
            ).concat(", not ").concat(expected.debug_text().as_str()),
        },
    )
}

/// Hold the repository of one more reference against the one that is known so far.
fn ensure_event_repository_consistency(
    known: &mut Option<RepositoryId>,
    actual: &RepositoryId,
    context: &str,
) -> (r: StoreResult<()>)
    ensures
        match r {
            Ok(()) => crate::store_model::joined(
                Ok(old(known).deep_view()),
                Some(Ok(actual@)),
                context@,
            ) == Ok::<Option<Seq<char>>, StoreErrorModel>(final(known).deep_view()),
            Err(error) => crate::store_model::joined(
                Ok(old(known).deep_view()),
                Some(Ok(actual@)),
                context@,
            ) == Err::<Option<Seq<char>>, StoreErrorModel>(error@),
        },
{
    match known {
        Some(expected) => ensure_same_repository("job_events", context, expected, actual),
        None => {
            *known = Some(actual.duplicate());
            Ok(())
        },
    }
}

fn validate_lock_decision_timing(record: &LockDecision) -> (r: StoreResult<()>)
    ensures
        match record@.timing_problem() {
            None => r is Ok,
            Some(reason) => r is Err && r->Err_0@ == (StoreErrorModel::InvalidRecord {
                collection: "lock_decisions"@,
                reason,
            }),
        },
{
    if record.expires_at.unix_millis <= record.locked_at.unix_millis {
        return Err(invalid_lock("expires_at must be later than locked_at"));
    }
    if record.created_at != record.locked_at {
        return Err(invalid_lock("created_at must equal locked_at"));
    }
    if record.updated_at.unix_millis < record.locked_at.unix_millis {
        return Err(invalid_lock("updated_at must not be earlier than locked_at"));
    }
    if record.released_at.is_some() && record.reclaimed_at.is_some() {
        return Err(invalid_lock("released_at and reclaimed_at are mutually exclusive"));
    }
    match record.status {
        LockStatus::Held | LockStatus::Expired => {
            if record.released_at.is_some() || record.reclaimed_at.is_some() {
                return Err(
                    invalid_lock("active or expired locks must not have terminal timestamps"),
                );
            }
        },
        LockStatus::Released => {
            match record.released_at {
                None => {
                    return Err(invalid_lock("released locks require released_at"));
                },
                Some(at) => {
                    if at.unix_millis < record.locked_at.unix_millis
                        || record.updated_at.unix_millis < at.unix_millis {
                        return Err(
                            invalid_lock("released_at must be monotonic with lock timestamps"),
                        );
                    }
                },
            }
        },
        LockStatus::Reclaimed => {
            match record.reclaimed_at {
                None => {
                    return Err(invalid_lock("reclaimed locks require reclaimed_at"));
                },
                Some(at) => {
                    if at.unix_millis < record.expires_at.unix_millis
                        || record.updated_at.unix_millis < at.unix_millis {
                        return Err(
                            invalid_lock(
                                "reclaimed_at must be at or after expires_at and updated_at",
                            ),
                        );
                    }
                },
            }
        },
    }
    Ok(())
}

fn invalid_lock(reason: &str) -> (r: StoreError)
    ensures
        r@ == (StoreErrorModel::InvalidRecord { collection: "lock_decisions"@, reason: reason@ }),
{
    StoreError::InvalidRecord { collection: "lock_decisions", reason: reason.to_owned() }
}

impl Default for InMemoryStore {
    fn default() -> (r: Self)
        ensures
            r@ == StoreModel::empty(0),
    {
        InMemoryStore::new()
    }
}

impl InMemoryStore {
    pub fn new() -> (r: Self)
        ensures
            r@ == StoreModel::empty(0),
    {
        InMemoryStore::numbering_after(0)
    }

    /// An empty store that gives its first event the number after `last_sequence`.
    pub fn numbering_after(last_sequence: u64) -> (r: Self)
        ensures
            r@ == StoreModel::empty(last_sequence),
    {
        let store = InMemoryStore {
            repositories: Vec::new(),
            jobs: Vec::new(),
            events: Vec::new(),
            last_sequence,
            policy_decisions: Vec::new(),
            lock_decisions: Vec::new(),
            tool_invocations: Vec::new(),
            tool_results: Vec::new(),
            audit_records: Vec::new(),
        };
        assert(store@ =~= StoreModel::empty(last_sequence));
        store
    }

    fn job_or_pending<'a>(&'a self, id: &str, pending: Option<&'a JobRecord>) -> (r: Option<
        &'a JobRecord,
    >)
        ensures
            r.deep_view() == self@.job_or_pending(id@, pending.deep_view()),
    {
        match find(&self.jobs, id) {
            Some(job) => Some(job),
            None => match pending {
                Some(job) => if same_text(job.id.as_str(), id) {
                    Some(job)
                } else {
                    None
                },
                None => None,
            },
        }
    }

    /// The repository of a tool result: that of its invocation.
    fn result_repository(&self, shown: &str, result: &ToolResult) -> (r: StoreResult<
        &RepositoryId,
    >)
        ensures
            match r {
                Ok(repository) => self@.result_repository(shown@, result@) == Ok::<
                    Seq<char>,
                    StoreErrorModel,
                >(repository@),
                Err(error) => self@.result_repository(shown@, result@) == Err::<
                    Seq<char>,
                    StoreErrorModel,
                >(error@),
            },
    {
        match find(&self.tool_invocations, result.invocation_id.as_str()) {
            Some(invocation) => Ok(&invocation.repository_id),
            None => Err(
                StoreError::Conflict {
                    collection: "tool_results",
                    reason: "tool_result ".to_owned().concat(shown).concat(
                        " references missing invocation ",
                    ).concat(result.invocation_id.debug_text().as_str()),
                },
            ),
        }
    }

    fn subject_repository_id<'a>(&'a self, event: &JobEvent, pending: Option<&'a JobRecord>) -> (r:
        StoreResult<&'a RepositoryId>)
        ensures
            match r {
                Ok(repository) => self@.subject_repository(event@.subject, pending.deep_view())
                    == Ok::<Seq<char>, StoreErrorModel>(repository@),
                Err(error) => self@.subject_repository(event@.subject, pending.deep_view())
                    == Err::<Seq<char>, StoreErrorModel>(error@),
            },
    {
        let id = event.subject.subject_id.as_str();
        match event.subject.subject_type {
            EventSubjectType::Repository => match find(&self.repositories, id) {
                Some(record) => Ok(&record.id),
                None => Err(subject_not_found("repositories", event)),
            },
            EventSubjectType::Job => match self.job_or_pending(id, pending) {
                Some(record) => Ok(&record.repository_id),
                None => Err(subject_not_found("jobs", event)),
            },
            EventSubjectType::PolicyDecision => match find(&self.policy_decisions, id) {
                Some(record) => Ok(&record.repository_id),
                None => Err(subject_not_found("policy_decisions", event)),
            },
            EventSubjectType::LockDecision => match find(&self.lock_decisions, id) {
                Some(record) => Ok(&record.repository_id),
                None => Err(subject_not_found("lock_decisions", event)),
            },
            EventSubjectType::ToolInvocation => match find(&self.tool_invocations, id) {
                Some(record) => Ok(&record.repository_id),
                None => Err(subject_not_found("tool_invocations", event)),
            },
            EventSubjectType::ToolResult => match find(&self.tool_results, id) {
                Some(record) => self.result_repository(id, record),
                None => Err(subject_not_found("tool_results", event)),
            },
            EventSubjectType::AuditRecord => match find(&self.audit_records, id) {
                Some(record) => Ok(&record.repository_id),
                None => Err(subject_not_found("audit_records", event)),
            },
        }
    }

    /// Follow every reference of an event and hold the repositories that they lead to
    /// against each other, beginning with the one in `known`.
    fn derive_event_repository_from_refs(
        &self,
        event: &JobEvent,
        pending: Option<&JobRecord>,
        known: Option<RepositoryId>,
    ) -> (r: StoreResult<Option<RepositoryId>>)
        ensures
            match r {
                Ok(repository) => self@.refs_repository(
                    event@.refs,
                    pending.deep_view(),
                    known.deep_view(),
                ) == Ok::<Option<Seq<char>>, StoreErrorModel>(repository.deep_view()),
                Err(error) => self@.refs_repository(
                    event@.refs,
                    pending.deep_view(),
                    known.deep_view(),
                ) == Err::<Option<Seq<char>>, StoreErrorModel>(error@),
            },
    {
        let mut known = known;
        if let Some(id) = &event.refs.job_id {
            match self.job_or_pending(id.as_str(), pending) {
                Some(record) => ensure_event_repository_consistency(
                    &mut known,
                    &record.repository_id,
                    "job_event.refs.job_id",
                )?,
                None => {
                    return Err(missing("jobs", id.debug_text(), "job_event.refs.job_id"));
                },
            }
        }
        if let Some(id) = &event.refs.policy_decision_id {
            match find(&self.policy_decisions, id.as_str()) {
                Some(record) => ensure_event_repository_consistency(
                    &mut known,
                    &record.repository_id,
                    "job_event.refs.policy_decision_id",
                )?,
                None => {
                    return Err(
                        missing(
                            "policy_decisions",
                            id.debug_text(),
                            "job_event.refs.policy_decision_id",
                        ),
                    );
                },
            }
        }
        if let Some(id) = &event.refs.lock_decision_id {
            match find(&self.lock_decisions, id.as_str()) {
                Some(record) => ensure_event_repository_consistency(
                    &mut known,
                    &record.repository_id,
                    "job_event.refs.lock_decision_id",
                )?,
                None => {
                    return Err(
                        missing(
                            "lock_decisions",
                            id.debug_text(),
                            "job_event.refs.lock_decision_id",
                        ),
                    );
                },
            }
        }
        if let Some(id) = &event.refs.tool_invocation_id {
            match find(&self.tool_invocations, id.as_str()) {
                Some(record) => ensure_event_repository_consistency(
                    &mut known,
                    &record.repository_id,
                    "job_event.refs.tool_invocation_id",
                )?,
                None => {
                    return Err(
                        missing(
                            "tool_invocations",
                            id.debug_text(),
                            "job_event.refs.tool_invocation_id",
                        ),
                    );
                },
            }
        }
        if let Some(id) = &event.refs.tool_result_id {
            match find(&self.tool_results, id.as_str()) {
                Some(record) => {
                    let shown = id.debug_text();
                    let repository = self.result_repository(shown.as_str(), record)?;
                    ensure_event_repository_consistency(
                        &mut known,
                        repository,
                        "job_event.refs.tool_result_id",
                    )?;
                },
                None => {
                    return Err(
                        missing("tool_results", id.debug_text(), "job_event.refs.tool_result_id"),
                    );
                },
            }
        }
        if let Some(id) = &event.refs.audit_record_id {
            match find(&self.audit_records, id.as_str()) {
                Some(record) => ensure_event_repository_consistency(
                    &mut known,
                    &record.repository_id,
                    "job_event.refs.audit_record_id",
                )?,
                None => {
                    return Err(
                        missing("audit_records", id.debug_text(), "job_event.refs.audit_record_id"),
                    );
                },
            }
        }
        Ok(known)
    }

    fn validate_event_refs(
        &self,
        event: &JobEvent,
        pending: Option<&JobRecord>,
        subject_repository_id: &RepositoryId,
    ) -> (r: StoreResult<()>)
        ensures
            match self@.refs_problem(event@.refs, pending.deep_view(), subject_repository_id@) {
                None => r is Ok,
                Some(error) => r is Err && r->Err_0@ == error,
            },
    {
        let known = match &event.refs.repository_id {
            Some(id) => {
                if !contains(&self.repositories, id.as_str()) {
                    return Err(
                        missing("repositories", id.debug_text(), "job_event.refs.repository_id"),
                    );
                }
                Some(id.duplicate())
            },
            None => Some(subject_repository_id.duplicate()),
        };
        match self.derive_event_repository_from_refs(event, pending, known) {
            Ok(_) => Ok(()),
            Err(error) => Err(error),
        }
    }

    fn validate_new_job_event(&self, event: &JobEvent, pending: Option<&JobRecord>) -> (r:
        StoreResult<()>)
        ensures
            match self@.event_problem(event@, pending.deep_view()) {
                None => r is Ok,
                Some(error) => r is Err && r->Err_0@ == error,
            },
    {
        proof {
            reveal(StoreModel::event_problem);
        }
        if contains(&self.events, event.id.as_str()) {
            return Err(
                StoreError::DuplicateId { collection: "job_events", id: event.id.debug_text() },
            );
        }
        if !event.subject.has_valid_subject_id() {
            return Err(
                StoreError::InvalidReference {
                    collection: "job_events",
                    reason: "event.subject_id ".to_owned().concat(
                        event.subject.subject_id.as_str(),
                    ).concat(" does not match subject_type ").concat(
                        subject_type_name(event.subject.subject_type),
                    ),
                },
            );
        }
        let subject_repository_id = self.subject_repository_id(event, pending)?;
        if let Some(id) = &event.refs.repository_id {
            ensure_same_repository(
                "job_events",
                "job_event.subject_id",
                id,
                subject_repository_id,
            )?;
        }
        self.validate_event_refs(event, pending, subject_repository_id)
    }

    /// Give an event the next number and append it.
    fn append_validated(&mut self, event: JobEvent) -> (r: JobEvent)
        requires
            old(self).last_sequence < u64::MAX,
        ensures
            final(self)@ == old(self)@.with_event(event@),
            r@ == old(self)@.numbered(event@),
            final(self).jobs == old(self).jobs,
    {
        let mut event = event;
        let next: u64 = self.last_sequence + 1;
        self.last_sequence = next;
        event.sequence_number = next;
        let stored = event.duplicate();
        push_row(&mut self.events, stored);
        assert(self@ =~= old(self)@.with_event(event@));
        event
    }

    /// Take back an update of a job: the last event, the number that it was given, and
    /// the job as it was before.
    fn undo_update(&mut self, at: usize, previous: JobRecord)
        requires
            old(self)@.events.len() > 0,
            old(self)@.last_sequence > 0,
            at < old(self)@.jobs.len(),
        ensures
            final(self)@ == (StoreModel {
                events: old(self)@.events.drop_last(),
                last_sequence: (old(self)@.last_sequence - 1) as u64,
                jobs: old(self)@.jobs.update(at as int, previous@),
                ..old(self)@
            }),
    {
        drop_row(&mut self.events);
        self.last_sequence = self.last_sequence - 1;
        set_row(&mut self.jobs, at, previous);
    }

    /// The part of recording a tool result that follows once the result is stored.
    /// `at` is the place of the job and `previous` the job that stands there.
    fn record_audit_after_result(
        &mut self,
        job: &JobRecord,
        result_event: JobEvent,
        audit: AuditRecord,
        audit_event: JobEvent,
        at: usize,
        previous: JobRecord,
    ) -> (r: StoreResult<(JobEvent, JobEvent)>)
        requires
            at < old(self)@.jobs.len(),
            at == crate::table::index_of::<JobRecord>(old(self)@.jobs, job@.id),
            previous@ == old(self)@.jobs[at as int],
        ensures
            crate::store_model::outcome(
                old(self)@.record_audit(job@, result_event@, audit@, audit_event@),
                old(self)@,
                final(self)@,
                r,
                true,
            ),
    {
        let first = self.append_job_event_and_update_job(job.duplicate(), result_event)?;
        proof {
            lemma_update_undone(old(self)@, job@, result_event@, self@, first@);
        }
        match self.create_audit_record(audit) {
            Ok(()) => {},
            Err(error) => {
                self.undo_update(at, previous);
                return Err(error);
            },
        }
        match self.append_job_event_and_update_job(job.duplicate(), audit_event) {
            Ok(second) => Ok((first, second)),
            Err(error) => {
                drop_row(&mut self.audit_records);
                self.undo_update(at, previous);
                assert(self@ =~= old(self)@);
                Err(error)
            },
        }
    }

    fn event_cursor_sequence(&self, cursor: &EventCursor) -> (r: StoreResult<u64>)
        ensures
            match r {
                Ok(sequence) => self@.cursor_sequence(cursor@) == Ok::<u64, StoreErrorModel>(
                    sequence,
                ),
                Err(error) => self@.cursor_sequence(cursor@) == Err::<u64, StoreErrorModel>(error@),
            },
    {
        match cursor {
            EventCursor::Beginning => Ok(0),
            EventCursor::AfterSequence(sequence) => Ok(*sequence),
            EventCursor::AfterEventId(id) => match find(&self.events, id.as_str()) {
                Some(event) => Ok(event.sequence_number),
                None => Err(
                    StoreError::InvalidCursor {
                        reason: "event id is not retained: ".to_owned().concat(
                            id.debug_text().as_str(),
                        ),
                    },
                ),
            },
        }
    }

    fn event_repository_id(&self, event: &JobEvent) -> (r: StoreResult<Option<RepositoryId>>)
        ensures
            match r {
                Ok(repository) => self@.event_repository(event@) == Ok::<
                    Option<Seq<char>>,
                    StoreErrorModel,
                >(repository.deep_view()),
                Err(error) => self@.event_repository(event@) == Err::<
                    Option<Seq<char>>,
                    StoreErrorModel,
                >(error@),
            },
    {
        if let Some(id) = &event.refs.repository_id {
            return Ok(Some(id.duplicate()));
        }
        let subject_repository_id = self.subject_repository_id(event, None)?.duplicate();
        self.derive_event_repository_from_refs(event, None, Some(subject_repository_id))
    }

    fn event_matches_query(&self, event: &JobEvent, query: &EventQuery) -> (r: StoreResult<bool>)
        ensures
            match r {
                Ok(matches) => self@.event_matches(event@, query@) == Ok::<bool, StoreErrorModel>(
                    matches,
                ),
                Err(error) => self@.event_matches(event@, query@) == Err::<bool, StoreErrorModel>(
                    error@,
                ),
            },
    {
        let repository_matches: bool = match &query.repository_id {
            Some(id) => match self.event_repository_id(event)? {
                Some(repository) => repository.same(id),
                None => false,
            },
            None => true,
        };
        let subject_matches: bool = query.subject_ids.is_empty() || holds_text(
            &query.subject_ids,
            event.subject.subject_id.as_str(),
        );
        let severity_matches: bool = match query.min_severity {
            Some(min_severity) => severity_rank(event.severity) >= severity_rank(min_severity),
            None => true,
        };
        assert(query@.subject_ids.len() == query.subject_ids.len());
        Ok(repository_matches && subject_matches && severity_matches)
    }

    fn validate_tool_invocation_refs(&self, record: &ToolInvocation) -> (r: StoreResult<()>)
        ensures
            match self@.invocation_problem(record@) {
                None => r is Ok,
                Some(error) => r is Err && r->Err_0@ == error,
            },
    {
        proof {
            reveal(StoreModel::invocation_problem);
        }
        match find(&self.jobs, record.job_id.as_str()) {
            None => Err(missing("jobs", record.job_id.debug_text(), "tool_invocation.job_id")),
            Some(job) => {
                if !contains(&self.repositories, record.repository_id.as_str()) {
                    return Err(
                        missing(
                            "repositories",
                            record.repository_id.debug_text(),
                            "tool_invocation.repository_id",
                        ),
                    );
                }
                ensure_same_repository(
                    "tool_invocations",
                    "tool_invocation.job_id",
                    &record.repository_id,
                    &job.repository_id,
                )?;
                match find(&self.policy_decisions, record.policy_decision_id.as_str()) {
                    None => Err(
                        missing(
                            "policy_decisions",
                            record.policy_decision_id.debug_text(),
                            "tool_invocation.policy_decision_id",
                        ),
                    ),
                    Some(policy_decision) => ensure_same_repository(
                        "tool_invocations",
                        "tool_invocation.policy_decision_id",
                        &record.repository_id,
                        &policy_decision.repository_id,
                    ),
                }
            },
        }
    }

    fn validate_tool_result_refs(&self, record: &ToolResult) -> (r: StoreResult<()>)
        ensures
            match self@.result_problem(record@) {
                None => r is Ok,
                Some(error) => r is Err && r->Err_0@ == error,
            },
    {
        proof {
            reveal(StoreModel::result_problem);
        }
        match find(&self.tool_invocations, record.invocation_id.as_str()) {
            None => Err(
                missing(
                    "tool_invocations",
                    record.invocation_id.debug_text(),
                    "tool_result.invocation_id",
                ),
            ),
            Some(invocation) => {
                if !invocation.tool_id.same(&record.tool_id) {
                    return Err(
                        StoreError::InvalidReference {
                            collection: "tool_results",
                            reason: "tool_result.tool_id ".to_owned().concat(
                                record.tool_id.as_str(),
                            ).concat(" does not match invocation tool_id ").concat(
                                invocation.tool_id.as_str(),
                            ),
                        },
                    );
                }
                if self.is_answered(&record.invocation_id) {
                    return Err(
                        StoreError::Conflict {
                            collection: "tool_results",
                            reason: "tool_result already exists for invocation ".to_owned().concat(
                                record.invocation_id.debug_text().as_str(),
                            ),
                        },
                    );
                }
                Ok(())
            },
        }
    }

    /// Whether some stored result answers the invocation.
    fn is_answered(&self, invocation_id: &ToolInvocationId) -> (r: bool)
        ensures
            r == self@.is_answered(invocation_id@),
    {
        let ghost all = self@.tool_results;
        let mut i: usize = 0;
        while i < self.tool_results.len()
            invariant
                i <= self.tool_results.len(),
                all == self.tool_results.deep_view(),
                forall|j: int| 0 <= j < i ==> #[trigger] all[j].invocation_id != invocation_id@,
            decreases self.tool_results.len() - i,
        {
            assert(all[i as int] == self.tool_results[i as int]@);
            if self.tool_results[i].invocation_id.same(invocation_id) {
                assert(all[i as int].invocation_id == invocation_id@);
                return true;
            }
            i += 1;
        }
        false
    }

    fn validate_audit_record_refs(&self, record: &AuditRecord) -> (r: StoreResult<()>)
        ensures
            match self@.audit_problem(record@) {
                None => r is Ok,
                Some(error) => r is Err && r->Err_0@ == error,
            },
    {
        proof {
            reveal(StoreModel::audit_problem);
        }
        if !contains(&self.repositories, record.repository_id.as_str()) {
            return Err(
                missing(
                    "repositories",
                    record.repository_id.debug_text(),
                    "audit_record.repository_id",
                ),
            );
        }
        match find(&self.policy_decisions, record.policy_decision_id.as_str()) {
            None => {
                return Err(
                    missing(
                        "policy_decisions",
                        record.policy_decision_id.debug_text(),
                        "audit_record.policy_decision_id",
                    ),
                );
            },
            Some(policy_decision) => ensure_same_repository(
                "audit_records",
                "audit_record.policy_decision_id",
                &record.repository_id,
                &policy_decision.repository_id,
            )?,
        }
        if let Some(id) = &record.tool_invocation_id {
            match find(&self.tool_invocations, id.as_str()) {
                None => {
                    return Err(
                        missing(
                            "tool_invocations",
                            id.debug_text(),
                            "audit_record.tool_invocation_id",
                        ),
                    );
                },
                Some(invocation) => {
                    ensure_same_repository(
                        "audit_records",
                        "audit_record.tool_invocation_id",
                        &record.repository_id,
                        &invocation.repository_id,
                    )?;
                    if !invocation.policy_decision_id.same(&record.policy_decision_id) {
                        return Err(
                            StoreError::InvalidReference {
                                collection: "audit_records",
                                reason: "audit_record.tool_invocation_id ".to_owned().concat(
                                    id.debug_text().as_str(),
                                ).concat(" belongs to policy_decision_id ").concat(
                                    invocation.policy_decision_id.debug_text().as_str(),
                                ).concat(", not ").concat(
                                    record.policy_decision_id.debug_text().as_str(),
                                ),
                            },
                        );
                    }
                },
            }
        }
        Ok(())
    }

    fn validate_lock_decision(&self, record: &LockDecision) -> (r: StoreResult<()>)
        ensures
            match self@.lock_problem(record@) {
                None => r is Ok,
                Some(error) => r is Err && r->Err_0@ == error,
            },
    {
        proof {
            reveal(StoreModel::lock_problem);
        }
        if contains(&self.lock_decisions, record.id.as_str()) {
            return Err(
                StoreError::DuplicateId {
                    collection: "lock_decisions",
                    id: record.id.debug_text(),
                },
            );
        }
        validate_lock_decision_timing(record)?;
        if !contains(&self.repositories, record.repository_id.as_str()) {
            return Err(
                StoreError::NotFound {
                    collection: "repositories",
                    id: record.repository_id.debug_text(),
                },
            );
        }
        match find(&self.policy_decisions, record.policy_decision_id.as_str()) {
            None => {
                return Err(
                    StoreError::NotFound {
                        collection: "policy_decisions",
                        id: record.policy_decision_id.debug_text(),
                    },
                );
            },
            Some(policy_decision) => ensure_same_repository(
                "lock_decisions",
                "lock_decision.policy_decision_id",
                &record.repository_id,
                &policy_decision.repository_id,
            )?,
        }
        if let LockOwner::Job(job_id) = &record.owner {
            match find(&self.jobs, job_id.as_str()) {
                None => {
                    return Err(missing("jobs", job_id.debug_text(), "lock_decision.owner"));
                },
                Some(job) => ensure_same_repository(
                    "lock_decisions",
                    "lock_decision.owner",
                    &record.repository_id,
                    &job.repository_id,
                )?,
            }
        }
        match self.conflicting_lock(record) {
            Some(existing) => Err(
                StoreError::Conflict {
                    collection: "lock_decisions",
                    reason: "active lock ".to_owned().concat(
                        existing.id.debug_text().as_str(),
                    ).concat(" already covers repository/scope"),
                },
            ),
            None => Ok(()),
        }
    }

    /// The stored lock that `record` clashes with.
    fn conflicting_lock(&self, record: &LockDecision) -> (r: Option<&LockDecision>)
        ensures
            r.deep_view() == crate::store_model::first_clash(self@.lock_decisions, record@),
    {
        let ghost all = self@.lock_decisions;
        let mut i: usize = 0;
        assert(all.skip(0) =~= all);
        while i < self.lock_decisions.len()
            invariant
                i <= self.lock_decisions.len(),
                all == self.lock_decisions.deep_view(),
                crate::store_model::first_clash(all, record@) == crate::store_model::first_clash(
                    all.skip(i as int),
                    record@,
                ),
            decreases self.lock_decisions.len() - i,
        {
            let existing = &self.lock_decisions[i];
            assert(all.skip(i as int)[0] == existing@);
            assert(all.skip(i as int).drop_first() =~= all.skip(i + 1));
            if is_active_lock_status(record.status) && is_active_lock_status(existing.status)
                && existing.repository_id.same(&record.repository_id)
                && existing.locked_scope.same(&record.locked_scope) {
                return Some(existing);
            }
            i += 1;
        }
        None
    }

    fn validate_initial_event_for_job(&self, record: &JobRecord, event: &JobEvent) -> (r:
        StoreResult<()>)
        ensures
            match self@.initial_event_problem(record@, event@) {
                None => r is Ok,
                Some(error) => r is Err && r->Err_0@ == error,
            },
    {
        if event.subject.subject_type != EventSubjectType::Job || !same_text(
            event.subject.subject_id.as_str(),
            record.id.as_str(),
        ) {
            return Err(
                StoreError::InvalidReference {
                    collection: "job_events",
                    reason: "initial event subject must identify job ".to_owned().concat(
                        record.id.debug_text().as_str(),
                    ),
                },
            );
        }
        let names_job: bool = match &event.refs.job_id {
            Some(id) => id.same(&record.id),
            None => false,
        };
        if !names_job {
            return Err(
                StoreError::InvalidReference {
                    collection: "job_events",
                    reason: "initial event refs.job_id must identify job ".to_owned().concat(
                        record.id.debug_text().as_str(),
                    ),
                },
            );
        }
        let names_repository: bool = match &event.refs.repository_id {
            Some(id) => id.same(&record.repository_id),
            None => false,
        };
        if !names_repository {
            return Err(
                StoreError::InvalidReference {
                    collection: "job_events",
                    reason:
                        "initial event refs.repository_id must identify repository ".to_owned().concat(
                    record.repository_id.debug_text().as_str()),
                },
            );
        }
        Ok(())
    }
}

fn subject_not_found(collection: &'static str, event: &JobEvent) -> (r: StoreError)
    ensures
        r@ == StoreErrorModel::missing(
            collection@,
            event@.subject.subject_id,
            "job_event.subject_id"@,
        ),
{
    missing(collection, event.subject.subject_id.clone(), "job_event.subject_id")
}

impl SecretaryStore for InMemoryStore {
    open spec fn state(&self) -> StoreModel {
        self@
    }

    open spec fn reliable(&self) -> bool {
        true
    }

    fn create_repository(&mut self, record: RepositoryRecord) -> (r: StoreResult<()>) {
        if contains(&self.repositories, record.id.as_str()) {
            return Err(
                StoreError::DuplicateId { collection: "repositories", id: record.id.debug_text() },
            );
        }
        push_row(&mut self.repositories, record);
        Ok(())
    }

    fn list_repositories(&self) -> (r: StoreResult<Vec<RepositoryRecord>>) {
        Ok(self.repositories.duplicate())
    }

    fn get_repository(&self, id: &RepositoryId) -> (r: StoreResult<RepositoryRecord>) {
        match find(&self.repositories, id.as_str()) {
            Some(record) => Ok(record.duplicate()),
            None => Err(StoreError::NotFound { collection: "repositories", id: id.debug_text() }),
        }
    }

    fn create_job_with_initial_event(&mut self, record: JobRecord, initial_event: JobEvent) -> (r:
        StoreResult<JobEvent>) {
        if !contains(&self.repositories, record.repository_id.as_str()) {
            return Err(
                missing("repositories", record.repository_id.debug_text(), "job.repository_id"),
            );
        }
        if contains(&self.jobs, record.id.as_str()) {
            return Err(StoreError::DuplicateId { collection: "jobs", id: record.id.debug_text() });
        }
        self.validate_initial_event_for_job(&record, &initial_event)?;
        self.validate_new_job_event(&initial_event, Some(&record))?;
        if self.last_sequence == u64::MAX {
            return Err(StoreError::SequenceOverflow);
        }
        let mut record = record;
        record.latest_event_id = Some(initial_event.id.duplicate());
        let stored = self.append_validated(initial_event);
        push_row(&mut self.jobs, record);
        Ok(stored)
    }

    fn list_jobs(&self) -> (r: StoreResult<Vec<JobRecord>>) {
        Ok(self.jobs.duplicate())
    }

    fn query_jobs(&self, query: JobQuery) -> (r: StoreResult<JobPage>) {
        let start: usize = page_start(&query.page_token, "jobs")?;
        let page_size: usize = match query.page_size {
            Some(size) => size,
            None => usize::MAX,
        };
        let ghost all = self@.jobs;
        let mut selected: Vec<JobRecord> = Vec::new();
        let mut i: usize = 0;
        assert(selected.deep_view() =~= crate::store_model::ordered(query@.selection(all.take(0))))
            by {
            assert(all.take(0) =~= Seq::empty());
        }
        while i < self.jobs.len()
            invariant
                i <= self.jobs.len(),
                all == self.jobs.deep_view(),
                selected.deep_view() == crate::store_model::ordered(
                    query@.selection(all.take(i as int)),
                ),
            decreases self.jobs.len() - i,
        {
            let job = &self.jobs[i];
            let in_repository: bool = match &query.repository_id {
                Some(id) => job.repository_id.same(id),
                None => true,
            };
            let in_status: bool = match query.status {
                Some(status) => job.status == status,
                None => true,
            };
            let from_requester: bool = match &query.requester {
                Some(requester) => job.requester.same(requester),
                None => true,
            };
            proof {
                assert(all.take(i + 1).drop_last() =~= all.take(i as int));
                assert(all.take(i + 1).last() == job@);
                let before = query@.selection(all.take(i as int));
                assert(before.push(job@).drop_last() =~= before);
            }
            if in_repository && in_status && from_requester {
                place_job(&mut selected, job.duplicate());
            }
            i += 1;
        }
        assert(all.take(i as int) =~= all);
        let (jobs, next_page_token) = page_records(&selected, start, page_size);
        Ok(JobPage { jobs, next_page_token })
    }

    fn get_job(&self, id: &JobId) -> (r: StoreResult<JobRecord>) {
        match find(&self.jobs, id.as_str()) {
            Some(record) => Ok(record.duplicate()),
            None => Err(StoreError::NotFound { collection: "jobs", id: id.debug_text() }),
        }
    }

    fn append_job_event(&mut self, event: JobEvent) -> (r: StoreResult<JobEvent>) {
        self.validate_new_job_event(&event, None)?;
        if self.last_sequence == u64::MAX {
            return Err(StoreError::SequenceOverflow);
        }
        Ok(self.append_validated(event))
    }

    fn append_job_event_and_update_job(&mut self, job: JobRecord, event: JobEvent) -> (r:
        StoreResult<JobEvent>) {
        let at: usize = position(&self.jobs, job.id.as_str());
        if at >= self.jobs.len() {
            return Err(StoreError::NotFound { collection: "jobs", id: job.id.debug_text() });
        }
        ensure_same_repository(
            "jobs",
            "job.repository_id",
            &self.jobs[at].repository_id,
            &job.repository_id,
        )?;
        self.validate_new_job_event(&event, None)?;
        if self.last_sequence == u64::MAX {
            return Err(StoreError::SequenceOverflow);
        }
        let mut job = job;
        job.latest_event_id = Some(event.id.duplicate());
        let stored = self.append_validated(event);
        set_row(&mut self.jobs, at, job);
        Ok(stored)
    }

    fn append_job_events_and_update_job(
        &mut self,
        first_job: JobRecord,
        first_event: JobEvent,
        second_job: JobRecord,
        second_event: JobEvent,
    ) -> (r: StoreResult<(JobEvent, JobEvent)>) {
        let at: usize = position(&self.jobs, first_job.id.as_str());
        if at >= self.jobs.len() {
            return Err(StoreError::NotFound { collection: "jobs", id: first_job.id.debug_text() });
        }
        let previous = self.jobs[at].duplicate();
        let first = self.append_job_event_and_update_job(first_job, first_event)?;
        proof {
            lemma_update_undone(old(self)@, first_job@, first_event@, self@, first@);
        }
        match self.append_job_event_and_update_job(second_job, second_event) {
            Ok(second) => Ok((first, second)),
            Err(error) => {
                self.undo_update(at, previous);
                Err(error)
            },
        }
    }

    fn record_tool_result_and_audit_with_events(
        &mut self,
        job: JobRecord,
        result: ToolResult,
        result_event: JobEvent,
        audit: AuditRecord,
        audit_event: JobEvent,
    ) -> (r: StoreResult<(JobEvent, JobEvent)>) {
        let at: usize = position(&self.jobs, job.id.as_str());
        self.create_tool_result(result)?;
        let ghost with_result = self@;
        assert(with_result.tool_results.drop_last() =~= old(self)@.tool_results);
        if at >= self.jobs.len() {
            drop_row(&mut self.tool_results);
            return Err(StoreError::NotFound { collection: "jobs", id: job.id.debug_text() });
        }
        let previous = self.jobs[at].duplicate();
        match self.record_audit_after_result(&job, result_event, audit, audit_event, at, previous) {
            Ok(events) => Ok(events),
            Err(error) => {
                drop_row(&mut self.tool_results);
                Err(error)
            },
        }
    }

    fn replay_job_events(&self, cursor: EventCursor, limit: Option<usize>) -> (r: StoreResult<
        Vec<JobEvent>,
    >) {
        let after: u64 = self.event_cursor_sequence(&cursor)?;
        let ghost all = self@.events;
        let mut events: Vec<JobEvent> = Vec::new();
        let mut i: usize = 0;
        assert(events.deep_view() =~= crate::store_model::events_after(all.take(0), after)) by {
            assert(all.take(0) =~= Seq::empty());
        }
        while i < self.events.len()
            invariant
                i <= self.events.len(),
                all == self.events.deep_view(),
                events.deep_view() == crate::store_model::events_after(all.take(i as int), after),
            decreases self.events.len() - i,
        {
            proof {
                assert(all.take(i + 1).drop_last() =~= all.take(i as int));
                assert(all.take(i + 1).last() == self.events[i as int]@);
            }
            if self.events[i].sequence_number > after {
                push_row(&mut events, self.events[i].duplicate());
            }
            i += 1;
        }
        assert(all.take(i as int) =~= all);
        let ghost later = events.deep_view();
        assert(later.len() == events.len());
        if let Some(limit) = limit {
            if limit < events.len() {
                events.truncate(limit);
                assert(events.deep_view() =~= later.take(limit as int));
            }
        }
        Ok(events)
    }

    fn query_job_events(&self, query: EventQuery) -> (r: StoreResult<EventPage>) {
        let start: usize = page_start(&query.page_token, "job_events")?;
        let page_size: usize = match query.page_size {
            Some(size) => size,
            None => usize::MAX,
        };
        let after: u64 = self.event_cursor_sequence(&query.cursor)?;
        let ghost all = self@.events;
        let mut selected: Vec<JobEvent> = Vec::new();
        let mut i: usize = 0;
        assert(selected.deep_view() =~= Seq::empty());
        assert(all.take(0) =~= Seq::empty());
        while i < self.events.len()
            invariant
                i <= self.events.len(),
                all == self.events.deep_view(),
                all == self@.events,
                self@.matching_events(all.take(i as int), after, query@) == Ok::<
                    Seq<JobEventModel>,
                    StoreErrorModel,
                >(selected.deep_view()),
                self@.cursor_sequence(query@.cursor) == Ok::<u64, StoreErrorModel>(after),
                crate::store_model::page_start_of(query@.page_token, "job_events"@) == Ok::<
                    int,
                    StoreErrorModel,
                >(start as int),
            decreases self.events.len() - i,
        {
            let event = &self.events[i];
            proof {
                assert(all.take(i + 1).drop_last() =~= all.take(i as int));
                assert(all.take(i + 1).last() == event@);
            }
            if event.sequence_number > after {
                match self.event_matches_query(event, &query) {
                    Ok(matches) => {
                        if matches {
                            push_row(&mut selected, event.duplicate());
                        }
                    },
                    Err(error) => {
                        proof {
                            lemma_matching_error(self@, all, after, query@, i + 1);
                        }
                        return Err(error);
                    },
                }
            }
            i += 1;
        }
        assert(all.take(i as int) =~= all);
        let (events, next_page_token) = page_records(&selected, start, page_size);
        Ok(EventPage { events, next_page_token })
    }

    fn get_job_event(&self, id: &JobEventId) -> (r: StoreResult<JobEvent>) {
        match find(&self.events, id.as_str()) {
            Some(record) => Ok(record.duplicate()),
            None => Err(StoreError::NotFound { collection: "job_events", id: id.debug_text() }),
        }
    }

    fn create_policy_decision(&mut self, record: PolicyDecision) -> (r: StoreResult<()>) {
        if !contains(&self.repositories, record.repository_id.as_str()) {
            return Err(
                missing(
                    "repositories",
                    record.repository_id.debug_text(),
                    "policy_decision.repository_id",
                ),
            );
        }
        if contains(&self.policy_decisions, record.id.as_str()) {
            return Err(
                StoreError::DuplicateId {
                    collection: "policy_decisions",
                    id: record.id.debug_text(),
                },
            );
        }
        push_row(&mut self.policy_decisions, record);
        Ok(())
    }

    fn list_policy_decisions(&self) -> (r: StoreResult<Vec<PolicyDecision>>) {
        Ok(self.policy_decisions.duplicate())
    }

    fn get_policy_decision(&self, id: &PolicyDecisionId) -> (r: StoreResult<PolicyDecision>) {
        match find(&self.policy_decisions, id.as_str()) {
            Some(record) => Ok(record.duplicate()),
            None => Err(
                StoreError::NotFound { collection: "policy_decisions", id: id.debug_text() },
            ),
        }
    }

    fn create_lock_decision(&mut self, record: LockDecision) -> (r: StoreResult<()>) {
        self.validate_lock_decision(&record)?;
        push_row(&mut self.lock_decisions, record);
        Ok(())
    }

    fn list_lock_decisions(&self) -> (r: StoreResult<Vec<LockDecision>>) {
        Ok(self.lock_decisions.duplicate())
    }

    fn get_lock_decision(&self, id: &LockDecisionId) -> (r: StoreResult<LockDecision>) {
        match find(&self.lock_decisions, id.as_str()) {
            Some(record) => Ok(record.duplicate()),
            None => Err(
                StoreError::NotFound { collection: "lock_decisions", id: id.debug_text() },
            ),
        }
    }

    fn create_tool_invocation(&mut self, record: ToolInvocation) -> (r: StoreResult<()>) {
        self.validate_tool_invocation_refs(&record)?;
        if contains(&self.tool_invocations, record.id.as_str()) {
            return Err(
                StoreError::DuplicateId {
                    collection: "tool_invocations",
                    id: record.id.debug_text(),
                },
            );
        }
        push_row(&mut self.tool_invocations, record);
        Ok(())
    }

    fn list_tool_invocations(&self) -> (r: StoreResult<Vec<ToolInvocation>>) {
        Ok(self.tool_invocations.duplicate())
    }

    fn get_tool_invocation(&self, id: &ToolInvocationId) -> (r: StoreResult<ToolInvocation>) {
        match find(&self.tool_invocations, id.as_str()) {
            Some(record) => Ok(record.duplicate()),
            None => Err(
                StoreError::NotFound { collection: "tool_invocations", id: id.debug_text() },
            ),
        }
    }

    fn create_tool_result(&mut self, record: ToolResult) -> (r: StoreResult<()>) {
        self.validate_tool_result_refs(&record)?;
        if contains(&self.tool_results, record.id.as_str()) {
            return Err(
                StoreError::DuplicateId {
                    collection: "tool_results",
                    id: record.id.debug_text(),
                },
            );
        }
        push_row(&mut self.tool_results, record);
        Ok(())
    }

    fn list_tool_results(&self) -> (r: StoreResult<Vec<ToolResult>>) {
        Ok(self.tool_results.duplicate())
    }

    fn get_tool_result(&self, id: &ToolResultId) -> (r: StoreResult<ToolResult>) {
        match find(&self.tool_results, id.as_str()) {
            Some(record) => Ok(record.duplicate()),
            None => Err(
                StoreError::NotFound { collection: "tool_results", id: id.debug_text() },
            ),
        }
    }

    fn create_audit_record(&mut self, record: AuditRecord) -> (r: StoreResult<()>) {
        self.validate_audit_record_refs(&record)?;
        if contains(&self.audit_records, record.id.as_str()) {
            return Err(
                StoreError::DuplicateId {
                    collection: "audit_records",
                    id: record.id.debug_text(),
                },
            );
        }
        push_row(&mut self.audit_records, record);
        Ok(())
    }

    fn list_audit_records(&self) -> (r: StoreResult<Vec<AuditRecord>>) {
        Ok(self.audit_records.duplicate())
    }

    fn get_audit_record(&self, id: &AuditRecordId) -> (r: StoreResult<AuditRecord>) {
        match find(&self.audit_records, id.as_str()) {
            Some(record) => Ok(record.duplicate()),
            None => Err(
                StoreError::NotFound { collection: "audit_records", id: id.debug_text() },
            ),
        }
    }
}

/// An update of a job can be taken back.
proof fn lemma_update_undone(
    before: StoreModel,
    job: JobRecordModel,
    event: JobEventModel,
    after: StoreModel,
    appended: JobEventModel,
)
    requires
        before.update_job(job, event) == Ok::<(StoreModel, JobEventModel), StoreErrorModel>(
            (after, appended),
        ),
    ensures
        after.events.len() > 0,
        after.last_sequence > 0,
        after.jobs.len() == before.jobs.len(),
        ({
            let at = crate::table::index_of::<JobRecord>(before.jobs, job.id);
            &&& 0 <= at < before.jobs.len()
            &&& StoreModel {
                events: after.events.drop_last(),
                last_sequence: (after.last_sequence - 1) as u64,
                jobs: after.jobs.update(at, before.jobs[at]),
                ..after
            } == before
        }),
{
    let at = crate::table::index_of::<JobRecord>(before.jobs, job.id);
    crate::table::lemma_index_of::<JobRecord>(before.jobs, job.id);
    assert(after.events.drop_last() =~= before.events);
    assert(after.jobs.update(at, before.jobs[at]) =~= before.jobs);
}

/// An error on the way is the result of the whole search.
proof fn lemma_matching_error(
    store: StoreModel,
    events: Seq<JobEventModel>,
    after: u64,
    query: EventQueryModel,
    at: int,
)
    requires
        0 <= at <= events.len(),
        store.matching_events(events.take(at), after, query) is Err,
    ensures
        store.matching_events(events, after, query) == store.matching_events(
            events.take(at),
            after,
            query,
        ),
    decreases events.len() - at,
{
    if at == events.len() {
        assert(events.take(at) =~= events);
    } else {
        assert(events.take(at + 1).drop_last() =~= events.take(at));
        lemma_matching_error(store, events, after, query, at + 1);
    }
}

} // verus!

//! One run of a job: every step is written to the store together with the event that
//! tells of it, and the run keeps what it has written.
use vstd::prelude::*;

use crate::domain::{
    AuditRecord, AuditRecordModel, CancellationState, EventRefs, EventRefsModel, EventSeverity,
    EventSubject, EventSubjectModel, EventSubjectType, JobEvent, JobEventKind, JobEventKindModel,
    JobEventModel, JobRecord, JobRecordModel, JobStatus, LedgerTimestamp, PolicyDecision,
    PolicyDecisionModel, PolicyOutcome, PolicySummary, PolicySummaryModel, ToolInvocation,
    ToolInvocationModel, ToolResult, ToolResultModel, ToolResultStatus, DOMAIN_SCHEMA_VERSION,
};
use crate::ids::JobEventId;
use crate::requests::{
    RuntimeError, RuntimeErrorModel, RuntimeJobReceipt, RuntimeJobReceiptModel, RuntimeJobRequest,
    RuntimeJobRequestModel, RuntimeResult, RUNTIME_SCHEMA_VERSION,
};
use crate::store::{SecretaryStore, StoreErrorModel};
use crate::store_model::StoreModel;
use crate::tool_output::{RenderedToolOutput, RenderedToolOutputModel};

verus! {

/// What an event tells, apart from its identifier, number and time.
pub struct Told {
    pub subject: EventSubjectModel,
    pub kind: JobEventKindModel,
    pub severity: EventSeverity,
    pub message: Seq<char>,
    pub refs: EventRefsModel,
}

/// The event tells just this, under an identifier of an event.
pub open spec fn tells(event: JobEventModel, told: Told) -> bool {
    &&& crate::ids::is_id_text("evt_"@, event.id)
    &&& event.schema_version == RUNTIME_SCHEMA_VERSION
    &&& event.created_at.unix_millis >= 0
    &&& event.subject == told.subject
    &&& event.kind == told.kind
    &&& event.severity == told.severity
    &&& event.public_message == told.message
    &&& event.refs == told.refs
    &&& event.redactions == Seq::<crate::domain::RedactionMarkerModel>::empty()
}

/// A new event, which has no number yet.
pub fn job_event(
    subject: EventSubject,
    kind: JobEventKind,
    severity: EventSeverity,
    public_message: String,
    refs: EventRefs,
) -> (r: JobEvent)
    ensures
        tells(
            r@,
            (Told {
                subject: subject@,
                kind: kind@,
                severity,
                message: public_message@,
                refs: refs@,
            }),
        ),
        r@.sequence_number == 0,
{
    let event = JobEvent {
        id: JobEventId::new(),
        schema_version: RUNTIME_SCHEMA_VERSION,
        sequence_number: 0,
        created_at: LedgerTimestamp::now(),
        subject,
        kind,
        severity,
        public_message,
        refs,
        redactions: Vec::new(),
    };
    assert(event@.redactions =~= Seq::empty());
    event
}

pub open spec fn job_subject(job: JobRecordModel) -> EventSubjectModel {
    EventSubjectModel { subject_type: EventSubjectType::Job, subject_id: job.id }
}

/// What events of a job refer to.
pub open spec fn job_refs(job: JobRecordModel) -> EventRefsModel {
    EventRefsModel {
        repository_id: Some(job.repository_id),
        job_id: Some(job.id),
        ..EventRefsModel::none()
    }
}

pub open spec fn policy_refs(
    job: JobRecordModel,
    decision: PolicyDecisionModel,
) -> EventRefsModel {
    EventRefsModel { policy_decision_id: Some(decision.id), ..job_refs(job) }
}

pub open spec fn invocation_refs(
    job: JobRecordModel,
    decision: PolicyDecisionModel,
    invocation: ToolInvocationModel,
) -> EventRefsModel {
    EventRefsModel { tool_invocation_id: Some(invocation.id), ..policy_refs(job, decision) }
}

pub open spec fn result_refs(
    job: JobRecordModel,
    decision: PolicyDecisionModel,
    invocation: ToolInvocationModel,
    result: ToolResultModel,
) -> EventRefsModel {
    EventRefsModel {
        tool_result_id: Some(result.id),
        ..invocation_refs(job, decision, invocation)
    }
}

pub open spec fn audit_refs(
    job: JobRecordModel,
    decision: PolicyDecisionModel,
    invocation: ToolInvocationModel,
    result: ToolResultModel,
    audit: AuditRecordModel,
) -> EventRefsModel {
    EventRefsModel {
        audit_record_id: Some(audit.id),
        ..result_refs(job, decision, invocation, result)
    }
}

pub fn refs_for_job(job: &JobRecord) -> (r: EventRefs)
    ensures
        r@ == job_refs(job@),
{
    let mut refs = EventRefs::default();
    refs.repository_id = Some(job.repository_id.clone());
    refs.job_id = Some(job.id.clone());
    refs
}

pub fn refs_for_policy(job: &JobRecord, decision: &PolicyDecision) -> (r: EventRefs)
    ensures
        r@ == policy_refs(job@, decision@),
{
    let mut refs = refs_for_job(job);
    refs.policy_decision_id = Some(decision.id.clone());
    refs
}

pub fn refs_for_invocation(
    job: &JobRecord,
    decision: &PolicyDecision,
    invocation: &ToolInvocation,
) -> (r: EventRefs)
    ensures
        r@ == invocation_refs(job@, decision@, invocation@),
{
    let mut refs = refs_for_policy(job, decision);
    refs.tool_invocation_id = Some(invocation.id.clone());
    refs
}

pub fn refs_for_result(
    job: &JobRecord,
    decision: &PolicyDecision,
    invocation: &ToolInvocation,
    result: &ToolResult,
) -> (r: EventRefs)
    ensures
        r@ == result_refs(job@, decision@, invocation@, result@),
{
    let mut refs = refs_for_invocation(job, decision, invocation);
    refs.tool_result_id = Some(result.id.clone());
    refs
}

pub fn refs_for_audit(
    job: &JobRecord,
    decision: &PolicyDecision,
    invocation: &ToolInvocation,
    result: &ToolResult,
    audit: &AuditRecord,
) -> (r: EventRefs)
    ensures
        r@ == audit_refs(job@, decision@, invocation@, result@, audit@),
{
    let mut refs = refs_for_result(job, decision, invocation, result);
    refs.audit_record_id = Some(audit.id.clone());
    refs
}

/// How grave a policy's decision is.
pub open spec fn decision_severity(outcome: PolicyOutcome) -> EventSeverity {
    match outcome {
        PolicyOutcome::Allowed | PolicyOutcome::Audited => EventSeverity::Info,
        PolicyOutcome::NeedsApproval => EventSeverity::Warning,
        PolicyOutcome::Blocked => EventSeverity::Error,
    }
}

fn policy_event_severity(outcome: PolicyOutcome) -> (r: EventSeverity)
    ensures
        r == decision_severity(outcome),
{
    match outcome {
        PolicyOutcome::Allowed | PolicyOutcome::Audited => EventSeverity::Info,
        PolicyOutcome::NeedsApproval => EventSeverity::Warning,
        PolicyOutcome::Blocked => EventSeverity::Error,
    }
}

/// How grave the outcome of a tool is.
pub open spec fn result_severity(status: ToolResultStatus) -> EventSeverity {
    if status == ToolResultStatus::Succeeded {
        EventSeverity::Info
    } else {
        EventSeverity::Error
    }
}

fn tool_result_event_severity(status: ToolResultStatus) -> (r: EventSeverity)
    ensures
        r == result_severity(status),
{
    match status {
        ToolResultStatus::Succeeded => EventSeverity::Info,
        ToolResultStatus::Failed
        | ToolResultStatus::TimedOut
        | ToolResultStatus::Canceled => EventSeverity::Error,
    }
}

/// The status of a job whose tool came to an end.
pub open spec fn final_status(status: ToolResultStatus) -> JobStatus {
    match status {
        ToolResultStatus::Succeeded => JobStatus::Succeeded,
        ToolResultStatus::Failed | ToolResultStatus::TimedOut => JobStatus::Failed,
        ToolResultStatus::Canceled => JobStatus::Canceled,
    }
}

pub fn terminal_status(status: ToolResultStatus) -> (r: JobStatus)
    ensures
        r == final_status(status),
{
    match status {
        ToolResultStatus::Succeeded => JobStatus::Succeeded,
        ToolResultStatus::Failed | ToolResultStatus::TimedOut => JobStatus::Failed,
        ToolResultStatus::Canceled => JobStatus::Canceled,
    }
}

/// What a job keeps of a policy's decision.
pub open spec fn summary_of(decision: PolicyDecisionModel) -> PolicySummaryModel {
    PolicySummaryModel {
        decision_id: Some(decision.id),
        outcome: decision.outcome,
        risk_tier: decision.risk_tier,
        reason_code: decision.reason_code,
    }
}

fn policy_summary(decision: &PolicyDecision) -> (r: PolicySummary)
    ensures
        r@ == summary_of(decision@),
{
    PolicySummary {
        decision_id: Some(decision.id.clone()),
        outcome: decision.outcome,
        risk_tier: decision.risk_tier,
        reason_code: decision.reason_code.clone(),
    }
}

/// What a run has written so far.
#[verifier::ext_equal]
pub struct JobRunModel {
    pub job: JobRecordModel,
    pub events: Seq<JobEventModel>,
    pub policy_decision: Option<PolicyDecisionModel>,
    pub tool_invocation: Option<ToolInvocationModel>,
    pub tool_result: Option<ToolResultModel>,
    pub audit_record: Option<AuditRecordModel>,
}

/// A list with one more item, where there is one.
pub open spec fn pushed<M>(items: Seq<M>, item: Option<M>) -> Seq<M> {
    match item {
        Some(item) => items.push(item),
        None => items,
    }
}

impl JobRunModel {
    /// The store that a run leads to: what was there before, and what the run wrote.
    pub open spec fn state_from(self, before: StoreModel) -> StoreModel {
        StoreModel {
            jobs: before.jobs.push(self.job),
            events: before.events + self.events,
            last_sequence: (before.last_sequence + self.events.len()) as u64,
            policy_decisions: pushed(before.policy_decisions, self.policy_decision),
            tool_invocations: pushed(before.tool_invocations, self.tool_invocation),
            tool_results: pushed(before.tool_results, self.tool_result),
            audit_records: pushed(before.audit_records, self.audit_record),
            ..before
        }
    }

    /// The run is what leads from one state to the other: a new job whose events carry the
    /// numbers that follow.
    pub open spec fn leads(self, before: StoreModel, now: StoreModel) -> bool {
        &&& now == self.state_from(before)
        &&& before.job(self.job.id) is None
        &&& before.last_sequence + self.events.len() <= u64::MAX
        &&& forall|i: int|
            0 <= i < self.events.len() ==> (#[trigger] self.events[i]).sequence_number
                == before.last_sequence + i + 1
    }

    /// The run after a step: the job as it is now, and the event that tells of it.
    pub open spec fn stepped(self, job: JobRecordModel, event: JobEventModel) -> JobRunModel {
        JobRunModel {
            job: JobRecordModel { latest_event_id: Some(event.id), ..job },
            events: self.events.push(event),
            ..self
        }
    }

    /// The last event of the run.
    pub open spec fn last_event(self) -> JobEventModel {
        self.events.last()
    }
}

proof fn lemma_new_job_is_last(before: StoreModel, job: JobRecordModel)
    requires
        before.job(job.id) is None,
    ensures
        crate::table::index_of::<JobRecord>(before.jobs.push(job), job.id) == before.jobs.len(),
{
    crate::table::lemma_index_of::<JobRecord>(before.jobs, job.id);
    let jobs = before.jobs.push(job);
    assert forall|i: int| 0 <= i < before.jobs.len() implies <JobRecord as crate::table::Entity>::key(
        #[trigger] jobs[i],
    ) != job.id by {
        assert(jobs[i] == before.jobs[i]);
    }
    crate::table::lemma_index_of_is::<JobRecord>(jobs, job.id, before.jobs.len() as int);
}

/// An update of the run's job leads on.
pub proof fn lemma_update_leads_on(
    run: JobRunModel,
    before: StoreModel,
    now: StoreModel,
    job: JobRecordModel,
    drafted: JobEventModel,
    after: StoreModel,
    stored: JobEventModel,
)
    requires
        run.leads(before, now),
        job.id == run.job.id,
        now.update_job(job, drafted) == Ok::<(StoreModel, JobEventModel), StoreErrorModel>(
            (after, stored),
        ),
    ensures
        run.stepped(job, stored).leads(before, after),
        stored == (JobEventModel { sequence_number: stored.sequence_number, ..drafted }),
{
    lemma_new_job_is_last(before, run.job);
    let next = run.stepped(job, stored);
    let at = before.jobs.len() as int;
    assert(now.jobs.update(at, next.job) =~= before.jobs.push(next.job));
    assert((before.events + run.events).push(stored) =~= before.events + next.events);
    assert(after =~= next.state_from(before));
}

/// A run of a job, and the store's contents at its start.
pub struct JobRun {
    pub job: JobRecord,
    pub events: Vec<JobEvent>,
    pub policy_decision: Option<PolicyDecision>,
    pub tool_invocation: Option<ToolInvocation>,
    pub tool_result: Option<ToolResult>,
    pub audit_record: Option<AuditRecord>,
    pub began: Ghost<StoreModel>,
}

impl View for JobRun {
    type V = JobRunModel;

    open spec fn view(&self) -> JobRunModel {
        JobRunModel {
            job: self.job@,
            events: self.events.deep_view(),
            policy_decision: self.policy_decision.deep_view(),
            tool_invocation: self.tool_invocation.deep_view(),
            tool_result: self.tool_result.deep_view(),
            audit_record: self.audit_record.deep_view(),
        }
    }
}

impl JobRun {
    /// The store holds what it held at the start of the run, and what the run wrote.
    pub open spec fn keeps(self, now: StoreModel) -> bool {
        self@.leads(self.began@, now)
    }

    /// Submit a job: the job and the event that tells of it are stored, or neither.
    pub(crate) fn submit<S: SecretaryStore>(store: &mut S, request: &RuntimeJobRequest) -> (r:
        RuntimeResult<JobRun>)
        ensures
            final(store).reliable() == old(store).reliable(),
            old(store).state().valid() ==> final(store).state().valid(),
            match r {
                Ok(run) => {
                    &&& run.began@ == old(store).state()
                    &&& run.keeps(final(store).state())
                    &&& submitted(run@, request@)
                },
                Err(error) => {
                    &&& error@ is Store
                    &&& final(store).state() == old(store).state()
                    &&& old(store).reliable() ==> submission_refused(
                        old(store).state(),
                        request@,
                        error@,
                    )
                },
            },
    {
        let ghost before = store.state();
        let mut job = JobRecord::new(
            request.requester.clone(),
            request.repository_id.clone(),
            request.kind.clone(),
            request.goal.clone(),
            LedgerTimestamp::now(),
        );
        let event = job_event(
            EventSubject::job(&job.id),
            JobEventKind::JobSubmitted,
            EventSeverity::Info,
            "job submitted".to_owned(),
            refs_for_job(&job),
        );
        let stored = match store.create_job_with_initial_event(job.clone(), event) {
            Ok(stored) => stored,
            Err(error) => {
                return Err(RuntimeError::Store(error));
            },
        };
        proof {
            if before.valid() {
                crate::store_laws::law_create_job_keeps_validity(
                    before,
                    job@,
                    event@,
                    store.state(),
                    stored@,
                );
            }
        }
        job.latest_event_id = Some(stored.id.clone());
        let mut events: Vec<JobEvent> = Vec::new();
        events.push(stored);
        let run = JobRun {
            job,
            events,
            policy_decision: None,
            tool_invocation: None,
            tool_result: None,
            audit_record: None,
            began: Ghost(before),
        };
        proof {
            assert(run@.events =~= seq![stored@]);
            assert(before.events.push(stored@) =~= before.events + run@.events);
            assert(store.state() =~= run@.state_from(before));
        }
        Ok(run)
    }

    /// Write the job as it is now, and an event that tells of it.
    fn record<S: SecretaryStore>(
        &mut self,
        store: &mut S,
        job: JobRecord,
        subject: EventSubject,
        kind: JobEventKind,
        severity: EventSeverity,
        public_message: String,
        refs: EventRefs,
    ) -> (r: RuntimeResult<()>)
        requires
            old(self).keeps(old(store).state()),
            job@.id == old(self)@.job.id,
        ensures
            final(store).reliable() == old(store).reliable(),
            old(store).state().valid() ==> final(store).state().valid(),
            final(self).began == old(self).began,
            match r {
                Ok(_) => {
                    &&& final(self).keeps(final(store).state())
                    &&& final(self)@ == old(self)@.stepped(job@, final(self)@.last_event())
                    &&& tells(
                        final(self)@.last_event(),
                        (Told {
                            subject: subject@,
                            kind: kind@,
                            severity,
                            message: public_message@,
                            refs: refs@,
                        }),
                    )
                },
                Err(error) => {
                    &&& error@ is Store
                    &&& final(self)@ == old(self)@
                    &&& final(store).state() == old(store).state()
                    &&& old(store).reliable() ==> update_refused(
                        old(store).state(),
                        job@,
                        (Told {
                            subject: subject@,
                            kind: kind@,
                            severity,
                            message: public_message@,
                            refs: refs@,
                        }),
                        error@,
                    )
                },
            },
    {
        let ghost before = self@;
        let ghost now = store.state();
        let event = job_event(subject, kind, severity, public_message, refs);
        let stored = match store.append_job_event_and_update_job(job.clone(), event) {
            Ok(stored) => stored,
            Err(error) => {
                return Err(RuntimeError::Store(error));
            },
        };
        proof {
            lemma_update_leads_on(
                before,
                self.began@,
                now,
                job@,
                event@,
                store.state(),
                stored@,
            );
            if now.valid() {
                crate::store_laws::law_update_job_keeps_validity(
                    now,
                    job@,
                    event@,
                    store.state(),
                    stored@,
                );
            }
        }
        let mut job = job;
        job.latest_event_id = Some(stored.id.clone());
        self.job = job;
        self.events.push(stored);
        assert(self@.events =~= before.events.push(stored@));
        Ok(())
    }

    /// Store a policy's decision on the job, and the event that tells of it.
    pub(crate) fn decide<S: SecretaryStore>(
        &mut self,
        store: &mut S,
        decision: PolicyDecision,
    ) -> (r: RuntimeResult<()>)
        requires
            old(self).keeps(old(store).state()),
            old(self)@.policy_decision is None,
        ensures
            final(store).reliable() == old(store).reliable(),
            old(store).state().valid() ==> final(store).state().valid(),
            final(self).began == old(self).began,
            final(self).keeps(final(store).state()),
            match r {
                Ok(_) => {
                    &&& final(self)@ == (JobRunModel {
                        policy_decision: Some(decision@),
                        ..old(self)@
                    }).stepped(
                        JobRecordModel {
                            policy_summary: Some(summary_of(decision@)),
                            ..old(self)@.job
                        },
                        final(self)@.last_event(),
                    )
                    &&& tells(final(self)@.last_event(), decided(old(self)@.job, decision@))
                    &&& crate::ids::is_id_text("pol_"@, decision@.id)
                },
                Err(error) => {
                    &&& error@ is Store
                    &&& {
                        ||| {
                            &&& final(self)@ == old(self)@
                            &&& old(store).reliable() ==> old(store).state().create_policy_decision(
                                decision@,
                            ) == Err::<(StoreModel, ()), StoreErrorModel>(error@->Store_0)
                        }
                        ||| {
                            &&& final(self)@ == (JobRunModel {
                                policy_decision: Some(decision@),
                                ..old(self)@
                            })
                            &&& crate::ids::is_id_text("pol_"@, decision@.id)
                            &&& old(store).reliable() ==> update_refused(
                                final(store).state(),
                                JobRecordModel {
                                    policy_summary: Some(summary_of(decision@)),
                                    ..old(self)@.job
                                },
                                decided(old(self)@.job, decision@),
                                error@,
                            )
                        }
                    }
                },
            },
    {
        let ghost now = store.state();
        let ghost began = self.began@;
        match store.create_policy_decision(decision.clone()) {
            Ok(_) => {},
            Err(error) => {
                return Err(RuntimeError::Store(error));
            },
        }
        self.policy_decision = Some(decision.clone());
        proof {
            assert(store.state() =~= self@.state_from(began));
            if now.valid() {
                crate::store_laws::law_create_policy_decision_keeps_validity(
                    now,
                    decision@,
                    store.state(),
                );
            }
        }
        let mut job = self.job.clone();
        job.policy_summary = Some(policy_summary(&decision));
        let refs = refs_for_policy(&self.job, &decision);
        self.record(
            store,
            job,
            EventSubject::policy_decision(&decision.id),
            JobEventKind::PolicyDecided { outcome: decision.outcome },
            policy_event_severity(decision.outcome),
            decision.user_reason.clone(),
            refs,
        )
    }

    /// Move the job to another status now, with the event that tells of it.
    pub(crate) fn move_to<S: SecretaryStore>(
        &mut self,
        store: &mut S,
        status: JobStatus,
        severity: EventSeverity,
        public_message: String,
        refs: EventRefs,
    ) -> (r: RuntimeResult<()>)
        requires
            old(self).keeps(old(store).state()),
        ensures
            final(store).reliable() == old(store).reliable(),
            old(store).state().valid() ==> final(store).state().valid(),
            final(self).began == old(self).began,
            final(self).keeps(final(store).state()),
            match r {
                Ok(_) => {
                    &&& final(self)@.job.updated_at.unix_millis >= 0
                    &&& old(self)@.job.refusal(status, final(self)@.job.updated_at) is None
                    &&& final(self)@ == old(self)@.stepped(
                        old(self)@.job.moved_to(status, final(self)@.job.updated_at),
                        final(self)@.last_event(),
                    )
                    &&& tells(
                        final(self)@.last_event(),
                        moved(
                            old(self)@.job,
                            old(self)@.job.status,
                            status,
                            severity,
                            public_message@,
                            refs@,
                        ),
                    )
                },
                Err(error) => {
                    &&& final(self)@ == old(self)@
                    &&& final(store).state() == old(store).state()
                    &&& move_refused(
                        old(store).state(),
                        old(self)@.job,
                        status,
                        moved(
                            old(self)@.job,
                            old(self)@.job.status,
                            status,
                            severity,
                            public_message@,
                            refs@,
                        ),
                        error@,
                        old(store).reliable(),
                    )
                },
            },
    {
        self.move_to_at(store, status, LedgerTimestamp::now(), severity, public_message, refs)
    }

    /// Move the job to another status at the given time, with the event that tells of it.
    pub(crate) fn move_to_at<S: SecretaryStore>(
        &mut self,
        store: &mut S,
        status: JobStatus,
        at: LedgerTimestamp,
        severity: EventSeverity,
        public_message: String,
        refs: EventRefs,
    ) -> (r: RuntimeResult<()>)
        requires
            old(self).keeps(old(store).state()),
        ensures
            final(store).reliable() == old(store).reliable(),
            old(store).state().valid() ==> final(store).state().valid(),
            final(self).began == old(self).began,
            final(self).keeps(final(store).state()),
            ({
                let told = moved(
                    old(self)@.job,
                    old(self)@.job.status,
                    status,
                    severity,
                    public_message@,
                    refs@,
                );
                match r {
                    Ok(_) => {
                        &&& old(self)@.job.refusal(status, at) is None
                        &&& final(self)@ == old(self)@.stepped(
                            old(self)@.job.moved_to(status, at),
                            final(self)@.last_event(),
                        )
                        &&& tells(final(self)@.last_event(), told)
                    },
                    Err(error) => {
                        &&& final(self)@ == old(self)@
                        &&& final(store).state() == old(store).state()
                        &&& move_refused_at(
                            old(store).state(),
                            old(self)@.job,
                            status,
                            at,
                            told,
                            error@,
                            old(store).reliable(),
                        )
                    },
                }
            }),
    {
        let previous = self.job.status;
        let mut job = self.job.clone();
        match job.transition_status(status, at) {
            Ok(_) => {},
            Err(error) => {
                return Err(RuntimeError::JobStatusTransition(error));
            },
        }
        let subject = EventSubject::job(&job.id);
        self.record(
            store,
            job,
            subject,
            JobEventKind::JobStatusChanged { from: previous, to: status },
            severity,
            public_message,
            refs,
        )
    }

    /// Store the invocation of a tool, and the event that tells of it.
    pub(crate) fn invoke<S: SecretaryStore>(
        &mut self,
        store: &mut S,
        invocation: ToolInvocation,
    ) -> (r: RuntimeResult<()>)
        requires
            old(self).keeps(old(store).state()),
            old(self)@.policy_decision is Some,
            old(self)@.tool_invocation is None,
        ensures
            final(store).reliable() == old(store).reliable(),
            old(store).state().valid() ==> final(store).state().valid(),
            final(self).began == old(self).began,
            final(self).keeps(final(store).state()),
            match r {
                Ok(_) => {
                    &&& final(self)@ == (JobRunModel {
                        tool_invocation: Some(invocation@),
                        ..old(self)@
                    }).stepped(old(self)@.job, final(self)@.last_event())
                    &&& tells(
                        final(self)@.last_event(),
                        invoked(old(self)@.job, old(self)@.policy_decision->0, invocation@),
                    )
                },
                Err(error) => {
                    &&& error@ is Store
                    &&& {
                        ||| {
                            &&& final(self)@ == old(self)@
                            &&& old(store).reliable() ==> old(store).state().create_tool_invocation(
                                invocation@,
                            ) == Err::<(StoreModel, ()), StoreErrorModel>(error@->Store_0)
                        }
                        ||| {
                            &&& final(self)@ == (JobRunModel {
                                tool_invocation: Some(invocation@),
                                ..old(self)@
                            })
                            &&& old(store).reliable() ==> update_refused(
                                final(store).state(),
                                old(self)@.job,
                                invoked(
                                    old(self)@.job,
                                    old(self)@.policy_decision->0,
                                    invocation@,
                                ),
                                error@,
                            )
                        }
                    }
                },
            },
    {
        let ghost now = store.state();
        let ghost began = self.began@;
        match store.create_tool_invocation(invocation.clone()) {
            Ok(_) => {},
            Err(error) => {
                return Err(RuntimeError::Store(error));
            },
        }
        self.tool_invocation = Some(invocation.clone());
        proof {
            assert(store.state() =~= self@.state_from(began));
            if now.valid() {
                crate::store_laws::law_create_tool_invocation_keeps_validity(
                    now,
                    invocation@,
                    store.state(),
                );
            }
        }
        let job = self.job.clone();
        let decision = self.policy_decision.as_ref().unwrap();
        let refs = refs_for_invocation(&self.job, decision, &invocation);
        self.record(
            store,
            job,
            EventSubject::tool_invocation(&invocation.id),
            JobEventKind::ToolInvoked { tool_id: invocation.tool_id.clone() },
            EventSeverity::Info,
            "tool invoked".to_owned(),
            refs,
        )
    }

    /// Mark the job failed for the reason of an error, and give the error on: the one at
    /// hand, or the one that stood in the way of marking.
    pub(crate) fn fail<S: SecretaryStore>(
        &mut self,
        store: &mut S,
        public_message: String,
        error: RuntimeError,
    ) -> (r: RuntimeError)
        requires
            old(self).keeps(old(store).state()),
            old(self)@.policy_decision is Some,
            old(self)@.tool_invocation is Some,
        ensures
            final(store).reliable() == old(store).reliable(),
            old(store).state().valid() ==> final(store).state().valid(),
            final(self).began == old(self).began,
            final(self).keeps(final(store).state()),
            ({
                ||| r == error && final(self)@.job.updated_at.unix_millis >= 0
                    && old(self)@.job.refusal(
                    JobStatus::Failed,
                    final(self)@.job.updated_at,
                ) is None && final(self)@ == old(self)@.stepped(
                    old(self)@.job.moved_to(JobStatus::Failed, final(self)@.job.updated_at),
                    final(self)@.last_event(),
                ) && tells(
                    final(self)@.last_event(),
                    failure(old(self)@, public_message@),
                )
                ||| final(self)@ == old(self)@ && final(store).state() == old(store).state()
                    && move_refused(
                    old(store).state(),
                    old(self)@.job,
                    JobStatus::Failed,
                    failure(old(self)@, public_message@),
                    r@,
                    old(store).reliable(),
                )
            }),
    {
        let decision = self.policy_decision.as_ref().unwrap();
        let invocation = self.tool_invocation.as_ref().unwrap();
        let refs = refs_for_invocation(&self.job, decision, invocation);
        match self.move_to(store, JobStatus::Failed, EventSeverity::Error, public_message, refs) {
            Ok(_) => error,
            Err(other) => other,
        }
    }

    /// Store a tool's result and the audit record on it, with the events that tell of them.
    pub(crate) fn conclude<S: SecretaryStore>(
        &mut self,
        store: &mut S,
        result: ToolResult,
        audit: AuditRecord,
    ) -> (r: RuntimeResult<()>)
        requires
            old(self).keeps(old(store).state()),
            old(self)@.policy_decision is Some,
            old(self)@.tool_invocation is Some,
            old(self)@.tool_result is None,
            old(self)@.audit_record is None,
        ensures
            final(store).reliable() == old(store).reliable(),
            old(store).state().valid() ==> final(store).state().valid(),
            final(self).began == old(self).began,
            final(self).keeps(final(store).state()),
            crate::ids::is_id_text("res_"@, result@.id),
            match r {
                Ok(_) => {
                    let events = final(self)@.events;
                    let n = old(self)@.events.len() as int;
                    &&& events.len() == n + 2
                    &&& final(self)@ == (JobRunModel {
                        tool_result: Some(result@),
                        audit_record: Some(audit@),
                        ..old(self)@
                    }).stepped(old(self)@.job, events[n]).stepped(old(self)@.job, events[n + 1])
                    &&& tells(
                        events[n],
                        result_told(
                            old(self)@.job,
                            old(self)@.policy_decision->0,
                            old(self)@.tool_invocation->0,
                            result@,
                        ),
                    )
                    &&& tells(
                        events[n + 1],
                        audit_told(
                            old(self)@.job,
                            old(self)@.policy_decision->0,
                            old(self)@.tool_invocation->0,
                            result@,
                            audit@,
                        ),
                    )
                },
                Err(error) => {
                    &&& error@ is Store
                    &&& final(self)@ == old(self)@
                    &&& final(store).state() == old(store).state()
                    &&& old(store).reliable() ==> conclusion_refused(
                        old(store).state(),
                        old(self)@,
                        result@,
                        audit@,
                        error@,
                    )
                },
            },
    {
        let ghost now = store.state();
        let ghost began = self.began@;
        let ghost before = self@;
        let decision = self.policy_decision.as_ref().unwrap();
        let invocation = self.tool_invocation.as_ref().unwrap();
        let result_refs = refs_for_result(&self.job, decision, invocation, &result);
        let audit_refs = refs_for_audit(&self.job, decision, invocation, &result, &audit);
        let result_event = job_event(
            EventSubject::tool_result(&result.id),
            JobEventKind::ToolResultRecorded { status: result.status },
            tool_result_event_severity(result.status),
            "tool result recorded".to_owned(),
            result_refs,
        );
        let audit_event = job_event(
            EventSubject::audit_record(&audit.id),
            JobEventKind::AuditRecorded,
            EventSeverity::Info,
            "audit record created".to_owned(),
            audit_refs,
        );
        let (first, second) = match store.record_tool_result_and_audit_with_events(
            self.job.clone(),
            result.clone(),
            result_event,
            audit.clone(),
            audit_event,
        ) {
            Ok(stored) => stored,
            Err(error) => {
                return Err(RuntimeError::Store(error));
            },
        };
        proof {
            lemma_conclusion_leads_on(
                before,
                began,
                now,
                result@,
                result_event@,
                audit@,
                audit_event@,
                store.state(),
                first@,
                second@,
            );
            if now.valid() {
                crate::store_laws::law_record_result_and_audit_keeps_validity(
                    now,
                    before.job,
                    result@,
                    result_event@,
                    audit@,
                    audit_event@,
                );
            }
        }
        self.job.latest_event_id = Some(second.id.clone());
        self.tool_result = Some(result);
        self.audit_record = Some(audit);
        self.events.push(first);
        self.events.push(second);
        assert(self@.events =~= before.events.push(first@).push(second@));
        Ok(())
    }

    /// The receipt of a run that came to its end.
    pub(crate) fn receipt(
        self,
        rendered_output: Option<RenderedToolOutput>,
    ) -> (r: RuntimeJobReceipt)
        requires
            self@.policy_decision is Some,
        ensures
            r@ == receipt_of(self@, rendered_output.deep_view()),
    {
        RuntimeJobReceipt {
            job: self.job,
            policy_decision: self.policy_decision.unwrap(),
            tool_invocation: self.tool_invocation,
            tool_result: self.tool_result,
            rendered_output,
            audit_record: self.audit_record,
            events: self.events,
        }
    }
}

/// The receipt of a run.
pub open spec fn receipt_of(
    run: JobRunModel,
    rendered_output: Option<RenderedToolOutputModel>,
) -> RuntimeJobReceiptModel {
    RuntimeJobReceiptModel {
        job: run.job,
        policy_decision: run.policy_decision->0,
        tool_invocation: run.tool_invocation,
        tool_result: run.tool_result,
        rendered_output,
        audit_record: run.audit_record,
        events: run.events,
    }
}

proof fn lemma_conclusion_leads_on(
    run: JobRunModel,
    before: StoreModel,
    now: StoreModel,
    result: ToolResultModel,
    result_event: JobEventModel,
    audit: AuditRecordModel,
    audit_event: JobEventModel,
    after: StoreModel,
    first: JobEventModel,
    second: JobEventModel,
)
    requires
        run.leads(before, now),
        run.tool_result is None,
        run.audit_record is None,
        now.record_result_and_audit(run.job, result, result_event, audit, audit_event) == Ok::<
            (StoreModel, (JobEventModel, JobEventModel)),
            StoreErrorModel,
        >((after, (first, second))),
    ensures
        (JobRunModel { tool_result: Some(result), audit_record: Some(audit), ..run }).stepped(
            run.job,
            first,
        ).stepped(run.job, second).leads(before, after),
        first == (JobEventModel { sequence_number: first.sequence_number, ..result_event }),
        second == (JobEventModel { sequence_number: second.sequence_number, ..audit_event }),
{
    let with_result = now.create_tool_result(result)->Ok_0.0;
    let run1 = JobRunModel { tool_result: Some(result), ..run };
    assert(with_result =~= run1.state_from(before));
    let (between, _) = with_result.update_job(run.job, result_event)->Ok_0;
    lemma_update_leads_on(run1, before, with_result, run.job, result_event, between, first);
    let run2 = run1.stepped(run.job, first);
    let with_audit = between.create_audit_record(audit)->Ok_0.0;
    let run3 = JobRunModel { audit_record: Some(audit), ..run2 };
    assert(with_audit =~= run3.state_from(before));
    lemma_update_leads_on(run3, before, with_audit, run.job, audit_event, after, second);
    assert(run3.stepped(run.job, second) =~= (JobRunModel {
        tool_result: Some(result),
        audit_record: Some(audit),
        ..run
    }).stepped(run.job, first).stepped(run.job, second));
}

/// The record is that of a job new for a request.
pub open spec fn is_new_job(job: JobRecordModel, request: RuntimeJobRequestModel) -> bool {
    &&& crate::ids::is_id_text("job_"@, job.id)
    &&& job.created_at.unix_millis >= 0
    &&& job == (JobRecordModel {
        id: job.id,
        schema_version: DOMAIN_SCHEMA_VERSION,
        created_at: job.created_at,
        updated_at: job.created_at,
        started_at: None,
        completed_at: None,
        requester: request.requester,
        repository_id: request.repository_id,
        kind: request.kind,
        goal: request.goal,
        status: JobStatus::Queued,
        policy_summary: None,
        cancellation_state: CancellationState::NotRequested,
        latest_event_id: job.latest_event_id,
        redactions: Seq::empty(),
    })
}

/// The job waits: nothing has happened to it since it was made.
pub open spec fn waits(job: JobRecordModel) -> bool {
    &&& job.status == JobStatus::Queued
    &&& job.updated_at == job.created_at
    &&& job.started_at is None
    &&& job.completed_at is None
}

/// The job runs, and that it was started is the last thing that happened to it.
pub open spec fn runs(job: JobRecordModel) -> bool {
    &&& job.status == JobStatus::Running
    &&& job.created_at.unix_millis <= job.updated_at.unix_millis
    &&& job.started_at == Some(job.updated_at)
    &&& job.completed_at is None
}

/// The job has been started, and everything that happened to it happened in order.
pub open spec fn was_started(job: JobRecordModel) -> bool {
    &&& job.started_at is Some
    &&& job.created_at.unix_millis <= job.started_at->0.unix_millis
        <= job.updated_at.unix_millis
}

/// The job has ended, which is the last thing that happened to it.
pub open spec fn just_ended(job: JobRecordModel) -> bool {
    &&& job.status.terminal()
    &&& job.created_at.unix_millis <= job.updated_at.unix_millis
    &&& job.completed_at == Some(job.updated_at)
}

/// A job was submitted for a request.
pub open spec fn submitted(run: JobRunModel, request: RuntimeJobRequestModel) -> bool {
    &&& run.events.len() == 1
    &&& is_new_job(run.job, request)
    &&& run.job.latest_event_id == Some(run.events[0].id)
    &&& run.policy_decision is None
    &&& run.tool_invocation is None
    &&& run.tool_result is None
    &&& run.audit_record is None
    &&& tells(run.events[0], submission(run.job))
}

/// The store refuses a new job for the request.
pub open spec fn submission_refused(
    store: StoreModel,
    request: RuntimeJobRequestModel,
    error: RuntimeErrorModel,
) -> bool {
    exists|job: JobRecordModel, draft: JobEventModel|
        {
            &&& #[trigger] store.create_job(job, draft) == Err::<
                (StoreModel, JobEventModel),
                StoreErrorModel,
            >(error->Store_0)
            &&& is_new_job(job, request)
            &&& tells(draft, submission(job))
        }
}

/// The store refuses an update of the job with an event that tells this.
pub open spec fn update_refused(
    store: StoreModel,
    job: JobRecordModel,
    told: Told,
    error: RuntimeErrorModel,
) -> bool {
    exists|draft: JobEventModel|
        {
            &&& #[trigger] store.update_job(job, draft) == Err::<
                (StoreModel, JobEventModel),
                StoreErrorModel,
            >(error->Store_0)
            &&& tells(draft, told)
        }
}

/// At the given time the job cannot be moved to the status, or a reliable store refuses it.
pub open spec fn move_refused_at(
    store: StoreModel,
    job: JobRecordModel,
    status: JobStatus,
    at: LedgerTimestamp,
    told: Told,
    error: RuntimeErrorModel,
    reliable: bool,
) -> bool {
    match job.refusal(status, at) {
        Some(problem) => error == RuntimeErrorModel::JobStatusTransition(problem),
        None => error is Store && (reliable ==> update_refused(
            store,
            job.moved_to(status, at),
            told,
            error,
        )),
    }
}

/// At some time, the job cannot be moved to the status, or a reliable store refuses it.
pub open spec fn move_refused(
    store: StoreModel,
    job: JobRecordModel,
    status: JobStatus,
    told: Told,
    error: RuntimeErrorModel,
    reliable: bool,
) -> bool {
    exists|at: LedgerTimestamp|
        at.unix_millis >= 0 && #[trigger] move_refused_at(
            store,
            job,
            status,
            at,
            told,
            error,
            reliable,
        )
}

/// The store refuses a tool's result, or the audit record on it.
pub open spec fn conclusion_refused(
    store: StoreModel,
    run: JobRunModel,
    result: ToolResultModel,
    audit: AuditRecordModel,
    error: RuntimeErrorModel,
) -> bool {
    exists|first: JobEventModel, second: JobEventModel|
        {
            &&& #[trigger] store.record_result_and_audit(run.job, result, first, audit, second)
                == Err::<(StoreModel, (JobEventModel, JobEventModel)), StoreErrorModel>(
                error->Store_0,
            )
            &&& tells(
                first,
                result_told(run.job, run.policy_decision->0, run.tool_invocation->0, result),
            )
            &&& tells(
                second,
                audit_told(run.job, run.policy_decision->0, run.tool_invocation->0, result, audit),
            )
        }
}

/// What tells of a job that fails after its tool was invoked.
pub open spec fn failure(run: JobRunModel, message: Seq<char>) -> Told {
    moved(
        run.job,
        run.job.status,
        JobStatus::Failed,
        EventSeverity::Error,
        message,
        invocation_refs(run.job, run.policy_decision->0, run.tool_invocation->0),
    )
}

pub open spec fn submission(job: JobRecordModel) -> Told {
    Told {
        subject: job_subject(job),
        kind: JobEventKindModel::JobSubmitted,
        severity: EventSeverity::Info,
        message: "job submitted"@,
        refs: job_refs(job),
    }
}

pub open spec fn decided(job: JobRecordModel, decision: PolicyDecisionModel) -> Told {
    Told {
        subject: EventSubjectModel {
            subject_type: EventSubjectType::PolicyDecision,
            subject_id: decision.id,
        },
        kind: JobEventKindModel::PolicyDecided { outcome: decision.outcome },
        severity: decision_severity(decision.outcome),
        message: decision.user_reason,
        refs: policy_refs(job, decision),
    }
}

pub open spec fn moved(
    job: JobRecordModel,
    from: JobStatus,
    to: JobStatus,
    severity: EventSeverity,
    message: Seq<char>,
    refs: EventRefsModel,
) -> Told {
    Told {
        subject: job_subject(job),
        kind: JobEventKindModel::JobStatusChanged { from, to },
        severity,
        message,
        refs,
    }
}

pub open spec fn invoked(
    job: JobRecordModel,
    decision: PolicyDecisionModel,
    invocation: ToolInvocationModel,
) -> Told {
    Told {
        subject: EventSubjectModel {
            subject_type: EventSubjectType::ToolInvocation,
            subject_id: invocation.id,
        },
        kind: JobEventKindModel::ToolInvoked { tool_id: invocation.tool_id },
        severity: EventSeverity::Info,
        message: "tool invoked"@,
        refs: invocation_refs(job, decision, invocation),
    }
}

pub open spec fn result_told(
    job: JobRecordModel,
    decision: PolicyDecisionModel,
    invocation: ToolInvocationModel,
    result: ToolResultModel,
) -> Told {
    Told {
        subject: EventSubjectModel {
            subject_type: EventSubjectType::ToolResult,
            subject_id: result.id,
        },
        kind: JobEventKindModel::ToolResultRecorded { status: result.status },
        severity: result_severity(result.status),
        message: "tool result recorded"@,
        refs: result_refs(job, decision, invocation, result),
    }
}

pub open spec fn audit_told(
    job: JobRecordModel,
    decision: PolicyDecisionModel,
    invocation: ToolInvocationModel,
    result: ToolResultModel,
    audit: AuditRecordModel,
) -> Told {
    Told {
        subject: EventSubjectModel {
            subject_type: EventSubjectType::AuditRecord,
            subject_id: audit.id,
        },
        kind: JobEventKindModel::AuditRecorded,
        severity: EventSeverity::Info,
        message: "audit record created"@,
        refs: audit_refs(job, decision, invocation, result, audit),
    }
}

} // verus!

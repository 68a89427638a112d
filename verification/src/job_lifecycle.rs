//! The jobs of a runtime as its callers see them: submit, look up, cancel, replay.
use vstd::prelude::*;

use crate::domain::{
    CancellationState, EventSeverity, EventSubject, JobEvent, JobEventKind, JobEventKindModel,
    JobEventModel, JobRecord, JobRecordModel, JobStatus, LedgerTimestamp,
};
use crate::ids::JobId;
use crate::job_run;
use crate::job_run::{job_event, refs_for_job, Told};
use crate::policy::{DefaultPolicyEngine, PolicyEngine};
use crate::requests::{
    CancelJobReceipt, CancelJobReceiptModel, EchoTool, RuntimeError, RuntimeErrorModel,
    RuntimeHost, RuntimeJobReceipt, RuntimeJobRequest, RuntimeResult,
};
use crate::runtime;
use crate::runtime::SecretaryRuntime;
use crate::store::{
    EventCursor, InMemoryStore, JobPage, JobQuery, SecretaryStore, StoreError, StoreErrorModel,
};
use crate::store_model::StoreModel;

verus! {

/// A call that reads the store through the runtime.
pub open spec fn reads<T: DeepView>(
    expected: Result<T::V, StoreErrorModel>,
    answer: RuntimeResult<T>,
    reliable: bool,
) -> bool {
    match answer {
        Ok(value) => expected == Ok::<T::V, StoreErrorModel>(value.deep_view()),
        Err(error) => {
            &&& error@ is Store
            &&& reliable ==> expected == Err::<T::V, StoreErrorModel>(error@->Store_0)
        },
    }
}

/// A job in this status can be cancelled.
pub open spec fn cancellable(status: JobStatus) -> bool {
    status is Queued || status is Running
}

/// The refusal to cancel a job in this status.
pub open spec fn not_cancellable(id: Seq<char>, status: JobStatus) -> StoreErrorModel {
    StoreErrorModel::Conflict {
        collection: "jobs"@,
        reason: "job "@ + id + " cannot be cancelled in state "@ + status.shown(),
    }
}

/// What tells of the wish to cancel a job.
pub open spec fn cancellation(job: JobRecordModel, reason: Seq<char>) -> Told {
    Told {
        subject: job_run::job_subject(job),
        kind: JobEventKindModel::CancellationRequested,
        severity: EventSeverity::Warning,
        message: reason,
        refs: job_run::job_refs(job),
    }
}

/// What tells of the end of a cancelled job.
pub open spec fn cancelled(job: JobRecordModel) -> Told {
    job_run::moved(
        job,
        job.status,
        JobStatus::Canceled,
        EventSeverity::Warning,
        "job cancelled"@,
        job_run::job_refs(job),
    )
}

/// A job as it stands when its cancellation was requested by an event.
pub open spec fn requested(job: JobRecordModel, event_id: Option<Seq<char>>) -> JobRecordModel {
    JobRecordModel {
        cancellation_state: CancellationState::Requested,
        latest_event_id: event_id,
        ..job
    }
}

/// The receipt of a cancellation at the given time, and the store that it leads to.
pub open spec fn cancels(
    before: StoreModel,
    now: StoreModel,
    job: JobRecordModel,
    reason: Seq<char>,
    at: LedgerTimestamp,
    receipt: CancelJobReceiptModel,
) -> bool {
    &&& cancellable(job.status)
    &&& receipt.events.len() == 2
    &&& job_run::tells(receipt.events[0], cancellation(job, reason))
    &&& job_run::tells(receipt.events[1], cancelled(job))
    &&& receipt.events[0].sequence_number == before.last_sequence + 1
    &&& receipt.events[1].sequence_number == before.last_sequence + 2
    &&& job.refusal(JobStatus::Canceled, at) is None
    &&& receipt.job == requested(job, Some(receipt.events[1].id)).moved_to(JobStatus::Canceled, at)
    &&& now == (StoreModel {
        jobs: before.jobs.update(
            crate::table::index_of::<JobRecord>(before.jobs, job.id),
            receipt.job,
        ),
        events: before.events + receipt.events,
        last_sequence: (before.last_sequence + 2) as u64,
        ..before
    })
}

/// The cancellation of a job that can be cancelled was refused: the job could not be moved
/// at that time, or a reliable store refused to write it.
pub open spec fn cancellation_refused(
    store: StoreModel,
    job: JobRecordModel,
    reason: Seq<char>,
    at: LedgerTimestamp,
    error: RuntimeErrorModel,
    reliable: bool,
) -> bool {
    match job.refusal(JobStatus::Canceled, at) {
        Some(problem) => error == RuntimeErrorModel::JobStatusTransition(problem),
        None => error is Store && (reliable ==> store_refuses_cancellation(
            store,
            job,
            reason,
            at,
            error,
        )),
    }
}

/// What cancelling a job at the given time leads to. A job that is not there, or that can no
/// longer be cancelled, is left alone whatever the time is.
pub open spec fn cancel_outcome(
    before: StoreModel,
    now: StoreModel,
    id: Seq<char>,
    reason: Seq<char>,
    at: LedgerTimestamp,
    outcome: Result<CancelJobReceiptModel, RuntimeErrorModel>,
    reliable: bool,
) -> bool {
    match outcome {
        Ok(receipt) => {
            &&& before.job(id) is Some
            &&& cancels(before, now, before.job(id)->0, reason, at, receipt)
        },
        Err(error) => {
            &&& now == before
            &&& match before.job(id) {
                None => error is Store && (reliable ==> error->Store_0 == (
                StoreErrorModel::NotFound { collection: "jobs"@, id: JobId::debug_form(id) })),
                Some(job) => {
                    ||| error is Store && !reliable
                    ||| !cancellable(job.status) && error == RuntimeErrorModel::Store(
                        not_cancellable(id, job.status),
                    )
                    ||| cancellable(job.status) && cancellation_refused(
                        before,
                        job,
                        reason,
                        at,
                        error,
                        reliable,
                    )
                },
            }
        },
    }
}

/// The store refuses to write the cancellation of a job at the given time.
pub open spec fn store_refuses_cancellation(
    store: StoreModel,
    job: JobRecordModel,
    reason: Seq<char>,
    at: LedgerTimestamp,
    error: RuntimeErrorModel,
) -> bool {
    exists|first: JobEventModel, second: JobEventModel|
        {
            &&& #[trigger] store.update_job_twice(
                requested(job, job.latest_event_id),
                first,
                requested(job, Some(first.id)).moved_to(JobStatus::Canceled, at),
                second,
            ) == Err::<(StoreModel, (JobEventModel, JobEventModel)), StoreErrorModel>(
                error->Store_0,
            )
            &&& job_run::tells(first, cancellation(job, reason))
            &&& job_run::tells(second, cancelled(job))
        }
}

proof fn lemma_cancellation_leads_on(
    before: StoreModel,
    after: StoreModel,
    job: JobRecordModel,
    reason: Seq<char>,
    at: LedgerTimestamp,
    first: JobEventModel,
    second: JobEventModel,
    stored_first: JobEventModel,
    stored_second: JobEventModel,
)
    requires
        before.job(job.id) == Some(job),
        cancellable(job.status),
        job.refusal(JobStatus::Canceled, at) is None,
        job_run::tells(first, cancellation(job, reason)),
        job_run::tells(second, cancelled(job)),
        before.update_job_twice(
            requested(job, job.latest_event_id),
            first,
            requested(job, Some(first.id)).moved_to(JobStatus::Canceled, at),
            second,
        ) == Ok::<(StoreModel, (JobEventModel, JobEventModel)), StoreErrorModel>(
            (after, (stored_first, stored_second)),
        ),
    ensures
        cancels(
            before,
            after,
            job,
            reason,
            at,
            CancelJobReceiptModel {
                job: requested(job, Some(stored_second.id)).moved_to(JobStatus::Canceled, at),
                events: seq![stored_first, stored_second],
            },
        ),
{
    let first_job = requested(job, job.latest_event_id);
    let second_job = requested(job, Some(first.id)).moved_to(JobStatus::Canceled, at);
    let between = before.update_job(first_job, first)->Ok_0.0;
    crate::table::lemma_index_of::<JobRecord>(before.jobs, job.id);
    let place = crate::table::index_of::<JobRecord>(before.jobs, job.id);
    assert forall|j: int| 0 <= j < place implies <JobRecord as crate::table::Entity>::key(
        #[trigger] between.jobs[j],
    ) != job.id by {
        assert(between.jobs[j] == before.jobs[j]);
    }
    crate::table::lemma_index_of_is::<JobRecord>(between.jobs, job.id, place);
    let last = requested(job, Some(stored_second.id)).moved_to(JobStatus::Canceled, at);
    assert(between.jobs.update(place, last) =~= before.jobs.update(place, last));
    assert(before.events.push(stored_first).push(stored_second) =~= before.events
        + seq![stored_first, stored_second]);
}

/// The jobs of a runtime.
pub struct JobLifecycleService<S = InMemoryStore, P = DefaultPolicyEngine> {
    pub runtime: SecretaryRuntime<S, P>,
}

impl JobLifecycleService<InMemoryStore, DefaultPolicyEngine> {
    pub fn in_memory() -> (r: Self)
        ensures
            r.runtime.store@ == StoreModel::empty(0),
            r.runtime.policy_engine == DefaultPolicyEngine,
    {
        JobLifecycleService { runtime: SecretaryRuntime::in_memory() }
    }
}

impl<S: SecretaryStore, P: PolicyEngine> JobLifecycleService<S, P> {
    pub fn new(runtime: SecretaryRuntime<S, P>) -> (r: Self)
        ensures
            r == (JobLifecycleService { runtime }),
    {
        JobLifecycleService { runtime }
    }

    pub fn runtime(&self) -> (r: &SecretaryRuntime<S, P>)
        ensures
            *r == self.runtime,
    {
        &self.runtime
    }

    /// Run the echo tool as a job.
    pub fn submit_echo_job<H: RuntimeHost>(&mut self, request: RuntimeJobRequest, host: &H) -> (r:
        RuntimeResult<RuntimeJobReceipt>)
        ensures
            final(self).runtime.policy_engine == old(self).runtime.policy_engine,
            final(self).runtime.store.reliable() == old(self).runtime.store.reliable(),
            old(self).runtime.store.state().valid() ==> final(self).runtime.store.state().valid(),
            runtime::ran(
                old(self).runtime.store.state(),
                final(self).runtime.store.state(),
                request@,
                &EchoTool,
                &old(self).runtime.policy_engine,
                host,
                crate::requests::viewed(r),
                old(self).runtime.store.reliable(),
            ),
    {
        self.runtime.run_tool_job(request, &EchoTool, host)
    }

    pub fn get_job(&self, id: &JobId) -> (r: RuntimeResult<JobRecord>)
        ensures
            reads(
                crate::store_model::found(
                    self.runtime.store.state().job(id@),
                    "jobs"@,
                    JobId::debug_form(id@),
                ),
                r,
                self.runtime.store.reliable(),
            ),
    {
        match self.runtime.store.get_job(id) {
            Ok(job) => Ok(job),
            Err(error) => Err(RuntimeError::Store(error)),
        }
    }

    pub fn list_jobs(&self) -> (r: RuntimeResult<Vec<JobRecord>>)
        ensures
            reads(Ok(self.runtime.store.state().jobs), r, self.runtime.store.reliable()),
    {
        match self.runtime.store.list_jobs() {
            Ok(jobs) => Ok(jobs),
            Err(error) => Err(RuntimeError::Store(error)),
        }
    }

    pub fn query_jobs(&self, query: JobQuery) -> (r: RuntimeResult<JobPage>)
        ensures
            reads(
                self.runtime.store.state().query_jobs(query@),
                r,
                self.runtime.store.reliable(),
            ),
    {
        match self.runtime.store.query_jobs(query) {
            Ok(page) => Ok(page),
            Err(error) => Err(RuntimeError::Store(error)),
        }
    }

    /// Cancel a job that waits or runs, now.
    pub fn cancel_job(&mut self, id: &JobId, reason: String) -> (r: RuntimeResult<CancelJobReceipt>)
        ensures
            final(self).runtime.policy_engine == old(self).runtime.policy_engine,
            final(self).runtime.store.reliable() == old(self).runtime.store.reliable(),
            old(self).runtime.store.state().valid() ==> final(self).runtime.store.state().valid(),
            exists|at: LedgerTimestamp|
                at.unix_millis >= 0 && #[trigger] cancel_outcome(
                    old(self).runtime.store.state(),
                    final(self).runtime.store.state(),
                    id@,
                    reason@,
                    at,
                    crate::requests::viewed(r),
                    old(self).runtime.store.reliable(),
                ),
    {
        self.cancel_job_at(id, reason, LedgerTimestamp::now())
    }

    /// Cancel a job that waits or runs, at the given time.
    pub fn cancel_job_at(&mut self, id: &JobId, reason: String, at: LedgerTimestamp) -> (r:
        RuntimeResult<CancelJobReceipt>)
        ensures
            final(self).runtime.policy_engine == old(self).runtime.policy_engine,
            final(self).runtime.store.reliable() == old(self).runtime.store.reliable(),
            old(self).runtime.store.state().valid() ==> final(self).runtime.store.state().valid(),
            cancel_outcome(
                old(self).runtime.store.state(),
                final(self).runtime.store.state(),
                id@,
                reason@,
                at,
                crate::requests::viewed(r),
                old(self).runtime.store.reliable(),
            ),
    {
        let ghost before = self.runtime.store.state();
        let job = match self.runtime.store.get_job(id) {
            Ok(job) => job,
            Err(error) => {
                return Err(RuntimeError::Store(error));
            },
        };
        proof {
            crate::table::lemma_index_of::<JobRecord>(before.jobs, id@);
        }
        match job.status {
            JobStatus::Queued | JobStatus::Running => {},
            JobStatus::Succeeded
            | JobStatus::Failed
            | JobStatus::Blocked
            | JobStatus::Canceled => {
                return Err(
                    RuntimeError::Store(
                        StoreError::Conflict {
                            collection: "jobs",
                            reason: "job ".to_owned().concat(id.as_str()).concat(
                                " cannot be cancelled in state ",
                            ).concat(job.status.name()),
                        },
                    ),
                );
            },
        }
        let mut first_job = job.clone();
        first_job.cancellation_state = CancellationState::Requested;
        let cancel_event = job_event(
            EventSubject::job(&job.id),
            JobEventKind::CancellationRequested,
            EventSeverity::Warning,
            reason,
            refs_for_job(&job),
        );
        let mut second_job = first_job.clone();
        second_job.latest_event_id = Some(cancel_event.id.clone());
        match second_job.transition_status(JobStatus::Canceled, at) {
            Ok(_) => {},
            Err(error) => {
                assert(job@.refusal(JobStatus::Canceled, at) == Some(error));
                return Err(RuntimeError::JobStatusTransition(error));
            },
        }
        assert(job@.refusal(JobStatus::Canceled, at) is None);
        let status_event = job_event(
            EventSubject::job(&job.id),
            JobEventKind::JobStatusChanged { from: job.status, to: JobStatus::Canceled },
            EventSeverity::Warning,
            "job cancelled".to_owned(),
            refs_for_job(&job),
        );
        let ghost first = cancel_event@;
        let ghost second = status_event@;
        assert(first_job@ == requested(job@, job@.latest_event_id));
        assert(second_job@ == requested(job@, Some(first.id)).moved_to(JobStatus::Canceled, at));
        let (cancel_event, status_event) =
            match self.runtime.store.append_job_events_and_update_job(
            first_job,
            cancel_event,
            second_job.clone(),
            status_event,
        ) {
            Ok(stored) => stored,
            Err(error) => {
                return Err(RuntimeError::Store(error));
            },
        };
        proof {
            lemma_cancellation_leads_on(
                before,
                self.runtime.store.state(),
                job@,
                reason@,
                at,
                first,
                second,
                cancel_event@,
                status_event@,
            );
            if before.valid() {
                crate::store_laws::law_update_job_twice_keeps_validity(
                    before,
                    first_job@,
                    first,
                    second_job@,
                    second,
                );
            }
        }
        let mut job = second_job;
        job.latest_event_id = Some(status_event.id.clone());
        let mut events: Vec<JobEvent> = Vec::new();
        events.push(cancel_event);
        events.push(status_event);
        assert(events.deep_view() =~= seq![cancel_event@, status_event@]);
        Ok(CancelJobReceipt { job, events })
    }

    pub fn replay_events(&self, cursor: EventCursor, limit: Option<usize>) -> (r: RuntimeResult<
        Vec<JobEvent>,
    >)
        ensures
            reads(
                self.runtime.store.state().replay(cursor@, limit),
                r,
                self.runtime.store.reliable(),
            ),
    {
        match self.runtime.store.replay_job_events(cursor, limit) {
            Ok(events) => Ok(events),
            Err(error) => Err(RuntimeError::Store(error)),
        }
    }
}

} // verus!

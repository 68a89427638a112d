//! What a store takes in and what it turns away, record by record, and how jobs and locks move
//! in time.
use vstd::prelude::*;

use crate::domain::{
    AuditRecord, AuditRecordModel, EventSubjectType, JobEvent, JobEventModel, JobRecord,
    JobRecordModel, JobStatus, JobStatusTransitionError, LedgerTimestamp, LockDecision,
    LockDecisionModel, LockOwnerModel, LockReclaimError, PolicyDecision, PolicyDecisionModel,
    RepositoryRecord, RepositoryRecordModel, ToolInvocation, ToolInvocationModel, ToolResult,
    ToolResultModel,
};
use crate::store::{StoreError, StoreErrorModel};
use crate::store_model::StoreModel;

verus! {

/// Reading by identifier gives a stored record of that identifier, and nothing exactly where
/// there is none.
pub proof fn law_reading_finds_what_is_stored(store: StoreModel, id: Seq<char>)
    ensures
        store.repository(id) matches Some(row) ==> store.repositories.contains(row) && row.id == id,
        store.repository(id) is None <==> forall|i: int|
            0 <= i < store.repositories.len() ==> (#[trigger] store.repositories[i]).id != id,
        store.job(id) matches Some(row) ==> store.jobs.contains(row) && row.id == id,
        store.job(id) is None <==> forall|i: int|
            0 <= i < store.jobs.len() ==> (#[trigger] store.jobs[i]).id != id,
        store.event(id) matches Some(row) ==> store.events.contains(row) && row.id == id,
        store.event(id) is None <==> forall|i: int|
            0 <= i < store.events.len() ==> (#[trigger] store.events[i]).id != id,
        store.policy_decision(id) matches Some(row) ==> store.policy_decisions.contains(row)
            && row.id == id,
        store.policy_decision(id) is None <==> forall|i: int|
            0 <= i < store.policy_decisions.len() ==> (#[trigger] store.policy_decisions[i]).id
                != id,
        store.lock_decision(id) matches Some(row) ==> store.lock_decisions.contains(row) && row.id
            == id,
        store.lock_decision(id) is None <==> forall|i: int|
            0 <= i < store.lock_decisions.len() ==> (#[trigger] store.lock_decisions[i]).id != id,
        store.tool_invocation(id) matches Some(row) ==> store.tool_invocations.contains(row)
            && row.id == id,
        store.tool_invocation(id) is None <==> forall|i: int|
            0 <= i < store.tool_invocations.len() ==> (#[trigger] store.tool_invocations[i]).id
                != id,
        store.tool_result(id) matches Some(row) ==> store.tool_results.contains(row) && row.id
            == id,
        store.tool_result(id) is None <==> forall|i: int|
            0 <= i < store.tool_results.len() ==> (#[trigger] store.tool_results[i]).id != id,
        store.audit_record(id) matches Some(row) ==> store.audit_records.contains(row) && row.id
            == id,
        store.audit_record(id) is None <==> forall|i: int|
            0 <= i < store.audit_records.len() ==> (#[trigger] store.audit_records[i]).id != id,
{
    crate::table::lemma_index_of::<RepositoryRecord>(store.repositories, id);
    crate::table::lemma_index_of::<JobRecord>(store.jobs, id);
    crate::table::lemma_index_of::<JobEvent>(store.events, id);
    crate::table::lemma_index_of::<PolicyDecision>(store.policy_decisions, id);
    crate::table::lemma_index_of::<LockDecision>(store.lock_decisions, id);
    crate::table::lemma_index_of::<ToolInvocation>(store.tool_invocations, id);
    crate::table::lemma_index_of::<ToolResult>(store.tool_results, id);
    crate::table::lemma_index_of::<AuditRecord>(store.audit_records, id);
}

/// The store has grown by this repository only, or policy decision, lock, invocation, result
/// or audit record: of each collection the rows before are as they were.
pub open spec fn grown(
    before: StoreModel,
    after: StoreModel,
    repositories: Seq<RepositoryRecordModel>,
    policy_decisions: Seq<PolicyDecisionModel>,
    lock_decisions: Seq<LockDecisionModel>,
    tool_invocations: Seq<ToolInvocationModel>,
    tool_results: Seq<ToolResultModel>,
    audit_records: Seq<AuditRecordModel>,
) -> bool {
    &&& after.repositories == before.repositories + repositories
    &&& after.jobs == before.jobs
    &&& after.events == before.events
    &&& after.last_sequence == before.last_sequence
    &&& after.policy_decisions == before.policy_decisions + policy_decisions
    &&& after.lock_decisions == before.lock_decisions + lock_decisions
    &&& after.tool_invocations == before.tool_invocations + tool_invocations
    &&& after.tool_results == before.tool_results + tool_results
    &&& after.audit_records == before.audit_records + audit_records
}

/// The policy decision is stored and belongs to the repository.
pub open spec fn decided_in(store: StoreModel, decision: Seq<char>, repository: Seq<char>) -> bool {
    exists|i: int|
        {
            &&& 0 <= i < store.policy_decisions.len()
            &&& (#[trigger] store.policy_decisions[i]).id == decision
            &&& store.policy_decisions[i].repository_id == repository
        }
}

/// The job is stored and belongs to the repository.
pub open spec fn done_in(store: StoreModel, job: Seq<char>, repository: Seq<char>) -> bool {
    exists|i: int|
        {
            &&& 0 <= i < store.jobs.len()
            &&& (#[trigger] store.jobs[i]).id == job
            &&& store.jobs[i].repository_id == repository
        }
}

/// The repository is stored.
pub open spec fn registered(store: StoreModel, repository: Seq<char>) -> bool {
    exists|i: int|
        0 <= i < store.repositories.len() && (#[trigger] store.repositories[i]).id == repository
}

proof fn lemma_stored(store: StoreModel, id: Seq<char>, repository: Seq<char>)
    requires
        store.valid(),
    ensures
        registered(store, repository) <==> store.repository(repository) is Some,
        decided_in(store, id, repository) <==> store.policy_decision(id) is Some
            && store.policy_decision(id)->0.repository_id == repository,
        done_in(store, id, repository) <==> store.job(id) is Some
            && store.job(id)->0.repository_id == repository,
{
    law_reading_finds_what_is_stored(store, id);
    law_reading_finds_what_is_stored(store, repository);
    crate::table::lemma_index_of::<RepositoryRecord>(store.repositories, repository);
    crate::table::lemma_index_of::<PolicyDecision>(store.policy_decisions, id);
    crate::table::lemma_index_of::<JobRecord>(store.jobs, id);
    if store.repository(repository) is Some {
        let i = crate::table::index_of::<RepositoryRecord>(store.repositories, repository);
        assert(store.repositories[i].id == repository);
    }
    if decided_in(store, id, repository) {
        let i = choose|i: int|
            {
                &&& 0 <= i < store.policy_decisions.len()
                &&& (#[trigger] store.policy_decisions[i]).id == id
                &&& store.policy_decisions[i].repository_id == repository
            };
        crate::table::lemma_index_of_is_only::<PolicyDecision>(store.policy_decisions, id, i);
    } else if store.policy_decision(id) is Some {
        let i = crate::table::index_of::<PolicyDecision>(store.policy_decisions, id);
        assert(store.policy_decisions[i].id == id);
    }
    if done_in(store, id, repository) {
        let i = choose|i: int|
            {
                &&& 0 <= i < store.jobs.len()
                &&& (#[trigger] store.jobs[i]).id == id
                &&& store.jobs[i].repository_id == repository
            };
        crate::table::lemma_index_of_is_only::<JobRecord>(store.jobs, id, i);
    } else if store.job(id) is Some {
        let i = crate::table::index_of::<JobRecord>(store.jobs, id);
        assert(store.jobs[i].id == id);
    }
}

/// A repository is taken in exactly where its identifier is new.
pub proof fn law_new_repositories_are_taken(store: StoreModel, record: RepositoryRecordModel)
    requires
        store.valid(),
    ensures
        store.create_repository(record) is Ok <==> !registered(store, record.id),
        store.create_repository(record) matches Ok((after, _)) ==> grown(
            store,
            after,
            seq![record],
            seq![],
            seq![],
            seq![],
            seq![],
            seq![],
        ),
        store.create_repository(record) is Err ==> store.create_repository(
            record,
        )->Err_0 is DuplicateId,
{
    lemma_stored(store, record.id, record.id);
    lemma_nothing_added(store);
}

proof fn lemma_nothing_added(store: StoreModel)
    ensures
        store.repositories + seq![] == store.repositories,
        store.policy_decisions + seq![] == store.policy_decisions,
        store.lock_decisions + seq![] == store.lock_decisions,
        store.tool_invocations + seq![] == store.tool_invocations,
        store.tool_results + seq![] == store.tool_results,
        store.audit_records + seq![] == store.audit_records,
{
    assert(store.repositories + seq![] =~= store.repositories);
    assert(store.policy_decisions + seq![] =~= store.policy_decisions);
    assert(store.lock_decisions + seq![] =~= store.lock_decisions);
    assert(store.tool_invocations + seq![] =~= store.tool_invocations);
    assert(store.tool_results + seq![] =~= store.tool_results);
    assert(store.audit_records + seq![] =~= store.audit_records);
}

/// A policy decision is taken in exactly where its repository is registered and its
/// identifier is new.
pub proof fn law_decisions_are_taken_for_registered_repositories(
    store: StoreModel,
    record: PolicyDecisionModel,
)
    requires
        store.valid(),
    ensures
        store.create_policy_decision(record) is Ok <==> {
            &&& registered(store, record.repository_id)
            &&& forall|i: int|
                0 <= i < store.policy_decisions.len() ==> (#[trigger] store.policy_decisions[i]).id
                    != record.id
        },
        store.create_policy_decision(record) matches Ok((after, _)) ==> grown(
            store,
            after,
            seq![],
            seq![record],
            seq![],
            seq![],
            seq![],
            seq![],
        ),
        !registered(store, record.repository_id) ==> store.create_policy_decision(
            record,
        )->Err_0 is NotFound,
        registered(store, record.repository_id) && store.create_policy_decision(record) is Err
            ==> store.create_policy_decision(record)->Err_0 is DuplicateId,
{
    lemma_stored(store, record.id, record.repository_id);
    law_reading_finds_what_is_stored(store, record.id);
    lemma_nothing_added(store);
}

/// The points in time that a lock speaks of are in order, and just those are given that its
/// status asks for.
pub open spec fn is_in_time(lock: LockDecisionModel) -> bool {
    let made = lock.locked_at.unix_millis;
    let ends = lock.expires_at.unix_millis;
    let changed = lock.updated_at.unix_millis;
    &&& made < ends
    &&& lock.created_at == lock.locked_at
    &&& made <= changed
    &&& lock.status is Held || lock.status is Expired ==> lock.released_at is None
        && lock.reclaimed_at is None
    &&& lock.status is Released ==> {
        &&& lock.released_at is Some
        &&& lock.reclaimed_at is None
        &&& made <= lock.released_at->0.unix_millis <= changed
    }
    &&& lock.status is Reclaimed ==> {
        &&& lock.reclaimed_at is Some
        &&& lock.released_at is None
        &&& ends <= lock.reclaimed_at->0.unix_millis <= changed
    }
}

/// A held lock on the same scope of the same repository stands in the way of another.
pub open spec fn excludes(held: LockDecisionModel, lock: LockDecisionModel) -> bool {
    &&& held.status is Held
    &&& lock.status is Held
    &&& held.repository_id == lock.repository_id
    &&& held.locked_scope == lock.locked_scope
}

proof fn lemma_first_clash(locks: Seq<LockDecisionModel>, lock: LockDecisionModel)
    ensures
        crate::store_model::first_clash(locks, lock) is None <==> forall|i: int|
            0 <= i < locks.len() ==> !excludes(#[trigger] locks[i], lock),
    decreases locks.len(),
{
    if locks.len() > 0 {
        let rest = locks.drop_first();
        lemma_first_clash(rest, lock);
        if locks[0].clashes_with(lock) {
            assert(excludes(locks[0], lock));
        } else if crate::store_model::first_clash(locks, lock) is None {
            assert forall|i: int| 0 <= i < locks.len() implies !excludes(
                #[trigger] locks[i],
                lock,
            ) by {
                if i > 0 {
                    assert(rest[i - 1] == locks[i]);
                }
            }
        } else {
            let k = choose|k: int| 0 <= k < rest.len() && excludes(#[trigger] rest[k], lock);
            assert(locks[k + 1] == rest[k]);
        }
    }
}

/// A lock is taken in exactly where its identifier is new, its times are in order, its
/// repository is registered, its policy decision and the job that owns it belong to that
/// repository, and no held lock excludes it.
pub proof fn law_locks_are_taken_where_nothing_excludes_them(
    store: StoreModel,
    record: LockDecisionModel,
)
    requires
        store.valid(),
    ensures
        store.create_lock_decision(record) is Ok <==> {
            &&& forall|i: int|
                0 <= i < store.lock_decisions.len() ==> (#[trigger] store.lock_decisions[i]).id
                    != record.id
            &&& is_in_time(record)
            &&& registered(store, record.repository_id)
            &&& decided_in(store, record.policy_decision_id, record.repository_id)
            &&& record.owner matches LockOwnerModel::Job(job) ==> done_in(
                store,
                job,
                record.repository_id,
            )
            &&& forall|i: int|
                0 <= i < store.lock_decisions.len() ==> !excludes(
                    #[trigger] store.lock_decisions[i],
                    record,
                )
        },
        store.create_lock_decision(record) matches Ok((after, _)) ==> grown(
            store,
            after,
            seq![],
            seq![],
            seq![record],
            seq![],
            seq![],
            seq![],
        ),
{
    reveal(StoreModel::lock_problem);
    lemma_stored(store, record.policy_decision_id, record.repository_id);
    if record.owner is Job {
        lemma_stored(store, record.owner->Job_0, record.repository_id);
    }
    law_reading_finds_what_is_stored(store, record.id);
    lemma_first_clash(store.lock_decisions, record);
    lemma_nothing_added(store);
}

/// An invocation is taken in exactly where its repository is registered, its job and its
/// policy decision belong to that repository, and its identifier is new.
pub proof fn law_invocations_are_taken_within_one_repository(
    store: StoreModel,
    record: ToolInvocationModel,
)
    requires
        store.valid(),
    ensures
        store.create_tool_invocation(record) is Ok <==> {
            &&& registered(store, record.repository_id)
            &&& done_in(store, record.job_id, record.repository_id)
            &&& decided_in(store, record.policy_decision_id, record.repository_id)
            &&& forall|i: int|
                0 <= i < store.tool_invocations.len() ==> (#[trigger] store.tool_invocations[i]).id
                    != record.id
        },
        store.create_tool_invocation(record) matches Ok((after, _)) ==> grown(
            store,
            after,
            seq![],
            seq![],
            seq![],
            seq![record],
            seq![],
            seq![],
        ),
{
    reveal(StoreModel::invocation_problem);
    lemma_stored(store, record.policy_decision_id, record.repository_id);
    lemma_stored(store, record.job_id, record.repository_id);
    law_reading_finds_what_is_stored(store, record.id);
    lemma_nothing_added(store);
}

/// A result is taken in exactly where a stored invocation of the same tool awaits it and its
/// identifier is new.
pub proof fn law_results_are_taken_for_open_invocations(store: StoreModel, record: ToolResultModel)
    requires
        store.valid(),
    ensures
        store.create_tool_result(record) is Ok <==> {
            &&& exists|i: int|
                {
                    &&& 0 <= i < store.tool_invocations.len()
                    &&& (#[trigger] store.tool_invocations[i]).id == record.invocation_id
                    &&& store.tool_invocations[i].tool_id == record.tool_id
                }
            &&& forall|i: int|
                0 <= i < store.tool_results.len() ==> (#[trigger] store.tool_results[i]).id
                    != record.id && store.tool_results[i].invocation_id != record.invocation_id
        },
        store.create_tool_result(record) matches Ok((after, _)) ==> grown(
            store,
            after,
            seq![],
            seq![],
            seq![],
            seq![],
            seq![record],
            seq![],
        ),
{
    reveal(StoreModel::result_problem);
    law_reading_finds_what_is_stored(store, record.id);
    law_reading_finds_what_is_stored(store, record.invocation_id);
    lemma_nothing_added(store);
    let rows = store.tool_invocations;
    crate::table::lemma_index_of::<ToolInvocation>(rows, record.invocation_id);
    assert forall|i: int|
        0 <= i < rows.len() && (#[trigger] rows[i]).id
            == record.invocation_id implies store.tool_invocation(record.invocation_id) == Some(
        rows[i],
    ) by {
        crate::table::lemma_index_of_is_only::<ToolInvocation>(rows, record.invocation_id, i);
    }
    if store.tool_invocation(record.invocation_id) is Some {
        let i = crate::table::index_of::<ToolInvocation>(rows, record.invocation_id);
        assert(rows[i].id == record.invocation_id);
    }
    if store.is_answered(record.invocation_id) {
        let k = choose|k: int|
            0 <= k < store.tool_results.len() && #[trigger] store.tool_results[k].invocation_id
                == record.invocation_id;
        assert(store.tool_results[k].invocation_id == record.invocation_id);
    }
}

/// An audit record is taken in exactly where its repository is registered, its policy
/// decision belongs to that repository, the invocation that it speaks of, if any, does so too
/// and rests on the same decision, and its identifier is new.
pub proof fn law_audit_records_are_taken_where_all_agrees(
    store: StoreModel,
    record: AuditRecordModel,
)
    requires
        store.valid(),
    ensures
        store.create_audit_record(record) is Ok <==> {
            &&& registered(store, record.repository_id)
            &&& decided_in(store, record.policy_decision_id, record.repository_id)
            &&& record.tool_invocation_id matches Some(id) ==> exists|i: int|
                {
                    &&& 0 <= i < store.tool_invocations.len()
                    &&& (#[trigger] store.tool_invocations[i]).id == id
                    &&& store.tool_invocations[i].repository_id == record.repository_id
                    &&& store.tool_invocations[i].policy_decision_id == record.policy_decision_id
                }
            &&& forall|i: int|
                0 <= i < store.audit_records.len() ==> (#[trigger] store.audit_records[i]).id
                    != record.id
        },
        store.create_audit_record(record) matches Ok((after, _)) ==> grown(
            store,
            after,
            seq![],
            seq![],
            seq![],
            seq![],
            seq![],
            seq![record],
        ),
{
    reveal(StoreModel::audit_problem);
    law_reading_finds_what_is_stored(store, record.id);
    lemma_stored(store, record.policy_decision_id, record.repository_id);
    lemma_nothing_added(store);
    if record.tool_invocation_id is Some {
        let id = record.tool_invocation_id->0;
        let rows = store.tool_invocations;
        law_reading_finds_what_is_stored(store, id);
        crate::table::lemma_index_of::<ToolInvocation>(rows, id);
        assert forall|i: int|
            0 <= i < rows.len() && (#[trigger] rows[i]).id == id implies store.tool_invocation(id)
            == Some(rows[i]) by {
            crate::table::lemma_index_of_is_only::<ToolInvocation>(rows, id, i);
        }
        if store.tool_invocation(id) is Some {
            let i = crate::table::index_of::<ToolInvocation>(rows, id);
            assert(rows[i].id == id);
        }
    }
}

/// A job's first event speaks of the job, as its subject and among its references, and of the
/// job's repository.
pub open spec fn announces(event: JobEventModel, job: JobRecordModel) -> bool {
    &&& event.subject.subject_type is Job
    &&& event.subject.subject_id == job.id
    &&& event.refs.job_id == Some(job.id)
    &&& event.refs.repository_id == Some(job.repository_id)
}

/// A job is taken in only where its repository is registered, its identifier is new and its
/// first event announces it; it then stands behind the others, with that event as its latest,
/// and nothing else changes.
pub proof fn law_jobs_are_taken_with_their_announcement(
    store: StoreModel,
    job: JobRecordModel,
    event: JobEventModel,
)
    requires
        store.valid(),
        store.create_job(job, event) is Ok,
    ensures
        registered(store, job.repository_id),
        forall|i: int| 0 <= i < store.jobs.len() ==> (#[trigger] store.jobs[i]).id != job.id,
        announces(event, job),
        ({
            let (after, stored) = store.create_job(job, event)->Ok_0;
            &&& after.jobs == store.jobs + seq![
                JobRecordModel { latest_event_id: Some(event.id), ..job },
            ]
            &&& after.events == store.events + seq![stored]
            &&& stored == (JobEventModel { sequence_number: stored.sequence_number, ..event })
            &&& stored.sequence_number == store.last_sequence + 1
            &&& after.last_sequence == store.last_sequence + 1
            &&& after.repositories == store.repositories
            &&& after.policy_decisions == store.policy_decisions
            &&& after.lock_decisions == store.lock_decisions
            &&& after.tool_invocations == store.tool_invocations
            &&& after.tool_results == store.tool_results
            &&& after.audit_records == store.audit_records
        }),
{
    lemma_stored(store, job.id, job.repository_id);
    law_reading_finds_what_is_stored(store, job.id);
}

/// A job that is announced, whose identifier is new and whose repository is registered, is
/// taken in where the event is new too, speaks of no other record, and can be numbered.
pub proof fn law_announced_jobs_are_taken(
    store: StoreModel,
    job: JobRecordModel,
    event: JobEventModel,
)
    requires
        store.valid(),
        registered(store, job.repository_id),
        store.job(job.id) is None,
        announces(event, job),
        store.event(event.id) is None,
        crate::ids::is_id_text("job_"@, job.id),
        event.refs.policy_decision_id is None,
        event.refs.lock_decision_id is None,
        event.refs.tool_invocation_id is None,
        event.refs.tool_result_id is None,
        event.refs.audit_record_id is None,
        store.last_sequence < u64::MAX,
    ensures
        store.create_job(job, event) is Ok,
{
    reveal(StoreModel::event_problem);
    lemma_stored(store, job.id, job.repository_id);
}

/// An update replaces the one job of its identifier, in its place, and appends the event; it
/// never moves a job to another repository.
pub proof fn law_updates_replace_one_job(
    store: StoreModel,
    job: JobRecordModel,
    event: JobEventModel,
    at: int,
)
    requires
        store.valid(),
        0 <= at < store.jobs.len(),
        store.jobs[at].id == job.id,
    ensures
        store.update_job(job, event) is Ok <==> store.jobs[at].repository_id == job.repository_id
            && store.append_event(event) is Ok,
        store.update_job(job, event) matches Ok((after, stored)) ==> {
            &&& after.jobs.len() == store.jobs.len()
            &&& after.jobs[at] == (JobRecordModel { latest_event_id: Some(event.id), ..job })
            &&& forall|i: int|
                0 <= i < store.jobs.len() && i != at ==> #[trigger] after.jobs[i] == store.jobs[i]
            &&& after.events == store.events + seq![stored]
            &&& stored.id == event.id
            &&& stored.sequence_number == store.last_sequence + 1
            &&& after.repositories == store.repositories
            &&& after.policy_decisions == store.policy_decisions
            &&& after.lock_decisions == store.lock_decisions
            &&& after.tool_invocations == store.tool_invocations
            &&& after.tool_results == store.tool_results
            &&& after.audit_records == store.audit_records
        },
{
    crate::table::lemma_index_of_is_only::<JobRecord>(store.jobs, job.id, at);
}

/// What is not stored is not updated.
pub proof fn law_unknown_jobs_are_not_updated(
    store: StoreModel,
    job: JobRecordModel,
    event: JobEventModel,
)
    requires
        forall|i: int| 0 <= i < store.jobs.len() ==> (#[trigger] store.jobs[i]).id != job.id,
    ensures
        store.update_job(job, event) == Err::<(StoreModel, JobEventModel), StoreErrorModel>(
            StoreErrorModel::NotFound {
                collection: "jobs"@,
                id: crate::ids::JobId::debug_form(job.id),
            },
        ),
{
    law_reading_finds_what_is_stored(store, job.id);
}

/// Each kind of record has identifiers with a prefix of its own.
pub proof fn law_kinds_have_their_prefixes()
    ensures
        EventSubjectType::Repository.prefix() == "repo_"@,
        EventSubjectType::Job.prefix() == "job_"@,
        EventSubjectType::PolicyDecision.prefix() == "pol_"@,
        EventSubjectType::LockDecision.prefix() == "lock_"@,
        EventSubjectType::ToolInvocation.prefix() == "tool_"@,
        EventSubjectType::ToolResult.prefix() == "res_"@,
        EventSubjectType::AuditRecord.prefix() == "aud_"@,
{
}

/// What belongs to another repository is told of by both repositories, the right way round.
pub proof fn law_foreign_records_are_told_of(
    collection: Seq<char>,
    context: Seq<char>,
    expected: Seq<char>,
    actual: Seq<char>,
)
    ensures
        StoreErrorModel::foreign(collection, context, expected, actual) == (
        StoreErrorModel::InvalidReference {
            collection,
            reason: context + " belongs to repository "@ + crate::ids::RepositoryId::debug_form(
                actual,
            ) + ", not "@ + crate::ids::RepositoryId::debug_form(expected),
        }),
{
}

/// From the queue a job may start or end without success; a running job may end in any way;
/// an ended job stays as it is; and staying is always allowed.
pub proof fn law_jobs_move_along(from: JobStatus, to: JobStatus)
    ensures
        from.allows(to) <==> match (from, to) {
            (JobStatus::Queued, JobStatus::Queued) => true,
            (JobStatus::Queued, JobStatus::Running) => true,
            (JobStatus::Queued, JobStatus::Succeeded) => false,
            (JobStatus::Queued, JobStatus::Failed) => true,
            (JobStatus::Queued, JobStatus::Blocked) => true,
            (JobStatus::Queued, JobStatus::Canceled) => true,
            (JobStatus::Running, JobStatus::Queued) => false,
            (JobStatus::Running, _) => true,
            (JobStatus::Succeeded, JobStatus::Succeeded) => true,
            (JobStatus::Failed, JobStatus::Failed) => true,
            (JobStatus::Blocked, JobStatus::Blocked) => true,
            (JobStatus::Canceled, JobStatus::Canceled) => true,
            _ => false,
        },
        from.terminal() <==> !(from is Queued) && !(from is Running),
{
}

/// A move is made exactly where it is allowed and happens no earlier than the record's last
/// change, start and end.
pub proof fn law_moves_are_made_in_time(job: JobRecordModel, next: JobStatus, at: LedgerTimestamp)
    ensures
        job.refusal(next, at) is None <==> {
            &&& job.status.allows(next)
            &&& job.updated_at.unix_millis <= at.unix_millis
            &&& job.started_at is Some ==> job.started_at->0.unix_millis <= at.unix_millis
            &&& job.completed_at is Some ==> job.completed_at->0.unix_millis <= at.unix_millis
        },
        job.refusal(next, at) is Some ==> (!job.status.allows(next) <==> job.refusal(next, at)
            == Some(JobStatusTransitionError::InvalidTransition { from: job.status, to: next })),
        job.refusal(next, at) matches Some(
            JobStatusTransitionError::NonMonotonicTimestamp { at: told, latest },
        ) ==> {
            &&& told == at
            &&& at.unix_millis < latest.unix_millis
            &&& job.updated_at.unix_millis <= latest.unix_millis
            &&& job.started_at is Some ==> job.started_at->0.unix_millis <= latest.unix_millis
            &&& job.completed_at is Some ==> job.completed_at->0.unix_millis <= latest.unix_millis
            &&& latest == job.updated_at || job.started_at == Some(latest) || job.completed_at
                == Some(latest)
        },
{
}

/// A moved record has the new status and the time of the move; the first start and the first
/// end are noted; nothing else changes.
pub proof fn law_moves_note_their_time(job: JobRecordModel, next: JobStatus, at: LedgerTimestamp)
    ensures
        ({
            let moved = job.moved_to(next, at);
            &&& moved.status == next
            &&& moved.updated_at == at
            &&& next is Running && job.started_at is None ==> moved.started_at == Some(at)
            &&& !(next is Running) || job.started_at is Some ==> moved.started_at == job.started_at
            &&& (next is Succeeded || next is Failed || next is Blocked || next is Canceled)
                && job.completed_at is None ==> moved.completed_at == Some(at)
            &&& next is Queued || next is Running || job.completed_at is Some ==> moved.completed_at
                == job.completed_at
            &&& moved == (JobRecordModel {
                status: moved.status,
                updated_at: moved.updated_at,
                started_at: moved.started_at,
                completed_at: moved.completed_at,
                ..job
            })
        }),
{
}

/// A lock is reclaimed by its owner, from the moment it expires on and not before its last
/// change, unless it was released; reclaiming it again changes nothing.
pub proof fn law_owners_reclaim_expired_locks(
    lock: LockDecisionModel,
    owner: LockOwnerModel,
    at: LedgerTimestamp,
)
    ensures
        lock.reclaim_result(owner, at) == Ok::<bool, LockReclaimError>(true) <==> {
            &&& owner == lock.owner
            &&& lock.status is Held || lock.status is Expired
            &&& lock.updated_at.unix_millis <= at.unix_millis
            &&& lock.expires_at.unix_millis <= at.unix_millis
        },
        lock.reclaim_result(owner, at) == Ok::<bool, LockReclaimError>(false) <==> owner
            == lock.owner && lock.status is Reclaimed,
        owner != lock.owner <==> lock.reclaim_result(owner, at) == Err::<bool, LockReclaimError>(
            LockReclaimError::OwnerMismatch,
        ),
        owner == lock.owner && lock.status is Released <==> lock.reclaim_result(owner, at) == Err::<
            bool,
            LockReclaimError,
        >(LockReclaimError::AlreadyReleased),
        lock.reclaim_result(owner, at) matches Err(
            LockReclaimError::NotExpired { reclaimed_at, expires_at },
        ) ==> reclaimed_at == at && expires_at == lock.expires_at && at.unix_millis
            < expires_at.unix_millis,
        lock.reclaim_result(owner, at) matches Err(
            LockReclaimError::NonMonotonicTimestamp { at: told, latest },
        ) ==> told == at && latest == lock.updated_at && at.unix_millis < latest.unix_millis,
        ({
            let after = lock.after_reclaim(owner, at);
            let reclaimed = lock.reclaim_result(owner, at) == Ok::<bool, LockReclaimError>(true);
            &&& reclaimed ==> after.status is Reclaimed && after.reclaimed_at == Some(at)
                && after.updated_at == at
            &&& !reclaimed ==> after == lock
            &&& after == (LockDecisionModel {
                status: after.status,
                reclaimed_at: after.reclaimed_at,
                updated_at: after.updated_at,
                ..lock
            })
        }),
{
}

/// The clock is read in milliseconds after the epoch, within what a timestamp can hold.
pub proof fn law_clocks_count_from_the_epoch(millis: u128)
    ensures
        LedgerTimestamp::of_clock(None) == 0,
        millis <= i64::MAX ==> LedgerTimestamp::of_clock(Some(millis)) == millis,
        millis > i64::MAX ==> LedgerTimestamp::of_clock(Some(millis)) == i64::MAX,
{
}

/// What a call on a store answers is what the operation gives, and a refused call changes
/// nothing; a reliable store refuses only what the operation refuses, and says why.
pub proof fn law_refused_calls_change_nothing<T: DeepView>(
    operation: Result<(StoreModel, T::V), StoreErrorModel>,
    before: StoreModel,
    after: StoreModel,
    answer: Result<T, StoreError>,
    reliable: bool,
)
    requires
        crate::store_model::outcome(operation, before, after, answer, reliable),
    ensures
        answer is Ok ==> operation is Ok && operation->Ok_0.0 == after && operation->Ok_0.1
            == answer->Ok_0.deep_view(),
        answer is Err ==> after == before,
        answer is Err && reliable ==> operation is Err && operation->Err_0
            == answer->Err_0.deep_view(),
{
}

/// What a call that only reads a store answers is what the store holds; a reliable store
/// answers wherever there is something to give.
pub proof fn law_reading_calls_answer_as_expected<T: DeepView>(
    expected: Result<T::V, StoreErrorModel>,
    answer: Result<T, StoreError>,
    reliable: bool,
)
    requires
        crate::store_model::answers(expected, answer, reliable),
    ensures
        answer is Ok ==> expected is Ok && expected->Ok_0 == answer->Ok_0.deep_view(),
        answer is Err && reliable ==> expected is Err && expected->Err_0
            == answer->Err_0.deep_view(),
{
}

/// A record that is looked up is given where it is there; where it is not, the collection and
/// the identifier are told.
pub proof fn law_missing_records_are_told_of<M>(
    record: Option<M>,
    collection: Seq<char>,
    id: Seq<char>,
)
    ensures
        ({
            let answer = crate::store_model::found(record, collection, id);
            &&& record is Some ==> answer is Ok && answer->Ok_0 == record->0
            &&& record is None ==> answer is Err && answer->Err_0 == (StoreErrorModel::NotFound {
                collection,
                id,
            })
        }),
{
}

/// The refusal of what belongs to another repository: it names the repository that it belongs
/// to, and the one that it should.
pub open spec fn belongs_elsewhere(
    error: StoreErrorModel,
    collection: Seq<char>,
    context: Seq<char>,
    actual: Seq<char>,
    expected: Seq<char>,
) -> bool {
    error == (StoreErrorModel::InvalidReference {
        collection,
        reason: context + " belongs to repository "@ + ("RepositoryId(\""@ + actual + "\")"@)
            + ", not "@ + ("RepositoryId(\""@ + expected + "\")"@),
    })
}

/// A new record that refers to something of another repository is refused for that, by the
/// first such reference.
pub proof fn law_records_stay_within_their_repository(
    store: StoreModel,
    lock: LockDecisionModel,
    invocation: ToolInvocationModel,
    audit: AuditRecordModel,
    job: JobRecordModel,
    event: JobEventModel,
)
    requires
        store.repository(lock.repository_id) is Some,
        store.repository(invocation.repository_id) is Some,
        store.repository(audit.repository_id) is Some,
    ensures
        store.lock_decision(lock.id) is None && is_in_time(lock) ==> (store.policy_decision(
            lock.policy_decision_id,
        ) matches Some(decision) ==> decision.repository_id != lock.repository_id ==> {
            &&& store.create_lock_decision(lock) is Err
            &&& belongs_elsewhere(
                store.create_lock_decision(lock)->Err_0,
                "lock_decisions"@,
                "lock_decision.policy_decision_id"@,
                decision.repository_id,
                lock.repository_id,
            )
        }),
        store.job(invocation.job_id) matches Some(owner) ==> owner.repository_id
            != invocation.repository_id ==> {
            &&& store.create_tool_invocation(invocation) is Err
            &&& belongs_elsewhere(
                store.create_tool_invocation(invocation)->Err_0,
                "tool_invocations"@,
                "tool_invocation.job_id"@,
                owner.repository_id,
                invocation.repository_id,
            )
        },
        store.job(invocation.job_id) matches Some(owner) ==> owner.repository_id
            == invocation.repository_id ==> (store.policy_decision(
            invocation.policy_decision_id,
        ) matches Some(decision) ==> decision.repository_id != invocation.repository_id ==> {
            &&& store.create_tool_invocation(invocation) is Err
            &&& belongs_elsewhere(
                store.create_tool_invocation(invocation)->Err_0,
                "tool_invocations"@,
                "tool_invocation.policy_decision_id"@,
                decision.repository_id,
                invocation.repository_id,
            )
        }),
        store.policy_decision(audit.policy_decision_id) matches Some(decision)
            ==> decision.repository_id != audit.repository_id ==> {
            &&& store.create_audit_record(audit) is Err
            &&& belongs_elsewhere(
                store.create_audit_record(audit)->Err_0,
                "audit_records"@,
                "audit_record.policy_decision_id"@,
                decision.repository_id,
                audit.repository_id,
            )
        },
        store.job(job.id) matches Some(stored) ==> stored.repository_id != job.repository_id ==> {
            &&& store.update_job(job, event) is Err
            &&& belongs_elsewhere(
                store.update_job(job, event)->Err_0,
                "jobs"@,
                "job.repository_id"@,
                job.repository_id,
                stored.repository_id,
            )
        },
{
    reveal(StoreModel::lock_problem);
    reveal(StoreModel::invocation_problem);
    reveal(StoreModel::audit_problem);
}

/// A held lock that stands in the way is named: it is the first that does.
pub proof fn law_locks_in_the_way_are_named(store: StoreModel, lock: LockDecisionModel, at: int)
    requires
        store.valid(),
        0 <= at < store.lock_decisions.len(),
        excludes(store.lock_decisions[at], lock),
        forall|i: int| 0 <= i < at ==> !excludes(#[trigger] store.lock_decisions[i], lock),
        store.lock_decision(lock.id) is None,
        is_in_time(lock),
        registered(store, lock.repository_id),
        decided_in(store, lock.policy_decision_id, lock.repository_id),
        lock.owner matches LockOwnerModel::Job(job) ==> done_in(store, job, lock.repository_id),
    ensures
        store.create_lock_decision(lock) is Err,
        store.create_lock_decision(lock)->Err_0 == (StoreErrorModel::Conflict {
            collection: "lock_decisions"@,
            reason: "active lock "@ + ("LockDecisionId(\""@ + store.lock_decisions[at].id + "\")"@)
                + " already covers repository/scope"@,
        }),
{
    reveal(StoreModel::lock_problem);
    lemma_stored(store, lock.policy_decision_id, lock.repository_id);
    if lock.owner is Job {
        lemma_stored(store, lock.owner->Job_0, lock.repository_id);
    }
    lemma_clash_at(store.lock_decisions, lock, at);
}

proof fn lemma_clash_at(locks: Seq<LockDecisionModel>, lock: LockDecisionModel, at: int)
    requires
        0 <= at < locks.len(),
        excludes(locks[at], lock),
        forall|i: int| 0 <= i < at ==> !excludes(#[trigger] locks[i], lock),
    ensures
        crate::store_model::first_clash(locks, lock) == Some(locks[at]),
    decreases at,
{
    if at > 0 {
        let rest = locks.drop_first();
        assert(!excludes(locks[0], lock));
        assert forall|i: int| 0 <= i < at - 1 implies !excludes(#[trigger] rest[i], lock) by {
            assert(rest[i] == locks[i + 1]);
        }
        lemma_clash_at(rest, lock, at - 1);
    }
}

} // verus!

//! What every store keeps true, and how its operations fit together.
use vstd::prelude::*;

use crate::domain::{
    AuditRecord, AuditRecordModel, EventRefsModel, JobEvent, JobEventModel, JobRecord,
    JobRecordModel, LockDecision, LockDecisionModel, LockOwnerModel, PolicyDecision,
    PolicyDecisionModel, RepositoryRecord, RepositoryRecordModel, ToolInvocation,
    ToolInvocationModel, ToolResult, ToolResultModel,
};
use crate::store::{EventCursorModel, EventQueryModel, StoreErrorModel};
use crate::store_model::StoreModel;

verus! {

impl StoreModel {
    pub open spec fn job_fits(self, job: JobRecordModel) -> bool {
        &&& self.repository(job.repository_id) is Some
        &&& job.latest_event_id is Some
        &&& self.event(job.latest_event_id->0) is Some
    }

    pub open spec fn policy_fits(self, policy: PolicyDecisionModel) -> bool {
        self.repository(policy.repository_id) is Some
    }

    /// The policy decision is there and belongs to the repository.
    pub open spec fn policy_within(self, policy_id: Seq<char>, repository_id: Seq<char>) -> bool {
        &&& self.policy_decision(policy_id) is Some
        &&& self.policy_decision(policy_id)->0.repository_id == repository_id
    }

    pub open spec fn job_within(self, job_id: Seq<char>, repository_id: Seq<char>) -> bool {
        &&& self.job(job_id) is Some
        &&& self.job(job_id)->0.repository_id == repository_id
    }

    pub open spec fn invocation_within(self, id: Seq<char>, repository_id: Seq<char>) -> bool {
        &&& self.tool_invocation(id) is Some
        &&& self.tool_invocation(id)->0.repository_id == repository_id
    }

    pub open spec fn lock_fits(self, lock: LockDecisionModel) -> bool {
        &&& lock.timing_problem() is None
        &&& self.repository(lock.repository_id) is Some
        &&& self.policy_within(lock.policy_decision_id, lock.repository_id)
        &&& lock.owner matches LockOwnerModel::Job(id) ==> self.job_within(id, lock.repository_id)
    }

    pub open spec fn invocation_fits(self, invocation: ToolInvocationModel) -> bool {
        &&& self.repository(invocation.repository_id) is Some
        &&& self.job_within(invocation.job_id, invocation.repository_id)
        &&& self.policy_within(invocation.policy_decision_id, invocation.repository_id)
    }

    pub open spec fn result_fits(self, result: ToolResultModel) -> bool {
        &&& self.tool_invocation(result.invocation_id) is Some
        &&& self.tool_invocation(result.invocation_id)->0.tool_id == result.tool_id
    }

    pub open spec fn audit_fits(self, audit: AuditRecordModel) -> bool {
        &&& self.repository(audit.repository_id) is Some
        &&& self.policy_within(audit.policy_decision_id, audit.repository_id)
        &&& audit.tool_invocation_id matches Some(id) ==> {
            &&& self.tool_invocation(id) is Some
            &&& self.tool_invocation(id)->0.repository_id == audit.repository_id
            &&& self.tool_invocation(id)->0.policy_decision_id == audit.policy_decision_id
        }
    }

    /// The subject and all references of the event lead to records of one repository.
    pub open spec fn event_fits(self, event: JobEventModel) -> bool {
        match self.subject_repository(event.subject, None) {
            Err(_) => false,
            Ok(repository) => {
                &&& event.refs.repository_id matches Some(id) ==> id == repository
                    && self.repository(id) is Some
                &&& self.refs_repository(event.refs, None, Some(repository)) is Ok
            },
        }
    }

    /// What every store keeps true: identifiers are unique, every reference leads to a
    /// record of the same repository, events are numbered in their order, a scope is
    /// locked at most once at a time, and an invocation has at most one result.
    pub open spec fn valid(self) -> bool {
        &&& crate::table::unique::<RepositoryRecord>(self.repositories)
        &&& crate::table::unique::<JobRecord>(self.jobs)
        &&& crate::table::unique::<JobEvent>(self.events)
        &&& crate::table::unique::<PolicyDecision>(self.policy_decisions)
        &&& crate::table::unique::<LockDecision>(self.lock_decisions)
        &&& crate::table::unique::<ToolInvocation>(self.tool_invocations)
        &&& crate::table::unique::<ToolResult>(self.tool_results)
        &&& crate::table::unique::<AuditRecord>(self.audit_records)
        &&& self.rows_fit()
        &&& self.events_are_numbered()
        &&& self.locks_exclude_each_other()
        &&& self.results_are_unique()
    }

    pub open spec fn rows_fit(self) -> bool {
        &&& forall|i: int| 0 <= i < self.jobs.len() ==> self.job_fits(#[trigger] self.jobs[i])
        &&& forall|i: int|
            0 <= i < self.policy_decisions.len() ==> self.policy_fits(
                #[trigger] self.policy_decisions[i],
            )
        &&& forall|i: int|
            0 <= i < self.lock_decisions.len() ==> self.lock_fits(#[trigger] self.lock_decisions[i])
        &&& forall|i: int|
            0 <= i < self.tool_invocations.len() ==> self.invocation_fits(
                #[trigger] self.tool_invocations[i],
            )
        &&& forall|i: int|
            0 <= i < self.tool_results.len() ==> self.result_fits(#[trigger] self.tool_results[i])
        &&& forall|i: int|
            0 <= i < self.audit_records.len() ==> self.audit_fits(#[trigger] self.audit_records[i])
        &&& forall|i: int| 0 <= i < self.events.len() ==> self.event_fits(#[trigger] self.events[i])
    }

    pub open spec fn events_are_numbered(self) -> bool {
        &&& forall|i: int, j: int|
            0 <= i < j < self.events.len() ==> (#[trigger] self.events[i]).sequence_number < (
            #[trigger] self.events[j]).sequence_number
        &&& forall|i: int|
            0 <= i < self.events.len() ==> 0 < (#[trigger] self.events[i]).sequence_number
                <= self.last_sequence
    }

    pub open spec fn locks_exclude_each_other(self) -> bool {
        forall|i: int, j: int|
            0 <= i < j < self.lock_decisions.len()
                ==> !(#[trigger] self.lock_decisions[i]).clashes_with(
                #[trigger] self.lock_decisions[j],
            )
    }

    pub open spec fn results_are_unique(self) -> bool {
        forall|i: int, j: int|
            0 <= i < j < self.tool_results.len() ==> (#[trigger] self.tool_results[i]).invocation_id
                != (#[trigger] self.tool_results[j]).invocation_id
    }

    /// Whatever is found in `self` is found in `later`, in the same repository.
    pub open spec fn grows_to(self, later: StoreModel) -> bool {
        &&& forall|id: Seq<char>| #[trigger]
            self.repository(id) is Some ==> later.repository(id) == self.repository(id)
        &&& forall|id: Seq<char>| #[trigger]
            self.job(id) is Some ==> later.job(id) is Some && later.job(id)->0.repository_id
                == self.job(id)->0.repository_id
        &&& forall|id: Seq<char>| #[trigger]
            self.event(id) is Some ==> later.event(id) == self.event(id)
        &&& forall|id: Seq<char>| #[trigger]
            self.policy_decision(id) is Some ==> later.policy_decision(id) == self.policy_decision(
                id,
            )
        &&& forall|id: Seq<char>| #[trigger]
            self.lock_decision(id) is Some ==> later.lock_decision(id) == self.lock_decision(id)
        &&& forall|id: Seq<char>| #[trigger]
            self.tool_invocation(id) is Some ==> later.tool_invocation(id) == self.tool_invocation(
                id,
            )
        &&& forall|id: Seq<char>| #[trigger]
            self.tool_result(id) is Some ==> later.tool_result(id) == self.tool_result(id)
        &&& forall|id: Seq<char>| #[trigger]
            self.audit_record(id) is Some ==> later.audit_record(id) == self.audit_record(id)
    }
}

proof fn lemma_event_fits_later(store: StoreModel, later: StoreModel, event: JobEventModel)
    requires
        store.grows_to(later),
        store.event_fits(event),
    ensures
        later.event_fits(event),
        later.subject_repository(event.subject, None) == store.subject_repository(
            event.subject,
            None,
        ),
{
    let id = event.subject.subject_id;
    let _ = store.repository(id);
    let _ = store.job(id);
    let _ = store.policy_decision(id);
    let _ = store.lock_decision(id);
    let _ = store.tool_invocation(id);
    let _ = store.tool_result(id);
    let _ = store.audit_record(id);
    assert(later.subject_repository(event.subject, None) == store.subject_repository(
        event.subject,
        None,
    ));
    let repository = store.subject_repository(event.subject, None)->Ok_0;
    lemma_refs_later(store, later, event.refs, repository);
}

proof fn lemma_refs_later(
    store: StoreModel,
    later: StoreModel,
    refs: EventRefsModel,
    repository: Seq<char>,
)
    requires
        store.grows_to(later),
        store.refs_repository(refs, None, Some(repository)) is Ok,
    ensures
        later.refs_repository(refs, None, Some(repository)) == store.refs_repository(
            refs,
            None,
            Some(repository),
        ),
{
    assert(later.job_reference(refs.job_id, None) == store.job_reference(refs.job_id, None));
    assert(later.policy_reference(refs.policy_decision_id) == store.policy_reference(
        refs.policy_decision_id,
    ));
    assert(later.lock_reference(refs.lock_decision_id) == store.lock_reference(
        refs.lock_decision_id,
    ));
    assert(later.invocation_reference(refs.tool_invocation_id) == store.invocation_reference(
        refs.tool_invocation_id,
    ));
    assert(later.result_reference(refs.tool_result_id) == store.result_reference(
        refs.tool_result_id,
    ));
    assert(later.audit_reference(refs.audit_record_id) == store.audit_reference(
        refs.audit_record_id,
    ));
}

/// The rows of a store fit into every store that it grows to.
proof fn lemma_rows_fit_later(store: StoreModel, later: StoreModel)
    requires
        store.rows_fit(),
        store.grows_to(later),
    ensures
        forall|i: int| 0 <= i < store.jobs.len() ==> later.job_fits(#[trigger] store.jobs[i]),
        forall|i: int|
            0 <= i < store.policy_decisions.len() ==> later.policy_fits(
                #[trigger] store.policy_decisions[i],
            ),
        forall|i: int|
            0 <= i < store.lock_decisions.len() ==> later.lock_fits(
                #[trigger] store.lock_decisions[i],
            ),
        forall|i: int|
            0 <= i < store.tool_invocations.len() ==> later.invocation_fits(
                #[trigger] store.tool_invocations[i],
            ),
        forall|i: int|
            0 <= i < store.tool_results.len() ==> later.result_fits(
                #[trigger] store.tool_results[i],
            ),
        forall|i: int|
            0 <= i < store.audit_records.len() ==> later.audit_fits(
                #[trigger] store.audit_records[i],
            ),
        forall|i: int|
            0 <= i < store.events.len() ==> later.event_fits(#[trigger] store.events[i]),
{
    assert forall|i: int| 0 <= i < store.events.len() implies later.event_fits(
        #[trigger] store.events[i],
    ) by {
        lemma_event_fits_later(store, later, store.events[i]);
    }
}

impl StoreModel {
    /// Numbers count the events: the first has number one, and each other the next.
    pub open spec fn counts_events(self) -> bool {
        &&& self.last_sequence == self.events.len()
        &&& forall|i: int|
            0 <= i < self.events.len() ==> (#[trigger] self.events[i]).sequence_number == i + 1
    }

    /// The other store holds the same events, and has given out the same numbers.
    pub open spec fn same_events(self, other: StoreModel) -> bool {
        &&& other.events == self.events
        &&& other.last_sequence == self.last_sequence
        &&& self.counts_events() ==> other.counts_events()
    }

    /// The subject of the event, and every record that it refers to, is stored and belongs
    /// to the repository.
    pub open spec fn holds_records_of(self, event: JobEventModel, repository: Seq<char>) -> bool {
        let refs = event.refs;
        &&& self.subject_repository(event.subject, None) == Ok::<Seq<char>, StoreErrorModel>(
            repository,
        )
        &&& refs.repository_id matches Some(id) ==> id == repository && self.repository(
            id,
        ) is Some
        &&& refs.job_id matches Some(id) ==> self.job_within(id, repository)
        &&& refs.policy_decision_id matches Some(id) ==> self.policy_within(id, repository)
        &&& refs.lock_decision_id matches Some(id) ==> {
            &&& self.lock_decision(id) is Some
            &&& self.lock_decision(id)->0.repository_id == repository
        }
        &&& refs.tool_invocation_id matches Some(id) ==> self.invocation_within(id, repository)
        &&& refs.tool_result_id matches Some(id) ==> {
            &&& self.tool_result(id) is Some
            &&& self.invocation_within(self.tool_result(id)->0.invocation_id, repository)
        }
        &&& refs.audit_record_id matches Some(id) ==> {
            &&& self.audit_record(id) is Some
            &&& self.audit_record(id)->0.repository_id == repository
        }
    }
}

/// An empty store is valid.
pub proof fn law_empty_store_is_valid(last_sequence: u64)
    ensures
        StoreModel::empty(last_sequence).valid(),
{
}

/// Storing a repository keeps the store valid: it is read back as it was stored, and all other
/// records as before.
pub proof fn law_create_repository_keeps_validity(
    store: StoreModel,
    record: RepositoryRecordModel,
    later: StoreModel,
)
    requires
        store.valid(),
        store.create_repository(record) == Ok::<(StoreModel, ()), StoreErrorModel>((later, ())),
    ensures
        later.valid(),
        store.grows_to(later),
        later.repository(record.id) == Some(record),
{
    assert forall|id: Seq<char>| #[trigger] store.repository(id) is Some implies later.repository(
        id,
    ) == store.repository(id) by {
        crate::table::lemma_lookup_push::<RepositoryRecord>(store.repositories, record, id);
    }
    crate::table::lemma_lookup_push::<RepositoryRecord>(store.repositories, record, record.id);
    crate::table::lemma_unique_push::<RepositoryRecord>(store.repositories, record);
    lemma_rows_fit_later(store, later);
}

/// Storing a policy decision keeps the store valid: it is read back as it was stored, and all other
/// records as before.
pub proof fn law_create_policy_decision_keeps_validity(
    store: StoreModel,
    record: PolicyDecisionModel,
    later: StoreModel,
)
    requires
        store.valid(),
        store.create_policy_decision(record) == Ok::<(StoreModel, ()), StoreErrorModel>(
            (later, ()),
        ),
    ensures
        later.valid(),
        store.grows_to(later),
        later.policy_decision(record.id) == Some(record),
{
    assert forall|id: Seq<char>| #[trigger]
        store.policy_decision(id) is Some implies later.policy_decision(id)
        == store.policy_decision(id) by {
        crate::table::lemma_lookup_push::<PolicyDecision>(store.policy_decisions, record, id);
    }
    crate::table::lemma_lookup_push::<PolicyDecision>(store.policy_decisions, record, record.id);
    crate::table::lemma_unique_push::<PolicyDecision>(store.policy_decisions, record);
    lemma_rows_fit_later(store, later);
}

proof fn lemma_no_clash(locks: Seq<LockDecisionModel>, lock: LockDecisionModel)
    requires
        crate::store_model::first_clash(locks, lock) is None,
    ensures
        forall|i: int| 0 <= i < locks.len() ==> !(#[trigger] locks[i]).clashes_with(lock),
    decreases locks.len(),
{
    if locks.len() > 0 {
        lemma_no_clash(locks.drop_first(), lock);
        assert forall|i: int| 0 <= i < locks.len() implies !(#[trigger] locks[i]).clashes_with(
            lock,
        ) by {
            if i > 0 {
                assert(locks[i] == locks.drop_first()[i - 1]);
            }
        }
    }
}

/// Storing a lock keeps the store valid: above all, no scope is locked twice at a time.
pub proof fn law_create_lock_decision_keeps_validity(
    store: StoreModel,
    record: LockDecisionModel,
    later: StoreModel,
)
    requires
        store.valid(),
        store.create_lock_decision(record) == Ok::<(StoreModel, ()), StoreErrorModel>((later, ())),
    ensures
        later.valid(),
        store.grows_to(later),
        later.lock_decision(record.id) == Some(record),
{
    reveal(StoreModel::lock_problem);
    assert forall|id: Seq<char>| #[trigger]
        store.lock_decision(id) is Some implies later.lock_decision(id) == store.lock_decision(
        id,
    ) by {
        crate::table::lemma_lookup_push::<LockDecision>(store.lock_decisions, record, id);
    }
    crate::table::lemma_lookup_push::<LockDecision>(store.lock_decisions, record, record.id);
    crate::table::lemma_unique_push::<LockDecision>(store.lock_decisions, record);
    lemma_rows_fit_later(store, later);
    lemma_no_clash(store.lock_decisions, record);
    assert(later.lock_fits(record));
}

/// Storing a tool invocation keeps the store valid: it is read back as it was stored, and all other
/// records as before.
pub proof fn law_create_tool_invocation_keeps_validity(
    store: StoreModel,
    record: ToolInvocationModel,
    later: StoreModel,
)
    requires
        store.valid(),
        store.create_tool_invocation(record) == Ok::<(StoreModel, ()), StoreErrorModel>(
            (later, ()),
        ),
    ensures
        later.valid(),
        store.grows_to(later),
        later.tool_invocation(record.id) == Some(record),
{
    reveal(StoreModel::invocation_problem);
    assert forall|id: Seq<char>| #[trigger]
        store.tool_invocation(id) is Some implies later.tool_invocation(id)
        == store.tool_invocation(id) by {
        crate::table::lemma_lookup_push::<ToolInvocation>(store.tool_invocations, record, id);
    }
    crate::table::lemma_lookup_push::<ToolInvocation>(store.tool_invocations, record, record.id);
    crate::table::lemma_unique_push::<ToolInvocation>(store.tool_invocations, record);
    lemma_rows_fit_later(store, later);
    assert(later.invocation_fits(record));
}

/// Storing a tool result keeps the store valid: above all, no invocation is answered twice.
pub proof fn law_create_tool_result_keeps_validity(
    store: StoreModel,
    record: ToolResultModel,
    later: StoreModel,
)
    requires
        store.valid(),
        store.create_tool_result(record) == Ok::<(StoreModel, ()), StoreErrorModel>((later, ())),
    ensures
        later.valid(),
        store.grows_to(later),
        later.tool_result(record.id) == Some(record),
{
    reveal(StoreModel::result_problem);
    assert forall|id: Seq<char>| #[trigger] store.tool_result(id) is Some implies later.tool_result(
        id,
    ) == store.tool_result(id) by {
        crate::table::lemma_lookup_push::<ToolResult>(store.tool_results, record, id);
    }
    crate::table::lemma_lookup_push::<ToolResult>(store.tool_results, record, record.id);
    crate::table::lemma_unique_push::<ToolResult>(store.tool_results, record);
    lemma_rows_fit_later(store, later);
    assert(later.result_fits(record));
    assert forall|i: int, j: int| 0 <= i < j < later.tool_results.len() implies (
    #[trigger] later.tool_results[i]).invocation_id != (
    #[trigger] later.tool_results[j]).invocation_id by {
        if j == store.tool_results.len() {
            assert(later.tool_results[i] == store.tool_results[i]);
            assert(store.tool_results[i].invocation_id != record.invocation_id);
        } else {
            assert(store.tool_results[i].invocation_id != store.tool_results[j].invocation_id);
        }
    }
}

/// Storing an audit record keeps the store valid: it is read back as it was stored, and all other
/// records as before.
pub proof fn law_create_audit_record_keeps_validity(
    store: StoreModel,
    record: AuditRecordModel,
    later: StoreModel,
)
    requires
        store.valid(),
        store.create_audit_record(record) == Ok::<(StoreModel, ()), StoreErrorModel>((later, ())),
    ensures
        later.valid(),
        store.grows_to(later),
        later.audit_record(record.id) == Some(record),
{
    reveal(StoreModel::audit_problem);
    assert forall|id: Seq<char>| #[trigger]
        store.audit_record(id) is Some implies later.audit_record(id) == store.audit_record(id) by {
        crate::table::lemma_lookup_push::<AuditRecord>(store.audit_records, record, id);
    }
    crate::table::lemma_lookup_push::<AuditRecord>(store.audit_records, record, record.id);
    crate::table::lemma_unique_push::<AuditRecord>(store.audit_records, record);
    lemma_rows_fit_later(store, later);
    assert(later.audit_fits(record));
}

/// What appending an event does to a store, apart from where the event fits in.
proof fn lemma_append_frame(store: StoreModel, event: JobEventModel)
    requires
        store.valid(),
        store.event(event.id) is None,
        store.last_sequence < u64::MAX,
    ensures
        ({
            let later = store.with_event(event);
            &&& store.grows_to(later)
            &&& crate::table::unique::<JobEvent>(later.events)
            &&& later.events_are_numbered()
            &&& later.event(event.id) == Some(store.numbered(event))
        }),
{
    let later = store.with_event(event);
    let stored = store.numbered(event);
    assert forall|id: Seq<char>| #[trigger] store.event(id) is Some implies later.event(id)
        == store.event(id) by {
        crate::table::lemma_lookup_push::<JobEvent>(store.events, stored, id);
    }
    crate::table::lemma_lookup_push::<JobEvent>(store.events, stored, event.id);
    crate::table::lemma_unique_push::<JobEvent>(store.events, stored);
}

/// Appending an event keeps the store valid, and gives the event a number greater than
/// any before it.
pub proof fn law_append_event_keeps_validity(
    store: StoreModel,
    event: JobEventModel,
    later: StoreModel,
    stored: JobEventModel,
)
    requires
        store.valid(),
        store.append_event(event) == Ok::<(StoreModel, JobEventModel), StoreErrorModel>(
            (later, stored),
        ),
    ensures
        later.valid(),
        store.grows_to(later),
        later.event(event.id) == Some(stored),
        forall|i: int|
            0 <= i < store.events.len() ==> (#[trigger] store.events[i]).sequence_number
                < stored.sequence_number,
{
    reveal(StoreModel::event_problem);
    lemma_append_frame(store, event);
    assert(store.event_fits(event));
    assert(store.event_fits(stored));
    lemma_event_fits_later(store, later, stored);
    lemma_rows_fit_later(store, later);
}

/// An event is appended exactly where its identifier is new, its subject is what it says to
/// be, everything it speaks of is stored in one repository, and there is a number left. It
/// is then read back as it was given, under the next number.
pub proof fn law_append_event_takes_what_fits(store: StoreModel, event: JobEventModel)
    requires
        store.valid(),
    ensures
        store.append_event(event) is Ok <==> {
            &&& store.event(event.id) is None
            &&& crate::ids::is_id_text(
                event.subject.subject_type.prefix(),
                event.subject.subject_id,
            )
            &&& exists|repository: Seq<char>| #[trigger] store.holds_records_of(event, repository)
            &&& store.last_sequence < u64::MAX
        },
        store.event(event.id) is Some ==> store.append_event(event) == Err::<
            (StoreModel, JobEventModel),
            StoreErrorModel,
        >(
            StoreErrorModel::DuplicateId {
                collection: "job_events"@,
                id: crate::ids::JobEventId::debug_form(event.id),
            },
        ),
        store.append_event(event) matches Ok((later, stored)) ==> {
            &&& stored == (JobEventModel {
                sequence_number: (store.last_sequence + 1) as u64,
                ..event
            })
            &&& later.event(event.id) == Some(stored)
        },
{
    reveal(StoreModel::event_problem);
    match store.subject_repository(event.subject, None) {
        Ok(repository) => {
            if store.event_problem(event, None) is None {
                assert(store.holds_records_of(event, repository));
            }
        },
        Err(_) => {},
    }
    if store.append_event(event) is Ok {
        lemma_append_frame(store, event);
    }
}

/// A new store gives its first event number one.
pub proof fn law_counting_starts_at_one()
    ensures
        StoreModel::empty(0).counts_events(),
{
}

/// Where the numbers count the events, the event that is appended gets one more than the
/// number of events before it, whatever number it came with; and the numbers still count.
pub proof fn law_append_event_counts(
    store: StoreModel,
    event: JobEventModel,
    later: StoreModel,
    stored: JobEventModel,
)
    requires
        store.counts_events(),
        store.append_event(event) == Ok::<(StoreModel, JobEventModel), StoreErrorModel>(
            (later, stored),
        ),
    ensures
        later.counts_events(),
        stored.sequence_number == store.events.len() + 1,
        later.events == store.events.push(stored),
{
}

/// So does the first event of a job.
pub proof fn law_create_job_counts(
    store: StoreModel,
    job: JobRecordModel,
    event: JobEventModel,
    later: StoreModel,
    stored: JobEventModel,
)
    requires
        store.counts_events(),
        store.create_job(job, event) == Ok::<(StoreModel, JobEventModel), StoreErrorModel>(
            (later, stored),
        ),
    ensures
        later.counts_events(),
        stored.sequence_number == store.events.len() + 1,
        later.events == store.events.push(stored),
{
}

/// And an event that updates a job.
pub proof fn law_update_job_counts(
    store: StoreModel,
    job: JobRecordModel,
    event: JobEventModel,
    later: StoreModel,
    stored: JobEventModel,
)
    requires
        store.counts_events(),
        store.update_job(job, event) == Ok::<(StoreModel, JobEventModel), StoreErrorModel>(
            (later, stored),
        ),
    ensures
        later.counts_events(),
        stored.sequence_number == store.events.len() + 1,
        later.events == store.events.push(stored),
{
}

/// Two updates in a row count both of their events.
pub proof fn law_update_job_twice_counts(
    store: StoreModel,
    first_job: JobRecordModel,
    first_event: JobEventModel,
    second_job: JobRecordModel,
    second_event: JobEventModel,
    later: StoreModel,
    first: JobEventModel,
    second: JobEventModel,
)
    requires
        store.counts_events(),
        store.update_job_twice(first_job, first_event, second_job, second_event) == Ok::<
            (StoreModel, (JobEventModel, JobEventModel)),
            StoreErrorModel,
        >((later, (first, second))),
    ensures
        later.counts_events(),
        first.sequence_number == store.events.len() + 1,
        second.sequence_number == store.events.len() + 2,
        later.events == store.events.push(first).push(second),
{
    let (between, _) = store.update_job(first_job, first_event)->Ok_0;
    law_update_job_counts(store, first_job, first_event, between, first);
    law_update_job_counts(between, second_job, second_event, later, second);
}

/// So does recording a result and the audit on it.
pub proof fn law_record_result_and_audit_counts(
    store: StoreModel,
    job: JobRecordModel,
    result: ToolResultModel,
    result_event: JobEventModel,
    audit: AuditRecordModel,
    audit_event: JobEventModel,
    later: StoreModel,
    first: JobEventModel,
    second: JobEventModel,
)
    requires
        store.counts_events(),
        store.record_result_and_audit(job, result, result_event, audit, audit_event) == Ok::<
            (StoreModel, (JobEventModel, JobEventModel)),
            StoreErrorModel,
        >((later, (first, second))),
    ensures
        later.counts_events(),
        first.sequence_number == store.events.len() + 1,
        second.sequence_number == store.events.len() + 2,
        later.events == store.events.push(first).push(second),
{
    let (with_result, _) = store.create_tool_result(result)->Ok_0;
    let (between, _) = with_result.update_job(job, result_event)->Ok_0;
    law_update_job_counts(with_result, job, result_event, between, first);
    let (with_audit, _) = between.create_audit_record(audit)->Ok_0;
    law_update_job_counts(with_audit, job, audit_event, later, second);
}

/// Storing any other record leaves the events and their numbers as they are.
pub proof fn law_other_records_leave_the_events_alone(
    store: StoreModel,
    repository: RepositoryRecordModel,
    decision: PolicyDecisionModel,
    lock: LockDecisionModel,
    invocation: ToolInvocationModel,
    result: ToolResultModel,
    audit: AuditRecordModel,
)
    ensures
        store.create_repository(repository) matches Ok((later, _)) ==> store.same_events(later),
        store.create_policy_decision(decision) matches Ok((later, _)) ==> store.same_events(later),
        store.create_lock_decision(lock) matches Ok((later, _)) ==> store.same_events(later),
        store.create_tool_invocation(invocation) matches Ok((later, _)) ==> store.same_events(
            later,
        ),
        store.create_tool_result(result) matches Ok((later, _)) ==> store.same_events(later),
        store.create_audit_record(audit) matches Ok((later, _)) ==> store.same_events(later),
{
}

/// With the pending job stored, an event that names it as pending fits.
proof fn lemma_pending_becomes_stored(
    store: StoreModel,
    later: StoreModel,
    job: JobRecordModel,
    event: JobEventModel,
)
    requires
        store.grows_to(later),
        store.job(job.id) is None,
        later.job(job.id) is Some,
        later.job(job.id)->0.repository_id == job.repository_id,
        store.event_problem(event, Some(job)) is None,
    ensures
        later.event_fits(event),
{
    reveal(StoreModel::event_problem);
    let refs = event.refs;
    let id = event.subject.subject_id;
    let _ = store.repository(id);
    let _ = store.job(id);
    let _ = store.policy_decision(id);
    let _ = store.lock_decision(id);
    let _ = store.tool_invocation(id);
    let _ = store.tool_result(id);
    let _ = store.audit_record(id);
    assert(later.subject_repository(event.subject, None) == store.subject_repository(
        event.subject,
        Some(job),
    ));
    assert(later.job_reference(refs.job_id, None) == store.job_reference(refs.job_id, Some(job)));
    assert(later.policy_reference(refs.policy_decision_id) == store.policy_reference(
        refs.policy_decision_id,
    ));
    assert(later.lock_reference(refs.lock_decision_id) == store.lock_reference(
        refs.lock_decision_id,
    ));
    assert(later.invocation_reference(refs.tool_invocation_id) == store.invocation_reference(
        refs.tool_invocation_id,
    ));
    assert(later.result_reference(refs.tool_result_id) == store.result_reference(
        refs.tool_result_id,
    ));
    assert(later.audit_reference(refs.audit_record_id) == store.audit_reference(
        refs.audit_record_id,
    ));
}

/// Storing a job with its first event keeps the store valid, and the job's latest event
/// is that event.
pub proof fn law_create_job_keeps_validity(
    store: StoreModel,
    job: JobRecordModel,
    event: JobEventModel,
    later: StoreModel,
    stored: JobEventModel,
)
    requires
        store.valid(),
        store.create_job(job, event) == Ok::<(StoreModel, JobEventModel), StoreErrorModel>(
            (later, stored),
        ),
    ensures
        later.valid(),
        store.grows_to(later),
        later.event(event.id) == Some(stored),
        later.job(job.id) == Some(JobRecordModel { latest_event_id: Some(event.id), ..job }),
{
    let row = JobRecordModel { latest_event_id: Some(event.id), ..job };
    assert(store.event(event.id) is None) by {
        reveal(StoreModel::event_problem);
    }
    lemma_append_frame(store, event);
    assert forall|id: Seq<char>| #[trigger] store.job(id) is Some implies later.job(id)
        == store.job(id) by {
        crate::table::lemma_lookup_push::<JobRecord>(store.jobs, row, id);
    }
    crate::table::lemma_lookup_push::<JobRecord>(store.jobs, row, job.id);
    crate::table::lemma_unique_push::<JobRecord>(store.jobs, row);
    assert(later.event(event.id) == store.with_event(event).event(event.id));
    assert forall|id: Seq<char>| #[trigger] store.event(id) is Some implies later.event(id)
        == store.event(id) by {
        assert(later.event(id) == store.with_event(event).event(id));
    }
    assert(store.grows_to(later));
    lemma_pending_becomes_stored(store, later, job, event);
    assert(later.event_fits(stored));
    lemma_rows_fit_later(store, later);
    assert(later.job_fits(row));
}

/// Updating a job with an event keeps the store valid; the job is as given, its latest
/// event is that event, and no other record has changed.
pub proof fn law_update_job_keeps_validity(
    store: StoreModel,
    job: JobRecordModel,
    event: JobEventModel,
    later: StoreModel,
    stored: JobEventModel,
)
    requires
        store.valid(),
        store.update_job(job, event) == Ok::<(StoreModel, JobEventModel), StoreErrorModel>(
            (later, stored),
        ),
    ensures
        later.valid(),
        store.grows_to(later),
        later.event(event.id) == Some(stored),
        later.job(job.id) == Some(JobRecordModel { latest_event_id: Some(event.id), ..job }),
        forall|id: Seq<char>| id != job.id ==> #[trigger] later.job(id) == store.job(id),
{
    let row = JobRecordModel { latest_event_id: Some(event.id), ..job };
    let between = store.with_event(event);
    assert(store.event(event.id) is None) by {
        reveal(StoreModel::event_problem);
    }
    law_append_event_keeps_validity(store, event, between, stored);
    assert forall|id: Seq<char>| #[trigger] later.job(id) == (if id == job.id {
        Some(row)
    } else {
        store.job(id)
    }) by {
        crate::table::lemma_lookup_replace::<JobRecord>(store.jobs, row, id);
    }
    crate::table::lemma_unique_replace::<JobRecord>(store.jobs, row);
    crate::table::lemma_index_of::<JobRecord>(store.jobs, job.id);
    let at = crate::table::index_of::<JobRecord>(store.jobs, job.id);
    assert(store.job_fits(store.jobs[at]));
    assert(store.repository(job.repository_id) is Some);
    assert forall|id: Seq<char>| #[trigger] between.event(id) is Some implies later.event(id)
        == between.event(id) by {}
    assert(later.event(event.id) == between.event(event.id));
    assert forall|id: Seq<char>| #[trigger] store.event(id) is Some implies later.event(id)
        == store.event(id) by {
        assert(later.event(id) == between.event(id));
    }
    assert(between.grows_to(later)) by {
        assert forall|id: Seq<char>| #[trigger] between.job(id) is Some implies later.job(id)
            is Some && later.job(id)->0.repository_id == between.job(id)->0.repository_id by {
            assert(between.job(id) == store.job(id));
        }
    }
    assert(store.grows_to(later)) by {
        assert forall|id: Seq<char>| #[trigger] store.job(id) is Some implies later.job(id) is Some
            && later.job(id)->0.repository_id == store.job(id)->0.repository_id by {}
    }
    lemma_rows_fit_later(between, later);
    assert(later.job_fits(row));
    assert forall|i: int| 0 <= i < later.jobs.len() implies later.job_fits(
        #[trigger] later.jobs[i],
    ) by {
        if later.jobs[i] != row {
            assert(later.jobs[i] == between.jobs[i]);
        }
    }
}

/// Two updates in a row keep the store valid.
pub proof fn law_update_job_twice_keeps_validity(
    store: StoreModel,
    first_job: JobRecordModel,
    first_event: JobEventModel,
    second_job: JobRecordModel,
    second_event: JobEventModel,
)
    requires
        store.valid(),
        store.update_job_twice(first_job, first_event, second_job, second_event) is Ok,
    ensures
        store.update_job_twice(
            first_job,
            first_event,
            second_job,
            second_event,
        )->Ok_0.0.valid(),
{
    let (between, first) = store.update_job(first_job, first_event)->Ok_0;
    law_update_job_keeps_validity(store, first_job, first_event, between, first);
    let (later, second) = between.update_job(second_job, second_event)->Ok_0;
    law_update_job_keeps_validity(between, second_job, second_event, later, second);
}

/// Recording a result and the audit on it keeps the store valid, and both are found in it.
pub proof fn law_record_result_and_audit_keeps_validity(
    store: StoreModel,
    job: JobRecordModel,
    result: ToolResultModel,
    result_event: JobEventModel,
    audit: AuditRecordModel,
    audit_event: JobEventModel,
)
    requires
        store.valid(),
        store.record_result_and_audit(job, result, result_event, audit, audit_event) is Ok,
    ensures
        ({
            let (later, _) = store.record_result_and_audit(
                job,
                result,
                result_event,
                audit,
                audit_event,
            )->Ok_0;
            &&& later.valid()
            &&& later.tool_result(result.id) == Some(result)
            &&& later.audit_record(audit.id) == Some(audit)
        }),
{
    let (a, _) = store.create_tool_result(result)->Ok_0;
    law_create_tool_result_keeps_validity(store, result, a);
    let (b, first) = a.update_job(job, result_event)->Ok_0;
    law_update_job_keeps_validity(a, job, result_event, b, first);
    let (c, _) = b.create_audit_record(audit)->Ok_0;
    law_create_audit_record_keeps_validity(b, audit, c);
    let (d, second) = c.update_job(job, audit_event)->Ok_0;
    law_update_job_keeps_validity(c, job, audit_event, d, second);
    assert(a.tool_result(result.id) is Some);
    assert(b.tool_result(result.id) is Some);
    assert(c.tool_result(result.id) is Some);
    assert(c.audit_record(audit.id) is Some);
}

/// A valid store answers every event query: stored events always show their repository,
/// so only a page token or a cursor can be refused.
pub proof fn law_event_queries_always_answer(
    store: StoreModel,
    events: Seq<JobEventModel>,
    after: u64,
    query: EventQueryModel,
)
    requires
        store.valid(),
        forall|i: int| 0 <= i < events.len() ==> store.event_fits(#[trigger] events[i]),
    ensures
        store.matching_events(events, after, query) is Ok,
    decreases events.len(),
{
    if events.len() > 0 {
        assert forall|i: int| 0 <= i < events.drop_last().len() implies store.event_fits(
            #[trigger] events.drop_last()[i],
        ) by {
            assert(events.drop_last()[i] == events[i]);
        }
        law_event_queries_always_answer(store, events.drop_last(), after, query);
        assert(store.event_fits(events[events.len() - 1]));
        assert(store.event_repository(events.last()) is Ok);
    }
}

/// Where the numbers from a place on, and only those, are greater than `after`, the events
/// after it are the ones from that place on.
pub proof fn lemma_events_after(events: Seq<JobEventModel>, after: u64, from: int)
    requires
        0 <= from <= events.len(),
        forall|i: int| 0 <= i < from ==> (#[trigger] events[i]).sequence_number <= after,
        forall|i: int| from <= i < events.len() ==> (#[trigger] events[i]).sequence_number > after,
    ensures
        crate::store_model::events_after(events, after) == events.skip(from),
    decreases events.len(),
{
    if events.len() == 0 {
        assert(events.skip(from) =~= Seq::empty());
    } else if from == events.len() {
        assert forall|i: int| 0 <= i < from - 1 implies (
        #[trigger] events.drop_last()[i]).sequence_number <= after by {
            assert(events.drop_last()[i] == events[i]);
        }
        lemma_events_after(events.drop_last(), after, from - 1);
        assert(events[events.len() - 1].sequence_number <= after);
        assert(events.drop_last().skip(from - 1) =~= events.skip(from));
    } else {
        assert forall|i: int| 0 <= i < events.drop_last().len() implies (
        #[trigger] events.drop_last()[i]) == events[i] by {}
        lemma_events_after(events.drop_last(), after, from);
        assert(events[events.len() - 1].sequence_number > after);
        assert(events.drop_last().skip(from).push(events.last()) =~= events.skip(from));
    }
}

/// Replaying from the beginning gives the whole ledger.
pub proof fn law_replay_from_the_beginning_gives_all(store: StoreModel)
    requires
        store.valid(),
    ensures
        store.replay(EventCursorModel::Beginning, None) == Ok::<
            Seq<JobEventModel>,
            StoreErrorModel,
        >(store.events),
{
    lemma_events_after(store.events, 0, 0);
    assert(store.events.skip(0) =~= store.events);
}

/// Replaying after an event gives exactly the events that follow it, whether the cursor
/// names it by its identifier or by its number.
pub proof fn law_replay_resumes_after_an_event(store: StoreModel, at: int)
    requires
        store.valid(),
        0 <= at < store.events.len(),
    ensures
        store.replay(EventCursorModel::AfterEventId(store.events[at].id), None) == Ok::<
            Seq<JobEventModel>,
            StoreErrorModel,
        >(store.events.skip(at + 1)),
        store.replay(EventCursorModel::AfterSequence(store.events[at].sequence_number), None)
            == Ok::<Seq<JobEventModel>, StoreErrorModel>(store.events.skip(at + 1)),
{
    crate::table::lemma_lookup_row::<JobEvent>(store.events, at);
    lemma_events_after(store.events, store.events[at].sequence_number, at + 1);
}

/// A limited replay is the beginning of the unlimited one.
pub proof fn law_limited_replay_is_a_prefix(
    store: StoreModel,
    cursor: EventCursorModel,
    limit: usize,
)
    requires
        store.replay(cursor, None) is Ok,
    ensures
        store.replay(cursor, Some(limit)) is Ok,
        ({
            let all = store.replay(cursor, None)->Ok_0;
            let some = store.replay(cursor, Some(limit))->Ok_0;
            &&& some.len() == (if limit < all.len() {
                limit as nat
            } else {
                all.len()
            })
            &&& some == all.take(some.len() as int)
        }),
{
    let all = store.replay(cursor, None)->Ok_0;
    assert(all.take(all.len() as int) =~= all);
}

/// Pages follow each other without gap or overlap: a page and what its token leads to
/// make up all that stands from the page's start on; without a token there is nothing
/// left.
pub proof fn law_pages_follow_each_other<T>(records: Seq<T>, start: int, size: int)
    requires
        0 <= start <= records.len() <= usize::MAX,
        size > 0,
    ensures
        ({
            let (page, token) = crate::store_model::page_of(records, start, size);
            &&& page.len() <= size
            &&& match token {
                None => page == records.skip(start),
                Some(token) => {
                    let next = start + page.len();
                    &&& page.len() == size
                    &&& next < records.len()
                    &&& crate::store_model::page_start_of(Some(token), "jobs"@) == Ok::<
                        int,
                        StoreErrorModel,
                    >(next)
                    &&& page + records.skip(next) == records.skip(start)
                },
            }
        }),
{
    let (page, token) = crate::store_model::page_of(records, start, size);
    if start == records.len() {
        assert(page =~= records.skip(start));
    }
    if token is Some {
        let next = start + size;
        crate::text::lemma_decimal_round_trip(next as nat);
        assert(page + records.skip(next) =~= records.skip(start));
    }
}

/// Jobs in the order of their identifiers.
pub open spec fn in_order(jobs: Seq<JobRecordModel>) -> bool {
    forall|i: int, j: int|
        0 <= i < j < jobs.len() ==> !crate::text::text_before(
            (#[trigger] jobs[j]).id,
            (#[trigger] jobs[i]).id,
        )
}

proof fn lemma_placed(jobs: Seq<JobRecordModel>, job: JobRecordModel)
    requires
        in_order(jobs),
    ensures
        in_order(crate::store_model::placed(jobs, job)),
        crate::store_model::placed(jobs, job).to_multiset() =~= jobs.to_multiset().insert(job),
        crate::store_model::placed(jobs, job).len() == jobs.len() + 1,
    decreases jobs.len(),
{
    broadcast use vstd::seq_lib::group_to_multiset_ensures;

    let result = crate::store_model::placed(jobs, job);
    if jobs.len() > 0 && crate::text::text_before(job.id, jobs.last().id) {
        let front = jobs.drop_last();
        assert forall|i: int, j: int|
            0 <= i < j < front.len() implies !crate::text::text_before(
            (#[trigger] front[j]).id,
            (#[trigger] front[i]).id,
        ) by {
            assert(front[i] == jobs[i] && front[j] == jobs[j]);
        }
        lemma_placed(front, job);
        crate::text::lemma_order_is_total(job.id, jobs.last().id);
        let inner = crate::store_model::placed(front, job);
        lemma_placed_members(front, job);
        assert(jobs =~= front.push(jobs.last()));
        assert(result.to_multiset() =~= inner.to_multiset().insert(jobs.last()));
        assert(jobs.to_multiset() =~= front.to_multiset().insert(jobs.last()));
        assert forall|i: int, j: int|
            0 <= i < j < result.len() implies !crate::text::text_before(
            (#[trigger] result[j]).id,
            (#[trigger] result[i]).id,
        ) by {
            if j == inner.len() {
                assert(inner.contains(inner[i]));
                if inner[i] != job {
                    let k = choose|k: int| 0 <= k < front.len() && front[k] == inner[i];
                    assert(front[k] == jobs[k]);
                }
            } else {
                assert(result[i] == inner[i] && result[j] == inner[j]);
            }
        }
    } else {
        assert forall|i: int, j: int|
            0 <= i < j < result.len() implies !crate::text::text_before(
            (#[trigger] result[j]).id,
            (#[trigger] result[i]).id,
        ) by {
            if j == jobs.len() {
                assert(result[i] == jobs[i]);
                if i < jobs.len() - 1 {
                    assert(!crate::text::text_before(jobs[jobs.len() - 1].id, jobs[i].id));
                    crate::text::lemma_order_is_transitive(jobs[i].id, jobs.last().id, job.id);
                }
            } else {
                assert(result[i] == jobs[i] && result[j] == jobs[j]);
            }
        }
    }
}

proof fn lemma_placed_members(jobs: Seq<JobRecordModel>, job: JobRecordModel)
    ensures
        forall|x: JobRecordModel| #[trigger]
            crate::store_model::placed(jobs, job).contains(x) ==> x == job || exists|k: int|
                0 <= k < jobs.len() && jobs[k] == x,
    decreases jobs.len(),
{
    let result = crate::store_model::placed(jobs, job);
    if jobs.len() > 0 && crate::text::text_before(job.id, jobs.last().id) {
        let front = jobs.drop_last();
        let inner = crate::store_model::placed(front, job);
        lemma_placed_members(front, job);
        assert forall|x: JobRecordModel| #[trigger] result.contains(x) implies x == job || exists|
            k: int,
        |
            0 <= k < jobs.len() && jobs[k] == x by {
            let at = choose|at: int| 0 <= at < result.len() && result[at] == x;
            if at < inner.len() {
                assert(inner.contains(inner[at]));
                if x != job {
                    let k = choose|k: int| 0 <= k < front.len() && front[k] == x;
                    assert(jobs[k] == x);
                }
            } else {
                assert(jobs[jobs.len() - 1] == x);
            }
        }
    } else {
        assert forall|x: JobRecordModel| #[trigger] result.contains(x) implies x == job || exists|
            k: int,
        |
            0 <= k < jobs.len() && jobs[k] == x by {
            let at = choose|at: int| 0 <= at < result.len() && result[at] == x;
            if at < jobs.len() {
                assert(jobs[at] == x);
            }
        }
    }
}

/// A listing of jobs holds exactly the selected ones, in the order of their identifiers.
pub proof fn law_listings_are_in_order(jobs: Seq<JobRecordModel>)
    ensures
        in_order(crate::store_model::ordered(jobs)),
        crate::store_model::ordered(jobs).to_multiset() =~= jobs.to_multiset(),
        crate::store_model::ordered(jobs).len() == jobs.len(),
    decreases jobs.len(),
{
    broadcast use vstd::seq_lib::group_to_multiset_ensures;

    if jobs.len() > 0 {
        law_listings_are_in_order(jobs.drop_last());
        lemma_placed(crate::store_model::ordered(jobs.drop_last()), jobs.last());
        assert(jobs =~= jobs.drop_last().push(jobs.last()));
    } else {
        assert(jobs =~= Seq::empty());
    }
}

} // verus!

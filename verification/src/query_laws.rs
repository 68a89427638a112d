//! What queries of the ledger select, and how their pages are cut.
use vstd::prelude::*;

use crate::domain::{
    AuditRecord, EventSeverity, EventSubjectType, JobEvent, JobEventModel, JobRecord,
    JobRecordModel, LockDecision, PolicyDecision, RepositoryRecord, ToolInvocation, ToolResult,
};
use crate::store::{EventCursorModel, EventQueryModel, JobQueryModel, StoreErrorModel};
use crate::store_model::StoreModel;

verus! {

/// One severity is at least the other, in the order debug, info, warning, error.
pub open spec fn at_least(severity: EventSeverity, least: EventSeverity) -> bool {
    match least {
        EventSeverity::Debug => true,
        EventSeverity::Info => !(severity is Debug),
        EventSeverity::Warning => severity is Warning || severity is Error,
        EventSeverity::Error => severity is Error,
    }
}

/// The event stands behind the cursor.
pub open spec fn stands_behind(
    store: StoreModel,
    event: JobEventModel,
    cursor: EventCursorModel,
) -> bool {
    match cursor {
        EventCursorModel::Beginning => true,
        EventCursorModel::AfterSequence(number) => event.sequence_number > number,
        EventCursorModel::AfterEventId(id) => exists|i: int|
            {
                &&& 0 <= i < store.events.len()
                &&& (#[trigger] store.events[i]).id == id
                &&& event.sequence_number > store.events[i].sequence_number
            },
    }
}

/// What the event is about belongs to the repository.
pub open spec fn belongs_to(
    store: StoreModel,
    event: JobEventModel,
    repository_id: Seq<char>,
) -> bool {
    let id = event.subject.subject_id;
    match event.subject.subject_type {
        EventSubjectType::Repository => id == repository_id && exists|i: int|
            0 <= i < store.repositories.len() && (#[trigger] store.repositories[i]).id == id,
        EventSubjectType::Job => exists|i: int|
            {
                &&& 0 <= i < store.jobs.len()
                &&& (#[trigger] store.jobs[i]).id == id
                &&& store.jobs[i].repository_id == repository_id
            },
        EventSubjectType::PolicyDecision => exists|i: int|
            {
                &&& 0 <= i < store.policy_decisions.len()
                &&& (#[trigger] store.policy_decisions[i]).id == id
                &&& store.policy_decisions[i].repository_id == repository_id
            },
        EventSubjectType::LockDecision => exists|i: int|
            {
                &&& 0 <= i < store.lock_decisions.len()
                &&& (#[trigger] store.lock_decisions[i]).id == id
                &&& store.lock_decisions[i].repository_id == repository_id
            },
        EventSubjectType::ToolInvocation => exists|i: int|
            {
                &&& 0 <= i < store.tool_invocations.len()
                &&& (#[trigger] store.tool_invocations[i]).id == id
                &&& store.tool_invocations[i].repository_id == repository_id
            },
        EventSubjectType::ToolResult => exists|i: int, j: int|
            {
                &&& 0 <= i < store.tool_results.len()
                &&& 0 <= j < store.tool_invocations.len()
                &&& (#[trigger] store.tool_results[i]).id == id
                &&& (#[trigger] store.tool_invocations[j]).id == store.tool_results[i].invocation_id
                &&& store.tool_invocations[j].repository_id == repository_id
            },
        EventSubjectType::AuditRecord => exists|i: int|
            {
                &&& 0 <= i < store.audit_records.len()
                &&& (#[trigger] store.audit_records[i]).id == id
                &&& store.audit_records[i].repository_id == repository_id
            },
    }
}

/// The query asks for the event.
pub open spec fn asked_for(
    store: StoreModel,
    event: JobEventModel,
    query: EventQueryModel,
) -> bool {
    &&& stands_behind(store, event, query.cursor)
    &&& query.repository_id matches Some(id) ==> belongs_to(store, event, id)
    &&& query.subject_ids.len() > 0 ==> query.subject_ids.contains(event.subject.subject_id)
    &&& query.min_severity matches Some(least) ==> at_least(event.severity, least)
}

/// The query without a bound on its pages.
pub open spec fn unbounded(query: EventQueryModel) -> EventQueryModel {
    EventQueryModel { page_size: None, page_token: None, ..query }
}

/// The subject of an event belongs to just the repository that its record names.
proof fn lemma_belongs(store: StoreModel, event: JobEventModel, repository_id: Seq<char>)
    requires
        store.valid(),
        store.event_fits(event),
    ensures
        belongs_to(store, event, repository_id) <==> store.event_repository(event) == Ok::<
            Option<Seq<char>>,
            StoreErrorModel,
        >(Some(repository_id)),
{
    let id = event.subject.subject_id;
    crate::table::lemma_index_of::<RepositoryRecord>(store.repositories, id);
    crate::table::lemma_index_of::<JobRecord>(store.jobs, id);
    crate::table::lemma_index_of::<PolicyDecision>(store.policy_decisions, id);
    crate::table::lemma_index_of::<LockDecision>(store.lock_decisions, id);
    crate::table::lemma_index_of::<ToolInvocation>(store.tool_invocations, id);
    crate::table::lemma_index_of::<ToolResult>(store.tool_results, id);
    crate::table::lemma_index_of::<AuditRecord>(store.audit_records, id);
    let repository = store.subject_repository(event.subject, None)->Ok_0;
    assert(store.event_repository(event) == Ok::<Option<Seq<char>>, StoreErrorModel>(
        Some(repository),
    ));
    match event.subject.subject_type {
        EventSubjectType::Repository => {},
        EventSubjectType::Job => {
            let at = crate::table::index_of::<JobRecord>(store.jobs, id);
            assert(store.jobs[at].id == id);
            assert forall|i: int| 0 <= i < store.jobs.len() && (#[trigger] store.jobs[i]).id
                == id implies i == at by {
                crate::table::lemma_lookup_row::<JobRecord>(store.jobs, i);
                crate::table::lemma_index_of_is_only::<JobRecord>(store.jobs, id, i);
            }
        },
        EventSubjectType::PolicyDecision => {
            let at = crate::table::index_of::<PolicyDecision>(store.policy_decisions, id);
            assert(store.policy_decisions[at].id == id);
            assert forall|i: int|
                0 <= i < store.policy_decisions.len() && (#[trigger] store.policy_decisions[i]).id
                    == id implies i == at by {
                crate::table::lemma_index_of_is_only::<PolicyDecision>(
                    store.policy_decisions,
                    id,
                    i,
                );
            }
        },
        EventSubjectType::LockDecision => {
            let at = crate::table::index_of::<LockDecision>(store.lock_decisions, id);
            assert(store.lock_decisions[at].id == id);
            assert forall|i: int|
                0 <= i < store.lock_decisions.len() && (#[trigger] store.lock_decisions[i]).id
                    == id implies i == at by {
                crate::table::lemma_index_of_is_only::<LockDecision>(store.lock_decisions, id, i);
            }
        },
        EventSubjectType::ToolInvocation => {
            let at = crate::table::index_of::<ToolInvocation>(store.tool_invocations, id);
            assert(store.tool_invocations[at].id == id);
            assert forall|i: int|
                0 <= i < store.tool_invocations.len() && (#[trigger] store.tool_invocations[i]).id
                    == id implies i == at by {
                crate::table::lemma_index_of_is_only::<ToolInvocation>(
                    store.tool_invocations,
                    id,
                    i,
                );
            }
        },
        EventSubjectType::ToolResult => {
            let at = crate::table::index_of::<ToolResult>(store.tool_results, id);
            let asked = store.tool_results[at].invocation_id;
            crate::table::lemma_index_of::<ToolInvocation>(store.tool_invocations, asked);
            let to = crate::table::index_of::<ToolInvocation>(store.tool_invocations, asked);
            assert(store.tool_results[at].id == id);
            assert(store.tool_invocations[to].id == asked);
            assert forall|i: int|
                0 <= i < store.tool_results.len() && (#[trigger] store.tool_results[i]).id
                    == id implies i == at by {
                crate::table::lemma_index_of_is_only::<ToolResult>(store.tool_results, id, i);
            }
            assert forall|j: int|
                0 <= j < store.tool_invocations.len() && (#[trigger] store.tool_invocations[j]).id
                    == asked implies j == to by {
                crate::table::lemma_index_of_is_only::<ToolInvocation>(
                    store.tool_invocations,
                    asked,
                    j,
                );
            }
        },
        EventSubjectType::AuditRecord => {
            let at = crate::table::index_of::<AuditRecord>(store.audit_records, id);
            assert(store.audit_records[at].id == id);
            assert forall|i: int|
                0 <= i < store.audit_records.len() && (#[trigger] store.audit_records[i]).id
                    == id implies i == at by {
                crate::table::lemma_index_of_is_only::<AuditRecord>(store.audit_records, id, i);
            }
        },
    }
}

/// Where the cursor can be told, the events behind it are those with a greater number.
proof fn lemma_behind(store: StoreModel, event: JobEventModel, cursor: EventCursorModel)
    requires
        store.valid(),
        store.events.contains(event),
        store.cursor_sequence(cursor) is Ok,
    ensures
        stands_behind(store, event, cursor) <==> event.sequence_number > store.cursor_sequence(
            cursor,
        )->Ok_0,
{
    let place = choose|i: int| 0 <= i < store.events.len() && store.events[i] == event;
    assert(0 < store.events[place].sequence_number);
    if let EventCursorModel::AfterEventId(id) = cursor {
        crate::table::lemma_index_of::<JobEvent>(store.events, id);
        let at = crate::table::index_of::<JobEvent>(store.events, id);
        assert(store.events[at].id == id);
        assert forall|i: int| 0 <= i < store.events.len() && (#[trigger] store.events[i]).id
            == id implies i == at by {
            crate::table::lemma_index_of_is_only::<JobEvent>(store.events, id, i);
        }
    }
}

proof fn lemma_matching(
    store: StoreModel,
    events: Seq<JobEventModel>,
    after: u64,
    query: EventQueryModel,
)
    requires
        store.matching_events(events, after, query) is Ok,
        forall|i: int, j: int|
            0 <= i < j < events.len() ==> (#[trigger] events[i]).sequence_number < (
            #[trigger] events[j]).sequence_number,
    ensures
        ({
            let selected = store.matching_events(events, after, query)->Ok_0;
            &&& forall|i: int|
                0 <= i < selected.len() ==> {
                    &&& events.contains(#[trigger] selected[i])
                    &&& selected[i].sequence_number > after
                    &&& store.event_matches(selected[i], query) == Ok::<bool, StoreErrorModel>(
                        true,
                    )
                }
            &&& forall|i: int|
                0 <= i < events.len() && (#[trigger] events[i]).sequence_number > after
                    && store.event_matches(events[i], query) == Ok::<bool, StoreErrorModel>(true)
                    ==> selected.contains(events[i])
            &&& forall|i: int, j: int|
                0 <= i < j < selected.len() ==> (#[trigger] selected[i]).sequence_number < (
                #[trigger] selected[j]).sequence_number
            &&& forall|i: int|
                0 <= i < events.len() && (#[trigger] events[i]).sequence_number > after
                    ==> store.event_matches(events[i], query) is Ok
        }),
    decreases events.len(),
{
    if events.len() > 0 {
        let front = events.drop_last();
        let last = events.last();
        assert forall|i: int, j: int| 0 <= i < j < front.len() implies (
        #[trigger] front[i]).sequence_number < (#[trigger] front[j]).sequence_number by {
            assert(front[i] == events[i] && front[j] == events[j]);
        }
        lemma_matching(store, front, after, query);
        let earlier = store.matching_events(front, after, query)->Ok_0;
        let selected = store.matching_events(events, after, query)->Ok_0;
        assert(events[events.len() - 1] == last);
        assert forall|i: int| 0 <= i < selected.len() implies {
            &&& events.contains(#[trigger] selected[i])
            &&& selected[i].sequence_number > after
            &&& store.event_matches(selected[i], query) == Ok::<bool, StoreErrorModel>(true)
        } by {
            if i < earlier.len() {
                assert(front.contains(earlier[i]));
                let k = choose|k: int| 0 <= k < front.len() && front[k] == earlier[i];
                assert(events[k] == selected[i]);
            }
        }
        assert forall|i: int|
            0 <= i < events.len() && (#[trigger] events[i]).sequence_number > after
                && store.event_matches(events[i], query) == Ok::<bool, StoreErrorModel>(
                true,
            ) implies selected.contains(events[i]) by {
            if i < front.len() {
                assert(front[i] == events[i]);
                let k = choose|k: int| 0 <= k < earlier.len() && earlier[k] == events[i];
                assert(selected[k] == events[i]);
            } else {
                assert(selected[selected.len() - 1] == last);
            }
        }
        assert forall|i: int, j: int| 0 <= i < j < selected.len() implies (
        #[trigger] selected[i]).sequence_number < (#[trigger] selected[j]).sequence_number by {
            if j < earlier.len() {
                assert(selected[i] == earlier[i] && selected[j] == earlier[j]);
            } else {
                assert(selected[i] == earlier[i]);
                assert(front.contains(earlier[i]));
                let k = choose|k: int| 0 <= k < front.len() && front[k] == earlier[i];
                assert(events[k] == earlier[i]);
            }
        }
        assert forall|i: int|
            0 <= i < events.len() && (#[trigger] events[i]).sequence_number
                > after implies store.event_matches(events[i], query) is Ok by {
            if i < front.len() {
                assert(front[i] == events[i]);
            }
        }
    }
}

/// An event that is stored is matched exactly where the query asks for it.
proof fn lemma_matches(store: StoreModel, event: JobEventModel, query: EventQueryModel)
    requires
        store.valid(),
        store.events.contains(event),
        store.cursor_sequence(query.cursor) is Ok,
    ensures
        asked_for(store, event, query) <==> {
            &&& event.sequence_number > store.cursor_sequence(query.cursor)->Ok_0
            &&& store.event_matches(event, query) == Ok::<bool, StoreErrorModel>(true)
        },
{
    let place = choose|i: int| 0 <= i < store.events.len() && store.events[i] == event;
    assert(store.event_fits(store.events[place]));
    lemma_behind(store, event, query.cursor);
    if query.repository_id is Some {
        lemma_belongs(store, event, query.repository_id->0);
    }
}

/// A query without a bound on its pages gives exactly the events that it asks for, each once
/// and in the order of their numbers, on one page.
pub proof fn law_queries_give_what_they_ask_for(store: StoreModel, query: EventQueryModel)
    requires
        store.valid(),
        store.events.len() <= usize::MAX,
        store.query_events(unbounded(query)) is Ok,
    ensures
        ({
            let page = store.query_events(unbounded(query))->Ok_0;
            &&& page.next_page_token is None
            &&& forall|i: int|
                0 <= i < page.events.len() ==> store.events.contains(#[trigger] page.events[i])
                    && asked_for(store, page.events[i], query)
            &&& forall|i: int|
                0 <= i < store.events.len() && asked_for(store, #[trigger] store.events[i], query)
                    ==> page.events.contains(store.events[i])
            &&& forall|i: int, j: int|
                0 <= i < j < page.events.len() ==> (#[trigger] page.events[i]).sequence_number < (
                #[trigger] page.events[j]).sequence_number
        }),
{
    let q = unbounded(query);
    let after = store.cursor_sequence(q.cursor)->Ok_0;
    let selected = store.matching_events(store.events, after, q)->Ok_0;
    lemma_matching(store, store.events, after, q);
    lemma_selected_is_short(store, store.events, after, q);
    let page = store.query_events(q)->Ok_0;
    assert(page.events =~= selected) by {
        assert(selected.skip(0) =~= selected);
    }
    assert forall|i: int| 0 <= i < page.events.len() implies store.events.contains(
        #[trigger] page.events[i],
    ) && asked_for(store, page.events[i], query) by {
        lemma_matches(store, selected[i], q);
        assert(asked_for(store, selected[i], q) == asked_for(store, selected[i], query));
    }
    assert forall|i: int|
        0 <= i < store.events.len() && asked_for(
            store,
            #[trigger] store.events[i],
            query,
        ) implies page.events.contains(store.events[i]) by {
        assert(asked_for(store, store.events[i], q) == asked_for(store, store.events[i], query));
        lemma_matches(store, store.events[i], q);
    }
}

proof fn lemma_selected_is_short(
    store: StoreModel,
    events: Seq<JobEventModel>,
    after: u64,
    query: EventQueryModel,
)
    requires
        store.matching_events(events, after, query) is Ok,
    ensures
        store.matching_events(events, after, query)->Ok_0.len() <= events.len(),
    decreases events.len(),
{
    if events.len() > 0 {
        lemma_selected_is_short(store, events.drop_last(), after, query);
    }
}

/// A page begins where its token says and holds as many of the selected records as it may;
/// there is a next token exactly where some are left, and it leads to the first of them.
pub open spec fn cut<T>(
    all: Seq<T>,
    start: nat,
    size: nat,
    page: Seq<T>,
    next: Option<Seq<char>>,
) -> bool {
    if size == 0 || start >= all.len() {
        page.len() == 0 && next is None
    } else if all.len() - start <= size {
        page == all.skip(start as int) && next is None
    } else {
        &&& page == all.subrange(start as int, (start + size) as int)
        &&& next is Some
        &&& crate::text::digits_value(next->0) == Some(start + size)
    }
}

/// The place that a token stands for: the number that it spells, or the beginning.
pub open spec fn spells_place(token: Option<Seq<char>>, start: nat) -> bool {
    match token {
        None => start == 0,
        Some(digits) => {
            ||| digits.len() == 0 && start == 0
            ||| crate::text::digits_value(digits) == Some(start)
        },
    }
}

/// A bounded query gives that part of the unbounded one that its token and size say.
pub proof fn law_event_pages_are_cut_from_the_whole(
    store: StoreModel,
    query: EventQueryModel,
    start: nat,
)
    requires
        store.valid(),
        store.events.len() <= usize::MAX,
        store.query_events(unbounded(query)) is Ok,
        spells_place(query.page_token, start),
        start <= usize::MAX,
    ensures
        store.query_events(query) is Ok,
        cut(
            store.query_events(unbounded(query))->Ok_0.events,
            start,
            match query.page_size {
                Some(size) => size as nat,
                None => usize::MAX as nat,
            },
            store.query_events(query)->Ok_0.events,
            store.query_events(query)->Ok_0.next_page_token,
        ),
{
    let q = unbounded(query);
    let after = store.cursor_sequence(q.cursor)->Ok_0;
    lemma_same_selection(store, store.events, after, query, q);
    let selected = store.matching_events(store.events, after, q)->Ok_0;
    lemma_selected_is_short(store, store.events, after, q);
    assert(selected.skip(0) =~= selected);
    assert(store.query_events(q)->Ok_0.events =~= selected);
    lemma_place_is_read(query.page_token, "job_events"@, start);
    crate::text_laws::law_decimals_are_read_back((start + query.size()) as nat);
}

proof fn lemma_same_selection(
    store: StoreModel,
    events: Seq<JobEventModel>,
    after: u64,
    a: EventQueryModel,
    b: EventQueryModel,
)
    requires
        b == unbounded(a),
    ensures
        store.matching_events(events, after, a) == store.matching_events(events, after, b),
    decreases events.len(),
{
    if events.len() > 0 {
        lemma_same_selection(store, events.drop_last(), after, a, b);
        assert(store.event_matches(events.last(), a) == store.event_matches(events.last(), b));
    }
}

proof fn lemma_place_is_read(token: Option<Seq<char>>, collection: Seq<char>, start: nat)
    requires
        spells_place(token, start),
        start <= usize::MAX,
    ensures
        crate::store_model::page_start_of(token, collection) == Ok::<int, StoreErrorModel>(
            start as int,
        ),
{
    if token is Some && token->0.len() > 0 {
        crate::text_laws::law_numbers_are_rows_of_digits(token->0, usize::MAX as nat);
    }
}

/// A token that spells no number is refused.
pub proof fn law_other_tokens_are_refused(
    store: StoreModel,
    query: EventQueryModel,
    job_query: JobQueryModel,
    token: Seq<char>,
)
    requires
        token.len() > 0,
        token[0] != '+',
        crate::text::digits_value(token) is None,
        query.page_token == Some(token),
        job_query.page_token == Some(token),
    ensures
        store.query_events(query) is Err,
        store.query_events(query)->Err_0 is InvalidCursor,
        store.query_jobs(job_query) is Err,
        store.query_jobs(job_query)->Err_0 is InvalidCursor,
{
}

/// A cursor that names an event that is not kept is refused, by queries and by replays.
pub proof fn law_lost_cursors_are_refused(
    store: StoreModel,
    query: EventQueryModel,
    id: Seq<char>,
    limit: Option<usize>,
)
    requires
        forall|i: int| 0 <= i < store.events.len() ==> (#[trigger] store.events[i]).id != id,
        query.cursor == EventCursorModel::AfterEventId(id),
        query.page_token is None,
    ensures
        store.replay(query.cursor, limit) is Err,
        store.replay(query.cursor, limit)->Err_0 is InvalidCursor,
        store.query_events(query) is Err,
        store.query_events(query)->Err_0 is InvalidCursor,
{
    crate::table::lemma_index_of::<JobEvent>(store.events, id);
    let at = crate::table::index_of::<JobEvent>(store.events, id);
    if at < store.events.len() {
        assert(store.events[at].id == id);
    }
}

/// A replay without a limit gives exactly the events behind the cursor, in their order.
pub proof fn law_replays_give_what_stands_behind(store: StoreModel, cursor: EventCursorModel)
    requires
        store.valid(),
        store.replay(cursor, None) is Ok,
    ensures
        ({
            let given = store.replay(cursor, None)->Ok_0;
            &&& forall|i: int|
                0 <= i < given.len() ==> store.events.contains(#[trigger] given[i])
                    && stands_behind(store, given[i], cursor)
            &&& forall|i: int|
                0 <= i < store.events.len() && stands_behind(
                    store,
                    #[trigger] store.events[i],
                    cursor,
                ) ==> given.contains(store.events[i])
            &&& forall|i: int, j: int|
                0 <= i < j < given.len() ==> (#[trigger] given[i]).sequence_number < (
                #[trigger] given[j]).sequence_number
        }),
{
    let after = store.cursor_sequence(cursor)->Ok_0;
    let given = store.replay(cursor, None)->Ok_0;
    lemma_after(store.events, after);
    assert forall|i: int| 0 <= i < given.len() implies store.events.contains(#[trigger] given[i])
        && stands_behind(store, given[i], cursor) by {
        lemma_behind(store, given[i], cursor);
    }
    assert forall|i: int|
        0 <= i < store.events.len() && stands_behind(
            store,
            #[trigger] store.events[i],
            cursor,
        ) implies given.contains(store.events[i]) by {
        lemma_behind(store, store.events[i], cursor);
    }
}

proof fn lemma_after(events: Seq<JobEventModel>, after: u64)
    requires
        forall|i: int, j: int|
            0 <= i < j < events.len() ==> (#[trigger] events[i]).sequence_number < (
            #[trigger] events[j]).sequence_number,
    ensures
        ({
            let given = crate::store_model::events_after(events, after);
            &&& forall|i: int|
                0 <= i < given.len() ==> events.contains(#[trigger] given[i])
                    && given[i].sequence_number > after
            &&& forall|i: int|
                0 <= i < events.len() && (#[trigger] events[i]).sequence_number > after
                    ==> given.contains(events[i])
            &&& forall|i: int, j: int|
                0 <= i < j < given.len() ==> (#[trigger] given[i]).sequence_number < (
                #[trigger] given[j]).sequence_number
        }),
    decreases events.len(),
{
    if events.len() > 0 {
        let front = events.drop_last();
        assert forall|i: int, j: int| 0 <= i < j < front.len() implies (
        #[trigger] front[i]).sequence_number < (#[trigger] front[j]).sequence_number by {
            assert(front[i] == events[i] && front[j] == events[j]);
        }
        lemma_after(front, after);
        let earlier = crate::store_model::events_after(front, after);
        let given = crate::store_model::events_after(events, after);
        assert(events[events.len() - 1] == events.last());
        assert forall|i: int| 0 <= i < given.len() implies events.contains(#[trigger] given[i])
            && given[i].sequence_number > after by {
            if i < earlier.len() {
                assert(front.contains(earlier[i]));
                let k = choose|k: int| 0 <= k < front.len() && front[k] == earlier[i];
                assert(events[k] == given[i]);
            }
        }
        assert forall|i: int|
            0 <= i < events.len() && (#[trigger] events[i]).sequence_number
                > after implies given.contains(events[i]) by {
            if i < front.len() {
                assert(front[i] == events[i]);
                let k = choose|k: int| 0 <= k < earlier.len() && earlier[k] == events[i];
                assert(given[k] == events[i]);
            } else {
                assert(given[given.len() - 1] == events.last());
            }
        }
        assert forall|i: int, j: int| 0 <= i < j < given.len() implies (
        #[trigger] given[i]).sequence_number < (#[trigger] given[j]).sequence_number by {
            if j < earlier.len() {
                assert(given[i] == earlier[i] && given[j] == earlier[j]);
            } else {
                assert(given[i] == earlier[i]);
                assert(front.contains(earlier[i]));
                let k = choose|k: int| 0 <= k < front.len() && front[k] == earlier[i];
                assert(events[k] == earlier[i]);
            }
        }
    }
}

/// The query asks for the job.
pub open spec fn asks_for_job(query: JobQueryModel, job: JobRecordModel) -> bool {
    &&& query.repository_id matches Some(id) ==> job.repository_id == id
    &&& query.status matches Some(status) ==> job.status == status
    &&& query.requester matches Some(requester) ==> job.requester == requester
}

pub open spec fn all_jobs(query: JobQueryModel) -> JobQueryModel {
    JobQueryModel { page_size: None, page_token: None, ..query }
}

/// A job query without a bound on its pages gives exactly the jobs that it asks for, in the
/// order of their identifiers, on one page.
pub proof fn law_job_queries_give_what_they_ask_for(store: StoreModel, query: JobQueryModel)
    requires
        store.valid(),
        store.jobs.len() <= usize::MAX,
    ensures
        store.query_jobs(all_jobs(query)) is Ok,
        ({
            let page = store.query_jobs(all_jobs(query))->Ok_0;
            &&& page.next_page_token is None
            &&& forall|i: int|
                0 <= i < page.jobs.len() ==> store.jobs.contains(#[trigger] page.jobs[i])
                    && asks_for_job(query, page.jobs[i])
            &&& forall|i: int|
                0 <= i < store.jobs.len() && asks_for_job(query, #[trigger] store.jobs[i])
                    ==> page.jobs.contains(store.jobs[i])
            &&& forall|i: int, j: int|
                0 <= i < j < page.jobs.len() ==> !crate::text::text_before(
                    (#[trigger] page.jobs[j]).id,
                    (#[trigger] page.jobs[i]).id,
                )
        }),
{
    broadcast use vstd::seq_lib::group_to_multiset_ensures;

    let q = all_jobs(query);
    let selected = q.selection(store.jobs);
    let listed = crate::store_model::ordered(selected);
    lemma_selection(query, store.jobs);
    crate::store_laws::law_listings_are_in_order(selected);
    assert(listed.skip(0) =~= listed);
    let page = store.query_jobs(q)->Ok_0;
    assert(page.jobs =~= listed);
    assert forall|i: int| 0 <= i < page.jobs.len() implies store.jobs.contains(
        #[trigger] page.jobs[i],
    ) && asks_for_job(query, page.jobs[i]) by {
        assert(listed.to_multiset().count(listed[i]) > 0);
        assert(selected.contains(listed[i]));
    }
    assert forall|i: int|
        0 <= i < store.jobs.len() && asks_for_job(
            query,
            #[trigger] store.jobs[i],
        ) implies page.jobs.contains(store.jobs[i]) by {
        assert(selected.contains(store.jobs[i]));
        assert(selected.to_multiset().count(store.jobs[i]) > 0);
        assert(listed.contains(store.jobs[i]));
    }
}

proof fn lemma_selection(query: JobQueryModel, jobs: Seq<JobRecordModel>)
    ensures
        ({
            let selected = all_jobs(query).selection(jobs);
            &&& selected.len() <= jobs.len()
            &&& forall|job: JobRecordModel| #[trigger]
                selected.contains(job) <==> jobs.contains(job) && asks_for_job(query, job)
        }),
    decreases jobs.len(),
{
    let q = all_jobs(query);
    let selected = q.selection(jobs);
    if jobs.len() > 0 {
        let front = jobs.drop_last();
        let earlier = q.selection(front);
        lemma_selection(query, front);
        assert forall|job: JobRecordModel| #[trigger] selected.contains(job) <==> jobs.contains(job)
            && asks_for_job(query, job) by {
            assert(jobs =~= front.push(jobs.last()));
            if selected.contains(job) {
                let k = choose|k: int| 0 <= k < selected.len() && selected[k] == job;
                if k < earlier.len() {
                    assert(earlier[k] == job);
                    assert(earlier.contains(job));
                    let m = choose|m: int| 0 <= m < front.len() && front[m] == job;
                    assert(jobs[m] == job);
                } else {
                    assert(jobs[jobs.len() - 1] == job);
                }
            }
            if jobs.contains(job) && asks_for_job(query, job) {
                let m = choose|m: int| 0 <= m < jobs.len() && jobs[m] == job;
                if m < front.len() {
                    assert(front[m] == job);
                    assert(earlier.contains(job));
                    let k = choose|k: int| 0 <= k < earlier.len() && earlier[k] == job;
                    assert(selected[k] == job);
                } else {
                    assert(selected[selected.len() - 1] == job);
                }
            }
        }
    }
}

/// A bounded job query gives that part of the unbounded one that its token and size say.
pub proof fn law_job_pages_are_cut_from_the_whole(
    store: StoreModel,
    query: JobQueryModel,
    start: nat,
)
    requires
        store.valid(),
        store.jobs.len() <= usize::MAX,
        spells_place(query.page_token, start),
        start <= usize::MAX,
    ensures
        store.query_jobs(query) is Ok,
        cut(
            store.query_jobs(all_jobs(query))->Ok_0.jobs,
            start,
            match query.page_size {
                Some(size) => size as nat,
                None => usize::MAX as nat,
            },
            store.query_jobs(query)->Ok_0.jobs,
            store.query_jobs(query)->Ok_0.next_page_token,
        ),
{
    let q = all_jobs(query);
    lemma_same_jobs(query, store.jobs);
    let selected = q.selection(store.jobs);
    let listed = crate::store_model::ordered(selected);
    lemma_selection(query, store.jobs);
    crate::store_laws::law_listings_are_in_order(selected);
    assert(listed.skip(0) =~= listed);
    assert(store.query_jobs(q)->Ok_0.jobs =~= listed);
    lemma_place_is_read(query.page_token, "jobs"@, start);
    crate::text_laws::law_decimals_are_read_back((start + query.size()) as nat);
}

proof fn lemma_same_jobs(query: JobQueryModel, jobs: Seq<JobRecordModel>)
    ensures
        query.selection(jobs) == all_jobs(query).selection(jobs),
    decreases jobs.len(),
{
    if jobs.len() > 0 {
        lemma_same_jobs(query, jobs.drop_last());
    }
}

} // verus!

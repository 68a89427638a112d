//! What holds of every run of a job.
use vstd::prelude::*;

use crate::domain::{
    AuditRecord, AuditRecordModel, EventSubjectType, JobEventKindModel, JobEventModel, JobRecord,
    JobRecordModel, JobStatus, LedgerTimestamp, PolicyDecision, PolicyDecisionModel,
    ToolInvocation, ToolInvocationModel, ToolResult, ToolResultModel,
};
use crate::job_lifecycle;
use crate::job_run;
use crate::job_run::JobRunModel;
use crate::output_handling;
use crate::policy::{Capability, DefaultPolicyEngine, PolicyEngine};
use crate::requests::{
    CancelJobReceiptModel, EchoTool, RuntimeErrorModel, RuntimeHost, RuntimeJobReceiptModel,
    RuntimeJobRequestModel, RuntimeTool,
};
use crate::runtime;
use crate::store::{EventCursorModel, StoreErrorModel};
use crate::store_model::StoreModel;

verus! {

/// A run adds to a store and leaves everything in it as it was.
pub proof fn law_runs_leave_the_rest_alone(run: JobRunModel, before: StoreModel, now: StoreModel)
    requires
        run.leads(before, now),
    ensures
        now.repositories == before.repositories,
        now.lock_decisions == before.lock_decisions,
        now.jobs.drop_last() == before.jobs,
        before.events.is_prefix_of(now.events),
        before.policy_decisions.is_prefix_of(now.policy_decisions),
        before.tool_invocations.is_prefix_of(now.tool_invocations),
        before.tool_results.is_prefix_of(now.tool_results),
        before.audit_records.is_prefix_of(now.audit_records),
        now.job(run.job.id) == Some(run.job),
{
    assert(now.jobs.drop_last() =~= before.jobs);
    assert(now.events.take(before.events.len() as int) =~= before.events);
    assert(now.policy_decisions.take(before.policy_decisions.len() as int)
        =~= before.policy_decisions);
    assert(now.tool_invocations.take(before.tool_invocations.len() as int)
        =~= before.tool_invocations);
    assert(now.tool_results.take(before.tool_results.len() as int) =~= before.tool_results);
    assert(now.audit_records.take(before.audit_records.len() as int) =~= before.audit_records);
    crate::table::lemma_lookup_push::<JobRecord>(before.jobs, run.job, run.job.id);
}

/// Replaying the ledger from where a run began gives exactly what the run told.
pub proof fn law_replay_tells_the_run(run: JobRunModel, before: StoreModel, now: StoreModel)
    requires
        before.valid(),
        run.leads(before, now),
    ensures
        now.replay(EventCursorModel::AfterSequence(before.last_sequence), None) == Ok::<
            Seq<JobEventModel>,
            StoreErrorModel,
        >(run.events),
{
    let from = before.events.len() as int;
    assert forall|i: int| from <= i < now.events.len() implies (
    #[trigger] now.events[i]).sequence_number > before.last_sequence by {
        assert(now.events[i] == run.events[i - from]);
    }
    assert forall|i: int| 0 <= i < from implies (#[trigger] now.events[i]).sequence_number
        <= before.last_sequence by {
        assert(now.events[i] == before.events[i]);
    }
    crate::store_laws::lemma_events_after(now.events, before.last_sequence, from);
    assert(now.events.skip(from) =~= run.events);
}

/// Where the numbers count the events of a store, they still do after a run.
pub proof fn law_runs_keep_counting(run: JobRunModel, before: StoreModel, now: StoreModel)
    requires
        before.counts_events(),
        run.leads(before, now),
    ensures
        now.counts_events(),
{
    assert forall|i: int| 0 <= i < now.events.len() implies (
    #[trigger] now.events[i]).sequence_number == i + 1 by {
        let n = before.events.len() as int;
        if i < n {
            assert(now.events[i] == before.events[i]);
        } else {
            assert(now.events[i] == run.events[i - n]);
        }
    }
}

/// A job that gives a receipt has come to an end, and says when; where a tool was invoked
/// it says when it was started, and otherwise that it never was.
pub proof fn law_receipts_are_for_ended_jobs<T: RuntimeTool, P: PolicyEngine, H: RuntimeHost>(
    receipt: RuntimeJobReceiptModel,
    before: StoreModel,
    request: RuntimeJobRequestModel,
    tool: &T,
    engine: &P,
    host: &H,
)
    requires
        runtime::receipt_fits(receipt, before, request, tool, engine, host),
    ensures
        receipt.job.status.terminal(),
        job_run::just_ended(receipt.job),
        receipt.tool_invocation is Some ==> job_run::was_started(receipt.job),
        receipt.tool_invocation is None ==> receipt.job.started_at is None,
        receipt.job.latest_event_id == Some(receipt.events.last().id),
        receipt.job.policy_summary == Some(job_run::summary_of(receipt.policy_decision)),
{
}

/// A request is refused for its capability hints exactly where they do not name what the
/// tool requires, and that before anything else is looked at: whatever else is wrong, and
/// nothing is written.
pub proof fn law_hints_are_checked_first<T: RuntimeTool, P: PolicyEngine, H: RuntimeHost>(
    before: StoreModel,
    now: StoreModel,
    request: RuntimeJobRequestModel,
    tool: &T,
    engine: &P,
    host: &H,
    outcome: Result<RuntimeJobReceiptModel, RuntimeErrorModel>,
    reliable: bool,
    named: Seq<char>,
)
    requires
        runtime::ran(before, now, request, tool, engine, host, outcome, reliable),
        forall|other: Seq<char>| #[trigger] runtime::asks_for(tool, other) ==> other == named,
    ensures
        match crate::capabilities::required(named, request.requested_capabilities) {
            Err(error) => {
                &&& error is InvalidToolRequest
                &&& outcome == Err::<RuntimeJobReceiptModel, RuntimeErrorModel>(error)
                &&& now == before
            },
            Ok(_) => !(outcome is Err && outcome->Err_0 is InvalidToolRequest),
        },
{
}

/// An echo job is refused with an invalid request exactly where one of its hints is not
/// informational, in which case nothing is written.
pub proof fn law_echo_jobs_take_informational_hints<P: PolicyEngine, H: RuntimeHost>(
    before: StoreModel,
    now: StoreModel,
    request: RuntimeJobRequestModel,
    engine: &P,
    host: &H,
    outcome: Result<RuntimeJobReceiptModel, RuntimeErrorModel>,
    reliable: bool,
)
    requires
        runtime::ran(before, now, request, &EchoTool, engine, host, outcome, reliable),
    ensures
        ({
            let hints = request.requested_capabilities;
            let refused = exists|i: int|
                0 <= i < hints.len() && Capability::of_name(#[trigger] hints[i]) !is Informational;
            &&& (outcome is Err && outcome->Err_0 is InvalidToolRequest) <==> refused
            &&& refused ==> now == before
        }),
{
    let hints = request.requested_capabilities;
    let named = "capability.discovery"@;
    lemma_discovery_is_informational();
    reveal_strlit("capability.discovery");
    law_hints_are_checked_first(
        before,
        now,
        request,
        &EchoTool,
        engine,
        host,
        outcome,
        reliable,
        named,
    );
    crate::capabilities::law_hints_name_what_the_tool_requires(named, hints);
    assert forall|i: int| 0 <= i < hints.len() implies (crate::capabilities::enforced_name(
        #[trigger] hints[i],
    ) == named <==> Capability::of_name(hints[i]) is Informational) by {
        crate::capabilities::law_informational_hints_name_discovery(hints[i]);
    }
}

/// Where a reliable store does not know the repository of a request whose hints are in
/// order, the request is answered that there is no such repository, and nothing is written.
pub proof fn law_unknown_repositories_are_not_found<
    T: RuntimeTool,
    P: PolicyEngine,
    H: RuntimeHost,
>(
    before: StoreModel,
    now: StoreModel,
    request: RuntimeJobRequestModel,
    tool: &T,
    engine: &P,
    host: &H,
    outcome: Result<RuntimeJobReceiptModel, RuntimeErrorModel>,
    named: Seq<char>,
)
    requires
        runtime::ran(before, now, request, tool, engine, host, outcome, true),
        forall|other: Seq<char>| #[trigger] runtime::asks_for(tool, other) ==> other == named,
        crate::capabilities::required(named, request.requested_capabilities) is Ok,
        before.repository(request.repository_id) is None,
    ensures
        now == before,
        outcome == Err::<RuntimeJobReceiptModel, RuntimeErrorModel>(
            RuntimeErrorModel::Store(
                StoreErrorModel::NotFound {
                    collection: "repositories"@,
                    id: crate::ids::RepositoryId::debug_form(request.repository_id),
                },
            ),
        ),
{
}

/// A tool is invoked only after the policy has decided to let it run, and the ledger tells
/// of the decision first.
pub proof fn law_policy_decides_before_a_tool_runs<
    T: RuntimeTool,
    P: PolicyEngine,
    H: RuntimeHost,
>(
    receipt: RuntimeJobReceiptModel,
    before: StoreModel,
    now: StoreModel,
    request: RuntimeJobRequestModel,
    tool: &T,
    engine: &P,
    host: &H,
    at: int,
)
    requires
        runtime::receipt_fits(receipt, before, request, tool, engine, host),
        runtime::run_of(receipt).leads(before, now),
        0 <= at < receipt.events.len(),
        receipt.events[at].kind is ToolInvoked,
    ensures
        runtime::lets_run(receipt.policy_decision),
        exists|decided: int|
            {
                &&& 0 <= decided < at
                &&& (#[trigger] receipt.events[decided]).kind
                    == (JobEventKindModel::PolicyDecided {
                    outcome: receipt.policy_decision.outcome,
                })
                &&& receipt.events[decided].sequence_number < receipt.events[at].sequence_number
            },
{
    let run = runtime::run_of(receipt);
    let capability = choose|capability: Seq<char>| #[trigger]
        runtime::judged(run, before, request, tool, engine, capability);
    assert(at != 0 && at != 1);
    assert(run.events[1] == receipt.events[1]);
    assert(run.events[at] == receipt.events[at]);
    if !runtime::lets_run(receipt.policy_decision) {
        assert(at == 2);
        assert(false);
    }
}

/// A job that the policy does not let run is blocked, and no tool is invoked for it.
pub proof fn law_refused_jobs_run_nothing<T: RuntimeTool, P: PolicyEngine, H: RuntimeHost>(
    receipt: RuntimeJobReceiptModel,
    before: StoreModel,
    now: StoreModel,
    request: RuntimeJobRequestModel,
    tool: &T,
    engine: &P,
    host: &H,
)
    requires
        runtime::receipt_fits(receipt, before, request, tool, engine, host),
        runtime::run_of(receipt).leads(before, now),
        !runtime::lets_run(receipt.policy_decision),
    ensures
        receipt.job.status is Blocked,
        receipt.tool_invocation is None,
        receipt.tool_result is None,
        receipt.rendered_output is None,
        receipt.audit_record is None,
        now.tool_invocations == before.tool_invocations,
        now.tool_results == before.tool_results,
        now.audit_records == before.audit_records,
{
}

/// A tool that ran leaves its result and an audit record behind, which speak of its
/// invocation.
pub proof fn law_tools_leave_an_audit_trail<T: RuntimeTool, P: PolicyEngine, H: RuntimeHost>(
    receipt: RuntimeJobReceiptModel,
    before: StoreModel,
    now: StoreModel,
    request: RuntimeJobRequestModel,
    tool: &T,
    engine: &P,
    host: &H,
)
    requires
        runtime::receipt_fits(receipt, before, request, tool, engine, host),
        runtime::run_of(receipt).leads(before, now),
        receipt.tool_invocation is Some,
    ensures
        receipt.tool_result is Some,
        receipt.audit_record is Some,
        receipt.tool_result->0.invocation_id == receipt.tool_invocation->0.id,
        receipt.tool_result->0.tool_id == receipt.tool_invocation->0.tool_id,
        receipt.tool_invocation->0.policy_decision_id == receipt.policy_decision.id,
        receipt.tool_invocation->0.job_id == receipt.job.id,
        receipt.audit_record->0.tool_invocation_id == Some(receipt.tool_invocation->0.id),
        receipt.audit_record->0.policy_decision_id == receipt.policy_decision.id,
        now.tool_results.last() == receipt.tool_result->0,
        now.audit_records.last() == receipt.audit_record->0,
{
    let run = runtime::run_of(receipt);
    let output = receipt.rendered_output->0;
    assert(runtime::delivered(run, request, tool, host, Ok(output)));
    let (raw, first, changed) = choose|
        raw: ToolResultModel,
        first: crate::tool_output::RenderedToolOutputModel,
        changed: bool,
    |
        runtime::results_in(tool, run.tool_invocation->0, request, raw)
            && #[trigger] output_handling::handled(
            host,
            request,
            run.tool_invocation->0,
            raw,
            run.tool_result->0,
            first,
            changed,
        );
    lemma_fitting_keeps_identity(host, request, raw, run.tool_result->0, changed);
}

/// Fitting a result to limits changes what it says, not what it is the result of.
pub proof fn lemma_fitting_keeps_identity<H: RuntimeHost>(
    host: &H,
    request: RuntimeJobRequestModel,
    result: ToolResultModel,
    settled: ToolResultModel,
    changed: bool,
)
    requires
        output_handling::fitted(host, request, result, settled, changed),
    ensures
        settled.id == result.id,
        settled.invocation_id == result.invocation_id,
        settled.tool_id == result.tool_id,
        settled.status == result.status,
        !changed ==> settled == result,
{
}

/// The built-in policy lets no tool run in a blocked repository.
pub proof fn law_blocked_repositories_run_no_tools<T: RuntimeTool, H: RuntimeHost>(
    receipt: RuntimeJobReceiptModel,
    before: StoreModel,
    request: RuntimeJobRequestModel,
    tool: &T,
    host: &H,
)
    requires
        runtime::receipt_fits(receipt, before, request, tool, &DefaultPolicyEngine, host),
        before.repository(request.repository_id)->0.trust_state is Blocked,
    ensures
        receipt.policy_decision.outcome is Blocked,
        receipt.job.status is Blocked,
        receipt.tool_invocation is None,
{
}

/// Under the built-in policy an echo job succeeds in every repository that is not blocked.
pub proof fn law_echo_jobs_succeed<H: RuntimeHost>(
    receipt: RuntimeJobReceiptModel,
    before: StoreModel,
    request: RuntimeJobRequestModel,
    host: &H,
)
    requires
        runtime::receipt_fits(receipt, before, request, &EchoTool, &DefaultPolicyEngine, host),
        before.repository(request.repository_id)->0.trust_state !is Blocked,
    ensures
        receipt.policy_decision.outcome is Allowed,
        receipt.job.status is Succeeded,
        receipt.tool_invocation is Some,
        receipt.tool_invocation->0.tool_id == "secretary.echo"@,
        receipt.tool_invocation->0.requested_capability == "capability.discovery"@,
        receipt.tool_invocation->0.args_summary == "goal="@ + request.goal,
        receipt.tool_invocation->0.resolved_paths.len() == 0,
        receipt.tool_result is Some,
        receipt.tool_result->0.status is Succeeded,
        receipt.rendered_output is Some,
        receipt.audit_record is Some,
        receipt.audit_record->0.effect_summary == "secretary.echo"@ + " completed with "@
            + "Succeeded"@,
        receipt.tool_result->0.truncation is None ==> receipt.tool_result->0.fields
            == crate::requests::echo_fields(request.goal),
{
    let run = runtime::run_of(receipt);
    let capability = choose|capability: Seq<char>|
        {
            &&& #[trigger] runtime::judged(
                run,
                before,
                request,
                &EchoTool,
                &DefaultPolicyEngine,
                capability,
            )
            &&& if runtime::lets_run(receipt.policy_decision) {
                &&& runtime::working(run, request, &EchoTool, capability)
                &&& runtime::finished(run, request, capability)
                &&& run.events.len() == 7
                &&& receipt.rendered_output is Some
                &&& runtime::delivered(
                    run,
                    request,
                    &EchoTool,
                    host,
                    Ok(receipt.rendered_output->0),
                )
            } else {
                runtime::stopped(run) && receipt.rendered_output is None
            }
        };
    lemma_discovery_is_informational();
    assert(capability == "capability.discovery"@);
    assert(receipt.policy_decision.outcome is Allowed);
    let output = receipt.rendered_output->0;
    let (raw, first, changed) = choose|
        raw: ToolResultModel,
        first: crate::tool_output::RenderedToolOutputModel,
        changed: bool,
    |
        runtime::results_in(&EchoTool, run.tool_invocation->0, request, raw)
            && #[trigger] output_handling::handled(
            host,
            request,
            run.tool_invocation->0,
            raw,
            run.tool_result->0,
            first,
            changed,
        );
    lemma_fitting_keeps_identity(host, request, raw, run.tool_result->0, changed);
    if run.tool_result->0.truncation is None {
        lemma_changes_are_noted(host, request, raw, run.tool_result->0, changed);
    }
}

proof fn lemma_discovery_is_informational()
    ensures
        crate::capabilities::enforced_name("capability.discovery"@) == "capability.discovery"@,
        Capability::of_name("capability.discovery"@) is Informational,
{
    reveal_strlit("capability.discovery");
    let name = "capability.discovery"@;
    assert(crate::policy::normalized(name) =~= name);
    crate::capabilities::law_informational_hints_name_discovery(name);
}

proof fn lemma_changes_are_noted<H: RuntimeHost>(
    host: &H,
    request: RuntimeJobRequestModel,
    result: ToolResultModel,
    settled: ToolResultModel,
    changed: bool,
)
    requires
        output_handling::fitted(host, request, result, settled, changed),
        settled.truncation is None,
    ensures
        settled.fields == result.fields,
{
}

/// Everything that a run has written belongs to the repository of its job, and goes by an
/// identifier of its kind.
pub open spec fn of_one_repository(run: JobRunModel) -> bool {
    let repository = run.job.repository_id;
    &&& crate::ids::is_id_text("job_"@, run.job.id)
    &&& run.policy_decision matches Some(decision) ==> decision.repository_id == repository
        && crate::ids::is_id_text("pol_"@, decision.id)
    &&& run.tool_invocation matches Some(invocation) ==> invocation.repository_id == repository
        && crate::ids::is_id_text("tool_"@, invocation.id)
    &&& run.tool_result matches Some(result) ==> run.tool_invocation is Some
        && result.invocation_id == run.tool_invocation->0.id && crate::ids::is_id_text(
        "res_"@,
        result.id,
    )
    &&& run.audit_record matches Some(audit) ==> audit.repository_id == repository
        && crate::ids::is_id_text("aud_"@, audit.id)
}

/// The event is about something that the run has written, and refers to nothing else.
pub open spec fn speaks_of(run: JobRunModel, event: JobEventModel) -> bool {
    let id = event.subject.subject_id;
    let refs = event.refs;
    &&& match event.subject.subject_type {
        EventSubjectType::Job => id == run.job.id,
        EventSubjectType::PolicyDecision => run.policy_decision is Some && id
            == run.policy_decision->0.id,
        EventSubjectType::ToolInvocation => run.tool_invocation is Some && id
            == run.tool_invocation->0.id,
        EventSubjectType::ToolResult => run.tool_result is Some && id == run.tool_result->0.id,
        EventSubjectType::AuditRecord => run.audit_record is Some && id == run.audit_record->0.id,
        _ => false,
    }
    &&& refs.repository_id == Some(run.job.repository_id)
    &&& refs.job_id == Some(run.job.id)
    &&& refs.lock_decision_id is None
    &&& refs.policy_decision_id is Some ==> run.policy_decision is Some
        && refs.policy_decision_id->0 == run.policy_decision->0.id
    &&& refs.tool_invocation_id is Some ==> run.tool_invocation is Some
        && refs.tool_invocation_id->0 == run.tool_invocation->0.id
    &&& refs.tool_result_id is Some ==> run.tool_result is Some && refs.tool_result_id->0
        == run.tool_result->0.id
    &&& refs.audit_record_id is Some ==> run.audit_record is Some && refs.audit_record_id->0
        == run.audit_record->0.id
}

/// A store takes every event on what a run has written, as long as the event's identifier
/// is new and there are numbers left.
pub proof fn law_stores_take_every_step(
    run: JobRunModel,
    before: StoreModel,
    now: StoreModel,
    job: JobRecordModel,
    event: JobEventModel,
)
    requires
        run.leads(before, now),
        now.valid(),
        of_one_repository(run),
        job.id == run.job.id,
        job.repository_id == run.job.repository_id,
        speaks_of(run, event),
        now.event(event.id) is None,
        now.last_sequence < u64::MAX,
    ensures
        now.update_job(job, event) is Ok,
{
    let last_job = before.jobs.len() as int;
    assert(now.jobs[last_job] == run.job);
    crate::table::lemma_lookup_row::<JobRecord>(now.jobs, last_job);
    assert(now.job_fits(now.jobs[last_job]));
    if run.policy_decision is Some {
        let at = before.policy_decisions.len() as int;
        assert(now.policy_decisions[at] == run.policy_decision->0);
        crate::table::lemma_lookup_row::<PolicyDecision>(now.policy_decisions, at);
    }
    if run.tool_invocation is Some {
        let at = before.tool_invocations.len() as int;
        assert(now.tool_invocations[at] == run.tool_invocation->0);
        crate::table::lemma_lookup_row::<ToolInvocation>(now.tool_invocations, at);
    }
    if run.tool_result is Some {
        let at = before.tool_results.len() as int;
        assert(now.tool_results[at] == run.tool_result->0);
        crate::table::lemma_lookup_row::<ToolResult>(now.tool_results, at);
    }
    if run.audit_record is Some {
        let at = before.audit_records.len() as int;
        assert(now.audit_records[at] == run.audit_record->0);
        crate::table::lemma_lookup_row::<AuditRecord>(now.audit_records, at);
    }
    reveal(StoreModel::event_problem);
    assert(now.event_problem(event, None) is None);
}

/// A store takes every new job for a repository that it knows, as long as the identifiers of
/// the job and of its event are new and there is a number left.
pub proof fn law_stores_take_new_jobs(
    store: StoreModel,
    request: RuntimeJobRequestModel,
    job: JobRecordModel,
    event: JobEventModel,
)
    requires
        store.valid(),
        store.repository(request.repository_id) is Some,
        job_run::is_new_job(job, request),
        job_run::tells(event, job_run::submission(job)),
        store.job(job.id) is None,
        store.event(event.id) is None,
        store.last_sequence < u64::MAX,
    ensures
        store.create_job(job, event) is Ok,
{
    reveal(StoreModel::event_problem);
    assert(store.event_problem(event, Some(job)) is None);
}

/// A store takes a decision on a job of a run, as long as the identifier of the decision is
/// new and it is about the repository of the job.
pub proof fn law_stores_take_decisions(
    run: JobRunModel,
    before: StoreModel,
    now: StoreModel,
    decision: PolicyDecisionModel,
)
    requires
        run.leads(before, now),
        now.valid(),
        decision.repository_id == run.job.repository_id,
        now.policy_decision(decision.id) is None,
    ensures
        now.create_policy_decision(decision) is Ok,
{
    assert(now.jobs[before.jobs.len() as int] == run.job);
    assert(now.job_fits(now.jobs[before.jobs.len() as int]));
}

/// A store takes the invocation of a tool by a run, as long as its identifier is new.
pub proof fn law_stores_take_invocations<T: RuntimeTool>(
    run: JobRunModel,
    before: StoreModel,
    now: StoreModel,
    request: RuntimeJobRequestModel,
    tool: &T,
    capability: Seq<char>,
    invocation: ToolInvocationModel,
)
    requires
        run.leads(before, now),
        now.valid(),
        of_one_repository(run),
        runtime::is_job_for(run.job, request),
        run.policy_decision is Some,
        runtime::is_invocation_for(invocation, run, request, tool, capability),
        now.tool_invocation(invocation.id) is None,
    ensures
        now.create_tool_invocation(invocation) is Ok,
{
    let last_job = before.jobs.len() as int;
    assert(now.jobs[last_job] == run.job);
    crate::table::lemma_lookup_row::<JobRecord>(now.jobs, last_job);
    assert(now.job_fits(now.jobs[last_job]));
    let at = before.policy_decisions.len() as int;
    assert(now.policy_decisions[at] == run.policy_decision->0);
    crate::table::lemma_lookup_row::<PolicyDecision>(now.policy_decisions, at);
    reveal(StoreModel::invocation_problem);
}

/// What a run has written is found in the store.
pub proof fn lemma_run_is_stored(run: JobRunModel, before: StoreModel, now: StoreModel)
    requires
        now.valid(),
        run.leads(before, now),
    ensures
        now.job(run.job.id) == Some(run.job),
        now.repository(run.job.repository_id) is Some,
        run.policy_decision matches Some(decision) ==> now.policy_decision(decision.id) == Some(
            decision,
        ),
        run.tool_invocation matches Some(invocation) ==> now.tool_invocation(invocation.id) == Some(
            invocation,
        ),
{
    let last_job = before.jobs.len() as int;
    assert(now.jobs[last_job] == run.job);
    crate::table::lemma_lookup_row::<JobRecord>(now.jobs, last_job);
    assert(now.job_fits(now.jobs[last_job]));
    if run.policy_decision is Some {
        let at = before.policy_decisions.len() as int;
        assert(now.policy_decisions[at] == run.policy_decision->0);
        crate::table::lemma_lookup_row::<PolicyDecision>(now.policy_decisions, at);
    }
    if run.tool_invocation is Some {
        let at = before.tool_invocations.len() as int;
        assert(now.tool_invocations[at] == run.tool_invocation->0);
        crate::table::lemma_lookup_row::<ToolInvocation>(now.tool_invocations, at);
    }
}

/// A result that answers the invocation of a run fits into the store.
pub proof fn lemma_result_fits(
    run: JobRunModel,
    before: StoreModel,
    now: StoreModel,
    result: ToolResultModel,
)
    requires
        before.valid(),
        now.valid(),
        run.leads(before, now),
        run.tool_invocation is Some,
        run.tool_result is None,
        output_handling::result_problem(run.tool_invocation->0, result) is None,
    ensures
        now.result_problem(result) is None,
{
    let invocation = run.tool_invocation->0;
    let at = before.tool_invocations.len() as int;
    assert(now.tool_invocations[at] == invocation);
    crate::table::lemma_lookup_row::<ToolInvocation>(now.tool_invocations, at);
    assert(!now.is_answered(invocation.id)) by {
        crate::table::lemma_index_of::<ToolInvocation>(before.tool_invocations, invocation.id);
        assert forall|i: int| 0 <= i < now.tool_results.len() implies (
        #[trigger] now.tool_results[i]).invocation_id != invocation.id by {
            assert(now.tool_results[i] == before.tool_results[i]);
            assert(before.result_fits(before.tool_results[i]));
            if before.tool_invocation(invocation.id) is Some {
                let other = crate::table::index_of::<ToolInvocation>(
                    before.tool_invocations,
                    invocation.id,
                );
                assert(now.tool_invocations[other] == before.tool_invocations[other]);
            }
        }
    }
    reveal(StoreModel::result_problem);
}

/// A store takes the result of the tool that a run has invoked, and the audit record on it,
/// as long as the identifiers of both and of their events are new and there are two numbers
/// left.
pub proof fn law_stores_take_results(
    run: JobRunModel,
    before: StoreModel,
    now: StoreModel,
    request: RuntimeJobRequestModel,
    capability: Seq<char>,
    result: ToolResultModel,
    result_event: JobEventModel,
    audit: AuditRecordModel,
    audit_event: JobEventModel,
)
    requires
        before.valid(),
        now.valid(),
        run.leads(before, now),
        of_one_repository(run),
        runtime::is_job_for(run.job, request),
        run.policy_decision is Some,
        run.tool_invocation is Some,
        run.tool_result is None,
        run.audit_record is None,
        run.tool_invocation->0.policy_decision_id == run.policy_decision->0.id,
        output_handling::result_problem(run.tool_invocation->0, result) is None,
        crate::ids::is_id_text("res_"@, result.id),
        now.tool_result(result.id) is None,
        runtime::is_audit_for(
            audit,
            JobRunModel { tool_result: Some(result), ..run },
            request,
            capability,
        ),
        now.audit_record(audit.id) is None,
        job_run::tells(
            result_event,
            job_run::result_told(run.job, run.policy_decision->0, run.tool_invocation->0, result),
        ),
        now.event(result_event.id) is None,
        job_run::tells(
            audit_event,
            job_run::audit_told(
                run.job,
                run.policy_decision->0,
                run.tool_invocation->0,
                result,
                audit,
            ),
        ),
        now.event(audit_event.id) is None,
        audit_event.id != result_event.id,
        now.last_sequence + 2 <= u64::MAX,
    ensures
        now.record_result_and_audit(run.job, result, result_event, audit, audit_event) is Ok,
{
    lemma_run_is_stored(run, before, now);
    lemma_result_fits(run, before, now, result);
    let (with_result, _) = now.create_tool_result(result)->Ok_0;
    crate::store_laws::law_create_tool_result_keeps_validity(now, result, with_result);
    let run1 = JobRunModel { tool_result: Some(result), ..run };
    assert(with_result =~= run1.state_from(before));
    law_stores_take_every_step(run1, before, with_result, run.job, result_event);
    let (between, first) = with_result.update_job(run.job, result_event)->Ok_0;
    crate::store_laws::law_update_job_keeps_validity(
        with_result,
        run.job,
        result_event,
        between,
        first,
    );
    job_run::lemma_update_leads_on(
        run1,
        before,
        with_result,
        run.job,
        result_event,
        between,
        first,
    );
    let run2 = run1.stepped(run.job, first);
    reveal(StoreModel::audit_problem);
    let (with_audit, _) = between.create_audit_record(audit)->Ok_0;
    crate::store_laws::law_create_audit_record_keeps_validity(between, audit, with_audit);
    let run3 = JobRunModel { audit_record: Some(audit), ..run2 };
    assert(with_audit =~= run3.state_from(before));
    crate::table::lemma_lookup_push::<crate::domain::JobEvent>(now.events, first, audit_event.id);
    law_stores_take_every_step(run3, before, with_audit, run.job, audit_event);
}

/// A store takes the cancellation of every job that it holds, as long as the identifiers of
/// both events are new and there are two numbers left.
pub proof fn law_stores_take_cancellations(
    store: StoreModel,
    job: JobRecordModel,
    reason: Seq<char>,
    first: JobEventModel,
    second: JobEventModel,
    at: LedgerTimestamp,
)
    requires
        store.valid(),
        store.job(job.id) == Some(job),
        crate::ids::is_id_text("job_"@, job.id),
        job_run::tells(first, job_lifecycle::cancellation(job, reason)),
        job_run::tells(second, job_lifecycle::cancelled(job)),
        store.event(first.id) is None,
        store.event(second.id) is None,
        first.id != second.id,
        store.last_sequence + 2 <= u64::MAX,
    ensures
        store.update_job_twice(
            job_lifecycle::requested(job, job.latest_event_id),
            first,
            job_lifecycle::requested(job, Some(first.id)).moved_to(JobStatus::Canceled, at),
            second,
        ) is Ok,
{
    let first_job = job_lifecycle::requested(job, job.latest_event_id);
    let place = crate::table::index_of::<JobRecord>(store.jobs, job.id);
    crate::table::lemma_index_of::<JobRecord>(store.jobs, job.id);
    assert(store.job_fits(store.jobs[place]));
    reveal(StoreModel::event_problem);
    assert(store.event_problem(first, None) is None);
    let (between, stored) = store.update_job(first_job, first)->Ok_0;
    crate::store_laws::law_update_job_keeps_validity(store, first_job, first, between, stored);
    let kept = JobRecordModel { latest_event_id: Some(first.id), ..first_job };
    crate::table::lemma_lookup_replace::<JobRecord>(store.jobs, kept, job.id);
    crate::table::lemma_lookup_push::<crate::domain::JobEvent>(store.events, stored, second.id);
    assert(between.event_problem(second, None) is None);
}

/// Where the numbers count the events of a store, they still do after a cancellation.
pub proof fn law_cancellations_keep_counting(
    before: StoreModel,
    now: StoreModel,
    job: JobRecordModel,
    reason: Seq<char>,
    at: LedgerTimestamp,
    receipt: CancelJobReceiptModel,
)
    requires
        before.counts_events(),
        job_lifecycle::cancels(before, now, job, reason, at, receipt),
    ensures
        now.counts_events(),
{
    let n = before.events.len() as int;
    assert forall|i: int| 0 <= i < now.events.len() implies (
    #[trigger] now.events[i]).sequence_number == i + 1 by {
        if i < n {
            assert(now.events[i] == before.events[i]);
        } else {
            assert(now.events[i] == receipt.events[i - n]);
        }
    }
}

/// A cancelled job is canceled in the store, and cannot be cancelled again.
pub proof fn law_cancelled_jobs_stay_cancelled(
    before: StoreModel,
    now: StoreModel,
    job: JobRecordModel,
    reason: Seq<char>,
    at: LedgerTimestamp,
    receipt: CancelJobReceiptModel,
)
    requires
        before.job(job.id) == Some(job),
        job_lifecycle::cancels(before, now, job, reason, at, receipt),
    ensures
        now.job(job.id) == Some(receipt.job),
        receipt.job.status is Canceled,
        receipt.job.cancellation_state is Requested,
        !job_lifecycle::cancellable(receipt.job.status),
        before.events.is_prefix_of(now.events),
        forall|id: Seq<char>|
            id != job.id ==> #[trigger] now.job(id) == before.job(id),
{
    assert(now.events.take(before.events.len() as int) =~= before.events);
    assert forall|id: Seq<char>| id != job.id implies #[trigger] now.job(id) == before.job(id) by {
        crate::table::lemma_lookup_replace::<JobRecord>(before.jobs, receipt.job, id);
    }
    crate::table::lemma_lookup_replace::<JobRecord>(before.jobs, receipt.job, job.id);
}

} // verus!

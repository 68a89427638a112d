//! What the ledger tells of runs and cancellations, event by event.
use vstd::prelude::*;

use crate::domain::{
    EventSeverity, EventSubjectType, JobEventKindModel, JobEventModel, JobRecordModel, JobStatus,
    LedgerTimestamp, PolicyDecisionModel, ToolResultStatus,
};
use crate::job_lifecycle;
use crate::job_run::JobRunModel;
use crate::policy::{DefaultPolicyEngine, PolicyEngine, PolicyInputModel};
use crate::requests::{
    CancelJobReceiptModel, RuntimeErrorModel, RuntimeHost, RuntimeJobReceiptModel,
    RuntimeJobRequestModel, RuntimeTool,
};
use crate::runtime;
use crate::store_model::StoreModel;

verus! {

/// The event is about the record of this kind and identifier, and says this.
pub open spec fn says(
    event: JobEventModel,
    subject_type: EventSubjectType,
    subject_id: Seq<char>,
    kind: JobEventKindModel,
    severity: EventSeverity,
    message: Seq<char>,
) -> bool {
    &&& event.subject.subject_type == subject_type
    &&& event.subject.subject_id == subject_id
    &&& event.kind == kind
    &&& event.severity == severity
    &&& event.public_message == message
    &&& event.schema_version == 1
    &&& event.redactions.len() == 0
}

/// The event refers to its job and the repository of it, and, as far as they are given, to a
/// decision, an invocation, a result and an audit record; and to no lock.
pub open spec fn refers_to(
    event: JobEventModel,
    job: JobRecordModel,
    policy_decision_id: Option<Seq<char>>,
    tool_invocation_id: Option<Seq<char>>,
    tool_result_id: Option<Seq<char>>,
    audit_record_id: Option<Seq<char>>,
) -> bool {
    let refs = event.refs;
    &&& refs.repository_id == Some(job.repository_id)
    &&& refs.job_id == Some(job.id)
    &&& refs.policy_decision_id == policy_decision_id
    &&& refs.lock_decision_id is None
    &&& refs.tool_invocation_id == tool_invocation_id
    &&& refs.tool_result_id == tool_result_id
    &&& refs.audit_record_id == audit_record_id
    &&& refs.output_refs.len() == 0
    &&& refs.artifact_refs.len() == 0
}

/// A job ends as its tool did: it succeeded exactly where the tool did, is canceled exactly
/// where the tool was, and failed where the tool failed or ran out of time. The last event
/// says so.
pub proof fn law_jobs_end_as_their_tools<T: RuntimeTool, P: PolicyEngine, H: RuntimeHost>(
    receipt: RuntimeJobReceiptModel,
    before: StoreModel,
    request: RuntimeJobRequestModel,
    tool: &T,
    engine: &P,
    host: &H,
)
    requires
        runtime::receipt_fits(receipt, before, request, tool, engine, host),
        receipt.tool_result is Some,
    ensures
        ({
            let status = receipt.tool_result->0.status;
            &&& receipt.job.status is Succeeded <==> status is Succeeded
            &&& receipt.job.status is Canceled <==> status is Canceled
            &&& receipt.job.status is Failed <==> status is Failed || status is TimedOut
            &&& receipt.events.last().kind == (JobEventKindModel::JobStatusChanged {
                from: JobStatus::Running,
                to: receipt.job.status,
            })
        }),
{
}

/// A run that came to its end tells of seven steps: the submission, the decision, the start,
/// the invocation, the result, the audit, and the end.
pub proof fn law_finished_runs_tell_each_step<T: RuntimeTool, P: PolicyEngine, H: RuntimeHost>(
    receipt: RuntimeJobReceiptModel,
    before: StoreModel,
    request: RuntimeJobRequestModel,
    tool: &T,
    engine: &P,
    host: &H,
)
    requires
        runtime::receipt_fits(receipt, before, request, tool, engine, host),
        receipt.policy_decision.outcome is Allowed || receipt.policy_decision.outcome is Audited,
    ensures
        receipt.events.len() == 7,
        receipt.tool_invocation is Some,
        receipt.tool_result is Some,
        receipt.audit_record is Some,
        receipt.rendered_output is Some,
        ({
            let events = receipt.events;
            let job = receipt.job;
            let decision = receipt.policy_decision;
            let invocation = receipt.tool_invocation->0;
            let result = receipt.tool_result->0;
            let audit = receipt.audit_record->0;
            &&& says(
                events[0],
                EventSubjectType::Job,
                job.id,
                JobEventKindModel::JobSubmitted,
                EventSeverity::Info,
                "job submitted"@,
            )
            &&& refers_to(events[0], job, None, None, None, None)
            &&& says(
                events[1],
                EventSubjectType::PolicyDecision,
                decision.id,
                JobEventKindModel::PolicyDecided { outcome: decision.outcome },
                EventSeverity::Info,
                decision.user_reason,
            )
            &&& refers_to(events[1], job, Some(decision.id), None, None, None)
            &&& says(
                events[2],
                EventSubjectType::Job,
                job.id,
                JobEventKindModel::JobStatusChanged {
                    from: JobStatus::Queued,
                    to: JobStatus::Running,
                },
                EventSeverity::Info,
                "job running"@,
            )
            &&& refers_to(events[2], job, Some(decision.id), None, None, None)
            &&& says(
                events[3],
                EventSubjectType::ToolInvocation,
                invocation.id,
                JobEventKindModel::ToolInvoked { tool_id: invocation.tool_id },
                EventSeverity::Info,
                "tool invoked"@,
            )
            &&& refers_to(events[3], job, Some(decision.id), Some(invocation.id), None, None)
            &&& says(
                events[4],
                EventSubjectType::ToolResult,
                result.id,
                JobEventKindModel::ToolResultRecorded { status: result.status },
                if result.status is Succeeded {
                    EventSeverity::Info
                } else {
                    EventSeverity::Error
                },
                "tool result recorded"@,
            )
            &&& refers_to(
                events[4],
                job,
                Some(decision.id),
                Some(invocation.id),
                Some(result.id),
                None,
            )
            &&& says(
                events[5],
                EventSubjectType::AuditRecord,
                audit.id,
                JobEventKindModel::AuditRecorded,
                EventSeverity::Info,
                "audit record created"@,
            )
            &&& refers_to(
                events[5],
                job,
                Some(decision.id),
                Some(invocation.id),
                Some(result.id),
                Some(audit.id),
            )
            &&& says(
                events[6],
                EventSubjectType::Job,
                job.id,
                JobEventKindModel::JobStatusChanged { from: JobStatus::Running, to: job.status },
                EventSeverity::Info,
                "job completed"@,
            )
            &&& refers_to(
                events[6],
                job,
                Some(decision.id),
                Some(invocation.id),
                Some(result.id),
                Some(audit.id),
            )
        }),
{
}

/// A run that the policy stopped tells of three steps: the submission, the decision and the
/// stop, and of no tool.
pub proof fn law_stopped_runs_tell_each_step<T: RuntimeTool, P: PolicyEngine, H: RuntimeHost>(
    receipt: RuntimeJobReceiptModel,
    before: StoreModel,
    request: RuntimeJobRequestModel,
    tool: &T,
    engine: &P,
    host: &H,
)
    requires
        runtime::receipt_fits(receipt, before, request, tool, engine, host),
        receipt.policy_decision.outcome is NeedsApproval
            || receipt.policy_decision.outcome is Blocked,
    ensures
        receipt.events.len() == 3,
        receipt.job.status is Blocked,
        receipt.tool_invocation is None,
        receipt.tool_result is None,
        receipt.audit_record is None,
        receipt.rendered_output is None,
        ({
            let events = receipt.events;
            let job = receipt.job;
            let decision = receipt.policy_decision;
            &&& says(
                events[0],
                EventSubjectType::Job,
                job.id,
                JobEventKindModel::JobSubmitted,
                EventSeverity::Info,
                "job submitted"@,
            )
            &&& refers_to(events[0], job, None, None, None, None)
            &&& says(
                events[1],
                EventSubjectType::PolicyDecision,
                decision.id,
                JobEventKindModel::PolicyDecided { outcome: decision.outcome },
                if decision.outcome is Blocked {
                    EventSeverity::Error
                } else {
                    EventSeverity::Warning
                },
                decision.user_reason,
            )
            &&& refers_to(events[1], job, Some(decision.id), None, None, None)
            &&& says(
                events[2],
                EventSubjectType::Job,
                job.id,
                JobEventKindModel::JobStatusChanged {
                    from: JobStatus::Queued,
                    to: JobStatus::Blocked,
                },
                EventSeverity::Warning,
                "job stopped before tool execution"@,
            )
            &&& refers_to(events[2], job, Some(decision.id), None, None, None)
        }),
{
}

/// What a run stores speaks of the request that it was made for, of its own job, and of what
/// the policy decided.
pub proof fn law_receipts_speak_of_their_request<T: RuntimeTool, P: PolicyEngine, H: RuntimeHost>(
    receipt: RuntimeJobReceiptModel,
    before: StoreModel,
    request: RuntimeJobRequestModel,
    tool: &T,
    engine: &P,
    host: &H,
)
    requires
        runtime::receipt_fits(receipt, before, request, tool, engine, host),
    ensures
        receipt.job.requester == request.requester,
        receipt.job.repository_id == request.repository_id,
        receipt.job.kind == request.kind,
        receipt.job.goal == request.goal,
        receipt.job.cancellation_state is NotRequested,
        receipt.job.redactions.len() == 0,
        receipt.job.policy_summary is Some,
        receipt.job.policy_summary->0.decision_id == Some(receipt.policy_decision.id),
        receipt.job.policy_summary->0.outcome == receipt.policy_decision.outcome,
        receipt.job.policy_summary->0.risk_tier == receipt.policy_decision.risk_tier,
        receipt.job.policy_summary->0.reason_code == receipt.policy_decision.reason_code,
        receipt.tool_invocation matches Some(invocation) ==> {
            &&& invocation.job_id == receipt.job.id
            &&& invocation.repository_id == request.repository_id
            &&& invocation.actor == request.requester
            &&& invocation.policy_decision_id == receipt.policy_decision.id
            &&& invocation.timeout_millis is None
            &&& invocation.redactions.len() == 0
            &&& runtime::has_tool_id(tool, invocation.tool_id)
            &&& runtime::summarizes(tool, request, invocation.args_summary)
            &&& runtime::resolves(tool, request, invocation.resolved_paths)
            &&& receipt.audit_record matches Some(audit) && {
                &&& audit.actor == request.requester
                &&& audit.repository_id == request.repository_id
                &&& audit.requested_capability == invocation.requested_capability
                &&& audit.policy_decision_id == receipt.policy_decision.id
                &&& audit.tool_invocation_id == Some(invocation.id)
                &&& audit.output_refs == receipt.tool_result->0.output_refs
                &&& audit.redactions == receipt.tool_result->0.redactions
                &&& audit.effect_summary == invocation.tool_id + " completed with "@ + (
                match receipt.tool_result->0.status {
                    ToolResultStatus::Succeeded => "Succeeded"@,
                    ToolResultStatus::Failed => "Failed"@,
                    ToolResultStatus::TimedOut => "TimedOut"@,
                    ToolResultStatus::Canceled => "Canceled"@,
                })
            }
        },
{
}

/// The policy decides on what was asked: the requester, the repository in the state that the
/// store has it in, the capability, resource and effect, and the tool.
pub proof fn law_policies_are_asked_about_the_request<
    T: RuntimeTool,
    P: PolicyEngine,
    H: RuntimeHost,
>(
    receipt: RuntimeJobReceiptModel,
    before: StoreModel,
    request: RuntimeJobRequestModel,
    tool: &T,
    engine: &P,
    host: &H,
)
    requires
        runtime::receipt_fits(receipt, before, request, tool, engine, host),
    ensures
        exists|input: PolicyInputModel| #[trigger]
            runtime::decides(engine, input, receipt.policy_decision) && asks_about(
                input,
                before,
                request,
                tool,
            ) && (receipt.tool_invocation matches Some(invocation)
                ==> invocation.requested_capability == input.requested_capability),
{
    let run = runtime::run_of(receipt);
    let capability = choose|capability: Seq<char>|
        {
            &&& #[trigger] runtime::judged(run, before, request, tool, engine, capability)
            &&& runtime::lets_run(receipt.policy_decision) ==> runtime::working(
                run,
                request,
                tool,
                capability,
            )
            &&& !runtime::lets_run(receipt.policy_decision) ==> runtime::stopped(run)
        };
    let (effect, tool_id) = choose|effect: Seq<char>, tool_id: Seq<char>|
        {
            &&& #[trigger] runtime::declares(tool, effect)
            &&& #[trigger] runtime::has_tool_id(tool, tool_id)
            &&& runtime::decides(
                engine,
                runtime::policy_input(
                    request,
                    capability,
                    effect,
                    before.repository(request.repository_id)->0.trust_state,
                    tool_id,
                ),
                receipt.policy_decision,
            )
        };
    let input = runtime::policy_input(
        request,
        capability,
        effect,
        before.repository(request.repository_id)->0.trust_state,
        tool_id,
    );
    assert(asks_about(input, before, request, tool));
}

/// The input is about the request for a tool, on the store.
pub open spec fn asks_about<T: RuntimeTool>(
    input: PolicyInputModel,
    store: StoreModel,
    request: RuntimeJobRequestModel,
    tool: &T,
) -> bool {
    &&& input.requester == request.requester
    &&& input.repository_id == request.repository_id
    &&& input.resource_scope == request.resource_scope
    &&& input.approval_available == request.approval_available
    &&& input.policy_version == "policy-stub-v1"@
    &&& input.registered_scope
    &&& !input.broad_or_unbounded
    &&& input.provider_id is None
    &&& store.repository(request.repository_id) is Some
    &&& input.current_trust_state == store.repository(request.repository_id)->0.trust_state
    &&& runtime::declares(tool, input.declared_effect)
    &&& input.tool_id is Some
    &&& runtime::has_tool_id(tool, input.tool_id->0)
    &&& runtime::enforces(tool, request, input.requested_capability)
}

/// What the built-in policy decides is what its rules say of the input, and the input is told
/// in the decision.
pub proof fn law_the_default_policy_decides_by_its_rules(
    input: PolicyInputModel,
    decision: PolicyDecisionModel,
)
    requires
        runtime::decides(&DefaultPolicyEngine, input, decision),
    ensures
        decision.outcome == input.rule().outcome,
        decision.risk_tier == input.rule().risk_tier,
        decision.reason_code == input.rule().reason_code,
        decision.user_reason == input.rule().user_reason,
        decision.repository_id == input.repository_id,
        decision.requester == input.requester,
        decision.requested_capability == input.requested_capability,
        crate::ids::is_id_text("pol_"@, decision.id),
        decision.created_at.unix_millis >= 0,
{
}

/// A job that fails on what came of its tool says why, by the error that is given: that the
/// result was rejected, too large, could not be rendered, or could not be put away.
pub proof fn law_failed_runs_say_why(run: JobRunModel, error: RuntimeErrorModel)
    requires
        runtime::failed(run, error),
    ensures
        run.job.status is Failed,
        run.events.len() == 5,
        says(
            run.events[4],
            EventSubjectType::Job,
            run.job.id,
            JobEventKindModel::JobStatusChanged {
                from: JobStatus::Running,
                to: JobStatus::Failed,
            },
            EventSeverity::Error,
            run.events[4].public_message,
        ),
        refers_to(
            run.events[4],
            run.job,
            Some(run.policy_decision->0.id),
            Some(run.tool_invocation->0.id),
            None,
            None,
        ),
        error is InvalidToolResult ==> run.events[4].public_message == "tool result rejected"@,
        error is ToolOutputTooLarge ==> run.events[4].public_message
            == "tool result exceeded output size limits"@,
        error is ToolOutputRender ==> run.events[4].public_message
            == "tool output rendering failed"@,
        error is Artifact ==> run.events[4].public_message == "artifact spillover failed"@,
{
}

/// A cancellation moves a waiting or running job to its end at the given time, tells first of
/// the wish and then of the end, and changes no other job.
pub proof fn law_cancellations_tell_both_steps(
    before: StoreModel,
    now: StoreModel,
    job: JobRecordModel,
    reason: Seq<char>,
    at: LedgerTimestamp,
    receipt: CancelJobReceiptModel,
)
    requires
        before.job(job.id) == Some(job),
        job_lifecycle::cancels(before, now, job, reason, at, receipt),
    ensures
        job.status is Queued || job.status is Running,
        receipt.job.id == job.id,
        receipt.job.status is Canceled,
        receipt.job.cancellation_state is Requested,
        receipt.job.updated_at == at,
        receipt.job.completed_at == (if job.completed_at is Some {
            job.completed_at
        } else {
            Some(at)
        }),
        receipt.job.started_at == job.started_at,
        receipt.job.requester == job.requester,
        receipt.job.repository_id == job.repository_id,
        receipt.job.goal == job.goal,
        receipt.job.kind == job.kind,
        receipt.job.created_at == job.created_at,
        receipt.job.policy_summary == job.policy_summary,
        receipt.events.len() == 2,
        receipt.job.latest_event_id == Some(receipt.events[1].id),
        says(
            receipt.events[0],
            EventSubjectType::Job,
            job.id,
            JobEventKindModel::CancellationRequested,
            EventSeverity::Warning,
            reason,
        ),
        refers_to(receipt.events[0], job, None, None, None, None),
        says(
            receipt.events[1],
            EventSubjectType::Job,
            job.id,
            JobEventKindModel::JobStatusChanged { from: job.status, to: JobStatus::Canceled },
            EventSeverity::Warning,
            "job cancelled"@,
        ),
        refers_to(receipt.events[1], job, None, None, None, None),
        now.events == before.events.push(receipt.events[0]).push(receipt.events[1]),
        now.repositories == before.repositories,
        now.policy_decisions == before.policy_decisions,
        now.lock_decisions == before.lock_decisions,
        now.tool_invocations == before.tool_invocations,
        now.tool_results == before.tool_results,
        now.audit_records == before.audit_records,
        now.jobs.len() == before.jobs.len(),
{
    crate::table::lemma_index_of::<crate::domain::JobRecord>(before.jobs, job.id);
    assert(receipt.events =~= seq![receipt.events[0], receipt.events[1]]);
    assert(now.events =~= before.events.push(receipt.events[0]).push(receipt.events[1]));
}

/// A job is left alone exactly where it has ended: it is neither waiting nor running.
pub proof fn law_ended_jobs_are_not_cancelled(
    before: StoreModel,
    now: StoreModel,
    id: Seq<char>,
    reason: Seq<char>,
    at: LedgerTimestamp,
    outcome: Result<CancelJobReceiptModel, RuntimeErrorModel>,
)
    requires
        before.job(id) is Some,
        job_lifecycle::cancel_outcome(before, now, id, reason, at, outcome, true),
        !(before.job(id)->0.status is Queued || before.job(id)->0.status is Running),
    ensures
        now == before,
        outcome is Err,
        outcome->Err_0 is Store,
        outcome->Err_0->Store_0 is Conflict,
{
}

/// A job that waits or runs is cancelled, at any time that is not before its own, by a store
/// that has two numbers left; only an identifier that was drawn twice can prevent it.
pub proof fn law_unended_jobs_are_cancelled(
    before: StoreModel,
    now: StoreModel,
    id: Seq<char>,
    reason: Seq<char>,
    at: LedgerTimestamp,
    outcome: Result<CancelJobReceiptModel, RuntimeErrorModel>,
)
    requires
        before.valid(),
        before.last_sequence + 2 <= u64::MAX,
        crate::ids::is_id_text("job_"@, id),
        before.job(id) is Some,
        before.job(id)->0.status is Queued || before.job(id)->0.status is Running,
        before.job(id)->0.latest_time().unix_millis <= at.unix_millis,
        job_lifecycle::cancel_outcome(before, now, id, reason, at, outcome, true),
    ensures
        outcome is Err ==> outcome->Err_0 is Store && outcome->Err_0->Store_0 is DuplicateId,
        outcome matches Ok(receipt) ==> receipt.job.status is Canceled,
{
    crate::failure_laws::law_cancellations_fail_for_a_reason(before, now, id, reason, at, outcome);
}

/// A job that is not there cannot be cancelled; that it is not there is told.
pub proof fn law_unknown_jobs_are_not_cancelled(
    before: StoreModel,
    now: StoreModel,
    id: Seq<char>,
    reason: Seq<char>,
    at: LedgerTimestamp,
    outcome: Result<CancelJobReceiptModel, RuntimeErrorModel>,
)
    requires
        before.job(id) is None,
        job_lifecycle::cancel_outcome(before, now, id, reason, at, outcome, true),
    ensures
        now == before,
        outcome is Err,
        outcome->Err_0 is Store,
        outcome->Err_0->Store_0 is NotFound,
{
}

} // verus!

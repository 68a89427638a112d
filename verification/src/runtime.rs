//! Runs tools as jobs: every run is decided by policy first, and the ledger of the store
//! tells each of its steps.
use vstd::prelude::*;

use crate::capabilities::required_capability;
use crate::domain::{
    AuditRecord, AuditRecordModel, EventSeverity, JobEventModel, JobRecordModel, JobStatus,
    LedgerTimestamp, PolicyDecision, PolicyDecisionModel, PolicyOutcome, RepositoryTrustState,
    ResolvedPath, ResolvedPathModel, ToolInvocation, ToolInvocationModel,
    ToolResult, ToolResultModel,
};
use crate::ids::{AuditRecordId, RepositoryId, ToolInvocationId};
use crate::job_run;
use crate::job_run::{
    refs_for_audit, refs_for_policy, terminal_status, JobRun, JobRunModel, Told,
};
use crate::output_handling;
use crate::output_handling::{handle_tool_result, render, HandlingFailure};
use crate::policy::{
    DefaultPolicyEngine, PolicyEngine, PolicyInput, PolicyInputModel, DEFAULT_POLICY_VERSION,
};
use crate::record::Record;
use crate::requests::{
    RuntimeError, RuntimeErrorModel, RuntimeHost, RuntimeJobReceipt, RuntimeJobReceiptModel,
    RuntimeJobRequest, RuntimeJobRequestModel, RuntimeResult, RuntimeTool, RUNTIME_SCHEMA_VERSION,
};
use crate::store::{InMemoryStore, SecretaryStore, StoreErrorModel};
use crate::store_model::StoreModel;
use crate::tool_output::RenderedToolOutputModel;

verus! {

/// The tool gave this as its identifier.
pub open spec fn has_tool_id<T: RuntimeTool>(tool: &T, id: Seq<char>) -> bool {
    exists|a: &'static str| #[trigger] call_ensures(T::tool_id, (tool,), a) && a@ == id
}

/// The tool gave this as the capability that it requires.
pub open spec fn asks_for<T: RuntimeTool>(tool: &T, capability: Seq<char>) -> bool {
    exists|a: &'static str| #[trigger]
        call_ensures(T::requested_capability, (tool,), a) && a@ == capability
}

/// The tool declared this effect.
pub open spec fn declares<T: RuntimeTool>(tool: &T, effect: Seq<char>) -> bool {
    exists|a: &'static str| #[trigger] call_ensures(T::declared_effect, (tool,), a) && a@ == effect
}

/// The tool put its arguments in these words.
pub open spec fn summarizes<T: RuntimeTool>(
    tool: &T,
    request: RuntimeJobRequestModel,
    summary: Seq<char>,
) -> bool {
    exists|q: RuntimeJobRequest, a: String| #[trigger]
        call_ensures(T::args_summary, (tool, &q), a) && q@ == request && a@ == summary
}

/// The tool resolved the paths that it will touch to these.
pub open spec fn resolves<T: RuntimeTool>(
    tool: &T,
    request: RuntimeJobRequestModel,
    paths: Seq<ResolvedPathModel>,
) -> bool {
    exists|q: RuntimeJobRequest, a: Vec<ResolvedPath>| #[trigger]
        call_ensures(T::resolved_paths, (tool, &q), a) && q@ == request && a.deep_view() == paths
}

/// The tool, invoked for the request, gave this result.
pub open spec fn results_in<T: RuntimeTool>(
    tool: &T,
    invocation: ToolInvocationModel,
    request: RuntimeJobRequestModel,
    result: ToolResultModel,
) -> bool {
    exists|i: ToolInvocation, q: RuntimeJobRequest, a: ToolResult| #[trigger]
        call_ensures(T::execute, (tool, &i, &q), a) && i@ == invocation && q@ == request && a@
            == result
}

/// The engine, asked about an action, decided this.
pub open spec fn decides<P: PolicyEngine>(
    engine: &P,
    input: PolicyInputModel,
    decision: PolicyDecisionModel,
) -> bool {
    exists|i: PolicyInput, a: PolicyDecision| #[trigger]
        call_ensures(P::evaluate, (engine, i), a) && i@ == input && a@ == decision
}

/// What a policy is asked about a request for a tool.
pub open spec fn policy_input(
    request: RuntimeJobRequestModel,
    capability: Seq<char>,
    effect: Seq<char>,
    trust: RepositoryTrustState,
    tool_id: Seq<char>,
) -> PolicyInputModel {
    PolicyInputModel {
        requester: request.requester,
        repository_id: request.repository_id,
        requested_capability: capability,
        resource_scope: request.resource_scope,
        tool_id: Some(tool_id),
        provider_id: None,
        declared_effect: effect,
        current_trust_state: trust,
        approval_available: request.approval_available,
        policy_version: DEFAULT_POLICY_VERSION@,
        registered_scope: true,
        broad_or_unbounded: false,
    }
}

/// Apart from its progress, the record is that of a job new for the request.
pub open spec fn is_job_for(job: JobRecordModel, request: RuntimeJobRequestModel) -> bool {
    job_run::is_new_job(
        JobRecordModel {
            updated_at: job.created_at,
            started_at: None,
            completed_at: None,
            status: JobStatus::Queued,
            policy_summary: None,
            ..job
        },
        request,
    )
}

/// The run is one of a job for the request, and its ledger starts with the submission.
pub open spec fn opened(run: JobRunModel, request: RuntimeJobRequestModel) -> bool {
    &&& run.events.len() >= 1
    &&& is_job_for(run.job, request)
    &&& run.job.latest_event_id == Some(run.events.last().id)
    &&& job_run::tells(run.events[0], job_run::submission(run.job))
}

/// A capability was asked for that the request allows, and the policy decided this.
pub open spec fn decided_for<T: RuntimeTool, P: PolicyEngine>(
    before: StoreModel,
    request: RuntimeJobRequestModel,
    tool: &T,
    engine: &P,
    capability: Seq<char>,
    decision: PolicyDecisionModel,
) -> bool {
    &&& enforces(tool, request, capability)
    &&& before.repository(request.repository_id) is Some
    &&& exists|effect: Seq<char>, tool_id: Seq<char>|
        {
            &&& #[trigger] declares(tool, effect)
            &&& #[trigger] has_tool_id(tool, tool_id)
            &&& decides(
                engine,
                policy_input(
                    request,
                    capability,
                    effect,
                    before.repository(request.repository_id)->0.trust_state,
                    tool_id,
                ),
                decision,
            )
        }
}

/// The policy has decided on the job of the run.
pub open spec fn judged<T: RuntimeTool, P: PolicyEngine>(
    run: JobRunModel,
    before: StoreModel,
    request: RuntimeJobRequestModel,
    tool: &T,
    engine: &P,
    capability: Seq<char>,
) -> bool {
    &&& opened(run, request)
    &&& run.events.len() >= 2
    &&& run.policy_decision is Some
    &&& crate::ids::is_id_text("pol_"@, run.policy_decision->0.id)
    &&& run.job.policy_summary == Some(job_run::summary_of(run.policy_decision->0))
    &&& job_run::tells(run.events[1], job_run::decided(run.job, run.policy_decision->0))
    &&& decided_for(before, request, tool, engine, capability, run.policy_decision->0)
}

/// The tool requires a capability that is enforced by this name, and the request does not
/// contradict it.
pub open spec fn enforces<T: RuntimeTool>(
    tool: &T,
    request: RuntimeJobRequestModel,
    capability: Seq<char>,
) -> bool {
    exists|named: Seq<char>| #[trigger]
        asks_for(tool, named) && crate::capabilities::required(
            named,
            request.requested_capabilities,
        ) == Ok::<Seq<char>, RuntimeErrorModel>(capability)
}

/// The policy lets a tool run.
pub open spec fn lets_run(decision: PolicyDecisionModel) -> bool {
    decision.outcome is Allowed || decision.outcome is Audited
}

/// What tells of a job that is stopped by the policy.
pub open spec fn stop_told(run: JobRunModel) -> Told {
    job_run::moved(
        run.job,
        JobStatus::Queued,
        JobStatus::Blocked,
        EventSeverity::Warning,
        "job stopped before tool execution"@,
        job_run::policy_refs(run.job, run.policy_decision->0),
    )
}

/// What tells of a job that is set running.
pub open spec fn start_told(run: JobRunModel) -> Told {
    job_run::moved(
        run.job,
        JobStatus::Queued,
        JobStatus::Running,
        EventSeverity::Info,
        "job running"@,
        job_run::policy_refs(run.job, run.policy_decision->0),
    )
}

/// What tells of a job that comes to its end.
pub open spec fn end_told(run: JobRunModel) -> Told {
    job_run::moved(
        run.job,
        JobStatus::Running,
        job_run::final_status(run.tool_result->0.status),
        EventSeverity::Info,
        "job completed"@,
        job_run::audit_refs(
            run.job,
            run.policy_decision->0,
            run.tool_invocation->0,
            run.tool_result->0,
            run.audit_record->0,
        ),
    )
}

/// What tells of a job that fails after its tool was invoked.
pub open spec fn failure_told(run: JobRunModel, from: JobStatus, message: Seq<char>) -> Told {
    job_run::moved(
        run.job,
        from,
        JobStatus::Failed,
        EventSeverity::Error,
        message,
        job_run::invocation_refs(run.job, run.policy_decision->0, run.tool_invocation->0),
    )
}

/// The policy did not let the tool run, and the job was stopped before it could.
pub open spec fn stopped(run: JobRunModel) -> bool {
    &&& run.events.len() == 3
    &&& !lets_run(run.policy_decision->0)
    &&& run.job.status == JobStatus::Blocked
    &&& job_run::just_ended(run.job)
    &&& run.job.started_at is None
    &&& job_run::tells(run.events[2], stop_told(run))
    &&& run.tool_invocation is None
    &&& run.tool_result is None
    &&& run.audit_record is None
}

/// The invocation of a tool by the run.
pub open spec fn is_invocation_for<T: RuntimeTool>(
    invocation: ToolInvocationModel,
    run: JobRunModel,
    request: RuntimeJobRequestModel,
    tool: &T,
    capability: Seq<char>,
) -> bool {
    &&& crate::ids::is_id_text("tool_"@, invocation.id)
    &&& invocation.created_at.unix_millis >= 0
    &&& invocation == (ToolInvocationModel {
        id: invocation.id,
        schema_version: RUNTIME_SCHEMA_VERSION,
        created_at: invocation.created_at,
        job_id: run.job.id,
        repository_id: request.repository_id,
        policy_decision_id: run.policy_decision->0.id,
        actor: request.requester,
        tool_id: invocation.tool_id,
        requested_capability: capability,
        args_summary: invocation.args_summary,
        resolved_paths: invocation.resolved_paths,
        timeout_millis: None,
        redactions: Seq::empty(),
    })
    &&& has_tool_id(tool, invocation.tool_id)
    &&& summarizes(tool, request, invocation.args_summary)
    &&& resolves(tool, request, invocation.resolved_paths)
}

/// The policy let the tool run, the job was running, and the tool was invoked.
pub open spec fn working<T: RuntimeTool>(
    run: JobRunModel,
    request: RuntimeJobRequestModel,
    tool: &T,
    capability: Seq<char>,
) -> bool {
    &&& run.events.len() >= 4
    &&& lets_run(run.policy_decision->0)
    &&& job_run::was_started(run.job)
    &&& job_run::tells(run.events[2], start_told(run))
    &&& run.tool_invocation is Some
    &&& is_invocation_for(run.tool_invocation->0, run, request, tool, capability)
    &&& job_run::tells(
        run.events[3],
        job_run::invoked(run.job, run.policy_decision->0, run.tool_invocation->0),
    )
}

/// The job failed on what came of its tool.
pub open spec fn failed(run: JobRunModel, error: RuntimeErrorModel) -> bool {
    &&& run.events.len() == 5
    &&& run.job.status == JobStatus::Failed
    &&& job_run::just_ended(run.job)
    &&& job_run::tells(
        run.events[4],
        failure_told(run, JobStatus::Running, output_handling::failure_message(error)),
    )
    &&& run.tool_result is None
    &&& run.audit_record is None
}

/// The audit record on what came of a run.
pub open spec fn is_audit_for(
    audit: AuditRecordModel,
    run: JobRunModel,
    request: RuntimeJobRequestModel,
    capability: Seq<char>,
) -> bool {
    let invocation = run.tool_invocation->0;
    let result = run.tool_result->0;
    &&& crate::ids::is_id_text("aud_"@, audit.id)
    &&& audit.created_at.unix_millis >= 0
    &&& audit == (AuditRecordModel {
        id: audit.id,
        schema_version: RUNTIME_SCHEMA_VERSION,
        created_at: audit.created_at,
        actor: request.requester,
        repository_id: request.repository_id,
        requested_capability: capability,
        policy_decision_id: run.policy_decision->0.id,
        tool_invocation_id: Some(invocation.id),
        effect_summary: invocation.tool_id + " completed with "@ + result.status.shown(),
        output_refs: result.output_refs,
        redactions: result.redactions,
    })
}

/// The result and the audit record were stored.
pub open spec fn concluded(
    run: JobRunModel,
    request: RuntimeJobRequestModel,
    capability: Seq<char>,
) -> bool {
    let decision = run.policy_decision->0;
    let invocation = run.tool_invocation->0;
    let result = run.tool_result->0;
    let audit = run.audit_record->0;
    &&& run.events.len() >= 6
    &&& run.tool_result is Some
    &&& crate::ids::is_id_text("res_"@, run.tool_result->0.id)
    &&& run.audit_record is Some
    &&& is_audit_for(audit, run, request, capability)
    &&& job_run::tells(
        run.events[4],
        job_run::result_told(run.job, decision, invocation, result),
    )
    &&& job_run::tells(
        run.events[5],
        job_run::audit_told(run.job, decision, invocation, result, audit),
    )
}

/// The result and the audit record were stored, and the job came to its end.
pub open spec fn finished(
    run: JobRunModel,
    request: RuntimeJobRequestModel,
    capability: Seq<char>,
) -> bool {
    &&& concluded(run, request, capability)
    &&& run.events.len() >= 7
    &&& run.job.status == job_run::final_status(run.tool_result->0.status)
    &&& run.events.len() == 7 ==> job_run::just_ended(run.job)
    &&& run.job.completed_at is Some
    &&& run.job.started_at is Some
    &&& run.job.started_at->0.unix_millis <= run.job.completed_at->0.unix_millis
        <= run.job.updated_at.unix_millis
    &&& job_run::tells(run.events[6], end_told(run))
}

/// What was stored and rendered is what the host made of a result that the tool gave.
pub open spec fn delivered<T: RuntimeTool, H: RuntimeHost>(
    run: JobRunModel,
    request: RuntimeJobRequestModel,
    tool: &T,
    host: &H,
    rendered: Result<RenderedToolOutputModel, RuntimeErrorModel>,
) -> bool {
    exists|raw: ToolResultModel, first: RenderedToolOutputModel, changed: bool|
        {
            &&& results_in(tool, run.tool_invocation->0, request, raw)
            &&& #[trigger] output_handling::handled(
                host,
                request,
                run.tool_invocation->0,
                raw,
                run.tool_result->0,
                first,
                changed,
            )
            &&& match rendered {
                Ok(output) => if changed {
                    output_handling::renderer_answers(
                        host,
                        run.tool_result->0,
                        output_handling::render_policy_of(request),
                        Ok(output),
                    )
                } else {
                    output == first
                },
                Err(error) => {
                    &&& changed
                    &&& error is ToolOutputRender
                    &&& output_handling::renderer_answers(
                        host,
                        run.tool_result->0,
                        output_handling::render_policy_of(request),
                        Err(error->ToolOutputRender_0),
                    )
                },
            }
        }
}

/// The host could not handle a result that the tool gave.
pub open spec fn undelivered<T: RuntimeTool, H: RuntimeHost>(
    run: JobRunModel,
    request: RuntimeJobRequestModel,
    tool: &T,
    host: &H,
    error: RuntimeErrorModel,
) -> bool {
    exists|raw: ToolResultModel|
        {
            &&& #[trigger] results_in(tool, run.tool_invocation->0, request, raw)
            &&& output_handling::handling_failed(
                host,
                request,
                run.tool_invocation->0,
                raw,
                error,
            )
        }
}

/// The run has no result of a tool yet.
pub open spec fn without_result(run: JobRunModel) -> bool {
    run.tool_result is None && run.audit_record is None
}

/// The store refused the policy's decision on a job, or the job with it.
pub open spec fn decision_refused<T: RuntimeTool, P: PolicyEngine>(
    run: JobRunModel,
    before: StoreModel,
    now: StoreModel,
    request: RuntimeJobRequestModel,
    tool: &T,
    engine: &P,
    error: RuntimeErrorModel,
    reliable: bool,
) -> bool {
    &&& run.events.len() == 1
    &&& job_run::waits(run.job)
    &&& run.tool_invocation is None
    &&& without_result(run)
    &&& error is Store
    &&& exists|capability: Seq<char>, decision: PolicyDecisionModel|
        {
            &&& #[trigger] decided_for(before, request, tool, engine, capability, decision)
            &&& {
                ||| {
                    &&& run.policy_decision is None
                    &&& reliable ==> now.create_policy_decision(decision) == Err::<
                        (StoreModel, ()),
                        StoreErrorModel,
                    >(error->Store_0)
                }
                ||| {
                    &&& run.policy_decision == Some(decision)
                    &&& crate::ids::is_id_text("pol_"@, decision.id)
                    &&& reliable ==> job_run::update_refused(
                        now,
                        JobRecordModel {
                            policy_summary: Some(job_run::summary_of(decision)),
                            ..run.job
                        },
                        job_run::decided(run.job, decision),
                        error,
                    )
                }
            }
        }
}

/// A job that the policy does not let run could not be stopped.
pub open spec fn stop_refused(
    run: JobRunModel,
    now: StoreModel,
    error: RuntimeErrorModel,
    reliable: bool,
) -> bool {
    &&& !lets_run(run.policy_decision->0)
    &&& run.events.len() == 2
    &&& job_run::waits(run.job)
    &&& run.tool_invocation is None
    &&& without_result(run)
    &&& job_run::move_refused(now, run.job, JobStatus::Blocked, stop_told(run), error, reliable)
}

/// A job that the policy lets run could not be set running, or its tool not be invoked.
pub open spec fn start_refused<T: RuntimeTool>(
    run: JobRunModel,
    now: StoreModel,
    request: RuntimeJobRequestModel,
    tool: &T,
    capability: Seq<char>,
    error: RuntimeErrorModel,
    reliable: bool,
) -> bool {
    &&& lets_run(run.policy_decision->0)
    &&& without_result(run)
    &&& {
        ||| {
            &&& run.events.len() == 2
            &&& job_run::waits(run.job)
            &&& run.tool_invocation is None
            &&& job_run::move_refused(
                now,
                run.job,
                JobStatus::Running,
                start_told(run),
                error,
                reliable,
            )
        }
        ||| {
            &&& run.events.len() == 3
            &&& job_run::runs(run.job)
            &&& job_run::tells(run.events[2], start_told(run))
            &&& error is Store
            &&& exists|invocation: ToolInvocationModel|
                {
                    &&& #[trigger] is_invocation_for(invocation, run, request, tool, capability)
                    &&& {
                        ||| {
                            &&& run.tool_invocation is None
                            &&& reliable ==> now.create_tool_invocation(invocation) == Err::<
                                (StoreModel, ()),
                                StoreErrorModel,
                            >(error->Store_0)
                        }
                        ||| {
                            &&& run.tool_invocation == Some(invocation)
                            &&& reliable ==> job_run::update_refused(
                                now,
                                run.job,
                                job_run::invoked(run.job, run.policy_decision->0, invocation),
                                error,
                            )
                        }
                    }
                }
        }
    }
}

/// The result of a tool could not be stored with an audit record on it, or the job could not
/// be brought to its end.
pub open spec fn finish_refused(
    run: JobRunModel,
    now: StoreModel,
    request: RuntimeJobRequestModel,
    capability: Seq<char>,
    result: ToolResultModel,
    error: RuntimeErrorModel,
    reliable: bool,
) -> bool {
    &&& job_run::runs(run.job)
    &&& crate::ids::is_id_text("res_"@, result.id)
    &&& {
        ||| {
            &&& run.events.len() == 4
            &&& without_result(run)
            &&& error is Store
            &&& exists|audit: AuditRecordModel|
                {
                    &&& #[trigger] is_audit_for(
                        audit,
                        JobRunModel { tool_result: Some(result), ..run },
                        request,
                        capability,
                    )
                    &&& reliable ==> job_run::conclusion_refused(now, run, result, audit, error)
                }
        }
        ||| {
            &&& run.events.len() == 6
            &&& run.tool_result == Some(result)
            &&& concluded(run, request, capability)
            &&& job_run::move_refused(
                now,
                run.job,
                job_run::final_status(result.status),
                end_told(run),
                error,
                reliable,
            )
        }
    }
}

/// The result of a tool was handled, but could not be stored.
pub open spec fn delivery_refused<T: RuntimeTool, H: RuntimeHost>(
    run: JobRunModel,
    now: StoreModel,
    request: RuntimeJobRequestModel,
    tool: &T,
    host: &H,
    capability: Seq<char>,
    error: RuntimeErrorModel,
    reliable: bool,
) -> bool {
    exists|
        raw: ToolResultModel,
        settled: ToolResultModel,
        first: RenderedToolOutputModel,
        changed: bool,
    |
        {
            &&& results_in(tool, run.tool_invocation->0, request, raw)
            &&& #[trigger] output_handling::handled(
                host,
                request,
                run.tool_invocation->0,
                raw,
                settled,
                first,
                changed,
            )
            &&& finish_refused(run, now, request, capability, settled, error, reliable)
        }
}

/// The job could not be marked failed for a result of its tool that cannot be handled.
pub open spec fn failing_refused<T: RuntimeTool, H: RuntimeHost>(
    run: JobRunModel,
    now: StoreModel,
    request: RuntimeJobRequestModel,
    tool: &T,
    host: &H,
    error: RuntimeErrorModel,
    reliable: bool,
) -> bool {
    &&& run.events.len() == 4
    &&& job_run::runs(run.job)
    &&& without_result(run)
    &&& exists|problem: RuntimeErrorModel|
        {
            &&& #[trigger] undelivered(run, request, tool, host, problem)
            &&& job_run::move_refused(
                now,
                run.job,
                JobStatus::Failed,
                failure_told(
                    run,
                    JobStatus::Running,
                    output_handling::failure_message(problem),
                ),
                error,
                reliable,
            )
        }
}

/// The result that was stored could not be rendered again. A job that has failed is marked so
/// once more; any other has come to another end, and cannot be.
pub open spec fn not_rendered_again<T: RuntimeTool, H: RuntimeHost>(
    run: JobRunModel,
    now: StoreModel,
    request: RuntimeJobRequestModel,
    tool: &T,
    host: &H,
    error: RuntimeErrorModel,
    reliable: bool,
) -> bool {
    let message = "tool output rendering failed"@;
    ||| {
        &&& run.events.len() == 8
        &&& run.job.status == JobStatus::Failed
        &&& job_run::tells(run.events[7], failure_told(run, JobStatus::Failed, message))
        &&& delivered(run, request, tool, host, Err(error))
    }
    ||| {
        &&& run.events.len() == 7
        &&& exists|problem: RuntimeErrorModel|
            {
                &&& #[trigger] delivered(run, request, tool, host, Err(problem))
                &&& job_run::move_refused(
                    now,
                    run.job,
                    JobStatus::Failed,
                    failure_told(run, run.job.status, message),
                    error,
                    reliable,
                )
            }
    }
}

/// The run of a receipt.
pub open spec fn run_of(receipt: RuntimeJobReceiptModel) -> JobRunModel {
    JobRunModel {
        job: receipt.job,
        events: receipt.events,
        policy_decision: Some(receipt.policy_decision),
        tool_invocation: receipt.tool_invocation,
        tool_result: receipt.tool_result,
        audit_record: receipt.audit_record,
    }
}

/// A receipt tells of a run that the policy stopped, or of one that came to its end.
pub open spec fn receipt_fits<T: RuntimeTool, P: PolicyEngine, H: RuntimeHost>(
    receipt: RuntimeJobReceiptModel,
    before: StoreModel,
    request: RuntimeJobRequestModel,
    tool: &T,
    engine: &P,
    host: &H,
) -> bool {
    let run = run_of(receipt);
    exists|capability: Seq<char>|
        {
            &&& #[trigger] judged(run, before, request, tool, engine, capability)
            &&& if lets_run(receipt.policy_decision) {
                &&& working(run, request, tool, capability)
                &&& finished(run, request, capability)
                &&& run.events.len() == 7
                &&& receipt.rendered_output is Some
                &&& delivered(run, request, tool, host, Ok(receipt.rendered_output->0))
            } else {
                stopped(run) && receipt.rendered_output is None
            }
        }
}

/// A request was turned down before anything was stored.
pub open spec fn turned_down<T: RuntimeTool>(
    store: StoreModel,
    request: RuntimeJobRequestModel,
    tool: &T,
    error: RuntimeErrorModel,
    reliable: bool,
) -> bool {
    ||| exists|named: Seq<char>| #[trigger]
        asks_for(tool, named) && crate::capabilities::required(
            named,
            request.requested_capabilities,
        ) == Err::<Seq<char>, RuntimeErrorModel>(error)
    ||| {
        &&& exists|capability: Seq<char>| #[trigger] enforces(tool, request, capability)
        &&& error is Store
        &&& reliable ==> match store.repository(request.repository_id) {
            None => error->Store_0 == (StoreErrorModel::NotFound {
                collection: "repositories"@,
                id: RepositoryId::debug_form(request.repository_id),
            }),
            Some(_) => job_run::submission_refused(store, request, error),
        }
    }
}

/// A run broke off: a step could not be made, or the job failed on what came of its tool.
pub open spec fn broke_off<T: RuntimeTool, P: PolicyEngine, H: RuntimeHost>(
    run: JobRunModel,
    before: StoreModel,
    now: StoreModel,
    request: RuntimeJobRequestModel,
    tool: &T,
    engine: &P,
    host: &H,
    error: RuntimeErrorModel,
    reliable: bool,
) -> bool {
    &&& opened(run, request)
    &&& {
        ||| decision_refused(run, before, now, request, tool, engine, error, reliable)
        ||| exists|capability: Seq<char>|
            {
                &&& #[trigger] judged(run, before, request, tool, engine, capability)
                &&& {
                    ||| stop_refused(run, now, error, reliable)
                    ||| start_refused(run, now, request, tool, capability, error, reliable)
                    ||| {
                        &&& working(run, request, tool, capability)
                        &&& {
                            ||| failed(run, error) && undelivered(run, request, tool, host, error)
                            ||| failing_refused(run, now, request, tool, host, error, reliable)
                            ||| delivery_refused(
                                run,
                                now,
                                request,
                                tool,
                                host,
                                capability,
                                error,
                                reliable,
                            )
                            ||| {
                                &&& finished(run, request, capability)
                                &&& not_rendered_again(
                                    run,
                                    now,
                                    request,
                                    tool,
                                    host,
                                    error,
                                    reliable,
                                )
                            }
                        }
                    }
                }
            }
    }
}

/// What running a tool as a job leads to. A receipt tells of everything that was written.
/// Without one, either the request was turned down and nothing was written, or a run broke
/// off. Nothing else in the store changes.
pub open spec fn ran<T: RuntimeTool, P: PolicyEngine, H: RuntimeHost>(
    before: StoreModel,
    now: StoreModel,
    request: RuntimeJobRequestModel,
    tool: &T,
    engine: &P,
    host: &H,
    outcome: Result<RuntimeJobReceiptModel, RuntimeErrorModel>,
    reliable: bool,
) -> bool {
    match outcome {
        Ok(receipt) => {
            &&& run_of(receipt).leads(before, now)
            &&& receipt_fits(receipt, before, request, tool, engine, host)
        },
        Err(error) => {
            ||| now == before && turned_down(before, request, tool, error, reliable)
            ||| exists|run: JobRunModel|
                {
                    &&& #[trigger] run.leads(before, now)
                    &&& broke_off(
                        run,
                        before,
                        now,
                        request,
                        tool,
                        engine,
                        host,
                        error,
                        reliable,
                    )
                }
        },
    }
}

/// Runs tools as jobs on a store, under a policy.
pub struct SecretaryRuntime<S = InMemoryStore, P = DefaultPolicyEngine> {
    pub store: S,
    pub policy_engine: P,
}

impl SecretaryRuntime<InMemoryStore, DefaultPolicyEngine> {
    pub fn in_memory() -> (r: Self)
        ensures
            r.store@ == StoreModel::empty(0),
            r.policy_engine == DefaultPolicyEngine,
    {
        SecretaryRuntime {
            store: InMemoryStore::new(),
            policy_engine: DefaultPolicyEngine::new(),
        }
    }
}

impl<S: SecretaryStore, P: PolicyEngine> SecretaryRuntime<S, P> {
    pub fn new(store: S, policy_engine: P) -> (r: Self)
        ensures
            r == (SecretaryRuntime { store, policy_engine }),
    {
        SecretaryRuntime { store, policy_engine }
    }

    pub fn store(&self) -> (r: &S)
        ensures
            *r == self.store,
    {
        &self.store
    }

    /// Submit a job for the request and have the policy decide on it. Gives the run and the
    /// capability that is enforced.
    fn open_run<T: RuntimeTool>(&mut self, request: &RuntimeJobRequest, tool: &T) -> (r: Result<
        (JobRun, String),
        (Option<JobRun>, RuntimeError),
    >)
        ensures
            final(self).policy_engine == old(self).policy_engine,
            final(self).store.reliable() == old(self).store.reliable(),
            old(self).store.state().valid() ==> final(self).store.state().valid(),
            match r {
                Ok((run, capability)) => {
                    &&& run.began@ == old(self).store.state()
                    &&& run.keeps(final(self).store.state())
                    &&& run@.events.len() == 2
                    &&& job_run::waits(run@.job)
                    &&& run@.tool_invocation is None
                    &&& run@.tool_result is None
                    &&& run@.audit_record is None
                    &&& judged(
                        run@,
                        old(self).store.state(),
                        request@,
                        tool,
                        &old(self).policy_engine,
                        capability@,
                    )
                },
                Err((Some(run), error)) => {
                    &&& run.began@ == old(self).store.state()
                    &&& run.keeps(final(self).store.state())
                    &&& opened(run@, request@)
                    &&& decision_refused(
                        run@,
                        old(self).store.state(),
                        final(self).store.state(),
                        request@,
                        tool,
                        &old(self).policy_engine,
                        error@,
                        old(self).store.reliable(),
                    )
                },
                Err((None, error)) => {
                    &&& final(self).store.state() == old(self).store.state()
                    &&& turned_down(
                        old(self).store.state(),
                        request@,
                        tool,
                        error@,
                        old(self).store.reliable(),
                    )
                },
            },
    {
        let ghost before = self.store.state();
        let named = tool.requested_capability();
        let capability = match required_capability(named, &request.requested_capabilities) {
            Ok(capability) => capability,
            Err(error) => {
                assert(asks_for(tool, named@));
                return Err((None, error));
            },
        };
        assert(asks_for(tool, named@));
        assert(enforces(tool, request@, capability@));
        let repository = match self.store.get_repository(&request.repository_id) {
            Ok(repository) => repository,
            Err(error) => {
                return Err((None, RuntimeError::Store(error)));
            },
        };
        let mut run = match JobRun::submit(&mut self.store, request) {
            Ok(run) => run,
            Err(error) => {
                return Err((None, error));
            },
        };
        let ghost submitted = run@;
        let declared_effect = tool.declared_effect();
        let tool_id = tool.tool_id();
        let input = PolicyInput::new(
            request.requester.clone(),
            request.repository_id.clone(),
            capability.clone(),
            request.resource_scope.clone(),
            declared_effect.to_owned(),
            repository.trust_state,
            request.approval_available,
            DEFAULT_POLICY_VERSION.to_owned(),
        ).with_tool_id(tool_id.to_owned());
        let decision = self.policy_engine.evaluate(input);
        assert(decides(&self.policy_engine, input@, decision@));
        assert(declares(tool, declared_effect@) && has_tool_id(tool, tool_id@));
        assert(decided_for(
            before,
            request@,
            tool,
            &self.policy_engine,
            capability@,
            decision@,
        ));
        match run.decide(&mut self.store, decision) {
            Ok(_) => {},
            Err(error) => {
                return Err((Some(run), error));
            },
        }
        assert(run@.events[0] == submitted.events[0]);
        Ok((run, capability))
    }

    /// Set a job running that the policy lets run, and invoke its tool.
    fn start_work<T: RuntimeTool>(
        &mut self,
        run: &mut JobRun,
        request: &RuntimeJobRequest,
        tool: &T,
        capability: &str,
        Ghost(before): Ghost<StoreModel>,
    ) -> (r: RuntimeResult<()>)
        requires
            old(run).keeps(old(self).store.state()),
            old(run)@.events.len() == 2,
            job_run::waits(old(run)@.job),
            old(run)@.tool_invocation is None,
            without_result(old(run)@),
            judged(
                old(run)@,
                before,
                request@,
                tool,
                &old(self).policy_engine,
                capability@,
            ),
            lets_run(old(run)@.policy_decision->0),
        ensures
            final(self).policy_engine == old(self).policy_engine,
            final(self).store.reliable() == old(self).store.reliable(),
            old(self).store.state().valid() ==> final(self).store.state().valid(),
            final(run).began == old(run).began,
            final(run).keeps(final(self).store.state()),
            match r {
                Ok(_) => {
                    &&& final(run)@.events.len() == 4
                    &&& job_run::runs(final(run)@.job)
                    &&& final(run)@.tool_result == old(run)@.tool_result
                    &&& final(run)@.audit_record == old(run)@.audit_record
                    &&& judged(
                        final(run)@,
                        before,
                        request@,
                        tool,
                        &old(self).policy_engine,
                        capability@,
                    )
                    &&& working(final(run)@, request@, tool, capability@)
                },
                Err(error) => {
                    &&& judged(
                        final(run)@,
                        before,
                        request@,
                        tool,
                        &old(self).policy_engine,
                        capability@,
                    )
                    &&& start_refused(
                        final(run)@,
                        final(self).store.state(),
                        request@,
                        tool,
                        capability@,
                        error@,
                        old(self).store.reliable(),
                    )
                },
            },
    {
        let ghost started = run@;
        let refs = refs_for_policy(&run.job, run.policy_decision.as_ref().unwrap());
        run.move_to(
            &mut self.store,
            JobStatus::Running,
            EventSeverity::Info,
            "job running".to_owned(),
            refs,
        )?;
        let ghost moved = run@;
        assert(moved.events[0] == started.events[0]);
        assert(moved.events[1] == started.events[1]);
        let tool_id = tool.tool_id();
        let args_summary = tool.args_summary(request);
        let resolved_paths = tool.resolved_paths(request);
        assert(has_tool_id(tool, tool_id@));
        assert(summarizes(tool, request@, args_summary@));
        assert(resolves(tool, request@, resolved_paths.deep_view()));
        let invocation = ToolInvocation {
            id: ToolInvocationId::new(),
            schema_version: RUNTIME_SCHEMA_VERSION,
            created_at: LedgerTimestamp::now(),
            job_id: run.job.id.clone(),
            repository_id: request.repository_id.clone(),
            policy_decision_id: run.policy_decision.as_ref().unwrap().id.clone(),
            actor: request.requester.clone(),
            tool_id: tool_id.to_owned(),
            requested_capability: capability.to_owned(),
            args_summary,
            resolved_paths,
            timeout_millis: None,
            redactions: Vec::new(),
        };
        assert(invocation@.redactions =~= Seq::empty());
        let outcome = run.invoke(&mut self.store, invocation);
        proof {
            assert(is_invocation_for(invocation@, run@, request@, tool, capability@));
            assert(run@.events[0] == moved.events[0]);
            assert(run@.events[1] == moved.events[1]);
            assert(run@.events[2] == moved.events[2]);
        }
        outcome
    }

    /// Store the result of a tool and the audit record on it, and bring the job to its end.
    fn finish_work<T: RuntimeTool>(
        &mut self,
        run: &mut JobRun,
        request: &RuntimeJobRequest,
        tool: &T,
        capability: &str,
        result: ToolResult,
        Ghost(before): Ghost<StoreModel>,
    ) -> (r: RuntimeResult<()>)
        requires
            old(run).keeps(old(self).store.state()),
            old(run)@.events.len() == 4,
            job_run::runs(old(run)@.job),
            old(run)@.tool_result is None,
            old(run)@.audit_record is None,
            judged(
                old(run)@,
                before,
                request@,
                tool,
                &old(self).policy_engine,
                capability@,
            ),
            working(old(run)@, request@, tool, capability@),
        ensures
            final(self).policy_engine == old(self).policy_engine,
            final(self).store.reliable() == old(self).store.reliable(),
            old(self).store.state().valid() ==> final(self).store.state().valid(),
            final(run).began == old(run).began,
            final(run).keeps(final(self).store.state()),
            match r {
                Ok(_) => {
                    &&& final(run)@.events.len() == 7
                    &&& final(run)@.tool_invocation == old(run)@.tool_invocation
                    &&& final(run)@.tool_result == Some(result@)
                    &&& judged(
                        final(run)@,
                        before,
                        request@,
                        tool,
                        &old(self).policy_engine,
                        capability@,
                    )
                    &&& working(final(run)@, request@, tool, capability@)
                    &&& finished(final(run)@, request@, capability@)
                },
                Err(error) => {
                    &&& judged(
                        final(run)@,
                        before,
                        request@,
                        tool,
                        &old(self).policy_engine,
                        capability@,
                    )
                    &&& working(final(run)@, request@, tool, capability@)
                    &&& finish_refused(
                        final(run)@,
                        final(self).store.state(),
                        request@,
                        capability@,
                        result@,
                        error@,
                        old(self).store.reliable(),
                    )
                    &&& final(run)@.tool_invocation == old(run)@.tool_invocation
                },
            },
    {
        let ghost started = run@;
        let status = result.status;
        let invocation = run.tool_invocation.as_ref().unwrap();
        let audit = AuditRecord {
            id: AuditRecordId::new(),
            schema_version: RUNTIME_SCHEMA_VERSION,
            created_at: LedgerTimestamp::now(),
            actor: request.requester.clone(),
            repository_id: request.repository_id.clone(),
            requested_capability: capability.to_owned(),
            policy_decision_id: run.policy_decision.as_ref().unwrap().id.clone(),
            tool_invocation_id: Some(invocation.id.clone()),
            effect_summary: invocation.tool_id.clone().concat(" completed with ").concat(
                status.name(),
            ),
            output_refs: result.output_refs.duplicate(),
            redactions: result.redactions.duplicate(),
        };
        let refs = refs_for_audit(
            &run.job,
            run.policy_decision.as_ref().unwrap(),
            run.tool_invocation.as_ref().unwrap(),
            &result,
            &audit,
        );
        assert(is_audit_for(
            audit@,
            JobRunModel { tool_result: Some(result@), ..started },
            request@,
            capability@,
        ));
        run.conclude(&mut self.store, result, audit)?;
        let ghost stored = run@;
        assert forall|i: int| 0 <= i < 4 implies stored.events[i] == started.events[i] by {}
        run.move_to(
            &mut self.store,
            terminal_status(status),
            EventSeverity::Info,
            "job completed".to_owned(),
            refs,
        )?;
        assert forall|i: int| 0 <= i < 6 implies run@.events[i] == stored.events[i] by {}
        assert(run@.events[0] == stored.events[0]);
        assert(run@.events[1] == stored.events[1]);
        assert(run@.events[2] == stored.events[2]);
        assert(run@.events[3] == stored.events[3]);
        assert(run@.events[4] == stored.events[4]);
        assert(run@.events[5] == stored.events[5]);
        Ok(())
    }

    /// Stop a job that the policy does not let run.
    fn stop_run<T: RuntimeTool>(
        &mut self,
        run: &mut JobRun,
        request: &RuntimeJobRequest,
        tool: &T,
        capability: &str,
        Ghost(before): Ghost<StoreModel>,
    ) -> (r: RuntimeResult<()>)
        requires
            old(run).keeps(old(self).store.state()),
            old(run)@.events.len() == 2,
            job_run::waits(old(run)@.job),
            old(run)@.tool_invocation is None,
            old(run)@.tool_result is None,
            old(run)@.audit_record is None,
            judged(
                old(run)@,
                before,
                request@,
                tool,
                &old(self).policy_engine,
                capability@,
            ),
            !lets_run(old(run)@.policy_decision->0),
        ensures
            final(self).policy_engine == old(self).policy_engine,
            final(self).store.reliable() == old(self).store.reliable(),
            old(self).store.state().valid() ==> final(self).store.state().valid(),
            final(run).began == old(run).began,
            final(run).keeps(final(self).store.state()),
            match r {
                Ok(_) => {
                    &&& stopped(final(run)@)
                    &&& judged(
                        final(run)@,
                        before,
                        request@,
                        tool,
                        &old(self).policy_engine,
                        capability@,
                    )
                },
                Err(error) => {
                    &&& judged(
                        final(run)@,
                        before,
                        request@,
                        tool,
                        &old(self).policy_engine,
                        capability@,
                    )
                    &&& stop_refused(
                        final(run)@,
                        final(self).store.state(),
                        error@,
                        old(self).store.reliable(),
                    )
                },
            },
    {
        let ghost decided = run@;
        let refs = refs_for_policy(&run.job, run.policy_decision.as_ref().unwrap());
        run.move_to(
            &mut self.store,
            JobStatus::Blocked,
            EventSeverity::Warning,
            "job stopped before tool execution".to_owned(),
            refs,
        )?;
        assert(run@.events[0] == decided.events[0]);
        assert(run@.events[1] == decided.events[1]);
        Ok(())
    }

    /// Fail a job on a result of its tool that cannot be handled.
    fn fail_run<T: RuntimeTool, H: RuntimeHost>(
        &mut self,
        run: &mut JobRun,
        request: &RuntimeJobRequest,
        tool: &T,
        host: &H,
        capability: &str,
        problem: HandlingFailure,
        Ghost(before): Ghost<StoreModel>,
    ) -> (r: RuntimeError)
        requires
            old(run).keeps(old(self).store.state()),
            old(run)@.events.len() == 4,
            job_run::runs(old(run)@.job),
            old(run)@.tool_result is None,
            old(run)@.audit_record is None,
            judged(
                old(run)@,
                before,
                request@,
                tool,
                &old(self).policy_engine,
                capability@,
            ),
            working(old(run)@, request@, tool, capability@),
            undelivered(old(run)@, request@, tool, host, problem.error@),
            problem.public_message@ == output_handling::failure_message(problem.error@),
        ensures
            final(self).policy_engine == old(self).policy_engine,
            final(self).store.reliable() == old(self).store.reliable(),
            old(self).store.state().valid() ==> final(self).store.state().valid(),
            final(run).began == old(run).began,
            final(run).keeps(final(self).store.state()),
            broke_off(
                final(run)@,
                before,
                final(self).store.state(),
                request@,
                tool,
                &old(self).policy_engine,
                host,
                r@,
                old(self).store.reliable(),
            ),
    {
        let ghost at_work = run@;
        let error = run.fail(
            &mut self.store,
            problem.public_message.to_owned(),
            problem.error,
        );
        proof {
            if run@ != at_work {
                assert(run@.events[0] == at_work.events[0]);
                assert(run@.events[1] == at_work.events[1]);
                assert(run@.events[2] == at_work.events[2]);
                assert(run@.events[3] == at_work.events[3]);
                assert(judged(
                    run@,
                    before,
                    request@,
                    tool,
                    &self.policy_engine,
                    capability@,
                ));
                assert(working(run@, request@, tool, capability@));
                assert(failed(run@, error@));
                assert(undelivered(run@, request@, tool, host, error@));
            }
        }
        error
    }

    /// Fail a job whose result can no longer be rendered; only one that has failed already
    /// can.
    fn fail_finished_run<T: RuntimeTool, H: RuntimeHost>(
        &mut self,
        run: &mut JobRun,
        request: &RuntimeJobRequest,
        tool: &T,
        host: &H,
        capability: &str,
        problem: RuntimeError,
        Ghost(before): Ghost<StoreModel>,
    ) -> (r: RuntimeError)
        requires
            old(run).keeps(old(self).store.state()),
            old(run)@.events.len() == 7,
            judged(
                old(run)@,
                before,
                request@,
                tool,
                &old(self).policy_engine,
                capability@,
            ),
            working(old(run)@, request@, tool, capability@),
            finished(old(run)@, request@, capability@),
            delivered(old(run)@, request@, tool, host, Err(problem@)),
        ensures
            final(self).policy_engine == old(self).policy_engine,
            final(self).store.reliable() == old(self).store.reliable(),
            old(self).store.state().valid() ==> final(self).store.state().valid(),
            final(run).began == old(run).began,
            final(run).keeps(final(self).store.state()),
            broke_off(
                final(run)@,
                before,
                final(self).store.state(),
                request@,
                tool,
                &old(self).policy_engine,
                host,
                r@,
                old(self).store.reliable(),
            ),
    {
        let ghost complete = run@;
        let error = run.fail(&mut self.store, "tool output rendering failed".to_owned(), problem);
        proof {
            if run@ != complete {
                assert(run@.events[0] == complete.events[0]);
                assert(run@.events[1] == complete.events[1]);
                assert(run@.events[2] == complete.events[2]);
                assert(run@.events[3] == complete.events[3]);
                assert(run@.events[4] == complete.events[4]);
                assert(run@.events[5] == complete.events[5]);
                assert(run@.events[6] == complete.events[6]);
                assert(judged(
                    run@,
                    before,
                    request@,
                    tool,
                    &self.policy_engine,
                    capability@,
                ));
                assert(working(run@, request@, tool, capability@));
                assert(finished(run@, request@, capability@));
                assert(delivered(run@, request@, tool, host, Err(error@)));
            }
        }
        error
    }

    /// Run a tool as a job. The receipt, or else the store, holds what was written; nothing
    /// else in the store changes.
    pub fn run_tool_job<T: RuntimeTool, H: RuntimeHost>(
        &mut self,
        request: RuntimeJobRequest,
        tool: &T,
        host: &H,
    ) -> (r: RuntimeResult<RuntimeJobReceipt>)
        ensures
            final(self).policy_engine == old(self).policy_engine,
            final(self).store.reliable() == old(self).store.reliable(),
            old(self).store.state().valid() ==> final(self).store.state().valid(),
            ran(
                old(self).store.state(),
                final(self).store.state(),
                request@,
                tool,
                &old(self).policy_engine,
                host,
                crate::requests::viewed(r),
                old(self).store.reliable(),
            ),
    {
        let ghost before = self.store.state();
        let (run, capability) = match self.open_run(&request, tool) {
            Ok(opened) => opened,
            Err((_, error)) => {
                return Err(error);
            },
        };
        let mut run = run;
        match run.policy_decision.as_ref().unwrap().outcome {
            PolicyOutcome::Blocked | PolicyOutcome::NeedsApproval => {
                self.stop_run(&mut run, &request, tool, capability.as_str(), Ghost(before))?;
                let ghost ended = run@;
                let receipt = run.receipt(None);
                assert(run_of(receipt@) == ended);
                return Ok(receipt);
            },
            PolicyOutcome::Allowed | PolicyOutcome::Audited => {},
        }
        self.start_work(&mut run, &request, tool, capability.as_str(), Ghost(before))?;
        let invocation = run.tool_invocation.as_ref().unwrap();
        let result = tool.execute(invocation, &request);
        assert(results_in(tool, run@.tool_invocation->0, request@, result@));
        let done = match handle_tool_result(host, &request, invocation, result) {
            Ok(done) => done,
            Err(problem) => {
                return Err(
                    self.fail_run(
                        &mut run,
                        &request,
                        tool,
                        host,
                        capability.as_str(),
                        problem,
                        Ghost(before),
                    ),
                );
            },
        };
        let settled = done.result.clone();
        self.finish_work(
            &mut run,
            &request,
            tool,
            capability.as_str(),
            done.result,
            Ghost(before),
        )?;
        let rendered = if done.changed {
            let policy = request.tool_output_defaults.render_policy_with_render_options(
                request.render_options.as_ref(),
            );
            match render(host, &settled, &policy) {
                Ok(rendered) => rendered,
                Err(problem) => {
                    return Err(
                        self.fail_finished_run(
                            &mut run,
                            &request,
                            tool,
                            host,
                            capability.as_str(),
                            problem,
                            Ghost(before),
                        ),
                    );
                },
            }
        } else {
            done.rendered
        };
        let ghost ended = run@;
        let receipt = run.receipt(Some(rendered));
        assert(run_of(receipt@) == ended);
        Ok(receipt)
    }
}

} // verus!

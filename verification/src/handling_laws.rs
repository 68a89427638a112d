//! What a run asks for, what becomes of a tool's result, and what the ledger keeps of a run.
use vstd::prelude::*;

use crate::artifacts::{ArtifactErrorModel, ArtifactStoreConfig};
use crate::capabilities;
use crate::domain::{
    JobStatus, PolicyDecisionModel, PolicyOutcome, StructuredValueModel, ToolInvocation,
    ToolInvocationModel, ToolResult, ToolResultModel, ToolResultStatus,
};
use crate::job_run;
use crate::job_run::JobRunModel;
use crate::output_handling;
use crate::policy::{Capability, PolicyEngine};
use crate::requests::{
    EchoTool, RuntimeErrorModel, RuntimeHost, RuntimeJobReceiptModel, RuntimeJobRequest,
    RuntimeJobRequestModel, RuntimeTool,
};
use crate::runtime;
use crate::spillover::ToolResultSpilloverReportModel;
use crate::store_model::StoreModel;
use crate::tool_output::{
    RenderedToolOutput, RenderedToolOutputModel, ToolOutputRenderError, ToolOutputRenderErrorModel,
    ToolOutputRenderPolicy, ToolOutputRenderer,
};

verus! {

/// The same name, white space around it apart.
pub open spec fn is_bare_of(bare: Seq<char>, name: Seq<char>) -> bool {
    crate::text_laws::bare(bare) && exists|before: Seq<char>, after: Seq<char>|
        {
            &&& #[trigger] crate::text_laws::all_white(before)
            &&& #[trigger] crate::text_laws::all_white(after)
            &&& name == before + bare + after
        }
}

/// Whatever asks for information is enforced as the discovery of capabilities; every other
/// capability under its own name.
pub proof fn law_capabilities_are_enforced_by_name(name: Seq<char>)
    ensures
        crate::policy_laws::spells_one_of(name, crate::policy_laws::informational_names())
            ==> capabilities::enforced_name(name) == "capability.discovery"@,
        !crate::policy_laws::spells_one_of(name, crate::policy_laws::informational_names())
            ==> is_bare_of(capabilities::enforced_name(name), name),
{
    let bare = crate::text::trimmed(name);
    crate::text::lemma_trimmed_twice(name);
    crate::text_laws::law_trimmed_text_is_what_is_between(name);
    crate::policy_laws::lemma_informational_spelling(name);
    assert(Capability::of_name(bare) == Capability::of_name(name));
}

/// A request for a tool is taken exactly where the tool requires something and every hint of
/// the request is enforced by the same name; what is enforced is the name that the tool's own
/// is enforced by.
pub proof fn law_hints_agree_with_the_tool(named: Seq<char>, hints: Seq<Seq<char>>)
    ensures
        ({
            let enforced = capabilities::enforced_name(named);
            let answer = capabilities::required(named, hints);
            &&& answer is Ok <==> enforced.len() > 0 && forall|i: int|
                0 <= i < hints.len() ==> capabilities::enforced_name(#[trigger] hints[i])
                    == enforced
            &&& answer is Ok ==> answer->Ok_0 == enforced
            &&& answer is Err ==> answer->Err_0 is InvalidToolRequest
        }),
{
    capabilities::law_hints_name_what_the_tool_requires(named, hints);
}

/// A result belongs to an invocation exactly where it names the invocation and its tool.
pub proof fn law_results_name_their_invocation(
    invocation: ToolInvocationModel,
    result: ToolResultModel,
)
    ensures
        output_handling::result_problem(invocation, result) is None <==> result.invocation_id
            == invocation.id && result.tool_id == invocation.tool_id,
{
}

/// A result is refused exactly where it does not belong to the invocation or where large
/// results are to be rejected and it has a field that is too large.
pub proof fn law_results_are_refused_for_two_reasons(
    request: RuntimeJobRequestModel,
    invocation: ToolInvocationModel,
    result: ToolResultModel,
)
    requires
        request.tool_output_defaults.max_inline_bytes < usize::MAX,
    ensures
        ({
            let refused = output_handling::refused_result(request, invocation, result);
            let belongs = result.invocation_id == invocation.id && result.tool_id
                == invocation.tool_id;
            let max = request.tool_output_defaults.max_inline_bytes as nat;
            let large = exists|i: int|
                0 <= i < result.fields.len() && crate::inline_laws::too_large(
                    #[trigger] result.fields[i],
                    max,
                );
            let rejects = request.tool_output_defaults.oversize_policy is RejectOversize;
            &&& refused is None <==> belongs && !(rejects && large)
            &&& !belongs ==> refused is Some && refused->0 is InvalidToolResult
            &&& belongs && rejects && large ==> refused is Some && refused->0 is ToolOutputTooLarge
        }),
{
    crate::inline_laws::law_results_with_large_fields_are_rejected(
        result,
        request.tool_output_defaults,
    );
}

/// Large fields are moved to artifacts where the request says so, as it says; or else where
/// the defaults do, by their limit and as plain text; and nowhere else.
pub proof fn law_spilling_is_asked_for(request: RuntimeJobRequestModel)
    ensures
        ({
            let options = output_handling::spill_options(request);
            let defaults = request.tool_output_defaults;
            &&& request.artifact_spillover matches Some(asked) ==> options == Some(asked.options)
            &&& request.artifact_spillover is None ==> (options is Some
                <==> defaults.oversize_policy is SpillToArtifactRef)
            &&& request.artifact_spillover is None && options is Some ==> {
                &&& options->0.media_type == "text/plain; charset=utf-8"@
                &&& defaults.max_inline_bytes <= usize::MAX ==> options->0.max_inline_bytes
                    == defaults.max_inline_bytes
            }
        }),
{
}

/// The artifact store for a request: the one it names, or else the host's own.
pub open spec fn is_store_for<H: RuntimeHost>(
    host: &H,
    request: RuntimeJobRequestModel,
    store: H::Artifacts,
) -> bool {
    exists|config: ArtifactStoreConfig|
        {
            &&& #[trigger] call_ensures(H::open_artifact_store, (host, &config), store)
            &&& request.artifact_spillover matches Some(asked) ==> config@ == asked.store_config
            &&& request.artifact_spillover is None ==> call_ensures(
                H::default_artifact_store,
                (host,),
                config,
            )
        }
}

/// A result is fitted in one of three ways: moved to the artifact store for the request, in
/// the scope of its repository; truncated to the limit; or left as it is.
pub proof fn law_results_are_fitted_as_asked<H: RuntimeHost>(
    host: &H,
    request: RuntimeJobRequestModel,
    result: ToolResultModel,
    settled: ToolResultModel,
    changed: bool,
)
    requires
        output_handling::fitted(host, request, result, settled, changed),
        result.fields.len() <= usize::MAX,
        request.tool_output_defaults.max_inline_bytes < usize::MAX,
        crate::inline_laws::large_bytes(
            result.fields,
            request.tool_output_defaults.max_inline_bytes as nat,
        ) <= usize::MAX,
    ensures
        ({
            let options = output_handling::spill_options(request);
            let defaults = request.tool_output_defaults;
            &&& options is Some ==> exists|
                store: H::Artifacts,
                report: Option<ToolResultSpilloverReportModel>,
            |
                {
                    &&& #[trigger] is_store_for(host, request, store)
                    &&& #[trigger] crate::spillover::spill_outcome(
                        &store,
                        request.repository_id,
                        options->0,
                        result,
                        settled,
                        Ok::<Option<ToolResultSpilloverReportModel>, ArtifactErrorModel>(report),
                    )
                    &&& changed <==> report is Some
                }
            &&& options is None && defaults.oversize_policy is TruncateWithMetadata ==> {
                &&& settled == crate::truncation::truncated_result(
                    result,
                    defaults.max_inline_bytes as usize,
                )
                &&& changed <==> crate::inline_laws::large_fields(
                    result.fields,
                    defaults.max_inline_bytes as nat,
                ) > 0
            }
            &&& options is None && defaults.oversize_policy is RejectOversize ==> settled == result
                && !changed
        }),
{
    let options = output_handling::spill_options(request);
    let defaults = request.tool_output_defaults;
    if options is Some {
        let report = choose|report: Option<ToolResultSpilloverReportModel>|
            {
                &&& #[trigger] output_handling::host_spills(
                    host,
                    request,
                    options->0,
                    result,
                    settled,
                    Ok(report),
                )
                &&& changed == (report is Some)
            };
        let (config, store) = choose|config: ArtifactStoreConfig, store: H::Artifacts|
            {
                &&& #[trigger] call_ensures(H::open_artifact_store, (host, &config), store)
                &&& match request.artifact_spillover {
                    Some(spillover) => config@ == spillover.store_config,
                    None => call_ensures(H::default_artifact_store, (host,), config),
                }
                &&& crate::spillover::spill_outcome(
                    &store,
                    request.repository_id,
                    options->0,
                    result,
                    settled,
                    Ok::<Option<ToolResultSpilloverReportModel>, ArtifactErrorModel>(report),
                )
            };
        assert(is_store_for(host, request, store));
    } else if defaults.oversize_policy is TruncateWithMetadata {
        let max = defaults.max_inline_bytes as usize;
        assert(crate::truncation::as_size(defaults.max_inline_bytes) == max);
        crate::inline_laws::lemma_report_counts(result.fields, max);
    }
}

/// The renderer was shown a result under a policy and answered.
pub open spec fn was_rendered<H: ToolOutputRenderer>(
    host: &H,
    result: ToolResultModel,
    policy: ToolOutputRenderPolicy,
    output: RenderedToolOutputModel,
) -> bool {
    exists|t: ToolResult, o: RenderedToolOutput|
        {
            &&& #[trigger] call_ensures(
                H::render_tool_result_with_policy,
                (host, &t, &policy),
                Ok::<RenderedToolOutput, ToolOutputRenderError>(o),
            )
            &&& t@ == result
            &&& o@ == output
        }
}

/// What is rendered is the result as the tool gave it, under the policy that the defaults and
/// the request's options lead to.
pub proof fn law_results_are_rendered_in_full<H: RuntimeHost>(
    host: &H,
    request: RuntimeJobRequestModel,
    invocation: ToolInvocationModel,
    result: ToolResultModel,
    settled: ToolResultModel,
    rendered: RenderedToolOutputModel,
    changed: bool,
)
    requires
        output_handling::handled(host, request, invocation, result, settled, rendered, changed),
    ensures
        was_rendered(
            host,
            result,
            request.tool_output_defaults.policy_for(request.render_options),
            rendered,
        ),
{
    lemma_rendered(host, result, output_handling::render_policy_of(request), rendered);
}

/// The ledger says of a failed result what was wrong, in general words.
pub proof fn law_failures_are_told_in_general_words(error: RuntimeErrorModel)
    ensures
        error is InvalidToolResult ==> output_handling::failure_message(error)
            == "tool result rejected"@,
        error is ToolOutputTooLarge ==> output_handling::failure_message(error)
            == "tool result exceeded output size limits"@,
        error is ToolOutputRender ==> output_handling::failure_message(error)
            == "tool output rendering failed"@,
        error is Artifact ==> output_handling::failure_message(error)
            == "artifact spillover failed"@,
{
}

/// A tool's outcome is the job's: success is success, a cancellation a cancellation, and
/// failures and timeouts are failures; all but success are told of as errors.
pub proof fn law_outcomes_carry_over(
    status: ToolResultStatus,
    end: JobStatus,
)
    requires
        call_ensures(job_run::terminal_status, (status,), end),
    ensures
        end is Succeeded <==> status is Succeeded,
        end is Canceled <==> status is Canceled,
        end is Failed <==> status is Failed || status is TimedOut,
        end == job_run::final_status(status),
        job_run::result_severity(status) is Info <==> status is Succeeded,
        job_run::result_severity(status) is Error <==> !(status is Succeeded),
{
}

/// Decisions that let a job run are told of as information, those that await approval as a
/// warning, refusals as errors.
pub proof fn law_decisions_are_told_by_their_weight(outcome: PolicyOutcome)
    ensures
        job_run::decision_severity(outcome) is Info <==> outcome is Allowed || outcome is Audited,
        job_run::decision_severity(outcome) is Warning <==> outcome is NeedsApproval,
        job_run::decision_severity(outcome) is Error <==> outcome is Blocked,
{
}

/// A job keeps of a decision what it is, by which rule and at what risk.
pub proof fn law_jobs_keep_the_decision(decision: PolicyDecisionModel)
    ensures
        ({
            let kept = job_run::summary_of(decision);
            &&& kept.decision_id == Some(decision.id)
            &&& kept.outcome == decision.outcome
            &&& kept.risk_tier == decision.risk_tier
            &&& kept.reason_code == decision.reason_code
        }),
{
}

/// What was added to a list: an item where there is one.
pub open spec fn grown_by<M>(before: Seq<M>, item: Option<M>, after: Seq<M>) -> bool {
    match item {
        Some(item) => after == before.push(item),
        None => after == before,
    }
}

/// A run leaves in the store its job, its events, and each record that it made, behind those
/// that were there.
pub proof fn law_runs_are_kept_in_the_store(run: JobRunModel, before: StoreModel, now: StoreModel)
    requires
        run.leads(before, now),
    ensures
        now.jobs == before.jobs + seq![run.job],
        now.events == before.events + run.events,
        now.last_sequence == before.last_sequence + run.events.len(),
        grown_by(before.policy_decisions, run.policy_decision, now.policy_decisions),
        grown_by(before.tool_invocations, run.tool_invocation, now.tool_invocations),
        grown_by(before.tool_results, run.tool_result, now.tool_results),
        grown_by(before.audit_records, run.audit_record, now.audit_records),
        now.repositories == before.repositories,
        now.lock_decisions == before.lock_decisions,
        forall|i: int|
            0 <= i < run.events.len() ==> (#[trigger] run.events[i]).sequence_number
                == before.last_sequence + i + 1,
{
}

/// An identifier is its prefix and a UUID; nothing else is.
pub proof fn law_identifiers_are_prefixed_uuids(prefix: Seq<char>, uuid: Seq<char>, id: Seq<char>)
    ensures
        crate::ids::is_id_text(prefix, prefix + uuid) <==> crate::ids::is_uuid_text(uuid),
        crate::ids::is_id_text(prefix, id) ==> id == prefix + id.skip(prefix.len() as int)
            && crate::ids::is_uuid_text(id.skip(prefix.len() as int)),
{
    assert((prefix + uuid).take(prefix.len() as int) =~= prefix);
    assert((prefix + uuid).skip(prefix.len() as int) =~= uuid);
    if crate::ids::is_id_text(prefix, id) {
        assert(id =~= prefix + id.skip(prefix.len() as int));
    }
}

/// The tool, run for an invocation and a request, gave the result.
pub open spec fn was_given<T: RuntimeTool>(
    tool: &T,
    invocation: ToolInvocationModel,
    request: RuntimeJobRequestModel,
    result: ToolResultModel,
) -> bool {
    exists|i: ToolInvocation, q: RuntimeJobRequest, r: ToolResult|
        {
            &&& #[trigger] call_ensures(T::execute, (tool, &i, &q), r)
            &&& i@ == invocation
            &&& q@ == request
            &&& r@ == result
        }
}

/// A finished run stores what the tool gave for its invocation, fitted as the request asks,
/// and shows what it stores.
pub proof fn law_runs_show_what_they_store<T: RuntimeTool, P: PolicyEngine, H: RuntimeHost>(
    receipt: RuntimeJobReceiptModel,
    before: StoreModel,
    request: RuntimeJobRequestModel,
    tool: &T,
    engine: &P,
    host: &H,
)
    requires
        runtime::receipt_fits(receipt, before, request, tool, engine, host),
        receipt.tool_result is Some,
    ensures
        receipt.tool_invocation is Some,
        receipt.rendered_output is Some,
        was_rendered(
            host,
            receipt.tool_result->0,
            request.tool_output_defaults.policy_for(request.render_options),
            receipt.rendered_output->0,
        ),
        exists|given: ToolResultModel, changed: bool|
            {
                &&& #[trigger] was_given(tool, receipt.tool_invocation->0, request, given)
                &&& given.invocation_id == receipt.tool_invocation->0.id
                &&& given.tool_id == receipt.tool_invocation->0.tool_id
                &&& #[trigger] output_handling::fitted(
                    host,
                    request,
                    given,
                    receipt.tool_result->0,
                    changed,
                )
                &&& !changed ==> receipt.tool_result->0 == given
            },
{
    let run = runtime::run_of(receipt);
    let output = receipt.rendered_output->0;
    let stored = receipt.tool_result->0;
    let invocation = receipt.tool_invocation->0;
    let (given, first, changed) = choose|
        given: ToolResultModel,
        first: RenderedToolOutputModel,
        changed: bool,
    |
        {
            &&& runtime::results_in(tool, invocation, request, given)
            &&& #[trigger] output_handling::handled(
                host,
                request,
                invocation,
                given,
                stored,
                first,
                changed,
            )
            &&& if changed {
                output_handling::renderer_answers(
                    host,
                    stored,
                    output_handling::render_policy_of(request),
                    Ok(output),
                )
            } else {
                output == first
            }
        };
    assert(was_given(tool, invocation, request, given));
    assert(output_handling::fitted(host, request, given, stored, changed));
    if changed {
        lemma_rendered(host, stored, output_handling::render_policy_of(request), output);
    } else {
        lemma_unchanged(host, request, given, stored);
        lemma_rendered(host, given, output_handling::render_policy_of(request), first);
    }
}

proof fn lemma_unchanged<H: RuntimeHost>(
    host: &H,
    request: RuntimeJobRequestModel,
    result: ToolResultModel,
    settled: ToolResultModel,
)
    requires
        output_handling::fitted(host, request, result, settled, false),
    ensures
        settled == result,
{
    if output_handling::spill_options(request) is Some {
        let options = output_handling::spill_options(request)->0;
        let report = choose|report: Option<ToolResultSpilloverReportModel>|
            {
                &&& #[trigger] output_handling::host_spills(
                    host,
                    request,
                    options,
                    result,
                    settled,
                    Ok(report),
                )
                &&& false == (report is Some)
            };
        assert(report is None);
    }
}

proof fn lemma_rendered<H: RuntimeHost>(
    host: &H,
    result: ToolResultModel,
    policy: ToolOutputRenderPolicy,
    rendered: RenderedToolOutputModel,
)
    requires
        output_handling::renderer_answers(host, result, policy, Ok(rendered)),
    ensures
        was_rendered(host, result, policy, rendered),
{
    let (t, a) = choose|t: ToolResult, a: Result<RenderedToolOutput, ToolOutputRenderError>|
        {
            &&& #[trigger] call_ensures(
                H::render_tool_result_with_policy,
                (host, &t, &policy),
                a,
            )
            &&& t@ == result
            &&& Ok::<RenderedToolOutputModel, ToolOutputRenderErrorModel>(rendered) == (match a {
                Ok(output) => Ok::<RenderedToolOutputModel, ToolOutputRenderErrorModel>(output@),
                Err(error) => Err(error@),
            })
        };
    assert(a is Ok);
    assert(call_ensures(
        H::render_tool_result_with_policy,
        (host, &t, &policy),
        Ok::<RenderedToolOutput, ToolOutputRenderError>(a->Ok_0),
    ));
}

/// An echo repeats the goal, succeeds, and touches nothing.
pub proof fn law_echoes_repeat_the_goal(
    invocation: ToolInvocationModel,
    request: RuntimeJobRequestModel,
    result: ToolResultModel,
)
    requires
        was_given(&EchoTool, invocation, request, result),
    ensures
        result.status is Succeeded,
        result.invocation_id == invocation.id,
        result.tool_id == invocation.tool_id,
        result.schema_ref == Some("tool_result.secretary.echo.v1"@),
        result.fields.len() == 3,
        result.fields[0].key == "summary"@,
        result.fields[0].value == StructuredValueModel::String("echoed goal: "@ + request.goal),
        result.fields[1].key == "goal"@,
        result.fields[1].value == StructuredValueModel::String(request.goal),
        result.fields[2].key == "policy.state"@,
        result.fields[2].value == StructuredValueModel::String("recorded_before_execution"@),
        result.output_refs.len() == 0,
        result.evidence_refs.len() == 0,
        result.redactions.len() == 0,
        result.truncation is None,
{
}

} // verus!

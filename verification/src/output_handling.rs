//! What becomes of the result of a tool before it is stored: it is held against its
//! invocation, rendered, and fitted to the limits on output.
use vstd::prelude::*;

use crate::artifacts::{ArtifactErrorModel, ArtifactStoreConfig};
use crate::domain::{ToolInvocation, ToolInvocationModel, ToolResult, ToolResultModel};
use crate::record::Record;
use crate::requests::{
    RuntimeError, RuntimeErrorModel, RuntimeHost, RuntimeJobRequest, RuntimeJobRequestModel,
    RuntimeResult,
};
use crate::settings::OversizeOutputPolicy;
use crate::spillover::{
    spill_large_tool_result_fields, ToolResultSpilloverOptions, ToolResultSpilloverOptionsModel,
    ToolResultSpilloverReportModel,
};
use crate::tool_output::{
    RenderedToolOutput, RenderedToolOutputModel, ToolOutputRenderError, ToolOutputRenderErrorModel,
    ToolOutputRenderPolicy, ToolOutputRenderer,
};
use crate::truncation::{
    max_inline_bytes_as_usize, reject_oversized_tool_result, truncate_with_metadata,
};

verus! {

/// Why a result cannot be the outcome of the invocation.
pub open spec fn result_problem(
    invocation: ToolInvocationModel,
    result: ToolResultModel,
) -> Option<Seq<char>> {
    if result.invocation_id != invocation.id {
        Some(
            "tool result invocation_id "@ + result.invocation_id
                + " does not match active invocation "@ + invocation.id,
        )
    } else if result.tool_id != invocation.tool_id {
        Some(
            "tool result tool_id "@ + result.tool_id
                + " does not match active invocation tool_id "@ + invocation.tool_id,
        )
    } else {
        None
    }
}

pub fn validate_runtime_tool_result(invocation: &ToolInvocation, result: &ToolResult) -> (r:
    RuntimeResult<()>)
    ensures
        match result_problem(invocation@, result@) {
            Some(reason) => r is Err && r->Err_0@ == (RuntimeErrorModel::InvalidToolResult {
                reason,
            }),
            None => r is Ok,
        },
{
    if !result.invocation_id.same(&invocation.id) {
        return Err(
            RuntimeError::InvalidToolResult {
                reason: "tool result invocation_id ".to_owned().concat(
                    result.invocation_id.as_str(),
                ).concat(" does not match active invocation ").concat(invocation.id.as_str()),
            },
        );
    }
    if !result.tool_id.same(&invocation.tool_id) {
        return Err(
            RuntimeError::InvalidToolResult {
                reason: "tool result tool_id ".to_owned().concat(result.tool_id.as_str()).concat(
                    " does not match active invocation tool_id ",
                ).concat(invocation.tool_id.as_str()),
            },
        );
    }
    Ok(())
}

/// The renderer, asked to render the result, gave the answer.
pub open spec fn renderer_answers<H: ToolOutputRenderer>(
    host: &H,
    result: ToolResultModel,
    policy: ToolOutputRenderPolicy,
    answer: Result<RenderedToolOutputModel, ToolOutputRenderErrorModel>,
) -> bool {
    exists|t: ToolResult, a: Result<RenderedToolOutput, ToolOutputRenderError>|
        {
            &&& #[trigger] call_ensures(
                H::render_tool_result_with_policy,
                (host, &t, &policy),
                a,
            )
            &&& t@ == result
            &&& answer == (match a {
                Ok(output) => Ok::<RenderedToolOutputModel, ToolOutputRenderErrorModel>(output@),
                Err(error) => Err(error@),
            })
        }
}

pub fn render<H: ToolOutputRenderer>(
    host: &H,
    result: &ToolResult,
    policy: &ToolOutputRenderPolicy,
) -> (r: RuntimeResult<RenderedToolOutput>)
    ensures
        match r {
            Ok(output) => renderer_answers(host, result@, *policy, Ok(output@)),
            Err(error) => error@ is ToolOutputRender && renderer_answers(
                host,
                result@,
                *policy,
                Err(error@->ToolOutputRender_0),
            ),
        },
{
    match host.render_tool_result_with_policy(result, policy) {
        Ok(output) => Ok(output),
        Err(error) => Err(RuntimeError::ToolOutputRender(error)),
    }
}

/// The artifact store that the host opened for the request, or else for its own default,
/// took the large fields of a result, with this outcome.
pub open spec fn host_spills<H: RuntimeHost>(
    host: &H,
    request: RuntimeJobRequestModel,
    options: ToolResultSpilloverOptionsModel,
    result: ToolResultModel,
    settled: ToolResultModel,
    outcome: Result<Option<ToolResultSpilloverReportModel>, ArtifactErrorModel>,
) -> bool {
    exists|config: ArtifactStoreConfig, store: H::Artifacts|
        {
            &&& #[trigger] call_ensures(H::open_artifact_store, (host, &config), store)
            &&& match request.artifact_spillover {
                Some(spillover) => config@ == spillover.store_config,
                None => call_ensures(H::default_artifact_store, (host,), config),
            }
            &&& crate::spillover::spill_outcome(
                &store,
                request.repository_id,
                options,
                result,
                settled,
                outcome,
            )
        }
}

/// The options for moving large fields to artifacts, where the request or the defaults
/// ask for that.
pub open spec fn spill_options(request: RuntimeJobRequestModel) -> Option<
    ToolResultSpilloverOptionsModel,
> {
    match request.artifact_spillover {
        Some(spillover) => Some(spillover.options),
        None => if request.tool_output_defaults.oversize_policy is SpillToArtifactRef {
            Some(
                ToolResultSpilloverOptionsModel {
                    max_inline_bytes: crate::truncation::as_size(
                        request.tool_output_defaults.max_inline_bytes,
                    ),
                    media_type: crate::spillover::DEFAULT_MEDIA_TYPE@,
                },
            )
        } else {
            None
        },
    }
}

/// A result was fitted to the limits of a request; `changed` says whether it had to be.
pub open spec fn fitted<H: RuntimeHost>(
    host: &H,
    request: RuntimeJobRequestModel,
    result: ToolResultModel,
    settled: ToolResultModel,
    changed: bool,
) -> bool {
    let defaults = request.tool_output_defaults;
    match spill_options(request) {
        Some(options) => exists|report: Option<ToolResultSpilloverReportModel>|
            {
                &&& #[trigger] host_spills(
                    host,
                    request,
                    options,
                    result,
                    settled,
                    Ok(report),
                )
                &&& changed == (report is Some)
            },
        None => if defaults.oversize_policy is TruncateWithMetadata {
            let max = crate::truncation::as_size(defaults.max_inline_bytes);
            &&& settled == crate::truncation::truncated_result(result, max)
            &&& changed == (crate::truncation::truncation_report(result.fields, max).fields > 0)
        } else {
            settled == result && !changed
        },
    }
}

/// Fits a result to the limits of a request, and says whether that changed it.
pub fn fit_tool_result<H: RuntimeHost>(
    host: &H,
    request: &RuntimeJobRequest,
    result: &mut ToolResult,
) -> (r: RuntimeResult<bool>)
    ensures
        match r {
            Ok(changed) => fitted(host, request@, old(result)@, final(result)@, changed),
            Err(error) => {
                &&& error@ is Artifact
                &&& spill_options(request@) is Some
                &&& host_spills(
                    host,
                    request@,
                    spill_options(request@)->0,
                    old(result)@,
                    old(result)@,
                    Err(error@->Artifact_0),
                )
                &&& final(result)@ == old(result)@
            },
        },
{
    let max_inline_bytes: usize = max_inline_bytes_as_usize(
        request.tool_output_defaults.max_inline_bytes,
    );
    let (config, options) = match &request.artifact_spillover {
        Some(spillover) => (spillover.store_config.clone(), spillover.options.clone()),
        None => match request.tool_output_defaults.oversize_policy {
            OversizeOutputPolicy::SpillToArtifactRef => (
                host.default_artifact_store(),
                ToolResultSpilloverOptions::new(max_inline_bytes),
            ),
            OversizeOutputPolicy::RejectOversize => {
                return Ok(false);
            },
            OversizeOutputPolicy::TruncateWithMetadata => {
                return Ok(truncate_with_metadata(result, max_inline_bytes));
            },
        },
    };
    let store = host.open_artifact_store(&config);
    let ghost before = result@;
    let scope = request.repository_id.as_str();
    match spill_large_tool_result_fields(result, &store, scope, &options) {
        Ok(report) => {
            assert(host_spills(
                host,
                request@,
                spill_options(request@)->0,
                before,
                result@,
                Ok(report.deep_view()),
            ));
            Ok(report.is_some())
        },
        Err(error) => Err(RuntimeError::Artifact(error)),
    }
}

/// A result that is ready to be stored.
pub struct HandledResult {
    pub result: ToolResult,
    pub rendered: RenderedToolOutput,
    /// The result is no longer what was rendered.
    pub changed: bool,
}

/// Why a result could not be handled, and what the job's ledger says of it.
pub struct HandlingFailure {
    pub public_message: &'static str,
    pub error: RuntimeError,
}

/// What is wrong with a result, as far as the request and the invocation decide it.
pub open spec fn refused_result(
    request: RuntimeJobRequestModel,
    invocation: ToolInvocationModel,
    result: ToolResultModel,
) -> Option<RuntimeErrorModel> {
    match result_problem(invocation, result) {
        Some(reason) => Some(RuntimeErrorModel::InvalidToolResult { reason }),
        None => if request.tool_output_defaults.oversize_policy is RejectOversize {
            match crate::truncation::rejection(result, request.tool_output_defaults) {
                Some(reason) => Some(RuntimeErrorModel::ToolOutputTooLarge { reason }),
                None => None,
            }
        } else {
            None
        },
    }
}

/// How results are rendered for a request.
pub open spec fn render_policy_of(request: RuntimeJobRequestModel) -> ToolOutputRenderPolicy {
    request.tool_output_defaults.policy_for(request.render_options)
}

/// A result was handled.
pub open spec fn handled<H: RuntimeHost>(
    host: &H,
    request: RuntimeJobRequestModel,
    invocation: ToolInvocationModel,
    result: ToolResultModel,
    settled: ToolResultModel,
    rendered: RenderedToolOutputModel,
    changed: bool,
) -> bool {
    &&& refused_result(request, invocation, result) is None
    &&& renderer_answers(host, result, render_policy_of(request), Ok(rendered))
    &&& fitted(host, request, result, settled, changed)
}

/// A result could not be handled, for the given reason.
pub open spec fn handling_failed<H: RuntimeHost>(
    host: &H,
    request: RuntimeJobRequestModel,
    invocation: ToolInvocationModel,
    result: ToolResultModel,
    error: RuntimeErrorModel,
) -> bool {
    match refused_result(request, invocation, result) {
        Some(problem) => error == problem,
        None => {
            ||| {
                &&& error is ToolOutputRender
                &&& renderer_answers(
                    host,
                    result,
                    render_policy_of(request),
                    Err(error->ToolOutputRender_0),
                )
            }
            ||| {
                &&& error is Artifact
                &&& exists|rendered: RenderedToolOutputModel| #[trigger]
                    renderer_answers(host, result, render_policy_of(request), Ok(rendered))
                &&& spill_options(request) is Some
                &&& host_spills(
                    host,
                    request,
                    spill_options(request)->0,
                    result,
                    result,
                    Err(error->Artifact_0),
                )
            }
        },
    }
}

/// What the ledger says of a job that fails with the error.
pub open spec fn failure_message(error: RuntimeErrorModel) -> Seq<char> {
    match error {
        RuntimeErrorModel::InvalidToolResult { .. } => "tool result rejected"@,
        RuntimeErrorModel::ToolOutputTooLarge { .. } => "tool result exceeded output size limits"@,
        RuntimeErrorModel::ToolOutputRender(_) => "tool output rendering failed"@,
        _ => "artifact spillover failed"@,
    }
}

/// Handles the result of a tool.
pub fn handle_tool_result<H: RuntimeHost>(
    host: &H,
    request: &RuntimeJobRequest,
    invocation: &ToolInvocation,
    result: ToolResult,
) -> (r: Result<HandledResult, HandlingFailure>)
    ensures
        match r {
            Ok(done) => handled(
                host,
                request@,
                invocation@,
                result@,
                done.result@,
                done.rendered@,
                done.changed,
            ),
            Err(failed) => {
                &&& handling_failed(host, request@, invocation@, result@, failed.error@)
                &&& failed.public_message@ == failure_message(failed.error@)
            },
        },
{
    match validate_runtime_tool_result(invocation, &result) {
        Ok(_) => {},
        Err(error) => {
            return Err(HandlingFailure { public_message: "tool result rejected", error });
        },
    }
    match request.tool_output_defaults.oversize_policy {
        OversizeOutputPolicy::RejectOversize => {
            match reject_oversized_tool_result(&result, &request.tool_output_defaults) {
                Some(reason) => {
                    return Err(
                        HandlingFailure {
                            public_message: "tool result exceeded output size limits",
                            error: RuntimeError::ToolOutputTooLarge { reason },
                        },
                    );
                },
                None => {},
            }
        },
        OversizeOutputPolicy::SpillToArtifactRef | OversizeOutputPolicy::TruncateWithMetadata => {},
    }
    let policy = request.tool_output_defaults.render_policy_with_render_options(
        request.render_options.as_ref(),
    );
    let rendered = match render(host, &result, &policy) {
        Ok(rendered) => rendered,
        Err(error) => {
            return Err(HandlingFailure { public_message: "tool output rendering failed", error });
        },
    };
    let mut result = result;
    let changed = match fit_tool_result(host, request, &mut result) {
        Ok(changed) => changed,
        Err(error) => {
            return Err(HandlingFailure { public_message: "artifact spillover failed", error });
        },
    };
    Ok(HandledResult { result, rendered, changed })
}

} // verus!

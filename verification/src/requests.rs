//! What a runtime is asked to do, and what it answers.
use vstd::prelude::*;

use crate::artifacts::{
    ArtifactError, ArtifactErrorModel, ArtifactStoreConfig, ArtifactStoreConfigModel,
};
use crate::domain::{
    Actor, ActorModel, AuditRecord, AuditRecordModel, JobEvent, JobEventModel, JobKind,
    JobKindModel, JobRecord, JobRecordModel, JobStatus, JobStatusTransitionError, LedgerTimestamp,
    PolicyDecision, PolicyDecisionModel, ResolvedPath, ResourceScope, ResourceScopeModel,
    StructuredValue, StructuredValueModel, ToolInvocation, ToolInvocationModel, ToolResult,
    ToolResultField, ToolResultFieldModel, ToolResultModel, ToolResultStatus,
};
use crate::ids::{RepositoryId, ToolResultId};
use crate::record::Record;
use crate::settings::ToolOutputDefaults;
use crate::spillover::{
    ArtifactWriter, ToolResultSpilloverOptions, ToolResultSpilloverOptionsModel,
};
use crate::store::{StoreError, StoreErrorModel};
use crate::text::decimal_text;
use crate::tool_output::{
    RenderOptions, RenderedToolOutput, RenderedToolOutputModel, ToolOutputRenderError,
    ToolOutputRenderErrorModel, ToolOutputRenderer,
};

verus! {

pub const RUNTIME_SCHEMA_VERSION: u32 = 1;

/// Where fields that are too large are moved to, and which are.
#[derive(Debug, PartialEq, Eq)]
pub struct RuntimeArtifactSpillover {
    pub store_config: ArtifactStoreConfig,
    pub options: ToolResultSpilloverOptions,
}

/// What a [`RuntimeArtifactSpillover`] holds.
pub struct RuntimeArtifactSpilloverModel {
    pub store_config: ArtifactStoreConfigModel,
    pub options: ToolResultSpilloverOptionsModel,
}

impl DeepView for RuntimeArtifactSpillover {
    type V = RuntimeArtifactSpilloverModel;

    open spec fn deep_view(&self) -> RuntimeArtifactSpilloverModel {
        RuntimeArtifactSpilloverModel {
            store_config: self.store_config.deep_view(),
            options: self.options.deep_view(),
        }
    }
}

impl View for RuntimeArtifactSpillover {
    type V = RuntimeArtifactSpilloverModel;

    #[verifier::inline]
    open spec fn view(&self) -> RuntimeArtifactSpilloverModel {
        self.deep_view()
    }
}

impl Record for RuntimeArtifactSpillover {
    fn duplicate(&self) -> (r: Self) {
        RuntimeArtifactSpillover {
            store_config: self.store_config.duplicate(),
            options: self.options.duplicate(),
        }
    }

    fn same(&self, other: &Self) -> (r: bool) {
        self.store_config.same(&other.store_config)
            && self.options.same(&other.options)
    }
}

impl Clone for RuntimeArtifactSpillover {
    fn clone(&self) -> (r: Self)
        ensures
            r.deep_view() == self.deep_view(),
    {
        self.duplicate()
    }
}

impl RuntimeArtifactSpillover {
    pub fn new(store_config: ArtifactStoreConfig, options: ToolResultSpilloverOptions) -> (r: Self)
        ensures
            r@ == (RuntimeArtifactSpilloverModel {
                store_config: store_config@,
                options: options@,
            }),
    {
        RuntimeArtifactSpillover { store_config, options }
    }
}

#[derive(Debug, PartialEq, Eq)]
pub struct RuntimeJobRequest {
    pub requester: Actor,
    pub repository_id: RepositoryId,
    pub kind: JobKind,
    pub goal: String,
    pub resource_scope: ResourceScope,
    pub requested_capabilities: Vec<String>,
    pub approval_available: bool,
    pub render_options: Option<RenderOptions>,
    pub tool_output_defaults: ToolOutputDefaults,
    pub artifact_spillover: Option<RuntimeArtifactSpillover>,
}

/// What a [`RuntimeJobRequest`] holds.
pub struct RuntimeJobRequestModel {
    pub requester: ActorModel,
    pub repository_id: Seq<char>,
    pub kind: JobKindModel,
    pub goal: Seq<char>,
    pub resource_scope: ResourceScopeModel,
    pub requested_capabilities: Seq<Seq<char>>,
    pub approval_available: bool,
    pub render_options: Option<RenderOptions>,
    pub tool_output_defaults: ToolOutputDefaults,
    pub artifact_spillover: Option<RuntimeArtifactSpilloverModel>,
}

impl DeepView for RuntimeJobRequest {
    type V = RuntimeJobRequestModel;

    open spec fn deep_view(&self) -> RuntimeJobRequestModel {
        RuntimeJobRequestModel {
            requester: self.requester.deep_view(),
            repository_id: self.repository_id.deep_view(),
            kind: self.kind.deep_view(),
            goal: self.goal.deep_view(),
            resource_scope: self.resource_scope.deep_view(),
            requested_capabilities: self.requested_capabilities.deep_view(),
            approval_available: self.approval_available.deep_view(),
            render_options: self.render_options.deep_view(),
            tool_output_defaults: self.tool_output_defaults.deep_view(),
            artifact_spillover: self.artifact_spillover.deep_view(),
        }
    }
}

impl View for RuntimeJobRequest {
    type V = RuntimeJobRequestModel;

    #[verifier::inline]
    open spec fn view(&self) -> RuntimeJobRequestModel {
        self.deep_view()
    }
}

impl Record for RuntimeJobRequest {
    fn duplicate(&self) -> (r: Self) {
        RuntimeJobRequest {
            requester: self.requester.duplicate(),
            repository_id: self.repository_id.duplicate(),
            kind: self.kind.duplicate(),
            goal: self.goal.duplicate(),
            resource_scope: self.resource_scope.duplicate(),
            requested_capabilities: self.requested_capabilities.duplicate(),
            approval_available: self.approval_available.duplicate(),
            render_options: self.render_options.duplicate(),
            tool_output_defaults: self.tool_output_defaults.duplicate(),
            artifact_spillover: self.artifact_spillover.duplicate(),
        }
    }

    fn same(&self, other: &Self) -> (r: bool) {
        self.requester.same(&other.requester)
            && self.repository_id.same(&other.repository_id)
            && self.kind.same(&other.kind)
            && self.goal.same(&other.goal)
            && self.resource_scope.same(&other.resource_scope)
            && self.requested_capabilities.same(&other.requested_capabilities)
            && self.approval_available.same(&other.approval_available)
            && self.render_options.same(&other.render_options)
            && self.tool_output_defaults.same(&other.tool_output_defaults)
            && self.artifact_spillover.same(&other.artifact_spillover)
    }
}

impl Clone for RuntimeJobRequest {
    fn clone(&self) -> (r: Self)
        ensures
            r.deep_view() == self.deep_view(),
    {
        self.duplicate()
    }
}

impl RuntimeJobRequest {
    pub fn new(
        requester: Actor,
        repository_id: RepositoryId,
        kind: JobKind,
        goal: String,
    ) -> (r: Self)
        ensures
            r@ == (RuntimeJobRequestModel {
                requester: requester@,
                repository_id: repository_id@,
                kind: kind@,
                goal: goal@,
                resource_scope: ResourceScopeModel { kind: "repository"@, value: "."@ },
                requested_capabilities: Seq::empty(),
                approval_available: true,
                render_options: None,
                tool_output_defaults: ToolOutputDefaults::standard(),
                artifact_spillover: None,
            }),
    {
        let requested_capabilities: Vec<String> = Vec::new();
        assert(requested_capabilities.deep_view() =~= Seq::empty());
        RuntimeJobRequest {
            requester,
            repository_id,
            kind,
            goal,
            resource_scope: ResourceScope {
                kind: "repository".to_owned(),
                value: ".".to_owned(),
            },
            requested_capabilities,
            approval_available: true,
            render_options: None,
            tool_output_defaults: ToolOutputDefaults::default(),
            artifact_spillover: None,
        }
    }

    pub fn with_resource_scope(self, kind: String, value: String) -> (r: Self)
        ensures
            r@ == (RuntimeJobRequestModel {
                resource_scope: ResourceScopeModel { kind: kind@, value: value@ },
                ..self@
            }),
    {
        let mut request = self;
        request.resource_scope = ResourceScope { kind, value };
        request
    }

    pub fn with_requested_capabilities(self, requested_capabilities: Vec<String>) -> (r: Self)
        ensures
            r@ == (RuntimeJobRequestModel {
                requested_capabilities: requested_capabilities.deep_view(),
                ..self@
            }),
    {
        let mut request = self;
        request.requested_capabilities = requested_capabilities;
        request
    }

    pub fn without_approval_path(self) -> (r: Self)
        ensures
            r@ == (RuntimeJobRequestModel { approval_available: false, ..self@ }),
    {
        let mut request = self;
        request.approval_available = false;
        request
    }

    pub fn with_render_options(self, render_options: RenderOptions) -> (r: Self)
        ensures
            r@ == (RuntimeJobRequestModel { render_options: Some(render_options), ..self@ }),
    {
        let mut request = self;
        request.render_options = Some(render_options);
        request
    }

    pub fn with_tool_output_defaults(self, defaults: ToolOutputDefaults) -> (r: Self)
        ensures
            r@ == (RuntimeJobRequestModel { tool_output_defaults: defaults, ..self@ }),
    {
        let mut request = self;
        request.tool_output_defaults = defaults;
        request
    }

    pub fn with_artifact_spillover(self, spillover: RuntimeArtifactSpillover) -> (r: Self)
        ensures
            r@ == (RuntimeJobRequestModel { artifact_spillover: Some(spillover@), ..self@ }),
    {
        let mut request = self;
        request.artifact_spillover = Some(spillover);
        request
    }
}

#[derive(Debug, PartialEq, Eq)]
pub struct RuntimeJobReceipt {
    pub job: JobRecord,
    pub policy_decision: PolicyDecision,
    pub tool_invocation: Option<ToolInvocation>,
    pub tool_result: Option<ToolResult>,
    pub rendered_output: Option<RenderedToolOutput>,
    pub audit_record: Option<AuditRecord>,
    pub events: Vec<JobEvent>,
}

/// What a [`RuntimeJobReceipt`] holds.
pub struct RuntimeJobReceiptModel {
    pub job: JobRecordModel,
    pub policy_decision: PolicyDecisionModel,
    pub tool_invocation: Option<ToolInvocationModel>,
    pub tool_result: Option<ToolResultModel>,
    pub rendered_output: Option<RenderedToolOutputModel>,
    pub audit_record: Option<AuditRecordModel>,
    pub events: Seq<JobEventModel>,
}

impl DeepView for RuntimeJobReceipt {
    type V = RuntimeJobReceiptModel;

    open spec fn deep_view(&self) -> RuntimeJobReceiptModel {
        RuntimeJobReceiptModel {
            job: self.job.deep_view(),
            policy_decision: self.policy_decision.deep_view(),
            tool_invocation: self.tool_invocation.deep_view(),
            tool_result: self.tool_result.deep_view(),
            rendered_output: self.rendered_output.deep_view(),
            audit_record: self.audit_record.deep_view(),
            events: self.events.deep_view(),
        }
    }
}

impl View for RuntimeJobReceipt {
    type V = RuntimeJobReceiptModel;

    #[verifier::inline]
    open spec fn view(&self) -> RuntimeJobReceiptModel {
        self.deep_view()
    }
}

impl Record for RuntimeJobReceipt {
    fn duplicate(&self) -> (r: Self) {
        RuntimeJobReceipt {
            job: self.job.duplicate(),
            policy_decision: self.policy_decision.duplicate(),
            tool_invocation: self.tool_invocation.duplicate(),
            tool_result: self.tool_result.duplicate(),
            rendered_output: self.rendered_output.duplicate(),
            audit_record: self.audit_record.duplicate(),
            events: self.events.duplicate(),
        }
    }

    fn same(&self, other: &Self) -> (r: bool) {
        self.job.same(&other.job)
            && self.policy_decision.same(&other.policy_decision)
            && self.tool_invocation.same(&other.tool_invocation)
            && self.tool_result.same(&other.tool_result)
            && self.rendered_output.same(&other.rendered_output)
            && self.audit_record.same(&other.audit_record)
            && self.events.same(&other.events)
    }
}

impl Clone for RuntimeJobReceipt {
    fn clone(&self) -> (r: Self)
        ensures
            r.deep_view() == self.deep_view(),
    {
        self.duplicate()
    }
}

#[derive(Debug, PartialEq, Eq)]
pub struct CancelJobReceipt {
    pub job: JobRecord,
    pub events: Vec<JobEvent>,
}

/// What a [`CancelJobReceipt`] holds.
pub struct CancelJobReceiptModel {
    pub job: JobRecordModel,
    pub events: Seq<JobEventModel>,
}

impl DeepView for CancelJobReceipt {
    type V = CancelJobReceiptModel;

    open spec fn deep_view(&self) -> CancelJobReceiptModel {
        CancelJobReceiptModel {
            job: self.job.deep_view(),
            events: self.events.deep_view(),
        }
    }
}

impl View for CancelJobReceipt {
    type V = CancelJobReceiptModel;

    #[verifier::inline]
    open spec fn view(&self) -> CancelJobReceiptModel {
        self.deep_view()
    }
}

impl Record for CancelJobReceipt {
    fn duplicate(&self) -> (r: Self) {
        CancelJobReceipt {
            job: self.job.duplicate(),
            events: self.events.duplicate(),
        }
    }

    fn same(&self, other: &Self) -> (r: bool) {
        self.job.same(&other.job)
            && self.events.same(&other.events)
    }
}

impl Clone for CancelJobReceipt {
    fn clone(&self) -> (r: Self)
        ensures
            r.deep_view() == self.deep_view(),
    {
        self.duplicate()
    }
}

#[derive(Debug, PartialEq, Eq)]
pub enum RuntimeError {
    Store(StoreError),
    JobStatusTransition(JobStatusTransitionError),
    ToolOutputRender(ToolOutputRenderError),
    Artifact(ArtifactError),
    InvalidToolRequest { reason: String },
    InvalidToolResult { reason: String },
    ToolOutputTooLarge { reason: String },
}

/// What a [`RuntimeError`] holds.
pub enum RuntimeErrorModel {
    Store(StoreErrorModel),
    JobStatusTransition(JobStatusTransitionError),
    ToolOutputRender(ToolOutputRenderErrorModel),
    Artifact(ArtifactErrorModel),
    InvalidToolRequest { reason: Seq<char> },
    InvalidToolResult { reason: Seq<char> },
    ToolOutputTooLarge { reason: Seq<char> },
}

impl DeepView for RuntimeError {
    type V = RuntimeErrorModel;

    open spec fn deep_view(&self) -> RuntimeErrorModel {
        match self {
            RuntimeError::Store(value) => RuntimeErrorModel::Store(value.deep_view()),
            RuntimeError::JobStatusTransition(value) => {
                RuntimeErrorModel::JobStatusTransition(value.deep_view())
            },
            RuntimeError::ToolOutputRender(value) => {
                RuntimeErrorModel::ToolOutputRender(value.deep_view())
            },
            RuntimeError::Artifact(value) => RuntimeErrorModel::Artifact(value.deep_view()),
            RuntimeError::InvalidToolRequest { reason } => RuntimeErrorModel::InvalidToolRequest {
                reason: reason.deep_view(),
            },
            RuntimeError::InvalidToolResult { reason } => RuntimeErrorModel::InvalidToolResult {
                reason: reason.deep_view(),
            },
            RuntimeError::ToolOutputTooLarge { reason } => RuntimeErrorModel::ToolOutputTooLarge {
                reason: reason.deep_view(),
            },
        }
    }
}

impl View for RuntimeError {
    type V = RuntimeErrorModel;

    #[verifier::inline]
    open spec fn view(&self) -> RuntimeErrorModel {
        self.deep_view()
    }
}

impl Record for RuntimeError {
    fn duplicate(&self) -> (r: Self) {
        match self {
            RuntimeError::Store(value) => RuntimeError::Store(value.duplicate()),
            RuntimeError::JobStatusTransition(value) => {
                RuntimeError::JobStatusTransition(value.duplicate())
            },
            RuntimeError::ToolOutputRender(value) => {
                RuntimeError::ToolOutputRender(value.duplicate())
            },
            RuntimeError::Artifact(value) => RuntimeError::Artifact(value.duplicate()),
            RuntimeError::InvalidToolRequest { reason } => RuntimeError::InvalidToolRequest {
                reason: reason.duplicate(),
            },
            RuntimeError::InvalidToolResult { reason } => RuntimeError::InvalidToolResult {
                reason: reason.duplicate(),
            },
            RuntimeError::ToolOutputTooLarge { reason } => RuntimeError::ToolOutputTooLarge {
                reason: reason.duplicate(),
            },
        }
    }

    fn same(&self, other: &Self) -> (r: bool) {
        match (self, other) {
            (RuntimeError::Store(value_a), RuntimeError::Store(value_b)) => value_a.same(value_b),
            (RuntimeError::JobStatusTransition(value_a), RuntimeError::JobStatusTransition(value_b)) => {
                value_a.same(value_b)
            },
            (RuntimeError::ToolOutputRender(value_a), RuntimeError::ToolOutputRender(value_b)) => {
                value_a.same(value_b)
            },
            (RuntimeError::Artifact(value_a), RuntimeError::Artifact(value_b)) => {
                value_a.same(value_b)
            },
            (
                RuntimeError::InvalidToolRequest { reason: reason_a },
                RuntimeError::InvalidToolRequest { reason: reason_b },
            ) => reason_a.same(reason_b),
            (
                RuntimeError::InvalidToolResult { reason: reason_a },
                RuntimeError::InvalidToolResult { reason: reason_b },
            ) => reason_a.same(reason_b),
            (
                RuntimeError::ToolOutputTooLarge { reason: reason_a },
                RuntimeError::ToolOutputTooLarge { reason: reason_b },
            ) => reason_a.same(reason_b),
            _ => false,
        }
    }
}

impl Clone for RuntimeError {
    fn clone(&self) -> (r: Self)
        ensures
            r.deep_view() == self.deep_view(),
    {
        self.duplicate()
    }
}

pub type RuntimeResult<T> = Result<T, RuntimeError>;

impl JobStatus {
    /// The status as messages name it.
    pub open spec fn shown(self) -> Seq<char> {
        match self {
            JobStatus::Queued => "Queued"@,
            JobStatus::Running => "Running"@,
            JobStatus::Succeeded => "Succeeded"@,
            JobStatus::Failed => "Failed"@,
            JobStatus::Blocked => "Blocked"@,
            JobStatus::Canceled => "Canceled"@,
        }
    }

    pub fn name(self) -> (r: &'static str)
        ensures
            r@ == self.shown(),
    {
        match self {
            JobStatus::Queued => "Queued",
            JobStatus::Running => "Running",
            JobStatus::Succeeded => "Succeeded",
            JobStatus::Failed => "Failed",
            JobStatus::Blocked => "Blocked",
            JobStatus::Canceled => "Canceled",
        }
    }
}

impl ToolResultStatus {
    /// The status as messages name it.
    pub open spec fn shown(self) -> Seq<char> {
        match self {
            ToolResultStatus::Succeeded => "Succeeded"@,
            ToolResultStatus::Failed => "Failed"@,
            ToolResultStatus::Canceled => "Canceled"@,
            ToolResultStatus::TimedOut => "TimedOut"@,
        }
    }

    pub fn name(self) -> (r: &'static str)
        ensures
            r@ == self.shown(),
    {
        match self {
            ToolResultStatus::Succeeded => "Succeeded",
            ToolResultStatus::Failed => "Failed",
            ToolResultStatus::Canceled => "Canceled",
            ToolResultStatus::TimedOut => "TimedOut",
        }
    }
}

/// A number with its sign.
pub open spec fn signed_decimal(n: int) -> Seq<char> {
    if n < 0 {
        "-"@ + crate::text::decimal((-n) as nat)
    } else {
        crate::text::decimal(n as nat)
    }
}

fn signed_text(n: i64) -> (r: String)
    ensures
        r@ == signed_decimal(n as int),
{
    if n < 0 {
        let size: u64 = (-(n + 1)) as u64 + 1;
        "-".to_owned().concat(decimal_text(size).as_str())
    } else {
        decimal_text(n as u64)
    }
}

impl LedgerTimestamp {
    /// The time as messages show it.
    pub open spec fn shown(self) -> Seq<char> {
        "LedgerTimestamp { unix_millis: "@ + signed_decimal(self.unix_millis as int) + " }"@
    }

    pub fn to_text(self) -> (r: String)
        ensures
            r@ == self.shown(),
    {
        "LedgerTimestamp { unix_millis: ".to_owned().concat(
            signed_text(self.unix_millis).as_str(),
        ).concat(" }")
    }
}

impl JobStatusTransitionError {
    /// The error as messages show it.
    pub open spec fn shown(self) -> Seq<char> {
        match self {
            JobStatusTransitionError::InvalidTransition { from, to } =>
                "InvalidTransition { from: "@ + from.shown() + ", to: "@ + to.shown() + " }"@,
            JobStatusTransitionError::NonMonotonicTimestamp { at, latest } =>
                "NonMonotonicTimestamp { at: "@ + at.shown() + ", latest: "@ + latest.shown()
                + " }"@,
        }
    }

    pub fn to_text(self) -> (r: String)
        ensures
            r@ == self.shown(),
    {
        match self {
            JobStatusTransitionError::InvalidTransition { from, to } =>
                "InvalidTransition { from: ".to_owned().concat(from.name()).concat(
                ", to: ",
            ).concat(to.name()).concat(" }"),
            JobStatusTransitionError::NonMonotonicTimestamp { at, latest } =>
                "NonMonotonicTimestamp { at: ".to_owned().concat(at.to_text().as_str()).concat(
                ", latest: ",
            ).concat(latest.to_text().as_str()).concat(" }"),
        }
    }
}

impl RuntimeErrorModel {
    /// The error as a sentence.
    pub open spec fn message(self) -> Seq<char> {
        match self {
            RuntimeErrorModel::Store(error) => error.message(),
            RuntimeErrorModel::JobStatusTransition(error) => "job status transition failed: "@
                + error.shown(),
            RuntimeErrorModel::ToolOutputRender(error) => error.message,
            RuntimeErrorModel::Artifact(error) => error.message(),
            RuntimeErrorModel::InvalidToolRequest { reason } => "invalid tool request: "@ + reason,
            RuntimeErrorModel::InvalidToolResult { reason } => "invalid tool result: "@ + reason,
            RuntimeErrorModel::ToolOutputTooLarge { reason } => reason,
        }
    }
}

impl RuntimeError {
    /// The error as a sentence.
    pub fn to_text(&self) -> (r: String)
        ensures
            r@ == self@.message(),
    {
        match self {
            RuntimeError::Store(error) => error.to_text(),
            RuntimeError::JobStatusTransition(error) =>
                "job status transition failed: ".to_owned().concat((*error).to_text().as_str()),
            RuntimeError::ToolOutputRender(error) => error.to_text(),
            RuntimeError::Artifact(error) => error.to_text(),
            RuntimeError::InvalidToolRequest { reason } =>
                "invalid tool request: ".to_owned().concat(reason.as_str()),
            RuntimeError::InvalidToolResult { reason } =>
                "invalid tool result: ".to_owned().concat(reason.as_str()),
            RuntimeError::ToolOutputTooLarge { reason } => reason.clone(),
        }
    }
}

impl From<StoreError> for RuntimeError {
    fn from(error: StoreError) -> (r: Self) {
        RuntimeError::Store(error)
    }
}

impl vstd::std_specs::convert::FromSpecImpl<StoreError> for RuntimeError {
    open spec fn obeys_from_spec() -> bool {
        true
    }

    open spec fn from_spec(error: StoreError) -> Self {
        RuntimeError::Store(error)
    }
}

impl From<JobStatusTransitionError> for RuntimeError {
    fn from(error: JobStatusTransitionError) -> (r: Self) {
        RuntimeError::JobStatusTransition(error)
    }
}

impl vstd::std_specs::convert::FromSpecImpl<JobStatusTransitionError> for RuntimeError {
    open spec fn obeys_from_spec() -> bool {
        true
    }

    open spec fn from_spec(error: JobStatusTransitionError) -> Self {
        RuntimeError::JobStatusTransition(error)
    }
}

impl From<ToolOutputRenderError> for RuntimeError {
    fn from(error: ToolOutputRenderError) -> (r: Self) {
        RuntimeError::ToolOutputRender(error)
    }
}

impl vstd::std_specs::convert::FromSpecImpl<ToolOutputRenderError> for RuntimeError {
    open spec fn obeys_from_spec() -> bool {
        true
    }

    open spec fn from_spec(error: ToolOutputRenderError) -> Self {
        RuntimeError::ToolOutputRender(error)
    }
}

impl From<ArtifactError> for RuntimeError {
    fn from(error: ArtifactError) -> (r: Self) {
        RuntimeError::Artifact(error)
    }
}

impl vstd::std_specs::convert::FromSpecImpl<ArtifactError> for RuntimeError {
    open spec fn obeys_from_spec() -> bool {
        true
    }

    open spec fn from_spec(error: ArtifactError) -> Self {
        RuntimeError::Artifact(error)
    }
}

/// What a result holds.
pub open spec fn viewed<T: View>(result: RuntimeResult<T>) -> Result<T::V, RuntimeErrorModel> {
    match result {
        Ok(value) => Ok(value@),
        Err(error) => Err(error@),
    }
}

/// A tool that jobs can run.
pub trait RuntimeTool {
    fn tool_id(&self) -> &'static str;

    fn requested_capability(&self) -> &'static str;

    fn declared_effect(&self) -> &'static str;

    fn args_summary(&self, request: &RuntimeJobRequest) -> String;

    /// The paths that the tool will touch; none unless the tool says otherwise.
    fn resolved_paths(&self, request: &RuntimeJobRequest) -> (r: Vec<ResolvedPath>)
        default_ensures
            r@.len() == 0,
    {
        Vec::new()
    }

    fn execute(&self, invocation: &ToolInvocation, request: &RuntimeJobRequest) -> ToolResult;
}

/// What a runtime has from its surroundings: rendering, and artifact stores.
pub trait RuntimeHost: ToolOutputRenderer {
    type Artifacts: ArtifactWriter;

    /// Where artifacts go that no request says anything of.
    fn default_artifact_store(&self) -> ArtifactStoreConfig;

    fn open_artifact_store(&self, config: &ArtifactStoreConfig) -> Self::Artifacts;
}

/// A tool that answers with the goal of the job.
#[derive(Debug, Clone, Copy)]
pub struct EchoTool;

impl Default for EchoTool {
    fn default() -> (r: Self)
        ensures
            r == EchoTool,
    {
        EchoTool
    }
}

/// The fields of an echo's result.
pub open spec fn echo_fields(goal: Seq<char>) -> Seq<ToolResultFieldModel> {
    seq![
        ToolResultFieldModel {
            key: "summary"@,
            value: StructuredValueModel::String("echoed goal: "@ + goal),
        },
        ToolResultFieldModel { key: "goal"@, value: StructuredValueModel::String(goal) },
        ToolResultFieldModel {
            key: "policy.state"@,
            value: StructuredValueModel::String("recorded_before_execution"@),
        },
    ]
}

impl RuntimeTool for EchoTool {
    fn tool_id(&self) -> (r: &'static str)
        ensures
            r@ == "secretary.echo"@,
    {
        "secretary.echo"
    }

    fn requested_capability(&self) -> (r: &'static str)
        ensures
            r@ == "capability.discovery"@,
    {
        "capability.discovery"
    }

    fn declared_effect(&self) -> (r: &'static str)
        ensures
            r@ == "produce a deterministic contract result without external effects"@,
    {
        "produce a deterministic contract result without external effects"
    }

    fn args_summary(&self, request: &RuntimeJobRequest) -> (r: String)
        ensures
            r@ == "goal="@ + request@.goal,
    {
        "goal=".to_owned().concat(request.goal.as_str())
    }

    fn execute(&self, invocation: &ToolInvocation, request: &RuntimeJobRequest) -> (r: ToolResult)
        ensures
            crate::ids::is_id_text("res_"@, r@.id),
            r@.created_at.unix_millis >= 0,
            r@ == (ToolResultModel {
                id: r@.id,
                schema_version: RUNTIME_SCHEMA_VERSION,
                created_at: r@.created_at,
                invocation_id: invocation@.id,
                tool_id: invocation@.tool_id,
                status: ToolResultStatus::Succeeded,
                schema_ref: Some("tool_result.secretary.echo.v1"@),
                fields: echo_fields(request@.goal),
                evidence_refs: Seq::empty(),
                output_refs: Seq::empty(),
                truncation: None,
                redactions: Seq::empty(),
            }),
    {
        let mut fields: Vec<ToolResultField> = Vec::new();
        fields.push(
            ToolResultField {
                key: "summary".to_owned(),
                value: StructuredValue::String(
                    "echoed goal: ".to_owned().concat(request.goal.as_str()),
                ),
            },
        );
        fields.push(
            ToolResultField {
                key: "goal".to_owned(),
                value: StructuredValue::String(request.goal.clone()),
            },
        );
        fields.push(
            ToolResultField {
                key: "policy.state".to_owned(),
                value: StructuredValue::String("recorded_before_execution".to_owned()),
            },
        );
        let result = ToolResult {
            id: ToolResultId::new(),
            schema_version: RUNTIME_SCHEMA_VERSION,
            created_at: LedgerTimestamp::now(),
            invocation_id: invocation.id.clone(),
            tool_id: invocation.tool_id.clone(),
            status: ToolResultStatus::Succeeded,
            schema_ref: Some("tool_result.secretary.echo.v1".to_owned()),
            fields,
            evidence_refs: Vec::new(),
            output_refs: Vec::new(),
            truncation: None,
            redactions: Vec::new(),
        };
        proof {
            assert(result@.fields =~= echo_fields(request@.goal));
            assert(result@.evidence_refs =~= Seq::empty());
            assert(result@.output_refs =~= Seq::empty());
            assert(result@.redactions =~= Seq::empty());
        }
        result
    }
}

} // verus!

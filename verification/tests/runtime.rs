//! Jobs run tools under a policy, and the ledger tells of it.
use atelia_core::artifacts::{ArtifactError, ArtifactResult, ArtifactStoreConfig};
use atelia_core::domain::{
    Actor, CancellationState, EventSeverity, EventSubject, JobEventKind, JobKind, JobRecord,
    JobStatus, JobStatusTransitionError, LedgerTimestamp, OutputRef, PolicyOutcome, RepositoryRecord, RepositoryTrustState,
    StructuredValue, ToolInvocation, ToolResult, ToolResultField, ToolResultStatus,
};
use atelia_core::ids::{OutputRefId, RepositoryId, ToolInvocationId, ToolResultId};
use atelia_core::job_lifecycle::JobLifecycleService;
use atelia_core::job_run::{job_event, refs_for_job};
use atelia_core::requests::{
    EchoTool, RuntimeArtifactSpillover, RuntimeError, RuntimeHost, RuntimeJobRequest, RuntimeTool,
    RUNTIME_SCHEMA_VERSION,
};
use atelia_core::runtime::SecretaryRuntime;
use atelia_core::settings::{
    OversizeOutputPolicy, ToolOutputDefaults, ToolOutputGranularity, ToolOutputVerbosity,
};
use atelia_core::spillover::{ArtifactWriter, ToolResultSpilloverOptions};
use atelia_core::store::{EventCursor, InMemoryStore, JobQuery, SecretaryStore, StoreError};
use atelia_core::tool_output::{
    OutputFormat, RenderOptions, RenderedToolOutput, ToolOutputRenderError, ToolOutputRenderPolicy,
    ToolOutputRenderer,
};
use atelia_core::truncation::oversized_field_bytes;
use serde_json::Value;
use std::cell::{Cell, RefCell};
use std::rc::Rc;

fn actor() -> Actor {
    Actor::Agent {
        id: "agent:test".to_string(),
        display_name: Some("Test Agent".to_string()),
    }
}

fn repository() -> RepositoryRecord {
    RepositoryRecord::new(
        "atelia-secretary".to_string(),
        "/workspace/atelia-secretary".to_string(),
        RepositoryTrustState::Trusted,
        LedgerTimestamp::from_unix_millis(1_700_000_000_000),
    )
}

/// An artifact as it was written: scope, label, media type and bytes.
type Written = Rc<RefCell<Vec<(String, String, String, Vec<u8>)>>>;

struct MemoryArtifacts {
    written: Written,
    fails: bool,
}

impl ArtifactWriter for MemoryArtifacts {
    fn write_artifact_bytes(
        &self,
        scope: &str,
        label: &str,
        media_type: &str,
        bytes: &[u8],
    ) -> ArtifactResult<OutputRef> {
        if self.fails {
            return Err(ArtifactError::Io {
                message: "not a directory".to_string(),
            });
        }
        self.written.borrow_mut().push((
            scope.to_string(),
            label.to_string(),
            media_type.to_string(),
            bytes.to_vec(),
        ));
        Ok(OutputRef {
            id: OutputRefId::new(),
            uri: format!("memory://{}/{}", scope, label),
            media_type: media_type.to_string(),
            label: Some(label.to_string()),
            digest: None,
        })
    }
}

/// Renders a result line by line, or as JSON, and keeps artifacts in memory.
struct TestHost {
    written: Written,
    opened: RefCell<Vec<String>>,
    artifacts_fail: bool,
    renderings_left: Cell<usize>,
}

impl TestHost {
    fn new() -> Self {
        TestHost {
            written: Rc::new(RefCell::new(Vec::new())),
            opened: RefCell::new(Vec::new()),
            artifacts_fail: false,
            renderings_left: Cell::new(usize::MAX),
        }
    }
}

fn shown(value: &StructuredValue) -> String {
    match value {
        StructuredValue::Null => "null".to_string(),
        StructuredValue::Bool(value) => value.to_string(),
        StructuredValue::Integer(value) => value.to_string(),
        StructuredValue::String(value) => value.clone(),
        StructuredValue::StringList(values) => values.join("|"),
    }
}

impl ToolOutputRenderer for TestHost {
    fn render_tool_result_with_policy(
        &self,
        result: &ToolResult,
        policy: &ToolOutputRenderPolicy,
    ) -> Result<RenderedToolOutput, ToolOutputRenderError> {
        if self.renderings_left.get() == 0 {
            return Err(ToolOutputRenderError {
                message: "no rendering left".to_string(),
            });
        }
        self.renderings_left.set(self.renderings_left.get() - 1);
        let fields: Vec<&ToolResultField> = result
            .fields
            .iter()
            .filter(|field| {
                policy.render_options.include_policy || !field.key.starts_with("policy.")
            })
            .collect();
        let kept = policy.max_fields.unwrap_or(fields.len()).min(fields.len());
        let fallback_reason = if kept < fields.len() {
            Some(format!(
                "render policy compacted output to {} field(s)",
                kept
            ))
        } else {
            None
        };
        let body = if policy.render_options.format == OutputFormat::Json {
            let mut object = serde_json::Map::new();
            object.insert("tool_id".to_string(), Value::from(result.tool_id.as_str()));
            let rows: Vec<Value> = fields[..kept]
                .iter()
                .map(|field| {
                    let mut row = serde_json::Map::new();
                    row.insert("key".to_string(), Value::from(field.key.as_str()));
                    row.insert("value".to_string(), Value::from(shown(&field.value)));
                    Value::Object(row)
                })
                .collect();
            object.insert("fields".to_string(), Value::Array(rows));
            Value::Object(object).to_string()
        } else {
            let mut lines: Vec<String> = fields[..kept]
                .iter()
                .map(|field| format!("{}: {}", field.key, shown(&field.value)))
                .collect();
            if let Some(reason) = &fallback_reason {
                lines.push(format!("rendering_truncation_reason: {}", reason));
            }
            lines.push(format!("output_refs[{}]", result.output_refs.len()));
            lines.join("\n")
        };
        Ok(RenderedToolOutput {
            format: policy.render_options.format,
            body,
            fallback_reason,
        })
    }
}

impl RuntimeHost for TestHost {
    type Artifacts = MemoryArtifacts;

    fn default_artifact_store(&self) -> ArtifactStoreConfig {
        ArtifactStoreConfig {
            root_dir: "default".to_string(),
        }
    }

    fn open_artifact_store(&self, config: &ArtifactStoreConfig) -> MemoryArtifacts {
        self.opened.borrow_mut().push(config.root_dir.clone());
        MemoryArtifacts {
            written: self.written.clone(),
            fails: self.artifacts_fail,
        }
    }
}

#[derive(Debug, Clone, Default)]
struct ApprovalTool;

impl RuntimeTool for ApprovalTool {
    fn tool_id(&self) -> &'static str {
        "secretary.approval_fixture"
    }

    fn requested_capability(&self) -> &'static str {
        "external.network"
    }

    fn declared_effect(&self) -> &'static str {
        "would call an external service"
    }

    fn args_summary(&self, request: &RuntimeJobRequest) -> String {
        format!("goal={}", request.goal)
    }

    fn execute(&self, invocation: &ToolInvocation, _request: &RuntimeJobRequest) -> ToolResult {
        ToolResult {
            id: ToolResultId::new(),
            schema_version: RUNTIME_SCHEMA_VERSION,
            created_at: LedgerTimestamp::now(),
            invocation_id: invocation.id.clone(),
            tool_id: invocation.tool_id.clone(),
            status: ToolResultStatus::Succeeded,
            schema_ref: None,
            fields: Vec::new(),
            evidence_refs: Vec::new(),
            output_refs: Vec::new(),
            truncation: None,
            redactions: Vec::new(),
        }
    }
}

#[derive(Debug, Clone, Default)]
struct ReadTool;

impl RuntimeTool for ReadTool {
    fn tool_id(&self) -> &'static str {
        "secretary.read_fixture"
    }

    fn requested_capability(&self) -> &'static str {
        "filesystem.read"
    }

    fn declared_effect(&self) -> &'static str {
        "read repository data"
    }

    fn args_summary(&self, request: &RuntimeJobRequest) -> String {
        format!("goal={}", request.goal)
    }

    fn execute(&self, invocation: &ToolInvocation, _request: &RuntimeJobRequest) -> ToolResult {
        ToolResult {
            id: ToolResultId::new(),
            schema_version: RUNTIME_SCHEMA_VERSION,
            created_at: LedgerTimestamp::now(),
            invocation_id: invocation.id.clone(),
            tool_id: invocation.tool_id.clone(),
            status: ToolResultStatus::Succeeded,
            schema_ref: None,
            fields: Vec::new(),
            evidence_refs: Vec::new(),
            output_refs: Vec::new(),
            truncation: None,
            redactions: Vec::new(),
        }
    }
}

#[derive(Debug, Clone, Default)]
struct WrongInvocationTool;

impl RuntimeTool for WrongInvocationTool {
    fn tool_id(&self) -> &'static str {
        "secretary.bad_fixture"
    }

    fn requested_capability(&self) -> &'static str {
        "capability.discovery"
    }

    fn declared_effect(&self) -> &'static str {
        "return a malformed result"
    }

    fn args_summary(&self, request: &RuntimeJobRequest) -> String {
        format!("goal={}", request.goal)
    }

    fn execute(&self, invocation: &ToolInvocation, _request: &RuntimeJobRequest) -> ToolResult {
        ToolResult {
            id: ToolResultId::new(),
            schema_version: RUNTIME_SCHEMA_VERSION,
            created_at: LedgerTimestamp::now(),
            invocation_id: ToolInvocationId::new(),
            tool_id: invocation.tool_id.clone(),
            status: ToolResultStatus::Succeeded,
            schema_ref: None,
            fields: Vec::new(),
            evidence_refs: Vec::new(),
            output_refs: Vec::new(),
            truncation: None,
            redactions: Vec::new(),
        }
    }
}

#[derive(Debug, Clone)]
struct WrongInvocationLargeOutputTool {
    content: String,
}

impl RuntimeTool for WrongInvocationLargeOutputTool {
    fn tool_id(&self) -> &'static str {
        "secretary.bad_large_fixture"
    }

    fn requested_capability(&self) -> &'static str {
        "capability.discovery"
    }

    fn declared_effect(&self) -> &'static str {
        "return a malformed large result"
    }

    fn args_summary(&self, request: &RuntimeJobRequest) -> String {
        format!("goal={}", request.goal)
    }

    fn execute(&self, invocation: &ToolInvocation, _request: &RuntimeJobRequest) -> ToolResult {
        ToolResult {
            id: ToolResultId::new(),
            schema_version: RUNTIME_SCHEMA_VERSION,
            created_at: LedgerTimestamp::now(),
            invocation_id: ToolInvocationId::new(),
            tool_id: invocation.tool_id.clone(),
            status: ToolResultStatus::Succeeded,
            schema_ref: None,
            fields: vec![ToolResultField {
                key: "content".to_string(),
                value: StructuredValue::String(self.content.clone()),
            }],
            evidence_refs: Vec::new(),
            output_refs: Vec::new(),
            truncation: None,
            redactions: Vec::new(),
        }
    }
}

#[derive(Debug, Clone)]
struct LargeOutputTool {
    content: String,
}

impl RuntimeTool for LargeOutputTool {
    fn tool_id(&self) -> &'static str {
        "secretary.large_output_fixture"
    }

    fn requested_capability(&self) -> &'static str {
        "capability.discovery"
    }

    fn declared_effect(&self) -> &'static str {
        "return a large text field"
    }

    fn args_summary(&self, request: &RuntimeJobRequest) -> String {
        format!("goal={}", request.goal)
    }

    fn execute(&self, invocation: &ToolInvocation, _request: &RuntimeJobRequest) -> ToolResult {
        ToolResult {
            id: ToolResultId::new(),
            schema_version: RUNTIME_SCHEMA_VERSION,
            created_at: LedgerTimestamp::now(),
            invocation_id: invocation.id.clone(),
            tool_id: invocation.tool_id.clone(),
            status: ToolResultStatus::Succeeded,
            schema_ref: Some("tool_result.large_output_fixture.v1".to_string()),
            fields: vec![ToolResultField {
                key: "content".to_string(),
                value: StructuredValue::String(self.content.clone()),
            }],
            evidence_refs: Vec::new(),
            output_refs: Vec::new(),
            truncation: None,
            redactions: Vec::new(),
        }
    }
}

#[derive(Debug, Clone)]
struct LargeOutputListTool {
    values: Vec<String>,
}

impl RuntimeTool for LargeOutputListTool {
    fn tool_id(&self) -> &'static str {
        "secretary.large_output_list_fixture"
    }

    fn requested_capability(&self) -> &'static str {
        "capability.discovery"
    }

    fn declared_effect(&self) -> &'static str {
        "return a large string list field"
    }

    fn args_summary(&self, request: &RuntimeJobRequest) -> String {
        format!("goal={}", request.goal)
    }

    fn execute(&self, invocation: &ToolInvocation, _request: &RuntimeJobRequest) -> ToolResult {
        ToolResult {
            id: ToolResultId::new(),
            schema_version: RUNTIME_SCHEMA_VERSION,
            created_at: LedgerTimestamp::now(),
            invocation_id: invocation.id.clone(),
            tool_id: invocation.tool_id.clone(),
            status: ToolResultStatus::Succeeded,
            schema_ref: Some("tool_result.large_output_list_fixture.v1".to_string()),
            fields: vec![ToolResultField {
                key: "content".to_string(),
                value: StructuredValue::StringList(self.values.clone()),
            }],
            evidence_refs: Vec::new(),
            output_refs: Vec::new(),
            truncation: None,
            redactions: Vec::new(),
        }
    }
}

#[derive(Debug, Clone, Default)]
struct AliasCapabilityTool;

impl RuntimeTool for AliasCapabilityTool {
    fn tool_id(&self) -> &'static str {
        "secretary.alias_capability_fixture"
    }

    fn requested_capability(&self) -> &'static str {
        "policy.check"
    }

    fn declared_effect(&self) -> &'static str {
        "produce a deterministic contract result without external effects"
    }

    fn args_summary(&self, request: &RuntimeJobRequest) -> String {
        format!("goal={}", request.goal)
    }

    fn execute(
        &self,
        invocation: &ToolInvocation,
        request: &RuntimeJobRequest,
    ) -> ToolResult {
        ToolResult {
            id: ToolResultId::new(),
            schema_version: RUNTIME_SCHEMA_VERSION,
            created_at: LedgerTimestamp::now(),
            invocation_id: invocation.id.clone(),
            tool_id: invocation.tool_id.clone(),
            status: ToolResultStatus::Succeeded,
            schema_ref: Some("tool_result.secretary.alias_capability.v1".to_string()),
            fields: vec![
                ToolResultField {
                    key: "summary".to_string(),
                    value: StructuredValue::String(format!(
                        "echoed goal: {}",
                        request.goal
                    )),
                },
                ToolResultField {
                    key: "goal".to_string(),
                    value: StructuredValue::String(request.goal.clone()),
                },
            ],
            evidence_refs: Vec::new(),
            output_refs: Vec::new(),
            truncation: None,
            redactions: Vec::new(),
        }
    }
}

#[derive(Debug, Clone, Default)]
struct EmptyCapabilityTool;

impl RuntimeTool for EmptyCapabilityTool {
    fn tool_id(&self) -> &'static str {
        "secretary.empty_capability_fixture"
    }

    fn requested_capability(&self) -> &'static str {
        ""
    }

    fn declared_effect(&self) -> &'static str {
        "produce a deterministic contract result without external effects"
    }

    fn args_summary(&self, request: &RuntimeJobRequest) -> String {
        format!("goal={}", request.goal)
    }

    fn execute(
        &self,
        invocation: &ToolInvocation,
        _request: &RuntimeJobRequest,
    ) -> ToolResult {
        ToolResult {
            id: ToolResultId::new(),
            schema_version: RUNTIME_SCHEMA_VERSION,
            created_at: LedgerTimestamp::now(),
            invocation_id: invocation.id.clone(),
            tool_id: invocation.tool_id.clone(),
            status: ToolResultStatus::Succeeded,
            schema_ref: Some("tool_result.secretary.empty_capability.v1".to_string()),
            fields: vec![ToolResultField {
                key: "summary".to_string(),
                value: StructuredValue::String("unreachable".to_string()),
            }],
            evidence_refs: Vec::new(),
            output_refs: Vec::new(),
            truncation: None,
            redactions: Vec::new(),
        }
    }
}

#[test]
fn echo_tool_job_records_policy_execution_result_audit_and_rendered_output() {
    let mut runtime = SecretaryRuntime::in_memory();
    let repository = repository();
    runtime
        .store
        .create_repository(repository.clone())
        .unwrap();

    let request = RuntimeJobRequest::new(
        actor(),
        repository.id.clone(),
        JobKind::Read,
        "prove the runtime loop".to_string(),
    );

    let receipt = runtime.run_tool_job(request, &EchoTool, &TestHost::new()).unwrap();

    assert_eq!(JobStatus::Succeeded, receipt.job.status);
    assert!(receipt.job.started_at.is_some());
    assert!(receipt.job.completed_at.is_some());
    assert_eq!(PolicyOutcome::Allowed, receipt.policy_decision.outcome);
    assert!(receipt.tool_invocation.is_some());
    assert!(receipt.tool_result.is_some());
    assert!(receipt.audit_record.is_some());
    assert!(receipt
        .rendered_output
        .as_ref()
        .unwrap()
        .body
        .contains("echoed goal: prove the runtime loop"));
    assert_eq!(7, receipt.events.len());

    let stored_job = runtime.store().get_job(&receipt.job.id).unwrap();
    assert_eq!(JobStatus::Succeeded, stored_job.status);
    assert_eq!(receipt.job.latest_event_id, stored_job.latest_event_id);
    let replayed = runtime
        .store()
        .replay_job_events(EventCursor::Beginning, None)
        .unwrap();
    assert_eq!(receipt.events, replayed);
}

#[test]
fn runtime_uses_settings_render_options_when_request_does_not_override() {
    let mut runtime = SecretaryRuntime::in_memory();
    let repository = repository();
    runtime
        .store
        .create_repository(repository.clone())
        .unwrap();

    let request = RuntimeJobRequest::new(
        actor(),
        repository.id.clone(),
        JobKind::Read,
        "prove settings drive rendering".to_string(),
    )
    .with_tool_output_defaults(ToolOutputDefaults {
        render_options: RenderOptions {
            format: OutputFormat::Json,
            include_policy: true,
            include_diagnostics: true,
            include_cost: true,
        },
        max_inline_bytes: 16 * 1024,
        max_inline_lines: 8,
        verbosity: ToolOutputVerbosity::Normal,
        granularity: ToolOutputGranularity::Full,
        oversize_policy: OversizeOutputPolicy::TruncateWithMetadata,
    });

    let receipt = runtime.run_tool_job(request, &EchoTool, &TestHost::new()).unwrap();
    let rendered = receipt.rendered_output.unwrap();
    let json: serde_json::Value = serde_json::from_str(&rendered.body).unwrap();

    assert_eq!(rendered.format, OutputFormat::Json);
    assert_eq!(json["tool_id"], "secretary.echo");
    assert!(!json["fields"]
        .as_array()
        .unwrap()
        .iter()
        .any(|field| field["key"] == "policy.state"));
}

#[test]
fn runtime_honors_per_request_render_options_as_an_explicit_override() {
    let mut runtime = SecretaryRuntime::in_memory();
    let repository = repository();
    runtime
        .store
        .create_repository(repository.clone())
        .unwrap();

    let request = RuntimeJobRequest::new(
        actor(),
        repository.id.clone(),
        JobKind::Read,
        "prove settings drive rendering".to_string(),
    )
    .with_render_options(RenderOptions {
        format: OutputFormat::Json,
        include_policy: true,
        include_diagnostics: true,
        include_cost: true,
    })
    .with_tool_output_defaults(ToolOutputDefaults {
        render_options: RenderOptions {
            format: OutputFormat::Text,
            include_policy: false,
            include_diagnostics: false,
            include_cost: false,
        },
        max_inline_bytes: 16 * 1024,
        max_inline_lines: 8,
        verbosity: ToolOutputVerbosity::Normal,
        granularity: ToolOutputGranularity::Full,
        oversize_policy: OversizeOutputPolicy::TruncateWithMetadata,
    });

    let receipt = runtime.run_tool_job(request, &EchoTool, &TestHost::new()).unwrap();
    let rendered = receipt.rendered_output.unwrap();
    let json: serde_json::Value = serde_json::from_str(&rendered.body).unwrap();

    assert_eq!(rendered.format, OutputFormat::Json);
    assert_eq!(json["tool_id"], "secretary.echo");
    assert!(!json["fields"]
        .as_array()
        .unwrap()
        .iter()
        .any(|field| field["key"] == "policy.state"));
}

#[test]
fn runtime_exposes_toon_render_fallback_reason_in_rendered_output() {
    let mut runtime = SecretaryRuntime::in_memory();
    let repository = repository();
    runtime
        .store
        .create_repository(repository.clone())
        .unwrap();

    let request = RuntimeJobRequest::new(
        actor(),
        repository.id.clone(),
        JobKind::Read,
        "surface toon render fallback".to_string(),
    )
    .with_tool_output_defaults(ToolOutputDefaults {
        render_options: RenderOptions::new(OutputFormat::Toon),
        max_inline_bytes: 16 * 1024,
        max_inline_lines: 8,
        verbosity: ToolOutputVerbosity::Normal,
        granularity: ToolOutputGranularity::Summary,
        oversize_policy: OversizeOutputPolicy::TruncateWithMetadata,
    });

    let receipt = runtime.run_tool_job(request, &EchoTool, &TestHost::new()).unwrap();
    let rendered = receipt.rendered_output.unwrap();

    assert_eq!(rendered.format, OutputFormat::Toon);
    assert!(rendered
        .fallback_reason
        .as_deref()
        .unwrap()
        .contains("render policy compacted output"));
    assert!(rendered.body.contains("rendering_truncation_reason"));
}

#[test]
fn blocked_policy_stops_before_tool_invocation() {
    let mut runtime = SecretaryRuntime::in_memory();
    let mut repository = repository();
    repository.trust_state = RepositoryTrustState::Blocked;
    runtime
        .store
        .create_repository(repository.clone())
        .unwrap();

    let request = RuntimeJobRequest::new(
        actor(),
        repository.id.clone(),
        JobKind::Read,
        "should not execute".to_string(),
    );

    let receipt = runtime.run_tool_job(request, &ReadTool, &TestHost::new()).unwrap();

    assert_eq!(JobStatus::Blocked, receipt.job.status);
    assert_eq!(PolicyOutcome::Blocked, receipt.policy_decision.outcome);
    assert!(receipt.tool_invocation.is_none());
    assert!(receipt.tool_result.is_none());
    assert!(receipt.rendered_output.is_none());
    assert!(runtime.store().list_tool_invocations().unwrap().is_empty());
    assert_eq!(3, receipt.events.len());
}

#[test]
fn runtime_rejects_oversized_tool_output_when_policy_is_reject() {
    let mut runtime = SecretaryRuntime::in_memory();
    let repository = repository();
    runtime
        .store
        .create_repository(repository.clone())
        .unwrap();

    let request = RuntimeJobRequest::new(
        actor(),
        repository.id.clone(),
        JobKind::Read,
        "oversized output".to_string(),
    )
    .with_tool_output_defaults(ToolOutputDefaults {
        max_inline_bytes: 8,
        oversize_policy: OversizeOutputPolicy::RejectOversize,
        ..ToolOutputDefaults::default()
    });
    let tool = LargeOutputTool {
        content: "0123456789abcdef".to_string(),
    };

    let error = runtime.run_tool_job(request, &tool, &TestHost::new()).unwrap_err();

    assert!(matches!(error, RuntimeError::ToolOutputTooLarge { .. }));
    let reason = match error {
        RuntimeError::ToolOutputTooLarge { reason } => reason,
        _ => unreachable!(),
    };
    assert!(reason.contains("tool output field(s) exceed max_inline_bytes=8"));
    assert!(runtime.store().list_tool_results().unwrap().is_empty());
    let jobs = runtime.store().list_jobs().unwrap();
    assert_eq!(1, jobs.len());
    assert_eq!(JobStatus::Failed, jobs[0].status);
    assert!(jobs[0].completed_at.is_some());
}

#[test]
fn runtime_truncates_oversized_string_tool_output_fields_without_explicit_spillover() {
    let mut runtime = SecretaryRuntime::in_memory();
    let repository = repository();
    runtime
        .store
        .create_repository(repository.clone())
        .unwrap();

    let request = RuntimeJobRequest::new(
        actor(),
        repository.id.clone(),
        JobKind::Read,
        "oversized output".to_string(),
    )
    .with_tool_output_defaults(ToolOutputDefaults {
        max_inline_bytes: 8,
        oversize_policy: OversizeOutputPolicy::TruncateWithMetadata,
        ..ToolOutputDefaults::default()
    });
    let tool = LargeOutputTool {
        content: "0123456789abcdef".to_string(),
    };

    let receipt = runtime.run_tool_job(request, &tool, &TestHost::new()).unwrap();
    let result = receipt.tool_result.unwrap();
    let content = result
        .fields
        .iter()
        .find(|field| field.key == "content")
        .and_then(|field| match &field.value {
            StructuredValue::String(value) => Some(value.as_str()),
            _ => None,
        })
        .expect("content field should be a string");
    assert_eq!(content.len(), 8);
    assert_eq!(content, "01234567");

    let truncation = result
        .truncation
        .expect("truncation metadata should be set");
    assert_eq!(truncation.original_bytes, 16);
    assert_eq!(truncation.retained_bytes, 8);
    assert_eq!(truncation.reason, "runtime truncate_with_metadata");
    assert!(result.output_refs.is_empty());
    assert!(receipt.audit_record.unwrap().output_refs.is_empty());
}

#[test]
fn runtime_truncates_oversized_string_list_tool_output_fields_without_explicit_spillover() {
    let mut runtime = SecretaryRuntime::in_memory();
    let repository = repository();
    runtime
        .store
        .create_repository(repository.clone())
        .unwrap();

    let request = RuntimeJobRequest::new(
        actor(),
        repository.id.clone(),
        JobKind::Read,
        "oversized list output".to_string(),
    )
    .with_tool_output_defaults(ToolOutputDefaults {
        max_inline_bytes: 8,
        oversize_policy: OversizeOutputPolicy::TruncateWithMetadata,
        ..ToolOutputDefaults::default()
    });
    let tool = LargeOutputListTool {
        values: vec!["hello".into(), "world".into(), "!!!".into()],
    };

    let receipt = runtime.run_tool_job(request, &tool, &TestHost::new()).unwrap();
    let result = receipt.tool_result.unwrap();
    let content = result
        .fields
        .iter()
        .find(|field| field.key == "content")
        .and_then(|field| match &field.value {
            StructuredValue::StringList(values) => Some(values.clone()),
            _ => None,
        })
        .expect("content field should be a list");
    assert_eq!(content, vec!["hello".to_string(), "wo".to_string()]);

    let truncation = result
        .truncation
        .expect("truncation metadata should be set");
    assert_eq!(truncation.original_bytes, 15);
    assert_eq!(truncation.retained_bytes, 8);
    assert_eq!(truncation.reason, "runtime truncate_with_metadata");
}

#[test]
fn oversized_field_bytes_counts_string_list_with_newline_separators() {
    let field = ToolResultField {
        key: "content".to_string(),
        value: StructuredValue::StringList(vec!["aa".into(), "bb".into(), "c".into()]),
    };

    assert_eq!(oversized_field_bytes(&field, 4), Some(7));
    assert_eq!(oversized_field_bytes(&field, 7), None);

    let empty_field = ToolResultField {
        key: "empty".to_string(),
        value: StructuredValue::StringList(Vec::new()),
    };
    assert_eq!(oversized_field_bytes(&empty_field, 0), None);
}

#[test]
fn needs_approval_policy_stops_before_tool_invocation() {
    let mut runtime = SecretaryRuntime::in_memory();
    let repository = repository();
    runtime
        .store
        .create_repository(repository.clone())
        .unwrap();

    let request = RuntimeJobRequest::new(
        actor(),
        repository.id.clone(),
        JobKind::Read,
        "external lookup".to_string(),
    );

    let receipt = runtime.run_tool_job(request, &ApprovalTool, &TestHost::new()).unwrap();

    assert_eq!(JobStatus::Blocked, receipt.job.status);
    assert_eq!(
        PolicyOutcome::NeedsApproval,
        receipt.policy_decision.outcome
    );
    assert!(receipt.tool_invocation.is_none());
    assert!(receipt.tool_result.is_none());
    assert!(runtime.store().list_tool_invocations().unwrap().is_empty());
    assert_eq!(3, receipt.events.len());
}

#[test]
fn runtime_rejects_tool_result_for_wrong_invocation() {
    let mut runtime = SecretaryRuntime::in_memory();
    let repository = repository();
    runtime
        .store
        .create_repository(repository.clone())
        .unwrap();

    let request = RuntimeJobRequest::new(
        actor(),
        repository.id.clone(),
        JobKind::Read,
        "malformed result".to_string(),
    );

    let error = runtime
        .run_tool_job(request, &WrongInvocationTool, &TestHost::new())
        .unwrap_err();

    assert!(matches!(error, RuntimeError::InvalidToolResult { .. }));
    let jobs = runtime.store().list_jobs().unwrap();
    assert_eq!(1, jobs.len());
    assert_eq!(JobStatus::Failed, jobs[0].status);
    assert!(jobs[0].completed_at.is_some());
    assert!(runtime.store().list_tool_results().unwrap().is_empty());
}

#[test]
fn runtime_uses_tool_capability_when_request_hints_are_empty() {
    let mut runtime = SecretaryRuntime::in_memory();
    let repository = repository();
    runtime
        .store
        .create_repository(repository.clone())
        .unwrap();

    let request = RuntimeJobRequest::new(
        actor(),
        repository.id.clone(),
        JobKind::Read,
        "read workspace data".to_string(),
    );

    let receipt = runtime.run_tool_job(request, &ReadTool, &TestHost::new()).unwrap();

    assert_eq!(
        "filesystem.read",
        receipt.policy_decision.requested_capability
    );
    assert_eq!(
        "filesystem.read",
        receipt
            .tool_invocation
            .as_ref()
            .unwrap()
            .requested_capability
    );
    assert_eq!(JobStatus::Succeeded, receipt.job.status);
}

#[test]
fn runtime_accepts_policy_check_alias_for_informational_capability() {
    let mut runtime = SecretaryRuntime::in_memory();
    let repository = repository();
    runtime
        .store
        .create_repository(repository.clone())
        .unwrap();

    let request = RuntimeJobRequest::new(
        actor(),
        repository.id.clone(),
        JobKind::Read,
        "read workspace data".to_string(),
    )
    .with_requested_capabilities(vec!["policy.check".to_string()]);

    let receipt = runtime.run_tool_job(request, &EchoTool, &TestHost::new()).unwrap();

    assert_eq!(JobStatus::Succeeded, receipt.job.status);
    assert_eq!(
        "capability.discovery",
        receipt.policy_decision.requested_capability
    );
    assert_eq!(
        "capability.discovery",
        receipt
            .tool_invocation
            .as_ref()
            .unwrap()
            .requested_capability
    );
    assert_eq!(
        "capability.discovery",
        receipt.audit_record.as_ref().unwrap().requested_capability
    );
}

#[test]
fn runtime_accepts_canonical_hint_for_alias_requested_capability() {
    let mut runtime = SecretaryRuntime::in_memory();
    let repository = repository();
    runtime
        .store
        .create_repository(repository.clone())
        .unwrap();

    let request = RuntimeJobRequest::new(
        actor(),
        repository.id.clone(),
        JobKind::Read,
        "read workspace data".to_string(),
    )
    .with_requested_capabilities(vec!["capability.discovery".to_string()]);

    let receipt = runtime.run_tool_job(request, &AliasCapabilityTool, &TestHost::new()).unwrap();

    assert_eq!(JobStatus::Succeeded, receipt.job.status);
    assert_eq!(
        "capability.discovery",
        receipt.policy_decision.requested_capability
    );
    assert_eq!(
        "capability.discovery",
        receipt
            .tool_invocation
            .as_ref()
            .unwrap()
            .requested_capability
    );
    assert_eq!(
        "capability.discovery",
        receipt.audit_record.as_ref().unwrap().requested_capability
    );
}

#[test]
fn runtime_rejects_mismatched_requested_capability_hints_before_side_effects() {
    let mut runtime = SecretaryRuntime::in_memory();
    let repository = repository();
    runtime
        .store
        .create_repository(repository.clone())
        .unwrap();

    let request = RuntimeJobRequest::new(
        actor(),
        repository.id.clone(),
        JobKind::Read,
        "read workspace data".to_string(),
    )
    .with_requested_capabilities(vec!["capability.discovery".to_string()]);

    let error = runtime.run_tool_job(request, &ReadTool, &TestHost::new()).unwrap_err();

    assert!(matches!(error, RuntimeError::InvalidToolRequest { .. }));
    assert!(runtime.store().list_jobs().unwrap().is_empty());
    assert!(runtime.store().list_policy_decisions().unwrap().is_empty());
    assert!(runtime.store().list_tool_invocations().unwrap().is_empty());
    assert!(runtime.store().list_tool_results().unwrap().is_empty());
}

#[test]
fn runtime_rejects_empty_tool_requested_capability_before_side_effects() {
    let mut runtime = SecretaryRuntime::in_memory();
    let repository = repository();
    runtime
        .store
        .create_repository(repository.clone())
        .unwrap();

    let request = RuntimeJobRequest::new(
        actor(),
        repository.id.clone(),
        JobKind::Read,
        "read workspace data".to_string(),
    );

    let error = runtime
        .run_tool_job(request, &EmptyCapabilityTool, &TestHost::new())
        .unwrap_err();

    assert!(matches!(
        error,
        RuntimeError::InvalidToolRequest { reason } if reason == "requested_capability must not be empty"
    ));
    assert!(runtime.store().list_jobs().unwrap().is_empty());
    assert!(runtime.store().list_policy_decisions().unwrap().is_empty());
    assert!(runtime.store().list_tool_invocations().unwrap().is_empty());
    assert!(runtime.store().list_tool_results().unwrap().is_empty());
    assert!(runtime.store().list_audit_records().unwrap().is_empty());
}

fn service_with_repo() -> (JobLifecycleService, RepositoryRecord) {
    let mut service = JobLifecycleService::in_memory();
    let repo = repository();
    service
        .runtime
        .store
        .create_repository(repo.clone())
        .unwrap();
    (service, repo)
}

fn seed_job_in_status(
    store: &mut InMemoryStore,
    repository_id: RepositoryId,
    target_status: JobStatus,
) -> JobRecord {
    let created_at = LedgerTimestamp::from_unix_millis(1_700_000_001_000);
    let mut job = JobRecord::new(
        actor(),
        repository_id,
        JobKind::Read,
        "seeded job".to_string(),
        created_at,
    );

    let submit_event = job_event(
        EventSubject::job(&job.id),
        JobEventKind::JobSubmitted,
        EventSeverity::Info,
        "job submitted".to_string(),
        refs_for_job(&job),
    );
    let event = store
        .create_job_with_initial_event(job.clone(), submit_event)
        .unwrap();
    job.latest_event_id = Some(event.id);

    if target_status != JobStatus::Queued {
        let at = LedgerTimestamp::from_unix_millis(created_at.unix_millis + 1000);
        let from = job.status;
        job.transition_status(target_status, at).unwrap();
        let status_event = job_event(
            EventSubject::job(&job.id),
            JobEventKind::JobStatusChanged {
                from,
                to: target_status,
            },
            EventSeverity::Info,
            format!("job transitioned to {:?}", target_status),
            refs_for_job(&job),
        );
        let event = store
            .append_job_event_and_update_job(job.clone(), status_event)
            .unwrap();
        job.latest_event_id = Some(event.id);
    }

    job
}

#[test]
fn lifecycle_submit_echo_traverses_queued_running_succeeded() {
    let (mut service, repo) = service_with_repo();

    let request = RuntimeJobRequest::new(
        actor(),
        repo.id.clone(),
        JobKind::Read,
        "lifecycle echo test".to_string(),
    );
    let receipt = service.submit_echo_job(request, &TestHost::new()).unwrap();

    assert_eq!(JobStatus::Succeeded, receipt.job.status);
    assert!(receipt.job.started_at.is_some());
    assert!(receipt.job.completed_at.is_some());
    assert!(receipt.tool_result.is_some());

    let stored = service.get_job(&receipt.job.id).unwrap();
    assert_eq!(JobStatus::Succeeded, stored.status);

    let all = service.list_jobs().unwrap();
    assert_eq!(1, all.len());

    let page = service
        .query_jobs(JobQuery {
            status: Some(JobStatus::Succeeded),
            ..JobQuery::default()
        })
        .unwrap();
    assert_eq!(1, page.jobs.len());
    assert!(page.next_page_token.is_none());
}

#[test]
fn lifecycle_blocked_repo_stops_before_tool_execution() {
    let mut service = JobLifecycleService::in_memory();
    let mut repo = repository();
    repo.trust_state = RepositoryTrustState::Blocked;
    service
        .runtime
        .store
        .create_repository(repo.clone())
        .unwrap();

    let request =
        RuntimeJobRequest::new(actor(), repo.id.clone(), JobKind::Read, "blocked test".to_string());
    let receipt = service.submit_echo_job(request, &TestHost::new()).unwrap();

    assert_eq!(JobStatus::Blocked, receipt.job.status);
    assert!(receipt.tool_invocation.is_none());
    assert!(receipt.tool_result.is_none());

    let stored = service.get_job(&receipt.job.id).unwrap();
    assert_eq!(JobStatus::Blocked, stored.status);
}

#[test]
fn lifecycle_cancel_queued_job_emits_ledger_events() {
    let (mut service, repo) = service_with_repo();
    let job = seed_job_in_status(
        &mut service.runtime.store,
        repo.id.clone(),
        JobStatus::Queued,
    );

    let receipt = service
        .cancel_job(&job.id, "user requested cancel".to_string())
        .unwrap();

    assert_eq!(JobStatus::Canceled, receipt.job.status);
    assert_eq!(CancellationState::Requested, receipt.job.cancellation_state);
    assert!(receipt.job.completed_at.is_some());
    assert_eq!(2, receipt.events.len());
    assert!(matches!(
        receipt.events[0].kind,
        JobEventKind::CancellationRequested
    ));
    assert!(matches!(
        receipt.events[1].kind,
        JobEventKind::JobStatusChanged {
            from: JobStatus::Queued,
            to: JobStatus::Canceled
        }
    ));

    let stored = service.get_job(&job.id).unwrap();
    assert_eq!(JobStatus::Canceled, stored.status);
    assert_eq!(CancellationState::Requested, stored.cancellation_state);
}

#[test]
fn lifecycle_cancel_running_job_emits_ledger_events() {
    let (mut service, repo) = service_with_repo();
    let job = seed_job_in_status(
        &mut service.runtime.store,
        repo.id.clone(),
        JobStatus::Running,
    );

    let receipt = service.cancel_job(&job.id, "timeout exceeded".to_string()).unwrap();

    assert_eq!(JobStatus::Canceled, receipt.job.status);
    assert_eq!(CancellationState::Requested, receipt.job.cancellation_state);
    assert!(receipt.job.completed_at.is_some());
    assert_eq!(2, receipt.events.len());
    assert!(matches!(
        receipt.events[1].kind,
        JobEventKind::JobStatusChanged {
            from: JobStatus::Running,
            to: JobStatus::Canceled
        }
    ));

    let stored = service.get_job(&job.id).unwrap();
    assert_eq!(JobStatus::Canceled, stored.status);
}

#[test]
fn lifecycle_atomic_cancel_rejects_duplicate_event_without_partial_update() {
    let (mut service, repo) = service_with_repo();
    let job = seed_job_in_status(
        &mut service.runtime.store,
        repo.id.clone(),
        JobStatus::Queued,
    );

    let mut cancellation_requested_job = job.clone();
    cancellation_requested_job.cancellation_state = CancellationState::Requested;
    let cancel_event = job_event(
        EventSubject::job(&job.id),
        JobEventKind::CancellationRequested,
        EventSeverity::Warning,
        "user requested cancel".to_string(),
        refs_for_job(&job),
    );

    let mut canceled_job = cancellation_requested_job.clone();
    canceled_job.latest_event_id = Some(cancel_event.id.clone());
    canceled_job
        .transition_status(JobStatus::Canceled, LedgerTimestamp::now())
        .unwrap();
    let mut status_event = job_event(
        EventSubject::job(&job.id),
        JobEventKind::JobStatusChanged {
            from: JobStatus::Queued,
            to: JobStatus::Canceled,
        },
        EventSeverity::Warning,
        "job cancelled".to_string(),
        refs_for_job(&canceled_job),
    );
    status_event.id = cancel_event.id.clone();

    assert!(matches!(
        service.runtime.store.append_job_events_and_update_job(
            cancellation_requested_job,
            cancel_event,
            canceled_job,
            status_event,
        ),
        Err(StoreError::DuplicateId {
            collection: "job_events",
            ..
        })
    ));

    let stored = service.get_job(&job.id).unwrap();
    assert_eq!(JobStatus::Queued, stored.status);
    assert_eq!(CancellationState::NotRequested, stored.cancellation_state);
    assert_eq!(job.latest_event_id, stored.latest_event_id);
}

#[test]
fn lifecycle_cancel_rejects_terminal_job() {
    let (mut service, repo) = service_with_repo();
    let request =
        RuntimeJobRequest::new(actor(), repo.id.clone(), JobKind::Read, "already done".to_string());
    let done = service.submit_echo_job(request, &TestHost::new()).unwrap();
    assert_eq!(JobStatus::Succeeded, done.job.status);

    let error = service.cancel_job(&done.job.id, "too late".to_string()).unwrap_err();
    assert!(matches!(
        error,
        RuntimeError::Store(StoreError::Conflict { .. })
    ));
}

#[test]
fn lifecycle_replay_events_from_cursors() {
    let (mut service, repo) = service_with_repo();

    let r1 = service
        .submit_echo_job(
            RuntimeJobRequest::new(
                actor(),
                repo.id.clone(),
                JobKind::Read,
                "first job".to_string(),
            ),
            &TestHost::new(),
        )
        .unwrap();
    let _r2 = service
        .submit_echo_job(
            RuntimeJobRequest::new(
                actor(),
                repo.id.clone(),
                JobKind::Read,
                "second job".to_string(),
            ),
            &TestHost::new(),
        )
        .unwrap();

    let all = service.replay_events(EventCursor::Beginning, None).unwrap();
    assert_eq!(14, all.len());

    let mid_event = &r1.events[3];
    let after = service
        .replay_events(EventCursor::AfterEventId(mid_event.id.clone()), None)
        .unwrap();
    assert_eq!(10, after.len());

    let limited = service
        .replay_events(EventCursor::Beginning, Some(5))
        .unwrap();
    assert_eq!(5, limited.len());

    let after_seq = service
        .replay_events(EventCursor::AfterSequence(mid_event.sequence_number), None)
        .unwrap();
    assert_eq!(after.len(), after_seq.len());
}

fn spilling(root: &str, max_inline_bytes: usize) -> RuntimeArtifactSpillover {
    RuntimeArtifactSpillover::new(
        ArtifactStoreConfig {
            root_dir: root.to_string(),
        },
        ToolResultSpilloverOptions::new(max_inline_bytes),
    )
}

fn runtime_with_repo() -> (SecretaryRuntime, RepositoryRecord) {
    let mut runtime = SecretaryRuntime::in_memory();
    let repo = repository();
    runtime.store.create_repository(repo.clone()).unwrap();
    (runtime, repo)
}

fn request_for(repo: &RepositoryRecord, goal: &str) -> RuntimeJobRequest {
    RuntimeJobRequest::new(actor(), repo.id.clone(), JobKind::Read, goal.to_string())
}

fn large_output() -> LargeOutputTool {
    LargeOutputTool {
        content: "0123456789abcdef".to_string(),
    }
}

#[test]
fn large_output_goes_to_the_store_of_the_request() {
    let (mut runtime, repo) = runtime_with_repo();
    let host = TestHost::new();
    let request = request_for(&repo, "large output").with_artifact_spillover(spilling("root", 8));

    let receipt = runtime.run_tool_job(request, &large_output(), &host).unwrap();

    let result = receipt.tool_result.unwrap();
    assert_eq!(1, result.output_refs.len());
    assert_eq!(
        result.output_refs,
        receipt.audit_record.as_ref().unwrap().output_refs
    );
    assert_eq!(vec!["root".to_string()], *host.opened.borrow());
    assert_eq!(
        vec![(
            repo.id.as_str().to_string(),
            "secretary.large_output_fixture.content".to_string(),
            "text/plain; charset=utf-8".to_string(),
            b"0123456789abcdef".to_vec(),
        )],
        *host.written.borrow()
    );
    let rendered = receipt.rendered_output.unwrap().body;
    assert!(rendered.contains("output_refs[1]"));
    assert!(rendered.contains("artifact_ref "));
}

#[test]
fn large_output_goes_to_the_default_store_where_the_policy_says_so() {
    let (mut runtime, repo) = runtime_with_repo();
    let host = TestHost::new();
    let request =
        request_for(&repo, "large output").with_tool_output_defaults(ToolOutputDefaults {
            max_inline_bytes: 8,
            oversize_policy: OversizeOutputPolicy::SpillToArtifactRef,
            ..ToolOutputDefaults::default()
        });

    let receipt = runtime.run_tool_job(request, &large_output(), &host).unwrap();

    assert_eq!(vec!["default".to_string()], *host.opened.borrow());
    assert_eq!(1, host.written.borrow().len());
    assert_eq!(1, receipt.tool_result.unwrap().output_refs.len());
}

#[test]
fn failing_artifact_store_fails_the_job() {
    let (mut runtime, repo) = runtime_with_repo();
    let host = TestHost {
        artifacts_fail: true,
        ..TestHost::new()
    };
    let request = request_for(&repo, "large output").with_artifact_spillover(spilling("root", 8));

    let error = runtime
        .run_tool_job(request, &large_output(), &host)
        .unwrap_err();

    assert!(matches!(error, RuntimeError::Artifact(_)));
    assert_eq!("artifact io failed: not a directory", error.to_text());
    let jobs = runtime.store().list_jobs().unwrap();
    assert_eq!(1, jobs.len());
    assert_eq!(JobStatus::Failed, jobs[0].status);
    assert!(jobs[0].completed_at.is_some());
    assert!(runtime.store().list_tool_results().unwrap().is_empty());
    let events = runtime
        .store()
        .replay_job_events(EventCursor::Beginning, None)
        .unwrap();
    assert_eq!(5, events.len());
    assert_eq!("artifact spillover failed", events[4].public_message);
    assert_eq!(EventSeverity::Error, events[4].severity);
}

#[test]
fn malformed_results_are_not_written_to_artifacts() {
    let (mut runtime, repo) = runtime_with_repo();
    let host = TestHost::new();
    let request =
        request_for(&repo, "malformed large output").with_artifact_spillover(spilling("root", 8));
    let tool = WrongInvocationLargeOutputTool {
        content: "0123456789abcdef".to_string(),
    };

    let error = runtime.run_tool_job(request, &tool, &host).unwrap_err();

    assert!(matches!(error, RuntimeError::InvalidToolResult { .. }));
    assert!(host.written.borrow().is_empty());
    let jobs = runtime.store().list_jobs().unwrap();
    assert_eq!(JobStatus::Failed, jobs[0].status);
}

#[test]
fn runtime_renders_tool_output_before_artifact_spillover() {
    let (mut runtime, repo) = runtime_with_repo();
    let host = TestHost::new();
    let request = request_for(&repo, "render fails before spill")
        .with_artifact_spillover(spilling("root", 8))
        .with_tool_output_defaults(ToolOutputDefaults {
            max_inline_bytes: 8,
            oversize_policy: OversizeOutputPolicy::RejectOversize,
            ..ToolOutputDefaults::default()
        });

    let error = runtime
        .run_tool_job(request, &large_output(), &host)
        .unwrap_err();

    match error {
        RuntimeError::ToolOutputTooLarge { reason } => assert_eq!(
            "tool output field(s) exceed max_inline_bytes=8 with configured policy \
             reject_oversize: content (16 bytes)",
            reason
        ),
        other => panic!("expected a rejection, got {other:?}"),
    }
    assert!(host.opened.borrow().is_empty());
    assert!(host.written.borrow().is_empty());
    assert!(runtime.store().list_tool_results().unwrap().is_empty());
    let jobs = runtime.store().list_jobs().unwrap();
    assert_eq!(1, jobs.len());
    assert_eq!(JobStatus::Failed, jobs[0].status);
    assert!(jobs[0].started_at.is_some());
    assert_eq!(Some(jobs[0].updated_at), jobs[0].completed_at);
}

#[test]
fn failing_renderer_fails_the_job_before_artifacts_are_written() {
    let (mut runtime, repo) = runtime_with_repo();
    let host = TestHost {
        renderings_left: Cell::new(0),
        ..TestHost::new()
    };
    let request = request_for(&repo, "render fails").with_artifact_spillover(spilling("root", 8));

    let error = runtime
        .run_tool_job(request, &large_output(), &host)
        .unwrap_err();

    assert!(matches!(error, RuntimeError::ToolOutputRender(_)));
    assert!(host.written.borrow().is_empty());
    let events = runtime
        .store()
        .replay_job_events(EventCursor::Beginning, None)
        .unwrap();
    assert_eq!(
        "tool output rendering failed",
        events.last().unwrap().public_message
    );
}

#[test]
fn job_that_has_ended_cannot_fail_on_a_second_rendering() {
    let (mut runtime, repo) = runtime_with_repo();
    let host = TestHost {
        renderings_left: Cell::new(1),
        ..TestHost::new()
    };
    let request = request_for(&repo, "render again").with_artifact_spillover(spilling("root", 8));

    let error = runtime
        .run_tool_job(request, &large_output(), &host)
        .unwrap_err();

    assert!(matches!(error, RuntimeError::JobStatusTransition(_)));
    let jobs = runtime.store().list_jobs().unwrap();
    assert_eq!(JobStatus::Succeeded, jobs[0].status);
    assert_eq!(1, runtime.store().list_tool_results().unwrap().len());
}

/// Gives the large output, and fails.
struct FailingLargeOutputTool {
    inner: LargeOutputTool,
}

impl RuntimeTool for FailingLargeOutputTool {
    fn tool_id(&self) -> &'static str {
        self.inner.tool_id()
    }

    fn requested_capability(&self) -> &'static str {
        self.inner.requested_capability()
    }

    fn declared_effect(&self) -> &'static str {
        self.inner.declared_effect()
    }

    fn args_summary(&self, request: &RuntimeJobRequest) -> String {
        self.inner.args_summary(request)
    }

    fn execute(&self, invocation: &ToolInvocation, request: &RuntimeJobRequest) -> ToolResult {
        ToolResult {
            status: ToolResultStatus::Failed,
            ..self.inner.execute(invocation, request)
        }
    }
}

#[test]
fn failed_job_is_marked_again_where_its_result_cannot_be_rendered() {
    let (mut runtime, repo) = runtime_with_repo();
    let host = TestHost {
        renderings_left: Cell::new(1),
        ..TestHost::new()
    };
    let request = request_for(&repo, "fail twice").with_artifact_spillover(spilling("root", 8));
    let tool = FailingLargeOutputTool {
        inner: large_output(),
    };

    let error = runtime.run_tool_job(request, &tool, &host).unwrap_err();

    assert!(matches!(error, RuntimeError::ToolOutputRender(_)));
    let jobs = runtime.store().list_jobs().unwrap();
    assert_eq!(JobStatus::Failed, jobs[0].status);
    let events = runtime
        .store()
        .replay_job_events(EventCursor::Beginning, None)
        .unwrap();
    assert_eq!(8, events.len());
    assert_eq!("job completed", events[6].public_message);
    assert_eq!("tool output rendering failed", events[7].public_message);
    assert_eq!(Some(events[7].id.clone()), jobs[0].latest_event_id);
}

#[test]
fn events_of_an_echo_job_tell_each_step() {
    let (mut runtime, repo) = runtime_with_repo();
    let request = request_for(&repo, "tell each step");

    let receipt = runtime
        .run_tool_job(request, &EchoTool, &TestHost::new())
        .unwrap();

    let messages: Vec<&str> = receipt
        .events
        .iter()
        .map(|event| event.public_message.as_str())
        .collect();
    assert_eq!(
        vec![
            "job submitted",
            "Informational status or capability discovery is allowed.",
            "job running",
            "tool invoked",
            "tool result recorded",
            "audit record created",
            "job completed",
        ],
        messages
    );
    let numbers: Vec<u64> = receipt
        .events
        .iter()
        .map(|event| event.sequence_number)
        .collect();
    assert_eq!(vec![1, 2, 3, 4, 5, 6, 7], numbers);
    assert_eq!(
        "secretary.echo completed with Succeeded",
        receipt.audit_record.unwrap().effect_summary
    );
    assert_eq!(
        "goal=tell each step",
        receipt.tool_invocation.unwrap().args_summary
    );
}

#[test]
fn unknown_repository_is_reported() {
    let mut runtime = SecretaryRuntime::in_memory();
    let repo = repository();

    let error = runtime
        .run_tool_job(request_for(&repo, "nowhere"), &EchoTool, &TestHost::new())
        .unwrap_err();

    assert!(matches!(
        error,
        RuntimeError::Store(StoreError::NotFound {
            collection: "repositories",
            ..
        })
    ));
    assert!(runtime.store().list_jobs().unwrap().is_empty());
}

#[test]
fn hints_are_checked_before_the_repository_is_looked_up() {
    let mut service = JobLifecycleService::in_memory();
    let repo = repository();
    for hint in ["fs.read", " ", "no such capability"] {
        let request = request_for(&repo, "nowhere")
            .with_requested_capabilities(vec!["status".to_string(), hint.to_string()]);

        let error = service
            .submit_echo_job(request, &TestHost::new())
            .unwrap_err();

        assert!(matches!(error, RuntimeError::InvalidToolRequest { .. }));
    }
    let request = request_for(&repo, "nowhere")
        .with_requested_capabilities(vec!["status".to_string(), " Policy-Check ".to_string()]);
    let error = service
        .submit_echo_job(request, &TestHost::new())
        .unwrap_err();
    assert!(matches!(
        error,
        RuntimeError::Store(StoreError::NotFound {
            collection: "repositories",
            ..
        })
    ));
    assert!(service.list_jobs().unwrap().is_empty());
    assert!(service
        .replay_events(EventCursor::Beginning, None)
        .unwrap()
        .is_empty());
}

#[test]
fn jobs_tell_when_they_started_and_ended() {
    let (mut runtime, repo) = runtime_with_repo();

    let receipt = runtime
        .run_tool_job(request_for(&repo, "times"), &EchoTool, &TestHost::new())
        .unwrap();

    let job = receipt.job;
    let started = job.started_at.unwrap();
    assert!(job.created_at.unix_millis <= started.unix_millis);
    assert!(started.unix_millis <= job.updated_at.unix_millis);
    assert_eq!(Some(job.updated_at), job.completed_at);
    assert!(receipt.tool_invocation.unwrap().resolved_paths.is_empty());

    let receipt = runtime
        .run_tool_job(request_for(&repo, "times"), &ApprovalTool, &TestHost::new())
        .unwrap();
    assert_eq!(JobStatus::Blocked, receipt.job.status);
    assert_eq!(None, receipt.job.started_at);
    assert_eq!(Some(receipt.job.updated_at), receipt.job.completed_at);
}

#[test]
fn numbers_count_the_events_of_a_store() {
    let (mut service, repo) = service_with_repo();
    let queued = seed_job_in_status(
        &mut service.runtime.store,
        repo.id.clone(),
        JobStatus::Queued,
    );
    service
        .submit_echo_job(request_for(&repo, "count"), &TestHost::new())
        .unwrap();
    service
        .cancel_job(&queued.id, "counted".to_string())
        .unwrap();

    let events = service
        .replay_events(EventCursor::Beginning, None)
        .unwrap();
    let numbers: Vec<u64> = events.iter().map(|event| event.sequence_number).collect();
    let expected: Vec<u64> = (1..=events.len() as u64).collect();
    assert_eq!(expected, numbers);
}

#[test]
fn jobs_are_cancelled_at_the_given_time() {
    let (mut service, repo) = service_with_repo();
    let job = seed_job_in_status(
        &mut service.runtime.store,
        repo.id.clone(),
        JobStatus::Running,
    );
    let latest = job.updated_at;
    let early = LedgerTimestamp::from_unix_millis(latest.unix_millis - 1);
    let late = LedgerTimestamp::from_unix_millis(latest.unix_millis + 5);

    let error = service
        .cancel_job_at(&job.id, "too early".to_string(), early)
        .unwrap_err();
    match error {
        RuntimeError::JobStatusTransition(problem) => assert_eq!(
            JobStatusTransitionError::NonMonotonicTimestamp { at: early, latest },
            problem
        ),
        other => panic!("expected a refused move, got {other:?}"),
    }
    assert_eq!(job, service.get_job(&job.id).unwrap());

    let receipt = service
        .cancel_job_at(&job.id, "in time".to_string(), late)
        .unwrap();
    assert_eq!(JobStatus::Canceled, receipt.job.status);
    assert_eq!(late, receipt.job.updated_at);
    assert_eq!(Some(late), receipt.job.completed_at);
    assert_eq!(job.started_at, receipt.job.started_at);
    assert_eq!("in time", receipt.events[0].public_message);
    assert_eq!(receipt.job, service.get_job(&job.id).unwrap());
}

/// Gives every result the same identifier.
struct RepeatingTool {
    id: ToolResultId,
}

impl RuntimeTool for RepeatingTool {
    fn tool_id(&self) -> &'static str {
        EchoTool.tool_id()
    }

    fn requested_capability(&self) -> &'static str {
        EchoTool.requested_capability()
    }

    fn declared_effect(&self) -> &'static str {
        EchoTool.declared_effect()
    }

    fn args_summary(&self, request: &RuntimeJobRequest) -> String {
        EchoTool.args_summary(request)
    }

    fn execute(&self, invocation: &ToolInvocation, request: &RuntimeJobRequest) -> ToolResult {
        ToolResult {
            id: self.id.clone(),
            ..EchoTool.execute(invocation, request)
        }
    }
}

#[test]
fn taken_identifiers_break_a_run_off() {
    let (mut runtime, repo) = runtime_with_repo();
    let tool = RepeatingTool {
        id: ToolResultId::new(),
    };
    runtime
        .run_tool_job(request_for(&repo, "first"), &tool, &TestHost::new())
        .unwrap();

    let error = runtime
        .run_tool_job(request_for(&repo, "second"), &tool, &TestHost::new())
        .unwrap_err();

    match error {
        RuntimeError::Store(StoreError::DuplicateId { collection, id }) => {
            assert_eq!("tool_results", collection);
            assert_eq!(format!("ToolResultId(\"{}\")", tool.id.as_str()), id);
        }
        other => panic!("expected a duplicate, got {other:?}"),
    }
    let jobs = runtime.store().list_jobs().unwrap();
    assert_eq!(2, jobs.len());
    assert_eq!(JobStatus::Running, jobs[1].status);
    assert_eq!(1, runtime.store().list_audit_records().unwrap().len());
}

#[test]
fn hints_are_quoted_in_the_refusal() {
    let (mut runtime, repo) = runtime_with_repo();
    let request =
        request_for(&repo, "hint").with_requested_capabilities(vec![" fs\"read ".to_string()]);

    let error = runtime
        .run_tool_job(request, &EchoTool, &TestHost::new())
        .unwrap_err();

    match error {
        RuntimeError::InvalidToolRequest { reason } => assert_eq!(
            "requested_capabilities contains \"fs\\\"read\", but tool requires \
             \"capability.discovery\"",
            reason
        ),
        other => panic!("expected a refusal, got {other:?}"),
    }

    let request = request_for(&repo, "hint").with_requested_capabilities(vec![" ".to_string()]);
    let error = runtime
        .run_tool_job(request, &EchoTool, &TestHost::new())
        .unwrap_err();
    assert_eq!(
        "invalid tool request: requested_capabilities must not contain empty entries",
        error.to_text()
    );
}

#[test]
fn unknown_and_ended_jobs_cannot_be_cancelled() {
    let (mut service, repo) = service_with_repo();
    let job = seed_job_in_status(
        &mut service.runtime.store,
        repo.id.clone(),
        JobStatus::Blocked,
    );

    let error = service
        .cancel_job(&job.id, "no longer".to_string())
        .unwrap_err();
    match error {
        RuntimeError::Store(StoreError::Conflict { collection, reason }) => {
            assert_eq!("jobs", collection);
            assert_eq!(
                format!(
                    "job {} cannot be cancelled in state Blocked",
                    job.id.as_str()
                ),
                reason
            );
        }
        other => panic!("expected a conflict, got {other:?}"),
    }

    let unknown = JobRecord::new(
        actor(),
        repo.id,
        JobKind::Read,
        "never stored".to_string(),
        LedgerTimestamp::from_unix_millis(1),
    );
    assert!(matches!(
        service.cancel_job(&unknown.id, "never".to_string()),
        Err(RuntimeError::Store(StoreError::NotFound {
            collection: "jobs",
            ..
        }))
    ));
}

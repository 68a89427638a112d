//! What errors and states are called in messages.
use vstd::prelude::*;

use crate::artifacts::ArtifactErrorModel;
use crate::domain::{
    EventSubjectType, JobStatus, JobStatusTransitionError, LedgerTimestamp, ToolResultStatus,
};
use crate::extensions::manifest::{
    ExtensionBoundary, ExtensionRuntime, ExtensionValidationErrorModel,
};
use crate::extensions::records::{BlockKeyModel, BlockReason, RegistryErrorModel};
use crate::ids::InvalidIdError;
use crate::requests::RuntimeErrorModel;
use crate::settings::{
    ToolOutputSettingsErrorModel, ToolOutputSettingsLevelModel, ToolOutputSettingsScopeModel,
};
use crate::store::StoreErrorModel;

verus! {

/// A store's refusal names the collection first, then what was wrong, then the record or the
/// reason.
pub proof fn law_store_errors_name_the_collection(
    collection: Seq<char>,
    id: Seq<char>,
    reason: Seq<char>,
)
    ensures
        (StoreErrorModel::NotFound { collection, id }).message() == collection
            + " record was not found: "@ + id,
        (StoreErrorModel::DuplicateId { collection, id }).message() == collection
            + " record already exists: "@ + id,
        (StoreErrorModel::Conflict { collection, reason }).message() == collection
            + " conflict: "@ + reason,
        (StoreErrorModel::InvalidReference { collection, reason }).message() == collection
            + " invalid reference: "@ + reason,
        (StoreErrorModel::InvalidRecord { collection, reason }).message() == collection
            + " invalid record: "@ + reason,
        (StoreErrorModel::InvalidCursor { reason }).message() == "invalid event cursor: "@
            + reason,
        StoreErrorModel::SequenceOverflow.message() == "job event sequence overflowed"@,
{
}

/// A runtime's error passes on what the store, the artifacts or the renderer said, and names
/// what was wrong with a request or a result.
pub proof fn law_runtime_errors_pass_on_the_cause(
    store: StoreErrorModel,
    artifact: ArtifactErrorModel,
    transition: JobStatusTransitionError,
    reason: Seq<char>,
)
    ensures
        RuntimeErrorModel::Store(store).message() == store.message(),
        RuntimeErrorModel::Artifact(artifact).message() == artifact.message(),
        RuntimeErrorModel::JobStatusTransition(transition).message()
            == "job status transition failed: "@ + transition.shown(),
        (RuntimeErrorModel::InvalidToolRequest { reason }).message() == "invalid tool request: "@
            + reason,
        (RuntimeErrorModel::InvalidToolResult { reason }).message() == "invalid tool result: "@
            + reason,
        (RuntimeErrorModel::ToolOutputTooLarge { reason }).message() == reason,
{
}

/// An artifact error names the scope, the fault or the place of the index.
pub proof fn law_artifact_errors_name_the_place(
    scope: Seq<char>,
    message: Seq<char>,
    path: Seq<char>,
    reason: Seq<char>,
)
    ensures
        (ArtifactErrorModel::InvalidScope { scope }).message() == "invalid artifact scope: "@
            + scope,
        (ArtifactErrorModel::Io { message }).message() == "artifact io failed: "@ + message,
        (ArtifactErrorModel::InvalidIndex { path, reason }).message()
            == "artifact index corrupted at "@ + path + ": "@ + reason,
{
}

/// A refused move names both states, or both times, in this order.
pub proof fn law_refused_moves_name_both_sides(
    from: JobStatus,
    to: JobStatus,
    at: LedgerTimestamp,
    latest: LedgerTimestamp,
)
    ensures
        (JobStatusTransitionError::InvalidTransition { from, to }).shown()
            == "InvalidTransition { from: "@ + from.shown() + ", to: "@ + to.shown() + " }"@,
        (JobStatusTransitionError::NonMonotonicTimestamp { at, latest }).shown()
            == "NonMonotonicTimestamp { at: "@ + at.shown() + ", latest: "@ + latest.shown()
            + " }"@,
{
}

/// States and kinds are called by their names.
pub proof fn law_states_are_called_by_name()
    ensures
        JobStatus::Queued.shown() == "Queued"@,
        JobStatus::Running.shown() == "Running"@,
        JobStatus::Succeeded.shown() == "Succeeded"@,
        JobStatus::Failed.shown() == "Failed"@,
        JobStatus::Blocked.shown() == "Blocked"@,
        JobStatus::Canceled.shown() == "Canceled"@,
        ToolResultStatus::Succeeded.shown() == "Succeeded"@,
        ToolResultStatus::Failed.shown() == "Failed"@,
        ToolResultStatus::Canceled.shown() == "Canceled"@,
        ToolResultStatus::TimedOut.shown() == "TimedOut"@,
        EventSubjectType::Repository.name() == "Repository"@,
        EventSubjectType::Job.name() == "Job"@,
        EventSubjectType::PolicyDecision.name() == "PolicyDecision"@,
        EventSubjectType::LockDecision.name() == "LockDecision"@,
        EventSubjectType::ToolInvocation.name() == "ToolInvocation"@,
        EventSubjectType::ToolResult.name() == "ToolResult"@,
        EventSubjectType::AuditRecord.name() == "AuditRecord"@,
{
}

/// Times before the epoch are shown with a sign, by their distance from it.
pub proof fn law_times_are_shown_with_their_sign(at: LedgerTimestamp)
    ensures
        at.unix_millis >= 0 ==> at.shown() == "LedgerTimestamp { unix_millis: "@
            + crate::text::decimal(at.unix_millis as nat) + " }"@,
        at.unix_millis < 0 ==> at.shown() == "LedgerTimestamp { unix_millis: "@ + ("-"@
            + crate::text::decimal((-at.unix_millis) as nat)) + " }"@,
{
}

/// A refused identifier is told of by its kind and the prefix that it should have.
pub proof fn law_refused_identifiers_name_the_prefix(kind: Seq<char>, prefix: Seq<char>)
    ensures
        InvalidIdError::message(kind, prefix) == kind
            + " must be a prefixed opaque id starting with "@ + prefix + " followed by a UUID"@,
{
}

/// A settings error names the scope, or the value and the range that it is outside of.
pub proof fn law_settings_errors_name_the_range(
    scope: ToolOutputSettingsScopeModel,
    bytes: u64,
    min_bytes: u64,
    max_bytes: u64,
    lines: u32,
    min_lines: u32,
    max_lines: u32,
)
    ensures
        ToolOutputSettingsErrorModel::EmptyUpdate.message()
            == "tool output settings update must set at least one field"@,
        ToolOutputSettingsErrorModel::MissingReason.message()
            == "tool output settings update requires a reason"@,
        (ToolOutputSettingsErrorModel::DuplicateScope { scope }).message()
            == "duplicate tool output settings scope: "@ + scope.shown(),
        (ToolOutputSettingsErrorModel::MaxInlineBytesOutOfRange {
            value: bytes,
            min: min_bytes,
            max: max_bytes,
        }).message() == "max_inline_bytes "@ + crate::text::decimal(bytes as nat)
            + " is outside the supported range "@ + crate::text::decimal(min_bytes as nat) + "..="@
            + crate::text::decimal(max_bytes as nat),
        (ToolOutputSettingsErrorModel::MaxInlineLinesOutOfRange {
            value: lines,
            min: min_lines,
            max: max_lines,
        }).message() == "max_inline_lines "@ + crate::text::decimal(lines as nat)
            + " is outside the supported range "@ + crate::text::decimal(min_lines as nat) + "..="@
            + crate::text::decimal(max_lines as nat),
{
}

/// A scope is shown by its level, which names what it is the level of, and by its tool.
pub proof fn law_scopes_are_shown_by_level_and_tool(
    level: ToolOutputSettingsLevelModel,
    id: Seq<char>,
    tool: Seq<char>,
)
    ensures
        (ToolOutputSettingsScopeModel { level, tool_id: None }).shown()
            == "ToolOutputSettingsScope { level: "@ + level.shown() + ", tool_id: "@ + "None"@
            + " }"@,
        (ToolOutputSettingsScopeModel { level, tool_id: Some(tool) }).shown()
            == "ToolOutputSettingsScope { level: "@ + level.shown() + ", tool_id: "@ + ("Some("@
            + crate::text::quoted_form(tool) + ")"@) + " }"@,
        ToolOutputSettingsLevelModel::Workspace.shown() == "Workspace"@,
        (ToolOutputSettingsLevelModel::Repository { repository_id: id }).shown()
            == "Repository { repository_id: "@ + crate::ids::RepositoryId::debug_form(id) + " }"@,
        (ToolOutputSettingsLevelModel::Project { project_id: id }).shown()
            == "Project { project_id: "@ + crate::ids::ProjectId::debug_form(id) + " }"@,
        (ToolOutputSettingsLevelModel::Session { session_id: id }).shown()
            == "Session { session_id: "@ + crate::text::quoted_form(id) + " }"@,
        (ToolOutputSettingsLevelModel::AgentProfile { agent_id: id }).shown()
            == "AgentProfile { agent_id: "@ + crate::text::quoted_form(id) + " }"@,
{
}

/// What is wrong with a manifest is told by the field, or by the declaration, and the reason.
pub proof fn law_manifest_errors_name_the_field(
    a: Seq<char>,
    b: Seq<char>,
    c: Seq<char>,
    runtime: ExtensionRuntime,
)
    ensures
        (ExtensionValidationErrorModel::InvalidSchema { expected: a, found: b }).message()
            == "extension manifest schema must be "@ + a + ", found "@ + b,
        (ExtensionValidationErrorModel::MissingField { field: a }).message()
            == "extension manifest field "@ + a + " is required"@,
        (ExtensionValidationErrorModel::InvalidField { field: a, reason: b }).message()
            == "extension manifest field "@ + a + " is invalid: "@ + b,
        (ExtensionValidationErrorModel::UnsupportedRuntime { runtime, reason: b }).message()
            == "extension runtime "@ + runtime.shown() + " is not supported: "@ + b,
        (ExtensionValidationErrorModel::ProvenanceRequired { field: a, reason: b }).message()
            == "extension provenance field "@ + a + " is required: "@ + b,
        (ExtensionValidationErrorModel::BoundaryViolation { reason: a }).message()
            == "extension boundary violation: "@ + a,
        (ExtensionValidationErrorModel::DuplicateServiceDeclaration {
            service: a,
            method: b,
            schema_version: c,
        }).message() == "duplicate service declaration "@ + a + "."@ + b + " schema "@ + c,
        (ExtensionValidationErrorModel::MissingServicePermission {
            service: a,
            method: b,
            permission: c,
        }).message() == "service "@ + a + "."@ + b + " requires undeclared permission "@ + c,
        (ExtensionValidationErrorModel::MissingToolPermission {
            tool: a,
            permission: b,
        }).message() == "tool "@ + a + " requires undeclared permission "@ + b,
        (ExtensionValidationErrorModel::DuplicateToolDeclaration { tool: a }).message()
            == "duplicate tool declaration "@ + a,
        (ExtensionValidationErrorModel::DuplicateToolOutputDeclaration { tool_id: a }).message()
            == "duplicate tool output declaration "@ + a,
        (ExtensionValidationErrorModel::DuplicateHookDeclaration { hook_id: a }).message()
            == "duplicate hook declaration "@ + a,
        (ExtensionValidationErrorModel::DuplicateWebhookDeclaration { webhook_id: a }).message()
            == "duplicate webhook declaration "@ + a,
{
}

/// What the registry refuses is told by the extension, and the reason.
pub proof fn law_registry_errors_name_the_extension(
    id: Seq<char>,
    version: Seq<char>,
    reason: Seq<char>,
    key: BlockKeyModel,
    error: ExtensionValidationErrorModel,
)
    ensures
        RegistryErrorModel::Validation(error).message() == error.message(),
        (RegistryErrorModel::UnsupportedBlocklistKey { key }).message()
            == "unsupported blocklist key: "@ + key.shown(),
        (RegistryErrorModel::DigestConflict { extension_id: id, version }).message()
            == "extension "@ + id + " version "@ + version + " changed digest"@,
        (RegistryErrorModel::SourceChangeRequiresApproval { extension_id: id }).message()
            == "extension "@ + id + " changed source provenance and requires explicit approval"@,
        (RegistryErrorModel::NotInstalled { extension_id: id }).message() == "extension "@ + id
            + " is not installed"@,
        (RegistryErrorModel::RollbackUnavailable { extension_id: id }).message() == "extension "@
            + id + " has no rollback target"@,
        (RegistryErrorModel::ServiceDenied { reason }).message() == "service call denied: "@
            + reason,
        (RegistryErrorModel::ServiceUnavailable { reason }).message() == "service unavailable: "@
            + reason,
{
}

/// A blocked extension is told of by itself, the reason, and the key that covers it.
pub proof fn law_blocks_name_reason_and_key(id: Seq<char>, reason: BlockReason, key: BlockKeyModel)
    ensures
        (RegistryErrorModel::Blocked { extension_id: id, reason, key }).message() == "extension "@
            + id + " is blocklisted by "@ + reason.shown() + ": "@ + key.shown(),
        BlockReason::Malware.shown() == "Malware"@,
        BlockReason::ManifestMismatch.shown() == "ManifestMismatch"@,
        BlockReason::OverPermissioned.shown() == "OverPermissioned"@,
        BlockReason::VulnerableVersion.shown() == "VulnerableVersion"@,
        BlockReason::CompromisedSigner.shown() == "CompromisedSigner"@,
        BlockReason::PolicyViolation.shown() == "PolicyViolation"@,
        BlockReason::UserBlocked.shown() == "UserBlocked"@,
        BlockReason::RegistryRemoved.shown() == "RegistryRemoved"@,
        BlockKeyModel::ExtensionId(id).shown() == "ExtensionId("@ + crate::text::quoted_form(id)
            + ")"@,
        BlockKeyModel::ArtifactDigest(id).shown() == "ArtifactDigest("@
            + crate::text::quoted_form(id) + ")"@,
        BlockKeyModel::Signer(id).shown() == "Signer("@ + crate::text::quoted_form(id) + ")"@,
        BlockKeyModel::Publisher(id).shown() == "Publisher("@ + crate::text::quoted_form(id)
            + ")"@,
        BlockKeyModel::SourceRepository(id).shown() == "SourceRepository("@
            + crate::text::quoted_form(id) + ")"@,
        BlockKeyModel::PermissionPattern(id).shown() == "PermissionPattern("@
            + crate::text::quoted_form(id) + ")"@,
        BlockKeyModel::VulnerabilityId(id).shown() == "VulnerabilityId("@
            + crate::text::quoted_form(id) + ")"@,
{
}

/// Runtimes and boundaries are called by their names.
pub proof fn law_runtimes_and_boundaries_are_called_by_name()
    ensures
        ExtensionRuntime::WasmRust.shown() == "WasmRust"@,
        ExtensionRuntime::Wasm.shown() == "Wasm"@,
        ExtensionRuntime::Docker.shown() == "Docker"@,
        ExtensionRuntime::Process.shown() == "Process"@,
        ExtensionRuntime::Remote.shown() == "Remote"@,
        ExtensionRuntime::SwiftClient.shown() == "SwiftClient"@,
        ExtensionBoundary::Official.shown() == "Official"@,
        ExtensionBoundary::ThirdParty.shown() == "ThirdParty"@,
        ExtensionBoundary::LocalDevelopment.shown() == "LocalDevelopment"@,
{
}

} // verus!

//! Manifests are validated, installed, updated, rolled back and blocked, and services are
//! granted.
use atelia_core::extensions::manifest::{
    DegradeBehavior, ExtensionBoundary, ExtensionBundleMembership, ExtensionCompatibility,
    ExtensionCompositionAttachment, ExtensionEntrypoints, ExtensionFailure,
    ExtensionHookDefinition, ExtensionKind, ExtensionLineage, ExtensionLineageRelationship,
    ExtensionManifest, ExtensionPermission,
    ExtensionProvenance, ExtensionPublication, ExtensionPublicationVisibility, ExtensionPublisher,
    ExtensionRealm, ExtensionRegistrySubmission, ExtensionRuntime, ExtensionServiceDefinition,
    ExtensionServiceDependency, ExtensionServices, ExtensionToolDefinition,
    ExtensionToolOutputDefinition, ExtensionValidationError, ExtensionWebhookDefinition,
    ManifestValidationPolicy, ProvenanceSource, RetryPolicy, EXTENSION_MANIFEST_SCHEMA,
    EXTENSION_RPC_PROTOCOL,
};
use atelia_core::extensions::records::{
    BlockKey, BlockReason, BlocklistEntry, ExtensionInstallRecord, ExtensionInstallStatus,
    ExtensionSourceSnapshot, InstallOptions, RegistryError, ServiceCallRequest,
};
use atelia_core::extensions::registry::ExtensionRegistry;
use atelia_core::extensions::service::{
    ApplyBlocklistRequest, ExtensionRegistryService, ExtensionStatusRequest,
    InstallExtensionRequest, ListBlocklistRequest, ListExtensionsRequest, RollbackExtensionRequest,
};
use atelia_core::extensions::snapshot::ExtensionRegistrySnapshot;
use atelia_core::record::Record;
use atelia_core::text_map::TextMap;

const ARTIFACT_DIGEST: &str =
    "sha256:aaaaaaaaaaaaaaaaaaaaaaaaaaaaaaaaaaaaaaaaaaaaaaaaaaaaaaaaaaaaaaaa";
const MANIFEST_DIGEST: &str =
    "sha256:bbbbbbbbbbbbbbbbbbbbbbbbbbbbbbbbbbbbbbbbbbbbbbbbbbbbbbbbbbbbbbbb";
const OTHER_ARTIFACT_DIGEST: &str =
    "sha256:cccccccccccccccccccccccccccccccccccccccccccccccccccccccccccccccc";
const OTHER_MANIFEST_DIGEST: &str =
    "sha256:dddddddddddddddddddddddddddddddddddddddddddddddddddddddddddddddd";
const THIRD_ARTIFACT_DIGEST: &str =
    "sha256:eeeeeeeeeeeeeeeeeeeeeeeeeeeeeeeeeeeeeeeeeeeeeeeeeeeeeeeeeeeeeeee";
const THIRD_MANIFEST_DIGEST: &str =
    "sha256:ffffffffffffffffffffffffffffffffffffffffffffffffffffffffffffffff";
const DEFAULT_TOOL_PERMISSION: &str = "tool.ping";

fn permission(description: &str) -> ExtensionPermission {
    ExtensionPermission {
        description: description.to_string(),
        risk_tier: Some("R2".to_string()),
    }
}

fn manifest(id: &str) -> ExtensionManifest {
    let mut permissions = TextMap::new();
    permissions.insert(
        DEFAULT_TOOL_PERMISSION.to_string(),
        permission("exposes the ping tool"),
    );

    ExtensionManifest {
        schema: EXTENSION_MANIFEST_SCHEMA.to_string(),
        id: id.to_string(),
        name: "Test Extension".to_string(),
        version: "1.0.0".to_string(),
        publisher: ExtensionPublisher {
            name: "Example Publisher".to_string(),
            url: Some("https://example.com".to_string()),
        },
        description: "A focused test extension".to_string(),
        types: vec![ExtensionKind::Tool],
        compatibility: ExtensionCompatibility {
            atelia_protocol: ">=0.1 <0.3".to_string(),
            atelia_secretary: ">=0.1 <0.2".to_string(),
        },
        entrypoints: ExtensionEntrypoints {
            realm: ExtensionRealm::Backend,
            runtime: ExtensionRuntime::WasmRust,
            command: None,
            image: None,
            wasm: Some("extension.wasm".to_string()),
            protocol: EXTENSION_RPC_PROTOCOL.to_string(),
        },
        permissions,
        tools: vec![ExtensionToolDefinition {
            id: "ping".to_string(),
            permissions: vec![DEFAULT_TOOL_PERMISSION.to_string()],
            permissions_required: Vec::new(),
        }],
        services: ExtensionServices::default(),
        failure: ExtensionFailure {
            degrade: DegradeBehavior::ReturnUnavailable,
            retry_policy: RetryPolicy::Bounded,
        },
        provenance: ExtensionProvenance {
            source: ProvenanceSource::Registry,
            repository: None,
            source_ref: None,
            manifest_path: None,
            commit: None,
            registry_identity: Some("third-party-registry".to_string()),
            lineage: None,
            publication: None,
            artifact_digest: ARTIFACT_DIGEST.to_string(),
            manifest_digest: MANIFEST_DIGEST.to_string(),
            signature: Some("signature".to_string()),
            signer: Some("signer@example.com".to_string()),
        },
        ..ExtensionManifest::default()
    }
}

fn github_manifest(id: &str) -> ExtensionManifest {
    let mut manifest = manifest(id);
    manifest.provenance.source = ProvenanceSource::Github;
    manifest.provenance.repository = Some("https://github.com/example/package".to_string());
    manifest.provenance.source_ref = Some("refs/heads/main".to_string());
    manifest.provenance.manifest_path = Some("atelia.package.yaml".to_string());
    manifest.provenance.commit = Some("1111111".to_string());
    manifest.provenance.registry_identity = None;
    manifest
}

fn service_provider(id: &str, permission_name: &str) -> ExtensionManifest {
    let mut manifest = manifest(id);
    manifest.types = vec![ExtensionKind::Service];
    manifest.tools.clear();
    manifest
        .permissions
        .insert(permission_name.to_string(), permission("provide service"));
    manifest.services.provides.push(ExtensionServiceDefinition {
        service: "review.comments".to_string(),
        method: "summarize".to_string(),
        schema_version: "v1".to_string(),
        required_permission: permission_name.to_string(),
    });
    manifest
}

fn service_consumer(id: &str, callee_id: &str, permission_name: &str) -> ExtensionManifest {
    let mut manifest = manifest(id);
    manifest.types = vec![ExtensionKind::Service];
    manifest.tools.clear();
    manifest.provenance.artifact_digest = OTHER_ARTIFACT_DIGEST.to_string();
    manifest.provenance.manifest_digest = OTHER_MANIFEST_DIGEST.to_string();
    manifest
        .permissions
        .insert(permission_name.to_string(), permission("provide service"));
    manifest.services.consumes.push(ExtensionServiceDependency {
        extension_id: callee_id.to_string(),
        service: "review.comments".to_string(),
        method: "summarize".to_string(),
        schema_version: "v1".to_string(),
        required_permission: permission_name.to_string(),
    });
    manifest
}

fn service_call(caller_id: &str, callee_id: &str) -> ServiceCallRequest {
    ServiceCallRequest {
        caller_extension_id: caller_id.to_string(),
        callee_extension_id: callee_id.to_string(),
        service: "review.comments".to_string(),
        method: "summarize".to_string(),
        schema_version: "v1".to_string(),
        required_permission: Some("service.review.comments".to_string()),
    }
}

fn tool_output_definition(tool_id: &str) -> ExtensionToolOutputDefinition {
    ExtensionToolOutputDefinition {
        tool_id: tool_id.to_string(),
        format: Some("toon".to_string()),
        verbosity: Some("normal".to_string()),
        language_mode: Some("english_agent".to_string()),
        fields: vec!["summary".to_string()],
        redactions: vec!["secret".to_string()],
        include_policy: Some(true),
        include_cost: Some(false),
        include_diagnostics: Some(true),
    }
}

fn hook_definition(hook_id: &str) -> ExtensionHookDefinition {
    ExtensionHookDefinition {
        hook_id: hook_id.to_string(),
        trigger: Some("pull_request.opened".to_string()),
        verification: Some("github_signature".to_string()),
        required_capabilities: vec!["review.comment".to_string()],
        action: Some("workflow".to_string()),
        status: Some("enabled".to_string()),
    }
}

fn webhook_definition(webhook_id: &str) -> ExtensionWebhookDefinition {
    ExtensionWebhookDefinition {
        webhook_id: webhook_id.to_string(),
        source: Some("github".to_string()),
        event: Some("pull_request.opened".to_string()),
        endpoint: Some("https://example.com/webhook".to_string()),
        verification: Some("hmac".to_string()),
        required_capabilities: vec!["network.webhook.receive:github".to_string()],
        status: Some("enabled".to_string()),
    }
}

fn extension_record(
    manifest: &ExtensionManifest,
    previous_version: Option<&str>,
) -> ExtensionInstallRecord {
    ExtensionInstallRecord {
        id: manifest.id.clone(),
        version: manifest.version.clone(),
        manifest_digest: manifest.provenance.manifest_digest.clone(),
        artifact_digest: manifest.provenance.artifact_digest.clone(),
        source: ExtensionSourceSnapshot::from_provenance(&manifest.provenance),
        boundary: ExtensionBoundary::ThirdParty,
        status: ExtensionInstallStatus::Installed,
        previous_version: previous_version.map(str::to_string),
        approved_permissions: Vec::new(),
        rollback_snapshot: None,
    }
}

fn one_entry<V: Record>(key: String, value: V) -> TextMap<V> {
    let mut map = TextMap::new();
    map.insert(key, value);
    map
}

fn extension_snapshot(
    manifest_versions: TextMap<ExtensionManifest>,
    record_versions: TextMap<ExtensionInstallRecord>,
) -> ExtensionRegistrySnapshot {
    let mut manifests = TextMap::new();
    manifests.insert("com.example.extension".to_string(), manifest_versions);

    let mut records = TextMap::new();
    records.insert("com.example.extension".to_string(), record_versions);

    ExtensionRegistrySnapshot {
        manifests,
        records,
        active_versions: TextMap::new(),
        blocklist: Vec::new(),
    }
}

#[test]
fn validates_backend_wasm_rust_manifest() {
    let validated = manifest("com.example.extension")
        .validate(&ManifestValidationPolicy::default())
        .unwrap();

    assert_eq!(validated.boundary, ExtensionBoundary::ThirdParty);
}

#[test]
fn tool_type_requires_tool_declarations() {
    let mut extension = manifest("com.example.tool");
    extension.tools.clear();

    let err = extension
        .validate(&ManifestValidationPolicy::default())
        .unwrap_err();

    assert!(matches!(
        err,
        ExtensionValidationError::MissingField { field: "tools" }
    ));
}

#[test]
fn tools_require_declared_extension_permissions() {
    let mut extension = manifest("com.example.tool-permission");
    extension.permissions.clear();

    let err = extension
        .validate(&ManifestValidationPolicy::default())
        .unwrap_err();

    match err {
        ExtensionValidationError::MissingToolPermission { tool, permission } => {
            assert_eq!(tool, "ping");
            assert_eq!(permission, DEFAULT_TOOL_PERMISSION);
        }
        other => panic!("expected missing tool permission, got {other:?}"),
    }
}

#[test]
fn tools_validate_permissions_from_both_permissions_fields() {
    let mut extension = manifest("com.example.tool-permission-both");
    extension.tools[0].permissions = vec![DEFAULT_TOOL_PERMISSION.to_string()];
    extension.tools[0].permissions_required = vec!["tool.write".to_string()];

    let err = extension
        .validate(&ManifestValidationPolicy::default())
        .expect_err("expected validation failure");

    match err {
        ExtensionValidationError::MissingToolPermission { tool, permission } => {
            assert_eq!(tool, "ping");
            assert_eq!(permission, "tool.write");
        }
        other => panic!("expected missing tool permission, got {other:?}"),
    }
}

#[test]
fn tools_require_type_tool() {
    let mut extension = manifest("com.example.tool-type-mismatch");
    extension.types = vec![ExtensionKind::Service];

    let err = extension
        .validate(&ManifestValidationPolicy::default())
        .unwrap_err();

    assert!(matches!(
        err,
        ExtensionValidationError::InvalidField {
            field: "types",
            reason: _,
        }
    ));
}

#[test]
fn duplicate_tool_output_declarations_are_rejected() {
    let mut extension = manifest("com.example.duplicate-tool-output");
    extension.types.push(ExtensionKind::ToolOutputCustomizer);
    extension.tool_output.push(tool_output_definition("ping"));
    extension.tool_output.push(tool_output_definition("ping"));

    let err = extension
        .validate(&ManifestValidationPolicy::default())
        .unwrap_err();

    assert!(matches!(
        err,
        ExtensionValidationError::DuplicateToolOutputDeclaration { tool_id }
            if tool_id == "ping"
    ));
}

#[test]
fn duplicate_hook_and_webhook_declarations_are_rejected() {
    let mut hooks = manifest("com.example.duplicate-hooks");
    hooks.types.push(ExtensionKind::HookProvider);
    hooks.hooks.push(hook_definition("hk_review"));
    hooks.hooks.push(hook_definition("hk_review"));

    let err = hooks
        .validate(&ManifestValidationPolicy::default())
        .unwrap_err();

    assert!(matches!(
        err,
        ExtensionValidationError::DuplicateHookDeclaration { hook_id }
            if hook_id == "hk_review"
    ));

    let mut webhooks = manifest("com.example.duplicate-webhooks");
    webhooks.types.push(ExtensionKind::WebhookReceiver);
    webhooks.webhooks.push(webhook_definition("wh_review"));
    webhooks.webhooks.push(webhook_definition("wh_review"));

    let err = webhooks
        .validate(&ManifestValidationPolicy::default())
        .unwrap_err();

    assert!(matches!(
        err,
        ExtensionValidationError::DuplicateWebhookDeclaration { webhook_id }
            if webhook_id == "wh_review"
    ));
}

#[test]
fn local_only_hook_and_webhook_verification_is_rejected_for_non_local_manifests() {
    let mut hooks = manifest("com.example.hook-verification");
    hooks.types.push(ExtensionKind::HookProvider);
    hooks.hooks.push(ExtensionHookDefinition {
        verification: Some("none_for_local_only".to_string()),
        ..hook_definition("hk_review")
    });

    let err = hooks
        .validate(&ManifestValidationPolicy::default())
        .unwrap_err();
    assert!(matches!(
        err,
        ExtensionValidationError::InvalidField {
            field: "hooks.verification",
            ..
        }
    ));

    let mut webhooks = manifest("com.example.webhook-verification");
    webhooks.types.push(ExtensionKind::WebhookReceiver);
    webhooks.webhooks.push(ExtensionWebhookDefinition {
        verification: Some("none_for_local_only".to_string()),
        ..webhook_definition("wh_review")
    });

    let err = webhooks
        .validate(&ManifestValidationPolicy::default())
        .unwrap_err();
    assert!(matches!(
        err,
        ExtensionValidationError::InvalidField {
            field: "webhooks.verification",
            ..
        }
    ));
}

#[test]
fn local_only_hook_and_webhook_verification_is_allowed_for_local_manifests() {
    let mut hooks = manifest("local.test.hook-verification");
    hooks.provenance.source = ProvenanceSource::Local;
    hooks.provenance.registry_identity = None;
    hooks.provenance.signature = None;
    hooks.provenance.signer = None;
    hooks.types.push(ExtensionKind::HookProvider);
    hooks.hooks.push(ExtensionHookDefinition {
        verification: Some("none_for_local_only".to_string()),
        ..hook_definition("hk_review")
    });

    hooks
        .validate(&ManifestValidationPolicy::default().with_local_unsigned())
        .unwrap();

    let mut webhooks = manifest("local.test.webhook-verification");
    webhooks.provenance.source = ProvenanceSource::Local;
    webhooks.provenance.registry_identity = None;
    webhooks.provenance.signature = None;
    webhooks.provenance.signer = None;
    webhooks.types.push(ExtensionKind::WebhookReceiver);
    webhooks.webhooks.push(ExtensionWebhookDefinition {
        verification: Some("none_for_local_only".to_string()),
        ..webhook_definition("wh_review")
    });

    webhooks
        .validate(&ManifestValidationPolicy::default().with_local_unsigned())
        .unwrap();
}

#[test]
fn security_sensitive_section_fields_are_validated() {
    let mut extension = manifest("com.example.invalid-tool-output");
    extension.types.push(ExtensionKind::ToolOutputCustomizer);
    extension.tool_output.push(ExtensionToolOutputDefinition {
        tool_id: "ping".to_string(),
        format: Some("markdown".to_string()),
        verbosity: Some("verbose".to_string()),
        language_mode: Some("human".to_string()),
        fields: vec!["summary".to_string()],
        redactions: vec!["secret".to_string()],
        include_policy: Some(true),
        include_cost: Some(false),
        include_diagnostics: Some(true),
    });

    let err = extension
        .validate(&ManifestValidationPolicy::default())
        .unwrap_err();
    assert!(matches!(
        err,
        ExtensionValidationError::InvalidField {
            field: "tool_output.format",
            ..
        }
    ));

    let mut hooks = manifest("com.example.invalid-hook");
    hooks.types.push(ExtensionKind::HookProvider);
    hooks.hooks.push(ExtensionHookDefinition {
        hook_id: "hk_review".to_string(),
        trigger: Some("pull request opened".to_string()),
        verification: Some("oauth".to_string()),
        required_capabilities: vec!["review.comment".to_string()],
        action: Some("workflow".to_string()),
        status: Some("enabled".to_string()),
    });

    let err = hooks
        .validate(&ManifestValidationPolicy::default())
        .unwrap_err();
    assert!(matches!(
        err,
        ExtensionValidationError::InvalidField {
            field: "hooks.trigger",
            ..
        }
    ));

    let mut webhooks = manifest("com.example.invalid-webhook");
    webhooks.types.push(ExtensionKind::WebhookReceiver);
    webhooks.webhooks.push(ExtensionWebhookDefinition {
        webhook_id: "wh_review".to_string(),
        source: Some("slack".to_string()),
        event: Some("pull_request.opened".to_string()),
        endpoint: Some("ftp://example.com/webhook".to_string()),
        verification: Some("hmac".to_string()),
        required_capabilities: vec!["network.webhook.receive:github".to_string()],
        status: Some("enabled".to_string()),
    });

    let err = webhooks
        .validate(&ManifestValidationPolicy::default())
        .unwrap_err();
    assert!(matches!(
        err,
        ExtensionValidationError::InvalidField {
            field: "webhooks.source",
            ..
        }
    ));
}

#[test]
fn webhook_endpoints_require_https_and_preserve_legacy_omission_compatibility() {
    let mut webhooks = manifest("com.example.webhook-endpoint");
    webhooks.types.push(ExtensionKind::WebhookReceiver);
    webhooks.webhooks.push(ExtensionWebhookDefinition {
        endpoint: Some("https://example.com/webhook".to_string()),
        ..webhook_definition("wh_review")
    });

    webhooks
        .validate(&ManifestValidationPolicy::default())
        .unwrap();

    let mut http_webhook = manifest("com.example.webhook-http");
    http_webhook.types.push(ExtensionKind::WebhookReceiver);
    http_webhook.webhooks.push(ExtensionWebhookDefinition {
        endpoint: Some("http://example.com/webhook".to_string()),
        ..webhook_definition("wh_review")
    });

    let err = http_webhook
        .validate(&ManifestValidationPolicy::default())
        .unwrap_err();
    assert!(matches!(
        err,
        ExtensionValidationError::InvalidField {
            field: "webhooks.endpoint",
            ..
        }
    ));

    let mut malformed_webhook = manifest("com.example.webhook-malformed");
    malformed_webhook.types.push(ExtensionKind::WebhookReceiver);
    malformed_webhook.webhooks.push(ExtensionWebhookDefinition {
        endpoint: Some("https:/example.com/webhook".to_string()),
        ..webhook_definition("wh_review")
    });

    let err = malformed_webhook
        .validate(&ManifestValidationPolicy::default())
        .unwrap_err();
    assert!(matches!(
        err,
        ExtensionValidationError::InvalidField {
            field: "webhooks.endpoint",
            ..
        }
    ));

    let mut missing_endpoint = manifest("com.example.webhook-missing-endpoint");
    missing_endpoint.types.push(ExtensionKind::WebhookReceiver);
    missing_endpoint.webhooks.push(ExtensionWebhookDefinition {
        endpoint: None,
        ..webhook_definition("wh_review")
    });

    let err = missing_endpoint
        .validate(&ManifestValidationPolicy::default())
        .unwrap_err();
    assert!(matches!(
        err,
        ExtensionValidationError::MissingField {
            field: "webhooks.endpoint",
        }
    ));
}

#[test]
fn webhook_endpoints_reject_invalid_bracketed_ipv6_hosts() {
    let mut webhooks = manifest("com.example.webhook-bracketed-host");
    webhooks.types.push(ExtensionKind::WebhookReceiver);
    webhooks.webhooks.push(ExtensionWebhookDefinition {
        endpoint: Some("https://[foo]/webhook".to_string()),
        ..webhook_definition("wh_review")
    });

    let err = webhooks
        .validate(&ManifestValidationPolicy::default())
        .unwrap_err();
    assert!(matches!(
        err,
        ExtensionValidationError::InvalidField {
            field: "webhooks.endpoint",
            ..
        }
    ));

    let mut ipv6_webhook = manifest("com.example.webhook-ipv6");
    ipv6_webhook.types.push(ExtensionKind::WebhookReceiver);
    ipv6_webhook.webhooks.push(ExtensionWebhookDefinition {
        endpoint: Some("https://[2001:db8::1]/webhook".to_string()),
        ..webhook_definition("wh_review")
    });

    ipv6_webhook
        .validate(&ManifestValidationPolicy::default())
        .unwrap();
}

#[test]
fn whitespace_padded_duplicate_declaration_ids_are_rejected() {
    let mut tool_output = manifest("com.example.whitespace-tool-output");
    tool_output.types.push(ExtensionKind::ToolOutputCustomizer);
    tool_output.tool_output.push(tool_output_definition("ping"));
    tool_output
        .tool_output
        .push(tool_output_definition(" ping "));

    let err = tool_output
        .validate(&ManifestValidationPolicy::default())
        .unwrap_err();
    assert!(matches!(
        err,
        ExtensionValidationError::InvalidField {
            field: "tool_output.tool_id",
            ..
        }
    ));

    let mut hooks = manifest("com.example.whitespace-hooks");
    hooks.types.push(ExtensionKind::HookProvider);
    hooks.hooks.push(hook_definition("hk_review"));
    hooks.hooks.push(ExtensionHookDefinition {
        hook_id: " hk_review ".to_string(),
        ..hook_definition("hk_review")
    });

    let err = hooks
        .validate(&ManifestValidationPolicy::default())
        .unwrap_err();
    assert!(matches!(
        err,
        ExtensionValidationError::InvalidField {
            field: "hooks.hook_id",
            ..
        }
    ));

    let mut webhooks = manifest("com.example.whitespace-webhooks");
    webhooks.types.push(ExtensionKind::WebhookReceiver);
    webhooks.webhooks.push(webhook_definition("wh_review"));
    webhooks.webhooks.push(ExtensionWebhookDefinition {
        webhook_id: " wh_review ".to_string(),
        ..webhook_definition("wh_review")
    });

    let err = webhooks
        .validate(&ManifestValidationPolicy::default())
        .unwrap_err();
    assert!(matches!(
        err,
        ExtensionValidationError::InvalidField {
            field: "webhooks.webhook_id",
            ..
        }
    ));
}

#[test]
fn rejects_official_namespace_without_official_registry_identity() {
    let err = manifest("ai.atelia.git")
        .validate(&ManifestValidationPolicy::default())
        .unwrap_err();

    assert!(matches!(
        err,
        ExtensionValidationError::BoundaryViolation { .. }
    ));
}

#[test]
fn local_unsigned_requires_dev_mode_approval() {
    let mut local = manifest("local.test.extension");
    local.provenance.source = ProvenanceSource::Local;
    local.provenance.registry_identity = None;
    local.provenance.signature = None;
    local.provenance.signer = None;

    let err = local
        .validate(&ManifestValidationPolicy::default())
        .unwrap_err();
    assert!(matches!(
        err,
        ExtensionValidationError::ProvenanceRequired {
            field: "provenance.signature",
            ..
        }
    ));

    let validated = local
        .validate(&ManifestValidationPolicy::default().with_local_unsigned())
        .unwrap();
    assert_eq!(validated.boundary, ExtensionBoundary::LocalDevelopment);
}

#[test]
fn whitespace_provenance_fields_are_treated_as_missing() {
    let mut local = manifest("local.test.whitespace");
    local.provenance.source = ProvenanceSource::Local;
    local.provenance.signature = Some("   ".to_string());
    local.provenance.signer = Some("\n\t".to_string());

    let err = local
        .validate(&ManifestValidationPolicy::default())
        .unwrap_err();
    assert!(matches!(
        err,
        ExtensionValidationError::ProvenanceRequired {
            field: "provenance.signature",
            ..
        }
    ));

    let mut github = manifest("com.example.github");
    github.provenance.source = ProvenanceSource::Github;
    github.provenance.repository = Some("   ".to_string());
    let err = github
        .validate(&ManifestValidationPolicy::default())
        .unwrap_err();
    assert!(matches!(
        err,
        ExtensionValidationError::ProvenanceRequired {
            field: "provenance.repository",
            ..
        }
    ));

    let mut registry = manifest("com.example.registry");
    registry.provenance.source = ProvenanceSource::Registry;
    registry.provenance.registry_identity = Some(" \t ".to_string());
    let err = registry
        .validate(&ManifestValidationPolicy::default())
        .unwrap_err();
    assert!(matches!(
        err,
        ExtensionValidationError::ProvenanceRequired {
            field: "provenance.registry_identity",
            ..
        }
    ));
}

#[test]
fn github_source_reference_fields_are_required() {
    let mut missing_ref = github_manifest("com.example.github");
    missing_ref.provenance.source_ref = None;
    let err = missing_ref
        .validate(&ManifestValidationPolicy::default())
        .unwrap_err();
    assert!(matches!(
        err,
        ExtensionValidationError::ProvenanceRequired {
            field: "provenance.ref",
            ..
        }
    ));

    let mut missing_manifest_path = github_manifest("com.example.github");
    missing_manifest_path.provenance.manifest_path = Some("   ".to_string());
    let err = missing_manifest_path
        .validate(&ManifestValidationPolicy::default())
        .unwrap_err();
    assert!(matches!(
        err,
        ExtensionValidationError::ProvenanceRequired {
            field: "provenance.manifest_path",
            ..
        }
    ));
}

#[test]
fn backend_process_runtime_is_local_development_only() {
    let mut process = manifest("local.test.process");
    process.provenance.source = ProvenanceSource::Local;
    process.provenance.registry_identity = None;
    process.entrypoints.runtime = ExtensionRuntime::Process;
    process.entrypoints.wasm = None;
    process.entrypoints.command = Some("cargo run".to_string());

    let err = process
        .validate(&ManifestValidationPolicy::default().with_local_unsigned())
        .unwrap_err();
    assert!(matches!(
        err,
        ExtensionValidationError::UnsupportedRuntime {
            runtime: ExtensionRuntime::Process,
            ..
        }
    ));

    process
        .validate(
            &ManifestValidationPolicy::default()
                .with_local_unsigned()
                .with_local_process_runtime(),
        )
        .unwrap();
}

#[test]
fn service_dependencies_must_declare_permissions() {
    let mut consumer = service_consumer(
        "com.example.consumer",
        "com.example.provider",
        "service.review.comments",
    );
    consumer.permissions.clear();

    let err = consumer
        .validate(&ManifestValidationPolicy::default())
        .unwrap_err();
    assert!(matches!(
        err,
        ExtensionValidationError::MissingServicePermission { .. }
    ));
}

#[test]
fn registry_blocks_install_before_local_enablement() {
    let mut registry = ExtensionRegistry::in_memory();
    registry
        .add_blocklist_entry(BlocklistEntry {
            key: BlockKey::ExtensionId("com.example.extension".to_string()),
            reason: BlockReason::UserBlocked,
            note: None,
        })
        .unwrap();

    let err = registry
        .install(manifest("com.example.extension"), InstallOptions::default())
        .unwrap_err();

    assert!(matches!(
        err,
        RegistryError::Blocked {
            reason: BlockReason::UserBlocked,
            ..
        }
    ));
}

#[test]
fn install_options_default_preserves_validation_policy() {
    let mut registry = ExtensionRegistry::new(ManifestValidationPolicy {
        allow_local_unsigned: true,
        allow_local_process_runtime: true,
        ..ManifestValidationPolicy::default()
    });

    let mut unsigned = manifest("local.test.unsigned");
    unsigned.provenance.source = ProvenanceSource::Local;
    unsigned.provenance.registry_identity = None;
    unsigned.provenance.signature = None;
    unsigned.provenance.signer = None;

    registry
        .install(unsigned, InstallOptions::default())
        .unwrap();

    let mut process = manifest("local.test.process");
    process.provenance.source = ProvenanceSource::Local;
    process.provenance.registry_identity = None;
    process.entrypoints.runtime = ExtensionRuntime::Process;
    process.entrypoints.wasm = None;
    process.entrypoints.command = Some("cargo run".to_string());

    registry
        .install(process, InstallOptions::default())
        .unwrap();
}

#[test]
/// Validating a candidate manifest succeeds without mutating registry maps.
fn validate_extension_manifest_passes_without_mutating_registry_state() {
    let mut registry = ExtensionRegistry::in_memory();
    let mut manifest_v1 = manifest("com.example.extension");
    manifest_v1.version = "1.0.0".to_string();
    registry
        .install(manifest_v1.clone(), InstallOptions::default())
        .unwrap();

    let before = registry.snapshot();

    let mut manifest_v2 = manifest("com.example.extension");
    manifest_v2.version = "1.1.0".to_string();
    manifest_v2.provenance.manifest_digest = OTHER_MANIFEST_DIGEST.to_string();
    manifest_v2.provenance.artifact_digest = OTHER_ARTIFACT_DIGEST.to_string();

    let validated = registry
        .validate(manifest_v2.clone(), InstallOptions::default())
        .unwrap();
    assert_eq!(validated.manifest.version, manifest_v2.version);
    assert_eq!(validated.boundary, ExtensionBoundary::ThirdParty);

    let after = registry.snapshot();
    assert_eq!(after.manifests, before.manifests);
    assert_eq!(after.records, before.records);
    assert_eq!(after.active_versions, before.active_versions);
    assert_eq!(after.blocklist, before.blocklist);
}

#[test]
/// Invalid manifest validation fails without mutating registry maps.
fn validate_extension_manifest_rejects_invalid_manifest_without_mutating_registry_state() {
    let mut registry = ExtensionRegistry::in_memory();
    let mut manifest_v1 = manifest("com.example.extension");
    manifest_v1.version = "1.0.0".to_string();
    registry
        .install(manifest_v1.clone(), InstallOptions::default())
        .unwrap();

    let before = registry.snapshot();

    let mut manifest_v2 = manifest("com.example.extension");
    manifest_v2.version = "not-semver".to_string();

    let err = registry
        .validate(manifest_v2, InstallOptions::default())
        .unwrap_err();

    assert!(matches!(
        err,
        RegistryError::Validation(ExtensionValidationError::InvalidField {
            field: "version",
            ..
        })
    ));

    let after = registry.snapshot();
    assert_eq!(after.manifests, before.manifests);
    assert_eq!(after.records, before.records);
    assert_eq!(after.active_versions, before.active_versions);
    assert_eq!(after.blocklist, before.blocklist);
}

#[test]
fn blocklist_matches_trimmed_signer() {
    let mut registry = ExtensionRegistry::in_memory();
    registry
        .add_blocklist_entry(BlocklistEntry {
            key: BlockKey::Signer(" signer@example.com ".to_string()),
            reason: BlockReason::UserBlocked,
            note: None,
        })
        .unwrap();

    let mut blocked = manifest("com.example.extension");
    blocked.provenance.signer = Some(" signer@example.com ".to_string());

    let err = registry
        .install(blocked, InstallOptions::default())
        .unwrap_err();

    assert!(matches!(err, RegistryError::Blocked { .. }));
}

#[test]
fn blocklist_matches_trimmed_publisher() {
    let mut registry = ExtensionRegistry::in_memory();
    registry
        .add_blocklist_entry(BlocklistEntry {
            key: BlockKey::Publisher(" Example Publisher ".to_string()),
            reason: BlockReason::UserBlocked,
            note: None,
        })
        .unwrap();

    let mut blocked = manifest("com.example.extension");
    blocked.publisher.name = " Example Publisher ".to_string();

    let err = registry
        .install(blocked, InstallOptions::default())
        .unwrap_err();

    assert!(matches!(err, RegistryError::Blocked { .. }));
}

#[test]
fn blocklist_matches_trimmed_source_repository() {
    let mut registry = ExtensionRegistry::in_memory();
    registry
        .add_blocklist_entry(BlocklistEntry {
            key: BlockKey::SourceRepository("https://example.com/repo ".to_string()),
            reason: BlockReason::UserBlocked,
            note: None,
        })
        .unwrap();

    let mut blocked = manifest("com.example.extension");
    blocked.provenance.source = ProvenanceSource::Github;
    blocked.provenance.registry_identity = Some("github-registry".to_string());
    blocked.provenance.repository = Some(" https://example.com/repo ".to_string());
    blocked.provenance.source_ref = Some("refs/heads/main".to_string());
    blocked.provenance.manifest_path = Some("atelia.package.yaml".to_string());
    blocked.provenance.commit = Some("abc123".to_string());

    let err = registry
        .install(blocked, InstallOptions::default())
        .unwrap_err();

    assert!(matches!(err, RegistryError::Blocked { .. }));
}

#[test]
fn unsupported_vulnerability_block_key_is_rejected() {
    let mut registry = ExtensionRegistry::in_memory();
    let err = registry.add_blocklist_entry(BlocklistEntry {
        key: BlockKey::VulnerabilityId("CVE-0000-0000".to_string()),
        reason: BlockReason::VulnerableVersion,
        note: None,
    });

    assert!(matches!(
        err,
        Err(RegistryError::UnsupportedBlocklistKey { .. })
    ));
}

#[test]
fn rollback_fails_without_state_change_when_previous_version_is_blocked() {
    let mut registry = ExtensionRegistry::in_memory();
    registry
        .install(manifest("com.example.extension"), InstallOptions::default())
        .unwrap();

    let mut next = manifest("com.example.extension");
    next.version = "1.1.0".to_string();
    next.provenance.manifest_digest = OTHER_MANIFEST_DIGEST.to_string();
    next.provenance.artifact_digest = OTHER_ARTIFACT_DIGEST.to_string();

    registry.install(next, InstallOptions::default()).unwrap();

    registry
        .add_blocklist_entry(BlocklistEntry {
            key: BlockKey::ArtifactDigest(ARTIFACT_DIGEST.to_string()),
            reason: BlockReason::VulnerableVersion,
            note: None,
        })
        .unwrap();

    let err = registry.rollback("com.example.extension").unwrap_err();
    assert!(matches!(err, RegistryError::Blocked { .. }));
    assert_eq!(
        registry
            .active_record("com.example.extension")
            .unwrap()
            .version,
        "1.1.0"
    );
    assert_eq!(
        registry
            .active_record("com.example.extension")
            .unwrap()
            .status,
        ExtensionInstallStatus::Installed
    );
}

#[test]
fn registry_enable_disable_and_remove_manage_active_record() {
    let mut registry = ExtensionRegistry::in_memory();
    registry
        .install(manifest("com.example.extension"), InstallOptions::default())
        .unwrap();

    let disabled = registry.disable("com.example.extension").unwrap();
    assert_eq!(disabled.status, ExtensionInstallStatus::Disabled);
    assert_eq!(
        registry
            .active_record("com.example.extension")
            .unwrap()
            .status,
        ExtensionInstallStatus::Disabled
    );

    let enabled = registry.enable("com.example.extension").unwrap();
    assert_eq!(enabled.status, ExtensionInstallStatus::Installed);

    let removed = registry.remove("com.example.extension").unwrap();
    assert_eq!(removed.status, ExtensionInstallStatus::Disabled);
    assert!(registry.active_record("com.example.extension").is_none());
    assert!(matches!(
        registry.disable("com.example.extension"),
        Err(RegistryError::NotInstalled { .. })
    ));
}

#[test]
fn same_version_different_digest_is_rejected() {
    let mut registry = ExtensionRegistry::in_memory();
    registry
        .install(manifest("com.example.extension"), InstallOptions::default())
        .unwrap();

    let mut changed = manifest("com.example.extension");
    changed.provenance.manifest_digest = OTHER_MANIFEST_DIGEST.to_string();

    let err = registry
        .install(changed, InstallOptions::default())
        .unwrap_err();

    assert!(matches!(
        err,
        RegistryError::DigestConflict {
            extension_id,
            version
        } if extension_id == "com.example.extension" && version == "1.0.0"
    ));
}

#[test]
fn same_version_reinstall_does_not_create_self_referential_rollback() {
    let mut registry = ExtensionRegistry::in_memory();
    registry
        .install(manifest("com.example.extension"), InstallOptions::default())
        .unwrap();

    let reinstalled = registry
        .install(manifest("com.example.extension"), InstallOptions::default())
        .unwrap();

    assert_eq!(reinstalled.version, "1.0.0");
    assert_eq!(reinstalled.previous_version, None);
    registry.snapshot().validate().unwrap();
}

#[test]
fn same_bundle_service_call_requires_explicit_consume_declaration() {
    let permission_name = "service.review.comments";
    let provider_id = "com.example.provider";
    let consumer_id = "com.example.consumer";
    let mut provider = service_provider(provider_id, permission_name);
    let mut consumer = manifest(consumer_id);

    provider.bundle = Some(ExtensionBundleMembership {
        id: "com.example.bundle".to_string(),
        required: true,
    });
    consumer.bundle = Some(ExtensionBundleMembership {
        id: "com.example.bundle".to_string(),
        required: true,
    });

    let mut registry = ExtensionRegistry::in_memory();
    registry
        .install(provider, InstallOptions::default())
        .unwrap();
    registry
        .install(consumer, InstallOptions::default())
        .unwrap();

    let err = registry
        .authorize_service_call(service_call(consumer_id, provider_id))
        .unwrap_err();
    assert!(matches!(err, RegistryError::ServiceDenied { .. }));

    let mut registry = ExtensionRegistry::in_memory();
    let mut provider = service_provider(provider_id, permission_name);
    let mut consumer = service_consumer(consumer_id, provider_id, permission_name);
    provider.bundle = Some(ExtensionBundleMembership {
        id: "com.example.bundle".to_string(),
        required: true,
    });
    consumer.bundle = provider.bundle.clone();

    registry
        .install(provider, InstallOptions::default())
        .unwrap();
    registry
        .install(consumer, InstallOptions::default())
        .unwrap();

    let grant = registry
        .authorize_service_call(service_call(consumer_id, provider_id))
        .unwrap();
    assert_eq!(grant.required_permission, permission_name);
}

#[test]
fn disabled_extension_cannot_participate_in_service_calls() {
    let permission_name = "service.review.comments";
    let provider_id = "com.example.provider";
    let consumer_id = "com.example.consumer";
    let mut registry = ExtensionRegistry::in_memory();

    registry
        .install(
            service_provider(provider_id, permission_name),
            InstallOptions::default(),
        )
        .unwrap();
    registry
        .install(
            service_consumer(consumer_id, provider_id, permission_name),
            InstallOptions::default(),
        )
        .unwrap();

    registry.disable(provider_id).unwrap();
    let provider_err = registry
        .authorize_service_call(service_call(consumer_id, provider_id))
        .unwrap_err();
    assert!(matches!(provider_err, RegistryError::ServiceDenied { .. }));

    registry.enable(provider_id).unwrap();
    registry.disable(consumer_id).unwrap();
    let consumer_err = registry
        .authorize_service_call(service_call(consumer_id, provider_id))
        .unwrap_err();
    assert!(matches!(consumer_err, RegistryError::ServiceDenied { .. }));
}

#[test]
fn service_call_permission_mismatch_is_denied() {
    let provider_id = "com.example.provider";
    let consumer_id = "com.example.consumer";
    let mut registry = ExtensionRegistry::in_memory();
    registry
        .install(
            service_provider(provider_id, "service.review.comments"),
            InstallOptions::default(),
        )
        .unwrap();
    registry
        .install(
            service_consumer(consumer_id, provider_id, "service.review.other"),
            InstallOptions::default(),
        )
        .unwrap();

    let err = registry
        .authorize_service_call(service_call(consumer_id, provider_id))
        .unwrap_err();

    assert!(matches!(err, RegistryError::ServiceDenied { .. }));
}

#[test]
fn service_call_permission_metadata_matching_is_required() {
    let provider_id = "com.example.provider";
    let consumer_id = "com.example.consumer";
    let mut registry = ExtensionRegistry::in_memory();
    registry
        .install(
            service_provider(provider_id, "service.review.comments"),
            InstallOptions::default(),
        )
        .unwrap();
    registry
        .install(
            service_consumer(consumer_id, provider_id, "service.review.comments"),
            InstallOptions::default(),
        )
        .unwrap();

    let grant = registry
        .authorize_service_call(service_call(consumer_id, provider_id))
        .unwrap();

    assert_eq!(grant.required_permission, "service.review.comments");
}

#[test]
fn service_call_permission_metadata_description_mismatch_is_denied() {
    let provider_id = "com.example.provider";
    let consumer_id = "com.example.consumer";
    let mut registry = ExtensionRegistry::in_memory();
    let mut consumer = service_consumer(consumer_id, provider_id, "service.review.comments");
    consumer.permissions.insert(
        "service.review.comments".to_string(),
        permission("different description"),
    );

    registry
        .install(
            service_provider(provider_id, "service.review.comments"),
            InstallOptions::default(),
        )
        .unwrap();
    registry
        .install(consumer, InstallOptions::default())
        .unwrap();

    let err = registry
        .authorize_service_call(service_call(consumer_id, provider_id))
        .unwrap_err();

    assert!(matches!(err, RegistryError::ServiceDenied { .. }));
}

#[test]
fn service_call_permission_metadata_risk_tier_mismatch_is_denied() {
    let provider_id = "com.example.provider";
    let consumer_id = "com.example.consumer";
    let mut registry = ExtensionRegistry::in_memory();
    let mut consumer = service_consumer(consumer_id, provider_id, "service.review.comments");
    consumer.permissions.insert(
        "service.review.comments".to_string(),
        ExtensionPermission {
            description: "provide service".to_string(),
            risk_tier: Some("R1".to_string()),
        },
    );

    registry
        .install(
            service_provider(provider_id, "service.review.comments"),
            InstallOptions::default(),
        )
        .unwrap();
    registry
        .install(consumer, InstallOptions::default())
        .unwrap();

    let err = registry
        .authorize_service_call(service_call(consumer_id, provider_id))
        .unwrap_err();

    assert!(matches!(err, RegistryError::ServiceDenied { .. }));
}

#[test]
fn rollback_restores_previous_active_version() {
    let mut registry = ExtensionRegistry::in_memory();
    let installed = registry
        .install(manifest("com.example.extension"), InstallOptions::default())
        .unwrap();
    assert_eq!(
        installed.source,
        ExtensionSourceSnapshot::from_provenance(&manifest("com.example.extension").provenance)
    );

    let mut next = manifest("com.example.extension");
    next.version = "1.1.0".to_string();
    next.provenance.manifest_digest = OTHER_MANIFEST_DIGEST.to_string();
    next.provenance.artifact_digest = OTHER_ARTIFACT_DIGEST.to_string();

    let installed = registry.install(next, InstallOptions::default()).unwrap();
    assert_eq!(installed.previous_version.as_deref(), Some("1.0.0"));

    let rolled_back = registry.rollback("com.example.extension").unwrap();
    assert_eq!(rolled_back.version, "1.0.0");
    assert_eq!(
        registry
            .active_record("com.example.extension")
            .unwrap()
            .version,
        "1.0.0"
    );
}

#[test]
fn extension_snapshot_rejects_self_referential_previous_version() {
    let first = manifest("com.example.extension");
    let snapshot = extension_snapshot(
        one_entry(first.version.clone(), first.clone()),
        one_entry(
            first.version.clone(),
            extension_record(&first, Some(&first.version)),
        ),
    );

    let err = snapshot.validate().unwrap_err();
    assert!(err.contains("self-referential previous_version"));
}

#[test]
fn extension_snapshot_rejects_missing_previous_version_manifest() {
    let mut second = manifest("com.example.extension");
    second.version = "1.1.0".to_string();
    second.provenance.manifest_digest = OTHER_MANIFEST_DIGEST.to_string();
    second.provenance.artifact_digest = OTHER_ARTIFACT_DIGEST.to_string();

    let snapshot = extension_snapshot(
        one_entry(second.version.clone(), second.clone()),
        one_entry(
            second.version.clone(),
            extension_record(&second, Some("0.9.0")),
        ),
    );

    let err = snapshot.validate().unwrap_err();
    assert!(err.contains("references missing previous_version"));
    assert!(err.contains("0.9.0"));
}

#[test]
fn extension_snapshot_hydration_rejects_invalid_manifest() {
    let mut invalid = manifest("com.example.extension");
    invalid.name.clear();
    let snapshot = extension_snapshot(
        one_entry(invalid.version.clone(), invalid.clone()),
        one_entry(invalid.version.clone(), extension_record(&invalid, None)),
    );

    snapshot.validate().unwrap();
    let err = ExtensionRegistry::from_snapshot(snapshot, ManifestValidationPolicy::default())
        .unwrap_err();
    assert!(err.contains("manifest validation failed"));
    assert!(err.contains("com.example.extension"));
}

#[test]
fn extension_snapshot_hydration_rejects_boundary_mismatch() {
    let third_party = manifest("com.example.extension");
    let mut record = extension_record(&third_party, None);
    record.boundary = ExtensionBoundary::Official;
    let snapshot = extension_snapshot(
        one_entry(third_party.version.clone(), third_party.clone()),
        one_entry(third_party.version.clone(), record),
    );

    snapshot.validate().unwrap();
    let err = ExtensionRegistry::from_snapshot(snapshot, ManifestValidationPolicy::default())
        .unwrap_err();
    assert!(err.contains("boundary mismatch"));
}

#[test]
fn install_rejects_source_provenance_change_without_approval() {
    let mut registry = ExtensionRegistry::in_memory();
    registry
        .install(manifest("com.example.extension"), InstallOptions::default())
        .unwrap();

    let mut next = manifest("com.example.extension");
    next.version = "1.1.0".to_string();
    next.provenance.manifest_digest = OTHER_MANIFEST_DIGEST.to_string();
    next.provenance.artifact_digest = OTHER_ARTIFACT_DIGEST.to_string();
    next.provenance.registry_identity = Some("other-registry".to_string());

    let err = registry
        .install(next, InstallOptions::default())
        .unwrap_err();
    assert!(matches!(
        err,
        RegistryError::SourceChangeRequiresApproval { extension_id }
            if extension_id == "com.example.extension"
    ));
}

#[test]
fn install_accepts_source_provenance_change_with_approval() {
    let mut registry = ExtensionRegistry::in_memory();
    registry
        .install(manifest("com.example.extension"), InstallOptions::default())
        .unwrap();

    let mut next = manifest("com.example.extension");
    next.version = "1.1.0".to_string();
    next.provenance.manifest_digest = OTHER_MANIFEST_DIGEST.to_string();
    next.provenance.artifact_digest = OTHER_ARTIFACT_DIGEST.to_string();
    next.provenance.registry_identity = Some("other-registry".to_string());

    let record = registry
        .install(
            next.clone(),
            InstallOptions::default().approve_source_change(),
        )
        .unwrap();
    assert_eq!(
        record.source,
        ExtensionSourceSnapshot::from_provenance(&next.provenance)
    );
}

#[test]
fn same_github_repository_commit_update_does_not_require_source_approval() {
    let mut registry = ExtensionRegistry::in_memory();
    registry
        .install(
            github_manifest("com.example.extension"),
            InstallOptions::default(),
        )
        .unwrap();

    let mut next = github_manifest("com.example.extension");
    next.version = "1.1.0".to_string();
    next.provenance.commit = Some("2222222".to_string());
    next.provenance.manifest_digest = OTHER_MANIFEST_DIGEST.to_string();
    next.provenance.artifact_digest = OTHER_ARTIFACT_DIGEST.to_string();

    let record = registry.install(next, InstallOptions::default()).unwrap();
    assert_eq!(record.source.commit.as_deref(), Some("2222222"));
    assert_eq!(record.source.source_ref.as_deref(), Some("refs/heads/main"));
    assert_eq!(
        record.source.manifest_path.as_deref(),
        Some("atelia.package.yaml")
    );
}

#[test]
fn github_source_reference_snapshot_trims_authority_fields() {
    let mut registry = ExtensionRegistry::in_memory();
    let mut first = github_manifest("com.example.extension");
    first.provenance.repository = Some(" https://github.com/example/package ".to_string());
    first.provenance.source_ref = Some(" refs/heads/main ".to_string());
    first.provenance.manifest_path = Some(" atelia.package.yaml ".to_string());

    let record = registry.install(first, InstallOptions::default()).unwrap();
    assert_eq!(
        record.source.repository.as_deref(),
        Some("https://github.com/example/package")
    );
    assert_eq!(record.source.source_ref.as_deref(), Some("refs/heads/main"));
    assert_eq!(
        record.source.manifest_path.as_deref(),
        Some("atelia.package.yaml")
    );

    let mut next = github_manifest("com.example.extension");
    next.version = "1.1.0".to_string();
    next.provenance.manifest_digest = OTHER_MANIFEST_DIGEST.to_string();
    next.provenance.artifact_digest = OTHER_ARTIFACT_DIGEST.to_string();

    registry.install(next, InstallOptions::default()).unwrap();
}

#[test]
fn github_ref_or_manifest_path_change_requires_source_approval() {
    let mut registry = ExtensionRegistry::in_memory();
    registry
        .install(
            github_manifest("com.example.extension"),
            InstallOptions::default(),
        )
        .unwrap();

    let mut changed_ref = github_manifest("com.example.extension");
    changed_ref.version = "1.1.0".to_string();
    changed_ref.provenance.source_ref = Some("refs/heads/release".to_string());
    changed_ref.provenance.manifest_digest = OTHER_MANIFEST_DIGEST.to_string();
    changed_ref.provenance.artifact_digest = OTHER_ARTIFACT_DIGEST.to_string();

    let err = registry
        .install(changed_ref.clone(), InstallOptions::default())
        .unwrap_err();
    assert!(matches!(
        err,
        RegistryError::SourceChangeRequiresApproval { .. }
    ));

    registry
        .install(
            changed_ref,
            InstallOptions::default().approve_source_change(),
        )
        .unwrap();

    let mut changed_manifest_path = github_manifest("com.example.extension");
    changed_manifest_path.version = "1.2.0".to_string();
    changed_manifest_path.provenance.source_ref = Some("refs/heads/release".to_string());
    changed_manifest_path.provenance.manifest_path = Some("packages/review.yaml".to_string());
    changed_manifest_path.provenance.manifest_digest = THIRD_MANIFEST_DIGEST.to_string();
    changed_manifest_path.provenance.artifact_digest = THIRD_ARTIFACT_DIGEST.to_string();

    let err = registry
        .install(changed_manifest_path, InstallOptions::default())
        .unwrap_err();
    assert!(matches!(
        err,
        RegistryError::SourceChangeRequiresApproval { .. }
    ));
}

#[test]
fn publication_state_change_does_not_require_source_approval() {
    let mut registry = ExtensionRegistry::in_memory();
    registry
        .install(manifest("com.example.extension"), InstallOptions::default())
        .unwrap();

    let mut next = manifest("com.example.extension");
    next.version = "1.1.0".to_string();
    next.provenance.manifest_digest = OTHER_MANIFEST_DIGEST.to_string();
    next.provenance.artifact_digest = OTHER_ARTIFACT_DIGEST.to_string();
    next.provenance.publication = Some(ExtensionPublication {
        visibility: ExtensionPublicationVisibility::PublicSearchable,
        registry_submission: ExtensionRegistrySubmission::Submitted,
    });

    let record = registry.install(next, InstallOptions::default()).unwrap();
    assert_eq!(
        record.source.publication,
        Some(ExtensionPublication {
            visibility: ExtensionPublicationVisibility::PublicSearchable,
            registry_submission: ExtensionRegistrySubmission::Submitted,
        })
    );
}

#[test]
fn provenance_lineage_and_publication_are_validated_and_preserved() {
    let mut manifest = manifest("com.example.extension");
    manifest.provenance.lineage = Some(ExtensionLineage {
        parent_id: "com.example.parent".to_string(),
        parent_version: Some("1.2.3".to_string()),
        parent_manifest_digest: Some(OTHER_MANIFEST_DIGEST.to_string()),
        relationship: ExtensionLineageRelationship::Remix,
    });
    manifest.provenance.publication = Some(ExtensionPublication {
        visibility: ExtensionPublicationVisibility::UnlistedShare,
        registry_submission: ExtensionRegistrySubmission::NotSubmitted,
    });

    let validated = manifest
        .clone()
        .validate(&ManifestValidationPolicy::default())
        .unwrap();
    assert_eq!(
        validated.manifest.provenance.lineage,
        manifest.provenance.lineage
    );
    assert_eq!(
        validated.manifest.provenance.publication,
        manifest.provenance.publication
    );
    assert!(validated.manifest.provenance.lineage.is_some());
    assert!(validated.manifest.provenance.publication.is_some());
}

#[test]
fn private_remix_cannot_claim_registry_submission() {
    let mut manifest = manifest("local.example.extension");
    manifest.provenance.source = ProvenanceSource::Local;
    manifest.provenance.registry_identity = None;
    manifest.provenance.signature = None;
    manifest.provenance.signer = None;
    manifest.provenance.publication = Some(ExtensionPublication {
        visibility: ExtensionPublicationVisibility::PrivateRemix,
        registry_submission: ExtensionRegistrySubmission::Submitted,
    });

    let err = manifest
        .validate(&ManifestValidationPolicy::default().with_local_unsigned())
        .unwrap_err();
    assert!(matches!(
        err,
        ExtensionValidationError::InvalidField {
            field: "provenance.publication.registry_submission",
            ..
        }
    ));
}

#[test]
fn private_remix_can_stay_local_and_unsubmitted() {
    let mut manifest = manifest("local.example.extension");
    manifest.provenance.source = ProvenanceSource::Local;
    manifest.provenance.registry_identity = None;
    manifest.provenance.signature = None;
    manifest.provenance.signer = None;
    manifest.provenance.publication = Some(ExtensionPublication {
        visibility: ExtensionPublicationVisibility::PrivateRemix,
        registry_submission: ExtensionRegistrySubmission::NotSubmitted,
    });

    let validated = manifest
        .validate(&ManifestValidationPolicy::default().with_local_unsigned())
        .unwrap();
    assert_eq!(
        validated.manifest.provenance.publication,
        manifest.provenance.publication
    );
}

#[test]
fn private_remix_can_be_github_sourced_and_unsubmitted() {
    let mut manifest = github_manifest("com.example.extension");
    manifest.provenance.publication = Some(ExtensionPublication {
        visibility: ExtensionPublicationVisibility::PrivateRemix,
        registry_submission: ExtensionRegistrySubmission::NotSubmitted,
    });

    let validated = manifest
        .validate(&ManifestValidationPolicy::default())
        .unwrap();
    assert_eq!(
        validated.manifest.provenance.publication,
        manifest.provenance.publication
    );
}

#[test]
fn unlisted_share_can_be_local_and_unsubmitted() {
    let mut manifest = manifest("local.example.extension");
    manifest.provenance.source = ProvenanceSource::Local;
    manifest.provenance.registry_identity = None;
    manifest.provenance.signature = None;
    manifest.provenance.signer = None;
    manifest.provenance.publication = Some(ExtensionPublication {
        visibility: ExtensionPublicationVisibility::UnlistedShare,
        registry_submission: ExtensionRegistrySubmission::NotSubmitted,
    });

    let validated = manifest
        .validate(&ManifestValidationPolicy::default().with_local_unsigned())
        .unwrap();
    assert_eq!(
        validated.manifest.provenance.publication,
        manifest.provenance.publication
    );
}

#[test]
fn unlisted_share_rejects_rejected_submission() {
    let mut manifest = github_manifest("com.example.extension");
    manifest.provenance.publication = Some(ExtensionPublication {
        visibility: ExtensionPublicationVisibility::UnlistedShare,
        registry_submission: ExtensionRegistrySubmission::Rejected,
    });

    let err = manifest
        .validate(&ManifestValidationPolicy::default())
        .unwrap_err();
    assert!(matches!(
        err,
        ExtensionValidationError::InvalidField {
            field: "provenance.publication.registry_submission",
            ..
        }
    ));
}

#[test]
fn unlisted_share_requires_registry_identity_when_registry_submitted() {
    for registry_submission in [
        ExtensionRegistrySubmission::Submitted,
        ExtensionRegistrySubmission::Accepted,
    ] {
        let mut manifest = github_manifest("com.example.extension");
        manifest.provenance.publication = Some(ExtensionPublication {
            visibility: ExtensionPublicationVisibility::UnlistedShare,
            registry_submission,
        });

        let err = manifest
            .validate(&ManifestValidationPolicy::default())
            .unwrap_err();
        assert!(matches!(
            err,
            ExtensionValidationError::ProvenanceRequired {
                field: "provenance.registry_identity",
                ..
            }
        ));
    }
}

#[test]
fn public_searchable_allows_submitted_or_accepted_with_registry_identity() {
    for registry_submission in [
        ExtensionRegistrySubmission::Submitted,
        ExtensionRegistrySubmission::Accepted,
    ] {
        let mut manifest = github_manifest("com.example.extension");
        manifest.provenance.registry_identity = Some("third-party-registry".to_string());
        manifest.provenance.publication = Some(ExtensionPublication {
            visibility: ExtensionPublicationVisibility::PublicSearchable,
            registry_submission,
        });

        let validated = manifest
            .validate(&ManifestValidationPolicy::default())
            .unwrap();
        assert_eq!(
            validated.manifest.provenance.publication,
            manifest.provenance.publication
        );
    }
}

#[test]
fn public_searchable_rejects_not_submitted_and_rejected_states() {
    for registry_submission in [
        ExtensionRegistrySubmission::NotSubmitted,
        ExtensionRegistrySubmission::Rejected,
    ] {
        let mut manifest = github_manifest("com.example.extension");
        manifest.provenance.registry_identity = Some("third-party-registry".to_string());
        manifest.provenance.publication = Some(ExtensionPublication {
            visibility: ExtensionPublicationVisibility::PublicSearchable,
            registry_submission,
        });

        let err = manifest
            .validate(&ManifestValidationPolicy::default())
            .unwrap_err();
        assert!(matches!(
            err,
            ExtensionValidationError::InvalidField {
                field: "provenance.publication.registry_submission",
                ..
            }
        ));
    }
}

#[test]
fn public_searchable_rejects_local_development_authority() {
    let mut manifest = manifest("local.example.extension");
    manifest.provenance.source = ProvenanceSource::Local;
    manifest.provenance.registry_identity = Some("third-party-registry".to_string());
    manifest.provenance.signature = None;
    manifest.provenance.signer = None;
    manifest.provenance.publication = Some(ExtensionPublication {
        visibility: ExtensionPublicationVisibility::PublicSearchable,
        registry_submission: ExtensionRegistrySubmission::Submitted,
    });

    let err = manifest
        .validate(&ManifestValidationPolicy::default().with_local_unsigned())
        .unwrap_err();
    assert!(matches!(
        err,
        ExtensionValidationError::BoundaryViolation { .. }
    ));
}

#[test]
fn official_publication_requires_official_identity_and_accepted_submission() {
    let mut manifest = manifest("ai.atelia.example");
    manifest.provenance.registry_identity = Some("atelia-official".to_string());
    manifest.provenance.publication = Some(ExtensionPublication {
        visibility: ExtensionPublicationVisibility::Official,
        registry_submission: ExtensionRegistrySubmission::Submitted,
    });

    let err = manifest
        .validate(&ManifestValidationPolicy::default())
        .unwrap_err();
    assert!(matches!(
        err,
        ExtensionValidationError::InvalidField {
            field: "provenance.publication.registry_submission",
            ..
        }
    ));
}

#[test]
fn official_publication_rejects_non_official_registry_identity_even_when_accepted() {
    let mut manifest = manifest("ai.atelia.example");
    manifest.provenance.registry_identity = Some("third-party-registry".to_string());
    manifest.provenance.publication = Some(ExtensionPublication {
        visibility: ExtensionPublicationVisibility::Official,
        registry_submission: ExtensionRegistrySubmission::Accepted,
    });

    let err = manifest
        .validate(&ManifestValidationPolicy::default())
        .unwrap_err();
    assert!(matches!(
        err,
        ExtensionValidationError::BoundaryViolation { .. }
    ));
}

#[test]
fn official_publication_is_allowed_with_official_identity_and_accepted_submission() {
    let mut manifest = manifest("ai.atelia.example");
    manifest.provenance.registry_identity = Some("atelia-official".to_string());
    manifest.provenance.publication = Some(ExtensionPublication {
        visibility: ExtensionPublicationVisibility::Official,
        registry_submission: ExtensionRegistrySubmission::Accepted,
    });

    let validated = manifest
        .validate(&ManifestValidationPolicy::default())
        .unwrap();
    assert_eq!(validated.boundary, ExtensionBoundary::Official);
    assert_eq!(
        validated.manifest.provenance.publication,
        manifest.provenance.publication
    );
}

#[test]
fn extension_service_install_status_and_list_returns_installed_extensions() {
    let mut service = ExtensionRegistryService::new();
    service
        .install_extension(InstallExtensionRequest {
            manifest: manifest("com.example.extension"),
            approve_local_unsigned: false,
            allow_local_process_runtime: false,
            approve_source_change: false,
        })
        .unwrap();
    service
        .install_extension(InstallExtensionRequest {
            manifest: manifest("com.example.other"),
            approve_local_unsigned: false,
            allow_local_process_runtime: false,
            approve_source_change: false,
        })
        .unwrap();

    let status = service
        .extension_status(ExtensionStatusRequest {
            extension_id: "com.example.extension".to_string(),
        })
        .unwrap();
    let status_record = status.record.expect("status should include a record");
    assert_eq!(status_record.version, "1.0.0");
    assert_eq!(status_record.status, ExtensionInstallStatus::Installed);

    let list = service
        .list_extensions(ListExtensionsRequest::default())
        .unwrap();
    assert_eq!(list.extensions.len(), 2);

    let ids: std::collections::HashSet<_> = list
        .extensions
        .iter()
        .map(|entry| entry.extension_id.as_str())
        .collect();
    assert!(ids.contains("com.example.extension"));
    assert!(ids.contains("com.example.other"));
}

#[test]
fn extension_service_rollback_restores_previous_extension_version() {
    let mut service = ExtensionRegistryService::new();
    service
        .install_extension(InstallExtensionRequest {
            manifest: manifest("com.example.extension"),
            approve_local_unsigned: false,
            allow_local_process_runtime: false,
            approve_source_change: false,
        })
        .unwrap();

    let mut updated = manifest("com.example.extension");
    updated.version = "1.1.0".to_string();
    updated.provenance.manifest_digest = OTHER_MANIFEST_DIGEST.to_string();
    updated.provenance.artifact_digest = OTHER_ARTIFACT_DIGEST.to_string();
    service
        .install_extension(InstallExtensionRequest {
            manifest: updated,
            approve_local_unsigned: false,
            allow_local_process_runtime: false,
            approve_source_change: false,
        })
        .unwrap();

    let rolled_back = service
        .rollback_extension(RollbackExtensionRequest {
            extension_id: "com.example.extension".to_string(),
        })
        .unwrap();
    assert_eq!(rolled_back.record.version, "1.0.0");

    let status = service
        .extension_status(ExtensionStatusRequest {
            extension_id: "com.example.extension".to_string(),
        })
        .unwrap();
    let status_record = status.record.expect("status should include a record");
    assert_eq!(status_record.version, "1.0.0");
    assert_eq!(
        status_record.status,
        ExtensionInstallStatus::InstalledPreviousVersion
    );
}

#[test]
fn extension_service_blocked_install_and_status_are_reported_explicitly() {
    let mut service = ExtensionRegistryService::new();
    service
        .install_extension(InstallExtensionRequest {
            manifest: manifest("com.example.extension"),
            approve_local_unsigned: false,
            allow_local_process_runtime: false,
            approve_source_change: false,
        })
        .unwrap();

    service
        .apply_blocklist(ApplyBlocklistRequest {
            entry: BlocklistEntry {
                key: BlockKey::ExtensionId("com.example.extension".to_string()),
                reason: BlockReason::ManifestMismatch,
                note: Some("policy update".to_string()),
            },
        })
        .unwrap();

    let err = service
        .install_extension(InstallExtensionRequest {
            manifest: manifest("com.example.extension"),
            approve_local_unsigned: false,
            allow_local_process_runtime: false,
            approve_source_change: false,
        })
        .unwrap_err();
    assert!(matches!(
        err,
        RegistryError::Blocked {
            reason: BlockReason::ManifestMismatch,
            ..
        }
    ));

    let status = service
        .extension_status(ExtensionStatusRequest {
            extension_id: "com.example.extension".to_string(),
        })
        .unwrap();
    let status_record = status.record.expect("status should include a record");
    let block = status.block.expect("status should expose block reason");

    assert_eq!(status_record.status, ExtensionInstallStatus::Blocked);
    assert_eq!(block.reason, BlockReason::ManifestMismatch);

    let list = service
        .list_extensions(ListExtensionsRequest::default())
        .unwrap();
    let listed_status = list
        .extensions
        .iter()
        .find(|entry| entry.extension_id == "com.example.extension")
        .and_then(|entry| entry.record.as_ref())
        .expect("extension should still be listed");
    assert_eq!(listed_status.status, ExtensionInstallStatus::Blocked);
}

#[test]
fn composition_attachment_extension_ids_must_use_reverse_dns_namespaces() {
    let mut extension = manifest("com.example.invalid-composition");
    extension
        .composition
        .attachments
        .push(ExtensionCompositionAttachment {
            extension_id: "not-a-reverse-dns-id".to_string(),
            required: Some(true),
        });

    let err = extension
        .validate(&ManifestValidationPolicy::default())
        .unwrap_err();
    assert!(matches!(
        err,
        ExtensionValidationError::InvalidField {
            field: "composition.attachments.extension_id",
            ..
        }
    ));
}

#[test]
fn migration_from_versions_must_be_valid_semver() {
    let mut extension = manifest("com.example.invalid-migration");
    extension.migration.from.push("1.0".to_string());

    let err = extension
        .validate(&ManifestValidationPolicy::default())
        .unwrap_err();
    assert!(matches!(
        err,
        ExtensionValidationError::InvalidField {
            field: "migration.from",
            ..
        }
    ));
}

#[test]
fn extended_taxonomy_manifest_validates_with_new_sections() {
    let mut extension = manifest("com.example.taxonomy");
    extension.types = vec![
        ExtensionKind::Tool,
        ExtensionKind::Service,
        ExtensionKind::ToolOutputCustomizer,
        ExtensionKind::HookProvider,
        ExtensionKind::WebhookReceiver,
        ExtensionKind::Workflow,
        ExtensionKind::Notification,
        ExtensionKind::ApprovalAgent,
        ExtensionKind::Review,
        ExtensionKind::ReviewAgent,
        ExtensionKind::AgentProvider,
        ExtensionKind::DelegatedAgent,
        ExtensionKind::MemoryProvider,
        ExtensionKind::MemoryStrategy,
        ExtensionKind::Integration,
        ExtensionKind::Presentation,
    ];
    extension.permissions.insert(
        "service.review.comments".to_string(),
        permission("provide service"),
    );
    extension
        .services
        .provides
        .push(ExtensionServiceDefinition {
            service: "review.comments".to_string(),
            method: "summarize".to_string(),
            schema_version: "v1".to_string(),
            required_permission: "service.review.comments".to_string(),
        });
    extension.tool_output.push(tool_output_definition("ping"));
    extension.hooks.push(hook_definition("hk_review"));
    extension.webhooks.push(webhook_definition("wh_review"));

    let validated = extension
        .validate(&ManifestValidationPolicy::default())
        .unwrap();
    assert_eq!(validated.boundary, ExtensionBoundary::ThirdParty);
}

#[test]
fn extension_service_blocklist_listing_works() {
    let mut service = ExtensionRegistryService::new();
    service
        .apply_blocklist(ApplyBlocklistRequest {
            entry: BlocklistEntry {
                key: BlockKey::PermissionPattern("test.*".to_string()),
                reason: BlockReason::PolicyViolation,
                note: None,
            },
        })
        .unwrap();

    let list = service.list_blocklist(ListBlocklistRequest {}).unwrap();
    assert_eq!(list.entries.len(), 1);
    assert_eq!(list.entries[0].reason, BlockReason::PolicyViolation);
}

#[test]
fn extended_taxonomy_manifest_installs_without_legacy_sections() {
    let mut legacy_manifest = manifest("com.example.legacy-taxonomy");
    legacy_manifest.types = vec![
        ExtensionKind::Tool,
        ExtensionKind::ToolOutputCustomizer,
        ExtensionKind::HookProvider,
        ExtensionKind::WebhookReceiver,
    ];

    assert!(legacy_manifest.tool_output.is_empty());
    assert!(legacy_manifest.hooks.is_empty());
    assert!(legacy_manifest.webhooks.is_empty());

    let mut registry = ExtensionRegistry::in_memory();
    let record = registry
        .install(legacy_manifest.clone(), InstallOptions::default())
        .unwrap();

    assert_eq!(record.id, legacy_manifest.id);
    assert_eq!(record.version, legacy_manifest.version);
    assert_eq!(
        registry
            .active_record(&legacy_manifest.id)
            .expect("installed extension should be active")
            .version,
        legacy_manifest.version
    );
}

#[test]
fn list_extensions_request_deserializes_missing_include_blocked_as_true() {
    let request = ListExtensionsRequest::default();

    assert!(request.include_blocked);
}

#[test]
fn list_extensions_request_deserializes_include_blocked_false() {
    let request = ListExtensionsRequest {
        include_blocked: false,
    };

    assert!(!request.include_blocked);
    assert_ne!(request, ListExtensionsRequest::default());

    let mut service = ExtensionRegistryService::new();
    service
        .install_extension(InstallExtensionRequest {
            manifest: manifest("com.example.extension"),
            approve_local_unsigned: false,
            allow_local_process_runtime: false,
            approve_source_change: false,
        })
        .unwrap();
    service
        .install_extension(InstallExtensionRequest {
            manifest: manifest("com.example.other"),
            approve_local_unsigned: false,
            allow_local_process_runtime: false,
            approve_source_change: false,
        })
        .unwrap();

    service
        .apply_blocklist(ApplyBlocklistRequest {
            entry: BlocklistEntry {
                key: BlockKey::ExtensionId("com.example.extension".to_string()),
                reason: BlockReason::PolicyViolation,
                note: None,
            },
        })
        .unwrap();

    let list = service.list_extensions(request).unwrap();
    assert_eq!(list.extensions.len(), 1);
    assert_eq!(list.extensions[0].extension_id, "com.example.other");
}

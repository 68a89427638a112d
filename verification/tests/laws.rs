//! What holds of the library as a whole, on chosen values.
use atelia_core::domain::{
    Actor, EventRefs, EventSeverity, EventSubject, JobEvent, JobEventKind, JobKind, JobRecord,
    JobStatus, JobStatusTransitionError, LedgerTimestamp, LockDecision, LockOwner,
    LockReclaimError, LockStatus, LockedScope, RepositoryRecord, RepositoryTrustState,
    StructuredValue, ToolResult, ToolResultField, ToolResultStatus,
};
use atelia_core::extensions::endpoint::check_endpoint;
use atelia_core::extensions::manifest::{
    DegradeBehavior, ExtensionCompatibility, ExtensionEntrypoints, ExtensionFailure, ExtensionKind,
    ExtensionManifest, ExtensionPermission, ExtensionProvenance, ExtensionPublisher,
    ExtensionRealm, ExtensionRuntime,
    ExtensionServiceDefinition, ExtensionServiceDependency, ExtensionToolDefinition,
    ManifestValidationPolicy, ProvenanceSource, RetryPolicy, EXTENSION_MANIFEST_SCHEMA,
    EXTENSION_RPC_PROTOCOL,
};
use atelia_core::extensions::records::{
    BlockKey, BlockReason, BlocklistEntry, ExtensionInstallStatus, InstallOptions, RegistryError,
    ServiceCallRequest,
};
use atelia_core::extensions::registry::ExtensionRegistry;
use atelia_core::extensions::service::{
    ApplyBlocklistRequest, ExtensionRegistryService, InstallExtensionRequest,
    ListExtensionsRequest,
};
use atelia_core::feedback::{AxFeedback, AxSeverity};
use atelia_core::ids::{
    FeedbackId, JobEventId, JobId, PolicyDecisionId, ProjectId, RepositoryId, ToolInvocationId,
    ToolResultId,
};
use atelia_core::policy::{canonicalize_job_requested_capability, Capability};
use atelia_core::settings::{
    OversizeOutputPolicy, ToolOutputDefaults, ToolOutputOverrides, ToolOutputSettingsError,
    ToolOutputSettingsScope, ToolOutputVerbosity, DEFAULT_MAX_INLINE_BYTES,
};
use atelia_core::settings_service::InMemoryToolOutputSettingsService;
use atelia_core::store::{
    EventCursor, EventQuery, InMemoryStore, JobQuery, SecretaryStore, StoreError,
};
use atelia_core::text_map::TextMap;
use atelia_core::tool_output::{OutputFormat, RenderOptions};
use atelia_core::truncation::{truncate_string_list, truncate_with_metadata};

fn at(millis: i64) -> LedgerTimestamp {
    LedgerTimestamp::from_unix_millis(millis)
}

fn actor() -> Actor {
    Actor::System {
        id: "law-test".to_string(),
    }
}

fn repository() -> RepositoryRecord {
    RepositoryRecord::new(
        "repository".to_string(),
        "/srv/repository".to_string(),
        RepositoryTrustState::Trusted,
        at(1),
    )
}

fn message(repository_id: &RepositoryId) -> JobEvent {
    JobEvent {
        id: JobEventId::new(),
        schema_version: 1,
        sequence_number: 0,
        created_at: at(3),
        subject: EventSubject::repository(repository_id),
        kind: JobEventKind::Message,
        severity: EventSeverity::Info,
        public_message: "message".to_string(),
        refs: EventRefs::default(),
        redactions: Vec::new(),
    }
}

#[test]
fn identifiers_are_fresh_and_checked() {
    let first = JobId::new();
    let second = JobId::new();
    assert_ne!(first, second);
    assert_eq!(40, first.as_str().len());
    assert!(first.as_str().starts_with("job_"));

    let text = "job_67e55044-10b1-426f-9247-bb680e5fe0c8";
    assert_eq!(text, JobId::try_from_string(text.to_string()).unwrap().as_str());
    for wrong in [
        "67e55044-10b1-426f-9247-bb680e5fe0c8",
        "job_67e55044-10b1-426f-9247-bb680e5fe0c",
        "job_67e55044-10b1-426f-9247-bb680e5fe0cg",
        "repo_67e55044-10b1-426f-9247-bb680e5fe0c8",
        "job_",
        "",
    ] {
        let error = JobId::try_from_string(wrong.to_string()).unwrap_err();
        assert_eq!(
            "JobId must be a prefixed opaque id starting with job_ followed by a UUID",
            error.to_text()
        );
    }
    assert_ne!(ProjectId::new(), ProjectId::new());
}

#[test]
fn time_is_told_in_milliseconds_since_the_epoch() {
    let now = LedgerTimestamp::now();
    assert!(now.unix_millis > 1_600_000_000_000);
    assert!(now.unix_millis < 32_000_000_000_000);
}

#[test]
fn ended_jobs_stay_as_they_are() {
    let ended = [
        JobStatus::Succeeded,
        JobStatus::Failed,
        JobStatus::Blocked,
        JobStatus::Canceled,
    ];
    let all = [
        JobStatus::Queued,
        JobStatus::Running,
        JobStatus::Succeeded,
        JobStatus::Failed,
        JobStatus::Blocked,
        JobStatus::Canceled,
    ];
    for from in ended {
        assert!(from.is_terminal());
        for to in all {
            assert_eq!(from == to, from.can_transition_to(to));
        }
    }
    for from in [JobStatus::Running, JobStatus::Failed] {
        assert!(!from.can_transition_to(JobStatus::Queued));
    }

    let mut job = JobRecord::new(
        actor(),
        RepositoryId::new(),
        JobKind::Read,
        "goal".to_string(),
        at(10),
    );
    let error = job.transition_status(JobStatus::Succeeded, at(20)).unwrap_err();
    assert!(matches!(
        error,
        JobStatusTransitionError::InvalidTransition {
            from: JobStatus::Queued,
            to: JobStatus::Succeeded,
        }
    ));
    job.transition_status(JobStatus::Running, at(20)).unwrap();
    job.transition_status(JobStatus::Running, at(30)).unwrap();
    assert_eq!(Some(at(20)), job.started_at);
    job.transition_status(JobStatus::Failed, at(40)).unwrap();
    job.transition_status(JobStatus::Failed, at(50)).unwrap();
    assert_eq!(Some(at(40)), job.completed_at);
    assert_eq!(at(50), job.updated_at);
}

#[test]
fn locks_are_reclaimed_by_their_owner_only() {
    let owner = LockOwner::Job(JobId::new());
    let mut lock = LockDecision::new(
        RepositoryId::new(),
        PolicyDecisionId::new(),
        owner,
        LockedScope::Repository,
        at(1000),
        at(2000),
    )
    .unwrap();
    let other = LockOwner::Job(JobId::new());

    assert!(matches!(
        lock.reclaim(&other, at(3000)),
        Err(LockReclaimError::OwnerMismatch)
    ));
    assert_eq!(LockStatus::Held, lock.status);
}

#[test]
fn replays_go_on_where_they_stopped() {
    let mut store = InMemoryStore::new();
    let repository = repository();
    store.create_repository(repository.clone()).unwrap();
    for _ in 0..5 {
        store.append_job_event(message(&repository.id)).unwrap();
    }

    let all = store.replay_job_events(EventCursor::Beginning, None).unwrap();
    assert_eq!(5, all.len());
    let first = store
        .replay_job_events(EventCursor::Beginning, Some(2))
        .unwrap();
    let rest = store
        .replay_job_events(EventCursor::AfterEventId(first[1].id.clone()), None)
        .unwrap();
    assert_eq!(all, [first, rest].concat());

    assert!(matches!(
        store.replay_job_events(EventCursor::AfterEventId(JobEventId::new()), None),
        Err(StoreError::InvalidCursor { .. })
    ));
}

#[test]
fn pages_of_events_follow_each_other() {
    let mut store = InMemoryStore::new();
    let repository = repository();
    store.create_repository(repository.clone()).unwrap();
    for _ in 0..5 {
        store.append_job_event(message(&repository.id)).unwrap();
    }

    let mut gathered: Vec<JobEvent> = Vec::new();
    let mut token: Option<String> = None;
    let mut pages = 0;
    loop {
        let page = store
            .query_job_events(EventQuery {
                repository_id: Some(repository.id.clone()),
                page_size: Some(2),
                page_token: token,
                ..EventQuery::default()
            })
            .unwrap();
        gathered.extend(page.events);
        pages += 1;
        token = page.next_page_token;
        if token.is_none() {
            break;
        }
    }
    assert_eq!(3, pages);
    assert_eq!(
        store.replay_job_events(EventCursor::Beginning, None).unwrap(),
        gathered
    );

    assert!(matches!(
        store.query_jobs(JobQuery {
            page_token: Some("next".to_string()),
            ..JobQuery::default()
        }),
        Err(StoreError::InvalidCursor { .. })
    ));
}

#[test]
fn store_errors_are_put_in_words() {
    let mut store = InMemoryStore::new();
    let repository = repository();
    let shown = format!("RepositoryId(\"{}\")", repository.id.as_str());
    assert_eq!(
        format!("repositories record was not found: {shown}"),
        store.get_repository(&repository.id).unwrap_err().to_text()
    );
    store.create_repository(repository.clone()).unwrap();
    assert_eq!(
        format!("repositories record already exists: {shown}"),
        store.create_repository(repository).unwrap_err().to_text()
    );
    assert_eq!(
        "job event sequence overflowed",
        StoreError::SequenceOverflow.to_text()
    );
}

const DIGEST: &str = "sha256:0123456789abcdef0123456789abcdef0123456789abcdef0123456789abcdef";
const LATER_DIGEST: &str =
    "sha256:fedcba9876543210fedcba9876543210fedcba9876543210fedcba9876543210";

fn manifest(id: &str, version: &str, digest: &str) -> ExtensionManifest {
    let mut permissions = TextMap::new();
    permissions.insert(
        "tool.ping".to_string(),
        ExtensionPermission {
            description: "exposes the ping tool".to_string(),
            risk_tier: Some("R2".to_string()),
        },
    );
    ExtensionManifest {
        schema: EXTENSION_MANIFEST_SCHEMA.to_string(),
        id: id.to_string(),
        name: "Ping".to_string(),
        version: version.to_string(),
        publisher: ExtensionPublisher {
            name: "Publisher".to_string(),
            url: None,
        },
        description: "Answers".to_string(),
        types: vec![ExtensionKind::Tool],
        compatibility: ExtensionCompatibility {
            atelia_protocol: ">=0.1 <0.3".to_string(),
            atelia_secretary: ">=0.1 <0.2".to_string(),
        },
        entrypoints: ExtensionEntrypoints {
            realm: ExtensionRealm::Backend,
            runtime: ExtensionRuntime::WasmRust,
            command: None,
            image: None,
            wasm: Some("ping.wasm".to_string()),
            protocol: EXTENSION_RPC_PROTOCOL.to_string(),
        },
        permissions,
        tools: vec![ExtensionToolDefinition {
            id: "ping".to_string(),
            permissions: vec!["tool.ping".to_string()],
            permissions_required: Vec::new(),
        }],
        failure: ExtensionFailure {
            degrade: DegradeBehavior::ReturnUnavailable,
            retry_policy: RetryPolicy::Bounded,
        },
        provenance: ExtensionProvenance {
            source: ProvenanceSource::Registry,
            repository: None,
            source_ref: None,
            manifest_path: None,
            commit: None,
            registry_identity: Some("registry".to_string()),
            lineage: None,
            publication: None,
            artifact_digest: digest.to_string(),
            manifest_digest: digest.to_string(),
            signature: Some("signature".to_string()),
            signer: Some("signer".to_string()),
        },
        ..ExtensionManifest::default()
    }
}

fn restores(registry: &ExtensionRegistry) {
    let snapshot = registry.snapshot();
    snapshot.validate().unwrap();
    let restored =
        ExtensionRegistry::from_snapshot(snapshot.clone(), registry.validation_policy()).unwrap();
    assert_eq!(snapshot, restored.snapshot());
}

#[test]
fn registries_stay_coherent_and_are_restored_from_snapshots() {
    let mut registry = ExtensionRegistry::in_memory();
    restores(&registry);
    registry
        .install(
            manifest("com.example.ping", "1.0.0", DIGEST),
            InstallOptions::default(),
        )
        .unwrap();
    restores(&registry);
    registry
        .install(
            manifest("com.example.ping", "1.1.0", LATER_DIGEST),
            InstallOptions::default(),
        )
        .unwrap();
    restores(&registry);
    registry.disable("com.example.ping").unwrap();
    restores(&registry);
    registry.enable("com.example.ping").unwrap();
    restores(&registry);
    registry.rollback("com.example.ping").unwrap();
    restores(&registry);
    assert!(matches!(
        registry.rollback("com.example.ping"),
        Err(RegistryError::RollbackUnavailable { .. })
    ));
    registry
        .add_blocklist_entry(BlocklistEntry {
            key: BlockKey::ArtifactDigest(DIGEST.to_string()),
            reason: BlockReason::VulnerableVersion,
            note: None,
        })
        .unwrap();
    restores(&registry);
    let status = registry.extension_status("com.example.ping").unwrap();
    assert_eq!(
        ExtensionInstallStatus::Blocked,
        status.record.status
    );
    assert_eq!(
        format!(
            "extension com.example.ping is blocklisted by VulnerableVersion: \
             ArtifactDigest(\"{DIGEST}\")"
        ),
        registry.enable("com.example.ping").unwrap_err().to_text()
    );
    registry.remove("com.example.ping").unwrap();
    restores(&registry);
    assert!(registry.active_record("com.example.ping").is_none());
}

#[test]
fn validation_foretells_installation() {
    let mut registry = ExtensionRegistry::in_memory();
    registry
        .install(
            manifest("com.example.ping", "1.0.0", DIGEST),
            InstallOptions::default(),
        )
        .unwrap();
    let changed = manifest("com.example.ping", "1.0.0", LATER_DIGEST);
    let moved = {
        let mut moved = manifest("com.example.ping", "1.1.0", LATER_DIGEST);
        moved.provenance.registry_identity = Some("elsewhere".to_string());
        moved
    };
    for refused in [changed, moved] {
        let verdict = registry
            .validate(refused.clone(), InstallOptions::default())
            .unwrap_err();
        assert_eq!(
            verdict,
            registry
                .install(refused, InstallOptions::default())
                .unwrap_err()
        );
    }
    let fine = manifest("com.example.ping", "1.1.0", LATER_DIGEST);
    registry
        .validate(fine.clone(), InstallOptions::default())
        .unwrap();
    registry.install(fine, InstallOptions::default()).unwrap();
}

fn objection(change: impl Fn(&mut ExtensionManifest)) -> String {
    let mut changed = manifest("com.example.ping", "1.0.0", DIGEST);
    change(&mut changed);
    changed
        .validate(&ManifestValidationPolicy::default())
        .unwrap_err()
        .to_text()
}

#[test]
fn objections_to_manifests_are_put_in_words() {
    assert_eq!(
        "extension manifest schema must be atelia.extension.v1, found atelia.extension.v0",
        objection(|m| m.schema = "atelia.extension.v0".to_string())
    );
    assert_eq!(
        "extension manifest field name is required",
        objection(|m| m.name = " ".to_string())
    );
    assert_eq!(
        "duplicate tool declaration ping",
        objection(|m| {
            let again = m.tools[0].clone();
            m.tools.push(again);
        })
    );
    assert_eq!(
        "tool ping requires undeclared permission tool.write",
        objection(|m| m.tools[0].permissions = vec!["tool.write".to_string()])
    );
    assert!(objection(|m| m.version = "1.0".to_string())
        .starts_with("extension manifest field version is invalid: "));
    assert!(objection(|m| m.provenance.signer = None)
        .starts_with("extension provenance field provenance.signer is required: "));
    assert!(objection(|m| m.entrypoints.runtime = ExtensionRuntime::Process)
        .starts_with("extension runtime Process is not supported: "));
    assert!(objection(|m| m.id = "ai.atelia.ping".to_string())
        .starts_with("extension boundary violation: "));
    assert_eq!(
        "duplicate service declaration review.comments.summarize schema v1",
        objection(|m| {
            m.types.push(ExtensionKind::Service);
            for _ in 0..2 {
                m.services.provides.push(ExtensionServiceDefinition {
                    service: "review.comments".to_string(),
                    method: "summarize".to_string(),
                    schema_version: "v1".to_string(),
                    required_permission: "tool.ping".to_string(),
                });
            }
        })
    );
}

fn summarize_call() -> ServiceCallRequest {
    ServiceCallRequest {
        caller_extension_id: "com.example.caller".to_string(),
        callee_extension_id: "com.example.callee".to_string(),
        service: "review.comments".to_string(),
        method: "summarize".to_string(),
        schema_version: "v1".to_string(),
        required_permission: None,
    }
}

#[test]
fn calls_to_what_is_not_there_are_refused() {
    let mut registry = ExtensionRegistry::in_memory();
    assert_eq!(
        RegistryError::NotInstalled {
            extension_id: "com.example.caller".to_string(),
        },
        registry
            .authorize_service_call(summarize_call())
            .unwrap_err()
    );
    assert_eq!(
        "extension com.example.caller is not installed",
        registry.disable("com.example.caller").unwrap_err().to_text()
    );

    let mut caller = manifest("com.example.caller", "1.0.0", DIGEST);
    caller.types.push(ExtensionKind::Service);
    caller.services.consumes.push(ExtensionServiceDependency {
        extension_id: "com.example.callee".to_string(),
        service: "review.comments".to_string(),
        method: "summarize".to_string(),
        schema_version: "v1".to_string(),
        required_permission: "tool.ping".to_string(),
    });
    registry.install(caller, InstallOptions::default()).unwrap();
    registry
        .install(
            manifest("com.example.callee", "1.0.0", LATER_DIGEST),
            InstallOptions::default(),
        )
        .unwrap();
    assert_eq!(
        "service unavailable: callee did not declare services.provides for this service",
        registry
            .authorize_service_call(summarize_call())
            .unwrap_err()
            .to_text()
    );
}

#[test]
fn blocked_extensions_are_left_out_of_lists_on_request() {
    let mut service = ExtensionRegistryService::new();
    for id in ["com.example.extension", "com.example.other"] {
        service
            .install_extension(InstallExtensionRequest::with_defaults(manifest(
                id, "1.0.0", DIGEST,
            )))
            .unwrap();
    }
    service
        .apply_blocklist(ApplyBlocklistRequest {
            entry: BlocklistEntry {
                key: BlockKey::ExtensionId("com.example.extension".to_string()),
                reason: BlockReason::PolicyViolation,
                note: None,
            },
        })
        .unwrap();

    let all = service
        .list_extensions(ListExtensionsRequest::default())
        .unwrap();
    assert_eq!(2, all.extensions.len());
    let list = service
        .list_extensions(ListExtensionsRequest {
            include_blocked: false,
        })
        .unwrap();
    assert_eq!(1, list.extensions.len());
    assert_eq!("com.example.other", list.extensions[0].extension_id);

    let request =
        InstallExtensionRequest::with_defaults(manifest("com.example.ping", "1.0.0", DIGEST));
    assert_eq!(InstallOptions::from(request), InstallOptions::default());
}

#[test]
fn endpoints_need_a_proper_authority() {
    for accepted in [
        "example.com/hook",
        "example.com:8443/hook",
        "192.168.0.1/hook",
        "[2001:db8::1]:443/hook",
        "[::ffff:10.0.0.1]/hook",
    ] {
        assert_eq!(None, check_endpoint(accepted), "{accepted}");
    }
    assert_eq!(Some("must include a host"), check_endpoint("/hook"));
    assert_eq!(
        Some("must not contain userinfo"),
        check_endpoint("user@example.com/hook")
    );
    for refused in [
        "example.com:0x1/hook",
        "example.com:/hook",
        "[::1/hook",
        "[1:2:3]/hook",
        "[foo]/hook",
    ] {
        assert!(check_endpoint(refused).is_some(), "{refused}");
    }
}

#[test]
fn text_maps_stay_in_the_order_of_their_keys() {
    let mut map: TextMap<String> = TextMap::new();
    for key in ["m", "z", "a", "m", "Z"] {
        map.insert(key.to_string(), format!("value of {key}"));
    }
    assert_eq!(vec!["Z", "a", "m", "z"], map.keys());
    assert_eq!(Some(&"value of a".to_string()), map.get("a"));
    map.remove("a");
    assert_eq!(None, map.get("a"));
    assert_eq!(Some(&"value of m".to_string()), map.get("m"));
    assert_eq!(3, map.len());

    let mut nested: TextMap<TextMap<String>> = TextMap::new();
    nested.insert_in("outer", "inner".to_string(), "value".to_string());
    assert_eq!(Some(&"value".to_string()), nested.get_in("outer", "inner"));
    assert_eq!(None, nested.get_in("outer", "other"));
}

#[test]
fn overrides_restore_what_they_distinguish() {
    let mut service = InMemoryToolOutputSettingsService::new(at(1));
    let repository = ToolOutputSettingsScope::repository(RepositoryId::new());
    let other = ToolOutputSettingsScope::repository(RepositoryId::new());
    let before = service.resolve_defaults(&other);

    let change = service
        .apply_update(
            actor(),
            repository.clone(),
            ToolOutputOverrides {
                format: Some(OutputFormat::Json),
                max_inline_bytes: Some(4096),
                ..ToolOutputOverrides::default()
            },
            "smaller".to_string(),
            at(2),
        )
        .unwrap();

    let now = service.resolve_defaults(&repository);
    assert_eq!(change.new_defaults, now);
    assert_eq!(4096, now.max_inline_bytes);
    assert_eq!(DEFAULT_MAX_INLINE_BYTES, change.old_defaults.max_inline_bytes);
    assert_eq!(before, service.resolve_defaults(&other));

    assert_eq!(
        ToolOutputSettingsError::MissingReason,
        service
            .apply_update(
                actor(),
                repository,
                ToolOutputOverrides {
                    format: Some(OutputFormat::Text),
                    ..ToolOutputOverrides::default()
                },
                "\t".to_string(),
                at(3),
            )
            .unwrap_err()
    );
    assert_eq!(1, service.changes().len());
}

#[test]
fn requests_stay_within_the_verbosity() {
    let defaults = ToolOutputDefaults {
        verbosity: ToolOutputVerbosity::Minimal,
        oversize_policy: OversizeOutputPolicy::RejectOversize,
        ..ToolOutputDefaults::default()
    };
    let policy = defaults.render_policy_with_render_options(Some(&RenderOptions {
        format: OutputFormat::Json,
        include_policy: true,
        include_diagnostics: true,
        include_cost: true,
    }));
    assert_eq!(
        RenderOptions::new(OutputFormat::Json),
        policy.render_options
    );
}

#[test]
fn truncated_fields_fit_the_limit() {
    let texts = |values: &[&str]| -> Vec<String> {
        values.iter().map(|value| value.to_string()).collect()
    };
    let (kept, bytes) = truncate_string_list(&texts(&["h\u{e9}llo", "w\u{f6}rld"]), 9);
    assert_eq!(texts(&["h\u{e9}llo", "w"]), kept);
    assert_eq!(8, bytes);
    let (kept, bytes) = truncate_string_list(&texts(&["abc", "def"]), 4);
    assert_eq!(texts(&["abc"]), kept);
    assert_eq!(3, bytes);

    let mut result = ToolResult {
        id: ToolResultId::new(),
        schema_version: 1,
        created_at: at(1),
        invocation_id: ToolInvocationId::new(),
        tool_id: "tool".to_string(),
        status: ToolResultStatus::Succeeded,
        schema_ref: None,
        fields: vec![
            ToolResultField {
                key: "text".to_string(),
                value: StructuredValue::String("ab\u{20ac}".to_string()),
            },
            ToolResultField {
                key: "short".to_string(),
                value: StructuredValue::String("abcd".to_string()),
            },
        ],
        evidence_refs: Vec::new(),
        output_refs: Vec::new(),
        truncation: None,
        redactions: Vec::new(),
    };
    assert!(truncate_with_metadata(&mut result, 4));
    assert_eq!(
        StructuredValue::String("ab".to_string()),
        result.fields[0].value
    );
    assert_eq!(
        StructuredValue::String("abcd".to_string()),
        result.fields[1].value
    );
    let truncation = result.truncation.clone().unwrap();
    assert_eq!(5, truncation.original_bytes);
    assert_eq!(2, truncation.retained_bytes);
    assert!(!truncate_with_metadata(&mut result, 4));
}

#[test]
fn capability_names_are_told_by_their_normal_form() {
    assert_eq!(
        Some("capability.discovery"),
        canonicalize_job_requested_capability(" Policy/Check ")
    );
    assert_eq!(None, canonicalize_job_requested_capability("filesystem.read"));
    assert_eq!(Capability::FilesystemRead, Capability::from_name("FS:read"));
    assert_eq!(Capability::Unsupported, Capability::from_name("fs.fly"));
    assert!(Capability::FilesystemWrite.is_repository_mutating());
    assert!(!Capability::SecretAccess.is_repository_mutating());
}

#[test]
fn feedback_goes_by_a_uuid() {
    let text = "550e8400-e29b-41d4-a716-446655440000";
    let feedback = AxFeedback {
        id: FeedbackId::from_uuid_text(text.to_string()).unwrap(),
        summary: "slow".to_string(),
        observed: "a minute".to_string(),
        expected: None,
        severity: AxSeverity::Painful,
    };
    assert_eq!(text, feedback.id.as_str());
    assert_eq!(feedback, feedback.clone());
    assert_ne!(FeedbackId::new(), FeedbackId::new());
    assert_eq!(None, FeedbackId::from_uuid_text("feedback".to_string()));
    assert_eq!(None, FeedbackId::from_uuid_text(text.to_uppercase()));
}

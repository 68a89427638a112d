//! Defaults of tool output, their overrides by scope, and the log of changes.
use atelia_core::domain::{Actor, LedgerTimestamp};
use atelia_core::ids::RepositoryId;
use atelia_core::settings::{
    OversizeOutputPolicy, ToolOutputDefaults, ToolOutputGranularity, ToolOutputOverrides,
    ToolOutputSettings, ToolOutputSettingsError, ToolOutputSettingsScope, ToolOutputVerbosity,
    DEFAULT_MAX_INLINE_BYTES, DEFAULT_MAX_INLINE_LINES, MAX_MAX_INLINE_BYTES, MAX_MAX_INLINE_LINES,
    MIN_MAX_INLINE_BYTES, MIN_MAX_INLINE_LINES, TOOL_OUTPUT_SETTINGS_SCHEMA_VERSION,
};
use atelia_core::settings_service::InMemoryToolOutputSettingsService;
use atelia_core::tool_output::{OutputFormat, RenderOptions};

fn actor() -> Actor {
    Actor::Agent {
        id: "agent:test".to_string(),
        display_name: Some("Test Agent".to_string()),
    }
}

#[test]
fn defaults_are_token_efficient_and_map_to_render_options() {
    let defaults = ToolOutputDefaults::default();
    let render_options = defaults.render_options();

    assert_eq!(render_options.format, OutputFormat::Toon);
    assert!(!render_options.include_policy);
    assert!(!render_options.include_diagnostics);
    assert!(!render_options.include_cost);
    assert_eq!(defaults.max_inline_bytes, DEFAULT_MAX_INLINE_BYTES);
    assert_eq!(defaults.max_inline_lines, DEFAULT_MAX_INLINE_LINES);
    assert_eq!(defaults.verbosity, ToolOutputVerbosity::Normal);
    assert_eq!(defaults.granularity, ToolOutputGranularity::KeyFields);
    assert_eq!(
        defaults.oversize_policy,
        OversizeOutputPolicy::TruncateWithMetadata
    );
    assert!(defaults.validate().is_ok());
}

#[test]
fn defaults_render_policy_applies_verbosity_granularity_and_limits() {
    let defaults = ToolOutputDefaults {
        render_options: RenderOptions {
            format: OutputFormat::Json,
            include_policy: false,
            include_diagnostics: false,
            include_cost: false,
        },
        max_inline_bytes: DEFAULT_MAX_INLINE_BYTES,
        max_inline_lines: 2,
        verbosity: ToolOutputVerbosity::Expanded,
        granularity: ToolOutputGranularity::Summary,
        oversize_policy: OversizeOutputPolicy::TruncateWithMetadata,
    };

    let policy = defaults.render_policy();

    assert_eq!(policy.render_options.format, OutputFormat::Json);
    assert!(policy.render_options.include_policy);
    assert!(policy.render_options.include_diagnostics);
    assert!(!policy.render_options.include_cost);
    assert_eq!(policy.max_fields, Some(1));
    assert!(!policy.include_evidence_refs);
    assert!(!policy.include_output_refs);
    assert!(!policy.include_redactions);
}

#[test]
fn defaults_render_policy_keeps_full_unbounded_by_inline_line_limit() {
    let defaults = ToolOutputDefaults {
        render_options: RenderOptions::new(OutputFormat::Text),
        max_inline_bytes: DEFAULT_MAX_INLINE_BYTES,
        max_inline_lines: 2,
        verbosity: ToolOutputVerbosity::Normal,
        granularity: ToolOutputGranularity::Full,
        oversize_policy: OversizeOutputPolicy::TruncateWithMetadata,
    };

    let policy = defaults.render_policy();

    assert_eq!(policy.max_fields, None);
    assert_eq!(policy.max_inline_lines, Some(2));
}

#[test]
fn defaults_render_policy_overlays_request_render_options_without_bypassing_constraints() {
    let defaults = ToolOutputDefaults {
        render_options: RenderOptions {
            format: OutputFormat::Text,
            include_policy: false,
            include_diagnostics: false,
            include_cost: false,
        },
        max_inline_bytes: DEFAULT_MAX_INLINE_BYTES,
        max_inline_lines: 4,
        verbosity: ToolOutputVerbosity::Minimal,
        granularity: ToolOutputGranularity::Summary,
        oversize_policy: OversizeOutputPolicy::TruncateWithMetadata,
    };

    let policy = defaults.render_policy_with_render_options(Some(&RenderOptions {
        format: OutputFormat::Json,
        include_policy: true,
        include_diagnostics: true,
        include_cost: true,
    }));

    assert_eq!(policy.render_options.format, OutputFormat::Json);
    assert!(!policy.render_options.include_policy);
    assert!(!policy.render_options.include_diagnostics);
    assert!(!policy.render_options.include_cost);
    assert_eq!(policy.max_fields, Some(1));
    assert!(!policy.include_evidence_refs);
    assert!(!policy.include_output_refs);
    assert!(!policy.include_redactions);
}

#[test]
fn defaults_render_policy_caps_requested_optional_channels_by_verbosity() {
    let base_defaults = ToolOutputDefaults {
        render_options: RenderOptions {
            format: OutputFormat::Text,
            include_policy: false,
            include_diagnostics: false,
            include_cost: false,
        },
        max_inline_bytes: DEFAULT_MAX_INLINE_BYTES,
        max_inline_lines: 4,
        verbosity: ToolOutputVerbosity::Normal,
        granularity: ToolOutputGranularity::Full,
        oversize_policy: OversizeOutputPolicy::TruncateWithMetadata,
    };

    let requested = RenderOptions {
        format: OutputFormat::Json,
        include_policy: true,
        include_diagnostics: true,
        include_cost: true,
    };

    let minimal = ToolOutputDefaults {
        verbosity: ToolOutputVerbosity::Minimal,
        ..base_defaults.clone()
    }
    .render_policy_with_render_options(Some(&requested));
    assert_eq!(minimal.render_options.format, OutputFormat::Json);
    assert!(!minimal.render_options.include_policy);
    assert!(!minimal.render_options.include_diagnostics);
    assert!(!minimal.render_options.include_cost);

    let normal = ToolOutputDefaults {
        verbosity: ToolOutputVerbosity::Normal,
        ..base_defaults.clone()
    }
    .render_policy_with_render_options(Some(&requested));
    assert!(!normal.render_options.include_policy);
    assert!(!normal.render_options.include_diagnostics);
    assert!(!normal.render_options.include_cost);

    let expanded = ToolOutputDefaults {
        verbosity: ToolOutputVerbosity::Expanded,
        ..base_defaults.clone()
    }
    .render_policy_with_render_options(Some(&requested));
    assert!(expanded.render_options.include_policy);
    assert!(expanded.render_options.include_diagnostics);
    assert!(!expanded.render_options.include_cost);

    let debug = ToolOutputDefaults {
        verbosity: ToolOutputVerbosity::Debug,
        ..base_defaults
    }
    .render_policy_with_render_options(Some(&requested));
    assert!(debug.render_options.include_policy);
    assert!(debug.render_options.include_diagnostics);
    assert!(debug.render_options.include_cost);
}

#[test]
fn defaults_render_policy_without_request_render_options_uses_defaults() {
    let defaults = ToolOutputDefaults {
        render_options: RenderOptions {
            format: OutputFormat::Json,
            include_policy: true,
            include_diagnostics: false,
            include_cost: true,
        },
        max_inline_bytes: DEFAULT_MAX_INLINE_BYTES,
        max_inline_lines: 4,
        verbosity: ToolOutputVerbosity::Normal,
        granularity: ToolOutputGranularity::Full,
        oversize_policy: OversizeOutputPolicy::TruncateWithMetadata,
    };

    let policy = defaults.render_policy_with_render_options(None);

    assert_eq!(policy.render_options.format, OutputFormat::Json);
    assert!(!policy.render_options.include_policy);
    assert!(!policy.render_options.include_diagnostics);
    assert!(!policy.render_options.include_cost);
}

#[test]
fn single_call_overrides_do_not_mutate_defaults() {
    let defaults = ToolOutputDefaults::default();
    let adjusted = defaults
        .with_overrides(&ToolOutputOverrides {
            format: Some(OutputFormat::Json),
            include_diagnostics: Some(true),
            max_inline_bytes: Some(32 * 1024),
            verbosity: Some(ToolOutputVerbosity::Expanded),
            ..ToolOutputOverrides::default()
        })
        .unwrap();

    assert_eq!(defaults.render_options.format, OutputFormat::Toon);
    assert!(!defaults.render_options.include_diagnostics);
    assert_eq!(defaults.max_inline_bytes, DEFAULT_MAX_INLINE_BYTES);
    assert_eq!(adjusted.render_options.format, OutputFormat::Json);
    assert!(adjusted.render_options.include_diagnostics);
    assert_eq!(adjusted.max_inline_bytes, 32 * 1024);
    assert_eq!(adjusted.verbosity, ToolOutputVerbosity::Expanded);
}

#[test]
fn settings_update_records_audit_shape() {
    let mut settings = ToolOutputSettings::new(
        ToolOutputSettingsScope::workspace().for_tool("fs.read".to_string()),
        LedgerTimestamp::from_unix_millis(1),
    );

    let change = settings
        .apply_update(
            actor(),
            ToolOutputOverrides {
                format: Some(OutputFormat::Text),
                include_policy: Some(true),
                max_inline_lines: Some(80),
                oversize_policy: Some(OversizeOutputPolicy::SpillToArtifactRef),
                ..ToolOutputOverrides::default()
            },
            "PDH-147 tune fs.read for concise agent inspection".to_string(),
            &ToolOutputDefaults::default(),
            LedgerTimestamp::from_unix_millis(2),
        )
        .unwrap();

    assert_eq!(change.scope.tool_id.as_deref(), Some("fs.read"));
    assert_eq!(
        change.old_defaults.render_options.format,
        OutputFormat::Toon
    );
    assert_eq!(
        change.new_defaults.render_options.format,
        OutputFormat::Text
    );
    assert!(change.new_defaults.render_options.include_policy);
    assert_eq!(change.new_defaults.max_inline_lines, 80);
    assert_eq!(
        change.new_defaults.oversize_policy,
        OversizeOutputPolicy::SpillToArtifactRef
    );
    assert_eq!(change.changed_at, LedgerTimestamp::from_unix_millis(2));
    assert_eq!(settings.updated_at, LedgerTimestamp::from_unix_millis(2));
    assert_eq!(
        settings.overrides,
        ToolOutputOverrides {
            format: Some(OutputFormat::Text),
            include_policy: Some(true),
            max_inline_lines: Some(80),
            oversize_policy: Some(OversizeOutputPolicy::SpillToArtifactRef),
            ..ToolOutputOverrides::default()
        }
    );
}

#[test]
fn settings_update_rejects_unbounded_values_without_mutating() {
    let mut settings = ToolOutputSettings::new(
        ToolOutputSettingsScope::session("session-1".to_string()),
        LedgerTimestamp::from_unix_millis(1),
    );
    let old_defaults = settings.overrides.clone();

    let error = settings
        .apply_update(
            actor(),
            ToolOutputOverrides {
                max_inline_bytes: Some(MAX_MAX_INLINE_BYTES + 1),
                ..ToolOutputOverrides::default()
            },
            "too large".to_string(),
            &ToolOutputDefaults::default(),
            LedgerTimestamp::from_unix_millis(2),
        )
        .unwrap_err();

    assert_eq!(
        error,
        ToolOutputSettingsError::MaxInlineBytesOutOfRange {
            value: MAX_MAX_INLINE_BYTES + 1,
            min: MIN_MAX_INLINE_BYTES,
            max: MAX_MAX_INLINE_BYTES,
        }
    );
    assert_eq!(settings.overrides, old_defaults);
    assert_eq!(settings.updated_at, LedgerTimestamp::from_unix_millis(1));
}

#[test]
fn settings_apply_update_rejects_invalid_legacy_migration_without_mutating() {
    let inherited = ToolOutputDefaults {
        render_options: RenderOptions {
            format: OutputFormat::Toon,
            include_policy: false,
            include_diagnostics: false,
            include_cost: false,
        },
        max_inline_bytes: 24 * 1024,
        max_inline_lines: 111,
        verbosity: ToolOutputVerbosity::Normal,
        granularity: ToolOutputGranularity::KeyFields,
        oversize_policy: OversizeOutputPolicy::TruncateWithMetadata,
    };
    let legacy_defaults = ToolOutputDefaults {
        render_options: RenderOptions {
            format: OutputFormat::Json,
            include_policy: true,
            include_diagnostics: true,
            include_cost: false,
        },
        max_inline_bytes: 32 * 1024,
        max_inline_lines: 333,
        verbosity: ToolOutputVerbosity::Expanded,
        granularity: ToolOutputGranularity::Full,
        oversize_policy: OversizeOutputPolicy::SpillToArtifactRef,
    };
    let mut settings = ToolOutputSettings::from_payload(
        TOOL_OUTPUT_SETTINGS_SCHEMA_VERSION,
        ToolOutputSettingsScope::workspace(),
        None,
        Some(legacy_defaults),
        LedgerTimestamp::from_unix_millis(1),
        None,
    )
    .unwrap();
    let old_overrides = settings.overrides.clone();
    let old_legacy_defaults = settings.legacy_defaults.clone();

    let error = settings
        .apply_update(
            actor(),
            ToolOutputOverrides {
                max_inline_bytes: Some(MAX_MAX_INLINE_BYTES + 1),
                ..ToolOutputOverrides::default()
            },
            "invalid legacy migration update".to_string(),
            &inherited,
            LedgerTimestamp::from_unix_millis(2),
        )
        .unwrap_err();

    assert_eq!(
        error,
        ToolOutputSettingsError::MaxInlineBytesOutOfRange {
            value: MAX_MAX_INLINE_BYTES + 1,
            min: MIN_MAX_INLINE_BYTES,
            max: MAX_MAX_INLINE_BYTES,
        }
    );
    assert_eq!(settings.overrides, old_overrides);
    assert_eq!(settings.legacy_defaults, old_legacy_defaults);
    assert_eq!(settings.updated_at, LedgerTimestamp::from_unix_millis(1));
}

#[test]
fn settings_deserialization_rejects_out_of_range_bytes() {
    let invalid = ToolOutputDefaults {
        max_inline_bytes: MAX_MAX_INLINE_BYTES + 1,
        ..ToolOutputDefaults::default()
    };

    let error = invalid.checked().unwrap_err();

    assert!(error.to_text().contains("max_inline_bytes"));
}

#[test]
fn settings_deserialization_rejects_out_of_range_lines() {
    let invalid = ToolOutputDefaults {
        max_inline_lines: MIN_MAX_INLINE_LINES - 1,
        ..ToolOutputDefaults::default()
    };

    let error = invalid.checked().unwrap_err();

    assert!(error.to_text().contains("max_inline_lines"));
}

#[test]
fn overrides_deserialization_rejects_out_of_range_bytes() {
    let invalid = ToolOutputOverrides {
        max_inline_bytes: Some(MAX_MAX_INLINE_BYTES + 1),
        ..ToolOutputOverrides::default()
    };

    let error = invalid.checked().unwrap_err();

    assert!(error.to_text().contains("max_inline_bytes"));
}

#[test]
fn overrides_deserialization_rejects_out_of_range_lines() {
    let invalid = ToolOutputOverrides {
        max_inline_lines: Some(MIN_MAX_INLINE_LINES - 1),
        ..ToolOutputOverrides::default()
    };

    let error = invalid.checked().unwrap_err();

    assert!(error.to_text().contains("max_inline_lines"));
}

#[test]
fn settings_deserialization_rejects_mixed_overrides_and_defaults() {
    let overrides = ToolOutputOverrides {
        format: Some(OutputFormat::Json),
        include_cost: Some(true),
        ..ToolOutputOverrides::default()
    };

    let error = ToolOutputSettings::from_payload(
        TOOL_OUTPUT_SETTINGS_SCHEMA_VERSION,
        ToolOutputSettingsScope::workspace(),
        Some(overrides),
        Some(ToolOutputDefaults::default()),
        LedgerTimestamp::from_unix_millis(1),
        None,
    )
    .unwrap_err();

    assert!(error.contains("must not provide both `overrides` and legacy `defaults`"));
}

#[test]
fn settings_deserialization_rejects_invalid_overrides() {
    let error = ToolOutputOverrides {
        max_inline_lines: Some(MIN_MAX_INLINE_LINES - 1),
        ..ToolOutputOverrides::default()
    }
    .checked()
    .map(|overrides| {
        ToolOutputSettings::from_payload(
            TOOL_OUTPUT_SETTINGS_SCHEMA_VERSION,
            ToolOutputSettingsScope::workspace(),
            Some(overrides),
            None,
            LedgerTimestamp::from_unix_millis(1),
            None,
        )
    })
    .unwrap_err();

    assert!(error.to_text().contains("max_inline_lines"));
}

#[test]
fn service_new_with_settings_rejects_duplicate_scopes() {
    let created_at = LedgerTimestamp::from_unix_millis(1_700_000_000_000);
    let duplicated_scope = ToolOutputSettingsScope::repository(RepositoryId::new());
    let settings = vec![
        ToolOutputSettings::new(ToolOutputSettingsScope::workspace(), created_at),
        ToolOutputSettings::new(duplicated_scope.clone(), created_at),
        ToolOutputSettings::new(duplicated_scope.clone(), created_at),
    ];

    let error =
        InMemoryToolOutputSettingsService::new_with_settings(created_at, settings).unwrap_err();

    assert_eq!(
        error,
        ToolOutputSettingsError::DuplicateScope {
            scope: duplicated_scope
        }
    );
}

#[test]
fn settings_apply_update_migrates_legacy_defaults_before_audit() {
    let inherited = ToolOutputDefaults {
        render_options: RenderOptions {
            format: OutputFormat::Toon,
            include_policy: false,
            include_diagnostics: false,
            include_cost: false,
        },
        max_inline_bytes: 24 * 1024,
        max_inline_lines: 111,
        verbosity: ToolOutputVerbosity::Normal,
        granularity: ToolOutputGranularity::KeyFields,
        oversize_policy: OversizeOutputPolicy::TruncateWithMetadata,
    };
    let legacy_defaults = ToolOutputDefaults {
        render_options: RenderOptions {
            format: OutputFormat::Json,
            include_policy: true,
            include_diagnostics: true,
            include_cost: false,
        },
        max_inline_bytes: 32 * 1024,
        max_inline_lines: 333,
        verbosity: ToolOutputVerbosity::Expanded,
        granularity: ToolOutputGranularity::Full,
        oversize_policy: OversizeOutputPolicy::SpillToArtifactRef,
    };
    let mut settings = ToolOutputSettings::from_payload(
        TOOL_OUTPUT_SETTINGS_SCHEMA_VERSION,
        ToolOutputSettingsScope::workspace(),
        None,
        Some(legacy_defaults),
        LedgerTimestamp::from_unix_millis(1),
        None,
    )
    .unwrap();

    let change = settings
        .apply_update(
            actor(),
            ToolOutputOverrides {
                include_cost: Some(true),
                ..ToolOutputOverrides::default()
            },
            "migrate legacy defaults before comparing audit diff".to_string(),
            &inherited,
            LedgerTimestamp::from_unix_millis(2),
        )
        .unwrap();

    assert_eq!(settings.legacy_defaults, None);
    assert_eq!(
        change.old_defaults.render_options.format,
        OutputFormat::Json
    );
    assert!(change.old_defaults.render_options.include_policy);
    assert!(change.old_defaults.render_options.include_diagnostics);
    assert_eq!(change.old_defaults.verbosity, ToolOutputVerbosity::Expanded);
    assert_eq!(
        change.old_defaults.oversize_policy,
        OversizeOutputPolicy::SpillToArtifactRef
    );

    assert_eq!(
        change.new_defaults.render_options.format,
        OutputFormat::Json
    );
    assert!(change.new_defaults.render_options.include_cost);

    assert_eq!(settings.overrides.format, Some(OutputFormat::Json));
    assert_eq!(settings.overrides.include_cost, Some(true));
}

#[test]
fn settings_update_requires_reason_and_values() {
    let mut settings = ToolOutputSettings::new(
        ToolOutputSettingsScope::agent_profile("agent:test".to_string()),
        LedgerTimestamp::from_unix_millis(1),
    );

    assert_eq!(
        settings
            .apply_update(
                actor(),
                ToolOutputOverrides::default(),
                "empty".to_string(),
                &ToolOutputDefaults::default(),
                LedgerTimestamp::from_unix_millis(2),
            )
            .unwrap_err(),
        ToolOutputSettingsError::EmptyUpdate
    );

    assert_eq!(
        settings
            .apply_update(
                actor(),
                ToolOutputOverrides {
                    max_inline_lines: Some(40),
                    ..ToolOutputOverrides::default()
                },
                " ".to_string(),
                &ToolOutputDefaults::default(),
                LedgerTimestamp::from_unix_millis(2),
            )
            .unwrap_err(),
        ToolOutputSettingsError::MissingReason
    );
}

#[test]
fn service_resolves_effective_defaults_by_precedence() {
    let repo_id = RepositoryId::new();
    let mut service = InMemoryToolOutputSettingsService::new(
        LedgerTimestamp::from_unix_millis(1_700_000_000_000),
    );
    let repository_scope = ToolOutputSettingsScope::repository(repo_id);
    let repository_tool_scope = repository_scope.clone().for_tool("tool.read".to_string());

    service
        .apply_update(
            actor(),
            ToolOutputSettingsScope::workspace(),
            ToolOutputOverrides {
                format: Some(OutputFormat::Json),
                max_inline_lines: Some(77),
                ..ToolOutputOverrides::default()
            },
            "set workspace default format".to_string(),
            LedgerTimestamp::from_unix_millis(1_700_000_000_001),
        )
        .unwrap();
    service
        .apply_update(
            actor(),
            repository_scope.clone(),
            ToolOutputOverrides {
                granularity: Some(ToolOutputGranularity::Full),
                ..ToolOutputOverrides::default()
            },
            "make repository output full".to_string(),
            LedgerTimestamp::from_unix_millis(1_700_000_000_003),
        )
        .unwrap();
    service
        .apply_update(
            actor(),
            repository_tool_scope.clone(),
            ToolOutputOverrides {
                include_policy: Some(true),
                verbosity: Some(ToolOutputVerbosity::Expanded),
                ..ToolOutputOverrides::default()
            },
            "expand only read in repository".to_string(),
            LedgerTimestamp::from_unix_millis(1_700_000_000_004),
        )
        .unwrap();

    let repository_tool_defaults = service.resolve_defaults(&repository_tool_scope);
    assert_eq!(
        repository_tool_defaults.render_options.format,
        OutputFormat::Json
    );
    assert!(repository_tool_defaults.render_options.include_policy);
    assert_eq!(
        repository_tool_defaults.granularity,
        ToolOutputGranularity::Full
    );
    assert_eq!(
        repository_tool_defaults.verbosity,
        ToolOutputVerbosity::Expanded
    );
    assert_eq!(repository_tool_defaults.max_inline_lines, 77);

    let repository_defaults = service.resolve_defaults(&repository_scope);
    assert_eq!(
        repository_defaults.render_options.format,
        OutputFormat::Json
    );
    assert!(!repository_defaults.render_options.include_policy);
    assert_eq!(repository_defaults.granularity, ToolOutputGranularity::Full);
    assert_eq!(repository_defaults.verbosity, ToolOutputVerbosity::Normal);
    assert_eq!(repository_defaults.max_inline_lines, 77);
}

#[test]
fn service_resolves_workspace_tool_after_non_tool_level_scope() {
    let repo_id = RepositoryId::new();
    let mut service = InMemoryToolOutputSettingsService::new(
        LedgerTimestamp::from_unix_millis(1_700_000_000_200),
    );
    let repository_scope = ToolOutputSettingsScope::repository(repo_id);
    let repository_tool_scope = repository_scope.clone().for_tool("tool.read".to_string());

    service
        .apply_update(
            actor(),
            ToolOutputSettingsScope::workspace().for_tool("tool.read".to_string()),
            ToolOutputOverrides {
                format: Some(OutputFormat::Json),
                ..ToolOutputOverrides::default()
            },
            "tool-scoped workspace default".to_string(),
            LedgerTimestamp::from_unix_millis(1_700_000_000_201),
        )
        .unwrap();
    service
        .apply_update(
            actor(),
            repository_scope.clone(),
            ToolOutputOverrides {
                format: Some(OutputFormat::Text),
                ..ToolOutputOverrides::default()
            },
            "repository-level default".to_string(),
            LedgerTimestamp::from_unix_millis(1_700_000_000_202),
        )
        .unwrap();

    let resolved_repository_tool = service.resolve_defaults(&repository_tool_scope);
    assert_eq!(
        resolved_repository_tool.render_options.format,
        OutputFormat::Json
    );

    let resolved_repository = service.resolve_defaults(&repository_scope);
    assert_eq!(
        resolved_repository.render_options.format,
        OutputFormat::Text
    );
}

#[test]
fn service_call_overrides_do_not_mutate_stored_defaults() {
    let repo_id = RepositoryId::new();
    let mut service = InMemoryToolOutputSettingsService::new(
        LedgerTimestamp::from_unix_millis(1_700_000_000_010),
    );
    let repository_tool_scope =
        ToolOutputSettingsScope::repository(repo_id).for_tool("tool.read".to_string());

    service
        .apply_update(
            actor(),
            repository_tool_scope.clone(),
            ToolOutputOverrides {
                format: Some(OutputFormat::Text),
                max_inline_bytes: Some(32 * 1024),
                ..ToolOutputOverrides::default()
            },
            "set baseline repository tool defaults".to_string(),
            LedgerTimestamp::from_unix_millis(1_700_000_000_011),
        )
        .unwrap();

    let resolved = service
        .resolve_defaults_with_overrides(
            &repository_tool_scope,
            &ToolOutputOverrides {
                include_diagnostics: Some(true),
                max_inline_lines: Some(555),
                ..ToolOutputOverrides::default()
            },
        )
        .unwrap();
    let current = service.resolve_defaults(&repository_tool_scope);

    assert!(resolved.render_options.include_diagnostics);
    assert_eq!(resolved.max_inline_lines, 555);
    assert_eq!(resolved.render_options.format, OutputFormat::Text);

    assert_eq!(current.render_options.format, OutputFormat::Text);
    assert_eq!(current.max_inline_bytes, 32 * 1024);
    assert!(!current.render_options.include_diagnostics);
    assert_eq!(current.max_inline_lines, DEFAULT_MAX_INLINE_LINES);
}

#[test]
fn service_child_scoped_override_uses_live_parent_updates() {
    let repo_id = RepositoryId::new();
    let mut service = InMemoryToolOutputSettingsService::new(
        LedgerTimestamp::from_unix_millis(1_700_000_000_020),
    );
    let repository_tool_scope =
        ToolOutputSettingsScope::repository(repo_id).for_tool("tool.read".to_string());

    service
        .apply_update(
            actor(),
            repository_tool_scope.clone(),
            ToolOutputOverrides {
                max_inline_lines: Some(123),
                ..ToolOutputOverrides::default()
            },
            "set tool override first".to_string(),
            LedgerTimestamp::from_unix_millis(1_700_000_000_021),
        )
        .unwrap();

    service
        .apply_update(
            actor(),
            ToolOutputSettingsScope::workspace(),
            ToolOutputOverrides {
                format: Some(OutputFormat::Json),
                max_inline_bytes: Some(32_000),
                ..ToolOutputOverrides::default()
            },
            "update workspace defaults after child exists".to_string(),
            LedgerTimestamp::from_unix_millis(1_700_000_000_022),
        )
        .unwrap();

    let resolved = service.resolve_defaults(&repository_tool_scope);

    assert_eq!(resolved.render_options.format, OutputFormat::Json);
    assert_eq!(resolved.max_inline_lines, 123);
    assert_eq!(resolved.max_inline_bytes, 32_000);
}

#[test]
fn service_legacy_scoped_defaults_use_parent_inheritance_after_migration() {
    let repository_id = RepositoryId::new();
    let workspace_scope = ToolOutputSettingsScope::workspace();
    let repository_scope = ToolOutputSettingsScope::repository(repository_id);
    let repository_tool_scope = repository_scope.clone().for_tool("tool.read".to_string());
    let legacy_setting = |scope: ToolOutputSettingsScope,
                          defaults: ToolOutputDefaults|
     -> ToolOutputSettings {
        ToolOutputSettings::from_payload(
            TOOL_OUTPUT_SETTINGS_SCHEMA_VERSION,
            scope,
            None,
            Some(defaults),
            LedgerTimestamp::from_unix_millis(1_700_000_000_100),
            None,
        )
        .unwrap()
    };

    let workspace_defaults = ToolOutputDefaults {
        render_options: RenderOptions::new(OutputFormat::Json),
        max_inline_bytes: DEFAULT_MAX_INLINE_BYTES,
        max_inline_lines: DEFAULT_MAX_INLINE_LINES,
        verbosity: ToolOutputVerbosity::Normal,
        granularity: ToolOutputGranularity::KeyFields,
        oversize_policy: OversizeOutputPolicy::TruncateWithMetadata,
    };
    let repository_defaults = ToolOutputDefaults {
        render_options: RenderOptions::new(OutputFormat::Json),
        max_inline_bytes: DEFAULT_MAX_INLINE_BYTES,
        max_inline_lines: DEFAULT_MAX_INLINE_LINES,
        verbosity: ToolOutputVerbosity::Normal,
        granularity: ToolOutputGranularity::Full,
        oversize_policy: OversizeOutputPolicy::TruncateWithMetadata,
    };
    let repository_tool_defaults = ToolOutputDefaults {
        render_options: RenderOptions::new(OutputFormat::Json),
        max_inline_bytes: DEFAULT_MAX_INLINE_BYTES,
        max_inline_lines: 123,
        verbosity: ToolOutputVerbosity::Expanded,
        granularity: ToolOutputGranularity::Full,
        oversize_policy: OversizeOutputPolicy::TruncateWithMetadata,
    };
    let loaded_settings = vec![
        legacy_setting(workspace_scope.clone(), workspace_defaults),
        legacy_setting(repository_scope.clone(), repository_defaults),
        legacy_setting(repository_tool_scope.clone(), repository_tool_defaults),
    ];
    let mut service = InMemoryToolOutputSettingsService::new_with_settings(
        LedgerTimestamp::from_unix_millis(1_700_000_000_100),
        loaded_settings,
    )
    .unwrap();

    let before = service.resolve_defaults(&repository_tool_scope);
    assert_eq!(before.render_options.format, OutputFormat::Json);
    assert_eq!(before.max_inline_bytes, DEFAULT_MAX_INLINE_BYTES);
    assert_eq!(before.max_inline_lines, 123);
    assert_eq!(before.verbosity, ToolOutputVerbosity::Expanded);
    assert_eq!(before.granularity, ToolOutputGranularity::Full);

    service
        .apply_update(
            actor(),
            workspace_scope,
            ToolOutputOverrides {
                format: Some(OutputFormat::Text),
                max_inline_bytes: Some(32_000),
                ..ToolOutputOverrides::default()
            },
            "allow more inline bytes at workspace level".to_string(),
            LedgerTimestamp::from_unix_millis(1_700_000_000_101),
        )
        .unwrap();

    let after = service.resolve_defaults(&repository_tool_scope);
    assert_eq!(after.render_options.format, OutputFormat::Text);
    assert_eq!(after.max_inline_bytes, 32_000);
    assert_eq!(after.max_inline_lines, 123);
    assert_eq!(after.verbosity, ToolOutputVerbosity::Expanded);
    assert_eq!(after.granularity, ToolOutputGranularity::Full);

    let repository_entry = service
        .settings()
        .iter()
        .find(|setting| setting.scope == repository_scope)
        .unwrap();
    assert_eq!(
        repository_entry.overrides,
        ToolOutputOverrides {
            granularity: Some(ToolOutputGranularity::Full),
            ..ToolOutputOverrides::default()
        }
    );
}

#[test]
fn service_rejects_invalid_updates_without_recording_audit() {
    let mut service = InMemoryToolOutputSettingsService::new(
        LedgerTimestamp::from_unix_millis(1_700_000_000_020),
    );
    let before = service.resolve_render_options(&ToolOutputSettingsScope::workspace());
    assert!(service.changes().is_empty());

    let err = service
        .apply_update(
            actor(),
            ToolOutputSettingsScope::workspace(),
            ToolOutputOverrides {
                max_inline_lines: Some(0),
                ..ToolOutputOverrides::default()
            },
            "reject invalid".to_string(),
            LedgerTimestamp::from_unix_millis(1_700_000_000_021),
        )
        .unwrap_err();

    assert_eq!(
        err,
        ToolOutputSettingsError::MaxInlineLinesOutOfRange {
            value: 0,
            min: MIN_MAX_INLINE_LINES,
            max: MAX_MAX_INLINE_LINES,
        }
    );
    assert!(service.changes().is_empty());
    assert_eq!(
        service.resolve_render_options(&ToolOutputSettingsScope::workspace()),
        before
    );
}

#[test]
fn service_audit_log_captures_update_history() {
    let repository_id = RepositoryId::new();
    let mut service = InMemoryToolOutputSettingsService::new(
        LedgerTimestamp::from_unix_millis(1_700_000_000_030),
    );
    let repository_scope = ToolOutputSettingsScope::repository(repository_id);

    let first_change = service
        .apply_update(
            actor(),
            ToolOutputSettingsScope::workspace(),
            ToolOutputOverrides {
                format: Some(OutputFormat::Text),
                ..ToolOutputOverrides::default()
            },
            "tooling default adjustment".to_string(),
            LedgerTimestamp::from_unix_millis(1_700_000_000_031),
        )
        .unwrap();

    let second_change = service
        .apply_update(
            actor(),
            repository_scope.clone(),
            ToolOutputOverrides {
                granularity: Some(ToolOutputGranularity::Summary),
                ..ToolOutputOverrides::default()
            },
            "repo-level granularity tweak".to_string(),
            LedgerTimestamp::from_unix_millis(1_700_000_000_032),
        )
        .unwrap();

    let log = service.changes();
    assert_eq!(log.len(), 2);
    assert_eq!(log[0], first_change);
    assert_eq!(log[1], second_change);
    assert_eq!(log[0].scope, ToolOutputSettingsScope::workspace());
    assert_eq!(log[1].scope, repository_scope);
    assert_eq!(
        log[0].new_defaults.render_options.format,
        OutputFormat::Text
    );
    assert_eq!(
        log[1].new_defaults.granularity,
        ToolOutputGranularity::Summary
    );
    assert_eq!(log[0].reason, "tooling default adjustment");
    assert_eq!(log[1].reason, "repo-level granularity tweak");
}

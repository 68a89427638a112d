//! The built-in policy, capability by capability.
use atelia_core::domain::{
    Actor, PolicyDecision, PolicyOutcome, RepositoryTrustState, ResourceScope, RiskTier,
};
use atelia_core::ids::RepositoryId;
use atelia_core::policy::{
    DefaultPolicyEngine, PolicyEngine, PolicyInput, DEFAULT_POLICY_VERSION,
};

fn input(capability: &str) -> PolicyInput {
    PolicyInput {
        requester: Actor::Agent {
            id: "agent:test".to_string(),
            display_name: Some("Test Agent".to_string()),
        },
        repository_id: RepositoryId::new(),
        requested_capability: capability.to_string(),
        resource_scope: ResourceScope {
            kind: "path".to_string(),
            value: "src/lib.rs".to_string(),
        },
        tool_id: Some("tool:test".to_string()),
        provider_id: None,
        declared_effect: "test effect".to_string(),
        current_trust_state: RepositoryTrustState::Trusted,
        approval_available: true,
        policy_version: DEFAULT_POLICY_VERSION.to_string(),
        registered_scope: true,
        broad_or_unbounded: false,
    }
}

fn decide(input: PolicyInput) -> PolicyDecision {
    DefaultPolicyEngine::new().evaluate(input)
}

#[test]
fn r1_bounded_filesystem_read_is_allowed() {
    for capability in ["filesystem.read", "filesystem.diff", "fs.diff"] {
        let decision = decide(input(capability));

        assert_eq!(PolicyOutcome::Allowed, decision.outcome, "{capability}");
        assert_eq!(RiskTier::R1, decision.risk_tier, "{capability}");
        assert_eq!("bounded_read_allowed", decision.reason_code, "{capability}");
    }
}

#[test]
fn r0_informational_status_is_allowed() {
    let decision = decide(input("capability.discovery"));

    assert_eq!(PolicyOutcome::Allowed, decision.outcome);
    assert_eq!(RiskTier::R0, decision.risk_tier);
    assert_eq!("informational_allowed", decision.reason_code);
}

#[test]
fn r1_read_only_filesystem_read_is_audited() {
    let mut input = input("filesystem.search");
    input.current_trust_state = RepositoryTrustState::ReadOnly;

    let decision = decide(input);

    assert_eq!(PolicyOutcome::Audited, decision.outcome);
    assert_eq!(RiskTier::R1, decision.risk_tier);
    assert_eq!("bounded_read_audited_read_only", decision.reason_code);
}

#[test]
fn r2_filesystem_write_is_audited() {
    for capability in [
        "filesystem.write",
        "filesystem.patch",
        "filesystem.delete",
        "filesystem.move",
        "fs.write",
        "fs.delete",
        "fs.move",
    ] {
        let decision = decide(input(capability));

        assert_eq!(PolicyOutcome::Audited, decision.outcome, "{capability}");
        assert_eq!(RiskTier::R2, decision.risk_tier, "{capability}");
        assert_eq!(
            "bounded_write_audited", decision.reason_code,
            "{capability}"
        );
    }
}

#[test]
fn r3_broad_filesystem_write_needs_approval() {
    let decision = decide(input("filesystem.write").broad_or_unbounded());

    assert_eq!(PolicyOutcome::NeedsApproval, decision.outcome);
    assert_eq!(RiskTier::R3, decision.risk_tier);
    assert_eq!(
        "filesystem_write_broad_or_unbounded_needs_approval",
        decision.reason_code
    );
}

#[test]
fn r2_bounded_process_execution_is_audited() {
    let decision = decide(input("process.exec"));

    assert_eq!(PolicyOutcome::Audited, decision.outcome);
    assert_eq!(RiskTier::R2, decision.risk_tier);
    assert_eq!("bounded_process_audited", decision.reason_code);
}

#[test]
fn r3_broad_process_execution_needs_approval() {
    let decision = decide(input("process.exec").broad_or_unbounded());

    assert_eq!(PolicyOutcome::NeedsApproval, decision.outcome);
    assert_eq!(RiskTier::R3, decision.risk_tier);
    assert_eq!(
        "process_broad_or_unbounded_needs_approval",
        decision.reason_code
    );
}

#[test]
fn r3_broad_repository_mutation_needs_approval() {
    let decision = decide(input("repository.mutate.broad"));

    assert_eq!(PolicyOutcome::NeedsApproval, decision.outcome);
    assert_eq!(RiskTier::R3, decision.risk_tier);
    assert_eq!(
        "broad_repository_mutation_needs_approval",
        decision.reason_code
    );
}

#[test]
fn r3_approval_unavailable_still_needs_approval() {
    let mut input = input("external.network");
    input.approval_available = false;

    let decision = decide(input);

    assert_eq!(PolicyOutcome::NeedsApproval, decision.outcome);
    assert_eq!(RiskTier::R3, decision.risk_tier);
    assert!(!decision.approval_available);
    assert_eq!(
        "external_network_or_service_needs_approval",
        decision.reason_code
    );
}

#[test]
fn r3_secret_access_needs_approval() {
    let decision = decide(input("secret.access"));

    assert_eq!(PolicyOutcome::NeedsApproval, decision.outcome);
    assert_eq!(RiskTier::R3, decision.risk_tier);
    assert_eq!("secret_access_needs_approval", decision.reason_code);
}

#[test]
fn r3_read_only_repository_external_network_still_needs_approval() {
    let mut input = input("external.network");
    input.current_trust_state = RepositoryTrustState::ReadOnly;

    let decision = decide(input);

    assert_eq!(PolicyOutcome::NeedsApproval, decision.outcome);
    assert_eq!(RiskTier::R3, decision.risk_tier);
    assert_eq!(
        "external_network_or_service_needs_approval",
        decision.reason_code
    );
}

#[test]
fn r3_read_only_repository_secret_access_still_needs_approval() {
    let mut input = input("secret.access");
    input.current_trust_state = RepositoryTrustState::ReadOnly;

    let decision = decide(input);

    assert_eq!(PolicyOutcome::NeedsApproval, decision.outcome);
    assert_eq!(RiskTier::R3, decision.risk_tier);
    assert_eq!("secret_access_needs_approval", decision.reason_code);
}

#[test]
fn r4_destructive_repository_action_is_blocked() {
    let decision = decide(input("repository.reset.hard"));

    assert_eq!(PolicyOutcome::Blocked, decision.outcome);
    assert_eq!(RiskTier::R4, decision.risk_tier);
    assert_eq!(
        "destructive_repository_action_blocked",
        decision.reason_code
    );
}

#[test]
fn r4_unsupported_capability_is_blocked() {
    let decision = decide(input("calendar.invite"));

    assert_eq!(PolicyOutcome::Blocked, decision.outcome);
    assert_eq!(RiskTier::R4, decision.risk_tier);
    assert_eq!("unsupported_capability_blocked", decision.reason_code);
}

#[test]
fn r4_outside_registered_scope_is_blocked() {
    let decision = decide(input("filesystem.read").outside_registered_scope());

    assert_eq!(PolicyOutcome::Blocked, decision.outcome);
    assert_eq!(RiskTier::R4, decision.risk_tier);
    assert_eq!("outside_registered_scope", decision.reason_code);
}

#[test]
fn r4_blocked_repository_blocks_reads() {
    let mut input = input("filesystem.read");
    input.current_trust_state = RepositoryTrustState::Blocked;

    let decision = decide(input);

    assert_eq!(PolicyOutcome::Blocked, decision.outcome);
    assert_eq!(RiskTier::R4, decision.risk_tier);
    assert_eq!("repository_blocked", decision.reason_code);
}

#[test]
fn r4_blocked_repository_blocks_informational() {
    let mut input = input("capability.discovery");
    input.current_trust_state = RepositoryTrustState::Blocked;

    let decision = decide(input);

    assert_eq!(PolicyOutcome::Blocked, decision.outcome);
    assert_eq!(RiskTier::R4, decision.risk_tier);
    assert_eq!("repository_blocked", decision.reason_code);
}

#[test]
fn r4_read_only_repository_blocks_mutation() {
    let mut input = input("filesystem.write");
    input.current_trust_state = RepositoryTrustState::ReadOnly;

    let decision = decide(input);

    assert_eq!(PolicyOutcome::Blocked, decision.outcome);
    assert_eq!(RiskTier::R4, decision.risk_tier);
    assert_eq!("repository_read_only", decision.reason_code);
}

#[test]
fn r4_read_only_repository_blocks_process_execution() {
    let mut input = input("process.exec");
    input.current_trust_state = RepositoryTrustState::ReadOnly;

    let decision = decide(input);

    assert_eq!(PolicyOutcome::Blocked, decision.outcome);
    assert_eq!(RiskTier::R4, decision.risk_tier);
    assert_eq!("repository_read_only", decision.reason_code);
}

#[test]
fn capability_names_are_normalized() {
    let cases = [
        (" FILESYSTEM_READ ", "bounded_read_allowed"),
        ("filesystem-read", "bounded_read_allowed"),
        ("filesystem/read", "bounded_read_allowed"),
        ("filesystem-delete", "bounded_write_audited"),
        ("fs/move", "bounded_write_audited"),
        (
            "repository:reset:hard",
            "destructive_repository_action_blocked",
        ),
        ("SECRET-READ", "secret_access_needs_approval"),
    ];

    for (capability, reason_code) in cases {
        let decision = decide(input(capability));
        assert_eq!(reason_code, decision.reason_code, "{capability}");
    }
}

#[test]
fn empty_capability_is_blocked() {
    let decision = decide(input("   "));

    assert_eq!(PolicyOutcome::Blocked, decision.outcome);
    assert_eq!(RiskTier::R4, decision.risk_tier);
    assert_eq!("unsupported_capability_blocked", decision.reason_code);
}

//! Conservative synchronous policy evaluation for Secretary actions.
use vstd::prelude::*;

use crate::domain::{
    Actor, ActorModel, LedgerTimestamp, PolicyDecision, PolicyDecisionModel, PolicyOutcome,
    RedactionMarker, RepositoryTrustState, ResourceScope, ResourceScopeModel, RiskTier,
};
use crate::ids::{PolicyDecisionId, RepositoryId};
use crate::record::Record;
use crate::text::{ascii_lower, chars_of, same_text, trim};

verus! {

pub const POLICY_SCHEMA_VERSION: u32 = 1;

pub const DEFAULT_POLICY_VERSION: &'static str = "policy-stub-v1";

/// What an action asks for, and what is known of the repository it would touch.
#[derive(Debug, PartialEq, Eq)]
pub struct PolicyInput {
    pub requester: Actor,
    pub repository_id: RepositoryId,
    pub requested_capability: String,
    pub resource_scope: ResourceScope,
    pub tool_id: Option<String>,
    pub provider_id: Option<String>,
    pub declared_effect: String,
    pub current_trust_state: RepositoryTrustState,
    pub approval_available: bool,
    pub policy_version: String,
    pub registered_scope: bool,
    pub broad_or_unbounded: bool,
}

/// What a [`PolicyInput`] holds.
pub struct PolicyInputModel {
    pub requester: ActorModel,
    pub repository_id: Seq<char>,
    pub requested_capability: Seq<char>,
    pub resource_scope: ResourceScopeModel,
    pub tool_id: Option<Seq<char>>,
    pub provider_id: Option<Seq<char>>,
    pub declared_effect: Seq<char>,
    pub current_trust_state: RepositoryTrustState,
    pub approval_available: bool,
    pub policy_version: Seq<char>,
    pub registered_scope: bool,
    pub broad_or_unbounded: bool,
}

impl DeepView for PolicyInput {
    type V = PolicyInputModel;

    open spec fn deep_view(&self) -> PolicyInputModel {
        PolicyInputModel {
            requester: self.requester.deep_view(),
            repository_id: self.repository_id.deep_view(),
            requested_capability: self.requested_capability.deep_view(),
            resource_scope: self.resource_scope.deep_view(),
            tool_id: self.tool_id.deep_view(),
            provider_id: self.provider_id.deep_view(),
            declared_effect: self.declared_effect.deep_view(),
            current_trust_state: self.current_trust_state.deep_view(),
            approval_available: self.approval_available.deep_view(),
            policy_version: self.policy_version.deep_view(),
            registered_scope: self.registered_scope.deep_view(),
            broad_or_unbounded: self.broad_or_unbounded.deep_view(),
        }
    }
}

impl View for PolicyInput {
    type V = PolicyInputModel;

    #[verifier::inline]
    open spec fn view(&self) -> PolicyInputModel {
        self.deep_view()
    }
}

impl Record for PolicyInput {
    fn duplicate(&self) -> (r: Self) {
        PolicyInput {
            requester: self.requester.duplicate(),
            repository_id: self.repository_id.duplicate(),
            requested_capability: self.requested_capability.duplicate(),
            resource_scope: self.resource_scope.duplicate(),
            tool_id: self.tool_id.duplicate(),
            provider_id: self.provider_id.duplicate(),
            declared_effect: self.declared_effect.duplicate(),
            current_trust_state: self.current_trust_state.duplicate(),
            approval_available: self.approval_available.duplicate(),
            policy_version: self.policy_version.duplicate(),
            registered_scope: self.registered_scope.duplicate(),
            broad_or_unbounded: self.broad_or_unbounded.duplicate(),
        }
    }

    fn same(&self, other: &Self) -> (r: bool) {
        self.requester.same(&other.requester)
            && self.repository_id.same(&other.repository_id)
            && self.requested_capability.same(&other.requested_capability)
            && self.resource_scope.same(&other.resource_scope)
            && self.tool_id.same(&other.tool_id)
            && self.provider_id.same(&other.provider_id)
            && self.declared_effect.same(&other.declared_effect)
            && self.current_trust_state.same(&other.current_trust_state)
            && self.approval_available.same(&other.approval_available)
            && self.policy_version.same(&other.policy_version)
            && self.registered_scope.same(&other.registered_scope)
            && self.broad_or_unbounded.same(&other.broad_or_unbounded)
    }
}

impl Clone for PolicyInput {
    fn clone(&self) -> (r: Self)
        ensures
            r.deep_view() == self.deep_view(),
    {
        self.duplicate()
    }
}

impl PolicyInput {
    pub fn new(
        requester: Actor,
        repository_id: RepositoryId,
        requested_capability: String,
        resource_scope: ResourceScope,
        declared_effect: String,
        current_trust_state: RepositoryTrustState,
        approval_available: bool,
        policy_version: String,
    ) -> (r: Self)
        ensures
            r@ == (PolicyInputModel {
                requester: requester@,
                repository_id: repository_id@,
                requested_capability: requested_capability@,
                resource_scope: resource_scope@,
                tool_id: None,
                provider_id: None,
                declared_effect: declared_effect@,
                current_trust_state,
                approval_available,
                policy_version: policy_version@,
                registered_scope: true,
                broad_or_unbounded: false,
            }),
    {
        PolicyInput {
            requester,
            repository_id,
            requested_capability,
            resource_scope,
            tool_id: None,
            provider_id: None,
            declared_effect,
            current_trust_state,
            approval_available,
            policy_version,
            registered_scope: true,
            broad_or_unbounded: false,
        }
    }

    pub fn with_tool_id(self, tool_id: String) -> (r: Self)
        ensures
            r@ == (PolicyInputModel { tool_id: Some(tool_id@), ..self@ }),
    {
        let mut input = self;
        input.tool_id = Some(tool_id);
        input
    }

    pub fn with_provider_id(self, provider_id: String) -> (r: Self)
        ensures
            r@ == (PolicyInputModel { provider_id: Some(provider_id@), ..self@ }),
    {
        let mut input = self;
        input.provider_id = Some(provider_id);
        input
    }

    pub fn outside_registered_scope(self) -> (r: Self)
        ensures
            r@ == (PolicyInputModel { registered_scope: false, ..self@ }),
    {
        let mut input = self;
        input.registered_scope = false;
        input
    }

    pub fn broad_or_unbounded(self) -> (r: Self)
        ensures
            r@ == (PolicyInputModel { broad_or_unbounded: true, ..self@ }),
    {
        let mut input = self;
        input.broad_or_unbounded = true;
        input
    }
}

impl Default for PolicyInput {
    fn default() -> (r: Self)
        ensures
            crate::ids::is_id_text("repo_"@, r@.repository_id),
            r@ == (PolicyInputModel {
                requester: ActorModel::System { id: "policy-stub"@ },
                repository_id: r@.repository_id,
                requested_capability: "filesystem.read"@,
                resource_scope: ResourceScopeModel { kind: "path"@, value: "."@ },
                tool_id: None,
                provider_id: None,
                declared_effect: "read workspace data"@,
                current_trust_state: RepositoryTrustState::Trusted,
                approval_available: true,
                policy_version: DEFAULT_POLICY_VERSION@,
                registered_scope: true,
                broad_or_unbounded: false,
            }),
    {
        PolicyInput {
            requester: Actor::System { id: "policy-stub".to_owned() },
            repository_id: RepositoryId::new(),
            requested_capability: "filesystem.read".to_owned(),
            resource_scope: ResourceScope { kind: "path".to_owned(), value: ".".to_owned() },
            tool_id: None,
            provider_id: None,
            declared_effect: "read workspace data".to_owned(),
            current_trust_state: RepositoryTrustState::Trusted,
            approval_available: true,
            policy_version: DEFAULT_POLICY_VERSION.to_owned(),
            registered_scope: true,
            broad_or_unbounded: false,
        }
    }
}

/// Whoever decides whether an action may run. What a decision says is left to the engine.
pub trait PolicyEngine {
    fn evaluate(&self, input: PolicyInput) -> PolicyDecision;
}

/// What a capability name asks for.
#[derive(Debug, Clone, Copy, PartialEq, Eq, Structural)]
pub enum Capability {
    Informational,
    FilesystemRead,
    FilesystemWrite,
    ProcessExec,
    BroadRepositoryMutation,
    DestructiveRepositoryAction,
    ExternalNetworkOrService,
    SecretAccess,
    Unsupported,
}

impl DeepView for Capability {
    type V = Capability;

    open spec fn deep_view(&self) -> Capability {
        *self
    }
}

impl Record for Capability {
    fn duplicate(&self) -> (r: Self) {
        *self
    }

    fn same(&self, other: &Self) -> (r: bool) {
        *self == *other
    }
}

/// One character of a capability name: letters are small, and `_`, `-`, `:` and `/`
/// separate as `.` does.
pub open spec fn folded(c: char) -> char {
    if c == '_' || c == '-' || c == ':' || c == '/' {
        '.'
    } else {
        crate::text::lower(c)
    }
}

/// A capability name without outer white space, its characters folded.
pub open spec fn normalized(name: Seq<char>) -> Seq<char> {
    crate::text::trimmed(name).map_values(|c: char| folded(c))
}

fn normalize(name: &str) -> (r: String)
    ensures
        r@ == normalized(name@),
{
    let chars = chars_of(trim(name));
    let mut out = String::new();
    let mut i: usize = 0;
    while i < chars.len()
        invariant
            i <= chars.len(),
            chars@ == crate::text::trimmed(name@),
            out@ == chars@.take(i as int).map_values(|c: char| folded(c)),
        decreases chars.len() - i,
    {
        let c = chars[i];
        if c == '_' || c == '-' || c == ':' || c == '/' {
            out.push('.');
        } else {
            out.push(ascii_lower(c));
        }
        i += 1;
        assert(out@ =~= chars@.take(i as int).map_values(|c: char| folded(c)));
    }
    assert(chars@.take(i as int) =~= chars@);
    out
}

impl Capability {
    /// The capability behind a normalized name.
    pub open spec fn of_normalized(name: Seq<char>) -> Capability {
        if name == "informational"@ || name == "status"@ || name == "health"@ || name
            == "capability.discovery"@ || name == "capabilities.list"@ || name == "policy.preview"@
            || name == "policy.check"@ {
            Capability::Informational
        } else if name == "filesystem.read"@ || name == "filesystem.list"@ || name
            == "filesystem.search"@ || name == "filesystem.stat"@ || name == "filesystem.diff"@
            || name == "fs.read"@ || name == "fs.list"@ || name == "fs.search"@ || name
            == "fs.stat"@ || name == "fs.diff"@ {
            Capability::FilesystemRead
        } else if name == "filesystem.write"@ || name == "filesystem.patch"@ || name
            == "filesystem.delete"@ || name == "filesystem.move"@ || name == "fs.write"@ || name
            == "fs.patch"@ || name == "fs.delete"@ || name == "fs.move"@ {
            Capability::FilesystemWrite
        } else if name == "process.exec"@ || name == "process.execute"@ || name == "process.run"@
            || name == "proc.exec"@ || name == "proc.run"@ {
            Capability::ProcessExec
        } else if name == "repository.mutate.broad"@ || name == "repo.mutate.broad"@ || name
            == "repository.broad.mutation"@ || name == "repo.broad.mutation"@ {
            Capability::BroadRepositoryMutation
        } else if name == "repository.destructive"@ || name == "repo.destructive"@ || name
            == "repository.delete"@ || name == "repo.delete"@ || name == "repository.reset.hard"@
            || name == "repo.reset.hard"@ {
            Capability::DestructiveRepositoryAction
        } else if name == "network.external"@ || name == "external.network"@ || name
            == "service.external"@ || name == "external.service"@ || name == "network.call"@ || name
            == "service.call"@ {
            Capability::ExternalNetworkOrService
        } else if name == "secret.access"@ || name == "secrets.access"@ || name == "secret.read"@
            || name == "secrets.read"@ {
            Capability::SecretAccess
        } else {
            Capability::Unsupported
        }
    }

    /// The capability behind a name as it was written.
    pub open spec fn of_name(name: Seq<char>) -> Capability {
        Capability::of_normalized(normalized(name))
    }

    pub open spec fn mutates_repository(self) -> bool {
        ||| self is FilesystemWrite
        ||| self is ProcessExec
        ||| self is BroadRepositoryMutation
        ||| self is DestructiveRepositoryAction
    }

    pub fn from_name(name: &str) -> (r: Capability)
        ensures
            r == Capability::of_name(name@),
    {
        let text = normalize(name);
        let n = text.as_str();
        if same_text(n, "informational") || same_text(n, "status") || same_text(n, "health")
            || same_text(n, "capability.discovery") || same_text(n, "capabilities.list")
            || same_text(n, "policy.preview") || same_text(n, "policy.check") {
            Capability::Informational
        } else if same_text(n, "filesystem.read") || same_text(n, "filesystem.list") || same_text(
            n,
            "filesystem.search",
        ) || same_text(n, "filesystem.stat") || same_text(n, "filesystem.diff") || same_text(
            n,
            "fs.read",
        ) || same_text(n, "fs.list") || same_text(n, "fs.search") || same_text(n, "fs.stat")
            || same_text(n, "fs.diff") {
            Capability::FilesystemRead
        } else if same_text(n, "filesystem.write") || same_text(n, "filesystem.patch") || same_text(
            n,
            "filesystem.delete",
        ) || same_text(n, "filesystem.move") || same_text(n, "fs.write") || same_text(n, "fs.patch")
            || same_text(n, "fs.delete") || same_text(n, "fs.move") {
            Capability::FilesystemWrite
        } else if same_text(n, "process.exec") || same_text(n, "process.execute") || same_text(
            n,
            "process.run",
        ) || same_text(n, "proc.exec") || same_text(n, "proc.run") {
            Capability::ProcessExec
        } else if same_text(n, "repository.mutate.broad") || same_text(n, "repo.mutate.broad")
            || same_text(n, "repository.broad.mutation") || same_text(n, "repo.broad.mutation") {
            Capability::BroadRepositoryMutation
        } else if same_text(n, "repository.destructive") || same_text(n, "repo.destructive")
            || same_text(n, "repository.delete") || same_text(n, "repo.delete") || same_text(
            n,
            "repository.reset.hard",
        ) || same_text(n, "repo.reset.hard") {
            Capability::DestructiveRepositoryAction
        } else if same_text(n, "network.external") || same_text(n, "external.network")
            || same_text(n, "service.external") || same_text(n, "external.service") || same_text(
            n,
            "network.call",
        ) || same_text(n, "service.call") {
            Capability::ExternalNetworkOrService
        } else if same_text(n, "secret.access") || same_text(n, "secrets.access") || same_text(
            n,
            "secret.read",
        ) || same_text(n, "secrets.read") {
            Capability::SecretAccess
        } else {
            Capability::Unsupported
        }
    }

    pub fn is_repository_mutating(self) -> (r: bool)
        ensures
            r == self.mutates_repository(),
    {
        matches!(
            self,
            Capability::FilesystemWrite | Capability::ProcessExec
                | Capability::BroadRepositoryMutation | Capability::DestructiveRepositoryAction
        )
    }
}

/// What the rules say of an action: whether it may run, how risky it is, and why.
#[derive(Debug, PartialEq, Eq)]
pub struct RuleDecision {
    pub outcome: PolicyOutcome,
    pub risk_tier: RiskTier,
    pub reason_code: &'static str,
    pub user_reason: &'static str,
}

/// What a [`RuleDecision`] holds.
pub struct RuleDecisionModel {
    pub outcome: PolicyOutcome,
    pub risk_tier: RiskTier,
    pub reason_code: Seq<char>,
    pub user_reason: Seq<char>,
}

impl DeepView for RuleDecision {
    type V = RuleDecisionModel;

    open spec fn deep_view(&self) -> RuleDecisionModel {
        RuleDecisionModel {
            outcome: self.outcome.deep_view(),
            risk_tier: self.risk_tier.deep_view(),
            reason_code: self.reason_code.deep_view(),
            user_reason: self.user_reason.deep_view(),
        }
    }
}

impl View for RuleDecision {
    type V = RuleDecisionModel;

    #[verifier::inline]
    open spec fn view(&self) -> RuleDecisionModel {
        self.deep_view()
    }
}

impl Record for RuleDecision {
    fn duplicate(&self) -> (r: Self) {
        RuleDecision {
            outcome: self.outcome.duplicate(),
            risk_tier: self.risk_tier.duplicate(),
            reason_code: self.reason_code.duplicate(),
            user_reason: self.user_reason.duplicate(),
        }
    }

    fn same(&self, other: &Self) -> (r: bool) {
        self.outcome.same(&other.outcome)
            && self.risk_tier.same(&other.risk_tier)
            && self.reason_code.same(&other.reason_code)
            && self.user_reason.same(&other.user_reason)
    }
}

impl Clone for RuleDecision {
    fn clone(&self) -> (r: Self)
        ensures
            r.deep_view() == self.deep_view(),
    {
        self.duplicate()
    }
}

impl RuleDecision {
    pub open spec fn of(
        outcome: PolicyOutcome,
        risk_tier: RiskTier,
        reason_code: Seq<char>,
        user_reason: Seq<char>,
    ) -> RuleDecisionModel {
        RuleDecisionModel { outcome, risk_tier, reason_code, user_reason }
    }

    fn allowed(risk_tier: RiskTier, reason_code: &'static str, user_reason: &'static str) -> (r: Self)
        ensures
            r@ == RuleDecision::of(PolicyOutcome::Allowed, risk_tier, reason_code@, user_reason@),
    {
        RuleDecision { outcome: PolicyOutcome::Allowed, risk_tier, reason_code, user_reason }
    }

    fn audited(risk_tier: RiskTier, reason_code: &'static str, user_reason: &'static str) -> (r: Self)
        ensures
            r@ == RuleDecision::of(PolicyOutcome::Audited, risk_tier, reason_code@, user_reason@),
    {
        RuleDecision { outcome: PolicyOutcome::Audited, risk_tier, reason_code, user_reason }
    }

    fn needs_approval(
        risk_tier: RiskTier,
        reason_code: &'static str,
        user_reason: &'static str,
    ) -> (r: Self)
        ensures
            r@ == RuleDecision::of(
                PolicyOutcome::NeedsApproval,
                risk_tier,
                reason_code@,
                user_reason@,
            ),
    {
        RuleDecision { outcome: PolicyOutcome::NeedsApproval, risk_tier, reason_code, user_reason }
    }

    fn blocked(risk_tier: RiskTier, reason_code: &'static str, user_reason: &'static str) -> (r: Self)
        ensures
            r@ == RuleDecision::of(PolicyOutcome::Blocked, risk_tier, reason_code@, user_reason@),
    {
        RuleDecision { outcome: PolicyOutcome::Blocked, risk_tier, reason_code, user_reason }
    }
}

impl PolicyInputModel {
    pub open spec fn capability(self) -> Capability {
        Capability::of_name(self.requested_capability)
    }

    /// What the rules say of the action, by the state of the repository first and by what
    /// the action asks for second.
    pub open spec fn rule(self) -> RuleDecisionModel {
        let trust = self.current_trust_state;
        if trust is Blocked {
            RuleDecision::of(
                PolicyOutcome::Blocked,
                RiskTier::R4,
                "repository_blocked"@,
                "The repository is blocked by policy, so the requested action cannot run."@,
            )
        } else if !self.registered_scope {
            RuleDecision::of(
                PolicyOutcome::Blocked,
                RiskTier::R4,
                "outside_registered_scope"@,
                "The requested resource is outside the registered repository scope."@,
            )
        } else if self.capability().mutates_repository() && trust is ReadOnly {
            RuleDecision::of(
                PolicyOutcome::Blocked,
                RiskTier::R4,
                "repository_read_only"@,
                "The repository is read-only, so repository-mutating actions cannot run."@,
            )
        } else {
            match self.capability() {
                Capability::Informational => RuleDecision::of(
                    PolicyOutcome::Allowed,
                    RiskTier::R0,
                    "informational_allowed"@,
                    "Informational status or capability discovery is allowed."@,
                ),
                Capability::FilesystemRead => if trust is ReadOnly {
                    RuleDecision::of(
                        PolicyOutcome::Audited,
                        RiskTier::R1,
                        "bounded_read_audited_read_only"@,
                        "Bounded filesystem read is allowed in a read-only repository with audit evidence."@,
                    )
                } else {
                    RuleDecision::of(
                        PolicyOutcome::Allowed,
                        RiskTier::R1,
                        "bounded_read_allowed"@,
                        "Bounded filesystem read is allowed inside the registered repository scope."@,
                    )
                },
                Capability::FilesystemWrite => if self.broad_or_unbounded {
                    RuleDecision::of(
                        PolicyOutcome::NeedsApproval,
                        RiskTier::R3,
                        "filesystem_write_broad_or_unbounded_needs_approval"@,
                        "Broad or unbounded filesystem write needs approval before it can run."@,
                    )
                } else {
                    RuleDecision::of(
                        PolicyOutcome::Audited,
                        RiskTier::R2,
                        "bounded_write_audited"@,
                        "Filesystem modifications inside the registered repository scope require audit evidence."@,
                    )
                },
                Capability::ProcessExec => if self.broad_or_unbounded {
                    RuleDecision::of(
                        PolicyOutcome::NeedsApproval,
                        RiskTier::R3,
                        "process_broad_or_unbounded_needs_approval"@,
                        "Process execution is broad or unbounded and needs approval before it can run."@,
                    )
                } else {
                    RuleDecision::of(
                        PolicyOutcome::Audited,
                        RiskTier::R2,
                        "bounded_process_audited"@,
                        "Process execution with explicit argv, cwd, timeout, and env allowlist requires audit evidence."@,
                    )
                },
                Capability::BroadRepositoryMutation => RuleDecision::of(
                    PolicyOutcome::NeedsApproval,
                    RiskTier::R3,
                    "broad_repository_mutation_needs_approval"@,
                    "Broad repository mutation needs approval before it can run."@,
                ),
                Capability::DestructiveRepositoryAction => RuleDecision::of(
                    PolicyOutcome::Blocked,
                    RiskTier::R4,
                    "destructive_repository_action_blocked"@,
                    "Destructive repository actions are blocked until explicit policy support exists."@,
                ),
                Capability::ExternalNetworkOrService => RuleDecision::of(
                    PolicyOutcome::NeedsApproval,
                    RiskTier::R3,
                    "external_network_or_service_needs_approval"@,
                    "External network or service access needs approval before it can run."@,
                ),
                Capability::SecretAccess => RuleDecision::of(
                    PolicyOutcome::NeedsApproval,
                    RiskTier::R3,
                    "secret_access_needs_approval"@,
                    "Secret access needs approval before it can run."@,
                ),
                Capability::Unsupported => RuleDecision::of(
                    PolicyOutcome::Blocked,
                    RiskTier::R4,
                    "unsupported_capability_blocked"@,
                    "The requested capability is not supported by the policy stub."@,
                ),
            }
        }
    }

    /// The decision that records what the rules say, under the given identifier and time.
    pub open spec fn decision(self, id: Seq<char>, created_at: LedgerTimestamp) -> PolicyDecisionModel {
        PolicyDecisionModel {
            id,
            schema_version: POLICY_SCHEMA_VERSION,
            created_at,
            requester: self.requester,
            repository_id: self.repository_id,
            requested_capability: self.requested_capability,
            resource_scope: self.resource_scope,
            tool_id: self.tool_id,
            provider_id: self.provider_id,
            declared_effect: self.declared_effect,
            current_trust_state: self.current_trust_state,
            approval_available: self.approval_available,
            policy_version: self.policy_version,
            outcome: self.rule().outcome,
            risk_tier: self.rule().risk_tier,
            reason_code: self.rule().reason_code,
            user_reason: self.rule().user_reason,
            approval_request_ref: None,
            audit_ref: None,
            redactions: Seq::empty(),
        }
    }
}

/// The engine that decides by the built-in rules.
#[derive(Debug, Clone, Copy)]
pub struct DefaultPolicyEngine;

impl Default for DefaultPolicyEngine {
    fn default() -> (r: Self)
        ensures
            r == DefaultPolicyEngine,
    {
        DefaultPolicyEngine
    }
}

impl DefaultPolicyEngine {
    pub fn new() -> (r: Self)
        ensures
            r == DefaultPolicyEngine,
    {
        DefaultPolicyEngine
    }

    pub fn evaluate_rule(&self, input: &PolicyInput) -> (r: RuleDecision)
        ensures
            r@ == input@.rule(),
    {
        let capability = Capability::from_name(input.requested_capability.as_str());
        if input.current_trust_state == RepositoryTrustState::Blocked {
            return RuleDecision::blocked(
                RiskTier::R4,
                "repository_blocked",
                "The repository is blocked by policy, so the requested action cannot run.",
            );
        }
        if !input.registered_scope {
            return RuleDecision::blocked(
                RiskTier::R4,
                "outside_registered_scope",
                "The requested resource is outside the registered repository scope.",
            );
        }
        if capability.is_repository_mutating() && input.current_trust_state
            == RepositoryTrustState::ReadOnly {
            return RuleDecision::blocked(
                RiskTier::R4,
                "repository_read_only",
                "The repository is read-only, so repository-mutating actions cannot run.",
            );
        }
        match capability {
            Capability::Informational => RuleDecision::allowed(
                RiskTier::R0,
                "informational_allowed",
                "Informational status or capability discovery is allowed.",
            ),
            Capability::FilesystemRead => if input.current_trust_state
                == RepositoryTrustState::ReadOnly {
                RuleDecision::audited(
                    RiskTier::R1,
                    "bounded_read_audited_read_only",
                    "Bounded filesystem read is allowed in a read-only repository with audit evidence.",
                )
            } else {
                RuleDecision::allowed(
                    RiskTier::R1,
                    "bounded_read_allowed",
                    "Bounded filesystem read is allowed inside the registered repository scope.",
                )
            },
            Capability::FilesystemWrite => if input.broad_or_unbounded {
                RuleDecision::needs_approval(
                    RiskTier::R3,
                    "filesystem_write_broad_or_unbounded_needs_approval",
                    "Broad or unbounded filesystem write needs approval before it can run.",
                )
            } else {
                RuleDecision::audited(
                    RiskTier::R2,
                    "bounded_write_audited",
                    "Filesystem modifications inside the registered repository scope require audit evidence.",
                )
            },
            Capability::ProcessExec => if input.broad_or_unbounded {
                RuleDecision::needs_approval(
                    RiskTier::R3,
                    "process_broad_or_unbounded_needs_approval",
                    "Process execution is broad or unbounded and needs approval before it can run.",
                )
            } else {
                RuleDecision::audited(
                    RiskTier::R2,
                    "bounded_process_audited",
                    "Process execution with explicit argv, cwd, timeout, and env allowlist requires audit evidence.",
                )
            },
            Capability::BroadRepositoryMutation => RuleDecision::needs_approval(
                RiskTier::R3,
                "broad_repository_mutation_needs_approval",
                "Broad repository mutation needs approval before it can run.",
            ),
            Capability::DestructiveRepositoryAction => RuleDecision::blocked(
                RiskTier::R4,
                "destructive_repository_action_blocked",
                "Destructive repository actions are blocked until explicit policy support exists.",
            ),
            Capability::ExternalNetworkOrService => RuleDecision::needs_approval(
                RiskTier::R3,
                "external_network_or_service_needs_approval",
                "External network or service access needs approval before it can run.",
            ),
            Capability::SecretAccess => RuleDecision::needs_approval(
                RiskTier::R3,
                "secret_access_needs_approval",
                "Secret access needs approval before it can run.",
            ),
            Capability::Unsupported => RuleDecision::blocked(
                RiskTier::R4,
                "unsupported_capability_blocked",
                "The requested capability is not supported by the policy stub.",
            ),
        }
    }
}

impl PolicyEngine for DefaultPolicyEngine {
    fn evaluate(&self, input: PolicyInput) -> (r: PolicyDecision)
        ensures
            crate::ids::is_id_text("pol_"@, r@.id),
            r.created_at.unix_millis >= 0,
            r@ == input@.decision(r@.id, r.created_at),
    {
        let rule = self.evaluate_rule(&input);
        let redactions: Vec<RedactionMarker> = Vec::new();
        assert(redactions.deep_view() =~= Seq::empty());
        PolicyDecision {
            id: PolicyDecisionId::new(),
            schema_version: POLICY_SCHEMA_VERSION,
            created_at: LedgerTimestamp::now(),
            requester: input.requester,
            repository_id: input.repository_id,
            requested_capability: input.requested_capability,
            resource_scope: input.resource_scope,
            tool_id: input.tool_id,
            provider_id: input.provider_id,
            declared_effect: input.declared_effect,
            current_trust_state: input.current_trust_state,
            approval_available: input.approval_available,
            policy_version: input.policy_version,
            outcome: rule.outcome,
            risk_tier: rule.risk_tier,
            reason_code: rule.reason_code.to_owned(),
            user_reason: rule.user_reason.to_owned(),
            approval_request_ref: None,
            audit_ref: None,
            redactions,
        }
    }
}

/// Canonicalize a job-submission capability hint into the daemon's supported
/// job capability when the hint is informational.
pub fn canonicalize_job_requested_capability(name: &str) -> (r: Option<&'static str>)
    ensures
        r is Some == (Capability::of_name(name@) is Informational),
        r is Some ==> r->0@ == "capability.discovery"@,
{
    match Capability::from_name(name) {
        Capability::Informational => Some("capability.discovery"),
        _ => None,
    }
}

/// Nothing runs in a blocked repository.
pub proof fn law_blocked_repository_blocks_everything(input: PolicyInputModel)
    requires
        input.current_trust_state is Blocked,
    ensures
        input.rule().outcome is Blocked,
{
}

/// Nothing runs outside the registered scope.
pub proof fn law_unregistered_scope_blocks_everything(input: PolicyInputModel)
    requires
        !input.registered_scope,
    ensures
        input.rule().outcome is Blocked,
{
}

/// Nothing that changes a repository runs in a read-only one.
pub proof fn law_read_only_blocks_mutation(input: PolicyInputModel)
    requires
        input.current_trust_state is ReadOnly,
        input.capability().mutates_repository(),
    ensures
        input.rule().outcome is Blocked,
{
}

/// An unknown capability is blocked, whatever the repository.
pub proof fn law_unknown_capability_is_blocked(input: PolicyInputModel)
    requires
        input.capability() is Unsupported,
    ensures
        input.rule().outcome is Blocked,
{
}

/// Nothing that changes a repository runs without leaving a trace: it is never merely
/// allowed.
pub proof fn law_mutation_is_never_merely_allowed(input: PolicyInputModel)
    requires
        input.capability().mutates_repository(),
    ensures
        !(input.rule().outcome is Allowed),
{
}

/// The risk tier tells what the outcome can be.
pub proof fn law_risk_tier_fits_outcome(input: PolicyInputModel)
    ensures
        input.rule().outcome is Blocked <==> input.rule().risk_tier is R4,
        input.rule().outcome is NeedsApproval <==> input.rule().risk_tier is R3,
        input.rule().outcome is Audited ==> input.rule().risk_tier is R1
            || input.rule().risk_tier is R2,
        input.rule().outcome is Allowed ==> input.rule().risk_tier is R0
            || input.rule().risk_tier is R1,
{
}

proof fn lemma_folded(c: char)
    ensures
        folded(folded(c)) == folded(c),
        crate::text::is_white(folded(c)) == crate::text::is_white(c),
{
}

/// A capability name means the same in any letter case, with any separators and with
/// white space around it: it means what its normalized form means.
pub proof fn law_capability_names_are_normalized(name: Seq<char>)
    ensures
        normalized(normalized(name)) == normalized(name),
        Capability::of_name(normalized(name)) == Capability::of_name(name),
{
    let t = crate::text::trimmed(name);
    let n = normalized(name);
    crate::text::lemma_trimmed_edges(name);
    if n.len() > 0 {
        lemma_folded(t[0]);
        lemma_folded(t.last());
        assert(n.last() == folded(t.last()));
    }
    assert(crate::text::trim_start(n) == n);
    assert(crate::text::trim_end(n) == n);
    assert forall|i: int| 0 <= i < n.len() implies folded(#[trigger] n[i]) == n[i] by {
        lemma_folded(t[i]);
    }
    assert(normalized(n) =~= n);
}

} // verus!

//! What new records and requests are like, and what each step of building one changes.
use vstd::prelude::*;

use crate::domain::{
    Actor, JobKind, JobRecord, JobStatus, LedgerTimestamp, LockDecision, LockDecisionCreateError,
    LockOwner, LockedScope, RepositoryRecord, RepositoryTrustState, ResourceScope,
};
use crate::extensions::manifest::ManifestValidationPolicy;
use crate::extensions::records::InstallOptions;
use crate::ids::{InvalidIdError, JobId, PolicyDecisionId, RepositoryId};
use crate::policy::{PolicyInput, PolicyInputModel};
use crate::requests::{RuntimeArtifactSpillover, RuntimeJobRequest, RuntimeJobRequestModel};
use crate::settings::{ToolOutputDefaults, ToolOutputSettingsScope};
use crate::spillover::ToolResultSpilloverOptions;
use crate::store::InMemoryStore;
use crate::tool_output::RenderOptions;

verus! {

/// A new repository is observed from its creation on, allows its root and nothing else, and is
/// trusted as it was said.
pub proof fn law_new_repositories_allow_their_root(
    name: String,
    root: String,
    trust: RepositoryTrustState,
    at: LedgerTimestamp,
    r: RepositoryRecord,
)
    requires
        call_ensures(RepositoryRecord::new, (name, root, trust, at), r),
    ensures
        crate::ids::is_id_text("repo_"@, r@.id),
        r@.display_name == name@,
        r@.root_path == root@,
        r@.allowed_path_scope.root_path == root@,
        r@.allowed_path_scope.allowed_paths.len() == 1,
        r@.allowed_path_scope.allowed_paths[0] == root@,
        r@.trust_state == trust,
        r@.created_at == at,
        r@.updated_at == at,
        r@.schema_version == 1,
        r@.owner_hint is None,
        r@.last_observed_metadata is None,
        r@.redactions.len() == 0,
{
}

/// A new job waits in the queue for what was asked; from its creation on it may be moved to any
/// state but success.
pub proof fn law_new_jobs_wait(
    requester: Actor,
    repository: RepositoryId,
    kind: JobKind,
    goal: String,
    at: LedgerTimestamp,
    r: JobRecord,
    next: JobStatus,
    later: LedgerTimestamp,
)
    requires
        call_ensures(JobRecord::new, (requester, repository, kind, goal, at), r),
    ensures
        crate::ids::is_id_text("job_"@, r@.id),
        r@.status is Queued,
        r@.requester == requester@,
        r@.repository_id == repository@,
        r@.kind == kind@,
        r@.goal == goal@,
        r@.created_at == at,
        r@.updated_at == at,
        r@.schema_version == 1,
        r@.started_at is None,
        r@.completed_at is None,
        r@.policy_summary is None,
        r@.cancellation_state is NotRequested,
        r@.latest_event_id is None,
        r@.redactions.len() == 0,
        r@.refusal(next, later) is None <==> at.unix_millis <= later.unix_millis && !(
        next is Succeeded),
{
}

/// A lock is made exactly where it lasts for some time; it is then held, its times are in
/// order, and its owner can reclaim it just from the moment it expires on.
pub proof fn law_new_locks_are_held_until_they_expire(
    repository: RepositoryId,
    decision: PolicyDecisionId,
    owner: LockOwner,
    scope: LockedScope,
    at: LedgerTimestamp,
    until: LedgerTimestamp,
    r: Result<LockDecision, LockDecisionCreateError>,
    later: LedgerTimestamp,
)
    requires
        call_ensures(LockDecision::new, (repository, decision, owner, scope, at, until), r),
    ensures
        r is Ok <==> at.unix_millis < until.unix_millis,
        r matches Ok(lock) ==> {
            &&& crate::ids::is_id_text("lock_"@, lock@.id)
            &&& crate::acceptance_laws::is_in_time(lock@)
            &&& lock@.status is Held
            &&& lock@.repository_id == repository@
            &&& lock@.policy_decision_id == decision@
            &&& lock@.owner == owner@
            &&& lock@.locked_scope == scope@
            &&& lock@.locked_at == at
            &&& lock@.expires_at == until
            &&& lock@.schema_version == 1
            &&& lock@.redactions.len() == 0
            &&& lock@.reclaim_result(owner@, later) is Ok <==> until.unix_millis
                <= later.unix_millis
        },
{
}

/// Each identifier is taken exactly where it has the prefix of its kind and a UUID behind it,
/// and is then kept as it was written.
pub proof fn law_identifiers_are_taken_as_written(
    words: String,
    repository: Result<RepositoryId, InvalidIdError>,
    job: Result<JobId, InvalidIdError>,
    decision: Result<PolicyDecisionId, InvalidIdError>,
)
    requires
        call_ensures(RepositoryId::try_from_string, (words,), repository),
        call_ensures(JobId::try_from_string, (words,), job),
        call_ensures(PolicyDecisionId::try_from_string, (words,), decision),
    ensures
        repository is Ok <==> crate::ids::is_id_text("repo_"@, words@),
        repository matches Ok(id) ==> id@ == words@,
        job is Ok <==> crate::ids::is_id_text("job_"@, words@),
        job matches Ok(id) ==> id@ == words@,
        decision is Ok <==> crate::ids::is_id_text("pol_"@, words@),
        decision matches Ok(id) ==> id@ == words@,
        !(repository is Ok && job is Ok) && !(job is Ok && decision is Ok) && !(repository is Ok
            && decision is Ok),
{
    reveal_strlit("repo_");
    reveal_strlit("job_");
    reveal_strlit("pol_");
    let text = words@;
    if crate::ids::is_id_text("repo_"@, text) {
        assert(text.take(5)[0] == 'r');
    }
    if crate::ids::is_id_text("job_"@, text) {
        assert(text.take(4)[0] == 'j');
    }
    if crate::ids::is_id_text("pol_"@, text) {
        assert(text.take(4)[0] == 'p');
    }
}

/// A new store is empty, and counts its events from one on, or from the number after the one
/// given.
pub proof fn law_new_stores_are_empty(last: u64, a: InMemoryStore, b: InMemoryStore)
    requires
        call_ensures(InMemoryStore::new, (), a),
        call_ensures(InMemoryStore::numbering_after, (last,), b),
    ensures
        a@.last_sequence == 0,
        b@.last_sequence == last,
        a@.repositories.len() + a@.jobs.len() + a@.events.len() + a@.policy_decisions.len()
            + a@.lock_decisions.len() + a@.tool_invocations.len() + a@.tool_results.len()
            + a@.audit_records.len() == 0,
        b@ == (crate::store_model::StoreModel { last_sequence: last, ..a@ }),
{
}

/// A new request is for the whole repository, gives no hints, may be approved, and leaves the
/// output to the standard.
pub proof fn law_new_requests_leave_the_rest_open(
    requester: Actor,
    repository: RepositoryId,
    kind: JobKind,
    goal: String,
    r: RuntimeJobRequest,
)
    requires
        call_ensures(RuntimeJobRequest::new, (requester, repository, kind, goal), r),
    ensures
        r@.requester == requester@,
        r@.repository_id == repository@,
        r@.kind == kind@,
        r@.goal == goal@,
        r@.resource_scope.kind == "repository"@,
        r@.resource_scope.value == "."@,
        r@.requested_capabilities.len() == 0,
        r@.approval_available,
        r@.render_options is None,
        r@.tool_output_defaults == ToolOutputDefaults::standard(),
        r@.artifact_spillover is None,
        crate::output_handling::spill_options(r@) is None,
{
}

/// Each step of building a request changes one thing of it.
pub proof fn law_requests_are_built_step_by_step(
    r: RuntimeJobRequest,
    kind: String,
    value: String,
    hints: Vec<String>,
    options: RenderOptions,
    defaults: ToolOutputDefaults,
    spillover: RuntimeArtifactSpillover,
    scoped: RuntimeJobRequest,
    hinted: RuntimeJobRequest,
    unapproved: RuntimeJobRequest,
    rendered: RuntimeJobRequest,
    settled: RuntimeJobRequest,
    spilling: RuntimeJobRequest,
)
    requires
        call_ensures(RuntimeJobRequest::with_resource_scope, (r, kind, value), scoped),
        call_ensures(RuntimeJobRequest::with_requested_capabilities, (r, hints), hinted),
        call_ensures(RuntimeJobRequest::without_approval_path, (r,), unapproved),
        call_ensures(RuntimeJobRequest::with_render_options, (r, options), rendered),
        call_ensures(RuntimeJobRequest::with_tool_output_defaults, (r, defaults), settled),
        call_ensures(RuntimeJobRequest::with_artifact_spillover, (r, spillover), spilling),
    ensures
        scoped@.resource_scope.kind == kind@,
        scoped@.resource_scope.value == value@,
        scoped@ == (RuntimeJobRequestModel { resource_scope: scoped@.resource_scope, ..r@ }),
        hinted@.requested_capabilities == hints.deep_view(),
        hinted@ == (RuntimeJobRequestModel {
            requested_capabilities: hinted@.requested_capabilities,
            ..r@
        }),
        !unapproved@.approval_available,
        unapproved@ == (RuntimeJobRequestModel { approval_available: false, ..r@ }),
        rendered@.render_options == Some(options),
        rendered@ == (RuntimeJobRequestModel { render_options: rendered@.render_options, ..r@ }),
        settled@.tool_output_defaults == defaults,
        settled@ == (RuntimeJobRequestModel {
            tool_output_defaults: settled@.tool_output_defaults,
            ..r@
        }),
        crate::output_handling::spill_options(spilling@) == Some(spillover@.options),
        spilling@ == (RuntimeJobRequestModel { artifact_spillover: Some(spillover@), ..r@ }),
{
}

/// A new policy input is within the registered scope and bounded, and names neither tool nor
/// provider; each step of building on it changes one thing.
pub proof fn law_policy_inputs_are_built_step_by_step(
    requester: Actor,
    repository: RepositoryId,
    capability: String,
    scope: ResourceScope,
    effect: String,
    trust: RepositoryTrustState,
    approval: bool,
    version: String,
    name: String,
    i: PolicyInput,
    tooled: PolicyInput,
    provided: PolicyInput,
    outside: PolicyInput,
    broad: PolicyInput,
)
    requires
        call_ensures(
            PolicyInput::new,
            (requester, repository, capability, scope, effect, trust, approval, version),
            i,
        ),
        call_ensures(PolicyInput::with_tool_id, (i, name), tooled),
        call_ensures(PolicyInput::with_provider_id, (i, name), provided),
        call_ensures(PolicyInput::outside_registered_scope, (i,), outside),
        call_ensures(PolicyInput::broad_or_unbounded, (i,), broad),
    ensures
        i@.requester == requester@,
        i@.repository_id == repository@,
        i@.requested_capability == capability@,
        i@.resource_scope == scope@,
        i@.declared_effect == effect@,
        i@.current_trust_state == trust,
        i@.approval_available == approval,
        i@.policy_version == version@,
        i@.tool_id is None,
        i@.provider_id is None,
        i@.registered_scope,
        !i@.broad_or_unbounded,
        tooled@.tool_id == Some(name@),
        tooled@ == (PolicyInputModel { tool_id: tooled@.tool_id, ..i@ }),
        provided@.provider_id == Some(name@),
        provided@ == (PolicyInputModel { provider_id: provided@.provider_id, ..i@ }),
        outside@.rule().outcome is Blocked,
        outside@ == (PolicyInputModel { registered_scope: false, ..i@ }),
        broad@ == (PolicyInputModel { broad_or_unbounded: true, ..i@ }),
{
}

/// Each step of building policies and options allows one thing.
pub proof fn law_permissions_of_the_host_are_given_one_by_one(
    policy: ManifestValidationPolicy,
    unsigned: ManifestValidationPolicy,
    process: ManifestValidationPolicy,
    options: InstallOptions,
    a: InstallOptions,
    b: InstallOptions,
    c: InstallOptions,
)
    requires
        call_ensures(ManifestValidationPolicy::with_local_unsigned, (policy,), unsigned),
        call_ensures(ManifestValidationPolicy::with_local_process_runtime, (policy,), process),
        call_ensures(InstallOptions::approve_local_unsigned, (options,), a),
        call_ensures(InstallOptions::allow_local_process_runtime, (options,), b),
        call_ensures(InstallOptions::approve_source_change, (options,), c),
    ensures
        unsigned@.allow_local_unsigned,
        unsigned@.allow_local_process_runtime == policy@.allow_local_process_runtime,
        process@.allow_local_process_runtime,
        process@.allow_local_unsigned == policy@.allow_local_unsigned,
        unsigned@.official_id_prefix == policy@.official_id_prefix && process@.official_id_prefix
            == policy@.official_id_prefix,
        unsigned@.local_id_prefix == policy@.local_id_prefix && process@.local_id_prefix
            == policy@.local_id_prefix,
        unsigned@.official_registry_identity == policy@.official_registry_identity
            && process@.official_registry_identity == policy@.official_registry_identity,
        a.approve_local_unsigned == Some(true),
        a.allow_local_process_runtime == options.allow_local_process_runtime,
        a.approve_source_change == options.approve_source_change,
        b.approve_local_unsigned == options.approve_local_unsigned,
        b.allow_local_process_runtime == Some(true),
        b.approve_source_change == options.approve_source_change,
        c.approve_local_unsigned == options.approve_local_unsigned,
        c.allow_local_process_runtime == options.allow_local_process_runtime,
        c.approve_source_change == Some(true),
{
}

/// Spillover options start from plain text and take any other type; a scope can be narrowed to
/// a tool.
pub proof fn law_options_and_scopes_are_narrowed(
    max: usize,
    media_type: String,
    plain: ToolResultSpilloverOptions,
    typed: ToolResultSpilloverOptions,
    scope: ToolOutputSettingsScope,
    tool: String,
    narrowed: ToolOutputSettingsScope,
)
    requires
        call_ensures(ToolResultSpilloverOptions::new, (max,), plain),
        call_ensures(ToolResultSpilloverOptions::with_media_type, (plain, media_type), typed),
        call_ensures(ToolOutputSettingsScope::for_tool, (scope, tool), narrowed),
    ensures
        plain@.max_inline_bytes == max,
        plain@.media_type == "text/plain; charset=utf-8"@,
        typed@.max_inline_bytes == max,
        typed@.media_type == media_type@,
        narrowed@.level == scope@.level,
        narrowed@.tool_id == Some(tool@),
{
}

} // verus!

//! What a manifest declares: permissions, tools, services, tool outputs, hooks, webhooks,
//! attachments and migrations.
use vstd::prelude::*;

use crate::checks;
use crate::checks::Objection;
use crate::extensions::fields;
use crate::extensions::fields::{
    format_choices, hook_action_choices, holds_kind, invalid_field, language_mode_choices,
    require_no_white_space, require_non_empty, require_permission_name, require_permission_names,
    require_reverse_dns_id, require_semver, require_trimmed_non_empty, trigger_status_choices,
    validate_http_endpoint, validate_optional_choice, validate_required_string,
    validate_string_list, verbosity_choices, verification_choices, webhook_source_choices,
    Problem,
};
use crate::extensions::manifest::{
    ExtensionBoundary, ExtensionHookDefinition, ExtensionHookDefinitionModel, ExtensionKind,
    ExtensionManifest, ExtensionManifestModel, ExtensionPermission, ExtensionPermissionModel,
    ExtensionServiceDefinition, ExtensionServiceDefinitionModel, ExtensionServiceDependency,
    ExtensionServiceDependencyModel, ExtensionToolDefinition, ExtensionToolDefinitionModel,
    ExtensionToolOutputDefinition, ExtensionToolOutputDefinitionModel, ExtensionValidationError,
    ExtensionValidationErrorModel, ExtensionValidationResult, ExtensionWebhookDefinition,
    ExtensionWebhookDefinitionModel,
};
use crate::text::{comes_before, holds_text, same_text};
use crate::text_map::TextMap;

verus! {

/// A declaration of some kind and the manifest's types must agree.
pub open spec fn type_problem(declared: bool, typed: bool, reason: Seq<char>) -> Problem {
    if declared && !typed {
        Some(fields::invalid("types"@, reason))
    } else {
        None
    }
}

pub open spec fn risk_tier_problem(risk_tier: Option<Seq<char>>) -> Problem {
    match risk_tier {
        None => None,
        Some(tier) => if tier == "R0"@ || tier == "R1"@ || tier == "R2"@ || tier == "R3"@ || tier
            == "R4"@ {
            None
        } else {
            Some(fields::invalid("permissions.risk_tier"@, "unsupported risk tier "@ + tier))
        },
    }
}

fn validate_risk_tier(risk_tier: &Option<String>) -> (r: ExtensionValidationResult<()>)
    ensures
        checks::reports(r, risk_tier_problem(risk_tier.deep_view())),
{
    match risk_tier {
        None => Ok(()),
        Some(tier) => {
            let tier = tier.as_str();
            if same_text(tier, "R0") || same_text(tier, "R1") || same_text(tier, "R2")
                || same_text(tier, "R3") || same_text(tier, "R4") {
                Ok(())
            } else {
                let reason = "unsupported risk tier ".to_owned().concat(tier);
                Err(
                    ExtensionValidationError::InvalidField {
                        field: "permissions.risk_tier",
                        reason,
                    },
                )
            }
        },
    }
}

/// A permission and what is said of it.
pub open spec fn permission_problem(entry: (Seq<char>, ExtensionPermissionModel)) -> Problem {
    fields::permission_name_problem(entry.0).otherwise(
        fields::empty_problem("permissions.description"@, entry.1.description),
    ).otherwise(risk_tier_problem(entry.1.risk_tier))
}

fn validate_permission(name: &str, permission: &ExtensionPermission) -> (r:
    ExtensionValidationResult<()>)
    ensures
        checks::reports(r, permission_problem((name@, permission@))),
{
    require_permission_name(name)?;
    require_non_empty("permissions.description", permission.description.as_str())?;
    validate_risk_tier(&permission.risk_tier)
}

pub open spec fn permission_checks(entries: Seq<(Seq<char>, ExtensionPermissionModel)>) -> spec_fn(
    int,
) -> Problem {
    |i: int| permission_problem(entries[i])
}

#[verifier::opaque]
pub open spec fn permissions_problem(m: ExtensionManifestModel) -> Problem {
    checks::first_problem(permission_checks(m.permissions), m.permissions.len() as int)
}

pub fn validate_permissions(manifest: &ExtensionManifest) -> (r: ExtensionValidationResult<()>)
    ensures
        checks::reports(r, permissions_problem(manifest@)),
{
    reveal(permissions_problem);
    let permissions = &manifest.permissions;
    let ghost entries = manifest@.permissions;
    let ghost checks = permission_checks(entries);
    let n: usize = permissions.len();
    let mut i: usize = 0;
    while i < n
        invariant
            i <= n == entries.len(),
            entries == permissions@,
            entries == manifest@.permissions,
            checks == permission_checks(entries),
            checks::first_problem(checks, i as int) is None,
        decreases n - i,
    {
        match validate_permission(permissions.key_at(i), permissions.value_at(i)) {
            Err(error) => {
                proof {
                    reveal(permissions_problem);
                    checks::lemma_first_problem(checks, i as int, n as int);
                }
                return Err(error);
            },
            Ok(_) => {},
        }
        i += 1;
    }
    Ok(())
}

/// A permission that a tool needs is well named and declared.
pub open spec fn tool_permission_problem(
    permissions: Seq<(Seq<char>, ExtensionPermissionModel)>,
    tool: Seq<char>,
    permission: Seq<char>,
) -> Problem {
    fields::permission_name_problem(permission).otherwise(
        if crate::text_map::value_of(permissions, permission) is None {
            Some(ExtensionValidationErrorModel::MissingToolPermission { tool, permission })
        } else {
            None
        },
    )
}

fn require_tool_permission(
    permissions: &TextMap<ExtensionPermission>,
    tool: &str,
    permission: &str,
) -> (r: ExtensionValidationResult<()>)
    ensures
        checks::reports(r, tool_permission_problem(permissions@, tool@, permission@)),
{
    require_permission_name(permission)?;
    if !permissions.contains_key(permission) {
        return Err(
            ExtensionValidationError::MissingToolPermission {
                tool: tool.to_owned(),
                permission: permission.to_owned(),
            },
        );
    }
    Ok(())
}

/// The first, in the order of texts, of the needed permissions that are objected to.
pub open spec fn first_refused(
    permissions: Seq<(Seq<char>, ExtensionPermissionModel)>,
    tool: Seq<char>,
    needed: Seq<Seq<char>>,
) -> Option<Seq<char>>
    decreases needed.len(),
{
    if needed.len() == 0 {
        None
    } else {
        let earlier = first_refused(permissions, tool, needed.drop_last());
        if tool_permission_problem(permissions, tool, needed.last()) is Some && (earlier is None
            || crate::text::text_before(needed.last(), earlier->0)) {
            Some(needed.last())
        } else {
            earlier
        }
    }
}

/// The objection to the permissions that a tool needs.
pub open spec fn needed_problem(
    permissions: Seq<(Seq<char>, ExtensionPermissionModel)>,
    tool: Seq<char>,
    needed: Seq<Seq<char>>,
) -> Problem {
    match first_refused(permissions, tool, needed) {
        Some(permission) => tool_permission_problem(permissions, tool, permission),
        None => None,
    }
}

/// `needed` extended by `more`, the objection to the whole being worked out from the
/// objection to the first part.
fn refuse_needed(
    permissions: &TextMap<ExtensionPermission>,
    tool: &str,
    needed: Ghost<Seq<Seq<char>>>,
    refused: Option<String>,
    more: &Vec<String>,
) -> (r: Option<String>)
    requires
        refused.deep_view() == first_refused(permissions@, tool@, needed@),
    ensures
        r.deep_view() == first_refused(permissions@, tool@, needed@ + more.deep_view()),
{
    let mut refused = refused;
    let ghost all = more.deep_view();
    let mut i: usize = 0;
    proof {
        assert(needed@ + all.take(0) =~= needed@);
    }
    while i < more.len()
        invariant
            i <= more.len(),
            all == more.deep_view(),
            refused.deep_view() == first_refused(permissions@, tool@, needed@ + all.take(i as int)),
        decreases more.len() - i,
    {
        proof {
            let longer = needed@ + all.take(i + 1);
            assert(longer.last() == more[i as int]@);
            assert(longer.drop_last() =~= needed@ + all.take(i as int));
        }
        let permission = more[i].as_str();
        if require_tool_permission(permissions, tool, permission).is_err() {
            let first = match &refused {
                None => true,
                Some(earlier) => comes_before(permission, earlier.as_str()),
            };
            if first {
                refused = Some(permission.to_owned());
            }
        }
        i += 1;
    }
    assert(all.take(more.len() as int) =~= all);
    refused
}

/// The ids of the declared tools.
pub open spec fn tool_ids(tools: Seq<ExtensionToolDefinitionModel>) -> Seq<Seq<char>> {
    tools.map_values(|tool: ExtensionToolDefinitionModel| tool.id)
}

pub open spec fn tool_problem(m: ExtensionManifestModel, i: int) -> Problem {
    let tool = m.tools[i];
    fields::empty_problem("tools.id"@, tool.id).otherwise(
        if tool_ids(m.tools).take(i).contains(tool.id) {
            Some(ExtensionValidationErrorModel::DuplicateToolDeclaration { tool: tool.id })
        } else {
            None
        },
    ).otherwise(
        if tool.permissions.len() == 0 && tool.permissions_required.len() == 0 {
            Some(fields::missing("tools.permissions"@))
        } else {
            None
        },
    ).otherwise(
        needed_problem(m.permissions, tool.id, tool.permissions + tool.permissions_required),
    )
}

fn validate_tool(manifest: &ExtensionManifest, i: usize, seen: &Vec<String>) -> (r:
    ExtensionValidationResult<()>)
    requires
        i < manifest@.tools.len(),
        seen.deep_view() == tool_ids(manifest@.tools).take(i as int),
    ensures
        checks::reports(r, tool_problem(manifest@, i as int)),
{
    let tool: &ExtensionToolDefinition = &manifest.tools[i];
    assert(manifest@.tools[i as int] == tool@);
    require_non_empty("tools.id", tool.id.as_str())?;
    if holds_text(seen, tool.id.as_str()) {
        return Err(
            ExtensionValidationError::DuplicateToolDeclaration { tool: tool.id.clone() },
        );
    }
    if tool.permissions.len() == 0 && tool.permissions_required.len() == 0 {
        return Err(ExtensionValidationError::MissingField { field: "tools.permissions" });
    }
    let permissions = &manifest.permissions;
    let refused = refuse_needed(
        permissions,
        tool.id.as_str(),
        Ghost(Seq::empty()),
        None,
        &tool.permissions,
    );
    assert(Seq::<Seq<char>>::empty() + tool.permissions.deep_view()
        =~= tool.permissions.deep_view());
    let refused = refuse_needed(
        permissions,
        tool.id.as_str(),
        Ghost(tool.permissions.deep_view()),
        refused,
        &tool.permissions_required,
    );
    match refused {
        Some(permission) => {
            proof {
                lemma_first_refused_is_refused(
                    permissions@,
                    tool.id@,
                    tool@.permissions + tool@.permissions_required,
                );
            }
            require_tool_permission(permissions, tool.id.as_str(), permission.as_str())
        },
        None => Ok(()),
    }
}

/// What is refused is objected to.
pub proof fn lemma_first_refused_is_refused(
    permissions: Seq<(Seq<char>, ExtensionPermissionModel)>,
    tool: Seq<char>,
    needed: Seq<Seq<char>>,
)
    ensures
        first_refused(permissions, tool, needed) is Some ==> tool_permission_problem(
            permissions,
            tool,
            first_refused(permissions, tool, needed)->0,
        ) is Some,
    decreases needed.len(),
{
    if needed.len() > 0 {
        lemma_first_refused_is_refused(permissions, tool, needed.drop_last());
    }
}

pub open spec fn tool_checks(m: ExtensionManifestModel) -> spec_fn(int) -> Problem {
    |i: int| tool_problem(m, i)
}

fn validate_each_tool(manifest: &ExtensionManifest) -> (r: ExtensionValidationResult<()>)
    ensures
        checks::reports(
            r,
            checks::first_problem(tool_checks(manifest@), manifest@.tools.len() as int),
        ),
{
    let ghost checks = tool_checks(manifest@);
    let ghost items = manifest@.tools;
    let mut seen: Vec<String> = Vec::new();
    let n: usize = manifest.tools.len();
    assert(seen.deep_view() =~= tool_ids(items).take(0));
    let mut i: usize = 0;
    while i < n
        invariant
            i <= n == manifest.tools.len(),
            items == manifest@.tools,
            items == manifest.tools.deep_view(),
            checks == tool_checks(manifest@),
            seen.deep_view() == tool_ids(items).take(i as int),
            checks::first_problem(checks, i as int) is None,
        decreases n - i,
    {
        assert(items[i as int] == manifest.tools[i as int]@);
        match validate_tool(manifest, i, &seen) {
            Err(error) => {
                proof {
                    checks::lemma_first_problem(checks, i as int, n as int);
                }
                return Err(error);
            },
            Ok(_) => {},
        }
        let ghost before = seen.deep_view();
        seen.push(manifest.tools[i].id.clone());
        proof {
            assert(seen.deep_view() =~= before.push(tool_ids(items)[i as int]));
            assert(tool_ids(items).take(i + 1) =~= tool_ids(items).take(i as int).push(tool_ids(items)[i as int]));
        }
        i += 1;
    }
    Ok(())
}

/// The declared tools.
#[verifier::opaque]
pub open spec fn tools_problem(m: ExtensionManifestModel) -> Problem {
    let typed = m.types.contains(ExtensionKind::Tool);
    type_problem(m.tools.len() > 0, typed, "tool declarations require type tool"@).otherwise(
        if typed && m.tools.len() == 0 {
            Some(fields::missing("tools"@))
        } else {
            None
        },
    ).otherwise(checks::first_problem(tool_checks(m), m.tools.len() as int))
}

pub fn validate_tools(manifest: &ExtensionManifest) -> (r: ExtensionValidationResult<()>)
    ensures
        checks::reports(r, tools_problem(manifest@)),
{
    reveal(tools_problem);
    let typed = holds_kind(&manifest.types, ExtensionKind::Tool);
    let declared = manifest.tools.len() > 0;
    if declared && !typed {
        return Err(invalid_field("types", "tool declarations require type tool"));
    }
    if typed && !declared {
        return Err(ExtensionValidationError::MissingField { field: "tools" });
    }
    validate_each_tool(manifest)
}

/// The parts that name a service.
pub open spec fn service_parts_problem(
    service: Seq<char>,
    method: Seq<char>,
    schema_version: Seq<char>,
) -> Problem {
    fields::empty_problem("services.service"@, service).otherwise(
        fields::empty_problem("services.method"@, method),
    ).otherwise(fields::empty_problem("services.schema_version"@, schema_version)).otherwise(
        fields::white_problem("services.service"@, service),
    ).otherwise(fields::white_problem("services.method"@, method)).otherwise(
        fields::white_problem("services.schema_version"@, schema_version),
    )
}

fn validate_service_parts(service: &str, method: &str, schema_version: &str) -> (r:
    ExtensionValidationResult<()>)
    ensures
        checks::reports(r, service_parts_problem(service@, method@, schema_version@)),
{
    require_non_empty("services.service", service)?;
    require_non_empty("services.method", method)?;
    require_non_empty("services.schema_version", schema_version)?;
    require_no_white_space("services.service", service)?;
    require_no_white_space("services.method", method)?;
    require_no_white_space("services.schema_version", schema_version)
}

pub open spec fn service_permission_problem(
    permissions: Seq<(Seq<char>, ExtensionPermissionModel)>,
    service: Seq<char>,
    method: Seq<char>,
    permission: Seq<char>,
) -> Problem {
    fields::permission_name_problem(permission).otherwise(
        if crate::text_map::value_of(permissions, permission) is None {
            Some(
                ExtensionValidationErrorModel::MissingServicePermission {
                    service,
                    method,
                    permission,
                },
            )
        } else {
            None
        },
    )
}

fn require_declared_service_permission(
    permissions: &TextMap<ExtensionPermission>,
    service: &str,
    method: &str,
    permission: &str,
) -> (r: ExtensionValidationResult<()>)
    ensures
        checks::reports(
            r,
            service_permission_problem(permissions@, service@, method@, permission@),
        ),
{
    require_permission_name(permission)?;
    if permissions.contains_key(permission) {
        Ok(())
    } else {
        Err(
            ExtensionValidationError::MissingServicePermission {
                service: service.to_owned(),
                method: method.to_owned(),
                permission: permission.to_owned(),
            },
        )
    }
}

/// The key under which a service counts as declared.
pub open spec fn service_name(
    service: Seq<char>,
    method: Seq<char>,
    schema_version: Seq<char>,
) -> Seq<char> {
    service + ":"@ + method + ":"@ + schema_version
}

fn service_key(service: &str, method: &str, schema_version: &str) -> (r: String)
    ensures
        r@ == service_name(service@, method@, schema_version@),
{
    service.to_owned().concat(":").concat(method).concat(":").concat(schema_version)
}

pub open spec fn provided_name(service: ExtensionServiceDefinitionModel) -> Seq<char> {
    service_name(service.service, service.method, service.schema_version)
}

pub open spec fn provided_names(services: Seq<ExtensionServiceDefinitionModel>) -> Seq<Seq<char>> {
    services.map_values(|service: ExtensionServiceDefinitionModel| provided_name(service))
}

fn provided_key(service: &ExtensionServiceDefinition) -> (r: String)
    ensures
        r@ == provided_name(service@),
{
    service_key(service.service.as_str(), service.method.as_str(), service.schema_version.as_str())
}

pub open spec fn provided_problem(m: ExtensionManifestModel, i: int) -> Problem {
    let s = m.services.provides[i];
    service_parts_problem(s.service, s.method, s.schema_version).otherwise(
        service_permission_problem(m.permissions, s.service, s.method, s.required_permission),
    ).otherwise(
        if provided_names(m.services.provides).take(i).contains(provided_name(s)) {
            Some(
                ExtensionValidationErrorModel::DuplicateServiceDeclaration {
                    service: s.service,
                    method: s.method,
                    schema_version: s.schema_version,
                },
            )
        } else {
            None
        },
    )
}

fn validate_provided(manifest: &ExtensionManifest, i: usize, seen: &Vec<String>) -> (r:
    ExtensionValidationResult<()>)
    requires
        i < manifest@.services.provides.len(),
        seen.deep_view() == provided_names(manifest@.services.provides).take(i as int),
    ensures
        checks::reports(r, provided_problem(manifest@, i as int)),
{
    let s: &ExtensionServiceDefinition = &manifest.services.provides[i];
    assert(manifest@.services.provides[i as int] == s@);
    validate_service_parts(s.service.as_str(), s.method.as_str(), s.schema_version.as_str())?;
    require_declared_service_permission(
        &manifest.permissions,
        s.service.as_str(),
        s.method.as_str(),
        s.required_permission.as_str(),
    )?;
    if holds_text(seen, provided_key(s).as_str()) {
        return Err(
            ExtensionValidationError::DuplicateServiceDeclaration {
                service: s.service.clone(),
                method: s.method.clone(),
                schema_version: s.schema_version.clone(),
            },
        );
    }
    Ok(())
}

pub open spec fn provided_checks(m: ExtensionManifestModel) -> spec_fn(int) -> Problem {
    |i: int| provided_problem(m, i)
}

fn validate_each_provided(manifest: &ExtensionManifest) -> (r: ExtensionValidationResult<()>)
    ensures
        checks::reports(
            r,
            checks::first_problem(provided_checks(manifest@), manifest@.services.provides.len() as int),
        ),
{
    let ghost checks = provided_checks(manifest@);
    let ghost items = manifest@.services.provides;
    let mut seen: Vec<String> = Vec::new();
    let n: usize = manifest.services.provides.len();
    assert(seen.deep_view() =~= provided_names(items).take(0));
    let mut i: usize = 0;
    while i < n
        invariant
            i <= n == manifest.services.provides.len(),
            items == manifest@.services.provides,
            items == manifest.services.provides.deep_view(),
            checks == provided_checks(manifest@),
            seen.deep_view() == provided_names(items).take(i as int),
            checks::first_problem(checks, i as int) is None,
        decreases n - i,
    {
        assert(items[i as int] == manifest.services.provides[i as int]@);
        match validate_provided(manifest, i, &seen) {
            Err(error) => {
                proof {
                    checks::lemma_first_problem(checks, i as int, n as int);
                }
                return Err(error);
            },
            Ok(_) => {},
        }
        let ghost before = seen.deep_view();
        seen.push(provided_key(&manifest.services.provides[i]));
        proof {
            assert(seen.deep_view() =~= before.push(provided_names(items)[i as int]));
            assert(provided_names(items).take(i + 1) =~= provided_names(items).take(i as int).push(provided_names(items)[i as int]));
        }
        i += 1;
    }
    Ok(())
}

pub open spec fn consumed_name(service: ExtensionServiceDependencyModel) -> Seq<char> {
    service.extension_id + ":"@ + service_name(
        service.service,
        service.method,
        service.schema_version,
    )
}

pub open spec fn consumed_names(services: Seq<ExtensionServiceDependencyModel>) -> Seq<Seq<char>> {
    services.map_values(|service: ExtensionServiceDependencyModel| consumed_name(service))
}

fn consumed_key(service: &ExtensionServiceDependency) -> (r: String)
    ensures
        r@ == consumed_name(service@),
{
    let key = service_key(
        service.service.as_str(),
        service.method.as_str(),
        service.schema_version.as_str(),
    );
    service.extension_id.clone().concat(":").concat(key.as_str())
}

pub open spec fn consumed_problem(m: ExtensionManifestModel, i: int) -> Problem {
    let s = m.services.consumes[i];
    fields::namespace_problem("services.consumes.extension_id"@, s.extension_id).otherwise(
        service_parts_problem(s.service, s.method, s.schema_version),
    ).otherwise(
        service_permission_problem(m.permissions, s.service, s.method, s.required_permission),
    ).otherwise(
        if consumed_names(m.services.consumes).take(i).contains(consumed_name(s)) {
            Some(
                ExtensionValidationErrorModel::DuplicateServiceDeclaration {
                    service: s.service,
                    method: s.method,
                    schema_version: s.schema_version,
                },
            )
        } else {
            None
        },
    )
}

fn validate_consumed(manifest: &ExtensionManifest, i: usize, seen: &Vec<String>) -> (r:
    ExtensionValidationResult<()>)
    requires
        i < manifest@.services.consumes.len(),
        seen.deep_view() == consumed_names(manifest@.services.consumes).take(i as int),
    ensures
        checks::reports(r, consumed_problem(manifest@, i as int)),
{
    let s: &ExtensionServiceDependency = &manifest.services.consumes[i];
    assert(manifest@.services.consumes[i as int] == s@);
    require_reverse_dns_id("services.consumes.extension_id", s.extension_id.as_str())?;
    validate_service_parts(s.service.as_str(), s.method.as_str(), s.schema_version.as_str())?;
    require_declared_service_permission(
        &manifest.permissions,
        s.service.as_str(),
        s.method.as_str(),
        s.required_permission.as_str(),
    )?;
    if holds_text(seen, consumed_key(s).as_str()) {
        return Err(
            ExtensionValidationError::DuplicateServiceDeclaration {
                service: s.service.clone(),
                method: s.method.clone(),
                schema_version: s.schema_version.clone(),
            },
        );
    }
    Ok(())
}

pub open spec fn consumed_checks(m: ExtensionManifestModel) -> spec_fn(int) -> Problem {
    |i: int| consumed_problem(m, i)
}

fn validate_each_consumed(manifest: &ExtensionManifest) -> (r: ExtensionValidationResult<()>)
    ensures
        checks::reports(
            r,
            checks::first_problem(consumed_checks(manifest@), manifest@.services.consumes.len() as int),
        ),
{
    let ghost checks = consumed_checks(manifest@);
    let ghost items = manifest@.services.consumes;
    let mut seen: Vec<String> = Vec::new();
    let n: usize = manifest.services.consumes.len();
    assert(seen.deep_view() =~= consumed_names(items).take(0));
    let mut i: usize = 0;
    while i < n
        invariant
            i <= n == manifest.services.consumes.len(),
            items == manifest@.services.consumes,
            items == manifest.services.consumes.deep_view(),
            checks == consumed_checks(manifest@),
            seen.deep_view() == consumed_names(items).take(i as int),
            checks::first_problem(checks, i as int) is None,
        decreases n - i,
    {
        assert(items[i as int] == manifest.services.consumes[i as int]@);
        match validate_consumed(manifest, i, &seen) {
            Err(error) => {
                proof {
                    checks::lemma_first_problem(checks, i as int, n as int);
                }
                return Err(error);
            },
            Ok(_) => {},
        }
        let ghost before = seen.deep_view();
        seen.push(consumed_key(&manifest.services.consumes[i]));
        proof {
            assert(seen.deep_view() =~= before.push(consumed_names(items)[i as int]));
            assert(consumed_names(items).take(i + 1) =~= consumed_names(items).take(i as int).push(consumed_names(items)[i as int]));
        }
        i += 1;
    }
    Ok(())
}

/// The services provided and consumed.
#[verifier::opaque]
pub open spec fn services_problem(m: ExtensionManifestModel) -> Problem {
    let typed = m.types.contains(ExtensionKind::Service);
    let declared = m.services.provides.len() > 0 || m.services.consumes.len() > 0;
    type_problem(declared, typed, "service declarations require type service"@).otherwise(
        if typed && !declared {
            Some(fields::missing("services"@))
        } else {
            None
        },
    ).otherwise(
        checks::first_problem(provided_checks(m), m.services.provides.len() as int),
    ).otherwise(checks::first_problem(consumed_checks(m), m.services.consumes.len() as int))
}

pub fn validate_services(manifest: &ExtensionManifest) -> (r: ExtensionValidationResult<()>)
    ensures
        checks::reports(r, services_problem(manifest@)),
{
    reveal(services_problem);
    let typed = holds_kind(&manifest.types, ExtensionKind::Service);
    let declared = manifest.services.provides.len() > 0 || manifest.services.consumes.len() > 0;
    if declared && !typed {
        return Err(invalid_field("types", "service declarations require type service"));
    }
    if typed && !declared {
        return Err(ExtensionValidationError::MissingField { field: "services" });
    }
    validate_each_provided(manifest)?;
    validate_each_consumed(manifest)
}

pub open spec fn output_tools(outputs: Seq<ExtensionToolOutputDefinitionModel>) -> Seq<Seq<char>> {
    outputs.map_values(|output: ExtensionToolOutputDefinitionModel| output.tool_id)
}

pub open spec fn output_problem(m: ExtensionManifestModel, i: int) -> Problem {
    let o = m.tool_output[i];
    fields::trimmed_problem("tool_output.tool_id"@, o.tool_id).otherwise(
        if output_tools(m.tool_output).take(i).contains(o.tool_id) {
            Some(
                ExtensionValidationErrorModel::DuplicateToolOutputDeclaration {
                    tool_id: o.tool_id,
                },
            )
        } else {
            None
        },
    ).otherwise(
        fields::choice_problem("tool_output.format"@, o.format, fields::formats()),
    ).otherwise(
        fields::choice_problem("tool_output.verbosity"@, o.verbosity, fields::verbosities()),
    ).otherwise(
        fields::choice_problem(
            "tool_output.language_mode"@,
            o.language_mode,
            fields::language_modes(),
        ),
    ).otherwise(
        checks::first_problem(
            fields::word_checks("tool_output.fields"@, o.fields),
            o.fields.len() as int,
        ),
    ).otherwise(
        checks::first_problem(
            fields::word_checks("tool_output.redactions"@, o.redactions),
            o.redactions.len() as int,
        ),
    ).otherwise(
        if !tool_ids(m.tools).contains(o.tool_id) {
            Some(
                fields::invalid(
                    "tool_output.tool_id"@,
                    "tool output customization targets undeclared tool "@ + o.tool_id,
                ),
            )
        } else {
            None
        },
    )
}

fn declares_tool(tools: &Vec<ExtensionToolDefinition>, id: &str) -> (r: bool)
    ensures
        r == tool_ids(tools.deep_view()).contains(id@),
{
    let ghost ids = tool_ids(tools.deep_view());
    let mut i: usize = 0;
    while i < tools.len()
        invariant
            i <= tools.len(),
            ids == tool_ids(tools.deep_view()),
            forall|j: int| 0 <= j < i ==> #[trigger] ids[j] != id@,
        decreases tools.len() - i,
    {
        assert(ids[i as int] == tools[i as int]@.id);
        if same_text(tools[i].id.as_str(), id) {
            return true;
        }
        i += 1;
    }
    false
}

fn validate_output(manifest: &ExtensionManifest, i: usize, seen: &Vec<String>) -> (r:
    ExtensionValidationResult<()>)
    requires
        i < manifest@.tool_output.len(),
        seen.deep_view() == output_tools(manifest@.tool_output).take(i as int),
    ensures
        checks::reports(r, output_problem(manifest@, i as int)),
{
    let o: &ExtensionToolOutputDefinition = &manifest.tool_output[i];
    assert(manifest@.tool_output[i as int] == o@);
    require_trimmed_non_empty("tool_output.tool_id", o.tool_id.as_str())?;
    if holds_text(seen, o.tool_id.as_str()) {
        return Err(
            ExtensionValidationError::DuplicateToolOutputDeclaration { tool_id: o.tool_id.clone() },
        );
    }
    validate_optional_choice("tool_output.format", &o.format, &format_choices())?;
    validate_optional_choice("tool_output.verbosity", &o.verbosity, &verbosity_choices())?;
    validate_optional_choice(
        "tool_output.language_mode",
        &o.language_mode,
        &language_mode_choices(),
    )?;
    validate_string_list("tool_output.fields", &o.fields)?;
    validate_string_list("tool_output.redactions", &o.redactions)?;
    if !declares_tool(&manifest.tools, o.tool_id.as_str()) {
        let reason = "tool output customization targets undeclared tool ".to_owned().concat(
            o.tool_id.as_str(),
        );
        return Err(
            ExtensionValidationError::InvalidField { field: "tool_output.tool_id", reason },
        );
    }
    Ok(())
}

pub open spec fn output_checks(m: ExtensionManifestModel) -> spec_fn(int) -> Problem {
    |i: int| output_problem(m, i)
}

fn validate_each_output(manifest: &ExtensionManifest) -> (r: ExtensionValidationResult<()>)
    ensures
        checks::reports(
            r,
            checks::first_problem(output_checks(manifest@), manifest@.tool_output.len() as int),
        ),
{
    let ghost checks = output_checks(manifest@);
    let ghost items = manifest@.tool_output;
    let mut seen: Vec<String> = Vec::new();
    let n: usize = manifest.tool_output.len();
    assert(seen.deep_view() =~= output_tools(items).take(0));
    let mut i: usize = 0;
    while i < n
        invariant
            i <= n == manifest.tool_output.len(),
            items == manifest@.tool_output,
            items == manifest.tool_output.deep_view(),
            checks == output_checks(manifest@),
            seen.deep_view() == output_tools(items).take(i as int),
            checks::first_problem(checks, i as int) is None,
        decreases n - i,
    {
        assert(items[i as int] == manifest.tool_output[i as int]@);
        match validate_output(manifest, i, &seen) {
            Err(error) => {
                proof {
                    checks::lemma_first_problem(checks, i as int, n as int);
                }
                return Err(error);
            },
            Ok(_) => {},
        }
        let ghost before = seen.deep_view();
        seen.push(manifest.tool_output[i].tool_id.clone());
        proof {
            assert(seen.deep_view() =~= before.push(output_tools(items)[i as int]));
            assert(output_tools(items).take(i + 1) =~= output_tools(items).take(i as int).push(output_tools(items)[i as int]));
        }
        i += 1;
    }
    Ok(())
}

/// The customizations of tool outputs.
#[verifier::opaque]
pub open spec fn tool_output_problem(m: ExtensionManifestModel) -> Problem {
    type_problem(
        m.tool_output.len() > 0,
        m.types.contains(ExtensionKind::ToolOutputCustomizer),
        "tool output declarations require type tool_output_customizer"@,
    ).otherwise(checks::first_problem(output_checks(m), m.tool_output.len() as int))
}

pub fn validate_tool_output(manifest: &ExtensionManifest) -> (r: ExtensionValidationResult<()>)
    ensures
        checks::reports(r, tool_output_problem(manifest@)),
{
    reveal(tool_output_problem);
    if manifest.tool_output.len() > 0 && !holds_kind(
        &manifest.types,
        ExtensionKind::ToolOutputCustomizer,
    ) {
        return Err(
            invalid_field(
                "types",
                "tool output declarations require type tool_output_customizer",
            ),
        );
    }
    validate_each_output(manifest)
}

/// Going without verification is for local development alone.
pub open spec fn verification_problem(
    field: Seq<char>,
    verification: Option<Seq<char>>,
    boundary: ExtensionBoundary,
) -> Problem {
    fields::choice_problem(field, verification, fields::verifications()).otherwise(
        if verification == Some("none_for_local_only"@) && boundary
            != ExtensionBoundary::LocalDevelopment {
            Some(
                fields::invalid(
                    field,
                    "none_for_local_only is only allowed for local-development manifests"@,
                ),
            )
        } else {
            None
        },
    )
}

fn validate_verification(
    field: &'static str,
    verification: &Option<String>,
    boundary: ExtensionBoundary,
) -> (r: ExtensionValidationResult<()>)
    ensures
        checks::reports(r, verification_problem(field@, verification.deep_view(), boundary)),
{
    validate_optional_choice(field, verification, &verification_choices())?;
    let unverified = match verification {
        Some(text) => same_text(text.as_str(), "none_for_local_only"),
        None => false,
    };
    if unverified && boundary != ExtensionBoundary::LocalDevelopment {
        return Err(
            invalid_field(
                field,
                "none_for_local_only is only allowed for local-development manifests",
            ),
        );
    }
    Ok(())
}

/// The capabilities that a hook or webhook needs.
pub open spec fn capabilities_problem(field: Seq<char>, capabilities: Seq<Seq<char>>) -> Problem {
    checks::first_problem(
        fields::word_checks(field, capabilities),
        capabilities.len() as int,
    ).otherwise(
        checks::first_problem(fields::name_checks(capabilities), capabilities.len() as int),
    )
}

fn validate_capabilities(field: &'static str, capabilities: &Vec<String>) -> (r:
    ExtensionValidationResult<()>)
    ensures
        checks::reports(r, capabilities_problem(field@, capabilities.deep_view())),
{
    validate_string_list(field, capabilities)?;
    require_permission_names(capabilities)
}

pub open spec fn hook_ids(hooks: Seq<ExtensionHookDefinitionModel>) -> Seq<Seq<char>> {
    hooks.map_values(|hook: ExtensionHookDefinitionModel| hook.hook_id)
}

pub open spec fn hook_problem(
    m: ExtensionManifestModel,
    boundary: ExtensionBoundary,
    i: int,
) -> Problem {
    let h = m.hooks[i];
    fields::trimmed_problem("hooks.hook_id"@, h.hook_id).otherwise(
        if hook_ids(m.hooks).take(i).contains(h.hook_id) {
            Some(ExtensionValidationErrorModel::DuplicateHookDeclaration { hook_id: h.hook_id })
        } else {
            None
        },
    ).otherwise(fields::required_word_problem("hooks.trigger"@, h.trigger)).otherwise(
        verification_problem("hooks.verification"@, h.verification, boundary),
    ).otherwise(
        capabilities_problem("hooks.required_capabilities"@, h.required_capabilities),
    ).otherwise(
        fields::choice_problem("hooks.action"@, h.action, fields::hook_actions()),
    ).otherwise(
        fields::choice_problem("hooks.status"@, h.status, fields::trigger_statuses()),
    )
}

fn validate_hook(
    manifest: &ExtensionManifest,
    boundary: ExtensionBoundary,
    i: usize,
    seen: &Vec<String>,
) -> (r: ExtensionValidationResult<()>)
    requires
        i < manifest@.hooks.len(),
        seen.deep_view() == hook_ids(manifest@.hooks).take(i as int),
    ensures
        checks::reports(r, hook_problem(manifest@, boundary, i as int)),
{
    let h: &ExtensionHookDefinition = &manifest.hooks[i];
    assert(manifest@.hooks[i as int] == h@);
    require_trimmed_non_empty("hooks.hook_id", h.hook_id.as_str())?;
    if holds_text(seen, h.hook_id.as_str()) {
        return Err(
            ExtensionValidationError::DuplicateHookDeclaration { hook_id: h.hook_id.clone() },
        );
    }
    validate_required_string("hooks.trigger", &h.trigger)?;
    validate_verification("hooks.verification", &h.verification, boundary)?;
    validate_capabilities("hooks.required_capabilities", &h.required_capabilities)?;
    validate_optional_choice("hooks.action", &h.action, &hook_action_choices())?;
    validate_optional_choice("hooks.status", &h.status, &trigger_status_choices())
}

pub open spec fn hook_checks(m: ExtensionManifestModel, boundary: ExtensionBoundary) -> spec_fn(int) -> Problem {
    |i: int| hook_problem(m, boundary, i)
}

fn validate_each_hook(manifest: &ExtensionManifest, boundary: ExtensionBoundary) -> (r: ExtensionValidationResult<()>)
    ensures
        checks::reports(
            r,
            checks::first_problem(hook_checks(manifest@, boundary), manifest@.hooks.len() as int),
        ),
{
    let ghost checks = hook_checks(manifest@, boundary);
    let ghost items = manifest@.hooks;
    let mut seen: Vec<String> = Vec::new();
    let n: usize = manifest.hooks.len();
    assert(seen.deep_view() =~= hook_ids(items).take(0));
    let mut i: usize = 0;
    while i < n
        invariant
            i <= n == manifest.hooks.len(),
            items == manifest@.hooks,
            items == manifest.hooks.deep_view(),
            checks == hook_checks(manifest@, boundary),
            seen.deep_view() == hook_ids(items).take(i as int),
            checks::first_problem(checks, i as int) is None,
        decreases n - i,
    {
        assert(items[i as int] == manifest.hooks[i as int]@);
        match validate_hook(manifest, boundary, i, &seen) {
            Err(error) => {
                proof {
                    checks::lemma_first_problem(checks, i as int, n as int);
                }
                return Err(error);
            },
            Ok(_) => {},
        }
        let ghost before = seen.deep_view();
        seen.push(manifest.hooks[i].hook_id.clone());
        proof {
            assert(seen.deep_view() =~= before.push(hook_ids(items)[i as int]));
            assert(hook_ids(items).take(i + 1) =~= hook_ids(items).take(i as int).push(hook_ids(items)[i as int]));
        }
        i += 1;
    }
    Ok(())
}

/// The declared hooks.
#[verifier::opaque]
pub open spec fn hooks_problem(
    m: ExtensionManifestModel,
    boundary: ExtensionBoundary,
) -> Problem {
    type_problem(
        m.hooks.len() > 0,
        m.types.contains(ExtensionKind::HookProvider),
        "hook declarations require type hook_provider"@,
    ).otherwise(checks::first_problem(hook_checks(m, boundary), m.hooks.len() as int))
}

pub fn validate_hooks(manifest: &ExtensionManifest, boundary: ExtensionBoundary) -> (r:
    ExtensionValidationResult<()>)
    ensures
        checks::reports(r, hooks_problem(manifest@, boundary)),
{
    reveal(hooks_problem);
    if manifest.hooks.len() > 0 && !holds_kind(&manifest.types, ExtensionKind::HookProvider) {
        return Err(invalid_field("types", "hook declarations require type hook_provider"));
    }
    validate_each_hook(manifest, boundary)
}

pub open spec fn webhook_ids(webhooks: Seq<ExtensionWebhookDefinitionModel>) -> Seq<Seq<char>> {
    webhooks.map_values(|webhook: ExtensionWebhookDefinitionModel| webhook.webhook_id)
}

pub open spec fn webhook_problem(
    m: ExtensionManifestModel,
    boundary: ExtensionBoundary,
    i: int,
) -> Problem {
    let w = m.webhooks[i];
    fields::trimmed_problem("webhooks.webhook_id"@, w.webhook_id).otherwise(
        if webhook_ids(m.webhooks).take(i).contains(w.webhook_id) {
            Some(
                ExtensionValidationErrorModel::DuplicateWebhookDeclaration {
                    webhook_id: w.webhook_id,
                },
            )
        } else {
            None
        },
    ).otherwise(
        fields::choice_problem("webhooks.source"@, w.source, fields::webhook_sources()),
    ).otherwise(fields::required_word_problem("webhooks.event"@, w.event)).otherwise(
        fields::endpoint_problem("webhooks.endpoint"@, w.endpoint),
    ).otherwise(
        verification_problem("webhooks.verification"@, w.verification, boundary),
    ).otherwise(
        capabilities_problem("webhooks.required_capabilities"@, w.required_capabilities),
    ).otherwise(
        fields::choice_problem("webhooks.status"@, w.status, fields::trigger_statuses()),
    )
}

fn validate_webhook(
    manifest: &ExtensionManifest,
    boundary: ExtensionBoundary,
    i: usize,
    seen: &Vec<String>,
) -> (r: ExtensionValidationResult<()>)
    requires
        i < manifest@.webhooks.len(),
        seen.deep_view() == webhook_ids(manifest@.webhooks).take(i as int),
    ensures
        checks::reports(r, webhook_problem(manifest@, boundary, i as int)),
{
    let w: &ExtensionWebhookDefinition = &manifest.webhooks[i];
    assert(manifest@.webhooks[i as int] == w@);
    require_trimmed_non_empty("webhooks.webhook_id", w.webhook_id.as_str())?;
    if holds_text(seen, w.webhook_id.as_str()) {
        return Err(
            ExtensionValidationError::DuplicateWebhookDeclaration {
                webhook_id: w.webhook_id.clone(),
            },
        );
    }
    validate_optional_choice("webhooks.source", &w.source, &webhook_source_choices())?;
    validate_required_string("webhooks.event", &w.event)?;
    validate_http_endpoint("webhooks.endpoint", &w.endpoint)?;
    validate_verification("webhooks.verification", &w.verification, boundary)?;
    validate_capabilities("webhooks.required_capabilities", &w.required_capabilities)?;
    validate_optional_choice("webhooks.status", &w.status, &trigger_status_choices())
}

pub open spec fn webhook_checks(m: ExtensionManifestModel, boundary: ExtensionBoundary) -> spec_fn(int) -> Problem {
    |i: int| webhook_problem(m, boundary, i)
}

fn validate_each_webhook(manifest: &ExtensionManifest, boundary: ExtensionBoundary) -> (r: ExtensionValidationResult<()>)
    ensures
        checks::reports(
            r,
            checks::first_problem(webhook_checks(manifest@, boundary), manifest@.webhooks.len() as int),
        ),
{
    let ghost checks = webhook_checks(manifest@, boundary);
    let ghost items = manifest@.webhooks;
    let mut seen: Vec<String> = Vec::new();
    let n: usize = manifest.webhooks.len();
    assert(seen.deep_view() =~= webhook_ids(items).take(0));
    let mut i: usize = 0;
    while i < n
        invariant
            i <= n == manifest.webhooks.len(),
            items == manifest@.webhooks,
            items == manifest.webhooks.deep_view(),
            checks == webhook_checks(manifest@, boundary),
            seen.deep_view() == webhook_ids(items).take(i as int),
            checks::first_problem(checks, i as int) is None,
        decreases n - i,
    {
        assert(items[i as int] == manifest.webhooks[i as int]@);
        match validate_webhook(manifest, boundary, i, &seen) {
            Err(error) => {
                proof {
                    checks::lemma_first_problem(checks, i as int, n as int);
                }
                return Err(error);
            },
            Ok(_) => {},
        }
        let ghost before = seen.deep_view();
        seen.push(manifest.webhooks[i].webhook_id.clone());
        proof {
            assert(seen.deep_view() =~= before.push(webhook_ids(items)[i as int]));
            assert(webhook_ids(items).take(i + 1) =~= webhook_ids(items).take(i as int).push(webhook_ids(items)[i as int]));
        }
        i += 1;
    }
    Ok(())
}

/// The declared webhooks.
#[verifier::opaque]
pub open spec fn webhooks_problem(
    m: ExtensionManifestModel,
    boundary: ExtensionBoundary,
) -> Problem {
    type_problem(
        m.webhooks.len() > 0,
        m.types.contains(ExtensionKind::WebhookReceiver),
        "webhook declarations require type webhook_receiver"@,
    ).otherwise(checks::first_problem(webhook_checks(m, boundary), m.webhooks.len() as int))
}

pub fn validate_webhooks(manifest: &ExtensionManifest, boundary: ExtensionBoundary) -> (r:
    ExtensionValidationResult<()>)
    ensures
        checks::reports(r, webhooks_problem(manifest@, boundary)),
{
    reveal(webhooks_problem);
    if manifest.webhooks.len() > 0 && !holds_kind(&manifest.types, ExtensionKind::WebhookReceiver) {
        return Err(invalid_field("types", "webhook declarations require type webhook_receiver"));
    }
    validate_each_webhook(manifest, boundary)
}

pub open spec fn attachment_checks(m: ExtensionManifestModel) -> spec_fn(int) -> Problem {
    |i: int|
        fields::namespace_problem(
            "composition.attachments.extension_id"@,
            m.composition.attachments[i].extension_id,
        )
}

/// The extensions that this one attaches to.
#[verifier::opaque]
pub open spec fn composition_problem(m: ExtensionManifestModel) -> Problem {
    checks::first_problem(attachment_checks(m), m.composition.attachments.len() as int)
}

pub fn validate_composition(manifest: &ExtensionManifest) -> (r: ExtensionValidationResult<()>)
    ensures
        checks::reports(r, composition_problem(manifest@)),
{
    reveal(composition_problem);
    let ghost checks = attachment_checks(manifest@);
    let n: usize = manifest.composition.attachments.len();
    let mut i: usize = 0;
    while i < n
        invariant
            i <= n == manifest.composition.attachments.len(),
            checks == attachment_checks(manifest@),
            checks::first_problem(checks, i as int) is None,
        decreases n - i,
    {
        let attachment = &manifest.composition.attachments[i];
        assert(manifest@.composition.attachments[i as int] == attachment@);
        match require_reverse_dns_id(
            "composition.attachments.extension_id",
            attachment.extension_id.as_str(),
        ) {
            Err(error) => {
                proof {
                    reveal(composition_problem);
                    checks::lemma_first_problem(checks, i as int, n as int);
                }
                return Err(error);
            },
            Ok(_) => {},
        }
        i += 1;
    }
    Ok(())
}

pub open spec fn migration_checks(m: ExtensionManifestModel) -> spec_fn(int) -> Problem {
    |i: int| fields::version_problem("migration.from"@, m.migration.from[i])
}

/// The versions that this one can take over from.
#[verifier::opaque]
pub open spec fn migration_problem(m: ExtensionManifestModel) -> Problem {
    checks::first_problem(migration_checks(m), m.migration.from.len() as int)
}

pub fn validate_migration(manifest: &ExtensionManifest) -> (r: ExtensionValidationResult<()>)
    ensures
        checks::reports(r, migration_problem(manifest@)),
{
    reveal(migration_problem);
    let ghost checks = migration_checks(manifest@);
    let n: usize = manifest.migration.from.len();
    let mut i: usize = 0;
    while i < n
        invariant
            i <= n == manifest.migration.from.len(),
            checks == migration_checks(manifest@),
            checks::first_problem(checks, i as int) is None,
        decreases n - i,
    {
        let version = manifest.migration.from[i].as_str();
        assert(manifest@.migration.from[i as int] == version@);
        match require_semver("migration.from", version) {
            Err(error) => {
                proof {
                    reveal(migration_problem);
                    checks::lemma_first_problem(checks, i as int, n as int);
                }
                return Err(error);
            },
            Ok(_) => {},
        }
        i += 1;
    }
    Ok(())
}

} // verus!

//! What makes a manifest acceptable: the checks of a manifest in the order in which they
//! are made, the first objection being the one reported.
use vstd::prelude::*;

use crate::checks;
use crate::checks::Objection;
use crate::extensions::declarations;
use crate::extensions::declarations::{
    validate_composition, validate_hooks, validate_migration, validate_permissions,
    validate_services, validate_tool_output, validate_tools, validate_webhooks,
};
use crate::extensions::fields;
use crate::extensions::fields::{
    has_non_empty_trimmed, invalid_field, require_digest, require_non_empty,
    require_reverse_dns_id, require_semver, unproven_field, Problem,
};
use crate::extensions::manifest::{
    ExtensionBoundary, ExtensionLineage, ExtensionLineageModel, ExtensionManifest,
    ExtensionManifestModel, ExtensionProvenance, ExtensionProvenanceModel,
    ExtensionPublicationVisibility, ExtensionRealm, ExtensionRegistrySubmission, ExtensionRuntime,
    ExtensionValidationError, ExtensionValidationErrorModel, ExtensionValidationResult,
    ManifestValidationPolicy, ManifestValidationPolicyModel, ProvenanceSource,
    ValidatedExtensionManifest, EXTENSION_MANIFEST_SCHEMA, EXTENSION_RPC_PROTOCOL,
};
use crate::text::{same_text, starts_with};

verus! {

pub open spec fn outside_boundary(reason: Seq<char>) -> ExtensionValidationErrorModel {
    ExtensionValidationErrorModel::BoundaryViolation { reason }
}

pub open spec fn unsupported(
    runtime: ExtensionRuntime,
    reason: Seq<char>,
) -> ExtensionValidationErrorModel {
    ExtensionValidationErrorModel::UnsupportedRuntime { runtime, reason }
}

fn boundary_violation(reason: &str) -> (r: ExtensionValidationError)
    ensures
        r@ == outside_boundary(reason@),
{
    ExtensionValidationError::BoundaryViolation { reason: reason.to_owned() }
}

fn unsupported_runtime(runtime: ExtensionRuntime, reason: &str) -> (r: ExtensionValidationError)
    ensures
        r@ == unsupported(runtime, reason@),
{
    ExtensionValidationError::UnsupportedRuntime { runtime, reason: reason.to_owned() }
}

/// Identity and description.
#[verifier::opaque]
pub open spec fn identity_problem(m: ExtensionManifestModel) -> Problem {
    schema_problem(m.schema).otherwise(fields::empty_problem("id"@, m.id)).otherwise(
        fields::namespace_problem("id"@, m.id),
    ).otherwise(fields::empty_problem("name"@, m.name)).otherwise(
        fields::empty_problem("version"@, m.version),
    ).otherwise(fields::version_problem("version"@, m.version)).otherwise(
        fields::empty_problem("publisher.name"@, m.publisher.name),
    ).otherwise(fields::empty_problem("description"@, m.description)).otherwise(
        fields::empty_problem(
            "compatibility.atelia_protocol"@,
            m.compatibility.atelia_protocol,
        ),
    ).otherwise(
        fields::empty_problem(
            "compatibility.atelia_secretary"@,
            m.compatibility.atelia_secretary,
        ),
    ).otherwise(
        if m.types.len() == 0 {
            Some(fields::missing("types"@))
        } else {
            None
        },
    )
}

pub open spec fn schema_problem(schema: Seq<char>) -> Problem {
    if schema != EXTENSION_MANIFEST_SCHEMA@ {
        Some(
            ExtensionValidationErrorModel::InvalidSchema {
                expected: EXTENSION_MANIFEST_SCHEMA@,
                found: schema,
            },
        )
    } else {
        None
    }
}

fn validate_identity(manifest: &ExtensionManifest) -> (r: ExtensionValidationResult<()>)
    ensures
        checks::reports(r, identity_problem(manifest@)),
{
    reveal(identity_problem);
    if !same_text(manifest.schema.as_str(), EXTENSION_MANIFEST_SCHEMA) {
        return Err(
            ExtensionValidationError::InvalidSchema {
                expected: EXTENSION_MANIFEST_SCHEMA,
                found: manifest.schema.clone(),
            },
        );
    }
    require_non_empty("id", manifest.id.as_str())?;
    require_reverse_dns_id("id", manifest.id.as_str())?;
    require_non_empty("name", manifest.name.as_str())?;
    require_non_empty("version", manifest.version.as_str())?;
    require_semver("version", manifest.version.as_str())?;
    require_non_empty("publisher.name", manifest.publisher.name.as_str())?;
    require_non_empty("description", manifest.description.as_str())?;
    require_non_empty(
        "compatibility.atelia_protocol",
        manifest.compatibility.atelia_protocol.as_str(),
    )?;
    require_non_empty(
        "compatibility.atelia_secretary",
        manifest.compatibility.atelia_secretary.as_str(),
    )?;
    if manifest.types.len() == 0 {
        return Err(ExtensionValidationError::MissingField { field: "types" });
    }
    Ok(())
}

/// On whose authority a manifest stands: its source and its namespace must agree.
pub open spec fn boundary_of(
    m: ExtensionManifestModel,
    policy: ManifestValidationPolicyModel,
) -> Result<ExtensionBoundary, ExtensionValidationErrorModel> {
    let official = crate::text::has_prefix(m.id, policy.official_id_prefix);
    let local = crate::text::has_prefix(m.id, policy.local_id_prefix);
    if m.provenance.source == ProvenanceSource::Local {
        if local {
            Ok(ExtensionBoundary::LocalDevelopment)
        } else {
            Err(
                outside_boundary(
                    "local extensions must use the "@ + policy.local_id_prefix
                        + " id namespace"@,
                ),
            )
        }
    } else if official {
        if m.provenance.registry_identity == Some(policy.official_registry_identity) {
            Ok(ExtensionBoundary::Official)
        } else {
            Err(
                outside_boundary(
                    "official extensions must be issued by the official registry identity"@,
                ),
            )
        }
    } else if local {
        Err(outside_boundary("non-local extensions cannot use the local id namespace"@))
    } else {
        Ok(ExtensionBoundary::ThirdParty)
    }
}

fn is_text(value: &Option<String>, text: &str) -> (r: bool)
    ensures
        r == (value.deep_view() == Some(text@)),
{
    match value {
        Some(found) => same_text(found.as_str(), text),
        None => false,
    }
}

fn classify_boundary(manifest: &ExtensionManifest, policy: &ManifestValidationPolicy) -> (r:
    ExtensionValidationResult<ExtensionBoundary>)
    ensures
        match r {
            Ok(boundary) => boundary_of(manifest@, policy@) == Ok::<_, ExtensionValidationErrorModel>(
                boundary,
            ),
            Err(error) => boundary_of(manifest@, policy@) == Err::<ExtensionBoundary, _>(error@),
        },
{
    let official = starts_with(manifest.id.as_str(), policy.official_id_prefix.as_str());
    let local = starts_with(manifest.id.as_str(), policy.local_id_prefix.as_str());
    match manifest.provenance.source {
        ProvenanceSource::Local => {
            if !local {
                let reason = "local extensions must use the ".to_owned().concat(
                    policy.local_id_prefix.as_str(),
                ).concat(" id namespace");
                return Err(ExtensionValidationError::BoundaryViolation { reason });
            }
            Ok(ExtensionBoundary::LocalDevelopment)
        },
        ProvenanceSource::Registry | ProvenanceSource::Github => {
            if official {
                if !is_text(
                    &manifest.provenance.registry_identity,
                    policy.official_registry_identity.as_str(),
                ) {
                    return Err(
                        boundary_violation(
                            "official extensions must be issued by the official registry identity",
                        ),
                    );
                }
                return Ok(ExtensionBoundary::Official);
            }
            if local {
                return Err(
                    boundary_violation("non-local extensions cannot use the local id namespace"),
                );
            }
            Ok(ExtensionBoundary::ThirdParty)
        },
    }
}

/// How the extension is started: a wasm module, or a process where the host lets local
/// development run one.
#[verifier::opaque]
pub open spec fn entrypoint_problem(
    m: ExtensionManifestModel,
    boundary: ExtensionBoundary,
    policy: ManifestValidationPolicyModel,
) -> Problem {
    let entry = m.entrypoints;
    if entry.realm != ExtensionRealm::Backend {
        Some(
            unsupported(entry.runtime, "this registry slice only accepts backend extensions"@),
        )
    } else if entry.protocol != EXTENSION_RPC_PROTOCOL@ {
        Some(
            fields::invalid("entrypoints.protocol"@, "expected "@ + EXTENSION_RPC_PROTOCOL@),
        )
    } else {
        match entry.runtime {
            ExtensionRuntime::WasmRust | ExtensionRuntime::Wasm => if fields::has_content(
                entry.wasm,
            ) {
                None
            } else {
                Some(fields::missing("entrypoints.wasm"@))
            },
            ExtensionRuntime::Process => if boundary != ExtensionBoundary::LocalDevelopment
                || !policy.allow_local_process_runtime {
                Some(
                    unsupported(
                        ExtensionRuntime::Process,
                        "process runtime is local-development only and must be explicitly enabled"@,
                    ),
                )
            } else if fields::has_content(entry.command) {
                None
            } else {
                Some(fields::missing("entrypoints.command"@))
            },
            _ => Some(
                unsupported(
                    entry.runtime,
                    "first backend slice supports wasm-rust, wasm, and explicit local process development only"@,
                ),
            ),
        }
    }
}

fn validate_entrypoint(
    manifest: &ExtensionManifest,
    boundary: ExtensionBoundary,
    policy: &ManifestValidationPolicy,
) -> (r: ExtensionValidationResult<()>)
    ensures
        checks::reports(r, entrypoint_problem(manifest@, boundary, policy@)),
{
    reveal(entrypoint_problem);
    let entry = &manifest.entrypoints;
    if entry.realm != ExtensionRealm::Backend {
        return Err(
            unsupported_runtime(
                entry.runtime,
                "this registry slice only accepts backend extensions",
            ),
        );
    }
    if !same_text(entry.protocol.as_str(), EXTENSION_RPC_PROTOCOL) {
        let reason = "expected ".to_owned().concat(EXTENSION_RPC_PROTOCOL);
        return Err(
            ExtensionValidationError::InvalidField { field: "entrypoints.protocol", reason },
        );
    }
    match entry.runtime {
        ExtensionRuntime::WasmRust | ExtensionRuntime::Wasm => {
            if !has_non_empty_trimmed(&entry.wasm) {
                return Err(ExtensionValidationError::MissingField { field: "entrypoints.wasm" });
            }
        },
        ExtensionRuntime::Process => {
            if boundary != ExtensionBoundary::LocalDevelopment
                || !policy.allow_local_process_runtime {
                return Err(
                    unsupported_runtime(
                        ExtensionRuntime::Process,
                        "process runtime is local-development only and must be explicitly enabled",
                    ),
                );
            }
            if !has_non_empty_trimmed(&entry.command) {
                return Err(
                    ExtensionValidationError::MissingField { field: "entrypoints.command" },
                );
            }
        },
        ExtensionRuntime::Docker | ExtensionRuntime::Remote | ExtensionRuntime::SwiftClient => {
            return Err(
                unsupported_runtime(
                    entry.runtime,
                    "first backend slice supports wasm-rust, wasm, and explicit local process development only",
                ),
            );
        },
    }
    Ok(())
}

/// Who vouches for the package.
pub open spec fn signature_problem(
    p: ExtensionProvenanceModel,
    boundary: ExtensionBoundary,
    policy: ManifestValidationPolicyModel,
) -> Problem {
    let signed = fields::has_content(p.signature);
    let signer_named = fields::has_content(p.signer);
    if boundary == ExtensionBoundary::LocalDevelopment {
        if !(signed && signer_named) && !policy.allow_local_unsigned {
            Some(
                fields::unproven(
                    "provenance.signature"@,
                    "local unsigned extensions require explicit dev-mode approval"@,
                ),
            )
        } else {
            None
        }
    } else if !signed {
        Some(
            fields::unproven("provenance.signature"@, "non-local extensions must be signed"@),
        )
    } else if !signer_named {
        Some(
            fields::unproven(
                "provenance.signer"@,
                "non-local extensions must identify a signer"@,
            ),
        )
    } else {
        None
    }
}

fn validate_signature(
    provenance: &ExtensionProvenance,
    boundary: ExtensionBoundary,
    policy: &ManifestValidationPolicy,
) -> (r: ExtensionValidationResult<()>)
    ensures
        checks::reports(r, signature_problem(provenance@, boundary, policy@)),
{
    let signed = has_non_empty_trimmed(&provenance.signature);
    let signer_named = has_non_empty_trimmed(&provenance.signer);
    match boundary {
        ExtensionBoundary::LocalDevelopment => {
            if (!signed || !signer_named) && !policy.allow_local_unsigned {
                return Err(
                    unproven_field(
                        "provenance.signature",
                        "local unsigned extensions require explicit dev-mode approval",
                    ),
                );
            }
        },
        ExtensionBoundary::Official | ExtensionBoundary::ThirdParty => {
            if !signed {
                return Err(
                    unproven_field("provenance.signature", "non-local extensions must be signed"),
                );
            }
            if !signer_named {
                return Err(
                    unproven_field(
                        "provenance.signer",
                        "non-local extensions must identify a signer",
                    ),
                );
            }
        },
    }
    Ok(())
}

/// Where the package comes from.
pub open spec fn source_problem(p: ExtensionProvenanceModel) -> Problem {
    match p.source {
        ProvenanceSource::Github => if !fields::has_content(p.repository) {
            Some(
                fields::unproven(
                    "provenance.repository"@,
                    "github-sourced extensions must declare a repository"@,
                ),
            )
        } else if !fields::has_content(p.source_ref) {
            Some(
                fields::unproven(
                    "provenance.ref"@,
                    "github-sourced extensions must declare a ref"@,
                ),
            )
        } else if !fields::has_content(p.manifest_path) {
            Some(
                fields::unproven(
                    "provenance.manifest_path"@,
                    "github-sourced extensions must declare a manifest path"@,
                ),
            )
        } else if !fields::has_content(p.commit) {
            Some(
                fields::unproven(
                    "provenance.commit"@,
                    "github-sourced extensions must declare a commit"@,
                ),
            )
        } else {
            None
        },
        ProvenanceSource::Registry => if !fields::has_content(p.registry_identity) {
            Some(
                fields::unproven(
                    "provenance.registry_identity"@,
                    "registry-sourced extensions must declare registry identity"@,
                ),
            )
        } else {
            None
        },
        ProvenanceSource::Local => None,
    }
}

fn validate_source(provenance: &ExtensionProvenance) -> (r: ExtensionValidationResult<()>)
    ensures
        checks::reports(r, source_problem(provenance@)),
{
    match provenance.source {
        ProvenanceSource::Github => {
            if !has_non_empty_trimmed(&provenance.repository) {
                return Err(
                    unproven_field(
                        "provenance.repository",
                        "github-sourced extensions must declare a repository",
                    ),
                );
            }
            if !has_non_empty_trimmed(&provenance.source_ref) {
                return Err(
                    unproven_field(
                        "provenance.ref",
                        "github-sourced extensions must declare a ref",
                    ),
                );
            }
            if !has_non_empty_trimmed(&provenance.manifest_path) {
                return Err(
                    unproven_field(
                        "provenance.manifest_path",
                        "github-sourced extensions must declare a manifest path",
                    ),
                );
            }
            if !has_non_empty_trimmed(&provenance.commit) {
                return Err(
                    unproven_field(
                        "provenance.commit",
                        "github-sourced extensions must declare a commit",
                    ),
                );
            }
        },
        ProvenanceSource::Registry => {
            if !has_non_empty_trimmed(&provenance.registry_identity) {
                return Err(
                    unproven_field(
                        "provenance.registry_identity",
                        "registry-sourced extensions must declare registry identity",
                    ),
                );
            }
        },
        ProvenanceSource::Local => {},
    }
    Ok(())
}

/// What the package was derived from.
pub open spec fn lineage_problem(lineage: Option<ExtensionLineageModel>) -> Problem {
    match lineage {
        None => None,
        Some(l) => fields::namespace_problem("provenance.lineage.parent_id"@, l.parent_id).otherwise(
            match l.parent_version {
                Some(version) => fields::version_problem(
                    "provenance.lineage.parent_version"@,
                    version,
                ),
                None => None,
            },
        ).otherwise(
            match l.parent_manifest_digest {
                Some(digest) => fields::digest_problem(
                    "provenance.lineage.parent_manifest_digest"@,
                    digest,
                ),
                None => None,
            },
        ),
    }
}

fn validate_lineage(lineage: &Option<ExtensionLineage>) -> (r: ExtensionValidationResult<()>)
    ensures
        checks::reports(r, lineage_problem(lineage.deep_view())),
{
    match lineage {
        None => {},
        Some(lineage) => {
            require_reverse_dns_id("provenance.lineage.parent_id", lineage.parent_id.as_str())?;
            match &lineage.parent_version {
                Some(version) => require_semver(
                    "provenance.lineage.parent_version",
                    version.as_str(),
                )?,
                None => {},
            }
            match &lineage.parent_manifest_digest {
                Some(digest) => require_digest(
                    "provenance.lineage.parent_manifest_digest",
                    digest.as_str(),
                )?,
                None => {},
            }
        },
    }
    Ok(())
}

/// How the package may be found and shared.
#[verifier::opaque]
pub open spec fn publication_problem(
    p: ExtensionProvenanceModel,
    boundary: ExtensionBoundary,
    policy: ManifestValidationPolicyModel,
) -> Problem {
    match p.publication {
        None => None,
        Some(publication) => {
            let submission = publication.registry_submission;
            let submission_field = "provenance.publication.registry_submission"@;
            let identity_field = "provenance.registry_identity"@;
            match publication.visibility {
                ExtensionPublicationVisibility::PrivateRemix => if submission
                    != ExtensionRegistrySubmission::NotSubmitted {
                    Some(
                        fields::invalid(
                            submission_field,
                            "private remixes must not claim registry submission"@,
                        ),
                    )
                } else {
                    None
                },
                ExtensionPublicationVisibility::UnlistedShare => if submission
                    == ExtensionRegistrySubmission::Rejected {
                    Some(
                        fields::invalid(
                            submission_field,
                            "unlisted shares cannot rely on rejected registry submission"@,
                        ),
                    )
                } else if submission != ExtensionRegistrySubmission::NotSubmitted
                    && !fields::has_content(p.registry_identity) {
                    Some(
                        fields::unproven(
                            identity_field,
                            "registry-submitted unlisted shares must declare registry identity"@,
                        ),
                    )
                } else {
                    None
                },
                ExtensionPublicationVisibility::PublicSearchable => if boundary
                    == ExtensionBoundary::LocalDevelopment {
                    Some(
                        outside_boundary(
                            "public searchable packages cannot use local-development package authority"@,
                        ),
                    )
                } else if !fields::has_content(p.registry_identity) {
                    Some(
                        fields::unproven(
                            identity_field,
                            "public packages must declare registry identity"@,
                        ),
                    )
                } else if submission == ExtensionRegistrySubmission::NotSubmitted || submission
                    == ExtensionRegistrySubmission::Rejected {
                    Some(
                        fields::invalid(
                            submission_field,
                            "public packages must be submitted or accepted by the registry"@,
                        ),
                    )
                } else {
                    None
                },
                ExtensionPublicationVisibility::Official => if boundary
                    != ExtensionBoundary::Official {
                    Some(
                        outside_boundary(
                            "official publication requires official package authority"@,
                        ),
                    )
                } else if p.registry_identity != Some(policy.official_registry_identity) {
                    Some(
                        outside_boundary(
                            "official publication must use the official registry identity"@,
                        ),
                    )
                } else if submission != ExtensionRegistrySubmission::Accepted {
                    Some(
                        fields::invalid(
                            submission_field,
                            "official packages must be accepted by the registry"@,
                        ),
                    )
                } else {
                    None
                },
            }
        },
    }
}

fn validate_publication(
    provenance: &ExtensionProvenance,
    boundary: ExtensionBoundary,
    policy: &ManifestValidationPolicy,
) -> (r: ExtensionValidationResult<()>)
    ensures
        checks::reports(r, publication_problem(provenance@, boundary, policy@)),
{
    reveal(publication_problem);
    let publication = match provenance.publication {
        None => {
            return Ok(());
        },
        Some(publication) => publication,
    };
    let submission = publication.registry_submission;
    match publication.visibility {
        ExtensionPublicationVisibility::PrivateRemix => {
            if submission != ExtensionRegistrySubmission::NotSubmitted {
                return Err(
                    invalid_field(
                        "provenance.publication.registry_submission",
                        "private remixes must not claim registry submission",
                    ),
                );
            }
        },
        ExtensionPublicationVisibility::UnlistedShare => {
            if submission == ExtensionRegistrySubmission::Rejected {
                return Err(
                    invalid_field(
                        "provenance.publication.registry_submission",
                        "unlisted shares cannot rely on rejected registry submission",
                    ),
                );
            }
            if (submission == ExtensionRegistrySubmission::Submitted || submission
                == ExtensionRegistrySubmission::Accepted) && !has_non_empty_trimmed(
                &provenance.registry_identity,
            ) {
                return Err(
                    unproven_field(
                        "provenance.registry_identity",
                        "registry-submitted unlisted shares must declare registry identity",
                    ),
                );
            }
        },
        ExtensionPublicationVisibility::PublicSearchable => {
            if boundary == ExtensionBoundary::LocalDevelopment {
                return Err(
                    boundary_violation(
                        "public searchable packages cannot use local-development package authority",
                    ),
                );
            }
            if !has_non_empty_trimmed(&provenance.registry_identity) {
                return Err(
                    unproven_field(
                        "provenance.registry_identity",
                        "public packages must declare registry identity",
                    ),
                );
            }
            if submission == ExtensionRegistrySubmission::NotSubmitted || submission
                == ExtensionRegistrySubmission::Rejected {
                return Err(
                    invalid_field(
                        "provenance.publication.registry_submission",
                        "public packages must be submitted or accepted by the registry",
                    ),
                );
            }
        },
        ExtensionPublicationVisibility::Official => {
            if boundary != ExtensionBoundary::Official {
                return Err(
                    boundary_violation("official publication requires official package authority"),
                );
            }
            if !is_text(
                &provenance.registry_identity,
                policy.official_registry_identity.as_str(),
            ) {
                return Err(
                    boundary_violation(
                        "official publication must use the official registry identity",
                    ),
                );
            }
            if submission != ExtensionRegistrySubmission::Accepted {
                return Err(
                    invalid_field(
                        "provenance.publication.registry_submission",
                        "official packages must be accepted by the registry",
                    ),
                );
            }
        },
    }
    Ok(())
}

/// Where the package comes from and who vouches for it.
#[verifier::opaque]
pub open spec fn provenance_problem(
    m: ExtensionManifestModel,
    boundary: ExtensionBoundary,
    policy: ManifestValidationPolicyModel,
) -> Problem {
    let p = m.provenance;
    fields::digest_problem("provenance.artifact_digest"@, p.artifact_digest).otherwise(
        fields::digest_problem("provenance.manifest_digest"@, p.manifest_digest),
    ).otherwise(signature_problem(p, boundary, policy)).otherwise(source_problem(p)).otherwise(
        lineage_problem(p.lineage),
    ).otherwise(publication_problem(p, boundary, policy))
}

fn validate_provenance(
    manifest: &ExtensionManifest,
    boundary: ExtensionBoundary,
    policy: &ManifestValidationPolicy,
) -> (r: ExtensionValidationResult<()>)
    ensures
        checks::reports(r, provenance_problem(manifest@, boundary, policy@)),
{
    reveal(provenance_problem);
    let provenance = &manifest.provenance;
    require_digest("provenance.artifact_digest", provenance.artifact_digest.as_str())?;
    require_digest("provenance.manifest_digest", provenance.manifest_digest.as_str())?;
    validate_signature(provenance, boundary, policy)?;
    validate_source(provenance)?;
    validate_lineage(&provenance.lineage)?;
    validate_publication(provenance, boundary, policy)
}

/// What stands behind the boundary of a manifest: how it starts, where it comes from and
/// what it declares.
pub open spec fn contents_problem(
    m: ExtensionManifestModel,
    boundary: ExtensionBoundary,
    policy: ManifestValidationPolicyModel,
) -> Problem {
    entrypoint_problem(m, boundary, policy).otherwise(
        provenance_problem(m, boundary, policy),
    ).otherwise(declarations::permissions_problem(m)).otherwise(
        declarations::tools_problem(m),
    ).otherwise(declarations::services_problem(m)).otherwise(
        declarations::tool_output_problem(m),
    ).otherwise(declarations::hooks_problem(m, boundary)).otherwise(
        declarations::webhooks_problem(m, boundary),
    ).otherwise(declarations::composition_problem(m)).otherwise(
        declarations::migration_problem(m),
    )
}

/// The verdict on a manifest: its boundary, or the first objection.
pub open spec fn verdict_on(
    m: ExtensionManifestModel,
    policy: ManifestValidationPolicyModel,
) -> Result<ExtensionBoundary, ExtensionValidationErrorModel> {
    match identity_problem(m) {
        Some(problem) => Err(problem),
        None => match boundary_of(m, policy) {
            Err(problem) => Err(problem),
            Ok(boundary) => match contents_problem(m, boundary, policy) {
                Some(problem) => Err(problem),
                None => Ok(boundary),
            },
        },
    }
}

impl ExtensionManifest {
    /// Checks the manifest against the host's policy.
    pub fn validate(&self, policy: &ManifestValidationPolicy) -> (r: ExtensionValidationResult<
        ValidatedExtensionManifest,
    >)
        ensures
            match r {
                Ok(validated) => verdict_on(self@, policy@) == Ok::<
                    _,
                    ExtensionValidationErrorModel,
                >(validated.boundary) && validated.manifest@ == self@,
                Err(error) => verdict_on(self@, policy@) == Err::<ExtensionBoundary, _>(error@),
            },
    {
        validate_identity(self)?;
        let boundary = classify_boundary(self, policy)?;
        validate_entrypoint(self, boundary, policy)?;
        validate_provenance(self, boundary, policy)?;
        validate_permissions(self)?;
        validate_tools(self)?;
        validate_services(self)?;
        validate_tool_output(self)?;
        validate_hooks(self, boundary)?;
        validate_webhooks(self, boundary)?;
        validate_composition(self)?;
        validate_migration(self)?;
        Ok(ValidatedExtensionManifest { manifest: self.clone(), boundary })
    }
}

} // verus!

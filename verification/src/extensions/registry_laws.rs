//! What the registry answers, by what it holds: whom blocklist entries cover, what a grant and
//! an installation say, and which extensions are shown.
use vstd::prelude::*;

use crate::extensions::manifest::{ExtensionManifestModel, ManifestValidationPolicyModel};
use crate::extensions::records::{
    BlockKeyModel, BlocklistEntryModel, ExtensionInstallRecordModel, ExtensionInstallStatus,
    ExtensionSourceSnapshotModel, ExtensionStatusSnapshotModel, InstallOptions, RegistryErrorModel,
    RegistryResult, ServiceCallRequestModel,
};
use crate::extensions::registry::ExtensionRegistryModel;
use crate::extensions::registry_model;
use crate::extensions::service;
use crate::extensions::snapshot::ExtensionRegistrySnapshotModel;
use crate::extensions::validation;
use crate::text_map;

verus! {

/// One text stands at the start of another.
pub open spec fn begins_with(text: Seq<char>, start: Seq<char>) -> bool {
    start.len() <= text.len() && forall|i: int|
        0 <= i < start.len() ==> #[trigger] text[i] == start[i]
}

/// The manifest declares the permission.
pub open spec fn declares(m: ExtensionManifestModel, permission: Seq<char>) -> bool {
    exists|i: int| 0 <= i < m.permissions.len() && (#[trigger] m.permissions[i]).0 == permission
}

/// A pattern that ends in a star covers exactly the manifests that declare a permission that
/// starts with what stands before the star.
pub proof fn law_starred_patterns_cover_by_prefix(m: ExtensionManifestModel, start: Seq<char>)
    ensures
        BlockKeyModel::PermissionPattern(start.push('*')).covers(m) <==> exists|
            permission: Seq<char>,
        | #[trigger]
            declares(m, permission) && begins_with(permission, start),
{
    let pattern = start.push('*');
    assert(pattern.last() == '*');
    assert(pattern.drop_last() =~= start);
    if BlockKeyModel::PermissionPattern(pattern).covers(m) {
        let i = choose|i: int|
            0 <= i < m.permissions.len() && crate::extensions::records::pattern_covers(
                pattern,
                (#[trigger] m.permissions[i]).0,
            );
        let permission = m.permissions[i].0;
        assert forall|k: int| 0 <= k < start.len() implies #[trigger] permission[k] == start[k] by {
            assert(permission.take(start.len() as int)[k] == permission[k]);
        }
        assert(declares(m, permission));
    }
    if exists|permission: Seq<char>| #[trigger]
        declares(m, permission) && begins_with(permission, start) {
        let permission = choose|permission: Seq<char>| #[trigger]
            declares(m, permission) && begins_with(permission, start);
        assert(permission.take(start.len() as int) =~= start);
        let i = choose|i: int|
            0 <= i < m.permissions.len() && (#[trigger] m.permissions[i]).0 == permission;
        assert(crate::extensions::records::pattern_covers(pattern, m.permissions[i].0));
    }
}

/// Any other pattern covers exactly the manifests that declare that very permission.
pub proof fn law_plain_patterns_cover_themselves(m: ExtensionManifestModel, pattern: Seq<char>)
    requires
        pattern.len() == 0 || pattern[pattern.len() - 1] != '*',
    ensures
        BlockKeyModel::PermissionPattern(pattern).covers(m) <==> declares(m, pattern),
{
    if declares(m, pattern) {
        let i = choose|i: int|
            0 <= i < m.permissions.len() && (#[trigger] m.permissions[i]).0 == pattern;
        assert(crate::extensions::records::pattern_covers(pattern, m.permissions[i].0));
    }
}

/// Keys by identifier, version and digest cover the manifests of just that identifier, of just
/// that version of it, and of just that artifact.
pub proof fn law_exact_keys_cover_exactly(
    m: ExtensionManifestModel,
    id: Seq<char>,
    version: Seq<char>,
    digest: Seq<char>,
)
    ensures
        BlockKeyModel::ExtensionId(id).covers(m) <==> m.id == id,
        (BlockKeyModel::Version { id, version }).covers(m) <==> m.id == id && m.version == version,
        BlockKeyModel::ArtifactDigest(digest).covers(m) <==> m.provenance.artifact_digest
            == digest,
        !BlockKeyModel::VulnerabilityId(id).covers(m),
{
}

/// A text that says something, with any white space around it.
pub open spec fn says(written: Seq<char>, meant: Seq<char>) -> bool {
    exists|before: Seq<char>, after: Seq<char>|
        {
            &&& #[trigger] crate::text_laws::all_white(before)
            &&& #[trigger] crate::text_laws::all_white(after)
            &&& written == before + meant + after
        }
}

proof fn lemma_says(written: Seq<char>, meant: Seq<char>)
    requires
        says(written, meant),
        crate::text_laws::bare(meant),
    ensures
        crate::text::trimmed(written) == meant,
{
    let (before, after) = choose|before: Seq<char>, after: Seq<char>|
        {
            &&& #[trigger] crate::text_laws::all_white(before)
            &&& #[trigger] crate::text_laws::all_white(after)
            &&& written == before + meant + after
        };
    crate::text_laws::law_trimming_takes_the_white_space_around(before, meant, after);
}

/// Keys by signer, publisher and source repository cover the manifests that name just that
/// one, white space around either name apart.
pub proof fn law_named_keys_cover_their_names(
    m: ExtensionManifestModel,
    written: Seq<char>,
    meant: Seq<char>,
    other: Seq<char>,
)
    requires
        says(written, meant),
        crate::text_laws::bare(meant),
        crate::text_laws::bare(other),
    ensures
        m.provenance.signer matches Some(signer) && says(signer, other) ==> (
        BlockKeyModel::Signer(written).covers(m) <==> other == meant),
        m.provenance.signer is None ==> !BlockKeyModel::Signer(written).covers(m),
        m.provenance.repository matches Some(repository) && says(repository, other) ==> (
        BlockKeyModel::SourceRepository(written).covers(m) <==> other == meant),
        m.provenance.repository is None ==> !BlockKeyModel::SourceRepository(written).covers(m),
        says(m.publisher.name, other) ==> (BlockKeyModel::Publisher(written).covers(m) <==> other
            == meant),
{
    lemma_says(written, meant);
    if m.provenance.signer is Some && says(m.provenance.signer->0, other) {
        lemma_says(m.provenance.signer->0, other);
    }
    if m.provenance.repository is Some && says(m.provenance.repository->0, other) {
        lemma_says(m.provenance.repository->0, other);
    }
    if says(m.publisher.name, other) {
        lemma_says(m.publisher.name, other);
    }
}

/// The entry is the first of the blocklist that covers the manifest.
pub open spec fn first_to_cover(
    blocklist: Seq<BlocklistEntryModel>,
    m: ExtensionManifestModel,
    i: int,
) -> bool {
    &&& 0 <= i < blocklist.len()
    &&& blocklist[i].key.covers(m)
    &&& forall|j: int| 0 <= j < i ==> !(#[trigger] blocklist[j]).key.covers(m)
}

proof fn lemma_first_hit(blocklist: Seq<BlocklistEntryModel>, m: ExtensionManifestModel, i: int)
    requires
        first_to_cover(blocklist, m, i),
    ensures
        registry_model::first_hit(blocklist, m) == Some(blocklist[i]),
    decreases blocklist.len(),
{
    if i > 0 {
        let rest = blocklist.drop_first();
        assert(!blocklist[0].key.covers(m));
        assert forall|j: int| 0 <= j < i - 1 implies !(#[trigger] rest[j]).key.covers(m) by {
            assert(rest[j] == blocklist[j + 1]);
        }
        lemma_first_hit(rest, m, i - 1);
    }
}

proof fn lemma_no_hit(blocklist: Seq<BlocklistEntryModel>, m: ExtensionManifestModel)
    requires
        forall|j: int| 0 <= j < blocklist.len() ==> !(#[trigger] blocklist[j]).key.covers(m),
    ensures
        registry_model::first_hit(blocklist, m) is None,
    decreases blocklist.len(),
{
    if blocklist.len() > 0 {
        let rest = blocklist.drop_first();
        assert(!blocklist[0].key.covers(m));
        assert forall|j: int| 0 <= j < rest.len() implies !(#[trigger] rest[j]).key.covers(m) by {
            assert(rest[j] == blocklist[j + 1]);
        }
        lemma_no_hit(rest, m);
    }
}

/// A manifest that is in order but covered by the blocklist is refused, by validation and by
/// installation, with the reason and the key of the first entry that covers it.
pub proof fn law_covered_manifests_are_refused_with_the_reason(
    r: ExtensionRegistryModel,
    m: ExtensionManifestModel,
    options: InstallOptions,
    i: int,
)
    requires
        first_to_cover(r.blocklist, m, i),
        validation::verdict_on(
            m,
            registry_model::policy_with(r.validation_policy, options),
        ) is Ok,
    ensures
        r.install(m, options) is Err,
        r.install(m, options)->Err_0 == (RegistryErrorModel::Blocked {
            extension_id: m.id,
            reason: r.blocklist[i].reason,
            key: r.blocklist[i].key,
        }),
        r.validate(m, options) is Err,
        r.validate(m, options)->Err_0 == r.install(m, options)->Err_0,
{
    lemma_first_hit(r.blocklist, m, i);
}

/// A manifest that no entry covers is not refused as blocked.
pub proof fn law_uncovered_manifests_are_not_blocked(
    r: ExtensionRegistryModel,
    m: ExtensionManifestModel,
    options: InstallOptions,
)
    requires
        forall|j: int| 0 <= j < r.blocklist.len() ==> !(#[trigger] r.blocklist[j]).key.covers(m),
    ensures
        r.install(m, options) is Err ==> !(r.install(m, options)->Err_0 is Blocked),
{
    lemma_no_hit(r.blocklist, m);
}

/// An entry is added at the end of the blocklist and changes nothing else; entries by
/// vulnerability, and only those, are refused.
pub proof fn law_entries_are_added_to_the_blocklist(
    r: ExtensionRegistryModel,
    entry: BlocklistEntryModel,
)
    ensures
        r.blocking(entry) is Err <==> entry.key is VulnerabilityId,
        r.blocking(entry) is Err ==> r.blocking(entry)->Err_0
            == (RegistryErrorModel::UnsupportedBlocklistKey { key: entry.key }),
        r.blocking(entry) matches Ok(after) ==> {
            &&& after.blocklist == r.blocklist.push(entry)
            &&& after.manifests == r.manifests
            &&& after.records == r.records
            &&& after.active_versions == r.active_versions
            &&& after.validation_policy == r.validation_policy
        },
{
}

/// The version of an extension that is active.
pub open spec fn is_active(
    r: ExtensionRegistryModel,
    extension_id: Seq<char>,
    version: Seq<char>,
) -> bool {
    text_map::value_of(r.active_versions, extension_id) == Some(version)
}

/// A grant names the caller, the callee, the service, the method and the schema of the
/// request, and of each side the version that is active.
pub proof fn law_grants_name_both_sides(
    r: ExtensionRegistryModel,
    request: ServiceCallRequestModel,
)
    requires
        r.authorize(request) is Ok,
    ensures
        ({
            let grant = r.authorize(request)->Ok_0;
            &&& grant.caller_extension_id == request.caller_extension_id
            &&& grant.callee_extension_id == request.callee_extension_id
            &&& grant.service == request.service
            &&& grant.method == request.method
            &&& grant.schema_version == request.schema_version
            &&& is_active(r, request.caller_extension_id, grant.caller_version)
            &&& is_active(r, request.callee_extension_id, grant.callee_version)
            &&& request.required_permission matches Some(asked) ==> grant.required_permission
                == asked
        }),
        r.coherent() ==> {
            let grant = r.authorize(request)->Ok_0;
            &&& r.active_manifest(request.caller_extension_id)->0.version == grant.caller_version
            &&& r.active_manifest(request.callee_extension_id)->0.version == grant.callee_version
        },
{
}

/// What the extension is ready for: calls, in the two states of being installed.
pub open spec fn is_ready(r: ExtensionRegistryModel, extension_id: Seq<char>) -> bool {
    exists|version: Seq<char>| #[trigger]
        is_active(r, extension_id, version) && {
            let record = text_map::entry_of(r.records, extension_id, version);
            &&& text_map::entry_of(r.manifests, extension_id, version) is Some
            &&& record is Some
            &&& record->0.status is Installed || record->0.status is InstalledPreviousVersion
        }
}

/// The caller's manifest asks for the service of the callee at place `i`, and not before.
pub open spec fn first_asked_at(
    m: ExtensionManifestModel,
    request: ServiceCallRequestModel,
    i: int,
) -> bool {
    let consumes = m.services.consumes;
    &&& 0 <= i < consumes.len()
    &&& consumes[i].extension_id == request.callee_extension_id
    &&& consumes[i].service == request.service
    &&& consumes[i].method == request.method
    &&& consumes[i].schema_version == request.schema_version
    &&& forall|j: int|
        0 <= j < i ==> !((#[trigger] consumes[j]).extension_id == request.callee_extension_id
            && consumes[j].service == request.service && consumes[j].method == request.method
            && consumes[j].schema_version == request.schema_version)
}

/// The callee's manifest offers the service at place `i`, and not before.
pub open spec fn first_offered_at(
    m: ExtensionManifestModel,
    request: ServiceCallRequestModel,
    i: int,
) -> bool {
    let provides = m.services.provides;
    &&& 0 <= i < provides.len()
    &&& provides[i].service == request.service
    &&& provides[i].method == request.method
    &&& provides[i].schema_version == request.schema_version
    &&& forall|j: int|
        0 <= j < i ==> !((#[trigger] provides[j]).service == request.service && provides[j].method
            == request.method && provides[j].schema_version == request.schema_version)
}

proof fn lemma_first_consumed(
    consumes: Seq<crate::extensions::manifest::ExtensionServiceDependencyModel>,
    request: ServiceCallRequestModel,
)
    ensures
        match registry_model::first_consumed(consumes, request) {
            Some(d) => exists|i: int|
                {
                    &&& 0 <= i < consumes.len()
                    &&& #[trigger] consumes[i] == d
                    &&& registry_model::consumes_requested(d, request)
                    &&& forall|j: int|
                        0 <= j < i ==> !registry_model::consumes_requested(
                            #[trigger] consumes[j],
                            request,
                        )
                },
            None => forall|j: int|
                0 <= j < consumes.len() ==> !registry_model::consumes_requested(
                    #[trigger] consumes[j],
                    request,
                ),
        },
    decreases consumes.len(),
{
    if consumes.len() > 0 && !registry_model::consumes_requested(consumes[0], request) {
        let rest = consumes.drop_first();
        lemma_first_consumed(rest, request);
        match registry_model::first_consumed(rest, request) {
            Some(d) => {
                let i = choose|i: int|
                    {
                        &&& 0 <= i < rest.len()
                        &&& #[trigger] rest[i] == d
                        &&& registry_model::consumes_requested(d, request)
                        &&& forall|j: int|
                            0 <= j < i ==> !registry_model::consumes_requested(
                                #[trigger] rest[j],
                                request,
                            )
                    };
                assert(consumes[i + 1] == d);
                assert forall|j: int| 0 <= j < i + 1 implies !registry_model::consumes_requested(
                    #[trigger] consumes[j],
                    request,
                ) by {
                    if j > 0 {
                        assert(rest[j - 1] == consumes[j]);
                    }
                }
            },
            None => {
                assert forall|j: int|
                    0 <= j < consumes.len() implies !registry_model::consumes_requested(
                    #[trigger] consumes[j],
                    request,
                ) by {
                    if j > 0 {
                        assert(rest[j - 1] == consumes[j]);
                    }
                }
            },
        }
    } else if consumes.len() > 0 {
        assert(consumes[0] == registry_model::first_consumed(consumes, request)->0);
    }
}

proof fn lemma_first_provided(
    provides: Seq<crate::extensions::manifest::ExtensionServiceDefinitionModel>,
    request: ServiceCallRequestModel,
)
    ensures
        match registry_model::first_provided(provides, request) {
            Some(d) => exists|i: int|
                {
                    &&& 0 <= i < provides.len()
                    &&& #[trigger] provides[i] == d
                    &&& registry_model::provides_requested(d, request)
                    &&& forall|j: int|
                        0 <= j < i ==> !registry_model::provides_requested(
                            #[trigger] provides[j],
                            request,
                        )
                },
            None => forall|j: int|
                0 <= j < provides.len() ==> !registry_model::provides_requested(
                    #[trigger] provides[j],
                    request,
                ),
        },
    decreases provides.len(),
{
    if provides.len() > 0 && !registry_model::provides_requested(provides[0], request) {
        let rest = provides.drop_first();
        lemma_first_provided(rest, request);
        match registry_model::first_provided(rest, request) {
            Some(d) => {
                let i = choose|i: int|
                    {
                        &&& 0 <= i < rest.len()
                        &&& #[trigger] rest[i] == d
                        &&& registry_model::provides_requested(d, request)
                        &&& forall|j: int|
                            0 <= j < i ==> !registry_model::provides_requested(
                                #[trigger] rest[j],
                                request,
                            )
                    };
                assert(provides[i + 1] == d);
                assert forall|j: int| 0 <= j < i + 1 implies !registry_model::provides_requested(
                    #[trigger] provides[j],
                    request,
                ) by {
                    if j > 0 {
                        assert(rest[j - 1] == provides[j]);
                    }
                }
            },
            None => {
                assert forall|j: int|
                    0 <= j < provides.len() implies !registry_model::provides_requested(
                    #[trigger] provides[j],
                    request,
                ) by {
                    if j > 0 {
                        assert(rest[j - 1] == provides[j]);
                    }
                }
            },
        }
    } else if provides.len() > 0 {
        assert(provides[0] == registry_model::first_provided(provides, request)->0);
    }
}

/// Some entry of the blocklist covers the manifest.
pub open spec fn is_covered(r: ExtensionRegistryModel, m: ExtensionManifestModel) -> bool {
    exists|i: int| 0 <= i < r.blocklist.len() && (#[trigger] r.blocklist[i]).key.covers(m)
}

proof fn lemma_covered(r: ExtensionRegistryModel, m: ExtensionManifestModel)
    ensures
        r.block_hit(m) is Some <==> is_covered(r, m),
{
    if is_covered(r, m) {
        let i = choose|i: int|
            0 <= i < r.blocklist.len() && (#[trigger] r.blocklist[i]).key.covers(m);
        lemma_hit_before(r.blocklist, m, i);
    } else {
        lemma_no_hit(r.blocklist, m);
    }
}

proof fn lemma_hit_before(blocklist: Seq<BlocklistEntryModel>, m: ExtensionManifestModel, i: int)
    requires
        0 <= i < blocklist.len(),
        blocklist[i].key.covers(m),
    ensures
        registry_model::first_hit(blocklist, m) is Some,
    decreases blocklist.len(),
{
    if i > 0 && !blocklist[0].key.covers(m) {
        lemma_hit_before(blocklist.drop_first(), m, i - 1);
    }
}

/// A call is authorized exactly where both extensions are ready and covered by no entry of
/// the blocklist, the caller asks for the service of the callee and the callee offers it, and
/// both declare the same permission, which is the one that was asked for, and describe it
/// alike.
pub proof fn law_calls_are_authorized_where_both_sides_agree(
    r: ExtensionRegistryModel,
    request: ServiceCallRequestModel,
)
    ensures
        r.authorize(request) is Ok <==> {
            let caller = r.active_manifest(request.caller_extension_id);
            let callee = r.active_manifest(request.callee_extension_id);
            &&& is_ready(r, request.caller_extension_id)
            &&& is_ready(r, request.callee_extension_id)
            &&& !is_covered(r, caller->0)
            &&& !is_covered(r, callee->0)
            &&& exists|i: int, j: int|
                {
                    let permission = callee->0.services.provides[j].required_permission;
                    &&& #[trigger] first_asked_at(caller->0, request, i)
                    &&& #[trigger] first_offered_at(callee->0, request, j)
                    &&& caller->0.services.consumes[i].required_permission == permission
                    &&& request.required_permission matches Some(asked) ==> asked == permission
                    &&& text_map::value_of(caller->0.permissions, permission) is Some
                    &&& text_map::value_of(caller->0.permissions, permission) == text_map::value_of(
                        callee->0.permissions,
                        permission,
                    )
                }
        },
{
    let caller_id = request.caller_extension_id;
    let callee_id = request.callee_extension_id;
    let caller = r.active_manifest(caller_id);
    let callee = r.active_manifest(callee_id);
    lemma_ready(r, caller_id, "caller"@);
    lemma_ready(r, callee_id, "callee"@);
    if caller is Some && callee is Some {
        lemma_covered(r, caller->0);
        lemma_covered(r, callee->0);
        let consumes = caller->0.services.consumes;
        let provides = callee->0.services.provides;
        lemma_first_consumed(consumes, request);
        lemma_first_provided(provides, request);
        if r.authorize(request) is Ok {
            let c = registry_model::first_consumed(consumes, request)->0;
            let p = registry_model::first_provided(provides, request)->0;
            let i = choose|i: int|
                {
                    &&& 0 <= i < consumes.len()
                    &&& #[trigger] consumes[i] == c
                    &&& registry_model::consumes_requested(c, request)
                    &&& forall|j: int|
                        0 <= j < i ==> !registry_model::consumes_requested(
                            #[trigger] consumes[j],
                            request,
                        )
                };
            let k = choose|i: int|
                {
                    &&& 0 <= i < provides.len()
                    &&& #[trigger] provides[i] == p
                    &&& registry_model::provides_requested(p, request)
                    &&& forall|j: int|
                        0 <= j < i ==> !registry_model::provides_requested(
                            #[trigger] provides[j],
                            request,
                        )
                };
            assert(first_asked_at(caller->0, request, i)) by {
                assert forall|j: int| 0 <= j < i implies !((#[trigger] consumes[j]).extension_id
                    == request.callee_extension_id && consumes[j].service == request.service
                    && consumes[j].method == request.method && consumes[j].schema_version
                    == request.schema_version) by {
                    assert(!registry_model::consumes_requested(consumes[j], request));
                }
            }
            assert(first_offered_at(callee->0, request, k)) by {
                assert forall|j: int| 0 <= j < k implies !((#[trigger] provides[j]).service
                    == request.service && provides[j].method == request.method
                    && provides[j].schema_version == request.schema_version) by {
                    assert(!registry_model::provides_requested(provides[j], request));
                }
            }
        }
        assert forall|i: int, j: int|
            #[trigger] first_asked_at(caller->0, request, i) && #[trigger] first_offered_at(
                callee->0,
                request,
                j,
            ) implies registry_model::first_consumed(consumes, request) == Some(consumes[i])
            && registry_model::first_provided(provides, request) == Some(provides[j]) by {
            assert(registry_model::consumes_requested(consumes[i], request));
            assert(registry_model::provides_requested(provides[j], request));
            let c = registry_model::first_consumed(consumes, request)->0;
            let p = registry_model::first_provided(provides, request)->0;
            let a = choose|a: int|
                {
                    &&& 0 <= a < consumes.len()
                    &&& #[trigger] consumes[a] == c
                    &&& registry_model::consumes_requested(c, request)
                    &&& forall|b: int|
                        0 <= b < a ==> !registry_model::consumes_requested(
                            #[trigger] consumes[b],
                            request,
                        )
                };
            let d = choose|d: int|
                {
                    &&& 0 <= d < provides.len()
                    &&& #[trigger] provides[d] == p
                    &&& registry_model::provides_requested(p, request)
                    &&& forall|b: int|
                        0 <= b < d ==> !registry_model::provides_requested(
                            #[trigger] provides[b],
                            request,
                        )
                };
            assert(a == i);
            assert(d == j);
        }
    }
}

proof fn lemma_ready(r: ExtensionRegistryModel, extension_id: Seq<char>, role: Seq<char>)
    ensures
        is_ready(r, extension_id) <==> r.readiness_problem(extension_id, role) is None
            && r.active_manifest(extension_id) is Some,
{
    if r.readiness_problem(extension_id, role) is None && r.active_manifest(
        extension_id,
    ) is Some {
        assert(is_active(
            r,
            extension_id,
            text_map::value_of(r.active_versions, extension_id)->0,
        ));
    }
}

/// The record of an installation tells what the manifest says of itself, by its boundary, and
/// which version it took the place of.
pub proof fn law_records_tell_what_was_installed(
    r: ExtensionRegistryModel,
    m: ExtensionManifestModel,
    options: InstallOptions,
)
    requires
        r.install(m, options) is Ok,
    ensures
        ({
            let (after, record) = r.install(m, options)->Ok_0;
            &&& record.id == m.id
            &&& record.version == m.version
            &&& record.manifest_digest == m.provenance.manifest_digest
            &&& record.artifact_digest == m.provenance.artifact_digest
            &&& record.status is Installed
            &&& record.approved_permissions.len() == m.permissions.len()
            &&& forall|i: int|
                0 <= i < m.permissions.len() ==> #[trigger] record.approved_permissions[i]
                    == m.permissions[i].0
            &&& record.rollback_snapshot is Some
            &&& record.rollback_snapshot->0.manifest_digest == m.provenance.manifest_digest
            &&& record.rollback_snapshot->0.artifact_digest == m.provenance.artifact_digest
            &&& record.source.source == m.provenance.source
            &&& record.source.commit == m.provenance.commit
            &&& record.source.lineage == m.provenance.lineage
            &&& record.source.publication == m.provenance.publication
            &&& forall|active: Seq<char>| #[trigger]
                is_active(r, m.id, active) ==> record.previous_version == (if active == m.version {
                    None::<Seq<char>>
                } else {
                    Some(active)
                })
            &&& text_map::value_of(r.active_versions, m.id) is None ==> record.previous_version is None
            &&& is_active(after, m.id, m.version)
            &&& text_map::entry_of(after.manifests, m.id, m.version) == Some(m)
            &&& text_map::entry_of(after.records, m.id, m.version) == Some(record)
            &&& after.blocklist == r.blocklist
            &&& after.validation_policy == r.validation_policy
            &&& validation::verdict_on(
                m,
                registry_model::policy_with(r.validation_policy, options),
            ) == Ok::<_, crate::extensions::manifest::ExtensionValidationErrorModel>(
                record.boundary,
            )
        }),
{
    let (after, record) = r.install(m, options)->Ok_0;
    text_map::law_insert_then_get(r.active_versions, m.id, m.version, m.id);
    text_map::law_insert_in_then_get(r.manifests, m.id, m.version, m, m.id, m.version);
    text_map::law_insert_in_then_get(r.records, m.id, m.version, record, m.id, m.version);
}

/// Installing changes nothing of other extensions, nor of other versions of this one.
pub proof fn law_installing_leaves_the_rest_alone(
    r: ExtensionRegistryModel,
    m: ExtensionManifestModel,
    options: InstallOptions,
    id: Seq<char>,
    version: Seq<char>,
)
    requires
        r.install(m, options) is Ok,
        id != m.id || version != m.version,
    ensures
        ({
            let after = r.install(m, options)->Ok_0.0;
            &&& text_map::entry_of(after.manifests, id, version) == text_map::entry_of(
                r.manifests,
                id,
                version,
            )
            &&& text_map::entry_of(after.records, id, version) == text_map::entry_of(
                r.records,
                id,
                version,
            )
            &&& id != m.id ==> text_map::value_of(after.active_versions, id) == text_map::value_of(
                r.active_versions,
                id,
            )
        }),
{
    let record = r.install(m, options)->Ok_0.1;
    text_map::law_insert_then_get(r.active_versions, m.id, m.version, id);
    text_map::law_insert_in_then_get(r.manifests, m.id, m.version, m, id, version);
    text_map::law_insert_in_then_get(r.records, m.id, m.version, record, id, version);
}

/// A manifest is installed exactly where it is in order, no entry of the blocklist covers it,
/// the version, if it was installed before, had the same digests, and the source, if the
/// extension is active, is the same or its change approved.
pub proof fn law_manifests_are_installed_where_nothing_objects(
    r: ExtensionRegistryModel,
    m: ExtensionManifestModel,
    options: InstallOptions,
)
    ensures
        r.install(m, options) is Ok <==> {
            let known = text_map::entry_of(r.records, m.id, m.version);
            let current = r.active_record(m.id);
            &&& validation::verdict_on(
                m,
                registry_model::policy_with(r.validation_policy, options),
            ) is Ok
            &&& !is_covered(r, m)
            &&& known matches Some(record) ==> record.manifest_digest
                == m.provenance.manifest_digest && record.artifact_digest
                == m.provenance.artifact_digest
            &&& current is Some && options.approve_source_change != Some(true)
                ==> current->0.source.same_authority(
                ExtensionSourceSnapshotModel::of_provenance(m.provenance),
            )
        },
{
    lemma_covered(r, m);
}

/// Two sources are of one authority exactly where they are of one kind and lineage and name
/// the same repository, reference, path and registry; commit and publication do not matter.
pub proof fn law_authority_is_kind_place_and_lineage(
    a: ExtensionSourceSnapshotModel,
    b: ExtensionSourceSnapshotModel,
)
    requires
        a.repository == b.repository,
        a.source_ref == b.source_ref,
        a.manifest_path == b.manifest_path,
        a.registry_identity == b.registry_identity,
    ensures
        a.same_authority(b) <==> a.source == b.source && a.lineage == b.lineage,
{
}

/// A source that names another repository, reference, path or registry is of another
/// authority.
pub proof fn law_other_places_are_other_authorities(
    a: ExtensionSourceSnapshotModel,
    b: ExtensionSourceSnapshotModel,
    here: Seq<char>,
    there: Seq<char>,
)
    requires
        here.len() > 0,
        there.len() > 0,
        crate::text_laws::bare(here),
        crate::text_laws::bare(there),
        here != there,
    ensures
        a.repository == Some(here) && b.repository == Some(there) ==> !a.same_authority(b),
        a.source_ref == Some(here) && b.source_ref == Some(there) ==> !a.same_authority(b),
        a.manifest_path == Some(here) && b.manifest_path == Some(there) ==> !a.same_authority(b),
        a.registry_identity == Some(here) && b.registry_identity == Some(there)
            ==> !a.same_authority(b),
        a.repository == Some(here) && b.repository is None ==> !a.same_authority(b),
        a.registry_identity == Some(here) && b.registry_identity is None ==> !a.same_authority(b),
{
    let none = Seq::<char>::empty();
    assert(none + here + none =~= here);
    assert(none + there + none =~= there);
    crate::text_laws::law_trimming_takes_the_white_space_around(none, here, none);
    crate::text_laws::law_trimming_takes_the_white_space_around(none, there, none);
}

/// What the options approve counts instead of the policy's own word; what they leave open
/// does not change it, and the rest of the policy stays.
pub proof fn law_options_overrule_the_policy(
    policy: ManifestValidationPolicyModel,
    options: InstallOptions,
)
    ensures
        ({
            let p = registry_model::policy_with(policy, options);
            &&& options.approve_local_unsigned is Some ==> p.allow_local_unsigned
                == options.approve_local_unsigned->0
            &&& options.approve_local_unsigned is None ==> p.allow_local_unsigned
                == policy.allow_local_unsigned
            &&& options.allow_local_process_runtime is Some ==> p.allow_local_process_runtime
                == options.allow_local_process_runtime->0
            &&& options.allow_local_process_runtime is None ==> p.allow_local_process_runtime
                == policy.allow_local_process_runtime
            &&& p.official_id_prefix == policy.official_id_prefix
            &&& p.local_id_prefix == policy.local_id_prefix
            &&& p.official_registry_identity == policy.official_registry_identity
        }),
        ManifestValidationPolicyModel::standard().allow_local_unsigned == false,
        ManifestValidationPolicyModel::standard().allow_local_process_runtime == false,
        ManifestValidationPolicyModel::standard().official_id_prefix == "ai.atelia."@,
        ManifestValidationPolicyModel::standard().local_id_prefix == "local."@,
        ManifestValidationPolicyModel::standard().official_registry_identity
            == "atelia-official"@,
{
}

/// A request approves just what it says, and leaves open what it does not.
pub proof fn law_requests_approve_what_they_say(unsigned: bool, process: bool, source: bool)
    ensures
        ({
            let options = InstallOptions::granting(unsigned, process, source);
            &&& options.approve_local_unsigned == (if unsigned {
                Some(true)
            } else {
                None
            })
            &&& options.allow_local_process_runtime == (if process {
                Some(true)
            } else {
                None
            })
            &&& options.approve_source_change == Some(true) <==> source
        }),
{
}

/// Disabling, enabling and rolling back give the record of a version another status, and
/// leave everything else of it and all other versions alone.
pub open spec fn only_status_changed(
    r: ExtensionRegistryModel,
    after: ExtensionRegistryModel,
    extension_id: Seq<char>,
    version: Seq<char>,
    status: ExtensionInstallStatus,
    answered: ExtensionInstallRecordModel,
) -> bool {
    let before = text_map::entry_of(r.records, extension_id, version);
    &&& before is Some
    &&& answered == (ExtensionInstallRecordModel { status, ..before->0 })
    &&& text_map::entry_of(after.records, extension_id, version) == Some(answered)
    &&& after.manifests == r.manifests
    &&& after.blocklist == r.blocklist
    &&& after.validation_policy == r.validation_policy
    &&& forall|id: Seq<char>, v: Seq<char>|
        id != extension_id || v != version ==> #[trigger] text_map::entry_of(after.records, id, v)
            == text_map::entry_of(r.records, id, v)
}

/// Disabling succeeds exactly where an active version has a record, and disables it.
pub proof fn law_disabling_disables_the_active_version(
    r: ExtensionRegistryModel,
    extension_id: Seq<char>,
    version: Seq<char>,
)
    requires
        is_active(r, extension_id, version),
    ensures
        r.disable(extension_id) is Ok <==> text_map::entry_of(
            r.records,
            extension_id,
            version,
        ) is Some,
        r.disable(extension_id) matches Ok((after, record)) ==> {
            &&& only_status_changed(
                r,
                after,
                extension_id,
                version,
                ExtensionInstallStatus::Disabled,
                record,
            )
            &&& after.active_versions == r.active_versions
        },
        r.remove(extension_id) is Ok <==> r.disable(extension_id) is Ok,
        r.remove(extension_id) matches Ok((after, record)) ==> {
            &&& only_status_changed(
                r,
                after,
                extension_id,
                version,
                ExtensionInstallStatus::Disabled,
                record,
            )
            &&& text_map::sorted(r.active_versions) ==> text_map::value_of(
                after.active_versions,
                extension_id,
            ) is None
            &&& text_map::sorted(r.active_versions) ==> forall|id: Seq<char>|
                id != extension_id ==> #[trigger] text_map::value_of(after.active_versions, id)
                    == text_map::value_of(r.active_versions, id)
        },
{
    lemma_status_only(r, extension_id, version, ExtensionInstallStatus::Disabled);
    if text_map::sorted(r.active_versions) {
        assert forall|id: Seq<char>| id != extension_id implies #[trigger] text_map::value_of(
            text_map::removed(r.active_versions, extension_id),
            id,
        ) == text_map::value_of(r.active_versions, id) by {
            text_map::law_remove_then_get(r.active_versions, extension_id, id);
        }
        text_map::law_remove_then_get(r.active_versions, extension_id, extension_id);
    }
}

proof fn lemma_status_only(
    r: ExtensionRegistryModel,
    extension_id: Seq<char>,
    version: Seq<char>,
    status: ExtensionInstallStatus,
)
    ensures
        text_map::entry_of(r.records, extension_id, version) is Some ==> {
            let record = text_map::entry_of(r.records, extension_id, version)->0;
            let changed = ExtensionInstallRecordModel { status, ..record };
            only_status_changed(
                r,
                r.with_record(extension_id, version, changed),
                extension_id,
                version,
                status,
                changed,
            )
        },
{
    if text_map::entry_of(r.records, extension_id, version) is Some {
        let record = text_map::entry_of(r.records, extension_id, version)->0;
        let changed = ExtensionInstallRecordModel { status, ..record };
        let after = r.with_record(extension_id, version, changed);
        text_map::law_insert_in_then_get(
            r.records,
            extension_id,
            version,
            changed,
            extension_id,
            version,
        );
        assert forall|id: Seq<char>, v: Seq<char>|
            id != extension_id || v != version implies #[trigger] text_map::entry_of(
            after.records,
            id,
            v,
        ) == text_map::entry_of(r.records, id, v) by {
            text_map::law_insert_in_then_get(r.records, extension_id, version, changed, id, v);
        }
    }
}

/// Enabling succeeds exactly where the active version has a manifest and a record and no
/// entry of the blocklist covers it, and makes it installed.
pub proof fn law_enabling_installs_the_active_version(
    r: ExtensionRegistryModel,
    extension_id: Seq<char>,
    version: Seq<char>,
)
    requires
        is_active(r, extension_id, version),
    ensures
        r.enable(extension_id) is Ok <==> {
            let m = text_map::entry_of(r.manifests, extension_id, version);
            &&& m is Some
            &&& !is_covered(r, m->0)
            &&& text_map::entry_of(r.records, extension_id, version) is Some
        },
        r.enable(extension_id) matches Ok((after, record)) ==> {
            &&& only_status_changed(
                r,
                after,
                extension_id,
                version,
                ExtensionInstallStatus::Installed,
                record,
            )
            &&& after.active_versions == r.active_versions
        },
{
    lemma_status_only(r, extension_id, version, ExtensionInstallStatus::Installed);
    if text_map::entry_of(r.manifests, extension_id, version) is Some {
        lemma_covered(r, text_map::entry_of(r.manifests, extension_id, version)->0);
    }
}

/// Rolling back succeeds exactly where the active version took the place of another that
/// still has its manifest and record and that no entry of the blocklist covers; it makes that
/// version active.
pub proof fn law_rolling_back_activates_the_version_before(
    r: ExtensionRegistryModel,
    extension_id: Seq<char>,
    version: Seq<char>,
)
    requires
        is_active(r, extension_id, version),
    ensures
        r.rollback(extension_id) is Ok <==> {
            let current = text_map::entry_of(r.records, extension_id, version);
            &&& current is Some
            &&& current->0.previous_version is Some
            &&& {
                let previous = current->0.previous_version->0;
                let m = text_map::entry_of(r.manifests, extension_id, previous);
                &&& m is Some
                &&& !is_covered(r, m->0)
                &&& text_map::entry_of(r.records, extension_id, previous) is Some
            }
        },
        r.rollback(extension_id) matches Ok((after, record)) ==> {
            let previous = text_map::entry_of(
                r.records,
                extension_id,
                version,
            )->0.previous_version->0;
            &&& is_active(after, extension_id, previous)
            &&& only_status_changed(
                r,
                after,
                extension_id,
                previous,
                ExtensionInstallStatus::InstalledPreviousVersion,
                record,
            )
            &&& forall|id: Seq<char>|
                id != extension_id ==> #[trigger] text_map::value_of(after.active_versions, id)
                    == text_map::value_of(r.active_versions, id)
        },
{
    let current = text_map::entry_of(r.records, extension_id, version);
    if current is Some && current->0.previous_version is Some {
        let previous = current->0.previous_version->0;
        lemma_status_only(
            r,
            extension_id,
            previous,
            ExtensionInstallStatus::InstalledPreviousVersion,
        );
        if text_map::entry_of(r.manifests, extension_id, previous) is Some {
            lemma_covered(r, text_map::entry_of(r.manifests, extension_id, previous)->0);
        }
        text_map::law_insert_then_get(r.active_versions, extension_id, previous, extension_id);
        assert forall|id: Seq<char>| id != extension_id implies #[trigger] text_map::value_of(
            text_map::inserted(r.active_versions, extension_id, previous),
            id,
        ) == text_map::value_of(r.active_versions, id) by {
            text_map::law_insert_then_get(r.active_versions, extension_id, previous, id);
        }
    }
}

/// What is not active cannot be disabled, enabled, removed, rolled back or shown: it is not
/// installed.
pub proof fn law_inactive_extensions_are_not_installed(
    r: ExtensionRegistryModel,
    extension_id: Seq<char>,
)
    requires
        text_map::value_of(r.active_versions, extension_id) is None,
    ensures
        ({
            let missing = RegistryErrorModel::NotInstalled { extension_id };
            &&& r.disable(extension_id) is Err && r.disable(extension_id)->Err_0 == missing
            &&& r.enable(extension_id) is Err && r.enable(extension_id)->Err_0 == missing
            &&& r.remove(extension_id) is Err && r.remove(extension_id)->Err_0 == missing
            &&& r.rollback(extension_id) is Err && r.rollback(extension_id)->Err_0 == missing
            &&& r.extension_status(extension_id) is Err && r.extension_status(extension_id)->Err_0
                == missing
        }),
{
}

/// The status of an active extension is that of its record, unless an entry of the blocklist
/// covers it: then it is blocked, and the first such entry is named.
pub proof fn law_statuses_show_records_and_blocks(
    r: ExtensionRegistryModel,
    extension_id: Seq<char>,
    version: Seq<char>,
)
    requires
        is_active(r, extension_id, version),
        text_map::entry_of(r.manifests, extension_id, version) is Some,
        text_map::entry_of(r.records, extension_id, version) is Some,
    ensures
        r.extension_status(extension_id) is Ok,
        ({
            let m = text_map::entry_of(r.manifests, extension_id, version)->0;
            let record = text_map::entry_of(r.records, extension_id, version)->0;
            let status = r.extension_status(extension_id)->Ok_0;
            &&& status.extension_id == extension_id
            &&& !is_covered(r, m) ==> status.record == record && status.block is None
            &&& forall|i: int| #[trigger]
                first_to_cover(r.blocklist, m, i) ==> {
                    &&& status.record == (ExtensionInstallRecordModel {
                        status: ExtensionInstallStatus::Blocked,
                        ..record
                    })
                    &&& status.block is Some
                    &&& status.block->0.reason == r.blocklist[i].reason
                    &&& status.block->0.key == r.blocklist[i].key
                }
        }),
{
    let m = text_map::entry_of(r.manifests, extension_id, version)->0;
    lemma_covered(r, m);
    assert forall|i: int| #[trigger] first_to_cover(r.blocklist, m, i) implies r.block_hit(m)
        == Some(r.blocklist[i]) by {
        lemma_first_hit(r.blocklist, m, i);
    }
}

/// The status that the registry tells of the extension.
pub open spec fn is_status_of(
    r: ExtensionRegistryModel,
    extension_id: Seq<char>,
    status: ExtensionStatusSnapshotModel,
) -> bool {
    r.extension_status(extension_id) == Ok::<ExtensionStatusSnapshotModel, RegistryErrorModel>(
        status,
    )
}

/// A listing shows every active extension once, in the order of their identifiers, each with
/// its status.
pub proof fn law_listings_show_every_active_extension(r: ExtensionRegistryModel)
    requires
        r.statuses() is Ok,
    ensures
        r.statuses()->Ok_0.len() == r.active_versions.len(),
        forall|i: int|
            0 <= i < r.active_versions.len() ==> is_status_of(
                r,
                (#[trigger] r.active_versions[i]).0,
                r.statuses()->Ok_0[i],
            ),
{
    let ids = text_map::keys_of(r.active_versions);
    lemma_statuses(r, ids);
    assert forall|i: int| 0 <= i < r.active_versions.len() implies is_status_of(
        r,
        (#[trigger] r.active_versions[i]).0,
        r.statuses()->Ok_0[i],
    ) by {
        assert(ids[i] == r.active_versions[i].0);
        assert(is_status_of(r, ids[i], r.statuses_of(ids)->Ok_0[i]));
    }
}

proof fn lemma_statuses(r: ExtensionRegistryModel, ids: Seq<Seq<char>>)
    requires
        r.statuses_of(ids) is Ok,
    ensures
        r.statuses_of(ids)->Ok_0.len() == ids.len(),
        forall|i: int|
            0 <= i < ids.len() ==> is_status_of(r, ids[i], #[trigger] r.statuses_of(ids)->Ok_0[i]),
    decreases ids.len(),
{
    if ids.len() > 0 {
        let front = ids.drop_last();
        lemma_statuses(r, front);
        let shown = r.statuses_of(ids)->Ok_0;
        let earlier = r.statuses_of(front)->Ok_0;
        assert(shown == earlier.push(r.extension_status(ids.last())->Ok_0));
        assert forall|i: int| 0 <= i < ids.len() implies is_status_of(
            r,
            ids[i],
            #[trigger] r.statuses_of(ids)->Ok_0[i],
        ) by {
            if i < front.len() {
                assert(front[i] == ids[i]);
                assert(is_status_of(r, front[i], earlier[i]));
            }
        }
    }
}

/// A service shows every status where blocked ones are asked for, and otherwise exactly those
/// that are not blocked, in their order and as they are.
pub proof fn law_blocked_extensions_are_shown_where_asked_for(
    statuses: Seq<ExtensionStatusSnapshotModel>,
)
    ensures
        ({
            let all = service::responses_to(statuses, true);
            let some = service::responses_to(statuses, false);
            &&& all.len() == statuses.len()
            &&& forall|i: int|
                0 <= i < statuses.len() ==> {
                    &&& (#[trigger] all[i]).extension_id == statuses[i].extension_id
                    &&& all[i].record == Some(statuses[i].record)
                    &&& all[i].block == statuses[i].block
                }
            &&& forall|i: int|
                0 <= i < some.len() ==> (#[trigger] some[i]).block is None && all.contains(some[i])
            &&& forall|i: int|
                0 <= i < statuses.len() && (#[trigger] all[i]).block is None ==> some.contains(
                    all[i],
                )
        }),
    decreases statuses.len(),
{
    if statuses.len() > 0 {
        let front = statuses.drop_last();
        law_blocked_extensions_are_shown_where_asked_for(front);
        let all = service::responses_to(statuses, true);
        let some = service::responses_to(statuses, false);
        let all_before = service::responses_to(front, true);
        let some_before = service::responses_to(front, false);
        assert forall|i: int| 0 <= i < statuses.len() implies {
            &&& (#[trigger] all[i]).extension_id == statuses[i].extension_id
            &&& all[i].record == Some(statuses[i].record)
            &&& all[i].block == statuses[i].block
        } by {
            if i < front.len() {
                assert(all[i] == all_before[i]);
                assert(front[i] == statuses[i]);
            }
        }
        assert forall|i: int| 0 <= i < some.len() implies (#[trigger] some[i]).block is None
            && all.contains(some[i]) by {
            if i < some_before.len() {
                assert(some[i] == some_before[i]);
                let k = choose|k: int| 0 <= k < all_before.len() && all_before[k] == some[i];
                assert(all[k] == some[i]);
            } else {
                assert(all[all.len() - 1] == some[i]);
            }
        }
        assert forall|i: int|
            0 <= i < statuses.len() && (#[trigger] all[i]).block is None implies some.contains(
            all[i],
        ) by {
            if i < front.len() {
                assert(all[i] == all_before[i]);
                let k = choose|k: int| 0 <= k < some_before.len() && some_before[k] == all[i];
                assert(some[k] == all[i]);
            } else {
                assert(some[some.len() - 1] == all[i]);
            }
        }
    }
}

/// A map gives for a key the value that it holds beside the key, and nothing where the key
/// is not there.
pub proof fn law_maps_give_what_they_hold<M>(entries: Seq<(Seq<char>, M)>, key: Seq<char>)
    ensures
        text_map::value_of(entries, key) matches Some(value) ==> entries.contains((key, value)),
        text_map::value_of(entries, key) is None ==> forall|i: int|
            0 <= i < entries.len() ==> (#[trigger] entries[i]).0 != key,
    decreases entries.len(),
{
    if entries.len() > 0 && entries[0].0 != key {
        let rest = entries.drop_first();
        law_maps_give_what_they_hold(rest, key);
        text_map::lemma_value_has_place(rest, key);
        text_map::lemma_value_has_place(entries, key);
        if text_map::value_of(entries, key) is Some {
            assert(entries[text_map::place(entries, key)] == (
                key,
                text_map::value_of(entries, key)->0,
            ));
        } else {
            assert(text_map::place(entries, key) == 1 + text_map::place(rest, key));
            assert(text_map::value_of(rest, key) is None);
            assert forall|i: int| 0 <= i < entries.len() implies (#[trigger] entries[i]).0
                != key by {
                if i > 0 {
                    assert(rest[i - 1] == entries[i]);
                }
            }
        }
    } else if entries.len() > 0 {
        assert(entries[0] == (key, entries[0].1));
    }
}

/// What a call answers is what the operation gives, and a refused call changes nothing.
pub proof fn law_refused_calls_change_nothing<T: DeepView>(
    answer: RegistryResult<T>,
    before: ExtensionRegistryModel,
    after: ExtensionRegistryModel,
    operation: Result<(ExtensionRegistryModel, T::V), RegistryErrorModel>,
)
    requires
        registry_model::changes(answer, before, after, operation),
    ensures
        answer is Ok <==> operation is Ok,
        answer is Ok ==> operation->Ok_0.0 == after && operation->Ok_0.1
            == answer->Ok_0.deep_view(),
        answer is Err ==> after == before && operation->Err_0 == answer->Err_0@,
{
}

/// What a call that only reads answers is what is expected of it.
pub proof fn law_reading_calls_answer_as_expected<T: DeepView>(
    answer: RegistryResult<T>,
    expected: Result<T::V, RegistryErrorModel>,
)
    requires
        registry_model::gives(answer, expected),
    ensures
        answer is Ok <==> expected is Ok,
        answer is Ok ==> expected->Ok_0 == answer->Ok_0.deep_view(),
        answer is Err ==> expected->Err_0 == answer->Err_0@,
{
}

/// The text without the white space around it, where it says something.
pub open spec fn is_told(written: Option<Seq<char>>, told: Option<Seq<char>>) -> bool {
    match written {
        Some(written) => if crate::text_laws::all_white(written) {
            told is None
        } else {
            told matches Some(meant) && meant.len() > 0 && crate::text_laws::bare(meant) && says(
                written,
                meant,
            )
        },
        None => told is None,
    }
}

proof fn lemma_told(written: Option<Seq<char>>)
    ensures
        is_told(written, crate::extensions::records::said(written)),
{
    if written is Some {
        crate::text_laws::law_blank_is_white(written->0);
        crate::text_laws::law_trimmed_text_is_what_is_between(written->0);
    }
}

/// An install record keeps the source that the manifest tells, white space around the parts
/// apart.
pub proof fn law_sources_are_kept_as_told(
    p: crate::extensions::manifest::ExtensionProvenanceModel,
)
    ensures
        ({
            let source = ExtensionSourceSnapshotModel::of_provenance(p);
            &&& source.source == p.source
            &&& is_told(p.repository, source.repository)
            &&& is_told(p.source_ref, source.source_ref)
            &&& is_told(p.manifest_path, source.manifest_path)
            &&& source.commit == p.commit
            &&& is_told(p.registry_identity, source.registry_identity)
            &&& source.lineage == p.lineage
            &&& source.publication == p.publication
        }),
{
    lemma_told(p.repository);
    lemma_told(p.source_ref);
    lemma_told(p.manifest_path);
    lemma_told(p.registry_identity);
}

/// A snapshot holds all of a registry but the policy of its host; restoring it under a policy
/// gives the registry with that policy. An empty registry holds nothing.
pub proof fn law_snapshots_hold_the_registry(
    r: ExtensionRegistryModel,
    policy: ManifestValidationPolicyModel,
)
    ensures
        r.snapshot().manifests == r.manifests,
        r.snapshot().records == r.records,
        r.snapshot().active_versions == r.active_versions,
        r.snapshot().blocklist == r.blocklist,
        ExtensionRegistryModel::restored(r.snapshot(), policy) == (ExtensionRegistryModel {
            validation_policy: policy,
            ..r
        }),
        ({
            let none = ExtensionRegistryModel::empty(policy);
            &&& none.manifests.len() == 0
            &&& none.records.len() == 0
            &&& none.active_versions.len() == 0
            &&& none.blocklist.len() == 0
            &&& none.validation_policy == policy
        }),
{
}

/// A snapshot agrees with a policy exactly where its parts fit together and each record stands
/// on the side of the boundary on which the policy puts its manifest.
pub proof fn law_snapshots_agree_with_policies(
    s: ExtensionRegistrySnapshotModel,
    policy: ManifestValidationPolicyModel,
)
    requires
        s.in_order(),
    ensures
        s.policy_problem(policy) is None <==> {
            &&& s.coherent()
            &&& forall|i: int, j: int|
                0 <= i < s.records.len() && 0 <= j < s.records[i].1.len() ==> {
                    let (version, record) = #[trigger] s.records[i].1[j];
                    let m = text_map::entry_of(s.manifests, s.records[i].0, version);
                    &&& m is Some
                    &&& validation::verdict_on(m->0, policy) is Ok
                    &&& validation::verdict_on(m->0, policy)->Ok_0 == record.boundary
                }
        },
{
    crate::extensions::laws::law_check_accepts_coherent_snapshots(s);
    let all = s.boundary_checks(policy);
    crate::checks::lemma_no_problem(all, s.records.len() as int);
    assert forall|i: int| 0 <= i < s.records.len() implies (#[trigger] all(i) is None <==> forall|
        j: int,
    |
        0 <= j < s.records[i].1.len() ==> {
            let (version, record) = #[trigger] s.records[i].1[j];
            let m = text_map::entry_of(s.manifests, s.records[i].0, version);
            &&& m is Some
            &&& validation::verdict_on(m->0, policy) is Ok
            &&& validation::verdict_on(m->0, policy)->Ok_0 == record.boundary
        }) by {
        let some = s.boundary_version_checks(policy, i);
        crate::checks::lemma_no_problem(some, s.records[i].1.len() as int);
        if all(i) is None {
            assert forall|j: int| 0 <= j < s.records[i].1.len() implies {
                let (version, record) = #[trigger] s.records[i].1[j];
                let m = text_map::entry_of(s.manifests, s.records[i].0, version);
                &&& m is Some
                &&& validation::verdict_on(m->0, policy) is Ok
                &&& validation::verdict_on(m->0, policy)->Ok_0 == record.boundary
            } by {
                assert(some(j) is None);
            }
        } else {
            let j = choose|j: int| 0 <= j < s.records[i].1.len() && !(#[trigger] some(j) is None);
            assert(s.records[i].1[j] == s.records[i].1[j]);
        }
    }
    if crate::checks::first_problem(all, s.records.len() as int) is None {
        assert forall|i: int, j: int|
            0 <= i < s.records.len() && 0 <= j < s.records[i].1.len() implies {
            let (version, record) = #[trigger] s.records[i].1[j];
            let m = text_map::entry_of(s.manifests, s.records[i].0, version);
            &&& m is Some
            &&& validation::verdict_on(m->0, policy) is Ok
            &&& validation::verdict_on(m->0, policy)->Ok_0 == record.boundary
        } by {
            assert(all(i) is None);
        }
    } else {
        let i = choose|i: int| 0 <= i < s.records.len() && !(#[trigger] all(i) is None);
        let j = choose|j: int|
            0 <= j < s.records[i].1.len() && !({
                let (version, record) = #[trigger] s.records[i].1[j];
                let m = text_map::entry_of(s.manifests, s.records[i].0, version);
                &&& m is Some
                &&& validation::verdict_on(m->0, policy) is Ok
                &&& validation::verdict_on(m->0, policy)->Ok_0 == record.boundary
            });
        assert(s.records[i].1[j] == s.records[i].1[j]);
    }
}

/// The service answers with the record that the registry gives, or with its refusal.
pub proof fn law_services_answer_with_the_record(
    outcome: Result<(ExtensionRegistryModel, ExtensionInstallRecordModel), RegistryErrorModel>,
)
    ensures
        outcome matches Ok((after, record)) ==> {
            &&& service::install_extension_outcome(outcome) is Ok
            &&& service::install_extension_outcome(outcome)->Ok_0.0 == after
            &&& service::install_extension_outcome(outcome)->Ok_0.1.record == record
            &&& service::update_extension_outcome(outcome) is Ok
            &&& service::update_extension_outcome(outcome)->Ok_0.0 == after
            &&& service::update_extension_outcome(outcome)->Ok_0.1.record == record
            &&& service::rollback_extension_outcome(outcome) is Ok
            &&& service::rollback_extension_outcome(outcome)->Ok_0.0 == after
            &&& service::rollback_extension_outcome(outcome)->Ok_0.1.record == record
            &&& service::disable_extension_outcome(outcome) is Ok
            &&& service::disable_extension_outcome(outcome)->Ok_0.0 == after
            &&& service::disable_extension_outcome(outcome)->Ok_0.1.record == record
            &&& service::enable_extension_outcome(outcome) is Ok
            &&& service::enable_extension_outcome(outcome)->Ok_0.0 == after
            &&& service::enable_extension_outcome(outcome)->Ok_0.1.record == record
            &&& service::remove_extension_outcome(outcome) is Ok
            &&& service::remove_extension_outcome(outcome)->Ok_0.0 == after
            &&& service::remove_extension_outcome(outcome)->Ok_0.1.record == record
        },
        outcome matches Err(error) ==> {
            &&& service::install_extension_outcome(outcome) is Err
            &&& service::install_extension_outcome(outcome)->Err_0 == error
            &&& service::update_extension_outcome(outcome) is Err
            &&& service::update_extension_outcome(outcome)->Err_0 == error
            &&& service::rollback_extension_outcome(outcome) is Err
            &&& service::rollback_extension_outcome(outcome)->Err_0 == error
            &&& service::disable_extension_outcome(outcome) is Err
            &&& service::disable_extension_outcome(outcome)->Err_0 == error
            &&& service::enable_extension_outcome(outcome) is Err
            &&& service::enable_extension_outcome(outcome)->Err_0 == error
            &&& service::remove_extension_outcome(outcome) is Err
            &&& service::remove_extension_outcome(outcome)->Err_0 == error
        },
{
}

/// A call is refused first for the caller and then for the callee: where one is not installed,
/// is disabled or blocked, or is not ready.
pub proof fn law_calls_are_refused_for_what_is_not_ready(
    r: ExtensionRegistryModel,
    request: ServiceCallRequestModel,
)
    ensures
        refused_for(r, request.caller_extension_id, "caller"@) matches Some(error) ==> r.authorize(
            request,
        ) is Err && r.authorize(request)->Err_0 == error,
        refused_for(r, request.caller_extension_id, "caller"@) is None ==> (refused_for(
            r,
            request.callee_extension_id,
            "callee"@,
        ) matches Some(error) ==> r.authorize(request) is Err && r.authorize(request)->Err_0
            == error),
{
}

/// What an extension in a role is refused for, if it is.
pub open spec fn refused_for(
    r: ExtensionRegistryModel,
    id: Seq<char>,
    role: Seq<char>,
) -> Option<RegistryErrorModel> {
    let record = r.active_record(id);
    if record is None {
        Some(RegistryErrorModel::NotInstalled { extension_id: id })
    } else if record->0.status is Installed || record->0.status is InstalledPreviousVersion {
        None
    } else {
        let told = if record->0.status is Disabled {
            " is disabled"@
        } else if record->0.status is Blocked {
            " is blocked"@
        } else {
            " is not ready for service calls"@
        };
        Some(
            RegistryErrorModel::ServiceDenied { reason: role + " extension "@ + id + told },
        )
    }
}

/// Between ready extensions a call is denied where the caller does not ask for the service,
/// and unavailable where it does but the callee does not offer it; where both do, it is denied
/// for the permission.
pub proof fn law_calls_are_denied_for_what_is_not_declared(
    r: ExtensionRegistryModel,
    request: ServiceCallRequestModel,
)
    requires
        is_ready(r, request.caller_extension_id),
        is_ready(r, request.callee_extension_id),
        !is_covered(r, r.active_manifest(request.caller_extension_id)->0),
        !is_covered(r, r.active_manifest(request.callee_extension_id)->0),
        r.authorize(request) is Err,
    ensures
        ({
            let caller = r.active_manifest(request.caller_extension_id)->0;
            let callee = r.active_manifest(request.callee_extension_id)->0;
            let asked = exists|i: int| #[trigger] first_asked_at(caller, request, i);
            let offered = exists|i: int| #[trigger] first_offered_at(callee, request, i);
            let error = r.authorize(request)->Err_0;
            &&& error is ServiceUnavailable <==> asked && !offered
            &&& error is ServiceDenied <==> !asked || offered
            &&& !asked ==> error == (RegistryErrorModel::ServiceDenied {
                reason: "caller did not declare services.consumes for this callee service"@,
            })
        }),
{
    let caller_id = request.caller_extension_id;
    let callee_id = request.callee_extension_id;
    let caller = r.active_manifest(caller_id);
    let callee = r.active_manifest(callee_id);
    lemma_ready(r, caller_id, "caller"@);
    lemma_ready(r, callee_id, "callee"@);
    lemma_covered(r, caller->0);
    lemma_covered(r, callee->0);
    let consumes = caller->0.services.consumes;
    let provides = callee->0.services.provides;
    lemma_first_consumed(consumes, request);
    lemma_first_provided(provides, request);
    if registry_model::first_consumed(consumes, request) is Some {
        let c = registry_model::first_consumed(consumes, request)->0;
        let i = choose|i: int|
            {
                &&& 0 <= i < consumes.len()
                &&& #[trigger] consumes[i] == c
                &&& registry_model::consumes_requested(c, request)
                &&& forall|j: int|
                    0 <= j < i ==> !registry_model::consumes_requested(
                        #[trigger] consumes[j],
                        request,
                    )
            };
        assert forall|j: int| 0 <= j < i implies !((#[trigger] consumes[j]).extension_id
            == request.callee_extension_id && consumes[j].service == request.service
            && consumes[j].method == request.method && consumes[j].schema_version
            == request.schema_version) by {
            assert(!registry_model::consumes_requested(consumes[j], request));
        }
        assert(first_asked_at(caller->0, request, i));
    } else {
        assert forall|i: int| !(#[trigger] first_asked_at(caller->0, request, i)) by {
            if first_asked_at(caller->0, request, i) {
                assert(!registry_model::consumes_requested(consumes[i], request));
            }
        }
    }
    if registry_model::first_provided(provides, request) is Some {
        let p = registry_model::first_provided(provides, request)->0;
        let i = choose|i: int|
            {
                &&& 0 <= i < provides.len()
                &&& #[trigger] provides[i] == p
                &&& registry_model::provides_requested(p, request)
                &&& forall|j: int|
                    0 <= j < i ==> !registry_model::provides_requested(
                        #[trigger] provides[j],
                        request,
                    )
            };
        assert forall|j: int| 0 <= j < i implies !((#[trigger] provides[j]).service
            == request.service && provides[j].method == request.method
            && provides[j].schema_version == request.schema_version) by {
            assert(!registry_model::provides_requested(provides[j], request));
        }
        assert(first_offered_at(callee->0, request, i));
    } else {
        assert forall|i: int| !(#[trigger] first_offered_at(callee->0, request, i)) by {
            if first_offered_at(callee->0, request, i) {
                assert(!registry_model::provides_requested(provides[i], request));
            }
        }
    }
}

} // verus!

//! Which manifests are accepted.
use vstd::prelude::*;

use crate::checks;
use crate::extensions::declarations;
use crate::extensions::fields;
use crate::extensions::manifest::{
    ExtensionBoundary, ExtensionHookDefinitionModel, ExtensionKind, ExtensionManifestModel,
    ExtensionPermissionModel, ExtensionProvenanceModel, ExtensionPublicationVisibility,
    ExtensionRuntime, ExtensionWebhookDefinitionModel, ManifestValidationPolicyModel,
    ProvenanceSource,
};
use crate::extensions::validation;
use crate::text_map;

verus! {

/// The text says something: not all of it is white space.
pub open spec fn filled(words: Seq<char>) -> bool {
    !crate::text_laws::all_white(words)
}

/// Something is given, and it says something.
pub open spec fn given(words: Option<Seq<char>>) -> bool {
    words is Some && filled(words->0)
}

/// A word: some characters, none of them white space.
pub open spec fn is_word(words: Seq<char>) -> bool {
    words.len() > 0 && forall|i: int|
        0 <= i < words.len() ==> !crate::text::is_white(#[trigger] words[i])
}

/// The text says something, without white space around it.
pub open spec fn is_tidy(words: Seq<char>) -> bool {
    words.len() > 0 && crate::text_laws::bare(words)
}

/// A label of a name: a small letter, then small letters, digits and hyphens.
pub open spec fn is_label(words: Seq<char>) -> bool {
    &&& words.len() > 0
    &&& 'a' <= words[0] <= 'z'
    &&& forall|i: int|
        0 <= i < words.len() ==> {
            ||| 'a' <= #[trigger] words[i] <= 'z'
            ||| '0' <= words[i] <= '9'
            ||| words[i] == '-'
        }
}

/// A dotted name: labels with points between them, two at least.
pub open spec fn is_dotted(words: Seq<char>) -> bool {
    let labels = crate::text::split(words, '.');
    &&& words.len() > 0
    &&& words[0] != '.'
    &&& words[words.len() - 1] != '.'
    &&& words.contains('.')
    &&& forall|i: int| 0 <= i < labels.len() ==> is_label(#[trigger] labels[i])
}

/// A number in decimal.
pub open spec fn is_numeral(words: Seq<char>) -> bool {
    words.len() > 0 && forall|i: int| 0 <= i < words.len() ==> '0' <= #[trigger] words[i] <= '9'
}

/// A version: three numbers with points between them.
pub open spec fn is_release(words: Seq<char>) -> bool {
    let numbers = crate::text::split(words, '.');
    &&& numbers.len() == 3
    &&& is_numeral(numbers[0])
    &&& is_numeral(numbers[1])
    &&& is_numeral(numbers[2])
}

/// A digest: the name of the hash and 64 hexadecimal digits.
pub open spec fn is_digest(words: Seq<char>) -> bool {
    &&& words.len() == 71
    &&& words.take(7) == "sha256:"@
    &&& forall|i: int|
        7 <= i < 71 ==> {
            ||| '0' <= #[trigger] words[i] <= '9'
            ||| 'a' <= words[i] <= 'f'
            ||| 'A' <= words[i] <= 'F'
        }
}

/// The name of a permission: a word with a point or a colon in it.
pub open spec fn is_permission(words: Seq<char>) -> bool {
    is_word(words) && (words.contains('.') || words.contains(':'))
}

/// The field checks accept just what they are named after.
pub proof fn law_fields_are_what_they_are_called(field: Seq<char>, words: Seq<char>)
    ensures
        fields::empty_problem(field, words) is None <==> filled(words),
        fields::word_problem(field, words) is None <==> is_word(words),
        fields::trimmed_problem(field, words) is None <==> is_tidy(words),
        fields::namespace_problem(field, words) is None <==> is_dotted(words),
        fields::version_problem(field, words) is None <==> is_release(words),
        fields::digest_problem(field, words) is None <==> is_digest(words),
        fields::permission_name_problem(words) is None <==> is_permission(words),
{
    crate::text_laws::law_blank_is_white(words);
    if is_word(words) {
        assert(!crate::text::is_white(words[0]));
    }
    lemma_word(words);
    lemma_tidy(words);
    lemma_namespace(field, words);
    lemma_release(words);
    lemma_digest(field, words);
}

proof fn lemma_word(words: Seq<char>)
    ensures
        is_word(words) <==> filled(words) && !crate::text::has_white(words),
{
    if filled(words) && !crate::text::has_white(words) {
        let i = choose|i: int| 0 <= i < words.len() && !crate::text::is_white(#[trigger] words[i]);
        assert forall|i: int| 0 <= i < words.len() implies !crate::text::is_white(
            #[trigger] words[i],
        ) by {
            assert(!crate::text::has_white(words));
        }
    }
    if is_word(words) {
        assert(!crate::text::is_white(words[0]));
    }
}

proof fn lemma_tidy(words: Seq<char>)
    ensures
        is_tidy(words) <==> filled(words) && crate::text::trimmed(words) == words,
{
    let none = Seq::<char>::empty();
    if is_tidy(words) {
        assert(!crate::text::is_white(words[0]));
        crate::text_laws::law_trimming_takes_the_white_space_around(none, words, none);
        assert(none + words + none =~= words);
    }
    if filled(words) && crate::text::trimmed(words) == words {
        crate::text::lemma_trimmed_edges(words);
        crate::text_laws::law_blank_is_white(words);
    }
}

proof fn lemma_namespace(field: Seq<char>, words: Seq<char>)
    ensures
        fields::namespace_problem(field, words) is None <==> is_dotted(words),
{
    let labels = crate::text::split(words, '.');
    assert forall|i: int| 0 <= i < labels.len() implies (is_label(#[trigger] labels[i])
        <==> fields::is_segment(labels[i])) by {
        lemma_label(labels[i]);
    }
    if fields::namespace_problem(field, words) is None {
        assert forall|i: int| 0 <= i < labels.len() implies is_label(#[trigger] labels[i]) by {
            assert(fields::is_segment(labels[i]));
        }
    }
    if is_dotted(words) {
        assert forall|i: int| 0 <= i < labels.len() implies fields::is_segment(
            #[trigger] labels[i],
        ) by {
            assert(is_label(labels[i]));
        }
    }
}

proof fn lemma_label(words: Seq<char>)
    ensures
        is_label(words) <==> fields::is_segment(words),
{
    if fields::is_segment(words) {
        assert forall|i: int| 0 <= i < words.len() implies {
            ||| 'a' <= #[trigger] words[i] <= 'z'
            ||| '0' <= words[i] <= '9'
            ||| words[i] == '-'
        } by {
            assert(fields::is_segment_char(words[i]));
        }
    }
}

proof fn lemma_numeral(words: Seq<char>)
    ensures
        is_numeral(words) <==> fields::is_version_part(words),
{
    if fields::is_version_part(words) {
        assert forall|i: int| 0 <= i < words.len() implies '0' <= #[trigger] words[i] <= '9' by {
            assert(crate::text::is_digit(words[i]));
        }
    }
}

proof fn lemma_release(words: Seq<char>)
    ensures
        fields::is_version(words) <==> is_release(words),
{
    let numbers = crate::text::split(words, '.');
    if numbers.len() == 3 {
        lemma_numeral(numbers[0]);
        lemma_numeral(numbers[1]);
        lemma_numeral(numbers[2]);
    }
}

proof fn lemma_digest(field: Seq<char>, words: Seq<char>)
    ensures
        fields::digest_problem(field, words) is None <==> is_digest(words),
{
    reveal_strlit("sha256:");
    assert("sha256:"@.len() == 7);
    if crate::text::has_prefix(words, "sha256:"@) {
        let hex = words.skip(7);
        if crate::text::all_hex(hex) && hex.len() == 64 {
            assert forall|i: int| 7 <= i < 71 implies {
                ||| '0' <= #[trigger] words[i] <= '9'
                ||| 'a' <= words[i] <= 'f'
                ||| 'A' <= words[i] <= 'F'
            } by {
                assert(crate::text::is_hex_digit(hex[i - 7]));
            }
        }
        if is_digest(words) {
            assert forall|i: int| 0 <= i < hex.len() implies crate::text::is_hex_digit(
                #[trigger] hex[i],
            ) by {
                assert(hex[i] == words[i + 7]);
            }
        }
    }
}

/// What a manifest says of itself.
pub open spec fn is_introduced(m: ExtensionManifestModel) -> bool {
    &&& m.schema == "atelia.extension.v1"@
    &&& is_dotted(m.id)
    &&& filled(m.name)
    &&& is_release(m.version)
    &&& filled(m.publisher.name)
    &&& filled(m.description)
    &&& filled(m.compatibility.atelia_protocol)
    &&& filled(m.compatibility.atelia_secretary)
    &&& m.types.len() > 0
}

/// A manifest introduces itself exactly where its schema, identifier, name, version,
/// publisher, description, compatibility and types are given.
pub proof fn law_manifests_introduce_themselves(m: ExtensionManifestModel)
    ensures
        validation::identity_problem(m) is None <==> is_introduced(m),
{
    reveal(validation::identity_problem);
    law_fields_are_what_they_are_called("id"@, m.id);
    law_fields_are_what_they_are_called("name"@, m.name);
    law_fields_are_what_they_are_called("version"@, m.version);
    law_fields_are_what_they_are_called("publisher.name"@, m.publisher.name);
    law_fields_are_what_they_are_called("description"@, m.description);
    law_fields_are_what_they_are_called(
        "compatibility.atelia_protocol"@,
        m.compatibility.atelia_protocol,
    );
    law_fields_are_what_they_are_called(
        "compatibility.atelia_secretary"@,
        m.compatibility.atelia_secretary,
    );
    lemma_dotted_is_filled(m.id);
    lemma_release_is_filled(m.version);
}

proof fn lemma_dotted_is_filled(words: Seq<char>)
    ensures
        is_dotted(words) ==> filled(words),
{
    if is_dotted(words) {
        let i = choose|i: int| 0 <= i < words.len() && words[i] == '.';
        crate::text_laws::law_signs_are_not_white_space('.');
        assert(!crate::text::is_white(words[i]));
    }
}

proof fn lemma_release_is_filled(words: Seq<char>)
    ensures
        is_release(words) ==> filled(words),
{
    if is_release(words) && !filled(words) {
        lemma_white_is_not_split(words);
    }
}

proof fn lemma_white_is_not_split(words: Seq<char>)
    requires
        crate::text_laws::all_white(words),
    ensures
        crate::text::split(words, '.').len() == 1,
    decreases words.len(),
{
    if words.len() > 0 {
        let front = words.drop_last();
        assert forall|i: int| 0 <= i < front.len() implies crate::text::is_white(
            #[trigger] front[i],
        ) by {
            assert(front[i] == words[i]);
        }
        lemma_white_is_not_split(front);
        crate::text_laws::law_signs_are_not_white_space('.');
        assert(crate::text::is_white(words[words.len() - 1]));
    }
}

/// One text stands at the start of another.
pub open spec fn starts(words: Seq<char>, start: Seq<char>) -> bool {
    start.len() <= words.len() && words.take(start.len() as int) == start
}

/// A local manifest stands in the local namespace and belongs to local development; another
/// one stands outside it, and belongs to the official ones where it stands in the official
/// namespace and names the official registry, or else to third parties.
pub proof fn law_namespaces_mark_the_boundary(
    m: ExtensionManifestModel,
    policy: ManifestValidationPolicyModel,
)
    ensures
        ({
            let official = starts(m.id, policy.official_id_prefix);
            let local = starts(m.id, policy.local_id_prefix);
            let named = m.provenance.registry_identity == Some(policy.official_registry_identity);
            let boundary = validation::boundary_of(m, policy);
            &&& m.provenance.source is Local ==> (boundary is Ok <==> local)
            &&& m.provenance.source is Local && local ==> boundary->Ok_0 is LocalDevelopment
            &&& !(m.provenance.source is Local) && official ==> (boundary is Ok <==> named)
            &&& !(m.provenance.source is Local) && official && named ==> boundary->Ok_0 is Official
            &&& !(m.provenance.source is Local) && !official ==> (boundary is Ok <==> !local)
            &&& !(m.provenance.source is Local) && !official && !local
                ==> boundary->Ok_0 is ThirdParty
            &&& boundary is Err ==> boundary->Err_0 is BoundaryViolation
        }),
{
}

/// How an extension is started: behind the back end, by its protocol, as a module or, in local
/// development where the host allows it, by a command.
pub open spec fn can_be_started(
    m: ExtensionManifestModel,
    boundary: ExtensionBoundary,
    policy: ManifestValidationPolicyModel,
) -> bool {
    &&& m.entrypoints.realm is Backend
    &&& m.entrypoints.protocol == "atelia-extension-rpc.v1"@
    &&& match m.entrypoints.runtime {
        ExtensionRuntime::WasmRust => given(m.entrypoints.wasm),
        ExtensionRuntime::Wasm => given(m.entrypoints.wasm),
        ExtensionRuntime::Process => {
            &&& boundary is LocalDevelopment
            &&& policy.allow_local_process_runtime
            &&& given(m.entrypoints.command)
        },
        _ => false,
    }
}

proof fn lemma_given(words: Option<Seq<char>>)
    ensures
        given(words) <==> fields::has_content(words),
{
    if words is Some {
        crate::text_laws::law_blank_is_white(words->0);
    }
}

/// An entry point is accepted exactly where the extension can be started by it.
pub proof fn law_entry_points_start_extensions(
    m: ExtensionManifestModel,
    boundary: ExtensionBoundary,
    policy: ManifestValidationPolicyModel,
)
    ensures
        validation::entrypoint_problem(m, boundary, policy) is None <==> can_be_started(
            m,
            boundary,
            policy,
        ),
{
    reveal(validation::entrypoint_problem);
    lemma_given(m.entrypoints.wasm);
    lemma_given(m.entrypoints.command);
}

/// The package is vouched for: it is signed by a named signer, or local development may do
/// without.
pub open spec fn is_vouched_for(
    p: ExtensionProvenanceModel,
    boundary: ExtensionBoundary,
    policy: ManifestValidationPolicyModel,
) -> bool {
    ||| given(p.signature) && given(p.signer)
    ||| boundary is LocalDevelopment && policy.allow_local_unsigned
}

/// The package says where it is from.
pub open spec fn is_sourced(p: ExtensionProvenanceModel) -> bool {
    match p.source {
        ProvenanceSource::Github => {
            &&& given(p.repository)
            &&& given(p.source_ref)
            &&& given(p.manifest_path)
            &&& given(p.commit)
        },
        ProvenanceSource::Registry => given(p.registry_identity),
        ProvenanceSource::Local => true,
    }
}

/// The package may be shared as it says.
pub open spec fn is_published(
    p: ExtensionProvenanceModel,
    boundary: ExtensionBoundary,
    policy: ManifestValidationPolicyModel,
) -> bool {
    p.publication matches Some(publication) ==> {
        let submission = publication.registry_submission;
        match publication.visibility {
            ExtensionPublicationVisibility::PrivateRemix => submission is NotSubmitted,
            ExtensionPublicationVisibility::UnlistedShare => {
                ||| submission is NotSubmitted
                ||| (submission is Submitted || submission is Accepted) && given(
                    p.registry_identity,
                )
            },
            ExtensionPublicationVisibility::PublicSearchable => {
                &&& !(boundary is LocalDevelopment)
                &&& given(p.registry_identity)
                &&& submission is Submitted || submission is Accepted
            },
            ExtensionPublicationVisibility::Official => {
                &&& boundary is Official
                &&& p.registry_identity == Some(policy.official_registry_identity)
                &&& submission is Accepted
            },
        }
    }
}

/// The provenance of a package is in order exactly where both digests are digests, somebody
/// vouches for it, its source is told, its parent, if any, is named properly, and it may be
/// shared as it says.
pub proof fn law_provenance_is_told(
    m: ExtensionManifestModel,
    boundary: ExtensionBoundary,
    policy: ManifestValidationPolicyModel,
)
    ensures
        validation::provenance_problem(m, boundary, policy) is None <==> {
            let p = m.provenance;
            &&& is_digest(p.artifact_digest)
            &&& is_digest(p.manifest_digest)
            &&& is_vouched_for(p, boundary, policy)
            &&& is_sourced(p)
            &&& p.lineage matches Some(lineage) ==> {
                &&& is_dotted(lineage.parent_id)
                &&& lineage.parent_version matches Some(version) ==> is_release(version)
                &&& lineage.parent_manifest_digest matches Some(digest) ==> is_digest(digest)
            }
            &&& is_published(p, boundary, policy)
        },
{
    reveal(validation::provenance_problem);
    reveal(validation::publication_problem);
    let p = m.provenance;
    law_fields_are_what_they_are_called("provenance.artifact_digest"@, p.artifact_digest);
    law_fields_are_what_they_are_called("provenance.manifest_digest"@, p.manifest_digest);
    lemma_given(p.signature);
    lemma_given(p.signer);
    lemma_given(p.repository);
    lemma_given(p.source_ref);
    lemma_given(p.manifest_path);
    lemma_given(p.commit);
    lemma_given(p.registry_identity);
    if p.lineage is Some {
        let lineage = p.lineage->0;
        law_fields_are_what_they_are_called(
            "provenance.lineage.parent_id"@,
            lineage.parent_id,
        );
        if lineage.parent_version is Some {
            law_fields_are_what_they_are_called(
                "provenance.lineage.parent_version"@,
                lineage.parent_version->0,
            );
        }
        if lineage.parent_manifest_digest is Some {
            law_fields_are_what_they_are_called(
                "provenance.lineage.parent_manifest_digest"@,
                lineage.parent_manifest_digest->0,
            );
        }
    }
}

/// A permission is declared by a proper name, a description and, if any, a risk tier from R0
/// to R4.
pub open spec fn is_declared_well(name: Seq<char>, permission: ExtensionPermissionModel) -> bool {
    &&& is_permission(name)
    &&& filled(permission.description)
    &&& permission.risk_tier matches Some(tier) ==> tier == "R0"@ || tier == "R1"@ || tier == "R2"@
        || tier == "R3"@ || tier == "R4"@
}

/// The permissions of a manifest are in order exactly where each is declared well.
pub proof fn law_permissions_are_declared_well(m: ExtensionManifestModel)
    ensures
        declarations::permissions_problem(m) is None <==> forall|i: int|
            0 <= i < m.permissions.len() ==> is_declared_well(
                (#[trigger] m.permissions[i]).0,
                m.permissions[i].1,
            ),
{
    reveal(declarations::permissions_problem);
    let list = declarations::permission_checks(m.permissions);
    checks::lemma_no_problem(list, m.permissions.len() as int);
    assert forall|i: int| 0 <= i < m.permissions.len() implies (#[trigger] list(i) is None
        <==> is_declared_well(m.permissions[i].0, m.permissions[i].1)) by {
        law_fields_are_what_they_are_called("permission"@, m.permissions[i].0);
        law_fields_are_what_they_are_called(
            "permissions.description"@,
            m.permissions[i].1.description,
        );
    }
    if declarations::permissions_problem(m) is None {
        assert forall|i: int| 0 <= i < m.permissions.len() implies is_declared_well(
            (#[trigger] m.permissions[i]).0,
            m.permissions[i].1,
        ) by {
            assert(list(i) is None);
        }
    } else {
        let i = choose|i: int| 0 <= i < m.permissions.len() && !(#[trigger] list(i) is None);
        assert(!is_declared_well(m.permissions[i].0, m.permissions[i].1));
    }
}

/// The manifest declares the permission.
pub open spec fn has_permission(m: ExtensionManifestModel, name: Seq<char>) -> bool {
    exists|i: int| 0 <= i < m.permissions.len() && (#[trigger] m.permissions[i]).0 == name
}

proof fn lemma_has_permission(m: ExtensionManifestModel, name: Seq<char>)
    ensures
        has_permission(m, name) <==> text_map::value_of(m.permissions, name) is Some,
{
    crate::extensions::registry_laws::law_maps_give_what_they_hold(m.permissions, name);
    if text_map::value_of(m.permissions, name) is Some {
        let entry = (name, text_map::value_of(m.permissions, name)->0);
        let i = choose|i: int| 0 <= i < m.permissions.len() && m.permissions[i] == entry;
        assert(m.permissions[i].0 == name);
    }
}

/// A tool has a name that no tool before it has, needs some permission, and needs only
/// permissions that are declared.
pub open spec fn is_tool_in_order(m: ExtensionManifestModel, i: int) -> bool {
    let tool = m.tools[i];
    &&& filled(tool.id)
    &&& forall|j: int| 0 <= j < i ==> (#[trigger] m.tools[j]).id != tool.id
    &&& tool.permissions.len() + tool.permissions_required.len() > 0
    &&& forall|k: int|
        0 <= k < tool.permissions.len() ==> is_permission(#[trigger] tool.permissions[k])
            && has_permission(m, tool.permissions[k])
    &&& forall|k: int|
        0 <= k < tool.permissions_required.len() ==> is_permission(
            #[trigger] tool.permissions_required[k],
        ) && has_permission(m, tool.permissions_required[k])
}

proof fn lemma_refused(m: ExtensionManifestModel, tool: Seq<char>, needed: Seq<Seq<char>>)
    ensures
        declarations::needed_problem(m.permissions, tool, needed) is None <==> forall|k: int|
            0 <= k < needed.len() ==> is_permission(#[trigger] needed[k]) && has_permission(
                m,
                needed[k],
            ),
        declarations::first_refused(m.permissions, tool, needed) is None <==> forall|k: int|
            0 <= k < needed.len() ==> is_permission(#[trigger] needed[k]) && has_permission(
                m,
                needed[k],
            ),
        declarations::first_refused(m.permissions, tool, needed) matches Some(refused)
            ==> declarations::tool_permission_problem(m.permissions, tool, refused) is Some,
    decreases needed.len(),
{
    if needed.len() > 0 {
        let front = needed.drop_last();
        let last = needed.last();
        lemma_refused(m, tool, front);
        law_fields_are_what_they_are_called("permission"@, last);
        lemma_has_permission(m, last);
        assert(declarations::tool_permission_problem(m.permissions, tool, last) is None
            <==> is_permission(last) && has_permission(m, last));
        if declarations::first_refused(m.permissions, tool, needed) is None {
            assert forall|k: int| 0 <= k < needed.len() implies is_permission(#[trigger] needed[k])
                && has_permission(m, needed[k]) by {
                if k < front.len() {
                    assert(front[k] == needed[k]);
                }
            }
        } else if declarations::first_refused(m.permissions, tool, front) is Some {
            let k = choose|k: int|
                0 <= k < front.len() && !(is_permission(#[trigger] front[k]) && has_permission(
                    m,
                    front[k],
                ));
            assert(needed[k] == front[k]);
        } else {
            assert(needed[needed.len() - 1] == last);
        }
    }
}

/// The tools of a manifest are in order exactly where it says that it has tools just if it
/// has some, and each of them is in order.
pub proof fn law_tools_are_in_order(m: ExtensionManifestModel)
    ensures
        declarations::tools_problem(m) is None <==> {
            &&& m.tools.len() > 0 <==> m.types.contains(ExtensionKind::Tool)
            &&& forall|i: int| 0 <= i < m.tools.len() ==> #[trigger] is_tool_in_order(m, i)
        },
{
    reveal(declarations::tools_problem);
    let list = declarations::tool_checks(m);
    checks::lemma_no_problem(list, m.tools.len() as int);
    assert forall|i: int| 0 <= i < m.tools.len() implies (#[trigger] list(i) is None
        <==> is_tool_in_order(m, i)) by {
        lemma_tool(m, i);
    }
    if checks::first_problem(list, m.tools.len() as int) is None {
        assert forall|i: int| 0 <= i < m.tools.len() implies #[trigger] is_tool_in_order(m, i) by {
            assert(list(i) is None);
        }
    } else {
        let i = choose|i: int| 0 <= i < m.tools.len() && !(#[trigger] list(i) is None);
        assert(!is_tool_in_order(m, i));
    }
}

proof fn lemma_tool(m: ExtensionManifestModel, i: int)
    requires
        0 <= i < m.tools.len(),
    ensures
        declarations::tool_problem(m, i) is None <==> is_tool_in_order(m, i),
{
    let tool = m.tools[i];
    let ids = declarations::tool_ids(m.tools);
    let needed = tool.permissions + tool.permissions_required;
    law_fields_are_what_they_are_called("tools.id"@, tool.id);
    lemma_refused(m, tool.id, needed);
    assert forall|j: int| 0 <= j < i implies ids.take(i)[j] == (#[trigger] m.tools[j]).id by {
        assert(ids[j] == m.tools[j].id);
    }
    if ids.take(i).contains(tool.id) {
        let j = choose|j: int| 0 <= j < ids.take(i).len() && ids.take(i)[j] == tool.id;
        assert(m.tools[j].id == tool.id);
    } else {
        assert forall|j: int| 0 <= j < i implies (#[trigger] m.tools[j]).id != tool.id by {
            assert(ids.take(i)[j] == m.tools[j].id);
        }
    }
    if declarations::needed_problem(m.permissions, tool.id, needed) is None {
        assert forall|k: int| 0 <= k < tool.permissions.len() implies is_permission(
            #[trigger] tool.permissions[k],
        ) && has_permission(m, tool.permissions[k]) by {
            assert(needed[k] == tool.permissions[k]);
        }
        assert forall|k: int| 0 <= k < tool.permissions_required.len() implies is_permission(
            #[trigger] tool.permissions_required[k],
        ) && has_permission(m, tool.permissions_required[k]) by {
            assert(needed[tool.permissions.len() + k] == tool.permissions_required[k]);
        }
    } else {
        let k = choose|k: int|
            0 <= k < needed.len() && !(is_permission(#[trigger] needed[k]) && has_permission(
                m,
                needed[k],
            ));
        if k < tool.permissions.len() {
            assert(needed[k] == tool.permissions[k]);
        } else {
            assert(needed[k] == tool.permissions_required[k - tool.permissions.len()]);
        }
    }
}

/// The parts of a service's name are words.
pub open spec fn is_service_named(
    service: Seq<char>,
    method: Seq<char>,
    schema_version: Seq<char>,
) -> bool {
    is_word(service) && is_word(method) && is_word(schema_version)
}

proof fn lemma_service_named(service: Seq<char>, method: Seq<char>, schema_version: Seq<char>)
    ensures
        declarations::service_parts_problem(service, method, schema_version) is None
            <==> is_service_named(service, method, schema_version),
{
    crate::text_laws::law_blank_is_white(service);
    crate::text_laws::law_blank_is_white(method);
    crate::text_laws::law_blank_is_white(schema_version);
    lemma_word(service);
    lemma_word(method);
    lemma_word(schema_version);
}

/// A service that is provided has a proper name that no service before it has, and asks for a
/// declared permission.
pub open spec fn is_provided_well(m: ExtensionManifestModel, i: int) -> bool {
    let s = m.services.provides[i];
    &&& is_service_named(s.service, s.method, s.schema_version)
    &&& is_permission(s.required_permission)
    &&& has_permission(m, s.required_permission)
    &&& forall|j: int|
        0 <= j < i ==> {
            let t = #[trigger] m.services.provides[j];
            t.service + ":"@ + t.method + ":"@ + t.schema_version != s.service + ":"@ + s.method
                + ":"@ + s.schema_version
        }
}

/// A service that is consumed is one of a named extension, has a proper name that none before
/// it has, and asks for a declared permission.
pub open spec fn is_consumed_well(m: ExtensionManifestModel, i: int) -> bool {
    let s = m.services.consumes[i];
    &&& is_dotted(s.extension_id)
    &&& is_service_named(s.service, s.method, s.schema_version)
    &&& is_permission(s.required_permission)
    &&& has_permission(m, s.required_permission)
    &&& forall|j: int|
        0 <= j < i ==> {
            let t = #[trigger] m.services.consumes[j];
            t.extension_id + ":"@ + (t.service + ":"@ + t.method + ":"@ + t.schema_version)
                != s.extension_id + ":"@ + (s.service + ":"@ + s.method + ":"@ + s.schema_version)
        }
}

proof fn lemma_provided(m: ExtensionManifestModel, i: int)
    requires
        0 <= i < m.services.provides.len(),
    ensures
        declarations::provided_problem(m, i) is None <==> is_provided_well(m, i),
{
    let all = m.services.provides;
    let s = all[i];
    let names = declarations::provided_names(all);
    lemma_service_named(s.service, s.method, s.schema_version);
    law_fields_are_what_they_are_called("permission"@, s.required_permission);
    lemma_has_permission(m, s.required_permission);
    assert forall|j: int| 0 <= j < i implies names.take(i)[j] == declarations::provided_name(
        #[trigger] all[j],
    ) by {
        assert(names[j] == declarations::provided_name(all[j]));
    }
    if names.take(i).contains(declarations::provided_name(s)) {
        let j = choose|j: int|
            0 <= j < names.take(i).len() && names.take(i)[j] == declarations::provided_name(s);
        assert(declarations::provided_name(m.services.provides[j]) == declarations::provided_name(s));
    } else {
        assert forall|j: int| 0 <= j < i implies {
            let t = #[trigger] m.services.provides[j];
            t.service + ":"@ + t.method + ":"@ + t.schema_version != s.service + ":"@ + s.method
                + ":"@ + s.schema_version
        } by {
            assert(names.take(i)[j] == declarations::provided_name(all[j]));
        }
    }
}

proof fn lemma_consumed(m: ExtensionManifestModel, i: int)
    requires
        0 <= i < m.services.consumes.len(),
    ensures
        declarations::consumed_problem(m, i) is None <==> is_consumed_well(m, i),
{
    let all = m.services.consumes;
    let s = all[i];
    let names = declarations::consumed_names(all);
    law_fields_are_what_they_are_called("services.consumes.extension_id"@, s.extension_id);
    lemma_service_named(s.service, s.method, s.schema_version);
    law_fields_are_what_they_are_called("permission"@, s.required_permission);
    lemma_has_permission(m, s.required_permission);
    assert forall|j: int| 0 <= j < i implies names.take(i)[j] == declarations::consumed_name(
        #[trigger] all[j],
    ) by {
        assert(names[j] == declarations::consumed_name(all[j]));
    }
    if names.take(i).contains(declarations::consumed_name(s)) {
        let j = choose|j: int|
            0 <= j < names.take(i).len() && names.take(i)[j] == declarations::consumed_name(s);
        assert(declarations::consumed_name(m.services.consumes[j]) == declarations::consumed_name(s));
    } else {
        assert forall|j: int| 0 <= j < i implies {
            let t = #[trigger] m.services.consumes[j];
            t.extension_id + ":"@ + (t.service + ":"@ + t.method + ":"@ + t.schema_version)
                != s.extension_id + ":"@ + (s.service + ":"@ + s.method + ":"@ + s.schema_version)
        } by {
            assert(names.take(i)[j] == declarations::consumed_name(all[j]));
        }
    }
}

/// The services of a manifest are in order exactly where it says that it has services just if
/// it provides or consumes some, and each of them is in order.
pub proof fn law_services_are_in_order(m: ExtensionManifestModel)
    ensures
        declarations::services_problem(m) is None <==> {
            &&& m.services.provides.len() + m.services.consumes.len() > 0 <==> m.types.contains(
                ExtensionKind::Service,
            )
            &&& forall|i: int|
                0 <= i < m.services.provides.len() ==> #[trigger] is_provided_well(m, i)
            &&& forall|i: int|
                0 <= i < m.services.consumes.len() ==> #[trigger] is_consumed_well(m, i)
        },
{
    reveal(declarations::services_problem);
    let provided = declarations::provided_checks(m);
    let consumed = declarations::consumed_checks(m);
    checks::lemma_no_problem(provided, m.services.provides.len() as int);
    checks::lemma_no_problem(consumed, m.services.consumes.len() as int);
    assert forall|i: int| 0 <= i < m.services.provides.len() implies (
    #[trigger] provided(i) is None <==> is_provided_well(m, i)) by {
        lemma_provided(m, i);
    }
    assert forall|i: int| 0 <= i < m.services.consumes.len() implies (
    #[trigger] consumed(i) is None <==> is_consumed_well(m, i)) by {
        lemma_consumed(m, i);
    }
    if checks::first_problem(provided, m.services.provides.len() as int) is None {
        assert forall|i: int|
            0 <= i < m.services.provides.len() implies #[trigger] is_provided_well(m, i) by {
            assert(provided(i) is None);
        }
    } else {
        let i = choose|i: int|
            0 <= i < m.services.provides.len() && !(#[trigger] provided(i) is None);
        assert(!is_provided_well(m, i));
    }
    if checks::first_problem(consumed, m.services.consumes.len() as int) is None {
        assert forall|i: int|
            0 <= i < m.services.consumes.len() implies #[trigger] is_consumed_well(m, i) by {
            assert(consumed(i) is None);
        }
    } else {
        let i = choose|i: int|
            0 <= i < m.services.consumes.len() && !(#[trigger] consumed(i) is None);
        assert(!is_consumed_well(m, i));
    }
}

/// A choice that is left open, or made among the words.
pub open spec fn is_chosen(choice: Option<Seq<char>>, among: Seq<Seq<char>>) -> bool {
    choice matches Some(word) ==> is_word(word) && among.contains(word)
}

proof fn lemma_chosen(field: Seq<char>, choice: Option<Seq<char>>, among: Seq<Seq<char>>)
    ensures
        fields::choice_problem(field, choice, among) is None <==> is_chosen(choice, among),
{
    if choice is Some {
        law_fields_are_what_they_are_called(field, choice->0);
    }
}

/// All of the texts are words.
pub open spec fn are_words(texts: Seq<Seq<char>>) -> bool {
    forall|k: int| 0 <= k < texts.len() ==> is_word(#[trigger] texts[k])
}

proof fn lemma_words(field: Seq<char>, texts: Seq<Seq<char>>)
    ensures
        checks::first_problem(fields::word_checks(field, texts), texts.len() as int) is None
            <==> are_words(texts),
{
    let list = fields::word_checks(field, texts);
    checks::lemma_no_problem(list, texts.len() as int);
    assert forall|k: int| 0 <= k < texts.len() implies (#[trigger] list(k) is None <==> is_word(
        texts[k],
    )) by {
        law_fields_are_what_they_are_called(field, texts[k]);
    }
    if checks::first_problem(list, texts.len() as int) is None {
        assert forall|k: int| 0 <= k < texts.len() implies is_word(#[trigger] texts[k]) by {
            assert(list(k) is None);
        }
    } else {
        let k = choose|k: int| 0 <= k < texts.len() && !(#[trigger] list(k) is None);
        assert(!is_word(texts[k]));
    }
}

/// All of the texts name permissions.
pub open spec fn are_permissions(texts: Seq<Seq<char>>) -> bool {
    forall|k: int| 0 <= k < texts.len() ==> is_permission(#[trigger] texts[k])
}

proof fn lemma_capabilities(field: Seq<char>, texts: Seq<Seq<char>>)
    ensures
        declarations::capabilities_problem(field, texts) is None <==> are_permissions(texts),
{
    let list = fields::name_checks(texts);
    lemma_words(field, texts);
    checks::lemma_no_problem(list, texts.len() as int);
    assert forall|k: int| 0 <= k < texts.len() implies (#[trigger] list(k) is None
        <==> is_permission(texts[k])) by {
        law_fields_are_what_they_are_called("permission"@, texts[k]);
    }
    if checks::first_problem(list, texts.len() as int) is None {
        assert forall|k: int| 0 <= k < texts.len() implies is_permission(#[trigger] texts[k]) by {
            assert(list(k) is None);
        }
    } else {
        let k = choose|k: int| 0 <= k < texts.len() && !(#[trigger] list(k) is None);
        assert(!is_permission(texts[k]));
    }
    if are_permissions(texts) {
        assert forall|k: int| 0 <= k < texts.len() implies is_word(#[trigger] texts[k]) by {
            assert(is_permission(texts[k]));
        }
    }
}

/// A customization of output is of a declared tool that none before it is of, and chooses
/// among what there is.
pub open spec fn is_output_in_order(m: ExtensionManifestModel, i: int) -> bool {
    let o = m.tool_output[i];
    &&& is_tidy(o.tool_id)
    &&& forall|j: int| 0 <= j < i ==> (#[trigger] m.tool_output[j]).tool_id != o.tool_id
    &&& is_chosen(o.format, seq!["toon"@, "json"@])
    &&& is_chosen(o.verbosity, seq!["minimal"@, "normal"@, "expanded"@, "debug"@])
    &&& is_chosen(o.language_mode, seq!["user"@, "english_agent"@, "mixed"@])
    &&& are_words(o.fields)
    &&& are_words(o.redactions)
    &&& exists|j: int| 0 <= j < m.tools.len() && (#[trigger] m.tools[j]).id == o.tool_id
}

proof fn lemma_output(m: ExtensionManifestModel, i: int)
    requires
        0 <= i < m.tool_output.len(),
    ensures
        declarations::output_problem(m, i) is None <==> is_output_in_order(m, i),
{
    let o = m.tool_output[i];
    let outputs = declarations::output_tools(m.tool_output);
    let ids = declarations::tool_ids(m.tools);
    law_fields_are_what_they_are_called("tool_output.tool_id"@, o.tool_id);
    lemma_chosen("tool_output.format"@, o.format, fields::formats());
    lemma_chosen("tool_output.verbosity"@, o.verbosity, fields::verbosities());
    lemma_chosen("tool_output.language_mode"@, o.language_mode, fields::language_modes());
    lemma_words("tool_output.fields"@, o.fields);
    lemma_words("tool_output.redactions"@, o.redactions);
    if outputs.take(i).contains(o.tool_id) {
        let j = choose|j: int| 0 <= j < outputs.take(i).len() && outputs.take(i)[j] == o.tool_id;
        assert(m.tool_output[j].tool_id == o.tool_id);
    } else {
        assert forall|j: int| 0 <= j < i implies (#[trigger] m.tool_output[j]).tool_id
            != o.tool_id by {
            assert(outputs.take(i)[j] == m.tool_output[j].tool_id);
        }
    }
    if ids.contains(o.tool_id) {
        let j = choose|j: int| 0 <= j < ids.len() && ids[j] == o.tool_id;
        assert(m.tools[j].id == o.tool_id);
    } else {
        assert forall|j: int| 0 <= j < m.tools.len() implies (#[trigger] m.tools[j]).id
            != o.tool_id by {
            assert(ids[j] == m.tools[j].id);
        }
    }
}

/// Customizations of output are in order exactly where the manifest says that it customizes,
/// if it does, and each is in order.
pub proof fn law_outputs_are_in_order(m: ExtensionManifestModel)
    ensures
        declarations::tool_output_problem(m) is None <==> {
            &&& m.tool_output.len() > 0 ==> m.types.contains(ExtensionKind::ToolOutputCustomizer)
            &&& forall|i: int| 0 <= i < m.tool_output.len() ==> #[trigger] is_output_in_order(m, i)
        },
{
    reveal(declarations::tool_output_problem);
    let list = declarations::output_checks(m);
    checks::lemma_no_problem(list, m.tool_output.len() as int);
    assert forall|i: int| 0 <= i < m.tool_output.len() implies (#[trigger] list(i) is None
        <==> is_output_in_order(m, i)) by {
        lemma_output(m, i);
    }
    if checks::first_problem(list, m.tool_output.len() as int) is None {
        assert forall|i: int| 0 <= i < m.tool_output.len() implies #[trigger] is_output_in_order(
            m,
            i,
        ) by {
            assert(list(i) is None);
        }
    } else {
        let i = choose|i: int| 0 <= i < m.tool_output.len() && !(#[trigger] list(i) is None);
        assert(!is_output_in_order(m, i));
    }
}

/// A verification is chosen among what there is; to do without is for local development.
pub open spec fn is_verified(choice: Option<Seq<char>>, boundary: ExtensionBoundary) -> bool {
    &&& is_chosen(choice, seq!["hmac"@, "github_signature"@, "oidc"@, "none_for_local_only"@])
    &&& choice == Some("none_for_local_only"@) ==> boundary is LocalDevelopment
}

proof fn lemma_verified(field: Seq<char>, choice: Option<Seq<char>>, boundary: ExtensionBoundary)
    ensures
        declarations::verification_problem(field, choice, boundary) is None <==> is_verified(
            choice,
            boundary,
        ),
{
    lemma_chosen(field, choice, fields::verifications());
}

/// A hook has a name that no hook before it has, a trigger, and chooses among what there is.
pub open spec fn is_hook_in_order(
    hooks: Seq<ExtensionHookDefinitionModel>,
    boundary: ExtensionBoundary,
    i: int,
) -> bool {
    let h = hooks[i];
    &&& is_tidy(h.hook_id)
    &&& forall|j: int| 0 <= j < i ==> (#[trigger] hooks[j]).hook_id != h.hook_id
    &&& h.trigger is Some && is_word(h.trigger->0)
    &&& is_verified(h.verification, boundary)
    &&& are_permissions(h.required_capabilities)
    &&& is_chosen(
        h.action,
        seq!["workflow"@, "tool"@, "notification"@, "memory_update"@, "extension_action"@],
    )
    &&& is_chosen(h.status, seq!["enabled"@, "disabled"@, "blocked"@, "needs_approval"@])
}

proof fn lemma_hook(m: ExtensionManifestModel, boundary: ExtensionBoundary, i: int)
    requires
        0 <= i < m.hooks.len(),
    ensures
        declarations::hook_problem(m, boundary, i) is None <==> is_hook_in_order(
            m.hooks,
            boundary,
            i,
        ),
{
    let h = m.hooks[i];
    let ids = declarations::hook_ids(m.hooks);
    law_fields_are_what_they_are_called("hooks.hook_id"@, h.hook_id);
    if h.trigger is Some {
        law_fields_are_what_they_are_called("hooks.trigger"@, h.trigger->0);
    }
    lemma_verified("hooks.verification"@, h.verification, boundary);
    lemma_capabilities("hooks.required_capabilities"@, h.required_capabilities);
    lemma_chosen("hooks.action"@, h.action, fields::hook_actions());
    lemma_chosen("hooks.status"@, h.status, fields::trigger_statuses());
    if ids.take(i).contains(h.hook_id) {
        let j = choose|j: int| 0 <= j < ids.take(i).len() && ids.take(i)[j] == h.hook_id;
        assert(m.hooks[j].hook_id == h.hook_id);
    } else {
        assert forall|j: int| 0 <= j < i implies (#[trigger] m.hooks[j]).hook_id != h.hook_id by {
            assert(ids.take(i)[j] == m.hooks[j].hook_id);
        }
    }
}

/// The hooks of a manifest are in order exactly where it says that it provides hooks, if it
/// does, and each is in order.
pub proof fn law_hooks_are_in_order(m: ExtensionManifestModel, boundary: ExtensionBoundary)
    ensures
        declarations::hooks_problem(m, boundary) is None <==> {
            &&& m.hooks.len() > 0 ==> m.types.contains(ExtensionKind::HookProvider)
            &&& forall|i: int|
                0 <= i < m.hooks.len() ==> #[trigger] is_hook_in_order(m.hooks, boundary, i)
        },
{
    reveal(declarations::hooks_problem);
    let list = declarations::hook_checks(m, boundary);
    checks::lemma_no_problem(list, m.hooks.len() as int);
    assert forall|i: int| 0 <= i < m.hooks.len() implies (#[trigger] list(i) is None
        <==> is_hook_in_order(m.hooks, boundary, i)) by {
        lemma_hook(m, boundary, i);
    }
    if checks::first_problem(list, m.hooks.len() as int) is None {
        assert forall|i: int| 0 <= i < m.hooks.len() implies #[trigger] is_hook_in_order(
            m.hooks,
            boundary,
            i,
        ) by {
            assert(list(i) is None);
        }
    } else {
        let i = choose|i: int| 0 <= i < m.hooks.len() && !(#[trigger] list(i) is None);
        assert(!is_hook_in_order(m.hooks, boundary, i));
    }
}

/// An address is a word that begins with the secure scheme, the rest of which names a host.
pub open spec fn is_address(words: Seq<char>) -> bool {
    &&& is_word(words)
    &&& starts(words, "https://"@)
    &&& crate::extensions::endpoint::endpoint_fault(words.skip(8)) is None
}

/// A webhook has a name that no webhook before it has, an event and an address, and chooses
/// among what there is.
pub open spec fn is_webhook_in_order(
    webhooks: Seq<ExtensionWebhookDefinitionModel>,
    boundary: ExtensionBoundary,
    i: int,
) -> bool {
    let w = webhooks[i];
    &&& is_tidy(w.webhook_id)
    &&& forall|j: int| 0 <= j < i ==> (#[trigger] webhooks[j]).webhook_id != w.webhook_id
    &&& is_chosen(w.source, seq!["atelia"@, "github"@, "external"@])
    &&& w.event is Some && is_word(w.event->0)
    &&& w.endpoint is Some && is_address(w.endpoint->0)
    &&& is_verified(w.verification, boundary)
    &&& are_permissions(w.required_capabilities)
    &&& is_chosen(w.status, seq!["enabled"@, "disabled"@, "blocked"@, "needs_approval"@])
}

proof fn lemma_webhook(m: ExtensionManifestModel, boundary: ExtensionBoundary, i: int)
    requires
        0 <= i < m.webhooks.len(),
    ensures
        declarations::webhook_problem(m, boundary, i) is None <==> is_webhook_in_order(
            m.webhooks,
            boundary,
            i,
        ),
{
    let w = m.webhooks[i];
    let ids = declarations::webhook_ids(m.webhooks);
    law_fields_are_what_they_are_called("webhooks.webhook_id"@, w.webhook_id);
    if w.event is Some {
        law_fields_are_what_they_are_called("webhooks.event"@, w.event->0);
    }
    if w.endpoint is Some {
        law_fields_are_what_they_are_called("webhooks.endpoint"@, w.endpoint->0);
        reveal_strlit("https://");
        assert("https://"@.len() == 8);
    }
    lemma_verified("webhooks.verification"@, w.verification, boundary);
    lemma_capabilities("webhooks.required_capabilities"@, w.required_capabilities);
    lemma_chosen("webhooks.source"@, w.source, fields::webhook_sources());
    lemma_chosen("webhooks.status"@, w.status, fields::trigger_statuses());
    if ids.take(i).contains(w.webhook_id) {
        let j = choose|j: int| 0 <= j < ids.take(i).len() && ids.take(i)[j] == w.webhook_id;
        assert(m.webhooks[j].webhook_id == w.webhook_id);
    } else {
        assert forall|j: int| 0 <= j < i implies (#[trigger] m.webhooks[j]).webhook_id
            != w.webhook_id by {
            assert(ids.take(i)[j] == m.webhooks[j].webhook_id);
        }
    }
}

/// The webhooks of a manifest are in order exactly where it says that it receives webhooks, if
/// it does, and each is in order.
pub proof fn law_webhooks_are_in_order(m: ExtensionManifestModel, boundary: ExtensionBoundary)
    ensures
        declarations::webhooks_problem(m, boundary) is None <==> {
            &&& m.webhooks.len() > 0 ==> m.types.contains(ExtensionKind::WebhookReceiver)
            &&& forall|i: int|
                0 <= i < m.webhooks.len() ==> #[trigger] is_webhook_in_order(
                    m.webhooks,
                    boundary,
                    i,
                )
        },
{
    reveal(declarations::webhooks_problem);
    let list = declarations::webhook_checks(m, boundary);
    checks::lemma_no_problem(list, m.webhooks.len() as int);
    assert forall|i: int| 0 <= i < m.webhooks.len() implies (#[trigger] list(i) is None
        <==> is_webhook_in_order(m.webhooks, boundary, i)) by {
        lemma_webhook(m, boundary, i);
    }
    if checks::first_problem(list, m.webhooks.len() as int) is None {
        assert forall|i: int| 0 <= i < m.webhooks.len() implies #[trigger] is_webhook_in_order(
            m.webhooks,
            boundary,
            i,
        ) by {
            assert(list(i) is None);
        }
    } else {
        let i = choose|i: int| 0 <= i < m.webhooks.len() && !(#[trigger] list(i) is None);
        assert(!is_webhook_in_order(m.webhooks, boundary, i));
    }
}

/// What is attached is named properly, and a migration starts from versions.
pub proof fn law_attachments_and_migrations_are_named(m: ExtensionManifestModel)
    ensures
        declarations::composition_problem(m) is None <==> forall|i: int|
            0 <= i < m.composition.attachments.len() ==> is_dotted(
                (#[trigger] m.composition.attachments[i]).extension_id,
            ),
        declarations::migration_problem(m) is None <==> forall|i: int|
            0 <= i < m.migration.from.len() ==> is_release(#[trigger] m.migration.from[i]),
{
    reveal(declarations::composition_problem);
    reveal(declarations::migration_problem);
    let attached = declarations::attachment_checks(m);
    let migrated = declarations::migration_checks(m);
    let attachments = m.composition.attachments;
    let from = m.migration.from;
    checks::lemma_no_problem(attached, attachments.len() as int);
    checks::lemma_no_problem(migrated, from.len() as int);
    assert forall|i: int| 0 <= i < attachments.len() implies (#[trigger] attached(i) is None
        <==> is_dotted(attachments[i].extension_id)) by {
        law_fields_are_what_they_are_called(
            "composition.attachments.extension_id"@,
            attachments[i].extension_id,
        );
    }
    assert forall|i: int| 0 <= i < from.len() implies (#[trigger] migrated(i) is None
        <==> is_release(from[i])) by {
        law_fields_are_what_they_are_called("migration.from"@, from[i]);
    }
    if declarations::composition_problem(m) is None {
        assert forall|i: int| 0 <= i < attachments.len() implies is_dotted(
            (#[trigger] attachments[i]).extension_id,
        ) by {
            assert(attached(i) is None);
        }
    } else {
        let i = choose|i: int| 0 <= i < attachments.len() && !(#[trigger] attached(i) is None);
        assert(!is_dotted(m.composition.attachments[i].extension_id));
    }
    if declarations::migration_problem(m) is None {
        assert forall|i: int| 0 <= i < from.len() implies is_release(#[trigger] from[i]) by {
            assert(migrated(i) is None);
        }
    } else {
        let i = choose|i: int| 0 <= i < from.len() && !(#[trigger] migrated(i) is None);
        assert(!is_release(m.migration.from[i]));
    }
}

/// A manifest is accepted exactly where it introduces itself, keeps to its boundary, can be
/// started, tells its provenance, and all that it declares is in order; it then belongs to
/// its boundary.
pub proof fn law_manifests_are_accepted_where_all_is_in_order(
    m: ExtensionManifestModel,
    policy: ManifestValidationPolicyModel,
)
    ensures
        validation::verdict_on(m, policy) is Ok <==> {
            &&& validation::identity_problem(m) is None
            &&& validation::boundary_of(m, policy) is Ok
            &&& {
                let boundary = validation::boundary_of(m, policy)->Ok_0;
                &&& validation::entrypoint_problem(m, boundary, policy) is None
                &&& validation::provenance_problem(m, boundary, policy) is None
                &&& declarations::permissions_problem(m) is None
                &&& declarations::tools_problem(m) is None
                &&& declarations::services_problem(m) is None
                &&& declarations::tool_output_problem(m) is None
                &&& declarations::hooks_problem(m, boundary) is None
                &&& declarations::webhooks_problem(m, boundary) is None
                &&& declarations::composition_problem(m) is None
                &&& declarations::migration_problem(m) is None
            }
        },
        validation::verdict_on(m, policy) is Ok ==> validation::verdict_on(m, policy)->Ok_0
            == validation::boundary_of(m, policy)->Ok_0,
{
}

} // verus!

//! Laws of the registry and of manifest validation.
use vstd::prelude::*;

use crate::checks;
use crate::extensions::declarations;
use crate::extensions::fields;
use crate::extensions::manifest::{
    ExtensionBoundary, ExtensionManifestModel, ExtensionRuntime, ManifestValidationPolicyModel,
    ProvenanceSource,
};
use crate::extensions::records::{
    BlocklistEntryModel, ExtensionInstallRecordModel, ExtensionInstallStatus,
    ExtensionSourceSnapshotModel, InstallOptions, ServiceCallRequestModel,
};
use crate::extensions::registry::ExtensionRegistryModel;
use crate::extensions::registry_model;
use crate::extensions::snapshot;
use crate::extensions::snapshot::ExtensionRegistrySnapshotModel;
use crate::extensions::validation;
use crate::text_map;

verus! {

/// A map of maps whose entries, and those of each inner map, stand in order.
pub open spec fn tidy<M>(maps: Seq<(Seq<char>, Seq<(Seq<char>, M)>)>) -> bool {
    &&& text_map::sorted(maps)
    &&& forall|i: int| 0 <= i < maps.len() ==> text_map::sorted((#[trigger] maps[i]).1)
}

proof fn lemma_insert_keeps_tidy<M>(
    maps: Seq<(Seq<char>, Seq<(Seq<char>, M)>)>,
    key: Seq<char>,
    inner: Seq<char>,
    value: M,
)
    requires
        tidy(maps),
    ensures
        tidy(text_map::entry_inserted(maps, key, inner, value)),
{
    let before = text_map::inner_map(maps, key);
    let map = text_map::inserted(before, inner, value);
    text_map::lemma_value_has_place(maps, key);
    assert(text_map::sorted(before));
    text_map::law_insert_keeps_order(before, inner, value);
    text_map::law_insert_keeps_order(maps, key, map);
    let result = text_map::inserted(maps, key, map);
    text_map::lemma_inserted_entries(maps, key, map);
    assert forall|i: int| 0 <= i < result.len() implies text_map::sorted(
        (#[trigger] result[i]).1,
    ) by {
        if result[i] != (key, map) {
            let j = choose|j: int| 0 <= j < maps.len() && maps[j] == result[i];
            assert(text_map::sorted(maps[j].1));
        }
    }
}

/// A record fits its place, its manifest and the version before it.
pub open spec fn fits(
    s: ExtensionRegistrySnapshotModel,
    id: Seq<char>,
    version: Seq<char>,
    record: ExtensionInstallRecordModel,
) -> bool {
    &&& record.id == id
    &&& record.version == version
    &&& text_map::entry_of(s.manifests, id, version) matches Some(m) && {
        &&& m.id == id
        &&& m.version == version
        &&& m.provenance.artifact_digest == record.artifact_digest
        &&& m.provenance.manifest_digest == record.manifest_digest
        &&& record.source == ExtensionSourceSnapshotModel::of_provenance(m.provenance)
    }
    &&& record.previous_version matches Some(previous) ==> {
        &&& previous != version
        &&& text_map::entry_of(s.manifests, id, previous) is Some
        &&& text_map::entry_of(s.records, id, previous) is Some
    }
}

impl ExtensionRegistrySnapshotModel {
    /// The maps of the snapshot stand in order.
    pub open spec fn in_order(self) -> bool {
        &&& tidy(self.manifests)
        &&& tidy(self.records)
        &&& text_map::sorted(self.active_versions)
    }

    /// Every version has a manifest and a record that fit each other, every active version
    /// is one of them, and no blocklist entry is of the unsupported sort.
    pub open spec fn coherent(self) -> bool {
        &&& forall|id: Seq<char>, version: Seq<char>|
            text_map::entry_of(self.manifests, id, version) is Some ==> #[trigger] text_map::entry_of(
                self.records,
                id,
                version,
            ) is Some
        &&& forall|id: Seq<char>, version: Seq<char>|
            #[trigger]
            text_map::entry_of(self.records, id, version) is Some ==> fits(
                self,
                id,
                version,
                text_map::entry_of(self.records, id, version)->0,
            )
        &&& forall|id: Seq<char>| #[trigger]
            text_map::value_of(self.active_versions, id) is Some ==> text_map::entry_of(
                self.records,
                id,
                text_map::value_of(self.active_versions, id)->0,
            ) is Some
        &&& forall|i: int|
            0 <= i < self.blocklist.len() ==> !((#[trigger] self.blocklist[i]).key
                is VulnerabilityId)
    }
}

proof fn lemma_entry_at<M>(maps: Seq<(Seq<char>, Seq<(Seq<char>, M)>)>, i: int, j: int)
    requires
        tidy(maps),
        0 <= i < maps.len(),
        0 <= j < maps[i].1.len(),
    ensures
        text_map::value_of(maps, maps[i].0) == Some(maps[i].1),
        text_map::entry_of(maps, maps[i].0, maps[i].1[j].0) == Some(maps[i].1[j].1),
{
    text_map::lemma_value_at(maps, i);
    text_map::lemma_value_at(maps[i].1, j);
}

proof fn lemma_coherent_records(s: ExtensionRegistrySnapshotModel, i: int)
    requires
        s.in_order(),
        s.coherent(),
        0 <= i < s.records.len(),
    ensures
        s.record_checks()(i) is None,
{
    let checks = s.version_checks(i);
    checks::lemma_no_problem(checks, s.records[i].1.len() as int);
    assert forall|j: int| 0 <= j < s.records[i].1.len() implies #[trigger] checks(j) is None by {
        lemma_entry_at(s.records, i, j);
        let id = s.records[i].0;
        let version = s.records[i].1[j].0;
        assert(fits(s, id, version, s.records[i].1[j].1));
    }
}

proof fn lemma_coherent_manifests(s: ExtensionRegistrySnapshotModel, i: int)
    requires
        s.in_order(),
        s.coherent(),
        0 <= i < s.manifests.len(),
    ensures
        s.manifest_checks()(i) is None,
{
    let checks = s.manifest_version_checks(i);
    checks::lemma_no_problem(checks, s.manifests[i].1.len() as int);
    assert forall|j: int| 0 <= j < s.manifests[i].1.len() implies #[trigger] checks(j) is None by {
        lemma_entry_at(s.manifests, i, j);
        let id = s.manifests[i].0;
        let version = s.manifests[i].1[j].0;
        assert(text_map::entry_of(s.records, id, version) is Some);
        assert(fits(s, id, version, text_map::entry_of(s.records, id, version)->0));
    }
}

proof fn lemma_coherent_is_accepted(s: ExtensionRegistrySnapshotModel)
    requires
        s.in_order(),
        s.coherent(),
    ensures
        s.structure_problem() is None,
{
    checks::lemma_no_problem(s.record_checks(), s.records.len() as int);
    checks::lemma_no_problem(s.manifest_checks(), s.manifests.len() as int);
    checks::lemma_no_problem(s.active_checks(), s.active_versions.len() as int);
    assert forall|i: int| 0 <= i < s.records.len() implies #[trigger] s.record_checks()(
        i,
    ) is None by {
        lemma_coherent_records(s, i);
    }
    assert forall|i: int| 0 <= i < s.manifests.len() implies #[trigger] s.manifest_checks()(
        i,
    ) is None by {
        lemma_coherent_manifests(s, i);
    }
    assert forall|i: int| 0 <= i < s.active_versions.len() implies #[trigger] s.active_checks()(
        i,
    ) is None by {
        text_map::lemma_value_at(s.active_versions, i);
        let id = s.active_versions[i].0;
        let version = s.active_versions[i].1;
        assert(text_map::value_of(s.active_versions, id) is Some);
        assert(text_map::entry_of(s.records, id, version) is Some);
        assert(fits(s, id, version, text_map::entry_of(s.records, id, version)->0));
    }
}

proof fn lemma_accepted_record(s: ExtensionRegistrySnapshotModel, id: Seq<char>, version: Seq<char>)
    requires
        checks::first_problem(s.record_checks(), s.records.len() as int) is None,
        text_map::entry_of(s.records, id, version) is Some,
    ensures
        fits(s, id, version, text_map::entry_of(s.records, id, version)->0),
{
    checks::lemma_no_problem(s.record_checks(), s.records.len() as int);
    text_map::lemma_value_has_place(s.records, id);
    let i = text_map::place(s.records, id);
    assert(s.record_checks()(i) is None);
    checks::lemma_no_problem(s.version_checks(i), s.records[i].1.len() as int);
    text_map::lemma_value_has_place(s.records[i].1, version);
    let j = text_map::place(s.records[i].1, version);
    assert(s.version_checks(i)(j) is None);
}

proof fn lemma_accepted_manifest(
    s: ExtensionRegistrySnapshotModel,
    id: Seq<char>,
    version: Seq<char>,
)
    requires
        checks::first_problem(s.manifest_checks(), s.manifests.len() as int) is None,
        text_map::entry_of(s.manifests, id, version) is Some,
    ensures
        text_map::entry_of(s.records, id, version) is Some,
{
    checks::lemma_no_problem(s.manifest_checks(), s.manifests.len() as int);
    text_map::lemma_value_has_place(s.manifests, id);
    let i = text_map::place(s.manifests, id);
    assert(s.manifest_checks()(i) is None);
    checks::lemma_no_problem(s.manifest_version_checks(i), s.manifests[i].1.len() as int);
    text_map::lemma_value_has_place(s.manifests[i].1, version);
    let j = text_map::place(s.manifests[i].1, version);
    assert(s.manifest_version_checks(i)(j) is None);
}

/// A snapshot passes its check just where it is coherent.
pub proof fn law_check_accepts_coherent_snapshots(s: ExtensionRegistrySnapshotModel)
    requires
        s.in_order(),
    ensures
        s.structure_problem() is None <==> s.coherent(),
{
    if s.coherent() {
        lemma_coherent_is_accepted(s);
    }
    if s.structure_problem() is None {
        assert forall|id: Seq<char>, version: Seq<char>|
            text_map::entry_of(s.manifests, id, version)
                is Some implies #[trigger] text_map::entry_of(s.records, id, version) is Some by {
            lemma_accepted_manifest(s, id, version);
        }
        assert forall|id: Seq<char>, version: Seq<char>| #[trigger]
            text_map::entry_of(s.records, id, version) is Some implies fits(
            s,
            id,
            version,
            text_map::entry_of(s.records, id, version)->0,
        ) by {
            lemma_accepted_record(s, id, version);
        }
        assert forall|id: Seq<char>| #[trigger]
            text_map::value_of(s.active_versions, id) is Some implies text_map::entry_of(
            s.records,
            id,
            text_map::value_of(s.active_versions, id)->0,
        ) is Some by {
            checks::lemma_no_problem(s.active_checks(), s.active_versions.len() as int);
            text_map::lemma_value_has_place(s.active_versions, id);
            let i = text_map::place(s.active_versions, id);
            assert(s.active_checks()(i) is None);
        }
    }
}

impl ExtensionRegistryModel {
    /// The registry's contents are in order and fit together.
    pub open spec fn coherent(self) -> bool {
        &&& self.snapshot().in_order()
        &&& self.snapshot().coherent()
    }

    /// Every record says of its manifest what validation under the host's policy says.
    pub open spec fn agrees_with_policy(self) -> bool {
        forall|id: Seq<char>, version: Seq<char>| #[trigger]
            text_map::entry_of(self.records, id, version) is Some ==> validation::verdict_on(
                text_map::entry_of(self.manifests, id, version)->0,
                self.validation_policy,
            ) == Ok::<_, crate::extensions::manifest::ExtensionValidationErrorModel>(
                text_map::entry_of(self.records, id, version)->0.boundary,
            )
    }
}

/// An empty registry is coherent and agrees with its policy.
pub proof fn law_empty_registry_is_coherent(policy: ManifestValidationPolicyModel)
    ensures
        ExtensionRegistryModel::empty(policy).coherent(),
        ExtensionRegistryModel::empty(policy).agrees_with_policy(),
{
    let r = ExtensionRegistryModel::empty(policy);
    assert forall|id: Seq<char>, version: Seq<char>| #[trigger]
        text_map::entry_of(r.records, id, version) is None by {
        text_map::lemma_value_has_place(r.records, id);
    }
    assert forall|id: Seq<char>, version: Seq<char>| #[trigger]
        text_map::entry_of(r.manifests, id, version) is None by {
        text_map::lemma_value_has_place(r.manifests, id);
    }
    assert forall|id: Seq<char>| #[trigger]
        text_map::value_of(r.active_versions, id) is None by {
        text_map::lemma_value_has_place(r.active_versions, id);
    }
}

/// Installing keeps a registry coherent.
pub proof fn law_install_keeps_coherence(
    r: ExtensionRegistryModel,
    m: ExtensionManifestModel,
    options: InstallOptions,
)
    requires
        r.coherent(),
        r.install(m, options) is Ok,
    ensures
        r.install(m, options)->Ok_0.0.coherent(),
{
    let boundary = r.preflight(m, options)->Ok_0;
    let record = r.record_for(m, boundary);
    let after = r.holding(m, record);
    lemma_insert_keeps_tidy(r.manifests, m.id, m.version, m);
    lemma_insert_keeps_tidy(r.records, m.id, m.version, record);
    text_map::law_insert_keeps_order(r.active_versions, m.id, m.version);
    let s = r.snapshot();
    let t = after.snapshot();
    assert forall|id: Seq<char>, version: Seq<char>|
        text_map::entry_of(t.manifests, id, version) is Some implies #[trigger] text_map::entry_of(
        t.records,
        id,
        version,
    ) is Some by {
        text_map::law_insert_in_then_get(r.manifests, m.id, m.version, m, id, version);
        text_map::law_insert_in_then_get(r.records, m.id, m.version, record, id, version);
        assert(text_map::entry_of(s.manifests, id, version) is Some ==> text_map::entry_of(
            s.records,
            id,
            version,
        ) is Some);
    }
    assert forall|id: Seq<char>, version: Seq<char>| #[trigger]
        text_map::entry_of(t.records, id, version) is Some implies fits(
        t,
        id,
        version,
        text_map::entry_of(t.records, id, version)->0,
    ) by {
        lemma_install_keeps_fit(r, m, record, id, version);
    }
    assert forall|id: Seq<char>| #[trigger]
        text_map::value_of(t.active_versions, id) is Some implies text_map::entry_of(
        t.records,
        id,
        text_map::value_of(t.active_versions, id)->0,
    ) is Some by {
        text_map::law_insert_then_get(r.active_versions, m.id, m.version, id);
        let version = text_map::value_of(t.active_versions, id)->0;
        text_map::law_insert_in_then_get(r.records, m.id, m.version, record, id, version);
    }
}

proof fn lemma_install_keeps_fit(
    r: ExtensionRegistryModel,
    m: ExtensionManifestModel,
    record: ExtensionInstallRecordModel,
    id: Seq<char>,
    version: Seq<char>,
)
    requires
        r.coherent(),
        exists|boundary: ExtensionBoundary| record == #[trigger] r.record_for(m, boundary),
        text_map::entry_of(r.holding(m, record).records, id, version) is Some,
    ensures
        fits(
            r.holding(m, record).snapshot(),
            id,
            version,
            text_map::entry_of(r.holding(m, record).records, id, version)->0,
        ),
{
    let s = r.snapshot();
    let t = r.holding(m, record).snapshot();
    text_map::law_insert_in_then_get(r.manifests, m.id, m.version, m, id, version);
    text_map::law_insert_in_then_get(r.records, m.id, m.version, record, id, version);
    let found = text_map::entry_of(t.records, id, version)->0;
    if id == m.id && version == m.version {
        assert(found == record);
        if record.previous_version is Some {
            let previous = record.previous_version->0;
            assert(text_map::value_of(s.active_versions, m.id) == Some(previous));
            assert(text_map::entry_of(s.records, id, previous) is Some);
            assert(fits(s, id, previous, text_map::entry_of(s.records, id, previous)->0));
            text_map::law_insert_in_then_get(r.manifests, m.id, m.version, m, id, previous);
            text_map::law_insert_in_then_get(r.records, m.id, m.version, record, id, previous);
        }
    } else {
        assert(text_map::entry_of(s.records, id, version) == Some(found));
        assert(fits(s, id, version, found));
        if found.previous_version is Some {
            let previous = found.previous_version->0;
            text_map::law_insert_in_then_get(r.manifests, m.id, m.version, m, id, previous);
            text_map::law_insert_in_then_get(r.records, m.id, m.version, record, id, previous);
        }
    }
}

/// A new status of a stored record keeps a registry coherent.
proof fn lemma_status_keeps_coherence(
    r: ExtensionRegistryModel,
    at: Seq<char>,
    which: Seq<char>,
    status: ExtensionInstallStatus,
)
    requires
        r.coherent(),
        text_map::entry_of(r.records, at, which) is Some,
    ensures
        r.with_record(
            at,
            which,
            (ExtensionInstallRecordModel {
                status,
                ..text_map::entry_of(r.records, at, which)->0
            }),
        ).coherent(),
{
    let old_record = text_map::entry_of(r.records, at, which)->0;
    let record = ExtensionInstallRecordModel { status, ..old_record };
    let s = r.snapshot();
    let t = r.with_record(at, which, record).snapshot();
    lemma_insert_keeps_tidy(r.records, at, which, record);
    assert(fits(s, at, which, old_record));
    assert forall|id: Seq<char>, version: Seq<char>|
        text_map::entry_of(t.manifests, id, version) is Some implies #[trigger] text_map::entry_of(
        t.records,
        id,
        version,
    ) is Some by {
        text_map::law_insert_in_then_get(r.records, at, which, record, id, version);
        assert(text_map::entry_of(s.records, id, version) is Some);
    }
    assert forall|id: Seq<char>, version: Seq<char>| #[trigger]
        text_map::entry_of(t.records, id, version) is Some implies fits(
        t,
        id,
        version,
        text_map::entry_of(t.records, id, version)->0,
    ) by {
        text_map::law_insert_in_then_get(r.records, at, which, record, id, version);
        assert(text_map::entry_of(s.records, id, version) is Some);
        let before = text_map::entry_of(s.records, id, version)->0;
        assert(fits(s, id, version, before));
        if before.previous_version is Some {
            text_map::law_insert_in_then_get(
                r.records,
                at,
                which,
                record,
                id,
                before.previous_version->0,
            );
        }
    }
    assert forall|id: Seq<char>| #[trigger]
        text_map::value_of(t.active_versions, id) is Some implies text_map::entry_of(
        t.records,
        id,
        text_map::value_of(t.active_versions, id)->0,
    ) is Some by {
        assert(text_map::value_of(s.active_versions, id) is Some);
        let version = text_map::value_of(t.active_versions, id)->0;
        text_map::law_insert_in_then_get(r.records, at, which, record, id, version);
    }
}

/// Disabling, enabling, removing and rolling back keep a registry coherent.
pub proof fn law_status_changes_keep_coherence(r: ExtensionRegistryModel, extension_id: Seq<char>)
    requires
        r.coherent(),
    ensures
        r.disable(extension_id) is Ok ==> r.disable(extension_id)->Ok_0.0.coherent(),
        r.enable(extension_id) is Ok ==> r.enable(extension_id)->Ok_0.0.coherent(),
        r.remove(extension_id) is Ok ==> r.remove(extension_id)->Ok_0.0.coherent(),
        r.rollback(extension_id) is Ok ==> r.rollback(extension_id)->Ok_0.0.coherent(),
{
    if r.disable(extension_id) is Ok {
        let version = text_map::value_of(r.active_versions, extension_id)->0;
        lemma_status_keeps_coherence(r, extension_id, version, ExtensionInstallStatus::Disabled);
        let disabled = r.disable(extension_id)->Ok_0.0;
        let s = disabled.snapshot();
        let after = r.remove(extension_id)->Ok_0.0;
        let t = after.snapshot();
        text_map::law_remove_keeps_order(disabled.active_versions, extension_id);
        assert forall|id: Seq<char>| #[trigger]
            text_map::value_of(t.active_versions, id) is Some implies text_map::entry_of(
            t.records,
            id,
            text_map::value_of(t.active_versions, id)->0,
        ) is Some by {
            text_map::law_remove_then_get(disabled.active_versions, extension_id, id);
            assert(text_map::value_of(s.active_versions, id) is Some);
        }
        lemma_same_versions_stay_coherent(s, t);
    }
    if r.enable(extension_id) is Ok {
        let version = text_map::value_of(r.active_versions, extension_id)->0;
        lemma_status_keeps_coherence(r, extension_id, version, ExtensionInstallStatus::Installed);
    }
    if r.rollback(extension_id) is Ok {
        let version = r.active_record(extension_id)->0.previous_version->0;
        let status = ExtensionInstallStatus::InstalledPreviousVersion;
        lemma_status_keeps_coherence(r, extension_id, version, status);
        let record = ExtensionInstallRecordModel {
            status,
            ..text_map::entry_of(r.records, extension_id, version)->0
        };
        let middle = r.with_record(extension_id, version, record);
        let s = middle.snapshot();
        let t = r.rollback(extension_id)->Ok_0.0.snapshot();
        text_map::law_insert_keeps_order(r.active_versions, extension_id, version);
        assert forall|id: Seq<char>| #[trigger]
            text_map::value_of(t.active_versions, id) is Some implies text_map::entry_of(
            t.records,
            id,
            text_map::value_of(t.active_versions, id)->0,
        ) is Some by {
            text_map::law_insert_then_get(r.active_versions, extension_id, version, id);
            text_map::law_insert_in_then_get(
                r.records,
                extension_id,
                version,
                record,
                extension_id,
                version,
            );
            assert(id != extension_id ==> text_map::value_of(s.active_versions, id) is Some);
        }
        lemma_same_versions_stay_coherent(s, t);
    }
}

/// Two snapshots that differ in the active versions alone.
proof fn lemma_same_versions_stay_coherent(
    s: ExtensionRegistrySnapshotModel,
    t: ExtensionRegistrySnapshotModel,
)
    requires
        s.coherent(),
        s.in_order(),
        t == (ExtensionRegistrySnapshotModel { active_versions: t.active_versions, ..s }),
        text_map::sorted(t.active_versions),
        forall|id: Seq<char>| #[trigger]
            text_map::value_of(t.active_versions, id) is Some ==> text_map::entry_of(
                t.records,
                id,
                text_map::value_of(t.active_versions, id)->0,
            ) is Some,
    ensures
        t.coherent(),
        t.in_order(),
{
    assert forall|id: Seq<char>, version: Seq<char>| #[trigger]
        text_map::entry_of(t.records, id, version) is Some implies fits(
        t,
        id,
        version,
        text_map::entry_of(t.records, id, version)->0,
    ) by {
        assert(fits(s, id, version, text_map::entry_of(s.records, id, version)->0));
    }
}

/// An accepted blocklist entry keeps a registry coherent.
pub proof fn law_blocking_keeps_coherence(r: ExtensionRegistryModel, entry: BlocklistEntryModel)
    requires
        r.coherent(),
        r.blocking(entry) is Ok,
    ensures
        r.blocking(entry)->Ok_0.coherent(),
{
    let s = r.snapshot();
    let t = r.blocking(entry)->Ok_0.snapshot();
    assert forall|id: Seq<char>, version: Seq<char>| #[trigger]
        text_map::entry_of(t.records, id, version) is Some implies fits(
        t,
        id,
        version,
        text_map::entry_of(t.records, id, version)->0,
    ) by {
        assert(fits(s, id, version, text_map::entry_of(s.records, id, version)->0));
    }
    assert forall|i: int| 0 <= i < t.blocklist.len() implies !((#[trigger] t.blocklist[i]).key
        is VulnerabilityId) by {
        if i < s.blocklist.len() {
            assert(t.blocklist[i] == s.blocklist[i]);
        }
    }
}

/// An installation that the host's policy allows without the caller's own approvals
/// keeps the registry in agreement with the policy.
pub proof fn law_install_keeps_agreement_with_policy(
    r: ExtensionRegistryModel,
    m: ExtensionManifestModel,
    options: InstallOptions,
)
    requires
        r.agrees_with_policy(),
        r.install(m, options) is Ok,
        registry_model::policy_with(r.validation_policy, options) == r.validation_policy,
    ensures
        r.install(m, options)->Ok_0.0.agrees_with_policy(),
{
    let boundary = r.preflight(m, options)->Ok_0;
    let record = r.record_for(m, boundary);
    let after = r.holding(m, record);
    assert forall|id: Seq<char>, version: Seq<char>| #[trigger]
        text_map::entry_of(after.records, id, version) is Some implies validation::verdict_on(
        text_map::entry_of(after.manifests, id, version)->0,
        after.validation_policy,
    ) == Ok::<_, crate::extensions::manifest::ExtensionValidationErrorModel>(
        text_map::entry_of(after.records, id, version)->0.boundary,
    ) by {
        text_map::law_insert_in_then_get(r.manifests, m.id, m.version, m, id, version);
        text_map::law_insert_in_then_get(r.records, m.id, m.version, record, id, version);
        assert(text_map::entry_of(r.records, id, version) is Some || (id == m.id && version
            == m.version));
    }
}

/// A coherent registry that agrees with its policy is restored from its snapshot as it
/// was.
pub proof fn law_snapshot_is_restored(r: ExtensionRegistryModel)
    requires
        r.coherent(),
        r.agrees_with_policy(),
    ensures
        r.snapshot().policy_problem(r.validation_policy) is None,
        ExtensionRegistryModel::restored(r.snapshot(), r.validation_policy) == r,
{
    let s = r.snapshot();
    let policy = r.validation_policy;
    lemma_coherent_is_accepted(s);
    checks::lemma_no_problem(s.boundary_checks(policy), s.records.len() as int);
    assert forall|i: int| 0 <= i < s.records.len() implies #[trigger] s.boundary_checks(policy)(
        i,
    ) is None by {
        let checks = s.boundary_version_checks(policy, i);
        checks::lemma_no_problem(checks, s.records[i].1.len() as int);
        assert forall|j: int| 0 <= j < s.records[i].1.len() implies #[trigger] checks(
            j,
        ) is None by {
            lemma_entry_at(s.records, i, j);
            let id = s.records[i].0;
            let version = s.records[i].1[j].0;
            assert(text_map::entry_of(r.records, id, version) is Some);
            assert(fits(s, id, version, s.records[i].1[j].1));
        }
    }
}

/// Validating a manifest gives the verdict that installing it would give, error for
/// error.
pub proof fn law_validation_foretells_installation(
    r: ExtensionRegistryModel,
    m: ExtensionManifestModel,
    options: InstallOptions,
)
    ensures
        r.validate(m, options) is Ok <==> r.install(m, options) is Ok,
        r.validate(m, options) is Ok ==> r.validate(m, options)->Ok_0.boundary == r.install(
            m,
            options,
        )->Ok_0.1.boundary,
        r.validate(m, options) is Err ==> r.validate(m, options)->Err_0 == r.install(
            m,
            options,
        )->Err_0,
{
}

/// An installed manifest is active, ready for calls, and described by the record that
/// was answered; all other extensions are as before.
pub proof fn law_installed_extension_is_active(
    r: ExtensionRegistryModel,
    m: ExtensionManifestModel,
    options: InstallOptions,
    other: Seq<char>,
)
    requires
        r.install(m, options) is Ok,
    ensures
        ({
            let (after, record) = r.install(m, options)->Ok_0;
            &&& after.active_manifest(m.id) == Some(m)
            &&& after.active_record(m.id) == Some(record)
            &&& record.status == ExtensionInstallStatus::Installed
            &&& after.readiness_problem(m.id, "caller"@) is None
            &&& other != m.id ==> after.active_record(other) == r.active_record(other)
            &&& other != m.id ==> after.active_manifest(other) == r.active_manifest(other)
        }),
{
    let (after, record) = r.install(m, options)->Ok_0;
    text_map::law_insert_then_get(r.active_versions, m.id, m.version, other);
    text_map::law_insert_in_then_get(r.manifests, m.id, m.version, m, m.id, m.version);
    text_map::law_insert_in_then_get(r.records, m.id, m.version, record, m.id, m.version);
    if other != m.id && text_map::value_of(r.active_versions, other) is Some {
        let version = text_map::value_of(r.active_versions, other)->0;
        text_map::law_insert_in_then_get(r.manifests, m.id, m.version, m, other, version);
        text_map::law_insert_in_then_get(r.records, m.id, m.version, record, other, version);
    }
}

/// Rolling back an update makes the version before it active again, with its record but
/// for the status that says so, unless that version is blocked.
pub proof fn law_rollback_undoes_an_update(
    r: ExtensionRegistryModel,
    m: ExtensionManifestModel,
    options: InstallOptions,
)
    requires
        r.coherent(),
        r.install(m, options) is Ok,
        text_map::value_of(r.active_versions, m.id) is Some,
        text_map::value_of(r.active_versions, m.id)->0 != m.version,
        r.blocked_problem(r.active_manifest(m.id)->0) is None,
    ensures
        ({
            let updated = r.install(m, options)->Ok_0.0;
            &&& updated.rollback(m.id) is Ok
            &&& updated.rollback(m.id)->Ok_0.0.active_manifest(m.id) == r.active_manifest(m.id)
            &&& updated.rollback(m.id)->Ok_0.0.active_record(m.id) == Some(
                ExtensionInstallRecordModel {
                    status: ExtensionInstallStatus::InstalledPreviousVersion,
                    ..r.active_record(m.id)->0
                },
            )
        }),
{
    let (updated, record) = r.install(m, options)->Ok_0;
    let previous = text_map::value_of(r.active_versions, m.id)->0;
    law_installed_extension_is_active(r, m, options, m.id);
    assert(text_map::entry_of(r.snapshot().records, m.id, previous) is Some);
    assert(fits(r.snapshot(), m.id, previous, r.active_record(m.id)->0));
    text_map::law_insert_in_then_get(r.manifests, m.id, m.version, m, m.id, previous);
    text_map::law_insert_in_then_get(r.records, m.id, m.version, record, m.id, previous);
    assert(record.previous_version == Some(previous));
    let restored = ExtensionInstallRecordModel {
        status: ExtensionInstallStatus::InstalledPreviousVersion,
        ..r.active_record(m.id)->0
    };
    text_map::law_insert_then_get(updated.active_versions, m.id, previous, m.id);
    text_map::law_insert_in_then_get(updated.records, m.id, previous, restored, m.id, previous);
}

proof fn lemma_first_hit(blocklist: Seq<BlocklistEntryModel>, m: ExtensionManifestModel, i: int)
    requires
        0 <= i < blocklist.len(),
        blocklist[i].key.covers(m),
    ensures
        registry_model::first_hit(blocklist, m) is Some,
    decreases blocklist.len(),
{
    if !blocklist[0].key.covers(m) {
        lemma_first_hit(blocklist.drop_first(), m, i - 1);
    }
}

/// A manifest that a blocklist entry covers is refused by validation and by installation.
pub proof fn law_blocked_manifest_is_refused(
    r: ExtensionRegistryModel,
    entry: BlocklistEntryModel,
    m: ExtensionManifestModel,
    options: InstallOptions,
)
    requires
        r.blocklist.contains(entry),
        entry.key.covers(m),
    ensures
        r.install(m, options) is Err,
        r.validate(m, options) is Err,
{
    let i = choose|i: int| 0 <= i < r.blocklist.len() && r.blocklist[i] == entry;
    lemma_first_hit(r.blocklist, m, i);
}

/// An active extension that a blocklist entry covers shows as blocked, cannot be enabled,
/// and takes part in no service call.
pub proof fn law_blocked_extension_is_out_of_use(
    r: ExtensionRegistryModel,
    entry: BlocklistEntryModel,
    extension_id: Seq<char>,
    request: ServiceCallRequestModel,
)
    requires
        r.blocklist.contains(entry),
        r.active_manifest(extension_id) is Some,
        r.active_record(extension_id) is Some,
        entry.key.covers(r.active_manifest(extension_id)->0),
        request.caller_extension_id == extension_id || request.callee_extension_id == extension_id,
    ensures
        r.extension_status(extension_id) is Ok,
        r.extension_status(extension_id)->Ok_0.record.status == ExtensionInstallStatus::Blocked,
        r.extension_status(extension_id)->Ok_0.block is Some,
        r.enable(extension_id) is Err,
        r.authorize(request) is Err,
{
    let i = choose|i: int| 0 <= i < r.blocklist.len() && r.blocklist[i] == entry;
    lemma_first_hit(r.blocklist, r.active_manifest(extension_id)->0, i);
}

/// A rollback never leads to a blocked version.
pub proof fn law_rollback_avoids_blocked_versions(
    r: ExtensionRegistryModel,
    extension_id: Seq<char>,
)
    requires
        r.rollback(extension_id) is Ok,
    ensures
        ({
            let after = r.rollback(extension_id)->Ok_0.0;
            &&& after.active_manifest(extension_id) is Some
            &&& after.blocked_problem(after.active_manifest(extension_id)->0) is None
        }),
{
    let version = r.active_record(extension_id)->0.previous_version->0;
    text_map::law_insert_then_get(r.active_versions, extension_id, version, extension_id);
}

/// An accepted blocklist entry takes effect at once and those before it stay.
pub proof fn law_blocking_takes_effect(
    r: ExtensionRegistryModel,
    entry: BlocklistEntryModel,
    m: ExtensionManifestModel,
)
    requires
        r.blocking(entry) is Ok,
    ensures
        entry.key.covers(m) ==> r.blocking(entry)->Ok_0.block_hit(m) is Some,
        r.block_hit(m) is Some ==> r.blocking(entry)->Ok_0.block_hit(m) == r.block_hit(m),
{
    let after = r.blocking(entry)->Ok_0;
    if entry.key.covers(m) {
        assert(after.blocklist[r.blocklist.len() as int] == entry);
        lemma_first_hit(after.blocklist, m, r.blocklist.len() as int);
    }
    if r.block_hit(m) is Some {
        lemma_first_hit_stays(r.blocklist, entry, m);
    }
}

proof fn lemma_first_hit_stays(
    blocklist: Seq<BlocklistEntryModel>,
    entry: BlocklistEntryModel,
    m: ExtensionManifestModel,
)
    requires
        registry_model::first_hit(blocklist, m) is Some,
    ensures
        registry_model::first_hit(blocklist.push(entry), m) == registry_model::first_hit(
            blocklist,
            m,
        ),
    decreases blocklist.len(),
{
    if !blocklist[0].key.covers(m) {
        lemma_first_hit_stays(blocklist.drop_first(), entry, m);
        assert(blocklist.push(entry).drop_first() =~= blocklist.drop_first().push(entry));
    }
}

/// A version that was installed cannot be installed again with another digest.
pub proof fn law_installed_version_keeps_its_digests(
    r: ExtensionRegistryModel,
    m: ExtensionManifestModel,
    options: InstallOptions,
    changed: ExtensionManifestModel,
    later: InstallOptions,
)
    requires
        r.install(m, options) is Ok,
        changed.id == m.id,
        changed.version == m.version,
        changed.provenance.manifest_digest != m.provenance.manifest_digest
            || changed.provenance.artifact_digest != m.provenance.artifact_digest,
    ensures
        r.install(m, options)->Ok_0.0.install(changed, later) is Err,
{
    let record = r.install(m, options)->Ok_0.1;
    text_map::law_insert_in_then_get(r.records, m.id, m.version, record, m.id, m.version);
}

/// An active extension does not change its source authority without approval.
pub proof fn law_source_change_needs_approval(
    r: ExtensionRegistryModel,
    m: ExtensionManifestModel,
    options: InstallOptions,
)
    requires
        r.active_record(m.id) is Some,
        !r.active_record(m.id)->0.source.same_authority(
            ExtensionSourceSnapshotModel::of_provenance(m.provenance),
        ),
        options.approve_source_change != Some(true),
    ensures
        r.install(m, options) is Err,
{
}

/// A disabled extension takes part in no service call until it is enabled, which gives
/// it back as it was but for the status.
pub proof fn law_disabled_extension_rests(
    r: ExtensionRegistryModel,
    extension_id: Seq<char>,
    request: ServiceCallRequestModel,
)
    requires
        r.disable(extension_id) is Ok,
        request.caller_extension_id == extension_id || request.callee_extension_id == extension_id,
    ensures
        ({
            let disabled = r.disable(extension_id)->Ok_0.0;
            &&& disabled.authorize(request) is Err
            &&& disabled.active_manifest(extension_id) == r.active_manifest(extension_id)
            &&& r.enable(extension_id) is Ok ==> {
                &&& disabled.enable(extension_id) is Ok
                &&& disabled.enable(extension_id)->Ok_0.1 == r.enable(extension_id)->Ok_0.1
            }
        }),
{
    let version = text_map::value_of(r.active_versions, extension_id)->0;
    let (disabled, record) = r.disable(extension_id)->Ok_0;
    text_map::law_insert_in_then_get(
        r.records,
        extension_id,
        version,
        record,
        extension_id,
        version,
    );
    assert(disabled.active_record(extension_id) == Some(record));
    assert(disabled.readiness_problem(extension_id, "caller"@) is Some);
    assert(disabled.readiness_problem(extension_id, "callee"@) is Some);
}

/// A removed extension is not installed any more, though its records stay.
pub proof fn law_removed_extension_is_not_installed(
    r: ExtensionRegistryModel,
    extension_id: Seq<char>,
    id: Seq<char>,
    version: Seq<char>,
)
    requires
        r.coherent(),
        r.remove(extension_id) is Ok,
    ensures
        ({
            let after = r.remove(extension_id)->Ok_0.0;
            &&& after.active_record(extension_id) is None
            &&& after.extension_status(extension_id) == Err::<
                crate::extensions::records::ExtensionStatusSnapshotModel,
                _,
            >(registry_model::not_installed_error(extension_id))
            &&& after.remove(extension_id) is Err
            &&& after.manifests == r.manifests
            &&& text_map::entry_of(r.records, id, version) is Some <==> text_map::entry_of(
                after.records,
                id,
                version,
            ) is Some
        }),
{
    let active = text_map::value_of(r.active_versions, extension_id)->0;
    let record = r.disable(extension_id)->Ok_0.1;
    text_map::law_remove_then_get(r.active_versions, extension_id, extension_id);
    text_map::law_insert_in_then_get(r.records, extension_id, active, record, id, version);
}

proof fn lemma_consumed_is_declared(
    consumes: Seq<crate::extensions::manifest::ExtensionServiceDependencyModel>,
    request: ServiceCallRequestModel,
)
    ensures
        registry_model::first_consumed(consumes, request) matches Some(d) ==> consumes.contains(d)
            && registry_model::consumes_requested(d, request),
    decreases consumes.len(),
{
    if consumes.len() > 0 {
        let rest = consumes.drop_first();
        if registry_model::consumes_requested(consumes[0], request) {
            assert(consumes.contains(consumes[0]));
        } else {
            lemma_consumed_is_declared(rest, request);
            if registry_model::first_consumed(rest, request) is Some {
                let d = registry_model::first_consumed(rest, request)->0;
                let i = choose|i: int| 0 <= i < rest.len() && rest[i] == d;
                assert(consumes[i + 1] == d);
            }
        }
    }
}

proof fn lemma_provided_is_declared(
    provides: Seq<crate::extensions::manifest::ExtensionServiceDefinitionModel>,
    request: ServiceCallRequestModel,
)
    ensures
        registry_model::first_provided(provides, request) matches Some(d) ==> provides.contains(d)
            && registry_model::provides_requested(d, request),
    decreases provides.len(),
{
    if provides.len() > 0 {
        let rest = provides.drop_first();
        if registry_model::provides_requested(provides[0], request) {
            assert(provides.contains(provides[0]));
        } else {
            lemma_provided_is_declared(rest, request);
            if registry_model::first_provided(rest, request) is Some {
                let d = registry_model::first_provided(rest, request)->0;
                let i = choose|i: int| 0 <= i < rest.len() && rest[i] == d;
                assert(provides[i + 1] == d);
            }
        }
    }
}

/// A call is granted only between two active extensions that are not blocked, where the
/// caller declares the service, the callee provides it, and both hold the granted
/// permission and mean the same by it.
pub proof fn law_grants_rest_on_both_sides(
    r: ExtensionRegistryModel,
    request: ServiceCallRequestModel,
)
    requires
        r.authorize(request) is Ok,
    ensures
        ({
            let grant = r.authorize(request)->Ok_0;
            let caller = r.active_manifest(request.caller_extension_id);
            let callee = r.active_manifest(request.callee_extension_id);
            let permission = grant.required_permission;
            &&& caller is Some && callee is Some
            &&& r.block_hit(caller->0) is None && r.block_hit(callee->0) is None
            &&& exists|d: crate::extensions::manifest::ExtensionServiceDependencyModel|
                caller->0.services.consumes.contains(d) && d.required_permission == permission
                    && #[trigger] registry_model::consumes_requested(d, request)
            &&& exists|d: crate::extensions::manifest::ExtensionServiceDefinitionModel|
                callee->0.services.provides.contains(d) && d.required_permission == permission
                    && #[trigger] registry_model::provides_requested(d, request)
            &&& text_map::value_of(caller->0.permissions, permission) is Some
            &&& text_map::value_of(caller->0.permissions, permission) == text_map::value_of(
                callee->0.permissions,
                permission,
            )
            &&& request.required_permission matches Some(asked) ==> asked == permission
        }),
{
    let caller = r.active_manifest(request.caller_extension_id)->0;
    let callee = r.active_manifest(request.callee_extension_id)->0;
    lemma_consumed_is_declared(caller.services.consumes, request);
    lemma_provided_is_declared(callee.services.provides, request);
    assert(registry_model::first_consumed(caller.services.consumes, request) is Some);
    assert(registry_model::first_provided(callee.services.provides, request) is Some);
}

/// An accepted manifest is signed by a named signer, unless it is for local development
/// and the host lets that go unsigned.
pub proof fn law_accepted_manifest_is_signed(
    m: ExtensionManifestModel,
    policy: ManifestValidationPolicyModel,
)
    requires
        validation::verdict_on(m, policy) is Ok,
        validation::verdict_on(m, policy)->Ok_0 != ExtensionBoundary::LocalDevelopment
            || !policy.allow_local_unsigned,
    ensures
        fields::has_content(m.provenance.signature),
        fields::has_content(m.provenance.signer),
{
    reveal(validation::provenance_problem);
}

/// A manifest counts as official just under the official namespace and on the official
/// registry's word, and as local just under the local namespace and from a local source.
pub proof fn law_boundaries_need_their_namespace(
    m: ExtensionManifestModel,
    policy: ManifestValidationPolicyModel,
)
    requires
        validation::verdict_on(m, policy) is Ok,
    ensures
        validation::verdict_on(m, policy)->Ok_0 == ExtensionBoundary::Official ==> {
            &&& crate::text::has_prefix(m.id, policy.official_id_prefix)
            &&& m.provenance.registry_identity == Some(policy.official_registry_identity)
            &&& m.provenance.source != ProvenanceSource::Local
        },
        validation::verdict_on(m, policy)->Ok_0 == ExtensionBoundary::LocalDevelopment <==> m.provenance.source
            == ProvenanceSource::Local,
        m.provenance.source == ProvenanceSource::Local ==> crate::text::has_prefix(
            m.id,
            policy.local_id_prefix,
        ),
        validation::verdict_on(m, policy)->Ok_0 == ExtensionBoundary::ThirdParty ==> {
            &&& !crate::text::has_prefix(m.id, policy.official_id_prefix)
            &&& !crate::text::has_prefix(m.id, policy.local_id_prefix)
        },
{
}

/// Only wasm modules run, and processes where the host allows them to local development.
pub proof fn law_processes_are_for_local_development(
    m: ExtensionManifestModel,
    policy: ManifestValidationPolicyModel,
)
    requires
        validation::verdict_on(m, policy) is Ok,
    ensures
        match m.entrypoints.runtime {
            ExtensionRuntime::Wasm | ExtensionRuntime::WasmRust => fields::has_content(
                m.entrypoints.wasm,
            ),
            ExtensionRuntime::Process => {
                &&& validation::verdict_on(m, policy)->Ok_0 == ExtensionBoundary::LocalDevelopment
                &&& policy.allow_local_process_runtime
                &&& fields::has_content(m.entrypoints.command)
            },
            _ => false,
        },
{
    reveal(validation::entrypoint_problem);
}

proof fn lemma_none_refused(
    permissions: Seq<(Seq<char>, crate::extensions::manifest::ExtensionPermissionModel)>,
    tool: Seq<char>,
    needed: Seq<Seq<char>>,
    i: int,
)
    requires
        declarations::first_refused(permissions, tool, needed) is None,
        0 <= i < needed.len(),
    ensures
        declarations::tool_permission_problem(permissions, tool, needed[i]) is None,
    decreases needed.len(),
{
    if i < needed.len() - 1 {
        lemma_none_refused(permissions, tool, needed.drop_last(), i);
    }
}

/// In an accepted manifest every tool has its own id and needs only declared permissions.
pub proof fn law_accepted_tools_need_declared_permissions(
    m: ExtensionManifestModel,
    policy: ManifestValidationPolicyModel,
    i: int,
    permission: Seq<char>,
)
    requires
        validation::verdict_on(m, policy) is Ok,
        0 <= i < m.tools.len(),
        m.tools[i].permissions.contains(permission) || m.tools[i].permissions_required.contains(
            permission,
        ),
    ensures
        text_map::value_of(m.permissions, permission) is Some,
        forall|j: int| 0 <= j < i ==> (#[trigger] m.tools[j]).id != m.tools[i].id,
{
    reveal(declarations::tools_problem);
    let tool = m.tools[i];
    checks::lemma_no_problem(declarations::tool_checks(m), m.tools.len() as int);
    assert(declarations::tool_checks(m)(i) is None);
    assert(declarations::tool_problem(m, i) is None);
    let needed = tool.permissions + tool.permissions_required;
    assert(exists|k: int| 0 <= k < needed.len() && needed[k] == permission) by {
        if tool.permissions.contains(permission) {
            let k = choose|k: int| 0 <= k < tool.permissions.len() && tool.permissions[k]
                == permission;
            assert(needed[k] == permission);
        } else {
            let k = choose|k: int|
                0 <= k < tool.permissions_required.len() && tool.permissions_required[k]
                    == permission;
            assert(needed[tool.permissions.len() + k] == permission);
        }
    }
    let k = choose|k: int| 0 <= k < needed.len() && needed[k] == permission;
    declarations::lemma_first_refused_is_refused(m.permissions, tool.id, needed);
    lemma_none_refused(m.permissions, tool.id, needed, k);
    assert forall|j: int| 0 <= j < i implies (#[trigger] m.tools[j]).id != tool.id by {
        assert(declarations::tool_ids(m.tools).take(i)[j] == m.tools[j].id);
    }
}

} // verus!

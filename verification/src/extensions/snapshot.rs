//! Snapshots of a registry, and what makes one consistent.
use vstd::prelude::*;

use crate::checks;
use crate::checks::Objection;
use crate::extensions::manifest::{
    ExtensionManifest, ExtensionManifestModel, ManifestValidationPolicy,
    ManifestValidationPolicyModel,
};
use crate::extensions::records::{
    BlockKey, BlocklistEntry, BlocklistEntryModel, ExtensionInstallRecord,
    ExtensionInstallRecordModel, ExtensionSourceSnapshot, ExtensionSourceSnapshotModel,
};
use crate::extensions::validation;
use crate::record::Record;
use crate::text::same_text;
use crate::text_map;
use crate::text_map::TextMap;

verus! {

/// All that a registry keeps, but for the host's policy.
#[derive(Debug, PartialEq, Eq)]
pub struct ExtensionRegistrySnapshot {
    pub manifests: TextMap<TextMap<ExtensionManifest>>,
    pub records: TextMap<TextMap<ExtensionInstallRecord>>,
    pub active_versions: TextMap<String>,
    pub blocklist: Vec<BlocklistEntry>,
}

/// What a [`ExtensionRegistrySnapshot`] holds.
pub struct ExtensionRegistrySnapshotModel {
    pub manifests: Seq<(Seq<char>, Seq<(Seq<char>, ExtensionManifestModel)>)>,
    pub records: Seq<(Seq<char>, Seq<(Seq<char>, ExtensionInstallRecordModel)>)>,
    pub active_versions: Seq<(Seq<char>, Seq<char>)>,
    pub blocklist: Seq<BlocklistEntryModel>,
}

impl DeepView for ExtensionRegistrySnapshot {
    type V = ExtensionRegistrySnapshotModel;

    open spec fn deep_view(&self) -> ExtensionRegistrySnapshotModel {
        ExtensionRegistrySnapshotModel {
            manifests: self.manifests.deep_view(),
            records: self.records.deep_view(),
            active_versions: self.active_versions.deep_view(),
            blocklist: self.blocklist.deep_view(),
        }
    }
}

impl View for ExtensionRegistrySnapshot {
    type V = ExtensionRegistrySnapshotModel;

    #[verifier::inline]
    open spec fn view(&self) -> ExtensionRegistrySnapshotModel {
        self.deep_view()
    }
}

impl Record for ExtensionRegistrySnapshot {
    fn duplicate(&self) -> (r: Self) {
        ExtensionRegistrySnapshot {
            manifests: self.manifests.duplicate(),
            records: self.records.duplicate(),
            active_versions: self.active_versions.duplicate(),
            blocklist: self.blocklist.duplicate(),
        }
    }

    fn same(&self, other: &Self) -> (r: bool) {
        self.manifests.same(&other.manifests)
            && self.records.same(&other.records)
            && self.active_versions.same(&other.active_versions)
            && self.blocklist.same(&other.blocklist)
    }
}

impl Clone for ExtensionRegistrySnapshot {
    fn clone(&self) -> (r: Self)
        ensures
            r.deep_view() == self.deep_view(),
    {
        self.duplicate()
    }
}

impl Default for ExtensionRegistrySnapshot {
    fn default() -> (r: Self)
        ensures
            r@ == (ExtensionRegistrySnapshotModel {
                manifests: Seq::empty(),
                records: Seq::empty(),
                active_versions: Seq::empty(),
                blocklist: Seq::empty(),
            }),
    {
        let value = ExtensionRegistrySnapshot {
            manifests: TextMap::new(),
            records: TextMap::new(),
            active_versions: TextMap::new(),
            blocklist: Vec::new(),
        };
        assert(value.blocklist.deep_view() =~= Seq::empty());
        value
    }
}

/// `before`, an extension's version, `after`.
fn say(before: &str, id: &str, between: &str, version: &str, after: &str) -> (r: String)
    ensures
        r@ == before@ + id@ + between@ + version@ + after@,
{
    before.to_owned().concat(id).concat(between).concat(version).concat(after)
}

pub open spec fn said(
    before: Seq<char>,
    id: Seq<char>,
    between: Seq<char>,
    version: Seq<char>,
    after: Seq<char>,
) -> Seq<char> {
    before + id + between + version + after
}

/// What is wrong with the pointer of a record to the version before.
pub open spec fn previous_problem<M>(
    id: Seq<char>,
    version: Seq<char>,
    record: ExtensionInstallRecordModel,
    manifests: Seq<(Seq<char>, M)>,
    records: Seq<(Seq<char>, ExtensionInstallRecordModel)>,
) -> Option<Seq<char>> {
    match record.previous_version {
        None => None,
        Some(previous) => if previous == version {
            Some(said("record "@, id, ":"@, version, " has self-referential previous_version"@))
        } else if text_map::value_of(manifests, previous) is None || text_map::value_of(
            records,
            previous,
        ) is None {
            Some(
                said("record "@, id, ":"@, version, " references missing previous_version "@)
                    + previous,
            )
        } else {
            None
        },
    }
}

/// What is wrong with a record beside its manifest.
pub open spec fn pair_problem(
    id: Seq<char>,
    version: Seq<char>,
    record: ExtensionInstallRecordModel,
    m: ExtensionManifestModel,
) -> Option<Seq<char>> {
    if m.id != id {
        Some(said("manifest id "@, m.id, " does not match extension map key "@, id, ""@))
    } else if m.version != version {
        Some(
            said("manifest version "@, m.version, " does not match extension map key "@, version, ""@),
        )
    } else if m.provenance.artifact_digest != record.artifact_digest {
        Some(said("artifact digest mismatch for extension "@, id, " version "@, version, ""@))
    } else if m.provenance.manifest_digest != record.manifest_digest {
        Some(said("manifest digest mismatch for extension "@, id, " version "@, version, ""@))
    } else if record.source != ExtensionSourceSnapshotModel::of_provenance(m.provenance) {
        Some(said("source snapshot mismatch for extension "@, id, " version "@, version, ""@))
    } else {
        None
    }
}

/// What is wrong with a record.
pub open spec fn record_problem(
    s: ExtensionRegistrySnapshotModel,
    i: int,
    j: int,
) -> Option<Seq<char>> {
    let id = s.records[i].0;
    let records = s.records[i].1;
    let version = records[j].0;
    let record = records[j].1;
    match text_map::value_of(s.manifests, id) {
        None => Some("missing manifests map for extension "@ + id + " in snapshot"@),
        Some(manifests) => match text_map::value_of(manifests, version) {
            None => Some(
                said("active manifest missing for extension "@, id, " version "@, version, ""@),
            ),
            Some(m) => if record.id != id {
                Some(said("record id "@, record.id, " does not match extension map key "@, id, ""@))
            } else if record.version != version {
                Some(
                    said(
                        "record version "@,
                        record.version,
                        " does not match extension map key "@,
                        version,
                        ""@,
                    ),
                )
            } else {
                previous_problem(id, version, record, manifests, records).otherwise(
                    pair_problem(id, version, record, m),
                )
            },
        },
    }
}

/// What is wrong with a manifest.
pub open spec fn manifest_problem(
    s: ExtensionRegistrySnapshotModel,
    i: int,
    j: int,
) -> Option<Seq<char>> {
    let id = s.manifests[i].0;
    let version = s.manifests[i].1[j].0;
    let m = s.manifests[i].1[j].1;
    match text_map::value_of(s.records, id) {
        None => Some("missing records map for extension "@ + id + " in snapshot"@),
        Some(records) => match text_map::value_of(records, version) {
            None => Some(said("missing record for extension "@, id, " version "@, version, ""@)),
            Some(record) => if m.id != id || m.version != version {
                Some(
                    said("manifest key "@, id, ":"@, version, " does not match manifest body "@)
                        + said(""@, m.id, ":"@, m.version, ""@),
                )
            } else if m.provenance.artifact_digest != record.artifact_digest {
                Some(
                    said(
                        "record artifact digest mismatch for extension "@,
                        id,
                        " version "@,
                        version,
                        ""@,
                    ),
                )
            } else if m.provenance.manifest_digest != record.manifest_digest {
                Some(
                    said(
                        "record manifest digest mismatch for extension "@,
                        id,
                        " version "@,
                        version,
                        ""@,
                    ),
                )
            } else {
                None
            },
        },
    }
}

/// What is wrong with an active version.
pub open spec fn active_problem(s: ExtensionRegistrySnapshotModel, i: int) -> Option<Seq<char>> {
    let id = s.active_versions[i].0;
    let version = s.active_versions[i].1;
    if text_map::value_of(s.records, id) is None {
        Some("active extension "@ + id + " has no record map"@)
    } else if text_map::entry_of(s.records, id, version) is None {
        Some(said("active extension "@, id, " references unknown version "@, version, ""@))
    } else if text_map::value_of(s.manifests, id) is None {
        Some("active extension "@ + id + " has no manifest map"@)
    } else if text_map::entry_of(s.manifests, id, version) is None {
        Some(
            said("active extension "@, id, " references unknown manifest version "@, version, ""@),
        )
    } else {
        None
    }
}

pub open spec fn blocklist_problem(blocklist: Seq<BlocklistEntryModel>) -> Option<Seq<char>> {
    if exists|i: int| 0 <= i < blocklist.len() && (#[trigger] blocklist[i]).key is VulnerabilityId {
        Some("extension blocklist contains unsupported vulnerability_id key"@)
    } else {
        None
    }
}

/// What is wrong with a manifest and its record under the host's policy.
pub open spec fn boundary_problem(
    s: ExtensionRegistrySnapshotModel,
    policy: ManifestValidationPolicyModel,
    i: int,
    j: int,
) -> Option<Seq<char>> {
    let id = s.records[i].0;
    let version = s.records[i].1[j].0;
    let record = s.records[i].1[j].1;
    match text_map::entry_of(s.manifests, id, version) {
        None => Some(said("manifest missing for extension "@, id, " version "@, version, ""@)),
        Some(m) => match validation::verdict_on(m, policy) {
            Err(error) => Some(
                said(
                    "manifest validation failed for extension "@,
                    id,
                    " version "@,
                    version,
                    ": "@,
                ) + error.message(),
            ),
            Ok(boundary) => if boundary != record.boundary {
                Some(
                    said("boundary mismatch for extension "@, id, " version "@, version, ": "@)
                        + said(
                        "manifest validates as "@,
                        boundary.shown(),
                        ", record stores "@,
                        record.boundary.shown(),
                        ""@,
                    ),
                )
            } else {
                None
            },
        },
    }
}

impl ExtensionRegistrySnapshotModel {
    pub open spec fn version_checks(self, i: int) -> spec_fn(int) -> Option<Seq<char>> {
        |j: int| record_problem(self, i, j)
    }

    pub open spec fn record_checks(self) -> spec_fn(int) -> Option<Seq<char>> {
        |i: int| checks::first_problem(self.version_checks(i), self.records[i].1.len() as int)
    }

    pub open spec fn manifest_version_checks(self, i: int) -> spec_fn(int) -> Option<Seq<char>> {
        |j: int| manifest_problem(self, i, j)
    }

    pub open spec fn manifest_checks(self) -> spec_fn(int) -> Option<Seq<char>> {
        |i: int|
            checks::first_problem(
                self.manifest_version_checks(i),
                self.manifests[i].1.len() as int,
            )
    }

    pub open spec fn active_checks(self) -> spec_fn(int) -> Option<Seq<char>> {
        |i: int| active_problem(self, i)
    }

    pub open spec fn boundary_version_checks(
        self,
        policy: ManifestValidationPolicyModel,
        i: int,
    ) -> spec_fn(int) -> Option<Seq<char>> {
        |j: int| boundary_problem(self, policy, i, j)
    }

    pub open spec fn boundary_checks(self, policy: ManifestValidationPolicyModel) -> spec_fn(
        int,
    ) -> Option<Seq<char>> {
        |i: int|
            checks::first_problem(
                self.boundary_version_checks(policy, i),
                self.records[i].1.len() as int,
            )
    }

    /// The first thing that does not fit together in a snapshot.
    pub open spec fn structure_problem(self) -> Option<Seq<char>> {
        checks::first_problem(self.record_checks(), self.records.len() as int).otherwise(
            checks::first_problem(self.manifest_checks(), self.manifests.len() as int),
        ).otherwise(
            checks::first_problem(self.active_checks(), self.active_versions.len() as int),
        ).otherwise(blocklist_problem(self.blocklist))
    }

    /// The first thing that does not fit together in a snapshot, or else that the host's
    /// policy objects to.
    pub open spec fn policy_problem(self, policy: ManifestValidationPolicyModel) -> Option<
        Seq<char>,
    > {
        self.structure_problem().otherwise(
            checks::first_problem(self.boundary_checks(policy), self.records.len() as int),
        )
    }
}

fn check_previous(
    id: &str,
    version: &str,
    record: &ExtensionInstallRecord,
    manifests: &TextMap<ExtensionManifest>,
    records: &TextMap<ExtensionInstallRecord>,
) -> (r: Result<(), String>)
    ensures
        checks::reports(r, previous_problem(id@, version@, record@, manifests@, records@)),
{
    match &record.previous_version {
        None => Ok(()),
        Some(previous) => {
            let previous = previous.as_str();
            if same_text(previous, version) {
                return Err(say("record ", id, ":", version, " has self-referential previous_version"));
            }
            if !manifests.contains_key(previous) || !records.contains_key(previous) {
                return Err(
                    say("record ", id, ":", version, " references missing previous_version ").concat(
                        previous,
                    ),
                );
            }
            Ok(())
        },
    }
}

fn check_pair(
    id: &str,
    version: &str,
    record: &ExtensionInstallRecord,
    manifest: &ExtensionManifest,
) -> (r: Result<(), String>)
    ensures
        checks::reports(r, pair_problem(id@, version@, record@, manifest@)),
{
    if !same_text(manifest.id.as_str(), id) {
        return Err(
            say("manifest id ", manifest.id.as_str(), " does not match extension map key ", id, ""),
        );
    }
    if !same_text(manifest.version.as_str(), version) {
        return Err(
            say(
                "manifest version ",
                manifest.version.as_str(),
                " does not match extension map key ",
                version,
                "",
            ),
        );
    }
    if !same_text(manifest.provenance.artifact_digest.as_str(), record.artifact_digest.as_str()) {
        return Err(say("artifact digest mismatch for extension ", id, " version ", version, ""));
    }
    if !same_text(manifest.provenance.manifest_digest.as_str(), record.manifest_digest.as_str()) {
        return Err(say("manifest digest mismatch for extension ", id, " version ", version, ""));
    }
    if !record.source.same(&ExtensionSourceSnapshot::from_provenance(&manifest.provenance)) {
        return Err(say("source snapshot mismatch for extension ", id, " version ", version, ""));
    }
    Ok(())
}

impl ExtensionRegistrySnapshot {
    fn check_record(&self, i: usize, j: usize) -> (r: Result<(), String>)
        requires
            i < self@.records.len(),
            j < self@.records[i as int].1.len(),
        ensures
            checks::reports(r, record_problem(self@, i as int, j as int)),
    {
        let id = self.records.key_at(i);
        let records = self.records.value_at(i);
        let version = records.key_at(j);
        let record = records.value_at(j);
        let manifests = match self.manifests.get(id) {
            Some(manifests) => manifests,
            None => {
                return Err(
                    "missing manifests map for extension ".to_owned().concat(id).concat(
                        " in snapshot",
                    ),
                );
            },
        };
        let manifest = match manifests.get(version) {
            Some(manifest) => manifest,
            None => {
                return Err(
                    say("active manifest missing for extension ", id, " version ", version, ""),
                );
            },
        };
        if !same_text(record.id.as_str(), id) {
            return Err(
                say("record id ", record.id.as_str(), " does not match extension map key ", id, ""),
            );
        }
        if !same_text(record.version.as_str(), version) {
            return Err(
                say(
                    "record version ",
                    record.version.as_str(),
                    " does not match extension map key ",
                    version,
                    "",
                ),
            );
        }
        check_previous(id, version, record, manifests, records)?;
        check_pair(id, version, record, manifest)
    }

    fn check_manifest(&self, i: usize, j: usize) -> (r: Result<(), String>)
        requires
            i < self@.manifests.len(),
            j < self@.manifests[i as int].1.len(),
        ensures
            checks::reports(r, manifest_problem(self@, i as int, j as int)),
    {
        let id = self.manifests.key_at(i);
        let manifests = self.manifests.value_at(i);
        let version = manifests.key_at(j);
        let manifest = manifests.value_at(j);
        let records = match self.records.get(id) {
            Some(records) => records,
            None => {
                return Err(
                    "missing records map for extension ".to_owned().concat(id).concat(
                        " in snapshot",
                    ),
                );
            },
        };
        let record = match records.get(version) {
            Some(record) => record,
            None => {
                return Err(say("missing record for extension ", id, " version ", version, ""));
            },
        };
        if !same_text(manifest.id.as_str(), id) || !same_text(manifest.version.as_str(), version) {
            let body = say("", manifest.id.as_str(), ":", manifest.version.as_str(), "");
            return Err(
                say("manifest key ", id, ":", version, " does not match manifest body ").concat(
                    body.as_str(),
                ),
            );
        }
        if !same_text(
            manifest.provenance.artifact_digest.as_str(),
            record.artifact_digest.as_str(),
        ) {
            return Err(
                say(
                    "record artifact digest mismatch for extension ",
                    id,
                    " version ",
                    version,
                    "",
                ),
            );
        }
        if !same_text(
            manifest.provenance.manifest_digest.as_str(),
            record.manifest_digest.as_str(),
        ) {
            return Err(
                say(
                    "record manifest digest mismatch for extension ",
                    id,
                    " version ",
                    version,
                    "",
                ),
            );
        }
        Ok(())
    }

    fn check_active(&self, i: usize) -> (r: Result<(), String>)
        requires
            i < self@.active_versions.len(),
        ensures
            checks::reports(r, active_problem(self@, i as int)),
    {
        let id = self.active_versions.key_at(i);
        let version = self.active_versions.value_at(i).as_str();
        if !self.records.contains_key(id) {
            return Err("active extension ".to_owned().concat(id).concat(" has no record map"));
        }
        if self.records.get_in(id, version).is_none() {
            return Err(say("active extension ", id, " references unknown version ", version, ""));
        }
        if !self.manifests.contains_key(id) {
            return Err("active extension ".to_owned().concat(id).concat(" has no manifest map"));
        }
        if self.manifests.get_in(id, version).is_none() {
            return Err(
                say("active extension ", id, " references unknown manifest version ", version, ""),
            );
        }
        Ok(())
    }

    fn check_boundary(&self, policy: &ManifestValidationPolicy, i: usize, j: usize) -> (r: Result<
        (),
        String,
    >)
        requires
            i < self@.records.len(),
            j < self@.records[i as int].1.len(),
        ensures
            checks::reports(r, boundary_problem(self@, policy@, i as int, j as int)),
    {
        let id = self.records.key_at(i);
        let records = self.records.value_at(i);
        let version = records.key_at(j);
        let record = records.value_at(j);
        let manifest = match self.manifests.get_in(id, version) {
            Some(manifest) => manifest,
            None => {
                return Err(say("manifest missing for extension ", id, " version ", version, ""));
            },
        };
        match manifest.validate(policy) {
            Err(error) => Err(
                say("manifest validation failed for extension ", id, " version ", version, ": ").concat(
                    error.to_text().as_str(),
                ),
            ),
            Ok(validated) => {
                if validated.boundary != record.boundary {
                    let found = say(
                        "manifest validates as ",
                        validated.boundary.name(),
                        ", record stores ",
                        record.boundary.name(),
                        "",
                    );
                    return Err(
                        say("boundary mismatch for extension ", id, " version ", version, ": ").concat(
                            found.as_str(),
                        ),
                    );
                }
                Ok(())
            },
        }
    }

    fn check_records_of(&self, i: usize) -> (r: Result<(), String>)
        requires
            i < self@.records.len(),
        ensures
            checks::reports(
                r,
                checks::first_problem(self@.version_checks(i as int), self@.records[i as int].1.len() as int),
            ),
    {
        let ghost all = self@.version_checks(i as int);
        let n: usize = self.records.value_at(i).len();
        let mut j: usize = 0;
        while j < n
            invariant
                i < self@.records.len(),
                j <= n == self@.records[i as int].1.len(),
                all == self@.version_checks(i as int),
                checks::first_problem(all, j as int) is None,
            decreases n - j,
        {
            match self.check_record(i, j) {
                Err(message) => {
                    proof {
                        checks::lemma_first_problem(all, j as int, n as int);
                    }
                    return Err(message);
                },
                Ok(_) => {},
            }
            j += 1;
        }
        Ok(())
    }

    fn check_all_records(&self) -> (r: Result<(), String>)
        ensures
            checks::reports(
                r,
                checks::first_problem(self@.record_checks(), self@.records.len() as int),
            ),
    {
        let ghost all = self@.record_checks();
        let n: usize = self.records.len();
        let mut i: usize = 0;
        while i < n
            invariant
                i <= n == self@.records.len(),
                all == self@.record_checks(),
                checks::first_problem(all, i as int) is None,
            decreases n - i,
        {
            match self.check_records_of(i) {
                Err(message) => {
                    proof {
                        checks::lemma_first_problem(all, i as int, n as int);
                    }
                    return Err(message);
                },
                Ok(_) => {},
            }
            i += 1;
        }
        Ok(())
    }

    fn check_manifests_of(&self, i: usize) -> (r: Result<(), String>)
        requires
            i < self@.manifests.len(),
        ensures
            checks::reports(
                r,
                checks::first_problem(self@.manifest_version_checks(i as int), self@.manifests[i as int].1.len() as int),
            ),
    {
        let ghost all = self@.manifest_version_checks(i as int);
        let n: usize = self.manifests.value_at(i).len();
        let mut j: usize = 0;
        while j < n
            invariant
                i < self@.manifests.len(),
                j <= n == self@.manifests[i as int].1.len(),
                all == self@.manifest_version_checks(i as int),
                checks::first_problem(all, j as int) is None,
            decreases n - j,
        {
            match self.check_manifest(i, j) {
                Err(message) => {
                    proof {
                        checks::lemma_first_problem(all, j as int, n as int);
                    }
                    return Err(message);
                },
                Ok(_) => {},
            }
            j += 1;
        }
        Ok(())
    }

    fn check_all_manifests(&self) -> (r: Result<(), String>)
        ensures
            checks::reports(
                r,
                checks::first_problem(self@.manifest_checks(), self@.manifests.len() as int),
            ),
    {
        let ghost all = self@.manifest_checks();
        let n: usize = self.manifests.len();
        let mut i: usize = 0;
        while i < n
            invariant
                i <= n == self@.manifests.len(),
                all == self@.manifest_checks(),
                checks::first_problem(all, i as int) is None,
            decreases n - i,
        {
            match self.check_manifests_of(i) {
                Err(message) => {
                    proof {
                        checks::lemma_first_problem(all, i as int, n as int);
                    }
                    return Err(message);
                },
                Ok(_) => {},
            }
            i += 1;
        }
        Ok(())
    }

    fn check_boundaries_of(&self, policy: &ManifestValidationPolicy, i: usize) -> (r: Result<(), String>)
        requires
            i < self@.records.len(),
        ensures
            checks::reports(
                r,
                checks::first_problem(self@.boundary_version_checks(policy@, i as int), self@.records[i as int].1.len() as int),
            ),
    {
        let ghost all = self@.boundary_version_checks(policy@, i as int);
        let n: usize = self.records.value_at(i).len();
        let mut j: usize = 0;
        while j < n
            invariant
                i < self@.records.len(),
                j <= n == self@.records[i as int].1.len(),
                all == self@.boundary_version_checks(policy@, i as int),
                checks::first_problem(all, j as int) is None,
            decreases n - j,
        {
            match self.check_boundary(policy, i, j) {
                Err(message) => {
                    proof {
                        checks::lemma_first_problem(all, j as int, n as int);
                    }
                    return Err(message);
                },
                Ok(_) => {},
            }
            j += 1;
        }
        Ok(())
    }

    fn check_all_boundaries(&self, policy: &ManifestValidationPolicy) -> (r: Result<(), String>)
        ensures
            checks::reports(
                r,
                checks::first_problem(self@.boundary_checks(policy@), self@.records.len() as int),
            ),
    {
        let ghost all = self@.boundary_checks(policy@);
        let n: usize = self.records.len();
        let mut i: usize = 0;
        while i < n
            invariant
                i <= n == self@.records.len(),
                all == self@.boundary_checks(policy@),
                checks::first_problem(all, i as int) is None,
            decreases n - i,
        {
            match self.check_boundaries_of(policy, i) {
                Err(message) => {
                    proof {
                        checks::lemma_first_problem(all, i as int, n as int);
                    }
                    return Err(message);
                },
                Ok(_) => {},
            }
            i += 1;
        }
        Ok(())
    }

    fn check_active_versions(&self) -> (r: Result<(), String>)
        ensures
            checks::reports(
                r,
                checks::first_problem(
                    self@.active_checks(),
                    self@.active_versions.len() as int,
                ),
            ),
    {
        let ghost all = self@.active_checks();
        let n: usize = self.active_versions.len();
        let mut i: usize = 0;
        while i < n
            invariant
                i <= n == self@.active_versions.len(),
                all == self@.active_checks(),
                checks::first_problem(all, i as int) is None,
            decreases n - i,
        {
            match self.check_active(i) {
                Err(message) => {
                    proof {
                        checks::lemma_first_problem(all, i as int, n as int);
                    }
                    return Err(message);
                },
                Ok(_) => {},
            }
            i += 1;
        }
        Ok(())
    }

    fn check_blocklist(&self) -> (r: Result<(), String>)
        ensures
            checks::reports(r, blocklist_problem(self@.blocklist)),
    {
        let ghost all = self@.blocklist;
        let mut i: usize = 0;
        while i < self.blocklist.len()
            invariant
                i <= self.blocklist.len(),
                all == self.blocklist.deep_view(),
                all == self@.blocklist,
                forall|j: int| 0 <= j < i ==> !((#[trigger] all[j]).key is VulnerabilityId),
            decreases self.blocklist.len() - i,
        {
            assert(all[i as int] == self.blocklist[i as int]@);
            match &self.blocklist[i].key {
                BlockKey::VulnerabilityId(_) => {
                    assert(self@.blocklist[i as int].key is VulnerabilityId);
                    return Err(
                        "extension blocklist contains unsupported vulnerability_id key".to_owned(),
                    );
                },
                _ => {},
            }
            i += 1;
        }
        Ok(())
    }

    /// Check that records, manifests, active versions and blocklist fit together.
    pub fn validate(&self) -> (r: Result<(), String>)
        ensures
            checks::reports(r, self@.structure_problem()),
    {
        self.check_all_records()?;
        self.check_all_manifests()?;
        self.check_active_versions()?;
        self.check_blocklist()
    }

    /// Check the snapshot, and every manifest in it against the host's policy.
    pub fn validate_with_policy(&self, policy: &ManifestValidationPolicy) -> (r: Result<
        (),
        String,
    >)
        ensures
            checks::reports(r, self@.policy_problem(policy@)),
    {
        self.validate()?;
        self.check_all_boundaries(policy)
    }
}

} // verus!

//! The registry of installed extensions.
use vstd::prelude::*;

use crate::extensions::manifest::{
    ExtensionManifest, ExtensionManifestModel, ExtensionServiceDefinition,
    ExtensionServiceDependency, ManifestValidationPolicy, ManifestValidationPolicyModel,
    ValidatedExtensionManifest,
};
use crate::extensions::records::{
    BlockKey, BlocklistEntry, BlocklistEntryModel, ExtensionBlocklistMatch, ExtensionInstallRecord,
    ExtensionInstallRecordModel, ExtensionInstallStatus, ExtensionSourceSnapshot,
    ExtensionStatusSnapshot, InstallOptions, RegistryError, RegistryErrorModel, RegistryResult,
    RollbackSnapshot, ServiceCallGrant, ServiceCallRequest, ValidateExtensionManifestResponse,
};
use crate::extensions::registry_model;
use crate::extensions::snapshot::ExtensionRegistrySnapshot;
use crate::record::Record;
use crate::text::same_text;
use crate::text_map::TextMap;

verus! {

/// Installed extensions with every version's manifest and install record, the version of
/// each that is active, the blocklist, and the host's policy.
#[derive(Debug, PartialEq, Eq)]
pub struct ExtensionRegistry {
    manifests: TextMap<TextMap<ExtensionManifest>>,
    records: TextMap<TextMap<ExtensionInstallRecord>>,
    active_versions: TextMap<String>,
    blocklist: Vec<BlocklistEntry>,
    validation_policy: ManifestValidationPolicy,
}

/// What a [`ExtensionRegistry`] holds.
pub struct ExtensionRegistryModel {
    pub manifests: Seq<(Seq<char>, Seq<(Seq<char>, ExtensionManifestModel)>)>,
    pub records: Seq<(Seq<char>, Seq<(Seq<char>, ExtensionInstallRecordModel)>)>,
    pub active_versions: Seq<(Seq<char>, Seq<char>)>,
    pub blocklist: Seq<BlocklistEntryModel>,
    pub validation_policy: ManifestValidationPolicyModel,
}

impl DeepView for ExtensionRegistry {
    type V = ExtensionRegistryModel;

    closed spec fn deep_view(&self) -> ExtensionRegistryModel {
        ExtensionRegistryModel {
            manifests: self.manifests.deep_view(),
            records: self.records.deep_view(),
            active_versions: self.active_versions.deep_view(),
            blocklist: self.blocklist.deep_view(),
            validation_policy: self.validation_policy.deep_view(),
        }
    }
}

impl View for ExtensionRegistry {
    type V = ExtensionRegistryModel;

    #[verifier::inline]
    open spec fn view(&self) -> ExtensionRegistryModel {
        self.deep_view()
    }
}

impl Record for ExtensionRegistry {
    fn duplicate(&self) -> (r: Self) {
        ExtensionRegistry {
            manifests: self.manifests.duplicate(),
            records: self.records.duplicate(),
            active_versions: self.active_versions.duplicate(),
            blocklist: self.blocklist.duplicate(),
            validation_policy: self.validation_policy.duplicate(),
        }
    }

    fn same(&self, other: &Self) -> (r: bool) {
        self.manifests.same(&other.manifests)
            && self.records.same(&other.records)
            && self.active_versions.same(&other.active_versions)
            && self.blocklist.same(&other.blocklist)
            && self.validation_policy.same(&other.validation_policy)
    }
}

impl Clone for ExtensionRegistry {
    fn clone(&self) -> (r: Self)
        ensures
            r.deep_view() == self.deep_view(),
    {
        self.duplicate()
    }
}

fn not_installed(extension_id: &str) -> (r: RegistryError)
    ensures
        r@ == registry_model::not_installed_error(extension_id@),
{
    RegistryError::NotInstalled { extension_id: extension_id.to_owned() }
}

fn no_rollback(extension_id: &str) -> (r: RegistryError)
    ensures
        r@ == registry_model::no_rollback_error(extension_id@),
{
    RegistryError::RollbackUnavailable { extension_id: extension_id.to_owned() }
}

fn denied(reason: &str) -> (r: RegistryError)
    ensures
        r@ == registry_model::denied_error(reason@),
{
    RegistryError::ServiceDenied { reason: reason.to_owned() }
}

impl ExtensionRegistry {
    pub fn new(validation_policy: ManifestValidationPolicy) -> (r: Self)
        ensures
            r@ == ExtensionRegistryModel::empty(validation_policy@),
    {
        let registry = ExtensionRegistry {
            manifests: TextMap::new(),
            records: TextMap::new(),
            active_versions: TextMap::new(),
            blocklist: Vec::new(),
            validation_policy,
        };
        assert(registry@.blocklist =~= Seq::empty());
        registry
    }

    pub fn from_snapshot(
        snapshot: ExtensionRegistrySnapshot,
        validation_policy: ManifestValidationPolicy,
    ) -> (r: Result<Self, String>)
        ensures
            match r {
                Ok(registry) => snapshot@.policy_problem(validation_policy@) is None && registry@
                    == ExtensionRegistryModel::restored(snapshot@, validation_policy@),
                Err(message) => snapshot@.policy_problem(validation_policy@) == Some(message@),
            },
    {
        match snapshot.validate_with_policy(&validation_policy) {
            Err(message) => Err(message),
            Ok(_) => Ok(
                ExtensionRegistry {
                    manifests: snapshot.manifests,
                    records: snapshot.records,
                    active_versions: snapshot.active_versions,
                    blocklist: snapshot.blocklist,
                    validation_policy,
                },
            ),
        }
    }

    pub fn snapshot(&self) -> (r: ExtensionRegistrySnapshot)
        ensures
            r@ == self@.snapshot(),
    {
        ExtensionRegistrySnapshot {
            manifests: self.manifests.clone(),
            records: self.records.clone(),
            active_versions: self.active_versions.clone(),
            blocklist: self.blocklist.duplicate(),
        }
    }

    pub fn validation_policy(&self) -> (r: ManifestValidationPolicy)
        ensures
            r@ == self@.validation_policy,
    {
        self.validation_policy.clone()
    }

    pub fn in_memory() -> (r: Self)
        ensures
            r@ == ExtensionRegistryModel::empty(ManifestValidationPolicyModel::standard()),
    {
        ExtensionRegistry::new(ManifestValidationPolicy::default())
    }

    pub fn add_blocklist_entry(&mut self, entry: BlocklistEntry) -> (r: RegistryResult<()>)
        ensures
            match r {
                Ok(_) => old(self)@.blocking(entry@) == Ok::<_, RegistryErrorModel>(final(self)@),
                Err(error) => {
                    &&& old(self)@.blocking(entry@) == Err::<ExtensionRegistryModel, _>(error@)
                    &&& final(self)@ == old(self)@
                },
            },
    {
        match &entry.key {
            BlockKey::VulnerabilityId(_) => {
                return Err(RegistryError::UnsupportedBlocklistKey { key: entry.key });
            },
            _ => {},
        }
        let ghost before = self.blocklist.deep_view();
        self.blocklist.push(entry);
        assert(self.blocklist.deep_view() =~= before.push(entry@));
        Ok(())
    }

    fn find_blocklist_hit(&self, manifest: &ExtensionManifest) -> (r: Option<&BlocklistEntry>)
        ensures
            r.deep_view() == self@.block_hit(manifest@),
    {
        let ghost all = self.blocklist.deep_view();
        let mut i: usize = 0;
        assert(all.skip(0) =~= all);
        while i < self.blocklist.len()
            invariant
                i <= self.blocklist.len(),
                all == self.blocklist.deep_view(),
                registry_model::first_hit(all, manifest@) == registry_model::first_hit(
                    all.skip(i as int),
                    manifest@,
                ),
            decreases self.blocklist.len() - i,
        {
            proof {
                assert(all.skip(i as int)[0] == self.blocklist[i as int]@);
                assert(all.skip(i as int).drop_first() =~= all.skip(i + 1));
            }
            if self.blocklist[i].matches_manifest(manifest) {
                return Some(&self.blocklist[i]);
            }
            i += 1;
        }
        None
    }

    fn ensure_not_blocked(&self, manifest: &ExtensionManifest) -> (r: RegistryResult<()>)
        ensures
            crate::checks::reports(r, self@.blocked_problem(manifest@)),
    {
        match self.find_blocklist_hit(manifest) {
            Some(entry) => Err(
                RegistryError::Blocked {
                    extension_id: manifest.id.clone(),
                    reason: entry.reason,
                    key: entry.key.clone(),
                },
            ),
            None => Ok(()),
        }
    }

    fn ensure_same_version_digest_is_stable(&self, manifest: &ExtensionManifest) -> (r:
        RegistryResult<()>)
        ensures
            crate::checks::reports(r, self@.digest_problem(manifest@)),
    {
        match self.records.get_in(manifest.id.as_str(), manifest.version.as_str()) {
            None => Ok(()),
            Some(existing) => {
                if !same_text(
                    existing.manifest_digest.as_str(),
                    manifest.provenance.manifest_digest.as_str(),
                ) || !same_text(
                    existing.artifact_digest.as_str(),
                    manifest.provenance.artifact_digest.as_str(),
                ) {
                    return Err(
                        RegistryError::DigestConflict {
                            extension_id: manifest.id.clone(),
                            version: manifest.version.clone(),
                        },
                    );
                }
                Ok(())
            },
        }
    }

    fn ensure_source_change_is_approved(
        &self,
        manifest: &ExtensionManifest,
        options: InstallOptions,
    ) -> (r: RegistryResult<()>)
        ensures
            crate::checks::reports(r, self@.source_problem(manifest@, options)),
    {
        match self.active_record(manifest.id.as_str()) {
            None => Ok(()),
            Some(current) => {
                let next = ExtensionSourceSnapshot::from_provenance(&manifest.provenance);
                let approved = match options.approve_source_change {
                    Some(approved) => approved,
                    None => false,
                };
                if current.source.matches_authority(&next) || approved {
                    return Ok(());
                }
                Err(
                    RegistryError::SourceChangeRequiresApproval {
                        extension_id: manifest.id.clone(),
                    },
                )
            },
        }
    }

    fn run_validation_checks(&self, manifest: ExtensionManifest, options: InstallOptions) -> (r:
        RegistryResult<ValidatedExtensionManifest>)
        ensures
            match r {
                Ok(validated) => self@.preflight(manifest@, options) == Ok::<
                    _,
                    RegistryErrorModel,
                >(validated.boundary) && validated.manifest@ == manifest@,
                Err(error) => self@.preflight(manifest@, options) == Err::<
                    crate::extensions::manifest::ExtensionBoundary,
                    _,
                >(error@),
            },
    {
        let mut policy = self.validation_policy.clone();
        if let Some(approved) = options.approve_local_unsigned {
            policy.allow_local_unsigned = approved;
        }
        if let Some(allowed) = options.allow_local_process_runtime {
            policy.allow_local_process_runtime = allowed;
        }
        assert(policy@ == registry_model::policy_with(self@.validation_policy, options));
        let validated = match manifest.validate(&policy) {
            Ok(validated) => validated,
            Err(error) => {
                return Err(RegistryError::from(error));
            },
        };
        self.ensure_not_blocked(&validated.manifest)?;
        self.ensure_same_version_digest_is_stable(&validated.manifest)?;
        self.ensure_source_change_is_approved(&validated.manifest, options)?;
        Ok(validated)
    }

    fn previous_version(&self, manifest: &ExtensionManifest) -> (r: Option<String>)
        ensures
            r.deep_view() == self@.previous_version(manifest@),
    {
        match self.active_versions.get(manifest.id.as_str()) {
            Some(version) => if same_text(version.as_str(), manifest.version.as_str()) {
                None
            } else {
                Some(version.clone())
            },
            None => None,
        }
    }

    pub fn install(&mut self, manifest: ExtensionManifest, options: InstallOptions) -> (r:
        RegistryResult<ExtensionInstallRecord>)
        ensures
            registry_model::changes(
                r,
                old(self)@,
                final(self)@,
                old(self)@.install(manifest@, options),
            ),
    {
        let validated = self.run_validation_checks(manifest, options)?;
        let manifest = validated.manifest;
        let provenance = &manifest.provenance;
        let record = ExtensionInstallRecord {
            id: manifest.id.clone(),
            version: manifest.version.clone(),
            manifest_digest: provenance.manifest_digest.clone(),
            artifact_digest: provenance.artifact_digest.clone(),
            source: ExtensionSourceSnapshot::from_provenance(provenance),
            boundary: validated.boundary,
            status: ExtensionInstallStatus::Installed,
            previous_version: self.previous_version(&manifest),
            approved_permissions: manifest.permissions.keys(),
            rollback_snapshot: Some(
                RollbackSnapshot {
                    manifest_digest: provenance.manifest_digest.clone(),
                    artifact_digest: provenance.artifact_digest.clone(),
                },
            ),
        };
        self.manifests.insert_in(record.id.as_str(), record.version.clone(), manifest);
        self.records.insert_in(record.id.as_str(), record.version.clone(), record.clone());
        self.active_versions.insert(record.id.clone(), record.version.clone());
        Ok(record)
    }

    /// Validate a manifest with the same preflight checks used by install.
    pub fn validate(&self, manifest: ExtensionManifest, options: InstallOptions) -> (r:
        RegistryResult<ValidateExtensionManifestResponse>)
        ensures
            registry_model::gives(r, self@.validate(manifest@, options)),
    {
        let validated = self.run_validation_checks(manifest, options)?;
        Ok(
            ValidateExtensionManifestResponse {
                manifest: validated.manifest,
                boundary: validated.boundary,
            },
        )
    }

    /// Give the record of a version a new status.
    fn set_status(
        &mut self,
        extension_id: &str,
        version: &str,
        status: ExtensionInstallStatus,
    ) -> (r: Option<ExtensionInstallRecord>)
        ensures
            match crate::text_map::entry_of(old(self)@.records, extension_id@, version@) {
                Some(record) => {
                    let changed = ExtensionInstallRecordModel { status, ..record };
                    r.deep_view() == Some(changed) && final(self)@ == old(self)@.with_record(
                        extension_id@,
                        version@,
                        changed,
                    )
                },
                None => r is None && final(self)@ == old(self)@,
            },
    {
        let mut record = match self.records.get_in(extension_id, version) {
            Some(record) => record.clone(),
            None => {
                return None;
            },
        };
        record.status = status;
        self.records.insert_in(extension_id, version.to_owned(), record.clone());
        Some(record)
    }

    pub fn rollback(&mut self, extension_id: &str) -> (r: RegistryResult<ExtensionInstallRecord>)
        ensures
            registry_model::changes(
                r,
                old(self)@,
                final(self)@,
                old(self)@.rollback(extension_id@),
            ),
    {
        let current = match self.active_record(extension_id) {
            Some(record) => record,
            None => {
                return Err(not_installed(extension_id));
            },
        };
        let previous = match current.previous_version {
            Some(version) => version,
            None => {
                return Err(no_rollback(extension_id));
            },
        };
        match self.manifests.get_in(extension_id, previous.as_str()) {
            Some(manifest) => self.ensure_not_blocked(manifest)?,
            None => {
                return Err(no_rollback(extension_id));
            },
        }
        match self.set_status(
            extension_id,
            previous.as_str(),
            ExtensionInstallStatus::InstalledPreviousVersion,
        ) {
            Some(record) => {
                self.active_versions.insert(extension_id.to_owned(), previous);
                Ok(record)
            },
            None => Err(no_rollback(extension_id)),
        }
    }

    pub fn disable(&mut self, extension_id: &str) -> (r: RegistryResult<ExtensionInstallRecord>)
        ensures
            registry_model::changes(
                r,
                old(self)@,
                final(self)@,
                old(self)@.disable(extension_id@),
            ),
    {
        let version = match self.active_versions.get(extension_id) {
            Some(version) => version.clone(),
            None => {
                return Err(not_installed(extension_id));
            },
        };
        match self.set_status(extension_id, version.as_str(), ExtensionInstallStatus::Disabled) {
            Some(record) => Ok(record),
            None => Err(not_installed(extension_id)),
        }
    }

    pub fn enable(&mut self, extension_id: &str) -> (r: RegistryResult<ExtensionInstallRecord>)
        ensures
            registry_model::changes(
                r,
                old(self)@,
                final(self)@,
                old(self)@.enable(extension_id@),
            ),
    {
        let version = match self.active_versions.get(extension_id) {
            Some(version) => version.clone(),
            None => {
                return Err(not_installed(extension_id));
            },
        };
        match self.manifests.get_in(extension_id, version.as_str()) {
            Some(manifest) => self.ensure_not_blocked(manifest)?,
            None => {
                return Err(not_installed(extension_id));
            },
        }
        match self.set_status(extension_id, version.as_str(), ExtensionInstallStatus::Installed) {
            Some(record) => Ok(record),
            None => Err(not_installed(extension_id)),
        }
    }

    pub fn remove(&mut self, extension_id: &str) -> (r: RegistryResult<ExtensionInstallRecord>)
        ensures
            registry_model::changes(
                r,
                old(self)@,
                final(self)@,
                old(self)@.remove(extension_id@),
            ),
    {
        let version = match self.active_versions.get(extension_id) {
            Some(version) => version.clone(),
            None => {
                return Err(not_installed(extension_id));
            },
        };
        match self.set_status(extension_id, version.as_str(), ExtensionInstallStatus::Disabled) {
            Some(record) => {
                self.active_versions.remove(extension_id);
                Ok(record)
            },
            None => Err(not_installed(extension_id)),
        }
    }

    pub fn active_record(&self, extension_id: &str) -> (r: Option<ExtensionInstallRecord>)
        ensures
            r.deep_view() == self@.active_record(extension_id@),
    {
        match self.active_versions.get(extension_id) {
            Some(version) => match self.records.get_in(extension_id, version.as_str()) {
                Some(record) => Some(record.clone()),
                None => None,
            },
            None => None,
        }
    }

    fn active_manifest(&self, extension_id: &str) -> (r: Option<&ExtensionManifest>)
        ensures
            r.deep_view() == self@.active_manifest(extension_id@),
    {
        match self.active_versions.get(extension_id) {
            Some(version) => self.manifests.get_in(extension_id, version.as_str()),
            None => None,
        }
    }

    pub fn extension_status(&self, extension_id: &str) -> (r: RegistryResult<
        ExtensionStatusSnapshot,
    >)
        ensures
            registry_model::gives(r, self@.extension_status(extension_id@)),
    {
        let manifest = match self.active_manifest(extension_id) {
            Some(manifest) => manifest,
            None => {
                return Err(not_installed(extension_id));
            },
        };
        let mut record = match self.active_record(extension_id) {
            Some(record) => record,
            None => {
                return Err(not_installed(extension_id));
            },
        };
        let block = match self.find_blocklist_hit(manifest) {
            Some(entry) => {
                record.status = ExtensionInstallStatus::Blocked;
                Some(ExtensionBlocklistMatch { reason: entry.reason, key: entry.key.clone() })
            },
            None => None,
        };
        Ok(ExtensionStatusSnapshot { extension_id: extension_id.to_owned(), record, block })
    }

    pub fn list_extension_statuses(&self) -> (r: RegistryResult<Vec<ExtensionStatusSnapshot>>)
        ensures
            registry_model::gives(r, self@.statuses()),
    {
        let ghost ids = crate::text_map::keys_of(self@.active_versions);
        let n: usize = self.active_versions.len();
        let mut statuses: Vec<ExtensionStatusSnapshot> = Vec::new();
        let mut i: usize = 0;
        assert(statuses.deep_view() =~= Seq::empty());
        assert(ids.take(0) =~= Seq::empty());
        while i < n
            invariant
                i <= n == ids.len(),
                ids == crate::text_map::keys_of(self.active_versions@),
                self@.statuses_of(ids.take(i as int)) == Ok::<_, RegistryErrorModel>(
                    statuses.deep_view(),
                ),
                self@.active_versions == self.active_versions@,
            decreases n - i,
        {
            proof {
                assert(ids.take(i + 1).drop_last() =~= ids.take(i as int));
                assert(ids.take(i + 1).last() == ids[i as int]);
            }
            match self.extension_status(self.active_versions.key_at(i)) {
                Ok(status) => {
                    let ghost before = statuses.deep_view();
                    statuses.push(status);
                    assert(statuses.deep_view() =~= before.push(status@));
                },
                Err(error) => {
                    proof {
                        self@.lemma_statuses_fail(ids, i + 1);
                        assert(ids.take(n as int) =~= ids);
                    }
                    return Err(error);
                },
            }
            i += 1;
        }
        assert(ids.take(n as int) =~= ids);
        Ok(statuses)
    }

    pub fn blocklist_entries(&self) -> (r: Vec<BlocklistEntry>)
        ensures
            r.deep_view() == self@.blocklist,
    {
        self.blocklist.duplicate()
    }

    fn ensure_active_record_enabled(&self, extension_id: &str, role: &str) -> (r: RegistryResult<
        (),
    >)
        ensures
            crate::checks::reports(r, self@.readiness_problem(extension_id@, role@)),
    {
        let record = match self.active_record(extension_id) {
            Some(record) => record,
            None => {
                return Err(not_installed(extension_id));
            },
        };
        let named = role.to_owned().concat(" extension ").concat(extension_id);
        match record.status {
            ExtensionInstallStatus::Installed
            | ExtensionInstallStatus::InstalledPreviousVersion => Ok(()),
            ExtensionInstallStatus::Disabled => Err(
                RegistryError::ServiceDenied { reason: named.concat(" is disabled") },
            ),
            ExtensionInstallStatus::Blocked => Err(
                RegistryError::ServiceDenied { reason: named.concat(" is blocked") },
            ),
            ExtensionInstallStatus::Updating
            | ExtensionInstallStatus::RollbackInProgress => Err(
                RegistryError::ServiceDenied {
                    reason: named.concat(" is not ready for service calls"),
                },
            ),
        }
    }

    /// Decide whether one extension may call a service of another: both are enabled and not
    /// blocked, the caller declares that it consumes the service and the callee that it
    /// provides it, and both agree on the permission and what it means.
    pub fn authorize_service_call(&self, request: ServiceCallRequest) -> (r: RegistryResult<
        ServiceCallGrant,
    >)
        ensures
            registry_model::gives(r, self@.authorize(request@)),
    {
        let caller_id = request.caller_extension_id.as_str();
        let callee_id = request.callee_extension_id.as_str();
        self.ensure_active_record_enabled(caller_id, "caller")?;
        self.ensure_active_record_enabled(callee_id, "callee")?;
        let caller = match self.active_manifest(caller_id) {
            Some(manifest) => manifest,
            None => {
                return Err(not_installed(caller_id));
            },
        };
        let callee = match self.active_manifest(callee_id) {
            Some(manifest) => manifest,
            None => {
                return Err(not_installed(callee_id));
            },
        };
        self.ensure_not_blocked(caller)?;
        self.ensure_not_blocked(callee)?;
        let required_permission = agree_on_permission(caller, callee, &request)?;
        let caller_version = match self.active_versions.get(caller_id) {
            Some(version) => version.clone(),
            None => String::new(),
        };
        let callee_version = match self.active_versions.get(callee_id) {
            Some(version) => version.clone(),
            None => String::new(),
        };
        Ok(
            ServiceCallGrant {
                caller_extension_id: request.caller_extension_id,
                caller_version,
                callee_extension_id: request.callee_extension_id,
                callee_version,
                service: request.service,
                method: request.method,
                schema_version: request.schema_version,
                required_permission,
            },
        )
    }
}

fn find_consumed<'a>(caller: &'a ExtensionManifest, request: &ServiceCallRequest) -> (r: Option<
    &'a ExtensionServiceDependency,
>)
    ensures
        r.deep_view() == registry_model::first_consumed(caller@.services.consumes, request@),
{
    let ghost all = caller@.services.consumes;
    let mut i: usize = 0;
    assert(all.skip(0) =~= all);
    while i < caller.services.consumes.len()
        invariant
            i <= caller.services.consumes.len(),
            all == caller.services.consumes.deep_view(),
            registry_model::first_consumed(all, request@) == registry_model::first_consumed(
                all.skip(i as int),
                request@,
            ),
        decreases caller.services.consumes.len() - i,
    {
        proof {
            assert(all.skip(i as int)[0] == caller.services.consumes[i as int]@);
            assert(all.skip(i as int).drop_first() =~= all.skip(i + 1));
        }
        let dependency = &caller.services.consumes[i];
        if same_text(dependency.extension_id.as_str(), request.callee_extension_id.as_str())
            && same_text(dependency.service.as_str(), request.service.as_str()) && same_text(
            dependency.method.as_str(),
            request.method.as_str(),
        ) && same_text(dependency.schema_version.as_str(), request.schema_version.as_str()) {
            return Some(dependency);
        }
        i += 1;
    }
    None
}

fn find_provided<'a>(callee: &'a ExtensionManifest, request: &ServiceCallRequest) -> (r: Option<
    &'a ExtensionServiceDefinition,
>)
    ensures
        r.deep_view() == registry_model::first_provided(callee@.services.provides, request@),
{
    let ghost all = callee@.services.provides;
    let mut i: usize = 0;
    assert(all.skip(0) =~= all);
    while i < callee.services.provides.len()
        invariant
            i <= callee.services.provides.len(),
            all == callee.services.provides.deep_view(),
            registry_model::first_provided(all, request@) == registry_model::first_provided(
                all.skip(i as int),
                request@,
            ),
        decreases callee.services.provides.len() - i,
    {
        proof {
            assert(all.skip(i as int)[0] == callee.services.provides[i as int]@);
            assert(all.skip(i as int).drop_first() =~= all.skip(i + 1));
        }
        let definition = &callee.services.provides[i];
        if same_text(definition.service.as_str(), request.service.as_str()) && same_text(
            definition.method.as_str(),
            request.method.as_str(),
        ) && same_text(definition.schema_version.as_str(), request.schema_version.as_str()) {
            return Some(definition);
        }
        i += 1;
    }
    None
}

/// The permission under which caller and callee agree that the call is made.
fn agree_on_permission(
    caller: &ExtensionManifest,
    callee: &ExtensionManifest,
    request: &ServiceCallRequest,
) -> (r: RegistryResult<String>)
    ensures
        registry_model::gives(
            r,
            registry_model::agreed_permission(caller@, callee@, request@),
        ),
{
    let consumed = match find_consumed(caller, request) {
        Some(dependency) => dependency,
        None => {
            return Err(
                denied("caller did not declare services.consumes for this callee service"),
            );
        },
    };
    let provided = match find_provided(callee, request) {
        Some(definition) => definition,
        None => {
            return Err(
                RegistryError::ServiceUnavailable {
                    reason: "callee did not declare services.provides for this service".to_owned(),
                },
            );
        },
    };
    let permission = match &request.required_permission {
        Some(permission) => permission.as_str(),
        None => provided.required_permission.as_str(),
    };
    if !same_text(consumed.required_permission.as_str(), permission) || !same_text(
        provided.required_permission.as_str(),
        permission,
    ) {
        return Err(
            denied(
                "caller consume permission, callee provide permission, and request permission must match",
            ),
        );
    }
    let caller_permission = match caller.permissions.get(permission) {
        Some(found) => found,
        None => {
            let reason = "caller does not have approved permission ".to_owned().concat(permission);
            return Err(RegistryError::ServiceDenied { reason });
        },
    };
    let callee_permission = match callee.permissions.get(permission) {
        Some(found) => found,
        None => {
            let reason = "callee permission metadata missing for ".to_owned().concat(permission);
            return Err(RegistryError::ServiceDenied { reason });
        },
    };
    if !caller_permission.same(callee_permission) {
        return Err(
            denied("caller permission metadata does not match provider permission metadata"),
        );
    }
    Ok(permission.to_owned())
}

} // verus!

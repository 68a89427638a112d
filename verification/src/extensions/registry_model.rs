//! What each operation of the registry does, as functions of the registry's contents.
use vstd::prelude::*;

use crate::checks::Objection;
use crate::extensions::manifest::{
    ExtensionBoundary, ExtensionManifestModel, ExtensionServiceDefinitionModel,
    ExtensionServiceDependencyModel, ManifestValidationPolicyModel,
};
use crate::extensions::records::{
    BlocklistEntryModel, ExtensionBlocklistMatchModel, ExtensionInstallRecordModel,
    ExtensionInstallStatus, ExtensionSourceSnapshotModel, ExtensionStatusSnapshotModel,
    InstallOptions, RegistryErrorModel, RegistryResult, RollbackSnapshotModel,
    ServiceCallGrantModel, ServiceCallRequestModel, ValidateExtensionManifestResponseModel,
};
use crate::extensions::registry::ExtensionRegistryModel;
use crate::extensions::snapshot::ExtensionRegistrySnapshotModel;
use crate::extensions::validation;
use crate::text_map;

verus! {

/// A call that changes the registry: where it succeeds, registry and answer are what the
/// operation gives; where it is refused, the registry is as before and the error says why.
pub open spec fn changes<T: DeepView>(
    answer: RegistryResult<T>,
    before: ExtensionRegistryModel,
    after: ExtensionRegistryModel,
    operation: Result<(ExtensionRegistryModel, T::V), RegistryErrorModel>,
) -> bool {
    match answer {
        Ok(value) => operation == Ok::<(ExtensionRegistryModel, T::V), RegistryErrorModel>(
            (after, value.deep_view()),
        ),
        Err(error) => after == before && operation == Err::<
            (ExtensionRegistryModel, T::V),
            RegistryErrorModel,
        >(error@),
    }
}

/// A call that reads the registry gives exactly what is expected.
pub open spec fn gives<T: DeepView>(
    answer: RegistryResult<T>,
    expected: Result<T::V, RegistryErrorModel>,
) -> bool {
    match answer {
        Ok(value) => expected == Ok::<T::V, RegistryErrorModel>(value.deep_view()),
        Err(error) => expected == Err::<T::V, RegistryErrorModel>(error@),
    }
}

pub open spec fn not_installed_error(extension_id: Seq<char>) -> RegistryErrorModel {
    RegistryErrorModel::NotInstalled { extension_id }
}

pub open spec fn no_rollback_error(extension_id: Seq<char>) -> RegistryErrorModel {
    RegistryErrorModel::RollbackUnavailable { extension_id }
}

pub open spec fn denied_error(reason: Seq<char>) -> RegistryErrorModel {
    RegistryErrorModel::ServiceDenied { reason }
}

/// The policy with what the options settle instead.
pub open spec fn policy_with(
    policy: ManifestValidationPolicyModel,
    options: InstallOptions,
) -> ManifestValidationPolicyModel {
    ManifestValidationPolicyModel {
        allow_local_unsigned: match options.approve_local_unsigned {
            Some(approved) => approved,
            None => policy.allow_local_unsigned,
        },
        allow_local_process_runtime: match options.allow_local_process_runtime {
            Some(allowed) => allowed,
            None => policy.allow_local_process_runtime,
        },
        ..policy
    }
}

/// The first entry of a blocklist that covers a manifest.
pub open spec fn first_hit(
    blocklist: Seq<BlocklistEntryModel>,
    m: ExtensionManifestModel,
) -> Option<BlocklistEntryModel>
    decreases blocklist.len(),
{
    if blocklist.len() == 0 {
        None
    } else if blocklist[0].key.covers(m) {
        Some(blocklist[0])
    } else {
        first_hit(blocklist.drop_first(), m)
    }
}

/// The dependency declares just the requested service of the requested callee.
pub open spec fn consumes_requested(
    d: ExtensionServiceDependencyModel,
    request: ServiceCallRequestModel,
) -> bool {
    &&& d.extension_id == request.callee_extension_id
    &&& d.service == request.service
    &&& d.method == request.method
    &&& d.schema_version == request.schema_version
}

pub open spec fn first_consumed(
    consumes: Seq<ExtensionServiceDependencyModel>,
    request: ServiceCallRequestModel,
) -> Option<ExtensionServiceDependencyModel>
    decreases consumes.len(),
{
    if consumes.len() == 0 {
        None
    } else if consumes_requested(consumes[0], request) {
        Some(consumes[0])
    } else {
        first_consumed(consumes.drop_first(), request)
    }
}

/// The definition declares just the requested service.
pub open spec fn provides_requested(
    d: ExtensionServiceDefinitionModel,
    request: ServiceCallRequestModel,
) -> bool {
    &&& d.service == request.service
    &&& d.method == request.method
    &&& d.schema_version == request.schema_version
}

pub open spec fn first_provided(
    provides: Seq<ExtensionServiceDefinitionModel>,
    request: ServiceCallRequestModel,
) -> Option<ExtensionServiceDefinitionModel>
    decreases provides.len(),
{
    if provides.len() == 0 {
        None
    } else if provides_requested(provides[0], request) {
        Some(provides[0])
    } else {
        first_provided(provides.drop_first(), request)
    }
}

/// The permission under which caller and callee agree that a call is made. The request
/// may leave it to the callee to name it.
pub open spec fn agreed_permission(
    caller: ExtensionManifestModel,
    callee: ExtensionManifestModel,
    request: ServiceCallRequestModel,
) -> Result<Seq<char>, RegistryErrorModel> {
    let consumed = first_consumed(caller.services.consumes, request);
    let provided = first_provided(callee.services.provides, request);
    if consumed is None {
        Err(denied_error("caller did not declare services.consumes for this callee service"@))
    } else if provided is None {
        Err(
            RegistryErrorModel::ServiceUnavailable {
                reason: "callee did not declare services.provides for this service"@,
            },
        )
    } else {
        let permission = match request.required_permission {
            Some(permission) => permission,
            None => provided->0.required_permission,
        };
        let with_caller = text_map::value_of(caller.permissions, permission);
        let with_callee = text_map::value_of(callee.permissions, permission);
        if consumed->0.required_permission != permission || provided->0.required_permission
            != permission {
            Err(
                denied_error(
                    "caller consume permission, callee provide permission, and request permission must match"@,
                ),
            )
        } else if with_caller is None {
            Err(denied_error("caller does not have approved permission "@ + permission))
        } else if with_callee is None {
            Err(denied_error("callee permission metadata missing for "@ + permission))
        } else if with_caller != with_callee {
            Err(
                denied_error(
                    "caller permission metadata does not match provider permission metadata"@,
                ),
            )
        } else {
            Ok(permission)
        }
    }
}

impl ExtensionRegistryModel {
    pub open spec fn empty(policy: ManifestValidationPolicyModel) -> ExtensionRegistryModel {
        ExtensionRegistryModel {
            manifests: Seq::empty(),
            records: Seq::empty(),
            active_versions: Seq::empty(),
            blocklist: Seq::empty(),
            validation_policy: policy,
        }
    }

    /// What is kept of the registry: all but the host's policy.
    pub open spec fn snapshot(self) -> ExtensionRegistrySnapshotModel {
        ExtensionRegistrySnapshotModel {
            manifests: self.manifests,
            records: self.records,
            active_versions: self.active_versions,
            blocklist: self.blocklist,
        }
    }

    pub open spec fn restored(
        snapshot: ExtensionRegistrySnapshotModel,
        policy: ManifestValidationPolicyModel,
    ) -> ExtensionRegistryModel {
        ExtensionRegistryModel {
            manifests: snapshot.manifests,
            records: snapshot.records,
            active_versions: snapshot.active_versions,
            blocklist: snapshot.blocklist,
            validation_policy: policy,
        }
    }

    /// The registry with one more blocklist entry. Entries by vulnerability are not
    /// supported.
    pub open spec fn blocking(self, entry: BlocklistEntryModel) -> Result<
        ExtensionRegistryModel,
        RegistryErrorModel,
    > {
        if entry.key is VulnerabilityId {
            Err(RegistryErrorModel::UnsupportedBlocklistKey { key: entry.key })
        } else {
            Ok(ExtensionRegistryModel { blocklist: self.blocklist.push(entry), ..self })
        }
    }

    pub open spec fn block_hit(self, m: ExtensionManifestModel) -> Option<BlocklistEntryModel> {
        first_hit(self.blocklist, m)
    }

    pub open spec fn blocked_problem(self, m: ExtensionManifestModel) -> Option<
        RegistryErrorModel,
    > {
        match self.block_hit(m) {
            Some(entry) => Some(
                RegistryErrorModel::Blocked {
                    extension_id: m.id,
                    reason: entry.reason,
                    key: entry.key,
                },
            ),
            None => None,
        }
    }

    pub open spec fn active_record(self, extension_id: Seq<char>) -> Option<
        ExtensionInstallRecordModel,
    > {
        match text_map::value_of(self.active_versions, extension_id) {
            Some(version) => text_map::entry_of(self.records, extension_id, version),
            None => None,
        }
    }

    pub open spec fn active_manifest(self, extension_id: Seq<char>) -> Option<
        ExtensionManifestModel,
    > {
        match text_map::value_of(self.active_versions, extension_id) {
            Some(version) => text_map::entry_of(self.manifests, extension_id, version),
            None => None,
        }
    }

    /// A version that was installed once keeps its digests.
    pub open spec fn digest_problem(self, m: ExtensionManifestModel) -> Option<
        RegistryErrorModel,
    > {
        match text_map::entry_of(self.records, m.id, m.version) {
            Some(existing) => if existing.manifest_digest != m.provenance.manifest_digest
                || existing.artifact_digest != m.provenance.artifact_digest {
                Some(
                    RegistryErrorModel::DigestConflict { extension_id: m.id, version: m.version },
                )
            } else {
                None
            },
            None => None,
        }
    }

    /// An active extension keeps its source authority unless a change is approved.
    pub open spec fn source_problem(
        self,
        m: ExtensionManifestModel,
        options: InstallOptions,
    ) -> Option<RegistryErrorModel> {
        match self.active_record(m.id) {
            Some(current) => if current.source.same_authority(
                ExtensionSourceSnapshotModel::of_provenance(m.provenance),
            ) || options.approve_source_change == Some(true) {
                None
            } else {
                Some(RegistryErrorModel::SourceChangeRequiresApproval { extension_id: m.id })
            },
            None => None,
        }
    }

    /// The verdict on installing a manifest: its boundary, or the first objection.
    pub open spec fn preflight(self, m: ExtensionManifestModel, options: InstallOptions) -> Result<
        ExtensionBoundary,
        RegistryErrorModel,
    > {
        match validation::verdict_on(m, policy_with(self.validation_policy, options)) {
            Err(error) => Err(RegistryErrorModel::Validation(error)),
            Ok(boundary) => match self.blocked_problem(m).otherwise(
                self.digest_problem(m),
            ).otherwise(self.source_problem(m, options)) {
                Some(error) => Err(error),
                None => Ok(boundary),
            },
        }
    }

    /// The answer to a validation, which changes nothing.
    pub open spec fn validate(self, m: ExtensionManifestModel, options: InstallOptions) -> Result<
        ValidateExtensionManifestResponseModel,
        RegistryErrorModel,
    > {
        match self.preflight(m, options) {
            Err(error) => Err(error),
            Ok(boundary) => Ok(ValidateExtensionManifestResponseModel { manifest: m, boundary }),
        }
    }

    /// The version that is active now, where installing the manifest replaces it.
    pub open spec fn previous_version(self, m: ExtensionManifestModel) -> Option<Seq<char>> {
        match text_map::value_of(self.active_versions, m.id) {
            Some(version) => if version == m.version {
                None
            } else {
                Some(version)
            },
            None => None,
        }
    }

    /// The record of a fresh installation.
    pub open spec fn record_for(
        self,
        m: ExtensionManifestModel,
        boundary: ExtensionBoundary,
    ) -> ExtensionInstallRecordModel {
        ExtensionInstallRecordModel {
            id: m.id,
            version: m.version,
            manifest_digest: m.provenance.manifest_digest,
            artifact_digest: m.provenance.artifact_digest,
            source: ExtensionSourceSnapshotModel::of_provenance(m.provenance),
            boundary,
            status: ExtensionInstallStatus::Installed,
            previous_version: self.previous_version(m),
            approved_permissions: text_map::keys_of(m.permissions),
            rollback_snapshot: Some(
                RollbackSnapshotModel {
                    manifest_digest: m.provenance.manifest_digest,
                    artifact_digest: m.provenance.artifact_digest,
                },
            ),
        }
    }

    /// The registry with a manifest and its record stored, its version being the active one.
    pub open spec fn holding(
        self,
        m: ExtensionManifestModel,
        record: ExtensionInstallRecordModel,
    ) -> ExtensionRegistryModel {
        ExtensionRegistryModel {
            manifests: text_map::entry_inserted(self.manifests, m.id, m.version, m),
            records: text_map::entry_inserted(self.records, m.id, m.version, record),
            active_versions: text_map::inserted(self.active_versions, m.id, m.version),
            ..self
        }
    }

    pub open spec fn install(self, m: ExtensionManifestModel, options: InstallOptions) -> Result<
        (ExtensionRegistryModel, ExtensionInstallRecordModel),
        RegistryErrorModel,
    > {
        match self.preflight(m, options) {
            Err(error) => Err(error),
            Ok(boundary) => {
                let record = self.record_for(m, boundary);
                Ok((self.holding(m, record), record))
            },
        }
    }

    /// The registry with the record of a version replaced.
    pub open spec fn with_record(
        self,
        extension_id: Seq<char>,
        version: Seq<char>,
        record: ExtensionInstallRecordModel,
    ) -> ExtensionRegistryModel {
        ExtensionRegistryModel {
            records: text_map::entry_inserted(self.records, extension_id, version, record),
            ..self
        }
    }

    /// Give the record of a version a new status; `missing` where there is no record.
    pub open spec fn with_status(
        self,
        extension_id: Seq<char>,
        version: Seq<char>,
        status: ExtensionInstallStatus,
        missing: RegistryErrorModel,
    ) -> Result<(ExtensionRegistryModel, ExtensionInstallRecordModel), RegistryErrorModel> {
        match text_map::entry_of(self.records, extension_id, version) {
            None => Err(missing),
            Some(record) => {
                let changed = ExtensionInstallRecordModel { status, ..record };
                Ok((self.with_record(extension_id, version, changed), changed))
            },
        }
    }

    pub open spec fn rollback(self, extension_id: Seq<char>) -> Result<
        (ExtensionRegistryModel, ExtensionInstallRecordModel),
        RegistryErrorModel,
    > {
        match self.active_record(extension_id) {
            None => Err(not_installed_error(extension_id)),
            Some(current) => match current.previous_version {
                None => Err(no_rollback_error(extension_id)),
                Some(version) => match text_map::entry_of(self.manifests, extension_id, version) {
                    None => Err(no_rollback_error(extension_id)),
                    Some(m) => match self.blocked_problem(m) {
                        Some(error) => Err(error),
                        None => match self.with_status(
                            extension_id,
                            version,
                            ExtensionInstallStatus::InstalledPreviousVersion,
                            no_rollback_error(extension_id),
                        ) {
                            Err(error) => Err(error),
                            Ok((registry, record)) => Ok(
                                (
                                    ExtensionRegistryModel {
                                        active_versions: text_map::inserted(
                                            registry.active_versions,
                                            extension_id,
                                            version,
                                        ),
                                        ..registry
                                    },
                                    record,
                                ),
                            ),
                        },
                    },
                },
            },
        }
    }

    pub open spec fn disable(self, extension_id: Seq<char>) -> Result<
        (ExtensionRegistryModel, ExtensionInstallRecordModel),
        RegistryErrorModel,
    > {
        match text_map::value_of(self.active_versions, extension_id) {
            None => Err(not_installed_error(extension_id)),
            Some(version) => self.with_status(
                extension_id,
                version,
                ExtensionInstallStatus::Disabled,
                not_installed_error(extension_id),
            ),
        }
    }

    pub open spec fn enable(self, extension_id: Seq<char>) -> Result<
        (ExtensionRegistryModel, ExtensionInstallRecordModel),
        RegistryErrorModel,
    > {
        match text_map::value_of(self.active_versions, extension_id) {
            None => Err(not_installed_error(extension_id)),
            Some(version) => match text_map::entry_of(self.manifests, extension_id, version) {
                None => Err(not_installed_error(extension_id)),
                Some(m) => match self.blocked_problem(m) {
                    Some(error) => Err(error),
                    None => self.with_status(
                        extension_id,
                        version,
                        ExtensionInstallStatus::Installed,
                        not_installed_error(extension_id),
                    ),
                },
            },
        }
    }

    /// Take an extension out of use. Its manifests and records stay.
    pub open spec fn remove(self, extension_id: Seq<char>) -> Result<
        (ExtensionRegistryModel, ExtensionInstallRecordModel),
        RegistryErrorModel,
    > {
        match self.disable(extension_id) {
            Err(error) => Err(error),
            Ok((registry, record)) => Ok(
                (
                    ExtensionRegistryModel {
                        active_versions: text_map::removed(registry.active_versions, extension_id),
                        ..registry
                    },
                    record,
                ),
            ),
        }
    }

    pub open spec fn extension_status(self, extension_id: Seq<char>) -> Result<
        ExtensionStatusSnapshotModel,
        RegistryErrorModel,
    > {
        match (self.active_manifest(extension_id), self.active_record(extension_id)) {
            (Some(m), Some(record)) => Ok(
                match self.block_hit(m) {
                    Some(entry) => ExtensionStatusSnapshotModel {
                        extension_id,
                        record: ExtensionInstallRecordModel {
                            status: ExtensionInstallStatus::Blocked,
                            ..record
                        },
                        block: Some(
                            ExtensionBlocklistMatchModel { reason: entry.reason, key: entry.key },
                        ),
                    },
                    None => ExtensionStatusSnapshotModel { extension_id, record, block: None },
                },
            ),
            _ => Err(not_installed_error(extension_id)),
        }
    }

    pub open spec fn statuses_of(self, ids: Seq<Seq<char>>) -> Result<
        Seq<ExtensionStatusSnapshotModel>,
        RegistryErrorModel,
    >
        decreases ids.len(),
    {
        if ids.len() == 0 {
            Ok(Seq::empty())
        } else {
            match self.statuses_of(ids.drop_last()) {
                Err(error) => Err(error),
                Ok(earlier) => match self.extension_status(ids.last()) {
                    Err(error) => Err(error),
                    Ok(status) => Ok(earlier.push(status)),
                },
            }
        }
    }

    /// The status of every active extension, in the order of their ids.
    pub open spec fn statuses(self) -> Result<
        Seq<ExtensionStatusSnapshotModel>,
        RegistryErrorModel,
    > {
        self.statuses_of(text_map::keys_of(self.active_versions))
    }

    /// Where some first ids cannot all be told, neither can a longer list.
    pub proof fn lemma_statuses_fail(self, ids: Seq<Seq<char>>, n: int)
        requires
            0 <= n <= ids.len(),
            self.statuses_of(ids.take(n)) is Err,
        ensures
            self.statuses_of(ids) == self.statuses_of(ids.take(n)),
        decreases ids.len() - n,
    {
        if n < ids.len() {
            assert(ids.take(n + 1).drop_last() =~= ids.take(n));
            self.lemma_statuses_fail(ids, n + 1);
        } else {
            assert(ids.take(n) =~= ids);
        }
    }

    pub open spec fn readiness_problem(
        self,
        extension_id: Seq<char>,
        role: Seq<char>,
    ) -> Option<RegistryErrorModel> {
        let named = role + " extension "@ + extension_id;
        match self.active_record(extension_id) {
            None => Some(not_installed_error(extension_id)),
            Some(record) => match record.status {
                ExtensionInstallStatus::Installed
                | ExtensionInstallStatus::InstalledPreviousVersion => None,
                ExtensionInstallStatus::Disabled => Some(denied_error(named + " is disabled"@)),
                ExtensionInstallStatus::Blocked => Some(denied_error(named + " is blocked"@)),
                ExtensionInstallStatus::Updating
                | ExtensionInstallStatus::RollbackInProgress => Some(
                    denied_error(named + " is not ready for service calls"@),
                ),
            },
        }
    }

    /// The version of an extension that is active.
    pub open spec fn active_version(self, extension_id: Seq<char>) -> Seq<char> {
        match text_map::value_of(self.active_versions, extension_id) {
            Some(version) => version,
            None => Seq::empty(),
        }
    }

    pub open spec fn authorize(self, request: ServiceCallRequestModel) -> Result<
        ServiceCallGrantModel,
        RegistryErrorModel,
    > {
        let caller = self.active_manifest(request.caller_extension_id);
        let callee = self.active_manifest(request.callee_extension_id);
        match self.readiness_problem(request.caller_extension_id, "caller"@).otherwise(
            self.readiness_problem(request.callee_extension_id, "callee"@),
        ) {
            Some(error) => Err(error),
            None => if caller is None {
                Err(not_installed_error(request.caller_extension_id))
            } else if callee is None {
                Err(not_installed_error(request.callee_extension_id))
            } else {
                match self.blocked_problem(caller->0).otherwise(self.blocked_problem(callee->0)) {
                    Some(error) => Err(error),
                    None => match agreed_permission(caller->0, callee->0, request) {
                        Err(error) => Err(error),
                        Ok(permission) => Ok(
                            ServiceCallGrantModel {
                                caller_extension_id: request.caller_extension_id,
                                caller_version: self.active_version(request.caller_extension_id),
                                callee_extension_id: request.callee_extension_id,
                                callee_version: self.active_version(request.callee_extension_id),
                                service: request.service,
                                method: request.method,
                                schema_version: request.schema_version,
                                required_permission: permission,
                            },
                        ),
                    },
                }
            },
        }
    }
}

} // verus!

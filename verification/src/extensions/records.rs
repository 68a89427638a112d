//! What the registry keeps and answers: install records, blocklist entries, service calls
//! and errors.
use vstd::prelude::*;

use crate::extensions::manifest::{
    ExtensionBoundary, ExtensionLineage, ExtensionLineageModel, ExtensionManifest,
    ExtensionManifestModel, ExtensionProvenance, ExtensionProvenanceModel, ExtensionPublication,
    ExtensionValidationError, ExtensionValidationErrorModel, ProvenanceSource,
};
use crate::record::Record;
use crate::text::{quoted, same_text, starts_with, trim};

verus! {

#[derive(Debug, Clone, Copy, PartialEq, Eq, Structural)]
pub enum ExtensionInstallStatus {
    Installed,
    Disabled,
    Blocked,
    Updating,
    RollbackInProgress,
    InstalledPreviousVersion,
}

impl DeepView for ExtensionInstallStatus {
    type V = ExtensionInstallStatus;

    open spec fn deep_view(&self) -> ExtensionInstallStatus {
        *self
    }
}

impl Record for ExtensionInstallStatus {
    fn duplicate(&self) -> (r: Self) {
        *self
    }

    fn same(&self, other: &Self) -> (r: bool) {
        *self == *other
    }
}

#[derive(Debug, PartialEq, Eq)]
pub struct RollbackSnapshot {
    pub manifest_digest: String,
    pub artifact_digest: String,
}

/// What a [`RollbackSnapshot`] holds.
pub struct RollbackSnapshotModel {
    pub manifest_digest: Seq<char>,
    pub artifact_digest: Seq<char>,
}

impl DeepView for RollbackSnapshot {
    type V = RollbackSnapshotModel;

    open spec fn deep_view(&self) -> RollbackSnapshotModel {
        RollbackSnapshotModel {
            manifest_digest: self.manifest_digest.deep_view(),
            artifact_digest: self.artifact_digest.deep_view(),
        }
    }
}

impl View for RollbackSnapshot {
    type V = RollbackSnapshotModel;

    #[verifier::inline]
    open spec fn view(&self) -> RollbackSnapshotModel {
        self.deep_view()
    }
}

impl Record for RollbackSnapshot {
    fn duplicate(&self) -> (r: Self) {
        RollbackSnapshot {
            manifest_digest: self.manifest_digest.duplicate(),
            artifact_digest: self.artifact_digest.duplicate(),
        }
    }

    fn same(&self, other: &Self) -> (r: bool) {
        self.manifest_digest.same(&other.manifest_digest)
            && self.artifact_digest.same(&other.artifact_digest)
    }
}

impl Clone for RollbackSnapshot {
    fn clone(&self) -> (r: Self)
        ensures
            r.deep_view() == self.deep_view(),
    {
        self.duplicate()
    }
}

/// Persisted source provenance snapshot for an installed package revision.
#[derive(Debug, PartialEq, Eq)]
pub struct ExtensionSourceSnapshot {
    /// Source class that produced this package revision.
    pub source: ProvenanceSource,
    /// Source repository, when the package is repository-backed.
    pub repository: Option<String>,
    /// Source ref, when the package is repository-backed.
    pub source_ref: Option<String>,
    /// Manifest path inside the source repository.
    pub manifest_path: Option<String>,
    /// Source commit retained for audit, but not treated as authority identity.
    pub commit: Option<String>,
    /// Registry identity, when the package came from a registry.
    pub registry_identity: Option<String>,
    /// Package lineage retained with the installed revision.
    pub lineage: Option<ExtensionLineage>,
    /// Publication state retained with the installed revision.
    pub publication: Option<ExtensionPublication>,
}

/// What a [`ExtensionSourceSnapshot`] holds.
pub struct ExtensionSourceSnapshotModel {
    pub source: ProvenanceSource,
    pub repository: Option<Seq<char>>,
    pub source_ref: Option<Seq<char>>,
    pub manifest_path: Option<Seq<char>>,
    pub commit: Option<Seq<char>>,
    pub registry_identity: Option<Seq<char>>,
    pub lineage: Option<ExtensionLineageModel>,
    pub publication: Option<ExtensionPublication>,
}

impl DeepView for ExtensionSourceSnapshot {
    type V = ExtensionSourceSnapshotModel;

    open spec fn deep_view(&self) -> ExtensionSourceSnapshotModel {
        ExtensionSourceSnapshotModel {
            source: self.source.deep_view(),
            repository: self.repository.deep_view(),
            source_ref: self.source_ref.deep_view(),
            manifest_path: self.manifest_path.deep_view(),
            commit: self.commit.deep_view(),
            registry_identity: self.registry_identity.deep_view(),
            lineage: self.lineage.deep_view(),
            publication: self.publication.deep_view(),
        }
    }
}

impl View for ExtensionSourceSnapshot {
    type V = ExtensionSourceSnapshotModel;

    #[verifier::inline]
    open spec fn view(&self) -> ExtensionSourceSnapshotModel {
        self.deep_view()
    }
}

impl Record for ExtensionSourceSnapshot {
    fn duplicate(&self) -> (r: Self) {
        ExtensionSourceSnapshot {
            source: self.source.duplicate(),
            repository: self.repository.duplicate(),
            source_ref: self.source_ref.duplicate(),
            manifest_path: self.manifest_path.duplicate(),
            commit: self.commit.duplicate(),
            registry_identity: self.registry_identity.duplicate(),
            lineage: self.lineage.duplicate(),
            publication: self.publication.duplicate(),
        }
    }

    fn same(&self, other: &Self) -> (r: bool) {
        self.source.same(&other.source)
            && self.repository.same(&other.repository)
            && self.source_ref.same(&other.source_ref)
            && self.manifest_path.same(&other.manifest_path)
            && self.commit.same(&other.commit)
            && self.registry_identity.same(&other.registry_identity)
            && self.lineage.same(&other.lineage)
            && self.publication.same(&other.publication)
    }
}

impl Clone for ExtensionSourceSnapshot {
    fn clone(&self) -> (r: Self)
        ensures
            r.deep_view() == self.deep_view(),
    {
        self.duplicate()
    }
}

/// What a text says once the white space around it is gone; nothing where that is all.
pub open spec fn said(value: Option<Seq<char>>) -> Option<Seq<char>> {
    match value {
        Some(text) => if crate::text::trimmed(text).len() == 0 {
            None
        } else {
            Some(crate::text::trimmed(text))
        },
        None => None,
    }
}

fn trim_optional_string(value: &Option<String>) -> (r: Option<String>)
    ensures
        r.deep_view() == said(value.deep_view()),
{
    match trim_optional_str(value) {
        Some(text) => Some(text.to_owned()),
        None => None,
    }
}

fn trim_optional_str(value: &Option<String>) -> (r: Option<&str>)
    ensures
        r.deep_view() == said(value.deep_view()),
{
    match value {
        Some(text) => {
            let trimmed = trim(text.as_str());
            if trimmed.is_empty() {
                None
            } else {
                Some(trimmed)
            }
        },
        None => None,
    }
}

fn says_the_same(a: &Option<String>, b: &Option<String>) -> (r: bool)
    ensures
        r == (said(a.deep_view()) == said(b.deep_view())),
{
    match (trim_optional_str(a), trim_optional_str(b)) {
        (Some(left), Some(right)) => same_text(left, right),
        (None, None) => true,
        _ => false,
    }
}

impl ExtensionSourceSnapshotModel {
    /// What of a manifest's provenance is kept with its install record.
    pub open spec fn of_provenance(p: ExtensionProvenanceModel) -> ExtensionSourceSnapshotModel {
        ExtensionSourceSnapshotModel {
            source: p.source,
            repository: said(p.repository),
            source_ref: said(p.source_ref),
            manifest_path: said(p.manifest_path),
            commit: p.commit,
            registry_identity: said(p.registry_identity),
            lineage: p.lineage,
            publication: p.publication,
        }
    }

    /// The two speak of one source authority. Commit and publication state may differ.
    pub open spec fn same_authority(self, other: ExtensionSourceSnapshotModel) -> bool {
        &&& self.source == other.source
        &&& said(self.repository) == said(other.repository)
        &&& said(self.source_ref) == said(other.source_ref)
        &&& said(self.manifest_path) == said(other.manifest_path)
        &&& said(self.registry_identity) == said(other.registry_identity)
        &&& self.lineage == other.lineage
    }
}

impl ExtensionSourceSnapshot {
    /// Build an install-record source snapshot from manifest provenance.
    pub fn from_provenance(provenance: &ExtensionProvenance) -> (r: Self)
        ensures
            r@ == ExtensionSourceSnapshotModel::of_provenance(provenance@),
    {
        ExtensionSourceSnapshot {
            source: provenance.source,
            repository: trim_optional_string(&provenance.repository),
            source_ref: trim_optional_string(&provenance.source_ref),
            manifest_path: trim_optional_string(&provenance.manifest_path),
            commit: provenance.commit.duplicate(),
            registry_identity: trim_optional_string(&provenance.registry_identity),
            lineage: provenance.lineage.duplicate(),
            publication: provenance.publication.duplicate(),
        }
    }

    pub fn matches_authority(&self, other: &Self) -> (r: bool)
        ensures
            r == self@.same_authority(other@),
    {
        self.source == other.source && says_the_same(&self.repository, &other.repository)
            && says_the_same(&self.source_ref, &other.source_ref) && says_the_same(
            &self.manifest_path,
            &other.manifest_path,
        ) && says_the_same(&self.registry_identity, &other.registry_identity)
            && self.lineage.same(&other.lineage)
    }
}

#[derive(Debug, PartialEq, Eq)]
pub struct ExtensionInstallRecord {
    pub id: String,
    pub version: String,
    pub manifest_digest: String,
    pub artifact_digest: String,
    pub source: ExtensionSourceSnapshot,
    pub boundary: ExtensionBoundary,
    pub status: ExtensionInstallStatus,
    pub previous_version: Option<String>,
    pub approved_permissions: Vec<String>,
    pub rollback_snapshot: Option<RollbackSnapshot>,
}

/// What a [`ExtensionInstallRecord`] holds.
pub struct ExtensionInstallRecordModel {
    pub id: Seq<char>,
    pub version: Seq<char>,
    pub manifest_digest: Seq<char>,
    pub artifact_digest: Seq<char>,
    pub source: ExtensionSourceSnapshotModel,
    pub boundary: ExtensionBoundary,
    pub status: ExtensionInstallStatus,
    pub previous_version: Option<Seq<char>>,
    pub approved_permissions: Seq<Seq<char>>,
    pub rollback_snapshot: Option<RollbackSnapshotModel>,
}

impl DeepView for ExtensionInstallRecord {
    type V = ExtensionInstallRecordModel;

    open spec fn deep_view(&self) -> ExtensionInstallRecordModel {
        ExtensionInstallRecordModel {
            id: self.id.deep_view(),
            version: self.version.deep_view(),
            manifest_digest: self.manifest_digest.deep_view(),
            artifact_digest: self.artifact_digest.deep_view(),
            source: self.source.deep_view(),
            boundary: self.boundary.deep_view(),
            status: self.status.deep_view(),
            previous_version: self.previous_version.deep_view(),
            approved_permissions: self.approved_permissions.deep_view(),
            rollback_snapshot: self.rollback_snapshot.deep_view(),
        }
    }
}

impl View for ExtensionInstallRecord {
    type V = ExtensionInstallRecordModel;

    #[verifier::inline]
    open spec fn view(&self) -> ExtensionInstallRecordModel {
        self.deep_view()
    }
}

impl Record for ExtensionInstallRecord {
    fn duplicate(&self) -> (r: Self) {
        ExtensionInstallRecord {
            id: self.id.duplicate(),
            version: self.version.duplicate(),
            manifest_digest: self.manifest_digest.duplicate(),
            artifact_digest: self.artifact_digest.duplicate(),
            source: self.source.duplicate(),
            boundary: self.boundary.duplicate(),
            status: self.status.duplicate(),
            previous_version: self.previous_version.duplicate(),
            approved_permissions: self.approved_permissions.duplicate(),
            rollback_snapshot: self.rollback_snapshot.duplicate(),
        }
    }

    fn same(&self, other: &Self) -> (r: bool) {
        self.id.same(&other.id)
            && self.version.same(&other.version)
            && self.manifest_digest.same(&other.manifest_digest)
            && self.artifact_digest.same(&other.artifact_digest)
            && self.source.same(&other.source)
            && self.boundary.same(&other.boundary)
            && self.status.same(&other.status)
            && self.previous_version.same(&other.previous_version)
            && self.approved_permissions.same(&other.approved_permissions)
            && self.rollback_snapshot.same(&other.rollback_snapshot)
    }
}

impl Clone for ExtensionInstallRecord {
    fn clone(&self) -> (r: Self)
        ensures
            r.deep_view() == self.deep_view(),
    {
        self.duplicate()
    }
}

/// What a caller lets an installation do beyond the host's policy.
#[derive(Debug, Clone, Copy, PartialEq, Eq, Structural)]
pub struct InstallOptions {
    pub approve_local_unsigned: Option<bool>,
    pub allow_local_process_runtime: Option<bool>,
    pub approve_source_change: Option<bool>,
}

impl DeepView for InstallOptions {
    type V = InstallOptions;

    open spec fn deep_view(&self) -> InstallOptions {
        *self
    }
}

impl Record for InstallOptions {
    fn duplicate(&self) -> (r: Self) {
        *self
    }

    fn same(&self, other: &Self) -> (r: bool) {
        *self == *other
    }
}

impl InstallOptions {
    pub open spec fn none() -> InstallOptions {
        InstallOptions {
            approve_local_unsigned: None,
            allow_local_process_runtime: None,
            approve_source_change: None,
        }
    }

    /// The options in which just the given approvals are granted.
    pub open spec fn granting(unsigned: bool, process: bool, source_change: bool) -> InstallOptions {
        InstallOptions {
            approve_local_unsigned: if unsigned {
                Some(true)
            } else {
                None
            },
            allow_local_process_runtime: if process {
                Some(true)
            } else {
                None
            },
            approve_source_change: if source_change {
                Some(true)
            } else {
                None
            },
        }
    }

    pub fn approve_local_unsigned(self) -> (r: Self)
        ensures
            r == (InstallOptions { approve_local_unsigned: Some(true), ..self }),
    {
        InstallOptions { approve_local_unsigned: Some(true), ..self }
    }

    pub fn allow_local_process_runtime(self) -> (r: Self)
        ensures
            r == (InstallOptions { allow_local_process_runtime: Some(true), ..self }),
    {
        InstallOptions { allow_local_process_runtime: Some(true), ..self }
    }

    /// Allow an install or update to replace the package's recorded source authority.
    pub fn approve_source_change(self) -> (r: Self)
        ensures
            r == (InstallOptions { approve_source_change: Some(true), ..self }),
    {
        InstallOptions { approve_source_change: Some(true), ..self }
    }
}

impl Default for InstallOptions {
    fn default() -> (r: Self)
        ensures
            r == InstallOptions::none(),
    {
        InstallOptions {
            approve_local_unsigned: None,
            allow_local_process_runtime: None,
            approve_source_change: None,
        }
    }
}

#[derive(Debug, PartialEq, Eq)]
pub struct ServiceCallRequest {
    pub caller_extension_id: String,
    pub callee_extension_id: String,
    pub service: String,
    pub method: String,
    pub schema_version: String,
    pub required_permission: Option<String>,
}

/// What a [`ServiceCallRequest`] holds.
pub struct ServiceCallRequestModel {
    pub caller_extension_id: Seq<char>,
    pub callee_extension_id: Seq<char>,
    pub service: Seq<char>,
    pub method: Seq<char>,
    pub schema_version: Seq<char>,
    pub required_permission: Option<Seq<char>>,
}

impl DeepView for ServiceCallRequest {
    type V = ServiceCallRequestModel;

    open spec fn deep_view(&self) -> ServiceCallRequestModel {
        ServiceCallRequestModel {
            caller_extension_id: self.caller_extension_id.deep_view(),
            callee_extension_id: self.callee_extension_id.deep_view(),
            service: self.service.deep_view(),
            method: self.method.deep_view(),
            schema_version: self.schema_version.deep_view(),
            required_permission: self.required_permission.deep_view(),
        }
    }
}

impl View for ServiceCallRequest {
    type V = ServiceCallRequestModel;

    #[verifier::inline]
    open spec fn view(&self) -> ServiceCallRequestModel {
        self.deep_view()
    }
}

impl Record for ServiceCallRequest {
    fn duplicate(&self) -> (r: Self) {
        ServiceCallRequest {
            caller_extension_id: self.caller_extension_id.duplicate(),
            callee_extension_id: self.callee_extension_id.duplicate(),
            service: self.service.duplicate(),
            method: self.method.duplicate(),
            schema_version: self.schema_version.duplicate(),
            required_permission: self.required_permission.duplicate(),
        }
    }

    fn same(&self, other: &Self) -> (r: bool) {
        self.caller_extension_id.same(&other.caller_extension_id)
            && self.callee_extension_id.same(&other.callee_extension_id)
            && self.service.same(&other.service)
            && self.method.same(&other.method)
            && self.schema_version.same(&other.schema_version)
            && self.required_permission.same(&other.required_permission)
    }
}

impl Clone for ServiceCallRequest {
    fn clone(&self) -> (r: Self)
        ensures
            r.deep_view() == self.deep_view(),
    {
        self.duplicate()
    }
}

#[derive(Debug, PartialEq, Eq)]
pub struct ServiceCallGrant {
    pub caller_extension_id: String,
    pub caller_version: String,
    pub callee_extension_id: String,
    pub callee_version: String,
    pub service: String,
    pub method: String,
    pub schema_version: String,
    pub required_permission: String,
}

/// What a [`ServiceCallGrant`] holds.
pub struct ServiceCallGrantModel {
    pub caller_extension_id: Seq<char>,
    pub caller_version: Seq<char>,
    pub callee_extension_id: Seq<char>,
    pub callee_version: Seq<char>,
    pub service: Seq<char>,
    pub method: Seq<char>,
    pub schema_version: Seq<char>,
    pub required_permission: Seq<char>,
}

impl DeepView for ServiceCallGrant {
    type V = ServiceCallGrantModel;

    open spec fn deep_view(&self) -> ServiceCallGrantModel {
        ServiceCallGrantModel {
            caller_extension_id: self.caller_extension_id.deep_view(),
            caller_version: self.caller_version.deep_view(),
            callee_extension_id: self.callee_extension_id.deep_view(),
            callee_version: self.callee_version.deep_view(),
            service: self.service.deep_view(),
            method: self.method.deep_view(),
            schema_version: self.schema_version.deep_view(),
            required_permission: self.required_permission.deep_view(),
        }
    }
}

impl View for ServiceCallGrant {
    type V = ServiceCallGrantModel;

    #[verifier::inline]
    open spec fn view(&self) -> ServiceCallGrantModel {
        self.deep_view()
    }
}

impl Record for ServiceCallGrant {
    fn duplicate(&self) -> (r: Self) {
        ServiceCallGrant {
            caller_extension_id: self.caller_extension_id.duplicate(),
            caller_version: self.caller_version.duplicate(),
            callee_extension_id: self.callee_extension_id.duplicate(),
            callee_version: self.callee_version.duplicate(),
            service: self.service.duplicate(),
            method: self.method.duplicate(),
            schema_version: self.schema_version.duplicate(),
            required_permission: self.required_permission.duplicate(),
        }
    }

    fn same(&self, other: &Self) -> (r: bool) {
        self.caller_extension_id.same(&other.caller_extension_id)
            && self.caller_version.same(&other.caller_version)
            && self.callee_extension_id.same(&other.callee_extension_id)
            && self.callee_version.same(&other.callee_version)
            && self.service.same(&other.service)
            && self.method.same(&other.method)
            && self.schema_version.same(&other.schema_version)
            && self.required_permission.same(&other.required_permission)
    }
}

impl Clone for ServiceCallGrant {
    fn clone(&self) -> (r: Self)
        ensures
            r.deep_view() == self.deep_view(),
    {
        self.duplicate()
    }
}

#[derive(Debug, PartialEq, Eq)]
pub enum BlockKey {
    ExtensionId(String),
    Version { id: String, version: String },
    ArtifactDigest(String),
    Signer(String),
    Publisher(String),
    SourceRepository(String),
    PermissionPattern(String),
    VulnerabilityId(String),
}

/// What a [`BlockKey`] holds.
pub enum BlockKeyModel {
    ExtensionId(Seq<char>),
    Version { id: Seq<char>, version: Seq<char> },
    ArtifactDigest(Seq<char>),
    Signer(Seq<char>),
    Publisher(Seq<char>),
    SourceRepository(Seq<char>),
    PermissionPattern(Seq<char>),
    VulnerabilityId(Seq<char>),
}

impl DeepView for BlockKey {
    type V = BlockKeyModel;

    open spec fn deep_view(&self) -> BlockKeyModel {
        match self {
            BlockKey::ExtensionId(value) => BlockKeyModel::ExtensionId(value.deep_view()),
            BlockKey::Version { id, version } => BlockKeyModel::Version {
                id: id.deep_view(),
                version: version.deep_view(),
            },
            BlockKey::ArtifactDigest(value) => BlockKeyModel::ArtifactDigest(value.deep_view()),
            BlockKey::Signer(value) => BlockKeyModel::Signer(value.deep_view()),
            BlockKey::Publisher(value) => BlockKeyModel::Publisher(value.deep_view()),
            BlockKey::SourceRepository(value) => BlockKeyModel::SourceRepository(value.deep_view()),
            BlockKey::PermissionPattern(value) => {
                BlockKeyModel::PermissionPattern(value.deep_view())
            },
            BlockKey::VulnerabilityId(value) => BlockKeyModel::VulnerabilityId(value.deep_view()),
        }
    }
}

impl View for BlockKey {
    type V = BlockKeyModel;

    #[verifier::inline]
    open spec fn view(&self) -> BlockKeyModel {
        self.deep_view()
    }
}

impl Record for BlockKey {
    fn duplicate(&self) -> (r: Self) {
        match self {
            BlockKey::ExtensionId(value) => BlockKey::ExtensionId(value.duplicate()),
            BlockKey::Version { id, version } => BlockKey::Version {
                id: id.duplicate(),
                version: version.duplicate(),
            },
            BlockKey::ArtifactDigest(value) => BlockKey::ArtifactDigest(value.duplicate()),
            BlockKey::Signer(value) => BlockKey::Signer(value.duplicate()),
            BlockKey::Publisher(value) => BlockKey::Publisher(value.duplicate()),
            BlockKey::SourceRepository(value) => BlockKey::SourceRepository(value.duplicate()),
            BlockKey::PermissionPattern(value) => BlockKey::PermissionPattern(value.duplicate()),
            BlockKey::VulnerabilityId(value) => BlockKey::VulnerabilityId(value.duplicate()),
        }
    }

    fn same(&self, other: &Self) -> (r: bool) {
        match (self, other) {
            (BlockKey::ExtensionId(value_a), BlockKey::ExtensionId(value_b)) => {
                value_a.same(value_b)
            },
            (
                BlockKey::Version { id: id_a, version: version_a },
                BlockKey::Version { id: id_b, version: version_b },
            ) => id_a.same(id_b) && version_a.same(version_b),
            (BlockKey::ArtifactDigest(value_a), BlockKey::ArtifactDigest(value_b)) => {
                value_a.same(value_b)
            },
            (BlockKey::Signer(value_a), BlockKey::Signer(value_b)) => value_a.same(value_b),
            (BlockKey::Publisher(value_a), BlockKey::Publisher(value_b)) => value_a.same(value_b),
            (BlockKey::SourceRepository(value_a), BlockKey::SourceRepository(value_b)) => {
                value_a.same(value_b)
            },
            (BlockKey::PermissionPattern(value_a), BlockKey::PermissionPattern(value_b)) => {
                value_a.same(value_b)
            },
            (BlockKey::VulnerabilityId(value_a), BlockKey::VulnerabilityId(value_b)) => {
                value_a.same(value_b)
            },
            _ => false,
        }
    }
}

impl Clone for BlockKey {
    fn clone(&self) -> (r: Self)
        ensures
            r.deep_view() == self.deep_view(),
    {
        self.duplicate()
    }
}

#[derive(Debug, Clone, Copy, PartialEq, Eq, Structural)]
pub enum BlockReason {
    Malware,
    ManifestMismatch,
    OverPermissioned,
    VulnerableVersion,
    CompromisedSigner,
    PolicyViolation,
    UserBlocked,
    RegistryRemoved,
}

impl DeepView for BlockReason {
    type V = BlockReason;

    open spec fn deep_view(&self) -> BlockReason {
        *self
    }
}

impl Record for BlockReason {
    fn duplicate(&self) -> (r: Self) {
        *self
    }

    fn same(&self, other: &Self) -> (r: bool) {
        *self == *other
    }
}

#[derive(Debug, PartialEq, Eq)]
pub struct BlocklistEntry {
    pub key: BlockKey,
    pub reason: BlockReason,
    pub note: Option<String>,
}

/// What a [`BlocklistEntry`] holds.
pub struct BlocklistEntryModel {
    pub key: BlockKeyModel,
    pub reason: BlockReason,
    pub note: Option<Seq<char>>,
}

impl DeepView for BlocklistEntry {
    type V = BlocklistEntryModel;

    open spec fn deep_view(&self) -> BlocklistEntryModel {
        BlocklistEntryModel {
            key: self.key.deep_view(),
            reason: self.reason.deep_view(),
            note: self.note.deep_view(),
        }
    }
}

impl View for BlocklistEntry {
    type V = BlocklistEntryModel;

    #[verifier::inline]
    open spec fn view(&self) -> BlocklistEntryModel {
        self.deep_view()
    }
}

impl Record for BlocklistEntry {
    fn duplicate(&self) -> (r: Self) {
        BlocklistEntry {
            key: self.key.duplicate(),
            reason: self.reason.duplicate(),
            note: self.note.duplicate(),
        }
    }

    fn same(&self, other: &Self) -> (r: bool) {
        self.key.same(&other.key)
            && self.reason.same(&other.reason)
            && self.note.same(&other.note)
    }
}

impl Clone for BlocklistEntry {
    fn clone(&self) -> (r: Self)
        ensures
            r.deep_view() == self.deep_view(),
    {
        self.duplicate()
    }
}

#[derive(Debug, PartialEq, Eq)]
pub struct ExtensionBlocklistMatch {
    pub reason: BlockReason,
    pub key: BlockKey,
}

/// What a [`ExtensionBlocklistMatch`] holds.
pub struct ExtensionBlocklistMatchModel {
    pub reason: BlockReason,
    pub key: BlockKeyModel,
}

impl DeepView for ExtensionBlocklistMatch {
    type V = ExtensionBlocklistMatchModel;

    open spec fn deep_view(&self) -> ExtensionBlocklistMatchModel {
        ExtensionBlocklistMatchModel {
            reason: self.reason.deep_view(),
            key: self.key.deep_view(),
        }
    }
}

impl View for ExtensionBlocklistMatch {
    type V = ExtensionBlocklistMatchModel;

    #[verifier::inline]
    open spec fn view(&self) -> ExtensionBlocklistMatchModel {
        self.deep_view()
    }
}

impl Record for ExtensionBlocklistMatch {
    fn duplicate(&self) -> (r: Self) {
        ExtensionBlocklistMatch {
            reason: self.reason.duplicate(),
            key: self.key.duplicate(),
        }
    }

    fn same(&self, other: &Self) -> (r: bool) {
        self.reason.same(&other.reason)
            && self.key.same(&other.key)
    }
}

impl Clone for ExtensionBlocklistMatch {
    fn clone(&self) -> (r: Self)
        ensures
            r.deep_view() == self.deep_view(),
    {
        self.duplicate()
    }
}

#[derive(Debug, PartialEq, Eq)]
pub struct ExtensionStatusSnapshot {
    pub extension_id: String,
    pub record: ExtensionInstallRecord,
    pub block: Option<ExtensionBlocklistMatch>,
}

/// What a [`ExtensionStatusSnapshot`] holds.
pub struct ExtensionStatusSnapshotModel {
    pub extension_id: Seq<char>,
    pub record: ExtensionInstallRecordModel,
    pub block: Option<ExtensionBlocklistMatchModel>,
}

impl DeepView for ExtensionStatusSnapshot {
    type V = ExtensionStatusSnapshotModel;

    open spec fn deep_view(&self) -> ExtensionStatusSnapshotModel {
        ExtensionStatusSnapshotModel {
            extension_id: self.extension_id.deep_view(),
            record: self.record.deep_view(),
            block: self.block.deep_view(),
        }
    }
}

impl View for ExtensionStatusSnapshot {
    type V = ExtensionStatusSnapshotModel;

    #[verifier::inline]
    open spec fn view(&self) -> ExtensionStatusSnapshotModel {
        self.deep_view()
    }
}

impl Record for ExtensionStatusSnapshot {
    fn duplicate(&self) -> (r: Self) {
        ExtensionStatusSnapshot {
            extension_id: self.extension_id.duplicate(),
            record: self.record.duplicate(),
            block: self.block.duplicate(),
        }
    }

    fn same(&self, other: &Self) -> (r: bool) {
        self.extension_id.same(&other.extension_id)
            && self.record.same(&other.record)
            && self.block.same(&other.block)
    }
}

impl Clone for ExtensionStatusSnapshot {
    fn clone(&self) -> (r: Self)
        ensures
            r.deep_view() == self.deep_view(),
    {
        self.duplicate()
    }
}

/// Registry response returned after manifest validation succeeds.
#[derive(Debug, PartialEq, Eq)]
pub struct ValidateExtensionManifestResponse {
    /// Manifest after schema validation and normalization.
    pub manifest: ExtensionManifest,
    /// Computed execution boundary for the validated manifest.
    pub boundary: ExtensionBoundary,
}

/// What a [`ValidateExtensionManifestResponse`] holds.
pub struct ValidateExtensionManifestResponseModel {
    pub manifest: ExtensionManifestModel,
    pub boundary: ExtensionBoundary,
}

impl DeepView for ValidateExtensionManifestResponse {
    type V = ValidateExtensionManifestResponseModel;

    open spec fn deep_view(&self) -> ValidateExtensionManifestResponseModel {
        ValidateExtensionManifestResponseModel {
            manifest: self.manifest.deep_view(),
            boundary: self.boundary.deep_view(),
        }
    }
}

impl View for ValidateExtensionManifestResponse {
    type V = ValidateExtensionManifestResponseModel;

    #[verifier::inline]
    open spec fn view(&self) -> ValidateExtensionManifestResponseModel {
        self.deep_view()
    }
}

impl Record for ValidateExtensionManifestResponse {
    fn duplicate(&self) -> (r: Self) {
        ValidateExtensionManifestResponse {
            manifest: self.manifest.duplicate(),
            boundary: self.boundary.duplicate(),
        }
    }

    fn same(&self, other: &Self) -> (r: bool) {
        self.manifest.same(&other.manifest)
            && self.boundary.same(&other.boundary)
    }
}

impl Clone for ValidateExtensionManifestResponse {
    fn clone(&self) -> (r: Self)
        ensures
            r.deep_view() == self.deep_view(),
    {
        self.duplicate()
    }
}

/// A pattern that ends in `*` matches every permission that starts with the rest of it;
/// any other pattern matches itself alone.
pub open spec fn pattern_covers(pattern: Seq<char>, permission: Seq<char>) -> bool {
    if pattern.len() > 0 && pattern.last() == '*' {
        crate::text::has_prefix(permission, pattern.drop_last())
    } else {
        pattern == permission
    }
}

fn permission_matches(pattern: &str, permission: &str) -> (r: bool)
    ensures
        r == pattern_covers(pattern@, permission@),
{
    let n: usize = pattern.unicode_len();
    if n > 0 && pattern.get_char(n - 1) == '*' {
        assert(pattern@.subrange(0, n - 1) =~= pattern@.drop_last());
        starts_with(permission, pattern.substring_char(0, n - 1))
    } else {
        same_text(pattern, permission)
    }
}

fn any_permission_matches(pattern: &str, manifest: &ExtensionManifest) -> (r: bool)
    ensures
        r == exists|i: int|
            0 <= i < manifest@.permissions.len() && pattern_covers(
                pattern@,
                (#[trigger] manifest@.permissions[i]).0,
            ),
{
    let ghost entries = manifest@.permissions;
    let n: usize = manifest.permissions.len();
    let mut i: usize = 0;
    while i < n
        invariant
            i <= n == entries.len(),
            entries == manifest.permissions@,
            forall|j: int| 0 <= j < i ==> !pattern_covers(pattern@, (#[trigger] entries[j]).0),
        decreases n - i,
    {
        if permission_matches(pattern, manifest.permissions.key_at(i)) {
            assert(pattern_covers(pattern@, manifest@.permissions[i as int].0));
            return true;
        }
        i += 1;
    }
    false
}

/// `value` is there and says `text`, white space around either apart.
pub open spec fn is_said(value: Option<Seq<char>>, text: Seq<char>) -> bool {
    value is Some && crate::text::trimmed(value->0) == crate::text::trimmed(text)
}

fn says(value: &Option<String>, text: &str) -> (r: bool)
    ensures
        r == is_said(value.deep_view(), text@),
{
    match value {
        Some(found) => same_text(trim(found.as_str()), trim(text)),
        None => false,
    }
}

impl BlockKeyModel {
    /// The key blocks the manifest.
    pub open spec fn covers(self, m: ExtensionManifestModel) -> bool {
        match self {
            BlockKeyModel::ExtensionId(id) => m.id == id,
            BlockKeyModel::Version { id, version } => m.id == id && m.version == version,
            BlockKeyModel::ArtifactDigest(digest) => m.provenance.artifact_digest == digest,
            BlockKeyModel::Signer(signer) => is_said(m.provenance.signer, signer),
            BlockKeyModel::Publisher(publisher) => crate::text::trimmed(m.publisher.name)
                == crate::text::trimmed(publisher),
            BlockKeyModel::SourceRepository(repository) => is_said(
                m.provenance.repository,
                repository,
            ),
            BlockKeyModel::PermissionPattern(pattern) => exists|i: int|
                0 <= i < m.permissions.len() && pattern_covers(
                    pattern,
                    (#[trigger] m.permissions[i]).0,
                ),
            BlockKeyModel::VulnerabilityId(_) => false,
        }
    }

    /// The key as messages show it.
    pub open spec fn shown(self) -> Seq<char> {
        match self {
            BlockKeyModel::ExtensionId(id) => "ExtensionId("@ + crate::text::quoted_form(id)
                + ")"@,
            BlockKeyModel::Version { id, version } => "Version { id: "@
                + crate::text::quoted_form(id) + ", version: "@ + crate::text::quoted_form(version)
                + " }"@,
            BlockKeyModel::ArtifactDigest(digest) => "ArtifactDigest("@
                + crate::text::quoted_form(digest) + ")"@,
            BlockKeyModel::Signer(signer) => "Signer("@ + crate::text::quoted_form(signer) + ")"@,
            BlockKeyModel::Publisher(publisher) => "Publisher("@ + crate::text::quoted_form(
                publisher,
            ) + ")"@,
            BlockKeyModel::SourceRepository(repository) => "SourceRepository("@
                + crate::text::quoted_form(repository) + ")"@,
            BlockKeyModel::PermissionPattern(pattern) => "PermissionPattern("@
                + crate::text::quoted_form(pattern) + ")"@,
            BlockKeyModel::VulnerabilityId(id) => "VulnerabilityId("@
                + crate::text::quoted_form(id) + ")"@,
        }
    }
}

impl BlockKey {
    /// The key as messages show it.
    pub fn to_text(&self) -> (r: String)
        ensures
            r@ == self@.shown(),
    {
        match self {
            BlockKey::ExtensionId(id) => "ExtensionId(".to_owned().concat(
                quoted(id.as_str()).as_str(),
            ).concat(")"),
            BlockKey::Version { id, version } => "Version { id: ".to_owned().concat(
                quoted(id.as_str()).as_str(),
            ).concat(", version: ").concat(quoted(version.as_str()).as_str()).concat(" }"),
            BlockKey::ArtifactDigest(digest) => "ArtifactDigest(".to_owned().concat(
                quoted(digest.as_str()).as_str(),
            ).concat(")"),
            BlockKey::Signer(signer) => "Signer(".to_owned().concat(
                quoted(signer.as_str()).as_str(),
            ).concat(")"),
            BlockKey::Publisher(publisher) => "Publisher(".to_owned().concat(
                quoted(publisher.as_str()).as_str(),
            ).concat(")"),
            BlockKey::SourceRepository(repository) => "SourceRepository(".to_owned().concat(
                quoted(repository.as_str()).as_str(),
            ).concat(")"),
            BlockKey::PermissionPattern(pattern) => "PermissionPattern(".to_owned().concat(
                quoted(pattern.as_str()).as_str(),
            ).concat(")"),
            BlockKey::VulnerabilityId(id) => "VulnerabilityId(".to_owned().concat(
                quoted(id.as_str()).as_str(),
            ).concat(")"),
        }
    }
}

impl BlockReason {
    /// The reason as messages name it.
    pub open spec fn shown(self) -> Seq<char> {
        match self {
            BlockReason::Malware => "Malware"@,
            BlockReason::ManifestMismatch => "ManifestMismatch"@,
            BlockReason::OverPermissioned => "OverPermissioned"@,
            BlockReason::VulnerableVersion => "VulnerableVersion"@,
            BlockReason::CompromisedSigner => "CompromisedSigner"@,
            BlockReason::PolicyViolation => "PolicyViolation"@,
            BlockReason::UserBlocked => "UserBlocked"@,
            BlockReason::RegistryRemoved => "RegistryRemoved"@,
        }
    }

    pub fn name(self) -> (r: &'static str)
        ensures
            r@ == self.shown(),
    {
        match self {
            BlockReason::Malware => "Malware",
            BlockReason::ManifestMismatch => "ManifestMismatch",
            BlockReason::OverPermissioned => "OverPermissioned",
            BlockReason::VulnerableVersion => "VulnerableVersion",
            BlockReason::CompromisedSigner => "CompromisedSigner",
            BlockReason::PolicyViolation => "PolicyViolation",
            BlockReason::UserBlocked => "UserBlocked",
            BlockReason::RegistryRemoved => "RegistryRemoved",
        }
    }
}

impl BlocklistEntry {
    pub fn matches_manifest(&self, manifest: &ExtensionManifest) -> (r: bool)
        ensures
            r == self@.key.covers(manifest@),
    {
        match &self.key {
            BlockKey::ExtensionId(id) => same_text(manifest.id.as_str(), id.as_str()),
            BlockKey::Version { id, version } => same_text(manifest.id.as_str(), id.as_str())
                && same_text(manifest.version.as_str(), version.as_str()),
            BlockKey::ArtifactDigest(digest) => same_text(
                manifest.provenance.artifact_digest.as_str(),
                digest.as_str(),
            ),
            BlockKey::Signer(signer) => says(&manifest.provenance.signer, signer.as_str()),
            BlockKey::Publisher(publisher) => same_text(
                trim(manifest.publisher.name.as_str()),
                trim(publisher.as_str()),
            ),
            BlockKey::SourceRepository(repository) => says(
                &manifest.provenance.repository,
                repository.as_str(),
            ),
            BlockKey::PermissionPattern(pattern) => any_permission_matches(
                pattern.as_str(),
                manifest,
            ),
            BlockKey::VulnerabilityId(_) => false,
        }
    }
}

#[derive(Debug, PartialEq, Eq)]
pub enum RegistryError {
    Validation(ExtensionValidationError),
    UnsupportedBlocklistKey { key: BlockKey },
    Blocked { extension_id: String, reason: BlockReason, key: BlockKey },
    DigestConflict { extension_id: String, version: String },
    SourceChangeRequiresApproval { extension_id: String },
    NotInstalled { extension_id: String },
    RollbackUnavailable { extension_id: String },
    ServiceDenied { reason: String },
    ServiceUnavailable { reason: String },
}

/// What a [`RegistryError`] holds.
pub enum RegistryErrorModel {
    Validation(ExtensionValidationErrorModel),
    UnsupportedBlocklistKey { key: BlockKeyModel },
    Blocked { extension_id: Seq<char>, reason: BlockReason, key: BlockKeyModel },
    DigestConflict { extension_id: Seq<char>, version: Seq<char> },
    SourceChangeRequiresApproval { extension_id: Seq<char> },
    NotInstalled { extension_id: Seq<char> },
    RollbackUnavailable { extension_id: Seq<char> },
    ServiceDenied { reason: Seq<char> },
    ServiceUnavailable { reason: Seq<char> },
}

impl DeepView for RegistryError {
    type V = RegistryErrorModel;

    open spec fn deep_view(&self) -> RegistryErrorModel {
        match self {
            RegistryError::Validation(value) => RegistryErrorModel::Validation(value.deep_view()),
            RegistryError::UnsupportedBlocklistKey { key } => {
                RegistryErrorModel::UnsupportedBlocklistKey { key: key.deep_view() }
            },
            RegistryError::Blocked { extension_id, reason, key } => RegistryErrorModel::Blocked {
                extension_id: extension_id.deep_view(),
                reason: reason.deep_view(),
                key: key.deep_view(),
            },
            RegistryError::DigestConflict { extension_id, version } => {
                RegistryErrorModel::DigestConflict {
                    extension_id: extension_id.deep_view(),
                    version: version.deep_view(),
                }
            },
            RegistryError::SourceChangeRequiresApproval { extension_id } => {
                RegistryErrorModel::SourceChangeRequiresApproval {
                    extension_id: extension_id.deep_view(),
                }
            },
            RegistryError::NotInstalled { extension_id } => RegistryErrorModel::NotInstalled {
                extension_id: extension_id.deep_view(),
            },
            RegistryError::RollbackUnavailable { extension_id } => {
                RegistryErrorModel::RollbackUnavailable { extension_id: extension_id.deep_view() }
            },
            RegistryError::ServiceDenied { reason } => RegistryErrorModel::ServiceDenied {
                reason: reason.deep_view(),
            },
            RegistryError::ServiceUnavailable { reason } => RegistryErrorModel::ServiceUnavailable {
                reason: reason.deep_view(),
            },
        }
    }
}

impl View for RegistryError {
    type V = RegistryErrorModel;

    #[verifier::inline]
    open spec fn view(&self) -> RegistryErrorModel {
        self.deep_view()
    }
}

impl Record for RegistryError {
    fn duplicate(&self) -> (r: Self) {
        match self {
            RegistryError::Validation(value) => RegistryError::Validation(value.duplicate()),
            RegistryError::UnsupportedBlocklistKey { key } => {
                RegistryError::UnsupportedBlocklistKey { key: key.duplicate() }
            },
            RegistryError::Blocked { extension_id, reason, key } => RegistryError::Blocked {
                extension_id: extension_id.duplicate(),
                reason: reason.duplicate(),
                key: key.duplicate(),
            },
            RegistryError::DigestConflict { extension_id, version } => {
                RegistryError::DigestConflict {
                    extension_id: extension_id.duplicate(),
                    version: version.duplicate(),
                }
            },
            RegistryError::SourceChangeRequiresApproval { extension_id } => {
                RegistryError::SourceChangeRequiresApproval {
                    extension_id: extension_id.duplicate(),
                }
            },
            RegistryError::NotInstalled { extension_id } => RegistryError::NotInstalled {
                extension_id: extension_id.duplicate(),
            },
            RegistryError::RollbackUnavailable { extension_id } => {
                RegistryError::RollbackUnavailable { extension_id: extension_id.duplicate() }
            },
            RegistryError::ServiceDenied { reason } => RegistryError::ServiceDenied {
                reason: reason.duplicate(),
            },
            RegistryError::ServiceUnavailable { reason } => RegistryError::ServiceUnavailable {
                reason: reason.duplicate(),
            },
        }
    }

    fn same(&self, other: &Self) -> (r: bool) {
        match (self, other) {
            (RegistryError::Validation(value_a), RegistryError::Validation(value_b)) => {
                value_a.same(value_b)
            },
            (
                RegistryError::UnsupportedBlocklistKey { key: key_a },
                RegistryError::UnsupportedBlocklistKey { key: key_b },
            ) => key_a.same(key_b),
            (
                RegistryError::Blocked {
                    extension_id: extension_id_a,
                    reason: reason_a,
                    key: key_a,
                },
                RegistryError::Blocked {
                    extension_id: extension_id_b,
                    reason: reason_b,
                    key: key_b,
                },
            ) => {
                extension_id_a.same(extension_id_b) && reason_a.same(reason_b) && key_a.same(key_b)
            },
            (
                RegistryError::DigestConflict { extension_id: extension_id_a, version: version_a },
                RegistryError::DigestConflict { extension_id: extension_id_b, version: version_b },
            ) => extension_id_a.same(extension_id_b) && version_a.same(version_b),
            (
                RegistryError::SourceChangeRequiresApproval { extension_id: extension_id_a },
                RegistryError::SourceChangeRequiresApproval { extension_id: extension_id_b },
            ) => extension_id_a.same(extension_id_b),
            (
                RegistryError::NotInstalled { extension_id: extension_id_a },
                RegistryError::NotInstalled { extension_id: extension_id_b },
            ) => extension_id_a.same(extension_id_b),
            (
                RegistryError::RollbackUnavailable { extension_id: extension_id_a },
                RegistryError::RollbackUnavailable { extension_id: extension_id_b },
            ) => extension_id_a.same(extension_id_b),
            (
                RegistryError::ServiceDenied { reason: reason_a },
                RegistryError::ServiceDenied { reason: reason_b },
            ) => reason_a.same(reason_b),
            (
                RegistryError::ServiceUnavailable { reason: reason_a },
                RegistryError::ServiceUnavailable { reason: reason_b },
            ) => reason_a.same(reason_b),
            _ => false,
        }
    }
}

impl Clone for RegistryError {
    fn clone(&self) -> (r: Self)
        ensures
            r.deep_view() == self.deep_view(),
    {
        self.duplicate()
    }
}

pub type RegistryResult<T> = Result<T, RegistryError>;

impl From<ExtensionValidationError> for RegistryError {
    fn from(error: ExtensionValidationError) -> (r: Self) {
        RegistryError::Validation(error)
    }
}

impl vstd::std_specs::convert::FromSpecImpl<ExtensionValidationError> for RegistryError {
    open spec fn obeys_from_spec() -> bool {
        true
    }

    open spec fn from_spec(error: ExtensionValidationError) -> Self {
        RegistryError::Validation(error)
    }
}

impl RegistryErrorModel {
    /// The error as a sentence.
    pub open spec fn message(self) -> Seq<char> {
        match self {
            RegistryErrorModel::Validation(error) => error.message(),
            RegistryErrorModel::UnsupportedBlocklistKey { key } => "unsupported blocklist key: "@
                + key.shown(),
            RegistryErrorModel::Blocked { extension_id, reason, key } => "extension "@
                + extension_id + " is blocklisted by "@ + reason.shown() + ": "@ + key.shown(),
            RegistryErrorModel::DigestConflict { extension_id, version } => "extension "@
                + extension_id + " version "@ + version + " changed digest"@,
            RegistryErrorModel::SourceChangeRequiresApproval { extension_id } => "extension "@
                + extension_id
                + " changed source provenance and requires explicit approval"@,
            RegistryErrorModel::NotInstalled { extension_id } => "extension "@ + extension_id
                + " is not installed"@,
            RegistryErrorModel::RollbackUnavailable { extension_id } => "extension "@
                + extension_id + " has no rollback target"@,
            RegistryErrorModel::ServiceDenied { reason } => "service call denied: "@ + reason,
            RegistryErrorModel::ServiceUnavailable { reason } => "service unavailable: "@
                + reason,
        }
    }
}

impl RegistryError {
    /// The error as a sentence.
    pub fn to_text(&self) -> (r: String)
        ensures
            r@ == self@.message(),
    {
        match self {
            RegistryError::Validation(error) => error.to_text(),
            RegistryError::UnsupportedBlocklistKey { key } =>
                "unsupported blocklist key: ".to_owned().concat(key.to_text().as_str()),
            RegistryError::Blocked { extension_id, reason, key } => "extension ".to_owned().concat(
                extension_id.as_str(),
            ).concat(" is blocklisted by ").concat((*reason).name()).concat(": ").concat(
                key.to_text().as_str(),
            ),
            RegistryError::DigestConflict { extension_id, version } =>
                "extension ".to_owned().concat(extension_id.as_str()).concat(" version ").concat(
                version.as_str(),
            ).concat(" changed digest"),
            RegistryError::SourceChangeRequiresApproval { extension_id } =>
                "extension ".to_owned().concat(extension_id.as_str()).concat(
                " changed source provenance and requires explicit approval",
            ),
            RegistryError::NotInstalled { extension_id } => "extension ".to_owned().concat(
                extension_id.as_str(),
            ).concat(" is not installed"),
            RegistryError::RollbackUnavailable { extension_id } => "extension ".to_owned().concat(
                extension_id.as_str(),
            ).concat(" has no rollback target"),
            RegistryError::ServiceDenied { reason } => "service call denied: ".to_owned().concat(
                reason.as_str(),
            ),
            RegistryError::ServiceUnavailable { reason } => "service unavailable: ".to_owned().concat(
                reason.as_str(),
            ),
        }
    }
}

} // verus!

//! Requests to a registry and its responses.
use vstd::prelude::*;

use crate::extensions::manifest::{
    ExtensionManifest, ExtensionManifestModel, ManifestValidationPolicy,
    ManifestValidationPolicyModel,
};
use crate::extensions::records::{
    BlocklistEntry, BlocklistEntryModel, ExtensionBlocklistMatch, ExtensionBlocklistMatchModel,
    ExtensionInstallRecord, ExtensionInstallRecordModel, ExtensionStatusSnapshot,
    ExtensionStatusSnapshotModel, InstallOptions, RegistryErrorModel, RegistryResult,
    ValidateExtensionManifestResponse,
};
use crate::extensions::registry::{ExtensionRegistry, ExtensionRegistryModel};
use crate::extensions::registry_model;
use crate::extensions::snapshot::ExtensionRegistrySnapshot;
use crate::record::Record;

verus! {

fn options_of(unsigned: bool, process: bool, source_change: bool) -> (r: InstallOptions)
    ensures
        r == InstallOptions::granting(unsigned, process, source_change),
{
    let mut options = InstallOptions::default();
    if unsigned {
        options = options.approve_local_unsigned();
    }
    if process {
        options = options.allow_local_process_runtime();
    }
    if source_change {
        options = options.approve_source_change();
    }
    options
}

#[derive(Debug, PartialEq, Eq)]
pub struct InstallExtensionRequest {
    pub manifest: ExtensionManifest,
    pub approve_local_unsigned: bool,
    pub allow_local_process_runtime: bool,
    /// Explicitly approve a source authority change for an install or update.
    pub approve_source_change: bool,
}

/// What a [`InstallExtensionRequest`] holds.
pub struct InstallExtensionRequestModel {
    pub manifest: ExtensionManifestModel,
    pub approve_local_unsigned: bool,
    pub allow_local_process_runtime: bool,
    pub approve_source_change: bool,
}

impl DeepView for InstallExtensionRequest {
    type V = InstallExtensionRequestModel;

    open spec fn deep_view(&self) -> InstallExtensionRequestModel {
        InstallExtensionRequestModel {
            manifest: self.manifest.deep_view(),
            approve_local_unsigned: self.approve_local_unsigned.deep_view(),
            allow_local_process_runtime: self.allow_local_process_runtime.deep_view(),
            approve_source_change: self.approve_source_change.deep_view(),
        }
    }
}

impl View for InstallExtensionRequest {
    type V = InstallExtensionRequestModel;

    #[verifier::inline]
    open spec fn view(&self) -> InstallExtensionRequestModel {
        self.deep_view()
    }
}

impl Record for InstallExtensionRequest {
    fn duplicate(&self) -> (r: Self) {
        InstallExtensionRequest {
            manifest: self.manifest.duplicate(),
            approve_local_unsigned: self.approve_local_unsigned.duplicate(),
            allow_local_process_runtime: self.allow_local_process_runtime.duplicate(),
            approve_source_change: self.approve_source_change.duplicate(),
        }
    }

    fn same(&self, other: &Self) -> (r: bool) {
        self.manifest.same(&other.manifest)
            && self.approve_local_unsigned.same(&other.approve_local_unsigned)
            && self.allow_local_process_runtime.same(&other.allow_local_process_runtime)
            && self.approve_source_change.same(&other.approve_source_change)
    }
}

impl Clone for InstallExtensionRequest {
    fn clone(&self) -> (r: Self)
        ensures
            r.deep_view() == self.deep_view(),
    {
        self.duplicate()
    }
}

impl InstallExtensionRequest {
    /// A request that approves nothing beyond the host's policy.
    pub fn with_defaults(manifest: ExtensionManifest) -> (r: Self)
        ensures
            r@ == (InstallExtensionRequestModel {
                manifest: manifest@,
                approve_local_unsigned: false,
                allow_local_process_runtime: false,
                approve_source_change: false,
            }),
    {
        InstallExtensionRequest {
            manifest,
            approve_local_unsigned: false,
            allow_local_process_runtime: false,
            approve_source_change: false,
        }
    }
}

impl From<&InstallExtensionRequest> for InstallOptions {
    fn from(request: &InstallExtensionRequest) -> (r: Self) {
        options_of(
            request.approve_local_unsigned,
            request.allow_local_process_runtime,
            request.approve_source_change,
        )
    }
}

impl vstd::std_specs::convert::FromSpecImpl<&InstallExtensionRequest> for InstallOptions {
    open spec fn obeys_from_spec() -> bool {
        true
    }

    open spec fn from_spec(request: &InstallExtensionRequest) -> Self {
        InstallOptions::granting(
            request.approve_local_unsigned,
            request.allow_local_process_runtime,
            request.approve_source_change,
        )
    }
}

impl From<InstallExtensionRequest> for InstallOptions {
    fn from(request: InstallExtensionRequest) -> (r: Self) {
        options_of(
            request.approve_local_unsigned,
            request.allow_local_process_runtime,
            request.approve_source_change,
        )
    }
}

impl vstd::std_specs::convert::FromSpecImpl<InstallExtensionRequest> for InstallOptions {
    open spec fn obeys_from_spec() -> bool {
        true
    }

    open spec fn from_spec(request: InstallExtensionRequest) -> Self {
        InstallOptions::granting(
            request.approve_local_unsigned,
            request.allow_local_process_runtime,
            request.approve_source_change,
        )
    }
}

#[derive(Debug, PartialEq, Eq)]
pub struct InstallExtensionResponse {
    pub record: ExtensionInstallRecord,
}

/// What a [`InstallExtensionResponse`] holds.
pub struct InstallExtensionResponseModel {
    pub record: ExtensionInstallRecordModel,
}

impl DeepView for InstallExtensionResponse {
    type V = InstallExtensionResponseModel;

    open spec fn deep_view(&self) -> InstallExtensionResponseModel {
        InstallExtensionResponseModel {
            record: self.record.deep_view(),
        }
    }
}

impl View for InstallExtensionResponse {
    type V = InstallExtensionResponseModel;

    #[verifier::inline]
    open spec fn view(&self) -> InstallExtensionResponseModel {
        self.deep_view()
    }
}

impl Record for InstallExtensionResponse {
    fn duplicate(&self) -> (r: Self) {
        InstallExtensionResponse {
            record: self.record.duplicate(),
        }
    }

    fn same(&self, other: &Self) -> (r: bool) {
        self.record.same(&other.record)
    }
}

impl Clone for InstallExtensionResponse {
    fn clone(&self) -> (r: Self)
        ensures
            r.deep_view() == self.deep_view(),
    {
        self.duplicate()
    }
}

/// Request body for side-effect-free manifest validation.
#[derive(Debug, PartialEq, Eq)]
pub struct ValidateExtensionManifestRequest {
    /// Manifest to validate.
    pub manifest: ExtensionManifest,
    /// Allow unsigned local-development manifests for this validation.
    pub approve_local_unsigned: bool,
    /// Allow local process runtimes for this validation.
    pub allow_local_process_runtime: bool,
    /// Explicitly approve a source authority change for this validation.
    pub approve_source_change: bool,
}

/// What a [`ValidateExtensionManifestRequest`] holds.
pub struct ValidateExtensionManifestRequestModel {
    pub manifest: ExtensionManifestModel,
    pub approve_local_unsigned: bool,
    pub allow_local_process_runtime: bool,
    pub approve_source_change: bool,
}

impl DeepView for ValidateExtensionManifestRequest {
    type V = ValidateExtensionManifestRequestModel;

    open spec fn deep_view(&self) -> ValidateExtensionManifestRequestModel {
        ValidateExtensionManifestRequestModel {
            manifest: self.manifest.deep_view(),
            approve_local_unsigned: self.approve_local_unsigned.deep_view(),
            allow_local_process_runtime: self.allow_local_process_runtime.deep_view(),
            approve_source_change: self.approve_source_change.deep_view(),
        }
    }
}

impl View for ValidateExtensionManifestRequest {
    type V = ValidateExtensionManifestRequestModel;

    #[verifier::inline]
    open spec fn view(&self) -> ValidateExtensionManifestRequestModel {
        self.deep_view()
    }
}

impl Record for ValidateExtensionManifestRequest {
    fn duplicate(&self) -> (r: Self) {
        ValidateExtensionManifestRequest {
            manifest: self.manifest.duplicate(),
            approve_local_unsigned: self.approve_local_unsigned.duplicate(),
            allow_local_process_runtime: self.allow_local_process_runtime.duplicate(),
            approve_source_change: self.approve_source_change.duplicate(),
        }
    }

    fn same(&self, other: &Self) -> (r: bool) {
        self.manifest.same(&other.manifest)
            && self.approve_local_unsigned.same(&other.approve_local_unsigned)
            && self.allow_local_process_runtime.same(&other.allow_local_process_runtime)
            && self.approve_source_change.same(&other.approve_source_change)
    }
}

impl Clone for ValidateExtensionManifestRequest {
    fn clone(&self) -> (r: Self)
        ensures
            r.deep_view() == self.deep_view(),
    {
        self.duplicate()
    }
}

impl ValidateExtensionManifestRequest {
    /// Build a validation request using the same defaults as install requests.
    pub fn with_defaults(manifest: ExtensionManifest) -> (r: Self)
        ensures
            r@ == (ValidateExtensionManifestRequestModel {
                manifest: manifest@,
                approve_local_unsigned: false,
                allow_local_process_runtime: false,
                approve_source_change: false,
            }),
    {
        ValidateExtensionManifestRequest {
            manifest,
            approve_local_unsigned: false,
            allow_local_process_runtime: false,
            approve_source_change: false,
        }
    }
}

impl From<&ValidateExtensionManifestRequest> for InstallOptions {
    fn from(request: &ValidateExtensionManifestRequest) -> (r: Self) {
        options_of(
            request.approve_local_unsigned,
            request.allow_local_process_runtime,
            request.approve_source_change,
        )
    }
}

impl vstd::std_specs::convert::FromSpecImpl<&ValidateExtensionManifestRequest> for InstallOptions {
    open spec fn obeys_from_spec() -> bool {
        true
    }

    open spec fn from_spec(request: &ValidateExtensionManifestRequest) -> Self {
        InstallOptions::granting(
            request.approve_local_unsigned,
            request.allow_local_process_runtime,
            request.approve_source_change,
        )
    }
}

impl From<ValidateExtensionManifestRequest> for InstallOptions {
    fn from(request: ValidateExtensionManifestRequest) -> (r: Self) {
        options_of(
            request.approve_local_unsigned,
            request.allow_local_process_runtime,
            request.approve_source_change,
        )
    }
}

impl vstd::std_specs::convert::FromSpecImpl<ValidateExtensionManifestRequest> for InstallOptions {
    open spec fn obeys_from_spec() -> bool {
        true
    }

    open spec fn from_spec(request: ValidateExtensionManifestRequest) -> Self {
        InstallOptions::granting(
            request.approve_local_unsigned,
            request.allow_local_process_runtime,
            request.approve_source_change,
        )
    }
}

#[derive(Debug, PartialEq, Eq)]
pub struct UpdateExtensionRequest {
    pub manifest: ExtensionManifest,
    pub approve_local_unsigned: bool,
    pub allow_local_process_runtime: bool,
    /// Explicitly approve a source authority change for this update.
    pub approve_source_change: bool,
}

/// What a [`UpdateExtensionRequest`] holds.
pub struct UpdateExtensionRequestModel {
    pub manifest: ExtensionManifestModel,
    pub approve_local_unsigned: bool,
    pub allow_local_process_runtime: bool,
    pub approve_source_change: bool,
}

impl DeepView for UpdateExtensionRequest {
    type V = UpdateExtensionRequestModel;

    open spec fn deep_view(&self) -> UpdateExtensionRequestModel {
        UpdateExtensionRequestModel {
            manifest: self.manifest.deep_view(),
            approve_local_unsigned: self.approve_local_unsigned.deep_view(),
            allow_local_process_runtime: self.allow_local_process_runtime.deep_view(),
            approve_source_change: self.approve_source_change.deep_view(),
        }
    }
}

impl View for UpdateExtensionRequest {
    type V = UpdateExtensionRequestModel;

    #[verifier::inline]
    open spec fn view(&self) -> UpdateExtensionRequestModel {
        self.deep_view()
    }
}

impl Record for UpdateExtensionRequest {
    fn duplicate(&self) -> (r: Self) {
        UpdateExtensionRequest {
            manifest: self.manifest.duplicate(),
            approve_local_unsigned: self.approve_local_unsigned.duplicate(),
            allow_local_process_runtime: self.allow_local_process_runtime.duplicate(),
            approve_source_change: self.approve_source_change.duplicate(),
        }
    }

    fn same(&self, other: &Self) -> (r: bool) {
        self.manifest.same(&other.manifest)
            && self.approve_local_unsigned.same(&other.approve_local_unsigned)
            && self.allow_local_process_runtime.same(&other.allow_local_process_runtime)
            && self.approve_source_change.same(&other.approve_source_change)
    }
}

impl Clone for UpdateExtensionRequest {
    fn clone(&self) -> (r: Self)
        ensures
            r.deep_view() == self.deep_view(),
    {
        self.duplicate()
    }
}

impl From<&UpdateExtensionRequest> for InstallOptions {
    fn from(request: &UpdateExtensionRequest) -> (r: Self) {
        options_of(
            request.approve_local_unsigned,
            request.allow_local_process_runtime,
            request.approve_source_change,
        )
    }
}

impl vstd::std_specs::convert::FromSpecImpl<&UpdateExtensionRequest> for InstallOptions {
    open spec fn obeys_from_spec() -> bool {
        true
    }

    open spec fn from_spec(request: &UpdateExtensionRequest) -> Self {
        InstallOptions::granting(
            request.approve_local_unsigned,
            request.allow_local_process_runtime,
            request.approve_source_change,
        )
    }
}

impl From<UpdateExtensionRequest> for InstallOptions {
    fn from(request: UpdateExtensionRequest) -> (r: Self) {
        options_of(
            request.approve_local_unsigned,
            request.allow_local_process_runtime,
            request.approve_source_change,
        )
    }
}

impl vstd::std_specs::convert::FromSpecImpl<UpdateExtensionRequest> for InstallOptions {
    open spec fn obeys_from_spec() -> bool {
        true
    }

    open spec fn from_spec(request: UpdateExtensionRequest) -> Self {
        InstallOptions::granting(
            request.approve_local_unsigned,
            request.allow_local_process_runtime,
            request.approve_source_change,
        )
    }
}

#[derive(Debug, PartialEq, Eq)]
pub struct UpdateExtensionResponse {
    pub record: ExtensionInstallRecord,
}

/// What a [`UpdateExtensionResponse`] holds.
pub struct UpdateExtensionResponseModel {
    pub record: ExtensionInstallRecordModel,
}

impl DeepView for UpdateExtensionResponse {
    type V = UpdateExtensionResponseModel;

    open spec fn deep_view(&self) -> UpdateExtensionResponseModel {
        UpdateExtensionResponseModel {
            record: self.record.deep_view(),
        }
    }
}

impl View for UpdateExtensionResponse {
    type V = UpdateExtensionResponseModel;

    #[verifier::inline]
    open spec fn view(&self) -> UpdateExtensionResponseModel {
        self.deep_view()
    }
}

impl Record for UpdateExtensionResponse {
    fn duplicate(&self) -> (r: Self) {
        UpdateExtensionResponse {
            record: self.record.duplicate(),
        }
    }

    fn same(&self, other: &Self) -> (r: bool) {
        self.record.same(&other.record)
    }
}

impl Clone for UpdateExtensionResponse {
    fn clone(&self) -> (r: Self)
        ensures
            r.deep_view() == self.deep_view(),
    {
        self.duplicate()
    }
}

#[derive(Debug, PartialEq, Eq)]
pub struct ExtensionStatusRequest {
    pub extension_id: String,
}

/// What a [`ExtensionStatusRequest`] holds.
pub struct ExtensionStatusRequestModel {
    pub extension_id: Seq<char>,
}

impl DeepView for ExtensionStatusRequest {
    type V = ExtensionStatusRequestModel;

    open spec fn deep_view(&self) -> ExtensionStatusRequestModel {
        ExtensionStatusRequestModel {
            extension_id: self.extension_id.deep_view(),
        }
    }
}

impl View for ExtensionStatusRequest {
    type V = ExtensionStatusRequestModel;

    #[verifier::inline]
    open spec fn view(&self) -> ExtensionStatusRequestModel {
        self.deep_view()
    }
}

impl Record for ExtensionStatusRequest {
    fn duplicate(&self) -> (r: Self) {
        ExtensionStatusRequest {
            extension_id: self.extension_id.duplicate(),
        }
    }

    fn same(&self, other: &Self) -> (r: bool) {
        self.extension_id.same(&other.extension_id)
    }
}

impl Clone for ExtensionStatusRequest {
    fn clone(&self) -> (r: Self)
        ensures
            r.deep_view() == self.deep_view(),
    {
        self.duplicate()
    }
}

#[derive(Debug, PartialEq, Eq)]
pub struct ExtensionStatusResponse {
    pub extension_id: String,
    pub record: Option<ExtensionInstallRecord>,
    pub block: Option<ExtensionBlocklistMatch>,
}

/// What a [`ExtensionStatusResponse`] holds.
pub struct ExtensionStatusResponseModel {
    pub extension_id: Seq<char>,
    pub record: Option<ExtensionInstallRecordModel>,
    pub block: Option<ExtensionBlocklistMatchModel>,
}

impl DeepView for ExtensionStatusResponse {
    type V = ExtensionStatusResponseModel;

    open spec fn deep_view(&self) -> ExtensionStatusResponseModel {
        ExtensionStatusResponseModel {
            extension_id: self.extension_id.deep_view(),
            record: self.record.deep_view(),
            block: self.block.deep_view(),
        }
    }
}

impl View for ExtensionStatusResponse {
    type V = ExtensionStatusResponseModel;

    #[verifier::inline]
    open spec fn view(&self) -> ExtensionStatusResponseModel {
        self.deep_view()
    }
}

impl Record for ExtensionStatusResponse {
    fn duplicate(&self) -> (r: Self) {
        ExtensionStatusResponse {
            extension_id: self.extension_id.duplicate(),
            record: self.record.duplicate(),
            block: self.block.duplicate(),
        }
    }

    fn same(&self, other: &Self) -> (r: bool) {
        self.extension_id.same(&other.extension_id)
            && self.record.same(&other.record)
            && self.block.same(&other.block)
    }
}

impl Clone for ExtensionStatusResponse {
    fn clone(&self) -> (r: Self)
        ensures
            r.deep_view() == self.deep_view(),
    {
        self.duplicate()
    }
}

impl From<ExtensionStatusSnapshot> for ExtensionStatusResponse {
    fn from(snapshot: ExtensionStatusSnapshot) -> (r: Self) {
        ExtensionStatusResponse {
            extension_id: snapshot.extension_id,
            record: Some(snapshot.record),
            block: snapshot.block,
        }
    }
}

impl vstd::std_specs::convert::FromSpecImpl<ExtensionStatusSnapshot> for ExtensionStatusResponse {
    open spec fn obeys_from_spec() -> bool {
        true
    }

    open spec fn from_spec(snapshot: ExtensionStatusSnapshot) -> Self {
        ExtensionStatusResponse {
            extension_id: snapshot.extension_id,
            record: Some(snapshot.record),
            block: snapshot.block,
        }
    }
}

#[derive(Debug, PartialEq, Eq)]
pub struct ListExtensionsRequest {
    pub include_blocked: bool,
}

/// What a [`ListExtensionsRequest`] holds.
pub struct ListExtensionsRequestModel {
    pub include_blocked: bool,
}

impl DeepView for ListExtensionsRequest {
    type V = ListExtensionsRequestModel;

    open spec fn deep_view(&self) -> ListExtensionsRequestModel {
        ListExtensionsRequestModel {
            include_blocked: self.include_blocked.deep_view(),
        }
    }
}

impl View for ListExtensionsRequest {
    type V = ListExtensionsRequestModel;

    #[verifier::inline]
    open spec fn view(&self) -> ListExtensionsRequestModel {
        self.deep_view()
    }
}

impl Record for ListExtensionsRequest {
    fn duplicate(&self) -> (r: Self) {
        ListExtensionsRequest {
            include_blocked: self.include_blocked.duplicate(),
        }
    }

    fn same(&self, other: &Self) -> (r: bool) {
        self.include_blocked.same(&other.include_blocked)
    }
}

impl Clone for ListExtensionsRequest {
    fn clone(&self) -> (r: Self)
        ensures
            r.deep_view() == self.deep_view(),
    {
        self.duplicate()
    }
}

impl Default for ListExtensionsRequest {
    fn default() -> (r: Self)
        ensures
            r.include_blocked,
    {
        ListExtensionsRequest { include_blocked: true }
    }
}

#[derive(Debug, PartialEq, Eq)]
pub struct ListExtensionsResponse {
    pub extensions: Vec<ExtensionStatusResponse>,
}

/// What a [`ListExtensionsResponse`] holds.
pub struct ListExtensionsResponseModel {
    pub extensions: Seq<ExtensionStatusResponseModel>,
}

impl DeepView for ListExtensionsResponse {
    type V = ListExtensionsResponseModel;

    open spec fn deep_view(&self) -> ListExtensionsResponseModel {
        ListExtensionsResponseModel {
            extensions: self.extensions.deep_view(),
        }
    }
}

impl View for ListExtensionsResponse {
    type V = ListExtensionsResponseModel;

    #[verifier::inline]
    open spec fn view(&self) -> ListExtensionsResponseModel {
        self.deep_view()
    }
}

impl Record for ListExtensionsResponse {
    fn duplicate(&self) -> (r: Self) {
        ListExtensionsResponse {
            extensions: self.extensions.duplicate(),
        }
    }

    fn same(&self, other: &Self) -> (r: bool) {
        self.extensions.same(&other.extensions)
    }
}

impl Clone for ListExtensionsResponse {
    fn clone(&self) -> (r: Self)
        ensures
            r.deep_view() == self.deep_view(),
    {
        self.duplicate()
    }
}

#[derive(Debug, PartialEq, Eq)]
pub struct RollbackExtensionRequest {
    pub extension_id: String,
}

/// What a [`RollbackExtensionRequest`] holds.
pub struct RollbackExtensionRequestModel {
    pub extension_id: Seq<char>,
}

impl DeepView for RollbackExtensionRequest {
    type V = RollbackExtensionRequestModel;

    open spec fn deep_view(&self) -> RollbackExtensionRequestModel {
        RollbackExtensionRequestModel {
            extension_id: self.extension_id.deep_view(),
        }
    }
}

impl View for RollbackExtensionRequest {
    type V = RollbackExtensionRequestModel;

    #[verifier::inline]
    open spec fn view(&self) -> RollbackExtensionRequestModel {
        self.deep_view()
    }
}

impl Record for RollbackExtensionRequest {
    fn duplicate(&self) -> (r: Self) {
        RollbackExtensionRequest {
            extension_id: self.extension_id.duplicate(),
        }
    }

    fn same(&self, other: &Self) -> (r: bool) {
        self.extension_id.same(&other.extension_id)
    }
}

impl Clone for RollbackExtensionRequest {
    fn clone(&self) -> (r: Self)
        ensures
            r.deep_view() == self.deep_view(),
    {
        self.duplicate()
    }
}

#[derive(Debug, PartialEq, Eq)]
pub struct RollbackExtensionResponse {
    pub record: ExtensionInstallRecord,
}

/// What a [`RollbackExtensionResponse`] holds.
pub struct RollbackExtensionResponseModel {
    pub record: ExtensionInstallRecordModel,
}

impl DeepView for RollbackExtensionResponse {
    type V = RollbackExtensionResponseModel;

    open spec fn deep_view(&self) -> RollbackExtensionResponseModel {
        RollbackExtensionResponseModel {
            record: self.record.deep_view(),
        }
    }
}

impl View for RollbackExtensionResponse {
    type V = RollbackExtensionResponseModel;

    #[verifier::inline]
    open spec fn view(&self) -> RollbackExtensionResponseModel {
        self.deep_view()
    }
}

impl Record for RollbackExtensionResponse {
    fn duplicate(&self) -> (r: Self) {
        RollbackExtensionResponse {
            record: self.record.duplicate(),
        }
    }

    fn same(&self, other: &Self) -> (r: bool) {
        self.record.same(&other.record)
    }
}

impl Clone for RollbackExtensionResponse {
    fn clone(&self) -> (r: Self)
        ensures
            r.deep_view() == self.deep_view(),
    {
        self.duplicate()
    }
}

#[derive(Debug, PartialEq, Eq)]
pub struct DisableExtensionRequest {
    pub extension_id: String,
}

/// What a [`DisableExtensionRequest`] holds.
pub struct DisableExtensionRequestModel {
    pub extension_id: Seq<char>,
}

impl DeepView for DisableExtensionRequest {
    type V = DisableExtensionRequestModel;

    open spec fn deep_view(&self) -> DisableExtensionRequestModel {
        DisableExtensionRequestModel {
            extension_id: self.extension_id.deep_view(),
        }
    }
}

impl View for DisableExtensionRequest {
    type V = DisableExtensionRequestModel;

    #[verifier::inline]
    open spec fn view(&self) -> DisableExtensionRequestModel {
        self.deep_view()
    }
}

impl Record for DisableExtensionRequest {
    fn duplicate(&self) -> (r: Self) {
        DisableExtensionRequest {
            extension_id: self.extension_id.duplicate(),
        }
    }

    fn same(&self, other: &Self) -> (r: bool) {
        self.extension_id.same(&other.extension_id)
    }
}

impl Clone for DisableExtensionRequest {
    fn clone(&self) -> (r: Self)
        ensures
            r.deep_view() == self.deep_view(),
    {
        self.duplicate()
    }
}

#[derive(Debug, PartialEq, Eq)]
pub struct DisableExtensionResponse {
    pub record: ExtensionInstallRecord,
}

/// What a [`DisableExtensionResponse`] holds.
pub struct DisableExtensionResponseModel {
    pub record: ExtensionInstallRecordModel,
}

impl DeepView for DisableExtensionResponse {
    type V = DisableExtensionResponseModel;

    open spec fn deep_view(&self) -> DisableExtensionResponseModel {
        DisableExtensionResponseModel {
            record: self.record.deep_view(),
        }
    }
}

impl View for DisableExtensionResponse {
    type V = DisableExtensionResponseModel;

    #[verifier::inline]
    open spec fn view(&self) -> DisableExtensionResponseModel {
        self.deep_view()
    }
}

impl Record for DisableExtensionResponse {
    fn duplicate(&self) -> (r: Self) {
        DisableExtensionResponse {
            record: self.record.duplicate(),
        }
    }

    fn same(&self, other: &Self) -> (r: bool) {
        self.record.same(&other.record)
    }
}

impl Clone for DisableExtensionResponse {
    fn clone(&self) -> (r: Self)
        ensures
            r.deep_view() == self.deep_view(),
    {
        self.duplicate()
    }
}

#[derive(Debug, PartialEq, Eq)]
pub struct EnableExtensionRequest {
    pub extension_id: String,
}

/// What a [`EnableExtensionRequest`] holds.
pub struct EnableExtensionRequestModel {
    pub extension_id: Seq<char>,
}

impl DeepView for EnableExtensionRequest {
    type V = EnableExtensionRequestModel;

    open spec fn deep_view(&self) -> EnableExtensionRequestModel {
        EnableExtensionRequestModel {
            extension_id: self.extension_id.deep_view(),
        }
    }
}

impl View for EnableExtensionRequest {
    type V = EnableExtensionRequestModel;

    #[verifier::inline]
    open spec fn view(&self) -> EnableExtensionRequestModel {
        self.deep_view()
    }
}

impl Record for EnableExtensionRequest {
    fn duplicate(&self) -> (r: Self) {
        EnableExtensionRequest {
            extension_id: self.extension_id.duplicate(),
        }
    }

    fn same(&self, other: &Self) -> (r: bool) {
        self.extension_id.same(&other.extension_id)
    }
}

impl Clone for EnableExtensionRequest {
    fn clone(&self) -> (r: Self)
        ensures
            r.deep_view() == self.deep_view(),
    {
        self.duplicate()
    }
}

#[derive(Debug, PartialEq, Eq)]
pub struct EnableExtensionResponse {
    pub record: ExtensionInstallRecord,
}

/// What a [`EnableExtensionResponse`] holds.
pub struct EnableExtensionResponseModel {
    pub record: ExtensionInstallRecordModel,
}

impl DeepView for EnableExtensionResponse {
    type V = EnableExtensionResponseModel;

    open spec fn deep_view(&self) -> EnableExtensionResponseModel {
        EnableExtensionResponseModel {
            record: self.record.deep_view(),
        }
    }
}

impl View for EnableExtensionResponse {
    type V = EnableExtensionResponseModel;

    #[verifier::inline]
    open spec fn view(&self) -> EnableExtensionResponseModel {
        self.deep_view()
    }
}

impl Record for EnableExtensionResponse {
    fn duplicate(&self) -> (r: Self) {
        EnableExtensionResponse {
            record: self.record.duplicate(),
        }
    }

    fn same(&self, other: &Self) -> (r: bool) {
        self.record.same(&other.record)
    }
}

impl Clone for EnableExtensionResponse {
    fn clone(&self) -> (r: Self)
        ensures
            r.deep_view() == self.deep_view(),
    {
        self.duplicate()
    }
}

#[derive(Debug, PartialEq, Eq)]
pub struct RemoveExtensionRequest {
    pub extension_id: String,
}

/// What a [`RemoveExtensionRequest`] holds.
pub struct RemoveExtensionRequestModel {
    pub extension_id: Seq<char>,
}

impl DeepView for RemoveExtensionRequest {
    type V = RemoveExtensionRequestModel;

    open spec fn deep_view(&self) -> RemoveExtensionRequestModel {
        RemoveExtensionRequestModel {
            extension_id: self.extension_id.deep_view(),
        }
    }
}

impl View for RemoveExtensionRequest {
    type V = RemoveExtensionRequestModel;

    #[verifier::inline]
    open spec fn view(&self) -> RemoveExtensionRequestModel {
        self.deep_view()
    }
}

impl Record for RemoveExtensionRequest {
    fn duplicate(&self) -> (r: Self) {
        RemoveExtensionRequest {
            extension_id: self.extension_id.duplicate(),
        }
    }

    fn same(&self, other: &Self) -> (r: bool) {
        self.extension_id.same(&other.extension_id)
    }
}

impl Clone for RemoveExtensionRequest {
    fn clone(&self) -> (r: Self)
        ensures
            r.deep_view() == self.deep_view(),
    {
        self.duplicate()
    }
}

#[derive(Debug, PartialEq, Eq)]
pub struct RemoveExtensionResponse {
    pub record: ExtensionInstallRecord,
}

/// What a [`RemoveExtensionResponse`] holds.
pub struct RemoveExtensionResponseModel {
    pub record: ExtensionInstallRecordModel,
}

impl DeepView for RemoveExtensionResponse {
    type V = RemoveExtensionResponseModel;

    open spec fn deep_view(&self) -> RemoveExtensionResponseModel {
        RemoveExtensionResponseModel {
            record: self.record.deep_view(),
        }
    }
}

impl View for RemoveExtensionResponse {
    type V = RemoveExtensionResponseModel;

    #[verifier::inline]
    open spec fn view(&self) -> RemoveExtensionResponseModel {
        self.deep_view()
    }
}

impl Record for RemoveExtensionResponse {
    fn duplicate(&self) -> (r: Self) {
        RemoveExtensionResponse {
            record: self.record.duplicate(),
        }
    }

    fn same(&self, other: &Self) -> (r: bool) {
        self.record.same(&other.record)
    }
}

impl Clone for RemoveExtensionResponse {
    fn clone(&self) -> (r: Self)
        ensures
            r.deep_view() == self.deep_view(),
    {
        self.duplicate()
    }
}

#[derive(Debug, PartialEq, Eq)]
pub struct ApplyBlocklistRequest {
    pub entry: BlocklistEntry,
}

/// What a [`ApplyBlocklistRequest`] holds.
pub struct ApplyBlocklistRequestModel {
    pub entry: BlocklistEntryModel,
}

impl DeepView for ApplyBlocklistRequest {
    type V = ApplyBlocklistRequestModel;

    open spec fn deep_view(&self) -> ApplyBlocklistRequestModel {
        ApplyBlocklistRequestModel {
            entry: self.entry.deep_view(),
        }
    }
}

impl View for ApplyBlocklistRequest {
    type V = ApplyBlocklistRequestModel;

    #[verifier::inline]
    open spec fn view(&self) -> ApplyBlocklistRequestModel {
        self.deep_view()
    }
}

impl Record for ApplyBlocklistRequest {
    fn duplicate(&self) -> (r: Self) {
        ApplyBlocklistRequest {
            entry: self.entry.duplicate(),
        }
    }

    fn same(&self, other: &Self) -> (r: bool) {
        self.entry.same(&other.entry)
    }
}

impl Clone for ApplyBlocklistRequest {
    fn clone(&self) -> (r: Self)
        ensures
            r.deep_view() == self.deep_view(),
    {
        self.duplicate()
    }
}

#[derive(Debug, PartialEq, Eq)]
pub struct ApplyBlocklistResponse {
    pub entry: BlocklistEntry,
}

/// What a [`ApplyBlocklistResponse`] holds.
pub struct ApplyBlocklistResponseModel {
    pub entry: BlocklistEntryModel,
}

impl DeepView for ApplyBlocklistResponse {
    type V = ApplyBlocklistResponseModel;

    open spec fn deep_view(&self) -> ApplyBlocklistResponseModel {
        ApplyBlocklistResponseModel {
            entry: self.entry.deep_view(),
        }
    }
}

impl View for ApplyBlocklistResponse {
    type V = ApplyBlocklistResponseModel;

    #[verifier::inline]
    open spec fn view(&self) -> ApplyBlocklistResponseModel {
        self.deep_view()
    }
}

impl Record for ApplyBlocklistResponse {
    fn duplicate(&self) -> (r: Self) {
        ApplyBlocklistResponse {
            entry: self.entry.duplicate(),
        }
    }

    fn same(&self, other: &Self) -> (r: bool) {
        self.entry.same(&other.entry)
    }
}

impl Clone for ApplyBlocklistResponse {
    fn clone(&self) -> (r: Self)
        ensures
            r.deep_view() == self.deep_view(),
    {
        self.duplicate()
    }
}

#[derive(Debug, Clone, PartialEq, Eq)]
pub struct ListBlocklistRequest {}

#[derive(Debug, PartialEq, Eq)]
pub struct ListBlocklistResponse {
    pub entries: Vec<BlocklistEntry>,
}

/// What a [`ListBlocklistResponse`] holds.
pub struct ListBlocklistResponseModel {
    pub entries: Seq<BlocklistEntryModel>,
}

impl DeepView for ListBlocklistResponse {
    type V = ListBlocklistResponseModel;

    open spec fn deep_view(&self) -> ListBlocklistResponseModel {
        ListBlocklistResponseModel {
            entries: self.entries.deep_view(),
        }
    }
}

impl View for ListBlocklistResponse {
    type V = ListBlocklistResponseModel;

    #[verifier::inline]
    open spec fn view(&self) -> ListBlocklistResponseModel {
        self.deep_view()
    }
}

impl Record for ListBlocklistResponse {
    fn duplicate(&self) -> (r: Self) {
        ListBlocklistResponse {
            entries: self.entries.duplicate(),
        }
    }

    fn same(&self, other: &Self) -> (r: bool) {
        self.entries.same(&other.entries)
    }
}

impl Clone for ListBlocklistResponse {
    fn clone(&self) -> (r: Self)
        ensures
            r.deep_view() == self.deep_view(),
    {
        self.duplicate()
    }
}

/// A status as it is answered.
pub open spec fn response_to(status: ExtensionStatusSnapshotModel) -> ExtensionStatusResponseModel {
    ExtensionStatusResponseModel {
        extension_id: status.extension_id,
        record: Some(status.record),
        block: status.block,
    }
}

/// The statuses as they are answered, the blocked ones where they are asked for.
pub open spec fn responses_to(
    statuses: Seq<ExtensionStatusSnapshotModel>,
    include_blocked: bool,
) -> Seq<ExtensionStatusResponseModel>
    decreases statuses.len(),
{
    if statuses.len() == 0 {
        Seq::empty()
    } else {
        let earlier = responses_to(statuses.drop_last(), include_blocked);
        if include_blocked || statuses.last().block is None {
            earlier.push(response_to(statuses.last()))
        } else {
            earlier
        }
    }
}

pub open spec fn install_extension_outcome(
    outcome: Result<(ExtensionRegistryModel, ExtensionInstallRecordModel), RegistryErrorModel>,
) -> Result<(ExtensionRegistryModel, InstallExtensionResponseModel), RegistryErrorModel> {
    match outcome {
        Ok((registry, record)) => Ok((registry, InstallExtensionResponseModel { record })),
        Err(error) => Err(error),
    }
}

pub open spec fn update_extension_outcome(
    outcome: Result<(ExtensionRegistryModel, ExtensionInstallRecordModel), RegistryErrorModel>,
) -> Result<(ExtensionRegistryModel, UpdateExtensionResponseModel), RegistryErrorModel> {
    match outcome {
        Ok((registry, record)) => Ok((registry, UpdateExtensionResponseModel { record })),
        Err(error) => Err(error),
    }
}

pub open spec fn rollback_extension_outcome(
    outcome: Result<(ExtensionRegistryModel, ExtensionInstallRecordModel), RegistryErrorModel>,
) -> Result<(ExtensionRegistryModel, RollbackExtensionResponseModel), RegistryErrorModel> {
    match outcome {
        Ok((registry, record)) => Ok((registry, RollbackExtensionResponseModel { record })),
        Err(error) => Err(error),
    }
}

pub open spec fn disable_extension_outcome(
    outcome: Result<(ExtensionRegistryModel, ExtensionInstallRecordModel), RegistryErrorModel>,
) -> Result<(ExtensionRegistryModel, DisableExtensionResponseModel), RegistryErrorModel> {
    match outcome {
        Ok((registry, record)) => Ok((registry, DisableExtensionResponseModel { record })),
        Err(error) => Err(error),
    }
}

pub open spec fn enable_extension_outcome(
    outcome: Result<(ExtensionRegistryModel, ExtensionInstallRecordModel), RegistryErrorModel>,
) -> Result<(ExtensionRegistryModel, EnableExtensionResponseModel), RegistryErrorModel> {
    match outcome {
        Ok((registry, record)) => Ok((registry, EnableExtensionResponseModel { record })),
        Err(error) => Err(error),
    }
}

pub open spec fn remove_extension_outcome(
    outcome: Result<(ExtensionRegistryModel, ExtensionInstallRecordModel), RegistryErrorModel>,
) -> Result<(ExtensionRegistryModel, RemoveExtensionResponseModel), RegistryErrorModel> {
    match outcome {
        Ok((registry, record)) => Ok((registry, RemoveExtensionResponseModel { record })),
        Err(error) => Err(error),
    }
}

/// Answers requests from a registry.
pub struct ExtensionRegistryService {
    registry: ExtensionRegistry,
}

impl View for ExtensionRegistryService {
    type V = ExtensionRegistryModel;

    closed spec fn view(&self) -> ExtensionRegistryModel {
        self.registry@
    }
}

impl ExtensionRegistryService {
    pub fn new() -> (r: Self)
        ensures
            r@ == ExtensionRegistryModel::empty(ManifestValidationPolicyModel::standard()),
    {
        ExtensionRegistryService { registry: ExtensionRegistry::in_memory() }
    }

    pub fn with_registry(registry: ExtensionRegistry) -> (r: Self)
        ensures
            r@ == registry@,
    {
        ExtensionRegistryService { registry }
    }

    pub fn snapshot(&self) -> (r: ExtensionRegistrySnapshot)
        ensures
            r@ == self@.snapshot(),
    {
        self.registry.snapshot()
    }

    pub fn validation_policy(&self) -> (r: ManifestValidationPolicy)
        ensures
            r@ == self@.validation_policy,
    {
        self.registry.validation_policy()
    }

    pub fn install_extension(&mut self, request: InstallExtensionRequest) -> (r: RegistryResult<
        InstallExtensionResponse,
    >)
        ensures
            registry_model::changes(
                r,
                old(self)@,
                final(self)@,
                install_extension_outcome(old(self)@.install(
                    request.manifest@,
                    InstallOptions::granting(
                        request.approve_local_unsigned,
                        request.allow_local_process_runtime,
                        request.approve_source_change,
                    ),
                )),
            ),
    {
        let options = InstallOptions::from(&request);
        match self.registry.install(request.manifest, options) {
            Ok(record) => Ok(InstallExtensionResponse { record }),
            Err(error) => Err(error),
        }
    }

    /// Validate a manifest against registry policy without installing it.
    pub fn validate_extension_manifest(&self, request: ValidateExtensionManifestRequest) -> (r:
        RegistryResult<ValidateExtensionManifestResponse>)
        ensures
            registry_model::gives(
                r,
                self@.validate(
                    request.manifest@,
                    InstallOptions::granting(
                        request.approve_local_unsigned,
                        request.allow_local_process_runtime,
                        request.approve_source_change,
                    ),
                ),
            ),
    {
        let options = InstallOptions::from(&request);
        self.registry.validate(request.manifest, options)
    }

    pub fn update_extension(&mut self, request: UpdateExtensionRequest) -> (r: RegistryResult<
        UpdateExtensionResponse,
    >)
        ensures
            registry_model::changes(
                r,
                old(self)@,
                final(self)@,
                update_extension_outcome(old(self)@.install(
                    request.manifest@,
                    InstallOptions::granting(
                        request.approve_local_unsigned,
                        request.allow_local_process_runtime,
                        request.approve_source_change,
                    ),
                )),
            ),
    {
        let options = InstallOptions::from(&request);
        match self.registry.install(request.manifest, options) {
            Ok(record) => Ok(UpdateExtensionResponse { record }),
            Err(error) => Err(error),
        }
    }

    pub fn extension_status(&self, request: ExtensionStatusRequest) -> (r: RegistryResult<
        ExtensionStatusResponse,
    >)
        ensures
            registry_model::gives(
                r,
                match self@.extension_status(request.extension_id@) {
                    Ok(status) => Ok(response_to(status)),
                    Err(error) => Err(error),
                },
            ),
    {
        match self.registry.extension_status(request.extension_id.as_str()) {
            Ok(status) => Ok(ExtensionStatusResponse::from(status)),
            Err(error) => Err(error),
        }
    }

    pub fn list_extensions(&self, request: ListExtensionsRequest) -> (r: RegistryResult<
        ListExtensionsResponse,
    >)
        ensures
            registry_model::gives(
                r,
                match self@.statuses() {
                    Ok(statuses) => Ok(
                        ListExtensionsResponseModel {
                            extensions: responses_to(statuses, request.include_blocked),
                        },
                    ),
                    Err(error) => Err(error),
                },
            ),
    {
        let statuses = self.registry.list_extension_statuses()?;
        let ghost all = statuses.deep_view();
        let mut extensions: Vec<ExtensionStatusResponse> = Vec::new();
        let mut i: usize = 0;
        assert(extensions.deep_view() =~= responses_to(all.take(0), request.include_blocked));
        while i < statuses.len()
            invariant
                i <= statuses.len(),
                all == statuses.deep_view(),
                extensions.deep_view() == responses_to(all.take(i as int), request.include_blocked),
            decreases statuses.len() - i,
        {
            proof {
                assert(all.take(i + 1).drop_last() =~= all.take(i as int));
                assert(all.take(i + 1).last() == statuses[i as int]@);
            }
            if request.include_blocked || statuses[i].block.is_none() {
                let response = ExtensionStatusResponse::from(statuses[i].clone());
                let ghost before = extensions.deep_view();
                extensions.push(response);
                assert(extensions.deep_view() =~= before.push(response@));
            }
            i += 1;
        }
        assert(all.take(i as int) =~= all);
        Ok(ListExtensionsResponse { extensions })
    }

    pub fn rollback_extension(&mut self, request: RollbackExtensionRequest) -> (r: RegistryResult<
        RollbackExtensionResponse,
    >)
        ensures
            registry_model::changes(
                r,
                old(self)@,
                final(self)@,
                rollback_extension_outcome(old(self)@.rollback(request.extension_id@)),
            ),
    {
        match self.registry.rollback(request.extension_id.as_str()) {
            Ok(record) => Ok(RollbackExtensionResponse { record }),
            Err(error) => Err(error),
        }
    }

    pub fn disable_extension(&mut self, request: DisableExtensionRequest) -> (r: RegistryResult<
        DisableExtensionResponse,
    >)
        ensures
            registry_model::changes(
                r,
                old(self)@,
                final(self)@,
                disable_extension_outcome(old(self)@.disable(request.extension_id@)),
            ),
    {
        match self.registry.disable(request.extension_id.as_str()) {
            Ok(record) => Ok(DisableExtensionResponse { record }),
            Err(error) => Err(error),
        }
    }

    pub fn enable_extension(&mut self, request: EnableExtensionRequest) -> (r: RegistryResult<
        EnableExtensionResponse,
    >)
        ensures
            registry_model::changes(
                r,
                old(self)@,
                final(self)@,
                enable_extension_outcome(old(self)@.enable(request.extension_id@)),
            ),
    {
        match self.registry.enable(request.extension_id.as_str()) {
            Ok(record) => Ok(EnableExtensionResponse { record }),
            Err(error) => Err(error),
        }
    }

    pub fn remove_extension(&mut self, request: RemoveExtensionRequest) -> (r: RegistryResult<
        RemoveExtensionResponse,
    >)
        ensures
            registry_model::changes(
                r,
                old(self)@,
                final(self)@,
                remove_extension_outcome(old(self)@.remove(request.extension_id@)),
            ),
    {
        match self.registry.remove(request.extension_id.as_str()) {
            Ok(record) => Ok(RemoveExtensionResponse { record }),
            Err(error) => Err(error),
        }
    }

    pub fn apply_blocklist(&mut self, request: ApplyBlocklistRequest) -> (r: RegistryResult<
        ApplyBlocklistResponse,
    >)
        ensures
            registry_model::changes(
                r,
                old(self)@,
                final(self)@,
                match old(self)@.blocking(request.entry@) {
                    Ok(registry) => Ok(
                        (registry, ApplyBlocklistResponseModel { entry: request.entry@ }),
                    ),
                    Err(error) => Err(error),
                },
            ),
    {
        let entry = request.entry;
        self.registry.add_blocklist_entry(entry.clone())?;
        Ok(ApplyBlocklistResponse { entry })
    }

    pub fn list_blocklist(&self, request: ListBlocklistRequest) -> (r: RegistryResult<
        ListBlocklistResponse,
    >)
        ensures
            registry_model::gives(
                r,
                Ok(ListBlocklistResponseModel { entries: self@.blocklist }),
            ),
    {
        Ok(ListBlocklistResponse { entries: self.registry.blocklist_entries() })
    }
}

impl Default for ExtensionRegistryService {
    fn default() -> (r: Self)
        ensures
            r@ == ExtensionRegistryModel::empty(ManifestValidationPolicyModel::standard()),
    {
        ExtensionRegistryService::new()
    }
}

} // verus!

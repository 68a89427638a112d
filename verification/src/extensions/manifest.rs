//! The manifest of an extension, and what its validation can object to.
use vstd::prelude::*;

use crate::record::Record;
use crate::text_map::TextMap;

verus! {

pub const EXTENSION_MANIFEST_SCHEMA: &'static str = "atelia.extension.v1";

pub const EXTENSION_RPC_PROTOCOL: &'static str = "atelia-extension-rpc.v1";

#[derive(Debug, PartialEq, Eq)]
pub struct ExtensionPublisher {
    pub name: String,
    pub url: Option<String>,
}

/// What a [`ExtensionPublisher`] holds.
pub struct ExtensionPublisherModel {
    pub name: Seq<char>,
    pub url: Option<Seq<char>>,
}

impl DeepView for ExtensionPublisher {
    type V = ExtensionPublisherModel;

    open spec fn deep_view(&self) -> ExtensionPublisherModel {
        ExtensionPublisherModel {
            name: self.name.deep_view(),
            url: self.url.deep_view(),
        }
    }
}

impl View for ExtensionPublisher {
    type V = ExtensionPublisherModel;

    #[verifier::inline]
    open spec fn view(&self) -> ExtensionPublisherModel {
        self.deep_view()
    }
}

impl Record for ExtensionPublisher {
    fn duplicate(&self) -> (r: Self) {
        ExtensionPublisher {
            name: self.name.duplicate(),
            url: self.url.duplicate(),
        }
    }

    fn same(&self, other: &Self) -> (r: bool) {
        self.name.same(&other.name)
            && self.url.same(&other.url)
    }
}

impl Clone for ExtensionPublisher {
    fn clone(&self) -> (r: Self)
        ensures
            r.deep_view() == self.deep_view(),
    {
        self.duplicate()
    }
}

#[derive(Debug, Clone, Copy, PartialEq, Eq, PartialOrd, Ord, Structural)]
pub enum ExtensionKind {
    Tool,
    Service,
    HookProvider,
    WebhookReceiver,
    ToolOutputCustomizer,
    Workflow,
    Notification,
    ApprovalAgent,
    Review,
    ReviewAgent,
    AgentProvider,
    DelegatedAgent,
    MemoryProvider,
    MemoryStrategy,
    Integration,
    Presentation,
}

impl DeepView for ExtensionKind {
    type V = ExtensionKind;

    open spec fn deep_view(&self) -> ExtensionKind {
        *self
    }
}

impl Record for ExtensionKind {
    fn duplicate(&self) -> (r: Self) {
        *self
    }

    fn same(&self, other: &Self) -> (r: bool) {
        *self == *other
    }
}

#[derive(Debug, PartialEq, Eq)]
pub struct ExtensionCompatibility {
    pub atelia_protocol: String,
    pub atelia_secretary: String,
}

/// What a [`ExtensionCompatibility`] holds.
pub struct ExtensionCompatibilityModel {
    pub atelia_protocol: Seq<char>,
    pub atelia_secretary: Seq<char>,
}

impl DeepView for ExtensionCompatibility {
    type V = ExtensionCompatibilityModel;

    open spec fn deep_view(&self) -> ExtensionCompatibilityModel {
        ExtensionCompatibilityModel {
            atelia_protocol: self.atelia_protocol.deep_view(),
            atelia_secretary: self.atelia_secretary.deep_view(),
        }
    }
}

impl View for ExtensionCompatibility {
    type V = ExtensionCompatibilityModel;

    #[verifier::inline]
    open spec fn view(&self) -> ExtensionCompatibilityModel {
        self.deep_view()
    }
}

impl Record for ExtensionCompatibility {
    fn duplicate(&self) -> (r: Self) {
        ExtensionCompatibility {
            atelia_protocol: self.atelia_protocol.duplicate(),
            atelia_secretary: self.atelia_secretary.duplicate(),
        }
    }

    fn same(&self, other: &Self) -> (r: bool) {
        self.atelia_protocol.same(&other.atelia_protocol)
            && self.atelia_secretary.same(&other.atelia_secretary)
    }
}

impl Clone for ExtensionCompatibility {
    fn clone(&self) -> (r: Self)
        ensures
            r.deep_view() == self.deep_view(),
    {
        self.duplicate()
    }
}

#[derive(Debug, Clone, Copy, PartialEq, Eq, Structural)]
pub enum ExtensionRealm {
    Backend,
    Client,
}

impl DeepView for ExtensionRealm {
    type V = ExtensionRealm;

    open spec fn deep_view(&self) -> ExtensionRealm {
        *self
    }
}

impl Record for ExtensionRealm {
    fn duplicate(&self) -> (r: Self) {
        *self
    }

    fn same(&self, other: &Self) -> (r: bool) {
        *self == *other
    }
}

#[derive(Debug, Clone, Copy, PartialEq, Eq, Structural)]
pub enum ExtensionRuntime {
    WasmRust,
    Wasm,
    Docker,
    Process,
    Remote,
    SwiftClient,
}

impl DeepView for ExtensionRuntime {
    type V = ExtensionRuntime;

    open spec fn deep_view(&self) -> ExtensionRuntime {
        *self
    }
}

impl Record for ExtensionRuntime {
    fn duplicate(&self) -> (r: Self) {
        *self
    }

    fn same(&self, other: &Self) -> (r: bool) {
        *self == *other
    }
}

impl ExtensionRuntime {
    /// The runtime as messages name it.
    pub open spec fn shown(self) -> Seq<char> {
        match self {
            ExtensionRuntime::WasmRust => "WasmRust"@,
            ExtensionRuntime::Wasm => "Wasm"@,
            ExtensionRuntime::Docker => "Docker"@,
            ExtensionRuntime::Process => "Process"@,
            ExtensionRuntime::Remote => "Remote"@,
            ExtensionRuntime::SwiftClient => "SwiftClient"@,
        }
    }

    pub fn name(self) -> (r: &'static str)
        ensures
            r@ == self.shown(),
    {
        match self {
            ExtensionRuntime::WasmRust => "WasmRust",
            ExtensionRuntime::Wasm => "Wasm",
            ExtensionRuntime::Docker => "Docker",
            ExtensionRuntime::Process => "Process",
            ExtensionRuntime::Remote => "Remote",
            ExtensionRuntime::SwiftClient => "SwiftClient",
        }
    }
}

#[derive(Debug, PartialEq, Eq)]
pub struct ExtensionEntrypoints {
    pub realm: ExtensionRealm,
    pub runtime: ExtensionRuntime,
    pub command: Option<String>,
    pub image: Option<String>,
    pub wasm: Option<String>,
    pub protocol: String,
}

/// What a [`ExtensionEntrypoints`] holds.
pub struct ExtensionEntrypointsModel {
    pub realm: ExtensionRealm,
    pub runtime: ExtensionRuntime,
    pub command: Option<Seq<char>>,
    pub image: Option<Seq<char>>,
    pub wasm: Option<Seq<char>>,
    pub protocol: Seq<char>,
}

impl DeepView for ExtensionEntrypoints {
    type V = ExtensionEntrypointsModel;

    open spec fn deep_view(&self) -> ExtensionEntrypointsModel {
        ExtensionEntrypointsModel {
            realm: self.realm.deep_view(),
            runtime: self.runtime.deep_view(),
            command: self.command.deep_view(),
            image: self.image.deep_view(),
            wasm: self.wasm.deep_view(),
            protocol: self.protocol.deep_view(),
        }
    }
}

impl View for ExtensionEntrypoints {
    type V = ExtensionEntrypointsModel;

    #[verifier::inline]
    open spec fn view(&self) -> ExtensionEntrypointsModel {
        self.deep_view()
    }
}

impl Record for ExtensionEntrypoints {
    fn duplicate(&self) -> (r: Self) {
        ExtensionEntrypoints {
            realm: self.realm.duplicate(),
            runtime: self.runtime.duplicate(),
            command: self.command.duplicate(),
            image: self.image.duplicate(),
            wasm: self.wasm.duplicate(),
            protocol: self.protocol.duplicate(),
        }
    }

    fn same(&self, other: &Self) -> (r: bool) {
        self.realm.same(&other.realm)
            && self.runtime.same(&other.runtime)
            && self.command.same(&other.command)
            && self.image.same(&other.image)
            && self.wasm.same(&other.wasm)
            && self.protocol.same(&other.protocol)
    }
}

impl Clone for ExtensionEntrypoints {
    fn clone(&self) -> (r: Self)
        ensures
            r.deep_view() == self.deep_view(),
    {
        self.duplicate()
    }
}

#[derive(Debug, PartialEq, Eq)]
pub struct ExtensionPermission {
    pub description: String,
    pub risk_tier: Option<String>,
}

/// What a [`ExtensionPermission`] holds.
pub struct ExtensionPermissionModel {
    pub description: Seq<char>,
    pub risk_tier: Option<Seq<char>>,
}

impl DeepView for ExtensionPermission {
    type V = ExtensionPermissionModel;

    open spec fn deep_view(&self) -> ExtensionPermissionModel {
        ExtensionPermissionModel {
            description: self.description.deep_view(),
            risk_tier: self.risk_tier.deep_view(),
        }
    }
}

impl View for ExtensionPermission {
    type V = ExtensionPermissionModel;

    #[verifier::inline]
    open spec fn view(&self) -> ExtensionPermissionModel {
        self.deep_view()
    }
}

impl Record for ExtensionPermission {
    fn duplicate(&self) -> (r: Self) {
        ExtensionPermission {
            description: self.description.duplicate(),
            risk_tier: self.risk_tier.duplicate(),
        }
    }

    fn same(&self, other: &Self) -> (r: bool) {
        self.description.same(&other.description)
            && self.risk_tier.same(&other.risk_tier)
    }
}

impl Clone for ExtensionPermission {
    fn clone(&self) -> (r: Self)
        ensures
            r.deep_view() == self.deep_view(),
    {
        self.duplicate()
    }
}

#[derive(Debug, PartialEq, Eq)]
pub struct ExtensionToolDefinition {
    pub id: String,
    pub permissions: Vec<String>,
    pub permissions_required: Vec<String>,
}

/// What a [`ExtensionToolDefinition`] holds.
pub struct ExtensionToolDefinitionModel {
    pub id: Seq<char>,
    pub permissions: Seq<Seq<char>>,
    pub permissions_required: Seq<Seq<char>>,
}

impl DeepView for ExtensionToolDefinition {
    type V = ExtensionToolDefinitionModel;

    open spec fn deep_view(&self) -> ExtensionToolDefinitionModel {
        ExtensionToolDefinitionModel {
            id: self.id.deep_view(),
            permissions: self.permissions.deep_view(),
            permissions_required: self.permissions_required.deep_view(),
        }
    }
}

impl View for ExtensionToolDefinition {
    type V = ExtensionToolDefinitionModel;

    #[verifier::inline]
    open spec fn view(&self) -> ExtensionToolDefinitionModel {
        self.deep_view()
    }
}

impl Record for ExtensionToolDefinition {
    fn duplicate(&self) -> (r: Self) {
        ExtensionToolDefinition {
            id: self.id.duplicate(),
            permissions: self.permissions.duplicate(),
            permissions_required: self.permissions_required.duplicate(),
        }
    }

    fn same(&self, other: &Self) -> (r: bool) {
        self.id.same(&other.id)
            && self.permissions.same(&other.permissions)
            && self.permissions_required.same(&other.permissions_required)
    }
}

impl Clone for ExtensionToolDefinition {
    fn clone(&self) -> (r: Self)
        ensures
            r.deep_view() == self.deep_view(),
    {
        self.duplicate()
    }
}

#[derive(Debug, PartialEq, Eq)]
pub struct ExtensionServiceDefinition {
    pub service: String,
    pub method: String,
    pub schema_version: String,
    pub required_permission: String,
}

/// What a [`ExtensionServiceDefinition`] holds.
pub struct ExtensionServiceDefinitionModel {
    pub service: Seq<char>,
    pub method: Seq<char>,
    pub schema_version: Seq<char>,
    pub required_permission: Seq<char>,
}

impl DeepView for ExtensionServiceDefinition {
    type V = ExtensionServiceDefinitionModel;

    open spec fn deep_view(&self) -> ExtensionServiceDefinitionModel {
        ExtensionServiceDefinitionModel {
            service: self.service.deep_view(),
            method: self.method.deep_view(),
            schema_version: self.schema_version.deep_view(),
            required_permission: self.required_permission.deep_view(),
        }
    }
}

impl View for ExtensionServiceDefinition {
    type V = ExtensionServiceDefinitionModel;

    #[verifier::inline]
    open spec fn view(&self) -> ExtensionServiceDefinitionModel {
        self.deep_view()
    }
}

impl Record for ExtensionServiceDefinition {
    fn duplicate(&self) -> (r: Self) {
        ExtensionServiceDefinition {
            service: self.service.duplicate(),
            method: self.method.duplicate(),
            schema_version: self.schema_version.duplicate(),
            required_permission: self.required_permission.duplicate(),
        }
    }

    fn same(&self, other: &Self) -> (r: bool) {
        self.service.same(&other.service)
            && self.method.same(&other.method)
            && self.schema_version.same(&other.schema_version)
            && self.required_permission.same(&other.required_permission)
    }
}

impl Clone for ExtensionServiceDefinition {
    fn clone(&self) -> (r: Self)
        ensures
            r.deep_view() == self.deep_view(),
    {
        self.duplicate()
    }
}

#[derive(Debug, PartialEq, Eq)]
pub struct ExtensionServiceDependency {
    pub extension_id: String,
    pub service: String,
    pub method: String,
    pub schema_version: String,
    pub required_permission: String,
}

/// What a [`ExtensionServiceDependency`] holds.
pub struct ExtensionServiceDependencyModel {
    pub extension_id: Seq<char>,
    pub service: Seq<char>,
    pub method: Seq<char>,
    pub schema_version: Seq<char>,
    pub required_permission: Seq<char>,
}

impl DeepView for ExtensionServiceDependency {
    type V = ExtensionServiceDependencyModel;

    open spec fn deep_view(&self) -> ExtensionServiceDependencyModel {
        ExtensionServiceDependencyModel {
            extension_id: self.extension_id.deep_view(),
            service: self.service.deep_view(),
            method: self.method.deep_view(),
            schema_version: self.schema_version.deep_view(),
            required_permission: self.required_permission.deep_view(),
        }
    }
}

impl View for ExtensionServiceDependency {
    type V = ExtensionServiceDependencyModel;

    #[verifier::inline]
    open spec fn view(&self) -> ExtensionServiceDependencyModel {
        self.deep_view()
    }
}

impl Record for ExtensionServiceDependency {
    fn duplicate(&self) -> (r: Self) {
        ExtensionServiceDependency {
            extension_id: self.extension_id.duplicate(),
            service: self.service.duplicate(),
            method: self.method.duplicate(),
            schema_version: self.schema_version.duplicate(),
            required_permission: self.required_permission.duplicate(),
        }
    }

    fn same(&self, other: &Self) -> (r: bool) {
        self.extension_id.same(&other.extension_id)
            && self.service.same(&other.service)
            && self.method.same(&other.method)
            && self.schema_version.same(&other.schema_version)
            && self.required_permission.same(&other.required_permission)
    }
}

impl Clone for ExtensionServiceDependency {
    fn clone(&self) -> (r: Self)
        ensures
            r.deep_view() == self.deep_view(),
    {
        self.duplicate()
    }
}

#[derive(Debug, PartialEq, Eq)]
pub struct ExtensionServices {
    pub provides: Vec<ExtensionServiceDefinition>,
    pub consumes: Vec<ExtensionServiceDependency>,
}

/// What a [`ExtensionServices`] holds.
pub struct ExtensionServicesModel {
    pub provides: Seq<ExtensionServiceDefinitionModel>,
    pub consumes: Seq<ExtensionServiceDependencyModel>,
}

impl DeepView for ExtensionServices {
    type V = ExtensionServicesModel;

    open spec fn deep_view(&self) -> ExtensionServicesModel {
        ExtensionServicesModel {
            provides: self.provides.deep_view(),
            consumes: self.consumes.deep_view(),
        }
    }
}

impl View for ExtensionServices {
    type V = ExtensionServicesModel;

    #[verifier::inline]
    open spec fn view(&self) -> ExtensionServicesModel {
        self.deep_view()
    }
}

impl Record for ExtensionServices {
    fn duplicate(&self) -> (r: Self) {
        ExtensionServices {
            provides: self.provides.duplicate(),
            consumes: self.consumes.duplicate(),
        }
    }

    fn same(&self, other: &Self) -> (r: bool) {
        self.provides.same(&other.provides)
            && self.consumes.same(&other.consumes)
    }
}

impl Clone for ExtensionServices {
    fn clone(&self) -> (r: Self)
        ensures
            r.deep_view() == self.deep_view(),
    {
        self.duplicate()
    }
}

impl Default for ExtensionServices {
    fn default() -> (r: Self)
        ensures
            r@ == (ExtensionServicesModel {
                provides: Seq::empty(),
                consumes: Seq::empty(),
            }),
    {
        let value = ExtensionServices {
            provides: Vec::new(),
            consumes: Vec::new(),
        };
        assert(value.provides.deep_view() =~= Seq::empty());
        assert(value.consumes.deep_view() =~= Seq::empty());
        value
    }
}

#[derive(Debug, PartialEq, Eq)]
pub struct ExtensionToolOutputDefinition {
    pub tool_id: String,
    pub format: Option<String>,
    pub verbosity: Option<String>,
    pub language_mode: Option<String>,
    pub fields: Vec<String>,
    pub redactions: Vec<String>,
    pub include_policy: Option<bool>,
    pub include_cost: Option<bool>,
    pub include_diagnostics: Option<bool>,
}

/// What a [`ExtensionToolOutputDefinition`] holds.
pub struct ExtensionToolOutputDefinitionModel {
    pub tool_id: Seq<char>,
    pub format: Option<Seq<char>>,
    pub verbosity: Option<Seq<char>>,
    pub language_mode: Option<Seq<char>>,
    pub fields: Seq<Seq<char>>,
    pub redactions: Seq<Seq<char>>,
    pub include_policy: Option<bool>,
    pub include_cost: Option<bool>,
    pub include_diagnostics: Option<bool>,
}

impl DeepView for ExtensionToolOutputDefinition {
    type V = ExtensionToolOutputDefinitionModel;

    open spec fn deep_view(&self) -> ExtensionToolOutputDefinitionModel {
        ExtensionToolOutputDefinitionModel {
            tool_id: self.tool_id.deep_view(),
            format: self.format.deep_view(),
            verbosity: self.verbosity.deep_view(),
            language_mode: self.language_mode.deep_view(),
            fields: self.fields.deep_view(),
            redactions: self.redactions.deep_view(),
            include_policy: self.include_policy.deep_view(),
            include_cost: self.include_cost.deep_view(),
            include_diagnostics: self.include_diagnostics.deep_view(),
        }
    }
}

impl View for ExtensionToolOutputDefinition {
    type V = ExtensionToolOutputDefinitionModel;

    #[verifier::inline]
    open spec fn view(&self) -> ExtensionToolOutputDefinitionModel {
        self.deep_view()
    }
}

impl Record for ExtensionToolOutputDefinition {
    fn duplicate(&self) -> (r: Self) {
        ExtensionToolOutputDefinition {
            tool_id: self.tool_id.duplicate(),
            format: self.format.duplicate(),
            verbosity: self.verbosity.duplicate(),
            language_mode: self.language_mode.duplicate(),
            fields: self.fields.duplicate(),
            redactions: self.redactions.duplicate(),
            include_policy: self.include_policy.duplicate(),
            include_cost: self.include_cost.duplicate(),
            include_diagnostics: self.include_diagnostics.duplicate(),
        }
    }

    fn same(&self, other: &Self) -> (r: bool) {
        self.tool_id.same(&other.tool_id)
            && self.format.same(&other.format)
            && self.verbosity.same(&other.verbosity)
            && self.language_mode.same(&other.language_mode)
            && self.fields.same(&other.fields)
            && self.redactions.same(&other.redactions)
            && self.include_policy.same(&other.include_policy)
            && self.include_cost.same(&other.include_cost)
            && self.include_diagnostics.same(&other.include_diagnostics)
    }
}

impl Clone for ExtensionToolOutputDefinition {
    fn clone(&self) -> (r: Self)
        ensures
            r.deep_view() == self.deep_view(),
    {
        self.duplicate()
    }
}

impl Default for ExtensionToolOutputDefinition {
    fn default() -> (r: Self)
        ensures
            r@ == (ExtensionToolOutputDefinitionModel {
                tool_id: Seq::empty(),
                format: None,
                verbosity: None,
                language_mode: None,
                fields: Seq::empty(),
                redactions: Seq::empty(),
                include_policy: None,
                include_cost: None,
                include_diagnostics: None,
            }),
    {
        let value = ExtensionToolOutputDefinition {
            tool_id: String::new(),
            format: None,
            verbosity: None,
            language_mode: None,
            fields: Vec::new(),
            redactions: Vec::new(),
            include_policy: None,
            include_cost: None,
            include_diagnostics: None,
        };
        assert(value.tool_id.deep_view() =~= Seq::empty());
        assert(value.fields.deep_view() =~= Seq::empty());
        assert(value.redactions.deep_view() =~= Seq::empty());
        value
    }
}

#[derive(Debug, PartialEq, Eq)]
pub struct ExtensionHookDefinition {
    pub hook_id: String,
    pub trigger: Option<String>,
    pub verification: Option<String>,
    pub required_capabilities: Vec<String>,
    pub action: Option<String>,
    pub status: Option<String>,
}

/// What a [`ExtensionHookDefinition`] holds.
pub struct ExtensionHookDefinitionModel {
    pub hook_id: Seq<char>,
    pub trigger: Option<Seq<char>>,
    pub verification: Option<Seq<char>>,
    pub required_capabilities: Seq<Seq<char>>,
    pub action: Option<Seq<char>>,
    pub status: Option<Seq<char>>,
}

impl DeepView for ExtensionHookDefinition {
    type V = ExtensionHookDefinitionModel;

    open spec fn deep_view(&self) -> ExtensionHookDefinitionModel {
        ExtensionHookDefinitionModel {
            hook_id: self.hook_id.deep_view(),
            trigger: self.trigger.deep_view(),
            verification: self.verification.deep_view(),
            required_capabilities: self.required_capabilities.deep_view(),
            action: self.action.deep_view(),
            status: self.status.deep_view(),
        }
    }
}

impl View for ExtensionHookDefinition {
    type V = ExtensionHookDefinitionModel;

    #[verifier::inline]
    open spec fn view(&self) -> ExtensionHookDefinitionModel {
        self.deep_view()
    }
}

impl Record for ExtensionHookDefinition {
    fn duplicate(&self) -> (r: Self) {
        ExtensionHookDefinition {
            hook_id: self.hook_id.duplicate(),
            trigger: self.trigger.duplicate(),
            verification: self.verification.duplicate(),
            required_capabilities: self.required_capabilities.duplicate(),
            action: self.action.duplicate(),
            status: self.status.duplicate(),
        }
    }

    fn same(&self, other: &Self) -> (r: bool) {
        self.hook_id.same(&other.hook_id)
            && self.trigger.same(&other.trigger)
            && self.verification.same(&other.verification)
            && self.required_capabilities.same(&other.required_capabilities)
            && self.action.same(&other.action)
            && self.status.same(&other.status)
    }
}

impl Clone for ExtensionHookDefinition {
    fn clone(&self) -> (r: Self)
        ensures
            r.deep_view() == self.deep_view(),
    {
        self.duplicate()
    }
}

impl Default for ExtensionHookDefinition {
    fn default() -> (r: Self)
        ensures
            r@ == (ExtensionHookDefinitionModel {
                hook_id: Seq::empty(),
                trigger: None,
                verification: None,
                required_capabilities: Seq::empty(),
                action: None,
                status: None,
            }),
    {
        let value = ExtensionHookDefinition {
            hook_id: String::new(),
            trigger: None,
            verification: None,
            required_capabilities: Vec::new(),
            action: None,
            status: None,
        };
        assert(value.hook_id.deep_view() =~= Seq::empty());
        assert(value.required_capabilities.deep_view() =~= Seq::empty());
        value
    }
}

#[derive(Debug, PartialEq, Eq)]
pub struct ExtensionWebhookDefinition {
    pub webhook_id: String,
    pub source: Option<String>,
    pub event: Option<String>,
    pub endpoint: Option<String>,
    pub verification: Option<String>,
    pub required_capabilities: Vec<String>,
    pub status: Option<String>,
}

/// What a [`ExtensionWebhookDefinition`] holds.
pub struct ExtensionWebhookDefinitionModel {
    pub webhook_id: Seq<char>,
    pub source: Option<Seq<char>>,
    pub event: Option<Seq<char>>,
    pub endpoint: Option<Seq<char>>,
    pub verification: Option<Seq<char>>,
    pub required_capabilities: Seq<Seq<char>>,
    pub status: Option<Seq<char>>,
}

impl DeepView for ExtensionWebhookDefinition {
    type V = ExtensionWebhookDefinitionModel;

    open spec fn deep_view(&self) -> ExtensionWebhookDefinitionModel {
        ExtensionWebhookDefinitionModel {
            webhook_id: self.webhook_id.deep_view(),
            source: self.source.deep_view(),
            event: self.event.deep_view(),
            endpoint: self.endpoint.deep_view(),
            verification: self.verification.deep_view(),
            required_capabilities: self.required_capabilities.deep_view(),
            status: self.status.deep_view(),
        }
    }
}

impl View for ExtensionWebhookDefinition {
    type V = ExtensionWebhookDefinitionModel;

    #[verifier::inline]
    open spec fn view(&self) -> ExtensionWebhookDefinitionModel {
        self.deep_view()
    }
}

impl Record for ExtensionWebhookDefinition {
    fn duplicate(&self) -> (r: Self) {
        ExtensionWebhookDefinition {
            webhook_id: self.webhook_id.duplicate(),
            source: self.source.duplicate(),
            event: self.event.duplicate(),
            endpoint: self.endpoint.duplicate(),
            verification: self.verification.duplicate(),
            required_capabilities: self.required_capabilities.duplicate(),
            status: self.status.duplicate(),
        }
    }

    fn same(&self, other: &Self) -> (r: bool) {
        self.webhook_id.same(&other.webhook_id)
            && self.source.same(&other.source)
            && self.event.same(&other.event)
            && self.endpoint.same(&other.endpoint)
            && self.verification.same(&other.verification)
            && self.required_capabilities.same(&other.required_capabilities)
            && self.status.same(&other.status)
    }
}

impl Clone for ExtensionWebhookDefinition {
    fn clone(&self) -> (r: Self)
        ensures
            r.deep_view() == self.deep_view(),
    {
        self.duplicate()
    }
}

impl Default for ExtensionWebhookDefinition {
    fn default() -> (r: Self)
        ensures
            r@ == (ExtensionWebhookDefinitionModel {
                webhook_id: Seq::empty(),
                source: None,
                event: None,
                endpoint: None,
                verification: None,
                required_capabilities: Seq::empty(),
                status: None,
            }),
    {
        let value = ExtensionWebhookDefinition {
            webhook_id: String::new(),
            source: None,
            event: None,
            endpoint: None,
            verification: None,
            required_capabilities: Vec::new(),
            status: None,
        };
        assert(value.webhook_id.deep_view() =~= Seq::empty());
        assert(value.required_capabilities.deep_view() =~= Seq::empty());
        value
    }
}

#[derive(Debug, PartialEq, Eq)]
pub struct ExtensionCompositionAttachment {
    pub extension_id: String,
    pub required: Option<bool>,
}

/// What a [`ExtensionCompositionAttachment`] holds.
pub struct ExtensionCompositionAttachmentModel {
    pub extension_id: Seq<char>,
    pub required: Option<bool>,
}

impl DeepView for ExtensionCompositionAttachment {
    type V = ExtensionCompositionAttachmentModel;

    open spec fn deep_view(&self) -> ExtensionCompositionAttachmentModel {
        ExtensionCompositionAttachmentModel {
            extension_id: self.extension_id.deep_view(),
            required: self.required.deep_view(),
        }
    }
}

impl View for ExtensionCompositionAttachment {
    type V = ExtensionCompositionAttachmentModel;

    #[verifier::inline]
    open spec fn view(&self) -> ExtensionCompositionAttachmentModel {
        self.deep_view()
    }
}

impl Record for ExtensionCompositionAttachment {
    fn duplicate(&self) -> (r: Self) {
        ExtensionCompositionAttachment {
            extension_id: self.extension_id.duplicate(),
            required: self.required.duplicate(),
        }
    }

    fn same(&self, other: &Self) -> (r: bool) {
        self.extension_id.same(&other.extension_id)
            && self.required.same(&other.required)
    }
}

impl Clone for ExtensionCompositionAttachment {
    fn clone(&self) -> (r: Self)
        ensures
            r.deep_view() == self.deep_view(),
    {
        self.duplicate()
    }
}

impl Default for ExtensionCompositionAttachment {
    fn default() -> (r: Self)
        ensures
            r@ == (ExtensionCompositionAttachmentModel {
                extension_id: Seq::empty(),
                required: None,
            }),
    {
        let value = ExtensionCompositionAttachment {
            extension_id: String::new(),
            required: None,
        };
        assert(value.extension_id.deep_view() =~= Seq::empty());
        value
    }
}

#[derive(Debug, PartialEq, Eq)]
pub struct ExtensionComposition {
    pub attachments: Vec<ExtensionCompositionAttachment>,
}

/// What a [`ExtensionComposition`] holds.
pub struct ExtensionCompositionModel {
    pub attachments: Seq<ExtensionCompositionAttachmentModel>,
}

impl DeepView for ExtensionComposition {
    type V = ExtensionCompositionModel;

    open spec fn deep_view(&self) -> ExtensionCompositionModel {
        ExtensionCompositionModel {
            attachments: self.attachments.deep_view(),
        }
    }
}

impl View for ExtensionComposition {
    type V = ExtensionCompositionModel;

    #[verifier::inline]
    open spec fn view(&self) -> ExtensionCompositionModel {
        self.deep_view()
    }
}

impl Record for ExtensionComposition {
    fn duplicate(&self) -> (r: Self) {
        ExtensionComposition {
            attachments: self.attachments.duplicate(),
        }
    }

    fn same(&self, other: &Self) -> (r: bool) {
        self.attachments.same(&other.attachments)
    }
}

impl Clone for ExtensionComposition {
    fn clone(&self) -> (r: Self)
        ensures
            r.deep_view() == self.deep_view(),
    {
        self.duplicate()
    }
}

impl Default for ExtensionComposition {
    fn default() -> (r: Self)
        ensures
            r@ == (ExtensionCompositionModel {
                attachments: Seq::empty(),
            }),
    {
        let value = ExtensionComposition {
            attachments: Vec::new(),
        };
        assert(value.attachments.deep_view() =~= Seq::empty());
        value
    }
}

#[derive(Debug, PartialEq, Eq)]
pub struct ExtensionMigration {
    pub from: Vec<String>,
    pub notes: Option<String>,
}

/// What a [`ExtensionMigration`] holds.
pub struct ExtensionMigrationModel {
    pub from: Seq<Seq<char>>,
    pub notes: Option<Seq<char>>,
}

impl DeepView for ExtensionMigration {
    type V = ExtensionMigrationModel;

    open spec fn deep_view(&self) -> ExtensionMigrationModel {
        ExtensionMigrationModel {
            from: self.from.deep_view(),
            notes: self.notes.deep_view(),
        }
    }
}

impl View for ExtensionMigration {
    type V = ExtensionMigrationModel;

    #[verifier::inline]
    open spec fn view(&self) -> ExtensionMigrationModel {
        self.deep_view()
    }
}

impl Record for ExtensionMigration {
    fn duplicate(&self) -> (r: Self) {
        ExtensionMigration {
            from: self.from.duplicate(),
            notes: self.notes.duplicate(),
        }
    }

    fn same(&self, other: &Self) -> (r: bool) {
        self.from.same(&other.from)
            && self.notes.same(&other.notes)
    }
}

impl Clone for ExtensionMigration {
    fn clone(&self) -> (r: Self)
        ensures
            r.deep_view() == self.deep_view(),
    {
        self.duplicate()
    }
}

impl Default for ExtensionMigration {
    fn default() -> (r: Self)
        ensures
            r@ == (ExtensionMigrationModel {
                from: Seq::empty(),
                notes: None,
            }),
    {
        let value = ExtensionMigration {
            from: Vec::new(),
            notes: None,
        };
        assert(value.from.deep_view() =~= Seq::empty());
        value
    }
}

#[derive(Debug, Clone, Copy, PartialEq, Eq, Structural)]
pub enum DegradeBehavior {
    DisableExtension,
    DisableFeature,
    ReturnUnavailable,
    RequireHuman,
}

impl DeepView for DegradeBehavior {
    type V = DegradeBehavior;

    open spec fn deep_view(&self) -> DegradeBehavior {
        *self
    }
}

impl Record for DegradeBehavior {
    fn duplicate(&self) -> (r: Self) {
        *self
    }

    fn same(&self, other: &Self) -> (r: bool) {
        *self == *other
    }
}

#[derive(Debug, Clone, Copy, PartialEq, Eq, Structural)]
pub enum RetryPolicy {
    NoRetry,
    Bounded,
}

impl DeepView for RetryPolicy {
    type V = RetryPolicy;

    open spec fn deep_view(&self) -> RetryPolicy {
        *self
    }
}

impl Record for RetryPolicy {
    fn duplicate(&self) -> (r: Self) {
        *self
    }

    fn same(&self, other: &Self) -> (r: bool) {
        *self == *other
    }
}

#[derive(Debug, Clone, Copy, PartialEq, Eq, Structural)]
pub struct ExtensionFailure {
    pub degrade: DegradeBehavior,
    pub retry_policy: RetryPolicy,
}

impl DeepView for ExtensionFailure {
    type V = ExtensionFailure;

    open spec fn deep_view(&self) -> ExtensionFailure {
        *self
    }
}

impl Record for ExtensionFailure {
    fn duplicate(&self) -> (r: Self) {
        *self
    }

    fn same(&self, other: &Self) -> (r: bool) {
        *self == *other
    }
}

/// Relationship between a derived package and its lineage parent.
#[derive(Debug, Clone, Copy, PartialEq, Eq, Structural)]
pub enum ExtensionLineageRelationship {
    /// User-owned remix that remains tied to its parent package identity.
    Remix,
    /// Fork that preserves source ancestry while allowing independent evolution.
    Fork,
    /// Derived package with a looser provenance relationship to the parent.
    Derived,
}

impl DeepView for ExtensionLineageRelationship {
    type V = ExtensionLineageRelationship;

    open spec fn deep_view(&self) -> ExtensionLineageRelationship {
        *self
    }
}

impl Record for ExtensionLineageRelationship {
    fn duplicate(&self) -> (r: Self) {
        *self
    }

    fn same(&self, other: &Self) -> (r: bool) {
        *self == *other
    }
}

/// Lineage metadata for a package derived from another package.
#[derive(Debug, PartialEq, Eq)]
pub struct ExtensionLineage {
    /// Parent package id that the current package derives from.
    pub parent_id: String,
    /// Parent package version when the derivation target is versioned.
    pub parent_version: Option<String>,
    /// Parent manifest digest when the exact source manifest is known.
    pub parent_manifest_digest: Option<String>,
    /// Relationship between the current package and its parent.
    pub relationship: ExtensionLineageRelationship,
}

/// What a [`ExtensionLineage`] holds.
pub struct ExtensionLineageModel {
    pub parent_id: Seq<char>,
    pub parent_version: Option<Seq<char>>,
    pub parent_manifest_digest: Option<Seq<char>>,
    pub relationship: ExtensionLineageRelationship,
}

impl DeepView for ExtensionLineage {
    type V = ExtensionLineageModel;

    open spec fn deep_view(&self) -> ExtensionLineageModel {
        ExtensionLineageModel {
            parent_id: self.parent_id.deep_view(),
            parent_version: self.parent_version.deep_view(),
            parent_manifest_digest: self.parent_manifest_digest.deep_view(),
            relationship: self.relationship.deep_view(),
        }
    }
}

impl View for ExtensionLineage {
    type V = ExtensionLineageModel;

    #[verifier::inline]
    open spec fn view(&self) -> ExtensionLineageModel {
        self.deep_view()
    }
}

impl Record for ExtensionLineage {
    fn duplicate(&self) -> (r: Self) {
        ExtensionLineage {
            parent_id: self.parent_id.duplicate(),
            parent_version: self.parent_version.duplicate(),
            parent_manifest_digest: self.parent_manifest_digest.duplicate(),
            relationship: self.relationship.duplicate(),
        }
    }

    fn same(&self, other: &Self) -> (r: bool) {
        self.parent_id.same(&other.parent_id)
            && self.parent_version.same(&other.parent_version)
            && self.parent_manifest_digest.same(&other.parent_manifest_digest)
            && self.relationship.same(&other.relationship)
    }
}

impl Clone for ExtensionLineage {
    fn clone(&self) -> (r: Self)
        ensures
            r.deep_view() == self.deep_view(),
    {
        self.duplicate()
    }
}

/// Visibility state for a package publication.
#[derive(Debug, Clone, Copy, PartialEq, Eq, Structural)]
pub enum ExtensionPublicationVisibility {
    /// Private remix visible only inside the user's harness or workspace.
    PrivateRemix,
    /// Shared directly without public registry searchability.
    UnlistedShare,
    /// Publicly searchable through the registry subject to submission policy.
    PublicSearchable,
    /// Official publication controlled by host policy.
    Official,
}

impl DeepView for ExtensionPublicationVisibility {
    type V = ExtensionPublicationVisibility;

    open spec fn deep_view(&self) -> ExtensionPublicationVisibility {
        *self
    }
}

impl Record for ExtensionPublicationVisibility {
    fn duplicate(&self) -> (r: Self) {
        *self
    }

    fn same(&self, other: &Self) -> (r: bool) {
        *self == *other
    }
}

/// Registry submission state for package publication.
#[derive(Debug, Clone, Copy, PartialEq, Eq, Structural)]
pub enum ExtensionRegistrySubmission {
    /// Not submitted to a registry.
    NotSubmitted,
    /// Submitted and awaiting registry decision.
    Submitted,
    /// Accepted by registry policy.
    Accepted,
    /// Rejected by registry policy.
    Rejected,
}

impl DeepView for ExtensionRegistrySubmission {
    type V = ExtensionRegistrySubmission;

    open spec fn deep_view(&self) -> ExtensionRegistrySubmission {
        *self
    }
}

impl Record for ExtensionRegistrySubmission {
    fn duplicate(&self) -> (r: Self) {
        *self
    }

    fn same(&self, other: &Self) -> (r: bool) {
        *self == *other
    }
}

/// Publication metadata that describes registry visibility separately from source authority.
#[derive(Debug, Clone, Copy, PartialEq, Eq, Structural)]
pub struct ExtensionPublication {
    /// Current visibility state for discovery and sharing.
    pub visibility: ExtensionPublicationVisibility,
    /// Registry submission state for this package revision.
    pub registry_submission: ExtensionRegistrySubmission,
}

impl DeepView for ExtensionPublication {
    type V = ExtensionPublication;

    open spec fn deep_view(&self) -> ExtensionPublication {
        *self
    }
}

impl Record for ExtensionPublication {
    fn duplicate(&self) -> (r: Self) {
        *self
    }

    fn same(&self, other: &Self) -> (r: bool) {
        *self == *other
    }
}

#[derive(Debug, Clone, Copy, PartialEq, Eq, Structural)]
pub enum ProvenanceSource {
    Github,
    Registry,
    Local,
}

impl DeepView for ProvenanceSource {
    type V = ProvenanceSource;

    open spec fn deep_view(&self) -> ProvenanceSource {
        *self
    }
}

impl Record for ProvenanceSource {
    fn duplicate(&self) -> (r: Self) {
        *self
    }

    fn same(&self, other: &Self) -> (r: bool) {
        *self == *other
    }
}

#[derive(Debug, PartialEq, Eq)]
pub struct ExtensionProvenance {
    pub source: ProvenanceSource,
    pub repository: Option<String>,
    pub source_ref: Option<String>,
    pub manifest_path: Option<String>,
    pub commit: Option<String>,
    pub registry_identity: Option<String>,
    pub lineage: Option<ExtensionLineage>,
    pub publication: Option<ExtensionPublication>,
    pub artifact_digest: String,
    pub manifest_digest: String,
    pub signature: Option<String>,
    pub signer: Option<String>,
}

/// What a [`ExtensionProvenance`] holds.
pub struct ExtensionProvenanceModel {
    pub source: ProvenanceSource,
    pub repository: Option<Seq<char>>,
    pub source_ref: Option<Seq<char>>,
    pub manifest_path: Option<Seq<char>>,
    pub commit: Option<Seq<char>>,
    pub registry_identity: Option<Seq<char>>,
    pub lineage: Option<ExtensionLineageModel>,
    pub publication: Option<ExtensionPublication>,
    pub artifact_digest: Seq<char>,
    pub manifest_digest: Seq<char>,
    pub signature: Option<Seq<char>>,
    pub signer: Option<Seq<char>>,
}

impl DeepView for ExtensionProvenance {
    type V = ExtensionProvenanceModel;

    open spec fn deep_view(&self) -> ExtensionProvenanceModel {
        ExtensionProvenanceModel {
            source: self.source.deep_view(),
            repository: self.repository.deep_view(),
            source_ref: self.source_ref.deep_view(),
            manifest_path: self.manifest_path.deep_view(),
            commit: self.commit.deep_view(),
            registry_identity: self.registry_identity.deep_view(),
            lineage: self.lineage.deep_view(),
            publication: self.publication.deep_view(),
            artifact_digest: self.artifact_digest.deep_view(),
            manifest_digest: self.manifest_digest.deep_view(),
            signature: self.signature.deep_view(),
            signer: self.signer.deep_view(),
        }
    }
}

impl View for ExtensionProvenance {
    type V = ExtensionProvenanceModel;

    #[verifier::inline]
    open spec fn view(&self) -> ExtensionProvenanceModel {
        self.deep_view()
    }
}

impl Record for ExtensionProvenance {
    fn duplicate(&self) -> (r: Self) {
        ExtensionProvenance {
            source: self.source.duplicate(),
            repository: self.repository.duplicate(),
            source_ref: self.source_ref.duplicate(),
            manifest_path: self.manifest_path.duplicate(),
            commit: self.commit.duplicate(),
            registry_identity: self.registry_identity.duplicate(),
            lineage: self.lineage.duplicate(),
            publication: self.publication.duplicate(),
            artifact_digest: self.artifact_digest.duplicate(),
            manifest_digest: self.manifest_digest.duplicate(),
            signature: self.signature.duplicate(),
            signer: self.signer.duplicate(),
        }
    }

    fn same(&self, other: &Self) -> (r: bool) {
        self.source.same(&other.source)
            && self.repository.same(&other.repository)
            && self.source_ref.same(&other.source_ref)
            && self.manifest_path.same(&other.manifest_path)
            && self.commit.same(&other.commit)
            && self.registry_identity.same(&other.registry_identity)
            && self.lineage.same(&other.lineage)
            && self.publication.same(&other.publication)
            && self.artifact_digest.same(&other.artifact_digest)
            && self.manifest_digest.same(&other.manifest_digest)
            && self.signature.same(&other.signature)
            && self.signer.same(&other.signer)
    }
}

impl Clone for ExtensionProvenance {
    fn clone(&self) -> (r: Self)
        ensures
            r.deep_view() == self.deep_view(),
    {
        self.duplicate()
    }
}

#[derive(Debug, PartialEq, Eq)]
pub struct ExtensionBundleMembership {
    pub id: String,
    pub required: bool,
}

/// What a [`ExtensionBundleMembership`] holds.
pub struct ExtensionBundleMembershipModel {
    pub id: Seq<char>,
    pub required: bool,
}

impl DeepView for ExtensionBundleMembership {
    type V = ExtensionBundleMembershipModel;

    open spec fn deep_view(&self) -> ExtensionBundleMembershipModel {
        ExtensionBundleMembershipModel {
            id: self.id.deep_view(),
            required: self.required.deep_view(),
        }
    }
}

impl View for ExtensionBundleMembership {
    type V = ExtensionBundleMembershipModel;

    #[verifier::inline]
    open spec fn view(&self) -> ExtensionBundleMembershipModel {
        self.deep_view()
    }
}

impl Record for ExtensionBundleMembership {
    fn duplicate(&self) -> (r: Self) {
        ExtensionBundleMembership {
            id: self.id.duplicate(),
            required: self.required.duplicate(),
        }
    }

    fn same(&self, other: &Self) -> (r: bool) {
        self.id.same(&other.id)
            && self.required.same(&other.required)
    }
}

impl Clone for ExtensionBundleMembership {
    fn clone(&self) -> (r: Self)
        ensures
            r.deep_view() == self.deep_view(),
    {
        self.duplicate()
    }
}

#[derive(Debug, PartialEq, Eq)]
pub struct ExtensionManifest {
    pub schema: String,
    pub id: String,
    pub name: String,
    pub version: String,
    pub publisher: ExtensionPublisher,
    pub description: String,
    pub types: Vec<ExtensionKind>,
    pub compatibility: ExtensionCompatibility,
    pub entrypoints: ExtensionEntrypoints,
    pub permissions: TextMap<ExtensionPermission>,
    pub tools: Vec<ExtensionToolDefinition>,
    pub services: ExtensionServices,
    pub tool_output: Vec<ExtensionToolOutputDefinition>,
    pub hooks: Vec<ExtensionHookDefinition>,
    pub webhooks: Vec<ExtensionWebhookDefinition>,
    pub composition: ExtensionComposition,
    pub failure: ExtensionFailure,
    pub provenance: ExtensionProvenance,
    pub bundle: Option<ExtensionBundleMembership>,
    pub migration: ExtensionMigration,
}

/// What a [`ExtensionManifest`] holds.
pub struct ExtensionManifestModel {
    pub schema: Seq<char>,
    pub id: Seq<char>,
    pub name: Seq<char>,
    pub version: Seq<char>,
    pub publisher: ExtensionPublisherModel,
    pub description: Seq<char>,
    pub types: Seq<ExtensionKind>,
    pub compatibility: ExtensionCompatibilityModel,
    pub entrypoints: ExtensionEntrypointsModel,
    pub permissions: Seq<(Seq<char>, ExtensionPermissionModel)>,
    pub tools: Seq<ExtensionToolDefinitionModel>,
    pub services: ExtensionServicesModel,
    pub tool_output: Seq<ExtensionToolOutputDefinitionModel>,
    pub hooks: Seq<ExtensionHookDefinitionModel>,
    pub webhooks: Seq<ExtensionWebhookDefinitionModel>,
    pub composition: ExtensionCompositionModel,
    pub failure: ExtensionFailure,
    pub provenance: ExtensionProvenanceModel,
    pub bundle: Option<ExtensionBundleMembershipModel>,
    pub migration: ExtensionMigrationModel,
}

impl DeepView for ExtensionManifest {
    type V = ExtensionManifestModel;

    open spec fn deep_view(&self) -> ExtensionManifestModel {
        ExtensionManifestModel {
            schema: self.schema.deep_view(),
            id: self.id.deep_view(),
            name: self.name.deep_view(),
            version: self.version.deep_view(),
            publisher: self.publisher.deep_view(),
            description: self.description.deep_view(),
            types: self.types.deep_view(),
            compatibility: self.compatibility.deep_view(),
            entrypoints: self.entrypoints.deep_view(),
            permissions: self.permissions.deep_view(),
            tools: self.tools.deep_view(),
            services: self.services.deep_view(),
            tool_output: self.tool_output.deep_view(),
            hooks: self.hooks.deep_view(),
            webhooks: self.webhooks.deep_view(),
            composition: self.composition.deep_view(),
            failure: self.failure.deep_view(),
            provenance: self.provenance.deep_view(),
            bundle: self.bundle.deep_view(),
            migration: self.migration.deep_view(),
        }
    }
}

impl View for ExtensionManifest {
    type V = ExtensionManifestModel;

    #[verifier::inline]
    open spec fn view(&self) -> ExtensionManifestModel {
        self.deep_view()
    }
}

impl Record for ExtensionManifest {
    fn duplicate(&self) -> (r: Self) {
        ExtensionManifest {
            schema: self.schema.duplicate(),
            id: self.id.duplicate(),
            name: self.name.duplicate(),
            version: self.version.duplicate(),
            publisher: self.publisher.duplicate(),
            description: self.description.duplicate(),
            types: self.types.duplicate(),
            compatibility: self.compatibility.duplicate(),
            entrypoints: self.entrypoints.duplicate(),
            permissions: self.permissions.duplicate(),
            tools: self.tools.duplicate(),
            services: self.services.duplicate(),
            tool_output: self.tool_output.duplicate(),
            hooks: self.hooks.duplicate(),
            webhooks: self.webhooks.duplicate(),
            composition: self.composition.duplicate(),
            failure: self.failure.duplicate(),
            provenance: self.provenance.duplicate(),
            bundle: self.bundle.duplicate(),
            migration: self.migration.duplicate(),
        }
    }

    fn same(&self, other: &Self) -> (r: bool) {
        self.schema.same(&other.schema)
            && self.id.same(&other.id)
            && self.name.same(&other.name)
            && self.version.same(&other.version)
            && self.publisher.same(&other.publisher)
            && self.description.same(&other.description)
            && self.types.same(&other.types)
            && self.compatibility.same(&other.compatibility)
            && self.entrypoints.same(&other.entrypoints)
            && self.permissions.same(&other.permissions)
            && self.tools.same(&other.tools)
            && self.services.same(&other.services)
            && self.tool_output.same(&other.tool_output)
            && self.hooks.same(&other.hooks)
            && self.webhooks.same(&other.webhooks)
            && self.composition.same(&other.composition)
            && self.failure.same(&other.failure)
            && self.provenance.same(&other.provenance)
            && self.bundle.same(&other.bundle)
            && self.migration.same(&other.migration)
    }
}

impl Clone for ExtensionManifest {
    fn clone(&self) -> (r: Self)
        ensures
            r.deep_view() == self.deep_view(),
    {
        self.duplicate()
    }
}

impl ExtensionManifestModel {
    /// A manifest that says nothing.
    pub open spec fn blank() -> ExtensionManifestModel {
        ExtensionManifestModel {
            schema: Seq::empty(),
            id: Seq::empty(),
            name: Seq::empty(),
            version: Seq::empty(),
            publisher: ExtensionPublisherModel { name: Seq::empty(), url: None },
            description: Seq::empty(),
            types: Seq::empty(),
            compatibility: ExtensionCompatibilityModel {
                atelia_protocol: Seq::empty(),
                atelia_secretary: Seq::empty(),
            },
            entrypoints: ExtensionEntrypointsModel {
                realm: ExtensionRealm::Backend,
                runtime: ExtensionRuntime::WasmRust,
                command: None,
                image: None,
                wasm: None,
                protocol: Seq::empty(),
            },
            permissions: Seq::empty(),
            tools: Seq::empty(),
            services: ExtensionServicesModel { provides: Seq::empty(), consumes: Seq::empty() },
            tool_output: Seq::empty(),
            hooks: Seq::empty(),
            webhooks: Seq::empty(),
            composition: ExtensionCompositionModel { attachments: Seq::empty() },
            failure: ExtensionFailure {
                degrade: DegradeBehavior::ReturnUnavailable,
                retry_policy: RetryPolicy::NoRetry,
            },
            provenance: ExtensionProvenanceModel {
                source: ProvenanceSource::Local,
                repository: None,
                source_ref: None,
                manifest_path: None,
                commit: None,
                registry_identity: None,
                lineage: None,
                publication: None,
                artifact_digest: Seq::empty(),
                manifest_digest: Seq::empty(),
                signature: None,
                signer: None,
            },
            bundle: None,
            migration: ExtensionMigrationModel { from: Seq::empty(), notes: None },
        }
    }
}

impl Default for ExtensionManifest {
    fn default() -> (r: Self)
        ensures
            r@ == ExtensionManifestModel::blank(),
    {
        let manifest = ExtensionManifest {
            schema: String::new(),
            id: String::new(),
            name: String::new(),
            version: String::new(),
            publisher: ExtensionPublisher { name: String::new(), url: None },
            description: String::new(),
            types: Vec::new(),
            compatibility: ExtensionCompatibility {
                atelia_protocol: String::new(),
                atelia_secretary: String::new(),
            },
            entrypoints: ExtensionEntrypoints {
                realm: ExtensionRealm::Backend,
                runtime: ExtensionRuntime::WasmRust,
                command: None,
                image: None,
                wasm: None,
                protocol: String::new(),
            },
            permissions: TextMap::new(),
            tools: Vec::new(),
            services: ExtensionServices::default(),
            tool_output: Vec::new(),
            hooks: Vec::new(),
            webhooks: Vec::new(),
            composition: ExtensionComposition::default(),
            failure: ExtensionFailure {
                degrade: DegradeBehavior::ReturnUnavailable,
                retry_policy: RetryPolicy::NoRetry,
            },
            provenance: ExtensionProvenance {
                source: ProvenanceSource::Local,
                repository: None,
                source_ref: None,
                manifest_path: None,
                commit: None,
                registry_identity: None,
                lineage: None,
                publication: None,
                artifact_digest: String::new(),
                manifest_digest: String::new(),
                signature: None,
                signer: None,
            },
            bundle: None,
            migration: ExtensionMigration::default(),
        };
        proof {
            let blank = ExtensionManifestModel::blank();
            assert(manifest@.types =~= blank.types);
            assert(manifest@.tools =~= blank.tools);
            assert(manifest@.tool_output =~= blank.tool_output);
            assert(manifest@.hooks =~= blank.hooks);
            assert(manifest@.webhooks =~= blank.webhooks);
        }
        manifest
    }
}

/// On whose authority an extension runs.
#[derive(Debug, Clone, Copy, PartialEq, Eq, Structural)]
pub enum ExtensionBoundary {
    Official,
    ThirdParty,
    LocalDevelopment,
}

impl DeepView for ExtensionBoundary {
    type V = ExtensionBoundary;

    open spec fn deep_view(&self) -> ExtensionBoundary {
        *self
    }
}

impl Record for ExtensionBoundary {
    fn duplicate(&self) -> (r: Self) {
        *self
    }

    fn same(&self, other: &Self) -> (r: bool) {
        *self == *other
    }
}

impl ExtensionBoundary {
    /// The boundary as messages name it.
    pub open spec fn shown(self) -> Seq<char> {
        match self {
            ExtensionBoundary::Official => "Official"@,
            ExtensionBoundary::ThirdParty => "ThirdParty"@,
            ExtensionBoundary::LocalDevelopment => "LocalDevelopment"@,
        }
    }

    pub fn name(self) -> (r: &'static str)
        ensures
            r@ == self.shown(),
    {
        match self {
            ExtensionBoundary::Official => "Official",
            ExtensionBoundary::ThirdParty => "ThirdParty",
            ExtensionBoundary::LocalDevelopment => "LocalDevelopment",
        }
    }
}

#[derive(Debug, PartialEq, Eq)]
pub struct ValidatedExtensionManifest {
    pub manifest: ExtensionManifest,
    pub boundary: ExtensionBoundary,
}

/// What a [`ValidatedExtensionManifest`] holds.
pub struct ValidatedExtensionManifestModel {
    pub manifest: ExtensionManifestModel,
    pub boundary: ExtensionBoundary,
}

impl DeepView for ValidatedExtensionManifest {
    type V = ValidatedExtensionManifestModel;

    open spec fn deep_view(&self) -> ValidatedExtensionManifestModel {
        ValidatedExtensionManifestModel {
            manifest: self.manifest.deep_view(),
            boundary: self.boundary.deep_view(),
        }
    }
}

impl View for ValidatedExtensionManifest {
    type V = ValidatedExtensionManifestModel;

    #[verifier::inline]
    open spec fn view(&self) -> ValidatedExtensionManifestModel {
        self.deep_view()
    }
}

impl Record for ValidatedExtensionManifest {
    fn duplicate(&self) -> (r: Self) {
        ValidatedExtensionManifest {
            manifest: self.manifest.duplicate(),
            boundary: self.boundary.duplicate(),
        }
    }

    fn same(&self, other: &Self) -> (r: bool) {
        self.manifest.same(&other.manifest)
            && self.boundary.same(&other.boundary)
    }
}

impl Clone for ValidatedExtensionManifest {
    fn clone(&self) -> (r: Self)
        ensures
            r.deep_view() == self.deep_view(),
    {
        self.duplicate()
    }
}

/// What a host lets extensions do, and how it tells whose they are.
#[derive(Debug, PartialEq, Eq)]
pub struct ManifestValidationPolicy {
    pub allow_local_unsigned: bool,
    pub allow_local_process_runtime: bool,
    pub official_id_prefix: String,
    pub local_id_prefix: String,
    pub official_registry_identity: String,
}

/// What a [`ManifestValidationPolicy`] holds.
pub struct ManifestValidationPolicyModel {
    pub allow_local_unsigned: bool,
    pub allow_local_process_runtime: bool,
    pub official_id_prefix: Seq<char>,
    pub local_id_prefix: Seq<char>,
    pub official_registry_identity: Seq<char>,
}

impl DeepView for ManifestValidationPolicy {
    type V = ManifestValidationPolicyModel;

    open spec fn deep_view(&self) -> ManifestValidationPolicyModel {
        ManifestValidationPolicyModel {
            allow_local_unsigned: self.allow_local_unsigned.deep_view(),
            allow_local_process_runtime: self.allow_local_process_runtime.deep_view(),
            official_id_prefix: self.official_id_prefix.deep_view(),
            local_id_prefix: self.local_id_prefix.deep_view(),
            official_registry_identity: self.official_registry_identity.deep_view(),
        }
    }
}

impl View for ManifestValidationPolicy {
    type V = ManifestValidationPolicyModel;

    #[verifier::inline]
    open spec fn view(&self) -> ManifestValidationPolicyModel {
        self.deep_view()
    }
}

impl Record for ManifestValidationPolicy {
    fn duplicate(&self) -> (r: Self) {
        ManifestValidationPolicy {
            allow_local_unsigned: self.allow_local_unsigned.duplicate(),
            allow_local_process_runtime: self.allow_local_process_runtime.duplicate(),
            official_id_prefix: self.official_id_prefix.duplicate(),
            local_id_prefix: self.local_id_prefix.duplicate(),
            official_registry_identity: self.official_registry_identity.duplicate(),
        }
    }

    fn same(&self, other: &Self) -> (r: bool) {
        self.allow_local_unsigned.same(&other.allow_local_unsigned)
            && self.allow_local_process_runtime.same(&other.allow_local_process_runtime)
            && self.official_id_prefix.same(&other.official_id_prefix)
            && self.local_id_prefix.same(&other.local_id_prefix)
            && self.official_registry_identity.same(&other.official_registry_identity)
    }
}

impl Clone for ManifestValidationPolicy {
    fn clone(&self) -> (r: Self)
        ensures
            r.deep_view() == self.deep_view(),
    {
        self.duplicate()
    }
}

impl ManifestValidationPolicyModel {
    pub open spec fn standard() -> ManifestValidationPolicyModel {
        ManifestValidationPolicyModel {
            allow_local_unsigned: false,
            allow_local_process_runtime: false,
            official_id_prefix: "ai.atelia."@,
            local_id_prefix: "local."@,
            official_registry_identity: "atelia-official"@,
        }
    }
}

impl ManifestValidationPolicy {
    pub fn with_local_unsigned(self) -> (r: Self)
        ensures
            r@ == (ManifestValidationPolicyModel { allow_local_unsigned: true, ..self@ }),
    {
        let mut policy = self;
        policy.allow_local_unsigned = true;
        policy
    }

    pub fn with_local_process_runtime(self) -> (r: Self)
        ensures
            r@ == (ManifestValidationPolicyModel { allow_local_process_runtime: true, ..self@ }),
    {
        let mut policy = self;
        policy.allow_local_process_runtime = true;
        policy
    }
}

impl Default for ManifestValidationPolicy {
    fn default() -> (r: Self)
        ensures
            r@ == ManifestValidationPolicyModel::standard(),
    {
        ManifestValidationPolicy {
            allow_local_unsigned: false,
            allow_local_process_runtime: false,
            official_id_prefix: "ai.atelia.".to_owned(),
            local_id_prefix: "local.".to_owned(),
            official_registry_identity: "atelia-official".to_owned(),
        }
    }
}

#[derive(Debug, PartialEq, Eq)]
pub enum ExtensionValidationError {
    InvalidSchema { expected: &'static str, found: String },
    MissingField { field: &'static str },
    InvalidField { field: &'static str, reason: String },
    UnsupportedRuntime { runtime: ExtensionRuntime, reason: String },
    ProvenanceRequired { field: &'static str, reason: String },
    BoundaryViolation { reason: String },
    DuplicateServiceDeclaration { service: String, method: String, schema_version: String },
    MissingServicePermission { service: String, method: String, permission: String },
    MissingToolPermission { tool: String, permission: String },
    DuplicateToolDeclaration { tool: String },
    DuplicateToolOutputDeclaration { tool_id: String },
    DuplicateHookDeclaration { hook_id: String },
    DuplicateWebhookDeclaration { webhook_id: String },
}

/// What a [`ExtensionValidationError`] holds.
pub enum ExtensionValidationErrorModel {
    InvalidSchema { expected: Seq<char>, found: Seq<char> },
    MissingField { field: Seq<char> },
    InvalidField { field: Seq<char>, reason: Seq<char> },
    UnsupportedRuntime { runtime: ExtensionRuntime, reason: Seq<char> },
    ProvenanceRequired { field: Seq<char>, reason: Seq<char> },
    BoundaryViolation { reason: Seq<char> },
    DuplicateServiceDeclaration { service: Seq<char>, method: Seq<char>, schema_version: Seq<char> },
    MissingServicePermission { service: Seq<char>, method: Seq<char>, permission: Seq<char> },
    MissingToolPermission { tool: Seq<char>, permission: Seq<char> },
    DuplicateToolDeclaration { tool: Seq<char> },
    DuplicateToolOutputDeclaration { tool_id: Seq<char> },
    DuplicateHookDeclaration { hook_id: Seq<char> },
    DuplicateWebhookDeclaration { webhook_id: Seq<char> },
}

impl DeepView for ExtensionValidationError {
    type V = ExtensionValidationErrorModel;

    open spec fn deep_view(&self) -> ExtensionValidationErrorModel {
        match self {
            ExtensionValidationError::InvalidSchema { expected, found } => {
                ExtensionValidationErrorModel::InvalidSchema {
                    expected: expected.deep_view(),
                    found: found.deep_view(),
                }
            },
            ExtensionValidationError::MissingField { field } => {
                ExtensionValidationErrorModel::MissingField { field: field.deep_view() }
            },
            ExtensionValidationError::InvalidField { field, reason } => {
                ExtensionValidationErrorModel::InvalidField {
                    field: field.deep_view(),
                    reason: reason.deep_view(),
                }
            },
            ExtensionValidationError::UnsupportedRuntime { runtime, reason } => {
                ExtensionValidationErrorModel::UnsupportedRuntime {
                    runtime: runtime.deep_view(),
                    reason: reason.deep_view(),
                }
            },
            ExtensionValidationError::ProvenanceRequired { field, reason } => {
                ExtensionValidationErrorModel::ProvenanceRequired {
                    field: field.deep_view(),
                    reason: reason.deep_view(),
                }
            },
            ExtensionValidationError::BoundaryViolation { reason } => {
                ExtensionValidationErrorModel::BoundaryViolation { reason: reason.deep_view() }
            },
            ExtensionValidationError::DuplicateServiceDeclaration {
                service,
                method,
                schema_version,
            } => ExtensionValidationErrorModel::DuplicateServiceDeclaration {
                service: service.deep_view(),
                method: method.deep_view(),
                schema_version: schema_version.deep_view(),
            },
            ExtensionValidationError::MissingServicePermission { service, method, permission } => {
                ExtensionValidationErrorModel::MissingServicePermission {
                    service: service.deep_view(),
                    method: method.deep_view(),
                    permission: permission.deep_view(),
                }
            },
            ExtensionValidationError::MissingToolPermission { tool, permission } => {
                ExtensionValidationErrorModel::MissingToolPermission {
                    tool: tool.deep_view(),
                    permission: permission.deep_view(),
                }
            },
            ExtensionValidationError::DuplicateToolDeclaration { tool } => {
                ExtensionValidationErrorModel::DuplicateToolDeclaration { tool: tool.deep_view() }
            },
            ExtensionValidationError::DuplicateToolOutputDeclaration { tool_id } => {
                ExtensionValidationErrorModel::DuplicateToolOutputDeclaration {
                    tool_id: tool_id.deep_view(),
                }
            },
            ExtensionValidationError::DuplicateHookDeclaration { hook_id } => {
                ExtensionValidationErrorModel::DuplicateHookDeclaration {
                    hook_id: hook_id.deep_view(),
                }
            },
            ExtensionValidationError::DuplicateWebhookDeclaration { webhook_id } => {
                ExtensionValidationErrorModel::DuplicateWebhookDeclaration {
                    webhook_id: webhook_id.deep_view(),
                }
            },
        }
    }
}

impl View for ExtensionValidationError {
    type V = ExtensionValidationErrorModel;

    #[verifier::inline]
    open spec fn view(&self) -> ExtensionValidationErrorModel {
        self.deep_view()
    }
}

impl Record for ExtensionValidationError {
    fn duplicate(&self) -> (r: Self) {
        match self {
            ExtensionValidationError::InvalidSchema { expected, found } => {
                ExtensionValidationError::InvalidSchema {
                    expected: expected.duplicate(),
                    found: found.duplicate(),
                }
            },
            ExtensionValidationError::MissingField { field } => {
                ExtensionValidationError::MissingField { field: field.duplicate() }
            },
            ExtensionValidationError::InvalidField { field, reason } => {
                ExtensionValidationError::InvalidField {
                    field: field.duplicate(),
                    reason: reason.duplicate(),
                }
            },
            ExtensionValidationError::UnsupportedRuntime { runtime, reason } => {
                ExtensionValidationError::UnsupportedRuntime {
                    runtime: runtime.duplicate(),
                    reason: reason.duplicate(),
                }
            },
            ExtensionValidationError::ProvenanceRequired { field, reason } => {
                ExtensionValidationError::ProvenanceRequired {
                    field: field.duplicate(),
                    reason: reason.duplicate(),
                }
            },
            ExtensionValidationError::BoundaryViolation { reason } => {
                ExtensionValidationError::BoundaryViolation { reason: reason.duplicate() }
            },
            ExtensionValidationError::DuplicateServiceDeclaration {
                service,
                method,
                schema_version,
            } => ExtensionValidationError::DuplicateServiceDeclaration {
                service: service.duplicate(),
                method: method.duplicate(),
                schema_version: schema_version.duplicate(),
            },
            ExtensionValidationError::MissingServicePermission { service, method, permission } => {
                ExtensionValidationError::MissingServicePermission {
                    service: service.duplicate(),
                    method: method.duplicate(),
                    permission: permission.duplicate(),
                }
            },
            ExtensionValidationError::MissingToolPermission { tool, permission } => {
                ExtensionValidationError::MissingToolPermission {
                    tool: tool.duplicate(),
                    permission: permission.duplicate(),
                }
            },
            ExtensionValidationError::DuplicateToolDeclaration { tool } => {
                ExtensionValidationError::DuplicateToolDeclaration { tool: tool.duplicate() }
            },
            ExtensionValidationError::DuplicateToolOutputDeclaration { tool_id } => {
                ExtensionValidationError::DuplicateToolOutputDeclaration {
                    tool_id: tool_id.duplicate(),
                }
            },
            ExtensionValidationError::DuplicateHookDeclaration { hook_id } => {
                ExtensionValidationError::DuplicateHookDeclaration { hook_id: hook_id.duplicate() }
            },
            ExtensionValidationError::DuplicateWebhookDeclaration { webhook_id } => {
                ExtensionValidationError::DuplicateWebhookDeclaration {
                    webhook_id: webhook_id.duplicate(),
                }
            },
        }
    }

    fn same(&self, other: &Self) -> (r: bool) {
        match (self, other) {
            (
                ExtensionValidationError::InvalidSchema { expected: expected_a, found: found_a },
                ExtensionValidationError::InvalidSchema { expected: expected_b, found: found_b },
            ) => expected_a.same(expected_b) && found_a.same(found_b),
            (
                ExtensionValidationError::MissingField { field: field_a },
                ExtensionValidationError::MissingField { field: field_b },
            ) => field_a.same(field_b),
            (
                ExtensionValidationError::InvalidField { field: field_a, reason: reason_a },
                ExtensionValidationError::InvalidField { field: field_b, reason: reason_b },
            ) => field_a.same(field_b) && reason_a.same(reason_b),
            (
                ExtensionValidationError::UnsupportedRuntime {
                    runtime: runtime_a,
                    reason: reason_a,
                },
                ExtensionValidationError::UnsupportedRuntime {
                    runtime: runtime_b,
                    reason: reason_b,
                },
            ) => runtime_a.same(runtime_b) && reason_a.same(reason_b),
            (
                ExtensionValidationError::ProvenanceRequired { field: field_a, reason: reason_a },
                ExtensionValidationError::ProvenanceRequired { field: field_b, reason: reason_b },
            ) => field_a.same(field_b) && reason_a.same(reason_b),
            (
                ExtensionValidationError::BoundaryViolation { reason: reason_a },
                ExtensionValidationError::BoundaryViolation { reason: reason_b },
            ) => reason_a.same(reason_b),
            (
                ExtensionValidationError::DuplicateServiceDeclaration {
                    service: service_a,
                    method: method_a,
                    schema_version: schema_version_a,
                },
                ExtensionValidationError::DuplicateServiceDeclaration {
                    service: service_b,
                    method: method_b,
                    schema_version: schema_version_b,
                },
            ) => {
                service_a.same(service_b)
                    && method_a.same(method_b)
                    && schema_version_a.same(schema_version_b)
            },
            (
                ExtensionValidationError::MissingServicePermission {
                    service: service_a,
                    method: method_a,
                    permission: permission_a,
                },
                ExtensionValidationError::MissingServicePermission {
                    service: service_b,
                    method: method_b,
                    permission: permission_b,
                },
            ) => {
                service_a.same(service_b)
                    && method_a.same(method_b)
                    && permission_a.same(permission_b)
            },
            (
                ExtensionValidationError::MissingToolPermission {
                    tool: tool_a,
                    permission: permission_a,
                },
                ExtensionValidationError::MissingToolPermission {
                    tool: tool_b,
                    permission: permission_b,
                },
            ) => tool_a.same(tool_b) && permission_a.same(permission_b),
            (
                ExtensionValidationError::DuplicateToolDeclaration { tool: tool_a },
                ExtensionValidationError::DuplicateToolDeclaration { tool: tool_b },
            ) => tool_a.same(tool_b),
            (
                ExtensionValidationError::DuplicateToolOutputDeclaration { tool_id: tool_id_a },
                ExtensionValidationError::DuplicateToolOutputDeclaration { tool_id: tool_id_b },
            ) => tool_id_a.same(tool_id_b),
            (
                ExtensionValidationError::DuplicateHookDeclaration { hook_id: hook_id_a },
                ExtensionValidationError::DuplicateHookDeclaration { hook_id: hook_id_b },
            ) => hook_id_a.same(hook_id_b),
            (
                ExtensionValidationError::DuplicateWebhookDeclaration { webhook_id: webhook_id_a },
                ExtensionValidationError::DuplicateWebhookDeclaration { webhook_id: webhook_id_b },
            ) => webhook_id_a.same(webhook_id_b),
            _ => false,
        }
    }
}

impl Clone for ExtensionValidationError {
    fn clone(&self) -> (r: Self)
        ensures
            r.deep_view() == self.deep_view(),
    {
        self.duplicate()
    }
}

pub type ExtensionValidationResult<T> = Result<T, ExtensionValidationError>;

impl ExtensionValidationErrorModel {
    /// The error as a sentence.
    pub open spec fn message(self) -> Seq<char> {
        match self {
            ExtensionValidationErrorModel::InvalidSchema { expected, found } =>
                "extension manifest schema must be "@ + expected + ", found "@ + found,
            ExtensionValidationErrorModel::MissingField { field } => "extension manifest field "@
                + field + " is required"@,
            ExtensionValidationErrorModel::InvalidField { field, reason } =>
                "extension manifest field "@ + field + " is invalid: "@ + reason,
            ExtensionValidationErrorModel::UnsupportedRuntime { runtime, reason } =>
                "extension runtime "@ + runtime.shown() + " is not supported: "@ + reason,
            ExtensionValidationErrorModel::ProvenanceRequired { field, reason } =>
                "extension provenance field "@ + field + " is required: "@ + reason,
            ExtensionValidationErrorModel::BoundaryViolation { reason } =>
                "extension boundary violation: "@ + reason,
            ExtensionValidationErrorModel::DuplicateServiceDeclaration {
                service,
                method,
                schema_version,
            } => "duplicate service declaration "@ + service + "."@ + method + " schema "@
                + schema_version,
            ExtensionValidationErrorModel::MissingServicePermission {
                service,
                method,
                permission,
            } => "service "@ + service + "."@ + method + " requires undeclared permission "@
                + permission,
            ExtensionValidationErrorModel::MissingToolPermission { tool, permission } => "tool "@
                + tool + " requires undeclared permission "@ + permission,
            ExtensionValidationErrorModel::DuplicateToolDeclaration { tool } =>
                "duplicate tool declaration "@ + tool,
            ExtensionValidationErrorModel::DuplicateToolOutputDeclaration { tool_id } =>
                "duplicate tool output declaration "@ + tool_id,
            ExtensionValidationErrorModel::DuplicateHookDeclaration { hook_id } =>
                "duplicate hook declaration "@ + hook_id,
            ExtensionValidationErrorModel::DuplicateWebhookDeclaration { webhook_id } =>
                "duplicate webhook declaration "@ + webhook_id,
        }
    }
}

impl ExtensionValidationError {
    /// The error as a sentence.
    pub fn to_text(&self) -> (r: String)
        ensures
            r@ == self@.message(),
    {
        match self {
            ExtensionValidationError::InvalidSchema { expected, found } =>
                "extension manifest schema must be ".to_owned().concat(*expected).concat(
                ", found ",
            ).concat(found.as_str()),
            ExtensionValidationError::MissingField { field } =>
                "extension manifest field ".to_owned().concat(*field).concat(" is required"),
            ExtensionValidationError::InvalidField { field, reason } =>
                "extension manifest field ".to_owned().concat(*field).concat(
                " is invalid: ",
            ).concat(reason.as_str()),
            ExtensionValidationError::UnsupportedRuntime { runtime, reason } =>
                "extension runtime ".to_owned().concat((*runtime).name()).concat(
                " is not supported: ",
            ).concat(reason.as_str()),
            ExtensionValidationError::ProvenanceRequired { field, reason } =>
                "extension provenance field ".to_owned().concat(*field).concat(
                " is required: ",
            ).concat(reason.as_str()),
            ExtensionValidationError::BoundaryViolation { reason } =>
                "extension boundary violation: ".to_owned().concat(reason.as_str()),
            ExtensionValidationError::DuplicateServiceDeclaration {
                service,
                method,
                schema_version,
            } => "duplicate service declaration ".to_owned().concat(service.as_str()).concat(
                ".",
            ).concat(method.as_str()).concat(" schema ").concat(schema_version.as_str()),
            ExtensionValidationError::MissingServicePermission { service, method, permission } =>
                "service ".to_owned().concat(service.as_str()).concat(".").concat(
                method.as_str(),
            ).concat(" requires undeclared permission ").concat(permission.as_str()),
            ExtensionValidationError::MissingToolPermission { tool, permission } =>
                "tool ".to_owned().concat(tool.as_str()).concat(
                " requires undeclared permission ",
            ).concat(permission.as_str()),
            ExtensionValidationError::DuplicateToolDeclaration { tool } =>
                "duplicate tool declaration ".to_owned().concat(tool.as_str()),
            ExtensionValidationError::DuplicateToolOutputDeclaration { tool_id } =>
                "duplicate tool output declaration ".to_owned().concat(tool_id.as_str()),
            ExtensionValidationError::DuplicateHookDeclaration { hook_id } =>
                "duplicate hook declaration ".to_owned().concat(hook_id.as_str()),
            ExtensionValidationError::DuplicateWebhookDeclaration { webhook_id } =>
                "duplicate webhook declaration ".to_owned().concat(webhook_id.as_str()),
        }
    }
}

} // verus!

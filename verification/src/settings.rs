//! Configurable defaults for agent-facing tool output.
//!
//! These types keep rarely changed knobs out of individual tool call schemas while still
//! giving the runtime a validated, auditable settings surface.
use vstd::prelude::*;

use crate::checks;
use crate::checks::Objection;
use crate::domain::{Actor, ActorModel, LedgerTimestamp};
use crate::ids::{ProjectId, RepositoryId};
use crate::record::Record;
use crate::text::{blank, decimal_text, quoted};
use crate::tool_output::{OutputFormat, RenderOptions, ToolOutputRenderPolicy};

verus! {

pub const TOOL_OUTPUT_SETTINGS_SCHEMA_VERSION: u32 = 1;

pub const DEFAULT_MAX_INLINE_BYTES: u64 = 16 * 1024;

pub const MIN_MAX_INLINE_BYTES: u64 = 256;

pub const MAX_MAX_INLINE_BYTES: u64 = 1024 * 1024;

pub const DEFAULT_MAX_INLINE_LINES: u32 = 200;

pub const MIN_MAX_INLINE_LINES: u32 = 1;

pub const MAX_MAX_INLINE_LINES: u32 = 10_000;

#[derive(Debug, PartialEq, Eq)]
pub enum ToolOutputSettingsLevel {
    Workspace,
    Repository { repository_id: RepositoryId },
    Project { project_id: ProjectId },
    Session { session_id: String },
    AgentProfile { agent_id: String },
}

/// What a [`ToolOutputSettingsLevel`] holds.
pub enum ToolOutputSettingsLevelModel {
    Workspace,
    Repository { repository_id: Seq<char> },
    Project { project_id: Seq<char> },
    Session { session_id: Seq<char> },
    AgentProfile { agent_id: Seq<char> },
}

impl DeepView for ToolOutputSettingsLevel {
    type V = ToolOutputSettingsLevelModel;

    open spec fn deep_view(&self) -> ToolOutputSettingsLevelModel {
        match self {
            ToolOutputSettingsLevel::Workspace => ToolOutputSettingsLevelModel::Workspace,
            ToolOutputSettingsLevel::Repository { repository_id } => {
                ToolOutputSettingsLevelModel::Repository {
                    repository_id: repository_id.deep_view(),
                }
            },
            ToolOutputSettingsLevel::Project { project_id } => {
                ToolOutputSettingsLevelModel::Project { project_id: project_id.deep_view() }
            },
            ToolOutputSettingsLevel::Session { session_id } => {
                ToolOutputSettingsLevelModel::Session { session_id: session_id.deep_view() }
            },
            ToolOutputSettingsLevel::AgentProfile { agent_id } => {
                ToolOutputSettingsLevelModel::AgentProfile { agent_id: agent_id.deep_view() }
            },
        }
    }
}

impl View for ToolOutputSettingsLevel {
    type V = ToolOutputSettingsLevelModel;

    #[verifier::inline]
    open spec fn view(&self) -> ToolOutputSettingsLevelModel {
        self.deep_view()
    }
}

impl Record for ToolOutputSettingsLevel {
    fn duplicate(&self) -> (r: Self) {
        match self {
            ToolOutputSettingsLevel::Workspace => ToolOutputSettingsLevel::Workspace,
            ToolOutputSettingsLevel::Repository { repository_id } => {
                ToolOutputSettingsLevel::Repository { repository_id: repository_id.duplicate() }
            },
            ToolOutputSettingsLevel::Project { project_id } => ToolOutputSettingsLevel::Project {
                project_id: project_id.duplicate(),
            },
            ToolOutputSettingsLevel::Session { session_id } => ToolOutputSettingsLevel::Session {
                session_id: session_id.duplicate(),
            },
            ToolOutputSettingsLevel::AgentProfile { agent_id } => {
                ToolOutputSettingsLevel::AgentProfile { agent_id: agent_id.duplicate() }
            },
        }
    }

    fn same(&self, other: &Self) -> (r: bool) {
        match (self, other) {
            (ToolOutputSettingsLevel::Workspace, ToolOutputSettingsLevel::Workspace) => true,
            (
                ToolOutputSettingsLevel::Repository { repository_id: repository_id_a },
                ToolOutputSettingsLevel::Repository { repository_id: repository_id_b },
            ) => repository_id_a.same(repository_id_b),
            (
                ToolOutputSettingsLevel::Project { project_id: project_id_a },
                ToolOutputSettingsLevel::Project { project_id: project_id_b },
            ) => project_id_a.same(project_id_b),
            (
                ToolOutputSettingsLevel::Session { session_id: session_id_a },
                ToolOutputSettingsLevel::Session { session_id: session_id_b },
            ) => session_id_a.same(session_id_b),
            (
                ToolOutputSettingsLevel::AgentProfile { agent_id: agent_id_a },
                ToolOutputSettingsLevel::AgentProfile { agent_id: agent_id_b },
            ) => agent_id_a.same(agent_id_b),
            _ => false,
        }
    }
}

impl Clone for ToolOutputSettingsLevel {
    fn clone(&self) -> (r: Self)
        ensures
            r.deep_view() == self.deep_view(),
    {
        self.duplicate()
    }
}

impl ToolOutputSettingsLevelModel {
    /// The level as messages show it.
    pub open spec fn shown(self) -> Seq<char> {
        match self {
            ToolOutputSettingsLevelModel::Workspace => "Workspace"@,
            ToolOutputSettingsLevelModel::Repository { repository_id } =>
                "Repository { repository_id: "@ + RepositoryId::debug_form(repository_id) + " }"@,
            ToolOutputSettingsLevelModel::Project { project_id } => "Project { project_id: "@
                + ProjectId::debug_form(project_id) + " }"@,
            ToolOutputSettingsLevelModel::Session { session_id } => "Session { session_id: "@
                + crate::text::quoted_form(session_id) + " }"@,
            ToolOutputSettingsLevelModel::AgentProfile { agent_id } =>
                "AgentProfile { agent_id: "@ + crate::text::quoted_form(agent_id) + " }"@,
        }
    }
}

impl ToolOutputSettingsLevel {
    /// The level as messages show it.
    pub fn to_text(&self) -> (r: String)
        ensures
            r@ == self@.shown(),
    {
        match self {
            ToolOutputSettingsLevel::Workspace => "Workspace".to_owned(),
            ToolOutputSettingsLevel::Repository { repository_id } =>
                "Repository { repository_id: ".to_owned().concat(
                repository_id.debug_text().as_str(),
            ).concat(" }"),
            ToolOutputSettingsLevel::Project { project_id } =>
                "Project { project_id: ".to_owned().concat(
                project_id.debug_text().as_str(),
            ).concat(" }"),
            ToolOutputSettingsLevel::Session { session_id } =>
                "Session { session_id: ".to_owned().concat(
                quoted(session_id.as_str()).as_str(),
            ).concat(" }"),
            ToolOutputSettingsLevel::AgentProfile { agent_id } =>
                "AgentProfile { agent_id: ".to_owned().concat(
                quoted(agent_id.as_str()).as_str(),
            ).concat(" }"),
        }
    }
}

/// What settings are for: a level, and there all tools or a single one.
#[derive(Debug, PartialEq, Eq)]
pub struct ToolOutputSettingsScope {
    pub level: ToolOutputSettingsLevel,
    pub tool_id: Option<String>,
}

/// What a [`ToolOutputSettingsScope`] holds.
pub struct ToolOutputSettingsScopeModel {
    pub level: ToolOutputSettingsLevelModel,
    pub tool_id: Option<Seq<char>>,
}

impl DeepView for ToolOutputSettingsScope {
    type V = ToolOutputSettingsScopeModel;

    open spec fn deep_view(&self) -> ToolOutputSettingsScopeModel {
        ToolOutputSettingsScopeModel {
            level: self.level.deep_view(),
            tool_id: self.tool_id.deep_view(),
        }
    }
}

impl View for ToolOutputSettingsScope {
    type V = ToolOutputSettingsScopeModel;

    #[verifier::inline]
    open spec fn view(&self) -> ToolOutputSettingsScopeModel {
        self.deep_view()
    }
}

impl Record for ToolOutputSettingsScope {
    fn duplicate(&self) -> (r: Self) {
        ToolOutputSettingsScope {
            level: self.level.duplicate(),
            tool_id: self.tool_id.duplicate(),
        }
    }

    fn same(&self, other: &Self) -> (r: bool) {
        self.level.same(&other.level)
            && self.tool_id.same(&other.tool_id)
    }
}

impl Clone for ToolOutputSettingsScope {
    fn clone(&self) -> (r: Self)
        ensures
            r.deep_view() == self.deep_view(),
    {
        self.duplicate()
    }
}

impl ToolOutputSettingsScopeModel {
    /// All tools at a level.
    pub open spec fn at(level: ToolOutputSettingsLevelModel) -> ToolOutputSettingsScopeModel {
        ToolOutputSettingsScopeModel { level, tool_id: None }
    }

    pub open spec fn whole_workspace() -> ToolOutputSettingsScopeModel {
        ToolOutputSettingsScopeModel::at(ToolOutputSettingsLevelModel::Workspace)
    }

    /// The scope as messages show it.
    pub open spec fn shown(self) -> Seq<char> {
        "ToolOutputSettingsScope { level: "@ + self.level.shown() + ", tool_id: "@ + (
        match self.tool_id {
            Some(tool_id) => "Some("@ + crate::text::quoted_form(tool_id) + ")"@,
            None => "None"@,
        }) + " }"@
    }
}

impl ToolOutputSettingsScope {
    pub fn workspace() -> (r: Self)
        ensures
            r@ == ToolOutputSettingsScopeModel::whole_workspace(),
    {
        ToolOutputSettingsScope { level: ToolOutputSettingsLevel::Workspace, tool_id: None }
    }

    pub fn repository(repository_id: RepositoryId) -> (r: Self)
        ensures
            r@ == ToolOutputSettingsScopeModel::at(
                ToolOutputSettingsLevelModel::Repository { repository_id: repository_id@ },
            ),
    {
        ToolOutputSettingsScope {
            level: ToolOutputSettingsLevel::Repository { repository_id },
            tool_id: None,
        }
    }

    pub fn project(project_id: ProjectId) -> (r: Self)
        ensures
            r@ == ToolOutputSettingsScopeModel::at(
                ToolOutputSettingsLevelModel::Project { project_id: project_id@ },
            ),
    {
        ToolOutputSettingsScope {
            level: ToolOutputSettingsLevel::Project { project_id },
            tool_id: None,
        }
    }

    pub fn session(session_id: String) -> (r: Self)
        ensures
            r@ == ToolOutputSettingsScopeModel::at(
                ToolOutputSettingsLevelModel::Session { session_id: session_id@ },
            ),
    {
        ToolOutputSettingsScope {
            level: ToolOutputSettingsLevel::Session { session_id },
            tool_id: None,
        }
    }

    pub fn agent_profile(agent_id: String) -> (r: Self)
        ensures
            r@ == ToolOutputSettingsScopeModel::at(
                ToolOutputSettingsLevelModel::AgentProfile { agent_id: agent_id@ },
            ),
    {
        ToolOutputSettingsScope {
            level: ToolOutputSettingsLevel::AgentProfile { agent_id },
            tool_id: None,
        }
    }

    pub fn for_tool(self, tool_id: String) -> (r: Self)
        ensures
            r@ == (ToolOutputSettingsScopeModel { tool_id: Some(tool_id@), ..self@ }),
    {
        ToolOutputSettingsScope { level: self.level, tool_id: Some(tool_id) }
    }

    /// The scope as messages show it.
    pub fn to_text(&self) -> (r: String)
        ensures
            r@ == self@.shown(),
    {
        let tool = match &self.tool_id {
            Some(tool_id) => "Some(".to_owned().concat(quoted(tool_id.as_str()).as_str()).concat(
                ")",
            ),
            None => "None".to_owned(),
        };
        "ToolOutputSettingsScope { level: ".to_owned().concat(
            self.level.to_text().as_str(),
        ).concat(", tool_id: ").concat(tool.as_str()).concat(" }")
    }
}

#[derive(Debug, Clone, Copy, PartialEq, Eq, Structural)]
pub enum ToolOutputVerbosity {
    Minimal,
    Normal,
    Expanded,
    Debug,
}

impl DeepView for ToolOutputVerbosity {
    type V = ToolOutputVerbosity;

    open spec fn deep_view(&self) -> ToolOutputVerbosity {
        *self
    }
}

impl Record for ToolOutputVerbosity {
    fn duplicate(&self) -> (r: Self) {
        *self
    }

    fn same(&self, other: &Self) -> (r: bool) {
        *self == *other
    }
}

#[derive(Debug, Clone, Copy, PartialEq, Eq, Structural)]
pub enum ToolOutputGranularity {
    Summary,
    KeyFields,
    Full,
}

impl DeepView for ToolOutputGranularity {
    type V = ToolOutputGranularity;

    open spec fn deep_view(&self) -> ToolOutputGranularity {
        *self
    }
}

impl Record for ToolOutputGranularity {
    fn duplicate(&self) -> (r: Self) {
        *self
    }

    fn same(&self, other: &Self) -> (r: bool) {
        *self == *other
    }
}

#[derive(Debug, Clone, Copy, PartialEq, Eq, Structural)]
pub enum OversizeOutputPolicy {
    TruncateWithMetadata,
    SpillToArtifactRef,
    RejectOversize,
}

impl DeepView for OversizeOutputPolicy {
    type V = OversizeOutputPolicy;

    open spec fn deep_view(&self) -> OversizeOutputPolicy {
        *self
    }
}

impl Record for OversizeOutputPolicy {
    fn duplicate(&self) -> (r: Self) {
        *self
    }

    fn same(&self, other: &Self) -> (r: bool) {
        *self == *other
    }
}

#[derive(Debug, PartialEq, Eq)]
pub enum ToolOutputSettingsError {
    DuplicateScope { scope: ToolOutputSettingsScope },
    EmptyUpdate,
    MissingReason,
    MaxInlineBytesOutOfRange { value: u64, min: u64, max: u64 },
    MaxInlineLinesOutOfRange { value: u32, min: u32, max: u32 },
}

/// What a [`ToolOutputSettingsError`] holds.
pub enum ToolOutputSettingsErrorModel {
    DuplicateScope { scope: ToolOutputSettingsScopeModel },
    EmptyUpdate,
    MissingReason,
    MaxInlineBytesOutOfRange { value: u64, min: u64, max: u64 },
    MaxInlineLinesOutOfRange { value: u32, min: u32, max: u32 },
}

impl DeepView for ToolOutputSettingsError {
    type V = ToolOutputSettingsErrorModel;

    open spec fn deep_view(&self) -> ToolOutputSettingsErrorModel {
        match self {
            ToolOutputSettingsError::DuplicateScope { scope } => {
                ToolOutputSettingsErrorModel::DuplicateScope { scope: scope.deep_view() }
            },
            ToolOutputSettingsError::EmptyUpdate => ToolOutputSettingsErrorModel::EmptyUpdate,
            ToolOutputSettingsError::MissingReason => ToolOutputSettingsErrorModel::MissingReason,
            ToolOutputSettingsError::MaxInlineBytesOutOfRange { value, min, max } => {
                ToolOutputSettingsErrorModel::MaxInlineBytesOutOfRange {
                    value: value.deep_view(),
                    min: min.deep_view(),
                    max: max.deep_view(),
                }
            },
            ToolOutputSettingsError::MaxInlineLinesOutOfRange { value, min, max } => {
                ToolOutputSettingsErrorModel::MaxInlineLinesOutOfRange {
                    value: value.deep_view(),
                    min: min.deep_view(),
                    max: max.deep_view(),
                }
            },
        }
    }
}

impl View for ToolOutputSettingsError {
    type V = ToolOutputSettingsErrorModel;

    #[verifier::inline]
    open spec fn view(&self) -> ToolOutputSettingsErrorModel {
        self.deep_view()
    }
}

impl Record for ToolOutputSettingsError {
    fn duplicate(&self) -> (r: Self) {
        match self {
            ToolOutputSettingsError::DuplicateScope { scope } => {
                ToolOutputSettingsError::DuplicateScope { scope: scope.duplicate() }
            },
            ToolOutputSettingsError::EmptyUpdate => ToolOutputSettingsError::EmptyUpdate,
            ToolOutputSettingsError::MissingReason => ToolOutputSettingsError::MissingReason,
            ToolOutputSettingsError::MaxInlineBytesOutOfRange { value, min, max } => {
                ToolOutputSettingsError::MaxInlineBytesOutOfRange {
                    value: value.duplicate(),
                    min: min.duplicate(),
                    max: max.duplicate(),
                }
            },
            ToolOutputSettingsError::MaxInlineLinesOutOfRange { value, min, max } => {
                ToolOutputSettingsError::MaxInlineLinesOutOfRange {
                    value: value.duplicate(),
                    min: min.duplicate(),
                    max: max.duplicate(),
                }
            },
        }
    }

    fn same(&self, other: &Self) -> (r: bool) {
        match (self, other) {
            (
                ToolOutputSettingsError::DuplicateScope { scope: scope_a },
                ToolOutputSettingsError::DuplicateScope { scope: scope_b },
            ) => scope_a.same(scope_b),
            (ToolOutputSettingsError::EmptyUpdate, ToolOutputSettingsError::EmptyUpdate) => true,
            (ToolOutputSettingsError::MissingReason, ToolOutputSettingsError::MissingReason) => {
                true
            },
            (
                ToolOutputSettingsError::MaxInlineBytesOutOfRange {
                    value: value_a,
                    min: min_a,
                    max: max_a,
                },
                ToolOutputSettingsError::MaxInlineBytesOutOfRange {
                    value: value_b,
                    min: min_b,
                    max: max_b,
                },
            ) => value_a.same(value_b) && min_a.same(min_b) && max_a.same(max_b),
            (
                ToolOutputSettingsError::MaxInlineLinesOutOfRange {
                    value: value_a,
                    min: min_a,
                    max: max_a,
                },
                ToolOutputSettingsError::MaxInlineLinesOutOfRange {
                    value: value_b,
                    min: min_b,
                    max: max_b,
                },
            ) => value_a.same(value_b) && min_a.same(min_b) && max_a.same(max_b),
            _ => false,
        }
    }
}

impl Clone for ToolOutputSettingsError {
    fn clone(&self) -> (r: Self)
        ensures
            r.deep_view() == self.deep_view(),
    {
        self.duplicate()
    }
}

impl ToolOutputSettingsErrorModel {
    /// The error as a sentence.
    pub open spec fn message(self) -> Seq<char> {
        match self {
            ToolOutputSettingsErrorModel::EmptyUpdate =>
                "tool output settings update must set at least one field"@,
            ToolOutputSettingsErrorModel::DuplicateScope { scope } =>
                "duplicate tool output settings scope: "@ + scope.shown(),
            ToolOutputSettingsErrorModel::MissingReason =>
                "tool output settings update requires a reason"@,
            ToolOutputSettingsErrorModel::MaxInlineBytesOutOfRange { value, min, max } =>
                "max_inline_bytes "@ + crate::text::decimal(value as nat)
                + " is outside the supported range "@ + crate::text::decimal(min as nat) + "..="@
                + crate::text::decimal(max as nat),
            ToolOutputSettingsErrorModel::MaxInlineLinesOutOfRange { value, min, max } =>
                "max_inline_lines "@ + crate::text::decimal(value as nat)
                + " is outside the supported range "@ + crate::text::decimal(min as nat) + "..="@
                + crate::text::decimal(max as nat),
        }
    }
}

impl ToolOutputSettingsError {
    /// The error as a sentence.
    pub fn to_text(&self) -> (r: String)
        ensures
            r@ == self@.message(),
    {
        match self {
            ToolOutputSettingsError::EmptyUpdate =>
                "tool output settings update must set at least one field".to_owned(),
            ToolOutputSettingsError::DuplicateScope { scope } =>
                "duplicate tool output settings scope: ".to_owned().concat(
                scope.to_text().as_str(),
            ),
            ToolOutputSettingsError::MissingReason =>
                "tool output settings update requires a reason".to_owned(),
            ToolOutputSettingsError::MaxInlineBytesOutOfRange { value, min, max } =>
                "max_inline_bytes ".to_owned().concat(decimal_text(*value).as_str()).concat(
                " is outside the supported range ",
            ).concat(decimal_text(*min).as_str()).concat("..=").concat(
                decimal_text(*max).as_str(),
            ),
            ToolOutputSettingsError::MaxInlineLinesOutOfRange { value, min, max } =>
                "max_inline_lines ".to_owned().concat(decimal_text(*value as u64).as_str()).concat(
                " is outside the supported range ",
            ).concat(decimal_text(*min as u64).as_str()).concat("..=").concat(
                decimal_text(*max as u64).as_str(),
            ),
        }
    }
}

pub open spec fn bytes_problem(value: u64) -> Option<ToolOutputSettingsErrorModel> {
    if MIN_MAX_INLINE_BYTES <= value <= MAX_MAX_INLINE_BYTES {
        None
    } else {
        Some(
            ToolOutputSettingsErrorModel::MaxInlineBytesOutOfRange {
                value,
                min: MIN_MAX_INLINE_BYTES,
                max: MAX_MAX_INLINE_BYTES,
            },
        )
    }
}

fn validate_inline_bytes(value: u64) -> (r: Result<(), ToolOutputSettingsError>)
    ensures
        checks::reports(r, bytes_problem(value)),
{
    if MIN_MAX_INLINE_BYTES <= value && value <= MAX_MAX_INLINE_BYTES {
        Ok(())
    } else {
        Err(
            ToolOutputSettingsError::MaxInlineBytesOutOfRange {
                value,
                min: MIN_MAX_INLINE_BYTES,
                max: MAX_MAX_INLINE_BYTES,
            },
        )
    }
}

pub open spec fn lines_problem(value: u32) -> Option<ToolOutputSettingsErrorModel> {
    if MIN_MAX_INLINE_LINES <= value <= MAX_MAX_INLINE_LINES {
        None
    } else {
        Some(
            ToolOutputSettingsErrorModel::MaxInlineLinesOutOfRange {
                value,
                min: MIN_MAX_INLINE_LINES,
                max: MAX_MAX_INLINE_LINES,
            },
        )
    }
}

fn validate_inline_lines(value: u32) -> (r: Result<(), ToolOutputSettingsError>)
    ensures
        checks::reports(r, lines_problem(value)),
{
    if MIN_MAX_INLINE_LINES <= value && value <= MAX_MAX_INLINE_LINES {
        Ok(())
    } else {
        Err(
            ToolOutputSettingsError::MaxInlineLinesOutOfRange {
                value,
                min: MIN_MAX_INLINE_LINES,
                max: MAX_MAX_INLINE_LINES,
            },
        )
    }
}

#[derive(Debug, Clone, Copy, PartialEq, Eq, Structural)]
pub struct ToolOutputDefaults {
    pub render_options: RenderOptions,
    /// Number of bytes kept in the "inlined" renderer path before truncation.
    pub max_inline_bytes: u64,
    pub max_inline_lines: u32,
    pub verbosity: ToolOutputVerbosity,
    pub granularity: ToolOutputGranularity,
    /// Runtime policy for oversized canonical fields, including artifact spillover
    /// and hard-reject behavior.
    pub oversize_policy: OversizeOutputPolicy,
}

impl DeepView for ToolOutputDefaults {
    type V = ToolOutputDefaults;

    open spec fn deep_view(&self) -> ToolOutputDefaults {
        *self
    }
}

impl Record for ToolOutputDefaults {
    fn duplicate(&self) -> (r: Self) {
        *self
    }

    fn same(&self, other: &Self) -> (r: bool) {
        *self == *other
    }
}

/// What the verbosity lets stand of the optional channels: none of them below
/// `Expanded`, and the cost in `Debug` alone.
pub open spec fn constrained(
    options: RenderOptions,
    verbosity: ToolOutputVerbosity,
) -> RenderOptions {
    RenderOptions {
        format: options.format,
        include_policy: verbosity == ToolOutputVerbosity::Expanded || verbosity
            == ToolOutputVerbosity::Debug,
        include_diagnostics: verbosity == ToolOutputVerbosity::Expanded || verbosity
            == ToolOutputVerbosity::Debug,
        include_cost: verbosity == ToolOutputVerbosity::Debug,
    }
}

fn apply_verbosity_constraints(options: RenderOptions, verbosity: ToolOutputVerbosity) -> (r:
    RenderOptions)
    ensures
        r == constrained(options, verbosity),
{
    match verbosity {
        ToolOutputVerbosity::Minimal | ToolOutputVerbosity::Normal => RenderOptions {
            format: options.format,
            include_policy: false,
            include_diagnostics: false,
            include_cost: false,
        },
        ToolOutputVerbosity::Expanded => RenderOptions {
            format: options.format,
            include_policy: true,
            include_diagnostics: true,
            include_cost: false,
        },
        ToolOutputVerbosity::Debug => RenderOptions {
            format: options.format,
            include_policy: true,
            include_diagnostics: true,
            include_cost: true,
        },
    }
}

impl ToolOutputDefaults {
    pub open spec fn standard() -> ToolOutputDefaults {
        ToolOutputDefaults {
            render_options: RenderOptions::plain(OutputFormat::Toon),
            max_inline_bytes: DEFAULT_MAX_INLINE_BYTES,
            max_inline_lines: DEFAULT_MAX_INLINE_LINES,
            verbosity: ToolOutputVerbosity::Normal,
            granularity: ToolOutputGranularity::KeyFields,
            oversize_policy: OversizeOutputPolicy::TruncateWithMetadata,
        }
    }

    /// The limits are within their ranges.
    pub open spec fn range_problem(self) -> Option<ToolOutputSettingsErrorModel> {
        bytes_problem(self.max_inline_bytes).otherwise(lines_problem(self.max_inline_lines))
    }

    /// What is shown of a tool result: the asked-for options, as far as the verbosity
    /// allows them, and as many fields as granularity and line limit leave.
    pub open spec fn policy_for(self, requested: Option<RenderOptions>) -> ToolOutputRenderPolicy {
        let lines = self.max_inline_lines as usize;
        let summary = self.granularity == ToolOutputGranularity::Summary;
        ToolOutputRenderPolicy {
            render_options: constrained(
                match requested {
                    Some(options) => options,
                    None => self.render_options,
                },
                self.verbosity,
            ),
            max_fields: match self.granularity {
                ToolOutputGranularity::Summary => Some(
                    if lines < 1 {
                        lines
                    } else {
                        1usize
                    },
                ),
                ToolOutputGranularity::KeyFields => Some(
                    if lines < 3 {
                        lines
                    } else {
                        3usize
                    },
                ),
                ToolOutputGranularity::Full => None,
            },
            max_inline_lines: Some(lines),
            include_evidence_refs: !summary,
            include_output_refs: !summary,
            include_redactions: !summary,
        }
    }

    pub fn render_options(&self) -> (r: RenderOptions)
        ensures
            r == self.render_options,
    {
        self.render_options
    }

    pub fn render_policy(&self) -> (r: ToolOutputRenderPolicy)
        ensures
            r == self.policy_for(None),
    {
        self.render_policy_with_render_options(None)
    }

    pub fn render_policy_with_render_options(
        &self,
        requested_render_options: Option<&RenderOptions>,
    ) -> (r: ToolOutputRenderPolicy)
        ensures
            r == self.policy_for(requested_render_options.deep_view()),
    {
        let options = match requested_render_options {
            Some(requested) => *requested,
            None => self.render_options,
        };
        let lines: usize = self.max_inline_lines as usize;
        let max_fields = match self.granularity {
            ToolOutputGranularity::Summary => Some(
                if lines < 1 {
                    lines
                } else {
                    1usize
                },
            ),
            ToolOutputGranularity::KeyFields => Some(
                if lines < 3 {
                    lines
                } else {
                    3usize
                },
            ),
            ToolOutputGranularity::Full => None,
        };
        let detailed = self.granularity != ToolOutputGranularity::Summary;
        ToolOutputRenderPolicy {
            render_options: apply_verbosity_constraints(options, self.verbosity),
            max_fields,
            max_inline_lines: Some(lines),
            include_evidence_refs: detailed,
            include_output_refs: detailed,
            include_redactions: detailed,
        }
    }

    pub fn with_overrides(&self, overrides: &ToolOutputOverrides) -> (r: Result<
        Self,
        ToolOutputSettingsError,
    >)
        ensures
            match r {
                Ok(defaults) => defaults == overrides.applied_to(*self)
                    && defaults.range_problem() is None,
                Err(error) => overrides.applied_to(*self).range_problem() == Some(error@),
            },
    {
        let defaults = overrides.apply_to(*self);
        defaults.validate()?;
        Ok(defaults)
    }

    pub fn validate(&self) -> (r: Result<(), ToolOutputSettingsError>)
        ensures
            checks::reports(r, self.range_problem()),
    {
        validate_inline_bytes(self.max_inline_bytes)?;
        validate_inline_lines(self.max_inline_lines)
    }

    /// The defaults, once it is known that their limits are within range.
    pub fn checked(self) -> (r: Result<Self, ToolOutputSettingsError>)
        ensures
            match r {
                Ok(defaults) => defaults == self && self.range_problem() is None,
                Err(error) => self.range_problem() == Some(error@),
            },
    {
        self.validate()?;
        Ok(self)
    }
}

impl Default for ToolOutputDefaults {
    fn default() -> (r: Self)
        ensures
            r == ToolOutputDefaults::standard(),
    {
        ToolOutputDefaults {
            render_options: RenderOptions::default(),
            max_inline_bytes: DEFAULT_MAX_INLINE_BYTES,
            max_inline_lines: DEFAULT_MAX_INLINE_LINES,
            verbosity: ToolOutputVerbosity::Normal,
            granularity: ToolOutputGranularity::KeyFields,
            oversize_policy: OversizeOutputPolicy::TruncateWithMetadata,
        }
    }
}

/// What a scope settles for itself; the rest it has from its parents.
#[derive(Debug, Clone, Copy, PartialEq, Eq, Structural)]
pub struct ToolOutputOverrides {
    pub format: Option<OutputFormat>,
    pub include_policy: Option<bool>,
    pub include_diagnostics: Option<bool>,
    pub include_cost: Option<bool>,
    pub max_inline_bytes: Option<u64>,
    pub max_inline_lines: Option<u32>,
    pub verbosity: Option<ToolOutputVerbosity>,
    pub granularity: Option<ToolOutputGranularity>,
    pub oversize_policy: Option<OversizeOutputPolicy>,
}

impl DeepView for ToolOutputOverrides {
    type V = ToolOutputOverrides;

    open spec fn deep_view(&self) -> ToolOutputOverrides {
        *self
    }
}

impl Record for ToolOutputOverrides {
    fn duplicate(&self) -> (r: Self) {
        *self
    }

    fn same(&self, other: &Self) -> (r: bool) {
        *self == *other
    }
}

pub open spec fn settled<T>(own: Option<T>, inherited: T) -> T {
    match own {
        Some(value) => value,
        None => inherited,
    }
}

pub open spec fn later<T>(update: Option<T>, earlier: Option<T>) -> Option<T> {
    match update {
        Some(value) => Some(value),
        None => earlier,
    }
}

pub open spec fn difference<T>(value: T, inherited: T) -> Option<T> {
    if value != inherited {
        Some(value)
    } else {
        None
    }
}

fn settle<T: Copy>(own: Option<T>, inherited: T) -> (r: T)
    ensures
        r == settled(own, inherited),
{
    match own {
        Some(value) => value,
        None => inherited,
    }
}

fn prefer<T: Copy>(update: Option<T>, earlier: Option<T>) -> (r: Option<T>)
    ensures
        r == later(update, earlier),
{
    match update {
        Some(value) => Some(value),
        None => earlier,
    }
}

fn keep_where<T: Copy>(differs: bool, value: T) -> (r: Option<T>)
    ensures
        r == (if differs {
            Some(value)
        } else {
            None
        }),
{
    if differs {
        Some(value)
    } else {
        None
    }
}

impl ToolOutputOverrides {
    pub open spec fn nothing() -> ToolOutputOverrides {
        ToolOutputOverrides {
            format: None,
            include_policy: None,
            include_diagnostics: None,
            include_cost: None,
            max_inline_bytes: None,
            max_inline_lines: None,
            verbosity: None,
            granularity: None,
            oversize_policy: None,
        }
    }

    /// The limits that are settled are within their ranges.
    pub open spec fn range_problem(self) -> Option<ToolOutputSettingsErrorModel> {
        (match self.max_inline_bytes {
            Some(value) => bytes_problem(value),
            None => None,
        }).otherwise(
            match self.max_inline_lines {
                Some(value) => lines_problem(value),
                None => None,
            },
        )
    }

    /// The defaults that come of these overrides over inherited ones.
    pub open spec fn applied_to(self, d: ToolOutputDefaults) -> ToolOutputDefaults {
        ToolOutputDefaults {
            render_options: RenderOptions {
                format: settled(self.format, d.render_options.format),
                include_policy: settled(self.include_policy, d.render_options.include_policy),
                include_diagnostics: settled(
                    self.include_diagnostics,
                    d.render_options.include_diagnostics,
                ),
                include_cost: settled(self.include_cost, d.render_options.include_cost),
            },
            max_inline_bytes: settled(self.max_inline_bytes, d.max_inline_bytes),
            max_inline_lines: settled(self.max_inline_lines, d.max_inline_lines),
            verbosity: settled(self.verbosity, d.verbosity),
            granularity: settled(self.granularity, d.granularity),
            oversize_policy: settled(self.oversize_policy, d.oversize_policy),
        }
    }

    /// These overrides with those of an update in front.
    pub open spec fn merged(self, update: ToolOutputOverrides) -> ToolOutputOverrides {
        ToolOutputOverrides {
            format: later(update.format, self.format),
            include_policy: later(update.include_policy, self.include_policy),
            include_diagnostics: later(update.include_diagnostics, self.include_diagnostics),
            include_cost: later(update.include_cost, self.include_cost),
            max_inline_bytes: later(update.max_inline_bytes, self.max_inline_bytes),
            max_inline_lines: later(update.max_inline_lines, self.max_inline_lines),
            verbosity: later(update.verbosity, self.verbosity),
            granularity: later(update.granularity, self.granularity),
            oversize_policy: later(update.oversize_policy, self.oversize_policy),
        }
    }

    /// What distinguishes defaults from inherited ones.
    pub open spec fn between(
        base: ToolOutputDefaults,
        inherited: ToolOutputDefaults,
    ) -> ToolOutputOverrides {
        let own = base.render_options;
        let given = inherited.render_options;
        ToolOutputOverrides {
            format: difference(own.format, given.format),
            include_policy: difference(own.include_policy, given.include_policy),
            include_diagnostics: difference(own.include_diagnostics, given.include_diagnostics),
            include_cost: difference(own.include_cost, given.include_cost),
            max_inline_bytes: difference(base.max_inline_bytes, inherited.max_inline_bytes),
            max_inline_lines: difference(base.max_inline_lines, inherited.max_inline_lines),
            verbosity: difference(base.verbosity, inherited.verbosity),
            granularity: difference(base.granularity, inherited.granularity),
            oversize_policy: difference(base.oversize_policy, inherited.oversize_policy),
        }
    }

    pub fn is_empty(&self) -> (r: bool)
        ensures
            r == (*self == ToolOutputOverrides::nothing()),
    {
        self.format.is_none() && self.include_policy.is_none()
            && self.include_diagnostics.is_none() && self.include_cost.is_none()
            && self.max_inline_bytes.is_none() && self.max_inline_lines.is_none()
            && self.verbosity.is_none() && self.granularity.is_none()
            && self.oversize_policy.is_none()
    }

    pub(crate) fn from_defaults(base: &ToolOutputDefaults) -> (r: Self)
        ensures
            r == ToolOutputOverrides::between(*base, ToolOutputDefaults::standard()),
    {
        ToolOutputOverrides::from_defaults_with_parent(base, &ToolOutputDefaults::default())
    }

    fn from_defaults_with_parent(base: &ToolOutputDefaults, inherited: &ToolOutputDefaults) -> (r:
        Self)
        ensures
            r == ToolOutputOverrides::between(*base, *inherited),
    {
        let own = &base.render_options;
        let given = &inherited.render_options;
        ToolOutputOverrides {
            format: keep_where(own.format != given.format, own.format),
            include_policy: keep_where(
                own.include_policy != given.include_policy,
                own.include_policy,
            ),
            include_diagnostics: keep_where(
                own.include_diagnostics != given.include_diagnostics,
                own.include_diagnostics,
            ),
            include_cost: keep_where(own.include_cost != given.include_cost, own.include_cost),
            max_inline_bytes: keep_where(
                base.max_inline_bytes != inherited.max_inline_bytes,
                base.max_inline_bytes,
            ),
            max_inline_lines: keep_where(
                base.max_inline_lines != inherited.max_inline_lines,
                base.max_inline_lines,
            ),
            verbosity: keep_where(base.verbosity != inherited.verbosity, base.verbosity),
            granularity: keep_where(base.granularity != inherited.granularity, base.granularity),
            oversize_policy: keep_where(
                base.oversize_policy != inherited.oversize_policy,
                base.oversize_policy,
            ),
        }
    }

    fn merge(&self, update: &Self) -> (r: Self)
        ensures
            r == self.merged(*update),
    {
        ToolOutputOverrides {
            format: prefer(update.format, self.format),
            include_policy: prefer(update.include_policy, self.include_policy),
            include_diagnostics: prefer(update.include_diagnostics, self.include_diagnostics),
            include_cost: prefer(update.include_cost, self.include_cost),
            max_inline_bytes: prefer(update.max_inline_bytes, self.max_inline_bytes),
            max_inline_lines: prefer(update.max_inline_lines, self.max_inline_lines),
            verbosity: prefer(update.verbosity, self.verbosity),
            granularity: prefer(update.granularity, self.granularity),
            oversize_policy: prefer(update.oversize_policy, self.oversize_policy),
        }
    }

    pub(crate) fn apply_to(&self, defaults: ToolOutputDefaults) -> (r: ToolOutputDefaults)
        ensures
            r == self.applied_to(defaults),
    {
        ToolOutputDefaults {
            render_options: RenderOptions {
                format: settle(self.format, defaults.render_options.format),
                include_policy: settle(self.include_policy, defaults.render_options.include_policy),
                include_diagnostics: settle(
                    self.include_diagnostics,
                    defaults.render_options.include_diagnostics,
                ),
                include_cost: settle(self.include_cost, defaults.render_options.include_cost),
            },
            max_inline_bytes: settle(self.max_inline_bytes, defaults.max_inline_bytes),
            max_inline_lines: settle(self.max_inline_lines, defaults.max_inline_lines),
            verbosity: settle(self.verbosity, defaults.verbosity),
            granularity: settle(self.granularity, defaults.granularity),
            oversize_policy: settle(self.oversize_policy, defaults.oversize_policy),
        }
    }

    /// The overrides, once it is known that their limits are within range.
    pub fn checked(self) -> (r: Result<Self, ToolOutputSettingsError>)
        ensures
            match r {
                Ok(overrides) => overrides == self && self.range_problem() is None,
                Err(error) => self.range_problem() == Some(error@),
            },
    {
        if let Some(value) = self.max_inline_bytes {
            validate_inline_bytes(value)?;
        }
        if let Some(value) = self.max_inline_lines {
            validate_inline_lines(value)?;
        }
        Ok(self)
    }
}

impl Default for ToolOutputOverrides {
    fn default() -> (r: Self)
        ensures
            r == ToolOutputOverrides::nothing(),
    {
        ToolOutputOverrides {
            format: None,
            include_policy: None,
            include_diagnostics: None,
            include_cost: None,
            max_inline_bytes: None,
            max_inline_lines: None,
            verbosity: None,
            granularity: None,
            oversize_policy: None,
        }
    }
}

#[derive(Debug, PartialEq, Eq)]
pub struct ToolOutputSettingsChange {
    pub schema_version: u32,
    pub actor: Actor,
    pub scope: ToolOutputSettingsScope,
    pub old_defaults: ToolOutputDefaults,
    pub new_defaults: ToolOutputDefaults,
    pub reason: String,
    pub changed_at: LedgerTimestamp,
}

/// What a [`ToolOutputSettingsChange`] holds.
pub struct ToolOutputSettingsChangeModel {
    pub schema_version: u32,
    pub actor: ActorModel,
    pub scope: ToolOutputSettingsScopeModel,
    pub old_defaults: ToolOutputDefaults,
    pub new_defaults: ToolOutputDefaults,
    pub reason: Seq<char>,
    pub changed_at: LedgerTimestamp,
}

impl DeepView for ToolOutputSettingsChange {
    type V = ToolOutputSettingsChangeModel;

    open spec fn deep_view(&self) -> ToolOutputSettingsChangeModel {
        ToolOutputSettingsChangeModel {
            schema_version: self.schema_version.deep_view(),
            actor: self.actor.deep_view(),
            scope: self.scope.deep_view(),
            old_defaults: self.old_defaults.deep_view(),
            new_defaults: self.new_defaults.deep_view(),
            reason: self.reason.deep_view(),
            changed_at: self.changed_at.deep_view(),
        }
    }
}

impl View for ToolOutputSettingsChange {
    type V = ToolOutputSettingsChangeModel;

    #[verifier::inline]
    open spec fn view(&self) -> ToolOutputSettingsChangeModel {
        self.deep_view()
    }
}

impl Record for ToolOutputSettingsChange {
    fn duplicate(&self) -> (r: Self) {
        ToolOutputSettingsChange {
            schema_version: self.schema_version.duplicate(),
            actor: self.actor.duplicate(),
            scope: self.scope.duplicate(),
            old_defaults: self.old_defaults.duplicate(),
            new_defaults: self.new_defaults.duplicate(),
            reason: self.reason.duplicate(),
            changed_at: self.changed_at.duplicate(),
        }
    }

    fn same(&self, other: &Self) -> (r: bool) {
        self.schema_version.same(&other.schema_version)
            && self.actor.same(&other.actor)
            && self.scope.same(&other.scope)
            && self.old_defaults.same(&other.old_defaults)
            && self.new_defaults.same(&other.new_defaults)
            && self.reason.same(&other.reason)
            && self.changed_at.same(&other.changed_at)
    }
}

impl Clone for ToolOutputSettingsChange {
    fn clone(&self) -> (r: Self)
        ensures
            r.deep_view() == self.deep_view(),
    {
        self.duplicate()
    }
}

/// The settings of a scope. Settings that were written down as whole defaults keep them
/// until they are read against what the scope inherits.
#[derive(Debug, PartialEq, Eq)]
pub struct ToolOutputSettings {
    pub schema_version: u32,
    pub scope: ToolOutputSettingsScope,
    pub overrides: ToolOutputOverrides,
    pub updated_at: LedgerTimestamp,
    pub updated_by: Option<Actor>,
    /// Whole defaults that the settings were written down with.
    pub legacy_defaults: Option<ToolOutputDefaults>,
}

/// What a [`ToolOutputSettings`] holds.
pub struct ToolOutputSettingsModel {
    pub schema_version: u32,
    pub scope: ToolOutputSettingsScopeModel,
    pub overrides: ToolOutputOverrides,
    pub updated_at: LedgerTimestamp,
    pub updated_by: Option<ActorModel>,
    pub legacy_defaults: Option<ToolOutputDefaults>,
}

impl DeepView for ToolOutputSettings {
    type V = ToolOutputSettingsModel;

    open spec fn deep_view(&self) -> ToolOutputSettingsModel {
        ToolOutputSettingsModel {
            schema_version: self.schema_version.deep_view(),
            scope: self.scope.deep_view(),
            overrides: self.overrides.deep_view(),
            updated_at: self.updated_at.deep_view(),
            updated_by: self.updated_by.deep_view(),
            legacy_defaults: self.legacy_defaults.deep_view(),
        }
    }
}

impl View for ToolOutputSettings {
    type V = ToolOutputSettingsModel;

    #[verifier::inline]
    open spec fn view(&self) -> ToolOutputSettingsModel {
        self.deep_view()
    }
}

impl Record for ToolOutputSettings {
    fn duplicate(&self) -> (r: Self) {
        ToolOutputSettings {
            schema_version: self.schema_version.duplicate(),
            scope: self.scope.duplicate(),
            overrides: self.overrides.duplicate(),
            updated_at: self.updated_at.duplicate(),
            updated_by: self.updated_by.duplicate(),
            legacy_defaults: self.legacy_defaults.duplicate(),
        }
    }

    fn same(&self, other: &Self) -> (r: bool) {
        self.schema_version.same(&other.schema_version)
            && self.scope.same(&other.scope)
            && self.overrides.same(&other.overrides)
            && self.updated_at.same(&other.updated_at)
            && self.updated_by.same(&other.updated_by)
            && self.legacy_defaults.same(&other.legacy_defaults)
    }
}

impl Clone for ToolOutputSettings {
    fn clone(&self) -> (r: Self)
        ensures
            r.deep_view() == self.deep_view(),
    {
        self.duplicate()
    }
}

impl ToolOutputSettingsModel {
    pub open spec fn fresh(
        scope: ToolOutputSettingsScopeModel,
        created_at: LedgerTimestamp,
    ) -> ToolOutputSettingsModel {
        ToolOutputSettingsModel {
            schema_version: TOOL_OUTPUT_SETTINGS_SCHEMA_VERSION,
            scope,
            overrides: ToolOutputOverrides::nothing(),
            updated_at: created_at,
            updated_by: None,
            legacy_defaults: None,
        }
    }

    /// What these settings settle over what they inherit.
    pub open spec fn own_overrides(self, inherited: ToolOutputDefaults) -> ToolOutputOverrides {
        match self.legacy_defaults {
            Some(defaults) => ToolOutputOverrides::between(defaults, inherited),
            None => self.overrides,
        }
    }

    /// The defaults that hold for the scope.
    pub open spec fn defaults_over(self, inherited: ToolOutputDefaults) -> ToolOutputDefaults {
        self.own_overrides(inherited).applied_to(inherited)
    }

    /// Whole defaults turned into overrides.
    pub open spec fn migrated(self, inherited: ToolOutputDefaults) -> ToolOutputSettingsModel {
        match self.legacy_defaults {
            Some(defaults) => ToolOutputSettingsModel {
                overrides: ToolOutputOverrides::between(defaults, inherited),
                legacy_defaults: None,
                ..self
            },
            None => self,
        }
    }

    /// An update names something to change and a reason, and leaves the limits in range.
    pub open spec fn update_problem(
        self,
        update: ToolOutputOverrides,
        reason: Seq<char>,
        inherited: ToolOutputDefaults,
    ) -> Option<ToolOutputSettingsErrorModel> {
        if update == ToolOutputOverrides::nothing() {
            Some(ToolOutputSettingsErrorModel::EmptyUpdate)
        } else if crate::text::is_blank(reason) {
            Some(ToolOutputSettingsErrorModel::MissingReason)
        } else {
            update.applied_to(self.defaults_over(inherited)).range_problem()
        }
    }

    /// The settings after an update.
    pub open spec fn updated(
        self,
        actor: ActorModel,
        update: ToolOutputOverrides,
        inherited: ToolOutputDefaults,
        updated_at: LedgerTimestamp,
    ) -> ToolOutputSettingsModel {
        ToolOutputSettingsModel {
            overrides: self.own_overrides(inherited).merged(update),
            legacy_defaults: None,
            updated_by: Some(actor),
            updated_at,
            ..self
        }
    }

    /// The audit entry of an update.
    pub open spec fn change(
        self,
        actor: ActorModel,
        update: ToolOutputOverrides,
        reason: Seq<char>,
        inherited: ToolOutputDefaults,
        updated_at: LedgerTimestamp,
    ) -> ToolOutputSettingsChangeModel {
        ToolOutputSettingsChangeModel {
            schema_version: TOOL_OUTPUT_SETTINGS_SCHEMA_VERSION,
            actor,
            scope: self.scope,
            old_defaults: self.defaults_over(inherited),
            new_defaults: update.applied_to(self.defaults_over(inherited)),
            reason,
            changed_at: updated_at,
        }
    }
}

/// Settings are written down with overrides or, as of old, with whole defaults: one of
/// the two.
pub open spec fn payload_problem(
    overrides: Option<ToolOutputOverrides>,
    defaults: Option<ToolOutputDefaults>,
) -> Option<Seq<char>> {
    if overrides is Some && defaults is Some {
        Some("settings payload must not provide both `overrides` and legacy `defaults`"@)
    } else if overrides is None && defaults is None {
        Some("missing required field `overrides` (or legacy `defaults`)"@)
    } else {
        None
    }
}

impl ToolOutputSettings {
    pub fn new(scope: ToolOutputSettingsScope, created_at: LedgerTimestamp) -> (r: Self)
        ensures
            r@ == ToolOutputSettingsModel::fresh(scope@, created_at),
    {
        ToolOutputSettings {
            schema_version: TOOL_OUTPUT_SETTINGS_SCHEMA_VERSION,
            scope,
            overrides: ToolOutputOverrides::default(),
            updated_at: created_at,
            updated_by: None,
            legacy_defaults: None,
        }
    }

    /// The settings that stand written down.
    pub fn from_payload(
        schema_version: u32,
        scope: ToolOutputSettingsScope,
        overrides: Option<ToolOutputOverrides>,
        defaults: Option<ToolOutputDefaults>,
        updated_at: LedgerTimestamp,
        updated_by: Option<Actor>,
    ) -> (r: Result<Self, String>)
        ensures
            match r {
                Ok(settings) => payload_problem(overrides, defaults) is None && settings@ == (
                ToolOutputSettingsModel {
                    schema_version,
                    scope: scope@,
                    overrides: settled(overrides, ToolOutputOverrides::nothing()),
                    updated_at,
                    updated_by: updated_by.deep_view(),
                    legacy_defaults: defaults,
                }),
                Err(message) => payload_problem(overrides, defaults) == Some(message@),
            },
    {
        if overrides.is_some() && defaults.is_some() {
            return Err(
                "settings payload must not provide both `overrides` and legacy `defaults`".to_owned(),
            );
        }
        if overrides.is_none() && defaults.is_none() {
            return Err("missing required field `overrides` (or legacy `defaults`)".to_owned());
        }
        Ok(
            ToolOutputSettings {
                schema_version,
                scope,
                overrides: settle(overrides, ToolOutputOverrides::default()),
                updated_at,
                updated_by,
                legacy_defaults: defaults,
            },
        )
    }

    pub(crate) fn resolved_overrides(&self, inherited: &ToolOutputDefaults) -> (r: ToolOutputOverrides)
        ensures
            r == self@.own_overrides(*inherited),
    {
        match &self.legacy_defaults {
            Some(defaults) => ToolOutputOverrides::from_defaults_with_parent(defaults, inherited),
            None => self.overrides,
        }
    }

    pub(crate) fn apply_legacy_migration(&mut self, inherited: &ToolOutputDefaults)
        ensures
            final(self)@ == old(self)@.migrated(*inherited),
    {
        if let Some(defaults) = self.legacy_defaults {
            self.overrides = ToolOutputOverrides::from_defaults_with_parent(&defaults, inherited);
            self.legacy_defaults = None;
        }
    }

    pub fn apply_update(
        &mut self,
        actor: Actor,
        update: ToolOutputOverrides,
        reason: String,
        inherited_defaults: &ToolOutputDefaults,
        updated_at: LedgerTimestamp,
    ) -> (r: Result<ToolOutputSettingsChange, ToolOutputSettingsError>)
        ensures
            match r {
                Ok(change) => {
                    &&& old(self)@.update_problem(update, reason@, *inherited_defaults) is None
                    &&& final(self)@ == old(self)@.updated(
                        actor@,
                        update,
                        *inherited_defaults,
                        updated_at,
                    )
                    &&& change@ == old(self)@.change(
                        actor@,
                        update,
                        reason@,
                        *inherited_defaults,
                        updated_at,
                    )
                },
                Err(error) => {
                    &&& old(self)@.update_problem(update, reason@, *inherited_defaults) == Some(
                        error@,
                    )
                    &&& final(self)@ == old(self)@
                },
            },
    {
        if update.is_empty() {
            return Err(ToolOutputSettingsError::EmptyUpdate);
        }
        if blank(reason.as_str()) {
            return Err(ToolOutputSettingsError::MissingReason);
        }
        let resolved = self.resolved_overrides(inherited_defaults);
        let old_defaults = resolved.apply_to(*inherited_defaults);
        let new_defaults = old_defaults.with_overrides(&update)?;
        self.overrides = resolved.merge(&update);
        self.legacy_defaults = None;
        self.updated_by = Some(actor.clone());
        self.updated_at = updated_at;
        Ok(
            ToolOutputSettingsChange {
                schema_version: TOOL_OUTPUT_SETTINGS_SCHEMA_VERSION,
                actor,
                scope: self.scope.clone(),
                old_defaults,
                new_defaults,
                reason,
                changed_at: updated_at,
            },
        )
    }
}

} // verus!

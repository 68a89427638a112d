//! How tool results are shown to agents: formats, options and limits. The rendering itself
//! is done by the host.
use vstd::prelude::*;

use crate::domain::ToolResult;
use crate::record::Record;

verus! {

#[derive(Debug, Clone, Copy, PartialEq, Eq, Structural)]
pub enum OutputFormat {
    Toon,
    Json,
    Text,
}

impl DeepView for OutputFormat {
    type V = OutputFormat;

    open spec fn deep_view(&self) -> OutputFormat {
        *self
    }
}

impl Record for OutputFormat {
    fn duplicate(&self) -> (r: Self) {
        *self
    }

    fn same(&self, other: &Self) -> (r: bool) {
        *self == *other
    }
}

#[derive(Debug, Clone, Copy, PartialEq, Eq, Structural)]
pub struct RenderOptions {
    pub format: OutputFormat,
    pub include_policy: bool,
    pub include_diagnostics: bool,
    pub include_cost: bool,
}

impl DeepView for RenderOptions {
    type V = RenderOptions;

    open spec fn deep_view(&self) -> RenderOptions {
        *self
    }
}

impl Record for RenderOptions {
    fn duplicate(&self) -> (r: Self) {
        *self
    }

    fn same(&self, other: &Self) -> (r: bool) {
        *self == *other
    }
}

impl RenderOptions {
    /// The options that show nothing beside the result.
    pub open spec fn plain(format: OutputFormat) -> RenderOptions {
        RenderOptions {
            format,
            include_policy: false,
            include_diagnostics: false,
            include_cost: false,
        }
    }

    pub fn new(format: OutputFormat) -> (r: Self)
        ensures
            r == RenderOptions::plain(format),
    {
        RenderOptions {
            format,
            include_policy: false,
            include_diagnostics: false,
            include_cost: false,
        }
    }
}

impl Default for RenderOptions {
    fn default() -> (r: Self)
        ensures
            r == RenderOptions::plain(OutputFormat::Toon),
    {
        RenderOptions::new(OutputFormat::Toon)
    }
}

/// What a renderer is to show of a tool result.
#[derive(Debug, Clone, Copy, PartialEq, Eq, Structural)]
pub struct ToolOutputRenderPolicy {
    pub render_options: RenderOptions,
    pub max_fields: Option<usize>,
    pub max_inline_lines: Option<usize>,
    pub include_evidence_refs: bool,
    pub include_output_refs: bool,
    pub include_redactions: bool,
}

impl DeepView for ToolOutputRenderPolicy {
    type V = ToolOutputRenderPolicy;

    open spec fn deep_view(&self) -> ToolOutputRenderPolicy {
        *self
    }
}

impl Record for ToolOutputRenderPolicy {
    fn duplicate(&self) -> (r: Self) {
        *self
    }

    fn same(&self, other: &Self) -> (r: bool) {
        *self == *other
    }
}

#[derive(Debug, PartialEq, Eq)]
pub struct RenderedToolOutput {
    pub format: OutputFormat,
    pub body: String,
    pub fallback_reason: Option<String>,
}

/// What a [`RenderedToolOutput`] holds.
pub struct RenderedToolOutputModel {
    pub format: OutputFormat,
    pub body: Seq<char>,
    pub fallback_reason: Option<Seq<char>>,
}

impl DeepView for RenderedToolOutput {
    type V = RenderedToolOutputModel;

    open spec fn deep_view(&self) -> RenderedToolOutputModel {
        RenderedToolOutputModel {
            format: self.format.deep_view(),
            body: self.body.deep_view(),
            fallback_reason: self.fallback_reason.deep_view(),
        }
    }
}

impl View for RenderedToolOutput {
    type V = RenderedToolOutputModel;

    #[verifier::inline]
    open spec fn view(&self) -> RenderedToolOutputModel {
        self.deep_view()
    }
}

impl Record for RenderedToolOutput {
    fn duplicate(&self) -> (r: Self) {
        RenderedToolOutput {
            format: self.format.duplicate(),
            body: self.body.duplicate(),
            fallback_reason: self.fallback_reason.duplicate(),
        }
    }

    fn same(&self, other: &Self) -> (r: bool) {
        self.format.same(&other.format)
            && self.body.same(&other.body)
            && self.fallback_reason.same(&other.fallback_reason)
    }
}

impl Clone for RenderedToolOutput {
    fn clone(&self) -> (r: Self)
        ensures
            r.deep_view() == self.deep_view(),
    {
        self.duplicate()
    }
}

/// Why a tool result could not be rendered.
#[derive(Debug, PartialEq, Eq)]
pub struct ToolOutputRenderError {
    pub message: String,
}

/// What a [`ToolOutputRenderError`] holds.
pub struct ToolOutputRenderErrorModel {
    pub message: Seq<char>,
}

impl DeepView for ToolOutputRenderError {
    type V = ToolOutputRenderErrorModel;

    open spec fn deep_view(&self) -> ToolOutputRenderErrorModel {
        ToolOutputRenderErrorModel {
            message: self.message.deep_view(),
        }
    }
}

impl View for ToolOutputRenderError {
    type V = ToolOutputRenderErrorModel;

    #[verifier::inline]
    open spec fn view(&self) -> ToolOutputRenderErrorModel {
        self.deep_view()
    }
}

impl Record for ToolOutputRenderError {
    fn duplicate(&self) -> (r: Self) {
        ToolOutputRenderError {
            message: self.message.duplicate(),
        }
    }

    fn same(&self, other: &Self) -> (r: bool) {
        self.message.same(&other.message)
    }
}

impl Clone for ToolOutputRenderError {
    fn clone(&self) -> (r: Self)
        ensures
            r.deep_view() == self.deep_view(),
    {
        self.duplicate()
    }
}

impl ToolOutputRenderError {
    /// The error as a sentence.
    pub fn to_text(&self) -> (r: String)
        ensures
            r@ == self.message@,
    {
        self.message.clone()
    }
}

/// Renders tool results. A host brings its own.
pub trait ToolOutputRenderer {
    fn render_tool_result_with_policy(
        &self,
        result: &ToolResult,
        policy: &ToolOutputRenderPolicy,
    ) -> Result<RenderedToolOutput, ToolOutputRenderError>;
}

} // verus!

//! What a tool call hands back: content items on success, a typed error on
//! failure. Resource reads and prompt lookups have error types of their own.

use vstd::prelude::*;

verus! {

/// One item of a tool's result: a piece of text.
#[derive(Debug, PartialEq, Eq)]
pub struct Content {
    pub text: String,
}

impl View for Content {
    type V = Seq<char>;

    open spec fn view(&self) -> Seq<char> {
        self.text@
    }
}

impl Content {
    /// A content item holding `text`.
    pub fn text(text: String) -> (item: Content)
        ensures
            item@ == text@,
    {
        Content { text }
    }

    /// The text this item holds.
    pub fn as_text(&self) -> (text: &str)
        ensures
            text@ == self@,
    {
        self.text.as_str()
    }
}

/// The texts of a sequence of content items, in order.
pub open spec fn texts(items: Seq<Content>) -> Seq<Seq<char>> {
    Seq::new(items.len(), |i: int| items[i]@)
}

/// Why a tool call failed.
#[derive(Debug, PartialEq, Eq)]
pub enum ToolError {
    /// The parameters do not fit the tool.
    InvalidParameters(String),
    /// The underlying operation failed; carries the native error text.
    ExecutionError(String),
    /// The request is well formed but unsupported in this environment.
    ValidationError(String),
    /// No tool is registered under the name; carries the name.
    NotFound(String),
}

/// The mathematical value of a [`ToolError`].
pub ghost enum ToolErrorView {
    InvalidParameters(Seq<char>),
    ExecutionError(Seq<char>),
    ValidationError(Seq<char>),
    NotFound(Seq<char>),
}

impl View for ToolError {
    type V = ToolErrorView;

    open spec fn view(&self) -> ToolErrorView {
        match self {
            ToolError::InvalidParameters(m) => ToolErrorView::InvalidParameters(m@),
            ToolError::ExecutionError(m) => ToolErrorView::ExecutionError(m@),
            ToolError::ValidationError(m) => ToolErrorView::ValidationError(m@),
            ToolError::NotFound(m) => ToolErrorView::NotFound(m@),
        }
    }
}

impl ToolError {
    /// The text a caller is shown for this error.
    pub fn message(&self) -> (text: String)
        ensures
            text@ == self.spec_message(),
    {
        let (head, detail) = match self {
            ToolError::InvalidParameters(m) => ("Invalid parameters: ", m),
            ToolError::ExecutionError(m) => ("Execution failed: ", m),
            ToolError::ValidationError(m) => ("Validation failed: ", m),
            ToolError::NotFound(m) => ("Tool not found: ", m),
        };
        String::from_str(head).concat(detail.as_str())
    }

    /// The text of [`ToolError::message`].
    pub open spec fn spec_message(&self) -> Seq<char> {
        match self {
            ToolError::InvalidParameters(m) => "Invalid parameters: "@ + m@,
            ToolError::ExecutionError(m) => "Execution failed: "@ + m@,
            ToolError::ValidationError(m) => "Validation failed: "@ + m@,
            ToolError::NotFound(m) => "Tool not found: "@ + m@,
        }
    }
}

/// The outcome of a tool call.
pub type ToolResult = Result<Vec<Content>, ToolError>;

/// The mathematical value of a [`ToolResult`].
pub open spec fn result_view(r: ToolResult) -> Result<Seq<Seq<char>>, ToolErrorView> {
    match r {
        Ok(items) => Ok(texts(items@)),
        Err(e) => Err(e@),
    }
}

/// Why a resource read failed.
#[derive(Debug, PartialEq, Eq)]
pub enum ResourceError {
    /// Reading the resource failed; carries the native error text.
    ExecutionError(String),
    /// The identifier lies outside every registered namespace.
    NotFound(String),
}

/// The mathematical value of a [`ResourceError`].
pub ghost enum ResourceErrorView {
    ExecutionError(Seq<char>),
    NotFound(Seq<char>),
}

impl View for ResourceError {
    type V = ResourceErrorView;

    open spec fn view(&self) -> ResourceErrorView {
        match self {
            ResourceError::ExecutionError(m) => ResourceErrorView::ExecutionError(m@),
            ResourceError::NotFound(m) => ResourceErrorView::NotFound(m@),
        }
    }
}

/// Why a prompt lookup failed.
#[derive(Debug, PartialEq, Eq)]
pub enum PromptError {
    /// No prompt has the name; carries the text shown to the caller.
    NotFound(String),
}

/// The mathematical value of a [`PromptError`].
pub ghost enum PromptErrorView {
    NotFound(Seq<char>),
}

impl View for PromptError {
    type V = PromptErrorView;

    open spec fn view(&self) -> PromptErrorView {
        match self {
            PromptError::NotFound(m) => PromptErrorView::NotFound(m@),
        }
    }
}

} // verus!

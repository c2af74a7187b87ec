//! The errors that parsing, validation and execution report.

use vstd::prelude::*;
use vstd::string::StringExecFns;
use crate::text::join;

verus! {

/// Why an operation failed.
#[derive(Debug)]
pub enum ArtaError {
    /// The source text is malformed; the text names the offending fragment.
    ParseError(String),
    /// A statement could not be carried out.
    ExecutionError(String),
    /// A statement was refused by policy.
    SecurityError(String),
    /// The system reported a failure; the text is its message.
    IoError(String),
    ActionsDisabled,
    InvalidTarget(String),
    InvalidField(String),
    PathNotFound(String),
    PermissionDenied(String),
}

/// The model of `ArtaError`.
pub ghost enum ErrorView {
    ParseError(Seq<char>),
    ExecutionError(Seq<char>),
    SecurityError(Seq<char>),
    IoError(Seq<char>),
    ActionsDisabled,
    InvalidTarget(Seq<char>),
    InvalidField(Seq<char>),
    PathNotFound(Seq<char>),
    PermissionDenied(Seq<char>),
}

impl ErrorView {
    /// The text shown to the user.
    pub open spec fn message(self) -> Seq<char> {
        match self {
            ErrorView::ParseError(m) => "Parse error: "@ + m,
            ErrorView::ExecutionError(m) => "Execution error: "@ + m,
            ErrorView::SecurityError(m) => "Security error: "@ + m,
            ErrorView::IoError(m) => "IO error: "@ + m,
            ErrorView::ActionsDisabled => "Actions not enabled. Use --allow-actions flag to enable system modifications"@,
            ErrorView::InvalidTarget(m) => "Invalid query target: "@ + m,
            ErrorView::InvalidField(m) => "Invalid field: "@ + m,
            ErrorView::PathNotFound(m) => "Path not found: "@ + m,
            ErrorView::PermissionDenied(m) => "Permission denied: "@ + m,
        }
    }
}

impl ArtaError {
    pub open spec fn view(&self) -> ErrorView {
        match self {
            ArtaError::ParseError(m) => ErrorView::ParseError(m@),
            ArtaError::ExecutionError(m) => ErrorView::ExecutionError(m@),
            ArtaError::SecurityError(m) => ErrorView::SecurityError(m@),
            ArtaError::IoError(m) => ErrorView::IoError(m@),
            ArtaError::ActionsDisabled => ErrorView::ActionsDisabled,
            ArtaError::InvalidTarget(m) => ErrorView::InvalidTarget(m@),
            ArtaError::InvalidField(m) => ErrorView::InvalidField(m@),
            ArtaError::PathNotFound(m) => ErrorView::PathNotFound(m@),
            ArtaError::PermissionDenied(m) => ErrorView::PermissionDenied(m@),
        }
    }

    /// The text shown to the user.
    pub fn message(&self) -> (r: String)
        ensures
            r@ == self@.message(),
    {
        match self {
            ArtaError::ParseError(m) => join("Parse error: ", m.as_str()),
            ArtaError::ExecutionError(m) => join("Execution error: ", m.as_str()),
            ArtaError::SecurityError(m) => join("Security error: ", m.as_str()),
            ArtaError::IoError(m) => join("IO error: ", m.as_str()),
            ArtaError::ActionsDisabled => String::from_str(
                "Actions not enabled. Use --allow-actions flag to enable system modifications",
            ),
            ArtaError::InvalidTarget(m) => join("Invalid query target: ", m.as_str()),
            ArtaError::InvalidField(m) => join("Invalid field: ", m.as_str()),
            ArtaError::PathNotFound(m) => join("Path not found: ", m.as_str()),
            ArtaError::PermissionDenied(m) => join("Permission denied: ", m.as_str()),
        }
    }
}

} // verus!

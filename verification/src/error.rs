//! The failures that end a run.

use vstd::prelude::*;
use vstd::string::StringExecFns;

verus! {

/// Why a report could not be made.
#[derive(Debug, Clone, PartialEq, Eq)]
pub enum ReportError {
    /// The exclusion pattern is not a well-formed glob pattern.
    ConfigurationError { pattern: String },
    /// Both the compact and the indented structured output were asked for.
    ConflictingOutputModes,
    /// An archive could not be opened or is no archive at all.
    ArchiveUnreadable { path: String, cause: String },
    /// The record of an entry of an archive could not be read.
    EntryDecodeError { path: String, cause: String },
}

/// What a `ReportError` holds, as plain text.
pub enum ReportErrorView {
    ConfigurationError { pattern: Seq<char> },
    ConflictingOutputModes,
    ArchiveUnreadable { path: Seq<char>, cause: Seq<char> },
    EntryDecodeError { path: Seq<char>, cause: Seq<char> },
}

impl View for ReportError {
    type V = ReportErrorView;

    open spec fn view(&self) -> ReportErrorView {
        match self {
            ReportError::ConfigurationError { pattern } => ReportErrorView::ConfigurationError {
                pattern: pattern@,
            },
            ReportError::ConflictingOutputModes => ReportErrorView::ConflictingOutputModes,
            ReportError::ArchiveUnreadable { path, cause } => ReportErrorView::ArchiveUnreadable {
                path: path@,
                cause: cause@,
            },
            ReportError::EntryDecodeError { path, cause } => ReportErrorView::EntryDecodeError {
                path: path@,
                cause: cause@,
            },
        }
    }
}

/// The message that names the offending pattern or path.
pub open spec fn message_text(error: ReportErrorView) -> Seq<char> {
    match error {
        ReportErrorView::ConfigurationError { pattern } => "invalid exclusion pattern: "@
            + pattern,
        ReportErrorView::ConflictingOutputModes =>
            "compact and indented structured output exclude each other"@,
        ReportErrorView::ArchiveUnreadable { path, cause } => "cannot read archive "@ + path
            + ": "@ + cause,
        ReportErrorView::EntryDecodeError { path, cause } => "cannot read an entry of archive "@
            + path + ": "@ + cause,
    }
}

impl ReportErrorView {
    /// Whether the error lies in the configuration, so that it shows before
    /// any archive is read.
    pub open spec fn is_configuration_error(self) -> bool {
        self is ConfigurationError || self is ConflictingOutputModes
    }
}

impl ReportError {
    /// A message for the operator, which names the pattern or the path that
    /// the failure is about.
    pub fn message(&self) -> (text: String)
        ensures
            text@ == message_text(self@),
    {
        match self {
            ReportError::ConfigurationError { pattern } => {
                let mut text = String::from_str("invalid exclusion pattern: ");
                text.append(pattern.as_str());
                text
            },
            ReportError::ConflictingOutputModes => String::from_str(
                "compact and indented structured output exclude each other",
            ),
            ReportError::ArchiveUnreadable { path, cause } => {
                let mut text = String::from_str("cannot read archive ");
                text.append(path.as_str());
                text.append(": ");
                text.append(cause.as_str());
                text
            },
            ReportError::EntryDecodeError { path, cause } => {
                let mut text = String::from_str("cannot read an entry of archive ");
                text.append(path.as_str());
                text.append(": ");
                text.append(cause.as_str());
                text
            },
        }
    }
}

} // verus!

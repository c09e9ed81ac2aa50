//! The steps of a save: find the document's file, have it read, have the
//! text analysed, publish what the analysis found. The backend decides each
//! step; reading and analysing are done by its caller.

use crate::diagnostics::{
    diagnostics_view, outcome_diagnostics, publish_outcome, AnalysisOutcome, PublishDiagnostics,
};
use std::path::PathBuf;
use tower_lsp::lsp_types::Url;
use vstd::prelude::*;

verus! {

/// A path in the file system, carried as it came.
#[verifier::external_type_specification]
#[verifier::external_body]
pub struct ExPathBuf(PathBuf);

/// Why a save published nothing.
#[derive(Clone, Copy, Debug, PartialEq, Eq, Structural)]
pub enum SaveError {
    /// The document's URI names no local file.
    NoFilePath,
    /// The document's file could not be read.
    Unreadable,
    /// The text is not well formed, so there is nothing to analyse.
    Malformed,
}

/// What the analysis engine made of a text.
#[derive(Clone, Debug, PartialEq, Eq)]
pub enum EngineReport {
    /// The text could not be parsed.
    Malformed,
    /// The text was parsed and analysed.
    Analyzed(AnalysisOutcome),
}

impl EngineReport {
    /// An analysed report carries a well-formed outcome.
    pub open spec fn wf(&self) -> bool {
        match self {
            EngineReport::Malformed => true,
            EngineReport::Analyzed(outcome) => outcome.wf(),
        }
    }

    /// Tells whether the report is well formed.
    pub fn is_well_formed(&self) -> (ok: bool)
        ensures
            ok == self.wf(),
    {
        match self {
            EngineReport::Malformed => true,
            EngineReport::Analyzed(outcome) => outcome.is_well_formed(),
        }
    }
}

/// What the caller is to do next for a save.
#[derive(Debug, PartialEq, Eq)]
pub enum SaveStep {
    /// Read the file at `path` and hand its content back.
    ReadFile { path: PathBuf },
    /// Analyse `text` and hand the report back.
    Analyze { text: String },
    /// Publish the notification; the save is done.
    Publish { notice: PublishDiagnostics },
    /// Publish nothing; the save has failed.
    Abort { error: SaveError },
}

/// The path of the local file that a URI names, by `Url::to_file_path` of
/// the `url` crate, which `tower_lsp` hands on. Which URIs name a file, and
/// which path, depends on the platform, so nothing is claimed of the
/// result.
#[verifier::external_body]
pub(crate) fn uri_file_path(uri: &Url) -> (path: Option<PathBuf>) {
    uri.to_file_path().ok()
}

/// The first step of a save, given the file that the URI resolved to: read
/// that file, or give up if there is none.
pub fn read_step(path: Option<PathBuf>) -> (step: SaveStep)
    ensures
        match path {
            Some(p) => step == (SaveStep::ReadFile { path: p }),
            None => step == (SaveStep::Abort { error: SaveError::NoFilePath }),
        },
{
    match path {
        Some(p) => SaveStep::ReadFile { path: p },
        None => SaveStep::Abort { error: SaveError::NoFilePath },
    }
}

/// The step after the file was read: analyse the content, or give up if
/// the read failed.
pub fn analyze_step(content: Option<String>) -> (step: SaveStep)
    ensures
        match content {
            Some(text) => step == (SaveStep::Analyze { text }),
            None => step == (SaveStep::Abort { error: SaveError::Unreadable }),
        },
{
    match content {
        Some(text) => SaveStep::Analyze { text },
        None => SaveStep::Abort { error: SaveError::Unreadable },
    }
}

/// The last step of a save: publish what the analysis found for `uri`, or
/// give up if the text could not be parsed.
pub fn publish_step(uri: Url, report: EngineReport) -> (step: SaveStep)
    requires
        report.wf(),
    ensures
        match report {
            EngineReport::Malformed => step == (SaveStep::Abort { error: SaveError::Malformed }),
            EngineReport::Analyzed(outcome) => {
                &&& step is Publish
                &&& step->notice.uri == uri
                &&& diagnostics_view(step->notice.diagnostics@) == outcome_diagnostics(outcome)
                &&& step->notice.diagnostics@.len() == outcome_diagnostics(outcome).len()
                &&& step->notice.version is None
            },
        },
{
    match report {
        EngineReport::Malformed => SaveStep::Abort { error: SaveError::Malformed },
        EngineReport::Analyzed(outcome) => SaveStep::Publish {
            notice: publish_outcome(uri, outcome),
        },
    }
}

} // verus!

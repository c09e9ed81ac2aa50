//! Parameters and results of the requests that the backend answers.

use crate::diagnostics::{Position, Range};
use vstd::prelude::*;

verus! {

/// A JSON value of `serde_json`, carried as it came.
#[verifier::external_type_specification]
#[verifier::external_body]
pub struct ExJsonValue(serde_json::Value);

/// A parsed URI, the `Url` that `tower_lsp` hands on from the `url` crate,
/// carried as it came.
#[verifier::external_type_specification]
#[verifier::external_body]
pub struct ExUrl(tower_lsp::lsp_types::Url);

/// A position in a document.
#[derive(Clone, Debug, PartialEq, Eq)]
pub struct TextDocumentPositionParams {
    pub uri: String,
    pub position: Position,
}

/// A search for symbols in the workspace.
#[derive(Clone, Debug, PartialEq, Eq)]
pub struct WorkspaceSymbolParams {
    pub query: String,
}

/// A command to run, with its arguments.
#[derive(Clone, Debug)]
pub struct ExecuteCommandParams {
    pub command: String,
    pub arguments: Vec<serde_json::Value>,
}

/// A range in a document.
#[derive(Debug, PartialEq, Eq)]
pub struct Location {
    pub uri: tower_lsp::lsp_types::Url,
    pub range: Range,
}

/// Where a name is declared or defined.
#[derive(Debug, PartialEq, Eq)]
pub enum GotoDefinitionResponse {
    Scalar(Location),
    Array(Vec<Location>),
}

/// What is shown when the pointer rests on a position.
#[derive(Clone, Debug, PartialEq, Eq)]
pub struct Hover {
    pub contents: String,
    pub range: Option<Range>,
}

/// A range to highlight.
#[derive(Clone, Copy, Debug, PartialEq, Eq, Structural)]
pub struct DocumentHighlight {
    pub range: Range,
}

/// What a symbol names.
#[derive(Clone, Copy, Debug, PartialEq, Eq, Structural)]
pub enum SymbolKind {
    Function,
    Variable,
    Constant,
}

/// A symbol of the workspace.
#[derive(Debug, PartialEq, Eq)]
pub struct SymbolInformation {
    pub name: String,
    pub kind: SymbolKind,
    pub location: Location,
}

} // verus!

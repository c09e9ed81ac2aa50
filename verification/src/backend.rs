//! The backend: one handler for each request and notification.

use crate::capabilities::{handshake, InitializeResult, ServerCapabilities};
use crate::completion::{aggregate, completion_list, entries_view, CompletionEntry, Lexicons};
use crate::diagnostics::{diagnostics_view, outcome_diagnostics};
use crate::documents::DocumentStore;
use crate::protocol::{
    DocumentHighlight, ExecuteCommandParams, GotoDefinitionResponse, Hover, SymbolInformation,
    TextDocumentPositionParams, WorkspaceSymbolParams,
};
use crate::save::{
    analyze_step, publish_step, read_step, uri_file_path, EngineReport, SaveError, SaveStep,
};
use tower_lsp::lsp_types::Url;
use vstd::prelude::*;

verus! {

/// The state of the server: the documents it tracks.
#[derive(Debug)]
pub struct Backend {
    tracked_documents: DocumentStore,
}

/// The documents after `changes` to the text of `uri`.
pub open spec fn documents_after(
    documents: Map<Seq<char>, Seq<char>>,
    uri: Seq<char>,
    changes: Seq<Seq<char>>,
) -> Map<Seq<char>, Seq<char>> {
    if changes.len() == 0 {
        documents
    } else {
        documents.insert(uri, changes.last())
    }
}

impl Backend {
    /// The text held for each tracked document, by URI.
    pub closed spec fn documents(&self) -> Map<Seq<char>, Seq<char>> {
        self.tracked_documents@
    }

    /// A backend that tracks no document.
    pub fn new() -> (backend: Backend)
        ensures
            backend.documents() == Map::<Seq<char>, Seq<char>>::empty(),
    {
        Backend { tracked_documents: DocumentStore::new() }
    }

    /// Answers the handshake. The answer is the same whatever the client
    /// offers and whatever the backend holds.
    pub fn initialize(&self) -> (result: InitializeResult)
        ensures
            result == handshake(),
    {
        InitializeResult { capabilities: ServerCapabilities::declared(), server_info: None }
    }

    /// Workspace symbols: none.
    pub fn symbol(&self, params: &WorkspaceSymbolParams) -> (symbols: Option<
        Vec<SymbolInformation>,
    >)
        ensures
            symbols is None,
    {
        None
    }

    /// Runs no command and gives no result.
    pub fn execute_command(&self, params: &ExecuteCommandParams) -> (result: Option<
        serde_json::Value,
    >)
        ensures
            result is None,
    {
        None
    }

    /// The completion list. It is the whole of the four lexicons, whatever
    /// the position and whatever documents are tracked.
    pub fn completion(&self, params: &TextDocumentPositionParams, lexicons: &Lexicons) -> (list:
        Option<Vec<CompletionEntry>>)
        ensures
            list is Some,
            entries_view(list->Some_0@) == completion_list(lexicons@),
    {
        Some(aggregate(lexicons))
    }

    /// The declaration of the name at a position: none.
    pub fn goto_declaration(&self, params: &TextDocumentPositionParams) -> (location: Option<
        GotoDefinitionResponse,
    >)
        ensures
            location is None,
    {
        None
    }

    /// The definition of the name at a position: none.
    pub fn goto_definition(&self, params: &TextDocumentPositionParams) -> (location: Option<
        GotoDefinitionResponse,
    >)
        ensures
            location is None,
    {
        None
    }

    /// The definition of the type of the name at a position: none.
    pub fn goto_type_definition(&self, params: &TextDocumentPositionParams) -> (location: Option<
        GotoDefinitionResponse,
    >)
        ensures
            location is None,
    {
        None
    }

    /// What to show at a position: nothing.
    pub fn hover(&self, params: &TextDocumentPositionParams) -> (hover: Option<Hover>)
        ensures
            hover is None,
    {
        None
    }

    /// The ranges to highlight for a position: none.
    pub fn document_highlight(&self, params: &TextDocumentPositionParams) -> (highlights: Option<
        Vec<DocumentHighlight>,
    >)
        ensures
            highlights is None,
    {
        None
    }

    /// The number of tracked documents.
    pub fn tracked_count(&self) -> (count: usize)
        ensures
            self.documents().dom().finite(),
            count == self.documents().dom().len(),
    {
        self.tracked_documents.len()
    }

    /// The text held for `uri`, if the document is tracked.
    pub fn tracked_text(&self, uri: &String) -> (text: Option<&String>)
        ensures
            match text {
                Some(t) => self.documents().contains_key(uri@) && t@ == self.documents()[uri@],
                None => !self.documents().contains_key(uri@),
            },
    {
        self.tracked_documents.get(uri)
    }

    /// A document was opened: its text is held from now on, in place of
    /// any text held for it before.
    pub fn did_open(&mut self, uri: String, text: String)
        ensures
            final(self).documents() == old(self).documents().insert(uri@, text@),
    {
        self.tracked_documents.upsert(uri, text);
    }

    /// A document was changed. Each change carries the whole new text, so
    /// the last one stands; without a change nothing happens.
    pub fn did_change(&mut self, uri: String, changes: Vec<String>)
        ensures
            final(self).documents() == documents_after(
                old(self).documents(),
                uri@,
                changes@.map_values(|c: String| c@),
            ),
    {
        let mut changes = changes;
        match changes.pop() {
            Some(text) => {
                self.tracked_documents.upsert(uri, text);
            },
            None => {},
        }
    }

    /// A document was saved. The save begins with its file: the step is to
    /// read the file that the URI names, or to give up where it names none.
    pub fn did_save(&self, uri: &Url) -> (step: SaveStep)
        ensures
            step is ReadFile || step == (SaveStep::Abort { error: SaveError::NoFilePath }),
    {
        read_step(uri_file_path(uri))
    }

    /// The file of a saved document was read, or could not be. What was
    /// read is held for the document from now on and is the text to
    /// analyse: the analysis is of the file, and the tracked text follows
    /// it. After a failed read nothing changes and the save is given up.
    pub fn file_read(&mut self, uri: String, content: Option<String>) -> (step: SaveStep)
        ensures
            match content {
                Some(text) => {
                    &&& step is Analyze
                    &&& step->text@ == text@
                    &&& final(self).documents() == old(self).documents().insert(uri@, text@)
                    &&& final(self).documents()[uri@] == step->text@
                },
                None => {
                    &&& step == (SaveStep::Abort { error: SaveError::Unreadable })
                    &&& final(self).documents() == old(self).documents()
                },
            },
    {
        match content {
            Some(text) => {
                self.tracked_documents.upsert(uri, text.clone());
                analyze_step(Some(text))
            },
            None => analyze_step(None),
        }
    }

    /// The text of a saved document was analysed, or could not be parsed.
    /// An outcome is published for the document, in place of whatever was
    /// published for it before; without an outcome the save is given up.
    pub fn analysis_done(&self, uri: Url, report: EngineReport) -> (step: SaveStep)
        requires
            report.wf(),
        ensures
            match report {
                EngineReport::Malformed => step == (SaveStep::Abort {
                    error: SaveError::Malformed,
                }),
                EngineReport::Analyzed(outcome) => {
                    &&& step is Publish
                    &&& step->notice.uri == uri
                    &&& diagnostics_view(step->notice.diagnostics@) == outcome_diagnostics(
                        outcome,
                    )
                    &&& step->notice.diagnostics@.len() == outcome_diagnostics(outcome).len()
                    &&& step->notice.version is None
                },
            },
    {
        publish_step(uri, report)
    }
}

impl Default for Backend {
    /// A backend that tracks no document.
    fn default() -> (backend: Backend)
        ensures
            backend.documents() == Map::<Seq<char>, Seq<char>>::empty(),
    {
        Backend::new()
    }
}

} // verus!

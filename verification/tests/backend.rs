use clarity_lsp::backend::Backend;
use clarity_lsp::capabilities::{
    CompletionOptions, InitializeResult, ServerCapabilities, TextDocumentSyncKind,
};
use clarity_lsp::diagnostics::{AnalysisOutcome, Position, Severity, Span};
use clarity_lsp::protocol::{
    ExecuteCommandParams, TextDocumentPositionParams, WorkspaceSymbolParams,
};
use clarity_lsp::save::{analyze_step, publish_step, read_step, EngineReport, SaveError, SaveStep};
use std::path::PathBuf;
use tower_lsp::lsp_types::Url;

fn url(text: &str) -> Url {
    Url::parse(text).unwrap()
}

fn s(text: &str) -> String {
    text.to_string()
}

fn at(uri: &str, line: u64, character: u64) -> TextDocumentPositionParams {
    TextDocumentPositionParams { uri: uri.to_string(), position: Position { line, character } }
}

fn unknown_variable() -> AnalysisOutcome {
    AnalysisOutcome::Failure {
        message: s("unknown variable"),
        spans: vec![
            Span { start_line: 2, start_column: 4, end_line: 2, end_column: 10 },
            Span { start_line: 5, start_column: 0, end_line: 5, end_column: 3 },
        ],
    }
}

#[test]
fn handshake_declares_the_fixed_capabilities() {
    let result = Backend::new().initialize();
    assert_eq!(
        result,
        InitializeResult {
            capabilities: ServerCapabilities {
                text_document_sync: Some(TextDocumentSyncKind::Full),
                hover_provider: true,
                completion_provider: Some(CompletionOptions {
                    resolve_provider: true,
                    trigger_characters: None,
                }),
                signature_help_provider: false,
                definition_provider: false,
                type_definition_provider: true,
                implementation_provider: false,
                references_provider: false,
                document_highlight_provider: false,
                document_symbol_provider: false,
                workspace_symbol_provider: false,
                code_action_provider: false,
                code_lens_provider: false,
                document_formatting_provider: true,
                document_range_formatting_provider: false,
                document_on_type_formatting_provider: false,
                rename_provider: false,
                document_link_provider: false,
                color_provider: false,
                folding_range_provider: false,
                declaration_provider: true,
                execute_command_provider: false,
                workspace: false,
                experimental: false,
            },
            server_info: None,
        }
    );
    assert_eq!(result.capabilities, ServerCapabilities::declared());
}

#[test]
fn handshake_is_stable() {
    let mut backend = Backend::new();
    let first = backend.initialize();
    let second = backend.initialize();
    assert_eq!(first, second);
    backend.did_open(s("file:///a.clar"), s("(+ 1 2)"));
    assert_eq!(backend.initialize(), first);
    assert_eq!(Backend::new().initialize(), first);
}

#[test]
fn stub_requests_answer_nothing() {
    let mut backend = Backend::new();
    let params = at("file:///a.clar", 3, 9);
    assert_eq!(backend.hover(&params), None);
    assert_eq!(backend.goto_definition(&params), None);
    assert_eq!(backend.goto_declaration(&params), None);
    assert_eq!(backend.goto_type_definition(&params), None);
    assert_eq!(backend.document_highlight(&params), None);
    assert_eq!(backend.symbol(&WorkspaceSymbolParams { query: s("transfer") }), None);
    let command = ExecuteCommandParams {
        command: s("clarity.check"),
        arguments: vec![serde_json::Value::Bool(true), serde_json::Value::Null],
    };
    assert_eq!(backend.execute_command(&command), None);

    backend.did_open(s("file:///a.clar"), s("(define-public (f) (ok 1))"));
    assert_eq!(backend.hover(&params), None);
    assert_eq!(backend.goto_definition(&at("", u64::MAX, u64::MAX)), None);
    assert_eq!(backend.symbol(&WorkspaceSymbolParams { query: String::new() }), None);
    assert_eq!(
        backend.execute_command(&ExecuteCommandParams { command: String::new(), arguments: vec![] }),
        None
    );
}

#[test]
fn new_backend_tracks_nothing() {
    let backend = Backend::new();
    assert_eq!(backend.tracked_text(&s("file:///a.clar")), None);
    assert_eq!(backend.tracked_count(), 0);
}

#[test]
fn each_uri_is_tracked_once() {
    let mut backend = Backend::new();
    backend.did_open(s("file:///a.clar"), s("one"));
    backend.did_open(s("file:///b.clar"), s("two"));
    backend.did_change(s("file:///a.clar"), vec![s("three")]);
    backend.did_open(s("file:///a.clar"), s("four"));
    assert_eq!(backend.file_read(s("file:///b.clar"), Some(s("five"))), SaveStep::Analyze {
        text: s("five")
    });
    assert_eq!(backend.tracked_count(), 2);
    assert_eq!(backend.tracked_text(&s("file:///a.clar")), Some(&s("four")));
    assert_eq!(backend.tracked_text(&s("file:///b.clar")), Some(&s("five")));
}

#[test]
fn open_and_change_set_the_tracked_text() {
    let mut backend = Backend::new();
    backend.did_open(s("file:///a.clar"), s("v1"));
    assert_eq!(backend.tracked_text(&s("file:///a.clar")), Some(&s("v1")));

    backend.did_change(s("file:///a.clar"), vec![s("v2")]);
    assert_eq!(backend.tracked_text(&s("file:///a.clar")), Some(&s("v2")));

    backend.did_change(s("file:///a.clar"), vec![s("v3"), s("v4"), s("v5")]);
    assert_eq!(backend.tracked_text(&s("file:///a.clar")), Some(&s("v5")));

    backend.did_change(s("file:///a.clar"), vec![]);
    assert_eq!(backend.tracked_text(&s("file:///a.clar")), Some(&s("v5")));

    backend.did_open(s("file:///a.clar"), s("reopened"));
    assert_eq!(backend.tracked_text(&s("file:///a.clar")), Some(&s("reopened")));
}

#[test]
fn change_of_an_unopened_document_tracks_it() {
    let mut backend = Backend::new();
    backend.did_change(s("file:///b.clar"), vec![]);
    assert_eq!(backend.tracked_text(&s("file:///b.clar")), None);
    backend.did_change(s("file:///b.clar"), vec![s("fresh")]);
    assert_eq!(backend.tracked_text(&s("file:///b.clar")), Some(&s("fresh")));
}

#[test]
fn save_asks_for_the_file_that_the_uri_names() {
    let backend = Backend::new();
    assert_eq!(
        backend.did_save(&url("file:///tmp/contracts/token.clar")),
        SaveStep::ReadFile { path: PathBuf::from("/tmp/contracts/token.clar") }
    );
    assert_eq!(
        backend.did_save(&url("file:///tmp/my%20contract.clar")),
        SaveStep::ReadFile { path: PathBuf::from("/tmp/my contract.clar") }
    );
}

#[test]
fn save_of_a_uri_without_a_file_is_given_up() {
    let backend = Backend::new();
    let gone = SaveStep::Abort { error: SaveError::NoFilePath };
    assert_eq!(backend.did_save(&url("file://example.com/tmp/token.clar")), gone);
    assert_eq!(backend.did_save(&url("mailto:someone@example.com")), gone);
    assert_eq!(backend.did_save(&url("untitled:Untitled-1")), gone);
}

#[test]
fn read_step_follows_the_path() {
    assert_eq!(
        read_step(Some(PathBuf::from("/tmp/a.clar"))),
        SaveStep::ReadFile { path: PathBuf::from("/tmp/a.clar") }
    );
    assert_eq!(read_step(None), SaveStep::Abort { error: SaveError::NoFilePath });
}

#[test]
fn analyze_step_follows_the_read() {
    assert_eq!(analyze_step(Some(s("(+ 1 2)"))), SaveStep::Analyze { text: s("(+ 1 2)") });
    assert_eq!(analyze_step(None), SaveStep::Abort { error: SaveError::Unreadable });
}

#[test]
fn publish_step_follows_the_report() {
    assert_eq!(
        publish_step(url("file:///a.clar"), EngineReport::Malformed),
        SaveStep::Abort { error: SaveError::Malformed }
    );
    match publish_step(url("file:///a.clar"), EngineReport::Analyzed(AnalysisOutcome::Success)) {
        SaveStep::Publish { notice } => {
            assert_eq!(notice.uri, url("file:///a.clar"));
            assert!(notice.diagnostics.is_empty());
            assert_eq!(notice.version, None);
        }
        other => panic!("unexpected step {:?}", other),
    }
}

#[test]
fn file_content_becomes_the_tracked_and_analysed_text() {
    let mut backend = Backend::new();
    backend.did_open(s("file:///a.clar"), s("in the editor"));
    let step = backend.file_read(s("file:///a.clar"), Some(s("on disk")));
    assert_eq!(step, SaveStep::Analyze { text: s("on disk") });
    assert_eq!(backend.tracked_text(&s("file:///a.clar")), Some(&s("on disk")));
}

#[test]
fn failed_read_changes_nothing() {
    let mut backend = Backend::new();
    backend.did_open(s("file:///a.clar"), s("in the editor"));
    let step = backend.file_read(s("file:///a.clar"), None);
    assert_eq!(step, SaveStep::Abort { error: SaveError::Unreadable });
    assert_eq!(backend.tracked_text(&s("file:///a.clar")), Some(&s("in the editor")));
    let step = backend.file_read(s("file:///b.clar"), None);
    assert_eq!(step, SaveStep::Abort { error: SaveError::Unreadable });
    assert_eq!(backend.tracked_text(&s("file:///b.clar")), None);
}

#[test]
fn analysed_save_publishes_for_the_document() {
    let backend = Backend::new();
    match backend.analysis_done(url("file:///a.clar"), EngineReport::Analyzed(unknown_variable()))
    {
        SaveStep::Publish { notice } => {
            assert_eq!(notice.uri, url("file:///a.clar"));
            assert_eq!(notice.version, None);
            assert_eq!(notice.diagnostics.len(), 1);
            assert_eq!(notice.diagnostics[0].range.start, Position { line: 2, character: 4 });
            assert_eq!(notice.diagnostics[0].range.end, Position { line: 2, character: 10 });
            assert_eq!(notice.diagnostics[0].severity, Severity::Error);
            assert_eq!(notice.diagnostics[0].source, "clarity");
            assert_eq!(notice.diagnostics[0].message, "unknown variable");
        }
        other => panic!("unexpected step {:?}", other),
    }
}

#[test]
fn unparsed_save_is_given_up() {
    let backend = Backend::new();
    assert_eq!(
        backend.analysis_done(url("file:///a.clar"), EngineReport::Malformed),
        SaveStep::Abort { error: SaveError::Malformed }
    );
}

#[test]
fn second_save_replaces_the_first() {
    let backend = Backend::new();
    let uri = url("file:///a.clar");
    let first = backend.analysis_done(uri.clone(), EngineReport::Analyzed(unknown_variable()));
    let second =
        backend.analysis_done(uri.clone(), EngineReport::Analyzed(AnalysisOutcome::Success));
    let mut shown = std::collections::HashMap::new();
    for step in [first, second] {
        match step {
            SaveStep::Publish { notice } => {
                shown.insert(notice.uri, notice.diagnostics);
            }
            other => panic!("unexpected step {:?}", other),
        }
    }
    assert!(shown[&uri].is_empty());
}

#[test]
fn report_well_formedness_follows_the_outcome() {
    assert!(EngineReport::Malformed.is_well_formed());
    assert!(EngineReport::Analyzed(AnalysisOutcome::Success).is_well_formed());
    assert!(EngineReport::Analyzed(unknown_variable()).is_well_formed());
    let bare = AnalysisOutcome::Failure { message: s("x"), spans: vec![] };
    assert!(!EngineReport::Analyzed(bare).is_well_formed());
}

#[test]
fn default_backend_tracks_nothing() {
    let backend = Backend::default();
    assert_eq!(backend.tracked_count(), 0);
    assert_eq!(backend.tracked_text(&s("file:///a.clar")), None);
}

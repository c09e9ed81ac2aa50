//! The diagnostics published for a document, as the outcome of its analysis
//! gives them.

use tower_lsp::lsp_types::Url;
use vstd::prelude::*;

verus! {

/// A source range reported by the analysis engine: zero-based lines and
/// columns.
#[derive(Clone, Copy, Debug, PartialEq, Eq, Structural)]
pub struct Span {
    pub start_line: u32,
    pub start_column: u32,
    pub end_line: u32,
    pub end_column: u32,
}

/// A zero-based line and column in a document, in protocol coordinates.
#[derive(Clone, Copy, Debug, PartialEq, Eq, Structural)]
pub struct Position {
    pub line: u64,
    pub character: u64,
}

/// A range between two positions of a document.
#[derive(Clone, Copy, Debug, PartialEq, Eq, Structural)]
pub struct Range {
    pub start: Position,
    pub end: Position,
}

/// The protocol range that covers `span`: the same four coordinates.
pub open spec fn span_range(span: Span) -> Range {
    Range {
        start: Position { line: span.start_line as u64, character: span.start_column as u64 },
        end: Position { line: span.end_line as u64, character: span.end_column as u64 },
    }
}

impl Span {
    /// Converts the span to protocol coordinates, without any adjustment.
    pub fn to_range(&self) -> (range: Range)
        ensures
            range == span_range(*self),
            range.start.line == self.start_line,
            range.start.character == self.start_column,
            range.end.line == self.end_line,
            range.end.character == self.end_column,
    {
        Range {
            start: Position { line: self.start_line as u64, character: self.start_column as u64 },
            end: Position { line: self.end_line as u64, character: self.end_column as u64 },
        }
    }
}

/// How grave a diagnostic is.
#[derive(Clone, Copy, Debug, PartialEq, Eq, Structural)]
pub enum Severity {
    Error,
    Warning,
    Information,
    Hint,
}

/// A problem report on a document.
#[derive(Clone, Debug, PartialEq, Eq)]
pub struct Diagnostic {
    pub range: Range,
    pub severity: Severity,
    pub source: String,
    pub message: String,
}

/// A diagnostic with its texts as sequences of characters.
pub struct DiagnosticView {
    pub range: Range,
    pub severity: Severity,
    pub source: Seq<char>,
    pub message: Seq<char>,
}

impl View for Diagnostic {
    type V = DiagnosticView;

    open spec fn view(&self) -> DiagnosticView {
        DiagnosticView {
            range: self.range,
            severity: self.severity,
            source: self.source@,
            message: self.message@,
        }
    }
}

/// The diagnostics of a list, each by its view.
pub open spec fn diagnostics_view(diagnostics: Seq<Diagnostic>) -> Seq<DiagnosticView> {
    diagnostics.map_values(|d: Diagnostic| d@)
}

/// What the analysis engine found in a document.
#[derive(Clone, Debug, PartialEq, Eq)]
pub enum AnalysisOutcome {
    Success,
    Failure { message: String, spans: Vec<Span> },
}

impl AnalysisOutcome {
    /// A failure carries at least one span.
    pub open spec fn wf(&self) -> bool {
        match self {
            AnalysisOutcome::Success => true,
            AnalysisOutcome::Failure { spans, .. } => spans@.len() > 0,
        }
    }

    /// Tells whether the outcome is well formed, so that a caller can test a
    /// value before it hands it to `translate`.
    pub fn is_well_formed(&self) -> (ok: bool)
        ensures
            ok == self.wf(),
    {
        match self {
            AnalysisOutcome::Success => true,
            AnalysisOutcome::Failure { spans, .. } => spans.len() > 0,
        }
    }
}

/// The tag that names the analysis engine as a diagnostic's source.
pub open spec fn source_tag() -> Seq<char> {
    "clarity"@
}

/// The one diagnostic of a failure: an error at `span`, with the failure's
/// message.
pub open spec fn failure_diagnostic(message: Seq<char>, span: Span) -> DiagnosticView {
    DiagnosticView {
        range: span_range(span),
        severity: Severity::Error,
        source: source_tag(),
        message,
    }
}

/// The diagnostics that an outcome is published as: none for a success, and
/// for a failure one, taken from its first span.
pub open spec fn outcome_diagnostics(outcome: AnalysisOutcome) -> Seq<DiagnosticView> {
    match outcome {
        AnalysisOutcome::Success => Seq::empty(),
        AnalysisOutcome::Failure { message, spans } => seq![
            failure_diagnostic(message@, spans@[0]),
        ],
    }
}

/// Maps an analysis outcome to the diagnostics to publish. Spans after the
/// first are not reported.
pub fn translate(outcome: AnalysisOutcome) -> (diagnostics: Vec<Diagnostic>)
    requires
        outcome.wf(),
    ensures
        diagnostics_view(diagnostics@) == outcome_diagnostics(outcome),
        outcome is Success ==> diagnostics@.len() == 0,
        outcome is Failure ==> diagnostics@.len() == 1,
{
    let mut diagnostics: Vec<Diagnostic> = Vec::new();
    match outcome {
        AnalysisOutcome::Success => {},
        AnalysisOutcome::Failure { message, spans } => {
            let ghost text = message@;
            let diagnostic = Diagnostic {
                range: spans[0].to_range(),
                severity: Severity::Error,
                source: "clarity".to_string(),
                message,
            };
            assert(diagnostic@ == failure_diagnostic(text, spans@[0]));
            diagnostics.push(diagnostic);
        },
    }
    assert(diagnostics_view(diagnostics@) =~= outcome_diagnostics(outcome));
    diagnostics
}

/// The notification that replaces the diagnostics shown for a document.
#[derive(Debug, PartialEq, Eq)]
pub struct PublishDiagnostics {
    pub uri: Url,
    pub diagnostics: Vec<Diagnostic>,
    pub version: Option<i32>,
}

/// The diagnostics on show, by document, once `diagnostics` have been
/// published for `uri`: that document's set is replaced whole, every other
/// document keeps its own.
pub open spec fn published(
    shown: Map<Url, Seq<DiagnosticView>>,
    uri: Url,
    diagnostics: Seq<DiagnosticView>,
) -> Map<Url, Seq<DiagnosticView>> {
    shown.insert(uri, diagnostics)
}

/// Builds the notification that publishes an outcome for a document, with
/// no version.
pub fn publish_outcome(uri: Url, outcome: AnalysisOutcome) -> (notice: PublishDiagnostics)
    requires
        outcome.wf(),
    ensures
        notice.uri == uri,
        diagnostics_view(notice.diagnostics@) == outcome_diagnostics(outcome),
        notice.diagnostics@.len() == outcome_diagnostics(outcome).len(),
        notice.version is None,
{
    PublishDiagnostics { uri, diagnostics: translate(outcome), version: None }
}

/// A successful analysis publishes no diagnostic.
pub proof fn lemma_success_publishes_nothing()
    ensures
        outcome_diagnostics(AnalysisOutcome::Success) == Seq::<DiagnosticView>::empty(),
{
}

/// A failure publishes exactly one diagnostic: an error from the engine, at
/// the failure's first span and with its message, whatever spans follow.
pub proof fn lemma_failure_publishes_first_span(message: String, spans: Vec<Span>)
    requires
        spans@.len() > 0,
    ensures
        outcome_diagnostics(AnalysisOutcome::Failure { message, spans }).len() == 1,
        outcome_diagnostics(AnalysisOutcome::Failure { message, spans })[0] == (DiagnosticView {
            range: span_range(spans@[0]),
            severity: Severity::Error,
            source: source_tag(),
            message: message@,
        }),
{
}

/// Publishing replaces: after two publications for one document only the
/// second is on show, and no other document is touched.
pub proof fn lemma_publish_replaces(
    shown: Map<Url, Seq<DiagnosticView>>,
    uri: Url,
    first: Seq<DiagnosticView>,
    second: Seq<DiagnosticView>,
)
    ensures
        published(published(shown, uri, first), uri, second) == published(shown, uri, second),
        published(published(shown, uri, first), uri, second)[uri] == second,
        forall|other: Url|
            other != uri ==> (#[trigger] published(
                published(shown, uri, first),
                uri,
                second,
            ).contains_key(other) <==> shown.contains_key(other)),
        forall|other: Url|
            other != uri && shown.contains_key(other) ==> #[trigger] published(
                published(shown, uri, first),
                uri,
                second,
            )[other] == shown[other],
{
    assert(published(published(shown, uri, first), uri, second) =~= published(
        shown,
        uri,
        second,
    ));
}

/// A save that fails analysis followed by a save of the same document that
/// passes leaves no diagnostic on show for it.
pub proof fn lemma_success_clears_failure(
    shown: Map<Url, Seq<DiagnosticView>>,
    uri: Url,
    failure: AnalysisOutcome,
)
    requires
        failure is Failure,
        failure.wf(),
    ensures
        published(shown, uri, outcome_diagnostics(failure))[uri].len() == 1,
        published(
            published(shown, uri, outcome_diagnostics(failure)),
            uri,
            outcome_diagnostics(AnalysisOutcome::Success),
        )[uri] == Seq::<DiagnosticView>::empty(),
{
}

} // verus!

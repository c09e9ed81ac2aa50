//! The capability declaration that answers the handshake.

use vstd::prelude::*;

verus! {

/// How the client is to send the text of a changed document.
#[derive(Clone, Copy, Debug, PartialEq, Eq, Structural)]
pub enum TextDocumentSyncKind {
    Nothing,
    Full,
    Incremental,
}

/// What the server offers for completion.
#[derive(Clone, Debug, PartialEq, Eq)]
pub struct CompletionOptions {
    /// The server resolves further information for a completion entry.
    pub resolve_provider: bool,
    /// The characters that trigger completion by themselves, if any.
    pub trigger_characters: Option<Vec<String>>,
}

/// The optional features of the protocol. A provider that is `true` is
/// declared as supported; one that is `false` is left out of the
/// declaration.
#[derive(Clone, Debug, PartialEq, Eq)]
pub struct ServerCapabilities {
    pub text_document_sync: Option<TextDocumentSyncKind>,
    pub hover_provider: bool,
    pub completion_provider: Option<CompletionOptions>,
    pub signature_help_provider: bool,
    pub definition_provider: bool,
    pub type_definition_provider: bool,
    pub implementation_provider: bool,
    pub references_provider: bool,
    pub document_highlight_provider: bool,
    pub document_symbol_provider: bool,
    pub workspace_symbol_provider: bool,
    pub code_action_provider: bool,
    pub code_lens_provider: bool,
    pub document_formatting_provider: bool,
    pub document_range_formatting_provider: bool,
    pub document_on_type_formatting_provider: bool,
    pub rename_provider: bool,
    pub document_link_provider: bool,
    pub color_provider: bool,
    pub folding_range_provider: bool,
    pub declaration_provider: bool,
    pub execute_command_provider: bool,
    pub workspace: bool,
    pub experimental: bool,
}

/// The answer to the handshake.
#[derive(Clone, Debug, PartialEq, Eq)]
pub struct InitializeResult {
    pub capabilities: ServerCapabilities,
    /// The server's name, if it gives one.
    pub server_info: Option<String>,
}

/// The capabilities of this server: documents are synchronised in full;
/// hover, completion (with resolve, without trigger characters), type
/// definition, declaration and document formatting are declared; nothing
/// else is.
pub open spec fn declared_capabilities() -> ServerCapabilities {
    ServerCapabilities {
        text_document_sync: Some(TextDocumentSyncKind::Full),
        hover_provider: true,
        completion_provider: Some(
            CompletionOptions { resolve_provider: true, trigger_characters: None },
        ),
        signature_help_provider: false,
        definition_provider: false,
        type_definition_provider: true,
        implementation_provider: false,
        references_provider: false,
        document_highlight_provider: false,
        document_symbol_provider: false,
        workspace_symbol_provider: false,
        code_action_provider: false,
        code_lens_provider: false,
        document_formatting_provider: true,
        document_range_formatting_provider: false,
        document_on_type_formatting_provider: false,
        rename_provider: false,
        document_link_provider: false,
        color_provider: false,
        folding_range_provider: false,
        declaration_provider: true,
        execute_command_provider: false,
        workspace: false,
        experimental: false,
    }
}

/// The whole answer to the handshake: the declared capabilities, and no
/// server name.
pub open spec fn handshake() -> InitializeResult {
    InitializeResult { capabilities: declared_capabilities(), server_info: None }
}

impl ServerCapabilities {
    /// The fixed capability declaration.
    pub fn declared() -> (capabilities: ServerCapabilities)
        ensures
            capabilities == declared_capabilities(),
    {
        ServerCapabilities {
            text_document_sync: Some(TextDocumentSyncKind::Full),
            hover_provider: true,
            completion_provider: Some(
                CompletionOptions { resolve_provider: true, trigger_characters: None },
            ),
            signature_help_provider: false,
            definition_provider: false,
            type_definition_provider: true,
            implementation_provider: false,
            references_provider: false,
            document_highlight_provider: false,
            document_symbol_provider: false,
            workspace_symbol_provider: false,
            code_action_provider: false,
            code_lens_provider: false,
            document_formatting_provider: true,
            document_range_formatting_provider: false,
            document_on_type_formatting_provider: false,
            rename_provider: false,
            document_link_provider: false,
            color_provider: false,
            folding_range_provider: false,
            declaration_provider: true,
            execute_command_provider: false,
            workspace: false,
            experimental: false,
        }
    }
}

} // verus!

//! Request and notification backend of a language server for the Clarity
//! contract language: document tracking, the handshake, the completion
//! list, and the diagnostics published when a document is saved.

pub mod backend;
pub mod capabilities;
pub mod completion;
pub mod diagnostics;
pub mod documents;
pub mod protocol;
pub mod save;

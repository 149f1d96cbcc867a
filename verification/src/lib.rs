//! The editing core of a source-code editor: live text buffers and the
//! revision-guarded pipeline that keeps their derived analysis data
//! (highlights, diagnostics, code actions) consistent with results that are
//! computed elsewhere and may arrive late, out of order or stale.

pub mod buffer;
pub mod command;
pub mod diagnostic;
pub mod editor;
pub mod laws;
pub mod lsp;
pub mod revision;
pub mod text;
pub mod worker;

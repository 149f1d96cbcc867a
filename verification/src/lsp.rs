//! The values of the language-server protocol that pass through the editing
//! core, and the few reads of them that the core needs. The types are opaque
//! to the verifier. Each read depends on the value read and on nothing else,
//! so what it returns has a name, and the contracts of the core say which
//! path, which diagnostics and which severities a command brought.

use crate::command::Position;
use crate::diagnostic::Severity;
use vstd::prelude::*;

verus! {

/// `lsp_types::Diagnostic`: a diagnostic as the language server reports it.
/// The editor carries it through unread.
#[verifier::external_type_specification]
#[verifier::external_body]
pub struct ExDiagnostic(lsp_types::Diagnostic);

/// `lsp_types::CodeActionOrCommand`: one entry of a code-action reply. The
/// editor stores such replies and hands them back.
#[verifier::external_type_specification]
#[verifier::external_body]
pub struct ExCodeActionOrCommand(lsp_types::CodeActionOrCommand);

/// `lsp_types::PublishDiagnosticsParams`: the parameters of a
/// `textDocument/publishDiagnostics` notification.
#[verifier::external_type_specification]
#[verifier::external_body]
pub struct ExPublishDiagnosticsParams(lsp_types::PublishDiagnosticsParams);

/// `lsp_types::Location`: a range in a document.
#[verifier::external_type_specification]
#[verifier::external_body]
pub struct ExLocation(lsp_types::Location);

/// `lsp_types::Url`: the address of a document.
#[verifier::external_type_specification]
#[verifier::external_body]
pub struct ExUrl(lsp_types::Url);

/// The severity that a diagnostic was reported with, if it has one.
pub uninterp spec fn severity_of(diagnostic: lsp_types::Diagnostic) -> Option<Severity>;

/// The path part of a document's address.
pub uninterp spec fn path_of(uri: lsp_types::Url) -> Seq<char>;

/// The address of the document that a report of diagnostics is about.
pub uninterp spec fn report_uri(params: lsp_types::PublishDiagnosticsParams) -> lsp_types::Url;

/// The diagnostics that a report brings, in order.
pub uninterp spec fn report_diagnostics(params: lsp_types::PublishDiagnosticsParams) -> Seq<
    lsp_types::Diagnostic,
>;

/// The address of the document that a location lies in.
pub uninterp spec fn location_address(location: lsp_types::Location) -> lsp_types::Url;

/// The line and the column at which the range of a location starts.
pub uninterp spec fn location_origin(location: lsp_types::Location) -> Position;

/// Reads the `severity` field of an `lsp_types::Diagnostic` and names the
/// variant of `lsp_types::DiagnosticSeverity` found there. The contract
/// claims only that the result is the one that `severity_of` names: the
/// same diagnostic always reads the same.
#[verifier::external_body]
pub(crate) fn reported_severity(diagnostic: &lsp_types::Diagnostic) -> (severity: Option<Severity>)
    ensures
        severity == severity_of(*diagnostic),
{
    match diagnostic.severity {
        None => None,
        Some(lsp_types::DiagnosticSeverity::Error) => Some(Severity::Error),
        Some(lsp_types::DiagnosticSeverity::Warning) => Some(Severity::Warning),
        Some(lsp_types::DiagnosticSeverity::Information) => Some(Severity::Information),
        Some(lsp_types::DiagnosticSeverity::Hint) => Some(Severity::Hint),
    }
}

/// Calls `Url::path`: the path part of a document's address, as a string of
/// its own. The contract claims only that the result is the one that
/// `path_of` names: the same address always has the same path.
#[verifier::external_body]
pub(crate) fn uri_path(uri: &lsp_types::Url) -> (path: String)
    ensures
        path@ == path_of(*uri),
{
    uri.path().to_string()
}

/// Reads the `uri` field of an `lsp_types::PublishDiagnosticsParams`. The
/// contract claims only that the result is the one that `report_uri` names.
#[verifier::external_body]
pub(crate) fn published_uri(params: &lsp_types::PublishDiagnosticsParams) -> (uri: &lsp_types::Url)
    ensures
        *uri == report_uri(*params),
{
    &params.uri
}

/// Takes the `diagnostics` field out of an
/// `lsp_types::PublishDiagnosticsParams`. The contract claims only that the
/// result is the sequence that `report_diagnostics` names.
#[verifier::external_body]
pub(crate) fn published_diagnostics(params: lsp_types::PublishDiagnosticsParams) -> (diagnostics:
    Vec<lsp_types::Diagnostic>)
    ensures
        diagnostics@ == report_diagnostics(params),
{
    params.diagnostics
}

/// Reads the `uri` field of an `lsp_types::Location`. The contract claims
/// only that the result is the one that `location_address` names.
#[verifier::external_body]
pub(crate) fn location_uri(location: &lsp_types::Location) -> (uri: &lsp_types::Url)
    ensures
        *uri == location_address(*location),
{
    &location.uri
}

/// Reads where the range of an `lsp_types::Location` starts: the fields
/// `line` and `character` of `range.start`. The contract claims only that
/// the result is the one that `location_origin` names.
#[verifier::external_body]
pub(crate) fn location_start(location: &lsp_types::Location) -> (start: Position)
    ensures
        start == location_origin(*location),
{
    Position { line: location.range.start.line, character: location.range.start.character }
}

} // verus!

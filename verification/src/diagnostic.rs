//! Diagnostics as the editor keeps them, and the counts derived from them.

use crate::lsp::{reported_severity, severity_of};
use vstd::prelude::*;

verus! {

/// How serious a diagnostic is.
#[derive(Clone, Copy, Debug, PartialEq, Eq, Structural)]
pub enum Severity {
    Error,
    Warning,
    Information,
    Hint,
}

/// A range of byte offsets in a buffer's text.
#[derive(Clone, Copy, Debug, PartialEq, Eq, Structural)]
pub struct OffsetRange {
    pub start: usize,
    pub end: usize,
}

/// A diagnostic attached to a buffer.
#[derive(Debug, PartialEq)]
pub struct EditorDiagnostic {
    /// Where in the text it applies; `None` until it has been mapped to
    /// offsets of the buffer.
    pub range: Option<OffsetRange>,
    /// Its severity, if the server gave one.
    pub severity: Option<Severity>,
    /// The diagnostic as it was reported.
    pub diagnostic: lsp_types::Diagnostic,
}

impl EditorDiagnostic {
    /// Takes in a reported diagnostic with the severity that it was
    /// reported with. Its range is not resolved yet.
    pub fn new(diagnostic: lsp_types::Diagnostic) -> (taken: EditorDiagnostic)
        ensures
            taken == taken_of(diagnostic),
    {
        let severity = reported_severity(&diagnostic);
        EditorDiagnostic::with_severity(severity, diagnostic)
    }

    /// The diagnostic with the severity that was read from it.
    pub fn with_severity(severity: Option<Severity>, diagnostic: lsp_types::Diagnostic) -> (taken:
        EditorDiagnostic)
        ensures
            taken == (EditorDiagnostic { range: None, severity, diagnostic }),
    {
        EditorDiagnostic { range: None, severity, diagnostic }
    }

    pub fn is_error(&self) -> (yes: bool)
        ensures
            yes == (self.severity == Some(Severity::Error)),
    {
        match self.severity {
            Some(Severity::Error) => true,
            _ => false,
        }
    }

    pub fn is_warning(&self) -> (yes: bool)
        ensures
            yes == (self.severity == Some(Severity::Warning)),
    {
        match self.severity {
            Some(Severity::Warning) => true,
            _ => false,
        }
    }
}

/// A reported diagnostic as the editor keeps it: with the severity it was
/// reported with, and no range yet.
pub open spec fn taken_of(diagnostic: lsp_types::Diagnostic) -> EditorDiagnostic {
    EditorDiagnostic { range: None, severity: severity_of(diagnostic), diagnostic }
}

/// The diagnostics of a report as the editor keeps them, one for one.
pub open spec fn taken_in(reported: Seq<lsp_types::Diagnostic>) -> Seq<EditorDiagnostic> {
    Seq::new(reported.len(), |i: int| taken_of(reported[i]))
}

/// Takes in every diagnostic of a report, in order.
pub fn take_in(reported: Vec<lsp_types::Diagnostic>) -> (taken: Vec<EditorDiagnostic>)
    ensures
        taken@ == taken_in(reported@),
{
    let ghost all = reported@;
    let mut reported = reported;
    let mut reversed: Vec<EditorDiagnostic> = Vec::new();
    while reported.len() > 0
        invariant
            reported@.len() + reversed@.len() == all.len(),
            reported@ == all.subrange(0, reported@.len() as int),
            forall|i: int|
                0 <= i < reversed@.len() ==> #[trigger] reversed@[i] == taken_of(
                    all[all.len() - 1 - i],
                ),
        decreases reported@.len(),
    {
        let last = reported.pop();
        match last {
            Some(diagnostic) => {
                reversed.push(EditorDiagnostic::new(diagnostic));
            },
            None => {},
        }
        assert(reported@ =~= all.subrange(0, reported@.len() as int));
    }
    let mut taken: Vec<EditorDiagnostic> = Vec::new();
    while reversed.len() > 0
        invariant
            reversed@.len() + taken@.len() == all.len(),
            forall|i: int|
                0 <= i < reversed@.len() ==> #[trigger] reversed@[i] == taken_of(
                    all[all.len() - 1 - i],
                ),
            forall|i: int| 0 <= i < taken@.len() ==> #[trigger] taken@[i] == taken_of(all[i]),
        decreases reversed@.len(),
    {
        let last = reversed.pop();
        match last {
            Some(diagnostic) => {
                taken.push(diagnostic);
            },
            None => {},
        }
    }
    assert(taken@ =~= taken_in(all));
    taken
}

/// How many of `diagnostics` have the severity `severity`.
pub open spec fn count_of(diagnostics: Seq<EditorDiagnostic>, severity: Severity) -> nat
    decreases diagnostics.len(),
{
    if diagnostics.len() == 0 {
        0
    } else {
        count_of(diagnostics.drop_last(), severity) + if diagnostics.last().severity == Some(
            severity,
        ) {
            1nat
        } else {
            0nat
        }
    }
}

/// No more diagnostics of one severity than diagnostics.
pub proof fn lemma_count_bounded(diagnostics: Seq<EditorDiagnostic>, severity: Severity)
    ensures
        count_of(diagnostics, severity) <= diagnostics.len(),
    decreases diagnostics.len(),
{
    if diagnostics.len() > 0 {
        lemma_count_bounded(diagnostics.drop_last(), severity);
    }
}

/// The errors and the warnings among the diagnostics of one buffer.
#[derive(Clone, Copy, Debug, PartialEq, Eq, Structural)]
pub struct Tally {
    pub errors: usize,
    pub warnings: usize,
}

/// Counts the errors and the warnings among `diagnostics`. Diagnostics of
/// another severity, or of none, count as neither.
pub fn tally(diagnostics: &Vec<EditorDiagnostic>) -> (found: Tally)
    ensures
        found.errors == count_of(diagnostics@, Severity::Error),
        found.warnings == count_of(diagnostics@, Severity::Warning),
{
    let mut errors: usize = 0;
    let mut warnings: usize = 0;
    let mut i: usize = 0;
    while i < diagnostics.len()
        invariant
            i <= diagnostics@.len(),
            errors == count_of(diagnostics@.subrange(0, i as int), Severity::Error),
            warnings == count_of(diagnostics@.subrange(0, i as int), Severity::Warning),
        decreases diagnostics@.len() - i,
    {
        let ghost prefix = diagnostics@.subrange(0, i as int);
        let ghost next = diagnostics@.subrange(0, i + 1);
        proof {
            assert(next.drop_last() =~= prefix);
            lemma_count_bounded(next, Severity::Error);
            lemma_count_bounded(next, Severity::Warning);
        }
        if diagnostics[i].is_error() {
            errors += 1;
        } else if diagnostics[i].is_warning() {
            warnings += 1;
        }
        i += 1;
    }
    assert(diagnostics@.subrange(0, i as int) =~= diagnostics@);
    Tally { errors, warnings }
}

} // verus!

//! The buffer entity: one open text with its identity, its revision counter
//! and the analysis data derived from its text. Every write of derived data
//! goes through the revision guard.

use crate::command::BufferUpdate;
use crate::diagnostic::EditorDiagnostic;
use crate::revision::{accept, accept_reload, accepts, follows};
use crate::text::{splice, TextStore};
use std::collections::HashMap;
use vstd::prelude::*;

verus! {

broadcast use vstd::std_specs::hash::group_hash_axioms;

/// The identity of a buffer, fixed for as long as the buffer lives.
#[derive(Clone, Copy, Debug, PartialEq, Eq, Structural, Hash)]
pub struct BufferId(pub u64);

/// The language a buffer is written in.
#[derive(Clone, Copy, Debug, PartialEq, Eq, Structural)]
pub enum LanguageTag {
    Rust,
    Go,
}

/// A stretch of text with the name of the style it is shown in.
#[derive(Clone, Debug, PartialEq, Eq)]
pub struct StyleSpan {
    pub start: usize,
    pub end: usize,
    pub style: String,
}

impl StyleSpan {
    /// An equal span of its own.
    pub fn duplicate(&self) -> (copy: StyleSpan)
        ensures
            copy == *self,
    {
        StyleSpan { start: self.start, end: self.end, style: self.style.clone() }
    }
}

/// Copies a sequence of spans.
pub fn duplicate_spans(spans: &Vec<StyleSpan>) -> (copy: Vec<StyleSpan>)
    ensures
        copy@ == spans@,
{
    let mut copy: Vec<StyleSpan> = Vec::new();
    let mut i: usize = 0;
    while i < spans.len()
        invariant
            i <= spans@.len(),
            copy@ == spans@.subrange(0, i as int),
        decreases spans@.len() - i,
    {
        copy.push(spans[i].duplicate());
        i += 1;
        assert(copy@ =~= spans@.subrange(0, i as int));
    }
    assert(spans@.subrange(0, i as int) =~= spans@);
    copy
}

/// The highlight spans of a buffer, with the revision they were computed for.
#[derive(Debug, PartialEq, Eq)]
pub struct Highlights {
    pub revision: u64,
    /// Whether the spans came from the language server's semantic tokens.
    pub semantic: bool,
    pub spans: Vec<StyleSpan>,
}

/// The code actions offered at one offset, with the revision they were
/// computed for.
#[derive(Debug, PartialEq)]
pub struct CodeActions {
    pub revision: u64,
    pub response: Vec<lsp_types::CodeActionOrCommand>,
}

/// Why an edit was refused.
#[derive(Clone, Copy, Debug, PartialEq, Eq, Structural)]
pub enum EditError {
    /// The buffer's content has not arrived yet.
    NotLoaded,
    /// The range does not lie within the text, or it ends before it starts.
    OutOfRange,
    /// The text after the edit would be longer than a length can say.
    TooLong,
    /// The revision counter has no successor left.
    RevisionExhausted,
}

/// A buffer as contracts speak of it.
pub struct BufferView {
    pub id: BufferId,
    pub path: Seq<char>,
    pub text: Seq<u8>,
    pub revision: u64,
    pub dirty: bool,
    pub loaded: bool,
    pub language: Option<LanguageTag>,
    pub diagnostics: Seq<EditorDiagnostic>,
    pub highlights: Option<Highlights>,
    pub code_actions: Map<usize, CodeActions>,
}

impl BufferView {
    /// The highlights that may be shown: those computed for the revision the
    /// buffer is at.
    pub open spec fn live_highlights(self) -> Option<Highlights> {
        match self.highlights {
            Some(h) if accepts(h.revision, self.revision) => Some(h),
            _ => None,
        }
    }

    /// The code actions that may be offered at `offset`: those computed for
    /// the revision the buffer is at.
    pub open spec fn live_code_actions(self, offset: usize) -> Option<CodeActions> {
        if self.code_actions.contains_key(offset) && accepts(
            self.code_actions[offset].revision,
            self.revision,
        ) {
            Some(self.code_actions[offset])
        } else {
            None
        }
    }

    /// The buffer after its first content has arrived, or after a later
    /// content has replaced the one it had.
    pub open spec fn loaded_with(self, content: Seq<u8>) -> BufferView {
        BufferView {
            text: content,
            loaded: true,
            revision: if self.loaded {
                (self.revision + 1) as u64
            } else {
                self.revision
            },
            ..self
        }
    }

    /// The spans a snapshot of the buffer carries: the live ones, or none.
    pub open spec fn live_spans(self) -> Seq<StyleSpan> {
        match self.live_highlights() {
            Some(h) => h.spans@,
            None => Seq::<StyleSpan>::empty(),
        }
    }

    /// Whether an edit of `start..end` is carried out, and if not, why.
    pub open spec fn edit_outcome(self, start: usize, end: usize, insert: Seq<u8>) -> Result<
        (),
        EditError,
    > {
        if !self.loaded {
            Err(EditError::NotLoaded)
        } else if self.revision == u64::MAX {
            Err(EditError::RevisionExhausted)
        } else if start > end || end > self.text.len() {
            Err(EditError::OutOfRange)
        } else if self.text.len() - (end - start) + insert.len() > usize::MAX {
            Err(EditError::TooLong)
        } else {
            Ok(())
        }
    }

    /// The buffer after an edit that was carried out.
    pub open spec fn edited(self, start: usize, end: usize, insert: Seq<u8>) -> BufferView {
        BufferView {
            text: splice(self.text, start as int, end as int, insert),
            revision: (self.revision + 1) as u64,
            dirty: true,
            ..self
        }
    }
}

/// One open text.
pub struct Buffer {
    id: BufferId,
    path: String,
    rope: TextStore,
    rev: u64,
    dirty: bool,
    loaded: bool,
    language: Option<LanguageTag>,
    diagnostics: Vec<EditorDiagnostic>,
    highlights: Option<Highlights>,
    code_actions: HashMap<usize, CodeActions>,
}

impl View for Buffer {
    type V = BufferView;

    closed spec fn view(&self) -> BufferView {
        BufferView {
            id: self.id,
            path: self.path@,
            text: self.rope@,
            revision: self.rev,
            dirty: self.dirty,
            loaded: self.loaded,
            language: self.language,
            diagnostics: self.diagnostics@,
            highlights: self.highlights,
            code_actions: self.code_actions@,
        }
    }
}

impl Buffer {
    /// A buffer for the file at `path` whose content has not arrived yet:
    /// at revision 0, empty, clean, with no derived data.
    pub fn new(id: BufferId, path: String, language: Option<LanguageTag>) -> (buffer: Buffer)
        ensures
            buffer@ == (BufferView {
                id,
                path: path@,
                text: Seq::<u8>::empty(),
                revision: 0,
                dirty: false,
                loaded: false,
                language,
                diagnostics: Seq::<EditorDiagnostic>::empty(),
                highlights: None::<Highlights>,
                code_actions: Map::<usize, CodeActions>::empty(),
            }),
    {
        Buffer {
            id,
            path,
            rope: TextStore::new(),
            rev: 0,
            dirty: false,
            loaded: false,
            language,
            diagnostics: Vec::new(),
            highlights: None,
            code_actions: HashMap::new(),
        }
    }

    pub fn id(&self) -> (id: BufferId)
        ensures
            id == self@.id,
    {
        self.id
    }

    pub fn path(&self) -> (path: &String)
        ensures
            path@ == self@.path,
    {
        &self.path
    }

    pub fn revision(&self) -> (revision: u64)
        ensures
            revision == self@.revision,
    {
        self.rev
    }

    pub fn is_dirty(&self) -> (dirty: bool)
        ensures
            dirty == self@.dirty,
    {
        self.dirty
    }

    pub fn is_loaded(&self) -> (loaded: bool)
        ensures
            loaded == self@.loaded,
    {
        self.loaded
    }

    pub fn language(&self) -> (language: Option<LanguageTag>)
        ensures
            language == self@.language,
    {
        self.language
    }

    pub fn text(&self) -> (text: &TextStore)
        ensures
            text@ == self@.text,
    {
        &self.rope
    }

    pub fn diagnostics(&self) -> (diagnostics: &Vec<EditorDiagnostic>)
        ensures
            diagnostics@ == self@.diagnostics,
    {
        &self.diagnostics
    }

    /// The highlights to show. Spans computed for an earlier revision are
    /// not handed out, even while they are still stored.
    pub fn highlights(&self) -> (live: Option<&Highlights>)
        ensures
            match live {
                Some(h) => self@.live_highlights() == Some(*h),
                None => self@.live_highlights() is None,
            },
    {
        match &self.highlights {
            Some(h) => {
                if accept(h.revision, self.rev) {
                    Some(h)
                } else {
                    None
                }
            },
            None => None,
        }
    }

    /// The code actions to offer at `offset`. A reply computed for an earlier
    /// revision is not handed out, even while it is still stored.
    pub fn code_actions_at(&self, offset: usize) -> (live: Option<&CodeActions>)
        ensures
            match live {
                Some(c) => self@.live_code_actions(offset) == Some(*c),
                None => self@.live_code_actions(offset) is None,
            },
    {
        match self.code_actions.get(&offset) {
            Some(c) => {
                if accept(c.revision, self.rev) {
                    Some(c)
                } else {
                    None
                }
            },
            None => None,
        }
    }

    /// A copy of what the background worker needs of the buffer, taken at
    /// the revision the buffer is at.
    pub fn snapshot(&self, language: LanguageTag) -> (update: BufferUpdate)
        ensures
            update.describes(self@, language),
    {
        let highlights = match self.highlights() {
            Some(h) => duplicate_spans(&h.spans),
            None => Vec::new(),
        };
        BufferUpdate {
            id: self.id,
            path: self.path.clone(),
            rope: self.rope.snapshot(),
            rev: self.rev,
            language,
            highlights,
        }
    }

    /// Takes in content that has arrived for the buffer, in place of what it
    /// held. The first content sets the baseline and leaves the revision as
    /// it is; content that replaces earlier content is a change of the text
    /// and moves the revision on by one. Where the counter has no successor
    /// left, the content is refused and the buffer stays as it was.
    pub fn load_content(&mut self, content: Vec<u8>) -> (done: Result<(), EditError>)
        ensures
            done == if old(self)@.loaded && old(self)@.revision == u64::MAX {
                Err::<(), EditError>(EditError::RevisionExhausted)
            } else {
                Ok::<(), EditError>(())
            },
            done is Ok ==> final(self)@ == old(self)@.loaded_with(content@),
            done is Err ==> *final(self) == *old(self),
    {
        if self.loaded {
            if self.rev == u64::MAX {
                return Err(EditError::RevisionExhausted);
            }
            self.rev = self.rev + 1;
        }
        self.rope.set(content);
        self.loaded = true;
        Ok(())
    }

    /// Takes in reloaded content tagged `revision`, if that is the revision
    /// right after the buffer's own; the buffer is then at `revision`. Any
    /// other tag belongs to a request that has been overtaken: the buffer
    /// stays as it was.
    pub fn reload(&mut self, revision: u64, content: Vec<u8>) -> (applied: bool)
        ensures
            applied == follows(revision, old(self)@.revision),
            applied ==> final(self)@ == (BufferView {
                text: content@,
                loaded: true,
                revision,
                ..old(self)@
            }),
            !applied ==> *final(self) == *old(self),
    {
        if !accept_reload(revision, self.rev) {
            return false;
        }
        self.rope.set(content);
        self.loaded = true;
        self.rev = revision;
        true
    }

    /// Replaces the bytes in `start..end` by `insert`: the text changes, the
    /// revision moves on by one and the buffer is dirty. A refused edit
    /// leaves the buffer as it was.
    pub fn apply_edit(&mut self, start: usize, end: usize, insert: &[u8]) -> (done: Result<
        (),
        EditError,
    >)
        ensures
            done == old(self)@.edit_outcome(start, end, insert@),
            done is Ok ==> final(self)@ == old(self)@.edited(start, end, insert@),
            done is Err ==> final(self)@ == old(self)@,
    {
        if !self.loaded {
            return Err(EditError::NotLoaded);
        }
        if self.rev == u64::MAX {
            return Err(EditError::RevisionExhausted);
        }
        match self.rope.replace(start, end, insert) {
            Ok(()) => {
                self.rev = self.rev + 1;
                self.dirty = true;
                Ok(())
            },
            Err(crate::text::SpliceError::OutOfRange) => Err(EditError::OutOfRange),
            Err(crate::text::SpliceError::TooLong) => Err(EditError::TooLong),
        }
    }

    /// Writes highlights computed for `revision`. They replace the stored
    /// ones if the buffer is still at that revision; otherwise they are
    /// stale and nothing changes.
    pub fn update_styles(&mut self, revision: u64, spans: Vec<StyleSpan>, semantic: bool) -> (applied:
        bool)
        ensures
            applied == accepts(revision, old(self)@.revision),
            applied ==> final(self)@ == (BufferView {
                highlights: Some(Highlights { revision, semantic, spans }),
                ..old(self)@
            }),
            !applied ==> *final(self) == *old(self),
    {
        if !accept(revision, self.rev) {
            return false;
        }
        self.highlights = Some(Highlights { revision, semantic, spans });
        true
    }

    /// Writes the code actions computed at `offset` for `revision`. They
    /// replace what was stored at that offset if the buffer is still at that
    /// revision; otherwise they are stale and nothing changes. Replies at
    /// other offsets stay.
    pub fn insert_code_action(
        &mut self,
        offset: usize,
        revision: u64,
        response: Vec<lsp_types::CodeActionOrCommand>,
    ) -> (applied: bool)
        ensures
            applied == accepts(revision, old(self)@.revision),
            applied ==> final(self)@ == (BufferView {
                code_actions: old(self)@.code_actions.insert(
                    offset,
                    CodeActions { revision, response },
                ),
                ..old(self)@
            }),
            !applied ==> *final(self) == *old(self),
    {
        if !accept(revision, self.rev) {
            return false;
        }
        self.code_actions.insert(offset, CodeActions { revision, response });
        true
    }

    /// Replaces the buffer's diagnostics wholesale.
    pub fn set_diagnostics(&mut self, diagnostics: Vec<EditorDiagnostic>)
        ensures
            final(self)@ == (BufferView { diagnostics: diagnostics@, ..old(self)@ }),
    {
        self.diagnostics = diagnostics;
    }

    /// Takes note that the text of `revision` has been saved. The buffer is
    /// clean only if it is still at that revision: after a later edit what
    /// is on disk is already behind, and the buffer stays dirty.
    pub fn mark_saved(&mut self, revision: u64) -> (applied: bool)
        ensures
            applied == accepts(revision, old(self)@.revision),
            applied ==> final(self)@ == (BufferView { dirty: false, ..old(self)@ }),
            !applied ==> *final(self) == *old(self),
    {
        if !accept(revision, self.rev) {
            return false;
        }
        self.dirty = false;
        true
    }
}

} // verus!

//! The state that the consumer of commands owns: the open buffers, the
//! cursor, and the counts of errors and warnings over all buffers. It turns
//! each command into a change of state and a list of effects.

use crate::buffer::{
    Buffer, BufferId, BufferView, CodeActions, EditError, Highlights, LanguageTag, StyleSpan,
};
use crate::command::{
    Command, Delegated, Disposition, EditorKind, EditorLocation, Effect, Outcome, SemanticToken,
    Target, UiCommand, UpdateEvent, Workspace, WorkspaceView,
};
use crate::diagnostic::{count_of, take_in, taken_in, tally, EditorDiagnostic, Severity};
use crate::lsp::{
    location_address, location_origin, location_start, location_uri, path_of,
    published_diagnostics, published_uri, report_diagnostics, report_uri, uri_path,
};
use crate::revision::{accepts, follows};
use vstd::prelude::*;

verus! {

/// How many diagnostics of `severity` the buffers hold between them.
pub open spec fn total_of(buffers: Seq<BufferView>, severity: Severity) -> nat
    decreases buffers.len(),
{
    if buffers.len() == 0 {
        0
    } else {
        total_of(buffers.drop_last(), severity) + count_of(buffers.last().diagnostics, severity)
    }
}

/// A count as a counter holds it: exact up to the largest number the counter
/// can say, and that number beyond.
pub open spec fn saturated(n: nat) -> usize {
    if n > usize::MAX {
        usize::MAX
    } else {
        n as usize
    }
}

/// The views of a sequence of buffers.
pub open spec fn views_of(buffers: Seq<Buffer>) -> Seq<BufferView> {
    Seq::new(buffers.len(), |i: int| buffers[i]@)
}

/// The effects are one request to paint anew what shows the buffer at `path`.
pub open spec fn invalidates(effects: Seq<Effect>, path: Seq<char>) -> bool {
    effects.len() == 1 && match effects[0] {
        Effect::Invalidate(p) => p@ == path,
        _ => false,
    }
}

/// The effects are one event for the background worker: a snapshot of
/// `buffer` with `tokens` to fold into it.
pub open spec fn forwards(
    effects: Seq<Effect>,
    buffer: BufferView,
    language: LanguageTag,
    tokens: Vec<SemanticToken>,
) -> bool {
    effects.len() == 1 && match effects[0] {
        Effect::Forward(UpdateEvent::SemanticTokens(update, carried)) => update.describes(
            buffer,
            language,
        ) && carried == tokens,
        _ => false,
    }
}

/// The effects are a request to paint anew what shows the buffer at `path`,
/// and then a jump of the editor `view` to `location`.
pub open spec fn invalidates_and_goes(
    effects: Seq<Effect>,
    path: Seq<char>,
    view: u64,
    location: EditorLocation,
) -> bool {
    effects.len() == 2 && invalidates(effects.subrange(0, 1), path) && effects[1]
        == Effect::Delegate(Delegated::GoToLocation(view, location))
}

/// The buffers among `buffers` whose content has not arrived yet, in order.
pub open spec fn unloaded_of(buffers: Seq<BufferView>) -> Seq<BufferView>
    decreases buffers.len(),
{
    if buffers.len() == 0 {
        Seq::<BufferView>::empty()
    } else if buffers.last().loaded {
        unloaded_of(buffers.drop_last())
    } else {
        unloaded_of(buffers.drop_last()).push(buffers.last())
    }
}

/// The effect is the retrieval of the content of `buffer`.
pub open spec fn retrieves(effect: Effect, buffer: BufferView) -> bool {
    match effect {
        Effect::RetrieveFile(id, path) => id == buffer.id && path@ == buffer.path,
        _ => false,
    }
}

/// Whether `places` are the places that `locations` name, one for each and
/// in order: each with the path of the location's address and the position
/// at which the location starts.
pub open spec fn names_places(
    places: Seq<EditorLocation>,
    locations: Seq<lsp_types::Location>,
) -> bool {
    &&& places.len() == locations.len()
    &&& forall|i: int|
        0 <= i < places.len() ==> (#[trigger] places[i]).path@ == path_of(
            location_address(locations[i]),
        ) && places[i].position == location_origin(locations[i])
}

/// Why a buffer was not opened.
#[derive(Clone, Copy, Debug, PartialEq, Eq, Structural)]
pub enum OpenError {
    /// A buffer is open at that path already.
    PathOpen,
    /// A buffer has that identity already.
    IdInUse,
}

/// Why an edit did not take place.
#[derive(Clone, Copy, Debug, PartialEq, Eq, Structural)]
pub enum EditFailure {
    /// No buffer with that identity is open.
    UnknownBuffer,
    /// The buffer refused the edit.
    Refused(EditError),
}

/// The editor's state as contracts speak of it.
pub struct EditorView {
    pub id: u64,
    pub workspace: WorkspaceView,
    pub buffers: Seq<BufferView>,
    pub cursor: usize,
    pub error_count: usize,
    pub warning_count: usize,
}

impl EditorView {
    /// No two buffers share an identity or a path, and the counts are those
    /// of the diagnostics that the buffers hold.
    pub open spec fn wf(self) -> bool {
        &&& forall|i: int, j: int|
            0 <= i < j < self.buffers.len() ==> self.buffers[i].id != self.buffers[j].id
        &&& forall|i: int, j: int|
            0 <= i < j < self.buffers.len() ==> self.buffers[i].path != self.buffers[j].path
        &&& self.error_count == saturated(total_of(self.buffers, Severity::Error))
        &&& self.warning_count == saturated(total_of(self.buffers, Severity::Warning))
    }

    /// Whether a buffer is open at `path`.
    pub open spec fn has_path(self, path: Seq<char>) -> bool {
        exists|i: int| 0 <= i < self.buffers.len() && self.buffers[i].path == path
    }

    /// Where the buffer at `path` stands among the open buffers.
    pub open spec fn index_of_path(self, path: Seq<char>) -> int {
        choose|i: int| 0 <= i < self.buffers.len() && self.buffers[i].path == path
    }

    /// Whether a buffer with the identity `id` is open.
    pub open spec fn has_id(self, id: BufferId) -> bool {
        exists|i: int| 0 <= i < self.buffers.len() && self.buffers[i].id == id
    }

    /// Where the buffer with the identity `id` stands among the open buffers.
    pub open spec fn index_of_id(self, id: BufferId) -> int {
        choose|i: int| 0 <= i < self.buffers.len() && self.buffers[i].id == id
    }

    /// The state with `buffer` in place of the buffer at `index`.
    pub open spec fn with_buffer(self, index: int, buffer: BufferView) -> EditorView {
        EditorView { buffers: self.buffers.update(index, buffer), ..self }
    }

    /// The state with its counts taken anew from the buffers.
    pub open spec fn recounted(self) -> EditorView {
        EditorView {
            error_count: saturated(total_of(self.buffers, Severity::Error)),
            warning_count: saturated(total_of(self.buffers, Severity::Warning)),
            ..self
        }
    }

    /// What is to happen once the window is connected: the content of every
    /// buffer that has none is retrieved, in the order of the buffers; then
    /// the background worker is started, and then the proxy for the
    /// workspace.
    pub open spec fn connected(self, effects: Seq<Effect>) -> bool {
        let waiting = unloaded_of(self.buffers);
        &&& effects.len() == waiting.len() + 2
        &&& forall|k: int| 0 <= k < waiting.len() ==> retrieves(#[trigger] effects[k], waiting[k])
        &&& effects[waiting.len() as int] == Effect::StartWorker
        &&& match effects[waiting.len() as int + 1] {
            Effect::StartProxy(workspace) => workspace@ == self.workspace,
            _ => false,
        }
    }

    /// Whether the component that owns this state consumes what is
    /// addressed to `target`.
    pub open spec fn addressed_by(self, target: Target) -> bool {
        match target {
            Target::Global => true,
            Target::Component(id) => id == self.id,
        }
    }

    /// What becomes of a write of derived data computed for the revision
    /// `rev` of the buffer at `path`: the revision alone decides whether a
    /// buffer that is open takes it.
    pub open spec fn write_disposition(self, path: Seq<char>, rev: u64) -> Disposition {
        if !self.has_path(path) {
            Disposition::UnknownTarget
        } else if !accepts(rev, self.buffers[self.index_of_path(path)].revision) {
            Disposition::Stale
        } else {
            Disposition::Applied
        }
    }

    /// `SetWorkspace`: a workspace other than the current one takes its
    /// place, every buffer is given up, and the proxy is to be started for
    /// it. The current workspace again changes nothing.
    pub open spec fn workspace_set(
        self,
        workspace: Workspace,
        post: EditorView,
        outcome: Outcome,
    ) -> bool {
        if workspace@ == self.workspace {
            post == self && outcome.is_quiet(Disposition::PreconditionFailed)
        } else {
            &&& post == (EditorView {
                id: self.id,
                workspace: workspace@,
                buffers: Seq::<BufferView>::empty(),
                cursor: 0,
                error_count: 0,
                warning_count: 0,
            })
            &&& outcome.is_single(Disposition::Applied, Effect::StartProxy(workspace))
        }
    }

    /// What becomes of content that arrives for the buffer at `path`.
    pub open spec fn load_disposition(self, path: Seq<char>) -> Disposition {
        if !self.has_path(path) {
            Disposition::UnknownTarget
        } else if self.buffers[self.index_of_path(path)].loaded
            && self.buffers[self.index_of_path(path)].revision == u64::MAX {
            Disposition::PreconditionFailed
        } else {
            Disposition::Applied
        }
    }

    /// `LoadBuffer`: the buffer at `path` takes in `content`, and what shows
    /// it is to be painted anew.
    pub open spec fn buffer_loaded(
        self,
        path: Seq<char>,
        content: Seq<u8>,
        post: EditorView,
        outcome: Outcome,
    ) -> bool {
        let i = self.index_of_path(path);
        match self.load_disposition(path) {
            Disposition::Applied => {
                &&& post == self.with_buffer(i, self.buffers[i].loaded_with(content))
                &&& outcome.disposition == Disposition::Applied
                &&& invalidates(outcome.effects@, path)
            },
            dropped => post == self && outcome.is_quiet(dropped),
        }
    }

    /// `LoadBufferAndGoToPosition`: as `LoadBuffer`, and then the editor
    /// `view` is to go to `location`.
    pub open spec fn buffer_loaded_and_gone(
        self,
        path: Seq<char>,
        content: Seq<u8>,
        view: u64,
        location: EditorLocation,
        post: EditorView,
        outcome: Outcome,
    ) -> bool {
        let i = self.index_of_path(path);
        match self.load_disposition(path) {
            Disposition::Applied => {
                &&& post == self.with_buffer(i, self.buffers[i].loaded_with(content))
                &&& outcome.disposition == Disposition::Applied
                &&& invalidates_and_goes(outcome.effects@, path, view, location)
            },
            dropped => post == self && outcome.is_quiet(dropped),
        }
    }

    /// `PublishDiagnostics`: the diagnostics of the buffer at `path` give
    /// way to `diagnostics`, the counts are taken anew over all buffers, and
    /// what shows the buffer is to be painted anew.
    pub open spec fn published(
        self,
        path: Seq<char>,
        diagnostics: Seq<EditorDiagnostic>,
        post: EditorView,
        outcome: Outcome,
    ) -> bool {
        let i = self.index_of_path(path);
        if self.has_path(path) {
            &&& post == self.with_buffer(
                i,
                BufferView { diagnostics, ..self.buffers[i] },
            ).recounted()
            &&& outcome.disposition == Disposition::Applied
            &&& invalidates(outcome.effects@, path)
        } else {
            post == self && outcome.is_quiet(Disposition::UnknownTarget)
        }
    }

    /// `BufferSave`: the buffer at `path` is clean if it is still at the
    /// revision that was saved.
    pub open spec fn saved(self, path: Seq<char>, rev: u64, post: EditorView, outcome: Outcome) -> bool {
        let i = self.index_of_path(path);
        match self.write_disposition(path, rev) {
            Disposition::Applied => {
                &&& post == self.with_buffer(i, BufferView { dirty: false, ..self.buffers[i] })
                &&& outcome.disposition == Disposition::Applied
                &&& invalidates(outcome.effects@, path)
            },
            dropped => post == self && outcome.is_quiet(dropped),
        }
    }

    /// What becomes of a reload tagged `rev` for the buffer `id`.
    pub open spec fn reload_disposition(self, id: BufferId, rev: u64) -> Disposition {
        if !self.has_id(id) {
            Disposition::UnknownTarget
        } else if !follows(rev, self.buffers[self.index_of_id(id)].revision) {
            Disposition::PreconditionFailed
        } else {
            Disposition::Applied
        }
    }

    /// `ReloadBuffer`: the buffer `id` takes in `content` and is at `rev`,
    /// if `rev` is the revision right after its own.
    pub open spec fn reloaded(
        self,
        id: BufferId,
        rev: u64,
        content: Seq<u8>,
        post: EditorView,
        outcome: Outcome,
    ) -> bool {
        let i = self.index_of_id(id);
        match self.reload_disposition(id, rev) {
            Disposition::Applied => {
                &&& post == self.with_buffer(
                    i,
                    BufferView { text: content, loaded: true, revision: rev, ..self.buffers[i] },
                )
                &&& outcome.disposition == Disposition::Applied
                &&& invalidates(outcome.effects@, self.buffers[i].path)
            },
            dropped => post == self && outcome.is_quiet(dropped),
        }
    }

    /// What becomes of semantic tokens computed for the revision `rev` of
    /// the buffer `id`.
    pub open spec fn tokens_disposition(self, id: BufferId, rev: u64) -> Disposition {
        if !self.has_id(id) {
            Disposition::UnknownTarget
        } else if !accepts(rev, self.buffers[self.index_of_id(id)].revision) {
            Disposition::Stale
        } else if self.buffers[self.index_of_id(id)].language is None {
            Disposition::PreconditionFailed
        } else {
            Disposition::Applied
        }
    }

    /// `UpdateSemanticTokens`: a snapshot of the buffer `id` goes to the
    /// background worker together with the tokens. The state stays as it is.
    pub open spec fn tokens_forwarded(
        self,
        id: BufferId,
        rev: u64,
        tokens: Vec<SemanticToken>,
        post: EditorView,
        outcome: Outcome,
    ) -> bool {
        let i = self.index_of_id(id);
        &&& post == self
        &&& match self.tokens_disposition(id, rev) {
            Disposition::Applied => {
                &&& outcome.disposition == Disposition::Applied
                &&& forwards(outcome.effects@, self.buffers[i], self.buffers[i].language->0, tokens)
            },
            dropped => outcome.is_quiet(dropped),
        }
    }

    /// `UpdateStyle`: the highlights of the buffer at `path` give way to
    /// `highlights`, and what shows the buffer is to be painted anew. The
    /// buffer is found by its path; the identity that the command carries
    /// is not consulted.
    pub open spec fn styled(
        self,
        path: Seq<char>,
        rev: u64,
        highlights: Vec<StyleSpan>,
        semantic_tokens: bool,
        post: EditorView,
        outcome: Outcome,
    ) -> bool {
        let i = self.index_of_path(path);
        match self.write_disposition(path, rev) {
            Disposition::Applied => {
                &&& post == self.with_buffer(
                    i,
                    BufferView {
                        highlights: Some(
                            Highlights { revision: rev, semantic: semantic_tokens, spans: highlights },
                        ),
                        ..self.buffers[i]
                    },
                )
                &&& outcome.disposition == Disposition::Applied
                &&& invalidates(outcome.effects@, path)
            },
            dropped => post == self && outcome.is_quiet(dropped),
        }
    }

    /// `UpdateCodeActions`: the code actions of the buffer at `path` for
    /// `offset` give way to `response`.
    pub open spec fn code_actions_updated(
        self,
        path: Seq<char>,
        rev: u64,
        offset: usize,
        response: Vec<lsp_types::CodeActionOrCommand>,
        post: EditorView,
        outcome: Outcome,
    ) -> bool {
        let i = self.index_of_path(path);
        match self.write_disposition(path, rev) {
            Disposition::Applied => {
                &&& post == self.with_buffer(
                    i,
                    BufferView {
                        code_actions: self.buffers[i].code_actions.insert(
                            offset,
                            CodeActions { revision: rev, response },
                        ),
                        ..self.buffers[i]
                    },
                )
                &&& outcome.is_quiet(Disposition::Applied)
            },
            dropped => post == self && outcome.is_quiet(dropped),
        }
    }

    /// `GotoDefinition` and `GotoReference`: the active editor is to jump to
    /// `location` if the cursor still stands at the offset that was asked
    /// about. The state stays as it is.
    pub open spec fn navigated(
        self,
        offset: usize,
        location: EditorLocation,
        post: EditorView,
        outcome: Outcome,
    ) -> bool {
        &&& post == self
        &&& if offset == self.cursor {
            outcome.is_single(
                Disposition::Applied,
                Effect::Delegate(Delegated::JumpToLocation(EditorKind::SplitActive, location)),
            )
        } else {
            outcome.is_quiet(Disposition::Stale)
        }
    }

    /// `PaletteReferences`: the palette is to show `places` if the cursor
    /// still stands at the offset that was asked about. The state stays as
    /// it is.
    pub open spec fn references_shown(
        self,
        offset: usize,
        places: Vec<EditorLocation>,
        post: EditorView,
        outcome: Outcome,
    ) -> bool {
        &&& post == self
        &&& if offset == self.cursor {
            outcome.is_single(Disposition::Applied, Effect::ShowReferences(places))
        } else {
            outcome.is_quiet(Disposition::Stale)
        }
    }

    /// `PaletteReferences`: the palette is to show the places that
    /// `locations` name, one for each and in order, if the cursor still
    /// stands at the offset that was asked about. The state stays as it is.
    pub open spec fn references_listed(
        self,
        offset: usize,
        locations: Seq<lsp_types::Location>,
        post: EditorView,
        outcome: Outcome,
    ) -> bool {
        &&& post == self
        &&& if offset == self.cursor {
            &&& outcome.disposition == Disposition::Applied
            &&& outcome.effects@.len() == 1
            &&& match outcome.effects@[0] {
                Effect::ShowReferences(places) => names_places(places@, locations),
                _ => false,
            }
        } else {
            outcome.is_quiet(Disposition::Stale)
        }
    }

    /// A command that belongs to another subsystem is handed to it. The
    /// state stays as it is.
    pub open spec fn handed_on(self, work: Delegated, post: EditorView, outcome: Outcome) -> bool {
        post == self && outcome.is_single(Disposition::Delegated, Effect::Delegate(work))
    }

    /// What consuming `payload` makes of the state and asks of the
    /// surroundings.
    pub open spec fn consumed(self, payload: UiCommand, post: EditorView, outcome: Outcome) -> bool {
        match payload {
            UiCommand::SetWorkspace(workspace) => self.workspace_set(workspace, post, outcome),
            UiCommand::LoadBuffer { path, content } => self.buffer_loaded(
                path@,
                content@,
                post,
                outcome,
            ),
            UiCommand::PublishDiagnostics(params) => self.published(
                path_of(report_uri(params)),
                taken_in(report_diagnostics(params)),
                post,
                outcome,
            ),
            UiCommand::BufferSave(path, rev) => self.saved(path@, rev, post, outcome),
            UiCommand::ReloadBuffer(id, rev, content) => self.reloaded(
                id,
                rev,
                content@,
                post,
                outcome,
            ),
            UiCommand::UpdateSemanticTokens(id, rev, tokens) => self.tokens_forwarded(
                id,
                rev,
                tokens,
                post,
                outcome,
            ),
            UiCommand::UpdateStyle { id, path, rev, highlights, semantic_tokens } => self.styled(
                path@,
                rev,
                highlights,
                semantic_tokens,
                post,
                outcome,
            ),
            UiCommand::UpdateCodeActions(path, rev, offset, response) => self.code_actions_updated(
                path@,
                rev,
                offset,
                response,
                post,
                outcome,
            ),
            UiCommand::GotoDefinition(offset, location) => self.navigated(
                offset,
                location,
                post,
                outcome,
            ),
            UiCommand::GotoReference(offset, location) => self.navigated(
                offset,
                location,
                post,
                outcome,
            ),
            UiCommand::PaletteReferences(offset, locations) => self.references_listed(
                offset,
                locations@,
                post,
                outcome,
            ),
            UiCommand::LoadBufferAndGoToPosition {
                path,
                content,
                editor_view_id,
                location,
            } => self.buffer_loaded_and_gone(
                path@,
                content@,
                editor_view_id,
                location,
                post,
                outcome,
            ),
            UiCommand::DocumentFormatAndSave(path, rev, result) => self.handed_on(
                Delegated::DocumentFormatAndSave(path, rev, result),
                post,
                outcome,
            ),
            UiCommand::OpenFile(path) => self.handed_on(Delegated::OpenFile(path), post, outcome),
            UiCommand::GoToLocationNew(view, location) => self.handed_on(
                Delegated::GoToLocation(view, location),
                post,
                outcome,
            ),
            UiCommand::JumpToPosition(kind, position) => self.handed_on(
                Delegated::JumpToPosition(kind, position),
                post,
                outcome,
            ),
            UiCommand::JumpToLocation(kind, location) => self.handed_on(
                Delegated::JumpToLocation(kind, location),
                post,
                outcome,
            ),
            UiCommand::JumpToLine(kind, line) => self.handed_on(
                Delegated::JumpToLine(kind, line),
                post,
                outcome,
            ),
        }
    }
}

/// Buffers with the same diagnostics, one for one, have the same totals.
pub proof fn lemma_total_by_diagnostics(a: Seq<BufferView>, b: Seq<BufferView>, severity: Severity)
    requires
        a.len() == b.len(),
        forall|i: int| 0 <= i < a.len() ==> a[i].diagnostics == b[i].diagnostics,
    ensures
        total_of(a, severity) == total_of(b, severity),
    decreases a.len(),
{
    if a.len() > 0 {
        lemma_total_by_diagnostics(a.drop_last(), b.drop_last(), severity);
    }
}

/// A state in which one buffer has changed in anything but its identity,
/// its path and its diagnostics, and nothing else has changed, is the state
/// before with that buffer replaced, and it is well formed.
pub proof fn lemma_one_buffer_changed(before: EditorView, after: EditorView, index: int)
    requires
        before.wf(),
        0 <= index < before.buffers.len(),
        after.buffers.len() == before.buffers.len(),
        forall|k: int|
            0 <= k < before.buffers.len() && k != index ==> #[trigger] after.buffers[k]
                == before.buffers[k],
        after.buffers[index].id == before.buffers[index].id,
        after.buffers[index].path == before.buffers[index].path,
        after.buffers[index].diagnostics == before.buffers[index].diagnostics,
        after == (EditorView { buffers: after.buffers, ..before }),
    ensures
        after == before.with_buffer(index, after.buffers[index]),
        after.wf(),
{
    assert(after.buffers =~= before.buffers.update(index, after.buffers[index]));
    lemma_total_by_diagnostics(before.buffers, after.buffers, Severity::Error);
    lemma_total_by_diagnostics(before.buffers, after.buffers, Severity::Warning);
}

/// The open buffers, the cursor, and the counts over all diagnostics.
pub struct EditorState {
    id: u64,
    workspace: Workspace,
    buffers: Vec<Buffer>,
    cursor: usize,
    error_count: usize,
    warning_count: usize,
}

impl View for EditorState {
    type V = EditorView;

    closed spec fn view(&self) -> EditorView {
        EditorView {
            id: self.id,
            workspace: self.workspace@,
            buffers: views_of(self.buffers@),
            cursor: self.cursor,
            error_count: self.error_count,
            warning_count: self.warning_count,
        }
    }
}

impl EditorState {
    /// The state of the component `id` that works in `workspace`, with no
    /// buffer open and the cursor at the start.
    pub fn new(id: u64, workspace: Workspace) -> (state: EditorState)
        ensures
            state@.wf(),
            state@ == (EditorView {
                id,
                workspace: workspace@,
                buffers: Seq::<BufferView>::empty(),
                cursor: 0,
                error_count: 0,
                warning_count: 0,
            }),
    {
        let state = EditorState {
            id,
            workspace,
            buffers: Vec::new(),
            cursor: 0,
            error_count: 0,
            warning_count: 0,
        };
        assert(state@.buffers =~= Seq::<BufferView>::empty());
        state
    }

    pub fn id(&self) -> (id: u64)
        ensures
            id == self@.id,
    {
        self.id
    }

    pub fn workspace(&self) -> (workspace: &Workspace)
        ensures
            workspace@ == self@.workspace,
    {
        &self.workspace
    }

    /// The offset at which the cursor of the active editor stands.
    pub fn cursor_offset(&self) -> (offset: usize)
        ensures
            offset == self@.cursor,
    {
        self.cursor
    }

    /// The errors among the diagnostics of all buffers.
    pub fn error_count(&self) -> (count: usize)
        ensures
            count == self@.error_count,
    {
        self.error_count
    }

    /// The warnings among the diagnostics of all buffers.
    pub fn warning_count(&self) -> (count: usize)
        ensures
            count == self@.warning_count,
    {
        self.warning_count
    }

    pub fn buffer_count(&self) -> (count: usize)
        ensures
            count == self@.buffers.len(),
    {
        self.buffers.len()
    }

    /// The buffer open at `path`, if there is one.
    pub fn buffer_at(&self, path: &String) -> (buffer: Option<&Buffer>)
        requires
            self@.wf(),
        ensures
            match buffer {
                Some(b) => self@.has_path(path@) && b@ == self@.buffers[self@.index_of_path(
                    path@,
                )],
                None => !self@.has_path(path@),
            },
    {
        match self.find_path(path) {
            Some(i) => Some(&self.buffers[i]),
            None => None,
        }
    }

    /// The buffer with the identity `id`, if one is open.
    pub fn buffer(&self, id: BufferId) -> (buffer: Option<&Buffer>)
        requires
            self@.wf(),
        ensures
            match buffer {
                Some(b) => self@.has_id(id) && b@ == self@.buffers[self@.index_of_id(id)],
                None => !self@.has_id(id),
            },
    {
        match self.find_id(id) {
            Some(i) => Some(&self.buffers[i]),
            None => None,
        }
    }

    /// Takes note of where the cursor of the active editor stands now.
    pub fn set_cursor(&mut self, offset: usize)
        ensures
            final(self)@ == (EditorView { cursor: offset, ..old(self)@ }),
    {
        self.cursor = offset;
    }

    /// Where the buffer at `path` stands, if one is open there.
    fn find_path(&self, path: &String) -> (found: Option<usize>)
        requires
            self@.wf(),
        ensures
            match found {
                Some(i) => self@.has_path(path@) && self@.index_of_path(path@) == i && i
                    < self@.buffers.len() && self.buffers@.len() == self@.buffers.len(),
                None => !self@.has_path(path@),
            },
    {
        let mut i: usize = 0;
        while i < self.buffers.len()
            invariant
                i <= self.buffers@.len(),
                self@.wf(),
                self@.buffers.len() == self.buffers@.len(),
                forall|k: int| 0 <= k < i ==> self@.buffers[k].path != path@,
            decreases self.buffers@.len() - i,
        {
            if *self.buffers[i].path() == *path {
                proof {
                    assert(self@.buffers[i as int].path == path@);
                    let j = self@.index_of_path(path@);
                    assert(0 <= j < self@.buffers.len() && self@.buffers[j].path == path@);
                    assert(j == i);
                }
                return Some(i);
            }
            i += 1;
        }
        None
    }

    /// Where the buffer with the identity `id` stands, if one is open.
    fn find_id(&self, id: BufferId) -> (found: Option<usize>)
        requires
            self@.wf(),
        ensures
            match found {
                Some(i) => self@.has_id(id) && self@.index_of_id(id) == i && i
                    < self@.buffers.len() && self.buffers@.len() == self@.buffers.len(),
                None => !self@.has_id(id),
            },
    {
        let mut i: usize = 0;
        while i < self.buffers.len()
            invariant
                i <= self.buffers@.len(),
                self@.wf(),
                self@.buffers.len() == self.buffers@.len(),
                forall|k: int| 0 <= k < i ==> self@.buffers[k].id != id,
            decreases self.buffers@.len() - i,
        {
            if self.buffers[i].id() == id {
                proof {
                    assert(self@.buffers[i as int].id == id);
                    let j = self@.index_of_id(id);
                    assert(0 <= j < self@.buffers.len() && self@.buffers[j].id == id);
                    assert(j == i);
                }
                return Some(i);
            }
            i += 1;
        }
        None
    }

    /// Takes the counts anew from the diagnostics of all buffers.
    fn recount(&mut self)
        ensures
            final(self)@ == old(self)@.recounted(),
    {
        let mut errors: usize = 0;
        let mut warnings: usize = 0;
        let mut i: usize = 0;
        let ghost views = self@.buffers;
        while i < self.buffers.len()
            invariant
                i <= self.buffers@.len(),
                views == views_of(self.buffers@),
                errors == saturated(total_of(views.subrange(0, i as int), Severity::Error)),
                warnings == saturated(total_of(views.subrange(0, i as int), Severity::Warning)),
            decreases self.buffers@.len() - i,
        {
            let found = tally(self.buffers[i].diagnostics());
            proof {
                assert(views.subrange(0, i + 1).drop_last() =~= views.subrange(0, i as int));
                assert(views.subrange(0, i + 1).last() == self.buffers@[i as int]@);
            }
            errors = if found.errors > usize::MAX - errors {
                usize::MAX
            } else {
                errors + found.errors
            };
            warnings = if found.warnings > usize::MAX - warnings {
                usize::MAX
            } else {
                warnings + found.warnings
            };
            i += 1;
        }
        assert(views.subrange(0, i as int) =~= views);
        self.error_count = errors;
        self.warning_count = warnings;
    }

    /// What to do once the window is connected. The state stays as it is.
    pub fn connect(&self) -> (effects: Vec<Effect>)
        ensures
            self@.connected(effects@),
    {
        let mut effects: Vec<Effect> = Vec::new();
        let mut i: usize = 0;
        let ghost views = self@.buffers;
        while i < self.buffers.len()
            invariant
                i <= self.buffers@.len(),
                views == views_of(self.buffers@),
                effects@.len() == unloaded_of(views.subrange(0, i as int)).len(),
                forall|k: int|
                    0 <= k < effects@.len() ==> retrieves(
                        #[trigger] effects@[k],
                        unloaded_of(views.subrange(0, i as int))[k],
                    ),
            decreases self.buffers@.len() - i,
        {
            proof {
                assert(views.subrange(0, i + 1).drop_last() =~= views.subrange(0, i as int));
                assert(views.subrange(0, i + 1).last() == self.buffers@[i as int]@);
            }
            if !self.buffers[i].is_loaded() {
                let path = self.buffers[i].path().clone();
                effects.push(Effect::RetrieveFile(self.buffers[i].id(), path));
            }
            i += 1;
        }
        assert(views.subrange(0, i as int) =~= views);
        effects.push(Effect::StartWorker);
        effects.push(Effect::StartProxy(self.workspace.duplicate()));
        effects
    }

    /// Opens a buffer for the file at `path`: unloaded, at revision 0. A
    /// path or an identity that an open buffer has already is refused.
    pub fn open_buffer(&mut self, id: BufferId, path: String, language: Option<LanguageTag>) -> (done:
        Result<(), OpenError>)
        requires
            old(self)@.wf(),
        ensures
            final(self)@.wf(),
            done == if old(self)@.has_path(path@) {
                Err::<(), OpenError>(OpenError::PathOpen)
            } else if old(self)@.has_id(id) {
                Err::<(), OpenError>(OpenError::IdInUse)
            } else {
                Ok::<(), OpenError>(())
            },
            done is Err ==> final(self)@ == old(self)@,
            done is Ok ==> final(self)@ == (EditorView {
                buffers: old(self)@.buffers.push(
                    BufferView {
                        id,
                        path: path@,
                        text: Seq::<u8>::empty(),
                        revision: 0,
                        dirty: false,
                        loaded: false,
                        language,
                        diagnostics: Seq::<EditorDiagnostic>::empty(),
                        highlights: None::<Highlights>,
                        code_actions: Map::<usize, CodeActions>::empty(),
                    },
                ),
                ..old(self)@
            }),
    {
        if self.find_path(&path).is_some() {
            return Err(OpenError::PathOpen);
        }
        if self.find_id(id).is_some() {
            return Err(OpenError::IdInUse);
        }
        let ghost before = self@;
        let buffer = Buffer::new(id, path, language);
        self.buffers.push(buffer);
        proof {
            let after = self@;
            assert(after.buffers =~= before.buffers.push(buffer@));
            assert(after.buffers.drop_last() =~= before.buffers);
            assert(count_of(buffer@.diagnostics, Severity::Error) == 0);
            assert(count_of(buffer@.diagnostics, Severity::Warning) == 0);
            assert forall|i: int, j: int| 0 <= i < j < after.buffers.len() implies after.buffers[i].id
                != after.buffers[j].id && after.buffers[i].path != after.buffers[j].path by {
                if j == before.buffers.len() {
                    assert(before.buffers[i].id != id);
                    assert(before.buffers[i].path != path@);
                }
            }
        }
        Ok(())
    }

    /// An edit by the user: the bytes in `start..end` of the buffer `id`
    /// give way to `insert`. The answer to an edit that took place is the
    /// event to send to the background worker: a snapshot of the buffer as
    /// it is now, where the buffer has a language, and nothing where it has
    /// none.
    pub fn apply_edit(&mut self, id: BufferId, start: usize, end: usize, insert: &[u8]) -> (done:
        Result<Option<UpdateEvent>, EditFailure>)
        requires
            old(self)@.wf(),
        ensures
            final(self)@.wf(),
            !old(self)@.has_id(id) ==> done == Err::<Option<UpdateEvent>, EditFailure>(
                EditFailure::UnknownBuffer,
            ),
            old(self)@.has_id(id) ==> {
                let i = old(self)@.index_of_id(id);
                let buffer = old(self)@.buffers[i];
                match buffer.edit_outcome(start, end, insert@) {
                    Err(e) => done == Err::<Option<UpdateEvent>, EditFailure>(
                        EditFailure::Refused(e),
                    ),
                    Ok(()) => {
                        &&& final(self)@ == old(self)@.with_buffer(
                            i,
                            buffer.edited(start, end, insert@),
                        )
                        &&& match done {
                            Ok(Some(UpdateEvent::Buffer(update))) => buffer.language is Some
                                && update.describes(
                                buffer.edited(start, end, insert@),
                                buffer.language->0,
                            ),
                            Ok(None) => buffer.language is None,
                            _ => false,
                        }
                    },
                }
            },
            done is Err ==> final(self)@ == old(self)@,
    {
        let found = self.find_id(id);
        match found {
            None => Err(EditFailure::UnknownBuffer),
            Some(i) => {
                let ghost before = self@;
                let done = self.buffers[i].apply_edit(start, end, insert);
                match done {
                    Err(e) => {
                        assert(self@.buffers =~= before.buffers);
                        Err(EditFailure::Refused(e))
                    },
                    Ok(()) => {
                        proof {
                            lemma_one_buffer_changed(before, self@, i as int);
                        }
                        match self.buffers[i].language() {
                            Some(language) => {
                                let update = self.buffers[i].snapshot(language);
                                Ok(Some(UpdateEvent::Buffer(update)))
                            },
                            None => Ok(None),
                        }
                    },
                }
            },
        }
    }

    /// Consumes `SetWorkspace`.
    pub fn set_workspace(&mut self, workspace: Workspace) -> (outcome: Outcome)
        requires
            old(self)@.wf(),
        ensures
            final(self)@.wf(),
            old(self)@.workspace_set(workspace, final(self)@, outcome),
    {
        if workspace.same_as(&self.workspace) {
            return Outcome::quiet(Disposition::PreconditionFailed);
        }
        self.workspace = workspace.duplicate();
        self.buffers = Vec::new();
        self.cursor = 0;
        self.error_count = 0;
        self.warning_count = 0;
        assert(self@.buffers =~= Seq::<BufferView>::empty());
        Outcome::single(Disposition::Applied, Effect::StartProxy(workspace))
    }

    /// Consumes `LoadBuffer`.
    pub fn load_buffer(&mut self, path: String, content: Vec<u8>) -> (outcome: Outcome)
        requires
            old(self)@.wf(),
        ensures
            final(self)@.wf(),
            old(self)@.buffer_loaded(path@, content@, final(self)@, outcome),
    {
        let found = self.find_path(&path);
        match found {
            None => Outcome::quiet(Disposition::UnknownTarget),
            Some(i) => {
                let ghost before = self@;
                let done = self.buffers[i].load_content(content);
                match done {
                    Err(_) => {
                        assert(self@.buffers =~= before.buffers);
                        Outcome::quiet(Disposition::PreconditionFailed)
                    },
                    Ok(()) => {
                        proof {
                            lemma_one_buffer_changed(before, self@, i as int);
                        }
                        Outcome::single(Disposition::Applied, Effect::Invalidate(path))
                    },
                }
            },
        }
    }

    /// Consumes `LoadBufferAndGoToPosition`.
    pub fn load_buffer_and_go_to_position(
        &mut self,
        path: String,
        content: Vec<u8>,
        editor_view_id: u64,
        location: EditorLocation,
    ) -> (outcome: Outcome)
        requires
            old(self)@.wf(),
        ensures
            final(self)@.wf(),
            old(self)@.buffer_loaded_and_gone(
                path@,
                content@,
                editor_view_id,
                location,
                final(self)@,
                outcome,
            ),
    {
        let loaded = self.load_buffer(path, content);
        match loaded.disposition {
            Disposition::Applied => {
                let mut effects = loaded.effects;
                let ghost first = effects@;
                effects.push(Effect::Delegate(Delegated::GoToLocation(editor_view_id, location)));
                assert(effects@.subrange(0, 1) =~= first);
                Outcome { disposition: Disposition::Applied, effects }
            },
            _ => loaded,
        }
    }

    /// Replaces the diagnostics of the buffer at `path` wholesale and takes
    /// the counts anew over all buffers.
    pub fn publish_diagnostics(&mut self, path: String, diagnostics: Vec<EditorDiagnostic>) -> (outcome:
        Outcome)
        requires
            old(self)@.wf(),
        ensures
            final(self)@.wf(),
            old(self)@.published(path@, diagnostics@, final(self)@, outcome),
    {
        let found = self.find_path(&path);
        match found {
            None => Outcome::quiet(Disposition::UnknownTarget),
            Some(i) => {
                let ghost before = self@;
                self.buffers[i].set_diagnostics(diagnostics);
                proof {
                    assert(self@.buffers =~= before.buffers.update(
                        i as int,
                        self@.buffers[i as int],
                    ));
                }
                self.recount();
                Outcome::single(Disposition::Applied, Effect::Invalidate(path))
            },
        }
    }

    /// Consumes `BufferSave`.
    pub fn buffer_save(&mut self, path: String, rev: u64) -> (outcome: Outcome)
        requires
            old(self)@.wf(),
        ensures
            final(self)@.wf(),
            old(self)@.saved(path@, rev, final(self)@, outcome),
    {
        let found = self.find_path(&path);
        match found {
            None => Outcome::quiet(Disposition::UnknownTarget),
            Some(i) => {
                let ghost before = self@;
                let applied = self.buffers[i].mark_saved(rev);
                if applied {
                    proof {
                        lemma_one_buffer_changed(before, self@, i as int);
                    }
                    Outcome::single(Disposition::Applied, Effect::Invalidate(path))
                } else {
                    assert(self@.buffers =~= before.buffers);
                    Outcome::quiet(Disposition::Stale)
                }
            },
        }
    }

    /// Consumes `ReloadBuffer`.
    pub fn reload_buffer(&mut self, id: BufferId, rev: u64, content: Vec<u8>) -> (outcome: Outcome)
        requires
            old(self)@.wf(),
        ensures
            final(self)@.wf(),
            old(self)@.reloaded(id, rev, content@, final(self)@, outcome),
    {
        let found = self.find_id(id);
        match found {
            None => Outcome::quiet(Disposition::UnknownTarget),
            Some(i) => {
                let ghost before = self@;
                let applied = self.buffers[i].reload(rev, content);
                if applied {
                    proof {
                        lemma_one_buffer_changed(before, self@, i as int);
                    }
                    let path = self.buffers[i].path().clone();
                    Outcome::single(Disposition::Applied, Effect::Invalidate(path))
                } else {
                    assert(self@.buffers =~= before.buffers);
                    Outcome::quiet(Disposition::PreconditionFailed)
                }
            },
        }
    }

    /// Consumes `UpdateSemanticTokens`. Every open buffer is looked at for
    /// the identity, not the first one alone.
    pub fn update_semantic_tokens(&self, id: BufferId, rev: u64, tokens: Vec<SemanticToken>) -> (outcome:
        Outcome)
        requires
            self@.wf(),
        ensures
            self@.tokens_forwarded(id, rev, tokens, self@, outcome),
    {
        let found = self.find_id(id);
        match found {
            None => Outcome::quiet(Disposition::UnknownTarget),
            Some(i) => {
                if self.buffers[i].revision() != rev {
                    return Outcome::quiet(Disposition::Stale);
                }
                match self.buffers[i].language() {
                    None => Outcome::quiet(Disposition::PreconditionFailed),
                    Some(language) => {
                        let update = self.buffers[i].snapshot(language);
                        Outcome::single(
                            Disposition::Applied,
                            Effect::Forward(UpdateEvent::SemanticTokens(update, tokens)),
                        )
                    },
                }
            },
        }
    }

    /// Consumes `UpdateStyle`. The buffer is found by `path`.
    pub fn update_style(
        &mut self,
        _id: BufferId,
        path: String,
        rev: u64,
        highlights: Vec<StyleSpan>,
        semantic_tokens: bool,
    ) -> (outcome: Outcome)
        requires
            old(self)@.wf(),
        ensures
            final(self)@.wf(),
            old(self)@.styled(path@, rev, highlights, semantic_tokens, final(self)@, outcome),
    {
        let found = self.find_path(&path);
        match found {
            None => Outcome::quiet(Disposition::UnknownTarget),
            Some(i) => {
                let ghost before = self@;
                let applied = self.buffers[i].update_styles(rev, highlights, semantic_tokens);
                if applied {
                    proof {
                        lemma_one_buffer_changed(before, self@, i as int);
                    }
                    Outcome::single(Disposition::Applied, Effect::Invalidate(path))
                } else {
                    assert(self@.buffers =~= before.buffers);
                    Outcome::quiet(Disposition::Stale)
                }
            },
        }
    }

    /// Consumes `UpdateCodeActions`.
    pub fn update_code_actions(
        &mut self,
        path: String,
        rev: u64,
        offset: usize,
        response: Vec<lsp_types::CodeActionOrCommand>,
    ) -> (outcome: Outcome)
        requires
            old(self)@.wf(),
        ensures
            final(self)@.wf(),
            old(self)@.code_actions_updated(path@, rev, offset, response, final(self)@, outcome),
    {
        let found = self.find_path(&path);
        match found {
            None => Outcome::quiet(Disposition::UnknownTarget),
            Some(i) => {
                let ghost before = self@;
                let applied = self.buffers[i].insert_code_action(offset, rev, response);
                if applied {
                    proof {
                        lemma_one_buffer_changed(before, self@, i as int);
                    }
                    Outcome::quiet(Disposition::Applied)
                } else {
                    assert(self@.buffers =~= before.buffers);
                    Outcome::quiet(Disposition::Stale)
                }
            },
        }
    }

    /// Consumes `GotoDefinition` and `GotoReference`.
    pub fn navigate(&self, offset: usize, location: EditorLocation) -> (outcome: Outcome)
        ensures
            self@.navigated(offset, location, self@, outcome),
    {
        if offset == self.cursor {
            Outcome::single(
                Disposition::Applied,
                Effect::Delegate(Delegated::JumpToLocation(EditorKind::SplitActive, location)),
            )
        } else {
            Outcome::quiet(Disposition::Stale)
        }
    }

    /// Shows the places `places` in the palette, if the cursor still stands
    /// at the offset that was asked about.
    pub fn show_references(&self, offset: usize, places: Vec<EditorLocation>) -> (outcome: Outcome)
        ensures
            self@.references_shown(offset, places, self@, outcome),
    {
        if offset == self.cursor {
            Outcome::single(Disposition::Applied, Effect::ShowReferences(places))
        } else {
            Outcome::quiet(Disposition::Stale)
        }
    }

    /// Hands a command on to the subsystem that owns it.
    pub fn hand_on(&self, work: Delegated) -> (outcome: Outcome)
        ensures
            self@.handed_on(work, self@, outcome),
    {
        Outcome::single(Disposition::Delegated, Effect::Delegate(work))
    }

    /// Consumes the payload of a command: one arm for each kind of command.
    /// Whatever is dropped leaves the state as it was and asks for nothing.
    pub fn dispatch(&mut self, payload: UiCommand) -> (outcome: Outcome)
        requires
            old(self)@.wf(),
        ensures
            final(self)@.wf(),
            old(self)@.consumed(payload, final(self)@, outcome),
    {
        match payload {
            UiCommand::SetWorkspace(workspace) => self.set_workspace(workspace),
            UiCommand::LoadBuffer { path, content } => self.load_buffer(path, content),
            UiCommand::PublishDiagnostics(params) => {
                let path = uri_path(published_uri(&params));
                let diagnostics = take_in(published_diagnostics(params));
                self.publish_diagnostics(path, diagnostics)
            },
            UiCommand::BufferSave(path, rev) => self.buffer_save(path, rev),
            UiCommand::ReloadBuffer(id, rev, content) => self.reload_buffer(id, rev, content),
            UiCommand::UpdateSemanticTokens(id, rev, tokens) => self.update_semantic_tokens(
                id,
                rev,
                tokens,
            ),
            UiCommand::UpdateStyle { id, path, rev, highlights, semantic_tokens } => {
                self.update_style(id, path, rev, highlights, semantic_tokens)
            },
            UiCommand::UpdateCodeActions(path, rev, offset, response) => self.update_code_actions(
                path,
                rev,
                offset,
                response,
            ),
            UiCommand::GotoDefinition(offset, location) => self.navigate(offset, location),
            UiCommand::GotoReference(offset, location) => self.navigate(offset, location),
            UiCommand::PaletteReferences(offset, locations) => {
                let places = places_of(&locations);
                self.show_references(offset, places)
            },
            UiCommand::LoadBufferAndGoToPosition { path, content, editor_view_id, location } => {
                self.load_buffer_and_go_to_position(path, content, editor_view_id, location)
            },
            UiCommand::DocumentFormatAndSave(path, rev, result) => self.hand_on(
                Delegated::DocumentFormatAndSave(path, rev, result),
            ),
            UiCommand::OpenFile(path) => self.hand_on(Delegated::OpenFile(path)),
            UiCommand::GoToLocationNew(view, location) => self.hand_on(
                Delegated::GoToLocation(view, location),
            ),
            UiCommand::JumpToPosition(kind, position) => self.hand_on(
                Delegated::JumpToPosition(kind, position),
            ),
            UiCommand::JumpToLocation(kind, location) => self.hand_on(
                Delegated::JumpToLocation(kind, location),
            ),
            UiCommand::JumpToLine(kind, line) => self.hand_on(Delegated::JumpToLine(kind, line)),
        }
    }

    /// Consumes a command from the bus if it is addressed to everyone or to
    /// this component, and leaves it alone otherwise.
    pub fn receive(&mut self, command: Command) -> (outcome: Outcome)
        requires
            old(self)@.wf(),
        ensures
            final(self)@.wf(),
            if old(self)@.addressed_by(command.target) {
                old(self)@.consumed(command.payload, final(self)@, outcome)
            } else {
                final(self)@ == old(self)@ && outcome.is_quiet(Disposition::NotAddressed)
            },
    {
        let addressed = match command.target {
            Target::Global => true,
            Target::Component(id) => id == self.id,
        };
        if addressed {
            self.dispatch(command.payload)
        } else {
            Outcome::quiet(Disposition::NotAddressed)
        }
    }
}

/// The places that the locations of a reply name, one for each, in order.
pub fn places_of(locations: &Vec<lsp_types::Location>) -> (places: Vec<EditorLocation>)
    ensures
        names_places(places@, locations@),
{
    let mut places: Vec<EditorLocation> = Vec::new();
    let mut i: usize = 0;
    while i < locations.len()
        invariant
            i <= locations@.len(),
            names_places(places@, locations@.subrange(0, i as int)),
        decreases locations@.len() - i,
    {
        let path = uri_path(location_uri(&locations[i]));
        let position = location_start(&locations[i]);
        places.push(EditorLocation { path, position });
        i += 1;
    }
    assert(locations@.subrange(0, i as int) =~= locations@);
    places
}

} // verus!

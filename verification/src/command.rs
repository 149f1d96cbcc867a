//! The messages of the editing core: the commands that arrive on the command
//! bus, the events sent to the background worker, and the effects that the
//! consumer of commands asks its surroundings to carry out.

use crate::buffer::{BufferId, BufferView, LanguageTag, StyleSpan};
use crate::text::TextStore;
use vstd::prelude::*;

verus! {

/// A line and a column in a text.
#[derive(Clone, Copy, Debug, PartialEq, Eq, Structural)]
pub struct Position {
    pub line: u32,
    pub character: u32,
}

/// A place to show: a file and a position in it.
#[derive(Clone, Debug, PartialEq, Eq)]
pub struct EditorLocation {
    pub path: String,
    pub position: Position,
}

/// Which editor a jump is meant for.
#[derive(Clone, Copy, Debug, PartialEq, Eq, Structural)]
pub enum EditorKind {
    SplitActive,
    PalettePreview,
}

/// Where a workspace lives.
#[derive(Clone, Debug, PartialEq, Eq)]
pub enum WorkspaceKind {
    Local,
    RemoteSsh { user: String, host: String },
}

/// The folder the editor works in.
#[derive(Clone, Debug, PartialEq, Eq)]
pub struct Workspace {
    pub kind: WorkspaceKind,
    pub path: String,
}

/// A workspace kind as contracts speak of it.
pub enum WorkspaceKindView {
    Local,
    RemoteSsh { user: Seq<char>, host: Seq<char> },
}

/// A workspace as contracts speak of it.
pub struct WorkspaceView {
    pub kind: WorkspaceKindView,
    pub path: Seq<char>,
}

impl View for WorkspaceKind {
    type V = WorkspaceKindView;

    open spec fn view(&self) -> WorkspaceKindView {
        match *self {
            WorkspaceKind::Local => WorkspaceKindView::Local,
            WorkspaceKind::RemoteSsh { user, host } => WorkspaceKindView::RemoteSsh {
                user: user@,
                host: host@,
            },
        }
    }
}

impl View for Workspace {
    type V = WorkspaceView;

    open spec fn view(&self) -> WorkspaceView {
        WorkspaceView { kind: self.kind@, path: self.path@ }
    }
}

impl WorkspaceKind {
    /// Whether two kinds name the same place.
    pub fn same_as(&self, other: &WorkspaceKind) -> (same: bool)
        ensures
            same == (self@ == other@),
    {
        match self {
            WorkspaceKind::Local => match other {
                WorkspaceKind::Local => true,
                WorkspaceKind::RemoteSsh { .. } => false,
            },
            WorkspaceKind::RemoteSsh { user, host } => match other {
                WorkspaceKind::Local => false,
                WorkspaceKind::RemoteSsh { user: other_user, host: other_host } => {
                    *user == *other_user && *host == *other_host
                },
            },
        }
    }
}

impl Workspace {
    /// Whether two workspaces are the same folder in the same place.
    pub fn same_as(&self, other: &Workspace) -> (same: bool)
        ensures
            same == (self@ == other@),
    {
        self.kind.same_as(&other.kind) && self.path == other.path
    }
}

/// One semantic token: a stretch of text and the kind of thing it is.
#[derive(Clone, Debug, PartialEq, Eq)]
pub struct SemanticToken {
    pub start: usize,
    pub end: usize,
    pub kind: String,
}

/// What the background worker is given of a buffer: a copy of its text, the
/// revision the copy was taken at, and the highlights it had then.
#[derive(Debug, PartialEq, Eq)]
pub struct BufferUpdate {
    pub id: BufferId,
    pub path: String,
    pub rope: TextStore,
    pub rev: u64,
    pub language: LanguageTag,
    pub highlights: Vec<StyleSpan>,
}

impl BufferUpdate {
    /// Whether this is a snapshot of `buffer`, taken for `language`.
    pub open spec fn describes(self, buffer: BufferView, language: LanguageTag) -> bool {
        &&& self.id == buffer.id
        &&& self.path@ == buffer.path
        &&& self.rope@ == buffer.text
        &&& self.rev == buffer.revision
        &&& self.language == language
        &&& self.highlights@ == buffer.live_spans()
    }
}

/// Work for the background worker.
#[derive(Debug, PartialEq, Eq)]
pub enum UpdateEvent {
    /// The text changed: compute its highlights anew.
    Buffer(BufferUpdate),
    /// Semantic tokens arrived: fold them into highlights.
    SemanticTokens(BufferUpdate, Vec<SemanticToken>),
}

impl UpdateEvent {
    /// The snapshot the event carries.
    pub open spec fn update(self) -> BufferUpdate {
        match self {
            UpdateEvent::Buffer(update) => update,
            UpdateEvent::SemanticTokens(update, _) => update,
        }
    }

    /// The buffer the event is about.
    pub fn buffer_id(&self) -> (id: BufferId)
        ensures
            id == self.update().id,
    {
        match self {
            UpdateEvent::Buffer(update) => update.id,
            UpdateEvent::SemanticTokens(update, _) => update.id,
        }
    }

    /// The revision the event's snapshot was taken at.
    pub fn revision(&self) -> (revision: u64)
        ensures
            revision == self.update().rev,
    {
        match self {
            UpdateEvent::Buffer(update) => update.rev,
            UpdateEvent::SemanticTokens(update, _) => update.rev,
        }
    }
}

/// Who a command is addressed to.
#[derive(Clone, Copy, Debug, PartialEq, Eq, Structural)]
pub enum Target {
    /// Whoever consumes commands.
    Global,
    /// The component with this identity.
    Component(u64),
}

/// What a command asks for.
#[derive(Debug, PartialEq)]
pub enum UiCommand {
    SetWorkspace(Workspace),
    LoadBuffer { path: String, content: Vec<u8> },
    PublishDiagnostics(lsp_types::PublishDiagnosticsParams),
    BufferSave(String, u64),
    ReloadBuffer(BufferId, u64, Vec<u8>),
    UpdateSemanticTokens(BufferId, u64, Vec<SemanticToken>),
    UpdateStyle { id: BufferId, path: String, rev: u64, highlights: Vec<StyleSpan>, semantic_tokens: bool },
    UpdateCodeActions(String, u64, usize, Vec<lsp_types::CodeActionOrCommand>),
    GotoDefinition(usize, EditorLocation),
    GotoReference(usize, EditorLocation),
    PaletteReferences(usize, Vec<lsp_types::Location>),
    LoadBufferAndGoToPosition { path: String, content: Vec<u8>, editor_view_id: u64, location: EditorLocation },
    DocumentFormatAndSave(String, u64, Result<String, String>),
    OpenFile(String),
    GoToLocationNew(u64, EditorLocation),
    JumpToPosition(EditorKind, Position),
    JumpToLocation(EditorKind, EditorLocation),
    JumpToLine(EditorKind, usize),
}

/// A message on the command bus.
#[derive(Debug, PartialEq)]
pub struct Command {
    pub target: Target,
    pub payload: UiCommand,
}

/// Work that belongs to a subsystem outside the editing core.
#[derive(Debug, PartialEq, Eq)]
pub enum Delegated {
    DocumentFormatAndSave(String, u64, Result<String, String>),
    OpenFile(String),
    GoToLocation(u64, EditorLocation),
    JumpToPosition(EditorKind, Position),
    JumpToLocation(EditorKind, EditorLocation),
    JumpToLine(EditorKind, usize),
}

/// What the consumer of commands asks its surroundings to do.
#[derive(Debug, PartialEq, Eq)]
pub enum Effect {
    /// Lay out and paint anew what shows the buffer at this path.
    Invalidate(String),
    /// Hand this event to the background worker.
    Forward(UpdateEvent),
    /// Start the language proxy for this workspace.
    StartProxy(Workspace),
    /// Start the background worker.
    StartWorker,
    /// Retrieve the content of the buffer with this identity from the file
    /// at this path.
    RetrieveFile(BufferId, String),
    /// Show these places in the palette.
    ShowReferences(Vec<EditorLocation>),
    /// Hand this work to the subsystem that owns it.
    Delegate(Delegated),
}

/// What became of a command.
#[derive(Clone, Copy, Debug, PartialEq, Eq, Structural)]
pub enum Disposition {
    /// It took effect.
    Applied,
    /// It was handed to the subsystem that owns it.
    Delegated,
    /// Its revision or cursor offset is no longer the current one: dropped.
    Stale,
    /// It names a buffer that is not open: dropped.
    UnknownTarget,
    /// What it presupposes does not hold: dropped.
    PreconditionFailed,
    /// It is addressed to another component: left alone.
    NotAddressed,
}

/// The result of consuming one command.
#[derive(Debug, PartialEq, Eq)]
pub struct Outcome {
    pub disposition: Disposition,
    pub effects: Vec<Effect>,
}

impl Outcome {
    /// Whether this is the outcome `disposition` with no effect.
    pub open spec fn is_quiet(self, disposition: Disposition) -> bool {
        self.disposition == disposition && self.effects@ == Seq::<Effect>::empty()
    }

    /// Whether this is the outcome `disposition` with the one effect
    /// `effect`.
    pub open spec fn is_single(self, disposition: Disposition, effect: Effect) -> bool {
        self.disposition == disposition && self.effects@ == seq![effect]
    }

    /// An outcome with no effect.
    pub fn quiet(disposition: Disposition) -> (outcome: Outcome)
        ensures
            outcome.is_quiet(disposition),
    {
        Outcome { disposition, effects: Vec::new() }
    }

    /// An outcome with one effect.
    pub fn single(disposition: Disposition, effect: Effect) -> (outcome: Outcome)
        ensures
            outcome.is_single(disposition, effect),
    {
        let mut effects: Vec<Effect> = Vec::new();
        effects.push(effect);
        assert(effects@ =~= seq![effect]);
        Outcome { disposition, effects }
    }
}

impl Workspace {
    /// An equal workspace of its own.
    pub fn duplicate(&self) -> (copy: Workspace)
        ensures
            copy == *self,
    {
        let kind = match &self.kind {
            WorkspaceKind::Local => WorkspaceKind::Local,
            WorkspaceKind::RemoteSsh { user, host } => WorkspaceKind::RemoteSsh {
                user: user.clone(),
                host: host.clone(),
            },
        };
        Workspace { kind, path: self.path.clone() }
    }
}

} // verus!

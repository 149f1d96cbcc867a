//! The background worker: it takes snapshots of buffers, computes highlight
//! spans for them away from the editing path, and answers with a style
//! update tagged with the revision of the snapshot. It never cancels work
//! that has been overtaken: whether an answer is still valid is decided
//! where it is written, not where it is computed.

use crate::buffer::{BufferId, StyleSpan};
use crate::command::{SemanticToken, UiCommand, UpdateEvent};
use vstd::prelude::*;

verus! {

/// What the worker is doing for one buffer.
#[derive(Clone, Copy, Debug, PartialEq, Eq, Structural)]
pub enum WorkerState {
    Idle,
    Computing,
}

/// The spans that a sequence of semantic tokens stands for: one span for
/// each token, over the same stretch, styled by the token's kind.
pub open spec fn folded(tokens: Seq<SemanticToken>) -> Seq<StyleSpan> {
    Seq::new(
        tokens.len(),
        |i: int| StyleSpan { start: tokens[i].start, end: tokens[i].end, style: tokens[i].kind },
    )
}

/// Folds semantic tokens into highlight spans.
pub fn fold_tokens(tokens: Vec<SemanticToken>) -> (spans: Vec<StyleSpan>)
    ensures
        spans@ == folded(tokens@),
{
    let ghost all = tokens@;
    let mut rest = tokens;
    let mut reversed: Vec<StyleSpan> = Vec::new();
    while rest.len() > 0
        invariant
            rest@.len() + reversed@.len() == all.len(),
            rest@ == all.subrange(0, rest@.len() as int),
            forall|i: int|
                0 <= i < reversed@.len() ==> #[trigger] reversed@[i] == folded(all)[all.len() - 1
                    - i],
        decreases rest@.len(),
    {
        match rest.pop() {
            Some(token) => {
                reversed.push(StyleSpan { start: token.start, end: token.end, style: token.kind });
            },
            None => {},
        }
        assert(rest@ =~= all.subrange(0, rest@.len() as int));
    }
    let mut spans: Vec<StyleSpan> = Vec::new();
    while reversed.len() > 0
        invariant
            reversed@.len() + spans@.len() == all.len(),
            forall|i: int|
                0 <= i < reversed@.len() ==> #[trigger] reversed@[i] == folded(all)[all.len() - 1
                    - i],
            forall|i: int| 0 <= i < spans@.len() ==> #[trigger] spans@[i] == folded(all)[i],
        decreases reversed@.len(),
    {
        match reversed.pop() {
            Some(span) => {
                spans.push(span);
            },
            None => {},
        }
    }
    assert(spans@ =~= folded(all));
    spans
}

/// The style update that answers `event` with `spans`: for the buffer of the
/// snapshot, tagged with the revision of the snapshot.
pub open spec fn answers(command: UiCommand, event: UpdateEvent, spans: Seq<StyleSpan>) -> bool {
    match command {
        UiCommand::UpdateStyle { id, path, rev, highlights, semantic_tokens } => {
            &&& id == event.update().id
            &&& path == event.update().path
            &&& rev == event.update().rev
            &&& highlights@ == spans
            &&& semantic_tokens == (event is SemanticTokens)
        },
        _ => false,
    }
}

/// The worker as contracts speak of it.
pub struct WorkerView {
    /// The events that wait, the oldest first.
    pub pending: Seq<UpdateEvent>,
    /// The event being computed, if any.
    pub current: Option<UpdateEvent>,
}

impl WorkerView {
    /// The state of the worker for the buffer `id`.
    pub open spec fn state_of(self, id: BufferId) -> WorkerState {
        match self.current {
            Some(event) if event.update().id == id => WorkerState::Computing,
            _ => WorkerState::Idle,
        }
    }
}

/// The background worker's queue and the one computation in flight.
pub struct Worker {
    pending: Vec<UpdateEvent>,
    current: Option<UpdateEvent>,
}

impl View for Worker {
    type V = WorkerView;

    closed spec fn view(&self) -> WorkerView {
        WorkerView { pending: self.pending@, current: self.current }
    }
}

impl Worker {
    /// A worker with nothing to do.
    pub fn new() -> (worker: Worker)
        ensures
            worker@ == (WorkerView {
                pending: Seq::<UpdateEvent>::empty(),
                current: None::<UpdateEvent>,
            }),
    {
        Worker { pending: Vec::new(), current: None }
    }

    /// Whether the worker is computing for the buffer `id` or idle for it.
    pub fn state_of(&self, id: BufferId) -> (state: WorkerState)
        ensures
            state == self@.state_of(id),
    {
        match &self.current {
            Some(event) => {
                if event.buffer_id() == id {
                    WorkerState::Computing
                } else {
                    WorkerState::Idle
                }
            },
            None => WorkerState::Idle,
        }
    }

    /// How many events wait.
    pub fn pending(&self) -> (n: usize)
        ensures
            n == self@.pending.len(),
    {
        self.pending.len()
    }

    /// The event being computed, if any.
    pub fn current(&self) -> (event: Option<&UpdateEvent>)
        ensures
            match event {
                Some(e) => self@.current == Some(*e),
                None => self@.current is None,
            },
    {
        self.current.as_ref()
    }

    /// Takes in an event. It waits behind those taken in before; work in
    /// flight goes on undisturbed, also where it is for the same buffer.
    pub fn submit(&mut self, event: UpdateEvent)
        ensures
            final(self)@ == (WorkerView {
                pending: old(self)@.pending.push(event),
                current: old(self)@.current,
            }),
    {
        self.pending.push(event);
    }

    /// Begins the oldest waiting event, if the worker is free and one waits.
    pub fn start(&mut self) -> (started: bool)
        ensures
            started == (old(self)@.current is None && old(self)@.pending.len() > 0),
            started ==> final(self)@ == (WorkerView {
                pending: old(self)@.pending.subrange(1, old(self)@.pending.len() as int),
                current: Some(old(self)@.pending[0]),
            }),
            !started ==> *final(self) == *old(self),
    {
        if self.current.is_some() || self.pending.len() == 0 {
            return false;
        }
        let event = self.pending.remove(0);
        self.current = Some(event);
        assert(self.pending@ =~= old(self).pending@.subrange(1, old(self).pending@.len() as int));
        true
    }

    /// Ends the computation in flight with the spans it found. The answer is
    /// a style update for the buffer of the snapshot, tagged with the
    /// snapshot's revision. An idle worker has nothing to answer.
    pub fn finish(&mut self, spans: Vec<StyleSpan>) -> (answer: Option<UiCommand>)
        ensures
            match old(self)@.current {
                Some(event) => {
                    &&& answer is Some
                    &&& answers(answer->0, event, spans@)
                    &&& final(self)@ == (WorkerView {
                        pending: old(self)@.pending,
                        current: None::<UpdateEvent>,
                    })
                },
                None => answer is None && *final(self) == *old(self),
            },
    {
        match self.current.take() {
            Some(UpdateEvent::Buffer(update)) => Some(
                UiCommand::UpdateStyle {
                    id: update.id,
                    path: update.path,
                    rev: update.rev,
                    highlights: spans,
                    semantic_tokens: false,
                },
            ),
            Some(UpdateEvent::SemanticTokens(update, _)) => Some(
                UiCommand::UpdateStyle {
                    id: update.id,
                    path: update.path,
                    rev: update.rev,
                    highlights: spans,
                    semantic_tokens: true,
                },
            ),
            None => None,
        }
    }

    /// Carries out the computation in flight where it is a fold of semantic
    /// tokens, and answers it. A computation of another kind stays in
    /// flight; an idle worker has nothing to answer.
    pub fn fold_current(&mut self) -> (answer: Option<UiCommand>)
        ensures
            match old(self)@.current {
                Some(UpdateEvent::SemanticTokens(update, tokens)) => {
                    &&& answer is Some
                    &&& answers(
                        answer->0,
                        UpdateEvent::SemanticTokens(update, tokens),
                        folded(tokens@),
                    )
                    &&& final(self)@ == (WorkerView {
                        pending: old(self)@.pending,
                        current: None::<UpdateEvent>,
                    })
                },
                _ => answer is None && *final(self) == *old(self),
            },
    {
        match self.current.take() {
            Some(UpdateEvent::SemanticTokens(update, tokens)) => {
                let spans = fold_tokens(tokens);
                Some(
                    UiCommand::UpdateStyle {
                        id: update.id,
                        path: update.path,
                        rev: update.rev,
                        highlights: spans,
                        semantic_tokens: true,
                    },
                )
            },
            other => {
                self.current = other;
                None
            },
        }
    }
}

} // verus!

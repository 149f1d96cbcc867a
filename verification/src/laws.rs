//! What holds of the editing core whatever arrives and in whatever order:
//! revisions only grow, stale results change nothing, fresh results replace
//! exactly what they were computed for.

use crate::buffer::{BufferId, BufferView, CodeActions, Highlights, StyleSpan};
use crate::command::{
    Delegated, Disposition, EditorKind, EditorLocation, Effect, Outcome, SemanticToken, UiCommand,
    UpdateEvent,
};
use crate::editor::{invalidates, EditorView};
use crate::revision::follows;
use crate::worker::answers;
use vstd::prelude::*;

verus! {

/// A change of a buffer's text that may be asked for.
pub enum Mutation {
    /// The bytes in `start..end` give way to `insert`.
    Edit { start: usize, end: usize, insert: Seq<u8> },
    /// Content arrives in place of what the buffer held.
    Load { content: Seq<u8> },
    /// Reloaded content arrives, tagged with a revision.
    Reload { revision: u64, content: Seq<u8> },
}

/// Whether `buffer` carries out `mutation`.
pub open spec fn carried_out(buffer: BufferView, mutation: Mutation) -> bool {
    match mutation {
        Mutation::Edit { start, end, insert } => buffer.edit_outcome(start, end, insert) is Ok,
        Mutation::Load { content } => !(buffer.loaded && buffer.revision == u64::MAX),
        Mutation::Reload { revision, content } => follows(revision, buffer.revision),
    }
}

/// The buffer after `mutation` was asked of it: changed as the buffer's
/// operations say where it is carried out, and as it was where it is not.
pub open spec fn after(buffer: BufferView, mutation: Mutation) -> BufferView {
    if !carried_out(buffer, mutation) {
        buffer
    } else {
        match mutation {
            Mutation::Edit { start, end, insert } => buffer.edited(start, end, insert),
            Mutation::Load { content } => buffer.loaded_with(content),
            Mutation::Reload { revision, content } => BufferView {
                text: content,
                loaded: true,
                revision,
                ..buffer
            },
        }
    }
}

/// The buffer after all of `mutations` were asked of it, in order.
pub open spec fn after_all(buffer: BufferView, mutations: Seq<Mutation>) -> BufferView
    decreases mutations.len(),
{
    if mutations.len() == 0 {
        buffer
    } else {
        after(after_all(buffer, mutations.drop_last()), mutations.last())
    }
}

/// Whether `mutation` changes the text that `buffer` has: every mutation
/// that is carried out, but for the first content of a buffer that had none.
pub open spec fn changes_text(buffer: BufferView, mutation: Mutation) -> bool {
    carried_out(buffer, mutation) && !(mutation is Load && !buffer.loaded)
}

/// One mutation never lowers the revision. One that changes the text moves
/// it on by exactly one.
pub proof fn law_mutation_moves_revision_on(buffer: BufferView, mutation: Mutation)
    ensures
        after(buffer, mutation).revision >= buffer.revision,
        changes_text(buffer, mutation) ==> after(buffer, mutation).revision == buffer.revision + 1,
        !carried_out(buffer, mutation) ==> after(buffer, mutation) == buffer,
{
}

/// Over any sequence of mutations the revision never goes down: the
/// revision after the first `i` of them is at most the revision after the
/// first `j`, for `i <= j`. It is strictly less where the last of those `j`
/// mutations changed the text, so no revision comes back once the text has
/// changed again.
pub proof fn law_revision_monotonic(buffer: BufferView, mutations: Seq<Mutation>, i: int, j: int)
    requires
        0 <= i <= j <= mutations.len(),
    ensures
        after_all(buffer, mutations.take(i)).revision <= after_all(
            buffer,
            mutations.take(j),
        ).revision,
        i < j && changes_text(after_all(buffer, mutations.take(j - 1)), mutations[j - 1])
            ==> after_all(buffer, mutations.take(i)).revision < after_all(
            buffer,
            mutations.take(j),
        ).revision,
    decreases j - i,
{
    if i < j {
        let before = after_all(buffer, mutations.take(j - 1));
        assert(mutations.take(j).drop_last() =~= mutations.take(j - 1));
        assert(mutations.take(j).last() == mutations[j - 1]);
        assert(after_all(buffer, mutations.take(j)) == after(before, mutations[j - 1]));
        law_mutation_moves_revision_on(before, mutations[j - 1]);
        law_revision_monotonic(buffer, mutations, i, j - 1);
    }
}

/// Over a sequence of edits that are all carried out, the revision counts
/// the edits: after `edits.len()` of them it is that much beyond where it
/// began.
pub proof fn law_revision_counts_edits(buffer: BufferView, edits: Seq<Mutation>)
    requires
        forall|k: int|
            0 <= k < edits.len() ==> (#[trigger] edits[k]) is Edit && carried_out(
                after_all(buffer, edits.take(k)),
                edits[k],
            ),
    ensures
        after_all(buffer, edits).revision == buffer.revision + edits.len(),
    decreases edits.len(),
{
    if edits.len() > 0 {
        let shorter = edits.drop_last();
        assert forall|k: int| 0 <= k < shorter.len() implies (#[trigger] shorter[k]) is Edit
            && carried_out(after_all(buffer, shorter.take(k)), shorter[k]) by {
            assert(shorter.take(k) =~= edits.take(k));
            assert(shorter[k] == edits[k]);
        }
        law_revision_counts_edits(buffer, shorter);
        assert(edits.take(edits.len() - 1) =~= shorter);
        assert(edits[edits.len() - 1] is Edit);
    }
}

/// Highlights computed for a revision that the buffer has left change
/// nothing: the state is as it was and nothing is to be painted.
pub proof fn law_stale_style_rejected(
    pre: EditorView,
    path: Seq<char>,
    rev: u64,
    highlights: Vec<StyleSpan>,
    semantic_tokens: bool,
    post: EditorView,
    outcome: Outcome,
)
    requires
        pre.styled(path, rev, highlights, semantic_tokens, post, outcome),
        pre.has_path(path),
        pre.buffers[pre.index_of_path(path)].revision != rev,
    ensures
        post == pre,
        outcome.is_quiet(Disposition::Stale),
{
}

/// Code actions computed for a revision that the buffer has left change
/// nothing.
pub proof fn law_stale_code_actions_rejected(
    pre: EditorView,
    path: Seq<char>,
    rev: u64,
    offset: usize,
    response: Vec<lsp_types::CodeActionOrCommand>,
    post: EditorView,
    outcome: Outcome,
)
    requires
        pre.code_actions_updated(path, rev, offset, response, post, outcome),
        pre.has_path(path),
        pre.buffers[pre.index_of_path(path)].revision != rev,
    ensures
        post == pre,
        outcome.is_quiet(Disposition::Stale),
{
}

/// Semantic tokens computed for a revision that the buffer has left are not
/// passed on: the state is as it was and no event goes to the worker.
pub proof fn law_stale_tokens_rejected(
    pre: EditorView,
    id: BufferId,
    rev: u64,
    tokens: Vec<SemanticToken>,
    post: EditorView,
    outcome: Outcome,
)
    requires
        pre.tokens_forwarded(id, rev, tokens, post, outcome),
        pre.has_id(id),
        pre.buffers[pre.index_of_id(id)].revision != rev,
    ensures
        post == pre,
        outcome.is_quiet(Disposition::Stale),
{
}

/// Highlights computed for the revision the buffer is at replace its
/// highlights exactly: they are what the buffer shows from then on, every
/// other buffer and everything else of this one is as it was, and what
/// shows the buffer is to be painted once.
pub proof fn law_fresh_style_accepted(
    pre: EditorView,
    path: Seq<char>,
    rev: u64,
    highlights: Vec<StyleSpan>,
    semantic_tokens: bool,
    post: EditorView,
    outcome: Outcome,
)
    requires
        pre.wf(),
        pre.styled(path, rev, highlights, semantic_tokens, post, outcome),
        pre.has_path(path),
        pre.buffers[pre.index_of_path(path)].revision == rev,
    ensures
        post.buffers.len() == pre.buffers.len(),
        post.buffers[pre.index_of_path(path)].live_highlights() == Some(
            Highlights { revision: rev, semantic: semantic_tokens, spans: highlights },
        ),
        post.buffers[pre.index_of_path(path)] == (BufferView {
            highlights: post.buffers[pre.index_of_path(path)].highlights,
            ..pre.buffers[pre.index_of_path(path)]
        }),
        forall|k: int|
            0 <= k < pre.buffers.len() && k != pre.index_of_path(path) ==> post.buffers[k]
                == pre.buffers[k],
        outcome.disposition == Disposition::Applied,
        invalidates(outcome.effects@, path),
{
}

/// Code actions computed for the revision the buffer is at replace what was
/// stored for their offset exactly: they are what the buffer offers there
/// from then on, and what it holds for every other offset is as it was.
pub proof fn law_fresh_code_actions_accepted(
    pre: EditorView,
    path: Seq<char>,
    rev: u64,
    offset: usize,
    response: Vec<lsp_types::CodeActionOrCommand>,
    post: EditorView,
    outcome: Outcome,
)
    requires
        pre.wf(),
        pre.code_actions_updated(path, rev, offset, response, post, outcome),
        pre.has_path(path),
        pre.buffers[pre.index_of_path(path)].revision == rev,
    ensures
        post.buffers.len() == pre.buffers.len(),
        post.buffers[pre.index_of_path(path)].live_code_actions(offset) == Some(
            CodeActions { revision: rev, response },
        ),
        post.buffers[pre.index_of_path(path)] == (BufferView {
            code_actions: pre.buffers[pre.index_of_path(path)].code_actions.insert(
                offset,
                CodeActions { revision: rev, response },
            ),
            ..pre.buffers[pre.index_of_path(path)]
        }),
        forall|other: usize|
            other != offset ==> post.buffers[pre.index_of_path(path)].live_code_actions(other)
                == pre.buffers[pre.index_of_path(path)].live_code_actions(other),
        forall|k: int|
            0 <= k < pre.buffers.len() && k != pre.index_of_path(path) ==> post.buffers[k]
                == pre.buffers[k],
        outcome.disposition == Disposition::Applied,
{
}

/// The background worker's answer to a snapshot is written exactly when the
/// buffer is still at the revision of the snapshot: work that an edit has
/// overtaken is dropped where it would be written, whenever it ends.
pub proof fn law_worker_answer_guarded(
    pre: EditorView,
    event: UpdateEvent,
    spans: Seq<StyleSpan>,
    answer: UiCommand,
    post: EditorView,
    outcome: Outcome,
)
    requires
        pre.wf(),
        answers(answer, event, spans),
        pre.has_path(event.update().path@),
        pre.consumed(answer, post, outcome),
    ensures
        outcome.disposition == Disposition::Applied <==> pre.buffers[pre.index_of_path(
            event.update().path@,
        )].revision == event.update().rev,
        outcome.disposition == Disposition::Applied ==> {
            let shown = post.buffers[pre.index_of_path(event.update().path@)].live_highlights();
            &&& shown is Some
            &&& shown->0.spans@ == spans
            &&& shown->0.revision == event.update().rev
            &&& shown->0.semantic == (event is SemanticTokens)
        },
        outcome.disposition != Disposition::Applied ==> post == pre && outcome.is_quiet(
            Disposition::Stale,
        ),
{
}

/// A reload is taken in only where it is tagged with the revision right
/// after the buffer's own, and the buffer is then at that revision with the
/// reloaded text. A reload tagged otherwise (two revisions on, say) changes
/// nothing.
pub proof fn law_reload_gap(
    pre: EditorView,
    id: BufferId,
    rev: u64,
    content: Seq<u8>,
    post: EditorView,
    outcome: Outcome,
)
    requires
        pre.wf(),
        pre.reloaded(id, rev, content, post, outcome),
        pre.has_id(id),
    ensures
        rev == pre.buffers[pre.index_of_id(id)].revision + 1 ==> {
            &&& post.buffers.len() == pre.buffers.len()
            &&& post.buffers[pre.index_of_id(id)].revision == rev
            &&& post.buffers[pre.index_of_id(id)].text == content
            &&& post.buffers[pre.index_of_id(id)].loaded
            &&& outcome.disposition == Disposition::Applied
        },
        rev != pre.buffers[pre.index_of_id(id)].revision + 1 ==> post == pre && outcome.is_quiet(
            Disposition::PreconditionFailed,
        ),
        rev == pre.buffers[pre.index_of_id(id)].revision + 2 ==> post == pre,
{
}

/// A save that is acknowledged for the revision before an edit leaves the
/// buffer dirty: once the buffer `id` has been edited, the acknowledgement
/// of a save of the revision it had before the edit changes nothing.
pub proof fn law_save_behind_edit_stays_dirty(
    pre: EditorView,
    id: BufferId,
    start: usize,
    end: usize,
    insert: Seq<u8>,
    post: EditorView,
    outcome: Outcome,
)
    requires
        pre.wf(),
        pre.has_id(id),
        pre.buffers[pre.index_of_id(id)].edit_outcome(start, end, insert) is Ok,
        pre.with_buffer(
            pre.index_of_id(id),
            pre.buffers[pre.index_of_id(id)].edited(start, end, insert),
        ).saved(
            pre.buffers[pre.index_of_id(id)].path,
            pre.buffers[pre.index_of_id(id)].revision,
            post,
            outcome,
        ),
    ensures
        post == pre.with_buffer(
            pre.index_of_id(id),
            pre.buffers[pre.index_of_id(id)].edited(start, end, insert),
        ),
        post.buffers[pre.index_of_id(id)].dirty,
        outcome.is_quiet(Disposition::Stale),
{
    let i = pre.index_of_id(id);
    let buffer = pre.buffers[i];
    let mid = pre.with_buffer(i, buffer.edited(start, end, insert));
    assert(mid.buffers[i].path == buffer.path);
    assert(mid.has_path(buffer.path));
    let j = mid.index_of_path(buffer.path);
    assert(0 <= j < mid.buffers.len() && mid.buffers[j].path == buffer.path);
    if j != i {
        assert(pre.buffers[j].path == pre.buffers[i].path);
    }
}

/// The answer to a request made at one cursor offset is followed only while
/// the cursor stands there: at that offset the active editor jumps to the
/// place of the answer, at any other nothing happens.
pub proof fn law_navigation_cursor_guarded(
    pre: EditorView,
    offset: usize,
    location: EditorLocation,
    post: EditorView,
    outcome: Outcome,
)
    requires
        pre.navigated(offset, location, post, outcome),
    ensures
        post == pre,
        offset != pre.cursor ==> outcome.effects@.len() == 0,
        offset == pre.cursor ==> outcome.effects@ == seq![
            Effect::Delegate(Delegated::JumpToLocation(EditorKind::SplitActive, location)),
        ],
{
}

} // verus!

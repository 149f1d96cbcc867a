use lapce_core::buffer::{BufferId, EditError, LanguageTag, StyleSpan};
use lapce_core::command::{
    Command, Delegated, Disposition, EditorKind, EditorLocation, Effect, Outcome, Position,
    SemanticToken, Target, UiCommand, UpdateEvent, Workspace, WorkspaceKind,
};
use lapce_core::editor::{places_of, EditFailure, EditorState, OpenError};
use lapce_core::worker::{Worker, WorkerState};

fn local(path: &str) -> Workspace {
    Workspace { kind: WorkspaceKind::Local, path: path.to_string() }
}

fn span(start: usize, end: usize, style: &str) -> StyleSpan {
    StyleSpan { start, end, style: style.to_string() }
}

fn token(start: usize, end: usize, kind: &str) -> SemanticToken {
    SemanticToken { start, end, kind: kind.to_string() }
}

fn place(path: &str, line: u32, character: u32) -> EditorLocation {
    EditorLocation { path: path.to_string(), position: Position { line, character } }
}

fn diagnostic(severity: lsp_types::DiagnosticSeverity) -> lsp_types::Diagnostic {
    let mut d = lsp_types::Diagnostic::default();
    d.severity = Some(severity);
    d
}

fn report(uri: &str, diagnostics: Vec<lsp_types::Diagnostic>) -> UiCommand {
    UiCommand::PublishDiagnostics(lsp_types::PublishDiagnosticsParams {
        uri: lsp_types::Url::parse(uri).unwrap(),
        diagnostics,
        version: None,
    })
}

fn command(title: &str) -> lsp_types::CodeActionOrCommand {
    lsp_types::CodeActionOrCommand::Command(lsp_types::Command {
        title: title.to_string(),
        command: "run".to_string(),
        arguments: None,
    })
}

fn quiet(disposition: Disposition) -> Outcome {
    Outcome { disposition, effects: Vec::new() }
}

fn invalidated(path: &str) -> Outcome {
    Outcome { disposition: Disposition::Applied, effects: vec![Effect::Invalidate(path.to_string())] }
}

/// Two loaded buffers: `/a.rs` (id 1, Rust) and `/b.txt` (id 2, no language).
fn two_buffers() -> EditorState {
    let mut state = EditorState::new(9, local("/work"));
    assert_eq!(state.open_buffer(BufferId(1), "/a.rs".to_string(), Some(LanguageTag::Rust)), Ok(()));
    assert_eq!(state.open_buffer(BufferId(2), "/b.txt".to_string(), None), Ok(()));
    let a = UiCommand::LoadBuffer { path: "/a.rs".to_string(), content: b"fn a() {}".to_vec() };
    assert_eq!(state.dispatch(a), invalidated("/a.rs"));
    let b = UiCommand::LoadBuffer { path: "/b.txt".to_string(), content: b"notes".to_vec() };
    assert_eq!(state.dispatch(b), invalidated("/b.txt"));
    state
}

#[test]
fn new_state_is_empty() {
    let state = EditorState::new(4, local("/w"));
    assert_eq!(state.id(), 4);
    assert_eq!(state.workspace(), &local("/w"));
    assert_eq!(state.buffer_count(), 0);
    assert_eq!(state.cursor_offset(), 0);
    assert_eq!(state.error_count(), 0);
    assert_eq!(state.warning_count(), 0);
    assert!(state.buffer(BufferId(1)).is_none());
    assert!(state.buffer_at(&"/a.rs".to_string()).is_none());
}

#[test]
fn open_buffer_refuses_a_path_or_an_identity_twice() {
    let mut state = EditorState::new(1, local("/w"));
    assert_eq!(state.open_buffer(BufferId(1), "/a.rs".to_string(), None), Ok(()));
    assert_eq!(state.open_buffer(BufferId(2), "/a.rs".to_string(), None), Err(OpenError::PathOpen));
    assert_eq!(state.open_buffer(BufferId(1), "/b.rs".to_string(), None), Err(OpenError::IdInUse));
    assert_eq!(state.open_buffer(BufferId(1), "/a.rs".to_string(), None), Err(OpenError::PathOpen));
    assert_eq!(state.buffer_count(), 1);
    assert_eq!(state.open_buffer(BufferId(2), "/b.rs".to_string(), None), Ok(()));
    assert_eq!(state.buffer_count(), 2);
    assert_eq!(state.buffer(BufferId(2)).unwrap().path(), "/b.rs");
    assert_eq!(state.buffer_at(&"/a.rs".to_string()).unwrap().id(), BufferId(1));
    assert!(!state.buffer(BufferId(2)).unwrap().is_loaded());
}

#[test]
fn load_buffer_fills_the_buffer_and_invalidates() {
    let mut state = EditorState::new(1, local("/w"));
    assert_eq!(state.open_buffer(BufferId(1), "/a.rs".to_string(), None), Ok(()));
    let load = UiCommand::LoadBuffer { path: "/a.rs".to_string(), content: b"text".to_vec() };
    assert_eq!(state.dispatch(load), invalidated("/a.rs"));
    let buffer = state.buffer(BufferId(1)).unwrap();
    assert!(buffer.is_loaded());
    assert_eq!(buffer.revision(), 0);
    assert_eq!(buffer.text().to_bytes(), b"text".to_vec());
}

#[test]
fn load_buffer_for_an_unknown_path_is_dropped() {
    let mut state = two_buffers();
    let load = UiCommand::LoadBuffer { path: "/c.rs".to_string(), content: b"text".to_vec() };
    assert_eq!(state.dispatch(load), quiet(Disposition::UnknownTarget));
    assert_eq!(state.buffer_count(), 2);
}

#[test]
fn user_edit_answers_with_a_snapshot_for_the_worker() {
    let mut state = two_buffers();
    let answer = state.apply_edit(BufferId(1), 3, 4, b"main").unwrap();
    match answer {
        Some(UpdateEvent::Buffer(update)) => {
            assert_eq!(update.id, BufferId(1));
            assert_eq!(update.path, "/a.rs");
            assert_eq!(update.rev, 1);
            assert_eq!(update.language, LanguageTag::Rust);
            assert_eq!(update.rope.to_bytes(), b"fn main() {}".to_vec());
            assert!(update.highlights.is_empty());
        }
        other => panic!("unexpected answer {:?}", other),
    }
    assert_eq!(state.apply_edit(BufferId(2), 0, 0, b"my "), Ok(None));
    assert_eq!(state.buffer(BufferId(2)).unwrap().text().to_bytes(), b"my notes".to_vec());
    assert!(state.buffer(BufferId(2)).unwrap().is_dirty());
}

#[test]
fn user_edit_failures() {
    let mut state = two_buffers();
    assert_eq!(state.apply_edit(BufferId(5), 0, 0, b"x"), Err(EditFailure::UnknownBuffer));
    assert_eq!(
        state.apply_edit(BufferId(1), 4, 100, b"x"),
        Err(EditFailure::Refused(EditError::OutOfRange))
    );
    assert_eq!(state.open_buffer(BufferId(3), "/c.rs".to_string(), None), Ok(()));
    assert_eq!(
        state.apply_edit(BufferId(3), 0, 0, b"x"),
        Err(EditFailure::Refused(EditError::NotLoaded))
    );
    assert_eq!(state.buffer(BufferId(1)).unwrap().revision(), 0);
    assert_eq!(state.buffer(BufferId(3)).unwrap().revision(), 0);
}

#[test]
fn stale_style_update_changes_nothing() {
    let mut state = two_buffers();
    assert!(state.apply_edit(BufferId(1), 0, 0, b" ").is_ok());
    assert!(state.apply_edit(BufferId(1), 0, 0, b" ").is_ok());
    let fresh = UiCommand::UpdateStyle {
        id: BufferId(1),
        path: "/a.rs".to_string(),
        rev: 2,
        highlights: vec![span(2, 4, "keyword")],
        semantic_tokens: false,
    };
    assert_eq!(state.dispatch(fresh), invalidated("/a.rs"));
    let stale = UiCommand::UpdateStyle {
        id: BufferId(1),
        path: "/a.rs".to_string(),
        rev: 1,
        highlights: vec![span(0, 9, "stale")],
        semantic_tokens: true,
    };
    assert_eq!(state.dispatch(stale), quiet(Disposition::Stale));
    let live = state.buffer(BufferId(1)).unwrap().highlights().unwrap();
    assert_eq!(live.spans, vec![span(2, 4, "keyword")]);
    assert_eq!(live.revision, 2);
    assert!(!live.semantic);
}

#[test]
fn fresh_style_update_replaces_the_highlights() {
    let mut state = two_buffers();
    let first = UiCommand::UpdateStyle {
        id: BufferId(1),
        path: "/a.rs".to_string(),
        rev: 0,
        highlights: vec![span(0, 2, "keyword")],
        semantic_tokens: false,
    };
    assert_eq!(state.dispatch(first), invalidated("/a.rs"));
    let second = UiCommand::UpdateStyle {
        id: BufferId(1),
        path: "/a.rs".to_string(),
        rev: 0,
        highlights: vec![span(3, 4, "function"), span(5, 6, "bracket")],
        semantic_tokens: true,
    };
    assert_eq!(state.dispatch(second), invalidated("/a.rs"));
    let live = state.buffer(BufferId(1)).unwrap().highlights().unwrap();
    assert_eq!(live.spans, vec![span(3, 4, "function"), span(5, 6, "bracket")]);
    assert!(live.semantic);
    assert!(state.buffer(BufferId(2)).unwrap().highlights().is_none());
}

#[test]
fn style_update_is_found_by_path_and_guarded_by_revision_alone() {
    let mut state = two_buffers();
    let other_id = UiCommand::UpdateStyle {
        id: BufferId(2),
        path: "/a.rs".to_string(),
        rev: 0,
        highlights: vec![span(0, 2, "keyword")],
        semantic_tokens: false,
    };
    assert_eq!(state.dispatch(other_id), invalidated("/a.rs"));
    let live = state.buffer(BufferId(1)).unwrap().highlights().unwrap();
    assert_eq!(live.spans, vec![span(0, 2, "keyword")]);
    assert_eq!(live.revision, 0);
    assert!(state.buffer(BufferId(2)).unwrap().highlights().is_none());
    let unopened_id = UiCommand::UpdateStyle {
        id: BufferId(40),
        path: "/b.txt".to_string(),
        rev: 0,
        highlights: vec![span(1, 3, "word")],
        semantic_tokens: true,
    };
    assert_eq!(state.dispatch(unopened_id), invalidated("/b.txt"));
    let live = state.buffer(BufferId(2)).unwrap().highlights().unwrap();
    assert_eq!(live.spans, vec![span(1, 3, "word")]);
    assert!(live.semantic);
}

#[test]
fn style_update_for_a_path_that_is_not_open_is_dropped() {
    let mut state = two_buffers();
    let unknown = UiCommand::UpdateStyle {
        id: BufferId(1),
        path: "/zzz.rs".to_string(),
        rev: 0,
        highlights: vec![span(0, 2, "keyword")],
        semantic_tokens: false,
    };
    assert_eq!(state.dispatch(unknown), quiet(Disposition::UnknownTarget));
    assert!(state.buffer(BufferId(1)).unwrap().highlights().is_none());
    assert!(state.buffer(BufferId(2)).unwrap().highlights().is_none());
}

#[test]
fn accepted_writes_leave_text_revision_and_dirty_alone() {
    let mut state = two_buffers();
    assert!(state.apply_edit(BufferId(1), 0, 0, b"x").is_ok());
    let style = UiCommand::UpdateStyle {
        id: BufferId(1),
        path: "/a.rs".to_string(),
        rev: 1,
        highlights: vec![span(0, 1, "x")],
        semantic_tokens: false,
    };
    assert_eq!(state.dispatch(style), invalidated("/a.rs"));
    let actions = UiCommand::UpdateCodeActions("/a.rs".to_string(), 1, 2, vec![command("fix")]);
    assert_eq!(state.dispatch(actions), quiet(Disposition::Applied));
    let buffer = state.buffer(BufferId(1)).unwrap();
    assert_eq!(buffer.revision(), 1);
    assert!(buffer.is_dirty());
    assert_eq!(buffer.text().to_bytes(), b"xfn a() {}".to_vec());
    assert_eq!(buffer.highlights().unwrap().spans, vec![span(0, 1, "x")]);
    assert_eq!(buffer.code_actions_at(2).unwrap().response, vec![command("fix")]);
}

#[test]
fn code_action_update_is_guarded_by_revision() {
    let mut state = two_buffers();
    assert!(state.apply_edit(BufferId(1), 0, 0, b" ").is_ok());
    let stale = UiCommand::UpdateCodeActions("/a.rs".to_string(), 0, 4, vec![command("old")]);
    assert_eq!(state.dispatch(stale), quiet(Disposition::Stale));
    assert!(state.buffer(BufferId(1)).unwrap().code_actions_at(4).is_none());
    let fresh = UiCommand::UpdateCodeActions("/a.rs".to_string(), 1, 4, vec![command("new")]);
    assert_eq!(state.dispatch(fresh), quiet(Disposition::Applied));
    let other = UiCommand::UpdateCodeActions("/a.rs".to_string(), 1, 6, vec![command("more")]);
    assert_eq!(state.dispatch(other), quiet(Disposition::Applied));
    let buffer = state.buffer(BufferId(1)).unwrap();
    assert_eq!(buffer.code_actions_at(4).unwrap().response, vec![command("new")]);
    assert_eq!(buffer.code_actions_at(6).unwrap().response, vec![command("more")]);
    let unknown = UiCommand::UpdateCodeActions("/nope".to_string(), 1, 4, Vec::new());
    assert_eq!(state.dispatch(unknown), quiet(Disposition::UnknownTarget));
}

#[test]
fn reload_two_revisions_on_is_dropped_and_the_next_one_is_taken() {
    let mut state = two_buffers();
    assert!(state.apply_edit(BufferId(1), 0, 0, b"x").is_ok());
    assert!(state.apply_edit(BufferId(1), 0, 0, b"y").is_ok());
    let n = state.buffer(BufferId(1)).unwrap().revision();
    assert_eq!(n, 2);
    let gap = UiCommand::ReloadBuffer(BufferId(1), n + 2, b"gap".to_vec());
    assert_eq!(state.dispatch(gap), quiet(Disposition::PreconditionFailed));
    assert_eq!(state.buffer(BufferId(1)).unwrap().revision(), n);
    assert_eq!(state.buffer(BufferId(1)).unwrap().text().to_bytes(), b"yxfn a() {}".to_vec());
    let same = UiCommand::ReloadBuffer(BufferId(1), n, b"same".to_vec());
    assert_eq!(state.dispatch(same), quiet(Disposition::PreconditionFailed));
    let next = UiCommand::ReloadBuffer(BufferId(1), n + 1, b"next".to_vec());
    assert_eq!(state.dispatch(next), invalidated("/a.rs"));
    assert_eq!(state.buffer(BufferId(1)).unwrap().revision(), n + 1);
    assert_eq!(state.buffer(BufferId(1)).unwrap().text().to_bytes(), b"next".to_vec());
    let unknown = UiCommand::ReloadBuffer(BufferId(8), 1, b"x".to_vec());
    assert_eq!(state.dispatch(unknown), quiet(Disposition::UnknownTarget));
}

#[test]
fn save_acknowledged_for_the_revision_before_an_edit_leaves_dirty() {
    let mut state = two_buffers();
    let before = state.buffer(BufferId(1)).unwrap().revision();
    assert!(state.apply_edit(BufferId(1), 0, 0, b"// ").is_ok());
    let late = UiCommand::BufferSave("/a.rs".to_string(), before);
    assert_eq!(state.dispatch(late), quiet(Disposition::Stale));
    assert!(state.buffer(BufferId(1)).unwrap().is_dirty());
    let now = state.buffer(BufferId(1)).unwrap().revision();
    let current = UiCommand::BufferSave("/a.rs".to_string(), now);
    assert_eq!(state.dispatch(current), invalidated("/a.rs"));
    assert!(!state.buffer(BufferId(1)).unwrap().is_dirty());
    let unknown = UiCommand::BufferSave("/nope".to_string(), 0);
    assert_eq!(state.dispatch(unknown), quiet(Disposition::UnknownTarget));
}

#[test]
fn diagnostics_are_counted_over_all_buffers() {
    let mut state = two_buffers();
    let error = lsp_types::DiagnosticSeverity::Error;
    let warning = lsp_types::DiagnosticSeverity::Warning;
    let a = report("file:///a.rs", vec![diagnostic(error), diagnostic(warning), diagnostic(error)]);
    assert_eq!(state.dispatch(a), invalidated("/a.rs"));
    assert_eq!((state.error_count(), state.warning_count()), (2, 1));
    let b = report("file:///b.txt", vec![diagnostic(error)]);
    assert_eq!(state.dispatch(b), invalidated("/b.txt"));
    assert_eq!((state.error_count(), state.warning_count()), (3, 1));
    assert_eq!(state.buffer(BufferId(1)).unwrap().diagnostics().len(), 3);
    assert_eq!(state.buffer(BufferId(2)).unwrap().diagnostics().len(), 1);
    let empty = report("file:///a.rs", Vec::new());
    assert_eq!(state.dispatch(empty), invalidated("/a.rs"));
    assert_eq!((state.error_count(), state.warning_count()), (1, 0));
    assert!(state.buffer(BufferId(1)).unwrap().diagnostics().is_empty());
}

#[test]
fn diagnostics_of_other_severities_count_as_neither() {
    let mut state = two_buffers();
    let mut bare = lsp_types::Diagnostic::default();
    bare.severity = None;
    let a = report(
        "file:///a.rs",
        vec![
            diagnostic(lsp_types::DiagnosticSeverity::Hint),
            diagnostic(lsp_types::DiagnosticSeverity::Information),
            bare,
            diagnostic(lsp_types::DiagnosticSeverity::Warning),
        ],
    );
    assert_eq!(state.dispatch(a), invalidated("/a.rs"));
    assert_eq!((state.error_count(), state.warning_count()), (0, 1));
}

#[test]
fn diagnostics_for_a_path_that_is_not_open_are_dropped() {
    let mut state = two_buffers();
    let c = report("file:///c.rs", vec![diagnostic(lsp_types::DiagnosticSeverity::Error)]);
    assert_eq!(state.dispatch(c), quiet(Disposition::UnknownTarget));
    assert_eq!((state.error_count(), state.warning_count()), (0, 0));
}

#[test]
fn diagnostics_use_the_path_of_the_address_only() {
    let mut state = two_buffers();
    let a = report(
        "file:///a.rs?version=3#top",
        vec![diagnostic(lsp_types::DiagnosticSeverity::Error)],
    );
    assert_eq!(state.dispatch(a), invalidated("/a.rs"));
    assert_eq!(state.error_count(), 1);
}

#[test]
fn publish_diagnostics_replaces_wholesale() {
    let mut state = two_buffers();
    let plain = lsp_types::Diagnostic::default();
    let taken = vec![
        lapce_core::diagnostic::EditorDiagnostic::with_severity(
            Some(lapce_core::diagnostic::Severity::Warning),
            plain.clone(),
        ),
        lapce_core::diagnostic::EditorDiagnostic::with_severity(
            Some(lapce_core::diagnostic::Severity::Warning),
            plain.clone(),
        ),
    ];
    assert_eq!(state.publish_diagnostics("/b.txt".to_string(), taken), invalidated("/b.txt"));
    assert_eq!((state.error_count(), state.warning_count()), (0, 2));
    let one = vec![lapce_core::diagnostic::EditorDiagnostic::with_severity(
        Some(lapce_core::diagnostic::Severity::Error),
        plain,
    )];
    assert_eq!(state.publish_diagnostics("/b.txt".to_string(), one), invalidated("/b.txt"));
    assert_eq!((state.error_count(), state.warning_count()), (1, 0));
}

#[test]
fn goto_definition_follows_the_cursor_only() {
    let mut state = two_buffers();
    state.set_cursor(43);
    let l = place("/a.rs", 3, 1);
    let moved = UiCommand::GotoDefinition(42, l.clone());
    assert_eq!(state.dispatch(moved), quiet(Disposition::Stale));
    state.set_cursor(42);
    assert_eq!(state.cursor_offset(), 42);
    let held = UiCommand::GotoDefinition(42, l.clone());
    assert_eq!(
        state.dispatch(held),
        Outcome {
            disposition: Disposition::Applied,
            effects: vec![Effect::Delegate(Delegated::JumpToLocation(EditorKind::SplitActive, l))],
        }
    );
}

#[test]
fn goto_reference_follows_the_cursor_only() {
    let mut state = two_buffers();
    state.set_cursor(10);
    let l = place("/b.txt", 0, 2);
    assert_eq!(state.dispatch(UiCommand::GotoReference(11, l.clone())), quiet(Disposition::Stale));
    assert_eq!(
        state.dispatch(UiCommand::GotoReference(10, l.clone())),
        Outcome {
            disposition: Disposition::Applied,
            effects: vec![Effect::Delegate(Delegated::JumpToLocation(EditorKind::SplitActive, l))],
        }
    );
}

fn reference(uri: &str, line: u32, character: u32) -> lsp_types::Location {
    lsp_types::Location {
        uri: lsp_types::Url::parse(uri).unwrap(),
        range: lsp_types::Range {
            start: lsp_types::Position { line, character },
            end: lsp_types::Position { line: line + 1, character: 0 },
        },
    }
}

#[test]
fn places_name_the_path_and_the_start_of_each_location() {
    let places = places_of(&vec![
        reference("file:///src/lib.rs", 4, 7),
        reference("file:///src/a%20b.rs#frag", 0, 0),
    ]);
    assert_eq!(places, vec![place("/src/lib.rs", 4, 7), place("/src/a%20b.rs", 0, 0)]);
    assert!(places_of(&Vec::new()).is_empty());
}

#[test]
fn palette_references_follow_the_cursor_only() {
    let mut state = two_buffers();
    state.set_cursor(5);
    let late = UiCommand::PaletteReferences(6, vec![reference("file:///a.rs", 1, 2)]);
    assert_eq!(state.dispatch(late), quiet(Disposition::Stale));
    let held = UiCommand::PaletteReferences(
        5,
        vec![reference("file:///a.rs", 1, 2), reference("file:///b.txt", 3, 4)],
    );
    assert_eq!(
        state.dispatch(held),
        Outcome {
            disposition: Disposition::Applied,
            effects: vec![Effect::ShowReferences(vec![place("/a.rs", 1, 2), place("/b.txt", 3, 4)])],
        }
    );
}

#[test]
fn semantic_tokens_are_forwarded_only_when_fresh_and_for_a_language() {
    let mut state = two_buffers();
    assert!(state.apply_edit(BufferId(1), 0, 0, b" ").is_ok());
    let stale = UiCommand::UpdateSemanticTokens(BufferId(1), 0, vec![token(0, 2, "keyword")]);
    assert_eq!(state.dispatch(stale), quiet(Disposition::Stale));
    let plain = UiCommand::UpdateSemanticTokens(BufferId(2), 0, vec![token(0, 2, "keyword")]);
    assert_eq!(state.dispatch(plain), quiet(Disposition::PreconditionFailed));
    let unknown = UiCommand::UpdateSemanticTokens(BufferId(3), 0, Vec::new());
    assert_eq!(state.dispatch(unknown), quiet(Disposition::UnknownTarget));
    let fresh = UiCommand::UpdateSemanticTokens(BufferId(1), 1, vec![token(1, 3, "keyword")]);
    let outcome = state.dispatch(fresh);
    assert_eq!(outcome.disposition, Disposition::Applied);
    assert_eq!(outcome.effects.len(), 1);
    match &outcome.effects[0] {
        Effect::Forward(UpdateEvent::SemanticTokens(update, tokens)) => {
            assert_eq!(update.id, BufferId(1));
            assert_eq!(update.path, "/a.rs");
            assert_eq!(update.rev, 1);
            assert_eq!(update.language, LanguageTag::Rust);
            assert_eq!(update.rope.to_bytes(), b" fn a() {}".to_vec());
            assert_eq!(tokens, &vec![token(1, 3, "keyword")]);
        }
        other => panic!("unexpected effect {:?}", other),
    }
}

#[test]
fn semantic_tokens_find_a_buffer_that_is_not_the_first() {
    let mut state = EditorState::new(1, local("/w"));
    assert_eq!(state.open_buffer(BufferId(1), "/a.rs".to_string(), Some(LanguageTag::Rust)), Ok(()));
    assert_eq!(state.open_buffer(BufferId(2), "/b.go".to_string(), Some(LanguageTag::Go)), Ok(()));
    assert_eq!(state.open_buffer(BufferId(3), "/c.rs".to_string(), Some(LanguageTag::Rust)), Ok(()));
    let tokens = UiCommand::UpdateSemanticTokens(BufferId(3), 0, vec![token(0, 1, "k")]);
    let outcome = state.dispatch(tokens);
    assert_eq!(outcome.disposition, Disposition::Applied);
    match &outcome.effects[0] {
        Effect::Forward(event) => {
            assert_eq!(event.buffer_id(), BufferId(3));
            assert_eq!(event.revision(), 0);
        }
        other => panic!("unexpected effect {:?}", other),
    }
    let second = UiCommand::UpdateSemanticTokens(BufferId(2), 0, Vec::new());
    let outcome = state.dispatch(second);
    match &outcome.effects[0] {
        Effect::Forward(UpdateEvent::SemanticTokens(update, _)) => {
            assert_eq!(update.language, LanguageTag::Go);
            assert_eq!(update.path, "/b.go");
        }
        other => panic!("unexpected effect {:?}", other),
    }
}

#[test]
fn set_workspace_resets_only_for_another_workspace() {
    let mut state = two_buffers();
    state.set_cursor(3);
    let same = UiCommand::SetWorkspace(local("/work"));
    assert_eq!(state.dispatch(same), quiet(Disposition::PreconditionFailed));
    assert_eq!(state.buffer_count(), 2);
    assert_eq!(state.cursor_offset(), 3);
    let remote = Workspace {
        kind: WorkspaceKind::RemoteSsh { user: "me".to_string(), host: "box".to_string() },
        path: "/work".to_string(),
    };
    assert_eq!(
        state.dispatch(UiCommand::SetWorkspace(remote.clone())),
        Outcome { disposition: Disposition::Applied, effects: vec![Effect::StartProxy(remote.clone())] }
    );
    assert_eq!(state.workspace(), &remote);
    assert_eq!(state.buffer_count(), 0);
    assert_eq!(state.cursor_offset(), 0);
    assert_eq!((state.error_count(), state.warning_count()), (0, 0));
    assert_eq!(state.id(), 9);
    let other_host = Workspace {
        kind: WorkspaceKind::RemoteSsh { user: "me".to_string(), host: "other".to_string() },
        path: "/work".to_string(),
    };
    assert!(!remote.same_as(&other_host));
    assert!(remote.same_as(&remote.duplicate()));
    assert!(!remote.same_as(&local("/work")));
    assert!(!local("/work").same_as(&local("/else")));
}

#[test]
fn set_workspace_gives_up_the_diagnostics_too() {
    let mut state = two_buffers();
    let a = report("file:///a.rs", vec![diagnostic(lsp_types::DiagnosticSeverity::Error)]);
    assert_eq!(state.dispatch(a), invalidated("/a.rs"));
    assert_eq!(state.error_count(), 1);
    let outcome = state.dispatch(UiCommand::SetWorkspace(local("/elsewhere")));
    assert_eq!(outcome.disposition, Disposition::Applied);
    assert_eq!(state.error_count(), 0);
}

#[test]
fn load_and_go_to_position_loads_then_jumps() {
    let mut state = EditorState::new(1, local("/w"));
    assert_eq!(state.open_buffer(BufferId(1), "/a.rs".to_string(), None), Ok(()));
    let go = UiCommand::LoadBufferAndGoToPosition {
        path: "/a.rs".to_string(),
        content: b"abc".to_vec(),
        editor_view_id: 77,
        location: place("/a.rs", 2, 0),
    };
    assert_eq!(
        state.dispatch(go),
        Outcome {
            disposition: Disposition::Applied,
            effects: vec![
                Effect::Invalidate("/a.rs".to_string()),
                Effect::Delegate(Delegated::GoToLocation(77, place("/a.rs", 2, 0))),
            ],
        }
    );
    assert_eq!(state.buffer(BufferId(1)).unwrap().text().to_bytes(), b"abc".to_vec());
    let unknown = UiCommand::LoadBufferAndGoToPosition {
        path: "/b.rs".to_string(),
        content: b"abc".to_vec(),
        editor_view_id: 77,
        location: place("/b.rs", 2, 0),
    };
    assert_eq!(state.dispatch(unknown), quiet(Disposition::UnknownTarget));
}

#[test]
fn commands_of_other_subsystems_are_handed_on() {
    let mut state = two_buffers();
    let handed = |work: Delegated| Outcome {
        disposition: Disposition::Delegated,
        effects: vec![Effect::Delegate(work)],
    };
    assert_eq!(
        state.dispatch(UiCommand::OpenFile("/new.rs".to_string())),
        handed(Delegated::OpenFile("/new.rs".to_string()))
    );
    assert_eq!(
        state.dispatch(UiCommand::DocumentFormatAndSave("/a.rs".to_string(), 3, Ok("[]".to_string()))),
        handed(Delegated::DocumentFormatAndSave("/a.rs".to_string(), 3, Ok("[]".to_string())))
    );
    assert_eq!(
        state.dispatch(UiCommand::GoToLocationNew(5, place("/a.rs", 1, 1))),
        handed(Delegated::GoToLocation(5, place("/a.rs", 1, 1)))
    );
    assert_eq!(
        state.dispatch(UiCommand::JumpToPosition(
            EditorKind::PalettePreview,
            Position { line: 8, character: 2 }
        )),
        handed(Delegated::JumpToPosition(EditorKind::PalettePreview, Position { line: 8, character: 2 }))
    );
    assert_eq!(
        state.dispatch(UiCommand::JumpToLocation(EditorKind::SplitActive, place("/b.txt", 0, 0))),
        handed(Delegated::JumpToLocation(EditorKind::SplitActive, place("/b.txt", 0, 0)))
    );
    assert_eq!(
        state.dispatch(UiCommand::JumpToLine(EditorKind::SplitActive, 12)),
        handed(Delegated::JumpToLine(EditorKind::SplitActive, 12))
    );
    assert_eq!(state.buffer_count(), 2);
}

#[test]
fn commands_for_another_component_are_left_alone() {
    let mut state = two_buffers();
    let elsewhere = Command {
        target: Target::Component(10),
        payload: UiCommand::BufferSave("/a.rs".to_string(), 0),
    };
    assert!(state.apply_edit(BufferId(1), 0, 0, b"x").is_ok());
    assert_eq!(state.receive(elsewhere), quiet(Disposition::NotAddressed));
    let here = Command {
        target: Target::Component(9),
        payload: UiCommand::BufferSave("/a.rs".to_string(), 1),
    };
    assert_eq!(state.receive(here), invalidated("/a.rs"));
    assert!(!state.buffer(BufferId(1)).unwrap().is_dirty());
    let global = Command { target: Target::Global, payload: UiCommand::OpenFile("/x".to_string()) };
    assert_eq!(state.receive(global).disposition, Disposition::Delegated);
}

#[test]
fn stale_tokens_change_nothing_and_fresh_tokens_invalidate_once() {
    let mut state = EditorState::new(1, local("/w"));
    let mut worker = Worker::new();
    assert_eq!(state.open_buffer(BufferId(1), "/a.rs".to_string(), Some(LanguageTag::Rust)), Ok(()));
    let load = UiCommand::LoadBuffer { path: "/a.rs".to_string(), content: b"let x;".to_vec() };
    assert_eq!(state.dispatch(load).disposition, Disposition::Applied);
    assert_eq!(state.buffer(BufferId(1)).unwrap().revision(), 0);
    assert!(state.apply_edit(BufferId(1), 4, 5, b"y").is_ok());
    assert_eq!(state.buffer(BufferId(1)).unwrap().revision(), 1);

    let mut invalidations = 0;
    let mut run = |state: &mut EditorState, worker: &mut Worker, command: UiCommand| {
        let mut queue = vec![command];
        while let Some(next) = queue.pop() {
            for effect in state.dispatch(next).effects {
                match effect {
                    Effect::Invalidate(path) => {
                        assert_eq!(path, "/a.rs");
                        invalidations += 1;
                    }
                    Effect::Forward(event) => {
                        worker.submit(event);
                        assert!(worker.start());
                        queue.push(worker.fold_current().unwrap());
                    }
                    other => panic!("unexpected effect {:?}", other),
                }
            }
        }
    };

    let late = UiCommand::UpdateSemanticTokens(BufferId(1), 0, vec![token(0, 3, "keyword")]);
    run(&mut state, &mut worker, late);
    assert!(state.buffer(BufferId(1)).unwrap().highlights().is_none());

    let fresh = UiCommand::UpdateSemanticTokens(BufferId(1), 1, vec![token(0, 3, "keyword")]);
    run(&mut state, &mut worker, fresh);
    let live = state.buffer(BufferId(1)).unwrap().highlights().unwrap();
    assert_eq!(live.spans, vec![span(0, 3, "keyword")]);
    assert_eq!(live.revision, 1);
    assert!(live.semantic);
    assert_eq!(invalidations, 1);
    assert_eq!(worker.state_of(BufferId(1)), WorkerState::Idle);
}

#[test]
fn answer_of_overtaken_work_is_dropped_at_the_write() {
    let mut state = two_buffers();
    let mut worker = Worker::new();
    let first = state.apply_edit(BufferId(1), 0, 0, b"a").unwrap().unwrap();
    worker.submit(first);
    assert!(worker.start());
    let second = state.apply_edit(BufferId(1), 0, 0, b"b").unwrap().unwrap();
    worker.submit(second);
    assert_eq!(worker.state_of(BufferId(1)), WorkerState::Computing);
    let late = worker.finish(vec![span(0, 1, "late")]).unwrap();
    assert_eq!(state.dispatch(late), quiet(Disposition::Stale));
    assert!(state.buffer(BufferId(1)).unwrap().highlights().is_none());
    assert!(worker.start());
    let fresh = worker.finish(vec![span(0, 2, "fresh")]).unwrap();
    assert_eq!(state.dispatch(fresh), invalidated("/a.rs"));
    let live = state.buffer(BufferId(1)).unwrap().highlights().unwrap();
    assert_eq!(live.spans, vec![span(0, 2, "fresh")]);
    assert!(!live.semantic);
}

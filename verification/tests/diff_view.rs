use rusty_git_gui::diff_view::{makeLineChanges, DiffKind, DiffView, DiffViewAction, DiffViewEvent, DisplayedFileChange};
use rusty_git_gui::file_change::FileChange;
use rusty_git_gui::line_diff::{diffLines, lineEditsOf, LineDiff, LineEdit};

fn change(status: &str, path: &str) -> FileChange {
    FileChange { status: status.to_string(), path: path.to_string(), oldPath: None }
}

#[test]
fn selectingAnUnstagedChangeShowsItsWorkdirDiff() {
    let mut view = DiffView::new();
    assert_eq!(view.getDisplayState(), DisplayedFileChange::Nothing);
    let action = view.handle(&DiffViewEvent::UnstagedChangeSelected(change("WT_MODIFIED", "a")));
    assert_eq!(action, DiffViewAction::Show(DiffKind::IndexToWorkdir { path: "a".to_string() }));
    assert_eq!(view.getDisplayState(), DisplayedFileChange::Unstaged);
}

#[test]
fn selectingARenameShowsTheDiffOfBothPaths() {
    let mut view = DiffView::new();
    let renamed = FileChange { status: "WT_RENAMED".to_string(), path: "new".to_string(), oldPath: Some("old".to_string()) };
    let action = view.handle(&DiffViewEvent::UnstagedChangeSelected(renamed));
    assert_eq!(action, DiffViewAction::Show(DiffKind::IndexToWorkdirForRenamedFile {
        oldPath: "old".to_string(),
        newPath: "new".to_string(),
    }));
    let stagedRename = FileChange { status: "INDEX_RENAMED".to_string(), path: "n".to_string(), oldPath: Some("o".to_string()) };
    let action = view.handle(&DiffViewEvent::StagedChangeSelected(stagedRename));
    assert_eq!(action, DiffViewAction::Show(DiffKind::TreeToIndexForRenamedFile {
        oldPath: "o".to_string(),
        newPath: "n".to_string(),
    }));
}

#[test]
fn stagedDiffFollowsTheCommitAmendMode() {
    let mut view = DiffView::new();
    let action = view.handle(&DiffViewEvent::StagedChangeSelected(change("INDEX_NEW", "a")));
    assert_eq!(action, DiffViewAction::Show(DiffKind::TreeToIndex { path: "a".to_string() }));
    assert_eq!(view.handle(&DiffViewEvent::CommitAmendEnabled), DiffViewAction::Nothing);
    let action = view.handle(&DiffViewEvent::StagedChangeRefreshed(Some(change("INDEX_NEW", "a"))));
    assert_eq!(action, DiffViewAction::Refresh(DiffKind::ToAmendForPath { path: "a".to_string() }));
    assert_eq!(view.handle(&DiffViewEvent::CommitAmendDisabled), DiffViewAction::Nothing);
    let action = view.handle(&DiffViewEvent::StagedChangeRefreshed(Some(change("INDEX_NEW", "a"))));
    assert_eq!(action, DiffViewAction::Refresh(DiffKind::TreeToIndex { path: "a".to_string() }));
}

#[test]
fn unselectionClearsOnlyTheDiffOfItsList() {
    let mut view = DiffView::new();
    view.handle(&DiffViewEvent::StagedChangeSelected(change("INDEX_NEW", "a")));
    assert_eq!(view.handle(&DiffViewEvent::UnstagedChangeUnselected), DiffViewAction::Nothing);
    assert_eq!(view.getDisplayState(), DisplayedFileChange::Staged);
    assert_eq!(view.handle(&DiffViewEvent::StagedChangeUnselected), DiffViewAction::Clear);
    assert_eq!(view.getDisplayState(), DisplayedFileChange::Nothing);
}

#[test]
fn refreshOfAnotherListOrWithoutSelectionIsHandled() {
    let mut view = DiffView::new();
    view.handle(&DiffViewEvent::UnstagedChangeSelected(change("WT_NEW", "a")));
    assert_eq!(view.handle(&DiffViewEvent::StagedChangeRefreshed(None)), DiffViewAction::Nothing);
    let action = view.handle(&DiffViewEvent::UnstagedChangeRefreshed(Some(change("WT_MODIFIED", "a"))));
    assert_eq!(action, DiffViewAction::Refresh(DiffKind::IndexToWorkdir { path: "a".to_string() }));
    assert_eq!(view.handle(&DiffViewEvent::UnstagedChangeRefreshed(None)), DiffViewAction::Clear);
    assert_eq!(view.getDisplayState(), DisplayedFileChange::Nothing);
    assert_eq!(view.handle(&DiffViewEvent::ZoomRequested), DiffViewAction::Zoom);
}

#[test]
fn lineDiffKeepsBothSides() {
    let changes = diffLines("a\nb\nc\n", "a\nc\nd\n");
    assert_eq!(changes, vec![
        LineDiff::Equal("a\n".to_string()),
        LineDiff::Delete("b\n".to_string()),
        LineDiff::Equal("c\n".to_string()),
        LineDiff::Insert("d\n".to_string()),
    ]);
    let changes = makeLineChanges("x", "x\ny");
    let newSide: String = changes.iter().filter_map(|c| match c {
        LineDiff::Equal(t) | LineDiff::Insert(t) => Some(t.as_str()),
        LineDiff::Delete(_) => None,
    }).collect();
    assert_eq!(newSide, "x\ny");
    let oldSide: String = changes.iter().filter_map(|c| match c {
        LineDiff::Equal(t) | LineDiff::Delete(t) => Some(t.as_str()),
        LineDiff::Insert(_) => None,
    }).collect();
    assert_eq!(oldSide, "x");
}

#[test]
fn lineEditsTurnTheOldLinesIntoTheNewOnes() {
    let old = "a\nb\nc\n";
    let new = "a\nc\nd\nx\n";
    let changes = makeLineChanges(old, new);
    let edits = lineEditsOf(&changes);
    let mut lines: Vec<String> = old.split_inclusive('\n').map(str::to_string).collect();
    for edit in &edits {
        match edit {
            LineEdit::Insert { line, text } => lines.insert(*line, text.clone()),
            LineEdit::Remove { line } => {
                lines.remove(*line);
            },
        }
    }
    assert_eq!(lines.concat(), new);
    assert_eq!(edits, vec![
        LineEdit::Remove { line: 1 },
        LineEdit::Insert { line: 2, text: "d\n".to_string() },
        LineEdit::Insert { line: 3, text: "x\n".to_string() },
    ]);
}

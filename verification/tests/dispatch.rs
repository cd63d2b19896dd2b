use rusty_git_gui::dispatch::{dispatchTargets, EventKind, Handler};
use rusty_git_gui::event::Source;

#[test]
fn repositoryRequestsGoToTheRepositoryAlone() {
    assert_eq!(dispatchTargets(Source::UnstagedChangesView, EventKind::StageRequested), Some(vec![Handler::Repository]));
    assert_eq!(dispatchTargets(Source::StagedChangesView, EventKind::UnstageRequested), Some(vec![Handler::Repository]));
    assert_eq!(dispatchTargets(Source::CommitButton, EventKind::CommitRequested), Some(vec![Handler::Repository]));
    assert_eq!(dispatchTargets(Source::CommitButton, EventKind::AmendCommitRequested), Some(vec![Handler::Repository]));
    assert_eq!(dispatchTargets(Source::RefreshButton, EventKind::RefreshRequested), Some(vec![Handler::Repository]));
}

#[test]
fn selectionInOneListReachesTheDiffViewAndTheOtherList() {
    assert_eq!(
        dispatchTargets(Source::UnstagedChangesView, EventKind::FileChangeSelected),
        Some(vec![Handler::DiffView, Handler::StagedChangesView])
    );
    assert_eq!(
        dispatchTargets(Source::StagedChangesView, EventKind::FileChangeSelected),
        Some(vec![Handler::DiffView, Handler::UnstagedChangesView])
    );
}

#[test]
fn handlersGetEventsInOrder() {
    assert_eq!(
        dispatchTargets(Source::CommitAmendCheckbox, EventKind::CommitAmendEnabled),
        Some(vec![Handler::Repository, Handler::CommitMessageView, Handler::CommitButton, Handler::DiffView])
    );
    assert_eq!(
        dispatchTargets(Source::Repository, EventKind::Committed),
        Some(vec![Handler::StagedChangesStore, Handler::CommitMessageView, Handler::CommitAmendCheckbox])
    );
    assert_eq!(
        dispatchTargets(Source::Repository, EventKind::Refreshed),
        Some(vec![Handler::UnstagedChangesStore, Handler::StagedChangesStore])
    );
    assert_eq!(
        dispatchTargets(Source::MainStack, EventKind::ActivePageChanged),
        Some(vec![Handler::ToolBarStack, Handler::ConfigStore])
    );
}

#[test]
fn ignoredAndUnknownPairs() {
    assert_eq!(dispatchTargets(Source::CommitLogViewWidget, EventKind::RightClicked), Some(vec![]));
    assert_eq!(dispatchTargets(Source::CommitLogViewWidget, EventKind::RowActivated), Some(vec![]));
    assert_eq!(dispatchTargets(Source::Repository, EventKind::Clicked), None);
    assert_eq!(dispatchTargets(Source::DiffView, EventKind::BufferChanged), None);
}

use rusty_git_gui::changes_store_events::allKnownStatuses;
use rusty_git_gui::event::RepositoryEvent;
use rusty_git_gui::file_changes_store::StoreNotification;
use rusty_git_gui::file_change::{FileChange, FileChangeUpdate};
use rusty_git_gui::file_changes_view::{activatedFileChange, pathToCopy, refreshedEvent, selectionChangedEvent, FileChangesViewEvent};
use rusty_git_gui::grouped_file_changes::{GroupedFileChanges, StagedChanges, UnstagedChanges};
use rusty_git_gui::repository::Repository;
use rusty_git_gui::ifile_changes_store::IFileChangesStore;
use rusty_git_gui::row_ops::RowOp;
use rusty_git_gui::staged_changes_store::StagedChangesStore;
use rusty_git_gui::unstaged_changes_store::UnstagedChangesStore;

fn change(status: &str, path: &str) -> FileChange {
    FileChange { status: status.to_string(), path: path.to_string(), oldPath: None }
}

#[test]
fn stagedStoreFollowsRepositoryEvents() {
    let staged = StagedChanges(vec![change("INDEX_NEW", "a")]);
    let (mut store, ops) = StagedChangesStore::new(&staged);
    assert_eq!(ops, vec![RowOp::Append { status: "New".to_string(), path: "a".to_string() }]);

    let added = change("INDEX_MODIFIED", "b");
    let ops = store.handle(&RepositoryEvent::AddedToStaged(added.clone()), &staged).ops;
    assert_eq!(ops, vec![RowOp::Append { status: "Modified".to_string(), path: "b".to_string() }]);
    assert_eq!(store.getFilePath(1), "b");

    let update = FileChangeUpdate { old: change("INDEX_NEW", "a"), new: change("INDEX_DELETED", "a") };
    let ops = store.handle(&RepositoryEvent::UpdatedInStaged(update), &staged).ops;
    assert_eq!(ops, vec![RowOp::SetStatus { row: 0, status: "Deleted".to_string() }]);

    let ops = store.handle(&RepositoryEvent::RemovedFromStaged(added), &staged).ops;
    assert_eq!(ops, vec![RowOp::Remove { row: 1 }]);

    let ops = store.handle(&RepositoryEvent::Committed, &staged).ops;
    assert_eq!(ops, vec![RowOp::Clear]);
    assert_eq!(store.findFilePath("a"), None);
}

#[test]
fn stagedStoreEmptiesOnAmendedCommitAndRefills() {
    let (mut store, _) = StagedChangesStore::new(&StagedChanges(vec![change("INDEX_NEW", "a")]));
    assert_eq!(store.handle(&RepositoryEvent::AmendedCommit, &StagedChanges(vec![])).ops, vec![RowOp::Clear]);
    let current = StagedChanges(vec![change("INDEX_NEW", "c")]);
    let ops = store.handle(&RepositoryEvent::Refreshed, &current).ops;
    assert_eq!(ops, vec![RowOp::Append { status: "New".to_string(), path: "c".to_string() }]);
    assert_eq!(store.getFileChange(0), &change("INDEX_NEW", "c"));
}

#[test]
fn unstagedStoreFollowsRepositoryEvents() {
    let unstaged = UnstagedChanges(vec![change("WT_NEW", "a"), change("WT_MODIFIED", "b")]);
    let (mut store, _) = UnstagedChangesStore::new(&unstaged);
    let ops = store.handle(&RepositoryEvent::RemovedFromUnstaged(change("WT_NEW", "a")), &unstaged).ops;
    assert_eq!(ops, vec![RowOp::Remove { row: 0 }]);
    let ops = store.handle(&RepositoryEvent::AddedToUnstaged(change("WT_DELETED", "c")), &unstaged).ops;
    assert_eq!(ops, vec![RowOp::Append { status: "Deleted".to_string(), path: "c".to_string() }]);
    let update = FileChangeUpdate { old: change("WT_MODIFIED", "b"), new: change("WT_DELETED", "b") };
    let ops = store.handle(&RepositoryEvent::UpdatedInUnstaged(update), &unstaged).ops;
    assert_eq!(ops, vec![RowOp::SetStatus { row: 0, status: "Deleted".to_string() }]);
    let ops = store.handle(&RepositoryEvent::Refreshed, &UnstagedChanges(vec![])).ops;
    assert_eq!(ops, vec![RowOp::Remove { row: 1 }, RowOp::Remove { row: 0 }]);
}

#[test]
fn viewReportsTheSelectedChangeOrNone() {
    let (store, _) = UnstagedChangesStore::new(&UnstagedChanges(vec![change("WT_NEW", "a"), change("WT_NEW", "b")]));
    match selectionChangedEvent(&store, Some(1)) {
        FileChangesViewEvent::FileChangeSelected(c) => assert_eq!(c, change("WT_NEW", "b")),
        other => panic!("unexpected {:?}", other),
    }
    assert!(matches!(selectionChangedEvent(&store, None), FileChangesViewEvent::FileChangeUnselected));
    match refreshedEvent(&store, Some(0)) {
        FileChangesViewEvent::FileChangeRefreshed(Some(c)) => assert_eq!(c, change("WT_NEW", "a")),
        other => panic!("unexpected {:?}", other),
    }
    assert!(matches!(refreshedEvent(&store, None), FileChangesViewEvent::FileChangeRefreshed(None)));
    assert_eq!(activatedFileChange(&store, 1), change("WT_NEW", "b"));
    assert_eq!(pathToCopy(&store, 0), "a");
}

#[test]
fn storesTellWhichEventsTheyFollow() {
    let staged = StagedChanges(vec![change("INDEX_NEW", "a")]);
    let (store, _) = StagedChangesStore::new(&staged);
    assert_eq!(store.len(), 1);
    assert!(store.accepts(&RepositoryEvent::RemovedFromStaged(change("INDEX_NEW", "a")), &staged));
    assert!(!store.accepts(&RepositoryEvent::RemovedFromStaged(change("INDEX_NEW", "b")), &staged));
    assert!(!store.accepts(&RepositoryEvent::AddedToUnstaged(change("WT_NEW", "b")), &staged));
    assert!(!store.accepts(&RepositoryEvent::AddedToStaged(change("INDEX_TYPECHANGE", "b")), &staged));
    assert!(store.accepts(&RepositoryEvent::Committed, &staged));
    assert!(!store.accepts(&RepositoryEvent::Refreshed, &StagedChanges(vec![change("bogus", "x")])));

    let unstaged = UnstagedChanges(vec![change("WT_NEW", "a")]);
    let (store, _) = UnstagedChangesStore::new(&unstaged);
    assert!(!store.accepts(&RepositoryEvent::Committed, &unstaged));
    assert!(store.accepts(&RepositoryEvent::Refreshed, &unstaged));
    let update = FileChangeUpdate { old: change("WT_NEW", "a"), new: change("WT_MODIFIED", "a") };
    assert!(store.accepts(&RepositoryEvent::UpdatedInUnstaged(update), &unstaged));
}

#[test]
fn allKnownStatusesNeedsEveryLabel() {
    assert!(allKnownStatuses(&[change("WT_NEW", "a"), change("Added", "b")]));
    assert!(!allKnownStatuses(&[change("WT_NEW", "a"), change("WT_TYPECHANGE", "b")]));
    assert!(allKnownStatuses(&[]));
}

#[test]
fn listsFollowEverythingStagingReports() {
    let unstaged = UnstagedChanges(vec![change("WT_MODIFIED", "a"), change("WT_NEW", "b")]);
    let staged = StagedChanges(vec![change("INDEX_NEW", "a")]);
    let (mut unstagedStore, _) = UnstagedChangesStore::new(&unstaged);
    let (mut stagedStore, _) = StagedChangesStore::new(&staged);
    let mut repository = Repository::new(GroupedFileChanges { unstaged, staged });

    let collected = GroupedFileChanges {
        unstaged: UnstagedChanges(vec![change("WT_NEW", "b")]),
        staged: StagedChanges(vec![change("INDEX_MODIFIED", "a")]),
    };
    let events = repository.finishStaging(&change("WT_MODIFIED", "a"), collected);
    for event in &events {
        match event {
            RepositoryEvent::RemovedFromUnstaged(_) => {
                assert!(unstagedStore.accepts(event, repository.getUnstagedChanges()));
                assert!(unstagedStore.handle(event, repository.getUnstagedChanges()).notification.is_none());
            },
            _ => {
                assert!(stagedStore.accepts(event, repository.getStagedChanges()));
                assert!(stagedStore.handle(event, repository.getStagedChanges()).notification.is_none());
            },
        }
    }
    assert_eq!(unstagedStore.len(), 1);
    assert_eq!(unstagedStore.getFileChange(0), &change("WT_NEW", "b"));
    assert_eq!(stagedStore.getFileChange(0), &change("INDEX_MODIFIED", "a"));
}

#[test]
fn onlyARefreshIsToldOnToTheViews() {
    let staged = StagedChanges(vec![change("INDEX_NEW", "a")]);
    let (mut store, _) = StagedChangesStore::new(&staged);
    let update = store.handle(&RepositoryEvent::Refreshed, &staged);
    assert!(update.ops.is_empty());
    assert_eq!(update.notification, Some(StoreNotification::Refreshed));
    let update = store.handle(&RepositoryEvent::Committed, &staged);
    assert_eq!(update.notification, None);

    let unstaged = UnstagedChanges(vec![]);
    let (mut store, _) = UnstagedChangesStore::new(&unstaged);
    let update = store.handle(&RepositoryEvent::AddedToUnstaged(change("WT_NEW", "b")), &unstaged);
    assert_eq!(update.notification, None);
    let update = store.handle(&RepositoryEvent::Refreshed, &UnstagedChanges(vec![change("WT_NEW", "b")]));
    assert_eq!(update.notification, Some(StoreNotification::Refreshed));
}

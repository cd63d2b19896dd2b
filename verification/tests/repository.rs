use rusty_git_gui::event::RepositoryEvent;
use rusty_git_gui::file_change::{FileChange, FileChangeUpdate};
use rusty_git_gui::grouped_file_changes::{GroupedFileChanges, StagedChanges, UnstagedChanges};
use rusty_git_gui::repository::{
    collectFileChanges, collectFileChangesToAmend, getFileWord, hasRenamePaths, isListedStatus, statusName, IndexOp, Repository, ResetTarget,
    StatusEntry, INDEX_DELETED, INDEX_MODIFIED, INDEX_NEW, INDEX_RENAMED, WT_DELETED, WT_MODIFIED, WT_NEW,
    WT_RENAMED, WT_TYPECHANGE,
};

fn change(status: &str, path: &str) -> FileChange {
    FileChange { status: status.to_string(), path: path.to_string(), oldPath: None }
}

fn renamed(status: &str, path: &str, oldPath: &str) -> FileChange {
    FileChange { status: status.to_string(), path: path.to_string(), oldPath: Some(oldPath.to_string()) }
}

fn entry(flags: u32, path: &str) -> StatusEntry {
    StatusEntry { flags, path: path.to_string(), headToIndexNewPath: None, indexToWorkdirNewPath: None }
}

fn grouped(unstaged: Vec<FileChange>, staged: Vec<FileChange>) -> GroupedFileChanges {
    GroupedFileChanges { unstaged: UnstagedChanges(unstaged), staged: StagedChanges(staged) }
}

fn isRemovedFromUnstaged(event: &RepositoryEvent, expected: &FileChange) -> bool {
    matches!(event, RepositoryEvent::RemovedFromUnstaged(c) if c == expected)
}

#[test]
fn statusNamesOfFlags() {
    assert_eq!(statusName(WT_NEW), "WT_NEW");
    assert_eq!(statusName(WT_TYPECHANGE), "WT_TYPECHANGE");
    assert_eq!(statusName(INDEX_MODIFIED), "INDEX_MODIFIED");
    assert_eq!(statusName(INDEX_RENAMED), "INDEX_RENAMED");
}

#[test]
fn collectedChangesSplitIntoUnstagedAndStaged() {
    let mut renamedEntry = entry(INDEX_RENAMED | WT_MODIFIED, "old.txt");
    renamedEntry.headToIndexNewPath = Some("new.txt".to_string());
    let entries = vec![
        entry(WT_NEW, "a"),
        entry(INDEX_MODIFIED | WT_DELETED, "b"),
        renamedEntry,
        entry(INDEX_NEW | INDEX_DELETED, "c"),
    ];
    let changes = collectFileChanges(&entries);
    assert_eq!(changes.unstaged.0, vec![change("WT_NEW", "a"), change("WT_DELETED", "b"), change("WT_MODIFIED", "old.txt")]);
    assert_eq!(changes.staged.0, vec![
        change("INDEX_MODIFIED", "b"),
        renamed("INDEX_RENAMED", "new.txt", "old.txt"),
        change("INDEX_NEW", "c"),
    ]);
}

#[test]
fn unstagedRenameTakesTheWorkdirPath() {
    let mut renamedEntry = entry(WT_RENAMED, "x");
    renamedEntry.indexToWorkdirNewPath = Some("y".to_string());
    let changes = collectFileChanges(&[renamedEntry]);
    assert_eq!(changes.unstaged.0, vec![renamed("WT_RENAMED", "y", "x")]);
    assert!(changes.staged.0.is_empty());
}

#[test]
fn changesToAmendTakeTheLastCommitAsStaged() {
    let entries = vec![entry(WT_MODIFIED, "a"), entry(INDEX_NEW, "b")];
    let lastCommit = vec![change("Added", "b"), change("Modified", "c")];
    let changes = collectFileChangesToAmend(&entries, lastCommit);
    assert_eq!(changes.unstaged.0, vec![change("WT_MODIFIED", "a")]);
    assert_eq!(changes.staged.0, vec![change("Added", "b"), change("Modified", "c")]);
}

#[test]
fn fileWordFollowsTheNumberOfPaths() {
    assert_eq!(getFileWord(&["a".to_string()]), "file");
    assert_eq!(getFileWord(&["a".to_string(), "b".to_string()]), "files");
}

#[test]
fn stagingOpsInNormalMode() {
    let repository = Repository::new(GroupedFileChanges::new());
    assert_eq!(repository.stagingIndexOps(&change("WT_DELETED", "a")), vec![IndexOp::RemovePath("a".to_string())]);
    assert_eq!(repository.stagingIndexOps(&change("WT_MODIFIED", "a")), vec![IndexOp::AddPath("a".to_string())]);
    assert_eq!(
        repository.stagingIndexOps(&renamed("WT_RENAMED", "new", "old")),
        vec![IndexOp::AddPath("new".to_string()), IndexOp::RemovePath("old".to_string())]
    );
}

#[test]
fn stagingOpsWhileAmending() {
    let mut repository = Repository::new(GroupedFileChanges::new());
    let events = repository.enableCommitAmendMode(GroupedFileChanges::new());
    assert!(matches!(events.as_slice(), [RepositoryEvent::Refreshed]));
    assert!(repository.isCommitAmendMode());
    assert_eq!(repository.stagingIndexOps(&renamed("WT_RENAMED", "new", "old")), vec![IndexOp::AddPath("new".to_string())]);
    assert_eq!(repository.stagingIndexOps(&change("WT_DELETED", "a")), vec![IndexOp::RemovePath("a".to_string())]);
    let (target, paths) = repository.unstagingReset(&renamed("INDEX_RENAMED", "new", "old"));
    assert_eq!(target, ResetTarget::ParentOfHeadCommit);
    assert_eq!(paths, vec!["new".to_string()]);
    repository.disableCommitAmendMode(GroupedFileChanges::new());
    assert!(!repository.isCommitAmendMode());
}

#[test]
fn unstagingResetsThePathAndTheOldPathInNormalMode() {
    let repository = Repository::new(GroupedFileChanges::new());
    let (target, paths) = repository.unstagingReset(&renamed("INDEX_RENAMED", "new", "old"));
    assert_eq!(target, ResetTarget::HeadCommit);
    assert_eq!(paths, vec!["new".to_string(), "old".to_string()]);
    let (_, paths) = repository.unstagingReset(&change("INDEX_MODIFIED", "a"));
    assert_eq!(paths, vec!["a".to_string()]);
}

#[test]
fn stagingANewPathReportsAnAddition() {
    let mut repository = Repository::new(grouped(vec![change("WT_NEW", "a")], vec![]));
    assert!(!repository.hasStagedChanges());
    let staged = change("WT_NEW", "a");
    let events = repository.finishStaging(&staged, grouped(vec![], vec![change("INDEX_NEW", "a")]));
    assert_eq!(events.len(), 2);
    assert!(isRemovedFromUnstaged(&events[0], &staged));
    assert!(matches!(&events[1], RepositoryEvent::AddedToStaged(c) if *c == change("INDEX_NEW", "a")));
    assert!(repository.hasStagedChanges());
    assert!(repository.getUnstagedChanges().0.is_empty());
}

#[test]
fn stagingAnAlreadyStagedPathReportsAnUpdate() {
    let mut repository = Repository::new(grouped(vec![change("WT_MODIFIED", "a")], vec![change("INDEX_NEW", "a")]));
    let staged = change("WT_MODIFIED", "a");
    let events = repository.finishStaging(&staged, grouped(vec![], vec![change("INDEX_MODIFIED", "a")]));
    assert_eq!(events.len(), 2);
    assert!(isRemovedFromUnstaged(&events[0], &staged));
    match &events[1] {
        RepositoryEvent::UpdatedInStaged(FileChangeUpdate { old, new }) => {
            assert_eq!(*old, change("INDEX_NEW", "a"));
            assert_eq!(*new, change("INDEX_MODIFIED", "a"));
        },
        other => panic!("unexpected event {:?}", other),
    }
}

#[test]
fn stagingThatLeavesTheStagedStatusReportsOnlyTheRemoval() {
    let mut repository = Repository::new(grouped(vec![change("WT_MODIFIED", "a")], vec![change("INDEX_MODIFIED", "a")]));
    let events = repository.finishStaging(&change("WT_MODIFIED", "a"), grouped(vec![], vec![change("INDEX_MODIFIED", "a")]));
    assert_eq!(events.len(), 1);
}

#[test]
fn stagingADeletionOfANewFileReportsRemovalFromStaged() {
    let mut repository = Repository::new(grouped(vec![change("WT_DELETED", "a")], vec![change("INDEX_NEW", "a")]));
    let events = repository.finishStaging(&change("WT_DELETED", "a"), grouped(vec![], vec![]));
    assert_eq!(events.len(), 2);
    assert!(matches!(&events[1], RepositoryEvent::RemovedFromStaged(c) if *c == change("INDEX_NEW", "a")));
}

#[test]
fn unstagingReportsRemovalFromStagedThenTheUnstagedOutcome() {
    let mut repository = Repository::new(grouped(vec![], vec![change("INDEX_MODIFIED", "a")]));
    let unstaged = change("INDEX_MODIFIED", "a");
    let events = repository.finishUnstaging(&unstaged, grouped(vec![change("WT_MODIFIED", "a")], vec![]));
    assert_eq!(events.len(), 2);
    assert!(matches!(&events[0], RepositoryEvent::RemovedFromStaged(c) if *c == unstaged));
    assert!(matches!(&events[1], RepositoryEvent::AddedToUnstaged(c) if *c == change("WT_MODIFIED", "a")));
    assert!(!repository.hasStagedChanges());
}

#[test]
fn commitAndRefreshReportTheirEvents() {
    let mut repository = Repository::new(grouped(vec![], vec![change("INDEX_NEW", "a")]));
    let events = repository.finishCommit(GroupedFileChanges::new());
    assert!(matches!(events.as_slice(), [RepositoryEvent::Committed]));
    assert!(!repository.hasStagedChanges());
    let events = repository.refresh(grouped(vec![change("WT_NEW", "b")], vec![]));
    assert!(matches!(events.as_slice(), [RepositoryEvent::Refreshed]));
    assert_eq!(repository.getUnstagedChanges().0, vec![change("WT_NEW", "b")]);
    let events = repository.finishAmendCommit(GroupedFileChanges::new());
    assert!(matches!(events.as_slice(), [RepositoryEvent::AmendedCommit]));
    assert!(repository.getStagedChanges().0.is_empty());
}

#[test]
fn entriesAreCheckedBeforeCollecting() {
    assert!(isListedStatus(&entry(WT_NEW, "a")));
    assert!(isListedStatus(&entry(INDEX_DELETED, "a")));
    assert!(!isListedStatus(&entry(0, "a")));
    assert!(!isListedStatus(&entry(1 << 14, "ignored")));
    assert!(hasRenamePaths(&entry(WT_MODIFIED, "a")));
    assert!(!hasRenamePaths(&entry(WT_RENAMED, "a")));
    assert!(!hasRenamePaths(&entry(INDEX_RENAMED, "a")));
    let mut renamedEntry = entry(INDEX_RENAMED, "a");
    renamedEntry.headToIndexNewPath = Some("b".to_string());
    assert!(hasRenamePaths(&renamedEntry));
}

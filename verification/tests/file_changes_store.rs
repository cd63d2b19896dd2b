use rusty_git_gui::file_change::{FileChange, FileChangeUpdate};
use rusty_git_gui::file_changes_store::{FileChangesStore, StoreNotification};
use rusty_git_gui::ifile_changes_store::IFileChangesStore;
use rusty_git_gui::row_ops::RowOp;
use rusty_git_gui::status::{formatStatus, isKnownStatus, tryFormatStatus};

fn change(status: &str, path: &str) -> FileChange {
    FileChange { status: status.to_string(), path: path.to_string(), oldPath: None }
}

fn append(status: &str, path: &str) -> RowOp {
    RowOp::Append { status: status.to_string(), path: path.to_string() }
}

fn applyOps(rows: &mut Vec<(String, String)>, ops: &[RowOp]) {
    for op in ops {
        match op {
            RowOp::Append { status, path } => rows.push((status.clone(), path.clone())),
            RowOp::Insert { row, status, path } => rows.insert(*row, (status.clone(), path.clone())),
            RowOp::SetStatus { row, status } => rows[*row].0 = status.clone(),
            RowOp::SetPath { row, path } => rows[*row].1 = path.clone(),
            RowOp::Remove { row } => {
                rows.remove(*row);
            },
            RowOp::Clear => rows.clear(),
        }
    }
}

fn rowsOf(changes: &[FileChange]) -> Vec<(String, String)> {
    changes.iter().map(|c| (formatStatus(&c.status).to_string(), c.path.clone())).collect()
}

#[test]
fn statusLabelsOfKnownAndUnknownNames() {
    assert_eq!(formatStatus("WT_NEW"), "New");
    assert_eq!(formatStatus("INDEX_NEW"), "New");
    assert_eq!(formatStatus("WT_MODIFIED"), "Modified");
    assert_eq!(formatStatus("INDEX_DELETED"), "Deleted");
    assert_eq!(formatStatus("INDEX_RENAMED"), "Renamed");
    assert_eq!(formatStatus("Added"), "New");
    assert_eq!(formatStatus("Modified"), "Modified");
    assert_eq!(tryFormatStatus("WT_TYPECHANGE"), None);
    assert!(!isKnownStatus("something"));
    assert!(isKnownStatus("WT_RENAMED"));
}

#[test]
fn newStoreShowsEveryChangeInOrder() {
    let (store, ops) = FileChangesStore::new(&[change("WT_NEW", "a"), change("WT_MODIFIED", "b")]);
    assert_eq!(ops, vec![append("New", "a"), append("Modified", "b")]);
    assert_eq!(store.len(), 2);
    assert_eq!(store.getFilePath(1), "b");
    assert_eq!(store.getFileChange(0), &change("WT_NEW", "a"));
}

#[test]
fn appendShowsOneMoreRow() {
    let (mut store, _) = FileChangesStore::new(&[change("WT_NEW", "a")]);
    let ops = store.append(&change("WT_DELETED", "z"));
    assert_eq!(ops, vec![append("Deleted", "z")]);
    assert_eq!(store.len(), 2);
    assert_eq!(store.getFileChange(1), &change("WT_DELETED", "z"));
}

#[test]
fn updateChangesTheStatusOfTheRowWithThePath() {
    let (mut store, _) = FileChangesStore::new(&[change("INDEX_NEW", "a"), change("INDEX_MODIFIED", "b")]);
    let update = FileChangeUpdate { old: change("INDEX_MODIFIED", "b"), new: change("INDEX_DELETED", "b") };
    let ops = store.update(&update);
    assert_eq!(ops, vec![RowOp::SetStatus { row: 1, status: "Deleted".to_string() }]);
    assert_eq!(store.getFileChange(1), &change("INDEX_DELETED", "b"));
    assert_eq!(store.getFileChange(0), &change("INDEX_NEW", "a"));
}

#[test]
fn removeDropsTheRowWithThePath() {
    let (mut store, _) = FileChangesStore::new(&[change("WT_NEW", "a"), change("WT_NEW", "b")]);
    let ops = store.remove("a");
    assert_eq!(ops, vec![RowOp::Remove { row: 0 }]);
    assert_eq!(store.len(), 1);
    assert_eq!(store.getFilePath(0), "b");
}

#[test]
fn clearDropsEveryRow() {
    let (mut store, _) = FileChangesStore::new(&[change("WT_NEW", "a"), change("WT_NEW", "b")]);
    assert_eq!(store.clear(), vec![RowOp::Clear]);
    assert_eq!(store.len(), 0);
}

#[test]
fn findFilePathGivesTheRowOrNothing() {
    let (store, _) = FileChangesStore::new(&[change("WT_NEW", "a"), change("WT_NEW", "b")]);
    assert_eq!(store.findFilePath("b"), Some(1));
    assert_eq!(store.findFilePath("c"), None);
    assert_eq!(IFileChangesStore::findFilePath(&store, "a"), Some(0));
}

#[test]
fn refreshEditsRowsInOnePassByPath() {
    let olds = [change("WT_NEW", "a"), change("WT_MODIFIED", "c"), change("WT_NEW", "d")];
    let news = [change("WT_NEW", "b"), change("WT_DELETED", "c"), change("WT_NEW", "e")];
    let (mut store, _) = FileChangesStore::new(&olds);
    let ops = store.refresh(&news).ops;
    assert_eq!(ops, vec![
        RowOp::Remove { row: 0 },
        RowOp::Insert { row: 0, status: "New".to_string(), path: "b".to_string() },
        RowOp::SetStatus { row: 1, status: "Deleted".to_string() },
        RowOp::Remove { row: 2 },
        append("New", "e"),
    ]);
    assert_eq!(store.len(), 3);
    assert_eq!(store.getFileChange(2), &change("WT_NEW", "e"));
}

#[test]
fn refreshRemovesLeftoverRowsLastFirst() {
    let (mut store, _) = FileChangesStore::new(&[change("WT_NEW", "a"), change("WT_NEW", "b"), change("WT_NEW", "c")]);
    let ops = store.refresh(&[change("WT_NEW", "a")]).ops;
    assert_eq!(ops, vec![RowOp::Remove { row: 2 }, RowOp::Remove { row: 1 }]);
    assert_eq!(store.len(), 1);
}

#[test]
fn refreshOfARenameUpdatesThePath() {
    let before = FileChange { status: "INDEX_RENAMED".to_string(), path: "b".to_string(), oldPath: Some("a".to_string()) };
    let after = FileChange { status: "INDEX_RENAMED".to_string(), path: "b".to_string(), oldPath: Some("x".to_string()) };
    let (mut store, _) = FileChangesStore::new(&[before]);
    let ops = store.refresh(&[after.clone()]).ops;
    assert_eq!(ops, vec![RowOp::SetPath { row: 0, path: "b".to_string() }]);
    assert_eq!(store.getFileChange(0), &after);
}

#[test]
fn refreshedRowsMirrorTheNewChanges() {
    let olds = [change("WT_NEW", "b"), change("WT_MODIFIED", "d"), change("WT_NEW", "f"), change("WT_NEW", "g")];
    let news = [change("WT_NEW", "a"), change("WT_DELETED", "d"), change("WT_NEW", "e"), change("WT_MODIFIED", "f")];
    let (mut store, fillOps) = FileChangesStore::new(&olds);
    let mut rows = Vec::new();
    applyOps(&mut rows, &fillOps);
    assert_eq!(rows, rowsOf(&olds));
    let ops = store.refresh(&news).ops;
    applyOps(&mut rows, &ops);
    assert_eq!(rows, rowsOf(&news));
    let ops = store.refresh(&[]).ops;
    applyOps(&mut rows, &ops);
    assert!(rows.is_empty());
}

#[test]
fn refreshTellsTheViewsOnce() {
    let (mut store, _) = FileChangesStore::new(&[change("WT_NEW", "a")]);
    let update = store.refresh(&[change("WT_NEW", "a")]);
    assert!(update.ops.is_empty());
    assert_eq!(update.notification, Some(StoreNotification::Refreshed));
}

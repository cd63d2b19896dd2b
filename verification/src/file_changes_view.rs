//! The decisions of a file change list view: what it reports when its
//! selection changes or its rows are refreshed, and what a row stands for.
use vstd::prelude::*;
use crate::file_change::{FileChange, FileChangeView};
use crate::ifile_changes_store::IFileChangesStore;

verus! {

/// What a file change list view reports.
#[derive(Debug)]
pub enum FileChangesViewEvent {
    FileChangeSelected(FileChange),
    FileChangeUnselected,
    FileChangeRefreshed(Option<FileChange>),
}

/// The mathematical value of a `FileChangesViewEvent`.
pub enum FileChangesViewEventView {
    FileChangeSelected(FileChangeView),
    FileChangeUnselected,
    FileChangeRefreshed(Option<FileChangeView>),
}

impl View for FileChangesViewEvent {
    type V = FileChangesViewEventView;

    open spec fn view(&self) -> FileChangesViewEventView {
        match self {
            FileChangesViewEvent::FileChangeSelected(c) => FileChangesViewEventView::FileChangeSelected(c@),
            FileChangesViewEvent::FileChangeUnselected => FileChangesViewEventView::FileChangeUnselected,
            FileChangesViewEvent::FileChangeRefreshed(c) => FileChangesViewEventView::FileChangeRefreshed(
                match c {
                    Some(c) => Some(c@),
                    None => None,
                },
            ),
        }
    }
}

/// The file change in `row` of `store`, if a row is given.
pub open spec fn changeInRow<S: IFileChangesStore>(store: &S, row: Option<usize>) -> Option<FileChangeView> {
    match row {
        Some(r) => Some(store.fileChanges()[r as int]),
        None => None,
    }
}

/// Whether `row`, if given, is a row of `store`.
pub open spec fn isRowOf<S: IFileChangesStore>(store: &S, row: Option<usize>) -> bool {
    row matches Some(r) ==> r < store.fileChanges().len()
}

/// What the view reports when its selection changed to `selectedRow`: the
/// selected file change, or that none is selected.
pub fn selectionChangedEvent<S: IFileChangesStore>(store: &S, selectedRow: Option<usize>) -> (event:
    FileChangesViewEvent)
    requires
        isRowOf(store, selectedRow),
    ensures
        event@ == match changeInRow(store, selectedRow) {
            Some(c) => FileChangesViewEventView::FileChangeSelected(c),
            None => FileChangesViewEventView::FileChangeUnselected,
        },
{
    match selectedRow {
        Some(row) => FileChangesViewEvent::FileChangeSelected(store.getFileChange(row).clone()),
        None => FileChangesViewEvent::FileChangeUnselected,
    }
}

/// What the view reports after its rows were refreshed while `selectedRow` is
/// selected: the file change now in that row, if any.
pub fn refreshedEvent<S: IFileChangesStore>(store: &S, selectedRow: Option<usize>) -> (event: FileChangesViewEvent)
    requires
        isRowOf(store, selectedRow),
    ensures
        event@ == FileChangesViewEventView::FileChangeRefreshed(changeInRow(store, selectedRow)),
{
    match selectedRow {
        Some(row) => FileChangesViewEvent::FileChangeRefreshed(Some(store.getFileChange(row).clone())),
        None => FileChangesViewEvent::FileChangeRefreshed(None),
    }
}

/// The file change that an activation of `row` acts on.
pub fn activatedFileChange<S: IFileChangesStore>(store: &S, row: usize) -> (fileChange: FileChange)
    requires
        row < store.fileChanges().len(),
    ensures
        fileChange@ == store.fileChanges()[row as int],
{
    store.getFileChange(row).clone()
}

/// The path that the "Copy path" menu of `row` puts on the clipboard.
pub fn pathToCopy<S: IFileChangesStore>(store: &S, row: usize) -> (path: String)
    requires
        row < store.fileChanges().len(),
    ensures
        path@ == store.fileChanges()[row as int].path,
{
    store.getFilePath(row).to_string()
}

} // verus!

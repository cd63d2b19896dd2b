//! Read access to the file changes behind a file change view.
use vstd::prelude::*;
use crate::file_change::{FileChange, FileChangeView};
use crate::file_changes_store::{FileChangesStore, indexOfPath};

verus! {

/// A list of file changes shown row by row.
pub trait IFileChangesStore {
    /// The file changes, in row order.
    spec fn fileChanges(&self) -> Seq<FileChangeView>;

    /// The file change shown in `row`.
    fn getFileChange(&self, row: usize) -> (fileChange: &FileChange)
        requires
            row < self.fileChanges().len(),
        ensures
            fileChange@ == self.fileChanges()[row as int],
    ;

    /// The path of the file change shown in `row`.
    fn getFilePath(&self, row: usize) -> (path: &str)
        requires
            row < self.fileChanges().len(),
        ensures
            path@ == self.fileChanges()[row as int].path,
    ;

    /// The row of the first file change with the given path, if any.
    fn findFilePath(&self, path: &str) -> (row: Option<usize>)
        ensures
            match row {
                Some(r) => r as int == indexOfPath(self.fileChanges(), path@),
                None => indexOfPath(self.fileChanges(), path@) < 0,
            },
    ;
}

impl IFileChangesStore for FileChangesStore {
    open spec fn fileChanges(&self) -> Seq<FileChangeView> {
        self@
    }

    fn getFileChange(&self, row: usize) -> (fileChange: &FileChange) {
        FileChangesStore::getFileChange(self, row)
    }

    fn getFilePath(&self, row: usize) -> (path: &str) {
        FileChangesStore::getFilePath(self, row)
    }

    fn findFilePath(&self, path: &str) -> (row: Option<usize>) {
        FileChangesStore::findFilePath(self, path)
    }
}

} // verus!

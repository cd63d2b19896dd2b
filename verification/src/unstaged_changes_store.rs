//! The list of unstaged changes.
use vstd::prelude::*;
use crate::changes_store_events::{listStoreAccepts, listStoreAfter, listStoreOps, storeAccepts};
use crate::event::RepositoryEvent;
use crate::file_change::{FileChange, FileChangeView};
use crate::file_changes_store::{FileChangesStore, StoreNotification, StoreUpdate, allKnown, fillOps, indexOfPath};
use crate::grouped_file_changes::UnstagedChanges;
use crate::ifile_changes_store::IFileChangesStore;
use crate::row_ops::{RowOp, applyRowOps, displayRows, opViews};

verus! {

/// The unstaged changes shown in the unstaged changes view.
pub struct UnstagedChangesStore {
    store: FileChangesStore,
}

impl View for UnstagedChangesStore {
    type V = Seq<FileChangeView>;

    closed spec fn view(&self) -> Seq<FileChangeView> {
        self.store@
    }
}

impl UnstagedChangesStore {
    /// Every change held has a labelled status.
    pub open spec fn wf(&self) -> bool {
        allKnown(self@)
    }

    /// How many changes the list holds.
    pub fn len(&self) -> (n: usize)
        ensures
            n == self@.len(),
    {
        self.store.len()
    }

    /// Whether the list handles `event` while the repository holds `current`.
    pub fn accepts(&self, event: &RepositoryEvent, current: &UnstagedChanges) -> (accepts: bool)
        ensures
            accepts == listStoreAccepts(self@, event@, current@, false),
    {
        storeAccepts(&self.store, event, current.0.as_slice(), false)
    }

    /// A list that holds the repository's unstaged changes, with the row edits
    /// that show them.
    pub fn new(unstaged: &UnstagedChanges) -> (result: (Self, Vec<RowOp>))
        requires
            allKnown(unstaged@),
        ensures
            result.0@ == unstaged@,
            result.0.wf(),
            opViews(result.1@) == fillOps(unstaged@),
            applyRowOps(Seq::empty(), opViews(result.1@)) == displayRows(result.0@),
    {
        let (store, ops) = FileChangesStore::new(unstaged.0.as_slice());
        (UnstagedChangesStore { store }, ops)
    }

    /// Follows a repository event; `unstaged` is what the repository holds now.
    /// Only a refresh is told on to the views, once the rows are edited.
    pub fn handle(&mut self, event: &RepositoryEvent, unstaged: &UnstagedChanges) -> (update: StoreUpdate)
        requires
            old(self).wf(),
            listStoreAccepts(old(self)@, event@, unstaged@, false),
        ensures
            final(self).wf(),
            final(self)@ == listStoreAfter(old(self)@, event@, unstaged@),
            opViews(update.ops@) == listStoreOps(old(self)@, event@, unstaged@),
            applyRowOps(displayRows(old(self)@), opViews(update.ops@)) == displayRows(final(self)@),
            update.notification == (if event@ is Refreshed {
                Some(StoreNotification::Refreshed)
            } else {
                None::<StoreNotification>
            }),
    {
        match event {
            RepositoryEvent::AddedToUnstaged(fileChange) => StoreUpdate { ops: self.store.append(fileChange), notification: None },
            RepositoryEvent::Refreshed => self.store.refresh(unstaged.0.as_slice()),
            RepositoryEvent::RemovedFromUnstaged(fileChange) => StoreUpdate { ops: self.store.remove(fileChange.path.as_str()), notification: None },
            RepositoryEvent::UpdatedInUnstaged(fileChangeUpdate) => StoreUpdate { ops: self.store.update(fileChangeUpdate), notification: None },
            _ => StoreUpdate { ops: Vec::new(), notification: None },
        }
    }
}

impl IFileChangesStore for UnstagedChangesStore {
    open spec fn fileChanges(&self) -> Seq<FileChangeView> {
        self@
    }

    fn getFileChange(&self, row: usize) -> (fileChange: &FileChange) {
        self.store.getFileChange(row)
    }

    fn getFilePath(&self, row: usize) -> (path: &str) {
        self.store.getFilePath(row)
    }

    fn findFilePath(&self, path: &str) -> (row: Option<usize>) {
        self.store.findFilePath(path)
    }
}

} // verus!

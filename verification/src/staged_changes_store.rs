//! The list of staged changes.
use vstd::prelude::*;
use crate::changes_store_events::{listStoreAccepts, listStoreAfter, listStoreOps, storeAccepts};
use crate::event::RepositoryEvent;
use crate::file_change::{FileChange, FileChangeView};
use crate::file_changes_store::{FileChangesStore, StoreNotification, StoreUpdate, allKnown, fillOps, indexOfPath};
use crate::grouped_file_changes::StagedChanges;
use crate::ifile_changes_store::IFileChangesStore;
use crate::row_ops::{RowOp, applyRowOps, displayRows, opViews};

verus! {

/// The staged changes shown in the staged changes view.
pub struct StagedChangesStore {
    store: FileChangesStore,
}

impl View for StagedChangesStore {
    type V = Seq<FileChangeView>;

    closed spec fn view(&self) -> Seq<FileChangeView> {
        self.store@
    }
}

impl StagedChangesStore {
    /// Every change held has a labelled status.
    pub open spec fn wf(&self) -> bool {
        allKnown(self@)
    }

    /// How many changes the list holds.
    pub fn len(&self) -> (n: usize)
        ensures
            n == self@.len(),
    {
        self.store.len()
    }

    /// Whether the list handles `event` while the repository holds `current`.
    pub fn accepts(&self, event: &RepositoryEvent, current: &StagedChanges) -> (accepts: bool)
        ensures
            accepts == listStoreAccepts(self@, event@, current@, true),
    {
        storeAccepts(&self.store, event, current.0.as_slice(), true)
    }

    /// A list that holds the repository's staged changes, with the row edits
    /// that show them.
    pub fn new(staged: &StagedChanges) -> (result: (Self, Vec<RowOp>))
        requires
            allKnown(staged@),
        ensures
            result.0@ == staged@,
            result.0.wf(),
            opViews(result.1@) == fillOps(staged@),
            applyRowOps(Seq::empty(), opViews(result.1@)) == displayRows(result.0@),
    {
        let (store, ops) = FileChangesStore::new(staged.0.as_slice());
        (StagedChangesStore { store }, ops)
    }

    /// Follows a repository event; `staged` is what the repository holds now.
    /// Only a refresh is told on to the views, once the rows are edited.
    pub fn handle(&mut self, event: &RepositoryEvent, staged: &StagedChanges) -> (update: StoreUpdate)
        requires
            old(self).wf(),
            listStoreAccepts(old(self)@, event@, staged@, true),
        ensures
            final(self).wf(),
            final(self)@ == listStoreAfter(old(self)@, event@, staged@),
            opViews(update.ops@) == listStoreOps(old(self)@, event@, staged@),
            applyRowOps(displayRows(old(self)@), opViews(update.ops@)) == displayRows(final(self)@),
            update.notification == (if event@ is Refreshed {
                Some(StoreNotification::Refreshed)
            } else {
                None::<StoreNotification>
            }),
    {
        match event {
            RepositoryEvent::AddedToStaged(fileChange) => StoreUpdate { ops: self.store.append(fileChange), notification: None },
            RepositoryEvent::AmendedCommit => StoreUpdate { ops: self.store.clear(), notification: None },
            RepositoryEvent::Committed => StoreUpdate { ops: self.store.clear(), notification: None },
            RepositoryEvent::Refreshed => self.store.refresh(staged.0.as_slice()),
            RepositoryEvent::RemovedFromStaged(fileChange) => StoreUpdate { ops: self.store.remove(fileChange.path.as_str()), notification: None },
            RepositoryEvent::UpdatedInStaged(fileChangeUpdate) => StoreUpdate { ops: self.store.update(fileChangeUpdate), notification: None },
            _ => StoreUpdate { ops: Vec::new(), notification: None },
        }
    }
}

impl IFileChangesStore for StagedChangesStore {
    open spec fn fileChanges(&self) -> Seq<FileChangeView> {
        self@
    }

    fn getFileChange(&self, row: usize) -> (fileChange: &FileChange) {
        self.store.getFileChange(row)
    }

    fn getFilePath(&self, row: usize) -> (path: &str) {
        self.store.getFilePath(row)
    }

    fn findFilePath(&self, path: &str) -> (row: Option<usize>) {
        self.store.findFilePath(path)
    }
}

} // verus!

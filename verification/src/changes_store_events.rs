//! How a list of staged or unstaged changes follows the repository's events.
use vstd::prelude::*;
use crate::event::{RepositoryEvent, RepositoryEventView};
use crate::file_change::{FileChange, FileChangeView, viewsOf};
use crate::file_changes_store::{FileChangesStore, allKnown, indexOfPath, refreshOps};
use crate::status::isKnownStatus;
use crate::row_ops::RowOpView;
use crate::status::{isKnown, statusLabel};

verus! {

/// Whether the list of staged changes (with `staged`) or of unstaged ones
/// handles the event, holding `store` while the repository holds `current`:
/// additions need a labelled status, removals and updates need the path in
/// the list, a refresh needs every current status labelled. Commits and
/// amendments concern the staged list only.
pub open spec fn listStoreAccepts(store: Seq<FileChangeView>, event: RepositoryEventView, current: Seq<FileChangeView>, staged: bool) -> bool {
    match event {
        RepositoryEventView::AddedToStaged(c) => staged && isKnown(c.status),
        RepositoryEventView::AddedToUnstaged(c) => !staged && isKnown(c.status),
        RepositoryEventView::AmendedCommit => staged,
        RepositoryEventView::Committed => staged,
        RepositoryEventView::Refreshed => allKnown(current),
        RepositoryEventView::RemovedFromStaged(c) => staged && indexOfPath(store, c.path) >= 0,
        RepositoryEventView::RemovedFromUnstaged(c) => !staged && indexOfPath(store, c.path) >= 0,
        RepositoryEventView::UpdatedInStaged(o, n) => staged && indexOfPath(store, o.path) >= 0 && isKnown(n.status),
        RepositoryEventView::UpdatedInUnstaged(o, n) => !staged && indexOfPath(store, o.path) >= 0 && isKnown(n.status),
    }
}

/// The list after handling an event: an addition appends, a removal removes
/// the first change with the path, an update gives it the new status, a
/// commit or an amendment empties the list and a refresh makes it hold the
/// repository's current changes.
pub open spec fn listStoreAfter(store: Seq<FileChangeView>, event: RepositoryEventView, current: Seq<FileChangeView>) -> Seq<FileChangeView> {
    match event {
        RepositoryEventView::AddedToStaged(c) => store.push(c),
        RepositoryEventView::AddedToUnstaged(c) => store.push(c),
        RepositoryEventView::AmendedCommit => Seq::empty(),
        RepositoryEventView::Committed => Seq::empty(),
        RepositoryEventView::Refreshed => current,
        RepositoryEventView::RemovedFromStaged(c) => store.remove(indexOfPath(store, c.path)),
        RepositoryEventView::RemovedFromUnstaged(c) => store.remove(indexOfPath(store, c.path)),
        RepositoryEventView::UpdatedInStaged(o, n) => {
            let i = indexOfPath(store, o.path);
            store.update(i, FileChangeView { status: n.status, ..store[i] })
        },
        RepositoryEventView::UpdatedInUnstaged(o, n) => {
            let i = indexOfPath(store, o.path);
            store.update(i, FileChangeView { status: n.status, ..store[i] })
        },
    }
}

/// The row edits with which the list handles an event.
pub open spec fn listStoreOps(store: Seq<FileChangeView>, event: RepositoryEventView, current: Seq<FileChangeView>) -> Seq<RowOpView> {
    match event {
        RepositoryEventView::AddedToStaged(c) => seq![RowOpView::Append { status: statusLabel(c.status)->0, path: c.path }],
        RepositoryEventView::AddedToUnstaged(c) => seq![RowOpView::Append { status: statusLabel(c.status)->0, path: c.path }],
        RepositoryEventView::AmendedCommit => seq![RowOpView::Clear],
        RepositoryEventView::Committed => seq![RowOpView::Clear],
        RepositoryEventView::Refreshed => refreshOps(store, current, 0),
        RepositoryEventView::RemovedFromStaged(c) => seq![RowOpView::Remove { row: indexOfPath(store, c.path) as nat }],
        RepositoryEventView::RemovedFromUnstaged(c) => seq![RowOpView::Remove { row: indexOfPath(store, c.path) as nat }],
        RepositoryEventView::UpdatedInStaged(o, n) => seq![
            RowOpView::SetStatus { row: indexOfPath(store, o.path) as nat, status: statusLabel(n.status)->0 },
        ],
        RepositoryEventView::UpdatedInUnstaged(o, n) => seq![
            RowOpView::SetStatus { row: indexOfPath(store, o.path) as nat, status: statusLabel(n.status)->0 },
        ],
    }
}

/// Whether every change has a status with a label.
pub fn allKnownStatuses(fileChanges: &[FileChange]) -> (known: bool)
    ensures
        known == allKnown(viewsOf(fileChanges@)),
{
    let mut i: usize = 0;
    while i < fileChanges.len()
        invariant
            i <= fileChanges@.len(),
            forall|j: int| 0 <= j < i ==> isKnown(#[trigger] viewsOf(fileChanges@)[j].status),
        decreases fileChanges@.len() - i,
    {
        if !isKnownStatus(fileChanges[i].status.as_str()) {
            assert(!isKnown(viewsOf(fileChanges@)[i as int].status));
            return false;
        }
        i = i + 1;
    }
    true
}

/// Whether a list holding `store` handles `event` while the repository holds
/// `current`; the list of staged changes with `staged`, else that of unstaged ones.
pub fn storeAccepts(store: &FileChangesStore, event: &RepositoryEvent, current: &[FileChange], staged: bool) -> (accepts: bool)
    ensures
        accepts == listStoreAccepts(store@, event@, viewsOf(current@), staged),
{
    match event {
        RepositoryEvent::AddedToStaged(c) => staged && isKnownStatus(c.status.as_str()),
        RepositoryEvent::AddedToUnstaged(c) => !staged && isKnownStatus(c.status.as_str()),
        RepositoryEvent::AmendedCommit => staged,
        RepositoryEvent::Committed => staged,
        RepositoryEvent::Refreshed => allKnownStatuses(current),
        RepositoryEvent::RemovedFromStaged(c) => staged && store.findFilePath(c.path.as_str()).is_some(),
        RepositoryEvent::RemovedFromUnstaged(c) => !staged && store.findFilePath(c.path.as_str()).is_some(),
        RepositoryEvent::UpdatedInStaged(u) => staged && store.findFilePath(u.old.path.as_str()).is_some()
            && isKnownStatus(u.new.status.as_str()),
        RepositoryEvent::UpdatedInUnstaged(u) => !staged && store.findFilePath(u.old.path.as_str()).is_some()
            && isKnownStatus(u.new.status.as_str()),
    }
}

} // verus!

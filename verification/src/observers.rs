//! Observers of the stores, views and the repository.
use vstd::prelude::*;
use crate::file_change::FileChange;

verus! {

/// Told when a file change store fills or empties.
pub trait FileChangeStoreObserver {
    fn onFilled(&self);

    fn onEmptied(&self);
}

/// Told when a text view fills or empties.
pub trait TextViewObserver {
    fn onFilled(&self);

    fn onEmptied(&self);
}

/// Told of selections in a file change view.
pub trait FileChangeViewObserver {
    fn onSelected(&self, fileChange: &FileChange) {
    }

    fn onDeselected(&self) {
    }

    fn onActivated(&self, fileChange: &FileChange) {
    }
}

/// Told of selections in a file changes view.
pub trait FileChangesViewObserver {
    fn onSelected(&self, fileChange: &FileChange) {
    }

    fn onDeselected(&self) {
    }

    fn onActivated(&self, fileChange: &FileChange) {
    }
}

/// Told of what the repository did.
pub trait RepositoryObserver {
    fn onStaged(&self, fileChange: &FileChange) {
    }

    fn onUnstaged(&self, fileChange: &FileChange) {
    }

    fn onCommitted(&self) {
    }
}

} // verus!

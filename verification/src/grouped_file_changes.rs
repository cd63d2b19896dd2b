//! The changed files of a repository, split into unstaged and staged ones.
use vstd::prelude::*;
use crate::file_change::{FileChange, FileChangeView, viewsOf};

verus! {

/// Changes in the working directory that are not staged.
#[derive(Debug)]
pub struct UnstagedChanges(pub Vec<FileChange>);

/// Changes staged in the index.
#[derive(Debug)]
pub struct StagedChanges(pub Vec<FileChange>);

impl View for UnstagedChanges {
    type V = Seq<FileChangeView>;

    open spec fn view(&self) -> Seq<FileChangeView> {
        viewsOf(self.0@)
    }
}

impl View for StagedChanges {
    type V = Seq<FileChangeView>;

    open spec fn view(&self) -> Seq<FileChangeView> {
        viewsOf(self.0@)
    }
}

impl UnstagedChanges {
    /// No unstaged change.
    pub fn new() -> (changes: Self)
        ensures
            changes@ == Seq::<FileChangeView>::empty(),
    {
        let changes = UnstagedChanges(Vec::new());
        assert(changes@ =~= Seq::<FileChangeView>::empty());
        changes
    }
}

impl StagedChanges {
    /// No staged change.
    pub fn new() -> (changes: Self)
        ensures
            changes@ == Seq::<FileChangeView>::empty(),
    {
        let changes = StagedChanges(Vec::new());
        assert(changes@ =~= Seq::<FileChangeView>::empty());
        changes
    }
}

/// The unstaged and the staged changes of a repository.
#[derive(Debug)]
pub struct GroupedFileChanges {
    pub unstaged: UnstagedChanges,
    pub staged: StagedChanges,
}

impl GroupedFileChanges {
    /// No change at all.
    pub fn new() -> (changes: Self)
        ensures
            changes.unstaged@ == Seq::<FileChangeView>::empty(),
            changes.staged@ == Seq::<FileChangeView>::empty(),
    {
        GroupedFileChanges { unstaged: UnstagedChanges::new(), staged: StagedChanges::new() }
    }
}

} // verus!

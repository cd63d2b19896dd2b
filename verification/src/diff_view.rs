//! The decisions of the diff view: which diff it shows for the selected
//! change, when it refreshes or clears it.
use vstd::prelude::*;
use crate::file_change::{FileChange, FileChangeView, copyOptionalText};
use crate::line_diff::{LineDiff, diffLines, lineChanges, lineDiffViews};
use crate::text::textEq;

verus! {

/// Which list the shown diff belongs to.
#[derive(Clone, Copy, Debug, PartialEq, Eq, Structural)]
pub enum DisplayedFileChange {
    Nothing,
    Unstaged,
    Staged,
}

/// The diff to make with git for a change.
#[derive(Debug, PartialEq, Eq)]
pub enum DiffKind {
    /// Index to working directory, for a path.
    IndexToWorkdir { path: String },
    /// Index to working directory with renames detected, for both paths.
    IndexToWorkdirForRenamedFile { oldPath: String, newPath: String },
    /// HEAD tree to index, for a path.
    TreeToIndex { path: String },
    /// HEAD tree to index with renames detected, for both paths.
    TreeToIndexForRenamedFile { oldPath: String, newPath: String },
    /// Tree of the parent of HEAD to index, for a path: what an amended
    /// commit would hold.
    ToAmendForPath { path: String },
}

/// The mathematical value of a `DiffKind`.
pub enum DiffKindView {
    IndexToWorkdir { path: Seq<char> },
    IndexToWorkdirForRenamedFile { oldPath: Seq<char>, newPath: Seq<char> },
    TreeToIndex { path: Seq<char> },
    TreeToIndexForRenamedFile { oldPath: Seq<char>, newPath: Seq<char> },
    ToAmendForPath { path: Seq<char> },
}

impl View for DiffKind {
    type V = DiffKindView;

    open spec fn view(&self) -> DiffKindView {
        match self {
            DiffKind::IndexToWorkdir { path } => DiffKindView::IndexToWorkdir { path: path@ },
            DiffKind::IndexToWorkdirForRenamedFile { oldPath, newPath } => DiffKindView::IndexToWorkdirForRenamedFile {
                oldPath: oldPath@,
                newPath: newPath@,
            },
            DiffKind::TreeToIndex { path } => DiffKindView::TreeToIndex { path: path@ },
            DiffKind::TreeToIndexForRenamedFile { oldPath, newPath } => DiffKindView::TreeToIndexForRenamedFile {
                oldPath: oldPath@,
                newPath: newPath@,
            },
            DiffKind::ToAmendForPath { path } => DiffKindView::ToAmendForPath { path: path@ },
        }
    }
}

/// What the diff view is told.
#[derive(Debug)]
pub enum DiffViewEvent {
    CommitAmendDisabled,
    CommitAmendEnabled,
    ZoomRequested,
    StagedChangeRefreshed(Option<FileChange>),
    StagedChangeSelected(FileChange),
    StagedChangeUnselected,
    UnstagedChangeRefreshed(Option<FileChange>),
    UnstagedChangeSelected(FileChange),
    UnstagedChangeUnselected,
}

/// What the diff view does.
#[derive(Debug, PartialEq, Eq)]
pub enum DiffViewAction {
    /// Nothing.
    Nothing,
    /// Shows the diff, colored.
    Show(DiffKind),
    /// Replaces the shown diff by the new one, line by line.
    Refresh(DiffKind),
    /// Shows nothing.
    Clear,
    /// Passes the zoom request on to the text view.
    Zoom,
}

/// The mathematical value of a `DiffViewAction`.
pub enum DiffViewActionView {
    Nothing,
    Show(DiffKindView),
    Refresh(DiffKindView),
    Clear,
    Zoom,
}

impl View for DiffViewAction {
    type V = DiffViewActionView;

    open spec fn view(&self) -> DiffViewActionView {
        match self {
            DiffViewAction::Nothing => DiffViewActionView::Nothing,
            DiffViewAction::Show(k) => DiffViewActionView::Show(k@),
            DiffViewAction::Refresh(k) => DiffViewActionView::Refresh(k@),
            DiffViewAction::Clear => DiffViewActionView::Clear,
            DiffViewAction::Zoom => DiffViewActionView::Zoom,
        }
    }
}

/// The diff of an unstaged change: with renames detected for a rename.
pub open spec fn unstagedDiff(fileChange: FileChangeView) -> DiffKindView {
    if fileChange.status == "WT_RENAMED"@ {
        DiffKindView::IndexToWorkdirForRenamedFile { oldPath: fileChange.oldPath->0, newPath: fileChange.path }
    } else {
        DiffKindView::IndexToWorkdir { path: fileChange.path }
    }
}

/// The diff of a staged change when it is refreshed: against the parent of
/// HEAD while amending, against HEAD otherwise.
pub open spec fn stagedRefreshDiff(fileChange: FileChangeView, commitAmendMode: bool) -> DiffKindView {
    if commitAmendMode {
        DiffKindView::ToAmendForPath { path: fileChange.path }
    } else {
        DiffKindView::TreeToIndex { path: fileChange.path }
    }
}

/// The diff of a staged change when it is selected: with renames detected
/// for a rename, otherwise as when it is refreshed.
pub open spec fn stagedDiff(fileChange: FileChangeView, commitAmendMode: bool) -> DiffKindView {
    if fileChange.status == "INDEX_RENAMED"@ {
        DiffKindView::TreeToIndexForRenamedFile { oldPath: fileChange.oldPath->0, newPath: fileChange.path }
    } else {
        stagedRefreshDiff(fileChange, commitAmendMode)
    }
}

/// Selecting a staged change that is not a rename shows the diff that a
/// refresh of it shows in the same mode: while the last commit is being
/// amended, the diff from the parent of HEAD to the index for its path (what
/// the amended commit would hold), otherwise the diff from HEAD to the index.
/// Selecting an unstaged change that is not a rename shows the diff from the
/// index to the working directory for its path.
pub proof fn lemma_selected_diff_follows_amend_mode(fileChange: FileChangeView, commitAmendMode: bool)
    ensures
        fileChange.status != "INDEX_RENAMED"@ ==> stagedDiff(fileChange, commitAmendMode) == stagedRefreshDiff(
            fileChange,
            commitAmendMode,
        ),
        fileChange.status != "INDEX_RENAMED"@ && commitAmendMode ==> stagedDiff(fileChange, commitAmendMode)
            == (DiffKindView::ToAmendForPath { path: fileChange.path }),
        fileChange.status != "INDEX_RENAMED"@ && !commitAmendMode ==> stagedDiff(fileChange, commitAmendMode)
            == (DiffKindView::TreeToIndex { path: fileChange.path }),
        fileChange.status != "WT_RENAMED"@ ==> unstagedDiff(fileChange) == (DiffKindView::IndexToWorkdir {
            path: fileChange.path,
        }),
        fileChange.status == "WT_RENAMED"@ && fileChange.oldPath is Some ==> unstagedDiff(fileChange)
            == (DiffKindView::IndexToWorkdirForRenamedFile { oldPath: fileChange.oldPath->0, newPath: fileChange.path }),
        fileChange.status == "INDEX_RENAMED"@ && fileChange.oldPath is Some ==> stagedDiff(fileChange, commitAmendMode)
            == (DiffKindView::TreeToIndexForRenamedFile { oldPath: fileChange.oldPath->0, newPath: fileChange.path }),
        fileChange.oldPath is Some ==> (stagedDiff(fileChange, commitAmendMode)
            matches DiffKindView::TreeToIndexForRenamedFile { oldPath, newPath } ==> newPath == fileChange.path
            && Some(oldPath) == fileChange.oldPath),
{
}

/// The state of the diff view: which list its diff belongs to, and whether
/// staged diffs are made for amending the last commit.
pub struct DiffView {
    displayState: DisplayedFileChange,
    commitAmendMode: bool,
}

impl DiffView {
    /// Which list the shown diff belongs to.
    pub closed spec fn displayed(&self) -> DisplayedFileChange {
        self.displayState
    }

    /// Whether staged diffs are made for amending the last commit.
    pub closed spec fn amending(&self) -> bool {
        self.commitAmendMode
    }

    /// A diff view that shows nothing, not amending.
    pub fn new() -> (view: Self)
        ensures
            view.displayed() == DisplayedFileChange::Nothing,
            !view.amending(),
    {
        DiffView { displayState: DisplayedFileChange::Nothing, commitAmendMode: false }
    }

    /// Which list the shown diff belongs to.
    pub fn getDisplayState(&self) -> (state: DisplayedFileChange)
        ensures
            state == self.displayed(),
    {
        self.displayState
    }

    /// Decides what to do with an event. A selection shows the diff of the
    /// change; an unselection or a refresh of a list matters only while the
    /// diff of that list is shown: it clears the view, or refreshes the
    /// diff of the change still selected.
    pub fn handle(&mut self, event: &DiffViewEvent) -> (action: DiffViewAction)
        requires
            match event {
                DiffViewEvent::UnstagedChangeSelected(c) => c.status@ == "WT_RENAMED"@ ==> c.oldPath is Some,
                DiffViewEvent::StagedChangeSelected(c) => c.status@ == "INDEX_RENAMED"@ ==> c.oldPath is Some,
                DiffViewEvent::UnstagedChangeRefreshed(Some(c)) => old(self).displayed() == DisplayedFileChange::Unstaged
                    && c.status@ == "WT_RENAMED"@ ==> c.oldPath is Some,
                _ => true,
            },
        ensures
            match event {
                DiffViewEvent::CommitAmendDisabled => {
                    &&& !final(self).amending()
                    &&& final(self).displayed() == old(self).displayed()
                    &&& action@ == DiffViewActionView::Nothing
                },
                DiffViewEvent::CommitAmendEnabled => {
                    &&& final(self).amending()
                    &&& final(self).displayed() == old(self).displayed()
                    &&& action@ == DiffViewActionView::Nothing
                },
                DiffViewEvent::ZoomRequested => {
                    &&& *final(self) == *old(self)
                    &&& action@ == DiffViewActionView::Zoom
                },
                DiffViewEvent::UnstagedChangeSelected(c) => {
                    &&& final(self).amending() == old(self).amending()
                    &&& final(self).displayed() == DisplayedFileChange::Unstaged
                    &&& action@ == DiffViewActionView::Show(unstagedDiff(c@))
                },
                DiffViewEvent::StagedChangeSelected(c) => {
                    &&& final(self).amending() == old(self).amending()
                    &&& final(self).displayed() == DisplayedFileChange::Staged
                    &&& action@ == DiffViewActionView::Show(stagedDiff(c@, old(self).amending()))
                },
                DiffViewEvent::UnstagedChangeUnselected => if old(self).displayed() == DisplayedFileChange::Unstaged {
                    &&& final(self).amending() == old(self).amending()
                    &&& final(self).displayed() == DisplayedFileChange::Nothing
                    &&& action@ == DiffViewActionView::Clear
                } else {
                    &&& *final(self) == *old(self)
                    &&& action@ == DiffViewActionView::Nothing
                },
                DiffViewEvent::StagedChangeUnselected => if old(self).displayed() == DisplayedFileChange::Staged {
                    &&& final(self).amending() == old(self).amending()
                    &&& final(self).displayed() == DisplayedFileChange::Nothing
                    &&& action@ == DiffViewActionView::Clear
                } else {
                    &&& *final(self) == *old(self)
                    &&& action@ == DiffViewActionView::Nothing
                },
                DiffViewEvent::UnstagedChangeRefreshed(c) => if old(self).displayed() != DisplayedFileChange::Unstaged {
                    &&& *final(self) == *old(self)
                    &&& action@ == DiffViewActionView::Nothing
                } else {
                    match c {
                        Some(c) => {
                            &&& *final(self) == *old(self)
                            &&& action@ == DiffViewActionView::Refresh(unstagedDiff(c@))
                        },
                        None => {
                            &&& final(self).amending() == old(self).amending()
                            &&& final(self).displayed() == DisplayedFileChange::Nothing
                            &&& action@ == DiffViewActionView::Clear
                        },
                    }
                },
                DiffViewEvent::StagedChangeRefreshed(c) => if old(self).displayed() != DisplayedFileChange::Staged {
                    &&& *final(self) == *old(self)
                    &&& action@ == DiffViewActionView::Nothing
                } else {
                    match c {
                        Some(c) => {
                            &&& *final(self) == *old(self)
                            &&& action@ == DiffViewActionView::Refresh(stagedRefreshDiff(c@, old(self).amending()))
                        },
                        None => {
                            &&& final(self).amending() == old(self).amending()
                            &&& final(self).displayed() == DisplayedFileChange::Nothing
                            &&& action@ == DiffViewActionView::Clear
                        },
                    }
                },
            },
    {
        match event {
            DiffViewEvent::CommitAmendDisabled => {
                self.commitAmendMode = false;
                DiffViewAction::Nothing
            },
            DiffViewEvent::CommitAmendEnabled => {
                self.commitAmendMode = true;
                DiffViewAction::Nothing
            },
            DiffViewEvent::ZoomRequested => DiffViewAction::Zoom,
            DiffViewEvent::UnstagedChangeSelected(fileChange) => {
                self.displayState = DisplayedFileChange::Unstaged;
                DiffViewAction::Show(makeDiffForUnstagedChange(fileChange))
            },
            DiffViewEvent::StagedChangeSelected(fileChange) => {
                let diff = if textEq(fileChange.status.as_str(), "INDEX_RENAMED") {
                    DiffKind::TreeToIndexForRenamedFile {
                        oldPath: copyOptionalText(&fileChange.oldPath).unwrap(),
                        newPath: fileChange.path.clone(),
                    }
                } else {
                    self.makeDiffForStagedChange(fileChange)
                };
                self.displayState = DisplayedFileChange::Staged;
                DiffViewAction::Show(diff)
            },
            DiffViewEvent::UnstagedChangeUnselected => {
                if self.displayState == DisplayedFileChange::Unstaged {
                    self.displayState = DisplayedFileChange::Nothing;
                    DiffViewAction::Clear
                } else {
                    DiffViewAction::Nothing
                }
            },
            DiffViewEvent::StagedChangeUnselected => {
                if self.displayState == DisplayedFileChange::Staged {
                    self.displayState = DisplayedFileChange::Nothing;
                    DiffViewAction::Clear
                } else {
                    DiffViewAction::Nothing
                }
            },
            DiffViewEvent::UnstagedChangeRefreshed(fileChangeOpt) => {
                if self.displayState != DisplayedFileChange::Unstaged {
                    return DiffViewAction::Nothing;
                }
                match fileChangeOpt {
                    Some(fileChange) => DiffViewAction::Refresh(makeDiffForUnstagedChange(fileChange)),
                    None => {
                        self.displayState = DisplayedFileChange::Nothing;
                        DiffViewAction::Clear
                    },
                }
            },
            DiffViewEvent::StagedChangeRefreshed(fileChangeOpt) => {
                if self.displayState != DisplayedFileChange::Staged {
                    return DiffViewAction::Nothing;
                }
                match fileChangeOpt {
                    Some(fileChange) => DiffViewAction::Refresh(self.makeDiffForStagedChange(fileChange)),
                    None => {
                        self.displayState = DisplayedFileChange::Nothing;
                        DiffViewAction::Clear
                    },
                }
            },
        }
    }

    /// The diff of a staged change, as the current mode makes it.
    fn makeDiffForStagedChange(&self, fileChange: &FileChange) -> (diff: DiffKind)
        ensures
            diff@ == stagedRefreshDiff(fileChange@, self.amending()),
    {
        if self.commitAmendMode {
            DiffKind::ToAmendForPath { path: fileChange.path.clone() }
        } else {
            DiffKind::TreeToIndex { path: fileChange.path.clone() }
        }
    }
}

/// The diff of an unstaged change.
fn makeDiffForUnstagedChange(fileChange: &FileChange) -> (diff: DiffKind)
    requires
        fileChange.status@ == "WT_RENAMED"@ ==> fileChange.oldPath is Some,
    ensures
        diff@ == unstagedDiff(fileChange@),
{
    if textEq(fileChange.status.as_str(), "WT_RENAMED") {
        DiffKind::IndexToWorkdirForRenamedFile {
            oldPath: copyOptionalText(&fileChange.oldPath).unwrap(),
            newPath: fileChange.path.clone(),
        }
    } else {
        DiffKind::IndexToWorkdir { path: fileChange.path.clone() }
    }
}

/// The line changes that turn the shown diff text into the new one.
pub fn makeLineChanges(oldDiff: &str, newDiff: &str) -> (changes: Vec<LineDiff>)
    ensures
        lineDiffViews(changes@) == lineChanges(oldDiff@, newDiff@),
{
    diffLines(oldDiff, newDiff)
}

} // verus!

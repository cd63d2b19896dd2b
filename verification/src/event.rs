//! What the repository reports of its changes, and where events come from.
use vstd::prelude::*;
use crate::file_change::{FileChange, FileChangeUpdate, FileChangeView};

verus! {

/// A change of the repository's file changes, reported to the lists that show them.
#[derive(Debug)]
pub enum RepositoryEvent {
    AddedToStaged(FileChange),
    AddedToUnstaged(FileChange),
    AmendedCommit,
    Committed,
    Refreshed,
    RemovedFromStaged(FileChange),
    RemovedFromUnstaged(FileChange),
    UpdatedInStaged(FileChangeUpdate),
    UpdatedInUnstaged(FileChangeUpdate),
}

/// The mathematical value of a `RepositoryEvent`.
pub enum RepositoryEventView {
    AddedToStaged(FileChangeView),
    AddedToUnstaged(FileChangeView),
    AmendedCommit,
    Committed,
    Refreshed,
    RemovedFromStaged(FileChangeView),
    RemovedFromUnstaged(FileChangeView),
    UpdatedInStaged(FileChangeView, FileChangeView),
    UpdatedInUnstaged(FileChangeView, FileChangeView),
}

impl View for RepositoryEvent {
    type V = RepositoryEventView;

    open spec fn view(&self) -> RepositoryEventView {
        match self {
            RepositoryEvent::AddedToStaged(c) => RepositoryEventView::AddedToStaged(c@),
            RepositoryEvent::AddedToUnstaged(c) => RepositoryEventView::AddedToUnstaged(c@),
            RepositoryEvent::AmendedCommit => RepositoryEventView::AmendedCommit,
            RepositoryEvent::Committed => RepositoryEventView::Committed,
            RepositoryEvent::Refreshed => RepositoryEventView::Refreshed,
            RepositoryEvent::RemovedFromStaged(c) => RepositoryEventView::RemovedFromStaged(c@),
            RepositoryEvent::RemovedFromUnstaged(c) => RepositoryEventView::RemovedFromUnstaged(c@),
            RepositoryEvent::UpdatedInStaged(u) => RepositoryEventView::UpdatedInStaged(u.old@, u.new@),
            RepositoryEvent::UpdatedInUnstaged(u) => RepositoryEventView::UpdatedInUnstaged(u.old@, u.new@),
        }
    }
}

/// The views of a sequence of events.
pub open spec fn eventViews(events: Seq<RepositoryEvent>) -> Seq<RepositoryEventView> {
    events.map_values(|event: RepositoryEvent| event@)
}

/// The parts of the application that send events.
#[derive(Clone, Copy, Debug, PartialEq, Eq, Structural)]
pub enum Source {
    ApplicationWindow,
    CommitAmendCheckbox,
    CommitButton,
    CommitDiffViewWidget,
    CommitLogAuthorFilterEntry,
    CommitLogAuthorFilterCaseButton,
    CommitLogAuthorFilterRegexButton,
    CommitLogFilters,
    CommitLogFiltersComboBox,
    CommitLogModelFilter,
    CommitLogSaveFilterButton,
    CommitLogSaveFilterDialog,
    CommitLogSaveFilterDialogWidget,
    CommitLogShowFilterButton,
    CommitLogSummaryFilterCaseButton,
    CommitLogSummaryFilterEntry,
    CommitLogSummaryFilterRegexButton,
    CommitLogView,
    CommitLogViewWidget,
    CommitMessageView,
    DiffAndCommitPane,
    DiffView,
    FileChangesPane,
    MainPane,
    MainStack,
    RefreshButton,
    Repository,
    StagedChangesStore,
    StagedChangesView,
    UnstagedChangesStore,
    UnstagedChangesView,
}

} // verus!

//! Where each event goes: the table that routes an event, by its source and
//! its kind, to the parts of the application that handle it, in order.
use vstd::prelude::*;
use crate::event::Source;

verus! {

/// The kinds of events that the parts of the application send.
#[derive(Clone, Copy, Debug, PartialEq, Eq, Structural)]
pub enum EventKind {
    MaximizationChanged,
    QuitRequested,
    AddedToStaged,
    AddedToUnstaged,
    AmendedCommit,
    Committed,
    Refreshed,
    RemovedFromStaged,
    RemovedFromUnstaged,
    UpdatedInStaged,
    UpdatedInUnstaged,
    AmendCommitRequested,
    CommitRequested,
    RefreshRequested,
    StageRequested,
    UnstageRequested,
    Clicked,
    Toggled,
    CommitAmendEnabled,
    CommitAmendDisabled,
    CommitSelected,
    CommitUnselected,
    BufferChanged,
    Filled,
    Emptied,
    ZoomRequested,
    FileChangeSelected,
    FileChangeUnselected,
    FileChangeRefreshed,
    RowActivated,
    RightClicked,
    SelectionChanged,
    RefilterRequested,
    RefilterEnded,
    PositionChanged,
    ActivePageChanged,
    TextEntered,
    InvalidTextInputted,
    ValidTextInputted,
    ActiveFilterChosen,
    ActiveFilterDataSwitched,
    ActiveFilterSwitched,
    FilterNameChosen,
    FilterAdded,
    FiltersUpdated,
    OpenDialogRequested,
    DialogResponded,
    InvalidSummaryTextInputted,
    InvalidAuthorTextInputted,
    ValidSummaryTextInputted,
    ValidAuthorTextInputted,
}

/// The parts of the application that handle events.
#[derive(Clone, Copy, Debug, PartialEq, Eq, Structural)]
pub enum Handler {
    ConfigStore,
    AppQuitter,
    Repository,
    CommitMessageView,
    CommitButton,
    DiffView,
    CommitAmendCheckbox,
    CommitDiffView,
    CommitLogModelFilter,
    CommitLogFilters,
    CommitLogFiltersView,
    CommitLogFiltersComboBox,
    CommitLogView,
    CommitLogAuthorFilterEntry,
    CommitLogSummaryFilterEntry,
    CommitLogSaveFilterDialog,
    ToolBarStack,
    RefreshButton,
    StagedChangesStore,
    UnstagedChangesStore,
    StagedChangesView,
    UnstagedChangesView,
}

/// The handlers, in the order in which they get it, of an event of kind `kind` from
/// `source`; `None` where no route exists for that pair.
pub open spec fn routeOf(source: Source, kind: EventKind) -> Option<Seq<Handler>> {
    match (source, kind) {
        (Source::ApplicationWindow, EventKind::MaximizationChanged) => Some(seq![Handler::ConfigStore]),
        (Source::ApplicationWindow, EventKind::QuitRequested) => Some(seq![Handler::ConfigStore, Handler::AppQuitter]),
        (Source::CommitAmendCheckbox, EventKind::CommitAmendDisabled) => Some(seq![Handler::Repository, Handler::CommitMessageView, Handler::CommitButton, Handler::DiffView]),
        (Source::CommitAmendCheckbox, EventKind::CommitAmendEnabled) => Some(seq![Handler::Repository, Handler::CommitMessageView, Handler::CommitButton, Handler::DiffView]),
        (Source::CommitAmendCheckbox, EventKind::Toggled) => Some(seq![Handler::CommitAmendCheckbox]),
        (Source::CommitButton, EventKind::AmendCommitRequested) => Some(seq![Handler::Repository]),
        (Source::CommitButton, EventKind::Clicked) => Some(seq![Handler::CommitButton]),
        (Source::CommitButton, EventKind::CommitRequested) => Some(seq![Handler::Repository]),
        (Source::CommitDiffViewWidget, EventKind::ZoomRequested) => Some(seq![Handler::CommitDiffView]),
        (Source::CommitLogAuthorFilterCaseButton, EventKind::Toggled) => Some(seq![Handler::CommitLogModelFilter, Handler::CommitLogFilters]),
        (Source::CommitLogAuthorFilterEntry, EventKind::TextEntered) => Some(seq![Handler::CommitLogModelFilter, Handler::CommitLogFilters]),
        (Source::CommitLogAuthorFilterRegexButton, EventKind::Toggled) => Some(seq![Handler::CommitLogModelFilter, Handler::CommitLogFilters]),
        (Source::CommitLogFilters, EventKind::ActiveFilterDataSwitched) => Some(seq![Handler::CommitLogFiltersView]),
        (Source::CommitLogFilters, EventKind::ActiveFilterSwitched) => Some(seq![Handler::CommitLogFiltersComboBox]),
        (Source::CommitLogFilters, EventKind::FilterAdded) => Some(seq![Handler::CommitLogFiltersComboBox]),
        (Source::CommitLogFilters, EventKind::FiltersUpdated) => Some(seq![Handler::ConfigStore]),
        (Source::CommitLogFiltersComboBox, EventKind::ActiveFilterChosen) => Some(seq![Handler::CommitLogFilters]),
        (Source::CommitLogModelFilter, EventKind::RefilterRequested) => Some(seq![Handler::CommitLogView, Handler::CommitLogModelFilter]),
        (Source::CommitLogModelFilter, EventKind::RefilterEnded) => Some(seq![Handler::CommitLogView]),
        (Source::CommitLogModelFilter, EventKind::InvalidAuthorTextInputted) => Some(seq![Handler::CommitLogAuthorFilterEntry]),
        (Source::CommitLogModelFilter, EventKind::InvalidSummaryTextInputted) => Some(seq![Handler::CommitLogSummaryFilterEntry]),
        (Source::CommitLogModelFilter, EventKind::ValidAuthorTextInputted) => Some(seq![Handler::CommitLogAuthorFilterEntry]),
        (Source::CommitLogModelFilter, EventKind::ValidSummaryTextInputted) => Some(seq![Handler::CommitLogSummaryFilterEntry]),
        (Source::CommitLogSaveFilterButton, EventKind::OpenDialogRequested) => Some(seq![Handler::CommitLogSaveFilterDialog]),
        (Source::CommitLogSaveFilterDialog, EventKind::FilterNameChosen) => Some(seq![Handler::CommitLogFilters]),
        (Source::CommitLogSaveFilterDialogWidget, EventKind::DialogResponded) => Some(seq![Handler::CommitLogSaveFilterDialog]),
        (Source::CommitLogSaveFilterDialogWidget, EventKind::TextEntered) => Some(seq![Handler::CommitLogSaveFilterDialog]),
        (Source::CommitLogShowFilterButton, EventKind::Toggled) => Some(seq![Handler::CommitLogFiltersView]),
        (Source::CommitLogSummaryFilterCaseButton, EventKind::Toggled) => Some(seq![Handler::CommitLogModelFilter, Handler::CommitLogFilters]),
        (Source::CommitLogSummaryFilterEntry, EventKind::TextEntered) => Some(seq![Handler::CommitLogModelFilter, Handler::CommitLogFilters]),
        (Source::CommitLogSummaryFilterRegexButton, EventKind::Toggled) => Some(seq![Handler::CommitLogModelFilter, Handler::CommitLogFilters]),
        (Source::CommitLogView, EventKind::CommitSelected) => Some(seq![Handler::CommitDiffView]),
        (Source::CommitLogView, EventKind::CommitUnselected) => Some(seq![Handler::CommitDiffView]),
        (Source::CommitLogViewWidget, EventKind::RightClicked) => Some(seq![]),
        (Source::CommitLogViewWidget, EventKind::RowActivated) => Some(seq![]),
        (Source::CommitLogViewWidget, EventKind::SelectionChanged) => Some(seq![Handler::CommitLogView]),
        (Source::CommitMessageView, EventKind::BufferChanged) => Some(seq![Handler::CommitMessageView]),
        (Source::CommitMessageView, EventKind::Emptied) => Some(seq![Handler::CommitButton]),
        (Source::CommitMessageView, EventKind::Filled) => Some(seq![Handler::CommitButton]),
        (Source::CommitMessageView, EventKind::ZoomRequested) => Some(seq![Handler::CommitMessageView]),
        (Source::DiffAndCommitPane, EventKind::PositionChanged) => Some(seq![Handler::ConfigStore]),
        (Source::DiffView, EventKind::ZoomRequested) => Some(seq![Handler::DiffView]),
        (Source::FileChangesPane, EventKind::PositionChanged) => Some(seq![Handler::ConfigStore]),
        (Source::MainPane, EventKind::PositionChanged) => Some(seq![Handler::ConfigStore]),
        (Source::MainStack, EventKind::ActivePageChanged) => Some(seq![Handler::ToolBarStack, Handler::ConfigStore]),
        (Source::RefreshButton, EventKind::Clicked) => Some(seq![Handler::RefreshButton]),
        (Source::RefreshButton, EventKind::RefreshRequested) => Some(seq![Handler::Repository]),
        (Source::Repository, EventKind::AddedToStaged) => Some(seq![Handler::StagedChangesStore, Handler::CommitButton]),
        (Source::Repository, EventKind::AddedToUnstaged) => Some(seq![Handler::UnstagedChangesStore]),
        (Source::Repository, EventKind::AmendedCommit) => Some(seq![Handler::StagedChangesStore, Handler::CommitAmendCheckbox]),
        (Source::Repository, EventKind::Committed) => Some(seq![Handler::StagedChangesStore, Handler::CommitMessageView, Handler::CommitAmendCheckbox]),
        (Source::Repository, EventKind::RemovedFromStaged) => Some(seq![Handler::StagedChangesStore, Handler::CommitButton]),
        (Source::Repository, EventKind::RemovedFromUnstaged) => Some(seq![Handler::UnstagedChangesStore]),
        (Source::Repository, EventKind::Refreshed) => Some(seq![Handler::UnstagedChangesStore, Handler::StagedChangesStore]),
        (Source::Repository, EventKind::UpdatedInStaged) => Some(seq![Handler::StagedChangesStore]),
        (Source::Repository, EventKind::UpdatedInUnstaged) => Some(seq![Handler::UnstagedChangesStore]),
        (Source::StagedChangesStore, EventKind::Refreshed) => Some(seq![Handler::StagedChangesView]),
        (Source::StagedChangesView, EventKind::FileChangeRefreshed) => Some(seq![Handler::DiffView]),
        (Source::StagedChangesView, EventKind::FileChangeSelected) => Some(seq![Handler::DiffView, Handler::UnstagedChangesView]),
        (Source::StagedChangesView, EventKind::FileChangeUnselected) => Some(seq![Handler::DiffView]),
        (Source::StagedChangesView, EventKind::RightClicked) => Some(seq![Handler::StagedChangesView]),
        (Source::StagedChangesView, EventKind::RowActivated) => Some(seq![Handler::StagedChangesView]),
        (Source::StagedChangesView, EventKind::SelectionChanged) => Some(seq![Handler::StagedChangesView]),
        (Source::StagedChangesView, EventKind::UnstageRequested) => Some(seq![Handler::Repository]),
        (Source::UnstagedChangesStore, EventKind::Refreshed) => Some(seq![Handler::UnstagedChangesView]),
        (Source::UnstagedChangesView, EventKind::FileChangeRefreshed) => Some(seq![Handler::DiffView]),
        (Source::UnstagedChangesView, EventKind::FileChangeSelected) => Some(seq![Handler::DiffView, Handler::StagedChangesView]),
        (Source::UnstagedChangesView, EventKind::FileChangeUnselected) => Some(seq![Handler::DiffView]),
        (Source::UnstagedChangesView, EventKind::RightClicked) => Some(seq![Handler::UnstagedChangesView]),
        (Source::UnstagedChangesView, EventKind::RowActivated) => Some(seq![Handler::UnstagedChangesView]),
        (Source::UnstagedChangesView, EventKind::SelectionChanged) => Some(seq![Handler::UnstagedChangesView]),
        (Source::UnstagedChangesView, EventKind::StageRequested) => Some(seq![Handler::Repository]),
        _ => None,
    }
}

fn noHandler() -> (handlers: Vec<Handler>)
    ensures
        handlers@ == Seq::<Handler>::empty(),
{
    Vec::new()
}

fn oneHandler(first: Handler) -> (handlers: Vec<Handler>)
    ensures
        handlers@ == seq![first],
{
    let mut handlers: Vec<Handler> = Vec::new();
    handlers.push(first);
    handlers
}

fn twoHandlers(first: Handler, second: Handler) -> (handlers: Vec<Handler>)
    ensures
        handlers@ == seq![first, second],
{
    let mut handlers = oneHandler(first);
    handlers.push(second);
    handlers
}

fn threeHandlers(first: Handler, second: Handler, third: Handler) -> (handlers: Vec<Handler>)
    ensures
        handlers@ == seq![first, second, third],
{
    let mut handlers = twoHandlers(first, second);
    handlers.push(third);
    handlers
}

fn fourHandlers(first: Handler, second: Handler, third: Handler, fourth: Handler) -> (handlers: Vec<Handler>)
    ensures
        handlers@ == seq![first, second, third, fourth],
{
    let mut handlers = threeHandlers(first, second, third);
    handlers.push(fourth);
    handlers
}

/// The handlers of an event of kind `kind` from `source`, in the order in which they
/// get it; `None` for a pair that has no route, which the application treats as a
/// programming error.
pub fn dispatchTargets(source: Source, kind: EventKind) -> (handlers: Option<Vec<Handler>>)
    ensures
        routeOf(source, kind) is None <==> handlers is None,
        handlers matches Some(found) ==> routeOf(source, kind) == Some(found@),
{
    match (source, kind) {
        (Source::ApplicationWindow, EventKind::MaximizationChanged) => Some(oneHandler(Handler::ConfigStore)),
        (Source::ApplicationWindow, EventKind::QuitRequested) => Some(twoHandlers(Handler::ConfigStore, Handler::AppQuitter)),
        (Source::CommitAmendCheckbox, EventKind::CommitAmendDisabled) => Some(fourHandlers(Handler::Repository, Handler::CommitMessageView, Handler::CommitButton, Handler::DiffView)),
        (Source::CommitAmendCheckbox, EventKind::CommitAmendEnabled) => Some(fourHandlers(Handler::Repository, Handler::CommitMessageView, Handler::CommitButton, Handler::DiffView)),
        (Source::CommitAmendCheckbox, EventKind::Toggled) => Some(oneHandler(Handler::CommitAmendCheckbox)),
        (Source::CommitButton, EventKind::AmendCommitRequested) => Some(oneHandler(Handler::Repository)),
        (Source::CommitButton, EventKind::Clicked) => Some(oneHandler(Handler::CommitButton)),
        (Source::CommitButton, EventKind::CommitRequested) => Some(oneHandler(Handler::Repository)),
        (Source::CommitDiffViewWidget, EventKind::ZoomRequested) => Some(oneHandler(Handler::CommitDiffView)),
        (Source::CommitLogAuthorFilterCaseButton, EventKind::Toggled) => Some(twoHandlers(Handler::CommitLogModelFilter, Handler::CommitLogFilters)),
        (Source::CommitLogAuthorFilterEntry, EventKind::TextEntered) => Some(twoHandlers(Handler::CommitLogModelFilter, Handler::CommitLogFilters)),
        (Source::CommitLogAuthorFilterRegexButton, EventKind::Toggled) => Some(twoHandlers(Handler::CommitLogModelFilter, Handler::CommitLogFilters)),
        (Source::CommitLogFilters, EventKind::ActiveFilterDataSwitched) => Some(oneHandler(Handler::CommitLogFiltersView)),
        (Source::CommitLogFilters, EventKind::ActiveFilterSwitched) => Some(oneHandler(Handler::CommitLogFiltersComboBox)),
        (Source::CommitLogFilters, EventKind::FilterAdded) => Some(oneHandler(Handler::CommitLogFiltersComboBox)),
        (Source::CommitLogFilters, EventKind::FiltersUpdated) => Some(oneHandler(Handler::ConfigStore)),
        (Source::CommitLogFiltersComboBox, EventKind::ActiveFilterChosen) => Some(oneHandler(Handler::CommitLogFilters)),
        (Source::CommitLogModelFilter, EventKind::RefilterRequested) => Some(twoHandlers(Handler::CommitLogView, Handler::CommitLogModelFilter)),
        (Source::CommitLogModelFilter, EventKind::RefilterEnded) => Some(oneHandler(Handler::CommitLogView)),
        (Source::CommitLogModelFilter, EventKind::InvalidAuthorTextInputted) => Some(oneHandler(Handler::CommitLogAuthorFilterEntry)),
        (Source::CommitLogModelFilter, EventKind::InvalidSummaryTextInputted) => Some(oneHandler(Handler::CommitLogSummaryFilterEntry)),
        (Source::CommitLogModelFilter, EventKind::ValidAuthorTextInputted) => Some(oneHandler(Handler::CommitLogAuthorFilterEntry)),
        (Source::CommitLogModelFilter, EventKind::ValidSummaryTextInputted) => Some(oneHandler(Handler::CommitLogSummaryFilterEntry)),
        (Source::CommitLogSaveFilterButton, EventKind::OpenDialogRequested) => Some(oneHandler(Handler::CommitLogSaveFilterDialog)),
        (Source::CommitLogSaveFilterDialog, EventKind::FilterNameChosen) => Some(oneHandler(Handler::CommitLogFilters)),
        (Source::CommitLogSaveFilterDialogWidget, EventKind::DialogResponded) => Some(oneHandler(Handler::CommitLogSaveFilterDialog)),
        (Source::CommitLogSaveFilterDialogWidget, EventKind::TextEntered) => Some(oneHandler(Handler::CommitLogSaveFilterDialog)),
        (Source::CommitLogShowFilterButton, EventKind::Toggled) => Some(oneHandler(Handler::CommitLogFiltersView)),
        (Source::CommitLogSummaryFilterCaseButton, EventKind::Toggled) => Some(twoHandlers(Handler::CommitLogModelFilter, Handler::CommitLogFilters)),
        (Source::CommitLogSummaryFilterEntry, EventKind::TextEntered) => Some(twoHandlers(Handler::CommitLogModelFilter, Handler::CommitLogFilters)),
        (Source::CommitLogSummaryFilterRegexButton, EventKind::Toggled) => Some(twoHandlers(Handler::CommitLogModelFilter, Handler::CommitLogFilters)),
        (Source::CommitLogView, EventKind::CommitSelected) => Some(oneHandler(Handler::CommitDiffView)),
        (Source::CommitLogView, EventKind::CommitUnselected) => Some(oneHandler(Handler::CommitDiffView)),
        (Source::CommitLogViewWidget, EventKind::RightClicked) => Some(noHandler()),
        (Source::CommitLogViewWidget, EventKind::RowActivated) => Some(noHandler()),
        (Source::CommitLogViewWidget, EventKind::SelectionChanged) => Some(oneHandler(Handler::CommitLogView)),
        (Source::CommitMessageView, EventKind::BufferChanged) => Some(oneHandler(Handler::CommitMessageView)),
        (Source::CommitMessageView, EventKind::Emptied) => Some(oneHandler(Handler::CommitButton)),
        (Source::CommitMessageView, EventKind::Filled) => Some(oneHandler(Handler::CommitButton)),
        (Source::CommitMessageView, EventKind::ZoomRequested) => Some(oneHandler(Handler::CommitMessageView)),
        (Source::DiffAndCommitPane, EventKind::PositionChanged) => Some(oneHandler(Handler::ConfigStore)),
        (Source::DiffView, EventKind::ZoomRequested) => Some(oneHandler(Handler::DiffView)),
        (Source::FileChangesPane, EventKind::PositionChanged) => Some(oneHandler(Handler::ConfigStore)),
        (Source::MainPane, EventKind::PositionChanged) => Some(oneHandler(Handler::ConfigStore)),
        (Source::MainStack, EventKind::ActivePageChanged) => Some(twoHandlers(Handler::ToolBarStack, Handler::ConfigStore)),
        (Source::RefreshButton, EventKind::Clicked) => Some(oneHandler(Handler::RefreshButton)),
        (Source::RefreshButton, EventKind::RefreshRequested) => Some(oneHandler(Handler::Repository)),
        (Source::Repository, EventKind::AddedToStaged) => Some(twoHandlers(Handler::StagedChangesStore, Handler::CommitButton)),
        (Source::Repository, EventKind::AddedToUnstaged) => Some(oneHandler(Handler::UnstagedChangesStore)),
        (Source::Repository, EventKind::AmendedCommit) => Some(twoHandlers(Handler::StagedChangesStore, Handler::CommitAmendCheckbox)),
        (Source::Repository, EventKind::Committed) => Some(threeHandlers(Handler::StagedChangesStore, Handler::CommitMessageView, Handler::CommitAmendCheckbox)),
        (Source::Repository, EventKind::RemovedFromStaged) => Some(twoHandlers(Handler::StagedChangesStore, Handler::CommitButton)),
        (Source::Repository, EventKind::RemovedFromUnstaged) => Some(oneHandler(Handler::UnstagedChangesStore)),
        (Source::Repository, EventKind::Refreshed) => Some(twoHandlers(Handler::UnstagedChangesStore, Handler::StagedChangesStore)),
        (Source::Repository, EventKind::UpdatedInStaged) => Some(oneHandler(Handler::StagedChangesStore)),
        (Source::Repository, EventKind::UpdatedInUnstaged) => Some(oneHandler(Handler::UnstagedChangesStore)),
        (Source::StagedChangesStore, EventKind::Refreshed) => Some(oneHandler(Handler::StagedChangesView)),
        (Source::StagedChangesView, EventKind::FileChangeRefreshed) => Some(oneHandler(Handler::DiffView)),
        (Source::StagedChangesView, EventKind::FileChangeSelected) => Some(twoHandlers(Handler::DiffView, Handler::UnstagedChangesView)),
        (Source::StagedChangesView, EventKind::FileChangeUnselected) => Some(oneHandler(Handler::DiffView)),
        (Source::StagedChangesView, EventKind::RightClicked) => Some(oneHandler(Handler::StagedChangesView)),
        (Source::StagedChangesView, EventKind::RowActivated) => Some(oneHandler(Handler::StagedChangesView)),
        (Source::StagedChangesView, EventKind::SelectionChanged) => Some(oneHandler(Handler::StagedChangesView)),
        (Source::StagedChangesView, EventKind::UnstageRequested) => Some(oneHandler(Handler::Repository)),
        (Source::UnstagedChangesStore, EventKind::Refreshed) => Some(oneHandler(Handler::UnstagedChangesView)),
        (Source::UnstagedChangesView, EventKind::FileChangeRefreshed) => Some(oneHandler(Handler::DiffView)),
        (Source::UnstagedChangesView, EventKind::FileChangeSelected) => Some(twoHandlers(Handler::DiffView, Handler::StagedChangesView)),
        (Source::UnstagedChangesView, EventKind::FileChangeUnselected) => Some(oneHandler(Handler::DiffView)),
        (Source::UnstagedChangesView, EventKind::RightClicked) => Some(oneHandler(Handler::UnstagedChangesView)),
        (Source::UnstagedChangesView, EventKind::RowActivated) => Some(oneHandler(Handler::UnstagedChangesView)),
        (Source::UnstagedChangesView, EventKind::SelectionChanged) => Some(oneHandler(Handler::UnstagedChangesView)),
        (Source::UnstagedChangesView, EventKind::StageRequested) => Some(oneHandler(Handler::Repository)),
        _ => None,
    }
}

/// Whether `kind` is a request that only the repository can carry out.
pub open spec fn isRepositoryRequest(kind: EventKind) -> bool {
    ||| kind == EventKind::StageRequested
    ||| kind == EventKind::UnstageRequested
    ||| kind == EventKind::CommitRequested
    ||| kind == EventKind::AmendCommitRequested
    ||| kind == EventKind::RefreshRequested
}

/// A request to stage, unstage, commit, amend or refresh is delivered to the
/// repository and to nothing else, whichever part of the application sent it.
pub proof fn lemma_requests_reach_only_the_repository(source: Source, kind: EventKind)
    requires
        isRepositoryRequest(kind),
        routeOf(source, kind) is Some,
    ensures
        routeOf(source, kind) == Some(seq![Handler::Repository]),
{
}

/// A file change selected in one list is shown by the diff view and unselects
/// the other list.
pub proof fn lemma_selection_in_one_list_clears_the_other()
    ensures
        routeOf(Source::UnstagedChangesView, EventKind::FileChangeSelected)
            == Some(seq![Handler::DiffView, Handler::StagedChangesView]),
        routeOf(Source::StagedChangesView, EventKind::FileChangeSelected)
            == Some(seq![Handler::DiffView, Handler::UnstagedChangesView]),
{
}

/// What the repository reports of the staged list reaches the staged store and
/// never the unstaged one, and the other way round.
pub proof fn lemma_repository_reports_reach_their_store(kind: EventKind)
    requires
        routeOf(Source::Repository, kind) is Some,
    ensures
        ({
            let handlers = routeOf(Source::Repository, kind)->0;
            &&& (kind == EventKind::AddedToStaged || kind == EventKind::RemovedFromStaged
                || kind == EventKind::UpdatedInStaged) ==> handlers[0] == Handler::StagedChangesStore
                && !handlers.contains(Handler::UnstagedChangesStore)
            &&& (kind == EventKind::AddedToUnstaged || kind == EventKind::RemovedFromUnstaged
                || kind == EventKind::UpdatedInUnstaged) ==> handlers[0] == Handler::UnstagedChangesStore
                && !handlers.contains(Handler::StagedChangesStore)
            &&& kind == EventKind::Refreshed ==> handlers.contains(Handler::StagedChangesStore)
                && handlers.contains(Handler::UnstagedChangesStore)
        }),
{
    let handlers = routeOf(Source::Repository, kind)->0;
    if kind == EventKind::AddedToStaged || kind == EventKind::RemovedFromStaged {
        assert(handlers[1] != Handler::UnstagedChangesStore);
    }
    if kind == EventKind::Refreshed {
        assert(handlers[0] == Handler::UnstagedChangesStore);
        assert(handlers[1] == Handler::StagedChangesStore);
    }
}

/// No handler gets one event twice.
pub proof fn lemma_routes_have_no_repeats(source: Source, kind: EventKind)
    requires
        routeOf(source, kind) is Some,
    ensures
        routeOf(source, kind)->0.no_duplicates(),
{
}

} // verus!

//! Properties that tie the repository's reports to the lists that follow them.
use vstd::prelude::*;
use crate::changes_store_events::{listStoreAccepts, listStoreAfter};
use crate::event::RepositoryEventView;
use crate::file_change::FileChangeView;
use crate::file_changes_store::{allKnown, indexOfPath, lemma_indexOfPath};
use crate::repository::listOutcome;

verus! {

/// The path that a report about one file change concerns, if any.
pub open spec fn eventPath(event: RepositoryEventView) -> Option<Seq<char>> {
    match event {
        RepositoryEventView::AddedToStaged(c) => Some(c.path),
        RepositoryEventView::AddedToUnstaged(c) => Some(c.path),
        RepositoryEventView::RemovedFromStaged(c) => Some(c.path),
        RepositoryEventView::RemovedFromUnstaged(c) => Some(c.path),
        RepositoryEventView::UpdatedInStaged(o, n) => if o.path == n.path { Some(o.path) } else { None },
        RepositoryEventView::UpdatedInUnstaged(o, n) => if o.path == n.path { Some(o.path) } else { None },
        _ => None,
    }
}

/// What staging or unstaging a change reports of the other list is at most
/// one event, and it concerns the path of that change alone.
pub proof fn lemma_outcome_concerns_path(olds: Seq<FileChangeView>, news: Seq<FileChangeView>, path: Seq<char>, staged: bool)
    ensures
        listOutcome(olds, news, path, staged).len() <= 1,
        forall|i: int|
            0 <= i < listOutcome(olds, news, path, staged).len() ==> eventPath(
                #[trigger] listOutcome(olds, news, path, staged)[i],
            ) == Some(path),
{
    lemma_indexOfPath(olds, path);
    lemma_indexOfPath(news, path);
}

/// Lists that show what the repository held before staging a change from
/// the unstaged list accept everything staging reports: the removal from the
/// unstaged list and the event about the staged one, given that the staged
/// changes collected afterwards all have labelled statuses.
pub proof fn lemma_staging_report_accepted(
    unstagedShown: Seq<FileChangeView>,
    stagedShown: Seq<FileChangeView>,
    fileChange: FileChangeView,
    newUnstaged: Seq<FileChangeView>,
    newStaged: Seq<FileChangeView>,
)
    requires
        indexOfPath(unstagedShown, fileChange.path) >= 0,
        allKnown(newStaged),
    ensures
        listStoreAccepts(unstagedShown, RepositoryEventView::RemovedFromUnstaged(fileChange), newUnstaged, false),
        forall|i: int|
            0 <= i < listOutcome(stagedShown, newStaged, fileChange.path, true).len() ==> listStoreAccepts(
                stagedShown,
                #[trigger] listOutcome(stagedShown, newStaged, fileChange.path, true)[i],
                newStaged,
                true,
            ),
{
    lemma_indexOfPath(stagedShown, fileChange.path);
    lemma_indexOfPath(newStaged, fileChange.path);
}

/// Lists that show what the repository held before unstaging a change from
/// the staged list accept everything unstaging reports.
pub proof fn lemma_unstaging_report_accepted(
    unstagedShown: Seq<FileChangeView>,
    stagedShown: Seq<FileChangeView>,
    fileChange: FileChangeView,
    newUnstaged: Seq<FileChangeView>,
    newStaged: Seq<FileChangeView>,
)
    requires
        indexOfPath(stagedShown, fileChange.path) >= 0,
        allKnown(newUnstaged),
    ensures
        listStoreAccepts(stagedShown, RepositoryEventView::RemovedFromStaged(fileChange), newStaged, true),
        forall|i: int|
            0 <= i < listOutcome(unstagedShown, newUnstaged, fileChange.path, false).len() ==> listStoreAccepts(
                unstagedShown,
                #[trigger] listOutcome(unstagedShown, newUnstaged, fileChange.path, false)[i],
                newUnstaged,
                false,
            ),
{
    lemma_indexOfPath(unstagedShown, fileChange.path);
    lemma_indexOfPath(newUnstaged, fileChange.path);
}

/// A list after it followed the events, in order, while the repository holds `current`.
pub open spec fn applyListEvents(
    store: Seq<FileChangeView>,
    events: Seq<RepositoryEventView>,
    current: Seq<FileChangeView>,
) -> Seq<FileChangeView>
    decreases events.len(),
{
    if events.len() == 0 {
        store
    } else {
        applyListEvents(listStoreAfter(store, events[0], current), events.drop_first(), current)
    }
}

/// Whether no two file changes of a list have the same path.
pub open spec fn uniquePaths(fileChanges: Seq<FileChangeView>) -> bool {
    forall|i: int, j: int|
        0 <= i < fileChanges.len() && 0 <= j < fileChanges.len() && i != j ==> #[trigger] fileChanges[i].path
            != #[trigger] fileChanges[j].path
}

/// What staging or unstaging reports of the other list brings a list that
/// showed the old changes in step with the new ones at the change's path:
/// after following the report, the list holds the path exactly when the
/// newly collected changes do, with their status. So a path whose status
/// changed is reported as updated, one that left as removed and one that
/// came as added.
pub proof fn lemma_outcome_brings_path_in_step(
    olds: Seq<FileChangeView>,
    news: Seq<FileChangeView>,
    path: Seq<char>,
    staged: bool,
)
    requires
        uniquePaths(olds),
    ensures
        ({
            let after = applyListEvents(olds, listOutcome(olds, news, path, staged), news);
            &&& (indexOfPath(after, path) >= 0) == (indexOfPath(news, path) >= 0)
            &&& indexOfPath(news, path) >= 0 ==> after[indexOfPath(after, path)].status
                == news[indexOfPath(news, path)].status
        }),
{
    lemma_indexOfPath(olds, path);
    lemma_indexOfPath(news, path);
    let o = indexOfPath(olds, path);
    let n = indexOfPath(news, path);
    let events = listOutcome(olds, news, path, staged);
    let after = applyListEvents(olds, events, news);
    if events.len() == 1 {
        let once = listStoreAfter(olds, events[0], news);
        assert(events.drop_first() =~= Seq::<RepositoryEventView>::empty());
        assert(applyListEvents(once, events.drop_first(), news) == once);
        assert(after == once);
        if o >= 0 && n >= 0 {
            assert(once == olds.update(o, FileChangeView { status: news[n].status, ..olds[o] }));
            lemma_indexOfPath(once, path);
            assert(once[o].path == path);
            assert forall|j: int| 0 <= j < o implies #[trigger] once[j].path != path by {
                assert(once[j] == olds[j]);
            }
            assert(indexOfPath(once, path) == o);
        } else if o >= 0 {
            assert(once == olds.remove(o));
            lemma_indexOfPath(once, path);
            assert forall|j: int| 0 <= j < once.len() implies #[trigger] once[j].path != path by {
                if j < o {
                    assert(once[j] == olds[j]);
                } else {
                    assert(once[j] == olds[j + 1]);
                    assert(olds[j + 1].path != olds[o].path);
                }
            }
        } else {
            assert(n >= 0);
            assert(once == olds.push(news[n]));
            lemma_indexOfPath(once, path);
            assert forall|j: int| 0 <= j < olds.len() implies #[trigger] once[j].path != path by {
                assert(once[j] == olds[j]);
            }
            assert(once[olds.len() as int].path == path);
            assert(indexOfPath(once, path) == olds.len());
        }
    } else {
        assert(events.len() == 0);
        assert(after == olds);
    }
}

} // verus!

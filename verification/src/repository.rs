//! The decisions of the repository: how git status flags become file
//! changes, which index edits staging needs, which paths unstaging resets,
//! and what is reported afterwards. Git itself is driven by the caller.
use vstd::prelude::*;
use crate::event::{RepositoryEvent, RepositoryEventView, eventViews};
use crate::file_change::{FileChange, FileChangeUpdate, FileChangeView, viewsOf, copyOptionalText};
use crate::file_changes_store::{indexOfPath, lemma_indexOfPath};
use crate::grouped_file_changes::{GroupedFileChanges, StagedChanges, UnstagedChanges};
use crate::status::statusLabel;
use crate::text::textEq;

verus! {

/// Git status flag: new in the index.
pub const INDEX_NEW: u32 = 1;
/// Git status flag: modified in the index.
pub const INDEX_MODIFIED: u32 = 2;
/// Git status flag: deleted in the index.
pub const INDEX_DELETED: u32 = 4;
/// Git status flag: renamed in the index.
pub const INDEX_RENAMED: u32 = 8;
/// Git status flag: type changed in the index.
pub const INDEX_TYPECHANGE: u32 = 16;
/// Git status flag: new in the working directory.
pub const WT_NEW: u32 = 128;
/// Git status flag: modified in the working directory.
pub const WT_MODIFIED: u32 = 256;
/// Git status flag: deleted in the working directory.
pub const WT_DELETED: u32 = 512;
/// Git status flag: type changed in the working directory.
pub const WT_TYPECHANGE: u32 = 1024;
/// Git status flag: renamed in the working directory.
pub const WT_RENAMED: u32 = 2048;

/// The status of one path as git reports it: its flags, its path and, for
/// renames, the new paths of the rename between HEAD and the index and of
/// the one between the index and the working directory.
#[derive(Debug)]
pub struct StatusEntry {
    pub flags: u32,
    pub path: String,
    pub headToIndexNewPath: Option<String>,
    pub indexToWorkdirNewPath: Option<String>,
}

/// Whether the flags hold the flag.
pub open spec fn hasFlag(flags: u32, flag: u32) -> bool {
    flags & flag != 0
}

/// The first working directory flag present, in the order new, modified,
/// deleted, type change, renamed.
pub open spec fn unstagedFlag(flags: u32) -> Option<u32> {
    if hasFlag(flags, WT_NEW) {
        Some(WT_NEW)
    } else if hasFlag(flags, WT_MODIFIED) {
        Some(WT_MODIFIED)
    } else if hasFlag(flags, WT_DELETED) {
        Some(WT_DELETED)
    } else if hasFlag(flags, WT_TYPECHANGE) {
        Some(WT_TYPECHANGE)
    } else if hasFlag(flags, WT_RENAMED) {
        Some(WT_RENAMED)
    } else {
        None
    }
}

/// The first index flag present, in the order new, modified, deleted, type
/// change, renamed.
pub open spec fn stagedFlag(flags: u32) -> Option<u32> {
    if hasFlag(flags, INDEX_NEW) {
        Some(INDEX_NEW)
    } else if hasFlag(flags, INDEX_MODIFIED) {
        Some(INDEX_MODIFIED)
    } else if hasFlag(flags, INDEX_DELETED) {
        Some(INDEX_DELETED)
    } else if hasFlag(flags, INDEX_TYPECHANGE) {
        Some(INDEX_TYPECHANGE)
    } else if hasFlag(flags, INDEX_RENAMED) {
        Some(INDEX_RENAMED)
    } else {
        None
    }
}

/// The status name of a single flag.
pub open spec fn flagName(flag: u32) -> Seq<char> {
    if flag == WT_NEW {
        "WT_NEW"@
    } else if flag == WT_MODIFIED {
        "WT_MODIFIED"@
    } else if flag == WT_DELETED {
        "WT_DELETED"@
    } else if flag == WT_TYPECHANGE {
        "WT_TYPECHANGE"@
    } else if flag == WT_RENAMED {
        "WT_RENAMED"@
    } else if flag == INDEX_NEW {
        "INDEX_NEW"@
    } else if flag == INDEX_MODIFIED {
        "INDEX_MODIFIED"@
    } else if flag == INDEX_DELETED {
        "INDEX_DELETED"@
    } else if flag == INDEX_TYPECHANGE {
        "INDEX_TYPECHANGE"@
    } else {
        "INDEX_RENAMED"@
    }
}

/// Whether `flag` is one of the working directory status flags.
pub open spec fn isWorkdirFlag(flag: u32) -> bool {
    flag == WT_NEW || flag == WT_MODIFIED || flag == WT_DELETED || flag == WT_TYPECHANGE || flag == WT_RENAMED
}

/// Whether `flag` is one of the index status flags.
pub open spec fn isIndexFlag(flag: u32) -> bool {
    flag == INDEX_NEW || flag == INDEX_MODIFIED || flag == INDEX_DELETED || flag == INDEX_TYPECHANGE
        || flag == INDEX_RENAMED
}

/// The working directory flag for the same kind of change as the index flag `flag`.
pub open spec fn workdirFlagOf(flag: u32) -> u32 {
    if flag == INDEX_NEW {
        WT_NEW
    } else if flag == INDEX_MODIFIED {
        WT_MODIFIED
    } else if flag == INDEX_DELETED {
        WT_DELETED
    } else if flag == INDEX_TYPECHANGE {
        WT_TYPECHANGE
    } else {
        WT_RENAMED
    }
}

/// Status names tell the flags apart: distinct flags get distinct names; a
/// working directory flag's name starts with "WT_" and an index flag's with
/// "INDEX_", followed by the same kind of change for the two flags of one
/// kind; and the label of a name is that of its kind of change: "New",
/// "Modified", "Deleted" or "Renamed", none for a type change.
pub proof fn lemma_flag_names_tell_flags_apart(flag: u32, other: u32)
    requires
        isWorkdirFlag(flag) || isIndexFlag(flag),
        isWorkdirFlag(other) || isIndexFlag(other),
    ensures
        flag != other ==> flagName(flag) != flagName(other),
        isWorkdirFlag(flag) ==> flagName(flag).take(3) == "WT_"@,
        isIndexFlag(flag) ==> flagName(flag).take(6) == "INDEX_"@,
        isIndexFlag(flag) ==> flagName(flag).skip(6) == flagName(workdirFlagOf(flag)).skip(3),
        (flag == WT_NEW || flag == INDEX_NEW) ==> statusLabel(flagName(flag)) == Some("New"@),
        (flag == WT_MODIFIED || flag == INDEX_MODIFIED) ==> statusLabel(flagName(flag)) == Some("Modified"@),
        (flag == WT_DELETED || flag == INDEX_DELETED) ==> statusLabel(flagName(flag)) == Some("Deleted"@),
        (flag == WT_RENAMED || flag == INDEX_RENAMED) ==> statusLabel(flagName(flag)) == Some("Renamed"@),
        (flag == WT_TYPECHANGE || flag == INDEX_TYPECHANGE) ==> statusLabel(flagName(flag)) is None,
{
    reveal_strlit("WT_");
    reveal_strlit("INDEX_");
    reveal_strlit("WT_NEW");
    reveal_strlit("WT_MODIFIED");
    reveal_strlit("WT_DELETED");
    reveal_strlit("WT_TYPECHANGE");
    reveal_strlit("WT_RENAMED");
    reveal_strlit("INDEX_NEW");
    reveal_strlit("INDEX_MODIFIED");
    reveal_strlit("INDEX_DELETED");
    reveal_strlit("INDEX_TYPECHANGE");
    reveal_strlit("INDEX_RENAMED");
    reveal_strlit("Added");
    reveal_strlit("Modified");
    assert("WT_DELETED"@[3] != "WT_RENAMED"@[3]);
    assert("WT_TYPECHANGE"@[0] != "INDEX_DELETED"@[0]);
    assert("WT_TYPECHANGE"@[0] != "INDEX_RENAMED"@[0]);
    assert("INDEX_DELETED"@[6] != "INDEX_RENAMED"@[6]);
    let name = flagName(flag);
    if isWorkdirFlag(flag) {
        assert(name.take(3) =~= "WT_"@);
    } else {
        assert(name.take(6) =~= "INDEX_"@);
        assert(name.skip(6) =~= flagName(workdirFlagOf(flag)).skip(3));
    }
    assert(name != "Added"@ && name != "Modified"@) by {
        assert("Added"@[0] != name[0]);
        assert("Modified"@[0] != name[0]);
    }
    if flag == WT_TYPECHANGE || flag == INDEX_TYPECHANGE {
        assert(name != "WT_NEW"@ && name != "INDEX_NEW"@ && name != "WT_MODIFIED"@ && name != "INDEX_MODIFIED"@);
        assert(name != "WT_DELETED"@ && name != "INDEX_DELETED"@);
        assert(name != "WT_RENAMED"@ && name != "INDEX_RENAMED"@);
    }
}

/// The file change for a flag of an entry: a rename takes the new path from
/// `renamedPath` and keeps the entry's path as the old one.
pub open spec fn changeOf(entry: StatusEntry, flag: u32, renamedFlag: u32, renamedPath: Option<String>) -> FileChangeView {
    if flag == renamedFlag {
        FileChangeView { status: flagName(flag), path: renamedPath->0@, oldPath: Some(entry.path@) }
    } else {
        FileChangeView { status: flagName(flag), path: entry.path@, oldPath: None }
    }
}

/// The unstaged change that an entry shows, if any.
pub open spec fn unstagedChangeOf(entry: StatusEntry) -> Option<FileChangeView> {
    match unstagedFlag(entry.flags) {
        Some(flag) => Some(changeOf(entry, flag, WT_RENAMED, entry.indexToWorkdirNewPath)),
        None => None,
    }
}

/// The staged change that an entry shows, if any.
pub open spec fn stagedChangeOf(entry: StatusEntry) -> Option<FileChangeView> {
    match stagedFlag(entry.flags) {
        Some(flag) => Some(changeOf(entry, flag, INDEX_RENAMED, entry.headToIndexNewPath)),
        None => None,
    }
}

/// A rename of an entry comes with the new path it needs.
pub open spec fn renamePathsPresent(entry: StatusEntry) -> bool {
    &&& unstagedFlag(entry.flags) == Some(WT_RENAMED) ==> entry.indexToWorkdirNewPath is Some
    &&& stagedFlag(entry.flags) == Some(INDEX_RENAMED) ==> entry.headToIndexNewPath is Some
}

/// Whether git status flags hold a working directory or an index change that
/// the lists show.
pub open spec fn hasListedStatus(entry: StatusEntry) -> bool {
    unstagedFlag(entry.flags) is Some || stagedFlag(entry.flags) is Some
}

/// The unstaged changes of entries, in their order.
pub open spec fn collectUnstaged(entries: Seq<StatusEntry>) -> Seq<FileChangeView>
    decreases entries.len(),
{
    if entries.len() == 0 {
        Seq::empty()
    } else {
        let before = collectUnstaged(entries.drop_last());
        match unstagedChangeOf(entries.last()) {
            Some(change) => before.push(change),
            None => before,
        }
    }
}

/// The staged changes of entries, in their order.
pub open spec fn collectStaged(entries: Seq<StatusEntry>) -> Seq<FileChangeView>
    decreases entries.len(),
{
    if entries.len() == 0 {
        Seq::empty()
    } else {
        let before = collectStaged(entries.drop_last());
        match stagedChangeOf(entries.last()) {
            Some(change) => before.push(change),
            None => before,
        }
    }
}

/// The first present flag of `flags` among the working directory flags, or
/// among the index flags.
fn firstFlag(flags: u32, inIndex: bool) -> (flag: Option<u32>)
    ensures
        flag == (if inIndex { stagedFlag(flags) } else { unstagedFlag(flags) }),
{
    if inIndex {
        if flags & INDEX_NEW != 0 {
            Some(INDEX_NEW)
        } else if flags & INDEX_MODIFIED != 0 {
            Some(INDEX_MODIFIED)
        } else if flags & INDEX_DELETED != 0 {
            Some(INDEX_DELETED)
        } else if flags & INDEX_TYPECHANGE != 0 {
            Some(INDEX_TYPECHANGE)
        } else if flags & INDEX_RENAMED != 0 {
            Some(INDEX_RENAMED)
        } else {
            None
        }
    } else {
        if flags & WT_NEW != 0 {
            Some(WT_NEW)
        } else if flags & WT_MODIFIED != 0 {
            Some(WT_MODIFIED)
        } else if flags & WT_DELETED != 0 {
            Some(WT_DELETED)
        } else if flags & WT_TYPECHANGE != 0 {
            Some(WT_TYPECHANGE)
        } else if flags & WT_RENAMED != 0 {
            Some(WT_RENAMED)
        } else {
            None
        }
    }
}

/// Whether an entry shows a change in the working directory or in the index.
pub fn isListedStatus(entry: &StatusEntry) -> (listed: bool)
    ensures
        listed == hasListedStatus(*entry),
{
    firstFlag(entry.flags, false).is_some() || firstFlag(entry.flags, true).is_some()
}

/// Whether an entry's renames come with the new paths they need.
pub fn hasRenamePaths(entry: &StatusEntry) -> (present: bool)
    ensures
        present == renamePathsPresent(*entry),
{
    let unstagedRenameMissing = firstFlag(entry.flags, false) == Some(WT_RENAMED) && entry.indexToWorkdirNewPath.is_none();
    let stagedRenameMissing = firstFlag(entry.flags, true) == Some(INDEX_RENAMED) && entry.headToIndexNewPath.is_none();
    !unstagedRenameMissing && !stagedRenameMissing
}

/// The status name of a single flag.
pub fn statusName(flag: u32) -> (name: String)
    ensures
        name@ == flagName(flag),
{
    let text = if flag == WT_NEW {
        "WT_NEW"
    } else if flag == WT_MODIFIED {
        "WT_MODIFIED"
    } else if flag == WT_DELETED {
        "WT_DELETED"
    } else if flag == WT_TYPECHANGE {
        "WT_TYPECHANGE"
    } else if flag == WT_RENAMED {
        "WT_RENAMED"
    } else if flag == INDEX_NEW {
        "INDEX_NEW"
    } else if flag == INDEX_MODIFIED {
        "INDEX_MODIFIED"
    } else if flag == INDEX_DELETED {
        "INDEX_DELETED"
    } else if flag == INDEX_TYPECHANGE {
        "INDEX_TYPECHANGE"
    } else {
        "INDEX_RENAMED"
    };
    String::from_str(text)
}

/// Adds the change that an entry shows in the working directory (or, with
/// `inIndex`, in the index) to `fileChanges`; tells whether there was one.
fn maybeAddToFileChanges(fileChangeStatus: &StatusEntry, fileChanges: &mut Vec<FileChange>, inIndex: bool) -> (found: bool)
    requires
        renamePathsPresent(*fileChangeStatus),
    ensures
        ({
            let change = if inIndex { stagedChangeOf(*fileChangeStatus) } else { unstagedChangeOf(*fileChangeStatus) };
            &&& found == change is Some
            &&& viewsOf(final(fileChanges)@) == (match change {
                Some(c) => viewsOf(old(fileChanges)@).push(c),
                None => viewsOf(old(fileChanges)@),
            })
        }),
{
    let renamedFlag = if inIndex { INDEX_RENAMED } else { WT_RENAMED };
    match firstFlag(fileChangeStatus.flags, inIndex) {
        Some(flag) => {
            let fileChange = if flag == renamedFlag {
                let renamedPath = if inIndex {
                    copyOptionalText(&fileChangeStatus.headToIndexNewPath)
                } else {
                    copyOptionalText(&fileChangeStatus.indexToWorkdirNewPath)
                };
                FileChange {
                    status: statusName(flag),
                    path: renamedPath.unwrap(),
                    oldPath: Some(fileChangeStatus.path.clone()),
                }
            } else {
                FileChange { status: statusName(flag), path: fileChangeStatus.path.clone(), oldPath: None }
            };
            let ghost before = viewsOf(fileChanges@);
            fileChanges.push(fileChange);
            assert(viewsOf(fileChanges@) =~= before.push(fileChange@));
            true
        },
        None => false,
    }
}

/// The unstaged and staged changes that git status entries show, in their
/// order. Every entry must show one of the two.
pub fn collectFileChanges(fileStatuses: &[StatusEntry]) -> (changes: GroupedFileChanges)
    requires
        forall|i: int| 0 <= i < fileStatuses@.len() ==> renamePathsPresent(#[trigger] fileStatuses@[i]),
        forall|i: int| 0 <= i < fileStatuses@.len() ==> hasListedStatus(#[trigger] fileStatuses@[i]),
    ensures
        changes.unstaged@ == collectUnstaged(fileStatuses@),
        changes.staged@ == collectStaged(fileStatuses@),
{
    let mut unstaged: Vec<FileChange> = Vec::new();
    let mut staged: Vec<FileChange> = Vec::new();
    let mut i: usize = 0;
    assert(viewsOf(unstaged@) =~= Seq::<FileChangeView>::empty());
    assert(viewsOf(staged@) =~= Seq::<FileChangeView>::empty());
    while i < fileStatuses.len()
        invariant
            i <= fileStatuses@.len(),
            forall|j: int| 0 <= j < fileStatuses@.len() ==> renamePathsPresent(#[trigger] fileStatuses@[j]),
            forall|j: int| 0 <= j < fileStatuses@.len() ==> hasListedStatus(#[trigger] fileStatuses@[j]),
            viewsOf(unstaged@) == collectUnstaged(fileStatuses@.take(i as int)),
            viewsOf(staged@) == collectStaged(fileStatuses@.take(i as int)),
        decreases fileStatuses@.len() - i,
    {
        let entry = &fileStatuses[i];
        assert(renamePathsPresent(fileStatuses@[i as int]));
        assert(hasListedStatus(fileStatuses@[i as int]));
        let mut statusFound = false;
        statusFound = maybeAddToFileChanges(entry, &mut unstaged, false) || statusFound;
        statusFound = maybeAddToFileChanges(entry, &mut staged, true) || statusFound;
        assert(statusFound);
        assert(fileStatuses@.take(i + 1).drop_last() =~= fileStatuses@.take(i as int));
        i = i + 1;
    }
    assert(fileStatuses@.take(i as int) =~= fileStatuses@);
    GroupedFileChanges { unstaged: UnstagedChanges(unstaged), staged: StagedChanges(staged) }
}

/// The changes shown while amending the last commit: the unstaged changes
/// that the entries show (entries without one are passed over) and, as the
/// staged ones, the changes of the last commit.
pub fn collectFileChangesToAmend(fileStatuses: &[StatusEntry], lastCommitChanges: Vec<FileChange>) -> (changes: GroupedFileChanges)
    requires
        forall|i: int| 0 <= i < fileStatuses@.len() ==> renamePathsPresent(#[trigger] fileStatuses@[i]),
    ensures
        changes.unstaged@ == collectUnstaged(fileStatuses@),
        changes.staged.0@ == lastCommitChanges@,
{
    let mut unstaged: Vec<FileChange> = Vec::new();
    let mut i: usize = 0;
    assert(viewsOf(unstaged@) =~= Seq::<FileChangeView>::empty());
    while i < fileStatuses.len()
        invariant
            i <= fileStatuses@.len(),
            forall|j: int| 0 <= j < fileStatuses@.len() ==> renamePathsPresent(#[trigger] fileStatuses@[j]),
            viewsOf(unstaged@) == collectUnstaged(fileStatuses@.take(i as int)),
        decreases fileStatuses@.len() - i,
    {
        assert(renamePathsPresent(fileStatuses@[i as int]));
        maybeAddToFileChanges(&fileStatuses[i], &mut unstaged, false);
        assert(fileStatuses@.take(i + 1).drop_last() =~= fileStatuses@.take(i as int));
        i = i + 1;
    }
    assert(fileStatuses@.take(i as int) =~= fileStatuses@);
    GroupedFileChanges { unstaged: UnstagedChanges(unstaged), staged: StagedChanges(lastCommitChanges) }
}

/// "file" for a single path, "files" otherwise.
pub fn getFileWord(paths: &[String]) -> (word: &'static str)
    ensures
        word@ == (if paths@.len() == 1 { "file"@ } else { "files"@ }),
{
    if paths.len() == 1 {
        "file"
    } else {
        "files"
    }
}

/// An edit of the index that staging needs.
#[derive(Debug, PartialEq, Eq)]
pub enum IndexOp {
    AddPath(String),
    RemovePath(String),
}

/// The mathematical value of an `IndexOp`.
pub enum IndexOpView {
    AddPath(Seq<char>),
    RemovePath(Seq<char>),
}

impl View for IndexOp {
    type V = IndexOpView;

    open spec fn view(&self) -> IndexOpView {
        match self {
            IndexOp::AddPath(p) => IndexOpView::AddPath(p@),
            IndexOp::RemovePath(p) => IndexOpView::RemovePath(p@),
        }
    }
}

/// The commit whose tree the index entries of unstaged paths are reset to.
#[derive(Clone, Copy, Debug, PartialEq, Eq, Structural)]
pub enum ResetTarget {
    /// The HEAD commit, or none in an empty repository.
    HeadCommit,
    /// The parent of the HEAD commit, or none for a root commit.
    ParentOfHeadCommit,
}

/// The index edits that stage a change, in order. In normal mode a deletion
/// removes the path, a rename adds the new path and removes the old one,
/// and anything else adds the path; while amending, a deletion removes the
/// path and anything else adds it.
pub open spec fn stagingOps(fileChange: FileChangeView, commitAmendMode: bool) -> Seq<IndexOpView> {
    if fileChange.status == "WT_DELETED"@ {
        seq![IndexOpView::RemovePath(fileChange.path)]
    } else if !commitAmendMode && fileChange.status == "WT_RENAMED"@ {
        seq![IndexOpView::AddPath(fileChange.path), IndexOpView::RemovePath(fileChange.oldPath->0)]
    } else {
        seq![IndexOpView::AddPath(fileChange.path)]
    }
}

/// Staging adds the change's path to the index, except for a deletion, which
/// removes it; only a deletion removes the change's own path. A rename in
/// normal mode adds the new path and also removes the old one. Every edit
/// concerns the change's path or, for such a rename, its old path.
pub proof fn lemma_staging_adds_unless_deleted(fileChange: FileChangeView, commitAmendMode: bool)
    requires
        !commitAmendMode && fileChange.status == "WT_RENAMED"@ ==> fileChange.oldPath is Some,
    ensures
        fileChange.status != "WT_DELETED"@ && !(!commitAmendMode && fileChange.status == "WT_RENAMED"@)
            ==> stagingOps(fileChange, commitAmendMode) == seq![IndexOpView::AddPath(fileChange.path)],
        fileChange.oldPath != Some(fileChange.path) ==> (stagingOps(fileChange, commitAmendMode).contains(
            IndexOpView::RemovePath(fileChange.path),
        ) <==> fileChange.status == "WT_DELETED"@),
        stagingOps(fileChange, commitAmendMode).contains(IndexOpView::AddPath(fileChange.path))
            <==> fileChange.status != "WT_DELETED"@,
        forall|i: int|
            0 <= i < stagingOps(fileChange, commitAmendMode).len() ==> match #[trigger] stagingOps(
                fileChange,
                commitAmendMode,
            )[i] {
                IndexOpView::AddPath(p) => p == fileChange.path,
                IndexOpView::RemovePath(p) => p == fileChange.path || (!commitAmendMode && fileChange.status
                    == "WT_RENAMED"@ && Some(p) == fileChange.oldPath),
            },
{
    reveal_strlit("WT_DELETED");
    reveal_strlit("WT_RENAMED");
    assert("WT_DELETED"@[3] != "WT_RENAMED"@[3]);
    let ops = stagingOps(fileChange, commitAmendMode);
    if fileChange.status == "WT_DELETED"@ {
        assert(ops == seq![IndexOpView::RemovePath(fileChange.path)]);
        assert(ops[0] == IndexOpView::RemovePath(fileChange.path));
        assert(!ops.contains(IndexOpView::AddPath(fileChange.path)));
    } else if !commitAmendMode && fileChange.status == "WT_RENAMED"@ {
        let old = fileChange.oldPath->0;
        assert(ops == seq![IndexOpView::AddPath(fileChange.path), IndexOpView::RemovePath(old)]);
        assert(ops[0] == IndexOpView::AddPath(fileChange.path));
        if fileChange.oldPath != Some(fileChange.path) {
            assert(old != fileChange.path);
            assert(!ops.contains(IndexOpView::RemovePath(fileChange.path))) by {
                if ops.contains(IndexOpView::RemovePath(fileChange.path)) {
                    let i = choose|i: int| 0 <= i < ops.len() && ops[i] == IndexOpView::RemovePath(fileChange.path);
                    assert(i == 0 || i == 1);
                }
            }
        }
    } else {
        assert(ops == seq![IndexOpView::AddPath(fileChange.path)]);
        assert(ops[0] == IndexOpView::AddPath(fileChange.path));
        assert(!ops.contains(IndexOpView::RemovePath(fileChange.path)));
    }
}

/// The paths whose index entries unstaging a change resets: in normal mode
/// the path and, for a rename, the old path; while amending, the path alone.
pub open spec fn unstagingPaths(fileChange: FileChangeView, commitAmendMode: bool) -> Seq<Seq<char>> {
    if !commitAmendMode && fileChange.oldPath is Some {
        seq![fileChange.path, fileChange.oldPath->0]
    } else {
        seq![fileChange.path]
    }
}

/// Unstaging resets the change's path first; only in normal mode, and only
/// for a change with an old path, is the old path reset as well.
pub proof fn lemma_unstaging_resets_the_path(fileChange: FileChangeView, commitAmendMode: bool)
    ensures
        unstagingPaths(fileChange, commitAmendMode).len() >= 1,
        unstagingPaths(fileChange, commitAmendMode)[0] == fileChange.path,
        unstagingPaths(fileChange, commitAmendMode).len() == (if !commitAmendMode && fileChange.oldPath is Some {
            2int
        } else {
            1int
        }),
        unstagingPaths(fileChange, commitAmendMode).len() == 2 ==> Some(
            unstagingPaths(fileChange, commitAmendMode)[1],
        ) == fileChange.oldPath,
{
}

/// What is reported of the list `news` that replaces `olds`, for the path of
/// a change just staged or unstaged: an update where the path is in both
/// with another status, a removal where only the old list has it, and an
/// addition where only the new one has it.
pub open spec fn listOutcome(olds: Seq<FileChangeView>, news: Seq<FileChangeView>, path: Seq<char>, staged: bool) -> Seq<RepositoryEventView> {
    let o = indexOfPath(olds, path);
    let n = indexOfPath(news, path);
    if o >= 0 {
        if n >= 0 {
            if olds[o].status != news[n].status {
                if staged {
                    seq![RepositoryEventView::UpdatedInStaged(olds[o], news[n])]
                } else {
                    seq![RepositoryEventView::UpdatedInUnstaged(olds[o], news[n])]
                }
            } else {
                Seq::empty()
            }
        } else if staged {
            seq![RepositoryEventView::RemovedFromStaged(olds[o])]
        } else {
            seq![RepositoryEventView::RemovedFromUnstaged(olds[o])]
        }
    } else if n >= 0 {
        if staged {
            seq![RepositoryEventView::AddedToStaged(news[n])]
        } else {
            seq![RepositoryEventView::AddedToUnstaged(news[n])]
        }
    } else {
        Seq::empty()
    }
}

/// The file changes of a repository and whether the last commit is being
/// amended; git is driven by the caller, which asks this model what to do
/// and hands back what git reports.
pub struct Repository {
    fileChanges: GroupedFileChanges,
    commitAmendMode: bool,
}

impl Repository {
    /// The unstaged changes held.
    pub closed spec fn unstagedView(&self) -> Seq<FileChangeView> {
        self.fileChanges.unstaged@
    }

    /// The staged changes held.
    pub closed spec fn stagedView(&self) -> Seq<FileChangeView> {
        self.fileChanges.staged@
    }

    /// Whether the last commit is being amended.
    pub closed spec fn amending(&self) -> bool {
        self.commitAmendMode
    }

    /// A repository model in normal mode that holds the collected changes.
    pub fn new(fileChanges: GroupedFileChanges) -> (repository: Self)
        ensures
            repository.unstagedView() == fileChanges.unstaged@,
            repository.stagedView() == fileChanges.staged@,
            !repository.amending(),
    {
        Repository { fileChanges, commitAmendMode: false }
    }

    /// The unstaged changes.
    pub fn getUnstagedChanges(&self) -> (changes: &UnstagedChanges)
        ensures
            changes@ == self.unstagedView(),
    {
        &self.fileChanges.unstaged
    }

    /// The staged changes.
    pub fn getStagedChanges(&self) -> (changes: &StagedChanges)
        ensures
            changes@ == self.stagedView(),
    {
        &self.fileChanges.staged
    }

    /// Whether anything is staged.
    pub fn hasStagedChanges(&self) -> (has: bool)
        ensures
            has == (self.stagedView().len() > 0),
    {
        self.fileChanges.staged.0.len() > 0
    }

    /// Whether the last commit is being amended.
    pub fn isCommitAmendMode(&self) -> (amending: bool)
        ensures
            amending == self.amending(),
    {
        self.commitAmendMode
    }

    /// Replaces the changes with newly collected ones.
    pub fn collectCurrentFileChanges(&mut self, fileChanges: GroupedFileChanges)
        ensures
            final(self).unstagedView() == fileChanges.unstaged@,
            final(self).stagedView() == fileChanges.staged@,
            final(self).amending() == old(self).amending(),
    {
        self.fileChanges = fileChanges;
    }

    /// Enters commit amend mode with the changes collected for it; reports a refresh.
    pub fn enableCommitAmendMode(&mut self, fileChanges: GroupedFileChanges) -> (events: Vec<RepositoryEvent>)
        ensures
            final(self).amending(),
            final(self).unstagedView() == fileChanges.unstaged@,
            final(self).stagedView() == fileChanges.staged@,
            eventViews(events@) == seq![RepositoryEventView::Refreshed],
    {
        self.commitAmendMode = true;
        self.fileChanges = fileChanges;
        self.notifyOnly(RepositoryEvent::Refreshed)
    }

    /// Leaves commit amend mode with freshly collected changes; reports a refresh.
    pub fn disableCommitAmendMode(&mut self, fileChanges: GroupedFileChanges) -> (events: Vec<RepositoryEvent>)
        ensures
            !final(self).amending(),
            final(self).unstagedView() == fileChanges.unstaged@,
            final(self).stagedView() == fileChanges.staged@,
            eventViews(events@) == seq![RepositoryEventView::Refreshed],
    {
        self.commitAmendMode = false;
        self.fileChanges = fileChanges;
        self.notifyOnly(RepositoryEvent::Refreshed)
    }

    /// After a refresh: holds the collected changes and reports a refresh.
    pub fn refresh(&mut self, fileChanges: GroupedFileChanges) -> (events: Vec<RepositoryEvent>)
        ensures
            final(self).amending() == old(self).amending(),
            final(self).unstagedView() == fileChanges.unstaged@,
            final(self).stagedView() == fileChanges.staged@,
            eventViews(events@) == seq![RepositoryEventView::Refreshed],
    {
        self.fileChanges = fileChanges;
        self.notifyOnly(RepositoryEvent::Refreshed)
    }

    /// After a commit: holds the collected changes and reports the commit.
    pub fn finishCommit(&mut self, fileChanges: GroupedFileChanges) -> (events: Vec<RepositoryEvent>)
        ensures
            final(self).amending() == old(self).amending(),
            final(self).unstagedView() == fileChanges.unstaged@,
            final(self).stagedView() == fileChanges.staged@,
            eventViews(events@) == seq![RepositoryEventView::Committed],
    {
        self.fileChanges = fileChanges;
        self.notifyOnly(RepositoryEvent::Committed)
    }

    /// After amending the last commit: holds the collected changes and
    /// reports the amendment.
    pub fn finishAmendCommit(&mut self, fileChanges: GroupedFileChanges) -> (events: Vec<RepositoryEvent>)
        ensures
            final(self).amending() == old(self).amending(),
            final(self).unstagedView() == fileChanges.unstaged@,
            final(self).stagedView() == fileChanges.staged@,
            eventViews(events@) == seq![RepositoryEventView::AmendedCommit],
    {
        self.fileChanges = fileChanges;
        self.notifyOnly(RepositoryEvent::AmendedCommit)
    }

    fn notifyOnly(&self, event: RepositoryEvent) -> (events: Vec<RepositoryEvent>)
        ensures
            eventViews(events@) == seq![event@],
    {
        let ghost v = event@;
        let mut events: Vec<RepositoryEvent> = Vec::new();
        events.push(event);
        assert(eventViews(events@) =~= seq![v]);
        events
    }

    /// The index edits that stage a change.
    pub fn stagingIndexOps(&self, fileChange: &FileChange) -> (ops: Vec<IndexOp>)
        requires
            !self.amending() && fileChange.status@ == "WT_RENAMED"@ ==> fileChange.oldPath is Some,
        ensures
            ops@.map_values(|op: IndexOp| op@) == stagingOps(fileChange@, self.amending()),
    {
        let mut ops: Vec<IndexOp> = Vec::new();
        if textEq(fileChange.status.as_str(), "WT_DELETED") {
            ops.push(IndexOp::RemovePath(fileChange.path.clone()));
        } else if !self.commitAmendMode && textEq(fileChange.status.as_str(), "WT_RENAMED") {
            ops.push(IndexOp::AddPath(fileChange.path.clone()));
            let oldPath = copyOptionalText(&fileChange.oldPath);
            ops.push(IndexOp::RemovePath(oldPath.unwrap()));
        } else {
            ops.push(IndexOp::AddPath(fileChange.path.clone()));
        }
        assert(ops@.map_values(|op: IndexOp| op@) =~= stagingOps(fileChange@, self.amending()));
        ops
    }

    /// The commit to reset to and the paths to reset when unstaging a change.
    pub fn unstagingReset(&self, fileChange: &FileChange) -> (reset: (ResetTarget, Vec<String>))
        ensures
            reset.0 == (if self.amending() { ResetTarget::ParentOfHeadCommit } else { ResetTarget::HeadCommit }),
            reset.1@.map_values(|p: String| p@) == unstagingPaths(fileChange@, self.amending()),
    {
        let mut paths: Vec<String> = Vec::new();
        paths.push(fileChange.path.clone());
        if self.commitAmendMode {
            assert(paths@.map_values(|p: String| p@) =~= unstagingPaths(fileChange@, self.amending()));
            (ResetTarget::ParentOfHeadCommit, paths)
        } else {
            if let Some(oldPath) = &fileChange.oldPath {
                paths.push(oldPath.clone());
            }
            assert(paths@.map_values(|p: String| p@) =~= unstagingPaths(fileChange@, self.amending()));
            (ResetTarget::HeadCommit, paths)
        }
    }

    /// After the index edits of staging `fileChange`: holds the collected
    /// changes and reports the removal of the change from the unstaged ones,
    /// then what became of its path among the staged ones.
    pub fn finishStaging(&mut self, fileChange: &FileChange, fileChanges: GroupedFileChanges) -> (events: Vec<RepositoryEvent>)
        ensures
            final(self).amending() == old(self).amending(),
            final(self).unstagedView() == fileChanges.unstaged@,
            final(self).stagedView() == fileChanges.staged@,
            eventViews(events@) == seq![RepositoryEventView::RemovedFromUnstaged(fileChange@)]
                + listOutcome(old(self).stagedView(), fileChanges.staged@, fileChange.path@, true),
    {
        let oldStagedFileChange = findByPath(&self.fileChanges.staged.0, fileChange.path.as_str());
        self.fileChanges = fileChanges;
        let newStagedFileChange = findByPath(&self.fileChanges.staged.0, fileChange.path.as_str());
        let mut events: Vec<RepositoryEvent> = Vec::new();
        events.push(RepositoryEvent::RemovedFromUnstaged(fileChange.clone()));
        finishListChange(oldStagedFileChange, newStagedFileChange, &mut events, true, Ghost(old(self).stagedView()), Ghost(self.stagedView()), Ghost(fileChange.path@));
        events
    }

    /// After resetting the index entries of `fileChange`: holds the collected
    /// changes and reports the removal of the change from the staged ones,
    /// then what became of its path among the unstaged ones.
    pub fn finishUnstaging(&mut self, fileChange: &FileChange, fileChanges: GroupedFileChanges) -> (events: Vec<RepositoryEvent>)
        ensures
            final(self).amending() == old(self).amending(),
            final(self).unstagedView() == fileChanges.unstaged@,
            final(self).stagedView() == fileChanges.staged@,
            eventViews(events@) == seq![RepositoryEventView::RemovedFromStaged(fileChange@)]
                + listOutcome(old(self).unstagedView(), fileChanges.unstaged@, fileChange.path@, false),
    {
        let oldUnstagedFileChange = findByPath(&self.fileChanges.unstaged.0, fileChange.path.as_str());
        self.fileChanges = fileChanges;
        let newUnstagedFileChange = findByPath(&self.fileChanges.unstaged.0, fileChange.path.as_str());
        let mut events: Vec<RepositoryEvent> = Vec::new();
        events.push(RepositoryEvent::RemovedFromStaged(fileChange.clone()));
        finishListChange(oldUnstagedFileChange, newUnstagedFileChange, &mut events, false, Ghost(old(self).unstagedView()), Ghost(self.unstagedView()), Ghost(fileChange.path@));
        events
    }
}

/// A copy of the first file change with the given path, if any.
fn findByPath(fileChanges: &Vec<FileChange>, path: &str) -> (found: Option<FileChange>)
    ensures
        ({
            let i = indexOfPath(viewsOf(fileChanges@), path@);
            match found {
                Some(f) => i >= 0 && f@ == viewsOf(fileChanges@)[i],
                None => i < 0,
            }
        }),
{
    proof {
        lemma_indexOfPath(viewsOf(fileChanges@), path@);
    }
    let mut i: usize = 0;
    while i < fileChanges.len()
        invariant
            i <= fileChanges@.len(),
            forall|j: int| 0 <= j < i ==> #[trigger] viewsOf(fileChanges@)[j].path != path@,
        decreases fileChanges@.len() - i,
    {
        if textEq(fileChanges[i].path.as_str(), path) {
            proof {
                lemma_indexOfPath(viewsOf(fileChanges@), path@);
                let views = viewsOf(fileChanges@);
                assert(views[i as int].path == path@);
                let k = indexOfPath(views, path@);
                if k != i as int {
                    if k == -1 {
                    } else if k < i {
                        assert(views[k].path != path@);
                    } else {
                        assert(views[i as int].path != path@);
                    }
                }
            }
            return Some(fileChanges[i].clone());
        }
        i = i + 1;
    }
    None
}

/// Appends what is reported of the path of a staged or unstaged change,
/// given its entry in the old list and in the new one.
fn finishListChange(
    oldFileChange: Option<FileChange>,
    newFileChange: Option<FileChange>,
    events: &mut Vec<RepositoryEvent>,
    staged: bool,
    Ghost(olds): Ghost<Seq<FileChangeView>>,
    Ghost(news): Ghost<Seq<FileChangeView>>,
    Ghost(path): Ghost<Seq<char>>,
)
    requires
        match oldFileChange {
            Some(f) => indexOfPath(olds, path) >= 0 && f@ == olds[indexOfPath(olds, path)],
            None => indexOfPath(olds, path) < 0,
        },
        match newFileChange {
            Some(f) => indexOfPath(news, path) >= 0 && f@ == news[indexOfPath(news, path)],
            None => indexOfPath(news, path) < 0,
        },
    ensures
        eventViews(final(events)@) == eventViews(old(events)@) + listOutcome(olds, news, path, staged),
{
    let ghost before = eventViews(events@);
    match oldFileChange {
        Some(oldFileChange) => match newFileChange {
            Some(newFileChange) => {
                if !textEq(oldFileChange.status.as_str(), newFileChange.status.as_str()) {
                    let update = FileChangeUpdate { old: oldFileChange, new: newFileChange };
                    if staged {
                        events.push(RepositoryEvent::UpdatedInStaged(update));
                    } else {
                        events.push(RepositoryEvent::UpdatedInUnstaged(update));
                    }
                }
            },
            None => {
                if staged {
                    events.push(RepositoryEvent::RemovedFromStaged(oldFileChange));
                } else {
                    events.push(RepositoryEvent::RemovedFromUnstaged(oldFileChange));
                }
            },
        },
        None => {
            if let Some(newFileChange) = newFileChange {
                if staged {
                    events.push(RepositoryEvent::AddedToStaged(newFileChange));
                } else {
                    events.push(RepositoryEvent::AddedToUnstaged(newFileChange));
                }
            }
        },
    }
    assert(eventViews(events@) =~= before + listOutcome(olds, news, path, staged));
}

} // verus!

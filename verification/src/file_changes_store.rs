//! The list of file changes behind a file change view, and the row edits that
//! keep the displayed list equal to it.
use vstd::prelude::*;
use crate::file_change::{FileChange, FileChangeUpdate, FileChangeView, viewsOf, copyOptionalText, optionalText};
use crate::row_ops::{RowOp, RowOpView, Row, rowOf, displayRows, applyRowOp, applyRowOps, opViews, lemma_applyRowOps_concat, lemma_applyRowOps_single};
use crate::status::{formatStatus, isKnown, statusLabel};
use crate::text::{compareText, textEq, textOrder, TextOrder, lemma_textOrder_equal};

verus! {

/// Whether every file change has a status with a label.
pub open spec fn allKnown(fileChanges: Seq<FileChangeView>) -> bool {
    forall|i: int| 0 <= i < fileChanges.len() ==> isKnown(#[trigger] fileChanges[i].status)
}

/// The index of the first file change with the given path, or -1 if none has it.
pub open spec fn indexOfPath(fileChanges: Seq<FileChangeView>, path: Seq<char>) -> int
    decreases fileChanges.len(),
{
    if fileChanges.len() == 0 {
        -1
    } else if fileChanges[0].path == path {
        0
    } else {
        let rest = indexOfPath(fileChanges.drop_first(), path);
        if rest < 0 {
            -1
        } else {
            rest + 1
        }
    }
}

/// `indexOfPath` finds the first file change with the path, and finds none
/// exactly when no file change has it.
pub proof fn lemma_indexOfPath(fileChanges: Seq<FileChangeView>, path: Seq<char>)
    ensures
        indexOfPath(fileChanges, path) == -1 <==> (forall|j: int|
            0 <= j < fileChanges.len() ==> #[trigger] fileChanges[j].path != path),
        indexOfPath(fileChanges, path) != -1 ==> {
            let i = indexOfPath(fileChanges, path);
            &&& 0 <= i < fileChanges.len()
            &&& fileChanges[i].path == path
            &&& forall|j: int| 0 <= j < i ==> #[trigger] fileChanges[j].path != path
        },
    decreases fileChanges.len(),
{
    if fileChanges.len() > 0 {
        lemma_indexOfPath(fileChanges.drop_first(), path);
        if fileChanges[0].path != path {
            assert forall|j: int| 1 <= j < fileChanges.len() implies #[trigger] fileChanges[j].path
                == fileChanges.drop_first()[j - 1].path by {}
        }
    }
}

/// The edits that update the row at `row`, showing `old`, to show `new`,
/// which has the same path.
pub open spec fn updateOps(old: FileChangeView, new: FileChangeView, row: nat) -> Seq<RowOpView> {
    (if new.status != old.status {
        seq![RowOpView::SetStatus { row, status: statusLabel(new.status)->0 }]
    } else {
        Seq::empty()
    }) + (if new.oldPath != old.oldPath {
        seq![RowOpView::SetPath { row, path: new.path }]
    } else {
        Seq::empty()
    })
}

/// Bringing one new file change into place at `row`, in front of the old
/// file changes `rest` not yet passed: the old ones whose path orders before
/// the new one are removed, an old one with the same path is updated, and
/// otherwise the new one is inserted (appended where no old one is left).
/// Gives the edits and the old file changes still left behind it.
pub open spec fn consumeOps(rest: Seq<FileChangeView>, new: FileChangeView, row: nat) -> (Seq<RowOpView>, Seq<FileChangeView>)
    decreases rest.len(),
{
    if rest.len() == 0 {
        (seq![RowOpView::Append { status: statusLabel(new.status)->0, path: new.path }], rest)
    } else {
        match textOrder(new.path, rest[0].path) {
            TextOrder::Less => (
                seq![RowOpView::Insert { row, status: statusLabel(new.status)->0, path: new.path }],
                rest,
            ),
            TextOrder::Equal => (updateOps(rest[0], new, row), rest.drop_first()),
            TextOrder::Greater => {
                let (ops, left) = consumeOps(rest.drop_first(), new, row);
                (seq![RowOpView::Remove { row }] + ops, left)
            },
        }
    }
}

/// Removal of the `count` rows from `row` on, the last first.
pub open spec fn leftoverOps(row: nat, count: nat) -> Seq<RowOpView>
    decreases count,
{
    if count == 0 {
        Seq::empty()
    } else {
        seq![RowOpView::Remove { row: (row + count - 1) as nat }] + leftoverOps(row, (count - 1) as nat)
    }
}

/// The edits with which a refresh turns the rows of the old file changes
/// `rest`, shown from `row` on, into those of `news`.
pub open spec fn refreshOps(rest: Seq<FileChangeView>, news: Seq<FileChangeView>, row: nat) -> Seq<RowOpView>
    decreases news.len(),
{
    if news.len() == 0 {
        leftoverOps(row, rest.len())
    } else {
        let (ops, left) = consumeOps(rest, news[0], row);
        ops + refreshOps(left, news.drop_first(), row + 1)
    }
}

proof fn lemma_displayRows_concat(a: Seq<FileChangeView>, b: Seq<FileChangeView>)
    ensures
        displayRows(a + b) == displayRows(a) + displayRows(b),
{
    assert(displayRows(a + b) =~= displayRows(a) + displayRows(b));
}

proof fn lemma_displayRows_push(a: Seq<FileChangeView>, x: FileChangeView)
    ensures
        displayRows(a.push(x)) == displayRows(a).push(rowOf(x)),
{
    assert(displayRows(a.push(x)) =~= displayRows(a).push(rowOf(x)));
}

/// Consuming one new file change leaves the rows of the prefix, the new file
/// change and the old ones left behind it.
proof fn lemma_consumeOps(prefix: Seq<FileChangeView>, rest: Seq<FileChangeView>, new: FileChangeView)
    ensures
        applyRowOps(displayRows(prefix + rest), consumeOps(rest, new, prefix.len()).0) == displayRows(
            prefix.push(new) + consumeOps(rest, new, prefix.len()).1,
        ),
    decreases rest.len(),
{
    let row = prefix.len();
    let rows = displayRows(prefix + rest);
    lemma_displayRows_concat(prefix, rest);
    if rest.len() == 0 {
        lemma_applyRowOps_single(rows, RowOpView::Append { status: statusLabel(new.status)->0, path: new.path });
        assert(prefix + rest =~= prefix);
        assert(prefix.push(new) + rest =~= prefix.push(new));
        lemma_displayRows_push(prefix, new);
    } else {
        lemma_displayRows_concat(prefix.push(new), rest);
        lemma_displayRows_push(prefix, new);
        match textOrder(new.path, rest[0].path) {
            TextOrder::Less => {
                let op = RowOpView::Insert { row, status: statusLabel(new.status)->0, path: new.path };
                lemma_applyRowOps_single(rows, op);
                assert(applyRowOp(rows, op) =~= displayRows(prefix.push(new) + rest));
            },
            TextOrder::Equal => {
                lemma_textOrder_equal(new.path, rest[0].path);
                let first = if new.status != rest[0].status {
                    seq![RowOpView::SetStatus { row, status: statusLabel(new.status)->0 }]
                } else {
                    Seq::empty()
                };
                let second = if new.oldPath != rest[0].oldPath {
                    seq![RowOpView::SetPath { row, path: new.path }]
                } else {
                    Seq::empty()
                };
                lemma_applyRowOps_concat(rows, first, second);
                let mid = applyRowOps(rows, first);
                if new.status != rest[0].status {
                    lemma_applyRowOps_single(rows, RowOpView::SetStatus { row, status: statusLabel(new.status)->0 });
                }
                assert(mid.len() == rows.len());
                assert(mid[row as int] == (statusLabel(new.status)->0, rest[0].path));
                if new.oldPath != rest[0].oldPath {
                    lemma_applyRowOps_single(mid, RowOpView::SetPath { row, path: new.path });
                }
                let after = applyRowOps(mid, second);
                assert(after =~= displayRows(prefix.push(new) + rest.drop_first())) by {
                    lemma_displayRows_concat(prefix.push(new), rest.drop_first());
                    assert(prefix + rest =~= prefix.push(rest[0]) + rest.drop_first());
                    lemma_displayRows_concat(prefix.push(rest[0]), rest.drop_first());
                    lemma_displayRows_push(prefix, rest[0]);
                }
            },
            TextOrder::Greater => {
                let op = RowOpView::Remove { row };
                let (ops, left) = consumeOps(rest.drop_first(), new, row);
                lemma_applyRowOps_concat(rows, seq![op], ops);
                lemma_applyRowOps_single(rows, op);
                assert(prefix + rest =~= prefix.push(rest[0]) + rest.drop_first());
                lemma_displayRows_concat(prefix, rest.drop_first());
                assert(applyRowOp(rows, op) =~= displayRows(prefix + rest.drop_first()));
                lemma_consumeOps(prefix, rest.drop_first(), new);
            },
        }
    }
}

/// Removing the leftover rows leaves those of the prefix.
proof fn lemma_leftoverOps(prefix: Seq<FileChangeView>, rest: Seq<FileChangeView>)
    ensures
        applyRowOps(displayRows(prefix + rest), leftoverOps(prefix.len(), rest.len())) == displayRows(prefix),
    decreases rest.len(),
{
    if rest.len() == 0 {
        assert(prefix + rest =~= prefix);
    } else {
        let op = RowOpView::Remove { row: (prefix.len() + rest.len() - 1) as nat };
        let rows = displayRows(prefix + rest);
        lemma_applyRowOps_concat(rows, seq![op], leftoverOps(prefix.len(), (rest.len() - 1) as nat));
        lemma_applyRowOps_single(rows, op);
        assert(applyRowOp(rows, op) =~= displayRows(prefix + rest.drop_last()));
        lemma_leftoverOps(prefix, rest.drop_last());
    }
}

/// The refresh edits turn the rows of the prefix followed by the old file
/// changes into those of the prefix followed by the new ones.
proof fn lemma_refreshOps(prefix: Seq<FileChangeView>, rest: Seq<FileChangeView>, news: Seq<FileChangeView>)
    ensures
        applyRowOps(displayRows(prefix + rest), refreshOps(rest, news, prefix.len())) == displayRows(prefix + news),
    decreases news.len(),
{
    if news.len() == 0 {
        lemma_leftoverOps(prefix, rest);
        assert(prefix + news =~= prefix);
    } else {
        let (ops, left) = consumeOps(rest, news[0], prefix.len());
        lemma_applyRowOps_concat(displayRows(prefix + rest), ops, refreshOps(left, news.drop_first(), prefix.len() + 1));
        lemma_consumeOps(prefix, rest, news[0]);
        lemma_refreshOps(prefix.push(news[0]), left, news.drop_first());
        assert(prefix.push(news[0]) + news.drop_first() =~= prefix + news);
    }
}

/// A refresh turns the displayed rows of the old file changes into those of
/// the new ones, whatever the two lists hold.
pub proof fn lemma_refresh_mirrors(olds: Seq<FileChangeView>, news: Seq<FileChangeView>)
    ensures
        applyRowOps(displayRows(olds), refreshOps(olds, news, 0)) == displayRows(news),
{
    lemma_refreshOps(Seq::empty(), olds, news);
    assert(Seq::<FileChangeView>::empty() + olds =~= olds);
    assert(Seq::<FileChangeView>::empty() + news =~= news);
}


/// The edits that show each of the file changes, appended in order.
pub open spec fn fillOps(fileChanges: Seq<FileChangeView>) -> Seq<RowOpView> {
    fileChanges.map_values(
        |fileChange: FileChangeView|
            RowOpView::Append { status: statusLabel(fileChange.status)->0, path: fileChange.path },
    )
}

/// The edit that shows a file change in a new row at the end.
pub fn appendOp(fileChange: &FileChange) -> (op: RowOp)
    requires
        isKnown(fileChange.status@),
    ensures
        op@ == (RowOpView::Append { status: statusLabel(fileChange.status@)->0, path: fileChange.path@ }),
{
    RowOp::Append { status: String::from_str(formatStatus(fileChange.status.as_str())), path: fileChange.path.clone() }
}

/// What a file change list tells the views that show it, once its rows are edited.
#[derive(Clone, Copy, Debug, PartialEq, Eq, Structural)]
pub enum StoreNotification {
    /// The list was refreshed as a whole.
    Refreshed,
}

/// The edits of a list's rows, in order, and what the list tells its views
/// after them.
#[derive(Debug)]
pub struct StoreUpdate {
    pub ops: Vec<RowOp>,
    pub notification: Option<StoreNotification>,
}

/// The file changes shown in a file change view.
pub struct FileChangesStore {
    fileChanges: Vec<FileChange>,
}

#[derive(PartialEq, Eq, Structural)]
enum LoopControl {
    Break,
    DoNotBreak,
}

impl View for FileChangesStore {
    type V = Seq<FileChangeView>;

    closed spec fn view(&self) -> Seq<FileChangeView> {
        viewsOf(self.fileChanges@)
    }
}

impl FileChangesStore {
    /// Every file change held has a status with a label.
    pub open spec fn wf(&self) -> bool {
        allKnown(self@)
    }

    /// A store that holds the given file changes, with the edits that show them.
    pub fn new(fileChanges: &[FileChange]) -> (result: (Self, Vec<RowOp>))
        requires
            allKnown(viewsOf(fileChanges@)),
        ensures
            result.0@ == viewsOf(fileChanges@),
            result.0.wf(),
            opViews(result.1@) == fillOps(viewsOf(fileChanges@)),
            applyRowOps(Seq::empty(), opViews(result.1@)) == displayRows(result.0@),
    {
        let mut copied: Vec<FileChange> = Vec::new();
        let mut ops: Vec<RowOp> = Vec::new();
        let mut i: usize = 0;
        while i < fileChanges.len()
            invariant
                i <= fileChanges.len(),
                allKnown(viewsOf(fileChanges@)),
                viewsOf(copied@) == viewsOf(fileChanges@).take(i as int),
                opViews(ops@) == fillOps(viewsOf(fileChanges@)).take(i as int),
                applyRowOps(Seq::empty(), opViews(ops@)) == displayRows(viewsOf(copied@)),
            decreases fileChanges.len() - i,
        {
            let fileChange = &fileChanges[i];
            assert(viewsOf(fileChanges@)[i as int] == fileChange@);
            assert(isKnown(viewsOf(fileChanges@)[i as int].status));
            let op = appendOp(fileChange);
            let ghost before = opViews(ops@);
            let ghost copiedBefore = viewsOf(copied@);
            proof {
                lemma_applyRowOps_concat(Seq::empty(), before, seq![op@]);
                lemma_applyRowOps_single(displayRows(copiedBefore), op@);
                lemma_displayRows_push(copiedBefore, fileChange@);
            }
            ops.push(op);
            copied.push(fileChange.clone());
            assert(opViews(ops@) =~= before + seq![op@]);
            assert(opViews(ops@) =~= fillOps(viewsOf(fileChanges@)).take(i + 1));
            assert(viewsOf(copied@) =~= copiedBefore.push(fileChange@));
            assert(viewsOf(copied@) =~= viewsOf(fileChanges@).take(i + 1));
            i = i + 1;
        }
        assert(viewsOf(fileChanges@).take(i as int) =~= viewsOf(fileChanges@));
        assert(fillOps(viewsOf(fileChanges@)).take(i as int) =~= fillOps(viewsOf(fileChanges@)));
        (FileChangesStore { fileChanges: copied }, ops)
    }

    /// Number of file changes held.
    pub fn len(&self) -> (n: usize)
        ensures
            n == self@.len(),
    {
        self.fileChanges.len()
    }

    /// The file change shown in `row`.
    pub fn getFileChange(&self, row: usize) -> (fileChange: &FileChange)
        requires
            row < self@.len(),
        ensures
            fileChange@ == self@[row as int],
    {
        &self.fileChanges[row]
    }

    /// The path of the file change shown in `row`.
    pub fn getFilePath(&self, row: usize) -> (path: &str)
        requires
            row < self@.len(),
        ensures
            path@ == self@[row as int].path,
    {
        self.fileChanges[row].path.as_str()
    }

    /// The row of the first file change with the given path, if any.
    pub fn findFilePath(&self, path: &str) -> (row: Option<usize>)
        ensures
            match row {
                Some(r) => r as int == indexOfPath(self@, path@),
                None => indexOfPath(self@, path@) < 0,
            },
    {
        proof {
            lemma_indexOfPath(self@, path@);
        }
        let mut i: usize = 0;
        while i < self.fileChanges.len()
            invariant
                i <= self.fileChanges.len(),
                forall|j: int| 0 <= j < i ==> #[trigger] self@[j].path != path@,
            decreases self.fileChanges.len() - i,
        {
            if textEq(self.fileChanges[i].path.as_str(), path) {
                proof {
                    lemma_indexOfPath(self@, path@);
                    assert(self@[i as int] == self.fileChanges@[i as int]@);
                    assert(self@[i as int].path == path@);
                    let k = indexOfPath(self@, path@);
                    if k != i as int {
                        if k == -1 {
                        } else if k < i {
                            assert(self@[k].path != path@);
                        } else {
                            assert(self@[i as int].path != path@);
                        }
                    }
                }
                return Some(i);
            }
            i = i + 1;
        }
        None
    }

    /// Shows one more file change at the end.
    pub fn append(&mut self, fileChange: &FileChange) -> (ops: Vec<RowOp>)
        requires
            old(self).wf(),
            isKnown(fileChange.status@),
        ensures
            final(self)@ == old(self)@.push(fileChange@),
            final(self).wf(),
            opViews(ops@) == seq![RowOpView::Append { status: statusLabel(fileChange.status@)->0, path: fileChange.path@ }],
            applyRowOps(displayRows(old(self)@), opViews(ops@)) == displayRows(final(self)@),
    {
        let op = appendOp(fileChange);
        self.fileChanges.push(fileChange.clone());
        let mut ops: Vec<RowOp> = Vec::new();
        ops.push(op);
        proof {
            assert(self@ =~= old(self)@.push(fileChange@));
            assert(opViews(ops@) =~= seq![op@]);
            lemma_applyRowOps_single(displayRows(old(self)@), op@);
            lemma_displayRows_push(old(self)@, fileChange@);
        }
        ops
    }

    /// Gives the first file change with the old path of the update the
    /// update's new status.
    pub fn update(&mut self, fileChangeUpdate: &FileChangeUpdate) -> (ops: Vec<RowOp>)
        requires
            old(self).wf(),
            indexOfPath(old(self)@, fileChangeUpdate.old.path@) >= 0,
            isKnown(fileChangeUpdate.new.status@),
        ensures
            ({
                let i = indexOfPath(old(self)@, fileChangeUpdate.old.path@);
                &&& final(self)@ == old(self)@.update(
                    i,
                    FileChangeView { status: fileChangeUpdate.new.status@, ..old(self)@[i] },
                )
                &&& opViews(ops@) == seq![
                    RowOpView::SetStatus { row: i as nat, status: statusLabel(fileChangeUpdate.new.status@)->0 },
                ]
            }),
            final(self).wf(),
            applyRowOps(displayRows(old(self)@), opViews(ops@)) == displayRows(final(self)@),
    {
        proof {
            lemma_indexOfPath(old(self)@, fileChangeUpdate.old.path@);
            assert(self@.len() == self.fileChanges@.len());
        }
        let index = self.findFilePath(fileChangeUpdate.old.path.as_str()).unwrap();
        let current = &self.fileChanges[index];
        let updated = FileChange {
            status: fileChangeUpdate.new.status.clone(),
            path: current.path.clone(),
            oldPath: copyOptionalText(&current.oldPath),
        };
        self.fileChanges.set(index, updated);
        let op = RowOp::SetStatus {
            row: index,
            status: String::from_str(formatStatus(fileChangeUpdate.new.status.as_str())),
        };
        let mut ops: Vec<RowOp> = Vec::new();
        ops.push(op);
        proof {
            let i = index as int;
            assert(i == indexOfPath(old(self)@, fileChangeUpdate.old.path@));
            assert(self@ =~= old(self)@.update(i, FileChangeView { status: fileChangeUpdate.new.status@, ..old(self)@[i] }));
            assert(opViews(ops@) =~= seq![op@]);
            lemma_applyRowOps_single(displayRows(old(self)@), op@);
            assert(applyRowOp(displayRows(old(self)@), op@) =~= displayRows(self@));
        }
        ops
    }

    /// Removes the first file change with the given path.
    pub fn remove(&mut self, filePath: &str) -> (ops: Vec<RowOp>)
        requires
            old(self).wf(),
            indexOfPath(old(self)@, filePath@) >= 0,
        ensures
            final(self)@ == old(self)@.remove(indexOfPath(old(self)@, filePath@)),
            final(self).wf(),
            opViews(ops@) == seq![RowOpView::Remove { row: indexOfPath(old(self)@, filePath@) as nat }],
            applyRowOps(displayRows(old(self)@), opViews(ops@)) == displayRows(final(self)@),
    {
        proof {
            lemma_indexOfPath(old(self)@, filePath@);
            assert(self@.len() == self.fileChanges@.len());
        }
        let index = self.findFilePath(filePath).unwrap();
        self.fileChanges.remove(index);
        let op = RowOp::Remove { row: index };
        let mut ops: Vec<RowOp> = Vec::new();
        ops.push(op);
        proof {
            assert(self@ =~= old(self)@.remove(index as int));
            assert(opViews(ops@) =~= seq![op@]);
            lemma_applyRowOps_single(displayRows(old(self)@), op@);
            assert(applyRowOp(displayRows(old(self)@), op@) =~= displayRows(self@));
        }
        ops
    }

    /// Removes every file change.
    pub fn clear(&mut self) -> (ops: Vec<RowOp>)
        ensures
            final(self)@ == Seq::<FileChangeView>::empty(),
            final(self).wf(),
            opViews(ops@) == seq![RowOpView::Clear],
            applyRowOps(displayRows(old(self)@), opViews(ops@)) == displayRows(final(self)@),
    {
        self.fileChanges.clear();
        let mut ops: Vec<RowOp> = Vec::new();
        ops.push(RowOp::Clear);
        proof {
            assert(self@ =~= Seq::<FileChangeView>::empty());
            assert(opViews(ops@) =~= seq![RowOpView::Clear]);
            lemma_applyRowOps_single(displayRows(old(self)@), RowOpView::Clear);
            assert(displayRows(self@) =~= Seq::<Row>::empty());
        }
        ops
    }

    /// Makes the store hold `newFileChanges`. The rows are edited in one pass
    /// over both lists, ordered by path: old file changes whose path comes
    /// before the next new one are removed, one with the same path is
    /// updated in place, a new one is inserted before the first old one whose
    /// path comes after it, and old ones left at the end are removed. After
    /// the edits the store tells its views, once, that it was refreshed.
    pub fn refresh(&mut self, newFileChanges: &[FileChange]) -> (update: StoreUpdate)
        requires
            allKnown(viewsOf(newFileChanges@)),
        ensures
            final(self)@ == viewsOf(newFileChanges@),
            final(self).wf(),
            opViews(update.ops@) == refreshOps(old(self)@, viewsOf(newFileChanges@), 0),
            applyRowOps(displayRows(old(self)@), opViews(update.ops@)) == displayRows(final(self)@),
            update.notification == Some(StoreNotification::Refreshed),
    {
        let ghost news = viewsOf(newFileChanges@);
        let ghost rest0 = self@;
        let mut ops: Vec<RowOp> = Vec::new();
        let mut oldFileChangeIndex: usize = 0;
        assert(self@.skip(0) =~= rest0);
        assert(news.skip(0) =~= news);
        assert(opViews(ops@) + refreshOps(rest0, news, 0) =~= refreshOps(rest0, news, 0));
        let mut k: usize = 0;
        while k < newFileChanges.len()
            invariant
                news == viewsOf(newFileChanges@),
                allKnown(news),
                k <= newFileChanges.len(),
                oldFileChangeIndex == k,
                k <= self@.len(),
                self@.take(k as int) == news.take(k as int),
                opViews(ops@) + refreshOps(self@.skip(k as int), news.skip(k as int), k as nat) == refreshOps(rest0, news, 0),
            decreases newFileChanges.len() - k,
        {
            let newFileChange = &newFileChanges[k];
            assert(news[k as int] == newFileChange@);
            assert(isKnown(news[k as int].status));
            let ghost cur = self@.skip(k as int);
            let ghost opsBefore = opViews(ops@);
            let ghost selfBefore = self@;
            self.refreshOldFileChanges(&mut oldFileChangeIndex, newFileChange, &mut ops);
            proof {
                let (o, left) = consumeOps(cur, newFileChange@, k as nat);
                assert(news.skip(k as int)[0] == newFileChange@);
                assert(news.skip(k as int).drop_first() =~= news.skip(k + 1));
                assert(refreshOps(cur, news.skip(k as int), k as nat) == o + refreshOps(left, news.skip(k + 1), (k + 1) as nat));
                assert(self@ == selfBefore.take(k as int).push(newFileChange@) + left);
                assert(self@.skip(k + 1) =~= left);
                assert(self@.take(k + 1) =~= news.take(k + 1)) by {
                    assert(news.take(k + 1) =~= news.take(k as int).push(news[k as int]));
                }
                assert(opViews(ops@) + refreshOps(left, news.skip(k + 1), (k + 1) as nat)
                    =~= opsBefore + (o + refreshOps(left, news.skip(k + 1), (k + 1) as nat)));
            }
            k = k + 1;
        }
        let ghost left = self@.skip(k as int);
        let ghost opsBefore = opViews(ops@);
        assert(news.skip(k as int) =~= Seq::<FileChangeView>::empty());
        self.removeLeftoverFileChanges(newFileChanges.len(), &mut ops);
        proof {
            assert(news.take(k as int) =~= news);
            lemma_refresh_mirrors(rest0, news);
        }
        StoreUpdate { ops, notification: Some(StoreNotification::Refreshed) }
    }

    /// Brings one new file change into place at `*oldFileChangeIndex`, in
    /// front of the old file changes from there on, and moves the index past it.
    fn refreshOldFileChanges(&mut self, oldFileChangeIndex: &mut usize, newFileChange: &FileChange, ops: &mut Vec<RowOp>)
        requires
            *old(oldFileChangeIndex) <= old(self)@.len(),
            *old(oldFileChangeIndex) < usize::MAX,
            isKnown(newFileChange.status@),
        ensures
            ({
                let i = *old(oldFileChangeIndex);
                let (o, left) = consumeOps(old(self)@.skip(i as int), newFileChange@, i as nat);
                &&& final(self)@ == old(self)@.take(i as int).push(newFileChange@) + left
                &&& *final(oldFileChangeIndex) == i + 1
                &&& opViews(final(ops)@) == opViews(old(ops)@) + o
            }),
    {
        let ghost i = *oldFileChangeIndex;
        let ghost self0 = self@;
        let ghost ops0 = opViews(ops@);
        let ghost target = consumeOps(self0.skip(i as int), newFileChange@, i as nat);
        assert(opViews(ops@) + consumeOps(self@.skip(i as int), newFileChange@, i as nat).0 =~= ops0 + target.0);
        loop
            invariant
                *oldFileChangeIndex == i,
                i == *old(oldFileChangeIndex),
                self0 == old(self)@,
                ops0 == opViews(old(ops)@),
                i <= self@.len(),
                i < usize::MAX,
                isKnown(newFileChange.status@),
                self@.take(i as int) == self0.take(i as int),
                target == consumeOps(self0.skip(i as int), newFileChange@, i as nat),
                opViews(ops@) + consumeOps(self@.skip(i as int), newFileChange@, i as nat).0 == ops0 + target.0,
                consumeOps(self@.skip(i as int), newFileChange@, i as nat).1 == target.1,
            decreases self@.len(),
        {
            let ghost cur = self@.skip(i as int);
            let ghost opsBefore = opViews(ops@);
            let ghost selfBefore = self@;
            if *oldFileChangeIndex < self.fileChanges.len() {
                assert(cur[0] == selfBefore[i as int]);
                let control = self.refreshEntryWhenOldFileChangeIsPresent(oldFileChangeIndex, newFileChange, ops);
                if control == LoopControl::Break {
                    proof {
                        match textOrder(newFileChange@.path, cur[0].path) {
                            TextOrder::Less => {
                                assert(self@ =~= self0.take(i as int).push(newFileChange@) + cur);
                                assert(opViews(ops@) =~= opsBefore + consumeOps(cur, newFileChange@, i as nat).0);
                            },
                            TextOrder::Equal => {
                                assert(self@ =~= self0.take(i as int).push(newFileChange@) + cur.drop_first());
                                assert(opViews(ops@) =~= opsBefore + consumeOps(cur, newFileChange@, i as nat).0);
                            },
                            TextOrder::Greater => {},
                        }
                    }
                    return;
                }
                proof {
                    assert(self@.skip(i as int) =~= cur.drop_first());
                    assert(self@.take(i as int) =~= selfBefore.take(i as int));
                    let (o2, l2) = consumeOps(cur.drop_first(), newFileChange@, i as nat);
                    assert(opViews(ops@) + o2 =~= opsBefore + (seq![RowOpView::Remove { row: i as nat }] + o2));
                }
            } else {
                self.refreshEntryWhenOldFileChangeIsAbsent(oldFileChangeIndex, newFileChange, ops);
                proof {
                    assert(cur.len() == 0);
                    assert(self@ =~= self0.take(i as int).push(newFileChange@) + cur);
                    assert(opViews(ops@) =~= opsBefore + consumeOps(cur, newFileChange@, i as nat).0);
                }
                return;
            }
        }
    }

    /// One step of bringing a new file change into place in front of the old
    /// file change at `*oldFileChangeIndex`.
    fn refreshEntryWhenOldFileChangeIsPresent(
        &mut self,
        oldFileChangeIndex: &mut usize,
        newFileChange: &FileChange,
        ops: &mut Vec<RowOp>,
    ) -> (control: LoopControl)
        requires
            *old(oldFileChangeIndex) < old(self)@.len(),
            *old(oldFileChangeIndex) < usize::MAX,
            isKnown(newFileChange.status@),
        ensures
            ({
                let i = *old(oldFileChangeIndex);
                let oldFileChange = old(self)@[i as int];
                match textOrder(newFileChange@.path, oldFileChange.path) {
                    TextOrder::Less => {
                        &&& control == LoopControl::Break
                        &&& final(self)@ == old(self)@.insert(i as int, newFileChange@)
                        &&& *final(oldFileChangeIndex) == i + 1
                        &&& opViews(final(ops)@) == opViews(old(ops)@).push(
                            RowOpView::Insert { row: i as nat, status: statusLabel(newFileChange@.status)->0, path: newFileChange@.path },
                        )
                    },
                    TextOrder::Equal => {
                        &&& control == LoopControl::Break
                        &&& final(self)@ == old(self)@.update(i as int, newFileChange@)
                        &&& *final(oldFileChangeIndex) == i + 1
                        &&& opViews(final(ops)@) == opViews(old(ops)@) + updateOps(oldFileChange, newFileChange@, i as nat)
                    },
                    TextOrder::Greater => {
                        &&& control == LoopControl::DoNotBreak
                        &&& final(self)@ == old(self)@.remove(i as int)
                        &&& *final(oldFileChangeIndex) == i
                        &&& opViews(final(ops)@) == opViews(old(ops)@).push(RowOpView::Remove { row: i as nat })
                    },
                }
            }),
    {
        let order = compareText(newFileChange.path.as_str(), self.fileChanges[*oldFileChangeIndex].path.as_str());
        assert(self.fileChanges@[*oldFileChangeIndex as int]@ == self@[*oldFileChangeIndex as int]);
        match order {
            TextOrder::Less => {
                self.refreshEntryWhenNewPathIsLessThanOld(oldFileChangeIndex, newFileChange, ops);
                LoopControl::Break
            },
            TextOrder::Equal => {
                self.refreshEntryWhenNewPathIsEqualToOld(oldFileChangeIndex, newFileChange, ops);
                LoopControl::Break
            },
            TextOrder::Greater => {
                self.refreshEntryWhenNewPathIsGreaterThanOld(*oldFileChangeIndex, ops);
                LoopControl::DoNotBreak
            },
        }
    }

    fn refreshEntryWhenNewPathIsLessThanOld(&mut self, oldFileChangeIndex: &mut usize, newFileChange: &FileChange, ops: &mut Vec<RowOp>)
        requires
            *old(oldFileChangeIndex) < old(self)@.len(),
            *old(oldFileChangeIndex) < usize::MAX,
            isKnown(newFileChange.status@),
        ensures
            final(self)@ == old(self)@.insert(*old(oldFileChangeIndex) as int, newFileChange@),
            *final(oldFileChangeIndex) == *old(oldFileChangeIndex) + 1,
            opViews(final(ops)@) == opViews(old(ops)@).push(
                RowOpView::Insert {
                    row: *old(oldFileChangeIndex) as nat,
                    status: statusLabel(newFileChange@.status)->0,
                    path: newFileChange@.path,
                },
            ),
    {
        let index = *oldFileChangeIndex;
        self.fileChanges.insert(index, newFileChange.clone());
        let op = RowOp::Insert {
            row: index,
            status: String::from_str(formatStatus(newFileChange.status.as_str())),
            path: newFileChange.path.clone(),
        };
        let ghost before = opViews(ops@);
        ops.push(op);
        *oldFileChangeIndex = index + 1;
        assert(opViews(ops@) =~= before.push(op@));
        assert(self@ =~= old(self)@.insert(index as int, newFileChange@));
    }

    fn refreshEntryWhenNewPathIsEqualToOld(&mut self, oldFileChangeIndex: &mut usize, newFileChange: &FileChange, ops: &mut Vec<RowOp>)
        requires
            *old(oldFileChangeIndex) < old(self)@.len(),
            *old(oldFileChangeIndex) < usize::MAX,
            isKnown(newFileChange.status@),
            textOrder(newFileChange@.path, old(self)@[*old(oldFileChangeIndex) as int].path) == TextOrder::Equal,
        ensures
            final(self)@ == old(self)@.update(*old(oldFileChangeIndex) as int, newFileChange@),
            *final(oldFileChangeIndex) == *old(oldFileChangeIndex) + 1,
            opViews(final(ops)@) == opViews(old(ops)@) + updateOps(
                old(self)@[*old(oldFileChangeIndex) as int],
                newFileChange@,
                *old(oldFileChangeIndex) as nat,
            ),
    {
        let index = *oldFileChangeIndex;
        let ghost oldView = self@[index as int];
        proof {
            lemma_textOrder_equal(newFileChange@.path, oldView.path);
        }
        let ghost before = opViews(ops@);
        assert(self.fileChanges@[index as int]@ == oldView);
        let statusChanged = !textEq(newFileChange.status.as_str(), self.fileChanges[index].status.as_str());
        let oldPathChanged = !optionalTextEq(&newFileChange.oldPath, &self.fileChanges[index].oldPath);
        let updated = FileChange {
            status: newFileChange.status.clone(),
            path: self.fileChanges[index].path.clone(),
            oldPath: copyOptionalText(&newFileChange.oldPath),
        };
        self.fileChanges.set(index, updated);
        if statusChanged {
            ops.push(RowOp::SetStatus { row: index, status: String::from_str(formatStatus(newFileChange.status.as_str())) });
        }
        let ghost mid = opViews(ops@);
        if oldPathChanged {
            ops.push(RowOp::SetPath { row: index, path: newFileChange.path.clone() });
        }
        *oldFileChangeIndex = index + 1;
        proof {
            assert(self@ =~= old(self)@.update(index as int, newFileChange@));
            let first = if newFileChange@.status != oldView.status {
                seq![RowOpView::SetStatus { row: index as nat, status: statusLabel(newFileChange@.status)->0 }]
            } else {
                Seq::empty()
            };
            let second = if newFileChange@.oldPath != oldView.oldPath {
                seq![RowOpView::SetPath { row: index as nat, path: newFileChange@.path }]
            } else {
                Seq::empty()
            };
            assert(mid =~= before + first);
            assert(opViews(ops@) =~= mid + second);
            assert(opViews(ops@) =~= before + (first + second));
        }
    }

    fn refreshEntryWhenNewPathIsGreaterThanOld(&mut self, oldFileChangeIndex: usize, ops: &mut Vec<RowOp>)
        requires
            oldFileChangeIndex < old(self)@.len(),
        ensures
            final(self)@ == old(self)@.remove(oldFileChangeIndex as int),
            opViews(final(ops)@) == opViews(old(ops)@).push(RowOpView::Remove { row: oldFileChangeIndex as nat }),
    {
        self.fileChanges.remove(oldFileChangeIndex);
        let ghost before = opViews(ops@);
        ops.push(RowOp::Remove { row: oldFileChangeIndex });
        assert(opViews(ops@) =~= before.push(RowOpView::Remove { row: oldFileChangeIndex as nat }));
        assert(self@ =~= old(self)@.remove(oldFileChangeIndex as int));
    }

    fn refreshEntryWhenOldFileChangeIsAbsent(&mut self, oldFileChangeIndex: &mut usize, newFileChange: &FileChange, ops: &mut Vec<RowOp>)
        requires
            *old(oldFileChangeIndex) == old(self)@.len(),
            *old(oldFileChangeIndex) < usize::MAX,
            isKnown(newFileChange.status@),
        ensures
            final(self)@ == old(self)@.push(newFileChange@),
            *final(oldFileChangeIndex) == *old(oldFileChangeIndex) + 1,
            opViews(final(ops)@) == opViews(old(ops)@).push(
                RowOpView::Append { status: statusLabel(newFileChange@.status)->0, path: newFileChange@.path },
            ),
    {
        let op = appendOp(newFileChange);
        self.fileChanges.push(newFileChange.clone());
        let ghost before = opViews(ops@);
        ops.push(op);
        *oldFileChangeIndex = *oldFileChangeIndex + 1;
        assert(opViews(ops@) =~= before.push(op@));
        assert(self@ =~= old(self)@.push(newFileChange@));
    }

    /// Removes the file changes from `newFileChangesSize` on, the last first.
    fn removeLeftoverFileChanges(&mut self, newFileChangesSize: usize, ops: &mut Vec<RowOp>)
        requires
            newFileChangesSize <= old(self)@.len(),
        ensures
            final(self)@ == old(self)@.take(newFileChangesSize as int),
            opViews(final(ops)@) == opViews(old(ops)@) + leftoverOps(
                newFileChangesSize as nat,
                (old(self)@.len() - newFileChangesSize) as nat,
            ),
    {
        let ghost ops0 = opViews(ops@);
        let ghost self0 = self@;
        assert(ops0 + leftoverOps(newFileChangesSize as nat, (self0.len() - newFileChangesSize) as nat)
            =~= opViews(ops@) + leftoverOps(newFileChangesSize as nat, (self@.len() - newFileChangesSize) as nat));
        while newFileChangesSize < self.fileChanges.len()
            invariant
                newFileChangesSize <= self@.len() <= self0.len(),
                self@ == self0.take(self@.len() as int),
                opViews(ops@) + leftoverOps(newFileChangesSize as nat, (self@.len() - newFileChangesSize) as nat)
                    == ops0 + leftoverOps(newFileChangesSize as nat, (self0.len() - newFileChangesSize) as nat),
            decreases self@.len(),
        {
            let row = self.fileChanges.len() - 1;
            let ghost before = opViews(ops@);
            let ghost count = (self@.len() - newFileChangesSize) as nat;
            self.fileChanges.pop();
            ops.push(RowOp::Remove { row });
            proof {
                assert(self@ =~= self0.take(self@.len() as int));
                assert(leftoverOps(newFileChangesSize as nat, count) == seq![RowOpView::Remove { row: row as nat }]
                    + leftoverOps(newFileChangesSize as nat, (count - 1) as nat));
                assert(opViews(ops@) =~= before.push(RowOpView::Remove { row: row as nat }));
                assert(opViews(ops@) + leftoverOps(newFileChangesSize as nat, (count - 1) as nat)
                    =~= before + leftoverOps(newFileChangesSize as nat, count));
            }
        }
        assert(self0.take(newFileChangesSize as int) =~= self@);
        assert(opViews(ops@) + leftoverOps(newFileChangesSize as nat, 0) =~= opViews(ops@));
    }
}

/// Whether two optional texts are equal.
pub fn optionalTextEq(a: &Option<String>, b: &Option<String>) -> (same: bool)
    ensures
        same == (optionalText(*a) == optionalText(*b)),
{
    match (a, b) {
        (Some(x), Some(y)) => textEq(x.as_str(), y.as_str()),
        (None, None) => true,
        _ => false,
    }
}

} // verus!

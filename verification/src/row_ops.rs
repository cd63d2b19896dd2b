//! Edits of the rows that a file change list shows, and their meaning.
use vstd::prelude::*;
use crate::file_change::FileChangeView;
use crate::status::statusLabel;

verus! {

/// An edit of the displayed rows; each row shows a status label and a path.
#[derive(Debug, PartialEq, Eq)]
pub enum RowOp {
    Append { status: String, path: String },
    Insert { row: usize, status: String, path: String },
    SetStatus { row: usize, status: String },
    SetPath { row: usize, path: String },
    Remove { row: usize },
    Clear,
}

/// The mathematical value of a `RowOp`.
pub enum RowOpView {
    Append { status: Seq<char>, path: Seq<char> },
    Insert { row: nat, status: Seq<char>, path: Seq<char> },
    SetStatus { row: nat, status: Seq<char> },
    SetPath { row: nat, path: Seq<char> },
    Remove { row: nat },
    Clear,
}

impl View for RowOp {
    type V = RowOpView;

    open spec fn view(&self) -> RowOpView {
        match self {
            RowOp::Append { status, path } => RowOpView::Append { status: status@, path: path@ },
            RowOp::Insert { row, status, path } => RowOpView::Insert {
                row: *row as nat,
                status: status@,
                path: path@,
            },
            RowOp::SetStatus { row, status } => RowOpView::SetStatus { row: *row as nat, status: status@ },
            RowOp::SetPath { row, path } => RowOpView::SetPath { row: *row as nat, path: path@ },
            RowOp::Remove { row } => RowOpView::Remove { row: *row as nat },
            RowOp::Clear => RowOpView::Clear,
        }
    }
}

/// The views of a sequence of row edits.
pub open spec fn opViews(ops: Seq<RowOp>) -> Seq<RowOpView> {
    ops.map_values(|op: RowOp| op@)
}

/// A displayed row: a status label and a path.
pub type Row = (Seq<char>, Seq<char>);

/// The row that shows a file change.
pub open spec fn rowOf(fileChange: FileChangeView) -> Row {
    (statusLabel(fileChange.status)->0, fileChange.path)
}

/// The rows that show a sequence of file changes.
pub open spec fn displayRows(fileChanges: Seq<FileChangeView>) -> Seq<Row> {
    fileChanges.map_values(|fileChange: FileChangeView| rowOf(fileChange))
}

/// The rows after one edit.
pub open spec fn applyRowOp(rows: Seq<Row>, op: RowOpView) -> Seq<Row> {
    match op {
        RowOpView::Append { status, path } => rows.push((status, path)),
        RowOpView::Insert { row, status, path } => rows.insert(row as int, (status, path)),
        RowOpView::SetStatus { row, status } => rows.update(row as int, (status, rows[row as int].1)),
        RowOpView::SetPath { row, path } => rows.update(row as int, (rows[row as int].0, path)),
        RowOpView::Remove { row } => rows.remove(row as int),
        RowOpView::Clear => Seq::empty(),
    }
}

/// The rows after a sequence of edits, applied in order.
pub open spec fn applyRowOps(rows: Seq<Row>, ops: Seq<RowOpView>) -> Seq<Row>
    decreases ops.len(),
{
    if ops.len() == 0 {
        rows
    } else {
        applyRowOps(applyRowOp(rows, ops[0]), ops.drop_first())
    }
}

/// Applying two sequences of edits one after the other is applying their
/// concatenation.
pub proof fn lemma_applyRowOps_concat(rows: Seq<Row>, first: Seq<RowOpView>, second: Seq<RowOpView>)
    ensures
        applyRowOps(rows, first + second) == applyRowOps(applyRowOps(rows, first), second),
    decreases first.len(),
{
    if first.len() == 0 {
        assert(first + second =~= second);
    } else {
        assert((first + second).drop_first() =~= first.drop_first() + second);
        lemma_applyRowOps_concat(applyRowOp(rows, first[0]), first.drop_first(), second);
    }
}

/// Applying a single edit.
pub proof fn lemma_applyRowOps_single(rows: Seq<Row>, op: RowOpView)
    ensures
        applyRowOps(rows, seq![op]) == applyRowOp(rows, op),
{
    assert(seq![op].drop_first() =~= Seq::<RowOpView>::empty());
    assert(applyRowOps(applyRowOp(rows, op), Seq::<RowOpView>::empty()) == applyRowOp(rows, op));
}

} // verus!

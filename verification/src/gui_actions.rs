//! Status names across staging, and the errors of the file view actions.
use vstd::prelude::*;
use crate::text::{replaceAll, replaced, occursIn, lemma_replaced_absent, lemma_replaced_roundtrip};

verus! {

/// The status name a change gets once staged: every "WT" becomes "INDEX".
pub fn convertFileStatusToStaged(fileStatus: &str) -> (status: String)
    ensures
        status@ == replaced(fileStatus@, "WT"@, "INDEX"@),
{
    proof {
        reveal_strlit("WT");
    }
    replaceAll(fileStatus, "WT", "INDEX")
}

/// The status name a change gets once unstaged: every "INDEX" becomes "WT".
pub fn convertFileStatusToUnstaged(fileStatus: &str) -> (status: String)
    ensures
        status@ == replaced(fileStatus@, "INDEX"@, "WT"@),
{
    proof {
        reveal_strlit("INDEX");
    }
    replaceAll(fileStatus, "INDEX", "WT")
}

/// Unstaging the status name of a staged change gives back the name it had,
/// for names in which "INDEX" does not occur; staging the name of an
/// unstaged change gives back the name it had, for names in which "WT" does
/// not occur.
pub proof fn lemma_status_conversions_roundtrip(status: Seq<char>)
    ensures
        !occursIn("INDEX"@, status) ==> replaced(replaced(status, "WT"@, "INDEX"@), "INDEX"@, "WT"@) == status,
        !occursIn("WT"@, status) ==> replaced(replaced(status, "INDEX"@, "WT"@), "WT"@, "INDEX"@) == status,
{
    reveal_strlit("INDEX");
    reveal_strlit("WT");
    if !occursIn("INDEX"@, status) {
        lemma_replaced_roundtrip(status, "WT"@, "INDEX"@);
    }
    if !occursIn("WT"@, status) {
        lemma_replaced_roundtrip(status, "INDEX"@, "WT"@);
    }
}

/// Whether no "W" is directly followed by a "T" in `text`.
spec fn noWorkdirMark(text: Seq<char>) -> bool {
    forall|i: int| 0 <= i < text.len() - 1 ==> !(#[trigger] text[i] == 'W' && text[i + 1] == 'T')
}

/// Staging a name leaves no "W" followed by a "T", and the first character of
/// the result is the first character of the name or the "I" of "INDEX".
proof fn lemma_staged_name_shape(status: Seq<char>)
    ensures
        noWorkdirMark(replaced(status, "WT"@, "INDEX"@)),
        replaced(status, "WT"@, "INDEX"@).len() > 0 ==> status.len() > 0 && (replaced(status, "WT"@, "INDEX"@)[0]
            == status[0] || replaced(status, "WT"@, "INDEX"@)[0] == 'I'),
    decreases status.len(),
{
    reveal_strlit("WT");
    reveal_strlit("INDEX");
    let wt = "WT"@;
    let index = "INDEX"@;
    let r = replaced(status, wt, index);
    if status.len() < 2 {
        assert(r == status);
    } else if status.subrange(0, 2) == wt {
        let rest = status.subrange(2, status.len() as int);
        lemma_staged_name_shape(rest);
        let r2 = replaced(rest, wt, index);
        assert(r == index + r2);
        assert forall|i: int| 0 <= i < r.len() - 1 implies !(#[trigger] r[i] == 'W' && r[i + 1] == 'T') by {
            if i >= 5 {
                assert(r[i] == r2[i - 5]);
                assert(r[i + 1] == r2[i - 4]);
            } else {
                assert(r[i] == index[i]);
            }
        }
    } else {
        let rest = status.drop_first();
        lemma_staged_name_shape(rest);
        let r2 = replaced(rest, wt, index);
        assert(r == seq![status[0]] + r2);
        assert forall|i: int| 0 <= i < r.len() - 1 implies !(#[trigger] r[i] == 'W' && r[i + 1] == 'T') by {
            if i >= 1 {
                assert(r[i] == r2[i - 1]);
                assert(r[i + 1] == r2[i]);
            } else if r[0] == 'W' && r[1] == 'T' {
                assert(r2[0] == 'T');
                assert(r2[0] == rest[0]);
                assert(status[1] == 'T');
                assert(status.subrange(0, 2) =~= wt);
            }
        }
    }
}

/// A staged status name holds no "WT" any more, so staging it again leaves it
/// as it is.
pub proof fn lemma_staged_status_is_stable(status: Seq<char>)
    ensures
        !occursIn("WT"@, replaced(status, "WT"@, "INDEX"@)),
        replaced(replaced(status, "WT"@, "INDEX"@), "WT"@, "INDEX"@) == replaced(status, "WT"@, "INDEX"@),
{
    reveal_strlit("WT");
    let r = replaced(status, "WT"@, "INDEX"@);
    lemma_staged_name_shape(status);
    if occursIn("WT"@, r) {
        let i = choose|i: int| 0 <= i <= r.len() - "WT"@.len() && #[trigger] r.subrange(i, i + "WT"@.len()) == "WT"@;
        assert(r.subrange(i, i + 2)[0] == r[i]);
        assert(r.subrange(i, i + 2)[1] == r[i + 1]);
        assert(r[i] == 'W' && r[i + 1] == 'T');
    }
    lemma_replaced_absent(r, "WT"@, "INDEX"@);
}

/// Failures of the file view actions.
#[derive(Clone, Copy, Debug, PartialEq, Eq, Structural)]
pub enum ErrorKind {
    ClearDiffView,
    CommitStagedChanges,
    CommitMessageViewBuffer,
    DisplayDiff,
    HandleChangedFileViewSelection,
    TooLargeFileViewSelection(usize),
}

/// What a change of selection in a file view leads to.
#[derive(Clone, Copy, Debug, PartialEq, Eq, Structural)]
pub enum SelectionAction {
    /// Nothing is selected: the diff view is cleared.
    ClearDiffView,
    /// One row is selected: the other file view is unselected and the diff
    /// of the selected file is shown.
    DisplayDiff,
}

/// The action for a selection of `selectedRows` rows; more than one is an error.
pub fn fileViewSelectionAction(selectedRows: usize) -> (action: Result<SelectionAction, ErrorKind>)
    ensures
        selectedRows == 0 ==> action == Ok::<SelectionAction, ErrorKind>(SelectionAction::ClearDiffView),
        selectedRows == 1 ==> action == Ok::<SelectionAction, ErrorKind>(SelectionAction::DisplayDiff),
        selectedRows > 1 ==> action == Err::<SelectionAction, ErrorKind>(ErrorKind::TooLargeFileViewSelection(selectedRows)),
{
    if selectedRows == 0 {
        Ok(SelectionAction::ClearDiffView)
    } else if selectedRows > 1 {
        Err(ErrorKind::TooLargeFileViewSelection(selectedRows))
    } else {
        Ok(SelectionAction::DisplayDiff)
    }
}

} // verus!

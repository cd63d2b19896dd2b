use rusty_git_gui::gui_actions::{convertFileStatusToStaged, convertFileStatusToUnstaged, fileViewSelectionAction, ErrorKind, SelectionAction};
use rusty_git_gui::text::{charsOf, compareText, containsText, replaceAll, textEq, TextOrder};

#[test]
fn replaceAllReplacesEveryOccurrenceWithoutOverlap() {
    assert_eq!(replaceAll("WT_NEW", "WT", "INDEX"), "INDEX_NEW");
    assert_eq!(replaceAll("aaa", "aa", "b"), "ba");
    assert_eq!(replaceAll("abc", "x", "y"), "abc");
    assert_eq!(replaceAll("", "x", "y"), "");
}

#[test]
fn statusConversionsSwitchThePrefix() {
    assert_eq!(convertFileStatusToStaged("WT_MODIFIED"), "INDEX_MODIFIED");
    assert_eq!(convertFileStatusToUnstaged("INDEX_DELETED"), "WT_DELETED");
    assert_eq!(convertFileStatusToStaged("INDEX_NEW"), "INDEX_NEW");
}

#[test]
fn statusConversionsUndoEachOther() {
    for status in ["WT_NEW", "WT_MODIFIED", "WT_DELETED", "WT_RENAMED", "WT_TYPECHANGE"] {
        assert_eq!(convertFileStatusToUnstaged(&convertFileStatusToStaged(status)), status);
    }
}

#[test]
fn textComparisonsFollowCodePoints() {
    assert_eq!(compareText("a", "b"), TextOrder::Less);
    assert_eq!(compareText("ab", "a"), TextOrder::Greater);
    assert_eq!(compareText("same", "same"), TextOrder::Equal);
    assert_eq!(compareText("Z", "a"), TextOrder::Less);
    assert!(textEq("x", "x"));
    assert!(!textEq("x", "xy"));
    assert!(containsText("hello world", "o w"));
    assert!(!containsText("hello", "world"));
    assert!(containsText("hello", ""));
    assert_eq!(charsOf("ąb"), vec!['ą', 'b']);
}

#[test]
fn fileViewSelectionOfAtMostOneRow() {
    assert_eq!(fileViewSelectionAction(0), Ok(SelectionAction::ClearDiffView));
    assert_eq!(fileViewSelectionAction(1), Ok(SelectionAction::DisplayDiff));
    assert_eq!(fileViewSelectionAction(3), Err(ErrorKind::TooLargeFileViewSelection(3)));
}

#[test]
fn stagedStatusNamesStayStaged() {
    for status in ["WT_NEW", "WWTT", "WT_WT", "INDEX_NEW", "XWTX", "W", ""] {
        let staged = convertFileStatusToStaged(status);
        assert!(!staged.contains("WT"), "{}", staged);
        assert_eq!(convertFileStatusToStaged(&staged), staged);
    }
}

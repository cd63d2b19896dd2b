use rusty_git_gui::columns::{FileChangeColumn, FileChangesColumn};
use rusty_git_gui::file_change::FileChange;
use rusty_git_gui::grouped_file_changes::{GroupedFileChanges, StagedChanges, UnstagedChanges};
use rusty_git_gui::gui_element::GuiElement;
use rusty_git_gui::gui_utils;
use rusty_git_gui::line_count::LineCount;
use rusty_git_gui::line_number::LineNumber;
use rusty_git_gui::number_casts::ToI32;
use rusty_git_gui::std_utils::{self, getOption};

#[test]
fn columnIndices() {
    assert_eq!(FileChangeColumn::asArrayOfI32(), [0, 1]);
    assert_eq!(FileChangeColumn::asArrayOfU32(), [0, 1]);
    assert_eq!(FileChangesColumn::asArrayOfI32(), [0, 1]);
    assert_eq!(i32::from(FileChangesColumn::Path), 1);
    assert_eq!(u32::from(FileChangesColumn::Status), 0);
}

#[test]
fn lineNumbersAndCounts() {
    let mut line = LineNumber::from(3);
    line.addAssign(2);
    assert_eq!(line, LineNumber(5));
    let end = line + LineCount(4);
    assert_eq!(end, LineNumber(9));
    assert_eq!(end.toI32(), 9);
    let mut count = LineCount::from(1);
    count.addAssign(6);
    assert_eq!(count, LineCount(7));
    assert_eq!(41usize.toI32(), 41);
}

#[test]
fn emptyOptionIsAnError() {
    assert_eq!(getOption(Some(3)), Ok(3));
    assert_eq!(getOption::<u8>(None), Err(std_utils::ErrorKind::EmptyOption));
    assert_eq!(std_utils::ErrorKind::EmptyOption.message(), "Option value was empty.");
}

#[test]
fn guiErrorMessages() {
    assert!(!gui_utils::ErrorKind::NoneTextViewBuffer.message().is_empty());
    assert_ne!(
        gui_utils::ErrorKind::NoneTextViewBuffer.message(),
        gui_utils::ErrorKind::NoneTextBufferContent.message()
    );
}

#[test]
fn guiElementKeepsItsName() {
    let element = GuiElement::new(7u8, "Commit button");
    assert_eq!(element.name(), "Commit button");
    assert_eq!(*element.object(), 7);
}

#[test]
fn fileChangeFromDeltaKeepsADifferentOldPath() {
    let renamed = FileChange::from("Renamed".to_string(), "new".to_string(), Some("old".to_string()));
    assert_eq!(renamed.oldPath, Some("old".to_string()));
    let same = FileChange::from("Modified".to_string(), "p".to_string(), Some("p".to_string()));
    assert_eq!(same.oldPath, None);
    let added = FileChange::from("Added".to_string(), "q".to_string(), None);
    assert_eq!(added, FileChange { status: "Added".to_string(), path: "q".to_string(), oldPath: None });
}

#[test]
fn emptyGroupedChanges() {
    let changes = GroupedFileChanges::new();
    assert!(changes.unstaged.0.is_empty());
    assert!(changes.staged.0.is_empty());
    assert!(UnstagedChanges::new().0.is_empty());
    assert!(StagedChanges::new().0.is_empty());
}

//! A changed file as the repository reports it.
use vstd::prelude::*;
use crate::text::textEq;

verus! {

/// A changed file: its git status name, its path and, for a rename, the
/// path it had before.
#[derive(Debug, PartialEq, Eq)]
pub struct FileChange {
    pub status: String,
    pub path: String,
    pub oldPath: Option<String>,
}

/// The mathematical value of a `FileChange`.
pub struct FileChangeView {
    pub status: Seq<char>,
    pub path: Seq<char>,
    pub oldPath: Option<Seq<char>>,
}

/// The character sequence of an optional text.
pub open spec fn optionalText(text: Option<String>) -> Option<Seq<char>> {
    match text {
        Some(t) => Some(t@),
        None => None,
    }
}

impl View for FileChange {
    type V = FileChangeView;

    open spec fn view(&self) -> FileChangeView {
        FileChangeView { status: self.status@, path: self.path@, oldPath: optionalText(self.oldPath) }
    }
}

/// The views of a sequence of file changes.
pub open spec fn viewsOf(fileChanges: Seq<FileChange>) -> Seq<FileChangeView> {
    fileChanges.map_values(|fileChange: FileChange| fileChange@)
}

/// A copy of an optional text.
pub fn copyOptionalText(text: &Option<String>) -> (copy: Option<String>)
    ensures
        copy == *text,
{
    match text {
        Some(t) => Some(t.clone()),
        None => None,
    }
}

impl Clone for FileChange {
    fn clone(&self) -> (copy: Self)
        ensures
            copy == *self,
    {
        FileChange { status: self.status.clone(), path: self.path.clone(), oldPath: copyOptionalText(&self.oldPath) }
    }
}

impl FileChange {
    /// The change that a diff delta describes: `status` is the delta's status
    /// name, `newPath` the path of its new side and `oldPath` that of its old
    /// side, if it has one. The old path is kept only where it differs from
    /// the new one.
    pub fn from(status: String, newPath: String, oldPath: Option<String>) -> (fileChange: Self)
        ensures
            fileChange.status == status,
            fileChange.path == newPath,
            fileChange.oldPath == (match oldPath {
                Some(p) => if p@ != newPath@ { Some(p) } else { None::<String> },
                None => None::<String>,
            }),
    {
        let mut newSelf = FileChange { status, path: newPath, oldPath: None };
        if let Some(oldPath) = oldPath {
            if !textEq(oldPath.as_str(), newSelf.path.as_str()) {
                newSelf.oldPath = Some(oldPath);
            }
        }
        newSelf
    }
}

/// A file change before and after an update of its status.
#[derive(Debug)]
pub struct FileChangeUpdate {
    pub old: FileChange,
    pub new: FileChange,
}

impl Clone for FileChangeUpdate {
    fn clone(&self) -> (copy: Self)
        ensures
            copy == *self,
    {
        FileChangeUpdate { old: self.old.clone(), new: self.new.clone() }
    }
}

} // verus!

//! Column layout of the file change list models.
use vstd::prelude::*;

verus! {

/// Columns of a file change row: its formatted status and its path.
pub enum FileChangeColumn {
    Status,
    Path,
}

/// Number of columns in a file change row.
pub const FILE_CHANGE_COLUMN_COUNT: usize = 2;

impl FileChangeColumn {
    /// Column indices as signed integers, in display order.
    pub fn asArrayOfI32() -> (columns: [i32; 2])
        ensures
            columns@ == seq![0i32, 1i32],
    {
        [0, 1]
    }

    /// Column indices as unsigned integers, in display order.
    pub fn asArrayOfU32() -> (columns: [u32; 2])
        ensures
            columns@ == seq![0u32, 1u32],
    {
        [0, 1]
    }
}


/// Columns of the file change list models: formatted status and path.
#[derive(Clone, Copy, Debug, PartialEq, Eq, Structural)]
pub enum FileChangesColumn {
    Status,
    Path,
}

impl FileChangesColumn {
    /// Column indices as signed integers, in display order.
    pub fn asArrayOfI32() -> (columns: [i32; 2])
        ensures
            columns@ == seq![0i32, 1i32],
    {
        [0, 1]
    }

    /// The index of a column.
    pub open spec fn index(self) -> int {
        match self {
            FileChangesColumn::Status => 0,
            FileChangesColumn::Path => 1,
        }
    }
}

impl From<FileChangesColumn> for i32 {
    fn from(value: FileChangesColumn) -> (index: i32) {
        match value {
            FileChangesColumn::Status => 0,
            FileChangesColumn::Path => 1,
        }
    }
}

impl vstd::std_specs::convert::FromSpecImpl<FileChangesColumn> for i32 {
    open spec fn obeys_from_spec() -> bool {
        true
    }

    open spec fn from_spec(value: FileChangesColumn) -> i32 {
        value.index() as i32
    }
}

impl From<FileChangesColumn> for u32 {
    fn from(value: FileChangesColumn) -> (index: u32) {
        match value {
            FileChangesColumn::Status => 0,
            FileChangesColumn::Path => 1,
        }
    }
}

impl vstd::std_specs::convert::FromSpecImpl<FileChangesColumn> for u32 {
    open spec fn obeys_from_spec() -> bool {
        true
    }

    open spec fn from_spec(value: FileChangesColumn) -> u32 {
        value.index() as u32
    }
}

} // verus!

//! A line number in a text, counted from 0.
use vstd::prelude::*;
use crate::line_count::LineCount;
use crate::number_casts::ToI32;

verus! {

/// A line number in a text, counted from 0.
#[derive(Clone, Copy, Debug, PartialEq, Eq, Structural)]
pub struct LineNumber(pub usize);

impl LineNumber {
    /// Moves `rhs` lines on; the sum must fit.
    pub fn addAssign(&mut self, rhs: usize)
        requires
            old(self).0 + rhs <= usize::MAX,
        ensures
            final(self).0 == old(self).0 + rhs,
    {
        self.0 = self.0 + rhs;
    }
}

impl core::ops::Add<LineCount> for LineNumber {
    type Output = LineNumber;

    fn add(self, rhs: LineCount) -> (sum: LineNumber) {
        LineNumber(self.0 + rhs.0)
    }
}

impl vstd::std_specs::ops::AddSpecImpl<LineCount> for LineNumber {
    open spec fn obeys_add_spec() -> bool {
        true
    }

    open spec fn add_req(self, rhs: LineCount) -> bool {
        self.0 + rhs.0 <= usize::MAX
    }

    open spec fn add_spec(self, rhs: LineCount) -> LineNumber {
        LineNumber((self.0 + rhs.0) as usize)
    }
}

impl From<usize> for LineNumber {
    fn from(value: usize) -> (line: LineNumber) {
        LineNumber(value)
    }
}

impl vstd::std_specs::convert::FromSpecImpl<usize> for LineNumber {
    open spec fn obeys_from_spec() -> bool {
        true
    }

    open spec fn from_spec(value: usize) -> LineNumber {
        LineNumber(value)
    }
}

impl ToI32 for LineNumber {
    open spec fn toInt(&self) -> int {
        self.0 as int
    }

    fn toI32(&self) -> (value: i32) {
        self.0 as i32
    }
}

} // verus!

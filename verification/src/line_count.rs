//! A number of lines.
use vstd::prelude::*;

verus! {

/// A number of lines.
#[derive(Clone, Copy, Debug, PartialEq, Eq, Structural)]
pub struct LineCount(pub usize);

impl LineCount {
    /// Adds `rhs` lines; the sum must fit.
    pub fn addAssign(&mut self, rhs: usize)
        requires
            old(self).0 + rhs <= usize::MAX,
        ensures
            final(self).0 == old(self).0 + rhs,
    {
        self.0 = self.0 + rhs;
    }
}

impl From<usize> for LineCount {
    fn from(value: usize) -> (count: LineCount) {
        LineCount(value)
    }
}

impl vstd::std_specs::convert::FromSpecImpl<usize> for LineCount {
    open spec fn obeys_from_spec() -> bool {
        true
    }

    open spec fn from_spec(value: usize) -> LineCount {
        LineCount(value)
    }
}

} // verus!

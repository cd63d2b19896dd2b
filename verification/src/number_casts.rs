//! Conversion of counts and positions to the `i32` that GTK takes.
use vstd::prelude::*;

verus! {

/// A value that converts to `i32` where it fits.
pub trait ToI32 {
    /// The value as an integer.
    spec fn toInt(&self) -> int;

    /// The value as an `i32`; it must fit.
    fn toI32(&self) -> (value: i32)
        requires
            i32::MIN <= self.toInt() <= i32::MAX,
        ensures
            value as int == self.toInt(),
    ;
}

impl ToI32 for usize {
    open spec fn toInt(&self) -> int {
        *self as int
    }

    fn toI32(&self) -> (value: i32) {
        *self as i32
    }
}

} // verus!

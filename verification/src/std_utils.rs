//! Turning an empty option into an error.
use vstd::prelude::*;

verus! {

/// Why a value was missing.
#[derive(Clone, Copy, Debug, PartialEq, Eq, Structural)]
pub enum ErrorKind {
    /// The option held no value.
    EmptyOption,
}

impl ErrorKind {
    /// The message that describes the error.
    pub fn message(&self) -> (text: &'static str)
        ensures
            text@ == "Option value was empty."@,
    {
        "Option value was empty."
    }
}

/// The value of an option, or `EmptyOption` where it holds none.
pub fn getOption<T>(optional: Option<T>) -> (result: Result<T, ErrorKind>)
    ensures
        match optional {
            Some(value) => result == Ok::<T, ErrorKind>(value),
            None => result == Err::<T, ErrorKind>(ErrorKind::EmptyOption),
        },
{
    match optional {
        Some(value) => Ok(value),
        None => Err(ErrorKind::EmptyOption),
    }
}

} // verus!

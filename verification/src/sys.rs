//! Checking of platform call results: the C terminal interfaces report
//! failure by returning -1, and `cvt` turns that convention into a `Result`.
use vstd::prelude::*;

use crate::TerminalQueryError;

verus! {

/// Integer return values that signal failure as -1.
pub trait IsMinusOne {
    /// What the value being -1 means in specifications.
    spec fn spec_is_minus_one(&self) -> bool;

    /// Whether the value is -1.
    fn is_minus_one(&self) -> (r: bool)
        ensures
            r == self.spec_is_minus_one(),
    ;
}

impl IsMinusOne for i8 {
    open spec fn spec_is_minus_one(&self) -> bool {
        *self == -1
    }

    fn is_minus_one(&self) -> (r: bool) {
        *self == -1
    }
}

impl IsMinusOne for i16 {
    open spec fn spec_is_minus_one(&self) -> bool {
        *self == -1
    }

    fn is_minus_one(&self) -> (r: bool) {
        *self == -1
    }
}

impl IsMinusOne for i32 {
    open spec fn spec_is_minus_one(&self) -> bool {
        *self == -1
    }

    fn is_minus_one(&self) -> (r: bool) {
        *self == -1
    }
}

impl IsMinusOne for i64 {
    open spec fn spec_is_minus_one(&self) -> bool {
        *self == -1
    }

    fn is_minus_one(&self) -> (r: bool) {
        *self == -1
    }
}

impl IsMinusOne for isize {
    open spec fn spec_is_minus_one(&self) -> bool {
        *self == -1
    }

    fn is_minus_one(&self) -> (r: bool) {
        *self == -1
    }
}

/// Turns a C-style return value into a `Result`: -1 becomes an error,
/// every other value passes through unchanged.
pub fn cvt<T: IsMinusOne>(t: T) -> (r: Result<T, TerminalQueryError>)
    ensures
        t.spec_is_minus_one() ==> r == Result::<T, TerminalQueryError>::Err(TerminalQueryError),
        !t.spec_is_minus_one() ==> r == Result::<T, TerminalQueryError>::Ok(t),
{
    if t.is_minus_one() {
        Err(TerminalQueryError)
    } else {
        Ok(t)
    }
}

} // verus!

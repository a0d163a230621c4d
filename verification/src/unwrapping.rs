use vstd::prelude::*;

use crate::messages::absence_violation;
use crate::messages::absence_violation_message;
use crate::messages::error_violation;
use crate::messages::error_violation_message;
use crate::witness::Invariant;

verus! {

/// Trusted unwrap for containers whose value may be absent.
pub trait OptionExt<T>: Sized {
    /// The optional value this container stands for.
    spec fn contents(self) -> Option<T>;

    /// Extracts the value whose presence the invariant `I` guarantees.
    ///
    /// The call only type-checks once every proof obligation of `I` has been
    /// discharged, and the precondition records what that proof claims: the
    /// value is present. A caller whose discharge was unsound reaches an
    /// absent value here, which the checked form reports at run time.
    fn unwrap_under_invariant<I: Invariant>(self) -> (r: T)
        requires
            self.contents() is Some,
        ensures
            self.contents() matches Some(v) && r == v,
    ;

    /// The run-time face of the same trust: returns the contained value when
    /// it is present, and otherwise the absence diagnostic naming `I`'s
    /// message.
    fn checked_unwrap_under_invariant<I: Invariant>(self) -> (r: Result<T, String>)
        ensures
            match r {
                Ok(v) => self.contents() matches Some(w) && v == w,
                Err(m) => self.contents() is None && m@ == absence_violation(I::spec_message()),
            },
    ;
}

impl<T> OptionExt<T> for Option<T> {
    open spec fn contents(self) -> Option<T> {
        self
    }

    fn unwrap_under_invariant<I: Invariant>(self) -> (r: T) {
        match self {
            Some(v) => v,
            None => unreached(),
        }
    }

    fn checked_unwrap_under_invariant<I: Invariant>(self) -> (r: Result<T, String>) {
        match self {
            Some(v) => Ok(v),
            None => Err(absence_violation_message(I::message())),
        }
    }
}

/// Trusted unwrap for containers whose value may be replaced by an error.
pub trait ResultExt<T, E>: Sized {
    /// The fallible value this container stands for.
    spec fn contents(self) -> Result<T, E>;

    /// Extracts the success value whose presence the invariant `I`
    /// guarantees; the precondition records the proof's claim that no error
    /// occurred.
    fn unwrap_under_invariant<I: Invariant>(self) -> (r: T)
        requires
            self.contents() is Ok,
        ensures
            self.contents() matches Ok(v) && r == v,
    ;

    /// The run-time face of the same trust: returns the success value when
    /// there is one, and otherwise the error diagnostic carrying both
    /// `error_detail` (the error's rendering, supplied by the caller since
    /// formatting lies outside this library) and `I`'s message.
    fn checked_unwrap_under_invariant<I: Invariant>(self, error_detail: &str) -> (r: Result<
        T,
        String,
    >)
        ensures
            match r {
                Ok(v) => self.contents() matches Ok(w) && v == w,
                Err(m) => self.contents() is Err && m@ == error_violation(
                    error_detail@,
                    I::spec_message(),
                ),
            },
    ;
}

impl<T, E> ResultExt<T, E> for Result<T, E> {
    open spec fn contents(self) -> Result<T, E> {
        self
    }

    fn unwrap_under_invariant<I: Invariant>(self) -> (r: T) {
        match self {
            Ok(v) => v,
            Err(_) => unreached(),
        }
    }

    fn checked_unwrap_under_invariant<I: Invariant>(self, error_detail: &str) -> (r: Result<
        T,
        String,
    >) {
        match self {
            Ok(v) => Ok(v),
            Err(_) => Err(error_violation_message(error_detail, I::message())),
        }
    }
}

} // verus!

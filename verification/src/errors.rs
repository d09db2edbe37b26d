//! Error types for failed host calls and failed narrowing conversions.

use vstd::prelude::*;

verus! {

/// An error which occurs when a host function fails. The message is not
/// very specific most of the time because host functions usually give no
/// information about the cause.
#[derive(Clone, Copy, PartialEq, Eq, Debug)]
pub struct ReaperFunctionError {
    message: &'static str,
}

impl ReaperFunctionError {
    /// The error message, for use in contracts.
    pub closed spec fn spec_message(self) -> &'static str {
        self.message
    }

    /// Creates the error with the given message.
    pub fn new(message: &'static str) -> (r: ReaperFunctionError)
        ensures
            r.spec_message() == message,
    {
        ReaperFunctionError { message }
    }

    /// Returns the error message.
    pub fn message(&self) -> (r: &'static str)
        ensures
            r == self.spec_message(),
    {
        self.message
    }
}

/// An error which occurs when converting from a type with a greater value
/// range to one with a smaller one.
#[derive(Clone, Copy, PartialEq, Eq, Debug)]
pub struct TryFromGreaterError<V> {
    message: &'static str,
    value: V,
}

impl<V: Copy> TryFromGreaterError<V> {
    /// The error message, for use in contracts.
    pub closed spec fn spec_message(self) -> &'static str {
        self.message
    }

    /// The rejected value, for use in contracts.
    pub closed spec fn spec_value(self) -> V {
        self.value
    }

    /// Creates the error from a message and the rejected value.
    pub fn new(message: &'static str, value: V) -> (r: TryFromGreaterError<V>)
        ensures
            r.spec_message() == message,
            r.spec_value() == value,
    {
        TryFromGreaterError { message, value }
    }

    /// Returns the rejected value.
    pub fn value(&self) -> (r: V)
        ensures
            r == self.spec_value(),
    {
        self.value
    }

    /// Returns the error message.
    pub fn message(&self) -> (r: &'static str)
        ensures
            r == self.spec_message(),
    {
        self.message
    }
}

} // verus!

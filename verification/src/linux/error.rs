//! The error of the Linux backends.

use vstd::prelude::*;

verus! {

/// Why a Linux backend could not do its work, in words.
///
/// Its view is the message.
#[derive(Debug)]
pub struct LinCapError {
    message: String,
}

impl View for LinCapError {
    type V = Seq<char>;

    closed spec fn view(&self) -> Seq<char> {
        self.message@
    }
}

impl LinCapError {
    /// An error with the given message.
    pub fn new(message: String) -> (r: LinCapError)
        ensures
            r@ == message@,
    {
        LinCapError { message }
    }

    /// An error whose message is `text`.
    pub fn from_text(text: &str) -> (r: LinCapError)
        ensures
            r@ == text@,
    {
        LinCapError { message: text.to_owned() }
    }

    /// An error whose message is `text` followed by `reason`.
    pub fn with_reason(text: &str, reason: &str) -> (r: LinCapError)
        ensures
            r@ == text@ + reason@,
    {
        let mut message: String = text.to_owned();
        message.append(reason);
        LinCapError { message }
    }

    /// The message.
    pub fn message(&self) -> (r: &str)
        ensures
            r@ == self@,
    {
        self.message.as_str()
    }

    /// Another error with the same message.
    pub fn duplicate(&self) -> (r: LinCapError)
        ensures
            r@ == self@,
    {
        LinCapError { message: self.message.clone() }
    }
}

/// A result with its error as the message.
pub open spec fn outcome<T>(result: Result<T, LinCapError>) -> Result<T, Seq<char>> {
    match result {
        Ok(value) => Ok(value),
        Err(error) => Err(error@),
    }
}

/// A result counts as what it holds: a value as that value, and an error as its message.
pub proof fn law_outcome_is_the_result<T>(result: Result<T, LinCapError>)
    ensures
        result matches Ok(value) ==> outcome(result) == Ok::<T, Seq<char>>(value),
        result matches Err(error) ==> outcome(result) == Err::<T, Seq<char>>(error@),
{
}

} // verus!

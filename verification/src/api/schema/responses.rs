//! How a request is refused.

use vstd::prelude::*;

verus! {

/// Why a request was refused: a code for programs and a message for people.
#[derive(Debug, PartialEq, Eq)]
pub struct ErrorBody {
    pub code: String,
    pub message: String,
}

impl View for ErrorBody {
    type V = (Seq<char>, Seq<char>);

    open spec fn view(&self) -> (Seq<char>, Seq<char>) {
        (self.code@, self.message@)
    }
}

impl ErrorBody {
    pub fn new(code: &str, message: String) -> (r: Self)
        ensures
            r@ == (code@, message@),
    {
        ErrorBody { code: code.to_owned(), message }
    }

    /// A refusal with a fixed message.
    pub fn of(code: &str, message: &str) -> (r: Self)
        ensures
            r@ == (code@, message@),
    {
        ErrorBody { code: code.to_owned(), message: message.to_owned() }
    }
}

} // verus!

//! The error type every stage of the pipeline reports.
use vstd::prelude::*;
use vstd::string::StringExecFns;

verus! {

/// A pipeline failure: a human-readable message, and optionally the text of
/// the underlying cause, for diagnostic chaining.
pub struct TonicBufBuildError {
    pub message: String,
    pub cause: Option<String>,
}

/// The mathematical model of an error: both texts as character sequences.
pub struct ErrModel {
    pub message: Seq<char>,
    pub cause: Option<Seq<char>>,
}

impl View for TonicBufBuildError {
    type V = ErrModel;

    open spec fn view(&self) -> ErrModel {
        ErrModel {
            message: self.message@,
            cause: match self.cause {
                Some(c) => Some(c@),
                None => None,
            },
        }
    }
}

impl TonicBufBuildError {
    /// An error wrapping an underlying cause.
    pub fn new(message: &str, cause: &str) -> (e: Self)
        ensures
            e@.message == message@,
            e@.cause == Some(cause@),
    {
        TonicBufBuildError { message: message.to_owned(), cause: Some(cause.to_owned()) }
    }

    /// An error with no underlying cause.
    pub fn new_without_cause(message: &str) -> (e: Self)
        ensures
            e@.message == message@,
            e@.cause is None,
    {
        TonicBufBuildError { message: message.to_owned(), cause: None }
    }

    /// The full diagnostic text: the message, then the cause if one is held.
    pub fn describe(&self) -> (s: String)
        ensures
            self@.cause is None ==> s@ == self@.message,
            self@.cause matches Some(c) ==> s@ == self@.message + ": "@ + c,
    {
        match &self.cause {
            None => self.message.clone(),
            Some(c) => {
                let mut s = self.message.clone();
                s.append(": ");
                s.append(c.as_str());
                s
            },
        }
    }
}

} // verus!

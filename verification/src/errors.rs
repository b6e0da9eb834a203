//! The error type shared by the whole crate.

use crate::text::joined;
use vstd::prelude::*;
use vstd::string::*;

verus! {

/// An error: a message, and the text of the error that caused it, if any.
#[derive(Debug, PartialEq, Eq)]
pub struct GalionError {
    /// What went wrong.
    pub message: String,
    /// The text of the underlying error.
    pub source: Option<String>,
}

/// The mathematical value of a [`GalionError`].
pub struct ErrorView {
    pub message: Seq<char>,
    pub source: Option<Seq<char>>,
}

impl ErrorView {
    /// The text shown for the error: the message, followed by the cause
    /// where there is one.
    pub open spec fn text(self) -> Seq<char> {
        match self.source {
            Some(cause) => self.message + " - caused by: "@ + cause,
            None => self.message,
        }
    }

    /// An error without a cause.
    pub open spec fn plain(message: Seq<char>) -> ErrorView {
        ErrorView { message, source: None }
    }
}

impl View for GalionError {
    type V = ErrorView;

    open spec fn view(&self) -> ErrorView {
        ErrorView {
            message: self.message@,
            source: match self.source {
                Some(cause) => Some(cause@),
                None => None,
            },
        }
    }
}

impl Clone for GalionError {
    fn clone(&self) -> (copy: Self)
        ensures
            copy@ == self@,
    {
        GalionError {
            message: self.message.clone(),
            source: match &self.source {
                Some(cause) => Some(cause.clone()),
                None => None,
            },
        }
    }
}

impl GalionError {
    /// An error with the given message and no cause.
    pub fn new(s: &str) -> (error: Self)
        ensures
            error@ == ErrorView::plain(s@),
    {
        GalionError { message: String::from_str(s), source: None }
    }

    /// An error raised by another error: its message is the cause's text.
    pub fn caused_by(cause: &str) -> (error: Self)
        ensures
            error@ == (ErrorView { message: cause@, source: Some(cause@) }),
    {
        GalionError { message: String::from_str(cause), source: Some(String::from_str(cause)) }
    }

    /// The text shown for the error.
    pub fn to_string(&self) -> (text: String)
        ensures
            text@ == self@.text(),
    {
        match &self.source {
            Some(cause) => {
                let mut text = joined(self.message.as_str(), " - caused by: ");
                text.append(cause.as_str());
                text
            },
            None => self.message.clone(),
        }
    }
}

impl From<String> for GalionError {
    fn from(message: String) -> (error: Self) {
        GalionError { message, source: None }
    }
}

impl vstd::std_specs::convert::FromSpecImpl<String> for GalionError {
    open spec fn obeys_from_spec() -> bool {
        true
    }

    open spec fn from_spec(message: String) -> Self {
        GalionError { message, source: None }
    }
}

} // verus!

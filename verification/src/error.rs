//! The application-level error type.

use vstd::prelude::*;

verus! {

/// The broad category of an application error.
#[derive(Debug, Clone, Copy, PartialEq, Eq, Structural)]
pub enum ErrorKind {
    SvnError,
}

impl ErrorKind {
    /// The display name of the category.
    pub fn name(&self) -> (r: &'static str)
        ensures
            r@ == "SvnError"@,
    {
        match self {
            ErrorKind::SvnError => "SvnError",
        }
    }
}

/// An application error: a category and a message.
#[derive(Debug, PartialEq, Eq)]
pub struct Error {
    pub kind: ErrorKind,
    pub message: String,
}

impl Error {
    /// Render the error as `kind: message`.
    pub fn display_message(&self) -> (r: String)
        ensures
            r@ == "SvnError"@ + ": "@ + self.message@,
    {
        let mut m = String::from_str(self.kind.name());
        m.append(": ");
        m.append(self.message.as_str());
        m
    }
}

} // verus!

//! Errors raised while interpreting Subversion output.

use vstd::prelude::*;

verus! {

/// A failure reported while fetching or interpreting Subversion output.
/// I/O failures are carried as their message text.
#[derive(Debug)]
pub enum Error {
    PathNotUnderVersionControl(String),
    BranchParseFailure,
    UnrecognisedStatus(String),
    Unknown(String),
    Io(String),
}

impl Error {
    /// What two equal errors look like: payload-carrying variants compare
    /// by payload, except `UnrecognisedStatus`, which never compares
    /// equal (not even to itself).
    pub open spec fn spec_eq(&self, other: &Error) -> bool {
        match (self, other) {
            (Error::PathNotUnderVersionControl(p), Error::PathNotUnderVersionControl(q)) => p@
                == q@,
            (Error::Io(a), Error::Io(b)) => a@ == b@,
            (Error::Unknown(a), Error::Unknown(b)) => a@ == b@,
            (Error::BranchParseFailure, Error::BranchParseFailure) => true,
            _ => false,
        }
    }

    /// The human-readable message for this error.
    pub open spec fn spec_message(&self) -> Seq<char> {
        match self {
            Error::PathNotUnderVersionControl(p) => "Not svn controlled: "@ + p@,
            Error::Io(m) => m@,
            Error::Unknown(m) => m@,
            Error::UnrecognisedStatus(s) => "Unrecognised status: "@ + s@,
            Error::BranchParseFailure => "failed to parse URL from svn info"@,
        }
    }

    /// Render the error as its message text.
    pub fn message(&self) -> (r: String)
        ensures
            r@ == self.spec_message(),
    {
        match self {
            Error::PathNotUnderVersionControl(p) => {
                let mut m = String::from_str("Not svn controlled: ");
                m.append(p.as_str());
                m
            },
            Error::Io(m) => m.clone(),
            Error::Unknown(m) => m.clone(),
            Error::UnrecognisedStatus(s) => {
                let mut m = String::from_str("Unrecognised status: ");
                m.append(s.as_str());
                m
            },
            Error::BranchParseFailure => String::from_str("failed to parse URL from svn info"),
        }
    }

    /// Classify failure text reported by the tool; everything falls back
    /// to `Unknown` carrying the text.
    pub fn from_message(value: &str) -> (r: Error)
        ensures
            r matches Error::Unknown(m) && m@ == value@,
    {
        Error::Unknown(String::from_str(value))
    }
}

impl PartialEq for Error {
    fn eq(&self, other: &Self) -> (r: bool) {
        match (self, other) {
            (Error::PathNotUnderVersionControl(p), Error::PathNotUnderVersionControl(q)) => *p
                == *q,
            (Error::Io(a), Error::Io(b)) => *a == *b,
            (Error::Unknown(a), Error::Unknown(b)) => *a == *b,
            (Error::BranchParseFailure, Error::BranchParseFailure) => true,
            _ => false,
        }
    }
}

impl vstd::std_specs::cmp::PartialEqSpecImpl for Error {
    open spec fn obeys_eq_spec() -> bool {
        true
    }

    open spec fn eq_spec(&self, other: &Error) -> bool {
        self.spec_eq(other)
    }
}

} // verus!

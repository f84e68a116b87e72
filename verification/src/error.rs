//! The failures that the library reports.

use vstd::prelude::*;

verus! {

/// Why an operation was refused or could not be completed.
#[derive(Debug)]
pub enum Error {
    /// A selector argument is missing, contradictory or invalid.
    InputError(String),
    /// An identifier does not follow the grammar of node identifiers.
    FormatError(String),
    /// A pattern of a selector is no regular expression.
    CompileError(String),
    /// An identifier is not a member of the group it was required to be in.
    MembershipError(String),
    /// The transport failed; the cause is carried as text.
    NetworkError(String),
    /// The inventory service answered with a failure status.
    BackendError { status: u16, payload: String },
}

impl Error {
    /// The text that the error carries.
    pub fn message(&self) -> (m: String)
        ensures
            m@ == self.text(),
    {
        match self {
            Error::InputError(m) => m.clone(),
            Error::FormatError(m) => m.clone(),
            Error::CompileError(m) => m.clone(),
            Error::MembershipError(m) => m.clone(),
            Error::NetworkError(m) => m.clone(),
            Error::BackendError { status: _, payload } => payload.clone(),
        }
    }

    /// The text of the error: its message, or the payload of the answer.
    pub open spec fn text(&self) -> Seq<char> {
        match self {
            Error::InputError(m) => m@,
            Error::FormatError(m) => m@,
            Error::CompileError(m) => m@,
            Error::MembershipError(m) => m@,
            Error::NetworkError(m) => m@,
            Error::BackendError { status, payload } => payload@,
        }
    }
}

} // verus!

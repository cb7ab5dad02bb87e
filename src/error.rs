use vstd::prelude::*;

verus! {

/// The failures that every fallible operation of the client reports.
#[derive(Debug)]
pub enum Error {
    /// A non-success response whose body carried no decodable error message.
    Status { status: u16 },
    /// A non-success response whose body carried an error message.
    Api { status: u16, message: String },
    /// The transport failed before a response (or an open connection) was had.
    Download { detail: String },
    /// A success response whose body did not have the requested shape.
    Json { detail: String },
}

impl Error {
    pub open spec fn is_status(&self, status: u16) -> bool {
        self == (Error::Status { status })
    }

    pub open spec fn is_api(&self, status: u16, message: Seq<char>) -> bool {
        match self {
            Error::Api { status: s, message: m } => *s == status && m@ == message,
            _ => false,
        }
    }
}

} // verus!

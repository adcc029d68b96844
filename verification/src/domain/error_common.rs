//! The two kinds of failure that the domain knows.

use vstd::prelude::*;
use vstd::string::StringExecFns;

verus! {

/// The status of a response to a request that succeeded.
pub const STATUS_OK: u16 = 200;

/// The status of a response to an internal failure.
pub const STATUS_INTERNAL_SERVER_ERROR: u16 = 500;

/// The numbers that are HTTP statuses: three decimal digits.
pub open spec fn is_status(status: u16) -> bool {
    100 <= status <= 999
}

/// A failure as the domain reports it: either an internal one, of which the
/// caller learns nothing, or one that names its own status and message.
#[derive(Clone, Debug)]
pub enum ErrorCommon {
    InternalServerError,
    CustomError { status_code: u16, message: String },
}

impl ErrorCommon {
    /// The status that the failure carries, if it carries one, is an HTTP
    /// status.
    pub open spec fn wf(self) -> bool {
        match self {
            ErrorCommon::InternalServerError => true,
            ErrorCommon::CustomError { status_code, .. } => is_status(status_code),
        }
    }

    /// The text shown to the caller.
    pub open spec fn text(self) -> Seq<char> {
        match self {
            ErrorCommon::InternalServerError => "Internal Server Error"@,
            ErrorCommon::CustomError { message, .. } => message@,
        }
    }

    /// The HTTP status that answers this failure.
    pub open spec fn status(self) -> u16 {
        match self {
            ErrorCommon::InternalServerError => STATUS_INTERNAL_SERVER_ERROR,
            ErrorCommon::CustomError { status_code, .. } => status_code,
        }
    }

    /// The text shown to the caller: a fixed one for an internal failure, the
    /// carried message otherwise.
    pub fn to_string(&self) -> (r: String)
        ensures
            r@ == self.text(),
    {
        match self {
            ErrorCommon::InternalServerError => String::from_str("Internal Server Error"),
            ErrorCommon::CustomError { message, .. } => message.clone(),
        }
    }

    /// The HTTP status that answers this failure: 500 for an internal one,
    /// the carried status otherwise.
    pub fn status_code(&self) -> (r: u16)
        ensures
            r == self.status(),
    {
        match self {
            ErrorCommon::InternalServerError => STATUS_INTERNAL_SERVER_ERROR,
            ErrorCommon::CustomError { status_code, .. } => *status_code,
        }
    }
}

} // verus!

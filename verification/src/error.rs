//! The server's errors and the answer a client is given for each.

use vstd::prelude::*;
use vstd::string::StringExecFns;

verus! {

/// What went wrong while serving a request.
#[derive(Clone, Debug, PartialEq, Eq)]
pub enum Error {
    NoAuthError,
    DatabaseConnectionError,
    DatabaseQueryError,
    AxumError { why: String },
    IOError { why: String },
    Error { why: String },
    /// Also the answer when the checksum given with a request does not match.
    NoMediaFound,
}

pub type Result<T> = core::result::Result<T, Error>;

/// The error a client sees: no internal detail beyond the `why` text.
#[derive(Clone, Debug, PartialEq, Eq)]
#[allow(non_camel_case_types)]
pub enum ClientError {
    NO_AUTH,
    BAD_REQUEST { why: String },
    INTERNAL_ERROR { why: String },
}

/// HTTP status codes the server answers errors with.
pub const STATUS_BAD_REQUEST: u16 = 400;
pub const STATUS_FORBIDDEN: u16 = 403;
pub const STATUS_INTERNAL_SERVER_ERROR: u16 = 500;

/// The status code an error is answered with.
pub open spec fn status_of(e: Error) -> u16 {
    match e {
        Error::NoAuthError => STATUS_FORBIDDEN,
        Error::Error { .. } | Error::NoMediaFound => STATUS_BAD_REQUEST,
        _ => STATUS_INTERNAL_SERVER_ERROR,
    }
}

/// The text a client is told about an error, for the errors that carry one.
pub open spec fn client_why(e: Error) -> Seq<char> {
    match e {
        Error::NoAuthError => Seq::empty(),
        Error::DatabaseConnectionError | Error::DatabaseQueryError => "Internal database error."@,
        Error::AxumError { why } => why@,
        Error::IOError { why } => why@,
        Error::Error { why } => why@,
        Error::NoMediaFound => "No file found."@,
    }
}

/// Errors are answered by their kind alone, whatever text they carry:
/// refused authentication with 403, a bad request or a missing file with 400,
/// and failures of the database, the HTTP layer or the disk with 500.
pub proof fn lemma_status_by_kind(why: String)
    ensures
        status_of(Error::NoAuthError) == 403,
        status_of(Error::Error { why }) == 400,
        status_of(Error::NoMediaFound) == 400,
        status_of(Error::DatabaseConnectionError) == 500,
        status_of(Error::DatabaseQueryError) == 500,
        status_of(Error::AxumError { why }) == 500,
        status_of(Error::IOError { why }) == 500,
{
}

impl ClientError {
    /// The `why` text of the client error (empty for `NO_AUTH`).
    pub open spec fn why_view(self) -> Seq<char> {
        match self {
            ClientError::NO_AUTH => Seq::empty(),
            ClientError::BAD_REQUEST { why } => why@,
            ClientError::INTERNAL_ERROR { why } => why@,
        }
    }
}

impl Error {
    /// The HTTP status and the client-facing error for this error.
    /// Database failures are reported without their details.
    pub fn to_status_and_client_error(&self) -> (res: (u16, ClientError))
        ensures
            res.0 == status_of(*self),
            res.1.why_view() == client_why(*self),
            (res.1 is NO_AUTH) <==> res.0 == STATUS_FORBIDDEN,
            (res.1 is BAD_REQUEST) <==> res.0 == STATUS_BAD_REQUEST,
            (res.1 is INTERNAL_ERROR) <==> res.0 == STATUS_INTERNAL_SERVER_ERROR,
            match *self {
                Error::NoAuthError => res.0 == 403 && res.1 is NO_AUTH,
                Error::DatabaseConnectionError | Error::DatabaseQueryError => res.0 == 500
                    && res.1 is INTERNAL_ERROR && res.1.why_view() == "Internal database error."@,
                Error::AxumError { why } => res.0 == 500 && res.1 is INTERNAL_ERROR
                    && res.1.why_view() == why@,
                Error::IOError { why } => res.0 == 500 && res.1 is INTERNAL_ERROR
                    && res.1.why_view() == why@,
                Error::Error { why } => res.0 == 400 && res.1 is BAD_REQUEST
                    && res.1.why_view() == why@,
                Error::NoMediaFound => res.0 == 400 && res.1 is BAD_REQUEST
                    && res.1.why_view() == "No file found."@,
            },
    {
        match self {
            Error::NoAuthError => (STATUS_FORBIDDEN, ClientError::NO_AUTH),
            Error::DatabaseConnectionError | Error::DatabaseQueryError => (
                STATUS_INTERNAL_SERVER_ERROR,
                ClientError::INTERNAL_ERROR { why: String::from_str("Internal database error.") },
            ),
            Error::AxumError { why } => (
                STATUS_INTERNAL_SERVER_ERROR,
                ClientError::INTERNAL_ERROR { why: why.clone() },
            ),
            Error::Error { why } => (
                STATUS_BAD_REQUEST,
                ClientError::BAD_REQUEST { why: why.clone() },
            ),
            Error::IOError { why } => (
                STATUS_INTERNAL_SERVER_ERROR,
                ClientError::INTERNAL_ERROR { why: why.clone() },
            ),
            Error::NoMediaFound => (
                STATUS_BAD_REQUEST,
                ClientError::BAD_REQUEST { why: String::from_str("No file found.") },
            ),
        }
    }

    /// The error for an upload that carried no field at all.
    pub fn no_content() -> (e: Error)
        ensures
            e matches Error::Error { why } && why@ == "No content uploaded"@,
    {
        Error::Error { why: String::from_str("No content uploaded") }
    }

    /// The error for a failed read of the multipart body, given the failure's text.
    pub fn multipart(body_text: &str) -> (e: Error)
        ensures
            e matches Error::AxumError { why } && why@ == "Multipart error: "@ + body_text@,
    {
        let mut why = String::from_str("Multipart error: ");
        why.append(body_text);
        Error::AxumError { why }
    }

    /// The error for a failed read of an upload chunk, given the failure's text.
    pub fn chunk(body_text: &str) -> (e: Error)
        ensures
            e matches Error::AxumError { why } && why@ == "Chunk error: "@ + body_text@,
    {
        let mut why = String::from_str("Chunk error: ");
        why.append(body_text);
        Error::AxumError { why }
    }
}

} // verus!

//! Error types shared by the whole gateway: the caller-facing
//! `BlockfrostError` document and the internal `AppError`.

use vstd::prelude::*;
use vstd::string::StringExecFns;

verus! {

/// Caller-facing error document: a short `error` title, a longer `message`,
/// and the HTTP status code the response carries.
#[derive(Debug, Clone, PartialEq, Eq)]
pub struct BlockfrostError {
    pub error: String,
    pub message: String,
    pub status_code: u16,
}

impl BlockfrostError {
    /// The 404 document for unknown routes.
    pub fn not_found() -> (r: Self)
        ensures
            r.error@ == "Not Found"@,
            r.message@ == "The requested component has not been found."@,
            r.status_code == 404,
    {
        BlockfrostError {
            error: String::from_str("Not Found"),
            message: String::from_str("The requested component has not been found."),
            status_code: 404,
        }
    }

    /// A 400 document with a caller-supplied message.
    pub fn custom_400(message: String) -> (r: Self)
        ensures
            r.error@ == "Bad Request"@,
            r.message@ == message@,
            r.status_code == 400,
    {
        BlockfrostError { error: String::from_str("Bad Request"), message, status_code: 400 }
    }

    /// A 500 document carrying internal detail; middleware replaces it with
    /// the generic user-facing variant before it leaves the server.
    pub fn internal_server_error(error: String) -> (r: Self)
        ensures
            r.error@ == "Internal Server Error"@,
            r.message@ == error@,
            r.status_code == 500,
    {
        BlockfrostError {
            error: String::from_str("Internal Server Error"),
            message: error,
            status_code: 500,
        }
    }

    /// The generic 500 document that callers are allowed to see.
    pub fn internal_server_error_user() -> (r: Self)
        ensures
            r.error@ == "Internal Server Error"@,
            r.message@ == "An unexpected response was received from the backend."@,
            r.status_code == 500,
    {
        BlockfrostError {
            error: String::from_str("Internal Server Error"),
            message: String::from_str("An unexpected response was received from the backend."),
            status_code: 500,
        }
    }

    /// The 400 document used when a request reaches the server with a
    /// method no route accepts.
    pub fn method_not_allowed() -> (r: Self)
        ensures
            r.error@ == "Bad Request"@,
            r.message@ == "Invalid path. Please check https://docs.blockfrost.io/"@,
            r.status_code == 400,
    {
        Self::custom_400(String::from_str("Invalid path. Please check https://docs.blockfrost.io/"))
    }

    /// A plain-text account of the error, for logs.
    pub fn to_message_string(&self) -> (r: String)
        ensures
            r@ == "BlockfrostError: "@ + self.message@,
    {
        let mut s = String::from_str("BlockfrostError: ");
        s.append(self.message.as_str());
        s
    }
}

/// Internal error of the gateway itself, before it is turned into a
/// caller-facing document.
#[derive(Debug, Clone, PartialEq, Eq)]
pub enum AppError {
    Node(String),
    Registration(String),
    Server(String),
}

impl AppError {
    /// The message carried by the error, whichever class it is.
    pub open spec fn spec_message(&self) -> Seq<char> {
        match self {
            AppError::Node(m) => m@,
            AppError::Registration(m) => m@,
            AppError::Server(m) => m@,
        }
    }

    /// The message carried by the error, whichever class it is.
    pub fn message(&self) -> (r: &String)
        ensures
            r@ == self.spec_message(),
    {
        match self {
            AppError::Node(m) => m,
            AppError::Registration(m) => m,
            AppError::Server(m) => m,
        }
    }

    /// Turns an internal error into the 500 document shown to callers,
    /// keeping the message.
    pub fn to_blockfrost_error(&self) -> (r: BlockfrostError)
        ensures
            r.status_code == 500,
            r.error@ == "Internal Server Error"@,
            r.message@ == self.spec_message(),
    {
        BlockfrostError::internal_server_error(self.message().clone())
    }
}

} // verus!

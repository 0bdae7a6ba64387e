//! The errors of the client, and which of them are worth another attempt.

use vstd::prelude::*;
use crate::order::CancelOrderResponse;
use crate::order::ShipOrderResponse;

verus! {

#[verifier::external_type_specification]
#[verifier::external_body]
pub struct ExUrlParseError(url::ParseError);

/// Everything that can go wrong between building a request and holding a
/// decoded answer.
#[derive(Debug)]
pub enum NeweggError {
    /// The server answered with a status other than 200. `body` is the
    /// response text with a leading byte-order mark removed.
    Request { path: String, status: u16, body: String },
    /// The server answered 200 but the body could not be read as the expected
    /// value. `msg` is the decoder's diagnostic, `body` the text it was given.
    Deserialize { msg: String, body: String },
    /// The marketplace received the cancellation and turned it down.
    CancelOrderNotSuccess(CancelOrderResponse),
    /// The marketplace received the shipment notice and rejected a package.
    ShipOrderNotSuccess(ShipOrderResponse),
    /// The connection failed or the transport gave up.
    Http(String),
    /// A request body could not be written as JSON.
    Json(String),
    /// A configured credential cannot be sent as the named header.
    InvalidHeader(&'static str),
    /// A report file URL is not a URL.
    Url(url::ParseError),
    /// The file transfer session failed.
    Ftp(String),
    /// A report file URL lacks a part that the transfer needs.
    FtpUrl(String),
    /// Reading a transferred file failed.
    Io(String),
    /// A blocking task did not run to its end.
    Runtime(String),
}

pub type NeweggResult<T> = Result<T, NeweggError>;

/// The response statuses after which the same request may be sent again:
/// too many requests, internal server error, service unavailable.
pub open spec fn retryable_status(status: u16) -> bool {
    status == 429 || status == 500 || status == 503
}

impl NeweggError {
    pub open spec fn is_request(&self, path: Seq<char>, status: u16, body: Seq<char>) -> bool {
        &&& self matches NeweggError::Request { path: p, status: s, body: b }
        &&& p@ == path
        &&& s == status
        &&& b@ == body
    }

    pub open spec fn is_deserialize(&self, msg: Seq<char>, body: Seq<char>) -> bool {
        &&& self matches NeweggError::Deserialize { msg: m, body: b }
        &&& m@ == msg
        &&& b@ == body
    }

    pub open spec fn is_invalid_header(&self, name: Seq<char>) -> bool {
        &&& self matches NeweggError::InvalidHeader(n)
        &&& n@ == name
    }

    pub open spec fn is_ftp_url(&self, msg: Seq<char>) -> bool {
        &&& self matches NeweggError::FtpUrl(m)
        &&& m@ == msg
    }

    pub open spec fn is_runtime(&self, msg: Seq<char>) -> bool {
        &&& self matches NeweggError::Runtime(m)
        &&& m@ == msg
    }

    /// Only a failed request can be retryable, and only by its status.
    pub open spec fn spec_should_try_again(&self) -> bool {
        match self {
            NeweggError::Request { status, .. } => retryable_status(*status),
            _ => false,
        }
    }

    /// Whether sending the same request again may succeed. True exactly for a
    /// failed request whose status is 429, 500 or 503; an error of any other
    /// kind is never retried on its own.
    pub fn should_try_again(&self) -> (again: bool)
        ensures
            again == self.spec_should_try_again(),
    {
        match self {
            NeweggError::Request { status, .. } => {
                let code: u16 = *status;
                code == 429 || code == 500 || code == 503
            },
            _ => false,
        }
    }
}

} // verus!

//! The errors that a client of the gateway sees.

use vstd::prelude::*;
use crate::error::{Error, ErrorDetails};
use crate::json::{json_quote, json_string, json_to_string};
use crate::text::{decimal, decimal_string, opt_text};

verus! {

/// An error from within the gateway, as a client holds it.
#[derive(Debug, PartialEq)]
pub struct TensorZeroInternalError(pub Error);

/// An error of a call of the gateway.
#[derive(Debug, PartialEq)]
#[non_exhaustive]
pub enum TensorZeroError {
    /// The gateway answered with an HTTP status that stands for a failure,
    /// or an embedded gateway failed in a way that has such a status.
    Http { status_code: u16, text: Option<String>, source: TensorZeroInternalError },
    /// Any other failure.
    Other { source: TensorZeroInternalError },
    /// The call took longer than it may.
    RequestTimeout,
    /// The state of the working copy could not be read.
    Git { message: String },
}

/// Why a client could not be built.
#[derive(Debug, PartialEq)]
#[non_exhaustive]
pub enum ClientBuilderError {
    MissingConfig,
    MissingGatewayUrl,
    NotHTTPGateway,
    Clickhouse(TensorZeroError),
    ConfigParsing(TensorZeroError),
    HTTPClientBuild(TensorZeroError),
    GatewayVersion(String),
}

impl From<Error> for TensorZeroInternalError {
    fn from(e: Error) -> (r: TensorZeroInternalError) {
        TensorZeroInternalError(e)
    }
}

impl vstd::std_specs::convert::FromSpecImpl<Error> for TensorZeroInternalError {
    open spec fn obeys_from_spec() -> bool {
        true
    }

    open spec fn from_spec(e: Error) -> TensorZeroInternalError {
        TensorZeroInternalError(e)
    }
}

impl TensorZeroInternalError {
    /// The message of this error.
    pub open spec fn text(self) -> Seq<char> {
        "Internal TensorZero Error: "@ + self.0.details.text()
    }

    /// Writes the message of this error.
    pub fn message(&self) -> (r: String)
        ensures
            r@ == self.text(),
    {
        let mut s = String::from_str("Internal TensorZero Error: ");
        let inner = self.0.message();
        s.append(inner.as_str());
        s
    }
}

impl TensorZeroError {
    /// The message of this error.
    pub open spec fn text(self) -> Seq<char> {
        match self {
            TensorZeroError::Http { status_code, text, .. } => "HTTP Error (status code "@ + decimal(
                status_code as nat,
            ) + "): "@ + (match text {
                Some(t) => t@,
                None => Seq::<char>::empty(),
            }),
            TensorZeroError::Other { source } => source.text(),
            TensorZeroError::RequestTimeout => "HTTP Error: request timed out"@,
            TensorZeroError::Git { message } => "Failed to get git info: "@ + message@,
        }
    }

    /// Writes the message of this error.
    pub fn message(&self) -> (r: String)
        ensures
            r@ == self.text(),
    {
        match self {
            TensorZeroError::Http { status_code, text, .. } => {
                let mut s = String::from_str("HTTP Error (status code ");
                let code = decimal_string(*status_code as u64);
                s.append(code.as_str());
                s.append("): ");
                match text {
                    Some(t) => {
                        s.append(t.as_str());
                    },
                    None => {
                        assert(s@ + Seq::<char>::empty() =~= s@);
                    },
                }
                s
            },
            TensorZeroError::Other { source } => source.message(),
            TensorZeroError::RequestTimeout => String::from_str("HTTP Error: request timed out"),
            TensorZeroError::Git { message } => {
                let mut s = String::from_str("Failed to get git info: ");
                s.append(message.as_str());
                s
            },
        }
    }

    /// This error is an `Other` around an error of the gateway of kind `details`.
    pub open spec fn is_other(self, details: ErrorDetails) -> bool {
        self matches TensorZeroError::Other { source } && source.0.details == details
    }

    /// This error is an `Other` around an `InternalError` with the text `t`.
    pub open spec fn is_internal(self, t: Seq<char>) -> bool {
        self matches TensorZeroError::Other { source }
            && source.0.details matches ErrorDetails::InternalError { message } && message@ == t
    }
}

/// An `Other` around an error of the gateway of kind `details`.
pub fn other(details: ErrorDetails) -> (e: TensorZeroError)
    ensures
        e.is_other(details),
{
    TensorZeroError::Other { source: TensorZeroInternalError(Error::new(details)) }
}

/// The body of the HTTP answer that stands for an error with the message
/// `message`: the compact text of a JSON object with the one member `error`.
pub open spec fn error_body(message: Seq<char>) -> Seq<char> {
    "{\"error\":"@ + json_quote(message) + "}"@
}

/// Shapes an error of an embedded gateway as if it had come over HTTP: with
/// the status that stands for its kind, and a body that holds its message.
pub fn err_to_http(e: Error) -> (r: TensorZeroError)
    ensures
        r matches TensorZeroError::Http { status_code, text, source } && status_code
            == e.details.status() && opt_text(text) == Some(error_body(e.details.text()))
            && source.0 == e,
{
    let status_code = e.status_code();
    let quoted = json_to_string(&json_string(e.message()));
    let mut body = String::from_str("{\"error\":");
    body.append(quoted.as_str());
    body.append("}");
    TensorZeroError::Http { status_code, text: Some(body), source: TensorZeroInternalError(e) }
}

} // verus!

//! The closed set of failures a client operation can return.

use vstd::prelude::*;
use vstd::string::StringExecFns;

verus! {

/// A failure of a client operation.
#[derive(Debug, PartialEq)]
pub enum ClientError {
    /// Transport-level failure, carrying the transport's own message.
    Http(String),
    /// The response body could not be decoded: `cause` is the decoder's
    /// message, `body` is the raw body as best-effort text.
    Json { cause: String, body: String },
    /// The API itself reported a failure, carrying its message.
    Other(String),
}

/// Abstract value of a [`ClientError`].
#[verifier::ext_equal]
pub enum ClientErrorView {
    Http(Seq<char>),
    Json { cause: Seq<char>, body: Seq<char> },
    Other(Seq<char>),
}

impl View for ClientError {
    type V = ClientErrorView;

    open spec fn view(&self) -> ClientErrorView {
        match self {
            ClientError::Http(m) => ClientErrorView::Http(m@),
            ClientError::Json { cause, body } => ClientErrorView::Json {
                cause: cause@,
                body: body@,
            },
            ClientError::Other(m) => ClientErrorView::Other(m@),
        }
    }
}

impl ClientError {
    /// A one-line description of the failure.
    pub fn describe(&self) -> (r: String)
        ensures
            r@ == match self@ {
                ClientErrorView::Http(m) => "HTTP error: "@ + m,
                ClientErrorView::Json { cause, body } => "JSON parse error: "@ + cause
                    + ". Response: "@ + body,
                ClientErrorView::Other(m) => "Other error: "@ + m,
            },
    {
        match self {
            ClientError::Http(m) => String::from_str("HTTP error: ").concat(m.as_str()),
            ClientError::Json { cause, body } => String::from_str("JSON parse error: ").concat(
                cause.as_str(),
            ).concat(". Response: ").concat(body.as_str()),
            ClientError::Other(m) => String::from_str("Other error: ").concat(m.as_str()),
        }
    }
}

} // verus!

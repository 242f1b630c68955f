//! Errors returned by the client.

use reqwest::Error as TransportError;
use serde_json::Error as JsonError;
use vstd::prelude::*;

verus! {

/// The transport error of the HTTP client, carried opaquely.
#[verifier::external_type_specification]
#[verifier::external_body]
pub struct ExTransportError(TransportError);

/// The JSON decoding error, carried opaquely.
#[verifier::external_type_specification]
#[verifier::external_body]
pub struct ExJsonError(JsonError);

/// Possible failures of a call to the gateway.
#[derive(Debug)]
#[non_exhaustive]
pub enum Error {
    /// HTTP transport failure (network, TLS, timeout, ...).
    Transport(TransportError),
    /// Non-2xx answer from the gateway; `detail` holds the raw body.
    Api {
        /// HTTP status code.
        status: u16,
        /// Raw body of the error answer (often JSON).
        detail: String,
    },
    /// A response body could not be decoded.
    Decode(JsonError),
    /// An invalid URL was given to the client or produced from its base URL.
    InvalidUrl(String),
    /// The server-sent event stream could not be read.
    Stream(String),
}

impl Error {
    /// Builds the error that a non-2xx answer maps to; a body that could not
    /// be read gives an empty `detail`.
    pub fn api(status: u16, body: Option<String>) -> (e: Error)
        ensures
            e matches Error::Api { status: s, detail } && s == status && (match body {
                Some(b) => detail == b,
                None => detail@ == Seq::<char>::empty(),
            }),
    {
        let detail = match body {
            Some(b) => b,
            None => String::new(),
        };
        Error::Api { status, detail }
    }
}

} // verus!

use vstd::prelude::*;
use crate::transport;

verus! {

/// Why an API operation failed.
#[derive(Debug, Clone)]
pub enum Error {
    /// The exchange failed, or its body could not be decoded.
    TransportError { source: transport::Error },
    /// The server answered with a well-formed rejection carrying this description.
    YandexError { description: String },
    /// The caller's authorization callback failed with this message.
    AuthorizationCallbackError { message: String },
}

} // verus!

use vstd::prelude::*;

verus! {

/// A failure below the API level: the exchange itself or the decoding of its body.
#[derive(Debug, Clone)]
pub enum Error {
    /// The request could not be made, or the server answered with an error status.
    NetworkError { message: String },
    /// The response body is not JSON, or not of the expected shape.
    ParseError { message: String },
}

impl Error {
    /// A network failure described by `message`.
    pub fn from_network_error(message: String) -> (r: Error)
        ensures
            r matches Error::NetworkError { message: m } && m@ == message@,
    {
        Error::NetworkError { message }
    }

    /// A decoding failure described by `message`.
    pub fn from_parse_error(message: String) -> (r: Error)
        ensures
            r matches Error::ParseError { message: m } && m@ == message@,
    {
        Error::ParseError { message }
    }
}

} // verus!

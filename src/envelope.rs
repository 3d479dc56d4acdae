use vstd::prelude::*;
use vstd::string::*;
use crate::error::Error;
use crate::transport;

verus! {

/// A decoded response: the server's rejection or the expected payload.
#[derive(Debug, Clone)]
pub enum Rsp<T> {
    Error { error: String },
    OK(T),
}

/// What a JSON reading of a response body found.
#[derive(Debug, Clone)]
pub enum Decoded<T> {
    /// The body is not JSON; the parser's message.
    Malformed { message: String },
    /// The body is JSON. `error` holds the string member `error` when there is one,
    /// `payload` the body read as the expected success shape when it has that shape.
    Json { error: Option<String>, payload: Option<T> },
}

/// The message given when a JSON body has neither shape.
pub open spec fn shape_mismatch_message() -> Seq<char> {
    "data did not match any variant of the response envelope"@
}

/// `r` is the envelope that a decoded body denotes: a body with a string `error`
/// member is a rejection; otherwise one of the success shape is the payload;
/// anything else fails to parse.
pub open spec fn envelope_of<T>(d: Decoded<T>, r: Result<Rsp<T>, transport::Error>) -> bool {
    match d {
        Decoded::Malformed { message } => r matches Err(transport::Error::ParseError { message: m })
            && m@ == message@,
        Decoded::Json { error, payload } => match error {
            Some(e) => r matches Ok(Rsp::Error { error: x }) && x@ == e@,
            None => match payload {
                Some(v) => r == Ok::<Rsp<T>, transport::Error>(Rsp::OK(v)),
                None => r matches Err(transport::Error::ParseError { message: m })
                    && m@ == shape_mismatch_message(),
            },
        },
    }
}

/// `r` is what an envelope means to the caller: its payload, or the rejection.
pub open spec fn result_of<T>(rsp: Rsp<T>, r: Result<T, Error>) -> bool {
    match rsp {
        Rsp::Error { error } => r matches Err(Error::YandexError { description }) && description@ == error@,
        Rsp::OK(v) => r == Ok::<T, Error>(v),
    }
}

/// The body was read as JSON and carries a string `error` member.
pub open spec fn is_rejection<T>(d: Decoded<T>) -> bool {
    d matches Decoded::Json { error: Some(_), .. }
}

/// The body was read as JSON of the success shape, with no `error` member.
pub open spec fn is_success<T>(d: Decoded<T>) -> bool {
    d matches Decoded::Json { error: None, payload: Some(_) }
}

impl<T> Rsp<T> {
    /// The payload, or the server's rejection as an error.
    pub fn into_result(self) -> (r: Result<T, Error>)
        ensures
            result_of(self, r),
    {
        match self {
            Rsp::Error { error } => Err(Error::YandexError { description: error }),
            Rsp::OK(v) => Ok(v),
        }
    }
}

/// Decodes a response body into its envelope.
pub fn decode_envelope<T>(d: Decoded<T>) -> (r: Result<Rsp<T>, transport::Error>)
    ensures
        envelope_of(d, r),
{
    match d {
        Decoded::Malformed { message } => Err(transport::Error::ParseError { message }),
        Decoded::Json { error, payload } => match error {
            Some(e) => Ok(Rsp::Error { error: e }),
            None => match payload {
                Some(v) => Ok(Rsp::OK(v)),
                None => Err(transport::Error::ParseError {
                    message: String::from_str("data did not match any variant of the response envelope"),
                }),
            },
        },
    }
}

/// Decodes a response body into the payload or the failure it reports.
pub fn decode_response<T>(d: Decoded<T>) -> (r: Result<T, Error>)
    ensures
        is_success(d) ==> r == Ok::<T, Error>(d->payload.unwrap()),
        is_rejection(d) ==> (r matches Err(Error::YandexError { description })
            && description@ == d->error.unwrap()@),
        !is_success(d) && !is_rejection(d) ==> (r matches Err(Error::TransportError {
            source: transport::Error::ParseError { .. },
        })),
{
    match decode_envelope(d) {
        Ok(rsp) => rsp.into_result(),
        Err(e) => Err(Error::TransportError { source: e }),
    }
}

/// The outcome of a request whose answer carries no payload. `outcome` is the
/// failed exchange, or the string `error` member of the answer's body when it
/// has one. A rejection is reported with its description; a failed exchange is
/// handed on; only an answer without an `error` member is a success.
pub fn empty_response(outcome: Result<Option<String>, transport::Error>) -> (r: Result<(), Error>)
    ensures
        outcome matches Ok(None) ==> r.is_ok(),
        outcome matches Ok(Some(d)) ==> (r matches Err(Error::YandexError { description })
            && description@ == d@),
        outcome matches Err(e) ==> r == Err::<(), Error>(Error::TransportError { source: e }),
{
    match outcome {
        Ok(None) => Ok(()),
        Ok(Some(d)) => Err(Error::YandexError { description: d }),
        Err(e) => Err(Error::TransportError { source: e }),
    }
}

/// A decoded body leads to exactly one of three outcomes: the payload, the
/// server's rejection with its description intact, or a parse failure.
pub proof fn lemma_envelope_outcomes_exclusive<T>(d: Decoded<T>, r: Result<Rsp<T>, transport::Error>)
    requires
        envelope_of(d, r),
    ensures
        is_rejection(d) <==> (r matches Ok(Rsp::Error { .. })),
        is_success(d) <==> (r matches Ok(Rsp::OK(_))),
        (!is_success(d) && !is_rejection(d)) <==> (r matches Err(transport::Error::ParseError { .. })),
        !(is_success(d) && is_rejection(d)),
{
}

} // verus!

//! The response envelope of the API and the failures a call can end in.
use vstd::prelude::*;

verus! {

/// What the API answers to every call: a payload, or the server's reasons
/// for not giving one.
#[derive(Debug, Clone, PartialEq)]
pub enum Response<T> {
    Success(T),
    /// The server reported an error, with its message.
    Error(String),
    /// The server answered with messages (validation and the like).
    Messages(Vec<String>),
}

/// Why a call gave no payload.
#[derive(Debug, Clone, PartialEq)]
pub enum NovuError {
    /// The request did not reach the server, or no answer came back.
    Transport(String),
    /// The answer could not be read as the expected shape.
    Decode(String),
    /// The server answered with an error envelope.
    Server(String),
    /// The server answered with a messages envelope.
    Messages(Vec<String>),
}

/// The result owed for the outcome of one request: the payload of a success,
/// the server's error or messages as a failure, a transport or decoding
/// failure unchanged.
pub open spec fn result_of<T>(outcome: Result<Response<T>, NovuError>) -> Result<T, NovuError> {
    match outcome {
        Ok(Response::Success(payload)) => Ok(payload),
        Ok(Response::Error(message)) => Err(NovuError::Server(message)),
        Ok(Response::Messages(messages)) => Err(NovuError::Messages(messages)),
        Err(e) => Err(e),
    }
}

/// Unwraps the envelope of a request's outcome.
pub fn into_result<T>(outcome: Result<Response<T>, NovuError>) -> (r: Result<T, NovuError>)
    ensures
        r == result_of(outcome),
{
    match outcome {
        Ok(Response::Success(payload)) => Ok(payload),
        Ok(Response::Error(message)) => Err(NovuError::Server(message)),
        Ok(Response::Messages(messages)) => Err(NovuError::Messages(messages)),
        Err(e) => Err(e),
    }
}

} // verus!

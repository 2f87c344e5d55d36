//! The response resolver: turns a raw transport outcome into a typed result.
//!
//! The transport reports whether the HTTP status signalled success and hands
//! over the decode outcome of the body: the decoded value on a successful
//! status, or the decoded generic error envelope on a failed one. Decoding
//! itself is the JSON collaborator's concern; classification is decided here.

use vstd::prelude::*;

use crate::error::spec_error_of_envelope;
use crate::error::ApiErrorResponse;
use crate::error::WattpadError;

verus! {

/// What the JSON collaborator made of a response body: the decoded value, or
/// its message about why the body was malformed.
pub enum DecodeOutcome<T> {
    /// The body decoded to the expected shape.
    Decoded(T),
    /// The body did not decode; the decoder's message.
    Malformed(String),
}

/// A raw transport outcome, after the body was decoded according to the HTTP
/// status: a successful status carries the requested value's decode, a failed
/// status the generic error envelope's decode.
pub enum RawResponse<T> {
    /// The HTTP status signalled success.
    Success(DecodeOutcome<T>),
    /// The HTTP status signalled failure.
    Failure(DecodeOutcome<ApiErrorResponse>),
}

/// Classifies a raw transport outcome: a decoded success value is returned
/// as-is; a decoded error envelope is remapped through the fixed code table;
/// a body that failed to decode, on either path, is a `ParseError` carrying
/// the decoder's message.
pub fn resolve<T>(outcome: RawResponse<T>) -> (r: Result<T, WattpadError>)
    ensures
        outcome matches RawResponse::Success(DecodeOutcome::Decoded(v)) ==> (r matches Ok(x) && x
            == v),
        outcome matches RawResponse::Success(DecodeOutcome::Malformed(m)) ==> (r matches Err(e)
            && e matches WattpadError::ParseError(p) && p == m),
        outcome matches RawResponse::Failure(DecodeOutcome::Decoded(env)) ==> (r matches Err(e)
            && e == spec_error_of_envelope(env)),
        outcome matches RawResponse::Failure(DecodeOutcome::Malformed(m)) ==> (r matches Err(e)
            && e matches WattpadError::ParseError(p) && p == m),
{
    match outcome {
        RawResponse::Success(DecodeOutcome::Decoded(v)) => Ok(v),
        RawResponse::Success(DecodeOutcome::Malformed(m)) => Err(WattpadError::ParseError(m)),
        RawResponse::Failure(DecodeOutcome::Decoded(env)) => Err(WattpadError::from(env)),
        RawResponse::Failure(DecodeOutcome::Malformed(m)) => Err(WattpadError::ParseError(m)),
    }
}

} // verus!

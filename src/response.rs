use vstd::prelude::*;
use crate::error::{classification, classify, Error, ErrorDocument, ErrorKind};

verus! {

/// A status that is neither a client error (4xx) nor a server error (5xx).
pub open spec fn is_success(status: u16) -> bool {
    !(400 <= status && status <= 599)
}

/// Whether a response with this status carries the operation's payload.
pub fn is_success_status(status: u16) -> (r: bool)
    ensures
        r == is_success(status),
{
    !(400 <= status && status <= 599)
}

/// Interprets one response. `content` is its raw body; `payload` is that body
/// decoded as the operation's success payload (or the decoder's message);
/// `document` is the body read as a structured error document, if it is one.
/// A success status yields the payload, or `DecodeFailure` when it did not decode;
/// any other status yields the classification of the failure.
pub fn interpret<T>(
    status: u16,
    content: String,
    payload: Result<T, String>,
    document: Option<ErrorDocument>,
) -> (r: Result<T, Error>)
    ensures
        is_success(status) && payload is Ok ==> r == Ok::<T, Error>(payload->Ok_0),
        is_success(status) && payload is Err ==> r is Err && r->Err_0@ == ErrorKind::DecodeFailure(
            payload->Err_0@,
        ),
        !is_success(status) ==> r is Err && r->Err_0@ == classification(content@, document),
{
    if is_success_status(status) {
        match payload {
            Ok(t) => Ok(t),
            Err(m) => Err(Error::DecodeFailure(m)),
        }
    } else {
        Err(classify(content, document))
    }
}

} // verus!

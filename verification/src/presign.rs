//! The presign exchange: request and response shapes, acceptance of a
//! response, and the bounded retry schedule against the signing service.
//!
//! The surrounding application performs the HTTP POST and hands each
//! outcome — a decoded response, a transport failure or an undecodable
//! body — to [`presign_step`], then sleeps or returns as told. Every
//! decision, and when the budget runs out, is decided and proved here.

use vstd::prelude::*;

use crate::errors::EngineError;

verus! {

/// How many attempts one presign call may make.
pub const PRESIGN_MAX_RETRIES: u64 = 10;

/// The linear backoff unit between presign attempts, in milliseconds.
pub const PRESIGN_BACKOFF_MS: u64 = 1000;

/// The body of a presign request: the network to sign for and the
/// object's signed token.
#[derive(Debug)]
pub struct ReaderRequest<'a> {
    pub network: &'a str,
    pub download_sign: String,
}

impl ReaderRequest<'_> {
    /// A request for a download URL for `download_sign` on `network`.
    pub fn new(network: &'_ str, download_sign: String) -> (r: ReaderRequest<'_>)
        ensures
            r.network@ == network@,
            r.download_sign == download_sign,
    {
        ReaderRequest { network, download_sign }
    }
}

/// The payload of a presign response: the presigned download URL.
#[derive(Debug)]
pub struct ReaderData {
    pub endpoint: String,
}

/// A presign response: an application code (zero on success), a
/// message, and the payload.
#[derive(Debug)]
pub struct ReaderResponse {
    pub code: i32,
    pub message: String,
    pub data: ReaderData,
}

/// A response is usable when its application code is zero and it
/// carries a non-empty endpoint.
pub open spec fn spec_endpoint_ok(resp: ReaderResponse) -> bool {
    resp.code == 0 && resp.data.endpoint@.len() > 0
}

/// Accepts a presign response: the endpoint on a zero code and a
/// non-empty URL; an application error on a non-zero code; a decode
/// error on an empty endpoint.
pub fn classify_response(resp: ReaderResponse) -> (r: Result<String, EngineError>)
    ensures
        match r {
            Ok(e) => spec_endpoint_ok(resp) && e == resp.data.endpoint,
            Err(err) => !spec_endpoint_ok(resp) && err == (if resp.code != 0 {
                EngineError::Application
            } else {
                EngineError::Decode
            }),
        },
{
    if resp.code != 0 {
        Err(EngineError::Application)
    } else if resp.data.endpoint.as_str().unicode_len() == 0 {
        Err(EngineError::Decode)
    } else {
        Ok(resp.data.endpoint)
    }
}

/// What one attempt against the signing service came back with.
pub enum PresignOutcome {
    /// A decoded response body.
    Response(ReaderResponse),
    /// The POST itself failed.
    TransportError,
    /// The body could not be decoded.
    DecodeError,
}

/// The error kind an outcome is charged as when it is not a success.
pub open spec fn spec_presign_error(outcome: PresignOutcome) -> EngineError {
    match outcome {
        PresignOutcome::Response(_) => EngineError::Application,
        PresignOutcome::TransportError => EngineError::Transport,
        PresignOutcome::DecodeError => EngineError::Decode,
    }
}

/// Whether an outcome ends the retry loop: a response with a zero code.
pub open spec fn spec_presign_success(outcome: PresignOutcome) -> bool {
    match outcome {
        PresignOutcome::Response(resp) => resp.code == 0,
        _ => false,
    }
}

/// What the caller of [`presign_step`] does next.
pub enum PresignStep {
    /// The service answered with a zero code: stop retrying.
    Done(ReaderResponse),
    /// Sleep this many milliseconds, try again.
    Retry(u64),
    /// The retry budget is used up.
    Fail(EngineError),
}

/// One turn of the presign retry loop. A response with a zero code ends
/// the loop; any other outcome — a non-zero code, a transport failure,
/// an undecodable body — consumes one attempt, and the caller retries
/// after a linearly growing backoff until the budget of
/// [`PRESIGN_MAX_RETRIES`] attempts is used up.
pub fn presign_step(attempt: &mut u64, outcome: PresignOutcome) -> (r: PresignStep)
    requires
        *old(attempt) < PRESIGN_MAX_RETRIES,
    ensures
        spec_presign_success(outcome) ==> (r == (PresignStep::Done(outcome->Response_0))
            && *final(attempt) == *old(attempt)),
        !spec_presign_success(outcome) ==> (*final(attempt) == *old(attempt) + 1 && r == (
        if *old(attempt) + 1 >= PRESIGN_MAX_RETRIES {
            PresignStep::Fail(spec_presign_error(outcome))
        } else {
            PresignStep::Retry((PRESIGN_BACKOFF_MS * (*old(attempt) + 1)) as u64)
        })),
{
    match outcome {
        PresignOutcome::Response(resp) => {
            if resp.code == 0 {
                return PresignStep::Done(resp);
            }
            *attempt = *attempt + 1;
            if *attempt >= PRESIGN_MAX_RETRIES {
                PresignStep::Fail(EngineError::Application)
            } else {
                PresignStep::Retry(PRESIGN_BACKOFF_MS * *attempt)
            }
        },
        PresignOutcome::TransportError => {
            *attempt = *attempt + 1;
            if *attempt >= PRESIGN_MAX_RETRIES {
                PresignStep::Fail(EngineError::Transport)
            } else {
                PresignStep::Retry(PRESIGN_BACKOFF_MS * *attempt)
            }
        },
        PresignOutcome::DecodeError => {
            *attempt = *attempt + 1;
            if *attempt >= PRESIGN_MAX_RETRIES {
                PresignStep::Fail(EngineError::Decode)
            } else {
                PresignStep::Retry(PRESIGN_BACKOFF_MS * *attempt)
            }
        },
    }
}

} // verus!

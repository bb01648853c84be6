//! Accepting or rejecting an HTTP response by its status.
//!
//! Every call of the client treats the response the same way: a success
//! status hands the body on; any other status fails the call with an API
//! error carrying the server's raw response body as its message, before
//! anything is decoded or streamed.

use vstd::prelude::*;

verus! {

use crate::types::ErrModel;
use crate::types::NLUIError;

/// Whether an HTTP status signals success.
pub open spec fn is_success_status(status: u16) -> bool {
    200 <= status < 300
}

/// What a synchronous call yields from a response, before the typed decode:
/// the body on success, an API error carrying the body otherwise.
pub open spec fn sync_outcome(status: u16, body: Seq<char>) -> Result<Seq<char>, ErrModel> {
    if is_success_status(status) {
        Ok(body)
    } else {
        Err(ErrModel::ApiError(body))
    }
}

/// Accepts a response: the body on a success status, otherwise an API error
/// carrying the server's raw response body.
pub fn accept_response(status: u16, body: String) -> (r: Result<String, NLUIError>)
    ensures
        r matches Ok(b) ==> sync_outcome(status, body@) == Ok::<Seq<char>, ErrModel>(b@) && b@
            == body@,
        r matches Err(e) ==> sync_outcome(status, body@) == Err::<Seq<char>, ErrModel>(e@) && e@
            == ErrModel::ApiError(body@),
        r is Ok <==> is_success_status(status),
{
    if 200 <= status && status < 300 {
        Ok(body)
    } else {
        Err(NLUIError::ApiError(body))
    }
}

/// A synchronous call is idempotent on the client's side: what it yields is
/// a function of the status and body alone, so two runs of the same call
/// against an unchanged server yield equal results.
pub proof fn lemma_sync_call_idempotent(status1: u16, body1: Seq<char>, status2: u16, body2: Seq<char>)
    requires
        status1 == status2,
        body1 == body2,
    ensures
        sync_outcome(status1, body1) == sync_outcome(status2, body2),
{
}

} // verus!

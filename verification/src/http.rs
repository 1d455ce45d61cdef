//! Judging response statuses: anything outside 2xx is fatal.

use vstd::prelude::*;

use crate::error::FeedError;

verus! {

/// The statuses that count as success for every fetch of the pipeline.
pub open spec fn status_is_success(status: u16) -> bool {
    200 <= status < 300
}

/// Accepts a response status: anything outside the 2xx range is fatal, with
/// no retry.
pub fn check_status(status: u16) -> (r: Result<(), FeedError>)
    ensures
        r is Ok <==> status_is_success(status),
        r is Err ==> r == Err::<(), FeedError>(FeedError::HttpStatus(status)),
{
    if 200 <= status && status < 300 {
        Ok(())
    } else {
        Err(FeedError::HttpStatus(status))
    }
}

/// Judges one liveness ping: a 2xx answer passes the endpoint and status
/// through, anything else is a fatal `HttpStatus` error.
pub fn heartbeat_outcome(endpoint: String, status: u16) -> (r: Result<(String, u16), FeedError>)
    ensures
        r matches Ok(out) ==> status_is_success(status) && out.0@ == endpoint@ && out.1 == status,
        r is Err <==> !status_is_success(status),
        r is Err ==> r == Err::<(String, u16), FeedError>(FeedError::HttpStatus(status)),
{
    match check_status(status) {
        Ok(_) => Ok((endpoint, status)),
        Err(e) => Err(e),
    }
}

} // verus!

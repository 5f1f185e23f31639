//! The fetch coordinator's decisions: what to request, and what a
//! transport outcome means. The surrounding shell issues the request
//! itself and hands the body back as a JSON document.

use vstd::prelude::*;

use crate::api_action::{parse_action, url_of};
use crate::decode::{decode_response, response_matches, response_ok};
use crate::json::Json;
use crate::models::{ApiAction, ApiResponse, CustomError};

verus! {

/// Resolves a page identifier and an action token into the absolute URL to
/// fetch. Unknown tokens are rejected here, before any client is built or
/// any request is issued.
pub fn prepare_fetch(page_id: &String, action: &str, is_custom_domain: bool) -> (r: Result<
    String,
    CustomError,
>)
    ensures
        r is Ok <==> parse_action(action@) is Some,
        (r matches Ok(u) ==> (parse_action(action@) matches Some(a) && u@ == url_of(
            a,
            page_id@,
            is_custom_domain,
        ))),
        (r matches Err(e) ==> (e matches CustomError::InvalidAction(name) && name@ == action@)),
{
    match ApiAction::from_str(action) {
        Ok(a) => Ok(a.to_url(page_id, is_custom_domain)),
        Err(e) => Err(e),
    }
}

/// Completes a fetch from the transport outcome: a fetched document is
/// decoded into the response model, and a transport failure is surfaced
/// as a transport error carrying the cause verbatim.
pub fn finish_fetch(outcome: Result<Json, String>) -> (r: Result<ApiResponse, CustomError>)
    ensures
        (outcome matches Ok(j) ==> ((r is Ok <==> response_ok(j)) && (r matches Ok(x)
            ==> response_matches(x, j)) && (r matches Err(e) ==> (e matches CustomError::Transport(
            c,
        ) && c@ == "error decoding response body"@)))),
        (outcome matches Err(cause) ==> (r matches Err(e) && e matches CustomError::Transport(c)
            && c@ == cause@)),
{
    match outcome {
        Ok(j) => decode_response(&j),
        Err(cause) => Err(CustomError::Transport(cause)),
    }
}

} // verus!

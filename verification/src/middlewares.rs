//! The middleware decisions: how response statuses are normalized before
//! they reach the caller, and the labels each served request adds to the
//! request counter.

use vstd::prelude::*;
use vstd::string::StringExecFns;

use crate::errors::BlockfrostError;
use crate::render::dec_of;
use crate::render::u64_to_dec;

verus! {

/// Normalizes a handler's response status. A gateway timeout becomes the
/// generic 500; a method-not-allowed becomes the invalid-path 400; any
/// other server error becomes the generic 500, so internal detail never
/// leaves the server. Anything else passes through untouched.
pub fn normalize_response(status: u16) -> (r: Option<BlockfrostError>)
    ensures
        status == 504 || (status != 405 && 500 <= status <= 599) ==> (r matches Some(e)
            && e.status_code == 500 && e.error@ == "Internal Server Error"@ && e.message@
            == "An unexpected response was received from the backend."@),
        status == 405 ==> (r matches Some(e) && e.status_code == 400 && e.error@
            == "Bad Request"@ && e.message@
            == "Invalid path. Please check https://docs.blockfrost.io/"@),
        status != 504 && status != 405 && !(500 <= status <= 599) ==> r is None,
{
    if status == 504 {
        Some(BlockfrostError::internal_server_error_user())
    } else if status == 405 {
        Some(BlockfrostError::method_not_allowed())
    } else if 500 <= status && status <= 599 {
        Some(BlockfrostError::internal_server_error_user())
    } else {
        None
    }
}

/// The labels of one `http_requests_total` increment: the method, the
/// matched route when the router knew one and the raw path otherwise,
/// and the response status in decimal.
pub fn request_metric_labels(method: String, matched_path: Option<String>, raw_path: String, status: u16) -> (r: (String, String, String))
    ensures
        r.0 == method,
        matched_path matches Some(p) ==> r.1 == p,
        matched_path is None ==> r.2@ == dec_of(status as int) && r.1 == raw_path,
        r.2@ == dec_of(status as int),
{
    let path = match matched_path {
        Some(p) => p,
        None => raw_path,
    };
    let status_text = u64_to_dec(status as u64);
    (method, path, status_text)
}

} // verus!

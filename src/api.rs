//! Values exchanged with the HTTP layer: error replies, the check that an
//! upload is not empty, and the reply to a publish.

use crate::model::{ApiError, PublishResponse};
use vstd::prelude::*;

verus! {

fn error(status: u16, code: &str, msg: &str) -> (r: ApiError)
    ensures
        r.status == status,
        r.code@ == code@,
        r.message@ == msg@,
{
    ApiError { status, code: String::from_str(code), message: String::from_str(msg) }
}

/// A failure of the server (status 500).
pub fn internal_error(msg: &str) -> (r: ApiError)
    ensures
        r.status == 500,
        r.code@ == "internal_error"@,
        r.message@ == msg@,
{
    error(500, "internal_error", msg)
}

/// Something asked for is not there (status 404).
pub fn not_found(msg: &str) -> (r: ApiError)
    ensures
        r.status == 404,
        r.code@ == "not_found"@,
        r.message@ == msg@,
{
    error(404, "not_found", msg)
}

/// The request is malformed (status 400).
pub fn bad_request(msg: &str) -> (r: ApiError)
    ensures
        r.status == 400,
        r.code@ == "bad_request"@,
        r.message@ == msg@,
{
    error(400, "bad_request", msg)
}

/// Accepts a non-empty upload; an empty one is refused as a bad request
/// with message `msg`.
pub fn require_payload(data: &[u8], msg: &str) -> (r: Result<(), ApiError>)
    ensures
        data@.len() > 0 <==> r is Ok,
        r matches Err(e) ==> e.status == 400 && e.code@ == "bad_request"@ && e.message@ == msg@,
{
    if data.len() == 0 {
        Err(bad_request(msg))
    } else {
        Ok(())
    }
}

/// The reply to a successful publish.
pub fn published(id: &str, version: &str, platform: &str) -> (r: PublishResponse)
    ensures
        r.status@ == "published"@,
        r.id@ == id@,
        r.version@ == version@,
        r.platform@ == platform@,
{
    PublishResponse {
        status: String::from_str("published"),
        id: String::from_str(id),
        version: String::from_str(version),
        platform: String::from_str(platform),
    }
}

} // verus!

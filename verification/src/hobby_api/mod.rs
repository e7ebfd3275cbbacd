pub mod errors;
pub mod habi_task;
pub mod habi_user;
pub mod hapi_auth;
pub mod hapi_hobby;
pub mod hapi_hobby_auth;
pub mod hapi_task;
pub mod hapi_user;
pub mod validation;

use vstd::prelude::*;

verus! {

/// HTTP 201 Created.
pub const CREATED: u16 = 201;

/// HTTP 204 No Content.
pub const NO_CONTENT: u16 = 204;

/// HTTP 400 Bad Request.
pub const BAD_REQUEST: u16 = 400;

/// HTTP 401 Unauthorized.
pub const UNAUTHORIZED: u16 = 401;

/// HTTP 500 Internal Server Error.
pub const INTERNAL_SERVER_ERROR: u16 = 500;

/// HTTP 503 Service Unavailable.
pub const SERVICE_UNAVAILABLE: u16 = 503;

/// The refusal a hobby-API handler answers with: a status code and a body.
#[derive(Debug, Clone, PartialEq, Eq)]
pub struct HapiError {
    pub status: u16,
    pub message: String,
}

impl HapiError {
    pub fn new(status: u16, message: &str) -> (e: Self)
        ensures
            e.status == status,
            e.message@ == message@,
    {
        HapiError { status, message: message.to_owned() }
    }
}

/// Whether `e` refuses with this status and this body.
pub open spec fn is_refusal(e: HapiError, status: u16, message: Seq<char>) -> bool {
    e.status == status && e.message@ == message
}

/// Whether a hobby-API request may go on, given whether the site allows
/// communication with hobbies: it may when it does, and is refused with 503
/// when it does not.
pub fn is_hapi_enabled_middleware(hapi_allowed: bool) -> (r: Result<(), u16>)
    ensures
        hapi_allowed ==> r is Ok,
        !hapi_allowed ==> r == Err::<(), u16>(SERVICE_UNAVAILABLE),
{
    if !hapi_allowed {
        return Err(SERVICE_UNAVAILABLE);
    }
    Ok(())
}

/// A refusal answers with exactly the given status and body.
pub proof fn lemma_refusal_has_status_and_body(e: HapiError, status: u16, message: Seq<char>)
    requires
        is_refusal(e, status, message),
    ensures
        e.status == status,
        e.message@ == message,
{
}

} // verus!

use vstd::prelude::*;

use crate::ports::ValidationRequest;

verus! {

/// HTTP status for success.
pub const STATUS_OK: u16 = 200;

/// HTTP status for a refused action.
pub const STATUS_FORBIDDEN: u16 = 403;

/// The request shown to the operator for a call of the validation endpoint.
pub fn endpoint_request() -> (r: ValidationRequest)
    ensures
        r@.title == "Validation required"@,
        r@.message == "Please approve this action."@,
{
    ValidationRequest {
        title: "Validation required".to_owned(),
        message: "Please approve this action.".to_owned(),
    }
}

/// The reply of the validation endpoint: `200 approved` for an approval,
/// `403 rejected` otherwise.
pub fn validation_reply(approved: bool) -> (r: (u16, &'static str))
    ensures
        approved ==> r.0 == STATUS_OK && r.1@ == "approved"@,
        !approved ==> r.0 == STATUS_FORBIDDEN && r.1@ == "rejected"@,
{
    if approved {
        (STATUS_OK, "approved")
    } else {
        (STATUS_FORBIDDEN, "rejected")
    }
}

/// The reply of the health check.
pub fn hello_reply() -> (r: (u16, &'static str))
    ensures
        r.0 == STATUS_OK,
        r.1@ == "hello world!"@,
{
    (STATUS_OK, "hello world!")
}

} // verus!

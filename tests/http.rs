use omni::http::{endpoint_request, hello_reply, validation_reply, STATUS_FORBIDDEN, STATUS_OK};

#[test]
fn approval_maps_to_ok() {
    assert_eq!(validation_reply(true), (200, "approved"));
    assert_eq!(STATUS_OK, 200);
}

#[test]
fn rejection_maps_to_forbidden() {
    assert_eq!(validation_reply(false), (403, "rejected"));
    assert_eq!(STATUS_FORBIDDEN, 403);
}

#[test]
fn health_check_reply() {
    assert_eq!(hello_reply(), (200, "hello world!"));
}

#[test]
fn endpoint_request_text() {
    let r = endpoint_request();
    assert_eq!(r.title, "Validation required");
    assert_eq!(r.message, "Please approve this action.");
}

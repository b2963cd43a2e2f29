use rust_backend::{
    check_status, classify_reply, interpret_body, registration_body, registration_outcome,
    registration_url, BackendReply, RegistrationError,
};

#[test]
fn url_of_the_backend() {
    assert_eq!(registration_url("backend.local"), "http://backend.local:8000/api/add-db");
}

#[test]
fn body_carries_the_address() {
    assert_eq!(registration_body("10.0.0.5"), "{\"ipAddr\":\"10.0.0.5\"}");
}

#[test]
fn body_escapes_the_address() {
    assert_eq!(registration_body("a\"b"), "{\"ipAddr\":\"a\\\"b\"}");
}

#[test]
fn success_member_is_returned() {
    assert_eq!(registration_outcome(200, "{\"success\": \"db-123\"}"), Ok("db-123".to_string()));
}

#[test]
fn error_member_fails_with_its_payload() {
    assert_eq!(
        registration_outcome(200, "{\"error\": \"already exists\"}"),
        Err(RegistrationError::Backend("already exists".to_string()))
    );
}

#[test]
fn error_payload_is_passed_through_uninterpreted() {
    assert_eq!(
        interpret_body("{\"error\": {\"code\": 7}}"),
        Err(RegistrationError::Backend("{\"code\":7}".to_string()))
    );
}

#[test]
fn error_wins_over_success() {
    assert_eq!(
        interpret_body("{\"success\": 1, \"error\": \"no\"}"),
        Err(RegistrationError::Backend("no".to_string()))
    );
}

#[test]
fn neither_member_is_malformed() {
    assert_eq!(registration_outcome(200, "{}"), Err(RegistrationError::MalformedResponse));
    assert_eq!(interpret_body("[1, 2]"), Err(RegistrationError::MalformedResponse));
}

#[test]
fn server_error_fails_before_parsing() {
    assert_eq!(registration_outcome(500, "{\"success\": \"db-123\"}"), Err(RegistrationError::Status(500)));
    assert_eq!(registration_outcome(500, "not json"), Err(RegistrationError::Status(500)));
    assert_eq!(check_status(500), Err(RegistrationError::Status(500)));
    assert_eq!(check_status(404), Err(RegistrationError::Status(404)));
    assert_eq!(check_status(301), Err(RegistrationError::Status(301)));
    assert_eq!(check_status(204), Ok(()));
    assert_eq!(check_status(200), Ok(()));
}

#[test]
fn invalid_json_is_its_own_error() {
    assert_eq!(registration_outcome(201, "not json"), Err(RegistrationError::InvalidJson));
    assert_eq!(interpret_body("{\"success\": 1} trailing"), Err(RegistrationError::InvalidJson));
}

#[test]
fn classification_of_members() {
    let r = classify_reply(BackendReply { error: None, success: Some("42".to_string()) });
    assert_eq!(r, Ok("42".to_string()));
    let r = classify_reply(BackendReply { error: Some("\"x\"".to_string()), success: Some("1".to_string()) });
    assert_eq!(r, Err(RegistrationError::Backend("\"x\"".to_string())));
    let r = classify_reply(BackendReply { error: None, success: None });
    assert_eq!(r, Err(RegistrationError::MalformedResponse));
}

#[test]
fn non_string_success_is_its_json_text() {
    assert_eq!(interpret_body("{\"success\": 42}"), Ok("42".to_string()));
    assert_eq!(interpret_body("{\"success\": {\"id\": \"db-1\"}}"), Ok("{\"id\":\"db-1\"}".to_string()));
    assert_eq!(interpret_body("{\"error\": null}"), Err(RegistrationError::Backend("null".to_string())));
}

#[test]
fn malformed_reply_differs_from_invalid_json() {
    let a = registration_outcome(200, "{}");
    let b = registration_outcome(200, "not json");
    assert_eq!(a, Err(RegistrationError::MalformedResponse));
    assert_eq!(b, Err(RegistrationError::InvalidJson));
    assert_ne!(a, b);
}

#[test]
fn body_escapes_control_characters() {
    assert_eq!(registration_body("a\\b\n\u{1}"), "{\"ipAddr\":\"a\\\\b\\n\\u0001\"}");
}

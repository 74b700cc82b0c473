use hstack::json::json_eq;
use hstack::planner_reply::extract_first_json_value;
use hstack::server::{
    created_ticket_reply, requested_user_id, DEFAULT_USER_ID,
    check_login_password, ensure_password_present, hash_new_password, required_trimmed,
    validate_new_password, validate_registration, StatusCode, MIN_PASSWORD_LENGTH,
};

#[test]
fn test_bcrypt_logic() {
    let password = "password123";
    let hashed = match hash_new_password(password) {
        Ok(value) => value,
        Err(error) => panic!("failed to hash password in test: {:?}", error),
    };
    let verified = check_login_password(password, &hashed).is_ok();
    assert!(verified);
}

#[test]
fn rejects_blank_credentials() {
    assert_eq!(required_trimmed("  "), None);
    assert!(ensure_password_present(" ").is_err());
}

#[test]
fn rejects_weak_new_passwords() {
    assert!(validate_new_password("short", &["antoine@example.com"]).is_err());
    assert!(validate_new_password("Antoine1234!", &["Antoine", "antoine@example.com"]).is_err());
    assert!(validate_new_password("correct horse battery staple 2049", &["antoine@example.com"]).is_ok());
}

#[test]
fn wrong_password_is_unauthorized() {
    let hashed = hash_new_password("password123").unwrap();
    assert_eq!(check_login_password("password124", &hashed), Err(StatusCode::Unauthorized));
    assert_eq!(check_login_password("password123", "not a hash"), Err(StatusCode::Unauthorized));
}

#[test]
fn trims_credentials() {
    assert_eq!(required_trimmed("  ada@example.com \n"), Some("ada@example.com".to_string()));
    assert_eq!(ensure_password_present(" x "), Ok(()));
}

#[test]
fn password_length_counts_bytes_after_trimming() {
    assert_eq!(MIN_PASSWORD_LENGTH, 12);
    // eleven bytes once trimmed: refused before the strength check
    assert_eq!(validate_new_password("   abcdefghijk   ", &[]), Err(StatusCode::BadRequest));
}

#[test]
fn status_codes_have_their_numbers() {
    assert_eq!(StatusCode::BadRequest.code(), 400);
    assert_eq!(StatusCode::Unauthorized.code(), 401);
    assert_eq!(StatusCode::InternalServerError.code(), 500);
}

#[test]
fn registration_trims_and_checks_fields() {
    assert_eq!(
        validate_registration(" ", None, "a@b.c", "correct horse battery staple 2049"),
        Err(StatusCode::BadRequest)
    );
    assert_eq!(
        validate_registration("Ada", None, "  ", "correct horse battery staple 2049"),
        Err(StatusCode::BadRequest)
    );
    assert_eq!(
        validate_registration(" Ada ", Some(" Lovelace ".to_string()), " ada@example.com ", "correct horse battery staple 2049"),
        Ok(("Ada".to_string(), "Lovelace".to_string(), "ada@example.com".to_string()))
    );
    assert_eq!(
        validate_registration("Ada", None, "ada@example.com", "short"),
        Err(StatusCode::BadRequest)
    );
}

#[test]
fn ticket_requests_default_to_the_first_user() {
    assert_eq!(DEFAULT_USER_ID, 1);
    assert_eq!(requested_user_id(None), 1);
    assert_eq!(requested_user_id(Some(7)), 7);
    let reply = created_ticket_reply("abc", 7);
    assert!(json_eq(&reply, &extract_first_json_value("{\"id\":\"abc\",\"userid\":7,\"status\":\"created\"}").unwrap()));
}

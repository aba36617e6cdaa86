use naroden::context::{bearer_token, context_from_claims, require_authorization, NarodenContext};
use naroden::error::{create_error, ApiError, NarodenError};
use naroden::jwt::{claims_at, MAX_UTC_TIMESTAMP, MIN_UTC_TIMESTAMP, login_claims, new_claims, verify_credentials, JwtClaims, UserRole};
use naroden::user::{prepare_registration, PostUserRequest, User};

fn s(v: &str) -> String {
    v.to_string()
}

#[test]
fn error_codes_messages_and_statuses() {
    let all = [
        (NarodenError::AlreadyUsedPhone, "4001", "Already used phone", 400),
        (NarodenError::AlreadyUsedEmail, "4002", "Already used email", 400),
        (NarodenError::InvalidCredentials, "1001", "Login failed", 401),
        (NarodenError::MissingAuthorizationHeader, "1002", "Missing authorization header", 401),
        (NarodenError::GeneralError, "1000", "General error", 500),
        (NarodenError::DatabaseError, "1003", "Database error", 500),
    ];
    for (e, code, message, status) in all {
        assert_eq!(e.code(), code);
        assert_eq!(e.message(), message);
        assert_eq!(e.status_code(), status);
        let body = e.error_response();
        assert_eq!(body.code, code);
        assert_eq!(body.description, message);
    }
}

#[test]
fn error_codes_are_distinct() {
    let codes = ["4001", "4002", "1001", "1002", "1000", "1003"];
    let errors = [
        NarodenError::AlreadyUsedPhone,
        NarodenError::AlreadyUsedEmail,
        NarodenError::InvalidCredentials,
        NarodenError::MissingAuthorizationHeader,
        NarodenError::GeneralError,
        NarodenError::DatabaseError,
    ];
    for (i, a) in errors.iter().enumerate() {
        assert_eq!(a.code(), codes[i]);
        for b in errors.iter() {
            if a != b {
                assert_ne!(a.code(), b.code());
            }
        }
    }
}

#[test]
fn api_errors() {
    let e = create_error(ApiError::GeneralError);
    assert_eq!((e.code.as_str(), e.description.as_str()), ("1000", "General error"));
    let e = create_error(ApiError::InvalidCredentials);
    assert_eq!((e.code.as_str(), e.description.as_str()), ("1001", "Invalid credentials"));
    let e = create_error(ApiError::AlreadyUsedPhone);
    assert_eq!((e.code.as_str(), e.description.as_str()), ("4001", "Already used phone"));
    let e = create_error(ApiError::AlreadyUsedEmail);
    assert_eq!((e.code.as_str(), e.description.as_str()), ("4002", "Already used email"));
    assert_eq!(create_error(ApiError::AlreadyUsedEmail).code, NarodenError::AlreadyUsedEmail.code());
}

#[test]
fn missing_authorization_header_is_refused() {
    assert_eq!(require_authorization(None), Err(NarodenError::MissingAuthorizationHeader));
    assert_eq!(require_authorization(Some("Bearer x")), Ok("Bearer x"));
}

#[test]
fn bearer_token_skips_scheme() {
    assert_eq!(bearer_token("Bearer abc.def.ghi"), Some("abc.def.ghi"));
    assert_eq!(bearer_token("Bearer "), Some(""));
    assert_eq!(bearer_token("short"), None);
    assert_eq!(bearer_token("Bearerжx"), None);
}

#[test]
fn context_reads_claims_and_device_headers() {
    let claims = JwtClaims { sub: s("u7"), role: s("USER"), exp: 10, iat: 1 };
    let ctx = context_from_claims(claims, &Some(s("device-1")), &None);
    assert_eq!(ctx.user_id(), "u7");
    assert_eq!(ctx.role(), "USER");
    assert_eq!(ctx.device_id(), "device-1");
    assert_eq!(ctx.device_type(), "");
    let ctx = NarodenContext::new(s("a"), s("b"), s("c"), s("d"));
    assert_eq!((ctx.user_id(), ctx.role(), ctx.device_id(), ctx.device_type()), ("a", "b", "c", "d"));
}

#[test]
fn role_names() {
    assert_eq!(UserRole::USER.as_str(), "USER");
    assert_eq!(UserRole::ADMIN.as_str(), "ADMIN");
    assert_eq!(UserRole::NONE.as_str(), "NONE");
}

#[test]
fn claims_expire_thirty_days_later() {
    let c = claims_at(s("u1"), 1_700_000_000, 1_700_000_001).unwrap();
    assert_eq!(c.sub, "u1");
    assert_eq!(c.role, "USER");
    assert_eq!(c.exp, 1_700_000_000 + 30 * 86_400);
    assert_eq!(c.iat, 1_700_000_001);
    assert!(claims_at(s("u1"), i64::MAX - 10, 0).is_none());
    let last_base = MAX_UTC_TIMESTAMP - 30 * 86_400;
    assert_eq!(claims_at(s("u1"), last_base, 0).unwrap().exp, MAX_UTC_TIMESTAMP);
    assert!(claims_at(s("u1"), last_base + 1, 0).is_none());
    assert!(claims_at(s("u1"), MIN_UTC_TIMESTAMP, 0).is_some());
    assert!(claims_at(s("u1"), MIN_UTC_TIMESTAMP - 1, 0).is_none());
}

#[test]
fn new_claims_use_the_clock() {
    let c = new_claims(s("u2")).unwrap();
    assert_eq!(c.sub, "u2");
    assert_eq!(c.role, "USER");
    let diff = c.exp - c.iat;
    assert!(diff >= 30 * 86_400 - 2 && diff <= 30 * 86_400);
}

fn registration_request(password: &str) -> PostUserRequest {
    PostUserRequest {
        first_name: s("Иван"),
        last_name: s("Петров"),
        email: Some(s("ivan@example.org")),
        phone: Some(s("0888 123 456")),
        phone_code: Some(s("359")),
        password: s(password),
        referral: None,
    }
}

fn stored_user(password: &str) -> User {
    let r = prepare_registration(&registration_request(password)).unwrap();
    User {
        id: Some(s("abc123")),
        user_name: None,
        first_name: r.first_name,
        last_name: r.last_name,
        password: Some(r.password_hash),
        password_salt: Some(r.password_salt),
    }
}

#[test]
fn registration_fields() {
    let r = prepare_registration(&registration_request("secret")).unwrap();
    assert_eq!(r.first_name, "Иван");
    assert_eq!(r.last_name, "Петров");
    assert_eq!(r.email, "ivan@example.org");
    assert_eq!(r.phone_code, "359");
    assert_eq!(r.phone, "359888123456");
    assert!(r.password_hash.starts_with("$argon2id$"));
    assert_ne!(r.password_hash, "secret");
    let mut bare = registration_request("x");
    bare.email = None;
    bare.phone = None;
    bare.phone_code = None;
    let r = prepare_registration(&bare).unwrap();
    assert_eq!((r.email.as_str(), r.phone.as_str(), r.phone_code.as_str()), ("", "", ""));
}

#[test]
fn registered_password_logs_in() {
    let user = stored_user("secret");
    assert_eq!(verify_credentials(Some(user), "secret"), Some(Ok(s("abc123"))));
}

#[test]
fn wrong_password_is_refused() {
    let user = stored_user("secret");
    assert_eq!(verify_credentials(Some(user), "Secret"), Some(Err(NarodenError::InvalidCredentials)));
}

#[test]
fn unknown_user_is_refused() {
    assert_eq!(verify_credentials(None, "secret"), Some(Err(NarodenError::InvalidCredentials)));
}

#[test]
fn incomplete_user_records_cannot_be_checked() {
    let mut user = stored_user("secret");
    user.password_salt = None;
    assert_eq!(verify_credentials(Some(user), "secret"), None);
    let mut user = stored_user("secret");
    user.password_salt = Some(s("not base64 !!"));
    assert_eq!(verify_credentials(Some(user), "secret"), None);
    let mut user = stored_user("secret");
    user.id = None;
    assert_eq!(verify_credentials(Some(user), "secret"), None);
    let mut user = stored_user("secret");
    user.password = None;
    assert_eq!(verify_credentials(Some(user), "secret"), None);
}

#[test]
fn login_issues_user_claims() {
    let c = login_claims(Some(stored_user("pw")), "pw").unwrap().unwrap();
    assert_eq!(c.sub, "abc123");
    assert_eq!(c.role, "USER");
    assert!(matches!(login_claims(Some(stored_user("pw")), "nope"), Some(Err(NarodenError::InvalidCredentials))));
    assert!(matches!(login_claims(None, "pw"), Some(Err(NarodenError::InvalidCredentials))));
}

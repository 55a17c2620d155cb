use colophon::modules::auth::login_max_ages;
use colophon::modules::auth::{
    check_login_account, check_password, identity_gate, login_response, refresh_ttl_seconds, registration_gate,
    registration_profile, rotate_refresh_token, validate_register_request, AuthError, RefreshRecord,
    LoginRequest, RegisterRequest,
};

fn req(username: &str, password: &str, display_name: Option<&str>) -> RegisterRequest {
    RegisterRequest {
        username: username.to_string(),
        email: "  user@example.com ".to_string(),
        password: password.to_string(),
        display_name: display_name.map(|d| d.to_string()),
        turnstile_token: None,
    }
}

#[test]
fn register_weak_password_is_bad_request() {
    let e = validate_register_request(&req("weakpw", "short", None)).unwrap_err();
    assert_eq!(e, AuthError::PasswordTooShort);
    assert_eq!(e.status_code(), 400);
    assert_eq!(e.message().as_deref(), Some("password must be at least 6 characters"));
}

#[test]
fn register_short_username_is_refused() {
    let e = validate_register_request(&req("ab", "Password123!", None)).unwrap_err();
    assert_eq!(e, AuthError::UsernameTooShort);
    assert_eq!(e.message().as_deref(), Some("username must be at least 3 characters"));
    assert_eq!(validate_register_request(&req("  ab  ", "Password123!", None)), Err(AuthError::UsernameTooShort));
    assert_eq!(validate_register_request(&req("abc", "123456", None)), Ok(()));
}

#[test]
fn length_limits_count_bytes() {
    assert_eq!(validate_register_request(&req("é", "Password123!", None)), Err(AuthError::UsernameTooShort));
    assert_eq!(validate_register_request(&req("éé", "Password123!", None)), Ok(()));
    assert_eq!(validate_register_request(&req("abc", "ééé", None)), Ok(()));
}

#[test]
fn register_with_whitespace_trimming() {
    let p = registration_profile(&req("  trimtest  ", "Password123!", Some("  Trim User  ")));
    assert_eq!(p.username, "trimtest");
    assert_eq!(p.email, "user@example.com");
    assert_eq!(p.display_name, "Trim User");
    assert_eq!(p.role, "member");
    let p = registration_profile(&req(" bob ", "Password123!", None));
    assert_eq!(p.display_name, "bob");
}

#[test]
fn registration_gate_order() {
    assert_eq!(registration_gate(false, true, 5), Err(AuthError::SetupNotCompleted));
    assert_eq!(registration_gate(true, false, 5), Err(AuthError::RegistrationDisabled));
    assert_eq!(registration_gate(true, true, 0), Err(AuthError::RegistrationBeforeAdmin));
    assert_eq!(registration_gate(true, true, 1), Ok(()));
    assert_eq!(identity_gate(true), Err(AuthError::IdentityTaken));
    assert_eq!(AuthError::IdentityTaken.status_code(), 400);
    assert_eq!(
        AuthError::RegistrationDisabled.message().as_deref(),
        Some("public registration is disabled")
    );
}

#[test]
fn inactive_user_cannot_login() {
    assert_eq!(check_login_account(true, Some("inactive")), Err(AuthError::Unauthorized));
    assert_eq!(check_login_account(true, None), Err(AuthError::Unauthorized));
    assert_eq!(check_login_account(false, Some("active")), Err(AuthError::SetupNotCompleted));
    assert_eq!(check_login_account(true, Some("active")), Ok(()));
    assert_eq!(check_password(false), Err(AuthError::Unauthorized));
    assert_eq!(AuthError::Unauthorized.status_code(), 401);
    assert_eq!(AuthError::Unauthorized.message(), None);
}

#[test]
fn login_response_carries_user_and_token() {
    let r = login_response("u1".to_string(), "alice".to_string(), "admin".to_string(), "tok".to_string());
    assert_eq!(r.user.id, "u1");
    assert_eq!(r.user.username, "alice");
    assert_eq!(r.user.role, "admin");
    assert_eq!(r.access_token, "tok");
}

fn record(family: Option<&str>, used: bool) -> RefreshRecord {
    RefreshRecord {
        user_id: "u1".to_string(),
        expires_at: "2030-01-01T00:00:00Z".to_string(),
        family_id: family.map(|f| f.to_string()),
        used_at: if used { Some("2025-01-01T00:00:00Z".to_string()) } else { None },
    }
}

#[test]
fn refresh_rotation_rules() {
    let h = || "hash1".to_string();
    let n = || "n1".to_string();
    assert!(matches!(rotate_refresh_token(None, h(), n(), None), Err(AuthError::Unauthorized)));
    assert!(matches!(
        rotate_refresh_token(Some(record(Some("f1"), true)), h(), n(), None),
        Err(AuthError::Unauthorized)
    ));
    let rot = rotate_refresh_token(Some(record(Some("f1"), false)), h(), n(), None).ok().unwrap();
    assert_eq!(rot.user_id, "u1");
    assert_eq!(rot.family_id, "f1");
    assert_eq!(rot.mark_used, "hash1");
    assert_eq!(rot.new_id, "n1");
    assert_eq!(rot.ttl_seconds, 604800);
    let rot = rotate_refresh_token(Some(record(None, false)), h(), n(), Some(3600)).ok().unwrap();
    assert_eq!(rot.family_id, "n1");
    assert_eq!(rot.ttl_seconds, 3600);
    assert_eq!(refresh_ttl_seconds(None), 604800);
    assert_eq!(refresh_ttl_seconds(Some(60)), 60);
}

#[test]
fn rotated_token_cannot_be_used_again() {
    assert!(rotate_refresh_token(Some(record(Some("f1"), false)), "h".to_string(), "n1".to_string(), None).is_ok());
    let mut rec = record(Some("f1"), false);
    rec.used_at = Some("2026-01-01T00:00:00+00:00".to_string());
    assert!(matches!(
        rotate_refresh_token(Some(rec), "h".to_string(), "n2".to_string(), None),
        Err(AuthError::Unauthorized)
    ));
}

#[test]
fn remember_me_sets_long_cookie_ages() {
    assert_eq!(login_max_ages(Some(true), 3600), (604800, 604800));
    assert_eq!(login_max_ages(Some(false), 3600), (3600, 900));
    assert_eq!(login_max_ages(None, 900), (900, 900));
}

#[test]
fn login_is_looked_up_trimmed() {
    let body = LoginRequest {
        login: "  admin@example.com \t".to_string(),
        password: "pw".to_string(),
        remember_me: None,
        turnstile_token: None,
    };
    assert_eq!(body.lookup_key(), "admin@example.com");
}

use auth_core::directory::{AppState, Config, Directory};
use auth_core::errors::AuthError;
use auth_core::flow::{add_account, login, register, register_admin};
use auth_core::gate::{admin_dashboard, authorize, extract_bearer, user_profile};
use auth_core::models::{Claims, LoginRequest, RegisterRequest, Role};
use auth_core::token::{current_unix_time, verify_token, TOKEN_VALIDITY_SECS};

const NOW: u64 = 1_700_000_000;

fn secret() -> Vec<u8> {
    b"test-signing-secret".to_vec()
}

fn seeded_state() -> AppState {
    let mut users = Directory::new();
    let pw = "adminpassword".to_string();
    let admin = add_account(
        &mut users,
        "Admin".to_string(),
        "User".to_string(),
        "admin@example.com".to_string(),
        &pw,
        Role::Admin,
    )
    .expect("seeding the admin account must succeed");
    assert_eq!(admin.id, 1);
    assert!(matches!(admin.role, Role::Admin));
    AppState { config: Config { jwt_secret: secret() }, users }
}

fn register_req(first: &str, last: &str, email: &str, password: &str) -> RegisterRequest {
    RegisterRequest {
        first_name: first.to_string(),
        last_name: last.to_string(),
        email: email.to_string(),
        password: password.to_string(),
    }
}

fn login_req(email: &str, password: &str) -> LoginRequest {
    LoginRequest { email: email.to_string(), password: password.to_string() }
}

#[test]
fn register_then_login_round_trip() {
    let mut state = seeded_state();
    let (_, account) =
        register(&mut state, &register_req("A", "B", "a@b.com", "pw"), NOW).expect("register");
    assert_eq!(account.id, 2);
    assert_eq!(account.email, "a@b.com");
    assert!(matches!(account.role, Role::User));
    assert_eq!(state.users.len(), 2);

    let (token, logged_in) = login(&state, &login_req("a@b.com", "pw"), NOW).expect("login");
    assert_eq!(logged_in.email, "a@b.com");
    let claims = verify_token(&token, &state.config.jwt_secret, NOW).expect("valid token");
    assert_eq!(claims.sub, "a@b.com");
    assert!(matches!(claims.role, Role::User));
    assert_eq!(claims.exp, NOW + TOKEN_VALIDITY_SECS);
}

#[test]
fn login_with_wrong_password_fails() {
    let mut state = seeded_state();
    register(&mut state, &register_req("A", "B", "a@b.com", "pw"), NOW).expect("register");
    let r = login(&state, &login_req("a@b.com", "not-pw"), NOW);
    assert!(matches!(r, Err(AuthError::InvalidCredentials)));
}

#[test]
fn login_with_unknown_email_fails_identically() {
    let state = seeded_state();
    let r = login(&state, &login_req("nobody@example.com", "pw"), NOW);
    assert!(matches!(r, Err(AuthError::InvalidCredentials)));
}

#[test]
fn password_digest_differs_from_password() {
    // The digest is a one-way transformation: it never equals the password,
    // and verifying reproduces exactly the matching verdicts.
    let digest = bcrypt::hash(b"some password", bcrypt::DEFAULT_COST).unwrap();
    assert_ne!(digest, "some password");
    assert!(bcrypt::verify(b"some password", &digest).unwrap());
    assert!(!bcrypt::verify(b"some other password", &digest).unwrap());
}

#[test]
fn duplicate_email_second_registration_refused() {
    let mut state = seeded_state();
    register(&mut state, &register_req("A", "B", "a@b.com", "pw"), NOW).expect("first register");
    let second = register(&mut state, &register_req("C", "D", "a@b.com", "other"), NOW);
    assert!(matches!(second, Err(AuthError::DuplicateEmail)));
    assert_eq!(state.users.len(), 2);
}

#[test]
fn empty_field_is_a_validation_error() {
    let mut state = seeded_state();
    let r = register(&mut state, &register_req("", "B", "a@b.com", "pw"), NOW);
    assert!(matches!(r, Err(AuthError::ValidationError)));
    assert_eq!(state.users.len(), 1);
    let r = register(&mut state, &register_req("A", "B", "a@b.com", ""), NOW);
    assert!(matches!(r, Err(AuthError::ValidationError)));
    assert_eq!(state.users.len(), 1);
}

#[test]
fn expired_token_rejected_even_with_valid_signature() {
    let state = seeded_state();
    let (token, _) = login(&state, &login_req("admin@example.com", "adminpassword"), NOW)
        .expect("login");
    let later = NOW + TOKEN_VALIDITY_SECS + 1;
    let r = verify_token(&token, &state.config.jwt_secret, later);
    assert!(matches!(r, Err(AuthError::TokenExpired)));
    // The same token at its very expiration instant is still accepted.
    assert!(verify_token(&token, &state.config.jwt_secret, NOW + TOKEN_VALIDITY_SECS).is_ok());
}

#[test]
fn token_signed_with_other_key_rejected() {
    let state = seeded_state();
    let (token, _) = login(&state, &login_req("admin@example.com", "adminpassword"), NOW)
        .expect("login");
    let other_key = b"a different secret".to_vec();
    let r = verify_token(&token, &other_key, NOW);
    assert!(matches!(r, Err(AuthError::TokenInvalid)));
}

#[test]
fn garbage_token_is_malformed() {
    let r = verify_token("not-a-token", &secret(), NOW);
    assert!(matches!(r, Err(AuthError::TokenMalformed)));
}

#[test]
fn seeded_admin_login_yields_admin_claims() {
    let state = seeded_state();
    let (token, account) = login(&state, &login_req("admin@example.com", "adminpassword"), NOW)
        .expect("admin login");
    assert_eq!(account.id, 1);
    let claims = verify_token(&token, &state.config.jwt_secret, NOW).expect("valid token");
    assert_eq!(claims.sub, "admin@example.com");
    assert!(matches!(claims.role, Role::Admin));
}

#[test]
fn authorize_accepts_a_bearer_header_and_rejects_its_absence() {
    let state = seeded_state();
    let (token, _) = login(&state, &login_req("admin@example.com", "adminpassword"), NOW)
        .expect("login");
    let header = format!("Bearer {}", token);
    let claims = authorize(Some(&header), &state.config.jwt_secret, NOW).expect("authorized");
    assert_eq!(claims.sub, "admin@example.com");

    let r = authorize(None, &state.config.jwt_secret, NOW);
    assert!(matches!(r, Err(AuthError::MissingToken)));
    let basic = format!("Basic {}", token);
    let r = authorize(Some(&basic), &state.config.jwt_secret, NOW);
    assert!(matches!(r, Err(AuthError::MissingToken)));
}

#[test]
fn extract_bearer_strips_exactly_the_scheme() {
    assert_eq!(extract_bearer("Bearer abc.def.ghi"), Some("abc.def.ghi"));
    assert_eq!(extract_bearer("Bearer "), Some(""));
    assert_eq!(extract_bearer("Bearer"), None);
    assert_eq!(extract_bearer("bearer abc"), None);
    assert_eq!(extract_bearer(""), None);
}

#[test]
fn non_admin_cannot_provision_an_admin() {
    let mut state = seeded_state();
    register(&mut state, &register_req("A", "B", "a@b.com", "pw"), NOW).expect("register");
    let user_claims = Claims { sub: "a@b.com".to_string(), role: Role::User, exp: NOW + 100 };
    let before = state.users.len();
    let r = register_admin(&mut state, &user_claims, &register_req("E", "F", "e@f.com", "pw2"));
    assert!(matches!(r, Err(AuthError::Forbidden)));
    assert_eq!(state.users.len(), before);
}

#[test]
fn admin_can_provision_an_admin_with_explicit_names() {
    let mut state = seeded_state();
    let admin_claims =
        Claims { sub: "admin@example.com".to_string(), role: Role::Admin, exp: NOW + 100 };
    let created = register_admin(&mut state, &admin_claims, &register_req("E", "F", "e@f.com", "pw2"))
        .expect("provisioning");
    assert_eq!(created.id, 2);
    assert_eq!(created.first_name, "E");
    assert_eq!(created.last_name, "F");
    assert!(matches!(created.role, Role::Admin));
    assert_eq!(state.users.len(), 2);
    // The freshly provisioned admin can log in.
    let r = login(&state, &login_req("e@f.com", "pw2"), NOW);
    assert!(r.is_ok());
}

#[test]
fn admin_token_refused_at_the_user_profile_endpoint() {
    let state = seeded_state();
    let admin_claims =
        Claims { sub: "admin@example.com".to_string(), role: Role::Admin, exp: NOW + 100 };
    let r = user_profile(&admin_claims, &state.users);
    assert!(matches!(r, Err(AuthError::Forbidden)));
}

#[test]
fn user_profile_returns_the_callers_account_without_digest() {
    let mut state = seeded_state();
    register(&mut state, &register_req("A", "B", "a@b.com", "pw"), NOW).expect("register");
    let claims = Claims { sub: "a@b.com".to_string(), role: Role::User, exp: NOW + 100 };
    let p = user_profile(&claims, &state.users).expect("profile");
    assert_eq!(p.id, 2);
    assert_eq!(p.email, "a@b.com");
    assert_eq!(p.first_name, "A");
    assert_eq!(p.last_name, "B");
    assert!(matches!(p.role, Role::User));

    let vanished = Claims { sub: "gone@b.com".to_string(), role: Role::User, exp: NOW + 100 };
    let r = user_profile(&vanished, &state.users);
    assert!(matches!(r, Err(AuthError::AccountNotFound)));
}

#[test]
fn dashboard_lists_all_accounts_for_admins_only() {
    let mut state = seeded_state();
    register(&mut state, &register_req("A", "B", "a@b.com", "pw"), NOW).expect("register");
    let admin_claims =
        Claims { sub: "admin@example.com".to_string(), role: Role::Admin, exp: NOW + 100 };
    let (count, profiles) = admin_dashboard(&admin_claims, &state.users).expect("dashboard");
    assert_eq!(count, 2);
    assert_eq!(profiles.len(), 2);
    assert_eq!(profiles[0].email, "admin@example.com");
    assert_eq!(profiles[1].email, "a@b.com");
    assert_eq!(profiles[0].id, 1);
    assert_eq!(profiles[1].id, 2);

    let user_claims = Claims { sub: "a@b.com".to_string(), role: Role::User, exp: NOW + 100 };
    let r = admin_dashboard(&user_claims, &state.users);
    assert!(matches!(r, Err(AuthError::Forbidden)));
}

#[test]
fn error_envelope_status_codes() {
    assert_eq!(AuthError::ValidationError.status_code(), 400);
    assert_eq!(AuthError::InvalidCredentials.status_code(), 401);
    assert_eq!(AuthError::DuplicateEmail.status_code(), 409);
    assert_eq!(AuthError::Forbidden.status_code(), 403);
    assert_eq!(AuthError::MissingToken.status_code(), 401);
    assert_eq!(AuthError::TokenMalformed.status_code(), 401);
    assert_eq!(AuthError::TokenInvalid.status_code(), 401);
    assert_eq!(AuthError::TokenExpired.status_code(), 401);
    assert_eq!(AuthError::AccountNotFound.status_code(), 404);
    assert_eq!(AuthError::HashingError.status_code(), 500);
    assert_eq!(AuthError::SigningError.status_code(), 500);
    assert_eq!(AuthError::InvalidCredentials.message(), "Invalid credentials");
    assert_eq!(AuthError::DuplicateEmail.message(), "Email already registered");
    // The two infrastructure faults surface one fixed text: nothing internal
    // can leak through the envelope, and the two are indistinguishable.
    assert_eq!(AuthError::HashingError.message(), "Internal server error");
    assert_eq!(AuthError::SigningError.message(), "Internal server error");
}

#[test]
fn gate_rejects_an_undecodable_bearer_token_as_malformed() {
    let header = "Bearer not-a-token".to_string();
    let r = authorize(Some(&header), &secret(), NOW);
    assert!(matches!(r, Err(AuthError::TokenMalformed)));
}

#[test]
fn clock_reads_a_present_day_instant() {
    let now = current_unix_time();
    // Well past the epoch and well before the validity window overflows.
    assert!(now > 1_000_000_000);
    assert!(now <= i64::MAX as u64);
}

#[test]
fn hashing_twice_salts_differently() {
    // A fresh random salt per call: the same plaintext never yields the same
    // digest twice, yet both digests verify it.
    let a = bcrypt::hash(b"same password", bcrypt::DEFAULT_COST).unwrap();
    let b = bcrypt::hash(b"same password", bcrypt::DEFAULT_COST).unwrap();
    assert_ne!(a, b);
    assert!(bcrypt::verify(b"same password", &a).unwrap());
    assert!(bcrypt::verify(b"same password", &b).unwrap());
}

#[test]
fn extract_bearer_keeps_every_character_of_the_credential() {
    assert_eq!(extract_bearer("Bearer p\u{e9}ch\u{e9}.token"), Some("p\u{e9}ch\u{e9}.token"));
}

use user_auth::auth::jwt::{issue, JwtError, TokenError};
use user_auth::auth::password::{hash, HashError};
use user_auth::config::Config;
use user_auth::routes::user::{
    authorize, conclude_login, credential_for, decide, delete_v1, login, login_v1, register_v1,
    AuthFailure, BearerToken, Claims, Credential, Decision, LoginResponse, Status, User, UserDelete,
};

const T0: i64 = 1_700_000_000;

fn settings() -> Config {
    let mut settings = Config::new();
    settings.set("secrets.jwt_secret_key", "top-secret");
    settings
}

fn user(name: &str, password: &str) -> User {
    User { username: name.to_string(), password: password.to_string() }
}

fn alice_registered() -> Credential {
    let digest = bcrypt::hash_with_salt("secret1", 4, [3u8; 16]).unwrap().to_string();
    Credential { identity: "alice".to_string(), password_hash: digest }
}

#[test]
fn registration_keeps_identity_and_hides_password() {
    let credential = register_v1(&user("alice", "secret1")).unwrap();
    assert_eq!(credential.identity, "alice");
    assert_ne!(credential.password_hash, "secret1");
    assert!(user_auth::auth::password::verify("secret1", &credential.password_hash));
}

#[test]
fn credential_is_made_from_the_digest() {
    let made = credential_for(&user("alice", "secret1"), Ok("digest".to_string()));
    assert_eq!(
        made,
        Ok(Credential { identity: "alice".to_string(), password_hash: "digest".to_string() })
    );
    assert_eq!(
        credential_for(&user("alice", "secret1"), Err(HashError::Failed)),
        Err(HashError::Failed)
    );
}

#[test]
fn login_then_delete_own_account_is_allowed() {
    let settings = settings();
    let stored = register_v1(&user("alice", "secret1")).unwrap();
    let token = login(&settings, Some(&stored), &user("alice", "secret1"), T0).unwrap();
    let presented = BearerToken::from_request(&[format!("Bearer {}", token).as_str()]).unwrap();
    assert_eq!(authorize(&settings, &presented, "alice", T0 + 10), Decision::Allowed);
    assert_eq!(authorize(&settings, &presented, "alice", T0 + 3599), Decision::Allowed);
}

#[test]
fn login_with_wrong_password_gives_no_token() {
    let settings = settings();
    let stored = alice_registered();
    let outcome = login(&settings, Some(&stored), &user("alice", "secret2"), T0);
    assert_eq!(outcome, Err(AuthFailure::InvalidPassword));
    let response = LoginResponse::from_outcome(outcome);
    assert!(!response.success());
    assert_eq!(response.status, Status::Unauthorized);
    assert_eq!(response.token, None);
    assert_eq!(response.reason, Some("Unauthorized".to_string()));
}

#[test]
fn expired_token_is_denied() {
    let settings = settings();
    let stored = alice_registered();
    let token = login(&settings, Some(&stored), &user("alice", "secret1"), T0).unwrap();
    let presented = BearerToken(token);
    assert_eq!(authorize(&settings, &presented, "alice", T0 + 3600), Decision::Denied);
    assert_eq!(authorize(&settings, &presented, "alice", T0 + 3601), Decision::Denied);
    assert_eq!(authorize(&settings, &presented, "alice", T0 + 86_400), Decision::Denied);
}

#[test]
fn token_for_alice_does_not_authorize_bob() {
    let settings = settings();
    let presented = BearerToken(issue("alice", "top-secret", T0).unwrap());
    assert_eq!(authorize(&settings, &presented, "bob", T0), Decision::Denied);
    assert_eq!(authorize(&settings, &presented, "Alice", T0), Decision::Denied);
    assert_eq!(authorize(&settings, &presented, "alice ", T0), Decision::Denied);
    assert_eq!(authorize(&settings, &presented, "", T0), Decision::Denied);
    assert_eq!(authorize(&settings, &presented, "alice", T0), Decision::Allowed);
}

#[test]
fn unknown_user_cannot_log_in() {
    let settings = settings();
    assert_eq!(
        login(&settings, None, &user("alice", "secret1"), T0),
        Err(AuthFailure::UserNotFound)
    );
}

#[test]
fn credential_of_another_identity_counts_as_not_found() {
    let settings = settings();
    let stored = alice_registered();
    assert_eq!(
        login(&settings, Some(&stored), &user("bob", "secret1"), T0),
        Err(AuthFailure::UserNotFound)
    );
}

#[test]
fn corrupt_stored_digest_is_an_invalid_password() {
    let settings = settings();
    let stored = Credential { identity: "alice".to_string(), password_hash: "secret1".to_string() };
    assert_eq!(
        login(&settings, Some(&stored), &user("alice", "secret1"), T0),
        Err(AuthFailure::InvalidPassword)
    );
}

#[test]
fn failed_issuance_is_never_a_success() {
    let stored = alice_registered();
    let no_secret = Config::new();
    assert_eq!(
        login(&no_secret, Some(&stored), &user("alice", "secret1"), T0),
        Err(AuthFailure::TokenIssuance)
    );
    assert_eq!(
        login(&settings(), Some(&stored), &user("alice", "secret1"), i64::MAX),
        Err(AuthFailure::TokenIssuance)
    );
    assert_eq!(conclude_login(Err(JwtError::TimestampError)), Err(AuthFailure::TokenIssuance));
    assert_eq!(
        conclude_login(Err(JwtError::ConfigError("x".to_string()))),
        Err(AuthFailure::TokenIssuance)
    );
    assert_eq!(
        conclude_login(Err(JwtError::JwtError(TokenError::Malformed))),
        Err(AuthFailure::TokenIssuance)
    );
    assert_eq!(conclude_login(Ok("tok".to_string())), Ok("tok".to_string()));
}

#[test]
fn every_failure_gets_the_same_answer() {
    let not_found = LoginResponse::from_outcome(Err(AuthFailure::UserNotFound));
    let wrong = LoginResponse::from_outcome(Err(AuthFailure::InvalidPassword));
    let issuance = LoginResponse::from_outcome(Err(AuthFailure::TokenIssuance));
    assert_eq!(not_found, wrong);
    assert_eq!(wrong, issuance);
    assert_eq!(AuthFailure::UserNotFound.status(), Status::Unauthorized);
    assert_eq!(AuthFailure::InvalidPassword.status(), Status::Unauthorized);
    assert_eq!(AuthFailure::TokenIssuance.status(), Status::Unauthorized);
    assert_eq!(Status::Unauthorized.code(), 401);
}

#[test]
fn failures_are_told_apart_in_the_log() {
    assert_eq!(AuthFailure::UserNotFound.describe(), "User not found");
    assert_eq!(AuthFailure::InvalidPassword.describe(), "Invalid password");
    assert_eq!(AuthFailure::TokenIssuance.describe(), "Token generation error");
}

#[test]
fn successful_answer_carries_the_token() {
    let response = LoginResponse::from_outcome(Ok("tok".to_string()));
    assert!(response.success());
    assert_eq!(response.status, Status::Success);
    assert_eq!(response.token, Some("tok".to_string()));
    assert_eq!(response.reason, None);
    assert_eq!(Status::Success.code(), 200);
}

#[test]
fn login_and_delete_in_the_present() {
    let settings = settings();
    let stored = alice_registered();
    let response = login_v1(&settings, Some(&stored), &user("alice", "secret1"));
    assert!(response.success());
    let presented = BearerToken(response.token.unwrap());
    let own = UserDelete { username: "alice".to_string() };
    let other = UserDelete { username: "bob".to_string() };
    assert_eq!(delete_v1(&settings, &own, &presented), Decision::Allowed);
    assert_eq!(delete_v1(&settings, &other, &presented), Decision::Denied);
    let failed = login_v1(&settings, Some(&stored), &user("alice", "secret2"));
    assert!(!failed.success());
    assert_eq!(failed.token, None);
    assert_eq!(login_v1(&settings, None, &user("alice", "secret1")), failed);
}

#[test]
fn stale_token_is_denied_in_the_present() {
    let settings = settings();
    let presented = BearerToken(issue("alice", "top-secret", 1_000).unwrap());
    let own = UserDelete { username: "alice".to_string() };
    assert_eq!(delete_v1(&settings, &own, &presented), Decision::Denied);
}

#[test]
fn delete_without_secret_is_denied() {
    let presented = BearerToken(issue("alice", "top-secret", T0).unwrap());
    let own = UserDelete { username: "alice".to_string() };
    assert_eq!(delete_v1(&Config::new(), &own, &presented), Decision::Denied);
    assert_eq!(authorize(&Config::new(), &presented, "alice", T0), Decision::Denied);
}

#[test]
fn garbage_and_foreign_tokens_are_denied() {
    let settings = settings();
    assert_eq!(
        authorize(&settings, &BearerToken("abc123".to_string()), "alice", T0),
        Decision::Denied
    );
    let foreign = BearerToken(issue("alice", "another-secret", T0).unwrap());
    assert_eq!(authorize(&settings, &foreign, "alice", T0), Decision::Denied);
}

#[test]
fn decision_follows_validation_and_identity() {
    let valid = Ok(Claims { sub: "alice".to_string(), exp: 10 });
    assert_eq!(decide(&valid, "alice"), Decision::Allowed);
    assert_eq!(decide(&valid, "bob"), Decision::Denied);
    for error in [
        JwtError::JwtError(TokenError::Expired),
        JwtError::JwtError(TokenError::Signature),
        JwtError::JwtError(TokenError::Malformed),
        JwtError::TimestampError,
        JwtError::ConfigError("JWT secret key not found.".to_string()),
    ] {
        assert_eq!(decide(&Err(error), "alice"), Decision::Denied);
    }
}

#[test]
fn decision_maps_to_status() {
    assert_eq!(Decision::Allowed.status(), Status::Success);
    assert_eq!(Decision::Denied.status(), Status::Unauthorized);
    assert!(Decision::Allowed.is_allowed());
    assert!(!Decision::Denied.is_allowed());
}

#[test]
fn hashing_twice_gives_two_usable_credentials() {
    let first = hash("secret1").unwrap();
    let second = hash("secret1").unwrap();
    assert_ne!(first, second);
    let settings = settings();
    for digest in [first, second] {
        let stored = Credential { identity: "alice".to_string(), password_hash: digest };
        assert!(login(&settings, Some(&stored), &user("alice", "secret1"), T0).is_ok());
    }
}

use riverview_admin::admin::{LoginRequest, TotpVerifyRequest};
use riverview_admin::credentials::hash_password;
use riverview_admin::login::{
    authorize, submit_password, submit_password_with_token, submit_totp, submit_totp_with_token,
    AuthConfig, AuthError,
};
use riverview_admin::store::{StoreValue, TtlStore};
use riverview_admin::totp::totp_code;

const SECRET: &str = "GEZDGNBVGY3TQOJQGEZDGNBVGY3TQOJQ";
const KEY: &[u8] = b"12345678901234567890";
const NOW: u64 = 1_700_000_000;

fn config() -> AuthConfig {
    AuthConfig {
        password_hash: Some(hash_password("correct-pass")),
        totp_secret: Some(SECRET.to_string()),
    }
}

fn login(username: &str, password: &str) -> LoginRequest {
    LoginRequest { username: username.to_string(), password: password.to_string() }
}

fn code_now(now: u64) -> String {
    totp_code(KEY, now / 30)
}

fn totp_req(code: &str, token: Option<&str>) -> TotpVerifyRequest {
    TotpVerifyRequest { code: code.to_string(), token: token.map(|t| t.to_string()) }
}

fn pending_present(store: &TtlStore, token: &str, now: u64) -> bool {
    matches!(store.get(&format!("totp_pending:{}", token), now), Some(StoreValue::Marker(_)))
}

#[test]
fn pending_token_lives_five_minutes() {
    let mut store = TtlStore::new();
    let resp = submit_password(&mut store, &config(), &login("admin", "correct-pass"), NOW).unwrap();
    assert!(resp.success);
    assert!(resp.requires_totp);
    assert_eq!(resp.message, "Password verified. Enter TOTP code.");
    let token = resp.token.expect("pending token");
    assert_eq!(token.len(), 64);
    assert!(pending_present(&store, &token, NOW));
    assert!(pending_present(&store, &token, NOW + 299));
    assert!(!pending_present(&store, &token, NOW + 300));
}

#[test]
fn accepted_code_swaps_pending_for_session() {
    let mut store = TtlStore::new();
    let cfg = config();
    submit_password_with_token(&mut store, &cfg, &login("admin", "correct-pass"), "p1".to_string(), NOW)
        .unwrap();
    let resp = submit_totp_with_token(
        &mut store,
        &cfg,
        &totp_req(&code_now(NOW + 20), Some("p1")),
        "203.0.113.7",
        "s1".to_string(),
        NOW + 20,
    )
    .unwrap();
    assert!(resp.valid);
    assert_eq!(resp.message, "Login successful");
    assert_eq!(resp.session_token.as_deref(), Some("s1"));
    assert!(!pending_present(&store, "p1", NOW + 20));
    match store.get("session:s1", NOW + 20) {
        Some(StoreValue::Session(s)) => {
            assert_eq!(s.user_id, "admin");
            assert_eq!(s.username, "admin");
            assert_eq!(s.created_at, NOW + 20);
            assert_eq!(s.expires_at, NOW + 20 + 86400);
            assert_eq!(s.ip_address, "203.0.113.7");
        }
        other => panic!("no session stored: {:?}", other),
    }
}

#[test]
fn wrong_code_keeps_pending_for_retry() {
    let mut store = TtlStore::new();
    let cfg = config();
    let token = submit_password(&mut store, &cfg, &login("admin", "correct-pass"), NOW)
        .unwrap()
        .token
        .unwrap();
    let right = code_now(NOW + 60);
    let wrong = if right == "000000" { "000001" } else { "000000" };
    let first = submit_totp(&mut store, &cfg, &totp_req(wrong, Some(&token)), "1.2.3.4", NOW + 60).unwrap();
    assert!(!first.valid);
    assert_eq!(first.message, "Invalid TOTP code");
    assert!(first.session_token.is_none());
    assert!(pending_present(&store, &token, NOW + 60));
    let second = submit_totp(&mut store, &cfg, &totp_req(&right, Some(&token)), "1.2.3.4", NOW + 60).unwrap();
    assert!(second.valid);
    let session = second.session_token.unwrap();
    assert_eq!(session.len(), 64);
    assert!(!pending_present(&store, &token, NOW + 60));
}

#[test]
fn authorize_fresh_unknown_and_expired() {
    let mut store = TtlStore::new();
    let cfg = config();
    submit_password_with_token(&mut store, &cfg, &login("admin", "correct-pass"), "p".to_string(), NOW)
        .unwrap();
    submit_totp_with_token(&mut store, &cfg, &totp_req(&code_now(NOW), Some("p")), "ip", "s".to_string(), NOW)
        .unwrap();
    assert!(authorize(&store, Some("Bearer s"), NOW));
    assert!(authorize(&store, Some("s"), NOW));
    assert!(authorize(&store, Some("Bearer s"), NOW + 86399));
    assert!(!authorize(&store, Some("Bearer s"), NOW + 86400));
    assert!(!authorize(&store, Some("Bearer never-issued"), NOW));
    assert!(!authorize(&store, Some("bearer s"), NOW));
    assert!(!authorize(&store, None, NOW));
    // A pending token is no session.
    let mut store2 = TtlStore::new();
    submit_password_with_token(&mut store2, &cfg, &login("admin", "correct-pass"), "q".to_string(), NOW)
        .unwrap();
    assert!(!authorize(&store2, Some("Bearer q"), NOW));
}

#[test]
fn end_to_end_login() {
    let now = std::time::SystemTime::now()
        .duration_since(std::time::UNIX_EPOCH)
        .unwrap()
        .as_secs();
    let mut store = TtlStore::new();
    let cfg = config();
    let resp = submit_password(&mut store, &cfg, &login("admin", "correct-pass"), now).unwrap();
    assert!(resp.requires_totp);
    let p = resp.token.unwrap();
    let c = code_now(now);
    let verified = submit_totp(&mut store, &cfg, &totp_req(&c, Some(&p)), "127.0.0.1", now).unwrap();
    assert!(verified.valid);
    let s = verified.session_token.unwrap();
    assert!(authorize(&store, Some(&format!("Bearer {}", s)), now));
    assert!(!authorize(&store, Some("Bearer wrong-token"), now));
}

#[test]
fn wrong_password_creates_nothing() {
    let mut store = TtlStore::new();
    let resp = submit_password_with_token(&mut store, &config(), &login("admin", "nope"), "p".to_string(), NOW)
        .unwrap();
    assert!(!resp.success);
    assert!(!resp.requires_totp);
    assert!(resp.token.is_none());
    assert_eq!(resp.message, "Invalid credentials");
    assert!(!pending_present(&store, "p", NOW));
    let resp = submit_password(&mut store, &config(), &login("root", "correct-pass"), NOW).unwrap();
    assert!(!resp.success);
    assert_eq!(resp.message, "Invalid credentials");
}

#[test]
fn missing_token_is_refused_first() {
    let mut store = TtlStore::new();
    let cfg = config();
    submit_password(&mut store, &cfg, &login("admin", "correct-pass"), NOW).unwrap();
    let resp = submit_totp(&mut store, &cfg, &totp_req(&code_now(NOW), None), "ip", NOW).unwrap();
    assert!(!resp.valid);
    assert_eq!(resp.message, "Missing token");
    assert!(resp.session_token.is_none());
    // Refused before the secret is consulted, too.
    let unconfigured = AuthConfig { password_hash: None, totp_secret: None };
    let resp = submit_totp(&mut store, &unconfigured, &totp_req("123456", None), "ip", NOW).unwrap();
    assert_eq!(resp.message, "Missing token");
}

#[test]
fn unknown_or_expired_pending_token() {
    let mut store = TtlStore::new();
    let cfg = config();
    let resp = submit_totp(&mut store, &cfg, &totp_req(&code_now(NOW), Some("nope")), "ip", NOW).unwrap();
    assert!(!resp.valid);
    assert_eq!(resp.message, "Session expired. Please login again.");
    submit_password_with_token(&mut store, &cfg, &login("admin", "correct-pass"), "p".to_string(), NOW)
        .unwrap();
    let late = NOW + 300;
    let resp = submit_totp(&mut store, &cfg, &totp_req(&code_now(late), Some("p")), "ip", late).unwrap();
    assert_eq!(resp.message, "Session expired. Please login again.");
}

#[test]
fn pending_token_is_single_use() {
    let mut store = TtlStore::new();
    let cfg = config();
    submit_password_with_token(&mut store, &cfg, &login("admin", "correct-pass"), "p".to_string(), NOW)
        .unwrap();
    let c = code_now(NOW);
    assert!(submit_totp(&mut store, &cfg, &totp_req(&c, Some("p")), "ip", NOW).unwrap().valid);
    let again = submit_totp(&mut store, &cfg, &totp_req(&c, Some("p")), "ip", NOW).unwrap();
    assert!(!again.valid);
    assert_eq!(again.message, "Session expired. Please login again.");
}

#[test]
fn missing_configuration_errors() {
    let mut store = TtlStore::new();
    let no_hash = AuthConfig { password_hash: None, totp_secret: Some(SECRET.to_string()) };
    assert_eq!(
        submit_password(&mut store, &no_hash, &login("admin", "correct-pass"), NOW),
        Err(AuthError::AdminNotConfigured)
    );
    let no_secret = AuthConfig { password_hash: Some(hash_password("correct-pass")), totp_secret: None };
    submit_password_with_token(&mut store, &no_secret, &login("admin", "correct-pass"), "p".to_string(), NOW)
        .unwrap();
    assert_eq!(
        submit_totp(&mut store, &no_secret, &totp_req("123456", Some("p")), "ip", NOW),
        Err(AuthError::TotpNotConfigured)
    );
    assert!(pending_present(&store, "p", NOW));
}

#[test]
fn malformed_secret_refuses_login() {
    let mut store = TtlStore::new();
    let cfg = AuthConfig {
        password_hash: Some(hash_password("correct-pass")),
        totp_secret: Some("not base32".to_string()),
    };
    submit_password_with_token(&mut store, &cfg, &login("admin", "correct-pass"), "p".to_string(), NOW)
        .unwrap();
    let resp = submit_totp(&mut store, &cfg, &totp_req(&code_now(NOW), Some("p")), "ip", NOW).unwrap();
    assert!(!resp.valid);
    assert_eq!(resp.message, "Invalid TOTP code");
}

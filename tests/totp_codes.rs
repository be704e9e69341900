use riverview_admin::credentials::{check_credentials, generate_session_token, hash_password};
use riverview_admin::text::{constant_time_eq, same_text, to_hex};
use riverview_admin::totp::{format_code, hotp, totp_code, verify_totp};

// "12345678901234567890" in base32, the key of the RFC 4226 and RFC 6238 vectors.
const SECRET: &str = "GEZDGNBVGY3TQOJQGEZDGNBVGY3TQOJQ";
const KEY: &[u8] = b"12345678901234567890";

#[test]
fn hotp_matches_rfc4226_vectors() {
    let expected: [u32; 10] = [
        755224, 287082, 359152, 969429, 338314, 254676, 287922, 162583, 399871, 520489,
    ];
    for (counter, want) in expected.iter().enumerate() {
        assert_eq!(hotp(KEY, counter as u64), *want);
    }
}

#[test]
fn totp_code_matches_rfc6238_vectors() {
    // Last six digits of the SHA-1 column of RFC 6238, appendix B.
    assert_eq!(totp_code(KEY, 59 / 30), "287082");
    assert_eq!(totp_code(KEY, 1111111109 / 30), "081804");
    assert_eq!(totp_code(KEY, 1111111111 / 30), "050471");
    assert_eq!(totp_code(KEY, 1234567890 / 30), "005924");
    assert_eq!(totp_code(KEY, 2000000000 / 30), "279037");
    assert_eq!(totp_code(KEY, 20000000000 / 30), "353130");
}

#[test]
fn format_code_pads_to_six_digits() {
    assert_eq!(format_code(0), "000000");
    assert_eq!(format_code(42), "000042");
    assert_eq!(format_code(999999), "999999");
}

#[test]
fn verify_accepts_current_and_adjacent_steps() {
    let now: u64 = 1234567890;
    let t = now / 30;
    assert!(verify_totp(SECRET, &totp_code(KEY, t), now));
    assert!(verify_totp(SECRET, &totp_code(KEY, t - 1), now));
    assert!(verify_totp(SECRET, &totp_code(KEY, t + 1), now));
}

#[test]
fn verify_rejects_steps_two_away() {
    let now: u64 = 1234567890;
    let t = now / 30;
    let near = [totp_code(KEY, t - 1), totp_code(KEY, t), totp_code(KEY, t + 1)];
    let before = totp_code(KEY, t - 2);
    let after = totp_code(KEY, t + 2);
    assert!(!near.contains(&before));
    assert!(!near.contains(&after));
    assert!(!verify_totp(SECRET, &before, now));
    assert!(!verify_totp(SECRET, &after, now));
}

#[test]
fn verify_rfc6238_time_59() {
    assert!(verify_totp(SECRET, "287082", 59));
    // Counter 1 is the step after the first one.
    assert!(verify_totp(SECRET, "287082", 10));
    // Step 3 looks at counters 2, 3 and 4 only.
    assert!(!verify_totp(SECRET, "287082", 95));
}

#[test]
fn verify_rejects_wrong_code_and_wrong_length() {
    assert!(!verify_totp(SECRET, "000000", 59));
    assert!(!verify_totp(SECRET, "28708", 59));
    assert!(!verify_totp(SECRET, "2870820", 59));
    assert!(!verify_totp(SECRET, "", 59));
}

#[test]
fn malformed_secret_never_verifies() {
    let code = totp_code(KEY, 1);
    assert!(!verify_totp("not base32!", &code, 59));
    assert!(!verify_totp("gezdgnbvgy3tqojqgezdgnbvgy3tqojq", &code, 59));
    assert!(!verify_totp("GEZDGNBVGY3TQOJQGEZDGNBVGY3TQOJ1", &code, 59));
    assert!(!verify_totp("GEZDGNBVGY3TQOJQ====", &code, 59));
    assert!(!verify_totp("ÄÖÜ", &code, 59));
}

#[test]
fn hash_password_is_sha1_hex() {
    assert_eq!(hash_password("abc"), "a9993e364706816aba3e25717850c26c9cd0d89d");
    assert_eq!(hash_password(""), "da39a3ee5e6b4b0d3255bfef95601890afd80709");
}

#[test]
fn credentials_need_admin_and_matching_hash() {
    let hash = hash_password("correct-pass");
    assert!(check_credentials("admin", "correct-pass", &hash));
    assert!(!check_credentials("Admin", "correct-pass", &hash));
    assert!(!check_credentials("admin", "wrong-pass", &hash));
    assert!(!check_credentials("root", "wrong-pass", &hash));
    assert!(!check_credentials("admin", "correct-pass", &hash.to_uppercase()));
}

#[test]
fn tokens_are_64_lowercase_hex_and_fresh() {
    let a = generate_session_token().expect("random source");
    let b = generate_session_token().expect("random source");
    assert_eq!(a.len(), 64);
    assert!(a.chars().all(|c| c.is_ascii_digit() || ('a'..='f').contains(&c)));
    assert_ne!(a, b);
}

#[test]
fn hex_and_comparisons() {
    assert_eq!(to_hex(&[0x00, 0x0f, 0xa5, 0xff]), "000fa5ff");
    assert_eq!(to_hex(&[]), "");
    assert!(constant_time_eq(b"abc", b"abc"));
    assert!(!constant_time_eq(b"abc", b"abd"));
    assert!(!constant_time_eq(b"abc", b"ab"));
    assert!(constant_time_eq(b"", b""));
    assert!(same_text("héllo", "héllo"));
    assert!(!same_text("héllo", "hello"));
}

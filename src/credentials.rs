//! The single admin identity: its fixed username, the unsalted SHA-1 password
//! digest it is checked against, and the random tokens handed out on success.

use vstd::prelude::*;
use vstd::utf8::encode_utf8;
use crate::crypto::{fill_random, sha1_digest, sha1_of};
use crate::text::{constant_time_eq, hex_of, is_lower_hex, lemma_bytes_eq_chars, lemma_hex_is_lower_hex, lemma_hex_len, to_hex};

verus! {

/// The one admin username.
pub open spec fn admin_username() -> Seq<char> {
    seq!['a', 'd', 'm', 'i', 'n']
}

/// Lowercase hex of the SHA-1 digest of the password's UTF-8 bytes.
pub open spec fn password_digest_hex(password: Seq<char>) -> Seq<char> {
    hex_of(sha1_digest(encode_utf8(password)))
}

/// The username is the admin's (case-sensitive) and the password hashes to the
/// stored digest.
pub open spec fn credentials_match(
    username: Seq<char>,
    password: Seq<char>,
    stored_hash: Seq<char>,
) -> bool {
    username == admin_username() && password_digest_hex(password) == stored_hash
}

/// Number of random bytes in a token.
pub const TOKEN_BYTES: usize = 32;

/// A token as handed out: 64 lowercase hex digits.
pub open spec fn is_token_text(t: Seq<char>) -> bool {
    t.len() == 2 * TOKEN_BYTES && is_lower_hex(t)
}

/// Lowercase hex SHA-1 digest of the password's UTF-8 bytes.
pub fn hash_password(password: &str) -> (r: String)
    ensures
        r@ == password_digest_hex(password@),
{
    let digest = sha1_of(password.as_bytes());
    to_hex(digest.as_slice())
}

/// Checks a login against the admin identity. Both the username and the
/// digest are compared in full, whichever differs.
pub fn check_credentials(username: &str, password: &str, stored_hash: &str) -> (r: bool)
    ensures
        r == credentials_match(username@, password@, stored_hash@),
{
    let digest = hash_password(password);
    let admin = "admin";
    proof {
        reveal_strlit("admin");
        assert(admin@ =~= admin_username());
        lemma_bytes_eq_chars(digest@, stored_hash@);
        lemma_bytes_eq_chars(username@, admin@);
    }
    let hash_ok = constant_time_eq(digest.as_str().as_bytes(), stored_hash.as_bytes());
    let name_ok = constant_time_eq(username.as_bytes(), admin.as_bytes());
    hash_ok && name_ok
}

/// A fresh token of 256 random bits, hex-encoded; `None` when the operating
/// system's random source fails, so that no predictable token is ever issued.
pub fn generate_session_token() -> (r: Option<String>)
    ensures
        r matches Some(t) ==> is_token_text(t@),
{
    let mut bytes: Vec<u8> = vec![0u8; TOKEN_BYTES];
    if !fill_random(&mut bytes) {
        return None;
    }
    let t = to_hex(bytes.as_slice());
    proof {
        lemma_hex_len(bytes@);
        lemma_hex_is_lower_hex(bytes@);
    }
    Some(t)
}

} // verus!

//! RFC 6238 time-based one-time passwords: HMAC-SHA1 over the big-endian
//! 30-second time step, dynamic truncation to six decimal digits, and a
//! window of one step either side of the current one.

use vstd::prelude::*;
use crate::crypto::{base32_bytes, decode_base32, hmac_sha1, hmac_sha1_tag, is_base32_text};
use crate::text::push_char;

verus! {

/// Length of one time step, in seconds.
pub const TIME_STEP_SECS: u64 = 30;

/// Six decimal digits.
pub const CODE_MODULUS: u32 = 1000000;

/// A counter as eight big-endian bytes.
pub open spec fn counter_bytes(c: u64) -> Seq<u8> {
    seq![
        (c >> 56u64) as u8,
        (c >> 48u64) as u8,
        (c >> 40u64) as u8,
        (c >> 32u64) as u8,
        (c >> 24u64) as u8,
        (c >> 16u64) as u8,
        (c >> 8u64) as u8,
        c as u8,
    ]
}

/// RFC 4226 dynamic truncation of a 20-byte tag: the low nibble of the last
/// byte picks four bytes, read big-endian with the top bit cleared.
pub open spec fn dynamic_truncation(mac: Seq<u8>) -> u32
    recommends
        mac.len() == 20,
{
    let o = (mac[19] & 0x0fu8) as int;
    ((((mac[o] & 0x7fu8) as u32) << 24u32) | ((mac[o + 1] as u32) << 16u32) | ((mac[o + 2] as u32)
        << 8u32) | (mac[o + 3] as u32))
}

/// The one-time value for a key and counter, below one million.
pub open spec fn hotp_value(key: Seq<u8>, counter: u64) -> u32 {
    dynamic_truncation(hmac_sha1(key, counter_bytes(counter))) % CODE_MODULUS
}

/// The decimal digit of the last place of `n`.
pub open spec fn last_digit(n: u32) -> char {
    ((n % 10) + 48) as char
}

/// `n` written with exactly six digits, zero-padded on the left.
pub open spec fn six_digits(n: u32) -> Seq<char> {
    seq![
        last_digit(n / 100000),
        last_digit(n / 10000),
        last_digit(n / 1000),
        last_digit(n / 100),
        last_digit(n / 10),
        last_digit(n),
    ]
}

/// The code shown for a key at a counter.
pub open spec fn code_at(key: Seq<u8>, counter: u64) -> Seq<char> {
    six_digits(hotp_value(key, counter))
}

/// The code is the one of time step `step`, which must be a valid counter.
pub open spec fn matches_step(key: Seq<u8>, code: Seq<char>, step: int) -> bool {
    0 <= step <= u64::MAX && code == code_at(key, step as u64)
}

/// The code is the one of the current step or of either neighbour.
pub open spec fn key_accepts(key: Seq<u8>, code: Seq<char>, step: int) -> bool {
    matches_step(key, code, step - 1) || matches_step(key, code, step) || matches_step(
        key,
        code,
        step + 1,
    )
}

/// What a verifier holding `secret` accepts at `unix_secs`: the secret decodes
/// as base32 and the code is one of the three codes around the current step.
pub open spec fn totp_accepts(secret: Seq<char>, code: Seq<char>, unix_secs: u64) -> bool {
    is_base32_text(secret) && key_accepts(
        base32_bytes(secret),
        code,
        (unix_secs / TIME_STEP_SECS) as int,
    )
}

fn counter_to_bytes(c: u64) -> (r: Vec<u8>)
    ensures
        r@ == counter_bytes(c),
{
    let r = vec![
        (c >> 56u64) as u8,
        (c >> 48u64) as u8,
        (c >> 40u64) as u8,
        (c >> 32u64) as u8,
        (c >> 24u64) as u8,
        (c >> 16u64) as u8,
        (c >> 8u64) as u8,
        c as u8,
    ];
    assert(r@ =~= counter_bytes(c));
    r
}

fn truncate_tag(mac: &[u8]) -> (r: u32)
    requires
        mac@.len() == 20,
    ensures
        r == dynamic_truncation(mac@),
{
    let last = mac[19];
    let low = last & 0x0fu8;
    assert(low < 16) by (bit_vector)
        requires
            low == last & 0x0fu8,
    ;
    let o = low as usize;
    (((mac[o] & 0x7fu8) as u32) << 24u32) | ((mac[o + 1] as u32) << 16u32) | ((mac[o + 2] as u32)
        << 8u32) | (mac[o + 3] as u32)
}

/// The RFC 4226 one-time value of a key at a counter.
pub fn hotp(key: &[u8], counter: u64) -> (r: u32)
    ensures
        r == hotp_value(key@, counter),
        r < CODE_MODULUS,
{
    let msg = counter_to_bytes(counter);
    match hmac_sha1_tag(key, msg.as_slice()) {
        Some(tag) => truncate_tag(tag.as_slice()) % CODE_MODULUS,
        None => 0,
    }
}

fn digit_char(n: u32) -> (c: char)
    ensures
        c == last_digit(n),
{
    ((n % 10 + 48) as u8) as char
}

/// Writes a value below one million as six digits, zero-padded.
pub fn format_code(n: u32) -> (r: String)
    requires
        n < CODE_MODULUS,
    ensures
        r@ == six_digits(n),
{
    let mut s = String::new();
    push_char(&mut s, digit_char(n / 100000));
    push_char(&mut s, digit_char(n / 10000));
    push_char(&mut s, digit_char(n / 1000));
    push_char(&mut s, digit_char(n / 100));
    push_char(&mut s, digit_char(n / 10));
    push_char(&mut s, digit_char(n));
    assert(s@ =~= six_digits(n));
    s
}

/// The six-digit code of a key at a counter.
pub fn totp_code(key: &[u8], counter: u64) -> (r: String)
    ensures
        r@ == code_at(key@, counter),
{
    format_code(hotp(key, counter))
}

fn code_matches(key: &[u8], code: &String, counter: u64) -> (r: bool)
    ensures
        r == (code@ == code_at(key@, counter)),
{
    let expected = totp_code(key, counter);
    expected == *code
}

/// Checks a submitted code against the secret at the given Unix time, allowing
/// one 30-second step of drift either way. Text that is not unpadded upper-case
/// base32 never verifies. Before the first step there is no earlier one to try.
pub fn verify_totp(secret: &str, code: &str, unix_secs: u64) -> (r: bool)
    ensures
        r == totp_accepts(secret@, code@, unix_secs),
        !is_base32_text(secret@) ==> !r,
{
    let key = match decode_base32(secret) {
        Some(k) => k,
        None => return false,
    };
    let code = code.to_string();
    let step = unix_secs / TIME_STEP_SECS;
    if step > 0 && code_matches(key.as_slice(), &code, step - 1) {
        return true;
    }
    if code_matches(key.as_slice(), &code, step) {
        return true;
    }
    code_matches(key.as_slice(), &code, step + 1)
}

/// Drift window: with a decodable secret, the codes of the current step and of
/// both neighbouring steps are accepted, and the code of a step two away is
/// refused unless it happens to equal one of those three.
pub proof fn lemma_drift_window(secret: Seq<char>, unix_secs: u64)
    requires
        is_base32_text(secret),
    ensures
        ({
            let key = base32_bytes(secret);
            let t = (unix_secs / TIME_STEP_SECS) as int;
            let near = |c: Seq<char>|
                matches_step(key, c, t - 1) || matches_step(key, c, t) || matches_step(
                    key,
                    c,
                    t + 1,
                );
            &&& totp_accepts(secret, code_at(key, t as u64), unix_secs)
            &&& totp_accepts(secret, code_at(key, (t + 1) as u64), unix_secs)
            &&& t >= 1 ==> totp_accepts(secret, code_at(key, (t - 1) as u64), unix_secs)
            &&& t >= 2 && !near(code_at(key, (t - 2) as u64)) ==> !totp_accepts(
                secret,
                code_at(key, (t - 2) as u64),
                unix_secs,
            )
            &&& !near(code_at(key, (t + 2) as u64)) ==> !totp_accepts(
                secret,
                code_at(key, (t + 2) as u64),
                unix_secs,
            )
        }),
{
}

} // verus!

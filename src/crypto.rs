//! The outside primitives the authentication core relies on: RFC 4648 base32
//! decoding, SHA-1, HMAC-SHA1 and the operating system's random source.
//! Each is reached through one small trusted function whose contract states
//! what the outside crate's source shows.

use vstd::prelude::*;
use hmac::{Hmac, Mac};
use sha1::{Digest, Sha1};

verus! {

/// The bytes that RFC 4648 base32 text (upper case, no padding) decodes to.
pub uninterp spec fn base32_bytes(s: Seq<char>) -> Seq<u8>;

/// The SHA-1 digest of a message.
pub uninterp spec fn sha1_digest(msg: Seq<u8>) -> Seq<u8>;

/// The HMAC-SHA1 tag of a message under a key.
pub uninterp spec fn hmac_sha1(key: Seq<u8>, msg: Seq<u8>) -> Seq<u8>;

/// A character of the RFC 4648 base32 alphabet.
pub open spec fn is_base32_char(c: char) -> bool {
    ('A' <= c <= 'Z') || ('2' <= c <= '7')
}

/// Text that the unpadded RFC 4648 alphabet decodes: every character is in it.
pub open spec fn is_base32_text(s: Seq<char>) -> bool {
    forall|i: int| 0 <= i < s.len() ==> is_base32_char(#[trigger] s[i])
}

/// Relies on `base32::decode` with `Alphabet::Rfc4648 { padding: false }`:
/// it returns `None` exactly when some character lies outside `A-Z2-7`
/// (non-ASCII text, lower case and `=` included), and the decoded bytes otherwise.
#[verifier::external_body]
pub(crate) fn decode_base32(s: &str) -> (r: Option<Vec<u8>>)
    ensures
        r.is_some() == is_base32_text(s@),
        r matches Some(v) ==> v@ == base32_bytes(s@),
{
    base32::decode(base32::Alphabet::Rfc4648 { padding: false }, s)
}

/// Relies on `sha1::Sha1::digest`: the 20-byte SHA-1 digest of the message.
#[verifier::external_body]
pub(crate) fn sha1_of(msg: &[u8]) -> (r: Vec<u8>)
    ensures
        r@ == sha1_digest(msg@),
        r@.len() == 20,
{
    Sha1::digest(msg).to_vec()
}

/// Relies on `hmac::Hmac<sha1::Sha1>`: `new_from_slice` accepts a key of any
/// length (longer keys are hashed first, so it never returns `Err`), and
/// `finalize` yields the 20-byte tag of the data given to `update`.
#[verifier::external_body]
pub(crate) fn hmac_sha1_tag(key: &[u8], msg: &[u8]) -> (r: Option<Vec<u8>>)
    ensures
        r is Some,
        r matches Some(t) ==> t@ == hmac_sha1(key@, msg@) && t@.len() == 20,
{
    match <Hmac<Sha1> as Mac>::new_from_slice(key) {
        Ok(mut mac) => {
            mac.update(msg);
            Some(mac.finalize().into_bytes().to_vec())
        },
        Err(_) => None,
    }
}

/// Relies on `getrandom::getrandom`: fills the buffer from the operating
/// system's secure random source, and reports whether that succeeded. Its
/// length is unchanged either way; nothing is promised of the bytes.
#[verifier::external_body]
pub(crate) fn fill_random(buf: &mut Vec<u8>) -> (ok: bool)
    ensures
        final(buf)@.len() == old(buf)@.len(),
{
    getrandom::getrandom(buf.as_mut_slice()).is_ok()
}

} // verus!

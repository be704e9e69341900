//! The two-phase admin login and the session guard.
//!
//! A correct password mints a pending token, kept in the store as a marker
//! for five minutes under `totp_pending:<token>`. A correct one-time code
//! presented with a live pending token mints a session token, stores the
//! session record for a day under `session:<token>`, and deletes the pending
//! marker. A wrong code leaves the marker in place, so the client may retry.
//! Requests then carry `Authorization: Bearer <session token>`; the store's
//! expiry alone decides whether a session is still live.

use vstd::prelude::*;
use vstd::string::{StrSliceExecFns, StringExecFns};
use crate::admin::{AdminSession, LoginRequest, LoginResponse, TotpVerifyRequest, TotpVerifyResponse};
use crate::credentials::{admin_username, check_credentials, credentials_match, generate_session_token, is_token_text};
use crate::store::{live_value, StoreModel, StoreValue, TtlStore};
use crate::text::same_text;
use crate::totp::{totp_accepts, verify_totp};

verus! {

/// Lifetime of a pending token, in seconds.
pub const PENDING_TTL_SECS: u64 = 300;

/// Lifetime of a session, in seconds.
pub const SESSION_TTL_SECS: u64 = 86400;

/// Secrets provisioned by the operator; a missing one makes the matching
/// endpoint unavailable rather than failing the login.
#[derive(Debug, Clone, PartialEq, Eq)]
pub struct AuthConfig {
    pub password_hash: Option<String>,
    pub totp_secret: Option<String>,
}

/// Conditions under which the login flow cannot serve a request at all.
#[derive(Debug, Clone, Copy, PartialEq, Eq)]
pub enum AuthError {
    /// No admin password digest is configured.
    AdminNotConfigured,
    /// No one-time-password secret is configured.
    TotpNotConfigured,
    /// The operating system's random source failed, so no token was issued.
    RandomSourceFailed,
}

/// How the second login step ends.
#[derive(Debug, Clone, Copy, PartialEq, Eq)]
pub enum TotpOutcome {
    MissingToken,
    Expired,
    NotConfigured,
    InvalidCode,
    Accepted,
}

pub open spec fn view_opt(o: Option<String>) -> Option<Seq<char>> {
    match o {
        Some(s) => Some(s@),
        None => None,
    }
}

pub open spec fn view_opt_str(o: Option<&str>) -> Option<Seq<char>> {
    match o {
        Some(s) => Some(s@),
        None => None,
    }
}

pub open spec fn pending_prefix() -> Seq<char> {
    seq!['t', 'o', 't', 'p', '_', 'p', 'e', 'n', 'd', 'i', 'n', 'g', ':']
}

pub open spec fn session_prefix() -> Seq<char> {
    seq!['s', 'e', 's', 's', 'i', 'o', 'n', ':']
}

pub open spec fn bearer_prefix() -> Seq<char> {
    seq!['B', 'e', 'a', 'r', 'e', 'r', ' ']
}

/// Store key of a pending token.
pub open spec fn pending_key(token: Seq<char>) -> Seq<char> {
    pending_prefix() + token
}

/// Store key of a session token.
pub open spec fn session_key(token: Seq<char>) -> Seq<char> {
    session_prefix() + token
}

/// The token an authorization header carries: what follows `Bearer `, or the
/// whole value when that prefix is absent.
pub open spec fn bearer_token(header: Seq<char>) -> Seq<char> {
    if header.len() >= 7 && header.subrange(0, 7) == bearer_prefix() {
        header.subrange(7, header.len() as int)
    } else {
        header
    }
}

/// The store after a password was accepted: the pending marker is live for
/// five minutes.
pub open spec fn password_accepted(m: StoreModel, token: Seq<char>, now: u64) -> StoreModel {
    m.insert(pending_key(token), (StoreValue::Marker(true), (now + PENDING_TTL_SECS) as u64))
}

/// A session record of the admin, opened at `now` from address `ip`.
pub open spec fn is_admin_session(s: AdminSession, ip: Seq<char>, now: u64) -> bool {
    &&& s.user_id@ == admin_username()
    &&& s.username@ == admin_username()
    &&& s.created_at == now
    &&& s.expires_at == now + SESSION_TTL_SECS
    &&& s.ip_address@ == ip
}

/// The store after a code was accepted: the session record is live for a
/// day under the session token, and the pending marker is gone.
pub open spec fn session_stored(
    after: StoreModel,
    before: StoreModel,
    pending: Seq<char>,
    session_token: Seq<char>,
    ip: Seq<char>,
    now: u64,
) -> bool {
    exists|rec: AdminSession|
        is_admin_session(rec, ip, now) && after == before.insert(
            session_key(session_token),
            (StoreValue::Session(rec), (now + SESSION_TTL_SECS) as u64),
        ).remove(pending_key(pending))
}

/// A live pending marker is stored under the token.
pub open spec fn pending_live(m: StoreModel, token: Seq<char>, now: u64) -> bool {
    live_value(m, pending_key(token), now) matches Some(StoreValue::Marker(_))
}

/// How the second login step ends, checked in this order: the pending token
/// was sent, it is live, a secret is configured, the code is accepted.
pub open spec fn totp_outcome(
    m: StoreModel,
    secret: Option<Seq<char>>,
    token: Option<Seq<char>>,
    code: Seq<char>,
    now: u64,
) -> TotpOutcome {
    match token {
        None => TotpOutcome::MissingToken,
        Some(p) => if !pending_live(m, p, now) {
            TotpOutcome::Expired
        } else {
            match secret {
                None => TotpOutcome::NotConfigured,
                Some(s) => if totp_accepts(s, code, now) {
                    TotpOutcome::Accepted
                } else {
                    TotpOutcome::InvalidCode
                },
            }
        },
    }
}

/// A live session record is stored under the token that the header carries.
pub open spec fn authorized(m: StoreModel, header: Option<Seq<char>>, now: u64) -> bool {
    match header {
        None => false,
        Some(h) => live_value(m, session_key(bearer_token(h)), now) matches Some(
            StoreValue::Session(_),
        ),
    }
}

pub open spec fn login_response_is(
    r: LoginResponse,
    success: bool,
    message: Seq<char>,
    token: Option<Seq<char>>,
) -> bool {
    r.success == success && r.requires_totp == success && r.message@ == message && view_opt(r.token)
        == token
}

pub open spec fn totp_response_is(
    r: TotpVerifyResponse,
    valid: bool,
    message: Seq<char>,
    token: Option<Seq<char>>,
) -> bool {
    r.valid == valid && r.message@ == message && view_opt(r.session_token) == token
}

fn key_with_prefix(prefix: &str, token: &str) -> (r: String)
    ensures
        r@ == prefix@ + token@,
{
    prefix.to_string().concat(token)
}

/// The store key of a pending token.
pub fn pending_key_of(token: &str) -> (r: String)
    ensures
        r@ == pending_key(token@),
{
    let p = "totp_pending:";
    proof {
        reveal_strlit("totp_pending:");
        assert(p@ =~= pending_prefix());
    }
    key_with_prefix(p, token)
}

/// The store key of a session token.
pub fn session_key_of(token: &str) -> (r: String)
    ensures
        r@ == session_key(token@),
{
    let p = "session:";
    proof {
        reveal_strlit("session:");
        assert(p@ =~= session_prefix());
    }
    key_with_prefix(p, token)
}

fn login_response(success: bool, message: &str, token: Option<String>) -> (r: LoginResponse)
    ensures
        login_response_is(r, success, message@, view_opt(token)),
{
    LoginResponse { success, message: message.to_string(), token, requires_totp: success }
}

fn totp_response(valid: bool, message: &str, token: Option<String>) -> (r: TotpVerifyResponse)
    ensures
        totp_response_is(r, valid, message@, view_opt(token)),
{
    TotpVerifyResponse { valid, message: message.to_string(), session_token: token }
}

/// First login step, with the pending token to issue already drawn.
/// Wrong credentials leave the store untouched and say only that the
/// credentials are invalid, not which part was wrong.
pub fn submit_password_with_token(
    store: &mut TtlStore,
    config: &AuthConfig,
    req: &LoginRequest,
    token: String,
    now: u64,
) -> (r: Result<LoginResponse, AuthError>)
    requires
        now + PENDING_TTL_SECS <= u64::MAX,
    ensures
        match config.password_hash {
            None => r == Err::<LoginResponse, AuthError>(AuthError::AdminNotConfigured)
                && final(store)@ == old(store)@,
            Some(h) => if credentials_match(req.username@, req.password@, h@) {
                &&& r matches Ok(resp)
                &&& login_response_is(resp, true, "Password verified. Enter TOTP code."@, Some(token@))
                &&& final(store)@ == password_accepted(old(store)@, token@, now)
            } else {
                &&& r matches Ok(resp)
                &&& login_response_is(resp, false, "Invalid credentials"@, None)
                &&& final(store)@ == old(store)@
            },
        },
{
    let stored_hash = match &config.password_hash {
        Some(h) => h,
        None => return Err(AuthError::AdminNotConfigured),
    };
    if !check_credentials(req.username.as_str(), req.password.as_str(), stored_hash.as_str()) {
        return Ok(login_response(false, "Invalid credentials", None));
    }
    let key = pending_key_of(token.as_str());
    store.put(key, StoreValue::Marker(true), PENDING_TTL_SECS, now);
    Ok(login_response(true, "Password verified. Enter TOTP code.", Some(token)))
}

/// First login step: on correct credentials a fresh random pending token is
/// issued and stored for five minutes.
pub fn submit_password(store: &mut TtlStore, config: &AuthConfig, req: &LoginRequest, now: u64) -> (r:
    Result<LoginResponse, AuthError>)
    requires
        now + PENDING_TTL_SECS <= u64::MAX,
    ensures
        match config.password_hash {
            None => r == Err::<LoginResponse, AuthError>(AuthError::AdminNotConfigured)
                && final(store)@ == old(store)@,
            Some(h) => if credentials_match(req.username@, req.password@, h@) {
                ||| (r == Err::<LoginResponse, AuthError>(AuthError::RandomSourceFailed)
                    && final(store)@ == old(store)@)
                ||| (r matches Ok(resp) && resp.token matches Some(t) && is_token_text(t@)
                    && login_response_is(resp, true, "Password verified. Enter TOTP code."@, Some(t@))
                    && final(store)@ == password_accepted(old(store)@, t@, now))
            } else {
                &&& r matches Ok(resp)
                &&& login_response_is(resp, false, "Invalid credentials"@, None)
                &&& final(store)@ == old(store)@
            },
        },
{
    let stored_hash = match &config.password_hash {
        Some(h) => h,
        None => return Err(AuthError::AdminNotConfigured),
    };
    if !check_credentials(req.username.as_str(), req.password.as_str(), stored_hash.as_str()) {
        return Ok(login_response(false, "Invalid credentials", None));
    }
    match generate_session_token() {
        Some(token) => submit_password_with_token(store, config, req, token, now),
        None => Err(AuthError::RandomSourceFailed),
    }
}

/// How the second login step ends for this request against this store.
fn totp_outcome_of(store: &TtlStore, config: &AuthConfig, req: &TotpVerifyRequest, now: u64) -> (r:
    TotpOutcome)
    ensures
        r == totp_outcome(store@, view_opt(config.totp_secret), view_opt(req.token), req.code@, now),
{
    let pending = match &req.token {
        Some(t) => t,
        None => return TotpOutcome::MissingToken,
    };
    let pkey = pending_key_of(pending.as_str());
    match store.get(pkey.as_str(), now) {
        Some(StoreValue::Marker(_)) => {},
        _ => return TotpOutcome::Expired,
    }
    let secret = match &config.totp_secret {
        Some(s) => s,
        None => return TotpOutcome::NotConfigured,
    };
    if verify_totp(secret.as_str(), req.code.as_str(), now) {
        TotpOutcome::Accepted
    } else {
        TotpOutcome::InvalidCode
    }
}

/// Carries out an outcome already decided: only an accepted code, which
/// comes with the session token to issue, changes the store.
fn complete_totp(
    store: &mut TtlStore,
    outcome: TotpOutcome,
    req: &TotpVerifyRequest,
    client_ip: &str,
    session_token: Option<String>,
    now: u64,
) -> (r: Result<TotpVerifyResponse, AuthError>)
    requires
        now + SESSION_TTL_SECS <= u64::MAX,
        outcome is Accepted ==> req.token is Some && session_token is Some,
    ensures
        match outcome {
            TotpOutcome::MissingToken => r matches Ok(resp) && totp_response_is(
                resp,
                false,
                "Missing token"@,
                None,
            ) && final(store)@ == old(store)@,
            TotpOutcome::Expired => r matches Ok(resp) && totp_response_is(
                resp,
                false,
                "Session expired. Please login again."@,
                None,
            ) && final(store)@ == old(store)@,
            TotpOutcome::NotConfigured => r == Err::<TotpVerifyResponse, AuthError>(
                AuthError::TotpNotConfigured,
            ) && final(store)@ == old(store)@,
            TotpOutcome::InvalidCode => r matches Ok(resp) && totp_response_is(
                resp,
                false,
                "Invalid TOTP code"@,
                None,
            ) && final(store)@ == old(store)@,
            TotpOutcome::Accepted => r matches Ok(resp) && totp_response_is(
                resp,
                true,
                "Login successful"@,
                view_opt(session_token),
            ) && session_stored(
                final(store)@,
                old(store)@,
                req.token->0@,
                session_token->0@,
                client_ip@,
                now,
            ),
        },
{
    match outcome {
        TotpOutcome::MissingToken => Ok(totp_response(false, "Missing token", None)),
        TotpOutcome::Expired => Ok(
            totp_response(false, "Session expired. Please login again.", None),
        ),
        TotpOutcome::NotConfigured => Err(AuthError::TotpNotConfigured),
        TotpOutcome::InvalidCode => Ok(totp_response(false, "Invalid TOTP code", None)),
        TotpOutcome::Accepted => {
            let pending = req.token.as_ref().unwrap();
            let token = session_token.unwrap();
            let session = AdminSession {
                user_id: "admin".to_string(),
                username: "admin".to_string(),
                created_at: now,
                expires_at: now + SESSION_TTL_SECS,
                ip_address: client_ip.to_string(),
            };
            proof {
                reveal_strlit("admin");
                assert(session.user_id@ =~= admin_username());
            }
            let ghost rec = session;
            store.put(
                session_key_of(token.as_str()),
                StoreValue::Session(session),
                SESSION_TTL_SECS,
                now,
            );
            store.delete(pending_key_of(pending.as_str()).as_str());
            assert(is_admin_session(rec, client_ip@, now));
            Ok(totp_response(true, "Login successful", Some(token)))
        },
    }
}

/// Second login step, with the session token to issue already drawn. Only an
/// accepted code changes the store: it records the session and deletes the
/// pending marker. Any other outcome leaves the marker for a retry.
pub fn submit_totp_with_token(
    store: &mut TtlStore,
    config: &AuthConfig,
    req: &TotpVerifyRequest,
    client_ip: &str,
    session_token: String,
    now: u64,
) -> (r: Result<TotpVerifyResponse, AuthError>)
    requires
        now + SESSION_TTL_SECS <= u64::MAX,
    ensures
        match totp_outcome(
            old(store)@,
            view_opt(config.totp_secret),
            view_opt(req.token),
            req.code@,
            now,
        ) {
            TotpOutcome::MissingToken => r matches Ok(resp) && totp_response_is(
                resp,
                false,
                "Missing token"@,
                None,
            ) && final(store)@ == old(store)@,
            TotpOutcome::Expired => r matches Ok(resp) && totp_response_is(
                resp,
                false,
                "Session expired. Please login again."@,
                None,
            ) && final(store)@ == old(store)@,
            TotpOutcome::NotConfigured => r == Err::<TotpVerifyResponse, AuthError>(
                AuthError::TotpNotConfigured,
            ) && final(store)@ == old(store)@,
            TotpOutcome::InvalidCode => r matches Ok(resp) && totp_response_is(
                resp,
                false,
                "Invalid TOTP code"@,
                None,
            ) && final(store)@ == old(store)@,
            TotpOutcome::Accepted => r matches Ok(resp) && totp_response_is(
                resp,
                true,
                "Login successful"@,
                Some(session_token@),
            ) && session_stored(
                final(store)@,
                old(store)@,
                req.token->0@,
                session_token@,
                client_ip@,
                now,
            ),
        },
{
    let outcome = totp_outcome_of(store, config, req, now);
    complete_totp(store, outcome, req, client_ip, Some(session_token), now)
}

/// Second login step: on an accepted code a fresh random session token is
/// issued and the session stored for a day.
pub fn submit_totp(
    store: &mut TtlStore,
    config: &AuthConfig,
    req: &TotpVerifyRequest,
    client_ip: &str,
    now: u64,
) -> (r: Result<TotpVerifyResponse, AuthError>)
    requires
        now + SESSION_TTL_SECS <= u64::MAX,
    ensures
        match totp_outcome(
            old(store)@,
            view_opt(config.totp_secret),
            view_opt(req.token),
            req.code@,
            now,
        ) {
            TotpOutcome::MissingToken => r matches Ok(resp) && totp_response_is(
                resp,
                false,
                "Missing token"@,
                None,
            ) && final(store)@ == old(store)@,
            TotpOutcome::Expired => r matches Ok(resp) && totp_response_is(
                resp,
                false,
                "Session expired. Please login again."@,
                None,
            ) && final(store)@ == old(store)@,
            TotpOutcome::NotConfigured => r == Err::<TotpVerifyResponse, AuthError>(
                AuthError::TotpNotConfigured,
            ) && final(store)@ == old(store)@,
            TotpOutcome::InvalidCode => r matches Ok(resp) && totp_response_is(
                resp,
                false,
                "Invalid TOTP code"@,
                None,
            ) && final(store)@ == old(store)@,
            TotpOutcome::Accepted => (r == Err::<TotpVerifyResponse, AuthError>(
                AuthError::RandomSourceFailed,
            ) && final(store)@ == old(store)@) || (r matches Ok(resp)
                && resp.session_token matches Some(t) && is_token_text(t@) && totp_response_is(
                resp,
                true,
                "Login successful"@,
                Some(t@),
            ) && session_stored(final(store)@, old(store)@, req.token->0@, t@, client_ip@, now)),
        },
{
    let outcome = totp_outcome_of(store, config, req, now);
    let session_token = match outcome {
        TotpOutcome::Accepted => match generate_session_token() {
            Some(t) => Some(t),
            None => return Err(AuthError::RandomSourceFailed),
        },
        _ => None,
    };
    complete_totp(store, outcome, req, client_ip, session_token, now)
}

/// The token an authorization header carries: what follows `Bearer `, or
/// the whole value when that prefix is absent.
pub fn bearer_token_of(header: &str) -> (r: &str)
    ensures
        r@ == bearer_token(header@),
{
    let prefix = "Bearer ";
    proof {
        reveal_strlit("Bearer ");
        assert(prefix@ =~= bearer_prefix());
    }
    let n = header.unicode_len();
    if n >= 7 && same_text(header.substring_char(0, 7), prefix) {
        header.substring_char(7, n)
    } else {
        header
    }
}

/// Session guard: the request is authorised when its authorization header
/// carries a token under which a live session record is stored.
pub fn authorize(store: &TtlStore, authorization: Option<&str>, now: u64) -> (r: bool)
    ensures
        r == authorized(store@, view_opt_str(authorization), now),
{
    let header = match authorization {
        Some(h) => h,
        None => return false,
    };
    let token = bearer_token_of(header);
    let key = session_key_of(token);
    match store.get(key.as_str(), now) {
        Some(StoreValue::Session(_)) => true,
        _ => false,
    }
}

/// A pending token issued at `now` is live for its whole five minutes and
/// absent from the moment they have passed.
pub proof fn lemma_pending_token_lifetime(m: StoreModel, token: Seq<char>, now: u64)
    requires
        now + PENDING_TTL_SECS <= u64::MAX,
    ensures
        forall|t: u64|
            now <= t < now + PENDING_TTL_SECS ==> #[trigger] live_value(
                password_accepted(m, token, now),
                pending_key(token),
                t,
            ) == Some(StoreValue::Marker(true)),
        forall|t: u64|
            t >= now + PENDING_TTL_SECS ==> #[trigger] live_value(
                password_accepted(m, token, now),
                pending_key(token),
                t,
            ) is None,
{
}

proof fn lemma_keys_differ(p: Seq<char>, s: Seq<char>)
    ensures
        pending_key(p) != session_key(s),
{
    assert(pending_key(p)[0] != session_key(s)[0]);
}

/// After an accepted code the pending token is gone and the session token
/// names a live session record of the admin.
pub proof fn lemma_session_replaces_pending(
    before: StoreModel,
    after: StoreModel,
    pending: Seq<char>,
    session_token: Seq<char>,
    ip: Seq<char>,
    now: u64,
)
    requires
        now + SESSION_TTL_SECS <= u64::MAX,
        session_stored(after, before, pending, session_token, ip, now),
    ensures
        live_value(after, pending_key(pending), now) is None,
        live_value(after, session_key(session_token), now) matches Some(StoreValue::Session(rec))
            && is_admin_session(rec, ip, now),
{
    lemma_keys_differ(pending, session_token);
}

/// A pending token is single-use: once a code was accepted with it, a
/// further attempt with the same token finds it expired, whatever the code.
pub proof fn lemma_pending_token_single_use(
    before: StoreModel,
    after: StoreModel,
    pending: Seq<char>,
    session_token: Seq<char>,
    ip: Seq<char>,
    now: u64,
    secret: Option<Seq<char>>,
    code: Seq<char>,
    later: u64,
)
    requires
        session_stored(after, before, pending, session_token, ip, now),
    ensures
        totp_outcome(after, secret, Some(pending), code, later) == TotpOutcome::Expired,
{
    lemma_keys_differ(pending, session_token);
}

/// A wrong code does not use up a pending token: within its five minutes the
/// first attempt is refused as an invalid code (which leaves the store as it
/// was) and a later attempt with a correct code is accepted.
pub proof fn lemma_retry_after_wrong_code(
    m: StoreModel,
    secret: Seq<char>,
    pending: Seq<char>,
    wrong: Seq<char>,
    right: Seq<char>,
    issued: u64,
    first: u64,
    second: u64,
)
    requires
        issued + PENDING_TTL_SECS <= u64::MAX,
        issued <= first <= second < issued + PENDING_TTL_SECS,
        !totp_accepts(secret, wrong, first),
        totp_accepts(secret, right, second),
    ensures
        totp_outcome(
            password_accepted(m, pending, issued),
            Some(secret),
            Some(pending),
            wrong,
            first,
        ) == TotpOutcome::InvalidCode,
        totp_outcome(
            password_accepted(m, pending, issued),
            Some(secret),
            Some(pending),
            right,
            second,
        ) == TotpOutcome::Accepted,
{
}

/// A freshly issued session token authorises a `Bearer` request until the
/// session's day has passed, and not afterwards; a token under which no
/// session was ever stored authorises nothing.
pub proof fn lemma_authorize_lifecycle(
    before: StoreModel,
    after: StoreModel,
    pending: Seq<char>,
    session_token: Seq<char>,
    ip: Seq<char>,
    now: u64,
    later: u64,
    stranger: Seq<char>,
)
    requires
        now + SESSION_TTL_SECS <= u64::MAX,
        session_stored(after, before, pending, session_token, ip, now),
    ensures
        now <= later < now + SESSION_TTL_SECS ==> authorized(
            after,
            Some(bearer_prefix() + session_token),
            later,
        ),
        later >= now + SESSION_TTL_SECS ==> !authorized(
            after,
            Some(bearer_prefix() + session_token),
            later,
        ),
        !after.contains_key(session_key(stranger)) ==> !authorized(
            after,
            Some(bearer_prefix() + stranger),
            later,
        ),
{
    lemma_keys_differ(pending, session_token);
    assert((bearer_prefix() + session_token).subrange(0, 7) =~= bearer_prefix());
    assert((bearer_prefix() + session_token).subrange(
        7,
        (bearer_prefix() + session_token).len() as int,
    ) =~= session_token);
    assert((bearer_prefix() + stranger).subrange(0, 7) =~= bearer_prefix());
    assert((bearer_prefix() + stranger).subrange(7, (bearer_prefix() + stranger).len() as int)
        =~= stranger);
}

} // verus!

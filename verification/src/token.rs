use vstd::prelude::*;

use crate::errors::AuthError;
use crate::models::{Claims, Role, role_from_number, role_number, spec_role_from_number,
    spec_role_number};

verus! {

/// How long an issued token lives, in seconds: twenty-four hours.
pub const TOKEN_VALIDITY_SECS: u64 = 86400;

/// The signed token that `jsonwebtoken::encode` builds, with the default
/// header, over the claims object `{sub, role, exp}` and an HMAC-SHA256
/// signature under `key`. The signature is deterministic, so the token is a
/// function of the claims and the key alone.
pub uninterp spec fn jwt_encoded(sub: Seq<char>, role: u64, exp: u64, key: Seq<u8>) -> Seq<char>;

/// What `jsonwebtoken::decode` answers for a token and a key, with the
/// expiration check turned off so that the answer depends on the two
/// arguments alone. `Ok` carries the protected subject, role number and
/// expiration; `Err(true)` is a structurally sound token whose signature does
/// not match the key; `Err(false)` is a structural failure.
pub uninterp spec fn jwt_decoded(token: Seq<char>, key: Seq<u8>) -> Result<
    (Seq<char>, u64, u64),
    bool,
>;

/// The decoder reads exactly these claims out of the token under this key.
pub open spec fn jwt_decode_ok(
    token: Seq<char>,
    key: Seq<u8>,
    sub: Seq<char>,
    role: u64,
    exp: u64,
) -> bool {
    jwt_decoded(token, key) == Ok::<(Seq<char>, u64, u64), bool>((sub, role, exp))
}

/// The decoder refuses the token under this key: for a mismatched signature
/// when `sig` holds, for a structural failure otherwise.
pub open spec fn jwt_decode_failed(token: Seq<char>, key: Seq<u8>, sig: bool) -> bool {
    jwt_decoded(token, key) == Err::<(Seq<char>, u64, u64), bool>(sig)
}

/// Relies on `jsonwebtoken::encode`: with the default (HMAC-SHA256) header
/// and a plain secret it signs any claims object, and what it signs,
/// `jsonwebtoken::decode` under the same key reads back unchanged.
#[verifier::external_body]
fn jwt_encode_raw(sub: &str, role: u64, exp: u64, key: &[u8]) -> (r: Result<String, ()>)
    ensures
        r is Ok,
        r matches Ok(t) ==> t@ == jwt_encoded(sub@, role, exp, key@),
        r matches Ok(t) ==> jwt_decode_ok(t@, key@, sub@, role, exp),
{
    let mut m = serde_json::Map::new();
    m.insert("sub".to_string(), serde_json::Value::String(sub.to_string()));
    m.insert("role".to_string(), serde_json::Value::from(role));
    m.insert("exp".to_string(), serde_json::Value::from(exp));
    let key = jsonwebtoken::EncodingKey::from_secret(key);
    match jsonwebtoken::encode(&jsonwebtoken::Header::default(), &serde_json::Value::Object(m), &key) {
        Ok(t) => Ok(t),
        Err(_) => Err(()),
    }
}

/// Relies on `jsonwebtoken::decode`: it checks the token's structure and its
/// HMAC-SHA256 signature against the key and hands the claims back, and it
/// reports a signature mismatch apart from every structural failure.
#[verifier::external_body]
fn jwt_decode_raw(token: &str, key: &[u8]) -> (r: Result<(String, u64, u64), bool>)
    ensures
        r is Ok <==> jwt_decoded(token@, key@) is Ok,
        r matches Ok(p) ==> jwt_decode_ok(token@, key@, p.0@, p.1, p.2),
        r matches Err(sig) ==> jwt_decode_failed(token@, key@, sig),
{
    let mut v = jsonwebtoken::Validation::new(jsonwebtoken::Algorithm::HS256);
    v.validate_exp = false;
    v.validate_aud = false;
    v.required_spec_claims = Default::default();
    let k = jsonwebtoken::DecodingKey::from_secret(key);
    let c = match jsonwebtoken::decode::<serde_json::Value>(token, &k, &v) {
        Ok(d) => d.claims,
        Err(e) => return Err(matches!(e.kind(), jsonwebtoken::errors::ErrorKind::InvalidSignature)),
    };
    let sub = c["sub"].as_str().ok_or(false)?;
    let role = c["role"].as_u64().ok_or(false)?;
    let exp = c["exp"].as_u64().ok_or(false)?;
    Ok((sub.to_string(), role, exp))
}

/// Relies on chrono's conversion from the system clock: seconds since the
/// epoch, negative for a clock set before it (that path returns a negative
/// count instead of aborting). Nothing more is promised of it.
#[verifier::external_body]
fn now_unix_seconds() -> (r: i64) {
    chrono::DateTime::<chrono::Utc>::from(std::time::SystemTime::now()).timestamp()
}

/// The current instant in seconds since the epoch, clamped to zero for a
/// clock set before the epoch. Whatever the clock answers, the result leaves
/// room for the validity window.
pub fn current_unix_time() -> (r: u64)
    ensures
        r <= i64::MAX as u64,
{
    let t = now_unix_seconds();
    if t < 0 {
        0
    } else {
        t as u64
    }
}

/// Builds, serializes and signs the claims for `sub` with the given role:
/// the expiration is the issuing instant plus the fixed validity window, and
/// decoding the token under the same key gives exactly these claims back.
pub fn issue_token(sub: &String, role: Role, key: &Vec<u8>, now: u64) -> (r: Result<
    String,
    AuthError,
>)
    requires
        now <= u64::MAX - TOKEN_VALIDITY_SECS,
    ensures
        r is Ok,
        r matches Ok(t) ==> t@ == jwt_encoded(
            sub@,
            spec_role_number(role),
            (now + TOKEN_VALIDITY_SECS) as u64,
            key@,
        ),
        r matches Ok(t) ==> jwt_decode_ok(
            t@,
            key@,
            sub@,
            spec_role_number(role),
            (now + TOKEN_VALIDITY_SECS) as u64,
        ),
{
    let exp = now + TOKEN_VALIDITY_SECS;
    match jwt_encode_raw(sub.as_str(), role_number(role), exp, key.as_slice()) {
        Ok(t) => Ok(t),
        Err(_) => Err(AuthError::SigningError),
    }
}

/// Whether a token passes every check of `verify_token` at instant `now`
/// under `key`, and what claims it then carries.
pub open spec fn spec_token_accepted(token: Seq<char>, key: Seq<u8>, now: u64) -> bool {
    jwt_decoded(token, key) matches Ok(p) && spec_role_from_number(p.1) is Some && now <= p.2
}

/// Validates a presented token: the signature and structure first, then the
/// role encoding, then freshness against `now`. On success the returned
/// claims are exactly the protected ones, so a caller must not re-check
/// them.
pub fn verify_token(token: &str, key: &[u8], now: u64) -> (r: Result<Claims, AuthError>)
    ensures
        r is Ok <==> spec_token_accepted(token@, key@, now),
        r matches Ok(c) ==> {
            &&& jwt_decoded(token@, key@) matches Ok(p)
            &&& c@.sub == p.0
            &&& Some(c@.role) == spec_role_from_number(p.1)
            &&& c@.exp == p.2
            &&& now <= c@.exp
        },
        r == Err::<Claims, AuthError>(AuthError::TokenInvalid) <==> jwt_decode_failed(
            token@,
            key@,
            true,
        ),
        r == Err::<Claims, AuthError>(AuthError::TokenMalformed) <==> (jwt_decode_failed(
            token@,
            key@,
            false,
        ) || (jwt_decoded(token@, key@) matches Ok(p) && spec_role_from_number(p.1) is None)),
        r == Err::<Claims, AuthError>(AuthError::TokenExpired) <==> (jwt_decoded(token@, key@)
            matches Ok(p) && spec_role_from_number(p.1) is Some && now > p.2),
{
    match jwt_decode_raw(token, key) {
        Err(sig_mismatch) => {
            if sig_mismatch {
                Err(AuthError::TokenInvalid)
            } else {
                Err(AuthError::TokenMalformed)
            }
        },
        Ok((sub, role_num, exp)) => {
            match role_from_number(role_num) {
                None => Err(AuthError::TokenMalformed),
                Some(role) => {
                    if now > exp {
                        Err(AuthError::TokenExpired)
                    } else {
                        Ok(Claims { sub, role, exp })
                    }
                },
            }
        },
    }
}

} // verus!

use vstd::prelude::*;
use crate::errors::ServiceError;

verus! {

/// How long an issued identity token stays valid, in seconds.
pub const TOKEN_VALIDITY_SECONDS: u64 = 86400;

/// What the token codec's decoder extracts from `token` under `secret`,
/// with the signature checked but the expiry rule not yet applied:
/// `Some((subject, expiry))` for a well-signed token carrying those
/// claims, `None` otherwise. It depends on the token and the secret
/// alone.
pub uninterp spec fn jwt_claims(token: Seq<char>, secret: Seq<char>) -> Option<(Seq<char>, u64)>;

/// Relies on jsonwebtoken's `encode` under the default (HS256) header:
/// it signs the claim set `{sub, exp}` with `secret`, and `decode` under
/// the same secret recovers exactly those claims. On these inputs encode
/// cannot fail: serializing a string-keyed claims object cannot fail, and
/// HS256 signing returns a signature unconditionally.
#[verifier::external_body]
fn jwt_encode(sub: &String, exp: u64, secret: &String) -> (r: Option<String>)
    ensures
        r is Some,
        r matches Some(t) ==> jwt_claims(t@, secret@) == Some((sub@, exp)),
{
    let mut claims = serde_json::Map::new();
    claims.insert("sub".to_string(), serde_json::Value::String(sub.clone()));
    claims.insert("exp".to_string(), serde_json::Value::from(exp));
    let key = jsonwebtoken::EncodingKey::from_secret(secret.as_bytes());
    jsonwebtoken::encode(
        &jsonwebtoken::Header::default(),
        &serde_json::Value::Object(claims),
        &key,
    ).ok()
}

/// Relies on jsonwebtoken's `decode` under HS256, with its own expiry
/// check turned off (the verified caller applies the expiry rule): it
/// accepts a token only when the signature matches `secret`, and hands
/// back the `sub` and `exp` claims. Deterministic in the token and the
/// secret.
#[verifier::external_body]
fn jwt_decode(token: &String, secret: &String) -> (r: Option<(String, u64)>)
    ensures
        r matches Some(c) ==> jwt_claims(token@, secret@) == Some((c.0@, c.1)),
        r is None ==> jwt_claims(token@, secret@) is None,
{
    let mut validation = jsonwebtoken::Validation::new(jsonwebtoken::Algorithm::HS256);
    validation.validate_exp = false;
    let key = jsonwebtoken::DecodingKey::from_secret(secret.as_bytes());
    let data = match jsonwebtoken::decode::<serde_json::Value>(token, &key, &validation) {
        Ok(data) => data,
        Err(_) => return None,
    };
    let sub = match data.claims.get("sub").and_then(|v| v.as_str()) {
        Some(s) => s.to_string(),
        None => return None,
    };
    match data.claims.get("exp").and_then(|v| v.as_u64()) {
        Some(exp) => Some((sub, exp)),
        None => None,
    }
}

/// Relies on chrono's `Utc::now`: seconds since the Unix epoch, read
/// from the wall clock. Nothing can be promised of what the clock shows;
/// chrono itself gives up on a system clock set before the epoch, an
/// environmental condition out of reach here.
#[verifier::external_body]
fn now_unix_seconds() -> i64 {
    chrono::Utc::now().timestamp()
}

/// The wall clock as the operations take it: seconds since the Unix
/// epoch, with a clock showing a time before the epoch read as zero.
pub fn current_unix_time() -> u64 {
    let t = now_unix_seconds();
    if t < 0 {
        0
    } else {
        t as u64
    }
}

/// Issue a signed identity token for subject `sub`, expiring
/// `TOKEN_VALIDITY_SECONDS` after `now`. Issuing cannot fail: signing
/// these claims always yields a token.
pub fn issue_token(sub: &String, secret: &String, now: u64) -> (r: String)
    requires
        now + TOKEN_VALIDITY_SECONDS <= u64::MAX,
    ensures
        jwt_claims(r@, secret@) == Some((sub@, (now + TOKEN_VALIDITY_SECONDS) as u64)),
{
    let exp = now + TOKEN_VALIDITY_SECONDS;
    match jwt_encode(sub, exp, secret) {
        Some(t) => t,
        None => {
            proof {
                assert(false);
            }
            String::new()
        },
    }
}

/// Verify a token against `secret` at time `now`. All or nothing: a
/// malformed encoding, a signature mismatch, or an expiry not after
/// `now` each fail `Unauthenticated`; on success the embedded subject
/// comes back.
pub fn verify_token(token: &String, secret: &String, now: u64) -> (r: Result<String, ServiceError>)
    ensures
        match r {
            Ok(sub) => jwt_claims(token@, secret@) matches Some(c) && c.0 == sub@ && c.1 > now,
            Err(e) => e == ServiceError::Unauthenticated && !(jwt_claims(token@, secret@) matches
            Some(c) && c.1 > now),
        },
{
    match jwt_decode(token, secret) {
        Some((sub, exp)) => {
            if exp > now {
                Ok(sub)
            } else {
                Err(ServiceError::Unauthenticated)
            }
        },
        None => Err(ServiceError::Unauthenticated),
    }
}

} // verus!

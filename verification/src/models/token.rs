use crate::clock::unix_now;
use crate::errors::{AppError, ErrorKind};
use crate::state::{ARGON2_SALT, TOKEN_EXPIRE_TIME};
use crate::text::text_result;
use vstd::prelude::*;
use vstd::string::StringSliceAdditionalSpecFns;
use vstd::utf8::encode_utf8;

verus! {

/// What a token states: whom it was issued to, and the second of the Unix
/// epoch after which it is no longer valid.
#[derive(Debug)]
pub struct Claims {
    pub sub: String,
    pub exp: usize,
}

/// What a verified token's payload holds under the two names this library
/// reads; a name that is absent, or holds another type of value, gives `None`.
pub struct RawClaims {
    pub sub: Option<String>,
    pub exp: Option<u64>,
}

/// What `jsonwebtoken::encode` returns for the default header, the claims
/// `sub` and `exp` in that order, and an HMAC secret: the compact token, or
/// the text of its error.
pub uninterp spec fn hs256_token(sub: Seq<char>, exp: int, secret: Seq<u8>) -> Result<
    Seq<char>,
    Seq<char>,
>;

/// Calls `jsonwebtoken::encode` with `Header::default()`, a JSON object that
/// holds `sub` and `exp`, and `EncodingKey::from_secret`. The result is the
/// crate's, an error by its `Display` text.
#[verifier::external_body]
fn encode(sub: &str, exp: usize, secret: &[u8]) -> (r: Result<String, String>)
    ensures
        text_result(r) == hs256_token(sub@, exp as int, secret@),
{
    let mut claims = serde_json::Map::new();
    claims.insert("sub".to_string(), serde_json::Value::from(sub));
    claims.insert("exp".to_string(), serde_json::Value::from(exp));
    let key = jsonwebtoken::EncodingKey::from_secret(secret);
    match jsonwebtoken::encode(&jsonwebtoken::Header::default(), &claims, &key) {
        Ok(token) => Ok(token),
        Err(e) => Err(format!("{e}")),
    }
}

/// What `jsonwebtoken::decode` returns for a token and an HMAC secret under
/// `Validation::default()` when the system clock reads `now` seconds of the
/// Unix epoch: the payload's `sub` where it is a string and its `exp` where
/// it is an unsigned integer, or the text of its error.
pub uninterp spec fn hs256_claims(token: Seq<char>, secret: Seq<u8>, now: int) -> Result<
    (Option<Seq<char>>, Option<int>),
    Seq<char>,
>;

/// A decoding by its plain values.
pub open spec fn raw_result(r: Result<RawClaims, String>) -> Result<
    (Option<Seq<char>>, Option<int>),
    Seq<char>,
> {
    match r {
        Ok(raw) => Ok(
            (
                match raw.sub {
                    Some(sub) => Some(sub@),
                    None => None,
                },
                match raw.exp {
                    Some(exp) => Some(exp as int),
                    None => None,
                },
            ),
        ),
        Err(text) => Err(text@),
    }
}

/// Calls `jsonwebtoken::decode` with `DecodingKey::from_secret` and
/// `Validation::default()`, which checks the signature and, against the
/// system clock, the expiry. Hands out the payload's `sub` where it is a
/// string and its `exp` where it is an unsigned integer, or the `Display`
/// text of the crate's error. The crate reads the clock once, in whole
/// seconds, and nothing else of the machine: the outcome is the crate's for
/// this token, this secret and that reading, which the caller does not learn.
#[verifier::external_body]
fn decode(token: &str, secret: &[u8]) -> (r: Result<RawClaims, String>)
    ensures
        exists|now: int| raw_result(r) == #[trigger] hs256_claims(token@, secret@, now),
{
    let key = jsonwebtoken::DecodingKey::from_secret(secret);
    let validation = jsonwebtoken::Validation::default();
    let claims = match jsonwebtoken::decode::<serde_json::Value>(token, &key, &validation) {
        Ok(data) => data.claims,
        Err(e) => return Err(format!("{e}")),
    };
    let sub = match claims.get("sub") { Some(serde_json::Value::String(s)) => Some(s.clone()), _ => None };
    let exp = match claims.get("exp") { Some(serde_json::Value::Number(n)) => n.as_u64(), _ => None };
    Ok(RawClaims { sub, exp })
}

/// The expiry of a token issued at `now`.
pub open spec fn expiry_at(now: int) -> int {
    now + TOKEN_EXPIRE_TIME
}

/// What issuing a token for `sub` at the instant `now` gives: the signed
/// claims `{sub, exp: now + TTL}`, or the error it ends in.
pub open spec fn issued(sub: Seq<char>, now: int) -> Result<Seq<char>, (ErrorKind, Seq<char>)> {
    if 0 <= expiry_at(now) <= usize::MAX {
        match hs256_token(sub, expiry_at(now), encode_utf8(ARGON2_SALT@)) {
            Ok(token) => Ok(token),
            Err(text) => Err((ErrorKind::JwtError, text)),
        }
    } else {
        Err((ErrorKind::InternalError, "valid timestamp"@))
    }
}

/// A token or an error, each by its view.
pub open spec fn token_result(r: Result<String, AppError>) -> Result<
    Seq<char>,
    (ErrorKind, Seq<char>),
> {
    match r {
        Ok(token) => Ok(token@),
        Err(e) => Err(e@),
    }
}

/// The claims of a token issued for `sub` at `now`, where the expiry can be
/// written down.
pub fn claims_at(sub: &str, now: i64) -> (r: Option<Claims>)
    ensures
        r is Some <==> (0 <= expiry_at(now as int) <= usize::MAX),
        r matches Some(claims) ==> claims.sub@ == sub@ && claims.exp == expiry_at(now as int),
{
    let exp: i128 = now as i128 + TOKEN_EXPIRE_TIME as i128;
    if 0 <= exp && exp <= usize::MAX as i128 {
        Some(Claims { sub: sub.to_owned(), exp: exp as usize })
    } else {
        None
    }
}

/// Signs `claims` with the application's key.
pub fn sign(claims: &Claims) -> (r: Result<String, AppError>)
    ensures
        match hs256_token(claims.sub@, claims.exp as int, encode_utf8(ARGON2_SALT@)) {
            Ok(token) => r matches Ok(t) && t@ == token,
            Err(text) => r matches Err(e) && e@ == (ErrorKind::JwtError, text),
        },
{
    match encode(claims.sub.as_str(), claims.exp, ARGON2_SALT.as_bytes()) {
        Ok(token) => Ok(token),
        Err(text) => Err(AppError::JwtError(text)),
    }
}

/// Issues a token for `sub` as of the instant `now`.
pub fn generate_token_at(sub: &str, now: i64) -> (r: Result<String, AppError>)
    ensures
        token_result(r) == issued(sub@, now as int),
{
    match claims_at(sub, now) {
        Some(claims) => sign(&claims),
        None => Err(AppError::InternalError("valid timestamp".to_owned())),
    }
}

/// Issues a token for `sub` as of now: whatever the clock says, the result is
/// what [`generate_token_at`] gives for that instant.
pub fn generate_token(sub: &str) -> (r: Result<String, AppError>)
    ensures
        exists|now: int| i64::MIN <= now <= i64::MAX && token_result(r) == #[trigger] issued(sub@, now),
{
    let now = unix_now();
    let r = generate_token_at(sub, now);
    assert(token_result(r) == issued(sub@, now as int));
    r
}

/// The claims that a decoded payload amounts to: both `sub` and `exp` must be
/// there, and `exp` must fit the machine's word.
pub open spec fn claims_of(raw: RawClaims) -> Option<(Seq<char>, int)> {
    match (raw.sub, raw.exp) {
        (Some(sub), Some(exp)) => if exp <= usize::MAX {
            Some((sub@, exp as int))
        } else {
            None
        },
        _ => None,
    }
}

/// Turns a decoded payload into claims, or rejects it as a token error.
pub fn claims_from(raw: RawClaims) -> (r: Result<Claims, AppError>)
    ensures
        match claims_of(raw) {
            Some((sub, exp)) => r matches Ok(claims) && claims.sub@ == sub && claims.exp == exp,
            None => r matches Err(e) && e@ == (ErrorKind::JwtError, "Invalid claims"@),
        },
{
    match (raw.sub, raw.exp) {
        (Some(sub), Some(exp)) => {
            if exp <= usize::MAX as u64 {
                Ok(Claims { sub, exp: exp as usize })
            } else {
                Err(AppError::JwtError("Invalid claims".to_owned()))
            }
        },
        _ => Err(AppError::JwtError("Invalid claims".to_owned())),
    }
}

/// What a decoding amounts to: the claims where it succeeded and holds both
/// of them, with an `exp` that fits the machine's word; a token error with
/// the decoding's own text where it failed; a token error for claims that
/// are not there.
pub open spec fn verdict(decoded: Result<(Option<Seq<char>>, Option<int>), Seq<char>>) -> Result<
    (Seq<char>, int),
    (ErrorKind, Seq<char>),
> {
    match decoded {
        Err(text) => Err((ErrorKind::JwtError, text)),
        Ok((Some(sub), Some(exp))) => if exp <= usize::MAX {
            Ok((sub, exp))
        } else {
            Err((ErrorKind::JwtError, "Invalid claims"@))
        },
        Ok(_) => Err((ErrorKind::JwtError, "Invalid claims"@)),
    }
}

/// Claims or an error, each by its view.
pub open spec fn claims_result(r: Result<Claims, AppError>) -> Result<
    (Seq<char>, int),
    (ErrorKind, Seq<char>),
> {
    match r {
        Ok(claims) => Ok((claims.sub@, claims.exp as int)),
        Err(e) => Err(e@),
    }
}

/// The outcome of a verification, given what decoding the token came back
/// with.
pub fn claims_verified(decoded: Result<RawClaims, String>) -> (r: Result<Claims, AppError>)
    ensures
        claims_result(r) == verdict(raw_result(decoded)),
{
    match decoded {
        Ok(raw) => claims_from(raw),
        Err(text) => Err(AppError::JwtError(text)),
    }
}

/// Checks a token's signature and expiry under the application's key and
/// hands out its claims: whatever the clock reads, the result is what
/// [`claims_verified`] makes of the decoding of this token at that reading.
/// Every failure is a token error.
pub fn verify_token(token: &str) -> (r: Result<Claims, AppError>)
    ensures
        exists|now: int|
            claims_result(r) == verdict(
                #[trigger] hs256_claims(token@, encode_utf8(ARGON2_SALT@), now),
            ),
        r matches Err(e) ==> e.kind_of() == ErrorKind::JwtError,
{
    let decoded = decode(token, ARGON2_SALT.as_bytes());
    let ghost now = choose|now: int|
        raw_result(decoded) == #[trigger] hs256_claims(token@, encode_utf8(ARGON2_SALT@), now);
    let r = claims_verified(decoded);
    assert(claims_result(r) == verdict(hs256_claims(token@, encode_utf8(ARGON2_SALT@), now)));
    r
}

/// A token's expiry lies seven days after the instant it was issued at.
pub proof fn expiry_is_seven_days_later(now: int)
    ensures
        expiry_at(now) == now + 7 * 24 * 60 * 60,
        expiry_at(now) > now,
{
}

} // verus!

use crate::errors::{AppError, ErrorKind};
use crate::state::ARGON2_SALT;
use crate::text::{join, text_result};
use vstd::prelude::*;
use vstd::string::StringSliceAdditionalSpecFns;

verus! {

/// What `argon2::hash_encoded` returns for a password and a salt under
/// `argon2::Config::default()`: the encoded hash, or the text of its error.
pub uninterp spec fn argon2_hash(password: Seq<u8>, salt: Seq<u8>) -> Result<Seq<char>, Seq<char>>;

/// What `argon2::verify_encoded` returns for an encoded hash and a password:
/// whether they match, or the text of its error.
pub uninterp spec fn argon2_verify(encoded: Seq<char>, password: Seq<u8>) -> Result<
    bool,
    Seq<char>,
>;

/// `argon2::verify_encoded` finds that the password matches the encoded hash.
pub open spec fn argon2_accepts(encoded: Seq<char>, password: Seq<u8>) -> bool {
    argon2_verify(encoded, password) == Ok::<bool, Seq<char>>(true)
}

/// A verdict or a failure's text.
pub open spec fn flag_result(r: Result<bool, String>) -> Result<bool, Seq<char>> {
    match r {
        Ok(flag) => Ok(flag),
        Err(text) => Err(text@),
    }
}

/// Calls `argon2::hash_encoded` with `argon2::Config::default()`. The result is
/// the crate's, an error by its `Display` text. The second clause is the
/// crate's documented round trip: a hash made with the default parameters
/// verifies against the password it was made from.
#[verifier::external_body]
fn hash_encoded(password: &[u8], salt: &[u8]) -> (r: Result<String, String>)
    ensures
        text_result(r) == argon2_hash(password@, salt@),
        r matches Ok(encoded) ==> argon2_accepts(encoded@, password@),
{
    match argon2::hash_encoded(password, salt, &argon2::Config::default()) {
        Ok(encoded) => Ok(encoded),
        Err(e) => Err(format!("{e}")),
    }
}

/// Calls `argon2::verify_encoded`. The result is the crate's, an error by its
/// `Display` text.
#[verifier::external_body]
fn verify_encoded(encoded: &str, password: &[u8]) -> (r: Result<bool, String>)
    ensures
        flag_result(r) == argon2_verify(encoded@, password@),
{
    match argon2::verify_encoded(encoded, password) {
        Ok(matches) => Ok(matches),
        Err(e) => Err(format!("{e}")),
    }
}

/// The hash stored for `password`, or the internal error that hashing ends in.
pub open spec fn hashed(password: Seq<char>) -> Result<Seq<char>, (ErrorKind, Seq<char>)> {
    match argon2_hash(vstd::utf8::encode_utf8(password), vstd::utf8::encode_utf8(ARGON2_SALT@)) {
        Ok(encoded) => Ok(encoded),
        Err(text) => Err((ErrorKind::InternalError, text)),
    }
}

/// Whether `password` matches the stored hash `encoded`, or the internal error
/// that the comparison ends in.
pub open spec fn verified(encoded: Seq<char>, password: Seq<char>) -> Result<
    bool,
    (ErrorKind, Seq<char>),
> {
    match argon2_verify(encoded, vstd::utf8::encode_utf8(password)) {
        Ok(matches) => Ok(matches),
        Err(text) => Err((ErrorKind::InternalError, "Password verification error: "@ + text)),
    }
}

/// Hashes a password with the application's salt. A hash that comes back
/// verifies against the same password.
pub fn hash(password: &str) -> (r: Result<String, AppError>)
    ensures
        match r {
            Ok(encoded) => hashed(password@) == Ok::<Seq<char>, (ErrorKind, Seq<char>)>(encoded@)
                && verified(encoded@, password@) == Ok::<bool, (ErrorKind, Seq<char>)>(true),
            Err(e) => hashed(password@) == Err::<Seq<char>, (ErrorKind, Seq<char>)>(e@),
        },
{
    match hash_encoded(password.as_bytes(), ARGON2_SALT.as_bytes()) {
        Ok(encoded) => Ok(encoded),
        Err(text) => Err(AppError::InternalError(text)),
    }
}

/// Checks a password against a stored hash.
pub fn verify(encoded: &str, password: &str) -> (r: Result<bool, AppError>)
    ensures
        match r {
            Ok(matches) => verified(encoded@, password@) == Ok::<bool, (ErrorKind, Seq<char>)>(
                matches,
            ),
            Err(e) => verified(encoded@, password@) == Err::<bool, (ErrorKind, Seq<char>)>(e@),
        },
{
    match verify_encoded(encoded, password.as_bytes()) {
        Ok(matches) => Ok(matches),
        Err(text) => Err(
            AppError::InternalError(join("Password verification error: ", text.as_str())),
        ),
    }
}

} // verus!

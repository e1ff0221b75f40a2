use vstd::prelude::*;

verus! {

/// Salt shared by every password hash. The same text keys the token signatures.
pub const ARGON2_SALT: &'static str = "81d84995-8531-49b2-b563-12b0e17bc784";

/// Lifetime of an issued token, in seconds: seven days.
pub const TOKEN_EXPIRE_TIME: i64 = 604800;

} // verus!

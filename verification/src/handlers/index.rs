use crate::errors::AppError;
use vstd::prelude::*;

verus! {

/// The greeting served at the root.
pub fn index() -> (r: Result<String, AppError>)
    ensures
        r matches Ok(text) && text@ == "Hello, world!"@,
{
    Ok("Hello, world!".to_owned())
}

} // verus!

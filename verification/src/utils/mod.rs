use vstd::prelude::*;

pub mod serde_timestamp;

use crate::errors::{AppError, ErrorKind};
use crate::text::join;

verus! {

/// Takes a parameter out of the request's path. Where the path did not
/// yield one, the request is a bad one, and the error names the parameter.
pub fn extract_path_param<T>(param: Option<T>, param_name: &str) -> (r: Result<T, AppError>)
    ensures
        match param {
            Some(value) => r == Ok::<T, AppError>(value),
            None => r matches Err(e) && e@ == (ErrorKind::BadRequest, "无效的"@ + param_name@),
        },
{
    match param {
        Some(value) => Ok(value),
        None => Err(AppError::BadRequest(join("无效的", param_name))),
    }
}

} // verus!

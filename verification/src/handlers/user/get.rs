use crate::entity::users;
use crate::errors::{AppError, ErrorKind};
use crate::handlers::user::create::PostReqJson;
use crate::store::Store;
use vstd::prelude::*;

verus! {

/// What a client sends to search for users: a part of their name.
#[derive(Debug)]
pub struct Info {
    pub name: String,
}

/// The part of the name that the users are searched by: the one in the
/// request, as it stands.
pub fn name_part(info: &Info) -> (part: &str)
    ensures
        part@ == info.name@,
{
    info.name.as_str()
}

/// Ends a search, given what the datastore came back with: every row it
/// found, in its order, with status 200, or the datastore's error.
pub fn users_found(found: Result<Vec<users::Model>, String>) -> (reply: Result<
    PostReqJson<Vec<users::Model>>,
    AppError,
>)
    ensures
        match found {
            Ok(rows) => reply matches Ok(resp) && resp.code == 200 && resp.message@ == "ok"@
                && resp.data == rows,
            Err(text) => reply matches Err(e) && e@ == (ErrorKind::DbError, text@),
        },
{
    match found {
        Ok(rows) => Ok(PostReqJson { code: 200, data: rows, message: "ok" }),
        Err(text) => Err(AppError::DbError(text)),
    }
}

/// Searches the store for the users whose name holds the given part, and
/// hands out all of them, in the order of the table.
pub fn get_query_users(info: &Info, store: &Store) -> (reply: Result<
    PostReqJson<Vec<users::Model>>,
    AppError,
>)
    ensures
        reply matches Ok(resp) && resp.code == 200 && resp.message@ == "ok"@
            && resp.data.deep_view() == store@.users_named_like(info.name@),
{
    users_found(Ok(store.find_users_by_name(name_part(info))))
}

} // verus!

use crate::decimal::{decimal, parse_decimal, parse_i64, render_i64};
use crate::entity::{devices, users};
use crate::errors::{AppError, ErrorKind};
use crate::handlers::user::create::PostReqJson;
use crate::seqs::{
    lemma_filter_keeps, lemma_filter_member, lemma_filter_same, lemma_filter_split,
    lemma_filter_twice,
};
use crate::store::{
    lemma_one_user_per_key, not_selected, of_other_user, of_user, other_user, Store, StoreView,
};
use crate::text::join;
use crate::utils::extract_path_param;
use vstd::prelude::*;

verus! {

/// The key that a path parameter names, or the error that turns the request
/// down: a bad request where the path yields no parameter, a parse error
/// where the parameter is no `i64` in base ten.
pub open spec fn requested_id(id: Option<Seq<char>>) -> Result<int, (ErrorKind, Seq<char>)> {
    match id {
        None => Err((ErrorKind::BadRequest, "无效的"@ + "无效的用户ID"@)),
        Some(text) => match parse_decimal(text) {
            Ok(key) => Ok(key),
            Err(kind) => Err((ErrorKind::ParseError, kind.describe())),
        },
    }
}

/// The sessions of one user, whatever their token.
pub open spec fn sessions_of(user_id: int) -> devices::FilterView {
    devices::FilterView { user_id, token: None }
}

/// What says that no user has the key.
pub open spec fn not_found_text(user_id: int) -> Seq<char> {
    "用户ID "@ + decimal(user_id) + " 不存在"@
}

/// A path parameter by its characters.
pub open spec fn param_view(id: Option<String>) -> Option<Seq<char>> {
    match id {
        Some(text) => Some(text@),
        None => None,
    }
}

/// Reads the user's key out of the path.
pub fn user_id_param(id: Option<String>) -> (r: Result<i64, AppError>)
    ensures
        match requested_id(param_view(id)) {
            Ok(key) => r == Ok::<i64, AppError>(key as i64) && key == key as i64,
            Err(error) => r matches Err(e) && e@ == error,
        },
{
    let text = extract_path_param(id, "无效的用户ID")?;
    match parse_i64(text.as_str()) {
        Ok(key) => Ok(key),
        Err(kind) => Err(AppError::from_int_error(kind)),
    }
}

/// The devices to delete before the user goes: all of the user's.
pub fn delete_user_devices(user_id: i64) -> (filter: devices::Filter)
    ensures
        filter@ == sessions_of(user_id as int),
{
    devices::Filter { user_id, token: None }
}

/// The user to delete, given what the lookup by key came back with: the
/// row, the datastore's error, or, where there is no such row, the error
/// that says so.
pub fn find_user_active_model(user_id: i64, found: Result<Option<users::Model>, String>) -> (r:
    Result<users::Model, AppError>)
    ensures
        match found {
            Ok(Some(user)) => r == Ok::<users::Model, AppError>(user),
            Ok(None) => r matches Err(e) && e@ == (
                ErrorKind::NotFound,
                not_found_text(user_id as int),
            ),
            Err(text) => r matches Err(e) && e@ == (ErrorKind::DbError, text@),
        },
{
    match found {
        Ok(Some(user)) => Ok(user),
        Ok(None) => {
            let mut text = join("用户ID ", render_i64(user_id).as_str());
            text.append(" 不存在");
            Err(AppError::NotFound(text))
        },
        Err(text) => Err(AppError::DbError(text)),
    }
}

/// Ends a deletion, given how many rows the datastore says it deleted:
/// status 200, and whether there was any.
pub fn user_deleted(deleted: Result<u64, String>) -> (reply: Result<PostReqJson<bool>, AppError>)
    ensures
        match deleted {
            Ok(rows) => reply matches Ok(resp) && resp.code == 200 && resp.message@ == "ok"@
                && resp.data == (rows > 0),
            Err(text) => reply matches Err(e) && e@ == (ErrorKind::DbError, text@),
        },
{
    match deleted {
        Ok(rows) => Ok(PostReqJson { code: 200, data: rows > 0, message: "ok" }),
        Err(text) => Err(AppError::DbError(text)),
    }
}

/// Deletes a user from the store: first the user's devices, then the user.
/// A key that no user has is an error, and leaves the tables as they were.
pub fn delete_user(id: Option<String>, store: &mut Store) -> (reply: Result<
    PostReqJson<bool>,
    AppError,
>)
    requires
        old(store).wf(),
    ensures
        final(store).wf(),
        match requested_id(param_view(id)) {
            Err(error) => (reply matches Err(e) && e@ == error) && final(store)@ == old(store)@,
            Ok(key) => if old(store)@.has_user(key) {
                (reply matches Ok(resp) && resp.code == 200 && resp.message@ == "ok"@ && resp.data)
                    && final(store)@ == old(store)@.without_user(key)
            } else {
                (reply matches Err(e) && e@ == (ErrorKind::NotFound, not_found_text(key)))
                    && final(store)@ == old(store)@
            },
        },
{
    let ghost before = store@;
    let user_id = user_id_param(id)?;
    let filter = delete_user_devices(user_id);
    store.delete_devices(&filter);
    proof {
        lemma_devices_first(before, user_id as int);
        if !before.has_user(user_id as int) {
            lemma_unknown_user_has_no_devices(before, user_id as int);
        }
    }
    let found = store.find_user_by_id(user_id);
    let user = find_user_active_model(user_id, Ok(found))?;
    let removed = store.delete_user(user.id);
    user_deleted(Ok(removed))
}

/// In tables that keep their guarantees, a key that no user has owns no
/// device: deleting its devices changes nothing.
pub proof fn lemma_unknown_user_has_no_devices(tables: StoreView, user_id: int)
    requires
        tables.wf(),
        !tables.has_user(user_id),
    ensures
        tables.without_devices(sessions_of(user_id)) == tables,
{
    let keep = not_selected(sessions_of(user_id));
    assert forall|k: int| 0 <= k < tables.devices.len() implies keep(
        #[trigger] tables.devices[k],
    ) by {
        assert(tables.has_user(tables.devices[k].user_id));
    }
    lemma_filter_same(tables.devices, keep);
}

/// Deleting a user's devices and then the user leaves the same tables as
/// deleting the user, whose devices go with it.
pub proof fn lemma_devices_first(tables: StoreView, user_id: int)
    ensures
        tables.without_devices(sessions_of(user_id)).without_user(user_id) == tables.without_user(
            user_id,
        ),
        tables.without_devices(sessions_of(user_id)).has_user(user_id) == tables.has_user(user_id),
{
    let keep = not_selected(sessions_of(user_id));
    let others = of_other_user(user_id);
    assert forall|row: devices::ModelView| #[trigger] others(row) implies keep(row) by {}
    lemma_filter_twice(tables.devices, keep, others);
}

/// After a user was deleted, neither the user nor any of its devices is
/// stored, and every other row is.
pub proof fn deleted_user_is_gone(tables: StoreView, user_id: int)
    ensures
        !tables.without_user(user_id).has_user(user_id),
        forall|k: int|
            0 <= k < tables.without_user(user_id).devices.len() ==> (
            #[trigger] tables.without_user(user_id).devices[k]).user_id != user_id,
        forall|k: int|
            0 <= k < tables.users.len() && (#[trigger] tables.users[k]).id != user_id
                ==> tables.without_user(user_id).users.contains(tables.users[k]),
        forall|k: int|
            0 <= k < tables.devices.len() && (#[trigger] tables.devices[k]).user_id != user_id
                ==> tables.without_user(user_id).devices.contains(tables.devices[k]),
{
    let after = tables.without_user(user_id);
    assert forall|k: int| 0 <= k < after.users.len() implies (#[trigger] after.users[k]).id
        != user_id by {
        lemma_filter_member(tables.users, other_user(user_id), k);
    }
    assert forall|k: int| 0 <= k < after.devices.len() implies (#[trigger] after.devices[k]).user_id
        != user_id by {
        lemma_filter_member(tables.devices, of_other_user(user_id), k);
    }
    assert forall|k: int|
        0 <= k < tables.users.len() && (#[trigger] tables.users[k]).id
            != user_id implies after.users.contains(tables.users[k]) by {
        lemma_filter_keeps(tables.users, other_user(user_id), k);
    }
    assert forall|k: int|
        0 <= k < tables.devices.len() && (#[trigger] tables.devices[k]).user_id
            != user_id implies after.devices.contains(tables.devices[k]) by {
        lemma_filter_keeps(tables.devices, of_other_user(user_id), k);
    }
}

/// Deleting a user who owns N devices takes exactly those N rows out of
/// `devices` and exactly one row out of `users`.
pub proof fn deleted_user_takes_its_devices(tables: StoreView, user_id: int)
    requires
        tables.wf(),
        tables.has_user(user_id),
    ensures
        tables.without_user(user_id).devices.len() == tables.devices.len() - tables.devices_of(
            user_id,
        ).len(),
        tables.without_user(user_id).users.len() == tables.users.len() - 1,
{
    let others = of_other_user(user_id);
    let own = of_user(user_id);
    assert forall|row: devices::ModelView| #[trigger] others(row) == !own(row) by {}
    lemma_filter_split(tables.devices, others, own);
    lemma_one_user_per_key(tables, user_id);
}

} // verus!

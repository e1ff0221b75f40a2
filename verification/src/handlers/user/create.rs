use crate::clock::unix_now;
use crate::entity::users;
use crate::errors::{AppError, ErrorKind};
use crate::password::{hash, hashed, verified};
use crate::store::{Store, StoreView};
use vstd::prelude::*;

verus! {

/// The envelope of every reply: `code` repeats the HTTP status.
#[derive(Debug)]
pub struct PostReqJson<T> {
    pub code: i32,
    pub data: T,
    pub message: &'static str,
}

/// What a client sends to register.
#[derive(Debug)]
pub struct CreateUser {
    pub name: String,
    pub email: String,
    pub pass_word: String,
}

/// What `validator::ValidateEmail::validate_email` returns for a text.
pub uninterp spec fn email_is_valid(email: Seq<char>) -> bool;

/// Calls `validator::ValidateEmail::validate_email` on the text. The second
/// clause is the crate's first test: a text without `@` is no address.
#[verifier::external_body]
fn validate_email(email: &str) -> (valid: bool)
    ensures
        valid == email_is_valid(email@),
        valid ==> email@.contains('@'),
{
    validator::ValidateEmail::validate_email(&email)
}

/// The row that a registration asks the datastore to store at `now`, or the
/// error that turns the registration down: an address that is none is a
/// validation error, a password that cannot be hashed an internal one.
pub open spec fn registration(params: CreateUser, now: int) -> Result<
    users::ModelView,
    (ErrorKind, Seq<char>),
> {
    if !email_is_valid(params.email@) {
        Err((ErrorKind::ValidationError, "无效的邮箱地址"@))
    } else {
        match hashed(params.pass_word@) {
            Err(error) => Err(error),
            Ok(encoded) => Ok(
                users::ModelView {
                    id: 0,
                    name: params.name@,
                    email: params.email@,
                    pass_word: encoded,
                    status: "normal"@,
                    create_time: now,
                    update_time: now,
                },
            ),
        }
    }
}

/// A new row or an error, each by its view; the row under the key 0, which
/// no stored row has.
pub open spec fn new_row_result(r: Result<users::NewModel, AppError>) -> Result<
    users::ModelView,
    (ErrorKind, Seq<char>),
> {
    match r {
        Ok(new) => Ok(new.stored_as(0)),
        Err(e) => Err(e@),
    }
}

/// The reply that hands out `data` with status 200.
pub open spec fn is_ok<T>(reply: Result<PostReqJson<T>, AppError>, data: T) -> bool {
    reply matches Ok(resp) && resp.code == 200 && resp.message@ == "ok"@ && resp.data == data
}

/// Checks a registration and hashes its password, as of the instant `now`.
/// A row that comes back holds a hash that the password verifies against.
pub fn new_user_at(params: &CreateUser, now: i64) -> (r: Result<users::NewModel, AppError>)
    ensures
        new_row_result(r) == registration(*params, now as int),
        r matches Ok(new) ==> verified(new.pass_word@, params.pass_word@) == Ok::<
            bool,
            (ErrorKind, Seq<char>),
        >(true),
{
    if !validate_email(params.email.as_str()) {
        return Err(AppError::ValidationError("无效的邮箱地址".to_owned()));
    }
    let pass_word = hash(params.pass_word.as_str())?;
    Ok(
        users::NewModel {
            name: params.name.clone(),
            email: params.email.clone(),
            pass_word,
            status: "normal".to_owned(),
            create_time: now,
            update_time: now,
        },
    )
}

/// Checks a registration and hashes its password, as of now: whatever the
/// clock says, the result is what [`new_user_at`] gives for that instant.
pub fn new_user(params: &CreateUser) -> (r: Result<users::NewModel, AppError>)
    ensures
        exists|now: int|
            i64::MIN <= now <= i64::MAX && new_row_result(r) == #[trigger] registration(
                *params,
                now,
            ),
        r matches Ok(new) ==> verified(new.pass_word@, params.pass_word@) == Ok::<
            bool,
            (ErrorKind, Seq<char>),
        >(true),
{
    let now = unix_now();
    let r = new_user_at(params, now);
    assert(new_row_result(r) == registration(*params, now as int));
    r
}

/// Ends a registration, given what storing the row came back with: the
/// stored row with status 200, or the datastore's error.
pub fn created(stored: Result<users::Model, String>) -> (reply: Result<
    PostReqJson<users::Model>,
    AppError,
>)
    ensures
        match stored {
            Ok(row) => is_ok(reply, row),
            Err(text) => reply matches Err(e) && e@ == (ErrorKind::DbError, text@),
        },
{
    match stored {
        Ok(row) => Ok(PostReqJson { code: 200, data: row, message: "ok" }),
        Err(text) => Err(AppError::DbError(text)),
    }
}

/// Exactly one user was added to the tables: the row that the registration
/// describes, under a key that was free. Nothing else changed.
pub open spec fn user_added(before: StoreView, after: StoreView, row: users::ModelView, params: CreateUser) -> bool {
    &&& after == before.with_user(row)
    &&& !before.has_user(row.id)
    &&& row.name == params.name@
    &&& row.email == params.email@
    &&& row.status == "normal"@
    &&& row.create_time == row.update_time
    &&& hashed(params.pass_word@) == Ok::<Seq<char>, (ErrorKind, Seq<char>)>(row.pass_word)
    &&& verified(row.pass_word, params.pass_word@) == Ok::<bool, (ErrorKind, Seq<char>)>(true)
}

/// Registers a user in the store. An address that is none is refused as a
/// validation error; an address that is taken, by the datastore. A user
/// that is stored has the status `normal` and a hash in place of the
/// password, which the password verifies against.
pub fn create_user(params: &CreateUser, store: &mut Store) -> (reply: Result<
    PostReqJson<users::Model>,
    AppError,
>)
    requires
        old(store).wf(),
    ensures
        final(store).wf(),
        match reply {
            Ok(resp) => resp.code == 200 && resp.message@ == "ok"@ && user_added(
                old(store)@,
                final(store)@,
                resp.data@,
                *params,
            ),
            Err(e) => final(store)@ == old(store)@,
        },
        !email_is_valid(params.email@) ==> (reply matches Err(e) && e@ == (
            ErrorKind::ValidationError,
            "无效的邮箱地址"@,
        )),
        email_is_valid(params.email@) && hashed(params.pass_word@) is Err ==> (reply matches Err(e)
            && hashed(params.pass_word@) == Err::<Seq<char>, (ErrorKind, Seq<char>)>(e@)),
        email_is_valid(params.email@) && hashed(params.pass_word@) is Ok ==> (reply is Ok <==> !old(
            store,
        )@.has_email(params.email@) && old(store).user_key_left()),
        email_is_valid(params.email@) && hashed(params.pass_word@) is Ok && reply is Err
            ==> reply->Err_0.kind_of() == ErrorKind::DbError,
{
    let new = new_user(params)?;
    let stored = store.insert_user(new);
    created(stored)
}

} // verus!

use crate::clock::unix_now;
use crate::entity::{devices, users};
use crate::errors::{AppError, ErrorKind};
use crate::models::token::{generate_token, issued, token_result};
use crate::password::{verified, verify};
use crate::store::{Store, StoreView};
use crate::text::join;
use vstd::prelude::*;

verus! {

/// What a client sends to log in.
#[derive(Debug)]
pub struct LoginReq {
    pub email: String,
    pub pass_word: String,
}

/// The envelope of a reply to a login or a logout.
#[derive(Debug)]
pub struct LoginResp<T> {
    pub code: i32,
    pub data: T,
    pub message: &'static str,
}

/// What a successful login hands out: the user's row and the session's token.
#[derive(Debug)]
pub struct LoginData {
    pub user: users::Model,
    pub token: String,
}

/// How a login that did not fail ends.
#[derive(Debug)]
pub enum LoginReply {
    /// Status 200: the credentials matched and the session is stored.
    Authenticated(LoginResp<LoginData>),
    /// Status 401: no such user, or the password did not match.
    Rejected(LoginResp<()>),
}

/// What the login asks of the datastore once the user was looked up.
#[derive(Debug)]
pub enum Verifying {
    /// Nothing: the login ends here.
    Done(Result<LoginReply, AppError>),
    /// Store this session for this user; the login goes on with the outcome.
    Store { user: users::Model, token: String, device: devices::NewModel },
}

/// The reply that turns a login down with the given message.
pub open spec fn is_rejection(reply: Result<LoginReply, AppError>, message: Seq<char>) -> bool {
    reply matches Ok(LoginReply::Rejected(resp)) && resp.code == 401 && resp.message@ == message
}

/// The reply that grants a login to `user` with `token`.
pub open spec fn is_grant(
    reply: Result<LoginReply, AppError>,
    user: users::ModelView,
    token: Seq<char>,
) -> bool {
    reply matches Ok(LoginReply::Authenticated(resp)) && resp.code == 200 && resp.message@
        == "Login successful"@ && resp.data.user@ == user && resp.data.token@ == token
}

/// The reply that fails with the given error.
pub open spec fn is_failure(reply: Result<LoginReply, AppError>, error: (ErrorKind, Seq<char>)) -> bool {
    reply matches Err(e) && e@ == error
}

impl LoginReply {
    /// The HTTP status of the reply.
    pub fn status_code(&self) -> (code: u16)
        ensures
            code == match self {
                LoginReply::Authenticated(_) => 200int,
                LoginReply::Rejected(_) => 401int,
            },
    {
        match self {
            LoginReply::Authenticated(_) => 200,
            LoginReply::Rejected(_) => 401,
        }
    }
}

/// What the login goes on with for `user`, whose password matched, when the
/// token is issued at `now`: the session to store, with the user's key and
/// the token that was signed, or the failure that issuing ended in.
pub open spec fn token_decides(next: Verifying, user: users::ModelView, now: int) -> bool {
    &&& i64::MIN <= now <= i64::MAX
    &&& match issued(user.email, now) {
        Ok(signed) => next matches Verifying::Store { user: kept, token, device } && kept@ == user
            && token@ == signed && device.user_id == user.id && device.token@ == signed,
        Err(error) => next matches Verifying::Done(reply) && is_failure(reply, error),
    }
}

fn rejection(message: &'static str) -> (reply: Result<LoginReply, AppError>)
    ensures
        is_rejection(reply, message@),
{
    Ok(LoginReply::Rejected(LoginResp { code: 401, data: (), message }))
}

/// The address under which the user is looked up: the one in the request,
/// as it stands.
pub fn lookup(data: &LoginReq) -> (email: &str)
    ensures
        email@ == data.email@,
{
    data.email.as_str()
}

/// Decides how the login goes on, given what the lookup of the user came
/// back with. A failed lookup fails the login. Without a user the login is
/// turned down, and so it is when the password does not match the stored
/// hash. When it matches, a token is issued for the user's address and a
/// session for the user's key is handed to the datastore.
pub fn verify_user(data: &LoginReq, found: Result<Option<users::Model>, String>) -> (next:
    Verifying)
    ensures
        match found {
            Err(text) => next matches Verifying::Done(reply) && is_failure(
                reply,
                (ErrorKind::DbError, text@),
            ),
            Ok(None) => next matches Verifying::Done(reply) && is_rejection(
                reply,
                "User not found"@,
            ),
            Ok(Some(user)) => match verified(user.pass_word@, data.pass_word@) {
                Err(error) => next matches Verifying::Done(reply) && is_failure(reply, error),
                Ok(false) => next matches Verifying::Done(reply) && is_rejection(
                    reply,
                    "Invalid password"@,
                ),
                Ok(true) => exists|now: int| #[trigger] token_decides(next, user@, now),
            },
        },
{
    let user = match found {
        Err(text) => {
            return Verifying::Done(Err(AppError::DbError(text)));
        },
        Ok(None) => {
            return Verifying::Done(rejection("User not found"));
        },
        Ok(Some(user)) => user,
    };
    match verify(user.pass_word.as_str(), data.pass_word.as_str()) {
        Err(e) => Verifying::Done(Err(e)),
        Ok(false) => Verifying::Done(rejection("Invalid password")),
        Ok(true) => {
            let issue = generate_token(user.email.as_str());
            let ghost now = choose|now: int|
                i64::MIN <= now <= i64::MAX && token_result(issue) == #[trigger] issued(
                    user.email@,
                    now,
                );
            let ghost subject = user@;
            let next = match issue {
                Err(e) => Verifying::Done(Err(e)),
                Ok(token) => {
                    let device = devices::NewModel { user_id: user.id, token: token.clone() };
                    Verifying::Store { user, token, device }
                },
            };
            assert(token_decides(next, subject, now));
            next
        },
    }
}

/// Ends the login, given what storing the session came back with. Only a
/// stored session makes the login a success; a session that could not be
/// stored fails it, and no token is handed out.
pub fn authenticated(user: users::Model, token: String, stored: Result<(), String>) -> (reply:
    Result<LoginReply, AppError>)
    ensures
        match stored {
            Ok(()) => is_grant(reply, user@, token@),
            Err(text) => is_failure(reply, (ErrorKind::InternalError, "设备写入失败: "@ + text@)),
        },
{
    match stored {
        Err(text) => Err(AppError::InternalError(join("设备写入失败: ", text.as_str()))),
        Ok(()) => Ok(
            LoginReply::Authenticated(
                LoginResp {
                    code: 200,
                    data: LoginData { user, token },
                    message: "Login successful",
                },
            ),
        ),
    }
}

/// Exactly one session was added to the tables: one of the user with the key
/// `user_id`, with the given token. Nothing else changed.
pub open spec fn session_added(
    before: StoreView,
    after: StoreView,
    user_id: int,
    token: Seq<char>,
) -> bool {
    exists|row: devices::ModelView|
        row.user_id == user_id && row.token == token && after == #[trigger] before.with_device(row)
}

/// A login that succeeds leaves the `devices` table one row longer: the new
/// row comes last, belongs to the user and carries the token; every row
/// that was there stays, and the `users` table is as it was.
pub proof fn login_adds_one_session(
    before: StoreView,
    after: StoreView,
    user_id: int,
    token: Seq<char>,
)
    requires
        session_added(before, after, user_id, token),
    ensures
        after.devices.len() == before.devices.len() + 1,
        after.devices.last().user_id == user_id,
        after.devices.last().token == token,
        after.devices.drop_last() == before.devices,
        after.users == before.users,
{
    let row = choose|row: devices::ModelView|
        row.user_id == user_id && row.token == token && after == #[trigger] before.with_device(row);
    assert(after.devices.drop_last() =~= before.devices);
}

/// How a login of `user`, whose password matched, ends when the token is
/// issued at `now`: with a grant and one session more, or with a failure
/// and the tables as they were.
pub open spec fn session_opened(
    before: StoreView,
    key_left: bool,
    after: StoreView,
    reply: Result<LoginReply, AppError>,
    user: users::ModelView,
    now: int,
) -> bool {
    match issued(user.email, now) {
        Err(error) => is_failure(reply, error) && after == before,
        Ok(signed) => if key_left {
            is_grant(reply, user, signed) && session_added(before, after, user.id, signed)
        } else {
            reply matches Err(e) && e.kind_of() == ErrorKind::InternalError && after == before
        },
    }
}

/// Logs a user in against the store. An address that is not stored is
/// turned down with `User not found`, a password that does not match with
/// `Invalid password`; neither changes the tables. A match issues a token
/// and stores exactly one session for the user; if that cannot be done the
/// login fails and the tables stay as they were.
pub fn login(data: &LoginReq, store: &mut Store) -> (reply: Result<LoginReply, AppError>)
    requires
        old(store).wf(),
    ensures
        final(store).wf(),
        !old(store)@.has_email(data.email@) ==> is_rejection(reply, "User not found"@) && final(store)@ == old(store)@,
        forall|user: users::ModelView| #[trigger]
            old(store)@.users.contains(user) && user.email == data.email@ ==> match verified(
                user.pass_word,
                data.pass_word@,
            ) {
                Err(error) => is_failure(reply, error) && final(store)@ == old(store)@,
                Ok(false) => is_rejection(reply, "Invalid password"@) && final(store)@ == old(store)@,
                Ok(true) => exists|now: int| #[trigger]
                    session_opened(
                        old(store)@,
                        old(store).device_key_left(),
                        final(store)@,
                        reply,
                        user,
                        now,
                    ),
            },
{
    let found = store.find_user_by_email(lookup(data));
    let ghost before = store@;
    let ghost known = found;
    let next = verify_user(data, Ok(found));
    let ghost decided = next;
    let reply = match next {
        Verifying::Done(reply) => reply,
        Verifying::Store { user, token, device } => {
            let stored = match store.insert_device(device, unix_now()) {
                Ok(row) => {
                    assert(store@ == before.with_device(row@));
                    Ok(())
                },
                Err(text) => Err(text),
            };
            authenticated(user, token, stored)
        },
    };
    proof {
        assert forall|user: users::ModelView| #[trigger]
            before.users.contains(user) && user.email == data.email@ implies match verified(
            user.pass_word,
            data.pass_word@,
        ) {
            Err(error) => is_failure(reply, error) && store@ == before,
            Ok(false) => is_rejection(reply, "Invalid password"@) && store@ == before,
            Ok(true) => exists|now: int| #[trigger]
                session_opened(before, old(store).device_key_left(), store@, reply, user, now),
        } by {
            lemma_one_user_per_email(before, user, data.email@);
            assert(known is Some);
            lemma_one_user_per_email(before, known->0@, data.email@);
            assert(user == known->0@);
            if verified(user.pass_word, data.pass_word@) == Ok::<bool, (ErrorKind, Seq<char>)>(
                true,
            ) {
                let now = choose|now: int| #[trigger] token_decides(decided, user, now);
                assert(token_decides(decided, user, now));
                assert(before.has_user(user.id)) by {
                    let i = choose|i: int| 0 <= i < before.users.len() && before.users[i] == user;
                    assert(before.users[i].id == user.id);
                }
                assert(session_opened(
                    before,
                    old(store).device_key_left(),
                    store@,
                    reply,
                    user,
                    now,
                ));
            }
        }
    }
    reply
}

/// In tables that keep their guarantees, the user with a given address is
/// the only one with it.
pub proof fn lemma_one_user_per_email(tables: StoreView, user: users::ModelView, email: Seq<char>)
    requires
        tables.wf(),
        tables.users.contains(user),
        user.email == email,
    ensures
        tables.has_email(email),
        forall|other: users::ModelView| #[trigger]
            tables.users.contains(other) && other.email == email ==> other == user,
{
    let i = choose|i: int| 0 <= i < tables.users.len() && tables.users[i] == user;
    assert(tables.users[i].email == email);
    assert forall|other: users::ModelView| #[trigger]
        tables.users.contains(other) && other.email == email implies other == user by {
        let j = choose|j: int| 0 <= j < tables.users.len() && tables.users[j] == other;
        if i < j {
            assert(tables.users[i].email != tables.users[j].email);
        } else if j < i {
            assert(tables.users[j].email != tables.users[i].email);
        }
    }
}

} // verus!

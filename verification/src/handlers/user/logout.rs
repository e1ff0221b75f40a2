use crate::entity::devices;
use crate::errors::AppError;
use crate::handlers::user::login::LoginResp;
use crate::seqs::{lemma_filter_keeps, lemma_filter_member, lemma_filter_same};
use crate::store::{not_selected, Store, StoreView};
use vstd::prelude::*;

verus! {

/// What a client sends to log out: the user's key and, to end one session
/// only, that session's token.
#[derive(Debug)]
pub struct LogoutReq {
    pub id: i64,
    pub token: Option<String>,
}

/// The sessions that a logout ends: those of the user, and among them only
/// the one with the token where a token is given. An empty token counts as
/// none.
pub open spec fn sessions_ended(id: int, token: Option<Seq<char>>) -> devices::FilterView {
    devices::FilterView {
        user_id: id,
        token: match token {
            Some(text) => if text.len() == 0 {
                None
            } else {
                Some(text)
            },
            None => None,
        },
    }
}

/// The reply to every logout.
pub open spec fn is_logged_out(reply: Result<LoginResp<bool>, AppError>) -> bool {
    reply matches Ok(resp) && resp.code == 200 && resp.data && resp.message@
        == "Logout successful"@
}

impl LogoutReq {
    /// The token of the request as a mathematical value.
    pub open spec fn token_view(&self) -> Option<Seq<char>> {
        match self.token {
            Some(text) => Some(text@),
            None => None,
        }
    }
}

/// The sessions to delete for a logout.
pub fn sessions(data: &LogoutReq) -> (filter: devices::Filter)
    ensures
        filter@ == sessions_ended(data.id as int, data.token_view()),
{
    let token = match &data.token {
        Some(text) => {
            if text.as_str().is_empty() {
                None
            } else {
                Some(text.clone())
            }
        },
        None => None,
    };
    devices::Filter { user_id: data.id, token }
}

/// Ends the logout, given what the deletion came back with: a logout
/// succeeds whatever that was, also when the datastore failed.
pub fn logged_out(deleted: Result<u64, String>) -> (reply: Result<LoginResp<bool>, AppError>)
    ensures
        is_logged_out(reply),
{
    Ok(LoginResp { code: 200, data: true, message: "Logout successful" })
}

/// Logs a user out of the store: deletes the sessions that the request
/// names, and succeeds whether or not there were any.
pub fn logout(data: &LogoutReq, store: &mut Store) -> (reply: Result<LoginResp<bool>, AppError>)
    requires
        old(store).wf(),
    ensures
        final(store).wf(),
        is_logged_out(reply),
        final(store)@ == old(store)@.without_devices(
            sessions_ended(data.id as int, data.token_view()),
        ),
{
    let filter = sessions(data);
    let removed = store.delete_devices(&filter);
    logged_out(Ok(removed))
}

/// A logout without a token, or with an empty one, ends every session of
/// the user and no session of anybody else.
pub proof fn logout_without_token_ends_all(tables: StoreView, id: int, token: Option<Seq<char>>)
    requires
        token is None || token->0.len() == 0,
    ensures
        forall|k: int|
            0 <= k < tables.without_devices(sessions_ended(id, token)).devices.len() ==> (
            #[trigger] tables.without_devices(sessions_ended(id, token)).devices[k]).user_id != id,
        forall|k: int|
            0 <= k < tables.devices.len() && (#[trigger] tables.devices[k]).user_id != id
                ==> tables.without_devices(sessions_ended(id, token)).devices.contains(
                tables.devices[k],
            ),
        tables.without_devices(sessions_ended(id, token)).users == tables.users,
{
    let filter = sessions_ended(id, token);
    let after = tables.without_devices(filter);
    assert forall|k: int| 0 <= k < after.devices.len() implies (#[trigger] after.devices[k]).user_id
        != id by {
        lemma_filter_member(tables.devices, not_selected(filter), k);
    }
    assert forall|k: int|
        0 <= k < tables.devices.len() && (#[trigger] tables.devices[k]).user_id
            != id implies after.devices.contains(tables.devices[k]) by {
        lemma_filter_keeps(tables.devices, not_selected(filter), k);
    }
}

/// A logout with a token ends the sessions of the user that carry the
/// token, and no other session.
pub proof fn logout_with_token_ends_matching(tables: StoreView, id: int, token: Seq<char>)
    requires
        token.len() > 0,
    ensures
        forall|k: int|
            0 <= k < tables.without_devices(sessions_ended(id, Some(token))).devices.len() ==> !({
                let row = #[trigger] tables.without_devices(
                    sessions_ended(id, Some(token)),
                ).devices[k];
                row.user_id == id && row.token == token
            }),
        forall|k: int|
            0 <= k < tables.devices.len() && !((#[trigger] tables.devices[k]).user_id == id
                && tables.devices[k].token == token) ==> tables.without_devices(
                sessions_ended(id, Some(token)),
            ).devices.contains(tables.devices[k]),
        tables.without_devices(sessions_ended(id, Some(token))).users == tables.users,
{
    let filter = sessions_ended(id, Some(token));
    let after = tables.without_devices(filter);
    assert forall|k: int| 0 <= k < after.devices.len() implies !({
        let row = #[trigger] after.devices[k];
        row.user_id == id && row.token == token
    }) by {
        lemma_filter_member(tables.devices, not_selected(filter), k);
    }
    assert forall|k: int|
        0 <= k < tables.devices.len() && !((#[trigger] tables.devices[k]).user_id == id
            && tables.devices[k].token == token) implies after.devices.contains(
        tables.devices[k],
    ) by {
        lemma_filter_keeps(tables.devices, not_selected(filter), k);
    }
}

/// A second logout with the same request finds nothing left to delete: the
/// tables stay as the first one left them.
pub proof fn logout_is_idempotent(tables: StoreView, id: int, token: Option<Seq<char>>)
    ensures
        tables.without_devices(sessions_ended(id, token)).without_devices(
            sessions_ended(id, token),
        ) == tables.without_devices(sessions_ended(id, token)),
{
    let filter = sessions_ended(id, token);
    let once = tables.without_devices(filter);
    assert forall|k: int| 0 <= k < once.devices.len() implies not_selected(filter)(
        #[trigger] once.devices[k],
    ) by {
        lemma_filter_member(tables.devices, not_selected(filter), k);
    }
    lemma_filter_same(once.devices, not_selected(filter));
}

} // verus!

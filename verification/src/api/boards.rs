//! The decisions of the board endpoints.
use vstd::prelude::*;
use crate::api::reply::{is_text_reply, text_reply, Next, Reply};
use crate::db::bundlesdb::{Board, DefaultReturn, UserState};

verus! {

/// The guard of board creation: `token_valid` is `None` when no session cookie
/// came, else whether the token names a user; `auth_required` is whether the
/// server requires an account. `None` lets the request through.
pub fn board_guard<T>(token_valid: Option<bool>, auth_required: bool) -> (r: Option<Reply<T>>)
    ensures
        token_valid == Some(false) ==> (r matches Some(a) && is_text_reply(a, 404, "Invalid token"@)),
        token_valid == Some(true) ==> r is None,
        token_valid is None && auth_required ==> (r matches Some(a) && is_text_reply(
            a,
            406,
            "This server requires an account to create pastes"@,
        )),
        token_valid is None && !auth_required ==> r is None,
{
    match token_valid {
        Some(false) => Some(text_reply(404, "Invalid token")),
        Some(true) => None,
        None => if auth_required {
            Some(text_reply(406, "This server requires an account to create pastes"))
        } else {
            None
        },
    }
}

/// The board to create: named as asked, with no date and no metadata yet.
pub fn new_board(name: String) -> (r: Board)
    ensures
        r.name == name,
        r.timestamp == 0,
        r.metadata@.len() == 0,
{
    Board { name, timestamp: 0, metadata: String::new() }
}

/// The next step of a board creation: the token first (`None` before the
/// session is read, then `Some(None)` when no cookie came or `Some(Some(valid))`),
/// then whether the server requires an account.
pub fn board_request_step<T>(token: Option<Option<bool>>, auth_required: bool) -> (r: Next<T>)
    ensures
        token is None ==> r is LookUpToken,
        token == Some(Some(false)) ==> (r matches Next::Refuse(a) && is_text_reply(
            a,
            404,
            "Invalid token"@,
        )),
        token == Some(Some(true)) ==> r is Proceed,
        token == Some(None::<bool>) && auth_required ==> (r matches Next::Refuse(a) && is_text_reply(
            a,
            406,
            "This server requires an account to create pastes"@,
        )),
        token == Some(None::<bool>) && !auth_required ==> r is Proceed,
{
    match token {
        None => Next::LookUpToken,
        Some(valid) => match board_guard(valid, auth_required) {
            Some(refused) => Next::Refuse(refused),
            None => Next::Proceed,
        },
    }
}

/// The owner of a new board: the signed-in user (looked up by its hashed
/// token), or none when no session cookie came.
pub fn board_owner(lookup: Option<DefaultReturn<Option<UserState>>>) -> (r: Option<String>)
    requires
        lookup matches Some(u) ==> u.payload is Some,
    ensures
        match lookup {
            Some(u) => r == Some(u.payload.unwrap().username),
            None => r is None,
        },
{
    match lookup {
        Some(u) => match u.payload {
            Some(user) => Some(user.username),
            None => None,
        },
        None => None,
    }
}

} // verus!

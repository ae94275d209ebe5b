//! What an endpoint answers: a status, the two headers it may set, and a body.
use vstd::prelude::*;

verus! {

/// The body of an answer: plain text, a value to send as JSON, or raw bytes.
pub enum ReplyBody<T> {
    Text(String),
    Json(T),
    Bytes(Vec<u8>),
}

/// An HTTP answer. `set_cookie` and `content_type` are sent, in that order, when present.
pub struct Reply<T> {
    pub status: u16,
    pub set_cookie: Option<String>,
    pub content_type: Option<String>,
    pub body: ReplyBody<T>,
}

/// `r` is a plain-text answer with `status` and `text`, and no header.
pub open spec fn is_text_reply<T>(r: Reply<T>, status: u16, text: Seq<char>) -> bool {
    &&& r.status == status
    &&& r.set_cookie is None
    &&& r.content_type is None
    &&& r.body matches ReplyBody::Text(t) && t@ == text
}

/// `r` is a JSON answer with `status` and body `value`, and no cookie.
pub open spec fn is_json_reply<T>(r: Reply<T>, status: u16, value: T) -> bool {
    &&& r.status == status
    &&& r.set_cookie is None
    &&& r.content_type matches Some(c) && c@ == "application/json"@
    &&& r.body == ReplyBody::Json(value)
}

/// A plain-text answer.
pub fn text_reply<T>(status: u16, text: &str) -> (r: Reply<T>)
    ensures
        is_text_reply(r, status, text@),
{
    Reply { status, set_cookie: None, content_type: None, body: ReplyBody::Text(text.to_owned()) }
}

/// A JSON answer.
pub fn json_reply<T>(status: u16, value: T) -> (r: Reply<T>)
    ensures
        is_json_reply(r, status, value),
{
    Reply {
        status,
        set_cookie: None,
        content_type: Some("application/json".to_owned()),
        body: ReplyBody::Json(value),
    }
}

} // verus!

verus! {

/// What an endpoint needs next, given what it has learnt so far.
pub enum Next<T> {
    /// Read the session cookie and, when one came, look its token up.
    LookUpToken,
    /// Look up the profile named in the path.
    LookUpProfile,
    /// Decide whether the signed-in user may act (see `can_manage_user` and
    /// `has_manage_users`).
    CheckPermission,
    /// Answer with this refusal; nothing else is done.
    Refuse(Reply<T>),
    /// Every guard let the request through: run it.
    Proceed,
}

} // verus!

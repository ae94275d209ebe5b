//! The decisions of the account endpoints: sessions, who may manage a profile,
//! and what each refusal is answered with. The requests, the store round trips,
//! the JSON coding and the avatar fetch are run by the server around them.
use vstd::prelude::*;
use crate::api::reply::{is_json_reply, is_text_reply, json_reply, text_reply, Next, Reply, ReplyBody};
use crate::db::bundlesdb::{DefaultReturn, RoleLevel, UserFollow, UserMetadata};
use crate::text::{chars_eq, chars_of, decimal, decimal_u128, push_all, string_from_chars};

verus! {

// ------------------------------------------------------------------
// Sessions
// ------------------------------------------------------------------

/// One year, in seconds: how long a session cookie lives.
pub open spec fn session_max_age() -> nat {
    60 * 60 * 24 * 365
}

/// The session cookie that carries `token`.
pub open spec fn session_cookie_text(token: Seq<char>) -> Seq<char> {
    "__Secure-Token="@ + token
        + "; SameSite=Strict; Secure; Path=/; HostOnly=true; HttpOnly=true; Max-Age="@
        + decimal(session_max_age())
}

/// The session cookie that carries `token`.
pub fn session_cookie(token: &str) -> (r: String)
    ensures
        r@ == session_cookie_text(token@),
{
    let mut c = chars_of("__Secure-Token=");
    push_all(&mut c, &chars_of(token));
    push_all(
        &mut c,
        &chars_of("; SameSite=Strict; Secure; Path=/; HostOnly=true; HttpOnly=true; Max-Age="),
    );
    let age: u128 = 60 * 60 * 24 * 365;
    push_all(&mut c, &decimal_u128(age));
    string_from_chars(&c)
}

/// The answer to a sign-in (or registration): the JSON answer of the store,
/// with a session cookie for `token` when the store succeeded with a payload,
/// and an empty `Set-Cookie` otherwise.
pub fn session_reply<T>(token: &str, success: bool, has_payload: bool, body: T) -> (r: Reply<T>)
    ensures
        r.status == 200,
        r.set_cookie matches Some(c) && c@ == (if success && has_payload {
            session_cookie_text(token@)
        } else {
            Seq::<char>::empty()
        }),
        r.content_type matches Some(t) && t@ == "application/json"@,
        r.body == ReplyBody::Json(body),
{
    let cookie = if success && has_payload {
        session_cookie(token)
    } else {
        String::new()
    };
    Reply {
        status: 200,
        set_cookie: Some(cookie),
        content_type: Some("application/json".to_owned()),
        body: ReplyBody::Json(body),
    }
}

/// The refusal when the server has registration disabled.
pub fn registration_disabled_reply<T>() -> (r: Reply<T>)
    ensures
        is_text_reply(r, 406, "This server requires has registration disabled"@),
{
    text_reply(406, "This server requires has registration disabled")
}

/// The answer to a sign-out: `token_valid` is `None` when no session cookie
/// came, else whether the token names a user.
pub fn logout_reply<T>(token_valid: Option<bool>) -> (r: Reply<T>)
    ensures
        token_valid is None ==> is_text_reply(r, 406, "Missing token"@),
        token_valid == Some(false) ==> is_text_reply(r, 406, "Invalid token"@),
        token_valid == Some(true) ==> {
            &&& r.status == 200
            &&& r.set_cookie matches Some(c) && c@
                == "__Secure-Token=refresh; SameSite=Strict; Secure; Path=/; HostOnly=true; HttpOnly=true; Max-Age=0"@
            &&& r.content_type matches Some(t) && t@ == "text/plain"@
            &&& r.body matches ReplyBody::Text(b) && b@
                == "You have been signed out. You can now close this tab."@
        },
{
    match token_valid {
        None => text_reply(406, "Missing token"),
        Some(false) => text_reply(406, "Invalid token"),
        Some(true) => Reply {
            status: 200,
            set_cookie: Some(
                "__Secure-Token=refresh; SameSite=Strict; Secure; Path=/; HostOnly=true; HttpOnly=true; Max-Age=0".to_owned(),
            ),
            content_type: Some("text/plain".to_owned()),
            body: ReplyBody::Text("You have been signed out. You can now close this tab.".to_owned()),
        },
    }
}

// ------------------------------------------------------------------
// Guards
// ------------------------------------------------------------------

/// The guard of the endpoints that need an account: `token_valid` is `None` when
/// no session cookie came, else whether the token names a user. `None` lets
/// the request through.
pub fn token_guard<T>(token_valid: Option<bool>) -> (r: Option<Reply<T>>)
    ensures
        token_valid is None ==> (r matches Some(a) && is_text_reply(
            a,
            406,
            "An account is required to do this"@,
        )),
        token_valid == Some(false) ==> (r matches Some(a) && is_text_reply(a, 404, "Invalid token"@)),
        token_valid == Some(true) ==> r is None,
{
    match token_valid {
        None => Some(text_reply(406, "An account is required to do this")),
        Some(false) => Some(text_reply(404, "Invalid token")),
        Some(true) => None,
    }
}

/// `r` refuses a request on a profile that does not exist.
pub open spec fn is_profile_missing(r: Reply<DefaultReturn<Option<String>>>) -> bool {
    &&& r.status == 404
    &&& r.set_cookie is None
    &&& r.content_type matches Some(c) && c@ == "application/json"@
    &&& r.body matches ReplyBody::Json(v) && !v.success && v.message@ == "Profile does not exist!"@
        && v.payload is None
}

/// The refusal when the named profile does not exist.
pub fn profile_missing_reply() -> (r: Reply<DefaultReturn<Option<String>>>)
    ensures
        is_profile_missing(r),
{
    json_reply(
        404,
        DefaultReturn { success: false, message: "Profile does not exist!".to_owned(), payload: None },
    )
}

/// The guard of the endpoints on a named profile: `None` lets the request
/// through when the profile was found.
pub fn profile_guard(found: bool) -> (r: Option<Reply<DefaultReturn<Option<String>>>>)
    ensures
        found ==> r is None,
        !found ==> (r matches Some(a) && is_profile_missing(a)),
{
    if found {
        None
    } else {
        Some(profile_missing_reply())
    }
}

/// The permission of staff to manage every user.
pub open spec fn grants_manage_users(permissions: Seq<String>) -> bool {
    exists|i: int| 0 <= i < permissions.len() && #[trigger] permissions[i]@ == "ManageUsers"@
}

/// Whether the permissions include managing users.
pub fn has_manage_users(permissions: &Vec<String>) -> (r: bool)
    ensures
        r == grants_manage_users(permissions@),
{
    let target = chars_of("ManageUsers");
    let mut k: usize = 0;
    while k < permissions.len()
        invariant
            k <= permissions@.len(),
            target@ == "ManageUsers"@,
            forall|i: int| 0 <= i < k ==> #[trigger] permissions@[i]@ != "ManageUsers"@,
        decreases permissions@.len() - k,
    {
        if chars_eq(&chars_of(permissions[k].as_str()), &target) {
            return true;
        }
        k = k + 1;
    }
    false
}

/// A profile may be managed by its own user, and by staff.
pub open spec fn may_manage(
    token_username: Seq<char>,
    permissions: Seq<String>,
    profile_username: Seq<char>,
) -> bool {
    token_username == profile_username || grants_manage_users(permissions)
}

/// Whether the signed-in user may manage the profile.
pub fn can_manage_user(token_username: &str, permissions: &Vec<String>, profile_username: &str) -> (r:
    bool)
    ensures
        r == may_manage(token_username@, permissions@, profile_username@),
{
    let same = chars_eq(&chars_of(token_username), &chars_of(profile_username));
    let staff = has_manage_users(permissions);
    same || staff
}

/// The refusal when the signed-in user may not manage the profile.
pub fn forbidden_reply<T>() -> (r: Reply<T>)
    ensures
        is_text_reply(r, 404, "You do not have permission to manage this user's contents."@),
{
    text_reply(404, "You do not have permission to manage this user's contents.")
}

/// The guard of the staff-only endpoints.
pub fn staff_guard<T>(permissions: &Vec<String>) -> (r: Option<Reply<T>>)
    ensures
        grants_manage_users(permissions@) ==> r is None,
        !grants_manage_users(permissions@) ==> (r matches Some(a) && is_text_reply(
            a,
            406,
            "Only staff can do this"@,
        )),
{
    if has_manage_users(permissions) {
        None
    } else {
        Some(text_reply(406, "Only staff can do this"))
    }
}

// ------------------------------------------------------------------
// Profile contents
// ------------------------------------------------------------------

/// An "about" text is kept when its UTF-8 length (as `str::len` gives it) is
/// from 2 to 200 000 bytes.
pub open spec fn about_fits(about: Seq<char>) -> bool {
    let n = vstd::utf8::encode_utf8(about).len() as usize;
    2 <= n && n <= 200_000
}

/// Whether an "about" text may be stored.
pub fn about_is_valid(about: &str) -> (r: bool)
    ensures
        r == about_fits(about@),
{
    let n = about.len();
    !(n < 2 || n > 200_000)
}

/// `r` refuses content out of bounds.
pub open spec fn is_invalid_content(r: Reply<DefaultReturn<Option<String>>>) -> bool {
    &&& r.status == 200
    &&& r.set_cookie is None
    &&& r.content_type matches Some(c) && c@ == "application/json"@
    &&& r.body matches ReplyBody::Json(v) && !v.success && v.message@ == "Content is invalid"@
        && v.payload is None
}

/// The refusal of an "about" text out of bounds.
pub fn invalid_content_reply() -> (r: Reply<DefaultReturn<Option<String>>>)
    ensures
        is_invalid_content(r),
{
    json_reply(
        200,
        DefaultReturn { success: false, message: "Content is invalid".to_owned(), payload: None },
    )
}

/// The answer to a refreshed secondary token: the store's verdict, with the new
/// (unhashed) token as payload.
pub fn secondary_token_reply(res: DefaultReturn<Option<String>>, token: String) -> (r: Reply<
    DefaultReturn<String>,
>)
    ensures
        r.status == 200,
        r.set_cookie is None,
        r.content_type matches Some(c) && c@ == "application/json"@,
        r.body matches ReplyBody::Json(v) && v.success == res.success && v.message == res.message
            && v.payload == token,
{
    json_reply(200, DefaultReturn { success: res.success, message: res.message, payload: token })
}

/// The metadata with its "about" text replaced.
pub fn with_about(metadata: UserMetadata, about: String) -> (r: UserMetadata)
    ensures
        r.about == about,
        r.avatar_url == metadata.avatar_url,
        r.secondary_token == metadata.secondary_token,
{
    UserMetadata { about, avatar_url: metadata.avatar_url, secondary_token: metadata.secondary_token }
}

/// The metadata with `token_hash`, the hash of a fresh secondary token, as its
/// secondary token.
pub fn with_secondary_token(metadata: UserMetadata, token_hash: String) -> (r: UserMetadata)
    ensures
        r.about == metadata.about,
        r.avatar_url == metadata.avatar_url,
        r.secondary_token == Some(token_hash),
{
    UserMetadata {
        about: metadata.about,
        avatar_url: metadata.avatar_url,
        secondary_token: Some(token_hash),
    }
}

/// The follow toggled by the signed-in user towards `name`.
pub fn follow_of(token_username: String, name: String) -> (r: UserFollow)
    ensures
        r.user == token_username,
        r.is_following == name,
{
    UserFollow { user: token_username, is_following: name }
}

// ------------------------------------------------------------------
// Avatars
// ------------------------------------------------------------------

/// How long the avatar fetch may take, in milliseconds.
pub fn avatar_timeout_ms() -> (r: u64)
    ensures
        r == 5000,
{
    5_000
}

/// The `User-Agent` of the avatar fetch.
pub fn avatar_user_agent() -> (r: &'static str)
    ensures
        r@ == "stellular-bundlrs/1.0"@,
{
    "stellular-bundlrs/1.0"
}

/// The largest avatar body read, in bytes.
pub fn avatar_body_limit() -> (r: usize)
    ensures
        r == 10_000_000,
{
    10_000_000
}

/// The refusal when the user has no avatar.
pub fn avatar_missing_reply<T>() -> (r: Reply<T>)
    ensures
        is_text_reply(r, 404, "User does not have an avatar set"@),
{
    text_reply(404, "User does not have an avatar set")
}

/// The refusal when the avatar could not be fetched; `error` describes why.
pub fn avatar_fetch_failed_reply<T>(error: &str) -> (r: Reply<T>)
    ensures
        is_text_reply(r, 404, "Failed to fetch avatar on server: "@ + error@),
{
    let mut t = chars_of("Failed to fetch avatar on server: ");
    push_all(&mut t, &chars_of(error));
    Reply {
        status: 404,
        set_cookie: None,
        content_type: None,
        body: ReplyBody::Text(string_from_chars(&t)),
    }
}

/// The refusal when the avatar's body could not be read whole.
pub fn avatar_too_large_reply<T>() -> (r: Reply<T>)
    ensures
        is_text_reply(
            r,
            404,
            "Failed to fetch avatar on server (image likely too large, please keep under 10 MB)"@,
        ),
{
    text_reply(
        404,
        "Failed to fetch avatar on server (image likely too large, please keep under 10 MB)",
    )
}

/// The avatar, passed on with the content type it came with.
pub fn avatar_reply<T>(content_type: String, body: Vec<u8>) -> (r: Reply<T>)
    ensures
        r.status == 200,
        r.set_cookie is None,
        r.content_type == Some(content_type),
        r.body == ReplyBody::<T>::Bytes(body),
{
    Reply { status: 200, set_cookie: None, content_type: Some(content_type), body: ReplyBody::Bytes(body) }
}

// ------------------------------------------------------------------
// Levels
// ------------------------------------------------------------------

/// The level reported for a user that does not exist.
pub fn anonymous_level() -> (r: RoleLevel)
    ensures
        r.elevation == -1000,
        r.name@ == "anonymous"@,
        r.permissions@.len() == 0,
{
    RoleLevel { elevation: -1000, name: "anonymous".to_owned(), permissions: Vec::new() }
}

/// The answer to a level request: the user's level, or the anonymous level
/// when the user was not found.
pub fn level_reply(found: Option<RoleLevel>) -> (r: Reply<RoleLevel>)
    ensures
        r.status == 200,
        r.set_cookie is None,
        r.content_type matches Some(c) && c@ == "application/json"@,
        match found {
            Some(level) => r.body == ReplyBody::Json(level),
            None => r.body matches ReplyBody::Json(l) && l.elevation == -1000 && l.name@
                == "anonymous"@ && l.permissions@.len() == 0,
        },
{
    match found {
        Some(level) => json_reply(200, level),
        None => json_reply(200, anonymous_level()),
    }
}

// ------------------------------------------------------------------
// The order of the guards of each endpoint
// ------------------------------------------------------------------

/// What a refused request on a profile is answered with.
pub type ProfileAnswer = DefaultReturn<Option<String>>;

/// The next step of a request that edits a named profile (about, secondary
/// token, metadata). `token` is `None` before the session is read, then
/// `Some(None)` when no cookie came or `Some(Some(valid))`; `profile` and
/// `allowed` are `None` until looked up or decided; `content_ok` is whether the
/// request's content may be stored. The token comes first, then the profile,
/// then the permission, then the content.
pub fn profile_request_step(
    token: Option<Option<bool>>,
    profile: Option<bool>,
    allowed: Option<bool>,
    content_ok: bool,
) -> (r: Next<ProfileAnswer>)
    ensures
        token is None ==> r is LookUpToken,
        token == Some(None::<bool>) ==> (r matches Next::Refuse(a) && is_text_reply(
            a,
            406,
            "An account is required to do this"@,
        )),
        token == Some(Some(false)) ==> (r matches Next::Refuse(a) && is_text_reply(
            a,
            404,
            "Invalid token"@,
        )),
        token == Some(Some(true)) && profile is None ==> r is LookUpProfile,
        token == Some(Some(true)) && profile == Some(false) ==> (r matches Next::Refuse(a)
            && is_profile_missing(a)),
        token == Some(Some(true)) && profile == Some(true) && allowed is None ==> r is CheckPermission,
        token == Some(Some(true)) && profile == Some(true) && allowed == Some(false) ==> (r matches Next::Refuse(
            a,
        ) && is_text_reply(a, 404, "You do not have permission to manage this user's contents."@)),
        token == Some(Some(true)) && profile == Some(true) && allowed == Some(true) && !content_ok
            ==> (r matches Next::Refuse(a) && is_invalid_content(a)),
        token == Some(Some(true)) && profile == Some(true) && allowed == Some(true) && content_ok
            ==> r is Proceed,
{
    let valid = match token {
        None => return Next::LookUpToken,
        Some(v) => v,
    };
    match token_guard(valid) {
        Some(refused) => return Next::Refuse(refused),
        None => {},
    }
    match profile {
        None => return Next::LookUpProfile,
        Some(found) => match profile_guard(found) {
            Some(refused) => return Next::Refuse(refused),
            None => {},
        },
    }
    match allowed {
        None => Next::CheckPermission,
        Some(false) => Next::Refuse(forbidden_reply()),
        Some(true) => if content_ok {
            Next::Proceed
        } else {
            Next::Refuse(invalid_content_reply())
        },
    }
}

/// The next step of a request that only needs an account (follow). See
/// `profile_request_step` for `token`.
pub fn token_request_step<T>(token: Option<Option<bool>>) -> (r: Next<T>)
    ensures
        token is None ==> r is LookUpToken,
        token == Some(None::<bool>) ==> (r matches Next::Refuse(a) && is_text_reply(
            a,
            406,
            "An account is required to do this"@,
        )),
        token == Some(Some(false)) ==> (r matches Next::Refuse(a) && is_text_reply(
            a,
            404,
            "Invalid token"@,
        )),
        token == Some(Some(true)) ==> r is Proceed,
{
    match token {
        None => Next::LookUpToken,
        Some(valid) => match token_guard(valid) {
            Some(refused) => Next::Refuse(refused),
            None => Next::Proceed,
        },
    }
}

/// The next step of a staff-only request (ban): the token first, then whether
/// the signed-in user is staff (`None` until decided).
pub fn staff_request_step<T>(token: Option<Option<bool>>, staff: Option<bool>) -> (r: Next<T>)
    ensures
        token is None ==> r is LookUpToken,
        token == Some(None::<bool>) ==> (r matches Next::Refuse(a) && is_text_reply(
            a,
            406,
            "An account is required to do this"@,
        )),
        token == Some(Some(false)) ==> (r matches Next::Refuse(a) && is_text_reply(
            a,
            404,
            "Invalid token"@,
        )),
        token == Some(Some(true)) && staff is None ==> r is CheckPermission,
        token == Some(Some(true)) && staff == Some(false) ==> (r matches Next::Refuse(a)
            && is_text_reply(a, 406, "Only staff can do this"@)),
        token == Some(Some(true)) && staff == Some(true) ==> r is Proceed,
{
    match token {
        None => Next::LookUpToken,
        Some(valid) => match token_guard(valid) {
            Some(refused) => Next::Refuse(refused),
            None => match staff {
                None => Next::CheckPermission,
                Some(true) => Next::Proceed,
                Some(false) => Next::Refuse(text_reply(406, "Only staff can do this")),
            },
        },
    }
}

/// The next step of an avatar request: the profile first (`None` until looked
/// up), then whether its metadata names an avatar.
pub fn avatar_request_step(profile: Option<bool>, has_avatar: bool) -> (r: Next<ProfileAnswer>)
    ensures
        profile is None ==> r is LookUpProfile,
        profile == Some(false) ==> (r matches Next::Refuse(a) && is_profile_missing(a)),
        profile == Some(true) && !has_avatar ==> (r matches Next::Refuse(a) && is_text_reply(
            a,
            404,
            "User does not have an avatar set"@,
        )),
        profile == Some(true) && has_avatar ==> r is Proceed,
{
    match profile {
        None => Next::LookUpProfile,
        Some(false) => Next::Refuse(profile_missing_reply()),
        Some(true) => if has_avatar {
            Next::Proceed
        } else {
            Next::Refuse(avatar_missing_reply())
        },
    }
}

/// The next step of a registration: refused when the server has it disabled.
pub fn register_step<T>(disabled: bool) -> (r: Next<T>)
    ensures
        disabled ==> (r matches Next::Refuse(a) && is_text_reply(
            a,
            406,
            "This server requires has registration disabled"@,
        )),
        !disabled ==> r is Proceed,
{
    if disabled {
        Next::Refuse(registration_disabled_reply())
    } else {
        Next::Proceed
    }
}

// ------------------------------------------------------------------
// Laws
// ------------------------------------------------------------------

/// A user may always manage their own profile, and staff may manage every profile.
pub proof fn lemma_owner_and_staff_may_manage(
    token_username: Seq<char>,
    permissions: Seq<String>,
    profile_username: Seq<char>,
)
    ensures
        may_manage(token_username, permissions, token_username),
        grants_manage_users(permissions) ==> may_manage(token_username, permissions, profile_username),
        !grants_manage_users(permissions) && token_username != profile_username ==> !may_manage(
            token_username,
            permissions,
            profile_username,
        ),
{
}

/// Staff are exactly those with "ManageUsers" somewhere among their
/// permissions, at whatever place: one such entry at index `i` makes the holder
/// staff, free to manage every profile; a list without such an entry makes no
/// one staff; and adding permissions before or after a list never takes
/// staff rights away.
pub proof fn lemma_manage_users_anywhere(
    permissions: Seq<String>,
    i: int,
    before: Seq<String>,
    after: Seq<String>,
)
    ensures
        0 <= i < permissions.len() && permissions[i]@ == "ManageUsers"@ ==> grants_manage_users(
            permissions,
        ) && forall|owner: Seq<char>, profile: Seq<char>| may_manage(owner, permissions, profile),
        (forall|j: int| 0 <= j < permissions.len() ==> #[trigger] permissions[j]@ != "ManageUsers"@)
            ==> !grants_manage_users(permissions),
        grants_manage_users(permissions) ==> grants_manage_users(before + permissions + after),
{
    if grants_manage_users(permissions) {
        let k = choose|k: int| 0 <= k < permissions.len() && #[trigger] permissions[k]@
            == "ManageUsers"@;
        let all = before + permissions + after;
        assert(all[before.len() + k] == permissions[k]);
    }
}

} // verus!

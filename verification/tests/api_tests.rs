use bundlrs::api::auth::{
    about_is_valid, anonymous_level, avatar_fetch_failed_reply, can_manage_user, level_reply,
    logout_reply, profile_guard, profile_missing_reply, secondary_token_reply, session_cookie, session_reply,
    staff_guard, token_guard,
};
use bundlrs::api::boards::{board_guard, new_board};
use bundlrs::api::reply::{Reply, ReplyBody};
use bundlrs::db::bundlesdb::{DefaultReturn, RoleLevel};

fn text<T>(r: &Reply<T>) -> &str {
    match &r.body {
        ReplyBody::Text(t) => t.as_str(),
        _ => panic!("not a text reply"),
    }
}

#[test]
fn session_cookie_lasts_a_year() {
    assert_eq!(
        session_cookie("abc"),
        "__Secure-Token=abc; SameSite=Strict; Secure; Path=/; HostOnly=true; HttpOnly=true; Max-Age=31536000"
    );
}

#[test]
fn session_reply_sets_cookie_only_on_success_with_payload() {
    let r = session_reply("tok", true, true, 1u8);
    assert_eq!(r.status, 200);
    assert_eq!(r.set_cookie.as_deref(), Some(session_cookie("tok").as_str()));
    assert_eq!(r.content_type.as_deref(), Some("application/json"));
    let r = session_reply("tok", true, false, 1u8);
    assert_eq!(r.set_cookie.as_deref(), Some(""));
    let r = session_reply("tok", false, true, 1u8);
    assert_eq!(r.set_cookie.as_deref(), Some(""));
}

#[test]
fn logout_answers() {
    let r: Reply<()> = logout_reply(None);
    assert_eq!((r.status, text(&r)), (406, "Missing token"));
    let r: Reply<()> = logout_reply(Some(false));
    assert_eq!((r.status, text(&r)), (406, "Invalid token"));
    let r: Reply<()> = logout_reply(Some(true));
    assert_eq!(r.status, 200);
    assert!(r.set_cookie.unwrap().ends_with("Max-Age=0"));
    assert_eq!(r.content_type.as_deref(), Some("text/plain"));
}

#[test]
fn token_guard_answers() {
    let r: Reply<()> = token_guard(None).unwrap();
    assert_eq!((r.status, text(&r)), (406, "An account is required to do this"));
    let r: Reply<()> = token_guard(Some(false)).unwrap();
    assert_eq!((r.status, text(&r)), (404, "Invalid token"));
    assert!(token_guard::<()>(Some(true)).is_none());
}

#[test]
fn managing_profiles() {
    let staff = vec!["ManageUsers".to_string()];
    let none: Vec<String> = vec!["Other".to_string()];
    assert!(can_manage_user("a", &none, "a"));
    assert!(!can_manage_user("a", &none, "b"));
    assert!(can_manage_user("a", &staff, "b"));
    assert!(staff_guard::<()>(&staff).is_none());
    let r: Reply<()> = staff_guard(&none).unwrap();
    assert_eq!((r.status, text(&r)), (406, "Only staff can do this"));
}

#[test]
fn about_length_bounds_in_bytes() {
    assert!(!about_is_valid("a"));
    assert!(about_is_valid("ab"));
    assert!(about_is_valid("é"));
    assert!(about_is_valid(&"x".repeat(200_000)));
    assert!(!about_is_valid(&"x".repeat(200_001)));
}

#[test]
fn profile_missing_is_json() {
    let r = profile_missing_reply();
    assert_eq!(r.status, 404);
    match r.body {
        ReplyBody::Json(v) => {
            assert!(!v.success);
            assert_eq!(v.message, "Profile does not exist!");
        }
        _ => panic!("not json"),
    }
}

#[test]
fn secondary_token_answer_carries_token() {
    let res = DefaultReturn { success: true, message: "ok".to_string(), payload: None::<String> };
    let r = secondary_token_reply(res, "tok".to_string());
    match r.body {
        ReplyBody::Json(v) => assert_eq!((v.success, v.message.as_str(), v.payload.as_str()), (true, "ok", "tok")),
        _ => panic!("not json"),
    }
}

#[test]
fn avatar_error_text() {
    let r: Reply<()> = avatar_fetch_failed_reply("timeout");
    assert_eq!(text(&r), "Failed to fetch avatar on server: timeout");
}

#[test]
fn levels() {
    let a = anonymous_level();
    assert_eq!((a.elevation, a.name.as_str(), a.permissions.len()), (-1000, "anonymous", 0));
    let r = level_reply(None);
    match r.body {
        ReplyBody::Json(l) => assert_eq!(l.elevation, -1000),
        _ => panic!("not json"),
    }
    let lvl = RoleLevel { elevation: 5, name: "staff".to_string(), permissions: vec![] };
    match level_reply(Some(lvl)).body {
        ReplyBody::Json(l) => assert_eq!(l.name, "staff"),
        _ => panic!("not json"),
    }
}

#[test]
fn board_guard_answers() {
    let r: Reply<()> = board_guard(Some(false), false).unwrap();
    assert_eq!((r.status, text(&r)), (404, "Invalid token"));
    let r: Reply<()> = board_guard(None, true).unwrap();
    assert_eq!((r.status, text(&r)), (406, "This server requires an account to create pastes"));
    assert!(board_guard::<()>(None, false).is_none());
    assert!(board_guard::<()>(Some(true), true).is_none());
    let b = new_board("news".to_string());
    assert_eq!((b.name.as_str(), b.timestamp, b.metadata.as_str()), ("news", 0, ""));
}

#[test]
fn profile_guard_answers() {
    assert!(profile_guard(true).is_none());
    let r = profile_guard(false).unwrap();
    assert_eq!(r.status, 404);
    match r.body {
        ReplyBody::Json(v) => assert_eq!(v.message, "Profile does not exist!"),
        _ => panic!("not json"),
    }
}

#[test]
fn metadata_edits_and_board_owner() {
    let m = bundlrs::db::bundlesdb::UserMetadata { about: "old".to_string(), avatar_url: Some("a".to_string()), secondary_token: None };
    let m = bundlrs::api::auth::with_about(m, "new".to_string());
    assert_eq!((m.about.as_str(), m.avatar_url.as_deref()), ("new", Some("a")));
    let m = bundlrs::api::auth::with_secondary_token(m, "h".to_string());
    assert_eq!((m.about.as_str(), m.secondary_token.as_deref()), ("new", Some("h")));
    assert_eq!(bundlrs::api::boards::board_owner(None), None);
    let found = bundlrs::db::bundlesdb::found_user(Some(bundlrs::db::bundlesdb::UserRow {
        username: "ann".to_string(),
        id_hashed: "h".to_string(),
        timestamp: "1".to_string(),
    }));
    assert_eq!(bundlrs::api::boards::board_owner(Some(found)), Some("ann".to_string()));
}

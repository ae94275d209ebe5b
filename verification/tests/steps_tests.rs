use bundlrs::api::auth::{
    avatar_request_step, profile_request_step, register_step, staff_request_step,
    token_request_step,
};
use bundlrs::api::boards::board_request_step;
use bundlrs::api::reply::{Next, Reply, ReplyBody};

fn refused<T>(n: Next<T>) -> Reply<T> {
    match n {
        Next::Refuse(r) => r,
        _ => panic!("not a refusal"),
    }
}

fn text<T>(r: &Reply<T>) -> String {
    match &r.body {
        ReplyBody::Text(t) => t.clone(),
        _ => panic!("not a text reply"),
    }
}

#[test]
fn profile_request_guards_in_order() {
    assert!(matches!(profile_request_step(None, None, None, true), Next::LookUpToken));
    let r = refused(profile_request_step(Some(None), None, None, true));
    assert_eq!((r.status, text(&r).as_str()), (406, "An account is required to do this"));
    let r = refused(profile_request_step(Some(Some(false)), Some(false), Some(false), false));
    assert_eq!((r.status, text(&r).as_str()), (404, "Invalid token"));
    assert!(matches!(profile_request_step(Some(Some(true)), None, None, true), Next::LookUpProfile));
    let r = refused(profile_request_step(Some(Some(true)), Some(false), Some(false), false));
    assert_eq!(r.status, 404);
    match r.body {
        ReplyBody::Json(v) => assert_eq!(v.message, "Profile does not exist!"),
        _ => panic!("not json"),
    }
    assert!(matches!(profile_request_step(Some(Some(true)), Some(true), None, false), Next::CheckPermission));
    let r = refused(profile_request_step(Some(Some(true)), Some(true), Some(false), false));
    assert_eq!(text(&r), "You do not have permission to manage this user's contents.");
    let r = refused(profile_request_step(Some(Some(true)), Some(true), Some(true), false));
    assert_eq!(r.status, 200);
    match r.body {
        ReplyBody::Json(v) => assert_eq!(v.message, "Content is invalid"),
        _ => panic!("not json"),
    }
    assert!(matches!(profile_request_step(Some(Some(true)), Some(true), Some(true), true), Next::Proceed));
}

#[test]
fn token_and_staff_steps() {
    assert!(matches!(token_request_step::<()>(None), Next::LookUpToken));
    assert!(matches!(token_request_step::<()>(Some(Some(true))), Next::Proceed));
    let r = refused(token_request_step::<()>(Some(Some(false))));
    assert_eq!(text(&r), "Invalid token");
    assert!(matches!(staff_request_step::<()>(Some(Some(true)), None), Next::CheckPermission));
    let r = refused(staff_request_step::<()>(Some(Some(true)), Some(false)));
    assert_eq!((r.status, text(&r).as_str()), (406, "Only staff can do this"));
    assert!(matches!(staff_request_step::<()>(Some(Some(true)), Some(true)), Next::Proceed));
}

#[test]
fn avatar_register_and_board_steps() {
    assert!(matches!(avatar_request_step(None, false), Next::LookUpProfile));
    let r = refused(avatar_request_step(Some(true), false));
    assert_eq!(text(&r), "User does not have an avatar set");
    assert!(matches!(avatar_request_step(Some(true), true), Next::Proceed));
    let r = refused(register_step::<()>(true));
    assert_eq!(r.status, 406);
    assert!(matches!(register_step::<()>(false), Next::Proceed));
    assert!(matches!(board_request_step::<()>(None, true), Next::LookUpToken));
    let r = refused(board_request_step::<()>(Some(None), true));
    assert_eq!(text(&r), "This server requires an account to create pastes");
    assert!(matches!(board_request_step::<()>(Some(None), false), Next::Proceed));
}

use bundlrs::db::bundlesdb::{
    create_group_step, create_log_step, create_paste_step, create_user_step, edit_content_step,
    Group, GroupMetadata, NewUserIds, Paste, PasteMetadata, PasteProgress, Statement, StoreStep,
};

fn answer(s: StoreStep) -> (bool, String, Option<String>) {
    match s {
        StoreStep::Answer(a) => (a.success, a.message, a.payload),
        _ => panic!("not an answer"),
    }
}

fn props(group: &str) -> Paste<PasteMetadata> {
    Paste {
        custom_url: "u".to_string(),
        id: String::new(),
        group_name: group.to_string(),
        edit_password: "pw".to_string(),
        pub_date: 5,
        edit_date: 6,
        content: "c".to_string(),
        metadata: PasteMetadata { owner: "o".to_string() },
    }
}

fn progress() -> PasteProgress {
    PasteProgress { existing: None, group_found: None, group_created: None, id: None, metadata_json: None, sent: false }
}

#[test]
fn user_creation_in_order() {
    match create_user_step("ann", None, None, None) {
        StoreStep::Fetch(st, key) => assert_eq!((st, key.as_str()), (Statement::UserByUsername, "ann")),
        _ => panic!("expected a lookup"),
    }
    assert_eq!(answer(create_user_step("ann", Some(true), None, None)).1, "User already exists!");
    assert!(matches!(create_user_step("ann", Some(false), None, None), StoreStep::NewIds));
    let ids = NewUserIds { id_unhashed: "raw".to_string(), id_hashed: "h".to_string(), timestamp: 42 };
    match create_user_step("ann", Some(false), Some(&ids), None) {
        StoreStep::Execute(st, vals) => {
            assert_eq!(st, Statement::InsertUser);
            assert_eq!(vals, vec!["ann".to_string(), "h".to_string(), "42".to_string()]);
        }
        _ => panic!("expected the insert"),
    }
    assert_eq!(answer(create_user_step("ann", Some(false), Some(&ids), Some(true))), (true, "raw".to_string(), Some("h".to_string())));
    assert_eq!(answer(create_user_step("ann", Some(false), Some(&ids), Some(false))).1, "Failed to create user");
}

#[test]
fn log_creation_and_edits() {
    assert!(matches!(create_log_step("t", "c", None, None), StoreStep::NewIds));
    match create_log_step("t", "c", Some(("l1", 9)), None) {
        StoreStep::FetchOneWith(st, vals) => {
            assert_eq!(st, Statement::InsertLog);
            assert_eq!(vals, vec!["l1".to_string(), "t".to_string(), "9".to_string(), "c".to_string()]);
        }
        _ => panic!("expected the insert"),
    }
    assert_eq!(answer(create_log_step("t", "c", Some(("l1", 9)), Some(true))), (true, "Log created!".to_string(), Some("l1".to_string())));
    match edit_content_step(true, "u", "new", None, None) {
        StoreStep::Fetch(st, _) => assert_eq!(st, Statement::PasteByUrl),
        _ => panic!("expected a lookup"),
    }
    assert_eq!(answer(edit_content_step(false, "l1", "new", Some(false), None)).1, "Log does not exist!");
    match edit_content_step(false, "l1", "new", Some(true), None) {
        StoreStep::FetchOneWith(st, vals) => {
            assert_eq!(st, Statement::UpdateLog);
            assert_eq!(vals, vec!["new".to_string(), "l1".to_string()]);
        }
        _ => panic!("expected the update"),
    }
    assert_eq!(answer(edit_content_step(true, "u", "new", Some(true), Some(false))).1, "Failed to update paste");
}

#[test]
fn group_creation_in_order() {
    let g = Group { name: "g".to_string(), submit_password: "p".to_string(), metadata: GroupMetadata { owner: "o".to_string() } };
    assert_eq!(answer(create_group_step(&g, Some(true), None, false)).1, "Group already exists!");
    assert!(matches!(create_group_step(&g, Some(false), None, false), StoreStep::EncodeMetadata));
    match create_group_step(&g, Some(false), Some("{}"), false) {
        StoreStep::Send(st, vals) => {
            assert_eq!(st, Statement::InsertPaste);
            assert_eq!(vals, vec!["g".to_string(), "p".to_string(), "{}".to_string()]);
        }
        _ => panic!("expected the insert"),
    }
    assert_eq!(answer(create_group_step(&g, Some(false), Some("{}"), true)), (true, "Paste created".to_string(), Some("g".to_string())));
}

#[test]
fn paste_creation_in_order() {
    let p = props("team");
    let mut pr = progress();
    assert!(matches!(create_paste_step(&p, &pr), StoreStep::Fetch(Statement::PasteByUrl, _)));
    pr.existing = Some(false);
    assert!(matches!(create_paste_step(&p, &pr), StoreStep::Fetch(Statement::GroupByName, _)));
    pr.group_found = Some(false);
    match create_paste_step(&p, &pr) {
        StoreStep::CreateGroup(g) => assert_eq!((g.name.as_str(), g.submit_password.as_str(), g.metadata.owner.as_str()), ("team", "pw", "u")),
        _ => panic!("expected the group"),
    }
    pr.group_created = Some(false);
    assert_eq!(answer(create_paste_step(&p, &pr)).1, "Failed to create group!");
    pr.group_created = Some(true);
    assert!(matches!(create_paste_step(&p, &pr), StoreStep::NewIds));
    pr.id = Some("id1".to_string());
    assert!(matches!(create_paste_step(&p, &pr), StoreStep::EncodeMetadata));
    pr.metadata_json = Some("{}".to_string());
    match create_paste_step(&p, &pr) {
        StoreStep::Send(st, vals) => {
            assert_eq!(st, Statement::InsertPaste);
            assert_eq!(vals[1], "id1");
            assert_eq!(vals[3], "5");
        }
        _ => panic!("expected the insert"),
    }
    pr.sent = true;
    assert_eq!(answer(create_paste_step(&p, &pr)), (true, "Paste created".to_string(), Some("id1".to_string())));
    let mut solo = progress();
    solo.existing = Some(true);
    assert_eq!(answer(create_paste_step(&props(""), &solo)).1, "Paste already exists!");
    solo.existing = Some(false);
    assert!(matches!(create_paste_step(&props(""), &solo), StoreStep::NewIds));
}

use bundlrs::db::bundlesdb::{
    create_dummy, create_dummy_at, create_group_check, create_group_outcome, create_log_outcome,
    create_paste_check, create_paste_outcome, create_user_check, create_user_outcome,
    edit_log_check, edit_log_outcome, edit_paste_check, edit_paste_outcome, found_group,
    found_log, found_paste, found_user, group_for_paste, group_to_create, group_insert_values, log_insert_values,
    paste_group_check, paste_in_group, paste_insert_values, user_insert_values, BundlesDB,
    Database, DefaultReturn, Group, GroupMetadata, GroupRow, Log, LogRow, Paste, PasteMetadata,
    PasteRow, Statement, UserRow, UserState,
};

fn db(kind: &str) -> BundlesDB {
    BundlesDB { db: Database { _type: kind.to_string() } }
}

fn props(group: &str) -> Paste<PasteMetadata> {
    Paste {
        custom_url: "my-paste".to_string(),
        id: String::new(),
        group_name: group.to_string(),
        edit_password: "pw".to_string(),
        pub_date: 1700000000000,
        edit_date: 1700000000001,
        content: "# hi".to_string(),
        metadata: PasteMetadata { owner: "me".to_string() },
    }
}

#[test]
fn queries_follow_the_dialect() {
    assert_eq!(
        db("sqlite").query(Statement::UserByHashed),
        "SELECT * FROM \"Users\" WHERE \"id_hashed\" = ?"
    );
    assert_eq!(
        db("postgres").query(Statement::UserByHashed),
        "SELECT * FROM \"Users\" WHERE \"id_hashed\" = $1"
    );
    assert_eq!(
        db("mysql").query(Statement::InsertPaste),
        "INSERT INTO \"Pastes\" VALUES ($1, $2, $3, $4, $5, $6, $7)"
    );
    assert_eq!(
        db("sqlite").query(Statement::UpdateLog),
        "UPDATE \"Logs\" SET (\"content\") = (?) WHERE \"id\" = ?"
    );
}

#[test]
fn init_creates_four_tables() {
    let st = db("sqlite").table_statements();
    assert_eq!(st.len(), 4);
    assert!(st[0].starts_with("CREATE TABLE IF NOT EXISTS \"Pastes\""));
    assert!(st[1].starts_with("CREATE TABLE IF NOT EXISTS \"Groups\""));
    assert!(st[2].starts_with("CREATE TABLE IF NOT EXISTS \"Users\""));
    assert!(st[3].starts_with("CREATE TABLE IF NOT EXISTS \"Logs\""));
}

#[test]
fn user_lookup_answers() {
    let missing: DefaultReturn<Option<UserState>> = found_user(None);
    assert!(!missing.success);
    assert_eq!(missing.message, "User does not exist");
    assert!(missing.payload.is_none());

    let found = found_user(Some(UserRow {
        username: "alice".to_string(),
        id_hashed: "h".to_string(),
        timestamp: "1700000000000".to_string(),
    }));
    assert!(found.success);
    assert_eq!(found.message, "User exists");
    let u = found.payload.unwrap();
    assert_eq!(u.username, "alice");
    assert_eq!(u.id_hashed, "h");
    assert_eq!(u.timestamp, 1700000000000);
}

#[test]
fn user_write_then_read_back() {
    let vals = user_insert_values("bob", "hash", 1234567890123);
    assert_eq!(vals, vec!["bob".to_string(), "hash".to_string(), "1234567890123".to_string()]);
    let back = found_user(Some(UserRow {
        username: vals[0].clone(),
        id_hashed: vals[1].clone(),
        timestamp: vals[2].clone(),
    }));
    let u = back.payload.unwrap();
    assert_eq!((u.username.as_str(), u.id_hashed.as_str(), u.timestamp), ("bob", "hash", 1234567890123));
}

#[test]
fn log_lookup_answers() {
    let missing: DefaultReturn<Option<Log>> = found_log(None);
    assert_eq!(missing.message, "Log does not exist");
    let found = found_log(Some(LogRow {
        id: "l1".to_string(),
        logtype: "follow".to_string(),
        timestamp: "7".to_string(),
        content: "x".to_string(),
    }));
    assert!(found.success);
    assert_eq!(found.message, "Paste exists");
    let l = found.payload.unwrap();
    assert_eq!((l.id.as_str(), l.logtype.as_str(), l.timestamp, l.content.as_str()), ("l1", "follow", 7, "x"));
}

#[test]
fn paste_lookup_answers() {
    let missing = found_paste(None);
    assert_eq!(missing.message, "Paste does not exist");
    let found = found_paste(Some(PasteRow {
        custom_url: "u".to_string(),
        id: "i".to_string(),
        group_name: "g".to_string(),
        edit_password: "p".to_string(),
        pub_date: "10".to_string(),
        edit_date: "+11".to_string(),
        content: "c".to_string(),
        metadata: "{\"owner\":\"o\"}".to_string(),
    }));
    assert!(found.success);
    let p = found.payload.unwrap();
    assert_eq!(p.pub_date, 10);
    assert_eq!(p.edit_date, 11);
    assert_eq!(p.metadata, "{\"owner\":\"o\"}");
}

#[test]
fn group_lookup_answers() {
    let missing = found_group(None);
    assert_eq!(missing.message, "Group does not exist");
    let found = found_group(Some(GroupRow {
        name: "g".to_string(),
        submit_password: "p".to_string(),
        metadata: "m".to_string(),
    }));
    assert_eq!(found.message, "Group exists");
    assert_eq!(found.payload.unwrap().name, "g");
}

#[test]
fn create_user_refuses_existing_user() {
    let existing = found_user(Some(UserRow {
        username: "a".to_string(),
        id_hashed: "h".to_string(),
        timestamp: "1".to_string(),
    }));
    let r = create_user_check(&existing).unwrap();
    assert!(!r.success);
    assert_eq!(r.message, "User already exists!");
    assert!(create_user_check(&found_user(None)).is_none());
}

#[test]
fn create_user_outcomes() {
    let ok = create_user_outcome(true, "unhashed".to_string(), "hashed".to_string());
    assert!(ok.success);
    assert_eq!(ok.message, "unhashed");
    assert_eq!(ok.payload, Some("hashed".to_string()));
    let bad = create_user_outcome(false, "unhashed".to_string(), "hashed".to_string());
    assert_eq!(bad.message, "Failed to create user");
    assert!(bad.payload.is_none());
}

#[test]
fn log_writes() {
    assert_eq!(
        log_insert_values("id", "t", 5, "c"),
        vec!["id".to_string(), "t".to_string(), "5".to_string(), "c".to_string()]
    );
    assert_eq!(create_log_outcome(true, "id".to_string()).message, "Log created!");
    assert_eq!(create_log_outcome(false, "id".to_string()).message, "Failed to create log");
    assert_eq!(edit_log_check(&found_log(None)).unwrap().message, "Log does not exist!");
    assert_eq!(edit_log_outcome(true, "id".to_string()).payload, Some("id".to_string()));
    assert_eq!(edit_log_outcome(false, "id".to_string()).message, "Failed to update log");
}

#[test]
fn paste_writes() {
    let p = props("");
    assert!(!paste_in_group(&p));
    let existing = create_dummy(Some("my-paste"));
    assert_eq!(create_paste_check(&existing).unwrap().message, "Paste already exists!");
    assert!(create_paste_check(&found_paste(None)).is_none());
    assert_eq!(
        paste_insert_values(&p, "new-id", "{\"owner\":\"me\"}"),
        vec![
            "my-paste".to_string(),
            "new-id".to_string(),
            "pw".to_string(),
            "1700000000000".to_string(),
            "1700000000001".to_string(),
            "# hi".to_string(),
            "{\"owner\":\"me\"}".to_string(),
        ]
    );
    let r = create_paste_outcome("new-id".to_string());
    assert!(r.success);
    assert_eq!(r.message, "Paste created");
    assert_eq!(edit_paste_check(&found_paste(None)).unwrap().message, "Paste does not exist!");
    assert_eq!(edit_paste_outcome(true, "u".to_string()).message, "Paste updated!");
    assert_eq!(edit_paste_outcome(false, "u".to_string()).message, "Failed to update paste");
}

#[test]
fn paste_in_a_group_creates_the_group() {
    let p = props("team");
    assert!(paste_in_group(&p));
    let g: Group<GroupMetadata> = group_for_paste(&p);
    assert_eq!(g.name, "team");
    assert_eq!(g.submit_password, "pw");
    assert_eq!(g.metadata.owner, "my-paste");
    let failed = DefaultReturn { success: false, message: "x".to_string(), payload: None::<String> };
    assert_eq!(paste_group_check(&failed).unwrap().message, "Failed to create group!");
    let done = create_group_outcome("team".to_string());
    assert!(paste_group_check(&done).is_none());
}

#[test]
fn group_writes() {
    let g = Group { name: "n".to_string(), submit_password: "p".to_string(), metadata: GroupMetadata { owner: "o".to_string() } };
    assert_eq!(group_insert_values(&g, "{}"), vec!["n".to_string(), "p".to_string(), "{}".to_string()]);
    let existing = found_group(Some(GroupRow { name: "n".to_string(), submit_password: "p".to_string(), metadata: "m".to_string() }));
    assert_eq!(create_group_check(&existing).unwrap().message, "Group already exists!");
    assert!(create_group_check(&found_group(None)).is_none());
    let r = create_group_outcome("n".to_string());
    assert_eq!(r.message, "Paste created");
    assert_eq!(r.payload, Some("n".to_string()));
}

#[test]
fn dummy_paste() {
    let d = create_dummy(None);
    assert!(d.success);
    assert_eq!(d.message, "Paste exists");
    let p = d.payload.unwrap();
    assert_eq!(p.custom_url, "dummy_paste");
    assert_eq!(p.content, "dummy paste");
    assert!(p.id.is_empty() && p.group_name.is_empty() && p.edit_password.is_empty() && p.metadata.is_empty());

    let named = create_dummy_at(Some("x"), 3, 4).payload.unwrap();
    assert_eq!(named.custom_url, "x");
    assert_eq!((named.pub_date, named.edit_date), (3, 4));
}

#[test]
fn group_created_only_when_missing() {
    let p = props("team");
    let g = group_to_create(&p, &found_group(None)).unwrap();
    assert_eq!((g.name.as_str(), g.submit_password.as_str(), g.metadata.owner.as_str()), ("team", "pw", "my-paste"));
    let existing = found_group(Some(GroupRow { name: "team".to_string(), submit_password: "x".to_string(), metadata: "m".to_string() }));
    assert!(group_to_create(&p, &existing).is_none());
}

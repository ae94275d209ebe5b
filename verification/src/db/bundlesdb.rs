//! The store of pastes, groups, users and logs: its records, its statements,
//! and the decisions around each database round trip.
use vstd::prelude::*;
use crate::text::{
    chars_eq, chars_of, decimal, decimal_u128, lemma_parse_decimal, parse_u128, parse_u128_str,
    string_from_chars,
};

verus! {

// ------------------------------------------------------------------
// Records
// ------------------------------------------------------------------

/// The answer of every store operation.
pub struct DefaultReturn<T> {
    pub success: bool,
    pub message: String,
    pub payload: T,
}

/// A paste; `M` is the type of its metadata (text as stored, or decoded).
pub struct Paste<M> {
    pub custom_url: String,
    pub id: String,
    pub group_name: String,
    pub edit_password: String,
    pub pub_date: u128,
    pub edit_date: u128,
    pub content: String,
    pub metadata: M,
}

pub struct PasteMetadata {
    pub owner: String,
}

/// A group of pastes; `M` is the type of its metadata.
pub struct Group<M> {
    pub name: String,
    pub submit_password: String,
    pub metadata: M,
}

pub struct GroupMetadata {
    /// custom_url of the owner paste
    pub owner: String,
}

/// A user: the hashed id is the only id that is ever public.
pub struct UserState {
    pub username: String,
    pub id_hashed: String,
    pub timestamp: u128,
}

pub struct Log {
    pub id: String,
    pub logtype: String,
    pub timestamp: u128,
    pub content: String,
}

/// The connection settings that the store's decisions read: which SQL dialect
/// the database speaks ("sqlite" or another).
pub struct Database {
    pub _type: String,
}

pub struct BundlesDB {
    pub db: Database,
}

pub struct AppData {
    pub db: BundlesDB,
}

/// A role: its rank, name and the permissions it grants.
pub struct RoleLevel {
    pub elevation: i32,
    pub name: String,
    pub permissions: Vec<String>,
}

/// The metadata of a user that the account endpoints read and write.
pub struct UserMetadata {
    pub about: String,
    pub avatar_url: Option<String>,
    pub secondary_token: Option<String>,
}

/// A follow relation: `user` follows `is_following`.
pub struct UserFollow {
    pub user: String,
    pub is_following: String,
}

/// A board of posts.
pub struct Board {
    pub name: String,
    pub timestamp: u128,
    pub metadata: String,
}

/// A user row as the database returns it (all columns are text).
pub struct UserRow {
    pub username: String,
    pub id_hashed: String,
    pub timestamp: String,
}

/// A log row as the database returns it.
pub struct LogRow {
    pub id: String,
    pub logtype: String,
    pub timestamp: String,
    pub content: String,
}

/// A paste row as the database returns it.
pub struct PasteRow {
    pub custom_url: String,
    pub id: String,
    pub group_name: String,
    pub edit_password: String,
    pub pub_date: String,
    pub edit_date: String,
    pub content: String,
    pub metadata: String,
}

/// A group row as the database returns it.
pub struct GroupRow {
    pub name: String,
    pub submit_password: String,
    pub metadata: String,
}

// ------------------------------------------------------------------
// Statements
// ------------------------------------------------------------------

/// The SQL statements of the store.
#[derive(Clone, Copy, PartialEq, Eq, Debug, Structural)]
pub enum Statement {
    CreatePastes,
    CreateGroups,
    CreateUsers,
    CreateLogs,
    UserByHashed,
    UserByUsername,
    InsertUser,
    LogById,
    InsertLog,
    UpdateLog,
    PasteByUrl,
    InsertPaste,
    UpdatePaste,
    GroupByName,
}

/// The text of a statement; `sqlite` selects `?` placeholders, else `$n`.
pub open spec fn statement_text(st: Statement, sqlite: bool) -> Seq<char> {
    match st {
        Statement::CreatePastes => "CREATE TABLE IF NOT EXISTS \"Pastes\" (\n                custom_url TEXT NOT NULL,\n                id TEXT NOT NULL,\n                edit_password TEXT NOT NULL,\n                pub_date TEXT NOT NULL,\n                edit_date TEXT NOT NULL,\n                content TEXT NOT NULL,\n                metadata TEXT NOT NULL\n            )"@,
        Statement::CreateGroups => "CREATE TABLE IF NOT EXISTS \"Groups\" (\n                name TEXT NOT NULL,\n                submit_password TEXT NOT NULL,\n                metadata TEXT NOT NULL\n            )"@,
        Statement::CreateUsers => "CREATE TABLE IF NOT EXISTS \"Users\" (\n                username TEXT NOT NULL,\n                id_hashed TEXT NOT NULL,\n                timestamp TEXT NOT NULL\n            )"@,
        Statement::CreateLogs => "CREATE TABLE IF NOT EXISTS \"Logs\" (\n                id TEXT NOT NULL,\n                logtype TEXT NOT NULL,\n                timestamp  TEXT NOT NULL,\n                content TEXT NOT NULL\n            )"@,
        Statement::UserByHashed => if sqlite {
            "SELECT * FROM \"Users\" WHERE \"id_hashed\" = ?"@
        } else {
            "SELECT * FROM \"Users\" WHERE \"id_hashed\" = $1"@
        },
        Statement::UserByUsername => if sqlite {
            "SELECT * FROM \"Users\" WHERE \"username\" = ?"@
        } else {
            "SELECT * FROM \"Users\" WHERE \"username\" = $1"@
        },
        Statement::InsertUser => if sqlite {
            "INSERT INTO \"Users\" VALUES (?, ?, ?)"@
        } else {
            "INSERT INTO \"Users\" VALUES ($1, $2, $3)"@
        },
        Statement::LogById => if sqlite {
            "SELECT * FROM \"Logs\" WHERE \"id\" = ?"@
        } else {
            "SELECT * FROM \"Logs\" WHERE \"id\" = $1"@
        },
        Statement::InsertLog => if sqlite {
            "INSERT INTO \"Logs\" VALUES (?, ?, ?, ?)"@
        } else {
            "INSERT INTO \"Logs\" VALUES ($1, $2, $3, $4)"@
        },
        Statement::UpdateLog => if sqlite {
            "UPDATE \"Logs\" SET (\"content\") = (?) WHERE \"id\" = ?"@
        } else {
            "UPDATE \"Logs\" SET (\"content\") = ($1) WHERE \"id\" = $2"@
        },
        Statement::PasteByUrl => if sqlite {
            "SELECT * FROM \"Pastes\" WHERE \"custom_url\" = ?"@
        } else {
            "SELECT * FROM \"Pastes\" WHERE \"custom_url\" = $1"@
        },
        Statement::InsertPaste => if sqlite {
            "INSERT INTO \"Pastes\" VALUES (?, ?, ?, ?, ?, ?, ?)"@
        } else {
            "INSERT INTO \"Pastes\" VALUES ($1, $2, $3, $4, $5, $6, $7)"@
        },
        Statement::UpdatePaste => if sqlite {
            "UPDATE \"Pastes\" SET (\"content\") = (?) WHERE \"custom_url\" = ?"@
        } else {
            "UPDATE \"Pastes\" SET (\"content\") = ($1) WHERE \"custom_url\" = $2"@
        },
        Statement::GroupByName => if sqlite {
            "SELECT * FROM \"Groups\" WHERE \"name\" = ?"@
        } else {
            "SELECT * FROM \"Groups\" WHERE \"name\" = $1"@
        },
    }
}

/// The tables that `init` creates, in order.
pub open spec fn table_statements() -> Seq<Statement> {
    seq![
        Statement::CreatePastes,
        Statement::CreateGroups,
        Statement::CreateUsers,
        Statement::CreateLogs,
    ]
}

/// The database speaks SQLite.
pub open spec fn is_sqlite(db_type: Seq<char>) -> bool {
    db_type == "sqlite"@
}

fn statement_str(st: Statement, sqlite: bool) -> (r: &'static str)
    ensures
        r@ == statement_text(st, sqlite),
{
    match st {
        Statement::CreatePastes => "CREATE TABLE IF NOT EXISTS \"Pastes\" (\n                custom_url TEXT NOT NULL,\n                id TEXT NOT NULL,\n                edit_password TEXT NOT NULL,\n                pub_date TEXT NOT NULL,\n                edit_date TEXT NOT NULL,\n                content TEXT NOT NULL,\n                metadata TEXT NOT NULL\n            )",
        Statement::CreateGroups => "CREATE TABLE IF NOT EXISTS \"Groups\" (\n                name TEXT NOT NULL,\n                submit_password TEXT NOT NULL,\n                metadata TEXT NOT NULL\n            )",
        Statement::CreateUsers => "CREATE TABLE IF NOT EXISTS \"Users\" (\n                username TEXT NOT NULL,\n                id_hashed TEXT NOT NULL,\n                timestamp TEXT NOT NULL\n            )",
        Statement::CreateLogs => "CREATE TABLE IF NOT EXISTS \"Logs\" (\n                id TEXT NOT NULL,\n                logtype TEXT NOT NULL,\n                timestamp  TEXT NOT NULL,\n                content TEXT NOT NULL\n            )",
        Statement::UserByHashed => if sqlite {
            "SELECT * FROM \"Users\" WHERE \"id_hashed\" = ?"
        } else {
            "SELECT * FROM \"Users\" WHERE \"id_hashed\" = $1"
        },
        Statement::UserByUsername => if sqlite {
            "SELECT * FROM \"Users\" WHERE \"username\" = ?"
        } else {
            "SELECT * FROM \"Users\" WHERE \"username\" = $1"
        },
        Statement::InsertUser => if sqlite {
            "INSERT INTO \"Users\" VALUES (?, ?, ?)"
        } else {
            "INSERT INTO \"Users\" VALUES ($1, $2, $3)"
        },
        Statement::LogById => if sqlite {
            "SELECT * FROM \"Logs\" WHERE \"id\" = ?"
        } else {
            "SELECT * FROM \"Logs\" WHERE \"id\" = $1"
        },
        Statement::InsertLog => if sqlite {
            "INSERT INTO \"Logs\" VALUES (?, ?, ?, ?)"
        } else {
            "INSERT INTO \"Logs\" VALUES ($1, $2, $3, $4)"
        },
        Statement::UpdateLog => if sqlite {
            "UPDATE \"Logs\" SET (\"content\") = (?) WHERE \"id\" = ?"
        } else {
            "UPDATE \"Logs\" SET (\"content\") = ($1) WHERE \"id\" = $2"
        },
        Statement::PasteByUrl => if sqlite {
            "SELECT * FROM \"Pastes\" WHERE \"custom_url\" = ?"
        } else {
            "SELECT * FROM \"Pastes\" WHERE \"custom_url\" = $1"
        },
        Statement::InsertPaste => if sqlite {
            "INSERT INTO \"Pastes\" VALUES (?, ?, ?, ?, ?, ?, ?)"
        } else {
            "INSERT INTO \"Pastes\" VALUES ($1, $2, $3, $4, $5, $6, $7)"
        },
        Statement::UpdatePaste => if sqlite {
            "UPDATE \"Pastes\" SET (\"content\") = (?) WHERE \"custom_url\" = ?"
        } else {
            "UPDATE \"Pastes\" SET (\"content\") = ($1) WHERE \"custom_url\" = $2"
        },
        Statement::GroupByName => if sqlite {
            "SELECT * FROM \"Groups\" WHERE \"name\" = ?"
        } else {
            "SELECT * FROM \"Groups\" WHERE \"name\" = $1"
        },
    }
}

impl BundlesDB {
    /// The text of `st` in this database's dialect.
    pub fn query(&self, st: Statement) -> (r: &'static str)
        ensures
            r@ == statement_text(st, is_sqlite(self.db._type@)),
    {
        let sqlite = chars_eq(&chars_of(self.db._type.as_str()), &chars_of("sqlite"));
        statement_str(st, sqlite)
    }

    /// The statements that `init` runs, in order.
    pub fn table_statements(&self) -> (r: Vec<&'static str>)
        ensures
            r@.len() == 4,
            forall|i: int|
                0 <= i < 4 ==> #[trigger] r@[i]@ == statement_text(table_statements()[i], false),
    {
        let mut r: Vec<&'static str> = Vec::new();
        r.push(statement_str(Statement::CreatePastes, false));
        r.push(statement_str(Statement::CreateGroups, false));
        r.push(statement_str(Statement::CreateUsers, false));
        r.push(statement_str(Statement::CreateLogs, false));
        r
    }
}

// ------------------------------------------------------------------
// Answers
// ------------------------------------------------------------------

/// A failed answer with `message` and no payload.
pub open spec fn failed<T>(r: DefaultReturn<Option<T>>, message: Seq<char>) -> bool {
    &&& !r.success
    &&& r.message@ == message
    &&& r.payload is None
}

/// A successful answer with `message` whose payload is the text `payload`.
pub open spec fn succeeded_with(
    r: DefaultReturn<Option<String>>,
    message: Seq<char>,
    payload: Seq<char>,
) -> bool {
    &&& r.success
    &&& r.message@ == message
    &&& r.payload matches Some(p) && p@ == payload
}

fn fail<T>(message: &str) -> (r: DefaultReturn<Option<T>>)
    ensures
        failed(r, message@),
{
    DefaultReturn { success: false, message: message.to_owned(), payload: None }
}

fn succeed(message: &str, payload: String) -> (r: DefaultReturn<Option<String>>)
    ensures
        succeeded_with(r, message@, payload@),
{
    DefaultReturn { success: true, message: message.to_owned(), payload: Some(payload) }
}

// ------------------------------------------------------------------
// Lookups: what a fetched row (or its absence) is answered with
// ------------------------------------------------------------------

/// The stored text of a number parses back to a number.
pub open spec fn stored_number(s: Seq<char>) -> bool {
    parse_u128(s) is Some
}

/// The answer to a user lookup; `row` is `None` when the query found nothing
/// or failed.
pub fn found_user(row: Option<UserRow>) -> (r: DefaultReturn<Option<UserState>>)
    requires
        row matches Some(w) ==> stored_number(w.timestamp@),
    ensures
        match row {
            None => failed(r, "User does not exist"@),
            Some(w) => {
                &&& r.success
                &&& r.message@ == "User exists"@
                &&& r.payload matches Some(u) && u.username@ == w.username@ && u.id_hashed@
                    == w.id_hashed@ && Some(u.timestamp) == parse_u128(w.timestamp@)
            },
        },
{
    match row {
        None => fail("User does not exist"),
        Some(w) => {
            let timestamp = match parse_u128_str(w.timestamp.as_str()) {
                Some(t) => t,
                None => 0,
            };
            DefaultReturn {
                success: true,
                message: "User exists".to_owned(),
                payload: Some(UserState { username: w.username, id_hashed: w.id_hashed, timestamp }),
            }
        },
    }
}

/// The answer to a log lookup.
pub fn found_log(row: Option<LogRow>) -> (r: DefaultReturn<Option<Log>>)
    requires
        row matches Some(w) ==> stored_number(w.timestamp@),
    ensures
        match row {
            None => failed(r, "Log does not exist"@),
            Some(w) => {
                &&& r.success
                &&& r.message@ == "Paste exists"@
                &&& r.payload matches Some(l) && l.id@ == w.id@ && l.logtype@ == w.logtype@
                    && Some(l.timestamp) == parse_u128(w.timestamp@) && l.content@ == w.content@
            },
        },
{
    match row {
        None => fail("Log does not exist"),
        Some(w) => {
            let timestamp = match parse_u128_str(w.timestamp.as_str()) {
                Some(t) => t,
                None => 0,
            };
            DefaultReturn {
                success: true,
                message: "Paste exists".to_owned(),
                payload: Some(Log { id: w.id, logtype: w.logtype, timestamp, content: w.content }),
            }
        },
    }
}

/// The answer to a paste lookup; the metadata stays as stored text.
pub fn found_paste(row: Option<PasteRow>) -> (r: DefaultReturn<Option<Paste<String>>>)
    requires
        row matches Some(w) ==> stored_number(w.pub_date@) && stored_number(w.edit_date@),
    ensures
        match row {
            None => failed(r, "Paste does not exist"@),
            Some(w) => {
                &&& r.success
                &&& r.message@ == "Paste exists"@
                &&& r.payload matches Some(p) && p.custom_url@ == w.custom_url@ && p.id@ == w.id@
                    && p.group_name@ == w.group_name@ && p.edit_password@ == w.edit_password@
                    && Some(p.pub_date) == parse_u128(w.pub_date@) && Some(p.edit_date)
                    == parse_u128(w.edit_date@) && p.content@ == w.content@ && p.metadata@
                    == w.metadata@
            },
        },
{
    match row {
        None => fail("Paste does not exist"),
        Some(w) => {
            let pub_date = match parse_u128_str(w.pub_date.as_str()) {
                Some(t) => t,
                None => 0,
            };
            let edit_date = match parse_u128_str(w.edit_date.as_str()) {
                Some(t) => t,
                None => 0,
            };
            DefaultReturn {
                success: true,
                message: "Paste exists".to_owned(),
                payload: Some(
                    Paste {
                        custom_url: w.custom_url,
                        id: w.id,
                        group_name: w.group_name,
                        edit_password: w.edit_password,
                        pub_date,
                        edit_date,
                        content: w.content,
                        metadata: w.metadata,
                    },
                ),
            }
        },
    }
}

/// The answer to a group lookup; the metadata stays as stored text.
pub fn found_group(row: Option<GroupRow>) -> (r: DefaultReturn<Option<Group<String>>>)
    ensures
        match row {
            None => failed(r, "Group does not exist"@),
            Some(w) => {
                &&& r.success
                &&& r.message@ == "Group exists"@
                &&& r.payload matches Some(g) && g.name@ == w.name@ && g.submit_password@
                    == w.submit_password@ && g.metadata@ == w.metadata@
            },
        },
{
    match row {
        None => fail("Group does not exist"),
        Some(w) => DefaultReturn {
            success: true,
            message: "Group exists".to_owned(),
            payload: Some(
                Group { name: w.name, submit_password: w.submit_password, metadata: w.metadata },
            ),
        },
    }
}

// ------------------------------------------------------------------
// Writes: the checks before a statement and the answer after it
// ------------------------------------------------------------------

/// A user is created only when the lookup by name found none.
pub fn create_user_check(existing: &DefaultReturn<Option<UserState>>) -> (r: Option<
    DefaultReturn<Option<String>>,
>)
    ensures
        existing.success ==> (r matches Some(f) && failed(f, "User already exists!"@)),
        !existing.success ==> r is None,
{
    if existing.success {
        Some(fail("User already exists!"))
    } else {
        None
    }
}

/// The values bound to the user insert: name, hashed id, creation time.
pub fn user_insert_values(username: &str, id_hashed: &str, timestamp: u128) -> (r: Vec<String>)
    ensures
        r@.len() == 3,
        r@[0]@ == username@,
        r@[1]@ == id_hashed@,
        r@[2]@ == decimal(timestamp as nat),
{
    let mut r: Vec<String> = Vec::new();
    r.push(username.to_owned());
    r.push(id_hashed.to_owned());
    r.push(string_from_chars(&decimal_u128(timestamp)));
    r
}

/// The answer once the user insert ran: the unhashed id is handed back in the
/// message (it is the user's login), the hashed id as payload.
pub fn create_user_outcome(inserted: bool, id_unhashed: String, id_hashed: String) -> (r:
    DefaultReturn<Option<String>>)
    ensures
        inserted ==> succeeded_with(r, id_unhashed@, id_hashed@),
        !inserted ==> failed(r, "Failed to create user"@),
{
    if inserted {
        DefaultReturn { success: true, message: id_unhashed, payload: Some(id_hashed) }
    } else {
        fail("Failed to create user")
    }
}

/// The values bound to the log insert: id, type, creation time, content.
pub fn log_insert_values(id: &str, logtype: &str, timestamp: u128, content: &str) -> (r: Vec<
    String,
>)
    ensures
        r@.len() == 4,
        r@[0]@ == id@,
        r@[1]@ == logtype@,
        r@[2]@ == decimal(timestamp as nat),
        r@[3]@ == content@,
{
    let mut r: Vec<String> = Vec::new();
    r.push(id.to_owned());
    r.push(logtype.to_owned());
    r.push(string_from_chars(&decimal_u128(timestamp)));
    r.push(content.to_owned());
    r
}

/// The answer once the log insert ran.
pub fn create_log_outcome(inserted: bool, log_id: String) -> (r: DefaultReturn<Option<String>>)
    ensures
        inserted ==> succeeded_with(r, "Log created!"@, log_id@),
        !inserted ==> failed(r, "Failed to create log"@),
{
    if inserted {
        succeed("Log created!", log_id)
    } else {
        fail("Failed to create log")
    }
}

/// A log is edited only when the lookup by id found it.
pub fn edit_log_check(existing: &DefaultReturn<Option<Log>>) -> (r: Option<
    DefaultReturn<Option<String>>,
>)
    ensures
        !existing.success ==> (r matches Some(f) && failed(f, "Log does not exist!"@)),
        existing.success ==> r is None,
{
    if !existing.success {
        Some(fail("Log does not exist!"))
    } else {
        None
    }
}

/// The answer once the log update ran.
pub fn edit_log_outcome(updated: bool, id: String) -> (r: DefaultReturn<Option<String>>)
    ensures
        updated ==> succeeded_with(r, "Log updated!"@, id@),
        !updated ==> failed(r, "Failed to update log"@),
{
    if updated {
        succeed("Log updated!", id)
    } else {
        fail("Failed to update log")
    }
}

/// A paste is created only when the lookup by url found none.
pub fn create_paste_check(existing: &DefaultReturn<Option<Paste<String>>>) -> (r: Option<
    DefaultReturn<Option<String>>,
>)
    ensures
        existing.success ==> (r matches Some(f) && failed(f, "Paste already exists!"@)),
        !existing.success ==> r is None,
{
    if existing.success {
        Some(fail("Paste already exists!"))
    } else {
        None
    }
}

/// A paste with a group name is filed in that group.
pub fn paste_in_group(props: &Paste<PasteMetadata>) -> (r: bool)
    ensures
        r == (props.group_name@.len() > 0),
{
    props.group_name.as_str().unicode_len() > 0
}

/// The group to create for a paste whose group does not exist yet: named after
/// the group name, with the paste's edit password, owned by the paste's url.
pub fn group_for_paste(props: &Paste<PasteMetadata>) -> (r: Group<GroupMetadata>)
    ensures
        r.name@ == props.group_name@,
        r.submit_password@ == props.edit_password@,
        r.metadata.owner@ == props.custom_url@,
{
    Group {
        name: props.group_name.as_str().to_owned(),
        submit_password: props.edit_password.as_str().to_owned(),
        metadata: GroupMetadata { owner: props.custom_url.as_str().to_owned() },
    }
}

/// The group to create before a paste filed in a group: none when the lookup of
/// the group by name found it.
pub fn group_to_create(props: &Paste<PasteMetadata>, group_lookup: &DefaultReturn<
    Option<Group<String>>,
>) -> (r: Option<Group<GroupMetadata>>)
    ensures
        group_lookup.success ==> r is None,
        !group_lookup.success ==> (r matches Some(g) && g.name@ == props.group_name@
            && g.submit_password@ == props.edit_password@ && g.metadata.owner@ == props.custom_url@),
{
    if group_lookup.success {
        None
    } else {
        Some(group_for_paste(props))
    }
}

/// When the group had to be created and that failed, the paste is not created.
pub fn paste_group_check(created: &DefaultReturn<Option<String>>) -> (r: Option<
    DefaultReturn<Option<String>>,
>)
    ensures
        !created.success ==> (r matches Some(f) && failed(f, "Failed to create group!"@)),
        created.success ==> r is None,
{
    if !created.success {
        Some(fail("Failed to create group!"))
    } else {
        None
    }
}

/// The values bound to the paste insert: url, new id, edit password, the two
/// dates, content, and the metadata as JSON text.
pub fn paste_insert_values(props: &Paste<PasteMetadata>, id: &str, metadata_json: &str) -> (r: Vec<
    String,
>)
    ensures
        r@.len() == 7,
        r@[0]@ == props.custom_url@,
        r@[1]@ == id@,
        r@[2]@ == props.edit_password@,
        r@[3]@ == decimal(props.pub_date as nat),
        r@[4]@ == decimal(props.edit_date as nat),
        r@[5]@ == props.content@,
        r@[6]@ == metadata_json@,
{
    let mut r: Vec<String> = Vec::new();
    r.push(props.custom_url.as_str().to_owned());
    r.push(id.to_owned());
    r.push(props.edit_password.as_str().to_owned());
    r.push(string_from_chars(&decimal_u128(props.pub_date)));
    r.push(string_from_chars(&decimal_u128(props.edit_date)));
    r.push(props.content.as_str().to_owned());
    r.push(metadata_json.to_owned());
    r
}

/// The answer of a paste creation: the new id.
pub fn create_paste_outcome(id: String) -> (r: DefaultReturn<Option<String>>)
    ensures
        succeeded_with(r, "Paste created"@, id@),
{
    succeed("Paste created", id)
}

/// A paste is edited only when the lookup by url found it.
pub fn edit_paste_check(existing: &DefaultReturn<Option<Paste<String>>>) -> (r: Option<
    DefaultReturn<Option<String>>,
>)
    ensures
        !existing.success ==> (r matches Some(f) && failed(f, "Paste does not exist!"@)),
        existing.success ==> r is None,
{
    if !existing.success {
        Some(fail("Paste does not exist!"))
    } else {
        None
    }
}

/// The answer once the paste update ran.
pub fn edit_paste_outcome(updated: bool, url: String) -> (r: DefaultReturn<Option<String>>)
    ensures
        updated ==> succeeded_with(r, "Paste updated!"@, url@),
        !updated ==> failed(r, "Failed to update paste"@),
{
    if updated {
        succeed("Paste updated!", url)
    } else {
        fail("Failed to update paste")
    }
}

/// A group is created only when the lookup by name found none.
pub fn create_group_check(existing: &DefaultReturn<Option<Group<String>>>) -> (r: Option<
    DefaultReturn<Option<String>>,
>)
    ensures
        existing.success ==> (r matches Some(f) && failed(f, "Group already exists!"@)),
        !existing.success ==> r is None,
{
    if existing.success {
        Some(fail("Group already exists!"))
    } else {
        None
    }
}

/// The values bound to the group insert: name, password, metadata as JSON text.
pub fn group_insert_values(props: &Group<GroupMetadata>, metadata_json: &str) -> (r: Vec<String>)
    ensures
        r@.len() == 3,
        r@[0]@ == props.name@,
        r@[1]@ == props.submit_password@,
        r@[2]@ == metadata_json@,
{
    let mut r: Vec<String> = Vec::new();
    r.push(props.name.as_str().to_owned());
    r.push(props.submit_password.as_str().to_owned());
    r.push(metadata_json.to_owned());
    r
}

/// The answer of a group creation: the group's name.
pub fn create_group_outcome(name: String) -> (r: DefaultReturn<Option<String>>)
    ensures
        succeeded_with(r, "Paste created"@, name@),
{
    succeed("Paste created", name)
}

// ------------------------------------------------------------------
// The order of the steps of each write
// ------------------------------------------------------------------

/// What a store operation needs next.
pub enum StoreStep {
    /// Fetch one row with the statement, `key` bound, and read it with the
    /// matching `found_*`.
    Fetch(Statement, String),
    /// Make the fresh ids that the operation needs.
    NewIds,
    /// Code the metadata as JSON text.
    EncodeMetadata,
    /// Create this group first, as a group creation does.
    CreateGroup(Group<GroupMetadata>),
    /// Run the statement with these values bound in order (`execute`).
    Execute(Statement, Vec<String>),
    /// Run the statement with these values bound in order, asking for one row
    /// (`fetch_one`); whether a row came is what the next step reads.
    FetchOneWith(Statement, Vec<String>),
    /// Hand the statement with these values to the pool without awaiting it.
    Send(Statement, Vec<String>),
    /// The operation is over: answer this.
    Answer(DefaultReturn<Option<String>>),
}

/// The fresh ids of a new user: its login id, the hash stored for it, and the
/// creation time.
pub struct NewUserIds {
    pub id_unhashed: String,
    pub id_hashed: String,
    pub timestamp: u128,
}

/// `r` fetches with `st` and the key `key`.
pub open spec fn fetches(r: StoreStep, st: Statement, key: Seq<char>) -> bool {
    r matches StoreStep::Fetch(s, k) && s == st && k@ == key
}

/// `r` answers with a failure carrying `message`.
pub open spec fn answers_failure(r: StoreStep, message: Seq<char>) -> bool {
    r matches StoreStep::Answer(a) && failed(a, message)
}

/// `r` answers with a success carrying `message` and the text `payload`.
pub open spec fn answers_success(r: StoreStep, message: Seq<char>, payload: Seq<char>) -> bool {
    r matches StoreStep::Answer(a) && succeeded_with(a, message, payload)
}

/// The next step of a user creation. `existing` is `None` until the user is
/// looked up by name, then whether it was found; `ids` are the fresh ids once
/// made; `inserted` is `None` until the insert ran, then whether it succeeded.
pub fn create_user_step(
    username: &str,
    existing: Option<bool>,
    ids: Option<&NewUserIds>,
    inserted: Option<bool>,
) -> (r: StoreStep)
    ensures
        existing is None ==> fetches(r, Statement::UserByUsername, username@),
        existing == Some(true) ==> answers_failure(r, "User already exists!"@),
        existing == Some(false) && ids is None ==> r is NewIds,
        existing == Some(false) && ids.is_some() && inserted is None ==> (r matches StoreStep::Execute(
            st,
            vals,
        ) && st == Statement::InsertUser && vals.deep_view() == seq![
            username@,
            ids.unwrap().id_hashed@,
            decimal(ids.unwrap().timestamp as nat),
        ]),
        existing == Some(false) && ids.is_some() && inserted == Some(true) ==> answers_success(
            r,
            ids.unwrap().id_unhashed@,
            ids.unwrap().id_hashed@,
        ),
        existing == Some(false) && ids.is_some() && inserted == Some(false) ==> answers_failure(
            r,
            "Failed to create user"@,
        ),
{
    match existing {
        None => StoreStep::Fetch(Statement::UserByUsername, username.to_owned()),
        Some(true) => StoreStep::Answer(fail("User already exists!")),
        Some(false) => match ids {
            None => StoreStep::NewIds,
            Some(ids) => match inserted {
                None => {
                    let vals = user_insert_values(username, ids.id_hashed.as_str(), ids.timestamp);
                    assert(vals.deep_view() =~= seq![
                        username@,
                        ids.id_hashed@,
                        decimal(ids.timestamp as nat),
                    ]);
                    StoreStep::Execute(Statement::InsertUser, vals)
                },
                Some(ok) => StoreStep::Answer(
                    create_user_outcome(
                        ok,
                        ids.id_unhashed.as_str().to_owned(),
                        ids.id_hashed.as_str().to_owned(),
                    ),
                ),
            },
        },
    }
}

/// The next step of a log creation. `id` is the fresh log id and the time,
/// once made; `inserted` is `None` until the insert ran.
pub fn create_log_step(
    logtype: &str,
    content: &str,
    id: Option<(&str, u128)>,
    inserted: Option<bool>,
) -> (r: StoreStep)
    ensures
        id is None ==> r is NewIds,
        id matches Some((log_id, t)) ==> (inserted is None ==> (r matches StoreStep::FetchOneWith(
            st,
            vals,
        ) && st == Statement::InsertLog && vals.deep_view() == seq![
            log_id@,
            logtype@,
            decimal(t as nat),
            content@,
        ])),
        id matches Some((log_id, t)) ==> (inserted == Some(true) ==> answers_success(
            r,
            "Log created!"@,
            log_id@,
        )),
        id.is_some() && inserted == Some(false) ==> answers_failure(r, "Failed to create log"@),
{
    match id {
        None => StoreStep::NewIds,
        Some((log_id, t)) => match inserted {
            None => {
                let vals = log_insert_values(log_id, logtype, t, content);
                assert(vals.deep_view() =~= seq![log_id@, logtype@, decimal(t as nat), content@]);
                StoreStep::FetchOneWith(Statement::InsertLog, vals)
            },
            Some(ok) => StoreStep::Answer(create_log_outcome(ok, log_id.to_owned())),
        },
    }
}

/// The next step of an edit of a log's or a paste's content: `paste` selects
/// which; `key` is the log id or the paste url. `existing` is `None` until the
/// record is looked up, then whether it was found; `updated` is `None` until
/// the update ran.
pub fn edit_content_step(
    paste: bool,
    key: &str,
    content: &str,
    existing: Option<bool>,
    updated: Option<bool>,
) -> (r: StoreStep)
    ensures
        existing is None ==> fetches(
            r,
            if paste {
                Statement::PasteByUrl
            } else {
                Statement::LogById
            },
            key@,
        ),
        existing == Some(false) ==> answers_failure(
            r,
            if paste {
                "Paste does not exist!"@
            } else {
                "Log does not exist!"@
            },
        ),
        existing == Some(true) && updated is None ==> (r matches StoreStep::FetchOneWith(st, vals)
            && st == (if paste {
            Statement::UpdatePaste
        } else {
            Statement::UpdateLog
        }) && vals.deep_view() == seq![content@, key@]),
        existing == Some(true) && updated == Some(true) ==> answers_success(
            r,
            if paste {
                "Paste updated!"@
            } else {
                "Log updated!"@
            },
            key@,
        ),
        existing == Some(true) && updated == Some(false) ==> answers_failure(
            r,
            if paste {
                "Failed to update paste"@
            } else {
                "Failed to update log"@
            },
        ),
{
    match existing {
        None => StoreStep::Fetch(
            if paste {
                Statement::PasteByUrl
            } else {
                Statement::LogById
            },
            key.to_owned(),
        ),
        Some(false) => StoreStep::Answer(
            if paste {
                fail("Paste does not exist!")
            } else {
                fail("Log does not exist!")
            },
        ),
        Some(true) => match updated {
            None => {
                let mut vals: Vec<String> = Vec::new();
                vals.push(content.to_owned());
                vals.push(key.to_owned());
                assert(vals.deep_view() =~= seq![content@, key@]);
                StoreStep::FetchOneWith(
                    if paste {
                        Statement::UpdatePaste
                    } else {
                        Statement::UpdateLog
                    },
                    vals,
                )
            },
            Some(ok) => StoreStep::Answer(
                if paste {
                    edit_paste_outcome(ok, key.to_owned())
                } else {
                    edit_log_outcome(ok, key.to_owned())
                },
            ),
        },
    }
}

/// The next step of a group creation. `existing` is `None` until the group is
/// looked up by name; `metadata_json` is the metadata once coded; `sent` is
/// whether the insert was handed to the pool.
pub fn create_group_step(
    props: &Group<GroupMetadata>,
    existing: Option<bool>,
    metadata_json: Option<&str>,
    sent: bool,
) -> (r: StoreStep)
    ensures
        existing is None ==> fetches(r, Statement::GroupByName, props.name@),
        existing == Some(true) ==> answers_failure(r, "Group already exists!"@),
        existing == Some(false) && metadata_json is None ==> r is EncodeMetadata,
        existing == Some(false) && metadata_json.is_some() && !sent ==> (r matches StoreStep::Send(
            st,
            vals,
        ) && st == Statement::InsertPaste && vals.deep_view() == seq![
            props.name@,
            props.submit_password@,
            metadata_json.unwrap()@,
        ]),
        existing == Some(false) && metadata_json.is_some() && sent ==> answers_success(
            r,
            "Paste created"@,
            props.name@,
        ),
{
    match existing {
        None => StoreStep::Fetch(Statement::GroupByName, props.name.as_str().to_owned()),
        Some(true) => StoreStep::Answer(fail("Group already exists!")),
        Some(false) => match metadata_json {
            None => StoreStep::EncodeMetadata,
            Some(json) => if !sent {
                let vals = group_insert_values(props, json);
                assert(vals.deep_view() =~= seq![props.name@, props.submit_password@, json@]);
                StoreStep::Send(Statement::InsertPaste, vals)
            } else {
                StoreStep::Answer(create_group_outcome(props.name.as_str().to_owned()))
            },
        },
    }
}

/// What a paste creation has learnt so far: each field is `None` until its
/// step ran.
pub struct PasteProgress {
    /// Whether the lookup by url found a paste.
    pub existing: Option<bool>,
    /// Whether the lookup of the paste's group found it.
    pub group_found: Option<bool>,
    /// Whether the creation of the missing group succeeded.
    pub group_created: Option<bool>,
    /// The fresh id of the paste.
    pub id: Option<String>,
    /// The metadata coded as JSON text.
    pub metadata_json: Option<String>,
    /// Whether the insert was handed to the pool.
    pub sent: bool,
}

/// The next step of a paste creation: the lookup by url, then (for a paste in
/// a group) the group, created when missing, then the fresh id, the coded
/// metadata, and the insert handed to the pool.
pub fn create_paste_step(props: &Paste<PasteMetadata>, p: &PasteProgress) -> (r: StoreStep)
    ensures
        p.existing is None ==> fetches(r, Statement::PasteByUrl, props.custom_url@),
        p.existing == Some(true) ==> answers_failure(r, "Paste already exists!"@),
        p.existing == Some(false) && props.group_name@.len() > 0 && p.group_found is None ==> fetches(
            r,
            Statement::GroupByName,
            props.group_name@,
        ),
        p.existing == Some(false) && props.group_name@.len() > 0 && p.group_found == Some(false)
            && p.group_created is None ==> (r matches StoreStep::CreateGroup(g) && g.name@
            == props.group_name@ && g.submit_password@ == props.edit_password@ && g.metadata.owner@
            == props.custom_url@),
        p.existing == Some(false) && props.group_name@.len() > 0 && p.group_found == Some(false)
            && p.group_created == Some(false) ==> answers_failure(r, "Failed to create group!"@),
        ({
            let group_ready = props.group_name@.len() == 0 || p.group_found == Some(true) || (
            p.group_found == Some(false) && p.group_created == Some(true));
            p.existing == Some(false) && group_ready ==> {
                &&& p.id is None ==> r is NewIds
                &&& p.id.is_some() && p.metadata_json is None ==> r is EncodeMetadata
                &&& p.id.is_some() && p.metadata_json.is_some() && !p.sent ==> (r matches StoreStep::Send(
                    st,
                    vals,
                ) && st == Statement::InsertPaste && vals.deep_view() == seq![
                    props.custom_url@,
                    p.id.unwrap()@,
                    props.edit_password@,
                    decimal(props.pub_date as nat),
                    decimal(props.edit_date as nat),
                    props.content@,
                    p.metadata_json.unwrap()@,
                ])
                &&& p.id.is_some() && p.metadata_json.is_some() && p.sent ==> answers_success(
                    r,
                    "Paste created"@,
                    p.id.unwrap()@,
                )
            }
        }),
{
    match p.existing {
        None => return StoreStep::Fetch(Statement::PasteByUrl, props.custom_url.as_str().to_owned()),
        Some(true) => return StoreStep::Answer(fail("Paste already exists!")),
        Some(false) => {},
    }
    if paste_in_group(props) {
        match p.group_found {
            None => return StoreStep::Fetch(
                Statement::GroupByName,
                props.group_name.as_str().to_owned(),
            ),
            Some(true) => {},
            Some(false) => match p.group_created {
                None => return StoreStep::CreateGroup(group_for_paste(props)),
                Some(false) => return StoreStep::Answer(fail("Failed to create group!")),
                Some(true) => {},
            },
        }
    }
    match &p.id {
        None => StoreStep::NewIds,
        Some(id) => match &p.metadata_json {
            None => StoreStep::EncodeMetadata,
            Some(json) => if !p.sent {
                let vals = paste_insert_values(props, id.as_str(), json.as_str());
                assert(vals.deep_view() =~= seq![
                    props.custom_url@,
                    id@,
                    props.edit_password@,
                    decimal(props.pub_date as nat),
                    decimal(props.edit_date as nat),
                    props.content@,
                    json@,
                ]);
                StoreStep::Send(Statement::InsertPaste, vals)
            } else {
                StoreStep::Answer(create_paste_outcome(id.as_str().to_owned()))
            },
        },
    }
}

// ------------------------------------------------------------------
// The dummy paste
// ------------------------------------------------------------------

/// Milliseconds since the Unix epoch, read from `std::time::SystemTime::now()`.
/// Nothing is claimed of the value: it is the clock's. A clock set before 1970
/// reads as 0.
#[verifier::external_body]
pub fn unix_epoch_timestamp() -> (r: u128) {
    match std::time::SystemTime::now().duration_since(std::time::UNIX_EPOCH) {
        Ok(d) => d.as_millis(),
        Err(_) => 0,
    }
}

/// The url of the dummy paste when none is given.
pub open spec fn dummy_url(custom_url: Option<Seq<char>>) -> Seq<char> {
    match custom_url {
        Some(u) => u,
        None => "dummy_paste"@,
    }
}

/// The dummy paste answer: found, with `content` "dummy paste", the given url
/// (or "dummy_paste"), every other text field empty, and the two dates given.
pub open spec fn is_dummy(
    r: DefaultReturn<Option<Paste<String>>>,
    custom_url: Option<Seq<char>>,
) -> bool {
    &&& r.success
    &&& r.message@ == "Paste exists"@
    &&& r.payload matches Some(p) && {
        &&& p.custom_url@ == dummy_url(custom_url)
        &&& p.id@ == Seq::<char>::empty()
        &&& p.group_name@ == Seq::<char>::empty()
        &&& p.edit_password@ == Seq::<char>::empty()
        &&& p.content@ == "dummy paste"@
        &&& p.metadata@ == Seq::<char>::empty()
    }
}

/// The dummy paste dated `pub_date` and `edit_date`.
pub fn create_dummy_at(custom_url: Option<&str>, pub_date: u128, edit_date: u128) -> (r:
    DefaultReturn<Option<Paste<String>>>)
    ensures
        is_dummy(r, match custom_url {
            Some(u) => Some(u@),
            None => None,
        }),
        r.payload matches Some(p) && p.pub_date == pub_date && p.edit_date == edit_date,
{
    let url: &str = match custom_url {
        Some(u) => u,
        None => "dummy_paste",
    };
    proof {
        reveal_strlit("");
    }
    let paste = Paste {
        custom_url: url.to_owned(),
        id: "".to_owned(),
        group_name: "".to_owned(),
        edit_password: "".to_owned(),
        pub_date,
        edit_date,
        content: "dummy paste".to_owned(),
        metadata: "".to_owned(),
    };
    assert(paste.id@ == Seq::<char>::empty());
    assert(paste.custom_url@ == dummy_url(match custom_url {
        Some(u) => Some(u@),
        None => None,
    }));
    DefaultReturn { success: true, message: "Paste exists".to_owned(), payload: Some(paste) }
}

/// The dummy paste, dated now (the clock is read once for each date).
pub fn create_dummy(custom_url: Option<&str>) -> (r: DefaultReturn<Option<Paste<String>>>)
    ensures
        is_dummy(r, match custom_url {
            Some(u) => Some(u@),
            None => None,
        }),
{
    let pub_date = unix_epoch_timestamp();
    let edit_date = unix_epoch_timestamp();
    create_dummy_at(custom_url, pub_date, edit_date)
}

// ------------------------------------------------------------------
// Laws
// ------------------------------------------------------------------

/// A date or timestamp that the store writes (as `user_insert_values`,
/// `log_insert_values` and `paste_insert_values` bind it) is read back as
/// itself by `found_user`, `found_log` and `found_paste`.
pub proof fn lemma_stored_number_read_back(n: u128)
    ensures
        stored_number(decimal(n as nat)),
        parse_u128(decimal(n as nat)) == Some(n),
{
    lemma_parse_decimal(n);
}

/// Every answer of the store is either a success with a payload or a failure
/// without one.
pub open spec fn answer_consistent<T>(r: DefaultReturn<Option<T>>) -> bool {
    r.success <==> r.payload is Some
}

/// The answers built by `failed` and `succeeded_with` are consistent.
pub proof fn lemma_answers_consistent(
    a: DefaultReturn<Option<String>>,
    m: Seq<char>,
    p: Seq<char>,
)
    ensures
        failed(a, m) ==> answer_consistent(a),
        succeeded_with(a, m, p) ==> answer_consistent(a),
{
}

/// `text` reads the rows of `table` whose column `column` equals the one bound
/// value: `SELECT * FROM "table" WHERE "column" = ` and a placeholder.
pub open spec fn selects_where(text: Seq<char>, table: Seq<char>, column: Seq<char>) -> bool {
    exists|placeholder: Seq<char>|
        (placeholder == "?"@ || placeholder == "$1"@) && text == "SELECT * FROM \""@ + table
            + "\" WHERE \""@ + column + "\" = "@ + placeholder
}

/// `text` creates `table` with `column` as its first column.
pub open spec fn creates_with_first_column(
    text: Seq<char>,
    table: Seq<char>,
    column: Seq<char>,
) -> bool {
    exists|space: Seq<char>, rest: Seq<char>|
        (forall|i: int| 0 <= i < space.len() ==> #[trigger] space[i] == ' ' || space[i] == '\n')
            && text == "CREATE TABLE IF NOT EXISTS \""@ + table + "\" ("@ + space + column
            + " TEXT NOT NULL,"@ + rest
}

/// `text` creates `table` with `column` as its second column.
pub open spec fn creates_with_second_column(
    text: Seq<char>,
    table: Seq<char>,
    column: Seq<char>,
) -> bool {
    exists|space: Seq<char>, first: Seq<char>, space2: Seq<char>, rest: Seq<char>|
        (forall|i: int| 0 <= i < space.len() ==> #[trigger] space[i] == ' ' || space[i] == '\n')
            && (forall|i: int| 0 <= i < space2.len() ==> #[trigger] space2[i] == ' ' || space2[i]
            == '\n') && !first.contains(',') && text == "CREATE TABLE IF NOT EXISTS \""@ + table
            + "\" ("@ + space + first + " TEXT NOT NULL,"@ + space2 + column + " TEXT NOT NULL,"@
            + rest
}

/// `text` changes rows of `table` whose column `column` equals the last bound
/// value: `UPDATE "table" SET ... WHERE "column" = ` and a placeholder.
pub open spec fn updates_where(text: Seq<char>, table: Seq<char>, column: Seq<char>) -> bool {
    exists|assignment: Seq<char>, placeholder: Seq<char>|
        (placeholder == "?"@ || placeholder == "$2"@) && text == "UPDATE \""@ + table + "\" SET "@
            + assignment + " WHERE \""@ + column + "\" = "@ + placeholder
}

/// `text` inserts one whole row of `table`: its values are bound in the order
/// of the table's columns.
pub open spec fn inserts_row(text: Seq<char>, table: Seq<char>) -> bool {
    exists|values: Seq<char>| text == "INSERT INTO \""@ + table + "\" VALUES ("@ + values
}

/// A paste is looked up by the column that its insert fills with the custom
/// url: `paste_insert_values` binds the url first, the insert fills the
/// columns in order, the first column of "Pastes" is the one the lookup by url
/// (and the content update) filters on. So a paste inserted under url `u` is
/// what the lookup with key `u` finds, in either dialect.
pub proof fn lemma_paste_lookup_column(sqlite: bool)
    ensures
        exists|column: Seq<char>|
            selects_where(statement_text(Statement::PasteByUrl, sqlite), "Pastes"@, column)
                && creates_with_first_column(
                statement_text(Statement::CreatePastes, sqlite),
                "Pastes"@,
                column,
            ),
        inserts_row(statement_text(Statement::InsertPaste, sqlite), "Pastes"@),
        updates_where(statement_text(Statement::UpdatePaste, sqlite), "Pastes"@, "custom_url"@),
        creates_with_first_column(
            statement_text(Statement::CreatePastes, sqlite),
            "Pastes"@,
            "custom_url"@,
        ),
{
    reveal_strlit("?");
    reveal_strlit("$1");
    reveal_strlit("SELECT * FROM \"");
    reveal_strlit("\" WHERE \"");
    reveal_strlit("\" = ");
    reveal_strlit("Pastes");
    reveal_strlit("custom_url");
    reveal_strlit("CREATE TABLE IF NOT EXISTS \"");
    reveal_strlit("\" (");
    reveal_strlit(" TEXT NOT NULL,");
    reveal_strlit("INSERT INTO \"");
    reveal_strlit("\" VALUES (");
    reveal_strlit("SELECT * FROM \"Pastes\" WHERE \"custom_url\" = ?");
    reveal_strlit("SELECT * FROM \"Pastes\" WHERE \"custom_url\" = $1");
    reveal_strlit("INSERT INTO \"Pastes\" VALUES (?, ?, ?, ?, ?, ?, ?)");
    reveal_strlit("INSERT INTO \"Pastes\" VALUES ($1, $2, $3, $4, $5, $6, $7)");
    reveal_strlit("CREATE TABLE IF NOT EXISTS \"Pastes\" (\n                custom_url TEXT NOT NULL,\n                id TEXT NOT NULL,\n                edit_password TEXT NOT NULL,\n                pub_date TEXT NOT NULL,\n                edit_date TEXT NOT NULL,\n                content TEXT NOT NULL,\n                metadata TEXT NOT NULL\n            )");
    let column = "custom_url"@;
    let p = if sqlite { "?"@ } else { "$1"@ };
    assert(statement_text(Statement::PasteByUrl, sqlite) =~= "SELECT * FROM \""@ + "Pastes"@
        + "\" WHERE \""@ + column + "\" = "@ + p);
    let create = statement_text(Statement::CreatePastes, sqlite);
    let head = "CREATE TABLE IF NOT EXISTS \""@ + "Pastes"@ + "\" ("@;
    let space = create.subrange(37, 54);
    let rest = create.subrange(79, create.len() as int);
    assert(space =~= seq!['\n', ' ', ' ', ' ', ' ', ' ', ' ', ' ', ' ', ' ', ' ', ' ', ' ', ' ', ' ', ' ', ' ']);
    assert(create =~= head + space + column + " TEXT NOT NULL,"@ + rest);
    assert(selects_where(statement_text(Statement::PasteByUrl, sqlite), "Pastes"@, column));
    assert(forall|i: int| 0 <= i < space.len() ==> #[trigger] space[i] == ' ' || space[i] == '\n');
    assert(creates_with_first_column(create, "Pastes"@, column));
    let ins = statement_text(Statement::InsertPaste, sqlite);
    let values = ins.subrange(29, ins.len() as int);
    assert(ins =~= "INSERT INTO \""@ + "Pastes"@ + "\" VALUES ("@ + values);
    reveal_strlit("$2");
    reveal_strlit("UPDATE \"");
    reveal_strlit("\" SET ");
    reveal_strlit(" WHERE \"");
    reveal_strlit("(\"content\") = (?)");
    reveal_strlit("(\"content\") = ($1)");
    reveal_strlit("UPDATE \"Pastes\" SET (\"content\") = (?) WHERE \"custom_url\" = ?");
    reveal_strlit("UPDATE \"Pastes\" SET (\"content\") = ($1) WHERE \"custom_url\" = $2");
    let a = if sqlite { "(\"content\") = (?)"@ } else { "(\"content\") = ($1)"@ };
    let q = if sqlite { "?"@ } else { "$2"@ };
    assert(statement_text(Statement::UpdatePaste, sqlite) =~= "UPDATE \""@ + "Pastes"@ + "\" SET "@
        + a + " WHERE \""@ + column + "\" = "@ + q);
}

/// A user is looked up by name in the column that the user insert fills with
/// the name: `user_insert_values` binds the name first, the insert fills the
/// columns in order, and the first column of "Users" is the one the lookup by
/// username filters on. So once a user named `n` is inserted, the lookup with
/// key `n` finds it, and `create_user_step` refuses a second user `n`.
pub proof fn lemma_user_lookup_column(sqlite: bool)
    ensures
        exists|column: Seq<char>|
            selects_where(statement_text(Statement::UserByUsername, sqlite), "Users"@, column)
                && creates_with_first_column(
                statement_text(Statement::CreateUsers, sqlite),
                "Users"@,
                column,
            ),
        inserts_row(statement_text(Statement::InsertUser, sqlite), "Users"@),
{
    reveal_strlit("?");
    reveal_strlit("$1");
    reveal_strlit("SELECT * FROM \"");
    reveal_strlit("\" WHERE \"");
    reveal_strlit("\" = ");
    reveal_strlit("Users");
    reveal_strlit("username");
    reveal_strlit("CREATE TABLE IF NOT EXISTS \"");
    reveal_strlit("\" (");
    reveal_strlit(" TEXT NOT NULL,");
    reveal_strlit("INSERT INTO \"");
    reveal_strlit("\" VALUES (");
    reveal_strlit("SELECT * FROM \"Users\" WHERE \"username\" = ?");
    reveal_strlit("SELECT * FROM \"Users\" WHERE \"username\" = $1");
    reveal_strlit("INSERT INTO \"Users\" VALUES (?, ?, ?)");
    reveal_strlit("INSERT INTO \"Users\" VALUES ($1, $2, $3)");
    reveal_strlit("CREATE TABLE IF NOT EXISTS \"Users\" (\n                username TEXT NOT NULL,\n                id_hashed TEXT NOT NULL,\n                timestamp TEXT NOT NULL\n            )");
    let column = "username"@;
    let p = if sqlite { "?"@ } else { "$1"@ };
    assert(statement_text(Statement::UserByUsername, sqlite) =~= "SELECT * FROM \""@ + "Users"@
        + "\" WHERE \""@ + column + "\" = "@ + p);
    assert(selects_where(statement_text(Statement::UserByUsername, sqlite), "Users"@, column));
    let create = statement_text(Statement::CreateUsers, sqlite);
    let head = "CREATE TABLE IF NOT EXISTS \""@ + "Users"@ + "\" ("@;
    let space = create.subrange(36, 53);
    let rest = create.subrange(76, create.len() as int);
    assert(space =~= seq!['\n', ' ', ' ', ' ', ' ', ' ', ' ', ' ', ' ', ' ', ' ', ' ', ' ', ' ', ' ', ' ', ' ']);
    assert(create =~= head + space + column + " TEXT NOT NULL,"@ + rest);
    assert(forall|i: int| 0 <= i < space.len() ==> #[trigger] space[i] == ' ' || space[i] == '\n');
    assert(creates_with_first_column(create, "Users"@, column));
    let ins = statement_text(Statement::InsertUser, sqlite);
    let values = ins.subrange(28, ins.len() as int);
    assert(ins =~= "INSERT INTO \""@ + "Users"@ + "\" VALUES ("@ + values);
}

/// A log is read and edited by the column that the log insert fills with its
/// id: `log_insert_values` binds the id first, the insert fills the columns in
/// order, and the first column of "Logs" is the one that the lookup and the
/// content update filter on.
pub proof fn lemma_log_lookup_column(sqlite: bool)
    ensures
        creates_with_first_column(statement_text(Statement::CreateLogs, sqlite), "Logs"@, "id"@),
        selects_where(statement_text(Statement::LogById, sqlite), "Logs"@, "id"@),
        updates_where(statement_text(Statement::UpdateLog, sqlite), "Logs"@, "id"@),
        inserts_row(statement_text(Statement::InsertLog, sqlite), "Logs"@),
{
    reveal_strlit("?");
    reveal_strlit("$1");
    reveal_strlit("$2");
    reveal_strlit("SELECT * FROM \"");
    reveal_strlit("\" WHERE \"");
    reveal_strlit("\" = ");
    reveal_strlit("Logs");
    reveal_strlit("id");
    reveal_strlit("CREATE TABLE IF NOT EXISTS \"");
    reveal_strlit("\" (");
    reveal_strlit(" TEXT NOT NULL,");
    reveal_strlit("INSERT INTO \"");
    reveal_strlit("\" VALUES (");
    reveal_strlit("UPDATE \"");
    reveal_strlit("\" SET ");
    reveal_strlit(" WHERE \"");
    reveal_strlit("(\"content\") = (?)");
    reveal_strlit("(\"content\") = ($1)");
    reveal_strlit("SELECT * FROM \"Logs\" WHERE \"id\" = ?");
    reveal_strlit("SELECT * FROM \"Logs\" WHERE \"id\" = $1");
    reveal_strlit("INSERT INTO \"Logs\" VALUES (?, ?, ?, ?)");
    reveal_strlit("INSERT INTO \"Logs\" VALUES ($1, $2, $3, $4)");
    reveal_strlit("UPDATE \"Logs\" SET (\"content\") = (?) WHERE \"id\" = ?");
    reveal_strlit("UPDATE \"Logs\" SET (\"content\") = ($1) WHERE \"id\" = $2");
    reveal_strlit("CREATE TABLE IF NOT EXISTS \"Logs\" (\n                id TEXT NOT NULL,\n                logtype TEXT NOT NULL,\n                timestamp  TEXT NOT NULL,\n                content TEXT NOT NULL\n            )");
    let column = "id"@;
    let p = if sqlite { "?"@ } else { "$1"@ };
    assert(statement_text(Statement::LogById, sqlite) =~= "SELECT * FROM \""@ + "Logs"@
        + "\" WHERE \""@ + column + "\" = "@ + p);
    let create = statement_text(Statement::CreateLogs, sqlite);
    let head = "CREATE TABLE IF NOT EXISTS \""@ + "Logs"@ + "\" ("@;
    let space = create.subrange(35, 52);
    let rest = create.subrange(69, create.len() as int);
    assert(space =~= seq!['\n', ' ', ' ', ' ', ' ', ' ', ' ', ' ', ' ', ' ', ' ', ' ', ' ', ' ', ' ', ' ', ' ']);
    assert(create =~= head + space + column + " TEXT NOT NULL,"@ + rest);
    assert(forall|i: int| 0 <= i < space.len() ==> #[trigger] space[i] == ' ' || space[i] == '\n');
    let ins = statement_text(Statement::InsertLog, sqlite);
    let values = ins.subrange(27, ins.len() as int);
    assert(ins =~= "INSERT INTO \""@ + "Logs"@ + "\" VALUES ("@ + values);
    let a = if sqlite { "(\"content\") = (?)"@ } else { "(\"content\") = ($1)"@ };
    let q = if sqlite { "?"@ } else { "$2"@ };
    assert(statement_text(Statement::UpdateLog, sqlite) =~= "UPDATE \""@ + "Logs"@ + "\" SET "@ + a
        + " WHERE \""@ + column + "\" = "@ + q);
}

/// A group is looked up by its name, the first column of "Groups".
pub proof fn lemma_group_lookup_column(sqlite: bool)
    ensures
        creates_with_first_column(statement_text(Statement::CreateGroups, sqlite), "Groups"@, "name"@),
        selects_where(statement_text(Statement::GroupByName, sqlite), "Groups"@, "name"@),
{
    reveal_strlit("?");
    reveal_strlit("$1");
    reveal_strlit("SELECT * FROM \"");
    reveal_strlit("\" WHERE \"");
    reveal_strlit("\" = ");
    reveal_strlit("Groups");
    reveal_strlit("name");
    reveal_strlit("CREATE TABLE IF NOT EXISTS \"");
    reveal_strlit("\" (");
    reveal_strlit(" TEXT NOT NULL,");
    reveal_strlit("SELECT * FROM \"Groups\" WHERE \"name\" = ?");
    reveal_strlit("SELECT * FROM \"Groups\" WHERE \"name\" = $1");
    reveal_strlit("CREATE TABLE IF NOT EXISTS \"Groups\" (\n                name TEXT NOT NULL,\n                submit_password TEXT NOT NULL,\n                metadata TEXT NOT NULL\n            )");
    let column = "name"@;
    let p = if sqlite { "?"@ } else { "$1"@ };
    assert(statement_text(Statement::GroupByName, sqlite) =~= "SELECT * FROM \""@ + "Groups"@
        + "\" WHERE \""@ + column + "\" = "@ + p);
    let create = statement_text(Statement::CreateGroups, sqlite);
    let head = "CREATE TABLE IF NOT EXISTS \""@ + "Groups"@ + "\" ("@;
    let space = create.subrange(37, 54);
    let rest = create.subrange(73, create.len() as int);
    assert(space =~= seq!['\n', ' ', ' ', ' ', ' ', ' ', ' ', ' ', ' ', ' ', ' ', ' ', ' ', ' ', ' ', ' ', ' ']);
    assert(create =~= head + space + column + " TEXT NOT NULL,"@ + rest);
    assert(forall|i: int| 0 <= i < space.len() ==> #[trigger] space[i] == ' ' || space[i] == '\n');
}

/// A signed-in user is found by the column that the user insert fills with
/// the hashed id: `user_insert_values` binds it second, and the second column
/// of "Users" is the one the lookup by hashed id filters on.
pub proof fn lemma_user_id_column(sqlite: bool)
    ensures
        selects_where(statement_text(Statement::UserByHashed, sqlite), "Users"@, "id_hashed"@),
        creates_with_second_column(
            statement_text(Statement::CreateUsers, sqlite),
            "Users"@,
            "id_hashed"@,
        ),
{
    reveal_strlit("?");
    reveal_strlit("$1");
    reveal_strlit("SELECT * FROM \"");
    reveal_strlit("\" WHERE \"");
    reveal_strlit("\" = ");
    reveal_strlit("Users");
    reveal_strlit("username");
    reveal_strlit("id_hashed");
    reveal_strlit("CREATE TABLE IF NOT EXISTS \"");
    reveal_strlit("\" (");
    reveal_strlit(" TEXT NOT NULL,");
    reveal_strlit("SELECT * FROM \"Users\" WHERE \"id_hashed\" = ?");
    reveal_strlit("SELECT * FROM \"Users\" WHERE \"id_hashed\" = $1");
    let p = if sqlite { "?"@ } else { "$1"@ };
    assert(statement_text(Statement::UserByHashed, sqlite) =~= "SELECT * FROM \""@ + "Users"@
        + "\" WHERE \""@ + "id_hashed"@ + "\" = "@ + p);
    assert(selects_where(statement_text(Statement::UserByHashed, sqlite), "Users"@, "id_hashed"@));
    lemma_users_table_text(sqlite);
}

proof fn lemma_users_table_text(sqlite: bool)
    ensures
        creates_with_second_column(
            statement_text(Statement::CreateUsers, sqlite),
            "Users"@,
            "id_hashed"@,
        ),
{
    reveal_strlit("Users");
    reveal_strlit("username");
    reveal_strlit("id_hashed");
    reveal_strlit("CREATE TABLE IF NOT EXISTS \"");
    reveal_strlit("\" (");
    reveal_strlit(" TEXT NOT NULL,");
    reveal_strlit("CREATE TABLE IF NOT EXISTS \"Users\" (\n                username TEXT NOT NULL,\n                id_hashed TEXT NOT NULL,\n                timestamp TEXT NOT NULL\n            )");
    let create = statement_text(Statement::CreateUsers, sqlite);
    let head = "CREATE TABLE IF NOT EXISTS \""@ + "Users"@ + "\" ("@;
    let first = "username"@;
    let space = create.subrange(36, 53);
    let space2 = create.subrange(76, 93);
    let rest = create.subrange(117, create.len() as int);
    assert(space =~= seq!['\n', ' ', ' ', ' ', ' ', ' ', ' ', ' ', ' ', ' ', ' ', ' ', ' ', ' ', ' ', ' ', ' ']);
    assert(space2 =~= space);
    assert(!first.contains(',')) by {
        if first.contains(',') {
            let j = choose|j: int| 0 <= j < first.len() && first[j] == ',';
            assert(first[j] != ',');
        }
    }
    assert(create =~= head + space + first + " TEXT NOT NULL,"@ + space2 + "id_hashed"@
        + " TEXT NOT NULL,"@ + rest);
    assert(forall|i: int| 0 <= i < space.len() ==> #[trigger] space[i] == ' ' || space[i] == '\n');
    assert(forall|i: int| 0 <= i < space2.len() ==> #[trigger] space2[i] == ' ' || space2[i] == '\n');
}

} // verus!

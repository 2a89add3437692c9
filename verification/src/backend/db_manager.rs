//! Accounts and contacts, kept in an SQLite database through rusqlite.
//!
//! What a query finds depends on the database file, which this library does
//! not model: the calls into rusqlite stand behind trusted items that promise
//! nothing of their results. Every statement handed to rusqlite is a `Query`
//! made by a verified builder with an exact contract, and each decision the
//! server takes on a result is a verified function of that result with an
//! exact contract.

use vstd::prelude::*;
use vstd::utf8::{encode_utf8, valid_utf8};
use rusqlite::{Connection, Row};
use rusqlite::Error as SqliteError;
use rusqlite::types::ValueRef;
use crate::backend::models::User;
use crate::decimal::{i32_to_decimal, signed_decimal};

verus! {

#[verifier::external_type_specification]
#[verifier::external_body]
pub struct ExConnection(Connection);

#[verifier::external_type_specification]
#[verifier::external_body]
pub struct ExRusqliteError(SqliteError);

#[verifier::external_type_specification]
#[verifier::external_body]
pub struct ExRow<'stmt>(Row<'stmt>);

/// A column value of a result row, as far as the server reads one.
#[derive(Debug, Clone, PartialEq, Eq)]
pub enum SqlValue {
    Integer(i64),
    /// Text, as the bytes SQLite stored (which need not be UTF-8).
    Text(Vec<u8>),
    /// NULL, a real number or a blob.
    Other,
}

/// Why a database operation did not give what was asked.
#[derive(Debug, Clone, PartialEq, Eq)]
pub enum DbError {
    /// The query found no row.
    NoRows,
    /// A column did not hold the kind of value the server reads from it.
    UnexpectedColumn,
    /// A text column did not hold UTF-8.
    InvalidText,
    /// SQLite (or rusqlite) reported a failure; the text is rusqlite's description.
    Failure(String),
}

/// The text of a database error, as the server reports it.
pub open spec fn db_error_text(e: DbError) -> Seq<char> {
    match e {
        DbError::NoRows => "Query returned no rows"@,
        DbError::UnexpectedColumn => "Invalid column type"@,
        DbError::InvalidText => "Invalid UTF-8 text"@,
        DbError::Failure(s) => s@,
    }
}

impl DbError {
    /// The text of this error, as the server sends it to a client.
    pub fn describe(&self) -> (s: String)
        ensures
            s@ == db_error_text(*self),
    {
        match self {
            DbError::NoRows => {
                proof { reveal_strlit("Query returned no rows"); }
                String::from_str("Query returned no rows")
            },
            DbError::UnexpectedColumn => {
                proof { reveal_strlit("Invalid column type"); }
                String::from_str("Invalid column type")
            },
            DbError::InvalidText => {
                proof { reveal_strlit("Invalid UTF-8 text"); }
                String::from_str("Invalid UTF-8 text")
            },
            DbError::Failure(s) => s.clone(),
        }
    }
}

/// One SQL statement and the texts bound to its `?1`, `?2`, ... parameters.
pub struct Query {
    pub sql: String,
    pub params: Vec<String>,
}

/// Whether `q` is the statement `sql` with these parameter texts.
pub open spec fn query_is(q: Query, sql: Seq<char>, params: Seq<Seq<char>>) -> bool {
    &&& q.sql@ == sql
    &&& q.params@.len() == params.len()
    &&& forall|i: int| 0 <= i < params.len() ==> #[trigger] q.params@[i]@ == params[i]
}

pub open spec fn pragma_foreign_keys_sql() -> Seq<char> {
    "PRAGMA foreign_keys = ON"@
}

pub open spec fn create_users_sql() -> Seq<char> {
    "CREATE TABLE users(username VARCHAR PRIMARY KEY, password VARCHAR)"@
}

pub open spec fn create_connections_sql() -> Seq<char> {
    "CREATE TABLE connections(id INTEGER PRIMARY KEY AUTOINCREMENT, first VARCHAR, second VARCHAR, FOREIGN KEY (first) REFERENCES users (username) ON DELETE CASCADE, FOREIGN KEY (second) REFERENCES users (username) ON DELETE CASCADE  )"@
}

pub open spec fn insert_user_sql() -> Seq<char> {
    "INSERT INTO users(username, password) VALUES (?1, ?2)"@
}

pub open spec fn login_sql() -> Seq<char> {
    "SELECT * FROM users WHERE username = ?1 AND password = ?2"@
}

pub open spec fn user_lookup_sql() -> Seq<char> {
    "SELECT * FROM users WHERE username = ?1"@
}

/// The lookup of a connection between `?1` and `?2`, in either order.
pub open spec fn connection_lookup_sql() -> Seq<char> {
    "SELECT * FROM connections WHERE first=?1 AND second=?2 OR first=?2 AND second=?1"@
}

pub open spec fn insert_connection_sql() -> Seq<char> {
    "INSERT INTO connections(first, second) VALUES (?1, ?2)"@
}

/// The contacts that `?1` added.
pub open spec fn contacts_started_sql() -> Seq<char> {
    "SELECT second FROM connections WHERE first=?1"@
}

/// The contacts that added `?1`.
pub open spec fn contacts_joined_sql() -> Seq<char> {
    "SELECT first FROM connections WHERE second=?1"@
}

/// The id of the connection between `?1` and `?2`, in either order.
pub open spec fn history_lookup_sql() -> Seq<char> {
    "SELECT id FROM connections WHERE first=?1 AND second=?2 OR first=?2 AND second=?1 "@
}

fn make_query(sql: &str, params: &[&str]) -> (q: Query)
    ensures
        query_is(q, sql@, params@.map_values(|p: &str| p@)),
{
    let mut texts: Vec<String> = Vec::new();
    let mut i: usize = 0;
    while i < params.len()
        invariant
            i <= params@.len(),
            texts@.len() == i,
            forall|k: int| 0 <= k < i ==> #[trigger] texts@[k]@ == params@[k]@,
        decreases params@.len() - i,
    {
        texts.push(String::from_str(params[i]));
        i = i + 1;
    }
    Query { sql: String::from_str(sql), params: texts }
}

impl Query {
    /// The statements that create the server's tables, in order: foreign
    /// keys on, the `users` table, the `connections` table.
    pub fn schema() -> (qs: Vec<Query>)
        ensures
            qs@.len() == 3,
            query_is(qs@[0], pragma_foreign_keys_sql(), Seq::empty()),
            query_is(qs@[1], create_users_sql(), Seq::empty()),
            query_is(qs@[2], create_connections_sql(), Seq::empty()),
    {
        let mut qs: Vec<Query> = Vec::new();
        qs.push(make_query("PRAGMA foreign_keys = ON", &[]));
        qs.push(make_query("CREATE TABLE users(username VARCHAR PRIMARY KEY, password VARCHAR)", &[]));
        qs.push(make_query("CREATE TABLE connections(id INTEGER PRIMARY KEY AUTOINCREMENT, first VARCHAR, second VARCHAR, FOREIGN KEY (first) REFERENCES users (username) ON DELETE CASCADE, FOREIGN KEY (second) REFERENCES users (username) ON DELETE CASCADE  )", &[]));
        qs
    }

    /// The insertion of an account.
    pub fn insert_user(username: &str, password: &str) -> (q: Query)
        ensures
            query_is(q, insert_user_sql(), seq![username@, password@]),
    {
        let q = make_query("INSERT INTO users(username, password) VALUES (?1, ?2)", &[username, password]);
        assert(seq![username, password].map_values(|p: &str| p@) =~= seq![username@, password@]);
        q
    }

    /// The lookup of the account with this name and password.
    pub fn login(username: &str, password: &str) -> (q: Query)
        ensures
            query_is(q, login_sql(), seq![username@, password@]),
    {
        let q = make_query("SELECT * FROM users WHERE username = ?1 AND password = ?2", &[username, password]);
        assert(seq![username, password].map_values(|p: &str| p@) =~= seq![username@, password@]);
        q
    }

    /// The lookup of the account with this name.
    pub fn user_lookup(username: &str) -> (q: Query)
        ensures
            query_is(q, user_lookup_sql(), seq![username@]),
    {
        let q = make_query("SELECT * FROM users WHERE username = ?1", &[username]);
        assert(seq![username].map_values(|p: &str| p@) =~= seq![username@]);
        q
    }

    /// The lookup of a connection between `first` and `second`, in either order.
    pub fn connection_lookup(first: &str, second: &str) -> (q: Query)
        ensures
            query_is(q, connection_lookup_sql(), seq![first@, second@]),
    {
        let q = make_query(
            "SELECT * FROM connections WHERE first=?1 AND second=?2 OR first=?2 AND second=?1",
            &[first, second],
        );
        assert(seq![first, second].map_values(|p: &str| p@) =~= seq![first@, second@]);
        q
    }

    /// The insertion of the connection `first` to `second`.
    pub fn insert_connection(first: &str, second: &str) -> (q: Query)
        ensures
            query_is(q, insert_connection_sql(), seq![first@, second@]),
    {
        let q = make_query("INSERT INTO connections(first, second) VALUES (?1, ?2)", &[first, second]);
        assert(seq![first, second].map_values(|p: &str| p@) =~= seq![first@, second@]);
        q
    }

    /// The lookup of the contacts `username` added.
    pub fn contacts_started(username: &str) -> (q: Query)
        ensures
            query_is(q, contacts_started_sql(), seq![username@]),
    {
        let q = make_query("SELECT second FROM connections WHERE first=?1", &[username]);
        assert(seq![username].map_values(|p: &str| p@) =~= seq![username@]);
        q
    }

    /// The lookup of the contacts that added `username`.
    pub fn contacts_joined(username: &str) -> (q: Query)
        ensures
            query_is(q, contacts_joined_sql(), seq![username@]),
    {
        let q = make_query("SELECT first FROM connections WHERE second=?1", &[username]);
        assert(seq![username].map_values(|p: &str| p@) =~= seq![username@]);
        q
    }

    /// The lookup of the id of the connection between `first` and `second`, in either order.
    pub fn history_lookup(first: &str, second: &str) -> (q: Query)
        ensures
            query_is(q, history_lookup_sql(), seq![first@, second@]),
    {
        let q = make_query(
            "SELECT id FROM connections WHERE first=?1 AND second=?2 OR first=?2 AND second=?1 ",
            &[first, second],
        );
        assert(seq![first, second].map_values(|p: &str| p@) =~= seq![first@, second@]);
        q
    }
}

/// `std::path::Path::exists` on `path`: whether the file system has an entry
/// there. The answer depends on the disk; nothing is stated of it.
#[verifier::external_body]
fn path_exists(path: &str) -> bool {
    std::path::Path::new(path).exists()
}

/// `rusqlite::Connection::open` on `path`: opens (creating it if missing) the
/// database file. Whether it succeeds depends on the disk; nothing is stated.
#[verifier::external_body]
fn open_connection(path: &str) -> Result<Connection, SqliteError> {
    Connection::open(path)
}

/// `rusqlite::Connection::execute`: runs the statement `q.sql` with `q.params`
/// bound to `?1`, `?2`, ... as text. What it does depends on the database;
/// nothing is stated of the result.
#[verifier::external_body]
fn execute_sql(conn: &Connection, q: &Query) -> Result<usize, SqliteError> {
    conn.execute(q.sql.as_str(), rusqlite::params_from_iter(q.params.iter()))
}

/// `rusqlite::Connection::query_row`: runs the query `q.sql` with `q.params`
/// bound as text and reads the columns of its first row with `row_cells`;
/// `Err(QueryReturnedNoRows)` when there is no row. What it finds depends on
/// the database; nothing is stated of the result.
#[verifier::external_body]
fn query_first_row(conn: &Connection, q: &Query) -> Result<Vec<SqlValue>, SqliteError> {
    conn.query_row(q.sql.as_str(), rusqlite::params_from_iter(q.params.iter()), |row| row_cells(row))
}

/// `rusqlite::Statement::column_count`, on the statement that produced `row`.
#[verifier::external_body]
fn column_count(row: &Row) -> usize {
    row.as_ref().column_count()
}

/// `rusqlite::Row::get_ref` of column `i`, told apart by its variant: an
/// integer, the bytes of a text (copied, not decoded), or anything else.
/// Nothing is stated of the value, which comes from the database.
#[verifier::external_body]
fn column_value(row: &Row, i: usize) -> Result<SqlValue, SqliteError> {
    match row.get_ref(i) {
        Ok(ValueRef::Integer(n)) => Ok(SqlValue::Integer(n)),
        Ok(ValueRef::Text(bytes)) => Ok(SqlValue::Text(bytes.to_vec())),
        Ok(_) => Ok(SqlValue::Other),
        Err(e) => Err(e),
    }
}

/// `std::str::from_utf8` on `bytes`, the text kept as a `String`: there is
/// one exactly when the bytes are valid UTF-8, and then they are its encoding.
#[verifier::external_body]
fn utf8_text(bytes: &[u8]) -> (r: Option<String>)
    ensures
        r is Some <==> valid_utf8(bytes@),
        r matches Some(s) ==> encode_utf8(s@) == bytes@,
{
    std::str::from_utf8(bytes).ok().map(|s| s.to_string())
}

/// `SqliteError`, told apart by whether it is `QueryReturnedNoRows`;
/// any other error keeps the text of its `Display` implementation.
/// Nothing is stated of which it is: the error value is opaque here.
#[verifier::external_body]
fn db_error(e: SqliteError) -> DbError {
    match e {
        SqliteError::QueryReturnedNoRows => DbError::NoRows,
        other => DbError::Failure(other.to_string()),
    }
}

/// Reads every column of `row`, in order.
fn row_cells(row: &Row) -> Result<Vec<SqlValue>, SqliteError> {
    let n: usize = column_count(row);
    let mut cells: Vec<SqlValue> = Vec::new();
    let mut i: usize = 0;
    while i < n
        invariant
            i <= n,
        decreases n - i,
    {
        match column_value(row, i) {
            Ok(cell) => cells.push(cell),
            Err(e) => return Err(e),
        }
        i = i + 1;
    }
    Ok(cells)
}

/// The outcome of a rusqlite call, with its error in the library's terms.
fn lift<T>(r: Result<T, SqliteError>) -> (out: Result<T, DbError>)
    ensures
        r is Ok <==> out is Ok,
        r matches Ok(v) ==> out == Ok::<T, DbError>(v),
{
    match r {
        Ok(v) => Ok(v),
        Err(e) => Err(db_error(e)),
    }
}

/// Why `cell` is not a text the server can read: `None` when it is UTF-8 text.
pub open spec fn text_error(cell: SqlValue) -> Option<DbError> {
    match cell {
        SqlValue::Text(bytes) => if valid_utf8(bytes@) { None } else { Some(DbError::InvalidText) },
        _ => Some(DbError::UnexpectedColumn),
    }
}

/// Whether `cell` is a text whose characters are `s`.
pub open spec fn is_text_of(cell: SqlValue, s: Seq<char>) -> bool {
    cell matches SqlValue::Text(bytes) && valid_utf8(bytes@) && encode_utf8(s) == bytes@
}

/// The text a cell holds.
pub fn cell_text(cell: &SqlValue) -> (r: Result<String, DbError>)
    ensures
        text_error(*cell) matches Some(e) ==> r == Err::<String, DbError>(e),
        text_error(*cell) is None ==> (r matches Ok(s) && is_text_of(*cell, s@)),
{
    match cell {
        SqlValue::Text(bytes) => match utf8_text(bytes.as_slice()) {
            Some(s) => Ok(s),
            None => Err(DbError::InvalidText),
        },
        _ => Err(DbError::UnexpectedColumn),
    }
}

/// What a lookup says of whether a row exists: a row found is `true`, no
/// row is `false`, and a failure stays a failure.
pub open spec fn existence_spec(found: Result<Vec<SqlValue>, DbError>) -> Result<bool, DbError> {
    match found {
        Ok(_) => Ok(true),
        Err(DbError::NoRows) => Ok(false),
        Err(e) => Err(e),
    }
}

/// Whether a lookup found a row.
pub fn existence(found: Result<Vec<SqlValue>, DbError>) -> (r: Result<bool, DbError>)
    ensures
        r == existence_spec(found),
{
    match found {
        Ok(_) => Ok(true),
        Err(DbError::NoRows) => Ok(false),
        Err(e) => Err(e),
    }
}

/// Why a row of the `users` table does not describe an account (its first
/// two columns are read as text, the first first): `None` when it does.
pub open spec fn user_row_error(cells: Seq<SqlValue>) -> Option<DbError> {
    if cells.len() < 2 {
        Some(DbError::UnexpectedColumn)
    } else if text_error(cells[0]) is Some {
        text_error(cells[0])
    } else {
        text_error(cells[1])
    }
}

/// Whether `r` is what reading an account from the row `cells` gives.
pub open spec fn user_from_row_spec(cells: Seq<SqlValue>, r: Result<User, DbError>) -> bool {
    match user_row_error(cells) {
        Some(e) => r == Err::<User, DbError>(e),
        None => r matches Ok(u) && is_text_of(cells[0], u.name@) && is_text_of(cells[1], u.password@),
    }
}

/// The account a row of the `users` table describes: its first column is
/// the name, its second the password.
pub fn user_from_row(cells: Vec<SqlValue>) -> (r: Result<User, DbError>)
    ensures
        user_from_row_spec(cells@, r),
{
    if cells.len() < 2 {
        return Err(DbError::UnexpectedColumn);
    }
    let name = cell_text(&cells[0])?;
    let password = cell_text(&cells[1])?;
    Ok(User::new(name, password))
}

/// Whether `r` is what a login answers when its lookup gave `found`: the
/// account of the row found, or the lookup's error (no row when the
/// credentials match no account).
pub open spec fn login_outcome_spec(found: Result<Vec<SqlValue>, DbError>, r: Result<User, DbError>) -> bool {
    match found {
        Ok(cells) => user_from_row_spec(cells@, r),
        Err(e) => r == Err::<User, DbError>(e),
    }
}

/// What a login answers, from its lookup.
pub fn login_outcome(found: Result<Vec<SqlValue>, DbError>) -> (r: Result<User, DbError>)
    ensures
        login_outcome_spec(found, r),
{
    match found {
        Ok(cells) => user_from_row(cells),
        Err(e) => Err(e),
    }
}

/// Whether `r` is `acc` with the contact a lookup row names (its first
/// column, as text) added: no row adds nothing, and a failure stays a failure.
pub open spec fn contact_step_spec(
    acc: Seq<String>,
    found: Result<Vec<SqlValue>, DbError>,
    r: Result<Vec<String>, DbError>,
) -> bool {
    match found {
        Ok(cells) => if cells@.len() < 1 {
            r == Err::<Vec<String>, DbError>(DbError::UnexpectedColumn)
        } else {
            match text_error(cells@[0]) {
                Some(e) => r == Err::<Vec<String>, DbError>(e),
                None => r matches Ok(v) && v@.len() == acc.len() + 1 && v@.drop_last() == acc
                    && is_text_of(cells@[0], v@.last()@),
            }
        },
        Err(DbError::NoRows) => r matches Ok(v) && v@ == acc,
        Err(e) => r == Err::<Vec<String>, DbError>(e),
    }
}

/// Adds the contact named by a lookup row to `acc`.
pub fn contacts_after(acc: Vec<String>, found: Result<Vec<SqlValue>, DbError>) -> (r: Result<Vec<String>, DbError>)
    ensures
        contact_step_spec(acc@, found, r),
{
    let mut acc = acc;
    match found {
        Ok(cells) => {
            if cells.len() < 1 {
                return Err(DbError::UnexpectedColumn);
            }
            let name = cell_text(&cells[0])?;
            let ghost before = acc@;
            acc.push(name);
            assert(acc@.drop_last() =~= before);
            Ok(acc)
        },
        Err(DbError::NoRows) => Ok(acc),
        Err(e) => Err(e),
    }
}

/// The conversation id a lookup row holds: its first column, an integer in
/// the range of `i32`.
pub open spec fn id_from_row_spec(cells: Seq<SqlValue>) -> Result<i32, DbError> {
    if cells.len() >= 1 {
        match cells[0] {
            SqlValue::Integer(n) => if i32::MIN <= n <= i32::MAX {
                Ok(n as i32)
            } else {
                Err(DbError::UnexpectedColumn)
            },
            _ => Err(DbError::UnexpectedColumn),
        }
    } else {
        Err(DbError::UnexpectedColumn)
    }
}

/// The conversation id a lookup row holds.
pub fn id_from_row(cells: Vec<SqlValue>) -> (r: Result<i32, DbError>)
    ensures
        r == id_from_row_spec(cells@),
{
    if cells.len() < 1 {
        return Err(DbError::UnexpectedColumn);
    }
    match &cells[0] {
        SqlValue::Integer(n) => {
            if i32::MIN as i64 <= *n && *n <= i32::MAX as i64 {
                Ok(*n as i32)
            } else {
                Err(DbError::UnexpectedColumn)
            }
        },
        _ => Err(DbError::UnexpectedColumn),
    }
}

/// The conversation id an id lookup gives: that of the row found, or the
/// lookup's error (no row when the two users are not connected).
pub open spec fn history_id_spec(found: Result<Vec<SqlValue>, DbError>) -> Result<i32, DbError> {
    match found {
        Ok(cells) => id_from_row_spec(cells@),
        Err(e) => Err(e),
    }
}

/// The conversation id an id lookup gives.
pub fn history_id_outcome(found: Result<Vec<SqlValue>, DbError>) -> (r: Result<i32, DbError>)
    ensures
        r == history_id_spec(found),
{
    match found {
        Ok(cells) => id_from_row(cells),
        Err(e) => Err(e),
    }
}

/// The text that refuses a contact who is already one.
pub open spec fn connection_exists_text() -> Seq<char> {
    "Connection exists"@
}

/// What adding a contact answers, from the lookup of an existing connection
/// (either way round) and, when there was none, the outcome of inserting it.
pub open spec fn connection_outcome_spec(
    found: Result<Vec<SqlValue>, DbError>,
    inserted: Option<Result<usize, DbError>>,
) -> Result<bool, Seq<char>> {
    match found {
        Ok(_) => Err(connection_exists_text()),
        Err(DbError::NoRows) => match inserted {
            Some(Ok(_)) => Ok(true),
            Some(Err(e)) => Err(db_error_text(e)),
            None => Err(db_error_text(DbError::NoRows)),
        },
        Err(e) => Err(db_error_text(e)),
    }
}

/// Whether adding a contact goes on to insert the connection: only when the
/// lookup found none.
pub fn needs_insert(found: &Result<Vec<SqlValue>, DbError>) -> (b: bool)
    ensures
        b <==> *found matches Err(DbError::NoRows),
{
    match found {
        Err(DbError::NoRows) => true,
        _ => false,
    }
}

/// What adding a contact answers.
pub fn connection_outcome(
    found: Result<Vec<SqlValue>, DbError>,
    inserted: Option<Result<usize, DbError>>,
) -> (r: Result<bool, String>)
    requires
        inserted is Some <==> found matches Err(DbError::NoRows),
    ensures
        match r {
            Ok(b) => connection_outcome_spec(found, inserted) == Ok::<bool, Seq<char>>(b),
            Err(s) => connection_outcome_spec(found, inserted) == Err::<bool, Seq<char>>(s@),
        },
{
    match found {
        Ok(_) => {
            proof { reveal_strlit("Connection exists"); }
            Err(String::from_str("Connection exists"))
        },
        Err(DbError::NoRows) => match inserted {
            Some(Ok(_)) => Ok(true),
            Some(Err(e)) => Err(e.describe()),
            None => Err(DbError::NoRows.describe()),
        },
        Err(e) => Err(e.describe()),
    }
}

/// Whether opening a database goes on to create its tables: only when no
/// file was there before.
pub fn needs_tables(existed: bool) -> (b: bool)
    ensures
        b == !existed,
{
    !existed
}

/// The name of the file that holds the history of conversation `id`: its
/// decimal text.
pub fn history_file_name(id: i32) -> (name: String)
    ensures
        name@ == signed_decimal(id as int),
{
    i32_to_decimal(id)
}

/// Different conversations keep their histories in different files.
pub proof fn lemma_history_files_distinct(a: i32, b: i32)
    requires
        a != b,
    ensures
        signed_decimal(a as int) != signed_decimal(b as int),
{
    if signed_decimal(a as int) == signed_decimal(b as int) {
        crate::decimal::lemma_signed_decimal_injective(a as int, b as int);
    }
}

/// A handle on the server's database.
pub struct DbManager {
    conn: Connection,
}

impl DbManager {
    /// Opens the database at `path`; a database that did not exist yet is
    /// created with its tables (`Query::schema`).
    pub fn build(path: &str) -> Result<DbManager, DbError> {
        let existed = path_exists(path);
        let conn = lift(open_connection(path))?;
        let manager = DbManager { conn };
        if needs_tables(existed) {
            manager.create_tables()?;
        }
        Ok(manager)
    }

    /// Creates an account (`Query::insert_user`). Fails (among other
    /// reasons) when the name is taken, the name being the key of `users`.
    pub fn add_user(&self, username: String, password: String) -> Result<(), DbError> {
        let query = Query::insert_user(username.as_str(), password.as_str());
        lift(execute_sql(&self.conn, &query))?;
        Ok(())
    }

    /// The account with this name and password (`Query::login`, then `login_outcome`).
    pub fn login_user(&self, username: String, password: String) -> Result<User, DbError> {
        let query = Query::login(username.as_str(), password.as_str());
        login_outcome(lift(query_first_row(&self.conn, &query)))
    }

    /// Whether an account with this name exists (`Query::user_lookup`, then `existence`).
    pub fn user_exists(&self, username: String) -> (r: Result<bool, DbError>)
        ensures
            !(r matches Err(DbError::NoRows)),
    {
        let query = Query::user_lookup(username.as_str());
        existence(lift(query_first_row(&self.conn, &query)))
    }

    /// Makes `first` and `second` contacts of each other, unless they
    /// already are (in either order): then the answer is the error
    /// `"Connection exists"`. On success the answer is `Ok(true)`.
    /// (`Query::connection_lookup`, then `Query::insert_connection` when
    /// `needs_insert`, then `connection_outcome`.)
    pub fn add_connection(&self, first: &str, second: &str) -> (r: Result<bool, String>)
        ensures
            r matches Ok(b) ==> b,
    {
        let lookup = Query::connection_lookup(first, second);
        let found = lift(query_first_row(&self.conn, &lookup));
        let inserted = if needs_insert(&found) {
            let insert = Query::insert_connection(first, second);
            Some(lift(execute_sql(&self.conn, &insert)))
        } else {
            None
        };
        connection_outcome(found, inserted)
    }

    /// The contacts of `username`: the first row (if any) of the connections
    /// it started (`Query::contacts_started`), then the first row (if any)
    /// of those started with it (`Query::contacts_joined`).
    pub fn get_connections(&self, username: String) -> (r: Result<Vec<String>, DbError>)
        ensures
            r matches Ok(v) ==> v@.len() <= 2,
            !(r matches Err(DbError::NoRows)),
    {
        let started = Query::contacts_started(username.as_str());
        let acc = contacts_after(Vec::new(), lift(query_first_row(&self.conn, &started)))?;
        let joined = Query::contacts_joined(username.as_str());
        contacts_after(acc, lift(query_first_row(&self.conn, &joined)))
    }

    /// The id of the conversation between `first` and `second` (in either
    /// order), which names its history file (`Query::history_lookup`, then
    /// `history_id_outcome`).
    pub fn history_id(&self, first: &str, second: &str) -> Result<i32, DbError> {
        let query = Query::history_lookup(first, second);
        history_id_outcome(lift(query_first_row(&self.conn, &query)))
    }

    fn create_tables(&self) -> Result<(), DbError> {
        let statements = Query::schema();
        let mut i: usize = 0;
        while i < statements.len()
            invariant
                i <= statements@.len(),
            decreases statements@.len() - i,
        {
            lift(execute_sql(&self.conn, &statements[i]))?;
            i = i + 1;
        }
        Ok(())
    }
}

} // verus!

//! The auxiliary database: one table with one seeded row, opened in memory
//! when the service starts and only read afterwards.

use vstd::prelude::*;

verus! {

/// A connection to the database, as rusqlite holds it.
#[verifier::external_type_specification]
#[verifier::external_body]
pub struct ExConnection(rusqlite::Connection);

/// An error reported by rusqlite.
#[verifier::external_type_specification]
#[verifier::external_body]
pub struct ExSqlError(rusqlite::Error);

/// The step of the database's life that failed.
#[derive(Clone, Copy, Debug, PartialEq, Eq)]
pub enum DbError {
    /// The in-memory database could not be opened.
    Open,
    /// The table could not be created.
    CreateTable,
    /// The seeded row could not be inserted.
    InsertSeed,
    /// The query returned no row, or a row of other types than expected.
    Query,
}

/// The body of the database handler's response. The column `name` of the
/// table goes out under the key `contents`.
#[derive(Clone, Debug, PartialEq, Eq)]
pub struct DbMessage {
    pub id: i64,
    pub contents: String,
}

/// What a `DbMessage` is, mathematically.
pub struct DbMessageView {
    pub id: i64,
    pub contents: Seq<char>,
}

impl View for DbMessage {
    type V = DbMessageView;

    open spec fn view(&self) -> DbMessageView {
        DbMessageView { id: self.id, contents: self.contents@ }
    }
}

/// The statement that creates the table.
pub const CREATE_TABLE: &'static str = "CREATE TABLE entries (
            id      INTEGER PRIMARY KEY,
            name    TEXT NOT NULL
        )";

/// The statement that inserts the seeded row, its two values bound by name.
pub const INSERT_SEED: &'static str = "INSERT INTO entries (id, name) VALUES (:id, :name)";

/// The query of the database handler.
pub const SELECT_ENTRY: &'static str = "SELECT id, name FROM entries";

/// The name under which the id of the seeded row is bound.
pub const ID_KEY: &'static str = ":id";

/// The name under which the name of the seeded row is bound.
pub const NAME_KEY: &'static str = ":name";

/// The id of the seeded row.
pub const SEED_ID: i64 = 0;

/// The text of the statement that creates the table.
pub open spec fn create_table_statement() -> Seq<char> {
    CREATE_TABLE@
}

/// The text of the statement that inserts the seeded row.
pub open spec fn insert_seed_statement() -> Seq<char> {
    INSERT_SEED@
}

/// The text of the query that reads an entry.
pub open spec fn select_entry_statement() -> Seq<char> {
    SELECT_ENTRY@
}

/// The name of the seeded row.
pub open spec fn seed_name() -> Seq<char> {
    "Rocketeer"@
}

/// The response for a row of the table.
pub open spec fn db_message_of(id: i64, name: Seq<char>) -> DbMessageView {
    DbMessageView { id, contents: name }
}

/// Opens a fresh database in memory.
///
/// Trusted: calls `rusqlite::Connection::open_in_memory`. Nothing is claimed
/// of the outcome.
#[verifier::external_body]
fn open_in_memory() -> (r: Result<rusqlite::Connection, rusqlite::Error>) {
    rusqlite::Connection::open_in_memory()
}

/// Runs the statement that creates the table, and no other.
///
/// Trusted: calls `rusqlite::Connection::execute` with the empty parameter
/// list. Nothing is claimed of the outcome, which depends on what the
/// database holds.
#[verifier::external_body]
fn execute(conn: &rusqlite::Connection, sql: &str) -> (r: Result<usize, rusqlite::Error>)
    requires
        sql@ == create_table_statement(),
{
    conn.execute(sql, ())
}

/// Runs the statement that inserts the seeded row, with the id and the name
/// of that row bound under their two names, and no other.
///
/// Trusted: calls `rusqlite::Connection::execute` with the two values bound
/// under the two given names. Nothing is claimed of the outcome, which
/// depends on what the database holds.
#[verifier::external_body]
fn execute_with_entry(
    conn: &rusqlite::Connection,
    sql: &str,
    id_key: &str,
    id: i64,
    name_key: &str,
    name: &str,
) -> (r: Result<usize, rusqlite::Error>)
    requires
        sql@ == insert_seed_statement(),
        id_key@ == ID_KEY@,
        id == SEED_ID,
        name_key@ == NAME_KEY@,
        name@ == seed_name(),
{
    let id_value: &dyn rusqlite::ToSql = &id;
    let name_value: &dyn rusqlite::ToSql = &name;
    conn.execute(sql, &[(id_key, id_value), (name_key, name_value)])
}

/// Runs the query that reads an entry, and no other, and reads the first row
/// it returns as an integer and a text.
///
/// Trusted: calls `rusqlite::Connection::query_row` with the empty parameter
/// list and takes columns 0 and 1 of the row with `Row::get`. Nothing is
/// claimed of the outcome, which depends on what the database holds.
#[verifier::external_body]
fn query_entry(conn: &rusqlite::Connection, sql: &str) -> (r: Result<
    (i64, String),
    rusqlite::Error,
>)
    requires
        sql@ == select_entry_statement(),
{
    conn.query_row(sql, (), |row| Ok((row.get(0)?, row.get(1)?)))
}

/// The name of the seeded row.
pub fn seed_name_text() -> (name: String)
    ensures
        name@ == seed_name(),
{
    "Rocketeer".to_owned()
}

/// The response for a row of the table: the id as it is, the name under
/// `contents`.
pub fn db_message(id: i64, name: String) -> (m: DbMessage)
    ensures
        m@ == db_message_of(id, name@),
{
    DbMessage { id, contents: name }
}

/// What the database handler answers for the outcome of its query: the
/// message of the row, or the query error where there was no such row.
pub fn row_response(row: Result<(i64, String), rusqlite::Error>) -> (r: Result<DbMessage, DbError>)
    ensures
        match row {
            Ok(entry) => r is Ok && r.unwrap()@ == db_message_of(entry.0, entry.1@),
            Err(_) => r == Err::<DbMessage, DbError>(DbError::Query),
        },
{
    match row {
        Ok(entry) => Ok(db_message(entry.0, entry.1)),
        Err(_) => Err(DbError::Query),
    }
}

/// What start-up makes of the outcome of the table statement. Where the
/// table was created start-up goes on to the insert; where it was not,
/// start-up ends here with `CreateTable` and the insert is not run.
pub fn table_outcome(created: Result<usize, rusqlite::Error>) -> (r: Result<(), DbError>)
    ensures
        r == if created is Ok {
            Ok::<(), DbError>(())
        } else {
            Err::<(), DbError>(DbError::CreateTable)
        },
{
    match created {
        Ok(_) => Ok(()),
        Err(_) => Err(DbError::CreateTable),
    }
}

/// What start-up makes of the outcome of the insert: it is done where the
/// row was inserted, and ends with `InsertSeed` where it was not.
pub fn seed_outcome(inserted: Result<usize, rusqlite::Error>) -> (r: Result<(), DbError>)
    ensures
        r == if inserted is Ok {
            Ok::<(), DbError>(())
        } else {
            Err::<(), DbError>(DbError::InsertSeed)
        },
{
    match inserted {
        Ok(_) => Ok(()),
        Err(_) => Err(DbError::InsertSeed),
    }
}

/// Creates the table and inserts the seeded row. Where the table statement
/// fails, as it does on a connection that has the table already, the insert
/// is not run and the error is `CreateTable`.
pub fn init_database(conn: &rusqlite::Connection) -> (r: Result<(), DbError>)
    ensures
        r is Err ==> r == Err::<(), DbError>(DbError::CreateTable) || r == Err::<(), DbError>(
            DbError::InsertSeed,
        ),
{
    match table_outcome(execute(conn, CREATE_TABLE)) {
        Err(e) => Err(e),
        Ok(_) => {
            let name = seed_name_text();
            seed_outcome(
                execute_with_entry(conn, INSERT_SEED, ID_KEY, SEED_ID, NAME_KEY, name.as_str()),
            )
        },
    }
}

/// Opens the database of the service: in memory, with its table and its
/// seeded row.
pub fn open_database() -> (r: Result<rusqlite::Connection, DbError>)
    ensures
        r matches Err(e) ==> e != DbError::Query,
{
    match open_in_memory() {
        Err(_) => Err(DbError::Open),
        Ok(conn) => match init_database(&conn) {
            Err(e) => Err(e),
            Ok(_) => Ok(conn),
        },
    }
}

/// The response of the database handler: the first row of the table, which
/// is the seeded row for as long as nothing else writes to the database.
/// Where the query fails, as it does on a table without a row or with a row
/// of other types, the error is `Query`; the service treats it as fatal.
pub fn get_db(conn: &rusqlite::Connection) -> (r: Result<DbMessage, DbError>)
    ensures
        r matches Err(e) ==> e == DbError::Query,
{
    row_response(query_entry(conn, SELECT_ENTRY))
}

/// Where the query returns the row whose id and name start-up binds to its
/// insert, the handler answers with id 0 and the contents `Rocketeer`.
pub proof fn lemma_seeded_row_answer()
    ensures
        db_message_of(SEED_ID, seed_name()) == (DbMessageView { id: 0, contents: "Rocketeer"@ }),
{
}

} // verus!

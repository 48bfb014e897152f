use message_service::database::{
    db_message, get_db, init_database, open_database, row_response, seed_name_text,
    seed_outcome, table_outcome, DbError, DbMessage, CREATE_TABLE, ID_KEY, INSERT_SEED, NAME_KEY,
    SEED_ID, SELECT_ENTRY,
};

fn rocketeer() -> DbMessage {
    DbMessage { id: 0, contents: "Rocketeer".to_string() }
}

fn sql_error() -> rusqlite::Error {
    rusqlite::Error::QueryReturnedNoRows
}

#[test]
fn database_returns_the_seeded_row() {
    let conn = match open_database() {
        Ok(c) => c,
        Err(e) => panic!("database: {:?}", e),
    };
    assert_eq!(get_db(&conn), Ok(rocketeer()));
}

#[test]
fn database_row_stays_the_same() {
    let conn = match open_database() {
        Ok(c) => c,
        Err(e) => panic!("database: {:?}", e),
    };
    assert_eq!(get_db(&conn), Ok(rocketeer()));
    assert_eq!(get_db(&conn), Ok(rocketeer()));
    assert_eq!(get_db(&conn), Ok(rocketeer()));
}

#[test]
fn query_without_table_fails() {
    let conn = rusqlite::Connection::open_in_memory().expect("in memory db");
    assert_eq!(get_db(&conn), Err(DbError::Query));
}

#[test]
fn query_without_row_fails() {
    let conn = rusqlite::Connection::open_in_memory().expect("in memory db");
    conn.execute("CREATE TABLE entries (id INTEGER PRIMARY KEY, name TEXT NOT NULL)", ())
        .expect("create");
    assert_eq!(get_db(&conn), Err(DbError::Query));
}

#[test]
fn init_on_a_fresh_database_succeeds() {
    let conn = rusqlite::Connection::open_in_memory().expect("in memory db");
    assert_eq!(init_database(&conn), Ok(()));
    assert_eq!(get_db(&conn), Ok(rocketeer()));
}

#[test]
fn init_twice_fails_on_the_table() {
    let conn = rusqlite::Connection::open_in_memory().expect("in memory db");
    assert_eq!(init_database(&conn), Ok(()));
    assert_eq!(init_database(&conn), Err(DbError::CreateTable));
    assert_eq!(get_db(&conn), Ok(rocketeer()));
}

#[test]
fn init_fails_where_the_name_is_taken() {
    let conn = rusqlite::Connection::open_in_memory().expect("in memory db");
    conn.execute("CREATE VIEW entries AS SELECT 1 AS id, 'x' AS name", ()).expect("view");
    assert_eq!(init_database(&conn), Err(DbError::CreateTable));
}

#[test]
fn row_becomes_message() {
    assert_eq!(row_response(Ok((0, "Rocketeer".to_string()))), Ok(rocketeer()));
    let other = DbMessage { id: -3, contents: "x".to_string() };
    assert_eq!(row_response(Ok((-3, "x".to_string()))), Ok(other));
    assert_eq!(row_response(Err(sql_error())), Err(DbError::Query));
}

#[test]
fn name_goes_out_as_contents() {
    let m = db_message(42, "name".to_string());
    assert_eq!(m.id, 42);
    assert_eq!(m.contents, "name");
    assert_eq!(db_message(SEED_ID, seed_name_text()), rocketeer());
}

#[test]
fn start_up_stops_at_a_failed_table_statement() {
    assert_eq!(table_outcome(Ok(0)), Ok(()));
    assert_eq!(table_outcome(Err(sql_error())), Err(DbError::CreateTable));
}

#[test]
fn start_up_fails_on_a_failed_insert() {
    assert_eq!(seed_outcome(Ok(1)), Ok(()));
    assert_eq!(seed_outcome(Err(sql_error())), Err(DbError::InsertSeed));
}

#[test]
fn failed_start_up_inserts_no_second_row() {
    let conn = rusqlite::Connection::open_in_memory().expect("in memory db");
    assert_eq!(init_database(&conn), Ok(()));
    assert_eq!(init_database(&conn), Err(DbError::CreateTable));
    let rows: i64 = conn
        .query_row("SELECT COUNT(*) FROM entries", (), |row| row.get(0))
        .expect("count");
    assert_eq!(rows, 1);
}

#[test]
fn start_up_on_an_empty_table_stops_before_the_insert() {
    let conn = rusqlite::Connection::open_in_memory().expect("in memory db");
    conn.execute(CREATE_TABLE, ()).expect("create");
    assert_eq!(init_database(&conn), Err(DbError::CreateTable));
    assert_eq!(get_db(&conn), Err(DbError::Query));
}

#[test]
fn query_on_a_row_of_other_types_fails() {
    let conn = rusqlite::Connection::open_in_memory().expect("in memory db");
    conn.execute("CREATE TABLE entries (id TEXT, name INTEGER)", ()).expect("create");
    conn.execute("INSERT INTO entries (id, name) VALUES ('zero', 7)", ()).expect("insert");
    assert_eq!(get_db(&conn), Err(DbError::Query));
}

#[test]
fn statements_and_seed_values() {
    assert_eq!(
        CREATE_TABLE,
        "CREATE TABLE entries (
            id      INTEGER PRIMARY KEY,
            name    TEXT NOT NULL
        )"
    );
    assert_eq!(INSERT_SEED, "INSERT INTO entries (id, name) VALUES (:id, :name)");
    assert_eq!(SELECT_ENTRY, "SELECT id, name FROM entries");
    assert_eq!(ID_KEY, ":id");
    assert_eq!(NAME_KEY, ":name");
    assert_eq!(SEED_ID, 0);
    assert_eq!(seed_name_text(), "Rocketeer");
}

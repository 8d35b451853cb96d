//! The part of `rusqlite` that the library uses, with what is trusted of it.
//!
//! What SQLite answers depends on what the database file holds, so the items
//! here promise nothing of the values that come back. The verified code
//! around them hands SQLite statements and parameters that stand in plain
//! sight, and the functions that take an answer as an argument state exactly
//! what the library makes of it.

use vstd::prelude::*;

verus! {

/// `rusqlite::Connection`: a connection to an SQLite database.
#[verifier::external_type_specification]
#[verifier::external_body]
pub struct ExConnection(rusqlite::Connection);

/// `rusqlite::Error`: an error reported by `rusqlite`.
#[verifier::external_type_specification]
#[verifier::external_body]
pub struct ExError(rusqlite::Error);

/// `rusqlite::Row`: a row that a query returned.
#[verifier::external_type_specification]
#[verifier::external_body]
pub struct ExRow<'stmt>(rusqlite::Row<'stmt>);

/// `rusqlite::Statement`: a prepared statement.
#[verifier::external_type_specification]
#[verifier::external_body]
pub struct ExStatement<'conn>(rusqlite::Statement<'conn>);

/// `rusqlite::MappedRows`: the rows of a query, each mapped by `F`.
#[verifier::external_type_specification]
#[verifier::external_body]
#[verifier::reject_recursive_types(F)]
pub struct ExMappedRows<'stmt, F>(rusqlite::MappedRows<'stmt, F>);

/// `Connection::open`: opens the database file at `path`, creating it when
/// it does not exist. Whether that succeeds depends on the disk, so nothing
/// is stated of the result.
#[verifier::external_body]
pub fn open(path: &str) -> (r: Result<rusqlite::Connection, rusqlite::Error>) {
    rusqlite::Connection::open(path)
}

/// `Connection::execute`: runs the statement `sql` with `params`, and gives
/// the number of rows changed. That depends on the database, so nothing is
/// stated of the result.
#[verifier::external_body]
pub fn execute<P: rusqlite::Params>(
    conn: &rusqlite::Connection,
    sql: &str,
    params: P,
) -> (r: Result<usize, rusqlite::Error>) {
    conn.execute(sql, params)
}

/// `Connection::execute_batch`: runs the statements of `sql` in turn.
/// Whether they succeed depends on the database, so nothing is stated of the
/// result.
#[verifier::external_body]
pub fn execute_batch(conn: &rusqlite::Connection, sql: &str) -> (r: Result<(), rusqlite::Error>) {
    conn.execute_batch(sql)
}

/// `Connection::pragma_update`: sets the pragma `name` of the schema
/// `schema_name` (the main one for `None`) to `value`. Whether that succeeds
/// depends on the database, so nothing is stated of the result.
#[verifier::external_body]
pub fn pragma_update<V: rusqlite::ToSql>(
    conn: &rusqlite::Connection,
    schema_name: Option<&str>,
    name: &str,
    value: V,
) -> (r: Result<(), rusqlite::Error>) {
    conn.pragma_update(schema_name, name, value)
}

/// `Connection::last_insert_rowid`: the row id of the latest successful
/// insertion. That depends on the database, so nothing is stated of it.
#[verifier::external_body]
pub fn last_insert_rowid(conn: &rusqlite::Connection) -> (r: i64) {
    conn.last_insert_rowid()
}

/// `Connection::query_row`: runs the query `sql` with `params` and maps its
/// first row with `f`; `Error::QueryReturnedNoRows` when there is no row.
/// The rows depend on the database, so nothing is stated of the result.
#[verifier::external_body]
pub fn query_row<T, P: rusqlite::Params, F: FnOnce(&rusqlite::Row<'_>) -> Result<T, rusqlite::Error>>(
    conn: &rusqlite::Connection,
    sql: &str,
    params: P,
    f: F,
) -> (r: Result<T, rusqlite::Error>) {
    conn.query_row(sql, params, f)
}

/// `Row::get`: the value of the column `idx` of `row`, converted to `T`.
/// The value depends on the database, so nothing is stated of it.
#[verifier::external_body]
pub fn column<T: rusqlite::types::FromSql>(row: &rusqlite::Row<'_>, idx: usize) -> (r: Result<
    T,
    rusqlite::Error,
>) {
    row.get(idx)
}

/// `Connection::prepare`: prepares the statement `sql`. Whether that
/// succeeds depends on the database, so nothing is stated of the result.
#[verifier::external_body]
pub fn prepare<'c>(conn: &'c rusqlite::Connection, sql: &str) -> (r: Result<
    rusqlite::Statement<'c>,
    rusqlite::Error,
>) {
    conn.prepare(sql)
}

/// `Statement::query_map`: runs the prepared query with `params`; its rows
/// come out of the result one by one, each mapped by `f`. The rows depend on
/// the database, so nothing is stated of the result.
#[verifier::external_body]
pub fn query_map<
    's,
    'c,
    T,
    P: rusqlite::Params,
    F: FnMut(&rusqlite::Row<'_>) -> Result<T, rusqlite::Error>,
>(stmt: &'s mut rusqlite::Statement<'c>, params: P, f: F) -> (r: Result<
    rusqlite::MappedRows<'s, F>,
    rusqlite::Error,
>) {
    stmt.query_map(params, f)
}

/// `Iterator::next` of `MappedRows`: the next row mapped, or `None` when no
/// row is left. The rows depend on the database, so nothing is stated of
/// the result.
#[verifier::external_body]
pub fn next_row<'s, T, F: FnMut(&rusqlite::Row<'_>) -> Result<T, rusqlite::Error>>(
    rows: &mut rusqlite::MappedRows<'s, F>,
) -> (r: Option<Result<T, rusqlite::Error>>) {
    rows.next()
}

/// A row id that SQLite reported, with `last_insert_rowid`, after an
/// insertion. Only `inserted_row_id` makes one, so a row id in hand is one
/// that SQLite reported.
pub struct InsertedRowId {
    id: i64,
}

impl InsertedRowId {
    /// The row id reported.
    pub closed spec fn id(self) -> i64 {
        self.id
    }

    /// The row id reported.
    pub fn get(&self) -> (r: i64)
        ensures
            r == self.id(),
    {
        self.id
    }
}

/// The row id that SQLite reports for the latest successful insertion on
/// `conn`, read with `last_insert_rowid`.
pub fn inserted_row_id(conn: &rusqlite::Connection) -> (r: InsertedRowId) {
    InsertedRowId { id: last_insert_rowid(conn) }
}

/// A value read from a row, with the column it was read from. Only the
/// readers below make one, so a value in hand is what SQLite gave for that
/// column.
pub struct ColumnValue<T> {
    column: usize,
    value: T,
}

impl<T> ColumnValue<T> {
    /// The column the value was read from.
    pub closed spec fn column(self) -> usize {
        self.column
    }

    /// The value read.
    pub closed spec fn value(self) -> T {
        self.value
    }

    /// The value read.
    pub fn into_value(self) -> (r: T)
        ensures
            r == self.value(),
    {
        self.value
    }
}

/// Reads the column `idx` of `row` as an `i64`, with `idx`.
pub fn read_i64(row: &rusqlite::Row<'_>, idx: usize) -> (r: Result<ColumnValue<i64>, rusqlite::Error>)
    ensures
        r matches Ok(c) ==> c.column() == idx,
{
    let value: i64 = match column(row, idx) {
        Ok(v) => v,
        Err(e) => return Err(e),
    };
    Ok(ColumnValue { column: idx, value })
}

/// Reads the column `idx` of `row` as an `i32`, with `idx`.
pub fn read_i32(row: &rusqlite::Row<'_>, idx: usize) -> (r: Result<ColumnValue<i32>, rusqlite::Error>)
    ensures
        r matches Ok(c) ==> c.column() == idx,
{
    let value: i32 = match column(row, idx) {
        Ok(v) => v,
        Err(e) => return Err(e),
    };
    Ok(ColumnValue { column: idx, value })
}

/// Reads the column `idx` of `row` as text, with `idx`.
pub fn read_text(row: &rusqlite::Row<'_>, idx: usize) -> (r: Result<ColumnValue<String>, rusqlite::Error>)
    ensures
        r matches Ok(c) ==> c.column() == idx,
{
    let value: String = match column(row, idx) {
        Ok(v) => v,
        Err(e) => return Err(e),
    };
    Ok(ColumnValue { column: idx, value })
}

/// How a query for one row failed.
#[derive(Debug)]
pub enum QueryFailure {
    /// The query returned no row (`Error::QueryReturnedNoRows`).
    NoRows,
    /// Any other error, kept as it is.
    Failed(rusqlite::Error),
}

/// Tells `Error::QueryReturnedNoRows` apart from the other errors of
/// `rusqlite`. The variant of `e` cannot be seen from here, so what is
/// stated is only that any other error is kept unchanged.
#[verifier::external_body]
pub fn classify(e: rusqlite::Error) -> (r: QueryFailure)
    ensures
        r matches QueryFailure::Failed(f) ==> f == e,
{
    match e {
        rusqlite::Error::QueryReturnedNoRows => QueryFailure::NoRows,
        other => QueryFailure::Failed(other),
    }
}

} // verus!

//! Git metadata and Git history of the PDF entries, kept in the database.
//!
//! Each operation hands SQLite one statement, written here, with the
//! operation's arguments as its parameters. What the database answers
//! depends on what it holds; the functions that take an answer as an argument
//! state exactly what the operation returns for it.

use vstd::prelude::*;
use crate::error::CalibreError;
use crate::sqlite;
use crate::sqlite::{ColumnValue, InsertedRowId, QueryFailure};
use rusqlite::Connection;

verus! {

/// Git metadata of a PDF entry, as a row of `git_metadata`.
#[derive(Debug, Clone)]
pub struct GitMetadata {
    pub id: i64,
    pub pdf_entry_id: i64,
    pub commit_hash: String,
    pub blob_hash: String,
}

/// One commit in the Git history of a PDF entry, as a row of `git_history`.
#[derive(Debug, Clone)]
pub struct GitHistoryEntry {
    pub id: i64,
    pub pdf_entry_id: i64,
    pub commit_hash: String,
    pub commit_order: i32,
}

/// The operations on the Git tables of the database.
pub struct GitManager;

pub const INSERT_GIT_METADATA_SQL: &'static str = "INSERT INTO git_metadata (pdf_entry_id, commit_hash, blob_hash)
             VALUES (?1, ?2, ?3)";

pub const SELECT_GIT_METADATA_SQL: &'static str = "SELECT id, pdf_entry_id, commit_hash, blob_hash
             FROM git_metadata
             WHERE pdf_entry_id = ?1";

pub const UPDATE_GIT_METADATA_SQL: &'static str = "UPDATE git_metadata
             SET commit_hash = ?1, blob_hash = ?2
             WHERE pdf_entry_id = ?3";

pub const INSERT_GIT_HISTORY_SQL: &'static str = "INSERT INTO git_history (pdf_entry_id, commit_hash, commit_order)
             VALUES (?1, ?2, ?3)";

pub const SELECT_GIT_HISTORY_SQL: &'static str = "SELECT id, pdf_entry_id, commit_hash, commit_order
             FROM git_history
             WHERE pdf_entry_id = ?1
             ORDER BY commit_order ASC";

pub const DELETE_GIT_HISTORY_SQL: &'static str = "DELETE FROM git_history WHERE pdf_entry_id = ?1";

pub const COUNT_GIT_HISTORY_SQL: &'static str = "SELECT COUNT(*) FROM git_history WHERE pdf_entry_id = ?1";

/// `m` holds, field by field, the values read from the columns that
/// `SELECT_GIT_METADATA_SQL` lists for them: `id`, `pdf_entry_id`,
/// `commit_hash` and `blob_hash`, in that order.
pub open spec fn metadata_read(
    m: GitMetadata,
    id: ColumnValue<i64>,
    pdf_entry_id: ColumnValue<i64>,
    commit_hash: ColumnValue<String>,
    blob_hash: ColumnValue<String>,
) -> bool {
    &&& id.column() == 0 && m.id == id.value()
    &&& pdf_entry_id.column() == 1 && m.pdf_entry_id == pdf_entry_id.value()
    &&& commit_hash.column() == 2 && m.commit_hash == commit_hash.value()
    &&& blob_hash.column() == 3 && m.blob_hash == blob_hash.value()
}

/// `h` holds, field by field, the values read from the columns that
/// `SELECT_GIT_HISTORY_SQL` lists for them: `id`, `pdf_entry_id`,
/// `commit_hash` and `commit_order`, in that order.
pub open spec fn history_read(
    h: GitHistoryEntry,
    id: ColumnValue<i64>,
    pdf_entry_id: ColumnValue<i64>,
    commit_hash: ColumnValue<String>,
    commit_order: ColumnValue<i32>,
) -> bool {
    &&& id.column() == 0 && h.id == id.value()
    &&& pdf_entry_id.column() == 1 && h.pdf_entry_id == pdf_entry_id.value()
    &&& commit_hash.column() == 2 && h.commit_hash == commit_hash.value()
    &&& commit_order.column() == 3 && h.commit_order == commit_order.value()
}

impl GitManager {
    /// What a statement that changes rows returns: `Ok` when SQLite ran it.
    pub fn statement_outcome(ran: Result<usize, rusqlite::Error>) -> (r: Result<(), CalibreError>)
        ensures
            ran is Ok ==> r is Ok,
            ran matches Err(e) ==> (r matches Err(CalibreError::Database(f)) && f == e),
    {
        match ran {
            Ok(_) => Ok(()),
            Err(e) => Err(CalibreError::Database(e)),
        }
    }

    /// What the walk over the rows of the Git history makes of the next row:
    /// `Ok(None)` when no row is left, the entry read, or the error that
    /// ends the walk.
    pub fn history_row_outcome(next: Option<Result<GitHistoryEntry, rusqlite::Error>>) -> (r: Result<
        Option<GitHistoryEntry>,
        CalibreError,
    >)
        ensures
            next is None ==> r == Ok::<Option<GitHistoryEntry>, CalibreError>(None),
            next matches Some(Ok(h)) ==> r == Ok::<Option<GitHistoryEntry>, CalibreError>(Some(h)),
            next matches Some(Err(e)) ==> (r matches Err(CalibreError::Database(f)) && f == e),
    {
        match next {
            None => Ok(None),
            Some(Ok(h)) => Ok(Some(h)),
            Some(Err(e)) => Err(CalibreError::Database(e)),
        }
    }

    /// What a lookup of Git metadata returns: the row found, `None` when
    /// there is no row, or the error.
    pub fn metadata_lookup_outcome(found: Result<GitMetadata, QueryFailure>) -> (r: Result<
        Option<GitMetadata>,
        CalibreError,
    >)
        ensures
            found matches Ok(m) ==> r == Ok::<Option<GitMetadata>, CalibreError>(Some(m)),
            found matches Err(QueryFailure::NoRows) ==> r == Ok::<
                Option<GitMetadata>,
                CalibreError,
            >(None),
            found matches Err(QueryFailure::Failed(e)) ==> (r matches Err(
                CalibreError::Database(f),
            ) && f == e),
    {
        match found {
            Ok(m) => Ok(Some(m)),
            Err(QueryFailure::NoRows) => Ok(None),
            Err(QueryFailure::Failed(e)) => Err(CalibreError::Database(e)),
        }
    }

    /// What a query for one value, or an insertion and its row id, returns:
    /// the value, or the error.
    pub fn value_outcome<T>(found: Result<T, rusqlite::Error>) -> (r: Result<T, CalibreError>)
        ensures
            found matches Ok(v) ==> (r matches Ok(w) && w == v),
            found matches Err(e) ==> (r matches Err(CalibreError::Database(f)) && f == e),
    {
        match found {
            Ok(v) => Ok(v),
            Err(e) => Err(CalibreError::Database(e)),
        }
    }

    /// The columns of a row of `git_metadata` read for `id`, `pdf_entry_id`,
    /// `commit_hash` and `blob_hash`, as `SELECT_GIT_METADATA_SQL` lists them.
    pub fn metadata_columns() -> (r: (usize, usize, usize, usize))
        ensures
            r == (0usize, 1usize, 2usize, 3usize),
    {
        (0, 1, 2, 3)
    }

    /// The columns of a row of `git_history` read for `id`, `pdf_entry_id`,
    /// `commit_hash` and `commit_order`, as `SELECT_GIT_HISTORY_SQL` lists them.
    pub fn history_columns() -> (r: (usize, usize, usize, usize))
        ensures
            r == (0usize, 1usize, 2usize, 3usize),
    {
        (0, 1, 2, 3)
    }

    /// The Git metadata made of the values read from its columns.
    pub fn metadata_from_columns(id: i64, pdf_entry_id: i64, commit_hash: String, blob_hash: String) -> (r:
        GitMetadata)
        ensures
            r.id == id,
            r.pdf_entry_id == pdf_entry_id,
            r.commit_hash == commit_hash,
            r.blob_hash == blob_hash,
    {
        GitMetadata { id, pdf_entry_id, commit_hash, blob_hash }
    }

    /// The history entry made of the values read from its columns.
    pub fn history_entry_from_columns(
        id: i64,
        pdf_entry_id: i64,
        commit_hash: String,
        commit_order: i32,
    ) -> (r: GitHistoryEntry)
        ensures
            r.id == id,
            r.pdf_entry_id == pdf_entry_id,
            r.commit_hash == commit_hash,
            r.commit_order == commit_order,
    {
        GitHistoryEntry { id, pdf_entry_id, commit_hash, commit_order }
    }

    /// The Git metadata made of the values read from the columns that
    /// `SELECT_GIT_METADATA_SQL` lists for its fields.
    pub fn metadata_from_row(
        id: ColumnValue<i64>,
        pdf_entry_id: ColumnValue<i64>,
        commit_hash: ColumnValue<String>,
        blob_hash: ColumnValue<String>,
    ) -> (r: GitMetadata)
        requires
            id.column() == 0,
            pdf_entry_id.column() == 1,
            commit_hash.column() == 2,
            blob_hash.column() == 3,
        ensures
            metadata_read(r, id, pdf_entry_id, commit_hash, blob_hash),
    {
        Self::metadata_from_columns(
            id.into_value(),
            pdf_entry_id.into_value(),
            commit_hash.into_value(),
            blob_hash.into_value(),
        )
    }

    /// The history entry made of the values read from the columns that
    /// `SELECT_GIT_HISTORY_SQL` lists for its fields.
    pub fn history_entry_from_row(
        id: ColumnValue<i64>,
        pdf_entry_id: ColumnValue<i64>,
        commit_hash: ColumnValue<String>,
        commit_order: ColumnValue<i32>,
    ) -> (r: GitHistoryEntry)
        requires
            id.column() == 0,
            pdf_entry_id.column() == 1,
            commit_hash.column() == 2,
            commit_order.column() == 3,
        ensures
            history_read(r, id, pdf_entry_id, commit_hash, commit_order),
    {
        Self::history_entry_from_columns(
            id.into_value(),
            pdf_entry_id.into_value(),
            commit_hash.into_value(),
            commit_order.into_value(),
        )
    }

    /// Reads a row of `git_metadata`: each column given by
    /// `metadata_columns` into its field, the first column that cannot be
    /// read ending it with its error.
    pub fn read_metadata_row(row: &rusqlite::Row<'_>) -> (r: Result<GitMetadata, rusqlite::Error>)
        ensures
            r matches Ok(m) ==> exists|
                id: ColumnValue<i64>,
                pdf_entry_id: ColumnValue<i64>,
                commit_hash: ColumnValue<String>,
                blob_hash: ColumnValue<String>,
            |
                #![trigger id.value(), pdf_entry_id.value(), commit_hash.value(), blob_hash.value()]
                metadata_read(m, id, pdf_entry_id, commit_hash, blob_hash),
    {
        let (id_col, entry_col, commit_col, blob_col) = Self::metadata_columns();
        let id = match sqlite::read_i64(row, id_col) {
            Ok(v) => v,
            Err(e) => return Err(e),
        };
        let pdf_entry_id = match sqlite::read_i64(row, entry_col) {
            Ok(v) => v,
            Err(e) => return Err(e),
        };
        let commit_hash = match sqlite::read_text(row, commit_col) {
            Ok(v) => v,
            Err(e) => return Err(e),
        };
        let blob_hash = match sqlite::read_text(row, blob_col) {
            Ok(v) => v,
            Err(e) => return Err(e),
        };
        let ghost read = (id, pdf_entry_id, commit_hash, blob_hash);
        let m = Self::metadata_from_row(id, pdf_entry_id, commit_hash, blob_hash);
        assert(metadata_read(m, read.0, read.1, read.2, read.3));
        Ok(m)
    }

    /// Reads a row of `git_history`: each column given by `history_columns`
    /// into its field, the first column that cannot be read ending it with
    /// its error.
    pub fn read_history_row(row: &rusqlite::Row<'_>) -> (r: Result<GitHistoryEntry, rusqlite::Error>)
        ensures
            r matches Ok(h) ==> exists|
                id: ColumnValue<i64>,
                pdf_entry_id: ColumnValue<i64>,
                commit_hash: ColumnValue<String>,
                commit_order: ColumnValue<i32>,
            |
                #![trigger id.value(), pdf_entry_id.value(), commit_hash.value(), commit_order.value()]
                history_read(h, id, pdf_entry_id, commit_hash, commit_order),
    {
        let (id_col, entry_col, commit_col, order_col) = Self::history_columns();
        let id = match sqlite::read_i64(row, id_col) {
            Ok(v) => v,
            Err(e) => return Err(e),
        };
        let pdf_entry_id = match sqlite::read_i64(row, entry_col) {
            Ok(v) => v,
            Err(e) => return Err(e),
        };
        let commit_hash = match sqlite::read_text(row, commit_col) {
            Ok(v) => v,
            Err(e) => return Err(e),
        };
        let commit_order = match sqlite::read_i32(row, order_col) {
            Ok(v) => v,
            Err(e) => return Err(e),
        };
        let ghost read = (id, pdf_entry_id, commit_hash, commit_order);
        let h = Self::history_entry_from_row(id, pdf_entry_id, commit_hash, commit_order);
        assert(history_read(h, read.0, read.1, read.2, read.3));
        Ok(h)
    }

    /// The column of a count row that holds the count.
    pub fn count_column() -> (r: usize)
        ensures
            r == 0,
    {
        0
    }

    /// Reads a count, from the column `count_column` gives.
    pub fn read_count(row: &rusqlite::Row<'_>) -> (r: Result<i64, rusqlite::Error>) {
        sqlite::column(row, Self::count_column())
    }

    /// The statement that stores Git metadata, and its parameters.
    pub fn store_metadata_statement<'a>(pdf_entry_id: i64, commit_hash: &'a str, blob_hash: &'a str) -> (r: (
        &'static str,
        (i64, &'a str, &'a str),
    ))
        ensures
            r.0@ == INSERT_GIT_METADATA_SQL@,
            r.1.0 == pdf_entry_id,
            r.1.1@ == commit_hash@,
            r.1.2@ == blob_hash@,
    {
        (INSERT_GIT_METADATA_SQL, (pdf_entry_id, commit_hash, blob_hash))
    }

    /// The query for the Git metadata of a PDF entry, and its parameters.
    pub fn select_metadata_statement(pdf_entry_id: i64) -> (r: (&'static str, (i64,)))
        ensures
            r.0@ == SELECT_GIT_METADATA_SQL@,
            r.1.0 == pdf_entry_id,
    {
        (SELECT_GIT_METADATA_SQL, (pdf_entry_id,))
    }

    /// The statement that replaces the hashes of a PDF entry's Git metadata,
    /// and its parameters.
    pub fn update_metadata_statement<'a>(pdf_entry_id: i64, commit_hash: &'a str, blob_hash: &'a str) -> (r: (
        &'static str,
        (&'a str, &'a str, i64),
    ))
        ensures
            r.0@ == UPDATE_GIT_METADATA_SQL@,
            r.1.0@ == commit_hash@,
            r.1.1@ == blob_hash@,
            r.1.2 == pdf_entry_id,
    {
        (UPDATE_GIT_METADATA_SQL, (commit_hash, blob_hash, pdf_entry_id))
    }

    /// The statement that adds a commit to a Git history, and its parameters.
    pub fn insert_history_statement<'a>(pdf_entry_id: i64, commit_hash: &'a str, commit_order: i32) -> (r: (
        &'static str,
        (i64, &'a str, i32),
    ))
        ensures
            r.0@ == INSERT_GIT_HISTORY_SQL@,
            r.1.0 == pdf_entry_id,
            r.1.1@ == commit_hash@,
            r.1.2 == commit_order,
    {
        (INSERT_GIT_HISTORY_SQL, (pdf_entry_id, commit_hash, commit_order))
    }

    /// The query for the Git history of a PDF entry, and its parameters.
    pub fn select_history_statement(pdf_entry_id: i64) -> (r: (&'static str, (i64,)))
        ensures
            r.0@ == SELECT_GIT_HISTORY_SQL@,
            r.1.0 == pdf_entry_id,
    {
        (SELECT_GIT_HISTORY_SQL, (pdf_entry_id,))
    }

    /// The statement that deletes the Git history of a PDF entry, and its
    /// parameters.
    pub fn delete_history_statement(pdf_entry_id: i64) -> (r: (&'static str, (i64,)))
        ensures
            r.0@ == DELETE_GIT_HISTORY_SQL@,
            r.1.0 == pdf_entry_id,
    {
        (DELETE_GIT_HISTORY_SQL, (pdf_entry_id,))
    }

    /// The query for the size of the Git history of a PDF entry, and its
    /// parameters.
    pub fn count_history_statement(pdf_entry_id: i64) -> (r: (&'static str, (i64,)))
        ensures
            r.0@ == COUNT_GIT_HISTORY_SQL@,
            r.1.0 == pdf_entry_id,
    {
        (COUNT_GIT_HISTORY_SQL, (pdf_entry_id,))
    }

    /// What an insertion returns: the row id that SQLite reports after it,
    /// when it ran.
    pub fn insertion_outcome(ran: Result<usize, rusqlite::Error>, row_id: Option<i64>) -> (r: Result<
        i64,
        CalibreError,
    >)
        requires
            ran is Ok <==> row_id is Some,
        ensures
            ran is Ok ==> r == Ok::<i64, CalibreError>(row_id->0),
            ran matches Err(e) ==> (r matches Err(CalibreError::Database(f)) && f == e),
    {
        match ran {
            Ok(_) => match row_id {
                Some(id) => Ok(id),
                None => Ok(0),
            },
            Err(e) => Err(CalibreError::Database(e)),
        }
    }

    /// What an insertion returns: the row id that SQLite reported after it,
    /// when it ran.
    pub fn inserted_outcome(ran: Result<usize, rusqlite::Error>, row_id: Option<InsertedRowId>) -> (r:
        Result<i64, CalibreError>)
        requires
            ran is Ok <==> row_id is Some,
        ensures
            ran is Ok ==> r == Ok::<i64, CalibreError>(row_id->0.id()),
            ran matches Err(e) ==> (r matches Err(CalibreError::Database(f)) && f == e),
    {
        let reported = match &row_id {
            Some(rid) => Some(rid.get()),
            None => None,
        };
        Self::insertion_outcome(ran, reported)
    }

    /// Stores Git metadata for a PDF entry, with the statement and
    /// parameters of `store_metadata_statement`; returns the row id SQLite
    /// reports for the new row.
    pub fn store_git_metadata(
        conn: &Connection,
        pdf_entry_id: i64,
        commit_hash: &str,
        blob_hash: &str,
    ) -> (result: Result<i64, CalibreError>)
        ensures
            result matches Err(e) ==> e is Database,
            result matches Ok(id) ==> exists|rid: InsertedRowId| #[trigger] rid.id() == id,
    {
        let (sql, params) = Self::store_metadata_statement(pdf_entry_id, commit_hash, blob_hash);
        let ran = sqlite::execute(conn, sql, params);
        let row_id = if ran.is_ok() {
            Some(sqlite::inserted_row_id(conn))
        } else {
            None
        };
        Self::inserted_outcome(ran, row_id)
    }

    /// The Git metadata of a PDF entry, `None` when it has none; the query
    /// is `select_metadata_statement`, its row read by `read_metadata_row`.
    pub fn get_git_metadata(conn: &Connection, pdf_entry_id: i64) -> (result: Result<
        Option<GitMetadata>,
        CalibreError,
    >)
        ensures
            result matches Err(e) ==> e is Database,
    {
        let (sql, params) = Self::select_metadata_statement(pdf_entry_id);
        let found = match sqlite::query_row(conn, sql, params, Self::read_metadata_row) {
            Ok(m) => Ok(m),
            Err(e) => Err(sqlite::classify(e)),
        };
        Self::metadata_lookup_outcome(found)
    }

    /// Replaces the commit hash and blob hash of a PDF entry's Git metadata,
    /// with the statement and parameters of `update_metadata_statement`.
    pub fn update_git_metadata(
        conn: &Connection,
        pdf_entry_id: i64,
        commit_hash: &str,
        blob_hash: &str,
    ) -> (result: Result<(), CalibreError>)
        ensures
            result matches Err(e) ==> e is Database,
    {
        let (sql, params) = Self::update_metadata_statement(pdf_entry_id, commit_hash, blob_hash);
        Self::statement_outcome(sqlite::execute(conn, sql, params))
    }

    /// Adds a commit to the Git history of a PDF entry, at `commit_order`,
    /// with the statement and parameters of `insert_history_statement`;
    /// returns the row id SQLite reports for the new row.
    pub fn add_git_history(
        conn: &Connection,
        pdf_entry_id: i64,
        commit_hash: &str,
        commit_order: i32,
    ) -> (result: Result<i64, CalibreError>)
        ensures
            result matches Err(e) ==> e is Database,
            result matches Ok(id) ==> exists|rid: InsertedRowId| #[trigger] rid.id() == id,
    {
        let (sql, params) = Self::insert_history_statement(pdf_entry_id, commit_hash, commit_order);
        let ran = sqlite::execute(conn, sql, params);
        let row_id = if ran.is_ok() {
            Some(sqlite::inserted_row_id(conn))
        } else {
            None
        };
        Self::inserted_outcome(ran, row_id)
    }

    /// The Git history of a PDF entry, in the order of `commit_order`: the
    /// query is `select_history_statement`, each row read by
    /// `read_history_row` and handled by `history_row_outcome`. The first row
    /// that cannot be read ends it with that error.
    pub fn get_git_history(conn: &Connection, pdf_entry_id: i64) -> (result: Result<
        Vec<GitHistoryEntry>,
        CalibreError,
    >)
        ensures
            result matches Err(e) ==> e is Database,
    {
        let (sql, params) = Self::select_history_statement(pdf_entry_id);
        let mut stmt = match sqlite::prepare(conn, sql) {
            Ok(s) => s,
            Err(e) => return Err(CalibreError::Database(e)),
        };
        let mut rows = match sqlite::query_map(&mut stmt, params, Self::read_history_row) {
            Ok(r) => r,
            Err(e) => return Err(CalibreError::Database(e)),
        };
        let mut result: Vec<GitHistoryEntry> = Vec::new();
        loop
            invariant
                result@.len() <= usize::MAX,
            decreases usize::MAX - result@.len(),
        {
            match Self::history_row_outcome(sqlite::next_row(&mut rows)) {
                Ok(None) => break,
                Ok(Some(entry)) => {
                    result.push(entry);
                    // A vector's length is a `usize`, which bounds the rows taken.
                    let _taken: usize = result.len();
                },
                Err(e) => return Err(e),
            }
        }
        Ok(result)
    }

    /// Deletes the whole Git history of a PDF entry, with the statement and
    /// parameters of `delete_history_statement`.
    pub fn clear_git_history(conn: &Connection, pdf_entry_id: i64) -> (result: Result<(), CalibreError>)
        ensures
            result matches Err(e) ==> e is Database,
    {
        let (sql, params) = Self::delete_history_statement(pdf_entry_id);
        Self::statement_outcome(sqlite::execute(conn, sql, params))
    }

    /// The number of Git history entries of a PDF entry: the query is
    /// `count_history_statement`, its row read by `read_count`.
    pub fn get_history_count(conn: &Connection, pdf_entry_id: i64) -> (result: Result<i64, CalibreError>)
        ensures
            result matches Err(e) ==> e is Database,
    {
        let (sql, params) = Self::count_history_statement(pdf_entry_id);
        Self::value_outcome(sqlite::query_row(conn, sql, params, Self::read_count))
    }
}

} // verus!

//! The schema of the database, and its creation, migration and checks.

use vstd::prelude::*;
use crate::error::CalibreError;
use crate::paths::{join_path, parent_of, path_exists, path_join, path_parent};
use crate::sqlite;
use crate::text::{chars_of, push_char};
use rusqlite::Connection;

verus! {

/// The version of the schema that this library writes.
pub const SCHEMA_VERSION: u32 = 1;

/// The statements that create the schema.
pub const SCHEMA_SQL: &'static str = r#"
-- PDF File Entries Table
CREATE TABLE IF NOT EXISTS pdf_entries (
    id INTEGER PRIMARY KEY AUTOINCREMENT,
    path TEXT NOT NULL UNIQUE,
    book_name TEXT NOT NULL,
    file_size INTEGER NOT NULL,
    created_at TIMESTAMP DEFAULT CURRENT_TIMESTAMP,
    updated_at TIMESTAMP DEFAULT CURRENT_TIMESTAMP
);

-- Git Metadata Table
CREATE TABLE IF NOT EXISTS git_metadata (
    id INTEGER PRIMARY KEY AUTOINCREMENT,
    pdf_entry_id INTEGER NOT NULL UNIQUE,
    commit_hash TEXT NOT NULL,
    blob_hash TEXT NOT NULL,
    created_at TIMESTAMP DEFAULT CURRENT_TIMESTAMP,
    FOREIGN KEY (pdf_entry_id) REFERENCES pdf_entries(id) ON DELETE CASCADE
);

-- Git History Table (many commits per file)
CREATE TABLE IF NOT EXISTS git_history (
    id INTEGER PRIMARY KEY AUTOINCREMENT,
    pdf_entry_id INTEGER NOT NULL,
    commit_hash TEXT NOT NULL,
    commit_order INTEGER NOT NULL,
    created_at TIMESTAMP DEFAULT CURRENT_TIMESTAMP,
    FOREIGN KEY (pdf_entry_id) REFERENCES pdf_entries(id) ON DELETE CASCADE
);

-- Authors Table
CREATE TABLE IF NOT EXISTS authors (
    id INTEGER PRIMARY KEY AUTOINCREMENT,
    name TEXT NOT NULL UNIQUE,
    created_at TIMESTAMP DEFAULT CURRENT_TIMESTAMP
);

-- Books Table
CREATE TABLE IF NOT EXISTS books (
    id INTEGER PRIMARY KEY AUTOINCREMENT,
    pdf_entry_id INTEGER NOT NULL UNIQUE,
    title TEXT NOT NULL,
    author_id INTEGER,
    isbn TEXT,
    description TEXT,
    published_date TEXT,
    created_at TIMESTAMP DEFAULT CURRENT_TIMESTAMP,
    updated_at TIMESTAMP DEFAULT CURRENT_TIMESTAMP,
    FOREIGN KEY (pdf_entry_id) REFERENCES pdf_entries(id) ON DELETE CASCADE,
    FOREIGN KEY (author_id) REFERENCES authors(id) ON DELETE SET NULL
);

-- Tags/Categories Table
CREATE TABLE IF NOT EXISTS tags (
    id INTEGER PRIMARY KEY AUTOINCREMENT,
    name TEXT NOT NULL UNIQUE,
    created_at TIMESTAMP DEFAULT CURRENT_TIMESTAMP
);

-- Book Tags Junction Table
CREATE TABLE IF NOT EXISTS book_tags (
    id INTEGER PRIMARY KEY AUTOINCREMENT,
    book_id INTEGER NOT NULL,
    tag_id INTEGER NOT NULL,
    UNIQUE(book_id, tag_id),
    FOREIGN KEY (book_id) REFERENCES books(id) ON DELETE CASCADE,
    FOREIGN KEY (tag_id) REFERENCES tags(id) ON DELETE CASCADE
);

-- Index for faster lookups
CREATE INDEX IF NOT EXISTS idx_pdf_entries_path ON pdf_entries(path);
CREATE INDEX IF NOT EXISTS idx_pdf_entries_book_name ON pdf_entries(book_name);
CREATE INDEX IF NOT EXISTS idx_git_metadata_pdf_entry ON git_metadata(pdf_entry_id);
CREATE INDEX IF NOT EXISTS idx_git_history_pdf_entry ON git_history(pdf_entry_id);
CREATE INDEX IF NOT EXISTS idx_books_pdf_entry ON books(pdf_entry_id);
CREATE INDEX IF NOT EXISTS idx_books_author ON books(author_id);
CREATE INDEX IF NOT EXISTS idx_book_tags_book ON book_tags(book_id);
CREATE INDEX IF NOT EXISTS idx_book_tags_tag ON book_tags(tag_id);
"#;

/// The query for the names of the tables of the database, in the order they
/// were created; SQLite's own tables, whose names begin with `sqlite_`, are
/// left out.
pub const USER_TABLES_SQL: &'static str =
    r"SELECT name FROM sqlite_master WHERE type = 'table' AND name NOT LIKE 'sqlite\_%' ESCAPE '\'";

/// `name` with each `"` in it doubled.
pub open spec fn doubled_quotes(name: Seq<char>) -> Seq<char>
    decreases name.len(),
{
    if name.len() == 0 {
        Seq::empty()
    } else {
        let c = name.last();
        doubled_quotes(name.drop_last()) + if c == '"' {
            seq!['"', c]
        } else {
            seq![c]
        }
    }
}

/// The start of a statement that drops a table, up to the quote that opens
/// its name.
pub open spec fn drop_table_prefix() -> Seq<char> {
    "DROP TABLE IF EXISTS \""@
}

/// The statement that drops the table `name`.
pub open spec fn drop_table_sql(name: Seq<char>) -> Seq<char> {
    drop_table_prefix() + doubled_quotes(name) + seq!['"']
}

/// The query for the schema version.
pub const USER_VERSION_SQL: &'static str = "PRAGMA user_version";

/// The query for whether a table exists.
pub const TABLE_EXISTS_SQL: &'static str = "SELECT COUNT(*) > 0 FROM sqlite_master WHERE type='table' AND name=?1";

/// The name of the database file when none is given.
pub const DEFAULT_DB_NAME: &'static str = "pdf_library.db";

/// The message for a database file that already exists.
pub open spec fn db_exists_message(path: Seq<char>) -> Seq<char> {
    "Database file already exists at: "@ + path
}

/// The directory to create for a new database file at `path`: its parent,
/// unless it has none or it is empty.
pub open spec fn db_parent_to_create(path: Seq<char>) -> Option<Seq<char>> {
    match path_parent(path) {
        Some(p) => if p.len() > 0 {
            Some(p)
        } else {
            None
        },
        None => None,
    }
}

/// The tables that a complete schema has, in the order they are checked.
pub open spec fn expected_tables() -> Seq<Seq<char>> {
    seq![
        "pdf_entries"@,
        "git_metadata"@,
        "git_history"@,
        "authors"@,
        "books"@,
        "tags"@,
        "book_tags"@,
    ]
}

/// The schema check that answers about the expected tables, in order, give,
/// `remaining` of the tables being still to be found: the first answer that
/// is not `Ok(true)` decides (`Ok(false)` for a table that is missing, its
/// error for a check that failed); when every answer is `Ok(true)`, the
/// schema is complete when all the tables were found.
pub open spec fn schema_verdict(answers: Seq<Result<bool, rusqlite::Error>>, remaining: int) -> Result<
    bool,
    CalibreError,
>
    decreases answers.len(),
{
    if answers.len() == 0 {
        Ok(remaining == 0)
    } else {
        match answers[0] {
            Ok(true) => schema_verdict(answers.drop_first(), remaining - 1),
            Ok(false) => Ok(false),
            Err(e) => Err(CalibreError::Database(e)),
        }
    }
}

/// What is done to the schema of a database file just opened.
pub enum SchemaStep {
    /// The file is new: create the schema.
    Initialize,
    /// The file existed: migrate its schema if it is old.
    CheckAndMigrate,
}

/// Manager for database initialization and schema operations.
pub struct SchemaManager;

impl SchemaManager {
    /// The name of the database file: `db_name`, or `pdf_library.db`.
    pub fn db_file_name<'a>(db_name: Option<&'a str>) -> (r: &'a str)
        ensures
            db_name matches Some(n) ==> r@ == n@,
            db_name is None ==> r@ == DEFAULT_DB_NAME@,
    {
        match db_name {
            Some(n) => n,
            None => DEFAULT_DB_NAME,
        }
    }

    /// The path of the database file `db_name` (or `pdf_library.db`) in the
    /// directory `dir`.
    pub fn db_path_in(dir: &str, db_name: Option<&str>) -> (r: String)
        ensures
            db_name matches Some(n) ==> r@ == path_join(dir@, n@),
            db_name is None ==> r@ == path_join(dir@, DEFAULT_DB_NAME@),
    {
        join_path(dir, Self::db_file_name(db_name))
    }

    /// Whether a database at schema version `current` needs migrating.
    pub fn needs_migration(current: u32) -> (r: bool)
        ensures
            r == (current < SCHEMA_VERSION),
    {
        current < SCHEMA_VERSION
    }

    /// Where a new database file may go: an error when a file exists at
    /// `path`, else the directory to create for it, if any.
    pub fn new_db_location(path: &str, exists: bool) -> (r: Result<Option<String>, CalibreError>)
        ensures
            exists ==> (r matches Err(CalibreError::InvalidPath(m)) && m@ == db_exists_message(
                path@,
            )),
            !exists ==> (r matches Ok(d) && crate::paths::opt_view(d) == db_parent_to_create(
                path@,
            )),
    {
        if exists {
            let mut m = "Database file already exists at: ".to_owned();
            m.append(path);
            return Err(CalibreError::InvalidPath(m));
        }
        match parent_of(path) {
            Some(p) => if p.as_str().is_empty() {
                Ok(None)
            } else {
                Ok(Some(p))
            },
            None => Ok(None),
        }
    }

    /// Checks that no file exists at `path`, and gives the directory to
    /// create before the database file there, if any.
    pub fn prepare_db_location(path: &str) -> (r: Result<Option<String>, CalibreError>)
        ensures
            r matches Ok(d) ==> crate::paths::opt_view(d) == db_parent_to_create(path@),
            r matches Err(e) ==> (e matches CalibreError::InvalidPath(m) && m@
                == db_exists_message(path@)),
    {
        let exists = path_exists(path);
        Self::new_db_location(path, exists)
    }

    /// What opening a database file returns: the connection, or the error.
    pub fn open_outcome(opened: Result<Connection, rusqlite::Error>) -> (r: Result<
        Connection,
        CalibreError,
    >)
        ensures
            opened matches Ok(c) ==> (r matches Ok(d) && d == c),
            opened matches Err(e) ==> (r matches Err(CalibreError::Database(f)) && f == e),
    {
        match opened {
            Ok(c) => Ok(c),
            Err(e) => Err(CalibreError::Database(e)),
        }
    }

    /// What is done to the schema of a database file just opened: created
    /// when the file did not exist before, else checked for migration.
    pub fn schema_step_for(existed: bool) -> (r: SchemaStep)
        ensures
            !existed ==> r is Initialize,
            existed ==> r is CheckAndMigrate,
    {
        if existed {
            SchemaStep::CheckAndMigrate
        } else {
            SchemaStep::Initialize
        }
    }

    /// Opens the database file at `path` and creates the schema in it with
    /// `initialize_schema`.
    pub fn open_new_db(path: &str) -> (r: Result<Connection, CalibreError>)
        ensures
            r matches Err(e) ==> e is Database,
    {
        let conn = Self::open_outcome(sqlite::open(path))?;
        Self::initialize_schema(&conn)?;
        Ok(conn)
    }

    /// Opens the database file at `path` and does to its schema what
    /// `schema_step_for` says.
    pub fn open_db(path: &str, existed: bool) -> (r: Result<Connection, CalibreError>)
        ensures
            r matches Err(e) ==> e is Database,
    {
        let conn = Self::open_outcome(sqlite::open(path))?;
        match Self::schema_step_for(existed) {
            SchemaStep::Initialize => Self::initialize_schema(&conn)?,
            SchemaStep::CheckAndMigrate => Self::check_and_migrate_schema(&conn)?,
        }
        Ok(conn)
    }

    /// What a statement returns: `Ok` when SQLite ran it.
    pub fn batch_outcome(ran: Result<(), rusqlite::Error>) -> (r: Result<(), CalibreError>)
        ensures
            ran is Ok ==> r is Ok,
            ran matches Err(e) ==> (r matches Err(CalibreError::Database(f)) && f == e),
    {
        match ran {
            Ok(()) => Ok(()),
            Err(e) => Err(CalibreError::Database(e)),
        }
    }

    /// The statements that create the schema.
    pub fn schema_statements() -> (r: &'static str)
        ensures
            r@ == SCHEMA_SQL@,
    {
        SCHEMA_SQL
    }

    /// The pragma that records the schema version: the main schema, the
    /// name `user_version` and `SCHEMA_VERSION`.
    pub fn version_pragma() -> (r: (Option<&'static str>, &'static str, u32))
        ensures
            r.0 is None,
            r.1@ == "user_version"@,
            r.2 == SCHEMA_VERSION,
    {
        proof {
            reveal_strlit("user_version");
        }
        (None, "user_version", SCHEMA_VERSION)
    }

    /// Creates the schema with `schema_statements`, then records its version
    /// with `version_pragma`; the first step that fails ends it.
    pub fn initialize_schema(conn: &Connection) -> (r: Result<(), CalibreError>)
        ensures
            r matches Err(e) ==> e is Database,
    {
        Self::batch_outcome(sqlite::execute_batch(conn, Self::schema_statements()))?;
        let (schema_name, name, value) = Self::version_pragma();
        Self::batch_outcome(sqlite::pragma_update(conn, schema_name, name, value))
    }

    /// The column of a row that holds the value read.
    pub fn value_column() -> (r: usize)
        ensures
            r == 0,
    {
        0
    }

    /// Reads a schema version, from the column `value_column` gives.
    pub fn read_version(row: &rusqlite::Row<'_>) -> (r: Result<u32, rusqlite::Error>) {
        sqlite::column(row, Self::value_column())
    }

    /// Reads a truth value, from the column `value_column` gives.
    pub fn read_flag(row: &rusqlite::Row<'_>) -> (r: Result<bool, rusqlite::Error>) {
        sqlite::column(row, Self::value_column())
    }

    /// What the migration check makes of the version read: the version to
    /// migrate from when it is older than `SCHEMA_VERSION`, `None` when it
    /// is not, or the error of the read.
    pub fn migration_outcome(read: Result<u32, CalibreError>) -> (r: Result<Option<u32>, CalibreError>)
        ensures
            read matches Ok(v) ==> r == Ok::<Option<u32>, CalibreError>(
                if v < SCHEMA_VERSION {
                    Some(v)
                } else {
                    None
                },
            ),
            read matches Err(e) ==> (r matches Err(f) && f == e),
    {
        match read {
            Ok(v) => if Self::needs_migration(v) {
                Ok(Some(v))
            } else {
                Ok(None)
            },
            Err(e) => Err(e),
        }
    }

    /// What the migration check does with the version read: migrates from
    /// it when `migration_outcome` says so, which always succeeds, so the
    /// check succeeds exactly when the version was read, and fails with the
    /// error of the read otherwise.
    pub fn migrate_from_read(conn: &Connection, read: Result<u32, CalibreError>) -> (r: Result<
        (),
        CalibreError,
    >)
        ensures
            read is Ok ==> r is Ok,
            read matches Err(e) ==> (r matches Err(f) && f == e),
    {
        match Self::migration_outcome(read) {
            Ok(Some(from_version)) => Self::perform_migrations(conn, from_version),
            Ok(None) => Ok(()),
            Err(e) => Err(e),
        }
    }

    /// Reads the schema version with `get_schema_version`, and hands it to
    /// `migrate_from_read`.
    pub fn check_and_migrate_schema(conn: &Connection) -> (r: Result<(), CalibreError>)
        ensures
            r matches Err(e) ==> e is Database,
    {
        Self::migrate_from_read(conn, Self::get_schema_version(conn))
    }

    /// Migrates the schema from version `from_version`; no version needs a
    /// migration yet.
    pub fn perform_migrations(conn: &Connection, from_version: u32) -> (r: Result<(), CalibreError>)
        ensures
            r is Ok,
    {
        Ok(())
    }

    /// Reads a name, from the column `value_column` gives.
    pub fn read_name(row: &rusqlite::Row<'_>) -> (r: Result<String, rusqlite::Error>) {
        sqlite::column(row, Self::value_column())
    }

    /// The names of the tables of the database, as SQLite lists them for
    /// `USER_TABLES_SQL`, each row read by `read_name`.
    pub fn user_tables(conn: &Connection) -> (r: Result<Vec<String>, CalibreError>)
        ensures
            r matches Err(e) ==> e is Database,
    {
        let mut stmt = match sqlite::prepare(conn, USER_TABLES_SQL) {
            Ok(s) => s,
            Err(e) => return Err(CalibreError::Database(e)),
        };
        let mut rows = match sqlite::query_map(&mut stmt, (), Self::read_name) {
            Ok(r) => r,
            Err(e) => return Err(CalibreError::Database(e)),
        };
        let mut names: Vec<String> = Vec::new();
        loop
            invariant
                names@.len() <= usize::MAX,
            decreases usize::MAX - names@.len(),
        {
            match sqlite::next_row(&mut rows) {
                None => break,
                Some(Ok(name)) => {
                    names.push(name);
                    // A vector's length is a `usize`, which bounds the rows taken.
                    let _taken: usize = names.len();
                },
                Some(Err(e)) => return Err(CalibreError::Database(e)),
            }
        }
        Ok(names)
    }

    /// The statement that drops the table `name`: the name is quoted, each
    /// `"` in it doubled.
    pub fn drop_table_statement(name: &str) -> (r: String)
        ensures
            r@ == drop_table_sql(name@),
    {
        let chars = chars_of(name);
        let mut r = "DROP TABLE IF EXISTS \"".to_owned();
        proof {
            reveal_strlit("DROP TABLE IF EXISTS \"");
        }
        let mut i: usize = 0;
        while i < chars.len()
            invariant
                chars@ == name@,
                i <= chars@.len(),
                r@ == drop_table_prefix() + doubled_quotes(name@.take(i as int)),
            decreases chars@.len() - i,
        {
            let c = chars[i];
            let ghost before = r@;
            proof {
                let next = name@.take(i + 1);
                assert(next.drop_last() == name@.take(i as int));
                assert(next.last() == c);
            }
            if c == '"' {
                push_char(&mut r, '"');
            }
            push_char(&mut r, c);
            proof {
                if c == '"' {
                    assert(r@ == before + seq!['"', c]);
                } else {
                    assert(r@ == before + seq![c]);
                }
            }
            i = i + 1;
        }
        assert(name@.take(chars@.len() as int) == name@);
        push_char(&mut r, '"');
        r
    }

    /// The statements that drop the tables `names`, the table listed last
    /// dropped first, so that a table goes before those it was created after.
    pub fn drop_statements_for(names: &Vec<String>) -> (r: Vec<String>)
        ensures
            r@.len() == names@.len(),
            forall|i: int|
                0 <= i < names@.len() ==> (#[trigger] r@[i])@ == drop_table_sql(
                    names@[names@.len() - 1 - i]@,
                ),
    {
        let mut r: Vec<String> = Vec::new();
        let mut i: usize = names.len();
        while i > 0
            invariant
                i <= names@.len(),
                r@.len() == names@.len() - i,
                forall|j: int|
                    0 <= j < r@.len() ==> (#[trigger] r@[j])@ == drop_table_sql(
                        names@[names@.len() - 1 - j]@,
                    ),
            decreases i,
        {
            i = i - 1;
            r.push(Self::drop_table_statement(names[i].as_str()));
        }
        r
    }

    /// Drops every table of the database, which deletes all its data: the
    /// names come from `user_tables`, the statements from
    /// `drop_statements_for`, run in turn until one fails.
    pub fn drop_all_tables(conn: &Connection) -> (r: Result<(), CalibreError>)
        ensures
            r matches Err(e) ==> e is Database,
    {
        let names = Self::user_tables(conn)?;
        let statements = Self::drop_statements_for(&names);
        let mut i: usize = 0;
        while i < statements.len()
            invariant
                i <= statements@.len(),
            decreases statements@.len() - i,
        {
            Self::batch_outcome(sqlite::execute_batch(conn, statements[i].as_str()))?;
            i = i + 1;
        }
        Ok(())
    }

    /// The query for the schema version, and its parameters (none).
    pub fn version_statement() -> (r: (&'static str, ()))
        ensures
            r.0@ == USER_VERSION_SQL@,
    {
        (USER_VERSION_SQL, ())
    }

    /// The schema version recorded in the database: the query is
    /// `version_statement`, its row read by `read_version`.
    pub fn get_schema_version(conn: &Connection) -> (r: Result<u32, CalibreError>)
        ensures
            r matches Err(e) ==> e is Database,
    {
        let (sql, params) = Self::version_statement();
        Self::version_outcome(sqlite::query_row(conn, sql, params, Self::read_version))
    }

    /// What a query for the schema version returns: the version, or the error.
    pub fn version_outcome(found: Result<u32, rusqlite::Error>) -> (r: Result<u32, CalibreError>)
        ensures
            found matches Ok(v) ==> r == Ok::<u32, CalibreError>(v),
            found matches Err(e) ==> (r matches Err(CalibreError::Database(f)) && f == e),
    {
        match found {
            Ok(v) => Ok(v),
            Err(e) => Err(CalibreError::Database(e)),
        }
    }

    /// The tables that a complete schema has, in the order they are checked.
    pub fn expected_table_names() -> (r: Vec<&'static str>)
        ensures
            r@.map_values(|t: &str| t@) == expected_tables(),
    {
        let r = vec![
            "pdf_entries",
            "git_metadata",
            "git_history",
            "authors",
            "books",
            "tags",
            "book_tags",
        ];
        assert(r@.map_values(|t: &str| t@) =~= expected_tables());
        r
    }

    /// The query for whether the table `table` exists, and its parameters.
    pub fn table_check_statement<'a>(table: &'a str) -> (r: (&'static str, (&'a str,)))
        ensures
            r.0@ == TABLE_EXISTS_SQL@,
            r.1.0@ == table@,
    {
        (TABLE_EXISTS_SQL, (table,))
    }

    /// Asks SQLite, table after table of `expected_table_names`, whether the
    /// table exists (the query of `table_check_statement`, its row read by
    /// `read_flag`), and stops after the first answer that is not `Ok(true)`.
    /// The answers come back in order: all but the last say the table
    /// exists, and fewer than all seven come back only when the last does
    /// not.
    pub fn check_tables(conn: &Connection) -> (answers: Vec<Result<bool, rusqlite::Error>>)
        ensures
            1 <= answers@.len() <= expected_tables().len(),
            forall|j: int| 0 <= j < answers@.len() - 1 ==> #[trigger] answers@[j] == Ok::<
                bool,
                rusqlite::Error,
            >(true),
            answers@.len() < expected_tables().len() ==> answers@.last() != Ok::<
                bool,
                rusqlite::Error,
            >(true),
    {
        let tables = Self::expected_table_names();
        assert(tables@.len() == expected_tables().len()) by {
            assert(tables@.map_values(|t: &str| t@).len() == tables@.len());
        }
        let mut answers: Vec<Result<bool, rusqlite::Error>> = Vec::new();
        let mut i: usize = 0;
        while i < tables.len()
            invariant_except_break
                answers@.len() == i,
                i <= tables@.len(),
                tables@.len() == expected_tables().len(),
                forall|j: int| 0 <= j < answers@.len() ==> #[trigger] answers@[j] == Ok::<
                    bool,
                    rusqlite::Error,
                >(true),
            ensures
                1 <= answers@.len() <= expected_tables().len(),
                forall|j: int| 0 <= j < answers@.len() - 1 ==> #[trigger] answers@[j] == Ok::<
                    bool,
                    rusqlite::Error,
                >(true),
                answers@.len() < expected_tables().len() ==> answers@.last() != Ok::<
                    bool,
                    rusqlite::Error,
                >(true),
            decreases tables@.len() - i,
        {
            let (sql, params) = Self::table_check_statement(tables[i]);
            let answer = sqlite::query_row(conn, sql, params, Self::read_flag);
            let found = match &answer {
                Ok(true) => true,
                _ => false,
            };
            answers.push(answer);
            if !found {
                break;
            }
            i = i + 1;
        }
        answers
    }

    /// Whether every expected table exists, from the answers of
    /// `check_tables`.
    pub fn verify_schema(conn: &Connection) -> (r: Result<bool, CalibreError>)
        ensures
            r matches Err(e) ==> e is Database,
    {
        Self::schema_outcome(Self::check_tables(conn))
    }

    /// What the answers about the expected tables, in order, make of the
    /// schema check: see `schema_verdict`.
    pub fn schema_outcome(answers: Vec<Result<bool, rusqlite::Error>>) -> (r: Result<bool, CalibreError>)
        ensures
            r == schema_verdict(answers@, expected_tables().len() as int),
            r matches Err(e) ==> e is Database,
    {
        let ghost all = answers@;
        let n: usize = answers.len();
        let mut pending = answers;
        let mut found: usize = 0;
        while pending.len() > 0
            invariant
                all == answers@,
                all.len() == n,
                found <= all.len(),
                pending@ == all.skip(found as int),
                schema_verdict(pending@, expected_tables().len() - found) == schema_verdict(
                    all,
                    expected_tables().len() as int,
                ),
            decreases pending@.len(),
        {
            let ghost rest = pending@;
            assert(rest.len() == all.len() - found);
            let answer = pending.remove(0);
            assert(answer == rest[0]);
            assert(pending@ == rest.drop_first());
            assert(all.skip(found + 1) == all.skip(found as int).drop_first());
            match answer {
                Ok(true) => {
                    found = found + 1;
                },
                Ok(false) => {
                    assert(schema_verdict(rest, expected_tables().len() - found) == Ok::<
                        bool,
                        CalibreError,
                    >(false));
                    return Ok(false);
                },
                Err(e) => {
                    return Err(CalibreError::Database(e));
                },
            }
        }
        assert(expected_tables().len() == 7);
        Ok(found == 7)
    }
}

} // verus!

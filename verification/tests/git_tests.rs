use calibre_db::error::CalibreError;
use calibre_db::git::{GitManager, GitMetadata};
use calibre_db::sqlite::{classify, QueryFailure};
use calibre_db::schema::SchemaManager;
use rusqlite::Connection;
use std::path::Path;
use tempfile::TempDir;

/// Creates a new database at `path` as an application does: checks the
/// place, then opens the file and creates the schema.
fn create_db_at(path: &Path) -> Result<Connection, CalibreError> {
    let path = path.to_str().unwrap();
    let parent = SchemaManager::prepare_db_location(path)?;
    if let Some(dir) = parent {
        create_dir_all(Path::new(&dir));
    }
    SchemaManager::open_new_db(path)
}

/// Creates `dir` and the directories above it that are missing.
fn create_dir_all(dir: &Path) {
    if dir.is_dir() {
        return;
    }
    let parent = dir.parent().unwrap();
    create_dir_all(parent);
    let name = dir.file_name().unwrap();
    tempfile::Builder::new()
        .prefix(name)
        .rand_bytes(0)
        .disable_cleanup(true)
        .tempdir_in(parent)
        .unwrap();
}

fn create_test_db() -> (Connection, TempDir) {
    let temp_dir = TempDir::new().unwrap();
    let db_path = temp_dir.path().join("test.db");
    let conn = create_db_at(&db_path).unwrap();
    (conn, temp_dir)
}

fn insert_pdf_entry(conn: &Connection) -> i64 {
    conn.execute(
        "INSERT INTO pdf_entries (path, book_name, file_size) VALUES (?1, ?2, ?3)",
        ("/test/file.pdf", "Test Book", 1024),
    )
    .unwrap();
    conn.last_insert_rowid()
}

#[test]
fn test_store_and_get_git_metadata() {
    let (conn, _temp) = create_test_db();

    // Create a PDF entry first
    let pdf_entry_id = insert_pdf_entry(&conn);

    // Store git metadata
    let metadata_id =
        GitManager::store_git_metadata(&conn, pdf_entry_id, "abc123", "def456").unwrap();

    assert!(metadata_id > 0);

    // Retrieve and verify
    let metadata = GitManager::get_git_metadata(&conn, pdf_entry_id)
        .unwrap()
        .unwrap();

    assert_eq!(metadata.pdf_entry_id, pdf_entry_id);
    assert_eq!(metadata.commit_hash, "abc123");
    assert_eq!(metadata.blob_hash, "def456");
}

#[test]
fn test_add_and_get_git_history() {
    let (conn, _temp) = create_test_db();

    // Create a PDF entry first
    let pdf_entry_id = insert_pdf_entry(&conn);

    // Add multiple history entries
    GitManager::add_git_history(&conn, pdf_entry_id, "commit1", 1).unwrap();
    GitManager::add_git_history(&conn, pdf_entry_id, "commit2", 2).unwrap();
    GitManager::add_git_history(&conn, pdf_entry_id, "commit3", 3).unwrap();

    // Retrieve history
    let history = GitManager::get_git_history(&conn, pdf_entry_id).unwrap();

    assert_eq!(history.len(), 3);
    assert_eq!(history[0].commit_hash, "commit1");
    assert_eq!(history[1].commit_hash, "commit2");
    assert_eq!(history[2].commit_hash, "commit3");
}

#[test]
fn test_clear_git_history() {
    let (conn, _temp) = create_test_db();

    // Create a PDF entry
    let pdf_entry_id = insert_pdf_entry(&conn);

    // Add history
    GitManager::add_git_history(&conn, pdf_entry_id, "commit1", 1).unwrap();
    GitManager::add_git_history(&conn, pdf_entry_id, "commit2", 2).unwrap();

    let count = GitManager::get_history_count(&conn, pdf_entry_id).unwrap();
    assert_eq!(count, 2);

    // Clear history
    GitManager::clear_git_history(&conn, pdf_entry_id).unwrap();

    let count = GitManager::get_history_count(&conn, pdf_entry_id).unwrap();
    assert_eq!(count, 0);
}

#[test]
fn metadata_of_an_entry_without_any_is_none() {
    let (conn, _temp) = create_test_db();
    let pdf_entry_id = insert_pdf_entry(&conn);
    assert!(GitManager::get_git_metadata(&conn, pdf_entry_id).unwrap().is_none());
}

#[test]
fn update_replaces_both_hashes() {
    let (conn, _temp) = create_test_db();
    let pdf_entry_id = insert_pdf_entry(&conn);
    GitManager::store_git_metadata(&conn, pdf_entry_id, "abc123", "def456").unwrap();
    GitManager::update_git_metadata(&conn, pdf_entry_id, "fff000", "eee111").unwrap();
    let metadata = GitManager::get_git_metadata(&conn, pdf_entry_id).unwrap().unwrap();
    assert_eq!(metadata.commit_hash, "fff000");
    assert_eq!(metadata.blob_hash, "eee111");
}

#[test]
fn history_comes_back_in_commit_order() {
    let (conn, _temp) = create_test_db();
    let pdf_entry_id = insert_pdf_entry(&conn);
    GitManager::add_git_history(&conn, pdf_entry_id, "third", 3).unwrap();
    GitManager::add_git_history(&conn, pdf_entry_id, "first", 1).unwrap();
    GitManager::add_git_history(&conn, pdf_entry_id, "second", 2).unwrap();
    let history = GitManager::get_git_history(&conn, pdf_entry_id).unwrap();
    let hashes: Vec<&str> = history.iter().map(|h| h.commit_hash.as_str()).collect();
    assert_eq!(hashes, vec!["first", "second", "third"]);
    let orders: Vec<i32> = history.iter().map(|h| h.commit_order).collect();
    assert_eq!(orders, vec![1, 2, 3]);
}

#[test]
fn storing_metadata_twice_for_an_entry_is_a_database_error() {
    let (conn, _temp) = create_test_db();
    let pdf_entry_id = insert_pdf_entry(&conn);
    GitManager::store_git_metadata(&conn, pdf_entry_id, "abc123", "def456").unwrap();
    let second = GitManager::store_git_metadata(&conn, pdf_entry_id, "abc123", "def456");
    assert!(matches!(second, Err(CalibreError::Database(_))));
}

#[test]
fn operations_on_a_database_without_schema_fail_with_database_errors() {
    let conn = Connection::open_in_memory().unwrap();
    assert!(matches!(GitManager::get_git_metadata(&conn, 1), Err(CalibreError::Database(_))));
    assert!(matches!(GitManager::get_git_history(&conn, 1), Err(CalibreError::Database(_))));
    assert!(matches!(GitManager::get_history_count(&conn, 1), Err(CalibreError::Database(_))));
    assert!(matches!(GitManager::clear_git_history(&conn, 1), Err(CalibreError::Database(_))));
    assert!(matches!(
        GitManager::add_git_history(&conn, 1, "c", 1),
        Err(CalibreError::Database(_))
    ));
}

#[test]
fn statement_and_value_outcomes() {
    assert!(GitManager::statement_outcome(Ok(3)).is_ok());
    assert!(matches!(
        GitManager::statement_outcome(Err(rusqlite::Error::QueryReturnedNoRows)),
        Err(CalibreError::Database(rusqlite::Error::QueryReturnedNoRows))
    ));
    assert!(matches!(
        GitManager::value_outcome::<i64>(Err(rusqlite::Error::InvalidQuery)),
        Err(CalibreError::Database(rusqlite::Error::InvalidQuery))
    ));
    assert_eq!(GitManager::value_outcome::<i64>(Ok(7)).unwrap(), 7);
}

#[test]
fn lookup_outcome_of_each_answer() {
    let row = GitMetadata {
        id: 5,
        pdf_entry_id: 9,
        commit_hash: "abc".to_string(),
        blob_hash: "def".to_string(),
    };
    let found = GitManager::metadata_lookup_outcome(Ok(row)).unwrap().unwrap();
    assert_eq!(found.id, 5);
    assert_eq!(found.pdf_entry_id, 9);
    assert_eq!(found.commit_hash, "abc");
    assert_eq!(found.blob_hash, "def");
    assert!(GitManager::metadata_lookup_outcome(Err(QueryFailure::NoRows)).unwrap().is_none());
    assert!(matches!(
        GitManager::metadata_lookup_outcome(Err(QueryFailure::Failed(rusqlite::Error::InvalidQuery))),
        Err(CalibreError::Database(rusqlite::Error::InvalidQuery))
    ));
    assert!(matches!(classify(rusqlite::Error::QueryReturnedNoRows), QueryFailure::NoRows));
    assert!(matches!(
        classify(rusqlite::Error::InvalidQuery),
        QueryFailure::Failed(rusqlite::Error::InvalidQuery)
    ));
}

#[test]
fn history_row_outcomes() {
    assert!(GitManager::history_row_outcome(None).unwrap().is_none());
    let entry = calibre_db::git::GitHistoryEntry {
        id: 1,
        pdf_entry_id: 2,
        commit_hash: "c".to_string(),
        commit_order: 3,
    };
    let got = GitManager::history_row_outcome(Some(Ok(entry))).unwrap().unwrap();
    assert_eq!((got.id, got.pdf_entry_id, got.commit_hash.as_str(), got.commit_order), (1, 2, "c", 3));
    assert!(matches!(
        GitManager::history_row_outcome(Some(Err(rusqlite::Error::InvalidQuery))),
        Err(CalibreError::Database(rusqlite::Error::InvalidQuery))
    ));
}

#[test]
fn statements_and_columns() {
    let (sql, (id, commit, blob)) = GitManager::store_metadata_statement(4, "c1", "b1");
    assert_eq!((sql, id, commit, blob), (calibre_db::git::INSERT_GIT_METADATA_SQL, 4, "c1", "b1"));
    let (sql, (commit, blob, id)) = GitManager::update_metadata_statement(4, "c1", "b1");
    assert_eq!((sql, commit, blob, id), (calibre_db::git::UPDATE_GIT_METADATA_SQL, "c1", "b1", 4));
    let (sql, (id, commit, order)) = GitManager::insert_history_statement(4, "c1", 9);
    assert_eq!((sql, id, commit, order), (calibre_db::git::INSERT_GIT_HISTORY_SQL, 4, "c1", 9));
    assert_eq!(GitManager::select_metadata_statement(4), (calibre_db::git::SELECT_GIT_METADATA_SQL, (4,)));
    assert_eq!(GitManager::select_history_statement(4), (calibre_db::git::SELECT_GIT_HISTORY_SQL, (4,)));
    assert_eq!(GitManager::delete_history_statement(4), (calibre_db::git::DELETE_GIT_HISTORY_SQL, (4,)));
    assert_eq!(GitManager::count_history_statement(4), (calibre_db::git::COUNT_GIT_HISTORY_SQL, (4,)));
    assert_eq!(GitManager::metadata_columns(), (0, 1, 2, 3));
    assert_eq!(GitManager::history_columns(), (0, 1, 2, 3));
    assert_eq!(GitManager::count_column(), 0);
    let m = GitManager::metadata_from_columns(1, 2, "c".to_string(), "b".to_string());
    assert_eq!((m.id, m.pdf_entry_id, m.commit_hash.as_str(), m.blob_hash.as_str()), (1, 2, "c", "b"));
    let h = GitManager::history_entry_from_columns(1, 2, "c".to_string(), 3);
    assert_eq!((h.id, h.pdf_entry_id, h.commit_hash.as_str(), h.commit_order), (1, 2, "c", 3));
    assert_eq!(GitManager::insertion_outcome(Ok(1), Some(42)).unwrap(), 42);
    assert!(matches!(
        GitManager::insertion_outcome(Err(rusqlite::Error::InvalidQuery), None),
        Err(CalibreError::Database(rusqlite::Error::InvalidQuery))
    ));
}

#[test]
fn stored_hashes_are_read_back_from_their_own_columns() {
    let (conn, _temp) = create_test_db();
    let pdf_entry_id = insert_pdf_entry(&conn);
    GitManager::store_git_metadata(&conn, pdf_entry_id, "commit-x", "blob-y").unwrap();
    GitManager::update_git_metadata(&conn, pdf_entry_id, "commit-z", "blob-w").unwrap();
    let m = GitManager::get_git_metadata(&conn, pdf_entry_id).unwrap().unwrap();
    assert_eq!(m.commit_hash, "commit-z");
    assert_eq!(m.blob_hash, "blob-w");
}

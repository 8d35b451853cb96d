use calibre_db::error::CalibreError;
use calibre_db::schema::{SchemaManager, SCHEMA_VERSION};
use rusqlite::Connection;
use std::path::Path;
use tempfile::TempDir;

/// Creates a new database at `path` as an application does: checks the
/// place, then opens the file and creates the schema.
fn create_db_at(path: &Path) -> Result<Connection, CalibreError> {
    let path = path.to_str().unwrap();
    let parent = SchemaManager::prepare_db_location(path)?;
    if let Some(dir) = parent {
        create_dir_all(Path::new(&dir));
    }
    SchemaManager::open_new_db(path)
}

/// Creates `dir` and the directories above it that are missing.
fn create_dir_all(dir: &Path) {
    if dir.is_dir() {
        return;
    }
    let parent = dir.parent().unwrap();
    create_dir_all(parent);
    let name = dir.file_name().unwrap();
    tempfile::Builder::new()
        .prefix(name)
        .rand_bytes(0)
        .disable_cleanup(true)
        .tempdir_in(parent)
        .unwrap();
}

#[test]
fn test_create_db_at_new_location() {
    let temp_dir = TempDir::new().unwrap();
    let db_path = temp_dir.path().join("test.db");

    let conn = create_db_at(&db_path).unwrap();
    assert!(db_path.exists());

    let version = SchemaManager::get_schema_version(&conn).unwrap();
    assert_eq!(version, SCHEMA_VERSION);

    let schema_valid = SchemaManager::verify_schema(&conn).unwrap();
    assert!(schema_valid);
}

#[test]
fn test_create_db_existing_file() {
    let temp_dir = TempDir::new().unwrap();
    let db_path = temp_dir.path().join("test.db");

    // Create first database
    create_db_at(&db_path).unwrap();

    // Attempt to create at same path should fail
    let result = create_db_at(&db_path);
    assert!(result.is_err());
}

#[test]
fn test_verify_schema() {
    let temp_dir = TempDir::new().unwrap();
    let db_path = temp_dir.path().join("test.db");

    let conn = create_db_at(&db_path).unwrap();
    let schema_valid = SchemaManager::verify_schema(&conn).unwrap();
    assert!(schema_valid);
}

#[test]
fn existing_file_is_refused_with_its_path() {
    let temp_dir = TempDir::new().unwrap();
    let db_path = temp_dir.path().join("test.db");
    create_db_at(&db_path).unwrap();
    let p = db_path.to_str().unwrap();
    match SchemaManager::prepare_db_location(p) {
        Err(CalibreError::InvalidPath(m)) => {
            assert_eq!(m, format!("Database file already exists at: {}", p))
        }
        _ => panic!("expected InvalidPath"),
    }
}

#[test]
fn new_location_gives_the_parent_to_create() {
    assert_eq!(
        SchemaManager::new_db_location("/a/b/test.db", false).unwrap(),
        Some("/a/b".to_string())
    );
    assert_eq!(SchemaManager::new_db_location("test.db", false).unwrap(), None);
    assert!(matches!(
        SchemaManager::new_db_location("x.db", true),
        Err(CalibreError::InvalidPath(m)) if m == "Database file already exists at: x.db"
    ));
}

#[test]
fn drop_all_tables_leaves_an_incomplete_schema() {
    let temp_dir = TempDir::new().unwrap();
    let db_path = temp_dir.path().join("test.db");
    let conn = create_db_at(&db_path).unwrap();
    SchemaManager::drop_all_tables(&conn).unwrap();
    assert!(!SchemaManager::verify_schema(&conn).unwrap());
}

#[test]
fn drop_all_tables_drops_every_table() {
    let temp_dir = TempDir::new().unwrap();
    let db_path = temp_dir.path().join("test.db");
    let conn = create_db_at(&db_path).unwrap();
    conn.execute_batch("CREATE TABLE notes (id INTEGER); CREATE TABLE \"odd \"\"name\" (x TEXT); INSERT INTO notes VALUES (1);").unwrap();
    conn.execute_batch("INSERT INTO pdf_entries (path, book_name, file_size) VALUES ('/a.pdf', 'a', 1);").unwrap();
    let tables = SchemaManager::user_tables(&conn).unwrap();
    assert_eq!(
        tables,
        vec!["pdf_entries", "git_metadata", "git_history", "authors", "books", "tags", "book_tags", "notes", "odd \"name"]
    );
    SchemaManager::drop_all_tables(&conn).unwrap();
    assert!(SchemaManager::user_tables(&conn).unwrap().is_empty());
    assert!(!SchemaManager::verify_schema(&conn).unwrap());
    SchemaManager::drop_all_tables(&conn).unwrap();
}

#[test]
fn tables_are_dropped_last_created_first() {
    let names = vec!["a".to_string(), "b".to_string(), "c".to_string()];
    assert_eq!(
        SchemaManager::drop_statements_for(&names),
        vec![
            "DROP TABLE IF EXISTS \"c\"".to_string(),
            "DROP TABLE IF EXISTS \"b\"".to_string(),
            "DROP TABLE IF EXISTS \"a\"".to_string(),
        ]
    );
    assert!(SchemaManager::drop_statements_for(&Vec::new()).is_empty());
}

#[test]
fn an_empty_database_has_version_zero_and_no_schema() {
    let conn = Connection::open_in_memory().unwrap();
    assert_eq!(SchemaManager::get_schema_version(&conn).unwrap(), 0);
    assert!(!SchemaManager::verify_schema(&conn).unwrap());
    SchemaManager::check_and_migrate_schema(&conn).unwrap();
    SchemaManager::initialize_schema(&conn).unwrap();
    assert_eq!(SchemaManager::get_schema_version(&conn).unwrap(), SCHEMA_VERSION);
    assert!(SchemaManager::verify_schema(&conn).unwrap());
}

#[test]
fn open_db_creates_or_keeps_the_schema() {
    let temp_dir = TempDir::new().unwrap();
    let db_path = temp_dir.path().join("lib.db");
    let p = db_path.to_str().unwrap();
    let conn = SchemaManager::open_db(p, false).unwrap();
    assert!(SchemaManager::verify_schema(&conn).unwrap());
    drop(conn);
    let conn = SchemaManager::open_db(p, true).unwrap();
    assert_eq!(SchemaManager::get_schema_version(&conn).unwrap(), SCHEMA_VERSION);
}

#[test]
fn migration_is_needed_below_the_current_version_only() {
    assert!(SchemaManager::needs_migration(0));
    assert!(!SchemaManager::needs_migration(1));
    assert!(!SchemaManager::needs_migration(7));
    let conn = Connection::open_in_memory().unwrap();
    assert!(SchemaManager::perform_migrations(&conn, 0).is_ok());
}

#[test]
fn default_file_name() {
    assert_eq!(SchemaManager::db_file_name(None), "pdf_library.db");
    assert_eq!(SchemaManager::db_file_name(Some("books.db")), "books.db");
}

#[test]
fn expected_tables_in_order() {
    assert_eq!(
        SchemaManager::expected_table_names(),
        vec!["pdf_entries", "git_metadata", "git_history", "authors", "books", "tags", "book_tags"]
    );
}

#[test]
fn schema_outcomes() {
    assert!(SchemaManager::schema_outcome((0..7).map(|_| Ok(true)).collect()).unwrap());
    assert!(!SchemaManager::schema_outcome((0..6).map(|_| Ok(true)).collect()).unwrap());
    assert!(!SchemaManager::schema_outcome(vec![Ok(true), Ok(false)]).unwrap());
    assert!(!SchemaManager::schema_outcome(vec![Ok(true), Ok(false), Err(rusqlite::Error::InvalidQuery)]).unwrap());
    assert!(matches!(
        SchemaManager::schema_outcome(vec![Ok(true), Err(rusqlite::Error::InvalidQuery)]),
        Err(CalibreError::Database(rusqlite::Error::InvalidQuery))
    ));
    assert!(!SchemaManager::schema_outcome(vec![]).unwrap());
}

#[test]
fn table_checks_stop_at_the_first_missing_table() {
    let conn = Connection::open_in_memory().unwrap();
    conn.execute_batch("CREATE TABLE pdf_entries (id INTEGER); CREATE TABLE git_metadata (id INTEGER);").unwrap();
    let answers = SchemaManager::check_tables(&conn);
    assert_eq!(answers.len(), 3);
    assert!(matches!(answers[0], Ok(true)));
    assert!(matches!(answers[1], Ok(true)));
    assert!(matches!(answers[2], Ok(false)));
    assert!(!SchemaManager::verify_schema(&conn).unwrap());
}

#[test]
fn statements_and_steps() {
    assert_eq!(SchemaManager::schema_statements(), calibre_db::schema::SCHEMA_SQL);
    assert_eq!(SchemaManager::drop_table_statement("books"), "DROP TABLE IF EXISTS \"books\"");
    assert_eq!(SchemaManager::drop_table_statement("a\"b"), "DROP TABLE IF EXISTS \"a\"\"b\"");
    assert_eq!(SchemaManager::drop_table_statement(""), "DROP TABLE IF EXISTS \"\"");
    assert_eq!(SchemaManager::version_pragma(), (None, "user_version", SCHEMA_VERSION));
    assert_eq!(SchemaManager::version_statement().0, "PRAGMA user_version");
    let (sql, (table,)) = SchemaManager::table_check_statement("books");
    assert_eq!(sql, calibre_db::schema::TABLE_EXISTS_SQL);
    assert_eq!(table, "books");
    assert_eq!(SchemaManager::value_column(), 0);
    assert!(matches!(SchemaManager::schema_step_for(false), calibre_db::schema::SchemaStep::Initialize));
    assert!(matches!(SchemaManager::schema_step_for(true), calibre_db::schema::SchemaStep::CheckAndMigrate));
    assert_eq!(SchemaManager::migration_outcome(Ok(0)).unwrap(), Some(0));
    assert_eq!(SchemaManager::migration_outcome(Ok(1)).unwrap(), None);
    assert!(matches!(
        SchemaManager::migration_outcome(Err(CalibreError::Io("x".to_string()))),
        Err(CalibreError::Io(m)) if m == "x"
    ));
}

#[test]
fn migration_check_follows_the_version_read() {
    let conn = Connection::open_in_memory().unwrap();
    assert!(SchemaManager::migrate_from_read(&conn, Ok(0)).is_ok());
    assert!(SchemaManager::migrate_from_read(&conn, Ok(1)).is_ok());
    assert!(matches!(
        SchemaManager::migrate_from_read(&conn, Err(CalibreError::Io("x".to_string()))),
        Err(CalibreError::Io(m)) if m == "x"
    ));
}

#[test]
fn database_path_in_a_directory() {
    assert_eq!(SchemaManager::db_path_in("/work", None), "/work/pdf_library.db");
    assert_eq!(SchemaManager::db_path_in("/work", Some("b.db")), "/work/b.db");
}

#[test]
fn create_db_in_missing_directories() {
    let temp_dir = TempDir::new().unwrap();
    let db_path = temp_dir.path().join("a").join("b").join("test.db");
    let conn = create_db_at(&db_path).unwrap();
    assert!(db_path.exists());
    assert!(SchemaManager::verify_schema(&conn).unwrap());
}

#[test]
fn opening_in_a_missing_directory_fails() {
    let temp_dir = TempDir::new().unwrap();
    let db_path = temp_dir.path().join("missing").join("test.db");
    let result = SchemaManager::open_new_db(db_path.to_str().unwrap());
    assert!(matches!(result, Err(CalibreError::Database(_))));
}

#[test]
fn version_outcomes() {
    assert_eq!(SchemaManager::version_outcome(Ok(4)).unwrap(), 4);
    assert!(matches!(
        SchemaManager::version_outcome(Err(rusqlite::Error::InvalidQuery)),
        Err(CalibreError::Database(rusqlite::Error::InvalidQuery))
    ));
}

//! A catalogue of PDF books kept in SQLite: the scanner that finds the PDF
//! files of a directory tree together with their Git metadata, the schema of
//! the database, and the tables that record Git metadata and history.

pub mod error;
pub mod sqlite;
pub mod git;
pub mod text;
pub mod paths;
pub mod scan;
pub mod schema;

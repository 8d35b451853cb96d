//! Errors of the library.

use vstd::prelude::*;

verus! {

/// What went wrong in an operation of the library.
#[derive(Debug)]
pub enum CalibreError {
    /// A path that does not name what the operation needs, or an answer of
    /// Git that does not name a commit or a blob; the message says which.
    InvalidPath(String),
    /// An error reported by SQLite.
    Database(rusqlite::Error),
    /// An input/output failure outside the database, with its message.
    Io(String),
    /// Bytes that were expected to be UTF-8 text and are not.
    InvalidUtf8(Vec<u8>),
}

} // verus!

# calibre_db

A catalogue of PDF books kept in SQLite, verified with Verus.

- `src/scan.rs`: the scanner. It decides which directory a depth-first walk
  lists next and which files are PDF files, finds the Git repository of a
  file, says which Git command a metadata lookup runs next and reads what
  Git prints (hashes and history). The laws prove that the repository
  chosen is the nearest directory whose look found `.git`, that a metadata
  lookup ends in metadata exactly when its three Git commands give what it
  reads, and that a walk finds exactly the PDF files of a directory tree, in
  depth-first order, and that it ends.
- `src/git.rs`: the Git metadata and Git history tables: the statement and
  parameters each operation hands SQLite, and what it makes of the answer.
- `src/schema.rs`: the schema, its creation, migration and checks, and the
  dropping of every table.
- `src/text.rs`: UTF-8 decoding, Unicode white space, trimming, lines, and
  ASCII case-insensitive comparison.
- `src/paths.rs`: what `std::path` computes of paths held as text, and the
  probes of the disk.
- `src/sqlite.rs`: the part of `rusqlite` in use, with what is trusted of it.
- `app/`: reading directories and file sizes, running the Git commands the
  library asks for, and creating database files on disk.

use calibre_db::error::CalibreError;
use calibre_db::scan::{DirEntryInfo, EntryKind, GitAction, GitMetadataState, GitOutput, GitRootProbe, GitRootStep, PdfScanner};
use tempfile::TempDir;

#[test]
fn test_pdf_scanner_invalid_directory() {
    let result = PdfScanner::new("/nonexistent/path");
    assert!(result.is_err());
}

#[test]
fn scanner_errors_name_the_path() {
    match PdfScanner::new("/nonexistent/path") {
        Err(CalibreError::InvalidPath(m)) => assert_eq!(m, "Directory not found: /nonexistent/path"),
        _ => panic!("expected InvalidPath"),
    }
    match PdfScanner::from_probe("/some/file.txt", true, false) {
        Err(CalibreError::InvalidPath(m)) => assert_eq!(m, "Path is not a directory: /some/file.txt"),
        _ => panic!("expected InvalidPath"),
    }
    match PdfScanner::from_probe("/x", false, false) {
        Err(CalibreError::InvalidPath(m)) => assert_eq!(m, "Directory not found: /x"),
        _ => panic!("expected InvalidPath"),
    }
}

#[test]
fn scanner_of_an_existing_directory() {
    let temp_dir = TempDir::new().unwrap();
    let root = temp_dir.path().to_str().unwrap();
    let scanner = PdfScanner::new(root).unwrap();
    assert_eq!(scanner.root_dir(), root);
    let scanner = PdfScanner::from_probe("/books", true, true).unwrap();
    assert_eq!(scanner.root_dir(), "/books");
}

#[test]
fn pdf_files_by_extension_in_any_case() {
    assert!(PdfScanner::is_pdf_file("/books/a.pdf"));
    assert!(PdfScanner::is_pdf_file("/books/a.PDF"));
    assert!(PdfScanner::is_pdf_file("b.PdF"));
    assert!(!PdfScanner::is_pdf_file("/books/a.pdf.txt"));
    assert!(!PdfScanner::is_pdf_file("/books/pdf"));
    assert!(!PdfScanner::is_pdf_file("/books/.pdf"));
    assert!(!PdfScanner::is_pdf_file("/books/a.pdfx"));
    assert!(!PdfScanner::is_pdf_file(""));
}

#[test]
fn book_names_from_file_stems() {
    assert_eq!(PdfScanner::book_name("/books/Rust Book.pdf"), "Rust Book");
    assert_eq!(PdfScanner::book_name("/books/archive.tar.pdf"), "archive.tar");
    assert_eq!(PdfScanner::book_name(""), "Unknown");
    assert_eq!(PdfScanner::book_name("/"), "Unknown");
}

#[test]
fn pdf_entry_fields() {
    let e = PdfScanner::create_pdf_entry("/books/Title.pdf", 2048, None);
    assert_eq!(e.path, "/books/Title.pdf");
    assert_eq!(e.book_name, "Title");
    assert_eq!(e.file_size, 2048);
    assert!(e.git_metadata.is_none());
}

fn info(path: &str, kind: EntryKind) -> DirEntryInfo {
    DirEntryInfo { path: path.to_string(), kind }
}

#[test]
fn walk_finds_pdfs_depth_first_in_listing_order() {
    let scanner = PdfScanner::from_probe("/r", true, true).unwrap();
    let mut walk = scanner.scan();
    assert_eq!(walk.next_directory().as_deref(), Some("/r"));
    walk.enter_listing(vec![
        info("/r/a.pdf", EntryKind::File),
        info("/r/sub", EntryKind::Directory),
        info("/r/notes.txt", EntryKind::File),
        info("/r/b.PDF", EntryKind::File),
        info("/r/broken.pdf", EntryKind::Other),
    ]);
    assert_eq!(walk.next_directory().as_deref(), Some("/r/sub"));
    assert_eq!(walk.found_pdfs(), &vec!["/r/a.pdf".to_string()]);
    walk.enter_listing(vec![
        info("/r/sub/c.pdf", EntryKind::File),
        info("/r/sub/deeper", EntryKind::Directory),
    ]);
    assert_eq!(walk.next_directory().as_deref(), Some("/r/sub/deeper"));
    walk.enter_listing(vec![]);
    assert_eq!(walk.next_directory(), None);
    assert_eq!(
        walk.found_pdfs(),
        &vec!["/r/a.pdf".to_string(), "/r/sub/c.pdf".to_string(), "/r/b.PDF".to_string()]
    );
    assert_eq!(walk.next_directory(), None);
}

#[test]
fn git_root_steps() {
    assert!(matches!(PdfScanner::git_root_step("/a/b".to_string(), true), GitRootStep::Found(d) if d == "/a/b"));
    assert!(matches!(PdfScanner::git_root_step("/a/b".to_string(), false), GitRootStep::Up(d) if d == "/a"));
    assert!(matches!(PdfScanner::git_root_step("/".to_string(), false), GitRootStep::NotFound));
}

#[test]
fn git_root_found_upwards() {
    let temp_dir = TempDir::new().unwrap();
    let root = temp_dir.path();
    let git_dir = tempfile::Builder::new().prefix(".git").rand_bytes(0).tempdir_in(root).unwrap();
    assert_eq!(git_dir.path(), root.join(".git"));
    let shelf = tempfile::Builder::new().prefix("shelf").rand_bytes(0).tempdir_in(root).unwrap();
    let scanner = PdfScanner::from_probe(root.to_str().unwrap(), true, true).unwrap();
    let found = scanner.find_git_root(shelf.path().to_str().unwrap()).unwrap();
    assert_eq!(found, root.to_str().unwrap());
    let file = shelf.path().join("book.pdf");
    let found = scanner.find_git_root(file.to_str().unwrap()).unwrap();
    assert_eq!(found, root.to_str().unwrap());
    let found = scanner.find_git_root(root.to_str().unwrap()).unwrap();
    assert_eq!(found, root.to_str().unwrap());
}

#[test]
fn nearest_git_root_wins() {
    let temp_dir = TempDir::new().unwrap();
    let a = temp_dir.path();
    let _outer_git = tempfile::Builder::new().prefix(".git").rand_bytes(0).tempdir_in(a).unwrap();
    let b = tempfile::Builder::new().prefix("b").rand_bytes(0).tempdir_in(a).unwrap();
    let _inner_git = tempfile::Builder::new().prefix(".git").rand_bytes(0).tempdir_in(b.path()).unwrap();
    let scanner = PdfScanner::from_probe(a.to_str().unwrap(), true, true).unwrap();
    let file = b.path().join("c.pdf");
    let found = scanner.find_git_root(file.to_str().unwrap()).unwrap();
    assert_eq!(found, b.path().to_str().unwrap());
    let probes = PdfScanner::git_root_probes(file.to_str().unwrap());
    assert_eq!(probes.len(), 2);
    assert_eq!(probes[0].dir, file.to_str().unwrap());
    assert!(!probes[0].has_git);
    assert_eq!(probes[1].dir, b.path().to_str().unwrap());
    assert!(probes[1].has_git);
}

fn probe(dir: &str, has_git: bool) -> GitRootProbe {
    GitRootProbe { dir: dir.to_string(), has_git }
}

#[test]
fn git_root_choice_takes_the_first_found() {
    let probes = vec![probe("/a/b/c.pdf", false), probe("/a/b", true), probe("/a", true)];
    assert_eq!(PdfScanner::git_root_choice(&probes).unwrap(), "/a/b");
    let probes = vec![probe("/x/y.pdf", false), probe("/x", false), probe("/", false)];
    match PdfScanner::git_root_choice(&probes) {
        Err(CalibreError::InvalidPath(m)) => assert_eq!(m, "No Git repository found"),
        _ => panic!("expected InvalidPath"),
    }
    assert!(PdfScanner::git_root_choice(&Vec::new()).is_err());
}

#[test]
fn probes_reach_the_top_without_a_repository() {
    if !std::path::Path::new("/.git").is_dir() {
        let probes = PdfScanner::git_root_probes("/");
        assert_eq!(probes.len(), 1);
        assert_eq!(probes[0].dir, "/");
        assert!(!probes[0].has_git);
    }
}

#[test]
fn relative_paths() {
    assert_eq!(PdfScanner::relative_path("/repo/books/a.pdf", "/repo"), "books/a.pdf");
    assert_eq!(PdfScanner::relative_path("/other/a.pdf", "/repo"), "/other/a.pdf");
}

fn out(success: bool, stdout: &[u8]) -> GitOutput {
    GitOutput { success, stdout: stdout.to_vec() }
}

#[test]
fn commit_hash_from_git_output() {
    let h = PdfScanner::last_commit_hash_from_output(out(true, b"  0123abcd\n")).unwrap();
    assert_eq!(h, "0123abcd");
    match PdfScanner::last_commit_hash_from_output(out(false, b"0123abcd\n")) {
        Err(CalibreError::InvalidPath(m)) => assert_eq!(m, "Failed to get git commit hash"),
        _ => panic!("expected InvalidPath"),
    }
    match PdfScanner::last_commit_hash_from_output(out(true, b" \n\t")) {
        Err(CalibreError::InvalidPath(m)) => assert_eq!(m, "No commit found for file"),
        _ => panic!("expected InvalidPath"),
    }
    match PdfScanner::last_commit_hash_from_output(out(true, &[0xff, 0x41])) {
        Err(CalibreError::InvalidUtf8(b)) => assert_eq!(b, vec![0xff, 0x41]),
        _ => panic!("expected InvalidUtf8"),
    }
}

#[test]
fn blob_hash_from_git_output() {
    let h = PdfScanner::blob_hash_from_output(out(true, "e69de29b\u{3000}\r\n".as_bytes())).unwrap();
    assert_eq!(h, "e69de29b");
    match PdfScanner::blob_hash_from_output(out(false, b"")) {
        Err(CalibreError::InvalidPath(m)) => assert_eq!(m, "Failed to get git blob hash"),
        _ => panic!("expected InvalidPath"),
    }
    match PdfScanner::blob_hash_from_output(out(true, b"")) {
        Err(CalibreError::InvalidPath(m)) => assert_eq!(m, "No blob hash found for file"),
        _ => panic!("expected InvalidPath"),
    }
}

#[test]
fn history_from_git_output() {
    let h = PdfScanner::git_history_from_output(out(true, b"aaa\r\n  bbb \n\n   \nccc")).unwrap();
    assert_eq!(h, vec!["aaa".to_string(), "bbb".to_string(), "ccc".to_string()]);
    assert!(PdfScanner::git_history_from_output(out(false, b"aaa\n")).unwrap().is_empty());
    assert!(PdfScanner::git_history_from_output(out(true, b"")).unwrap().is_empty());
    assert!(matches!(
        PdfScanner::git_history_from_output(out(true, &[0xc3])),
        Err(CalibreError::InvalidUtf8(b)) if b == vec![0xc3]
    ));
}

#[test]
fn no_repository_above_the_root() {
    let scanner = PdfScanner::from_probe("/", true, true).unwrap();
    if !std::path::Path::new("/.git").is_dir() {
        match scanner.find_git_root("/") {
            Err(CalibreError::InvalidPath(m)) => assert_eq!(m, "No Git repository found"),
            _ => panic!("expected InvalidPath"),
        }
    }
}

#[test]
fn git_marker_is_the_dot_git_directory() {
    assert_eq!(PdfScanner::git_marker("/repo"), "/repo/.git");
}

#[test]
fn a_dot_git_file_is_no_repository_marker() {
    let temp_dir = TempDir::new().unwrap();
    let root = temp_dir.path();
    let _file = tempfile::Builder::new().prefix(".git").rand_bytes(0).tempfile_in(root).unwrap();
    let shelf = tempfile::Builder::new().prefix("shelf").rand_bytes(0).tempdir_in(root).unwrap();
    let scanner = PdfScanner::from_probe(root.to_str().unwrap(), true, true).unwrap();
    let found = scanner.find_git_root(shelf.path().to_str().unwrap());
    if let Ok(r) = found {
        assert_ne!(r, root.to_str().unwrap());
    }
}

fn run_of(a: GitAction) -> (String, Vec<String>, GitMetadataState) {
    match a {
        GitAction::Run { cwd, args, next } => (cwd, args, next),
        GitAction::Done(_) => panic!("expected a run"),
    }
}

#[test]
fn git_metadata_lookup_runs_three_commands_in_order() {
    let temp_dir = TempDir::new().unwrap();
    let root = temp_dir.path();
    let _git = tempfile::Builder::new().prefix(".git").rand_bytes(0).tempdir_in(root).unwrap();
    let root_s = root.to_str().unwrap();
    let scanner = PdfScanner::from_probe(root_s, true, true).unwrap();
    let file = root.join("book.pdf");
    let (cwd, args, next) = run_of(scanner.git_metadata_start(file.to_str().unwrap()));
    assert_eq!(cwd, root_s);
    assert_eq!(args, vec!["log", "-1", "--format=%H", "book.pdf"]);
    let (cwd, args, next) = run_of(PdfScanner::git_metadata_step(next, out(true, b"abc\n")));
    assert_eq!(cwd, root_s);
    assert_eq!(args, vec!["log", "--format=%H", "book.pdf"]);
    let (cwd, args, next) = run_of(PdfScanner::git_metadata_step(next, out(true, b"abc\nold\n")));
    assert_eq!(cwd, root_s);
    assert_eq!(args, vec!["hash-object", "book.pdf"]);
    match PdfScanner::git_metadata_step(next, out(true, b" blob \n")) {
        GitAction::Done(Ok(m)) => {
            assert_eq!(m.commit_hash, "abc");
            assert_eq!(m.history, vec!["abc".to_string(), "old".to_string()]);
            assert_eq!(m.blob_hash, "blob");
        }
        _ => panic!("expected the metadata"),
    }
}

#[test]
fn git_metadata_lookup_stops_at_the_first_failure() {
    let state = GitMetadataState::LastCommit { repo_root: "/r".to_string(), relative_path: "a.pdf".to_string() };
    match PdfScanner::git_metadata_step(state, out(false, b"")) {
        GitAction::Done(Err(CalibreError::InvalidPath(m))) => assert_eq!(m, "Failed to get git commit hash"),
        _ => panic!("expected the commit error"),
    }
    let state = GitMetadataState::History {
        repo_root: "/r".to_string(),
        relative_path: "a.pdf".to_string(),
        commit_hash: "c".to_string(),
    };
    match PdfScanner::git_metadata_step(state, out(true, &[0xff])) {
        GitAction::Done(Err(CalibreError::InvalidUtf8(b))) => assert_eq!(b, vec![0xff]),
        _ => panic!("expected the history error"),
    }
    let state = GitMetadataState::History {
        repo_root: "/r".to_string(),
        relative_path: "a.pdf".to_string(),
        commit_hash: "c".to_string(),
    };
    let (_, args, _) = run_of(PdfScanner::git_metadata_step(state, out(false, b"")));
    assert_eq!(args, vec!["hash-object", "a.pdf"]);
    let state = GitMetadataState::BlobHash {
        repo_root: "/r".to_string(),
        relative_path: "a.pdf".to_string(),
        commit_hash: "c".to_string(),
        history: vec![],
    };
    match PdfScanner::git_metadata_step(state, out(true, b"  ")) {
        GitAction::Done(Err(CalibreError::InvalidPath(m))) => assert_eq!(m, "No blob hash found for file"),
        _ => panic!("expected the blob error"),
    }
}

#[test]
fn git_metadata_lookup_without_repository() {
    let scanner = PdfScanner::from_probe("/", true, true).unwrap();
    if !std::path::Path::new("/.git").is_dir() {
        match scanner.git_metadata_start("/book.pdf") {
            GitAction::Done(Err(CalibreError::InvalidPath(m))) => assert_eq!(m, "No Git repository found"),
            _ => panic!("expected no repository"),
        }
    }
}

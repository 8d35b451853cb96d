//! Scanning a directory tree for PDF files, and the Git metadata of a file.
//!
//! The scanner decides; reading directories, file sizes and the output of
//! Git is left to the caller, who hands the results in.

use vstd::prelude::*;
use vstd::utf8::{decode_utf8, valid_utf8};
use crate::error::CalibreError;
use crate::paths::{
    opt_view,
    extension_of, file_stem_of, join_path, parent_of, path_exists, path_extension, path_join,
    path_file_stem, path_is_dir, path_parent, path_strip_prefix, strip_prefix_of, answered,
    probe_exists, probe_is_dir, DiskAnswer, ProbeKind,
};
use crate::text::{
    lemma_trim_idempotent, lemma_trimmed_nonempty_items, split_lines, decode_utf8_bytes, eq_ignore_ascii_case, nonblank_lines, nonblank_lines_of, text_eq_ignore_ascii_case,
    trim, trim_text, views,
};

verus! {

/// Git metadata of a file.
#[derive(Debug, Clone)]
pub struct GitMetadata {
    /// The commit hash of the file's last modification.
    pub commit_hash: String,
    /// The commits that touched the file, newest first.
    pub history: Vec<String>,
    /// The blob hash of the file in Git.
    pub blob_hash: String,
}

/// A PDF file found by a scan.
#[derive(Debug, Clone)]
pub struct PdfEntry {
    /// Full path to the PDF file.
    pub path: String,
    /// Name of the book: the file name without its extension.
    pub book_name: String,
    /// File size in bytes.
    pub file_size: u64,
    /// Git metadata, when the file is in a Git repository.
    pub git_metadata: Option<GitMetadata>,
}

/// Scanner for finding and cataloguing PDF files below a root directory.
pub struct PdfScanner {
    root_dir: String,
}

/// The message for a root that does not exist.
pub open spec fn not_found_message(root: Seq<char>) -> Seq<char> {
    "Directory not found: "@ + root
}

/// The message for a root that is not a directory.
pub open spec fn not_a_directory_message(root: Seq<char>) -> Seq<char> {
    "Path is not a directory: "@ + root
}

/// The two messages of a refused root never coincide.
pub proof fn lemma_messages_differ(root: Seq<char>)
    ensures
        not_found_message(root) != not_a_directory_message(root),
{
    reveal_strlit("Directory not found: ");
    reveal_strlit("Path is not a directory: ");
    assert(not_found_message(root)[0] != not_a_directory_message(root)[0]);
}

/// Whether `path` names a PDF file: its extension is `pdf` in any case of
/// its letters.
pub open spec fn is_pdf_path(path: Seq<char>) -> bool {
    match path_extension(path) {
        Some(ext) => eq_ignore_ascii_case(ext, "pdf"@),
        None => false,
    }
}

/// The book name of the file at `path`: its stem, or `Unknown` without one.
pub open spec fn book_name_of(path: Seq<char>) -> Seq<char> {
    match path_file_stem(path) {
        Some(stem) => stem,
        None => "Unknown"@,
    }
}

/// `path` followed upwards `k` times, while it has a parent.
pub open spec fn ancestor(path: Seq<char>, k: nat) -> Option<Seq<char>>
    decreases k,
{
    if k == 0 {
        Some(path)
    } else {
        match ancestor(path, (k - 1) as nat) {
            Some(p) => path_parent(p),
            None => None,
        }
    }
}

/// The message for a file outside any Git repository.
pub open spec fn no_repository_message() -> Seq<char> {
    "No Git repository found"@
}

/// What a search for the Git repository does after looking for `.git` in one
/// directory.
pub enum GitRootStep {
    /// The directory holds `.git`: it is the root of the repository.
    Found(String),
    /// Look next in this directory, the parent of the one searched.
    Up(String),
    /// The directory holds no `.git` and has no parent.
    NotFound,
}

/// What one look for `.git` found: the directory looked in, and whether its
/// `.git` directory was there.
pub struct GitRootProbe {
    pub dir: String,
    pub has_git: bool,
}

/// `i` is the first of `probes` whose look found `.git`.
pub open spec fn is_first_git(probes: Seq<GitRootProbe>, i: int) -> bool {
    &&& 0 <= i < probes.len()
    &&& probes[i].has_git
    &&& forall|j: int| 0 <= j < i ==> !(#[trigger] probes[j]).has_git
}

/// What the search for a repository decides from the looks in `probes`: the
/// first directory whose look found `.git`, or, when none did, the error for a
/// file outside any repository.
pub open spec fn root_chosen(probes: Seq<GitRootProbe>, r: Result<String, CalibreError>) -> bool {
    match r {
        Ok(root) => exists|i: int| #[trigger] is_first_git(probes, i) && root@ == probes[i].dir@,
        Err(e) => {
            &&& forall|i: int| 0 <= i < probes.len() ==> !(#[trigger] probes[i]).has_git
            &&& e matches CalibreError::InvalidPath(m) && m@ == no_repository_message()
        },
    }
}

/// `probes` are the looks of a search that starts at `start`: the `i`-th looks
/// in the `i`-th ancestor of `start`, and the search goes up until a look finds
/// `.git` or there is no parent left.
pub open spec fn probe_chain(start: Seq<char>, probes: Seq<GitRootProbe>) -> bool {
    &&& probes.len() >= 1
    &&& forall|i: int|
        0 <= i < probes.len() ==> ancestor(start, i as nat) == Some((#[trigger] probes[i]).dir@)
    &&& forall|i: int| 0 <= i < probes.len() - 1 ==> !(#[trigger] probes[i]).has_git
    &&& !probes.last().has_git ==> path_parent(probes.last().dir@) is None
}

/// Along a chain of looks, the first look that found `.git` is the last look
/// made: a root chosen is the nearest ancestor whose look found `.git`, and no
/// root is chosen only when the search reached a directory with no parent.
pub proof fn lemma_chain_choice(start: Seq<char>, probes: Seq<GitRootProbe>, r: Result<String, CalibreError>)
    requires
        probe_chain(start, probes),
        root_chosen(probes, r),
    ensures
        r matches Ok(root) ==> {
            &&& probes.last().has_git
            &&& root@ == probes.last().dir@
            &&& ancestor(start, (probes.len() - 1) as nat) == Some(root@)
        },
        r matches Err(_) ==> {
            &&& !probes.last().has_git
            &&& ancestor(start, (probes.len() - 1) as nat) == Some(probes.last().dir@)
            &&& path_parent(probes.last().dir@) is None
        },
{
    let n = probes.len() - 1;
    assert(ancestor(start, n as nat) == Some(probes[n].dir@));
    match r {
        Ok(root) => {
            let i = choose|i: int| #[trigger] is_first_git(probes, i) && root@ == probes[i].dir@;
            if i < n {
                assert(!probes[i].has_git);
            }
        },
        Err(_) => {
            assert(!probes[n].has_git);
        },
    }
}

/// What Git printed for a file: whether it succeeded, and its standard output.
pub struct GitOutput {
    pub success: bool,
    pub stdout: Vec<u8>,
}

/// A single hash that Git printed: `Ok` with the trimmed text when Git
/// succeeded, the output is UTF-8 and something is left after trimming.
pub open spec fn hash_outcome(
    out: GitOutput,
    failed: Seq<char>,
    empty: Seq<char>,
    r: Result<String, CalibreError>,
) -> bool {
    if !out.success {
        r matches Err(CalibreError::InvalidPath(m)) && m@ == failed
    } else if !valid_utf8(out.stdout@) {
        r matches Err(CalibreError::InvalidUtf8(b)) && b@ == out.stdout@
    } else if trim(decode_utf8(out.stdout@)).len() == 0 {
        r matches Err(CalibreError::InvalidPath(m)) && m@ == empty
    } else {
        r matches Ok(h) && h@ == trim(decode_utf8(out.stdout@))
    }
}

/// The history that Git printed: empty when Git failed, an error when the
/// output is not UTF-8, else its lines that are not blank, trimmed.
pub open spec fn history_outcome(out: GitOutput, r: Result<Vec<String>, CalibreError>) -> bool {
    if !out.success {
        r matches Ok(h) && h@.len() == 0
    } else if !valid_utf8(out.stdout@) {
        r matches Err(CalibreError::InvalidUtf8(b)) && b@ == out.stdout@
    } else {
        r matches Ok(h) && views(h@) == nonblank_lines(decode_utf8(out.stdout@))
    }
}

/// The messages of the commit hash lookup: Git failed, and nothing found.
pub open spec fn commit_failed_message() -> Seq<char> {
    "Failed to get git commit hash"@
}

pub open spec fn commit_empty_message() -> Seq<char> {
    "No commit found for file"@
}

/// The messages of the blob hash lookup: Git failed, and nothing found.
pub open spec fn blob_failed_message() -> Seq<char> {
    "Failed to get git blob hash"@
}

pub open spec fn blob_empty_message() -> Seq<char> {
    "No blob hash found for file"@
}

/// The arguments of `git` that print the hash of the last commit of a file.
pub open spec fn last_commit_args(relative_path: Seq<char>) -> Seq<Seq<char>> {
    seq!["log"@, "-1"@, "--format=%H"@, relative_path]
}

/// The arguments of `git` that print the commits that touched a file.
pub open spec fn history_args(relative_path: Seq<char>) -> Seq<Seq<char>> {
    seq!["log"@, "--format=%H"@, relative_path]
}

/// The arguments of `git` that print the blob hash of a file.
pub open spec fn blob_args(relative_path: Seq<char>) -> Seq<Seq<char>> {
    seq!["hash-object"@, relative_path]
}

/// Law: the three Git commands of a metadata lookup are `git log -1
/// --format=%H`, `git log --format=%H` and `git hash-object`, each with the
/// file's relative path as its last argument.
pub proof fn lemma_git_commands(relative_path: Seq<char>)
    ensures
        last_commit_args(relative_path) == seq!["log"@, "-1"@, "--format=%H"@, relative_path],
        history_args(relative_path) == seq!["log"@, "--format=%H"@, relative_path],
        blob_args(relative_path) == seq!["hash-object"@, relative_path],
{
}

/// `file_path` relative to `repo_root`, or `file_path` itself when it does
/// not lie below `repo_root`.
pub open spec fn relative_path_of(file_path: Seq<char>, repo_root: Seq<char>) -> Seq<char> {
    match path_strip_prefix(file_path, repo_root) {
        Some(rel) => rel,
        None => file_path,
    }
}

/// Law: the path of a file relative to a repository root is what
/// `Path::strip_prefix` leaves of the file path with the root taken off its
/// front, and the file path itself when the root is not a prefix of it.
pub proof fn lemma_relative_path_strips_root(file_path: Seq<char>, repo_root: Seq<char>)
    ensures
        path_strip_prefix(file_path, repo_root) matches Some(rel) ==> relative_path_of(
            file_path,
            repo_root,
        ) == rel,
        path_strip_prefix(file_path, repo_root) is None ==> relative_path_of(file_path, repo_root)
            == file_path,
{
}

/// Where a lookup of Git metadata stands: the repository and the file, and
/// what Git has told so far.
pub enum GitMetadataState {
    /// The hash of the last commit is asked next.
    LastCommit { repo_root: String, relative_path: String },
    /// The commit hash is known; the history is asked next.
    History { repo_root: String, relative_path: String, commit_hash: String },
    /// The commit hash and history are known; the blob hash is asked next.
    BlobHash {
        repo_root: String,
        relative_path: String,
        commit_hash: String,
        history: Vec<String>,
    },
}

/// What a lookup of Git metadata asks for next: run `git` with `args` in
/// `cwd` and hand its output to `git_metadata_step` with `next`, or the
/// lookup is done.
pub enum GitAction {
    Run { cwd: String, args: Vec<String>, next: GitMetadataState },
    Done(Result<GitMetadata, CalibreError>),
}

/// What one step of a lookup of Git metadata does with what Git printed,
/// stage by stage: it asks for the next step when the output gives what the
/// stage reads, and ends the lookup with the error of the output otherwise;
/// the blob hash ends it in any case.
pub open spec fn step_outcome(state: GitMetadataState, out: GitOutput, r: GitAction) -> bool {
    &&& state matches GitMetadataState::LastCommit { repo_root, relative_path } ==> {
        &&& r matches GitAction::Done(d) ==> (d matches Err(e) && hash_outcome(
            out,
            commit_failed_message(),
            commit_empty_message(),
            Err(e),
        ))
        &&& r matches GitAction::Run { cwd, args, next } ==> {
            &&& next matches GitMetadataState::History {
                repo_root: rr,
                relative_path: rp,
                commit_hash,
            }
            &&& hash_outcome(
                out,
                commit_failed_message(),
                commit_empty_message(),
                Ok(commit_hash),
            )
            &&& rr@ == repo_root@ && rp@ == relative_path@
            &&& cwd@ == repo_root@
            &&& views(args@) == history_args(relative_path@)
        }
    }
    &&& state matches GitMetadataState::History { repo_root, relative_path, commit_hash } ==> {
        &&& r matches GitAction::Done(d) ==> (d matches Err(e) && history_outcome(
            out,
            Err(e),
        ))
        &&& r matches GitAction::Run { cwd, args, next } ==> {
            &&& next matches GitMetadataState::BlobHash {
                repo_root: rr,
                relative_path: rp,
                commit_hash: ch,
                history,
            }
            &&& history_outcome(out, Ok(history))
            &&& rr@ == repo_root@ && rp@ == relative_path@ && ch@ == commit_hash@
            &&& cwd@ == repo_root@
            &&& views(args@) == blob_args(relative_path@)
        }
    }
    &&& state matches GitMetadataState::BlobHash { commit_hash, history, .. } ==> {
        &&& r matches GitAction::Done(d)
        &&& d matches Err(e) ==> hash_outcome(
            out,
            blob_failed_message(),
            blob_empty_message(),
            Err(e),
        )
        &&& d matches Ok(m) ==> {
            &&& hash_outcome(
                out,
                blob_failed_message(),
                blob_empty_message(),
                Ok(m.blob_hash),
            )
            &&& m.commit_hash@ == commit_hash@
            &&& views(m.history@) == views(history@)
        }
    }
}

/// Whether the texts that a lookup of Git metadata has gathered are
/// non-empty and trimmed, and so are the lines of its history.
pub open spec fn texts_trimmed(hash: Seq<char>) -> bool {
    hash.len() > 0 && trim(hash) == hash
}

pub open spec fn lines_trimmed(lines: Seq<Seq<char>>) -> bool {
    forall|i: int| 0 <= i < lines.len() ==> texts_trimmed(#[trigger] lines[i])
}

/// Whether what a lookup state holds is trimmed.
pub open spec fn state_trimmed(s: GitMetadataState) -> bool {
    match s {
        GitMetadataState::LastCommit { .. } => true,
        GitMetadataState::History { commit_hash, .. } => texts_trimmed(commit_hash@),
        GitMetadataState::BlobHash { commit_hash, history, .. } => texts_trimmed(commit_hash@)
            && lines_trimmed(views(history@)),
    }
}

/// What a directory listing says of an entry.
#[derive(Debug, Clone, Copy, PartialEq, Eq, Structural)]
pub enum EntryKind {
    /// A directory (or a link to one).
    Directory,
    /// A regular file (or a link to one).
    File,
    /// Anything else, such as a broken link.
    Other,
}

/// An entry of a directory listing.
pub struct DirEntryInfo {
    pub path: String,
    pub kind: EntryKind,
}

/// An entry of a listing that a walk has still to handle.
enum WalkItem {
    Directory(String),
    File(String),
}

/// An entry that a walk has still to handle, as its path.
pub enum Pending {
    Directory(Seq<char>),
    File(Seq<char>),
}

spec fn item_view(w: WalkItem) -> Pending {
    match w {
        WalkItem::Directory(p) => Pending::Directory(p@),
        WalkItem::File(p) => Pending::File(p@),
    }
}

/// A listing as paths and kinds.
pub open spec fn listing_view(listing: Seq<DirEntryInfo>) -> Seq<(Seq<char>, EntryKind)> {
    listing.map_values(|e: DirEntryInfo| (e.path@, e.kind))
}

/// What a walk puts on its stack for a listing: the directories and files of
/// the listing, the first of them on top.
pub open spec fn pushed_items(listing: Seq<(Seq<char>, EntryKind)>) -> Seq<Pending>
    decreases listing.len(),
{
    if listing.len() == 0 {
        Seq::<Pending>::empty()
    } else {
        let rest = pushed_items(listing.drop_first());
        match listing[0].1 {
            EntryKind::Directory => rest.push(Pending::Directory(listing[0].0)),
            EntryKind::File => rest.push(Pending::File(listing[0].0)),
            EntryKind::Other => rest,
        }
    }
}

/// A walk that takes files from the top of its stack, recording those that
/// are PDF files, until a directory is on top: the stack and the record that
/// are left, and the directory taken, if there was one.
pub open spec fn drain(pending: Seq<Pending>, found: Seq<Seq<char>>) -> (Seq<Pending>, Seq<
    Seq<char>,
>, Option<Seq<char>>)
    decreases pending.len(),
{
    if pending.len() == 0 {
        (pending, found, None)
    } else {
        match pending.last() {
            Pending::Directory(p) => (pending.drop_last(), found, Some(p)),
            Pending::File(p) => drain(
                pending.drop_last(),
                if is_pdf_path(p) {
                    found.push(p)
                } else {
                    found
                },
            ),
        }
    }
}

/// A depth-first walk of a directory tree: a stack of entries still to
/// handle, and the PDF files found so far, in the order of the walk.
pub struct ScanWalk {
    pending: Vec<WalkItem>,
    found: Vec<String>,
}

impl ScanWalk {
    /// The entries still to handle; the last is on top.
    pub closed spec fn pending(&self) -> Seq<Pending> {
        self.pending@.map_values(|w: WalkItem| item_view(w))
    }

    /// The PDF files found so far.
    pub closed spec fn found(&self) -> Seq<Seq<char>> {
        views(self.found@)
    }

    /// Takes the next directory to list, recording the PDF files above it.
    /// `None` when the walk is over.
    pub fn next_directory(&mut self) -> (r: Option<String>)
        ensures
            (final(self).pending(), final(self).found(), opt_view(r)) == drain(
                old(self).pending(),
                old(self).found(),
            ),
    {
        loop
            invariant
                drain(self.pending(), self.found()) == drain(old(self).pending(), old(self).found()),
            decreases self.pending@.len(),
        {
            let ghost before = self.pending();
            match self.pending.pop() {
                None => {
                    return None;
                },
                Some(WalkItem::Directory(p)) => {
                    assert(self.pending() == before.drop_last());
                    return Some(p);
                },
                Some(WalkItem::File(p)) => {
                    assert(self.pending() == before.drop_last());
                    assert(before.last() == Pending::File(p@));
                    let ghost found_before = self.found();
                    if PdfScanner::is_pdf_file(p.as_str()) {
                        self.found.push(p);
                        assert(self.found() == found_before.push(p@));
                    }
                },
            }
        }
    }

    /// Hands the walk the listing of the directory it took last.
    pub fn enter_listing(&mut self, listing: Vec<DirEntryInfo>)
        ensures
            final(self).pending() == old(self).pending() + pushed_items(listing_view(listing@)),
            final(self).found() == old(self).found(),
    {
        let ghost all = listing_view(listing@);
        let mut listing = listing;
        assert(all.skip(listing@.len() as int) == Seq::<(Seq<char>, EntryKind)>::empty());
        assert(listing_view(listing@) == all.take(listing@.len() as int));
        while listing.len() > 0
            invariant
                listing@.len() <= all.len(),
                listing_view(listing@) == all.take(listing@.len() as int),
                self.pending() == old(self).pending() + pushed_items(all.skip(listing@.len() as int)),
                self.found() == old(self).found(),
            decreases listing@.len(),
        {
            let ghost i = (listing@.len() - 1) as int;
            let ghost before = self.pending();
            let e = listing.pop().unwrap();
            assert(all[i] == (e.path@, e.kind)) by {
                assert(all.take(i + 1)[i] == all[i]);
            }
            assert(all.skip(i).drop_first() == all.skip(i + 1));
            assert(all.skip(i)[0] == all[i]);
            assert(listing_view(listing@) == all.take(i));
            let ghost rest = pushed_items(all.skip(i + 1));
            match e.kind {
                EntryKind::Directory => {
                    let ghost p = e.path@;
                    self.pending.push(WalkItem::Directory(e.path));
                    assert(self.pending() == before.push(Pending::Directory(p)));
                    assert(pushed_items(all.skip(i)) == rest.push(Pending::Directory(p)));
                },
                EntryKind::File => {
                    let ghost p = e.path@;
                    self.pending.push(WalkItem::File(e.path));
                    assert(self.pending() == before.push(Pending::File(p)));
                    assert(pushed_items(all.skip(i)) == rest.push(Pending::File(p)));
                },
                EntryKind::Other => {
                    assert(pushed_items(all.skip(i)) == rest);
                },
            }
            assert(self.pending() =~= old(self).pending() + pushed_items(all.skip(i)));
        }
        assert(all.skip(0) == all);
    }

    /// The PDF files found so far, in the order of the walk.
    pub fn found_pdfs(&self) -> (r: &Vec<String>)
        ensures
            views(r@) == self.found(),
    {
        &self.found
    }
}

impl PdfScanner {
    /// The root directory of the scan.
    pub closed spec fn root(&self) -> Seq<char> {
        self.root_dir@
    }

    /// Creates a scanner for `root_dir`, which must be an existing directory:
    /// asks the disk whether `root_dir` exists and, when it does, whether it
    /// is a directory, and hands the answers to `from_answers`.
    pub fn new(root_dir: &str) -> (result: Result<PdfScanner, CalibreError>)
        ensures
            result matches Ok(s) ==> s.root() == root_dir@,
            result matches Err(e) ==> (e matches CalibreError::InvalidPath(m) && (m@
                == not_found_message(root_dir@) || m@ == not_a_directory_message(root_dir@))),
            result is Ok ==> {
                &&& exists|d: DiskAnswer| #[trigger] answered(d, ProbeKind::Exists, root_dir@, true)
                &&& exists|d: DiskAnswer| #[trigger] answered(d, ProbeKind::IsDir, root_dir@, true)
            },
            result matches Err(CalibreError::InvalidPath(m)) && m@ == not_found_message(root_dir@)
                ==> exists|d: DiskAnswer| #[trigger] answered(d, ProbeKind::Exists, root_dir@, false),
            result matches Err(CalibreError::InvalidPath(m)) && m@ == not_a_directory_message(
                root_dir@,
            ) ==> exists|d: DiskAnswer| #[trigger] answered(d, ProbeKind::IsDir, root_dir@, false),
    {
        let exists = probe_exists(root_dir);
        let is_dir = if exists.get() {
            Some(probe_is_dir(root_dir))
        } else {
            None
        };
        proof {
            lemma_messages_differ(root_dir@);
            assert(answered(exists, ProbeKind::Exists, root_dir@, exists.answer()));
            if is_dir is Some {
                let d = is_dir->0;
                assert(answered(d, ProbeKind::IsDir, root_dir@, d.answer()));
            }
        }
        Self::from_answers(root_dir, exists, is_dir)
    }

    /// Creates a scanner for `root_dir` from the disk's answers: whether it
    /// exists, and, asked only when it does, whether it is a directory.
    pub fn from_answers(root_dir: &str, exists: DiskAnswer, is_dir: Option<DiskAnswer>) -> (result:
        Result<PdfScanner, CalibreError>)
        requires
            exists.kind() == ProbeKind::Exists,
            exists.path() == root_dir@,
            is_dir matches Some(d) ==> d.kind() == ProbeKind::IsDir && d.path() == root_dir@,
            exists.answer() <==> is_dir is Some,
        ensures
            !exists.answer() ==> (result matches Err(CalibreError::InvalidPath(m)) && m@
                == not_found_message(root_dir@)),
            is_dir matches Some(d) && !d.answer() ==> (result matches Err(
                CalibreError::InvalidPath(m),
            ) && m@ == not_a_directory_message(root_dir@)),
            is_dir matches Some(d) && d.answer() ==> (result matches Ok(s) && s.root()
                == root_dir@),
    {
        let dir = match &is_dir {
            Some(d) => d.get(),
            None => false,
        };
        Self::from_probe(root_dir, exists.get(), dir)
    }

    /// Creates a scanner for `root_dir` from what the disk says of it.
    pub fn from_probe(root_dir: &str, exists: bool, is_dir: bool) -> (result: Result<
        PdfScanner,
        CalibreError,
    >)
        ensures
            !exists ==> (result matches Err(CalibreError::InvalidPath(m)) && m@
                == not_found_message(root_dir@)),
            exists && !is_dir ==> (result matches Err(CalibreError::InvalidPath(m)) && m@
                == not_a_directory_message(root_dir@)),
            exists && is_dir ==> (result matches Ok(s) && s.root() == root_dir@),
    {
        if !exists {
            let mut m = "Directory not found: ".to_owned();
            m.append(root_dir);
            return Err(CalibreError::InvalidPath(m));
        }
        if !is_dir {
            let mut m = "Path is not a directory: ".to_owned();
            m.append(root_dir);
            return Err(CalibreError::InvalidPath(m));
        }
        Ok(PdfScanner { root_dir: root_dir.to_owned() })
    }

    /// The root directory of the scan.
    pub fn root_dir(&self) -> (r: &str)
        ensures
            r@ == self.root(),
    {
        self.root_dir.as_str()
    }

    /// Starts a scan of the root directory: a walk whose first step lists the
    /// root. The caller lists each directory that `ScanWalk::next_directory`
    /// hands out and gives the listing to `ScanWalk::enter_listing`; when no
    /// directory is left, the walk has found the PDF files of the tree.
    pub fn scan(&self) -> (w: ScanWalk)
        ensures
            w.pending() == seq![Pending::Directory(self.root())],
            w.found() == Seq::<Seq<char>>::empty(),
    {
        let mut pending: Vec<WalkItem> = Vec::new();
        pending.push(WalkItem::Directory(self.root_dir.clone()));
        let w = ScanWalk { pending, found: Vec::new() };
        assert(w.pending() == seq![Pending::Directory(self.root())]);
        assert(w.found() == Seq::<Seq<char>>::empty());
        w
    }

    /// Whether `path` names a PDF file.
    pub fn is_pdf_file(path: &str) -> (r: bool)
        ensures
            r == is_pdf_path(path@),
    {
        match extension_of(path) {
            Some(ext) => text_eq_ignore_ascii_case(ext.as_str(), "pdf"),
            None => false,
        }
    }

    /// The book name of the file at `path`.
    pub fn book_name(path: &str) -> (r: String)
        ensures
            r@ == book_name_of(path@),
    {
        match file_stem_of(path) {
            Some(stem) => stem,
            None => "Unknown".to_owned(),
        }
    }

    /// The entry of the PDF file at `path`, of `file_size` bytes.
    pub fn create_pdf_entry(path: &str, file_size: u64, git_metadata: Option<GitMetadata>) -> (r:
        PdfEntry)
        ensures
            r.path@ == path@,
            r.book_name@ == book_name_of(path@),
            r.file_size == file_size,
            r.git_metadata == git_metadata,
    {
        PdfEntry {
            path: path.to_owned(),
            book_name: Self::book_name(path),
            file_size,
            git_metadata,
        }
    }

    /// What to do after looking for `.git` in `current`.
    pub fn git_root_step(current: String, has_git: bool) -> (r: GitRootStep)
        ensures
            has_git ==> (r matches GitRootStep::Found(d) && d@ == current@),
            !has_git ==> match path_parent(current@) {
                Some(p) => r matches GitRootStep::Up(d) && d@ == p,
                None => r is NotFound,
            },
            r matches GitRootStep::Up(d) ==> d@.len() < current@.len(),
    {
        if has_git {
            GitRootStep::Found(current)
        } else {
            match parent_of(current.as_str()) {
                Some(p) => GitRootStep::Up(p),
                None => GitRootStep::NotFound,
            }
        }
    }

    /// The path of the `.git` directory that marks `dir` as the root of a
    /// Git repository.
    pub fn git_marker(dir: &str) -> (r: String)
        ensures
            r@ == path_join(dir@, ".git"@),
    {
        join_path(dir, ".git")
    }

    /// Looks for `.git` in `start_path` and then in each of its ancestors in
    /// turn, until a look finds it or there is no parent left; gives the looks
    /// in the order they were made.
    pub fn git_root_probes(start_path: &str) -> (r: Vec<GitRootProbe>)
        ensures
            probe_chain(start_path@, r@),
    {
        let mut probes: Vec<GitRootProbe> = Vec::new();
        let mut current = start_path.to_owned();
        loop
            invariant
                ancestor(start_path@, probes@.len() as nat) == Some(current@),
                forall|i: int|
                    0 <= i < probes@.len() ==> ancestor(start_path@, i as nat) == Some(
                        (#[trigger] probes@[i]).dir@,
                    ),
                forall|i: int| 0 <= i < probes@.len() ==> !(#[trigger] probes@[i]).has_git,
            decreases current@.len(),
        {
            let marker = Self::git_marker(current.as_str());
            let has_git = path_is_dir(marker.as_str());
            let here = current.clone();
            let ghost before = probes@;
            match Self::git_root_step(current, has_git) {
                GitRootStep::Found(_) => {
                    probes.push(GitRootProbe { dir: here, has_git });
                    proof {
                        assert(probes@.last() == probes@[before.len() as int]);
                    }
                    return probes;
                },
                GitRootStep::Up(parent) => {
                    probes.push(GitRootProbe { dir: here, has_git });
                    proof {
                        assert(probes@[before.len() as int].dir@ == here@);
                    }
                    current = parent;
                },
                GitRootStep::NotFound => {
                    probes.push(GitRootProbe { dir: here, has_git });
                    proof {
                        assert(probes@.last() == probes@[before.len() as int]);
                    }
                    return probes;
                },
            }
        }
    }

    /// The root that a search decides on from its looks: the directory of the
    /// first look that found `.git`, or an error when none did.
    pub fn git_root_choice(probes: &Vec<GitRootProbe>) -> (r: Result<String, CalibreError>)
        ensures
            root_chosen(probes@, r),
    {
        let mut i: usize = 0;
        while i < probes.len()
            invariant
                i <= probes@.len(),
                forall|j: int| 0 <= j < i ==> !(#[trigger] probes@[j]).has_git,
            decreases probes@.len() - i,
        {
            if probes[i].has_git {
                proof {
                    assert(is_first_git(probes@, i as int));
                }
                return Ok(probes[i].dir.clone());
            }
            i = i + 1;
        }
        Err(CalibreError::InvalidPath("No Git repository found".to_owned()))
    }

    /// Finds the root of the Git repository that holds `start_path`: the
    /// nearest of it and its ancestors whose `git_marker` is a directory. The
    /// looks are made by `git_root_probes` and the choice by `git_root_choice`.
    pub fn find_git_root(&self, start_path: &str) -> (r: Result<String, CalibreError>)
        ensures
            exists|probes: Seq<GitRootProbe>| #[trigger]
                probe_chain(start_path@, probes) && root_chosen(probes, r),
            r matches Ok(root) ==> exists|k: nat| ancestor(start_path@, k) == Some(root@),
            r matches Err(e) ==> {
                &&& e matches CalibreError::InvalidPath(m) && m@ == no_repository_message()
                &&& exists|k: nat| #[trigger]
                    ancestor(start_path@, k) matches Some(p) && path_parent(p) is None
            },
    {
        let probes = Self::git_root_probes(start_path);
        let r = Self::git_root_choice(&probes);
        proof {
            lemma_chain_choice(start_path@, probes@, r);
        }
        r
    }

    /// `file_path` relative to `repo_root`, or `file_path` itself when it does
    /// not lie below `repo_root`.
    pub fn relative_path(file_path: &str, repo_root: &str) -> (r: String)
        ensures
            r@ == match path_strip_prefix(file_path@, repo_root@) {
                Some(rel) => rel,
                None => file_path@,
            },
    {
        match strip_prefix_of(file_path, repo_root) {
            Some(rel) => rel,
            None => file_path.to_owned(),
        }
    }

    fn hash_from_output(out: GitOutput, failed: &str, empty: &str) -> (r: Result<
        String,
        CalibreError,
    >)
        ensures
            hash_outcome(out, failed@, empty@, r),
    {
        if !out.success {
            return Err(CalibreError::InvalidPath(failed.to_owned()));
        }
        match decode_utf8_bytes(out.stdout) {
            Err(b) => Err(CalibreError::InvalidUtf8(b)),
            Ok(text) => {
                let hash = trim_text(text.as_str());
                if hash.as_str().is_empty() {
                    Err(CalibreError::InvalidPath(empty.to_owned()))
                } else {
                    Ok(hash)
                }
            },
        }
    }

    /// The hash of the last commit of a file, from the output of
    /// `git log -1 --format=%H <file>`.
    pub fn last_commit_hash_from_output(out: GitOutput) -> (r: Result<String, CalibreError>)
        ensures
            hash_outcome(out, "Failed to get git commit hash"@, "No commit found for file"@, r),
    {
        Self::hash_from_output(out, "Failed to get git commit hash", "No commit found for file")
    }

    /// The blob hash of a file, from the output of `git hash-object <file>`.
    pub fn blob_hash_from_output(out: GitOutput) -> (r: Result<String, CalibreError>)
        ensures
            hash_outcome(out, "Failed to get git blob hash"@, "No blob hash found for file"@, r),
    {
        Self::hash_from_output(out, "Failed to get git blob hash", "No blob hash found for file")
    }

    /// The commits that touched a file, from the output of
    /// `git log --format=%H <file>`: empty when Git failed, else its lines
    /// that are not blank, trimmed.
    pub fn git_history_from_output(out: GitOutput) -> (r: Result<Vec<String>, CalibreError>)
        ensures
            !out.success ==> (r matches Ok(h) && h@.len() == 0),
            out.success && !valid_utf8(out.stdout@) ==> (r matches Err(CalibreError::InvalidUtf8(b))
                && b@ == out.stdout@),
            out.success && valid_utf8(out.stdout@) ==> (r matches Ok(h) && views(h@)
                == nonblank_lines(decode_utf8(out.stdout@))),
            history_outcome(out, r),
    {
        if !out.success {
            return Ok(Vec::new());
        }
        match decode_utf8_bytes(out.stdout) {
            Err(b) => Err(CalibreError::InvalidUtf8(b)),
            Ok(text) => Ok(nonblank_lines_of(text.as_str())),
        }
    }

    /// The arguments of `git` for `relative_path`: `fixed`, then the path.
    fn git_args(fixed: Vec<&str>, relative_path: &str) -> (r: Vec<String>)
        ensures
            views(r@) == fixed@.map_values(|f: &str| f@).push(relative_path@),
    {
        let mut r: Vec<String> = Vec::new();
        let mut i: usize = 0;
        while i < fixed.len()
            invariant
                i <= fixed@.len(),
                views(r@) == fixed@.map_values(|f: &str| f@).take(i as int),
            decreases fixed@.len() - i,
        {
            r.push(fixed[i].to_owned());
            assert(fixed@.map_values(|f: &str| f@).take(i + 1) == fixed@.map_values(|f: &str| f@).take(
                i as int,
            ).push(fixed@[i as int]@));
            i = i + 1;
        }
        assert(fixed@.map_values(|f: &str| f@).take(fixed@.len() as int) == fixed@.map_values(
            |f: &str| f@,
        ));
        r.push(relative_path.to_owned());
        r
    }

    /// The arguments of `git` that print the hash of the last commit of the
    /// file at `relative_path`.
    pub fn last_commit_git_args(relative_path: &str) -> (r: Vec<String>)
        ensures
            views(r@) == last_commit_args(relative_path@),
    {
        let r = Self::git_args(vec!["log", "-1", "--format=%H"], relative_path);
        assert(views(r@) =~= last_commit_args(relative_path@));
        r
    }

    /// The arguments of `git` that print the commits that touched the file
    /// at `relative_path`.
    pub fn history_git_args(relative_path: &str) -> (r: Vec<String>)
        ensures
            views(r@) == history_args(relative_path@),
    {
        let r = Self::git_args(vec!["log", "--format=%H"], relative_path);
        assert(views(r@) =~= history_args(relative_path@));
        r
    }

    /// The arguments of `git` that print the blob hash of the file at
    /// `relative_path`.
    pub fn blob_git_args(relative_path: &str) -> (r: Vec<String>)
        ensures
            views(r@) == blob_args(relative_path@),
    {
        let r = Self::git_args(vec!["hash-object"], relative_path);
        assert(views(r@) =~= blob_args(relative_path@));
        r
    }

    /// Starts the lookup of the Git metadata of the file at `file_path`:
    /// finds its repository with `find_git_root`, then asks Git for the hash
    /// of the file's last commit, in the repository's root, with the path
    /// relative to it.
    pub fn git_metadata_start(&self, file_path: &str) -> (r: GitAction)
        ensures
            r matches GitAction::Done(d) ==> (d matches Err(CalibreError::InvalidPath(m)) && m@
                == no_repository_message()),
            r matches GitAction::Run { cwd, args, next } ==> {
                &&& next matches GitMetadataState::LastCommit { repo_root, relative_path }
                &&& exists|k: nat| ancestor(file_path@, k) == Some(repo_root@)
                &&& relative_path@ == relative_path_of(file_path@, repo_root@)
                &&& path_strip_prefix(file_path@, repo_root@) matches Some(rel) ==> relative_path@
                    == rel
                &&& path_strip_prefix(file_path@, repo_root@) is None ==> relative_path@
                    == file_path@
                &&& cwd@ == repo_root@
                &&& views(args@) == last_commit_args(relative_path@)
            },
    {
        match self.find_git_root(file_path) {
            Err(e) => GitAction::Done(Err(e)),
            Ok(repo_root) => {
                let relative_path = Self::relative_path(file_path, repo_root.as_str());
                let args = Self::last_commit_git_args(relative_path.as_str());
                GitAction::Run {
                    cwd: repo_root.clone(),
                    args,
                    next: GitMetadataState::LastCommit { repo_root, relative_path },
                }
            },
        }
    }

    /// Takes what Git printed for the step `state` asked for, and says what
    /// the lookup does next. The hash of the last commit comes first, then
    /// the history, then the blob hash; the first of them that fails ends
    /// the lookup with its error.
    pub fn git_metadata_step(state: GitMetadataState, out: GitOutput) -> (r: GitAction)
        ensures
            step_outcome(state, out, r),
            state_trimmed(state) ==> match r {
                GitAction::Run { next, .. } => state_trimmed(next),
                GitAction::Done(Ok(m)) => texts_trimmed(m.commit_hash@) && texts_trimmed(
                    m.blob_hash@,
                ) && lines_trimmed(views(m.history@)),
                GitAction::Done(Err(_)) => true,
            },
    {
        match state {
            GitMetadataState::LastCommit { repo_root, relative_path } => {
                match Self::last_commit_hash_from_output(out) {
                    Err(e) => GitAction::Done(Err(e)),
                    Ok(commit_hash) => {
                        proof {
                            lemma_hash_trimmed(
                                out,
                                commit_failed_message(),
                                commit_empty_message(),
                                commit_hash,
                            );
                        }
                        let args = Self::history_git_args(relative_path.as_str());
                        GitAction::Run {
                            cwd: repo_root.clone(),
                            args,
                            next: GitMetadataState::History { repo_root, relative_path, commit_hash },
                        }
                    },
                }
            },
            GitMetadataState::History { repo_root, relative_path, commit_hash } => {
                match Self::git_history_from_output(out) {
                    Err(e) => GitAction::Done(Err(e)),
                    Ok(history) => {
                        proof {
                            lemma_history_trimmed(out, history);
                        }
                        let args = Self::blob_git_args(relative_path.as_str());
                        GitAction::Run {
                            cwd: repo_root.clone(),
                            args,
                            next: GitMetadataState::BlobHash {
                                repo_root,
                                relative_path,
                                commit_hash,
                                history,
                            },
                        }
                    },
                }
            },
            GitMetadataState::BlobHash { commit_hash, history, .. } => {
                match Self::blob_hash_from_output(out) {
                    Err(e) => GitAction::Done(Err(e)),
                    Ok(blob_hash) => {
                        proof {
                            lemma_hash_trimmed(
                                out,
                                blob_failed_message(),
                                blob_empty_message(),
                                blob_hash,
                            );
                        }
                        GitAction::Done(Ok(GitMetadata { commit_hash, history, blob_hash }))
                    },
                }
            },
        }
    }
}

/// A directory tree as a walk sees it.
pub enum FsNode {
    Directory { path: Seq<char>, children: Seq<FsNode> },
    File { path: Seq<char> },
    Other { path: Seq<char> },
}

/// The path of a node.
pub open spec fn node_path(n: FsNode) -> Seq<char> {
    match n {
        FsNode::Directory { path, .. } => path,
        FsNode::File { path } => path,
        FsNode::Other { path } => path,
    }
}

/// The kind that a listing gives a node.
pub open spec fn node_kind(n: FsNode) -> EntryKind {
    match n {
        FsNode::Directory { .. } => EntryKind::Directory,
        FsNode::File { .. } => EntryKind::File,
        FsNode::Other { .. } => EntryKind::Other,
    }
}

/// The listing of a directory with these children.
pub open spec fn listing_of(children: Seq<FsNode>) -> Seq<(Seq<char>, EntryKind)> {
    children.map_values(|c: FsNode| (node_path(c), node_kind(c)))
}

/// The PDF files of a tree, in depth-first order: a directory's children in
/// the order of its listing, each with all that lies below it.
pub open spec fn node_pdfs(n: FsNode) -> Seq<Seq<char>>
    decreases n,
{
    match n {
        FsNode::Directory { children, .. } => forest_pdfs(children),
        FsNode::File { path } => if is_pdf_path(path) {
            seq![path]
        } else {
            Seq::<Seq<char>>::empty()
        },
        FsNode::Other { .. } => Seq::<Seq<char>>::empty(),
    }
}

/// The PDF files of the trees `nodes`, in order.
pub open spec fn forest_pdfs(nodes: Seq<FsNode>) -> Seq<Seq<char>>
    decreases nodes,
{
    if nodes.len() == 0 {
        Seq::<Seq<char>>::empty()
    } else {
        node_pdfs(nodes[0]) + forest_pdfs(nodes.drop_first())
    }
}

/// The entry that a walk keeps on its stack for a node.
pub open spec fn node_item(n: FsNode) -> Pending {
    match n {
        FsNode::Directory { path, .. } => Pending::Directory(path),
        FsNode::File { path } => Pending::File(path),
        FsNode::Other { path } => Pending::File(path),
    }
}

/// The entries that a walk keeps on its stack for these nodes.
pub open spec fn items_of(nodes: Seq<FsNode>) -> Seq<Pending> {
    nodes.map_values(|n: FsNode| node_item(n))
}

/// Whether none of `nodes` is `Other`.
pub open spec fn no_other(nodes: Seq<FsNode>) -> bool {
    forall|i: int| 0 <= i < nodes.len() ==> !(#[trigger] nodes[i] is Other)
}

/// The nodes that a walk puts on its stack for these children: those that
/// are not `Other`, the first of them on top.
pub open spec fn pushed_nodes(children: Seq<FsNode>) -> Seq<FsNode>
    decreases children.len(),
{
    if children.len() == 0 {
        Seq::<FsNode>::empty()
    } else {
        let rest = pushed_nodes(children.drop_first());
        if children[0] is Other {
            rest
        } else {
            rest.push(children[0])
        }
    }
}

/// The PDF files that a stack of nodes still holds, in the order in which
/// a walk finds them: those of the top first.
pub open spec fn stack_pdfs(nodes: Seq<FsNode>) -> Seq<Seq<char>>
    decreases nodes.len(),
{
    if nodes.len() == 0 {
        Seq::<Seq<char>>::empty()
    } else {
        node_pdfs(nodes.last()) + stack_pdfs(nodes.drop_last())
    }
}

/// A stack of nodes once the files on its top are taken.
pub open spec fn drain_nodes(nodes: Seq<FsNode>) -> Seq<FsNode>
    decreases nodes.len(),
{
    if nodes.len() > 0 && nodes.last() is File {
        drain_nodes(nodes.drop_last())
    } else {
        nodes
    }
}

proof fn lemma_items_push(nodes: Seq<FsNode>, n: FsNode)
    ensures
        items_of(nodes.push(n)) == items_of(nodes).push(node_item(n)),
        nodes.len() > 0 ==> items_of(nodes.drop_last()) == items_of(nodes).drop_last(),
{
    assert(items_of(nodes.push(n)) =~= items_of(nodes).push(node_item(n)));
    if nodes.len() > 0 {
        assert(items_of(nodes.drop_last()) =~= items_of(nodes).drop_last());
    }
}

proof fn lemma_pushed(children: Seq<FsNode>)
    ensures
        items_of(pushed_nodes(children)) == pushed_items(listing_of(children)),
        no_other(pushed_nodes(children)),
        stack_pdfs(pushed_nodes(children)) == forest_pdfs(children),
    decreases children.len(),
{
    if children.len() > 0 {
        let rest = pushed_nodes(children.drop_first());
        lemma_pushed(children.drop_first());
        assert(listing_of(children).drop_first() =~= listing_of(children.drop_first()));
        assert(listing_of(children)[0] == (node_path(children[0]), node_kind(children[0])));
        lemma_items_push(rest, children[0]);
        if !(children[0] is Other) {
            assert(rest.push(children[0]).drop_last() =~= rest);
            assert(stack_pdfs(rest.push(children[0])) == node_pdfs(children[0]) + stack_pdfs(rest));
        } else {
            assert(node_pdfs(children[0]) =~= Seq::<Seq<char>>::empty());
            assert(forest_pdfs(children) =~= forest_pdfs(children.drop_first()));
        }
    } else {
        assert(items_of(pushed_nodes(children)) =~= Seq::<Pending>::empty());
    }
}

proof fn lemma_stack_concat(a: Seq<FsNode>, b: Seq<FsNode>)
    ensures
        stack_pdfs(a + b) == stack_pdfs(b) + stack_pdfs(a),
    decreases b.len(),
{
    if b.len() == 0 {
        assert(a + b =~= a);
        assert(stack_pdfs(b) + stack_pdfs(a) =~= stack_pdfs(a));
    } else {
        lemma_stack_concat(a, b.drop_last());
        assert((a + b).drop_last() =~= a + b.drop_last());
        assert((a + b).last() == b.last());
        assert(stack_pdfs(a + b) =~= stack_pdfs(b) + stack_pdfs(a));
    }
}

proof fn lemma_drain(nodes: Seq<FsNode>, found: Seq<Seq<char>>)
    requires
        no_other(nodes),
    ensures
        ({
            let d = drain(items_of(nodes), found);
            let rest = drain_nodes(nodes);
            &&& no_other(rest)
            &&& d.1 + stack_pdfs(rest) == found + stack_pdfs(nodes)
            &&& rest.len() == 0 ==> d.0.len() == 0 && d.2 is None
            &&& rest.len() > 0 ==> {
                &&& rest.last() is Directory
                &&& d.0 == items_of(rest.drop_last())
                &&& d.2 == Some(node_path(rest.last()))
            }
        }),
    decreases nodes.len(),
{
    let items = items_of(nodes);
    if nodes.len() == 0 {
        assert(found + stack_pdfs(nodes) =~= found);
    } else {
        lemma_items_push(nodes.drop_last(), nodes.last());
        assert(nodes.drop_last().push(nodes.last()) =~= nodes);
        assert(items.last() == node_item(nodes.last()));
        match nodes.last() {
            FsNode::Directory { path, children } => {
                assert(items_of(nodes.drop_last()) == items.drop_last());
                assert(drain(items, found) == (items.drop_last(), found, Some(path)));
                assert(drain_nodes(nodes) == nodes);
            },
            FsNode::File { path } => {
                assert(items_of(nodes.drop_last()) == items.drop_last());
                assert(drain_nodes(nodes) == drain_nodes(nodes.drop_last()));
                let next = if is_pdf_path(path) {
                    found.push(path)
                } else {
                    found
                };
                assert(no_other(nodes.drop_last()));
                lemma_drain(nodes.drop_last(), next);
                assert(drain(items, found) == drain(items.drop_last(), next));
                if is_pdf_path(path) {
                    assert(next =~= found + node_pdfs(nodes.last()));
                } else {
                    assert(next =~= found + node_pdfs(nodes.last()));
                }
                assert(found + stack_pdfs(nodes) =~= next + stack_pdfs(nodes.drop_last()));
            },
            FsNode::Other { .. } => {
                assert(nodes[nodes.len() - 1] is Other);
            },
        }
    }
}

/// Law: a round of a walk over a directory tree keeps what the walk will
/// find. Let a walk hold on its stack the entries of `nodes` (no `Other`
/// among them) and have found `found`. When `next_directory` hands out no
/// directory, what it has found is `found` followed by the PDF files of all
/// of `nodes`. When it hands out a directory, that is the directory node
/// left on top once the files above it are taken, and once the listing of
/// that directory is entered, the walk holds the entries of the nodes below
/// it followed by its children, and what it has found followed by the PDF
/// files of those nodes is again `found` followed by the PDF files of
/// `nodes`.
pub proof fn lemma_walk_round(nodes: Seq<FsNode>, found: Seq<Seq<char>>)
    requires
        no_other(nodes),
    ensures
        ({
            let d = drain(items_of(nodes), found);
            let rest = drain_nodes(nodes);
            &&& d.2 is None ==> d.0.len() == 0 && d.1 == found + stack_pdfs(nodes)
            &&& d.2 is Some ==> (rest.last() matches FsNode::Directory { path, children } && {
                let next = rest.drop_last() + pushed_nodes(children);
                &&& rest.len() > 0
                &&& d.2 == Some(path)
                &&& no_other(next)
                &&& d.0 + pushed_items(listing_of(children)) == items_of(next)
                &&& d.1 + stack_pdfs(next) == found + stack_pdfs(nodes)
            })
        }),
{
    lemma_drain(nodes, found);
    let d = drain(items_of(nodes), found);
    let rest = drain_nodes(nodes);
    if rest.len() == 0 {
        assert(d.1 + stack_pdfs(rest) =~= d.1);
    } else {
        match rest.last() {
            FsNode::Directory { path, children } => {
                let below = rest.drop_last();
                let next = below + pushed_nodes(children);
                lemma_pushed(children);
                lemma_stack_concat(below, pushed_nodes(children));
                assert(items_of(next) =~= items_of(below) + items_of(pushed_nodes(children)));
                assert(no_other(next)) by {
                    assert forall|i: int| 0 <= i < next.len() implies !(#[trigger] next[i] is Other) by {
                        if i < below.len() {
                            assert(next[i] == rest[i]);
                        } else {
                            assert(next[i] == pushed_nodes(children)[i - below.len()]);
                        }
                    }
                }
                assert(stack_pdfs(rest) == node_pdfs(rest.last()) + stack_pdfs(below));
                assert(d.1 + stack_pdfs(next) =~= d.1 + stack_pdfs(rest));
            },
            _ => {},
        }
    }
}

/// Law: a walk started at the root of a tree holds the root alone, and what
/// it has still to find is the PDF files of the whole tree.
pub proof fn lemma_walk_start(root: FsNode)
    requires
        root is Directory,
    ensures
        items_of(seq![root]) == seq![Pending::Directory(node_path(root))],
        no_other(seq![root]),
        Seq::<Seq<char>>::empty() + stack_pdfs(seq![root]) == node_pdfs(root),
{
    assert(items_of(seq![root]) =~= seq![Pending::Directory(node_path(root))]);
    assert(seq![root].drop_last() =~= Seq::<FsNode>::empty());
    assert(seq![root].last() == root);
    assert(stack_pdfs(seq![root]) == node_pdfs(root) + stack_pdfs(Seq::<FsNode>::empty()));
    assert(Seq::<Seq<char>>::empty() + stack_pdfs(seq![root]) =~= node_pdfs(root));
}

/// The number of nodes of a tree.
pub open spec fn node_size(n: FsNode) -> nat
    decreases n,
{
    match n {
        FsNode::Directory { children, .. } => 1 + forest_size(children),
        _ => 1,
    }
}

/// The number of nodes of the trees `nodes`.
pub open spec fn forest_size(nodes: Seq<FsNode>) -> nat
    decreases nodes,
{
    if nodes.len() == 0 {
        0
    } else {
        node_size(nodes[0]) + forest_size(nodes.drop_first())
    }
}

proof fn lemma_forest_size_concat(a: Seq<FsNode>, b: Seq<FsNode>)
    ensures
        forest_size(a + b) == forest_size(a) + forest_size(b),
    decreases a.len(),
{
    if a.len() == 0 {
        assert(a + b =~= b);
    } else {
        lemma_forest_size_concat(a.drop_first(), b);
        assert((a + b).drop_first() =~= a.drop_first() + b);
        assert((a + b)[0] == a[0]);
    }
}

proof fn lemma_forest_size_last(nodes: Seq<FsNode>)
    requires
        nodes.len() > 0,
    ensures
        forest_size(nodes) == forest_size(nodes.drop_last()) + node_size(nodes.last()),
{
    let one = seq![nodes.last()];
    assert(nodes =~= nodes.drop_last() + one);
    lemma_forest_size_concat(nodes.drop_last(), one);
    assert(one.drop_first() =~= Seq::<FsNode>::empty());
    assert(forest_size(one.drop_first()) == 0);
    assert(one[0] == nodes.last());
    assert(forest_size(one) == node_size(nodes.last()));
}

proof fn lemma_pushed_size(children: Seq<FsNode>)
    ensures
        forest_size(pushed_nodes(children)) <= forest_size(children),
    decreases children.len(),
{
    if children.len() > 0 {
        let rest = pushed_nodes(children.drop_first());
        lemma_pushed_size(children.drop_first());
        if !(children[0] is Other) {
            lemma_forest_size_last(rest.push(children[0]));
            assert(rest.push(children[0]).drop_last() =~= rest);
        }
    }
}

proof fn lemma_drain_nodes_size(nodes: Seq<FsNode>)
    ensures
        forest_size(drain_nodes(nodes)) <= forest_size(nodes),
    decreases nodes.len(),
{
    if nodes.len() > 0 && nodes.last() is File {
        lemma_drain_nodes_size(nodes.drop_last());
        lemma_forest_size_last(nodes);
    }
}

/// A round of a walk leaves fewer nodes to walk.
pub proof fn lemma_round_shrinks(nodes: Seq<FsNode>)
    ensures
        ({
            let rest = drain_nodes(nodes);
            rest.len() > 0 ==> (rest.last() matches FsNode::Directory { children, .. }
                ==> forest_size(rest.drop_last() + pushed_nodes(children)) < forest_size(nodes))
        }),
{
    let rest = drain_nodes(nodes);
    lemma_drain_nodes_size(nodes);
    if rest.len() > 0 {
        match rest.last() {
            FsNode::Directory { children, .. } => {
                lemma_forest_size_last(rest);
                lemma_forest_size_concat(rest.drop_last(), pushed_nodes(children));
                lemma_pushed_size(children);
            },
            _ => {},
        }
    }
}

/// What a walk finds, from a stack of `nodes` on, having found `found`:
/// round after round, it takes the directory that `drain` hands out and
/// enters the listing of that directory's children, until no directory is
/// left. Each round leaves fewer nodes to walk, so the walk ends.
pub open spec fn walk_result(nodes: Seq<FsNode>, found: Seq<Seq<char>>) -> Seq<Seq<char>>
    decreases forest_size(nodes),
{
    let d = drain(items_of(nodes), found);
    let rest = drain_nodes(nodes);
    if rest.len() > 0 {
        match rest.last() {
            FsNode::Directory { children, .. } => {
                proof {
                    lemma_round_shrinks(nodes);
                }
                walk_result(rest.drop_last() + pushed_nodes(children), d.1)
            },
            _ => d.1,
        }
    } else {
        d.1
    }
}

proof fn lemma_walk_result(nodes: Seq<FsNode>, found: Seq<Seq<char>>)
    requires
        no_other(nodes),
    ensures
        walk_result(nodes, found) == found + stack_pdfs(nodes),
    decreases forest_size(nodes),
{
    lemma_walk_round(nodes, found);
    lemma_drain(nodes, found);
    lemma_round_shrinks(nodes);
    let d = drain(items_of(nodes), found);
    let rest = drain_nodes(nodes);
    if rest.len() > 0 {
        match rest.last() {
            FsNode::Directory { children, .. } => {
                let next = rest.drop_last() + pushed_nodes(children);
                lemma_walk_result(next, d.1);
                assert(d.1 + stack_pdfs(next) == found + stack_pdfs(nodes));
            },
            _ => {},
        }
    } else {
        assert(d.1 + stack_pdfs(rest) == found + stack_pdfs(nodes));
        assert(d.1 + stack_pdfs(rest) =~= d.1);
    }
}

/// Law: a scan finds exactly the PDF files of the tree, in depth-first
/// order. A walk started at the root of a directory tree, handed each
/// directory's listing when it takes that directory, ends, and what it has
/// then found is the PDF files of the tree: the files whose extension is
/// `pdf` in any case, each directory's children in the order of its listing,
/// each child with all that lies below it.
pub proof fn lemma_scan_finds_tree_pdfs(root: FsNode)
    requires
        root is Directory,
    ensures
        walk_result(seq![root], Seq::<Seq<char>>::empty()) == node_pdfs(root),
{
    lemma_walk_start(root);
    lemma_walk_result(seq![root], Seq::<Seq<char>>::empty());
}

/// Law: a hash read from Git is non-empty and trimmed: trimming it again
/// changes nothing.
pub proof fn lemma_hash_trimmed(out: GitOutput, failed: Seq<char>, empty: Seq<char>, hash: String)
    requires
        hash_outcome(out, failed, empty, Ok(hash)),
    ensures
        texts_trimmed(hash@),
{
    lemma_trim_idempotent(decode_utf8(out.stdout@));
}

/// Law: every commit of a history read from Git is non-empty and trimmed.
pub proof fn lemma_history_trimmed(out: GitOutput, history: Vec<String>)
    requires
        history_outcome(out, Ok(history)),
    ensures
        lines_trimmed(views(history@)),
{
    if out.success {
        lemma_trimmed_nonempty_items(split_lines(decode_utf8(out.stdout@)));
    }
}

/// The hash that Git printed, trimmed.
pub open spec fn printed_text(out: GitOutput) -> Seq<char> {
    trim(decode_utf8(out.stdout@))
}

/// Whether Git printed a hash: it succeeded, and its output is UTF-8 and not
/// blank.
pub open spec fn printed_hash(out: GitOutput) -> bool {
    out.success && valid_utf8(out.stdout@) && printed_text(out).len() > 0
}

/// Whether a history can be read from what Git printed: Git failed, which
/// reads as no history, or its output is UTF-8.
pub open spec fn printed_history(out: GitOutput) -> bool {
    !out.success || valid_utf8(out.stdout@)
}

/// The commits of the history that Git printed.
pub open spec fn history_lines(out: GitOutput) -> Seq<Seq<char>> {
    if out.success {
        nonblank_lines(decode_utf8(out.stdout@))
    } else {
        Seq::empty()
    }
}

/// The action that ends a lookup whose steps gave `a1`, `a2` and `a3`: the
/// first of them that is done.
pub open spec fn lookup_end(a1: GitAction, a2: GitAction, a3: GitAction) -> GitAction {
    if a1 is Done {
        a1
    } else if a2 is Done {
        a2
    } else {
        a3
    }
}

/// Law: a lookup of Git metadata, from its first state, is done after at most
/// three steps. It ends in metadata exactly when Git printed a commit hash, a
/// readable history and a blob hash, and the metadata then holds them, each
/// hash and each commit of the history non-empty and trimmed.
pub proof fn lemma_lookup_in_three_steps(
    s1: GitMetadataState,
    o1: GitOutput,
    a1: GitAction,
    o2: GitOutput,
    a2: GitAction,
    o3: GitOutput,
    a3: GitAction,
)
    requires
        s1 is LastCommit,
        step_outcome(s1, o1, a1),
        a1 matches GitAction::Run { next, .. } ==> step_outcome(next, o2, a2),
        a1 is Run ==> (a2 matches GitAction::Run { next, .. } ==> step_outcome(next, o3, a3)),
    ensures
        lookup_end(a1, a2, a3) is Done,
        lookup_end(a1, a2, a3) matches GitAction::Done(d) && d is Ok <==> {
            &&& printed_hash(o1)
            &&& printed_history(o2)
            &&& printed_hash(o3)
        },
        lookup_end(a1, a2, a3) matches GitAction::Done(d) && d matches Ok(m) ==> {
            &&& m.commit_hash@ == printed_text(o1)
            &&& views(m.history@) == history_lines(o2)
            &&& m.blob_hash@ == printed_text(o3)
            &&& texts_trimmed(m.commit_hash@)
            &&& texts_trimmed(m.blob_hash@)
            &&& lines_trimmed(views(m.history@))
        },
{
    if let GitAction::Run { next: s2, .. } = a1 {
        if let GitMetadataState::History { commit_hash, .. } = s2 {
            lemma_hash_trimmed(o1, commit_failed_message(), commit_empty_message(), commit_hash);
        }
        if let GitAction::Run { next: s3, .. } = a2 {
            if let GitMetadataState::BlobHash { history, .. } = s3 {
                lemma_history_trimmed(o2, history);
            }
            if let GitAction::Done(Ok(m)) = a3 {
                lemma_hash_trimmed(o3, blob_failed_message(), blob_empty_message(), m.blob_hash);
            }
        }
    }
}

} // verus!

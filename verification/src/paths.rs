//! Paths, held as text, and what `std::path` computes of them.
//!
//! The names below stand for what `std::path` returns on given text; they are
//! functions of their arguments alone. Whether a path exists on disk is not,
//! so the probes of the disk promise nothing.

use vstd::prelude::*;

verus! {

/// An optional text seen as an optional sequence of characters.
pub open spec fn opt_view(o: Option<String>) -> Option<Seq<char>> {
    match o {
        Some(s) => Some(s@),
        None => None,
    }
}

/// What `Path::join` gives of `base` and `child`.
pub uninterp spec fn path_join(base: Seq<char>, child: Seq<char>) -> Seq<char>;

/// What `Path::parent` gives of `path`.
pub uninterp spec fn path_parent(path: Seq<char>) -> Option<Seq<char>>;

/// What `Path::extension` gives of `path`.
pub uninterp spec fn path_extension(path: Seq<char>) -> Option<Seq<char>>;

/// What `Path::file_stem` gives of `path`.
pub uninterp spec fn path_file_stem(path: Seq<char>) -> Option<Seq<char>>;

/// What `Path::strip_prefix` gives of `path` with `base` taken off its front.
pub uninterp spec fn path_strip_prefix(path: Seq<char>, base: Seq<char>) -> Option<Seq<char>>;

/// `Path::join`: `base` with `child` appended as a further component.
#[verifier::external_body]
pub fn join_path(base: &str, child: &str) -> (r: String)
    ensures
        r@ == path_join(base@, child@),
{
    std::path::Path::new(base).join(child).to_string_lossy().into_owned()
}

/// `Path::parent`: `path` without its final component, or `None` when it
/// ends in a root or prefix or is empty. As the final component that goes is
/// never empty, the parent is shorter than the path.
#[verifier::external_body]
pub fn parent_of(path: &str) -> (r: Option<String>)
    ensures
        opt_view(r) == path_parent(path@),
        r matches Some(p) ==> p@.len() < path@.len(),
{
    std::path::Path::new(path).parent().map(|p| p.to_string_lossy().into_owned())
}

/// `Path::extension`: what follows the last dot of the file name, if any.
#[verifier::external_body]
pub fn extension_of(path: &str) -> (r: Option<String>)
    ensures
        opt_view(r) == path_extension(path@),
{
    std::path::Path::new(path).extension().map(|e| e.to_string_lossy().into_owned())
}

/// `Path::file_stem`: the file name without its extension, if there is a
/// file name.
#[verifier::external_body]
pub fn file_stem_of(path: &str) -> (r: Option<String>)
    ensures
        opt_view(r) == path_file_stem(path@),
{
    std::path::Path::new(path).file_stem().map(|s| s.to_string_lossy().into_owned())
}

/// `Path::strip_prefix`: `path` relative to `base`, or `None` when `base` is
/// not a prefix of it.
#[verifier::external_body]
pub fn strip_prefix_of(path: &str, base: &str) -> (r: Option<String>)
    ensures
        opt_view(r) == path_strip_prefix(path@, base@),
{
    std::path::Path::new(path).strip_prefix(base).ok().map(|p| p.to_string_lossy().into_owned())
}

/// `Path::exists`: whether something is found at `path` on disk. That depends
/// on the disk, so nothing is stated of the answer.
#[verifier::external_body]
pub fn path_exists(path: &str) -> (r: bool) {
    std::path::Path::new(path).exists()
}

/// `Path::is_dir`: whether a directory is found at `path` on disk. That
/// depends on the disk, so nothing is stated of the answer.
#[verifier::external_body]
pub fn path_is_dir(path: &str) -> (r: bool) {
    std::path::Path::new(path).is_dir()
}

/// Which question a probe of the disk asked.
#[derive(PartialEq, Eq, Structural)]
pub enum ProbeKind {
    /// `Path::exists`.
    Exists,
    /// `Path::is_dir`.
    IsDir,
}

/// An answer of the disk, with the question and the path it answers. Only
/// `probe_exists` and `probe_is_dir` make one, so an answer in hand is the
/// answer that the disk gave to that question about that path.
pub struct DiskAnswer {
    kind: ProbeKind,
    path: String,
    answer: bool,
}

impl DiskAnswer {
    /// The question asked.
    pub closed spec fn kind(self) -> ProbeKind {
        self.kind
    }

    /// The path asked about.
    pub closed spec fn path(self) -> Seq<char> {
        self.path@
    }

    /// What the disk answered.
    pub closed spec fn answer(self) -> bool {
        self.answer
    }

    /// What the disk answered.
    pub fn get(&self) -> (r: bool)
        ensures
            r == self.answer(),
    {
        self.answer
    }
}

/// `d` is the disk's answer `value` to the question `kind` about `path`.
pub open spec fn answered(d: DiskAnswer, kind: ProbeKind, path: Seq<char>, value: bool) -> bool {
    d.kind() == kind && d.path() == path && d.answer() == value
}

/// Asks the disk, with `path_exists`, whether something is found at `path`.
pub fn probe_exists(path: &str) -> (r: DiskAnswer)
    ensures
        r.kind() == ProbeKind::Exists,
        r.path() == path@,
{
    DiskAnswer { kind: ProbeKind::Exists, path: path.to_owned(), answer: path_exists(path) }
}

/// Asks the disk, with `path_is_dir`, whether a directory is found at `path`.
pub fn probe_is_dir(path: &str) -> (r: DiskAnswer)
    ensures
        r.kind() == ProbeKind::IsDir,
        r.path() == path@,
{
    DiskAnswer { kind: ProbeKind::IsDir, path: path.to_owned(), answer: path_is_dir(path) }
}

} // verus!

//! File-system paths, as `std::path` computes them. Paths are held as
//! strings; the operations here are std's, trusted, and platform-dependent
//! (the separator differs), so none of them is given a name.
use vstd::prelude::*;

use crate::text::{contains_seq, no_char};

verus! {

/// `Path::exists`: whether something is at `p` on disk. Nothing is claimed of
/// the answer, which depends on the file system.
#[verifier::external_body]
pub(crate) fn path_exists(p: &str) -> (r: bool) {
    std::path::Path::new(p).exists()
}

/// The answers `path_exists` gave, in order: each path asked and whether
/// something was there. The answers come from the file system; the record is
/// what lets a contract say what was done with them.
pub struct Probe {
    pub answers: Ghost<Seq<(Seq<char>, bool)>>,
}

impl Probe {
    pub fn new() -> (r: Self)
        ensures
            r.answers@ == Seq::<(Seq<char>, bool)>::empty(),
    {
        Probe { answers: Ghost(Seq::empty()) }
    }

    /// Whether something is at `p` on disk, recorded.
    pub fn present(&mut self, p: &str) -> (r: bool)
        ensures
            final(self).answers@ == old(self).answers@.push((p@, r)),
    {
        let r = path_exists(p);
        proof {
            self.answers = Ghost(self.answers@.push((p@, r)));
        }
        r
    }
}

/// A relative path that no platform reads as rooted or prefixed: not empty,
/// not starting with a separator, and holding no drive colon.
pub open spec fn plain_relative(rel: Seq<char>) -> bool {
    rel.len() > 0 && rel[0] != '/' && rel[0] != '\\' && no_char(rel, ':')
}

/// A path that starts with two separators: a UNC, device or verbatim path on
/// Windows, to which `Path::join` may apply its own rules.
pub open spec fn double_rooted(p: Seq<char>) -> bool {
    p.len() >= 2 && (p[0] == '/' || p[0] == '\\') && (p[1] == '/' || p[1] == '\\')
}

/// `Path::join` (through `PathBuf::push`): `rel` appended to `base`, with a
/// separator between them unless `base` is empty or already ends in one.
/// Claimed only for a plainly relative `rel` on a `base` that does not start
/// with two separators; which separator is used (`/` or `\`) depends on the
/// platform and is left open, as is every other case.
#[verifier::external_body]
pub(crate) fn path_join(base: &str, rel: &str) -> (r: String)
    ensures
        plain_relative(rel@) && !double_rooted(base@) ==> (r@ == base@ + rel@ || r@ == base@ + "/"@ + rel@
            || r@ == base@ + "\\"@ + rel@),
{
    std::path::Path::new(base).join(rel).display().to_string()
}

/// `Path::strip_prefix`: the part of `p` that, joined onto `base`, gives `p`
/// back; `None` when `base` is not a leading run of `p`'s components. Nothing
/// is claimed of the answer, whose component rules depend on the platform.
#[verifier::external_body]
pub(crate) fn path_strip_prefix(p: &str, base: &str) -> (r: Option<String>) {
    match std::path::Path::new(p).strip_prefix(base) {
        Ok(rel) => Some(rel.display().to_string()),
        Err(_) => None,
    }
}

/// Whether paths here are Windows paths: `std::path::MAIN_SEPARATOR` is a backslash
/// exactly on Windows targets. Nothing is claimed of the answer, which depends
/// on the machine the program was built for.
#[verifier::external_body]
pub(crate) fn windows_paths() -> (r: bool) {
    std::path::MAIN_SEPARATOR == '\\'
}

/// `Path::file_name`: the final component of `p`, if there is one. Claimed:
/// the component is a piece of `p` (components are slices of the path). What
/// counts as a separator is left unsaid: it depends on the platform and, on
/// Windows, on whether the path is verbatim.
#[verifier::external_body]
pub(crate) fn path_file_name(p: &str) -> (r: Option<String>)
    ensures
        r matches Some(n) ==> contains_seq(p@, n@),
{
    std::path::Path::new(p).file_name().map(|n| n.to_string_lossy().to_string())
}

} // verus!

//! Slash-separated paths, held as text, and the places the supervisor
//! derives from the project root.

use vstd::prelude::*;
use vstd::string::*;

verus! {

/// A path is absolute when it starts at the file-system root.
pub open spec fn is_absolute(path: Seq<char>) -> bool {
    path.len() > 0 && path[0] == '/'
}

/// `rel` resolved against `base`: an absolute `rel` replaces `base`;
/// otherwise `rel` follows `base`, with one separator put between them
/// unless `base` is empty or already ends in one.
pub open spec fn joined(base: Seq<char>, rel: Seq<char>) -> Seq<char> {
    if is_absolute(rel) {
        rel
    } else if base.len() == 0 || base.last() == '/' {
        base + rel
    } else {
        base + seq!['/'] + rel
    }
}

/// The project root that belongs to a manifest directory: its parent.
pub open spec fn root_of(manifest_dir: Seq<char>) -> Seq<char> {
    joined(manifest_dir, ".."@)
}

/// The cache directory below a project root.
pub open spec fn cache_dir_of(root: Seq<char>) -> Seq<char> {
    joined(joined(root, ".cache"@), "desktop"@)
}

/// The file below a cache directory that collects the backend's output.
pub open spec fn log_file_of(cache_dir: Seq<char>) -> Seq<char> {
    joined(cache_dir, "backend-sidecar.log"@)
}

/// A relative path stays below what it is resolved against.
pub proof fn lemma_relative_stays_below(base: Seq<char>, rel: Seq<char>)
    requires
        !is_absolute(rel),
    ensures
        base.is_prefix_of(joined(base, rel)),
        rel.is_suffix_of(joined(base, rel)),
{
    let whole = joined(base, rel);
    assert(whole.subrange(0, base.len() as int) =~= base);
    assert(whole.subrange(whole.len() - rel.len(), whole.len() as int) =~= rel);
}

/// Resolves `rel` against `base`.
pub fn join_path(base: &str, rel: &str) -> (out: String)
    ensures
        out@ == joined(base@, rel@),
{
    let rel_len: usize = rel.unicode_len();
    if rel_len > 0 && rel.get_char(0) == '/' {
        return rel.to_owned();
    }
    let base_len: usize = base.unicode_len();
    let mut out = base.to_owned();
    if base_len > 0 && base.get_char(base_len - 1) != '/' {
        proof {
            reveal_strlit("/");
        }
        out.append("/");
        assert(out@ =~= base@ + seq!['/']);
    }
    out.append(rel);
    out
}

/// The project root, given the directory that holds the desktop shell's
/// manifest: the backend's sources and configuration live one level up.
pub fn project_root(manifest_dir: &str) -> (root: String)
    ensures
        root@ == root_of(manifest_dir@),
{
    join_path(manifest_dir, "..")
}

/// The directory, below the project root, where the supervisor keeps what
/// it writes.
pub fn cache_dir(root: &str) -> (dir: String)
    ensures
        dir@ == cache_dir_of(root@),
{
    let hidden = join_path(root, ".cache");
    join_path(hidden.as_str(), "desktop")
}

/// The log file inside a cache directory.
pub fn log_file(cache_dir: &str) -> (file: String)
    ensures
        file@ == log_file_of(cache_dir@),
{
    join_path(cache_dir, "backend-sidecar.log")
}

} // verus!

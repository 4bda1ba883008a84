//! Deployment-relative path resolution.
//!
//! `resolve` derives the backend directory, the startup script and the
//! classification script from a single resource-root path. It is a pure
//! function of its input and never touches the filesystem; existence checks
//! are the caller's responsibility.

use vstd::prelude::*;
use vstd::string::StrSliceExecFns;
use vstd::string::StringExecFns;

verus! {

/// Joining a directory path and a leaf name with a single separator.
/// An empty base yields the leaf alone; a base that already ends in the
/// separator gets no second one.
pub open spec fn join_spec(base: Seq<char>, leaf: Seq<char>) -> Seq<char> {
    if base.len() == 0 {
        leaf
    } else if base.last() == '/' {
        base + leaf
    } else {
        base + seq!['/'] + leaf
    }
}

/// The backend directory that a resource root implies.
pub open spec fn spec_backend_dir(root: Seq<char>) -> Seq<char> {
    join_spec(root, "backend"@)
}

/// The startup script inside the backend directory.
pub open spec fn spec_start_script(root: Seq<char>) -> Seq<char> {
    join_spec(spec_backend_dir(root), "start_backend.sh"@)
}

/// The classification script inside the backend directory.
pub open spec fn spec_classify_script(root: Seq<char>) -> Seq<char> {
    join_spec(spec_backend_dir(root), "classify_image.py"@)
}

/// The concrete locations derived from one resource root.
pub struct BackendLayout {
    pub backend_dir: String,
    pub start_script: String,
    pub classify_script: String,
}

/// `l` holds exactly the paths that the resource root `root` implies.
pub open spec fn resolved_layout(root: Seq<char>, l: BackendLayout) -> bool {
    &&& l.backend_dir@ == spec_backend_dir(root)
    &&& l.start_script@ == spec_start_script(root)
    &&& l.classify_script@ == spec_classify_script(root)
}

/// Appends `leaf` to the directory path `base`, inserting the separator
/// where one is needed.
pub fn join_path(base: &str, leaf: &str) -> (r: String)
    ensures
        r@ == join_spec(base@, leaf@),
{
    let n = base.unicode_len();
    if n == 0 {
        leaf.to_owned()
    } else if base.get_char(n - 1) == '/' {
        base.to_owned().concat(leaf)
    } else {
        let mut s = base.to_owned();
        s.append("/");
        proof {
            reveal_strlit("/");
            assert(s@ =~= base@ + seq!['/']);
        }
        let r = s.concat(leaf);
        proof {
            assert(r@ =~= base@ + seq!['/'] + leaf@);
        }
        r
    }
}

/// Computes the backend layout for a resource root. Pure: the result is a
/// function of `resource_root` alone, and each path is pinned exactly.
pub fn resolve(resource_root: &str) -> (l: BackendLayout)
    ensures
        resolved_layout(resource_root@, l),
{
    let backend_dir = join_path(resource_root, "backend");
    let start_script = join_path(backend_dir.as_str(), "start_backend.sh");
    let classify_script = join_path(backend_dir.as_str(), "classify_image.py");
    BackendLayout { backend_dir, start_script, classify_script }
}

/// Resolution is deterministic: any two layouts resolved from the same
/// resource root hold identical paths.
pub proof fn lemma_resolve_pure(root: Seq<char>, a: BackendLayout, b: BackendLayout)
    requires
        resolved_layout(root, a),
        resolved_layout(root, b),
    ensures
        a.backend_dir@ == b.backend_dir@,
        a.start_script@ == b.start_script@,
        a.classify_script@ == b.classify_script@,
{
}

} // verus!

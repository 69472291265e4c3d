//! File system paths, handled as strings: joining and telling absolute paths
//! are written out for Unix paths; what else `std::path` decides of them
//! stands behind the functions here.
use vstd::prelude::*;
use vstd::string::StrSliceExecFns;

verus! {

/// The Unix path `name` joined to the directory `dir`: an absolute `name`
/// replaces `dir`; otherwise `name` follows `dir`, after a `/` unless `dir`
/// is empty or already ends with one.
pub open spec fn spec_path_join(dir: Seq<char>, name: Seq<char>) -> Seq<char> {
    if spec_path_is_absolute(name) {
        name
    } else if dir.len() == 0 || dir.last() == '/' {
        dir + name
    } else {
        dir + seq!['/'] + name
    }
}

/// Joins a Unix path to a directory path.
pub(crate) fn path_join(dir: &str, name: &str) -> (r: String)
    ensures
        r@ == spec_path_join(dir@, name@),
{
    if path_is_absolute(name) {
        return name.to_string();
    }
    let n = dir.unicode_len();
    let mut out = dir.to_string();
    if n > 0 && dir.get_char(n - 1) != '/' {
        out.append("/");
    }
    out.append(name);
    proof {
        reveal_strlit("/");
    }
    assert(out@ =~= spec_path_join(dir@, name@));
    out
}

/// Whether the components of `path` begin with those of `base`.
pub uninterp spec fn spec_path_starts_with(path: Seq<char>, base: Seq<char>) -> bool;

/// Whether the components of `path` begin with those of `base` (`Path::starts_with`).
#[verifier::external_body]
pub(crate) fn path_starts_with(path: &str, base: &str) -> (r: bool)
    ensures
        r == spec_path_starts_with(path@, base@),
{
    std::path::Path::new(path).starts_with(base)
}

/// Whether two paths have the same components.
pub uninterp spec fn spec_path_eq(a: Seq<char>, b: Seq<char>) -> bool;

/// Whether two paths have the same components (`==` on `Path`).
#[verifier::external_body]
pub(crate) fn path_eq(a: &str, b: &str) -> (r: bool)
    ensures
        r == spec_path_eq(a@, b@),
{
    std::path::Path::new(a) == std::path::Path::new(b)
}

/// Whether a path ends in a normal component, a file or directory name.
pub uninterp spec fn spec_path_has_file_name(path: Seq<char>) -> bool;

/// Whether a path ends in a normal component (`Path::file_name` is `Some`).
#[verifier::external_body]
pub(crate) fn path_has_file_name(path: &str) -> (r: bool)
    ensures
        r == spec_path_has_file_name(path@),
{
    std::path::Path::new(path).file_name().is_some()
}

/// Whether a path has a `..` component: two dots between separators (or the
/// start or the end of the path), as `Path::components` splits a Unix path.
pub open spec fn spec_path_has_parent_dir(path: Seq<char>) -> bool {
    exists|i: int| #[trigger] spec_parent_dir_at(path, i)
}

/// Whether a `..` component starts at `i`.
pub open spec fn spec_parent_dir_at(path: Seq<char>, i: int) -> bool {
    &&& 0 <= i
    &&& i + 2 <= path.len()
    &&& path[i] == '.'
    &&& path[i + 1] == '.'
    &&& (i == 0 || path[i - 1] == '/')
    &&& (i + 2 == path.len() || path[i + 2] == '/')
}

/// Whether a path has a `..` component.
pub fn path_has_parent_dir(path: &str) -> (r: bool)
    ensures
        r == spec_path_has_parent_dir(path@),
{
    let n = path.unicode_len();
    let mut i: usize = 0;
    while i < n
        invariant
            n == path@.len(),
            0 <= i <= n,
            forall|k: int| 0 <= k < i ==> !spec_parent_dir_at(path@, k),
        decreases n - i,
    {
        if n - i >= 2 && path.get_char(i) == '.' && path.get_char(i + 1) == '.' && (i == 0
            || path.get_char(i - 1) == '/') && (i + 2 == n || path.get_char(i + 2) == '/') {
            assert(spec_parent_dir_at(path@, i as int));
            return true;
        }
        i = i + 1;
    }
    proof {
        assert forall|k: int| !spec_parent_dir_at(path@, k) by {
            if 0 <= k < n {
            }
        }
    }
    false
}

/// Whether a Unix path is absolute: it starts at the root, with a `/`.
pub open spec fn spec_path_is_absolute(path: Seq<char>) -> bool {
    path.len() > 0 && path[0] == '/'
}

/// Whether a Unix path is absolute.
pub fn path_is_absolute(path: &str) -> (r: bool)
    ensures
        r == spec_path_is_absolute(path@),
{
    path.unicode_len() > 0 && path.get_char(0) == '/'
}

} // verus!

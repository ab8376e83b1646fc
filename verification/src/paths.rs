//! Filesystem paths as text: joining a relative component, and the file name
//! and parent that `std::path::Path` finds in a path.
use vstd::prelude::*;

verus! {

/// `base` joined with the relative component `c`, as `Path::join` does: a
/// separator goes between them unless `base` is empty or already ends in one.
pub open spec fn join_path(base: Seq<char>, c: Seq<char>) -> Seq<char> {
    if base.len() == 0 || base.last() == '/' {
        base + c
    } else {
        base + seq!['/'] + c
    }
}

/// What `Path::file_name` gives for a path.
pub uninterp spec fn path_file_name(p: Seq<char>) -> Option<Seq<char>>;

/// What `Path::parent` gives for a path.
pub uninterp spec fn path_parent(p: Seq<char>) -> Option<Seq<char>>;

/// Joins the relative component `c` to `base`.
pub fn join(base: &str, c: &str) -> (r: String)
    requires
        c@.len() > 0 ==> c@[0] != '/',
    ensures
        r@ == join_path(base@, c@),
{
    let mut r = base.to_owned();
    let chars = crate::text::chars_of(base);
    if chars.len() > 0 && chars[chars.len() - 1] != '/' {
        r.append("/");
    }
    r.append(c);
    proof {
        reveal_strlit("/");
        assert(seq!['/'] =~= "/"@);
    }
    r
}

/// `Path::file_name`: the last normal component of the path, `None` where
/// the path ends in `..` or is a root or empty.
#[verifier::external_body]
pub(crate) fn file_name_of(p: &str) -> (r: Option<String>)
    ensures
        match path_file_name(p@) {
            Some(n) => (r matches Some(s) && s@ == n),
            None => r is None,
        },
{
    std::path::Path::new(p).file_name().map(|n| n.to_string_lossy().into_owned())
}

/// `Path::parent`: the path without its last component, `None` for a root
/// or an empty path.
#[verifier::external_body]
pub(crate) fn parent_of(p: &str) -> (r: Option<String>)
    ensures
        match path_parent(p@) {
            Some(n) => (r matches Some(s) && s@ == n),
            None => r is None,
        },
{
    std::path::Path::new(p).parent().map(|n| n.to_string_lossy().into_owned())
}

} // verus!

//! Small verified string utilities: character-wise equality and the
//! path-join rule used for destination and scratch paths.

use vstd::prelude::*;
use vstd::string::StrSliceExecFns;
use vstd::string::StringExecFns;

verus! {

/// Character-wise string equality.
pub fn str_eq(a: &str, b: &str) -> (r: bool)
    ensures
        r == (a@ == b@),
{
    let alen = a.unicode_len();
    let blen = b.unicode_len();
    if alen != blen {
        return false;
    }
    let mut i: usize = 0;
    while i < alen
        invariant
            alen == a@.len(),
            blen == b@.len(),
            alen == blen,
            i <= alen,
            forall|j: int| 0 <= j < i ==> a@[j] == b@[j],
        decreases alen - i,
    {
        if a.get_char(i) != b.get_char(i) {
            return false;
        }
        i += 1;
    }
    proof {
        assert(a@ =~= b@);
    }
    true
}

/// How the gateway forms a path under a root: an absolute right-hand side
/// stands alone, an empty root leaves the right-hand side as it is, and
/// otherwise the two are joined with exactly one separator between them.
pub open spec fn joined_path(root: Seq<char>, rel: Seq<char>) -> Seq<char> {
    if root.len() == 0 {
        rel
    } else if rel.len() > 0 && rel[0] == '/' {
        rel
    } else if root[root.len() - 1] == '/' {
        root + rel
    } else {
        root + "/"@ + rel
    }
}

/// Joins a relative path onto a root directory.
pub fn join_path(root: &str, rel: &str) -> (r: String)
    ensures
        r@ == joined_path(root@, rel@),
{
    let root_len = root.unicode_len();
    if root_len == 0 {
        return rel.to_owned();
    }
    let rel_len = rel.unicode_len();
    if rel_len > 0 && rel.get_char(0) == '/' {
        return rel.to_owned();
    }
    let mut out = root.to_owned();
    if root.get_char(root_len - 1) != '/' {
        out.append("/");
    }
    out.append(rel);
    out
}

} // verus!

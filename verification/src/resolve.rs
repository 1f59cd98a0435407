//! Traversal-safe path resolution.
//!
//! A raw URL path is percent-decoded, joined under the configured root, then
//! canonicalized against the real filesystem by the caller (canonicalization
//! is I/O and lives outside this library).  The caller hands the canonical
//! answer back to `resolve_decision`, which admits the path only when the
//! root is a component-wise prefix of it.  The guard runs on the canonical
//! path, after symlinks and `..` have been resolved, because syntactic checks
//! on the raw path alone are insufficient once symlinks are in play.

use vstd::prelude::*;

use crate::errors::DeliveryError;

verus! {

/// What `percent_encoding::percent_decode_str(..).decode_utf8()` returns for
/// a given input: `None` when the decoded bytes are not valid UTF-8.
pub uninterp spec fn percent_decoded(s: Seq<char>) -> Option<Seq<char>>;

/// Relies on `percent_encoding::percent_decode_str(..).decode_utf8()`: every
/// `%` followed by two hexadecimal digits becomes that byte, any other byte
/// stands for itself, and the decoded bytes must form valid UTF-8.  The
/// outcome depends on the characters of the input alone; in particular an
/// input without `%` decodes to itself.
#[verifier::external_body]
fn percent_decode_utf8(s: &str) -> (r: Option<String>)
    ensures
        (r is Some) == (percent_decoded(s@) is Some),
        r is Some ==> r->0@ == percent_decoded(s@)->0,
        !s@.contains('%') ==> (r is Some && r->0@ == s@),
{
    match percent_encoding::percent_decode_str(s).decode_utf8() {
        Ok(cow) => Some(cow.into_owned()),
        Err(_) => None,
    }
}

/// The candidate path before canonicalization: an absolute request replaces
/// the root (as a path join does), anything else goes below the root with a
/// separator where the root does not already end in one.
pub open spec fn spec_join_under_root(root: Seq<char>, rel: Seq<char>) -> Seq<char> {
    if rel.len() > 0 && rel[0] == '/' {
        rel
    } else if root.len() > 0 && root.last() == '/' {
        root + rel
    } else {
        root + seq!['/'] + rel
    }
}

/// `p` lies within `root`: it is the root itself, or the root followed by a
/// path separator is a prefix of it.
pub open spec fn spec_is_within(root: Seq<char>, p: Seq<char>) -> bool {
    ||| p == root
    ||| (root.len() > 0 && root.last() == '/' && p.len() >= root.len()
        && p.subrange(0, root.len() as int) == root)
    ||| (!(root.len() > 0 && root.last() == '/') && p.len() > root.len()
        && p.subrange(0, root.len() as int) == root && p[root.len() as int] == '/')
}

/// The first `n` characters of `p` and `q` agree.
fn chars_match_prefix(p: &str, q: &str, n: usize) -> (r: bool)
    requires
        n <= p@.len(),
        n <= q@.len(),
    ensures
        r == (p@.subrange(0, n as int) == q@.subrange(0, n as int)),
{
    let mut i: usize = 0;
    while i < n
        invariant
            i <= n,
            n <= p@.len(),
            n <= q@.len(),
            forall|j: int| 0 <= j < i ==> p@[j] == q@[j],
        decreases n - i,
    {
        if p.get_char(i) != q.get_char(i) {
            proof {
                assert(p@.subrange(0, n as int)[i as int] != q@.subrange(0, n as int)[i as int]);
            }
            return false;
        }
        i = i + 1;
    }
    proof {
        assert(p@.subrange(0, n as int) =~= q@.subrange(0, n as int));
    }
    true
}

/// Whether the root is a component-wise prefix of the canonical path: the
/// traversal guard.
pub fn is_within_root(path: &str, root: &str) -> (r: bool)
    ensures
        r == spec_is_within(root@, path@),
{
    let root_len = root.unicode_len();
    let path_len = path.unicode_len();
    if path_len == root_len && chars_match_prefix(path, root, root_len) {
        proof {
            assert(path@.subrange(0, root_len as int) =~= path@);
            assert(root@.subrange(0, root_len as int) =~= root@);
        }
        return true;
    }
    proof {
        assert(root@.subrange(0, root_len as int) =~= root@);
    }
    if root_len > 0 && root.get_char(root_len - 1) == '/' {
        path_len >= root_len && chars_match_prefix(path, root, root_len)
    } else {
        path_len > root_len && chars_match_prefix(path, root, root_len)
            && path.get_char(root_len) == '/'
    }
}

/// Joins the decoded request path under the root directory.
pub fn join_under_root(root: &str, rel: &str) -> (r: String)
    ensures
        r@ == spec_join_under_root(root@, rel@),
{
    proof {
        reveal_strlit("/");
    }
    if rel.unicode_len() > 0 && rel.get_char(0) == '/' {
        return String::from_str(rel);
    }
    let root_len = root.unicode_len();
    let mut s = String::from_str(root);
    if !(root_len > 0 && root.get_char(root_len - 1) == '/') {
        s.append("/");
        proof {
            assert("/"@ =~= seq!['/']);
        }
    }
    s.append(rel);
    s
}

/// The decode-and-join step as a function of the request alone.
pub open spec fn spec_candidate(root: Seq<char>, raw: Seq<char>) -> Result<
    Seq<char>,
    DeliveryError,
> {
    match percent_decoded(raw) {
        Option::None => Result::Err(DeliveryError::InvalidEncoding),
        Option::Some(d) => Result::Ok(spec_join_under_root(root, d)),
    }
}

/// The admission decision on the canonical answer: a missing path is not
/// found, a path escaping the root is blocked, anything else is admitted.
pub open spec fn spec_resolve_decision(root: Seq<char>, canonical: Option<Seq<char>>) -> Result<
    Seq<char>,
    DeliveryError,
> {
    match canonical {
        Option::None => Result::Err(DeliveryError::NotFound),
        Option::Some(c) => if spec_is_within(root, c) {
            Result::Ok(c)
        } else {
            Result::Err(DeliveryError::TraversalBlocked)
        },
    }
}

/// The whole resolution as a function of the request and the filesystem's
/// canonicalization answer.
pub open spec fn spec_resolution(
    root: Seq<char>,
    raw: Seq<char>,
    canonical: Option<Seq<char>>,
) -> Result<Seq<char>, DeliveryError> {
    match spec_candidate(root, raw) {
        Result::Err(e) => Result::Err(e),
        Result::Ok(_) => spec_resolve_decision(root, canonical),
    }
}

/// A `Result` of an owned path, seen at the specification level.
pub open spec fn path_result_view(r: Result<String, DeliveryError>) -> Result<
    Seq<char>,
    DeliveryError,
> {
    match r {
        Result::Ok(s) => Result::Ok(s@),
        Result::Err(e) => Result::Err(e),
    }
}

/// Decodes the raw request path and joins it under the root, rejecting
/// invalid percent-encoded UTF-8; the caller canonicalizes the result
/// against the filesystem and hands the answer to `resolve_decision`.  A
/// request without `%` decodes to itself, so it is never rejected here.
pub fn candidate_path(root: &str, raw_path: &str) -> (r: Result<String, DeliveryError>)
    ensures
        path_result_view(r) == spec_candidate(root@, raw_path@),
        !raw_path@.contains('%') ==> (r matches Ok(c) && c@ == spec_join_under_root(
            root@,
            raw_path@,
        )),
{
    match percent_decode_utf8(raw_path) {
        None => Err(DeliveryError::InvalidEncoding),
        Some(decoded) => Ok(join_under_root(root, decoded.as_str())),
    }
}

/// Decides on the canonicalization answer for a candidate path: `None`
/// (the path does not exist or could not be canonicalized) is `NotFound`;
/// a canonical path not lying within the root is `TraversalBlocked`; any
/// other is admitted unchanged.
pub fn resolve_decision(root: &str, canonical: Option<String>) -> (r: Result<
    String,
    DeliveryError,
>)
    ensures
        path_result_view(r) == spec_resolve_decision(
            root@,
            match canonical {
                Option::None => Option::None,
                Option::Some(c) => Option::Some(c@),
            },
        ),
        r matches Ok(p) ==> spec_is_within(root@, p@),
{
    match canonical {
        None => Err(DeliveryError::NotFound),
        Some(c) => {
            if is_within_root(c.as_str(), root) {
                Ok(c)
            } else {
                Err(DeliveryError::TraversalBlocked)
            }
        },
    }
}

/// Law (traversal safety): whatever the raw request path and whatever the
/// filesystem answers, a resolution that succeeds yields a path lying
/// within the root; no input produces a path outside it.
pub proof fn lemma_traversal_safety(
    root: Seq<char>,
    raw: Seq<char>,
    canonical: Option<Seq<char>>,
)
    ensures
        spec_resolution(root, raw, canonical) matches Ok(p) ==> spec_is_within(root, p),
{
}

/// Law (idempotence of resolution): resolution is a pure function of the
/// request and the canonicalization answer, so resolving the same raw path
/// twice without a filesystem change in between yields the same canonical
/// path both times.
pub proof fn lemma_resolution_idempotent(
    root: Seq<char>,
    raw: Seq<char>,
    canonical: Option<Seq<char>>,
    r1: Result<Seq<char>, DeliveryError>,
    r2: Result<Seq<char>, DeliveryError>,
)
    requires
        r1 == spec_resolution(root, raw, canonical),
        r2 == spec_resolution(root, raw, canonical),
    ensures
        r1 == r2,
{
}

} // verus!

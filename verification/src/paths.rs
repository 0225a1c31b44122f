//! Path handling over character sequences: absolute and relative path
//! validation, directory normalization, prefix tests, and the
//! prefix-freedom argument that keeps the atomic-write fallback namespace
//! apart from the destination namespace.

use vstd::prelude::*;

verus! {

/// `p` is a prefix of `s`.
pub open spec fn spec_starts_with(s: Seq<char>, p: Seq<char>) -> bool {
    p.len() <= s.len() && s.subrange(0, p.len() as int) == p
}

/// An absolute path: non-empty and rooted.
pub open spec fn spec_abs_path(s: Seq<char>) -> bool {
    s.len() >= 1 && s[0] == '/'
}

/// A directory-shaped path: ends in the separator.
pub open spec fn spec_ends_slash(s: Seq<char>) -> bool {
    s.len() >= 1 && s[s.len() - 1] == '/'
}

/// A well-formed relative path: non-empty and not rooted.
pub open spec fn spec_rel_path(s: Seq<char>) -> bool {
    s.len() >= 1 && s[0] != '/'
}

/// Neither path is a prefix of the other, so no path under the one can
/// equal a path under the other.
pub open spec fn spec_prefix_free(a: Seq<char>, b: Seq<char>) -> bool {
    !spec_starts_with(a, b) && !spec_starts_with(b, a)
}

/// The normalized directory form: guaranteed to end in the separator.
pub open spec fn spec_normalize_dir(s: Seq<char>) -> Seq<char> {
    if spec_ends_slash(s) {
        s
    } else {
        s.push('/')
    }
}

/// Whether two string slices hold the same characters.
pub fn str_eq(a: &str, b: &str) -> (r: bool)
    ensures
        r == (a@ == b@),
{
    let an = a.unicode_len();
    let bn = b.unicode_len();
    if an != bn {
        return false;
    }
    let mut i: usize = 0;
    while i < an
        invariant
            i <= an,
            an == a@.len(),
            an == b@.len(),
            forall|j: int| 0 <= j < i ==> a@[j] == b@[j],
        decreases an - i,
    {
        if a.get_char(i) != b.get_char(i) {
            return false;
        }
        i += 1;
    }
    proof {
        assert(a@ =~= b@);
    }
    true
}

/// Whether `s` starts with `p`.
pub fn starts_with(s: &str, p: &str) -> (r: bool)
    ensures
        r == spec_starts_with(s@, p@),
{
    let sn = s.unicode_len();
    let pn = p.unicode_len();
    if pn > sn {
        return false;
    }
    let mut i: usize = 0;
    while i < pn
        invariant
            i <= pn,
            pn <= sn,
            sn == s@.len(),
            pn == p@.len(),
            forall|j: int| 0 <= j < i ==> s@[j] == p@[j],
        decreases pn - i,
    {
        if s.get_char(i) != p.get_char(i) {
            proof {
                assert(s@.subrange(0, p@.len() as int)[i as int] == s@[i as int]);
            }
            return false;
        }
        i += 1;
    }
    proof {
        assert(s@.subrange(0, p@.len() as int) =~= p@);
    }
    true
}

/// Concatenates two string slices into an owned string.
pub fn join(a: &str, b: &str) -> (r: String)
    ensures
        r@ == a@ + b@,
{
    let mut s = a.to_owned();
    s.append(b);
    s
}

/// Whether `s` is a well-formed absolute path.
pub fn is_abs_path(s: &str) -> (r: bool)
    ensures
        r == spec_abs_path(s@),
{
    let n = s.unicode_len();
    if n == 0 {
        return false;
    }
    s.get_char(0) == '/'
}

/// Whether `s` is a well-formed relative path.
pub fn is_rel_path(s: &str) -> (r: bool)
    ensures
        r == spec_rel_path(s@),
{
    let n = s.unicode_len();
    if n == 0 {
        return false;
    }
    s.get_char(0) != '/'
}

/// Whether `s` ends in the separator.
pub fn ends_slash(s: &str) -> (r: bool)
    ensures
        r == spec_ends_slash(s@),
{
    let n = s.unicode_len();
    if n == 0 {
        return false;
    }
    s.get_char(n - 1) == '/'
}

/// Normalizes a path to directory form by appending the separator when it
/// is missing.
pub fn normalize_dir(s: &str) -> (r: String)
    ensures
        r@ == spec_normalize_dir(s@),
        spec_ends_slash(r@),
{
    if ends_slash(s) {
        s.to_owned()
    } else {
        let r = join(s, "/");
        proof {
            reveal_strlit("/");
            assert(r@ =~= s@.push('/'));
        }
        r
    }
}

/// The position of the last separator in `s`, if any.
pub fn find_last_slash(s: &str) -> (r: Option<usize>)
    ensures
        match r {
            Some(i) => {
                &&& i < s@.len()
                &&& s@[i as int] == '/'
                &&& forall|j: int| i < j < s@.len() ==> s@[j] != '/'
            },
            None => forall|j: int| 0 <= j < s@.len() ==> s@[j] != '/',
        },
{
    let n = s.unicode_len();
    let mut k: usize = n;
    while k > 0
        invariant
            k <= n,
            n == s@.len(),
            forall|j: int| k <= j < n ==> s@[j] != '/',
        decreases k,
    {
        let idx = k - 1;
        if s.get_char(idx) == '/' {
            return Some(idx);
        }
        k = idx;
    }
    None
}

/// Paths under prefix-free namespaces never collide: when neither of two
/// prefixes is a prefix of the other, no extension of the one equals an
/// extension of the other. This is what keeps every temporary path of the
/// atomic-write fallback distinct from every destination path.
pub proof fn lemma_prefix_free_no_collision(a: Seq<char>, x: Seq<char>, b: Seq<char>, y: Seq<char>)
    requires
        spec_prefix_free(a, b),
    ensures
        a + x != b + y,
{
    if a + x == b + y {
        if a.len() <= b.len() {
            assert forall|j: int| 0 <= j < a.len() implies b.subrange(0, a.len() as int)[j] == a[j] by {
                assert((a + x)[j] == a[j]);
                assert((b + y)[j] == b[j]);
            }
            assert(b.subrange(0, a.len() as int) =~= a);
            assert(spec_starts_with(b, a));
        } else {
            assert forall|j: int| 0 <= j < b.len() implies a.subrange(0, b.len() as int)[j] == b[j] by {
                assert((a + x)[j] == a[j]);
                assert((b + y)[j] == b[j]);
            }
            assert(a.subrange(0, b.len() as int) =~= b);
            assert(spec_starts_with(a, b));
        }
    }
}

} // verus!

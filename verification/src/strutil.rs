use vstd::prelude::*;

verus! {

/// True exactly when `prefix` is an initial segment of `s`.
pub fn str_starts_with(s: &str, prefix: &str) -> (r: bool)
    ensures
        r == prefix@.is_prefix_of(s@),
{
    let n = prefix.unicode_len();
    let m = s.unicode_len();
    if n > m {
        return false;
    }
    let mut i: usize = 0;
    while i < n
        invariant
            0 <= i <= n,
            n == prefix@.len(),
            m == s@.len(),
            n <= m,
            forall|j: int| 0 <= j < i ==> s@[j] == prefix@[j],
        decreases n - i,
    {
        if s.get_char(i) != prefix.get_char(i) {
            proof {
                assert(!prefix@.is_prefix_of(s@)) by {
                    if prefix@.is_prefix_of(s@) {
                        assert(prefix@[i as int] == s@.subrange(0, n as int)[i as int]);
                    }
                }
            }
            return false;
        }
        i += 1;
    }
    proof {
        assert(prefix@ =~= s@.subrange(0, n as int));
    }
    true
}

/// True exactly when the two string slices hold the same characters.
pub fn str_eq(a: &str, b: &str) -> (r: bool)
    ensures
        r == (a@ == b@),
{
    if a.unicode_len() != b.unicode_len() {
        return false;
    }
    let r = str_starts_with(a, b);
    proof {
        if b@.is_prefix_of(a@) {
            assert(a@.subrange(0, a@.len() as int) =~= a@);
        }
        if a@ == b@ {
            assert(b@.is_prefix_of(a@));
        }
    }
    r
}

/// Removes `prefix` from the front of `s`; `None` exactly when `prefix` is not
/// an initial segment of `s`.
pub fn strip_prefix_str(s: &str, prefix: &str) -> (r: Option<String>)
    ensures
        r is Some <==> prefix@.is_prefix_of(s@),
        r matches Some(rest) ==> rest@ == s@.skip(prefix@.len() as int),
{
    if str_starts_with(s, prefix) {
        let rest = s.substring_char(prefix.unicode_len(), s.unicode_len());
        proof {
            assert(rest@ =~= s@.skip(prefix@.len() as int));
        }
        Some(rest.to_owned())
    } else {
        None
    }
}

/// Splits a tracking-branch shorthand at its last separator: for
/// `remote/branch` shapes the part before the last `/` and the part after it;
/// with no `/` at all, no remote and the whole name as the branch.
pub fn split_remote_branch(name: &str) -> (r: (Option<String>, String))
    ensures
        r.0 is None ==> (forall|k: int| 0 <= k < name@.len() ==> name@[k] != '/') && r.1@ == name@,
        r.0 matches Some(remote) ==> exists|i: int|
            0 <= i < name@.len() && name@[i] == '/' && (forall|k: int|
                i < k < name@.len() ==> name@[k] != '/') && remote@ == name@.take(i) && r.1@
                == name@.skip(i + 1),
{
    let m = name.unicode_len();
    let mut j: usize = m;
    // After the scan, j is one past the last '/', or 0 when there is none.
    while j > 0
        invariant
            0 <= j <= m,
            m == name@.len(),
            forall|k: int| j <= k < m ==> name@[k] != '/',
        decreases j,
    {
        if name.get_char(j - 1) == '/' {
            let remote = name.substring_char(0, j - 1);
            let branch = name.substring_char(j, m);
            proof {
                assert(remote@ =~= name@.take(j - 1));
                assert(branch@ =~= name@.skip(j as int));
            }
            return (Some(remote.to_owned()), branch.to_owned());
        }
        j -= 1;
    }
    (None, name.to_owned())
}

} // verus!

//! Small verified operations on text: suffix tests and path joining, stated
//! over the character sequences of the strings.
use vstd::prelude::*;
use vstd::string::*;

verus! {

/// `s` ends with `suffix`.
pub open spec fn spec_ends_with(s: Seq<char>, suffix: Seq<char>) -> bool {
    suffix.len() <= s.len() && s.subrange(s.len() - suffix.len(), s.len() as int) == suffix
}

/// Tells whether `s` ends with `suffix`.
pub fn ends_with(s: &str, suffix: &str) -> (b: bool)
    ensures
        b == spec_ends_with(s@, suffix@),
{
    let n = s.unicode_len();
    let m = suffix.unicode_len();
    if m > n {
        return false;
    }
    let off = n - m;
    let mut i: usize = 0;
    while i < m
        invariant
            n == s@.len(),
            m == suffix@.len(),
            off == n - m,
            i <= m,
            forall|j: int| 0 <= j < i ==> s@[off + j] == suffix@[j],
        decreases m - i,
    {
        if s.get_char(off + i) != suffix.get_char(i) {
            assert(s@.subrange(off as int, n as int)[i as int] != suffix@[i as int]);
            return false;
        }
        i = i + 1;
    }
    assert(s@.subrange(off as int, n as int) =~= suffix@);
    true
}

/// `dir/name`.
pub fn join_path(dir: &str, name: &str) -> (r: String)
    ensures
        r@ == dir@ + seq!['/'] + name@,
{
    let mut r = String::from_str(dir);
    let sep = "/";
    proof {
        reveal_strlit("/");
    }
    r.append(sep);
    r.append(name);
    r
}

} // verus!

//! Small string helpers shared across the crate: equality, ASCII
//! case-insensitive comparison, and slash-aware path joining.
use vstd::prelude::*;

verus! {

/// Relies on str's PartialEq: true exactly when the two strings hold
/// the same characters.
#[verifier::external_body]
pub(crate) fn str_eq(a: &str, b: &str) -> (r: bool)
    ensures
        r == (a@ == b@),
{
    a == b
}

pub open spec fn spec_lower_char(c: char) -> char {
    if 'A' <= c && c <= 'Z' {
        (((c as u8) + 32) as char)
    } else {
        c
    }
}

/// ASCII lowercasing of a character sequence; other characters are kept.
pub open spec fn spec_lower(s: Seq<char>) -> Seq<char> {
    s.map_values(|c: char| spec_lower_char(c))
}

pub fn lower_char(c: char) -> (r: char)
    ensures
        r == spec_lower_char(c),
{
    if 'A' <= c && c <= 'Z' {
        ((c as u8) + 32) as char
    } else {
        c
    }
}

/// True exactly when the two strings agree after ASCII lowercasing.
pub fn eq_ignore_case(a: &str, b: &str) -> (r: bool)
    ensures
        r == (spec_lower(a@) == spec_lower(b@)),
{
    let n = a.unicode_len();
    if n != b.unicode_len() {
        proof {
            assert(spec_lower(a@).len() == a@.len());
            assert(spec_lower(b@).len() == b@.len());
        }
        return false;
    }
    let mut i: usize = 0;
    while i < n
        invariant
            n == a@.len(),
            n == b@.len(),
            i <= n,
            forall|j: int| 0 <= j < i ==> spec_lower_char(a@[j]) == spec_lower_char(b@[j]),
        decreases n - i,
    {
        if lower_char(a.get_char(i)) != lower_char(b.get_char(i)) {
            proof {
                assert(spec_lower(a@)[i as int] != spec_lower(b@)[i as int]);
            }
            return false;
        }
        i = i + 1;
    }
    proof {
        assert(spec_lower(a@) =~= spec_lower(b@));
    }
    true
}

/// The first index at or after `i` holding `c`, or the length when
/// none does.
pub open spec fn spec_find_char(s: Seq<char>, i: int, c: char) -> int
    decreases s.len() - i,
{
    if i < 0 || i >= s.len() {
        s.len() as int
    } else if s[i] == c {
        i
    } else {
        spec_find_char(s, i + 1, c)
    }
}

pub proof fn lemma_find_char_from(s: Seq<char>, i: int, j: int, c: char)
    requires
        0 <= i <= j <= s.len(),
        forall|k: int| i <= k < j ==> s[k] != c,
        j < s.len() ==> s[j] == c,
    ensures
        spec_find_char(s, i, c) == j,
    decreases j - i,
{
    if i < j {
        lemma_find_char_from(s, i + 1, j, c);
    }
}

/// The first index at or after `from` holding `c`, or the length.
pub fn find_char(s: &str, from: usize, c: char) -> (r: usize)
    requires
        from <= s@.len(),
    ensures
        from <= r <= s@.len(),
        r == spec_find_char(s@, from as int, c),
{
    let n = s.unicode_len();
    let mut j: usize = from;
    while j < n && s.get_char(j) != c
        invariant
            n == s@.len(),
            from <= j <= n,
            forall|k: int| from <= k < j ==> s@[k] != c,
        decreases n - j,
    {
        j = j + 1;
    }
    proof {
        lemma_find_char_from(s@, from as int, j as int, c);
    }
    j
}

/// The sequence with every trailing '/' removed.
pub open spec fn spec_trim_slashes(s: Seq<char>) -> Seq<char>
    decreases s.len(),
{
    if s.len() > 0 && s.last() == '/' {
        spec_trim_slashes(s.drop_last())
    } else {
        s
    }
}

/// `root` with trailing slashes removed, then '/', then `name`: the
/// directory that `name` owns under `root`.
pub fn join_under(root: &str, name: &str) -> (r: String)
    ensures
        r@ == spec_trim_slashes(root@) + seq!['/'] + name@,
{
    let n = root.unicode_len();
    let mut k: usize = n;
    proof {
        assert(root@.subrange(0, n as int) =~= root@);
    }
    while k > 0 && root.get_char(k - 1) == '/'
        invariant
            n == root@.len(),
            k <= n,
            spec_trim_slashes(root@) == spec_trim_slashes(root@.subrange(0, k as int)),
        decreases k,
    {
        proof {
            assert(root@.subrange(0, k as int).drop_last() =~= root@.subrange(0, k - 1));
        }
        k = k - 1;
    }
    proof {
        assert(spec_trim_slashes(root@.subrange(0, k as int)) == root@.subrange(0, k as int));
        reveal_strlit("/");
    }
    let base = root.substring_char(0, k).to_owned();
    let base = base.concat("/");
    let r = base.concat(name);
    proof {
        assert(r@ =~= spec_trim_slashes(root@) + seq!['/'] + name@);
    }
    r
}

} // verus!

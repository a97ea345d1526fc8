//! Decimal text for integers: rendering and the value of digit runs.
use vstd::prelude::*;

verus! {

pub open spec fn spec_digit_char(d: int) -> char {
    if d == 0 {
        '0'
    } else if d == 1 {
        '1'
    } else if d == 2 {
        '2'
    } else if d == 3 {
        '3'
    } else if d == 4 {
        '4'
    } else if d == 5 {
        '5'
    } else if d == 6 {
        '6'
    } else if d == 7 {
        '7'
    } else if d == 8 {
        '8'
    } else {
        '9'
    }
}

/// The decimal rendering of a non-negative integer, most significant
/// digit first, with no leading zeros (a lone zero for 0).
pub open spec fn spec_udigits(n: int) -> Seq<char>
    decreases n,
{
    if n < 10 {
        seq![spec_digit_char(n)]
    } else {
        spec_udigits(n / 10) + seq![spec_digit_char(n % 10)]
    }
}

/// The decimal rendering of a signed integer: a minus sign before the
/// digits of the magnitude when negative.
pub open spec fn spec_idigits(n: int) -> Seq<char> {
    if n < 0 {
        seq!['-'] + spec_udigits(-n)
    } else {
        spec_udigits(n)
    }
}

pub open spec fn spec_is_digit(c: char) -> bool {
    '0' <= c && c <= '9'
}

pub open spec fn spec_digit_val(c: char) -> int {
    c as int - 48
}

/// The value of a run of decimal digits, most significant first.
pub open spec fn spec_digits_val(s: Seq<char>) -> int
    decreases s.len(),
{
    if s.len() == 0 {
        0
    } else {
        spec_digits_val(s.drop_last()) * 10 + spec_digit_val(s.last())
    }
}

/// The end of the run of decimal digits starting at `i`: the first
/// index at or after `i` that is out of range or not a digit.
pub open spec fn spec_run_end(s: Seq<char>, i: int) -> int
    decreases s.len() - i,
{
    if i < 0 || i >= s.len() || !spec_is_digit(s[i]) {
        i
    } else {
        spec_run_end(s, i + 1)
    }
}

/// A scan that saw digits on [i, j) and stopped at `j` pins
/// `spec_run_end` down.
pub proof fn lemma_run_end_from(s: Seq<char>, i: int, j: int)
    requires
        0 <= i <= j <= s.len(),
        forall|k: int| i <= k < j ==> spec_is_digit(s[k]),
        j < s.len() ==> !spec_is_digit(s[j]),
    ensures
        spec_run_end(s, i) == j,
    decreases j - i,
{
    if i < j {
        lemma_run_end_from(s, i + 1, j);
    }
}

pub proof fn lemma_run_end_props(s: Seq<char>, i: int)
    requires
        0 <= i <= s.len(),
    ensures
        i <= spec_run_end(s, i) <= s.len(),
        forall|k: int| i <= k < spec_run_end(s, i) ==> spec_is_digit(s[k]),
        spec_run_end(s, i) < s.len() ==> !spec_is_digit(s[spec_run_end(s, i)]),
    decreases s.len() - i,
{
    if i < s.len() && spec_is_digit(s[i]) {
        lemma_run_end_props(s, i + 1);
    }
}

pub fn is_digit_char(c: char) -> (r: bool)
    ensures
        r == spec_is_digit(c),
{
    '0' <= c && c <= '9'
}

/// The first index at or after `from` that does not hold a digit.
pub fn run_end(s: &str, from: usize) -> (r: usize)
    requires
        from <= s@.len(),
    ensures
        from <= r <= s@.len(),
        r == spec_run_end(s@, from as int),
{
    let n = s.unicode_len();
    let mut j: usize = from;
    while j < n && is_digit_char(s.get_char(j))
        invariant
            n == s@.len(),
            from <= j <= n,
            forall|k: int| from <= k < j ==> spec_is_digit(s@[k]),
        decreases n - j,
    {
        j = j + 1;
    }
    proof {
        lemma_run_end_from(s@, from as int, j as int);
    }
    j
}

pub fn digit_val(c: char) -> (r: u8)
    requires
        spec_is_digit(c),
    ensures
        r == spec_digit_val(c),
        r <= 9,
{
    (c as u8) - 48
}

/// The value of the digit run on [i, e), which holds at most three
/// digits.
pub fn short_digits_val(s: &str, i: usize, e: usize) -> (r: u16)
    requires
        i < e <= s@.len(),
        e - i <= 3,
        forall|k: int| i <= k < e ==> spec_is_digit(s@[k]),
    ensures
        r == spec_digits_val(s@.subrange(i as int, e as int)),
        r <= 999,
{
    proof {
        assert(s@.subrange(i as int, i + 1).drop_last() =~= s@.subrange(i as int, i as int));
        assert(spec_digits_val(s@.subrange(i as int, i as int)) == 0);
        assert(spec_digits_val(s@.subrange(i as int, i + 1)) == spec_digit_val(s@[i as int]));
        if e - i >= 2 {
            assert(s@.subrange(i as int, i + 2).drop_last() =~= s@.subrange(i as int, i + 1));
            assert(spec_digits_val(s@.subrange(i as int, i + 2)) == spec_digit_val(s@[i as int])
                * 10 + spec_digit_val(s@[i + 1]));
        }
        if e - i == 3 {
            assert(s@.subrange(i as int, i + 3).drop_last() =~= s@.subrange(i as int, i + 2));
            assert(spec_digits_val(s@.subrange(i as int, i + 3)) == (spec_digit_val(
                s@[i as int],
            ) * 10 + spec_digit_val(s@[i + 1])) * 10 + spec_digit_val(s@[i + 2]));
        }
    }
    if e - i == 1 {
        digit_val(s.get_char(i)) as u16
    } else if e - i == 2 {
        (digit_val(s.get_char(i)) as u16) * 10 + (digit_val(s.get_char(i + 1)) as u16)
    } else {
        (digit_val(s.get_char(i)) as u16) * 100 + (digit_val(s.get_char(i + 1)) as u16) * 10 + (
        digit_val(s.get_char(i + 2)) as u16)
    }
}

pub open spec fn spec_pow10(n: nat) -> int
    decreases n,
{
    if n == 0 {
        1
    } else {
        10 * spec_pow10((n - 1) as nat)
    }
}

/// A digit run's value is bounded by the power of ten of its length.
pub proof fn lemma_digits_val_bound(s: Seq<char>)
    requires
        forall|k: int| 0 <= k < s.len() ==> spec_is_digit(s[k]),
    ensures
        0 <= spec_digits_val(s) < spec_pow10(s.len()),
    decreases s.len(),
{
    if s.len() > 0 {
        lemma_digits_val_bound(s.drop_last());
        assert(spec_pow10(s.len()) == 10 * spec_pow10((s.len() - 1) as nat));
    }
}

/// A digit run that starts with a nonzero digit is at least the power
/// of ten of its length less one.
pub proof fn lemma_digits_val_lower(s: Seq<char>)
    requires
        s.len() >= 1,
        forall|k: int| 0 <= k < s.len() ==> spec_is_digit(s[k]),
        s[0] != '0',
    ensures
        spec_digits_val(s) >= spec_pow10((s.len() - 1) as nat),
    decreases s.len(),
{
    if s.len() > 1 {
        lemma_digits_val_lower(s.drop_last());
        assert(spec_pow10((s.len() - 1) as nat) == 10 * spec_pow10((s.len() - 2) as nat));
    } else {
        assert(spec_digits_val(s.drop_last()) == 0);
        assert(spec_digit_val(s[0]) >= 1);
    }
}

/// Leading zeros do not change a digit run's value.
pub proof fn lemma_digits_val_strip(s: Seq<char>, i: int, z: int, j: int)
    requires
        0 <= i <= z <= j <= s.len(),
        forall|k: int| i <= k < z ==> s[k] == '0',
    ensures
        spec_digits_val(s.subrange(i, j)) == spec_digits_val(s.subrange(z, j)),
    decreases j,
{
    if j == z {
        lemma_digits_val_all_zeros(s.subrange(i, j));
        assert(s.subrange(z, j) =~= Seq::<char>::empty());
    } else {
        assert(s.subrange(i, j).drop_last() =~= s.subrange(i, j - 1));
        assert(s.subrange(z, j).drop_last() =~= s.subrange(z, j - 1));
        assert(s.subrange(i, j).last() == s[j - 1]);
        assert(s.subrange(z, j).last() == s[j - 1]);
        lemma_digits_val_strip(s, i, z, j - 1);
    }
}

/// A run of zeros has value zero.
pub proof fn lemma_digits_val_all_zeros(s: Seq<char>)
    requires
        forall|k: int| 0 <= k < s.len() ==> s[k] == '0',
    ensures
        spec_digits_val(s) == 0,
    decreases s.len(),
{
    if s.len() > 0 {
        lemma_digits_val_all_zeros(s.drop_last());
    }
}

/// The value of the digit run on [i, e), which holds at most nineteen
/// digits.
pub fn long_digits_val(s: &str, i: usize, e: usize) -> (r: u64)
    requires
        i <= e <= s@.len(),
        e - i <= 19,
        forall|k: int| i <= k < e ==> spec_is_digit(s@[k]),
    ensures
        r == spec_digits_val(s@.subrange(i as int, e as int)),
{
    let mut val: u64 = 0;
    let mut p: u64 = 1;
    let mut k: usize = i;
    proof {
        assert(s@.subrange(i as int, i as int) =~= Seq::<char>::empty());
    }
    while k < e
        invariant
            i <= k <= e <= s@.len(),
            e - i <= 19,
            forall|kk: int| i <= kk < e ==> spec_is_digit(s@[kk]),
            val == spec_digits_val(s@.subrange(i as int, k as int)),
            p == spec_pow10((k - i) as nat),
            val < p,
        decreases e - k,
    {
        let d = digit_val(s.get_char(k));
        proof {
            assert(s@.subrange(i as int, k + 1).drop_last() =~= s@.subrange(i as int, k as int));
            assert(s@.subrange(i as int, k + 1).last() == s@[k as int]);
            assert(spec_pow10(((k + 1) - i) as nat) == 10 * spec_pow10((k - i) as nat));
            lemma_pow10_values();
            lemma_pow10_monotone((k - i) as nat, 18);
        }
        val = val * 10 + (d as u64);
        p = p * 10;
        k = k + 1;
    }
    val
}

pub proof fn lemma_pow10_values()
    ensures
        spec_pow10(9) == 1000000000,
        spec_pow10(10) == 10000000000,
        spec_pow10(18) == 1000000000000000000,
        spec_pow10(19) == 10000000000000000000,
{
    assert(spec_pow10(0) == 1);
    assert(spec_pow10(1) == 10);
    assert(spec_pow10(2) == 100);
    assert(spec_pow10(3) == 1000);
    assert(spec_pow10(4) == 10000);
    assert(spec_pow10(5) == 100000);
    assert(spec_pow10(6) == 1000000);
    assert(spec_pow10(7) == 10000000);
    assert(spec_pow10(8) == 100000000);
    assert(spec_pow10(9) == 1000000000);
    assert(spec_pow10(10) == 10000000000);
    assert(spec_pow10(11) == 100000000000);
    assert(spec_pow10(12) == 1000000000000);
    assert(spec_pow10(13) == 10000000000000);
    assert(spec_pow10(14) == 100000000000000);
    assert(spec_pow10(15) == 1000000000000000);
    assert(spec_pow10(16) == 10000000000000000);
    assert(spec_pow10(17) == 100000000000000000);
    assert(spec_pow10(18) == 1000000000000000000);
    assert(spec_pow10(19) == 10000000000000000000);
}

pub proof fn lemma_pow10_monotone(a: nat, b: nat)
    requires
        a <= b,
    ensures
        spec_pow10(a) <= spec_pow10(b),
    decreases b,
{
    if a < b {
        lemma_pow10_monotone(a, (b - 1) as nat);
        assert(spec_pow10(b) == 10 * spec_pow10((b - 1) as nat));
        assert(spec_pow10((b - 1) as nat) >= 1) by {
            lemma_pow10_pos((b - 1) as nat);
        }
    }
}

pub proof fn lemma_pow10_pos(n: nat)
    ensures
        spec_pow10(n) >= 1,
    decreases n,
{
    if n > 0 {
        lemma_pow10_pos((n - 1) as nat);
    }
}

fn digit_str(d: u64) -> (r: &'static str)
    requires
        d < 10,
    ensures
        r@ =~= seq![spec_digit_char(d as int)],
{
    proof {
        reveal_strlit("0");
        reveal_strlit("1");
        reveal_strlit("2");
        reveal_strlit("3");
        reveal_strlit("4");
        reveal_strlit("5");
        reveal_strlit("6");
        reveal_strlit("7");
        reveal_strlit("8");
        reveal_strlit("9");
    }
    if d == 0 {
        "0"
    } else if d == 1 {
        "1"
    } else if d == 2 {
        "2"
    } else if d == 3 {
        "3"
    } else if d == 4 {
        "4"
    } else if d == 5 {
        "5"
    } else if d == 6 {
        "6"
    } else if d == 7 {
        "7"
    } else if d == 8 {
        "8"
    } else {
        "9"
    }
}

pub fn u64_to_string(n: u64) -> (r: String)
    ensures
        r@ == spec_udigits(n as int),
    decreases n,
{
    if n < 10 {
        let s = digit_str(n).to_owned();
        proof {
            assert(s@ =~= spec_udigits(n as int));
        }
        s
    } else {
        let prefix = u64_to_string(n / 10);
        let r = prefix.concat(digit_str(n % 10));
        proof {
            assert(r@ =~= spec_udigits(n as int));
        }
        r
    }
}

pub fn i64_to_string(n: i64) -> (r: String)
    ensures
        r@ == spec_idigits(n as int),
{
    if n < 0 {
        let m: u64 = ((-(n + 1)) as u64) + 1;
        let digits = u64_to_string(m);
        let r = "-".to_owned().concat(digits.as_str());
        proof {
            reveal_strlit("-");
            assert(r@ =~= spec_idigits(n as int));
        }
        r
    } else {
        u64_to_string(n as u64)
    }
}

} // verus!

//! Settings read from the environment: the size of the worker pool and the
//! per-action time limit, each a positive integer in decimal.

use vstd::prelude::*;

verus! {

/// The value of a decimal digit.
pub open spec fn digit_value(c: char) -> nat {
    (c as u32 - '0' as u32) as nat
}

/// The character is a decimal digit.
pub open spec fn is_digit(c: char) -> bool {
    '0' <= c && c <= '9'
}

/// The value of a string of decimal digits.
pub open spec fn decimal_value(s: Seq<char>) -> nat
    decreases s.len(),
{
    if s.len() == 0 {
        0
    } else {
        decimal_value(s.drop_last()) * 10 + digit_value(s.last())
    }
}

/// `s` is a positive integer in decimal that fits in `usize`.
pub open spec fn positive_decimal(s: Seq<char>) -> bool {
    &&& s.len() > 0
    &&& forall|i: int| 0 <= i < s.len() ==> is_digit(#[trigger] s[i])
    &&& 0 < decimal_value(s) <= usize::MAX
}

proof fn lemma_decimal_value_grows(s: Seq<char>, i: int)
    requires
        0 <= i <= s.len(),
        forall|k: int| 0 <= k < s.len() ==> is_digit(#[trigger] s[k]),
    ensures
        decimal_value(s.take(i)) <= decimal_value(s),
    decreases s.len() - i,
{
    if i < s.len() {
        lemma_decimal_value_grows(s, i + 1);
        assert(s.take(i + 1).drop_last() =~= s.take(i));
    } else {
        assert(s.take(i) =~= s);
    }
}

/// The value of a positive decimal integer, or `None` for any other text.
pub fn parse_positive(s: &str) -> (r: Option<usize>)
    ensures
        match r {
            Some(v) => positive_decimal(s@) && v as nat == decimal_value(s@),
            None => !positive_decimal(s@),
        },
{
    let n = s.unicode_len();
    if n == 0 {
        return None;
    }
    let mut i: usize = 0;
    while i < n
        invariant
            n == s@.len(),
            i <= n,
            forall|k: int| 0 <= k < i ==> is_digit(#[trigger] s@[k]),
        decreases n - i,
    {
        let c = s.get_char(i);
        if !('0' <= c && c <= '9') {
            return None;
        }
        i = i + 1;
    }
    let mut v: usize = 0;
    let mut j: usize = 0;
    while j < n
        invariant
            n == s@.len(),
            j <= n,
            forall|k: int| 0 <= k < n ==> is_digit(#[trigger] s@[k]),
            v as nat == decimal_value(s@.take(j as int)),
        decreases n - j,
    {
        let c = s.get_char(j);
        let d = (c as u32 - '0' as u32) as usize;
        assert(s@.take(j + 1).drop_last() =~= s@.take(j as int));
        assert(d as nat == digit_value(s@[j as int]));
        if v > (usize::MAX - d) / 10 {
            proof {
                assert(decimal_value(s@.take(j + 1)) == v * 10 + d);
                lemma_decimal_value_grows(s@, j + 1);
            }
            return None;
        }
        v = v * 10 + d;
        j = j + 1;
    }
    assert(s@.take(n as int) =~= s@);
    if v == 0 {
        None
    } else {
        Some(v)
    }
}

/// The size of the worker pool for `n` actions: the requested size where one
/// was given, else the available parallelism, at most `n`, and at least one.
pub open spec fn pool_size_of(n: nat, available: nat, requested: Option<usize>) -> nat {
    let cap = match requested {
        Some(k) => k as nat,
        None => available,
    };
    let m = if n < cap { n } else { cap };
    if m == 0 { 1 } else { m }
}

/// The size of the worker pool for `n` actions.
pub fn pool_size(n: usize, available: usize, requested: Option<usize>) -> (r: usize)
    ensures
        r as nat == pool_size_of(n as nat, available as nat, requested),
        r >= 1,
{
    let cap = match requested {
        Some(k) => k,
        None => available,
    };
    let m = if n < cap { n } else { cap };
    if m == 0 { 1 } else { m }
}

} // verus!

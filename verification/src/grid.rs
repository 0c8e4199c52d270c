use vstd::prelude::*;

verus! {

/// The three extents of a dispatch, in thread groups or in threads.
#[derive(Debug, Clone, Copy, PartialEq, Eq, Structural)]
pub struct Size3 {
    pub width: u64,
    pub height: u64,
    pub depth: u64,
}

/// Ceiling division `ceil(m / b)` for positive `b`.
pub open spec fn ceil_div(m: int, b: int) -> int {
    (m + b - 1) / b
}

/// `2^e`.
pub open spec fn two_pow(e: nat) -> nat
    decreases e,
{
    if e == 0 {
        1
    } else {
        2 * two_pow((e - 1) as nat)
    }
}

pub open spec fn is_power_of_two(p: int) -> bool {
    exists|e: nat| two_pow(e) == p
}

/// The smallest power of two that is at least `x` (for `x == 0` that is `1`).
pub open spec fn least_power_of_two_at_least(x: int, p: int) -> bool {
    &&& is_power_of_two(p)
    &&& x <= p
    &&& (p == 1 || p / 2 < x)
}

pub open spec fn min_u64(a: u64, b: u64) -> u64 {
    if a <= b {
        a
    } else {
        b
    }
}

/// Number of groups of `b` needed to cover `m` items.
pub fn divide(m: usize, b: usize) -> (r: u64)
    requires
        b > 0,
        m + b <= usize::MAX,
    ensures
        r == ceil_div(m as int, b as int),
{
    ((m + b - 1) / b) as u64
}

/// Splits `length` threads into one-dimensional groups: each group holds as many
/// threads as a group may hold, capped at `length`, and there are just enough
/// groups to cover `length`. Returns (group count, group size).
pub fn linear_split(max_threads: u64, length: usize) -> (r: (Size3, Size3))
    requires
        max_threads > 0,
        length > 0,
        length + min_u64(max_threads, length as u64) <= u64::MAX,
    ensures
        r.1 == (Size3 { width: min_u64(max_threads, length as u64), height: 1, depth: 1 }),
        r.0 == (Size3 {
            width: ceil_div(length as int, min_u64(max_threads, length as u64) as int) as u64,
            height: 1,
            depth: 1,
        }),
{
    let size: u64 = length as u64;
    let width: u64 = if max_threads <= size {
        max_threads
    } else {
        size
    };
    let count: u64 = (size + width - 1) / width;
    (Size3 { width: count, height: 1, depth: 1 }, Size3 { width, height: 1, depth: 1 })
}

/// The smallest power of two that is at least `x`, as `u64::next_power_of_two` gives it.
pub fn next_power_of_two(x: u64) -> (p: u64)
    requires
        x <= 0x8000_0000_0000_0000,
    ensures
        least_power_of_two_at_least(x as int, p as int),
{
    let mut p: u64 = 1;
    let ghost mut e: nat = 0;
    while p < x
        invariant
            x <= 0x8000_0000_0000_0000,
            p >= 1,
            p == two_pow(e),
            p == 1 || p / 2 < x,
        decreases u64::MAX - p,
    {
        p = p * 2;
        proof {
            e = e + 1;
        }
    }
    p
}

/// Ceiling division never leaves an item uncovered and never adds a whole
/// spare group: `ceil(m/b)` groups of `b` cover `m` items with fewer than `b` to spare.
pub proof fn lemma_ceil_div_covers(m: int, b: int)
    requires
        m >= 0,
        b > 0,
    ensures
        ceil_div(m, b) * b >= m,
        ceil_div(m, b) * b < m + b,
        ceil_div(m, b) >= 0,
        m > 0 ==> ceil_div(m, b) >= 1,
{
    let q = ceil_div(m, b);
    vstd::arithmetic::div_mod::lemma_fundamental_div_mod(m + b - 1, b);
    let r = (m + b - 1) % b;
    assert(0 <= r < b) by {
        vstd::arithmetic::div_mod::lemma_mod_bound(m + b - 1, b);
    }
    assert(b * q + r == m + b - 1);
    assert(q * b == b * q) by (nonlinear_arith);
    if q < 0 {
        assert(b * q <= -b) by (nonlinear_arith)
            requires
                q < 0,
                b > 0,
        ;
    }
    if m > 0 && q < 1 {
        assert(b * q <= 0) by (nonlinear_arith)
            requires
                q <= 0,
                b > 0,
        ;
    }
}

/// A linear split covers all `length` threads, puts at most `max_threads` (and at most
/// `length`) threads in a group, and launches no group that would be left empty.
pub proof fn lemma_linear_split_covers(max_threads: u64, length: usize)
    requires
        max_threads > 0,
        length > 0,
    ensures
        ({
            let w = min_u64(max_threads, length as u64) as int;
            let c = ceil_div(length as int, w);
            &&& 1 <= w <= max_threads
            &&& w <= length
            &&& c >= 1
            &&& c * w >= length
            &&& (c - 1) * w < length
        }),
{
    let w = min_u64(max_threads, length as u64) as int;
    let c = ceil_div(length as int, w);
    lemma_ceil_div_covers(length as int, w);
    assert((c - 1) * w == c * w - w) by (nonlinear_arith);
}

proof fn lemma_two_pow_positive(e: nat)
    ensures
        two_pow(e) >= 1,
    decreases e,
{
    if e > 0 {
        lemma_two_pow_positive((e - 1) as nat);
    }
}

proof fn lemma_two_pow_monotone(a: nat, b: nat)
    requires
        a <= b,
    ensures
        two_pow(a) <= two_pow(b),
    decreases b,
{
    if a < b {
        lemma_two_pow_monotone(a, (b - 1) as nat);
        lemma_two_pow_positive((b - 1) as nat);
    }
}

/// No power of two lies between `x` and the power of two `next_power_of_two` picks:
/// it is the least one that is at least `x`.
pub proof fn lemma_next_power_of_two_is_least(x: int, p: int, q: int)
    requires
        least_power_of_two_at_least(x, p),
        is_power_of_two(q),
        x <= q,
    ensures
        p <= q,
{
    let ep = choose|e: nat| two_pow(e) == p;
    let eq = choose|e: nat| two_pow(e) == q;
    if p > q {
        if ep <= eq {
            lemma_two_pow_monotone(ep, eq);
        } else {
            // p is at least twice q, so p / 2 >= q >= x, against the choice of p
            lemma_two_pow_monotone(eq, (ep - 1) as nat);
            assert(p == 2 * two_pow((ep - 1) as nat));
        }
    }
}

} // verus!

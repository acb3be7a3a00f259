//! The unit of "work" that the workload kernels perform on each value.

use vstd::prelude::*;

verus! {

/// `r` is the floor of the square root of `n`.
pub open spec fn is_floor_sqrt(n: int, r: int) -> bool {
    0 <= r && r * r <= n && n < (r + 1) * (r + 1)
}

/// The predicate the kernels count: `n` passes trial division when it is 2
/// or 3, or when it is odd, at least 5, and no odd `d` with `3 <= d` and
/// `d < floor(sqrt(n))` divides it.
///
/// The divisor bound is exclusive, so squares of odd primes (9, 25, ...)
/// and a few products (15, 35, ...) pass as well; the kernels' expected
/// counts are counts of exactly this predicate. `d < floor(sqrt(n))` is
/// written `(d + 1) * (d + 1) <= n`.
pub open spec fn passes_trial_division(n: int) -> bool {
    if n < 2 {
        false
    } else if n < 4 {
        true
    } else if n % 2 == 0 {
        false
    } else {
        forall|d: int|
            3 <= d && d % 2 == 1 && (d + 1) * (d + 1) <= n ==> #[trigger] (n % d) != 0
    }
}

/// Floor of the square root of `n`.
pub fn isqrt(n: u64) -> (r: u64)
    ensures
        is_floor_sqrt(n as int, r as int),
{
    let mut lo: u64 = 0;
    let mut hi: u64 = 0x1_0000_0000;
    assert(n < hi * hi) by (nonlinear_arith)
        requires
            n <= u64::MAX,
            hi == 0x1_0000_0000u64,
    ;
    while hi - lo > 1
        invariant
            lo < hi,
            hi <= 0x1_0000_0000u64,
            lo * lo <= n,
            n < hi * hi,
        decreases hi - lo,
    {
        let mid: u64 = lo + (hi - lo) / 2;
        assert(mid * mid <= 0xFFFF_FFFE_0000_0001u64) by (nonlinear_arith)
            requires
                mid < 0x1_0000_0000u64,
        ;
        if mid * mid <= n {
            lo = mid;
        } else {
            hi = mid;
        }
    }
    assert(hi == lo + 1);
    lo
}

/// Trial division by the odd numbers below the floor of the square root.
pub fn is_prime(num: u64) -> (r: bool)
    ensures
        r == passes_trial_division(num as int),
{
    if num < 2 {
        false
    } else if num < 4 {
        true
    } else if num % 2 == 0 {
        false
    } else {
        let sqrt = isqrt(num);
        assert(sqrt >= 2) by (nonlinear_arith)
            requires
                num >= 5,
                num < (sqrt + 1) * (sqrt + 1),
                sqrt >= 0,
        ;
        let mut i: u64 = 3;
        while i < sqrt
            invariant
                3 <= i,
                i % 2 == 1,
                i <= sqrt + 1,
                is_floor_sqrt(num as int, sqrt as int),
                num >= 5,
                num % 2 == 1,
                forall|d: int|
                    3 <= d && d < i && d % 2 == 1 && (d + 1) * (d + 1) <= num ==> #[trigger] (
                    num as int % d) != 0,
            decreases sqrt + 1 - i,
        {
            if num % i == 0 {
                assert((i + 1) * (i + 1) <= num) by (nonlinear_arith)
                    requires
                        i + 1 <= sqrt,
                        sqrt * sqrt <= num,
                ;
                assert((num as int) % (i as int) == 0);
                let ghost n = num as int;
                let ghost d = i as int;
                assert(3 <= d && d % 2 == 1 && (d + 1) * (d + 1) <= n && n % d == 0);
                assert(n >= 4 && n % 2 != 0);
                assert(!passes_trial_division(n));
                return false;
            }
            i = i + 2;
        }
        assert forall|d: int|
            3 <= d && d % 2 == 1 && (d + 1) * (d + 1) <= num implies #[trigger] (num as int % d)
            != 0 by {
            if d >= i {
                assert((d + 1) * (d + 1) > num) by (nonlinear_arith)
                    requires
                        d >= sqrt,
                        num < (sqrt + 1) * (sqrt + 1),
                        sqrt >= 0,
                ;
            }
        }
        true
    }
}

} // verus!

//! Integer arithmetic that the joystick geometry is built on: the integer
//! square root and division that rounds toward zero.

use vstd::prelude::*;

verus! {

/// `r` is the integer square root of `n`: the largest natural number whose
/// square does not exceed `n`.
pub open spec fn is_isqrt(n: nat, r: nat) -> bool {
    r * r <= n < (r + 1) * (r + 1)
}

/// The integer square root of `n`, that is `floor(sqrt(n))`.
pub open spec fn isqrt(n: nat) -> nat {
    choose|r: nat| is_isqrt(n, r)
}

/// The magnitude of an integer.
pub open spec fn abs(a: int) -> int {
    if a < 0 {
        -a
    } else {
        a
    }
}

/// The quotient of `a` by `b` rounded toward zero, and zero when `b` is zero.
pub open spec fn div_toward_zero(a: int, b: int) -> int {
    if b == 0 {
        0
    } else if (a < 0) == (b < 0) {
        abs(a) / abs(b)
    } else {
        -(abs(a) / abs(b))
    }
}

/// `v` limited to the interval from `lo` to `hi`.
pub open spec fn clamp(v: int, lo: int, hi: int) -> int {
    if v < lo {
        lo
    } else if v > hi {
        hi
    } else {
        v
    }
}

/// Squaring preserves the order of natural numbers.
pub proof fn lemma_square_monotonic(a: nat, b: nat)
    requires
        a <= b,
    ensures
        a * a <= b * b,
{
    assert(a * a <= b * b) by (nonlinear_arith)
        requires
            a <= b,
    ;
}

/// Squaring preserves the strict order of natural numbers.
pub proof fn lemma_square_strictly_monotonic(a: nat, b: nat)
    requires
        a < b,
    ensures
        a * a < b * b,
{
    assert(a * a < b * b) by (nonlinear_arith)
        requires
            a < b,
    ;
}

proof fn isqrt_witness(n: nat) -> (r: nat)
    ensures
        is_isqrt(n, r),
    decreases n,
{
    if n == 0 {
        assert(is_isqrt(0, 0)) by (nonlinear_arith);
        0
    } else {
        let p = isqrt_witness((n - 1) as nat);
        if (p + 1) * (p + 1) <= n {
            assert(is_isqrt(n, p + 1)) by (nonlinear_arith)
                requires
                    (p + 1) * (p + 1) <= n,
                    n - 1 < (p + 1) * (p + 1),
            ;
            p + 1
        } else {
            p
        }
    }
}

/// Every natural number has an integer square root, and `isqrt` is it.
pub proof fn lemma_isqrt(n: nat)
    ensures
        is_isqrt(n, isqrt(n)),
{
    let r = isqrt_witness(n);
    assert(is_isqrt(n, r));
}

/// The integer square root is unique: whatever satisfies `is_isqrt` is `isqrt`.
pub proof fn lemma_isqrt_unique(n: nat, r: nat)
    requires
        is_isqrt(n, r),
    ensures
        isqrt(n) == r,
{
    lemma_isqrt(n);
    let s = isqrt(n);
    if s < r {
        lemma_square_monotonic(s + 1, r);
    } else if r < s {
        lemma_square_monotonic(r + 1, s);
    }
}

/// The integer square root of a perfect square is its root.
pub proof fn lemma_isqrt_of_square(r: nat)
    ensures
        isqrt(r * r) == r,
{
    lemma_square_strictly_monotonic(r, r + 1);
    lemma_isqrt_unique(r * r, r);
}

/// A number below a square has its integer square root below the root:
/// `n <= a * a` gives `isqrt(n) <= a`.
pub proof fn lemma_isqrt_upper(n: nat, a: nat)
    requires
        n <= a * a,
    ensures
        isqrt(n) <= a,
{
    lemma_isqrt(n);
    let s = isqrt(n);
    if a < s {
        lemma_square_strictly_monotonic(a, s);
    }
}

/// Computes the integer square root of `n` by bisection.
pub fn integer_sqrt(n: u128) -> (r: u64)
    ensures
        r as nat == isqrt(n as nat),
        is_isqrt(n as nat, r as nat),
{
    let mut lo: u128 = 0;
    let mut hi: u128 = 0x1_0000_0000_0000_0000;
    assert(0x1_0000_0000_0000_0000int * 0x1_0000_0000_0000_0000int > u128::MAX);
    while hi - lo > 1
        invariant
            lo < hi <= 0x1_0000_0000_0000_0000,
            lo * lo <= n < hi * hi,
        decreases hi - lo,
    {
        let mid: u128 = lo + (hi - lo) / 2;
        assert(mid * mid <= 0xFFFF_FFFF_FFFF_FFFFint * 0xFFFF_FFFF_FFFF_FFFFint)
            by (nonlinear_arith)
            requires
                0 <= mid <= 0xFFFF_FFFF_FFFF_FFFF,
        ;
        assert(0xFFFF_FFFF_FFFF_FFFFint * 0xFFFF_FFFF_FFFF_FFFFint <= u128::MAX);
        let mid_sq: u128 = mid * mid;
        if mid_sq <= n {
            lo = mid;
        } else {
            hi = mid;
        }
    }
    proof {
        assert(hi == lo + 1);
        assert(is_isqrt(n as nat, lo as nat));
        lemma_isqrt_unique(n as nat, lo as nat);
    }
    lo as u64
}

/// Divides `a` by `b`, rounding toward zero; the quotient by zero is zero.
pub fn divide_toward_zero(a: i64, b: i64) -> (q: i64)
    requires
        a > i64::MIN,
        b > i64::MIN,
    ensures
        q == div_toward_zero(a as int, b as int),
        abs(q as int) <= abs(a as int),
{
    if b == 0 {
        return 0;
    }
    let ua: u64 = if a < 0 {
        (-a) as u64
    } else {
        a as u64
    };
    let ub: u64 = if b < 0 {
        (-b) as u64
    } else {
        b as u64
    };
    let uq: u64 = ua / ub;
    proof {
        assert(ua as int / ub as int <= ua as int) by (nonlinear_arith)
            requires
                ua >= 0,
                ub >= 1,
        ;
    }
    if (a < 0) == (b < 0) {
        uq as i64
    } else {
        -(uq as i64)
    }
}

} // verus!

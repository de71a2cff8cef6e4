//! Fixed-point scalar arithmetic in micro-units.
//!
//! A scalar holds `1_000_000` times its mathematical value. Multiplication
//! of two scalars truncates the extra factor of `SCALE` toward zero;
//! opacity blending and alpha conversion round to nearest (ties up).

use vstd::prelude::*;
use vstd::arithmetic::div_mod::lemma_div_is_ordered;

verus! {

/// Number of micro-units in one user-space unit.
pub const SCALE: i64 = 1_000_000;

/// Half of `SCALE`, used for round-to-nearest.
pub const HALF: i64 = 500_000;

/// Largest magnitude accepted for an input coordinate or transform entry
/// (two million user-space units).
pub const MAX_COORD: i64 = 2_000_000_000_000;

/// Largest magnitude accepted by `fmul` for either factor.
pub const MUL_ARG: i64 = 3_000_000_000_000;

/// Bound on a product of two `MAX_COORD`-bounded scalars.
pub const PROD_MAX: i64 = 4_000_000_000_000_000_000;

/// Bound on a product of a `MUL_ARG`-bounded and a `MAX_COORD`-bounded scalar.
pub const PROD_MIXED: i64 = 6_000_000_000_000_000_000;

/// Bound on any value `fmul` or `cmul` can return.
pub const EXT_MAX: i64 = 9_000_000_000_000_000_000;

/// Truncating (toward zero) division of `p` by a positive divisor `d`.
pub open spec fn tdiv(p: int, d: int) -> int {
    if p >= 0 {
        p / d
    } else {
        -((-p) / d)
    }
}

/// The fixed-point product of two scalars: `a * b / SCALE`, truncated toward zero.
pub open spec fn spec_fmul(a: int, b: int) -> int {
    tdiv(a * b, SCALE as int)
}

/// The product of two opacities, rounded to nearest.
pub open spec fn spec_combine(a: int, b: int) -> int {
    (a * b + HALF) / (SCALE as int)
}

/// The 8-bit alpha channel that encodes an opacity, rounded to nearest.
pub open spec fn spec_alpha(o: int) -> int {
    (o * 255 + HALF) / (SCALE as int)
}

/// An opacity lies in `[0, 1]`, that is `[0, SCALE]` in micro-units.
pub open spec fn opacity_valid(o: i64) -> bool {
    0 <= o <= SCALE
}

/// A coordinate accepted as library input.
pub open spec fn coord_valid(v: i64) -> bool {
    -MAX_COORD <= v <= MAX_COORD
}

/// Multiplies two opacities; the result is again an opacity.
pub fn combine_opacity(a: i64, b: i64) -> (r: i64)
    requires
        opacity_valid(a),
        opacity_valid(b),
    ensures
        r == spec_combine(a as int, b as int),
        opacity_valid(r),
{
    proof {
        assert(0 <= a * b <= SCALE * SCALE) by (nonlinear_arith)
            requires 0 <= a <= SCALE, 0 <= b <= SCALE;
        lemma_div_is_ordered(a * b + HALF, SCALE * SCALE + HALF, SCALE as int);
        assert((a * b + HALF) / (SCALE as int) >= 0) by (nonlinear_arith)
            requires a * b + HALF >= 0;
    }
    (a * b + HALF) / SCALE
}

/// Converts an opacity to the backend's 8-bit alpha channel,
/// rounding to nearest (ties toward the larger value).
pub fn opacity_to_alpha(o: i64) -> (r: u8)
    requires
        opacity_valid(o),
    ensures
        r as int == spec_alpha(o as int),
{
    proof {
        assert(0 <= o * 255 <= SCALE * 255) by (nonlinear_arith)
            requires 0 <= o <= SCALE;
        lemma_div_is_ordered(o * 255 + HALF, SCALE * 255 + HALF, SCALE as int);
        assert((o * 255 + HALF) / (SCALE as int) >= 0) by (nonlinear_arith)
            requires o * 255 + HALF >= 0;
    }
    let q: i64 = (o * 255 + HALF) / SCALE;
    q as u8
}

/// Fixed-point multiplication, truncated toward zero.
pub fn fmul(a: i64, b: i64) -> (r: i64)
    requires
        -MUL_ARG <= a <= MUL_ARG,
        -MUL_ARG <= b <= MUL_ARG,
    ensures
        r == spec_fmul(a as int, b as int),
        -EXT_MAX <= r <= EXT_MAX,
        coord_valid(a) && coord_valid(b) ==> -PROD_MAX <= r <= PROD_MAX,
        coord_valid(b) ==> -PROD_MIXED <= r <= PROD_MIXED,
{
    let neg: bool = (a < 0) != (b < 0);
    let am: u64 = if a >= 0 { a as u64 } else { (-a) as u64 };
    let bm: u64 = if b >= 0 { b as u64 } else { (-b) as u64 };
    proof {
        assert((am as int) * (bm as int) <= (MUL_ARG as int) * (MUL_ARG as int))
            by (nonlinear_arith)
            requires 0 <= (am as int) <= MUL_ARG as int, 0 <= (bm as int) <= MUL_ARG as int;
        assert(am as int * bm as int == if a * b >= 0 { a * b } else { -(a * b) })
            by (nonlinear_arith)
            requires
                am as int == if a >= 0 { a as int } else { -(a as int) },
                bm as int == if b >= 0 { b as int } else { -(b as int) };
    }
    let p: u128 = (am as u128) * (bm as u128);
    let q: u128 = p / 1_000_000;
    proof {
        lemma_div_is_ordered(p as int, 9_000_000_000_000_000_000_000_000, SCALE as int);
        if coord_valid(a) && coord_valid(b) {
            assert(p as int <= (MAX_COORD as int) * (MAX_COORD as int)) by (nonlinear_arith)
                requires
                    0 <= (am as int) <= MAX_COORD as int,
                    0 <= (bm as int) <= MAX_COORD as int,
                    p as int == am as int * bm as int;
            lemma_div_is_ordered(p as int, 4_000_000_000_000_000_000_000_000, SCALE as int);
        }
        if coord_valid(b) {
            assert(p as int <= (MUL_ARG as int) * (MAX_COORD as int)) by (nonlinear_arith)
                requires
                    0 <= (am as int) <= MUL_ARG as int,
                    0 <= (bm as int) <= MAX_COORD as int,
                    p as int == am as int * bm as int;
            lemma_div_is_ordered(p as int, 6_000_000_000_000_000_000_000_000, SCALE as int);
        }
        if neg {
            assert(a * b <= 0) by (nonlinear_arith)
                requires (a < 0) != (b < 0);
        } else {
            assert(a * b >= 0) by (nonlinear_arith)
                requires !((a < 0) != (b < 0));
        }
    }
    if neg {
        -(q as i64)
    } else {
        q as i64
    }
}

/// Checked fixed-point multiplication: `None` when the truncated product
/// does not fit within `EXT_MAX`.
pub fn cmul(a: i64, b: i64) -> (r: Option<i64>)
    ensures
        r is Some <==> -EXT_MAX <= spec_fmul(a as int, b as int) <= EXT_MAX,
        r matches Some(v) ==> v == spec_fmul(a as int, b as int),
{
    let neg: bool = (a < 0) != (b < 0);
    let am: u128 = if a >= 0 { a as u128 } else { (-(a as i128)) as u128 };
    let bm: u128 = if b >= 0 { b as u128 } else { (-(b as i128)) as u128 };
    proof {
        assert((am as int) * (bm as int) <= 85070591730234615865843651857942052864int)
            by (nonlinear_arith)
            requires
                0 <= (am as int) <= 9223372036854775808int,
                0 <= (bm as int) <= 9223372036854775808int;
        assert(am as int * bm as int == if a * b >= 0 { a * b } else { -(a * b) })
            by (nonlinear_arith)
            requires
                am as int == if a >= 0 { a as int } else { -(a as int) },
                bm as int == if b >= 0 { b as int } else { -(b as int) };
        if neg {
            assert(a * b <= 0) by (nonlinear_arith)
                requires (a < 0) != (b < 0);
        } else {
            assert(a * b >= 0) by (nonlinear_arith)
                requires !((a < 0) != (b < 0));
        }
    }
    let p: u128 = am * bm;
    let q: u128 = p / 1_000_000;
    if q > 9_000_000_000_000_000_000u128 {
        None
    } else if neg {
        Some(-(q as i64))
    } else {
        Some(q as i64)
    }
}

/// Integer square root: the largest `r` with `r * r <= n`.
pub open spec fn sqrt_floor(n: nat) -> nat
    decreases n,
{
    if n == 0 {
        0
    } else {
        let r = sqrt_floor((n - 1) as nat);
        if (r + 1) * (r + 1) <= n {
            r + 1
        } else {
            r
        }
    }
}

pub proof fn lemma_sqrt_floor_bounds(n: nat)
    ensures
        sqrt_floor(n) * sqrt_floor(n) <= n,
        n < (sqrt_floor(n) + 1) * (sqrt_floor(n) + 1),
    decreases n,
{
    let s = sqrt_floor(n);
    if n == 0 {
        assert(s == 0);
        assert(s * s <= n) by (nonlinear_arith)
            requires s == 0, n == 0nat;
        assert(n < (s + 1) * (s + 1)) by (nonlinear_arith)
            requires s == 0, n == 0nat;
    } else {
        lemma_sqrt_floor_bounds((n - 1) as nat);
        let r = sqrt_floor((n - 1) as nat);
        if (r + 1) * (r + 1) <= n {
            assert(s == r + 1);
            assert(s * s <= n) by (nonlinear_arith)
                requires s == r + 1, (r + 1) * (r + 1) <= n;
            assert(n < (s + 1) * (s + 1)) by (nonlinear_arith)
                requires s == r + 1, n <= (r + 1) * (r + 1);
        } else {
            assert(s == r);
            assert(s * s <= n) by (nonlinear_arith)
                requires s == r, r * r <= (n - 1) as nat, n >= 1nat;
            assert(n < (s + 1) * (s + 1)) by (nonlinear_arith)
                requires s == r, !((r + 1) * (r + 1) <= n);
        }
    }
}

pub proof fn lemma_sqrt_floor_unique(n: nat, r: nat)
    requires
        r * r <= n,
        n < (r + 1) * (r + 1),
    ensures
        r == sqrt_floor(n),
{
    lemma_sqrt_floor_bounds(n);
    let s = sqrt_floor(n);
    if r < s {
        assert((r + 1) * (r + 1) <= s * s) by (nonlinear_arith)
            requires r + 1 <= s;
        assert(false);
    }
    if s < r {
        assert((s + 1) * (s + 1) <= r * r) by (nonlinear_arith)
            requires s + 1 <= r;
        assert(false);
    }
}

/// Computes the integer square root by bisection.
pub fn isqrt(n: u128) -> (r: u64)
    requires
        n <= 25_000_000_000_000_000_000_000_000,
    ensures
        r as nat == sqrt_floor(n as nat),
        (r as int) * (r as int) <= n as int,
        (n as int) < ((r as int) + 1) * ((r as int) + 1),
        r <= 5_000_000_000_000,
{
    let mut lo: u64 = 0;
    let mut hi: u64 = 5_000_000_000_001;
    while lo + 1 < hi
        invariant
            lo < hi <= 5_000_000_000_001,
            (lo as int) * (lo as int) <= n as int,
            (n as int) < (hi as int) * (hi as int),
        decreases hi - lo,
    {
        let mid: u64 = lo + (hi - lo) / 2;
        proof {
            assert((mid as int) * (mid as int) <= 26_000_000_000_000_000_000_000_000int)
                by (nonlinear_arith)
                requires 0 <= (mid as int) <= 5_000_000_000_001int;
        }
        let m2: u128 = (mid as u128) * (mid as u128);
        if m2 <= n {
            lo = mid;
        } else {
            hi = mid;
        }
    }
    proof {
        lemma_sqrt_floor_unique(n as nat, lo as nat);
    }
    lo
}

/// Truncating halving, toward zero.
pub fn half_trunc(x: i64) -> (r: i64)
    requires
        -EXT_MAX <= x <= EXT_MAX,
    ensures
        r == tdiv(x as int, 2),
{
    if x >= 0 {
        x / 2
    } else {
        -((-x) / 2)
    }
}

} // verus!

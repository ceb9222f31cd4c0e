//! Fixed-point scalars.
//!
//! Every coordinate, transform entry, angle and length in this crate is a
//! signed 64-bit raw value counting steps of `1 / SCALE_ONE` of a unit.
//! Multiplication of two raw values rescales the double-width product back
//! to raw steps with a floor division, so each operation has one exact,
//! deterministic result.

use vstd::prelude::*;

verus! {

/// Raw steps in one unit: raw values are 16.16 fixed point.
pub const SCALE_ONE: i64 = 65536;

/// Largest raw magnitude the arithmetic routines accept.  Products of two
/// such values rescale back into `i64` with room for sums of three terms.
pub const FX_LIMIT: i64 = 0x8000_0000;

/// The raw value `x` is within the range the fixed-point routines accept.
pub open spec fn fx_bounded(x: int) -> bool {
    -(FX_LIMIT as int) <= x <= FX_LIMIT as int
}

/// Product of two raw values, floor-rescaled back to raw steps.
pub open spec fn fx_mul(x: int, y: int) -> int {
    (x * y) / (SCALE_ONE as int)
}

/// Computes `fx_mul` on raw values.
pub fn fx_mul_i64(x: i64, y: i64) -> (r: i64)
    requires
        fx_bounded(x as int),
        fx_bounded(y as int),
    ensures
        r as int == fx_mul(x as int, y as int),
        -0x4000_0000_0000 <= r as int <= 0x4000_0000_0000,
{
    proof {
        assert(-0x4000_0000_0000_0000 <= (x as int) * (y as int) <= 0x4000_0000_0000_0000)
            by (nonlinear_arith)
            requires fx_bounded(x as int) && fx_bounded(y as int);
    }
    let p: i128 = (x as i128) * (y as i128);
    proof {
        assert(p as int / 65536int >= -0x4000_0000_0000
            && p as int / 65536int <= 0x4000_0000_0000) by (nonlinear_arith)
            requires -0x4000_0000_0000_0000 <= p as int <= 0x4000_0000_0000_0000;
    }
    let q: i128 = match p.checked_div_euclid(65536) {
        Some(q) => q,
        None => 0,
    };
    q as i64
}

/// Bound under which `div_euclid_i128` accepts operands.
pub const DIV_LIMIT: i128 = 0x4000_0000_0000_0000_0000_0000_0000_0000;

/// Computes the floor-style division `n / d` of the specification level:
/// the remainder is always non-negative, whatever the signs.
pub fn div_euclid_i128(n: i128, d: i128) -> (q: i128)
    requires
        d != 0,
        -DIV_LIMIT <= n <= DIV_LIMIT,
        -DIV_LIMIT <= d <= DIV_LIMIT,
    ensures
        q as int == n as int / (d as int),
{
    if d > 0 {
        proof {
            lemma_div_quotient_in_range(n as int, d as int);
        }
        match n.checked_div_euclid(d) {
            Some(q) => q,
            None => {
                proof {
                    assert(false);
                }
                0
            }
        }
    } else {
        let m = -d;
        proof {
            lemma_div_quotient_in_range(n as int, m as int);
        }
        let q0: i128 = match n.checked_div_euclid(m) {
            Some(q) => q,
            None => {
                proof {
                    assert(false);
                }
                0
            }
        };
        proof {
            lemma_div_negate_divisor(n as int, m as int);
        }
        -q0
    }
}

/// The quotient of a division by a positive divisor is no larger in
/// magnitude than the dividend.
proof fn lemma_div_quotient_in_range(n: int, d: int)
    requires
        d > 0,
        -DIV_LIMIT as int <= n <= DIV_LIMIT as int,
    ensures
        -(DIV_LIMIT as int) - 1 <= n / d <= DIV_LIMIT as int,
{
    vstd::arithmetic::div_mod::lemma_fundamental_div_mod(n, d);
    vstd::arithmetic::div_mod::lemma_mod_bound(n, d);
    let q = n / d;
    let r = n % d;
    assert(-(DIV_LIMIT as int) - 1 <= q <= DIV_LIMIT as int) by (nonlinear_arith)
        requires
            n == d * q + r,
            0 <= r < d,
            d > 0,
            -(DIV_LIMIT as int) <= n <= DIV_LIMIT as int;
}

/// Negating the divisor negates the quotient of the floor-style division.
proof fn lemma_div_negate_divisor(n: int, m: int)
    requires
        m > 0,
    ensures
        n / (-m) == -(n / m),
{
    vstd::arithmetic::div_mod::lemma_fundamental_div_mod(n, m);
    vstd::arithmetic::div_mod::lemma_mod_bound(n, m);
    vstd::arithmetic::div_mod::lemma_fundamental_div_mod(n, -m);
    let q1 = n / m;
    let r1 = n % m;
    let q2 = n / (-m);
    let r2 = n % (-m);
    assert(0 <= r2 < m) by (nonlinear_arith)
        requires m > 0 && r2 == n % (-m);
    assert(q2 == -q1) by (nonlinear_arith)
        requires
            n == m * q1 + r1,
            n == (-m) * q2 + r2,
            0 <= r1 < m,
            0 <= r2 < m,
            m > 0;
}

} // verus!

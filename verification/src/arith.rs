//! Mathematical model of the fixed-width two's-complement arithmetic that the
//! instruction models are specified against, together with verified executable
//! cores shared by the per-instruction model functions.

use vstd::prelude::*;

verus! {

use vstd::arithmetic::div_mod::{
    lemma_fundamental_div_mod, lemma_fundamental_div_mod_converse_div,
    lemma_fundamental_div_mod_converse_mod, lemma_mod_division_less_than_divisor,
    lemma_mod_multiples_basic,
};
use vstd::arithmetic::mul::{lemma_mul_inequality, lemma_mul_upper_bound};

/// Signed value of a 64-bit register interpreted in two's complement.
pub open spec fn sext64(x: u64) -> int {
    if x < 0x8000_0000_0000_0000 {
        x as int
    } else {
        x as int - 0x1_0000_0000_0000_0000
    }
}

/// The low 32 bits of a 64-bit register, as a mathematical integer.
pub open spec fn low32(x: u64) -> int {
    (x as int) % 0x1_0000_0000
}

/// Signed value of the low 32 bits of a register in two's complement.
pub open spec fn sext32(x: u64) -> int {
    if low32(x) < 0x8000_0000 {
        low32(x)
    } else {
        low32(x) - 0x1_0000_0000
    }
}

/// The low 16 bits of a 64-bit register, as a mathematical integer.
pub open spec fn low16(x: u64) -> int {
    (x as int) % 0x1_0000
}

/// Signed value of the low 16 bits of a register in two's complement.
pub open spec fn sext16(x: u64) -> int {
    if low16(x) < 0x8000 {
        low16(x)
    } else {
        low16(x) - 0x1_0000
    }
}

/// Whether an exact integer result fits in a signed 64-bit destination.
pub open spec fn fits_i64(x: int) -> bool {
    -0x8000_0000_0000_0000 <= x <= 0x7FFF_FFFF_FFFF_FFFF
}

/// Whether an exact integer result fits in a signed 32-bit destination.
pub open spec fn fits_i32(x: int) -> bool {
    -0x8000_0000 <= x <= 0x7FFF_FFFF
}

/// Two's-complement wrap of an exact integer into a 64-bit register.
pub open spec fn wrap64(x: int) -> u64 {
    (x % 0x1_0000_0000_0000_0000) as u64
}

/// Two's-complement wrap of an exact integer into the low 32 bits,
/// zero-extended to 64 bits.
pub open spec fn wrap32(x: int) -> u64 {
    (x % 0x1_0000_0000) as u64
}

/// Bitwise complement of a 64-bit register.
pub open spec fn not64(x: u64) -> u64 {
    (0xFFFF_FFFF_FFFF_FFFF - x) as u64
}

pub open spec fn abs_val(x: int) -> int {
    if x >= 0 {
        x
    } else {
        -x
    }
}

/// Division truncated toward zero, which is how the divide instructions round.
pub open spec fn trunc_div(a: int, b: int) -> int {
    if (a >= 0) == (b >= 0) {
        abs_val(a) / abs_val(b)
    } else {
        -(abs_val(a) / abs_val(b))
    }
}

/// Remainder of division truncated toward zero: it takes the dividend's sign.
pub open spec fn trunc_rem(a: int, b: int) -> int {
    if a >= 0 {
        abs_val(a) % abs_val(b)
    } else {
        -(abs_val(a) % abs_val(b))
    }
}

pub open spec fn b2i(b: bool) -> int {
    if b {
        1
    } else {
        0
    }
}

/// Carry out of bit 63 of the unsigned sum `x + y + cin`.
pub open spec fn carry64(x: u64, y: u64, cin: bool) -> bool {
    x + y + b2i(cin) >= 0x1_0000_0000_0000_0000
}

/// Carry out of bit 31 of the unsigned sum of the low halves.
pub open spec fn carry32(x: u64, y: u64, cin: bool) -> bool {
    low32(x) + low32(y) + b2i(cin) >= 0x1_0000_0000
}

/// Signed overflow of `x + y + cin` at 64-bit width.
pub open spec fn sovf64(x: u64, y: u64, cin: bool) -> bool {
    !fits_i64(sext64(x) + sext64(y) + b2i(cin))
}

/// Signed overflow of `x + y + cin` at 32-bit width, computed on the low
/// halves independently of the 64-bit check.
pub open spec fn sovf32(x: u64, y: u64, cin: bool) -> bool {
    !fits_i32(sext32(x) + sext32(y) + b2i(cin))
}

/// The 64-bit register result of the sum `x + y + cin`.
pub open spec fn wadd64(x: u64, y: u64, cin: bool) -> u64 {
    wrap64(x + y + b2i(cin))
}

/// All flag outputs of one pass through the 64-bit adder.
pub struct AddResult {
    pub rt: u64,
    pub ca: bool,
    pub ca32: bool,
    pub ov: bool,
    pub ov32: bool,
}

/// Signed two's-complement value of a register, one width up so every
/// intermediate sum below stays exact.
pub fn signed_val64(x: u64) -> (r: i128)
    ensures
        r as int == sext64(x),
{
    if x < 0x8000_0000_0000_0000 {
        x as i128
    } else {
        (x as i128) - 0x1_0000_0000_0000_0000i128
    }
}

/// Signed two's-complement value of the low 32 bits of a register.
pub fn signed_val32(x: u64) -> (r: i128)
    ensures
        r as int == sext32(x),
{
    let lo: u64 = x % 0x1_0000_0000;
    if lo < 0x8000_0000 {
        lo as i128
    } else {
        (lo as i128) - 0x1_0000_0000i128
    }
}

/// One pass through the 64-bit adder: the wrapped sum `x + y + cin` together
/// with the unsigned carries and signed overflows at both widths, each
/// computed independently from the exact one-width-up intermediate sums.
pub fn add_core(x: u64, y: u64, cin: bool) -> (r: AddResult)
    ensures
        r.rt == wadd64(x, y, cin),
        r.ca == carry64(x, y, cin),
        r.ca32 == carry32(x, y, cin),
        r.ov == sovf64(x, y, cin),
        r.ov32 == sovf32(x, y, cin),
{
    let c: u64 = if cin {
        1
    } else {
        0
    };
    let sum: u128 = x as u128 + y as u128 + c as u128;
    let rt: u64 = (sum % 0x1_0000_0000_0000_0000u128) as u64;
    let ca = sum >= 0x1_0000_0000_0000_0000;
    let lx: u64 = x % 0x1_0000_0000;
    let ly: u64 = y % 0x1_0000_0000;
    let ca32 = lx + ly + c >= 0x1_0000_0000;
    let sx = signed_val64(x);
    let sy = signed_val64(y);
    let s = sx + sy + c as i128;
    let ov = s < -0x8000_0000_0000_0000i128 || s > 0x7FFF_FFFF_FFFF_FFFFi128;
    let tx = signed_val32(x);
    let ty = signed_val32(y);
    let t = tx + ty + c as i128;
    let ov32 = t < -0x8000_0000i128 || t > 0x7FFF_FFFFi128;
    AddResult { rt, ca, ca32, ov, ov32 }
}

/// Quotient is at most the dividend, for a positive divisor.
pub proof fn lemma_div_le(a: int, b: int)
    requires
        0 <= a,
        1 <= b,
    ensures
        0 <= a / b <= a,
{
    lemma_fundamental_div_mod(a, b);
    if a / b > a {
        lemma_mul_inequality(a + 1, a / b, b);
        assert((a + 1) * b == a * b + b) by (nonlinear_arith);
        assert(a * b >= a) by (nonlinear_arith)
            requires
                0 <= a && 1 <= b,
        ;
    }
}

/// The quotient of `a / b` is below `c` exactly when `a < b * c`.
pub proof fn lemma_div_below(a: int, b: int, c: int)
    requires
        0 <= a,
        1 <= b,
        0 <= c,
    ensures
        (a / b < c) <==> (a < b * c),
{
    lemma_fundamental_div_mod(a, b);
    lemma_mod_division_less_than_divisor(a, b);
    let q = a / b;
    assert(b * q == q * b) by (nonlinear_arith);
    if q < c {
        lemma_mul_inequality(q, c - 1, b);
        assert((c - 1) * b == c * b - b) by (nonlinear_arith);
        assert(b * c == c * b) by (nonlinear_arith);
    } else {
        lemma_mul_inequality(c, q, b);
        assert(b * c == c * b) by (nonlinear_arith);
    }
}

/// A product of bounded factors is bounded by the product of the bounds.
pub proof fn lemma_mul_bounds(a: int, b: int, abound: int, bbound: int)
    by (nonlinear_arith)
    requires
        -abound <= a <= abound,
        -bbound <= b <= bbound,
    ensures
        -(abound * bbound) <= a * b <= abound * bbound,
{
}

/// Two's-complement wrap of a signed one-width-up intermediate value into a
/// 64-bit register.
pub fn wrap_i128(x: i128) -> (r: u64)
    requires
        x as int > -0x8000_0000_0000_0000_0000_0000_0000_0000,
    ensures
        r == wrap64(x as int),
{
    if x >= 0 {
        let q: u128 = (x as u128) % 0x1_0000_0000_0000_0000;
        q as u64
    } else {
        let m: u128 = ((-x) as u128) % 0x1_0000_0000_0000_0000;
        if m == 0 {
            proof {
                lemma_fundamental_div_mod((-x) as int, 0x1_0000_0000_0000_0000);
                lemma_mod_multiples_basic(-((-x) as int / 0x1_0000_0000_0000_0000), 0x1_0000_0000_0000_0000);
                assert(-(((-x) as int / 0x1_0000_0000_0000_0000) * 0x1_0000_0000_0000_0000)
                    == (-((-x) as int / 0x1_0000_0000_0000_0000)) * 0x1_0000_0000_0000_0000) by (nonlinear_arith);
            }
            0
        } else {
            proof {
                let t = 0x1_0000_0000_0000_0000int;
                let mm = (-x) as int;
                lemma_fundamental_div_mod(mm, t);
                let q = mm / t;
                assert(x as int == (-q) * t + (-(mm % t))) by (nonlinear_arith)
                    requires
                        mm == q * t + (mm % t) && x as int == -mm,
                ;
                assert(x as int == (-q - 1) * t + (t - (mm % t))) by (nonlinear_arith)
                    requires
                        x as int == (-q) * t + (-(mm % t)),
                ;
                lemma_fundamental_div_mod_converse_mod(x as int, t, -q - 1, t - (mm % t));
            }
            (0x1_0000_0000_0000_0000u128 - m) as u64
        }
    }
}

/// Truncated signed division of the extended dividend `sa * scale` by `sb`,
/// exactly as the signed divide instructions perform it: a zero divisor or a
/// quotient outside `[min_q, max_q]` yields a result of 0 with the overflow
/// condition reported as true, and the division never traps.
pub fn sdiv_core(sa: i128, sb: i128, scale: u128, min_q: i128, max_q: i128) -> (r: (i128, bool))
    requires
        -0x8000_0000_0000_0000 <= sa <= 0x7FFF_FFFF_FFFF_FFFF,
        -0x8000_0000_0000_0000 <= sb <= 0x7FFF_FFFF_FFFF_FFFF,
        1 <= scale <= 0x1_0000_0000_0000_0000,
        -0x8000_0000_0000_0000 <= min_q < 0 <= max_q <= 0x7FFF_FFFF_FFFF_FFFF,
    ensures
        r.1 == (sb == 0 || !(min_q <= trunc_div(sa as int * scale as int, sb as int) <= max_q)),
        r.1 ==> r.0 == 0,
        !r.1 ==> r.0 as int == trunc_div(sa as int * scale as int, sb as int),
{
    if sb == 0 {
        return (0, true);
    }
    let neg = (sa < 0) != (sb < 0);
    let ma: u128 = if sa < 0 {
        (-sa) as u128
    } else {
        sa as u128
    };
    let mb: u128 = if sb < 0 {
        (-sb) as u128
    } else {
        sb as u128
    };
    proof {
        lemma_mul_upper_bound(ma as int, 0x8000_0000_0000_0000, scale as int, 0x1_0000_0000_0000_0000);
    }
    let scaled: u128 = ma * scale;
    let q: u128 = scaled / mb;
    proof {
        lemma_div_le(scaled as int, mb as int);
        assert(abs_val(sa as int * scale as int) == abs_val(sa as int) * (scale as int))
            by (nonlinear_arith)
            requires
                scale as int > 0,
        ;
        assert((sa as int * scale as int >= 0) == (sa as int >= 0)) by (nonlinear_arith)
            requires
                scale as int > 0,
        ;
    }
    let fits = if neg {
        q <= (-min_q) as u128
    } else {
        q <= max_q as u128
    };
    if !fits {
        (0, true)
    } else {
        let qs: i128 = if neg {
            -(q as i128)
        } else {
            q as i128
        };
        (qs, false)
    }
}

/// Unsigned division of the extended dividend `ua * scale` by `ub`, exactly
/// as the unsigned divide instructions perform it: a zero divisor or a
/// quotient above `max_q` yields a result of 0 with the overflow condition
/// reported as true, and the division never traps.
pub fn udiv_core(ua: u64, ub: u64, scale: u128, max_q: u64) -> (r: (u64, bool))
    requires
        1 <= scale <= 0x1_0000_0000_0000_0000,
    ensures
        r.1 == (ub == 0 || (ua as int * scale as int) / (ub as int) > max_q),
        r.1 ==> r.0 == 0,
        !r.1 ==> r.0 as int == (ua as int * scale as int) / (ub as int),
{
    if ub == 0 {
        return (0, true);
    }
    proof {
        lemma_mul_upper_bound(ua as int, 0xFFFF_FFFF_FFFF_FFFF, scale as int, 0x1_0000_0000_0000_0000);
    }
    let scaled: u128 = (ua as u128) * scale;
    let q: u128 = scaled / (ub as u128);
    if q > max_q as u128 {
        (0, true)
    } else {
        (q as u64, false)
    }
}

/// Remainder of truncated signed division, exactly as the signed modulo
/// instructions perform it: a zero divisor, or the most negative dividend
/// `min_sa` divided by -1, yields 0, and the operation never traps.
pub fn smod_core(sa: i128, sb: i128, min_sa: i128) -> (r: u64)
    requires
        -0x8000_0000_0000_0000 <= sa <= 0x7FFF_FFFF_FFFF_FFFF,
        -0x8000_0000_0000_0000 <= sb <= 0x7FFF_FFFF_FFFF_FFFF,
        min_sa < 0,
    ensures
        r == (if sb == 0 || (sb == -1 && sa == min_sa) {
            0u64
        } else {
            wrap64(trunc_rem(sa as int, sb as int))
        }),
{
    if sb == 0 || (sb == -1 && sa == min_sa) {
        return 0;
    }
    let ma: u128 = if sa < 0 {
        (-sa) as u128
    } else {
        sa as u128
    };
    let mb: u128 = if sb < 0 {
        (-sb) as u128
    } else {
        sb as u128
    };
    let rem: u128 = ma % mb;
    if sa < 0 {
        wrap_i128(-(rem as i128))
    } else {
        proof {
            vstd::arithmetic::div_mod::lemma_small_mod(rem as nat, 0x1_0000_0000_0000_0000nat);
        }
        rem as u64
    }
}

/// Euclidean (floor) division of a signed intermediate product by a positive
/// scale, as an arithmetic right shift computes it.
pub fn floor_div_i128(p: i128, t: u128) -> (q: i128)
    requires
        1 <= t <= 0x1_0000_0000_0000_0000,
        p as int > -0x8000_0000_0000_0000_0000_0000_0000_0000,
    ensures
        q as int == (p as int) / (t as int),
        p >= 0 ==> 0 <= q <= p,
        p < 0 ==> p <= q <= 0,
{
    if p >= 0 {
        let qq: u128 = (p as u128) / t;
        proof {
            lemma_div_le(p as int, t as int);
        }
        qq as i128
    } else {
        let m: u128 = (-p) as u128;
        let qc: u128 = (m + (t - 1)) / t;
        proof {
            let d = t as int;
            let mi = m as int;
            lemma_div_below(mi + d - 1, d, mi + 1);
            assert(mi + d - 1 < d * (mi + 1)) by (nonlinear_arith)
                requires
                    d >= 1 && mi >= 1,
            ;
            lemma_fundamental_div_mod(mi + d - 1, d);
            lemma_mod_division_less_than_divisor(mi + d - 1, d);
            let qi = (mi + d - 1) / d;
            let ri = (mi + d - 1) % d;
            assert(p as int == (-qi) * d + (d - 1 - ri)) by (nonlinear_arith)
                requires
                    mi + d - 1 == d * qi + ri && p as int == -mi,
            ;
            lemma_fundamental_div_mod_converse_div(p as int, d, -qi, d - 1 - ri);
        }
        -(qc as i128)
    }
}

/// Two's-complement wrap of a signed intermediate value into the low 32 bits,
/// zero-extended to 64 bits.
pub fn wrap32_i128(x: i128) -> (r: u64)
    requires
        x as int > -0x8000_0000_0000_0000_0000_0000_0000_0000,
    ensures
        r == wrap32(x as int),
{
    if x >= 0 {
        let q: u128 = (x as u128) % 0x1_0000_0000;
        q as u64
    } else {
        let m: u128 = ((-x) as u128) % 0x1_0000_0000;
        if m == 0 {
            proof {
                lemma_fundamental_div_mod((-x) as int, 0x1_0000_0000);
                lemma_mod_multiples_basic(-((-x) as int / 0x1_0000_0000), 0x1_0000_0000);
                assert(-(((-x) as int / 0x1_0000_0000) * 0x1_0000_0000)
                    == (-((-x) as int / 0x1_0000_0000)) * 0x1_0000_0000) by (nonlinear_arith);
            }
            0
        } else {
            proof {
                let t = 0x1_0000_0000int;
                let mm = (-x) as int;
                lemma_fundamental_div_mod(mm, t);
                let q = mm / t;
                assert(x as int == (-q) * t + (-(mm % t))) by (nonlinear_arith)
                    requires
                        mm == q * t + (mm % t) && x as int == -mm,
                ;
                assert(x as int == (-q - 1) * t + (t - (mm % t))) by (nonlinear_arith)
                    requires
                        x as int == (-q) * t + (-(mm % t)),
                ;
                lemma_fundamental_div_mod_converse_mod(x as int, t, -q - 1, t - (mm % t));
            }
            (0x1_0000_0000u128 - m) as u64
        }
    }
}

} // verus!

//! Models of the multiply and multiply-add instruction families. Products
//! are specified over the exact integers; the high-half instructions divide
//! the exact product by the operand width's modulus, flooring as an
//! arithmetic shift does.

use vstd::prelude::*;

verus! {

use crate::arith::{fits_i32, fits_i64, lemma_div_below, lemma_mul_bounds, low32, sext16, sext32,
    sext64, wrap32, wrap64};
use crate::flags::OverflowFlags;
use crate::inputs::{missing, InstructionInput, InstructionInputRegister, InstructionOutput,
    InstructionResult};
use crate::variants::{append_cr0_64, append_cr0_64_exec, drop_overflow_exec, drop_overflow_result,
    out_rt, out_rt_ov, ov_flags, record_from_input_so_32, record_from_input_so_32_exec,
    record_from_input_so_64, record_from_input_so_64_exec, replace_cr0_so_drop_overflow,
    replace_cr0_so_drop_overflow_exec, with_default_overflow};
use vstd::arithmetic::mul::lemma_mul_upper_bound;

/// The low 32 bits of an exact value, duplicated into both halves of a
/// 64-bit register, which is how the 32-bit high-half multiplies report
/// their result.
pub open spec fn dup32(h: int) -> u64 {
    (wrap32(h) + wrap32(h) * 0x1_0000_0000) as u64
}

/// `mulli`: the low 64 bits of `ra` times the sign-extended immediate.
pub open spec fn spec_mulli(inputs: InstructionInput) -> InstructionResult {
    if inputs.ra is None {
        missing(InstructionInputRegister::Ra)
    } else if inputs.immediate is None {
        missing(InstructionInputRegister::ImmediateS16)
    } else {
        Ok(out_rt(wrap64(sext64(inputs.ra.unwrap()) * sext16(inputs.immediate.unwrap()))))
    }
}

pub fn mulli(inputs: InstructionInput) -> (r: InstructionResult)
    ensures
        r == spec_mulli(inputs),
{
    let ra = match inputs.try_get_ra() {
        Ok(v) => v,
        Err(e) => {
            return Err(e);
        },
    };
    let imm = match inputs.try_get_immediate_s16() {
        Ok(v) => v,
        Err(e) => {
            return Err(e);
        },
    };
    let sa = crate::arith::signed_val64(ra);
    proof {
        lemma_mul_bounds(sa as int, imm as int, 0x8000_0000_0000_0000, 0x8000);
    }
    let p: i128 = sa * (imm as i128);
    let rt = crate::arith::wrap_i128(p);
    let mut out = InstructionOutput::default();
    out.rt = Some(rt);
    Ok(out)
}

/// Ok payload of `mullwo`: the full 64-bit product of the signed low halves,
/// overflowing when the product does not fit 32 bits.
pub open spec fn mullwo_out(ra: u64, rb: u64, so_in: bool) -> InstructionOutput {
    let p = sext32(ra) * sext32(rb);
    out_rt_ov(wrap64(p), ov_flags(so_in, !fits_i32(p), !fits_i32(p)))
}

pub open spec fn spec_mullwo(inputs: InstructionInput) -> InstructionResult {
    if inputs.ra is None {
        missing(InstructionInputRegister::Ra)
    } else if inputs.rb is None {
        missing(InstructionInputRegister::Rb)
    } else if inputs.overflow is None {
        missing(InstructionInputRegister::Overflow)
    } else {
        Ok(mullwo_out(inputs.ra.unwrap(), inputs.rb.unwrap(), inputs.overflow.unwrap().so))
    }
}

pub open spec fn spec_mullw(inputs: InstructionInput) -> InstructionResult {
    drop_overflow_result(spec_mullwo(with_default_overflow(inputs)))
}

pub open spec fn spec_mullwo_(inputs: InstructionInput) -> InstructionResult {
    append_cr0_64(spec_mullwo(inputs))
}

pub open spec fn spec_mullw_(inputs: InstructionInput) -> InstructionResult {
    replace_cr0_so_drop_overflow(spec_mullwo_(inputs), inputs)
}

pub fn mullwo(inputs: InstructionInput) -> (r: InstructionResult)
    ensures
        r == spec_mullwo(inputs),
{
    let ra = match inputs.try_get_ra() {
        Ok(v) => v,
        Err(e) => {
            return Err(e);
        },
    };
    let rb = match inputs.try_get_rb() {
        Ok(v) => v,
        Err(e) => {
            return Err(e);
        },
    };
    let sa = crate::arith::signed_val32(ra);
    let sb = crate::arith::signed_val32(rb);
    proof {
        lemma_mul_bounds(sa as int, sb as int, 0x8000_0000, 0x8000_0000);
    }
    let p: i128 = sa * sb;
    let rt = crate::arith::wrap_i128(p);
    let ov = p < -0x8000_0000i128 || p > 0x7FFF_FFFFi128;
    let so_in = match inputs.try_get_overflow() {
        Ok(f) => f.so,
        Err(e) => {
            return Err(e);
        },
    };
    let mut out = InstructionOutput::default();
    out.rt = Some(rt);
    out.overflow = Some(OverflowFlags { so: so_in || ov, ov, ov32: ov });
    Ok(out)
}

pub fn mullw(inputs: InstructionInput) -> (r: InstructionResult)
    ensures
        r == spec_mullw(inputs),
{
    let mut with_ov = inputs;
    with_ov.overflow = Some(OverflowFlags { so: false, ov: false, ov32: false });
    drop_overflow_exec(mullwo(with_ov))
}

pub fn mullwo_(inputs: InstructionInput) -> (r: InstructionResult)
    ensures
        r == spec_mullwo_(inputs),
{
    append_cr0_64_exec(mullwo(inputs))
}

pub fn mullw_(inputs: InstructionInput) -> (r: InstructionResult)
    ensures
        r == spec_mullw_(inputs),
{
    replace_cr0_so_drop_overflow_exec(mullwo_(inputs), inputs)
}

/// `mulhw`: the high 32 bits of the signed product of the low halves,
/// duplicated into both halves of the result register.
pub open spec fn spec_mulhw(inputs: InstructionInput) -> InstructionResult {
    if inputs.ra is None {
        missing(InstructionInputRegister::Ra)
    } else if inputs.rb is None {
        missing(InstructionInputRegister::Rb)
    } else {
        Ok(out_rt(dup32((sext32(inputs.ra.unwrap()) * sext32(inputs.rb.unwrap())) / 0x1_0000_0000)))
    }
}

pub open spec fn spec_mulhw_(inputs: InstructionInput) -> InstructionResult {
    record_from_input_so_32(spec_mulhw(inputs), inputs)
}

pub fn mulhw(inputs: InstructionInput) -> (r: InstructionResult)
    ensures
        r == spec_mulhw(inputs),
{
    let ra = match inputs.try_get_ra() {
        Ok(v) => v,
        Err(e) => {
            return Err(e);
        },
    };
    let rb = match inputs.try_get_rb() {
        Ok(v) => v,
        Err(e) => {
            return Err(e);
        },
    };
    let sa = crate::arith::signed_val32(ra);
    let sb = crate::arith::signed_val32(rb);
    proof {
        lemma_mul_bounds(sa as int, sb as int, 0x8000_0000, 0x8000_0000);
    }
    let p: i128 = sa * sb;
    let h = crate::arith::floor_div_i128(p, 0x1_0000_0000);
    let lo = crate::arith::wrap32_i128(h);
    let rt: u64 = lo + lo * 0x1_0000_0000;
    let mut out = InstructionOutput::default();
    out.rt = Some(rt);
    Ok(out)
}

pub fn mulhw_(inputs: InstructionInput) -> (r: InstructionResult)
    ensures
        r == spec_mulhw_(inputs),
{
    record_from_input_so_32_exec(mulhw(inputs), inputs)
}

/// `mulhwu`: the high 32 bits of the unsigned product of the low halves,
/// duplicated into both halves of the result register.
pub open spec fn spec_mulhwu(inputs: InstructionInput) -> InstructionResult {
    if inputs.ra is None {
        missing(InstructionInputRegister::Ra)
    } else if inputs.rb is None {
        missing(InstructionInputRegister::Rb)
    } else {
        Ok(out_rt(dup32((low32(inputs.ra.unwrap()) * low32(inputs.rb.unwrap())) / 0x1_0000_0000)))
    }
}

pub open spec fn spec_mulhwu_(inputs: InstructionInput) -> InstructionResult {
    record_from_input_so_32(spec_mulhwu(inputs), inputs)
}

pub fn mulhwu(inputs: InstructionInput) -> (r: InstructionResult)
    ensures
        r == spec_mulhwu(inputs),
{
    let ra = match inputs.try_get_ra() {
        Ok(v) => v,
        Err(e) => {
            return Err(e);
        },
    };
    let rb = match inputs.try_get_rb() {
        Ok(v) => v,
        Err(e) => {
            return Err(e);
        },
    };
    let ua: u64 = ra % 0x1_0000_0000;
    let ub: u64 = rb % 0x1_0000_0000;
    proof {
        lemma_mul_upper_bound(ua as int, 0xFFFF_FFFF, ub as int, 0xFFFF_FFFF);
    }
    let p: u64 = ua * ub;
    let h: u64 = p / 0x1_0000_0000;
    let lo = crate::arith::wrap32_i128(h as i128);
    let rt: u64 = lo + lo * 0x1_0000_0000;
    let mut out = InstructionOutput::default();
    out.rt = Some(rt);
    Ok(out)
}

pub fn mulhwu_(inputs: InstructionInput) -> (r: InstructionResult)
    ensures
        r == spec_mulhwu_(inputs),
{
    record_from_input_so_32_exec(mulhwu(inputs), inputs)
}

/// Ok payload of `mulldo`: the low 64 bits of the signed product,
/// overflowing when the exact product does not fit 64 bits.
pub open spec fn mulldo_out(ra: u64, rb: u64, so_in: bool) -> InstructionOutput {
    let p = sext64(ra) * sext64(rb);
    out_rt_ov(wrap64(p), ov_flags(so_in, !fits_i64(p), !fits_i64(p)))
}

pub open spec fn spec_mulldo(inputs: InstructionInput) -> InstructionResult {
    if inputs.ra is None {
        missing(InstructionInputRegister::Ra)
    } else if inputs.rb is None {
        missing(InstructionInputRegister::Rb)
    } else if inputs.overflow is None {
        missing(InstructionInputRegister::Overflow)
    } else {
        Ok(mulldo_out(inputs.ra.unwrap(), inputs.rb.unwrap(), inputs.overflow.unwrap().so))
    }
}

pub open spec fn spec_mulld(inputs: InstructionInput) -> InstructionResult {
    drop_overflow_result(spec_mulldo(with_default_overflow(inputs)))
}

pub open spec fn spec_mulldo_(inputs: InstructionInput) -> InstructionResult {
    append_cr0_64(spec_mulldo(inputs))
}

pub open spec fn spec_mulld_(inputs: InstructionInput) -> InstructionResult {
    replace_cr0_so_drop_overflow(spec_mulldo_(inputs), inputs)
}

pub fn mulldo(inputs: InstructionInput) -> (r: InstructionResult)
    ensures
        r == spec_mulldo(inputs),
{
    let ra = match inputs.try_get_ra() {
        Ok(v) => v,
        Err(e) => {
            return Err(e);
        },
    };
    let rb = match inputs.try_get_rb() {
        Ok(v) => v,
        Err(e) => {
            return Err(e);
        },
    };
    let sa = crate::arith::signed_val64(ra);
    let sb = crate::arith::signed_val64(rb);
    proof {
        lemma_mul_bounds(sa as int, sb as int, 0x8000_0000_0000_0000, 0x8000_0000_0000_0000);
    }
    let p: i128 = sa * sb;
    let rt = crate::arith::wrap_i128(p);
    let ov = p < -0x8000_0000_0000_0000i128 || p > 0x7FFF_FFFF_FFFF_FFFFi128;
    let so_in = match inputs.try_get_overflow() {
        Ok(f) => f.so,
        Err(e) => {
            return Err(e);
        },
    };
    let mut out = InstructionOutput::default();
    out.rt = Some(rt);
    out.overflow = Some(OverflowFlags { so: so_in || ov, ov, ov32: ov });
    Ok(out)
}

pub fn mulld(inputs: InstructionInput) -> (r: InstructionResult)
    ensures
        r == spec_mulld(inputs),
{
    let mut with_ov = inputs;
    with_ov.overflow = Some(OverflowFlags { so: false, ov: false, ov32: false });
    drop_overflow_exec(mulldo(with_ov))
}

pub fn mulldo_(inputs: InstructionInput) -> (r: InstructionResult)
    ensures
        r == spec_mulldo_(inputs),
{
    append_cr0_64_exec(mulldo(inputs))
}

pub fn mulld_(inputs: InstructionInput) -> (r: InstructionResult)
    ensures
        r == spec_mulld_(inputs),
{
    replace_cr0_so_drop_overflow_exec(mulldo_(inputs), inputs)
}

/// `mulhd`: the high 64 bits of the signed product.
pub open spec fn spec_mulhd(inputs: InstructionInput) -> InstructionResult {
    if inputs.ra is None {
        missing(InstructionInputRegister::Ra)
    } else if inputs.rb is None {
        missing(InstructionInputRegister::Rb)
    } else {
        Ok(
            out_rt(
                wrap64(
                    (sext64(inputs.ra.unwrap()) * sext64(inputs.rb.unwrap()))
                        / 0x1_0000_0000_0000_0000,
                ),
            ),
        )
    }
}

pub open spec fn spec_mulhd_(inputs: InstructionInput) -> InstructionResult {
    record_from_input_so_64(spec_mulhd(inputs), inputs)
}

pub fn mulhd(inputs: InstructionInput) -> (r: InstructionResult)
    ensures
        r == spec_mulhd(inputs),
{
    let ra = match inputs.try_get_ra() {
        Ok(v) => v,
        Err(e) => {
            return Err(e);
        },
    };
    let rb = match inputs.try_get_rb() {
        Ok(v) => v,
        Err(e) => {
            return Err(e);
        },
    };
    let sa = crate::arith::signed_val64(ra);
    let sb = crate::arith::signed_val64(rb);
    proof {
        lemma_mul_bounds(sa as int, sb as int, 0x8000_0000_0000_0000, 0x8000_0000_0000_0000);
    }
    let p: i128 = sa * sb;
    let h = crate::arith::floor_div_i128(p, 0x1_0000_0000_0000_0000);
    let rt = crate::arith::wrap_i128(h);
    let mut out = InstructionOutput::default();
    out.rt = Some(rt);
    Ok(out)
}

pub fn mulhd_(inputs: InstructionInput) -> (r: InstructionResult)
    ensures
        r == spec_mulhd_(inputs),
{
    record_from_input_so_64_exec(mulhd(inputs), inputs)
}

/// `mulhdu`: the high 64 bits of the unsigned product.
pub open spec fn spec_mulhdu(inputs: InstructionInput) -> InstructionResult {
    if inputs.ra is None {
        missing(InstructionInputRegister::Ra)
    } else if inputs.rb is None {
        missing(InstructionInputRegister::Rb)
    } else {
        Ok(
            out_rt(
                (((inputs.ra.unwrap() as int) * (inputs.rb.unwrap() as int))
                    / 0x1_0000_0000_0000_0000) as u64,
            ),
        )
    }
}

pub open spec fn spec_mulhdu_(inputs: InstructionInput) -> InstructionResult {
    record_from_input_so_64(spec_mulhdu(inputs), inputs)
}

pub fn mulhdu(inputs: InstructionInput) -> (r: InstructionResult)
    ensures
        r == spec_mulhdu(inputs),
{
    let ra = match inputs.try_get_ra() {
        Ok(v) => v,
        Err(e) => {
            return Err(e);
        },
    };
    let rb = match inputs.try_get_rb() {
        Ok(v) => v,
        Err(e) => {
            return Err(e);
        },
    };
    proof {
        lemma_mul_upper_bound(
            ra as int,
            0xFFFF_FFFF_FFFF_FFFF,
            rb as int,
            0xFFFF_FFFF_FFFF_FFFF,
        );
    }
    let p: u128 = (ra as u128) * (rb as u128);
    proof {
        lemma_div_below(
            p as int,
            0x1_0000_0000_0000_0000,
            0x1_0000_0000_0000_0000,
        );
    }
    let rt: u64 = (p / 0x1_0000_0000_0000_0000) as u64;
    let mut out = InstructionOutput::default();
    out.rt = Some(rt);
    Ok(out)
}

pub fn mulhdu_(inputs: InstructionInput) -> (r: InstructionResult)
    ensures
        r == spec_mulhdu_(inputs),
{
    record_from_input_so_64_exec(mulhdu(inputs), inputs)
}

/// `maddhd`: the high 64 bits of the signed multiply-add `ra * rb + rc`.
pub open spec fn spec_maddhd(inputs: InstructionInput) -> InstructionResult {
    if inputs.ra is None {
        missing(InstructionInputRegister::Ra)
    } else if inputs.rb is None {
        missing(InstructionInputRegister::Rb)
    } else if inputs.rc is None {
        missing(InstructionInputRegister::Rc)
    } else {
        Ok(
            out_rt(
                wrap64(
                    (sext64(inputs.ra.unwrap()) * sext64(inputs.rb.unwrap()) + sext64(
                        inputs.rc.unwrap(),
                    )) / 0x1_0000_0000_0000_0000,
                ),
            ),
        )
    }
}

pub fn maddhd(inputs: InstructionInput) -> (r: InstructionResult)
    ensures
        r == spec_maddhd(inputs),
{
    let ra = match inputs.try_get_ra() {
        Ok(v) => v,
        Err(e) => {
            return Err(e);
        },
    };
    let rb = match inputs.try_get_rb() {
        Ok(v) => v,
        Err(e) => {
            return Err(e);
        },
    };
    let rc = match inputs.try_get_rc() {
        Ok(v) => v,
        Err(e) => {
            return Err(e);
        },
    };
    let sa = crate::arith::signed_val64(ra);
    let sb = crate::arith::signed_val64(rb);
    let sc = crate::arith::signed_val64(rc);
    proof {
        lemma_mul_bounds(sa as int, sb as int, 0x8000_0000_0000_0000, 0x8000_0000_0000_0000);
    }
    let p: i128 = sa * sb + sc;
    let h = crate::arith::floor_div_i128(p, 0x1_0000_0000_0000_0000);
    let rt = crate::arith::wrap_i128(h);
    let mut out = InstructionOutput::default();
    out.rt = Some(rt);
    Ok(out)
}

/// `maddhdu`: the high 64 bits of the unsigned multiply-add `ra * rb + rc`.
pub open spec fn spec_maddhdu(inputs: InstructionInput) -> InstructionResult {
    if inputs.ra is None {
        missing(InstructionInputRegister::Ra)
    } else if inputs.rb is None {
        missing(InstructionInputRegister::Rb)
    } else if inputs.rc is None {
        missing(InstructionInputRegister::Rc)
    } else {
        Ok(
            out_rt(
                (((inputs.ra.unwrap() as int) * (inputs.rb.unwrap() as int) + (
                inputs.rc.unwrap() as int)) / 0x1_0000_0000_0000_0000) as u64,
            ),
        )
    }
}

pub fn maddhdu(inputs: InstructionInput) -> (r: InstructionResult)
    ensures
        r == spec_maddhdu(inputs),
{
    let ra = match inputs.try_get_ra() {
        Ok(v) => v,
        Err(e) => {
            return Err(e);
        },
    };
    let rb = match inputs.try_get_rb() {
        Ok(v) => v,
        Err(e) => {
            return Err(e);
        },
    };
    let rc = match inputs.try_get_rc() {
        Ok(v) => v,
        Err(e) => {
            return Err(e);
        },
    };
    proof {
        lemma_mul_upper_bound(
            ra as int,
            0xFFFF_FFFF_FFFF_FFFF,
            rb as int,
            0xFFFF_FFFF_FFFF_FFFF,
        );
    }
    let p: u128 = (ra as u128) * (rb as u128) + (rc as u128);
    proof {
        lemma_div_below(
            p as int,
            0x1_0000_0000_0000_0000,
            0x1_0000_0000_0000_0000,
        );
    }
    let rt: u64 = (p / 0x1_0000_0000_0000_0000) as u64;
    let mut out = InstructionOutput::default();
    out.rt = Some(rt);
    Ok(out)
}

/// `maddld`: the low 64 bits of the signed multiply-add `ra * rb + rc`.
pub open spec fn spec_maddld(inputs: InstructionInput) -> InstructionResult {
    if inputs.ra is None {
        missing(InstructionInputRegister::Ra)
    } else if inputs.rb is None {
        missing(InstructionInputRegister::Rb)
    } else if inputs.rc is None {
        missing(InstructionInputRegister::Rc)
    } else {
        Ok(
            out_rt(
                wrap64(
                    sext64(inputs.ra.unwrap()) * sext64(inputs.rb.unwrap()) + sext64(
                        inputs.rc.unwrap(),
                    ),
                ),
            ),
        )
    }
}

pub fn maddld(inputs: InstructionInput) -> (r: InstructionResult)
    ensures
        r == spec_maddld(inputs),
{
    let ra = match inputs.try_get_ra() {
        Ok(v) => v,
        Err(e) => {
            return Err(e);
        },
    };
    let rb = match inputs.try_get_rb() {
        Ok(v) => v,
        Err(e) => {
            return Err(e);
        },
    };
    let rc = match inputs.try_get_rc() {
        Ok(v) => v,
        Err(e) => {
            return Err(e);
        },
    };
    let sa = crate::arith::signed_val64(ra);
    let sb = crate::arith::signed_val64(rb);
    let sc = crate::arith::signed_val64(rc);
    proof {
        lemma_mul_bounds(sa as int, sb as int, 0x8000_0000_0000_0000, 0x8000_0000_0000_0000);
    }
    let p: i128 = sa * sb + sc;
    let rt = crate::arith::wrap_i128(p);
    let mut out = InstructionOutput::default();
    out.rt = Some(rt);
    Ok(out)
}

} // verus!

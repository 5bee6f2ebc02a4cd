//! Models of the divide and modulo instruction families. Quotients round
//! toward zero; a zero divisor or a quotient that does not fit the
//! destination width yields a result of 0 with overflow set (divides) or a
//! plain 0 (modulos), and none of them ever traps.

use vstd::prelude::*;

verus! {

use crate::arith::{fits_i32, fits_i64, lemma_div_le, low32, sext32, sext64, trunc_div, trunc_rem,
    wrap32, wrap64};
use crate::flags::OverflowFlags;
use crate::inputs::{missing, InstructionInput, InstructionInputRegister, InstructionOutput,
    InstructionResult};
use crate::variants::{append_cr0_64, append_cr0_64_exec, drop_overflow_exec, drop_overflow_result,
    out_rt, out_rt_ov, ov_flags, replace_cr0_so_drop_overflow, replace_cr0_so_drop_overflow_exec,
    with_default_overflow};

/// Ok payload of the signed divide families: the quotient of the extended
/// dividend `sa * scale` by `sb`, truncated toward zero; a zero divisor or a
/// quotient that does not fit yields 0 with every overflow bit set.
pub open spec fn sdiv_out(sa: int, sb: int, scale: int, fit32: bool, so_in: bool)
    -> InstructionOutput {
    let q = trunc_div(sa * scale, sb);
    let ov = sb == 0 || (if fit32 {
        !fits_i32(q)
    } else {
        !fits_i64(q)
    });
    let rt = if ov {
        0u64
    } else if fit32 {
        wrap32(q)
    } else {
        wrap64(q)
    };
    out_rt_ov(rt, ov_flags(so_in, ov, ov))
}

pub open spec fn spec_divdo(inputs: InstructionInput) -> InstructionResult {
    if inputs.ra is None {
        missing(InstructionInputRegister::Ra)
    } else if inputs.rb is None {
        missing(InstructionInputRegister::Rb)
    } else if inputs.overflow is None {
        missing(InstructionInputRegister::Overflow)
    } else {
        Ok(
            sdiv_out(
                sext64(inputs.ra.unwrap()),
                sext64(inputs.rb.unwrap()),
                1,
                false,
                inputs.overflow.unwrap().so,
            ),
        )
    }
}

pub open spec fn spec_divdeo(inputs: InstructionInput) -> InstructionResult {
    if inputs.ra is None {
        missing(InstructionInputRegister::Ra)
    } else if inputs.rb is None {
        missing(InstructionInputRegister::Rb)
    } else if inputs.overflow is None {
        missing(InstructionInputRegister::Overflow)
    } else {
        Ok(
            sdiv_out(
                sext64(inputs.ra.unwrap()),
                sext64(inputs.rb.unwrap()),
                0x1_0000_0000_0000_0000,
                false,
                inputs.overflow.unwrap().so,
            ),
        )
    }
}

pub open spec fn spec_divwo(inputs: InstructionInput) -> InstructionResult {
    if inputs.ra is None {
        missing(InstructionInputRegister::Ra)
    } else if inputs.rb is None {
        missing(InstructionInputRegister::Rb)
    } else if inputs.overflow is None {
        missing(InstructionInputRegister::Overflow)
    } else {
        Ok(
            sdiv_out(
                sext32(inputs.ra.unwrap()),
                sext32(inputs.rb.unwrap()),
                1,
                true,
                inputs.overflow.unwrap().so,
            ),
        )
    }
}

pub open spec fn spec_divweo(inputs: InstructionInput) -> InstructionResult {
    if inputs.ra is None {
        missing(InstructionInputRegister::Ra)
    } else if inputs.rb is None {
        missing(InstructionInputRegister::Rb)
    } else if inputs.overflow is None {
        missing(InstructionInputRegister::Overflow)
    } else {
        Ok(
            sdiv_out(
                sext32(inputs.ra.unwrap()),
                sext32(inputs.rb.unwrap()),
                0x1_0000_0000,
                true,
                inputs.overflow.unwrap().so,
            ),
        )
    }
}

/// Shared exec body of the four signed divide instructions.
fn sdiv_exec(inputs: InstructionInput, wide: bool, extend: bool) -> (r: InstructionResult)
    ensures
        wide && !extend ==> r == spec_divdo(inputs),
        wide && extend ==> r == spec_divdeo(inputs),
        !wide && !extend ==> r == spec_divwo(inputs),
        !wide && extend ==> r == spec_divweo(inputs),
{
    let ra = match inputs.try_get_ra() {
        Ok(v) => v,
        Err(e) => {
            return Err(e);
        },
    };
    let rb = match inputs.try_get_rb() {
        Ok(v) => v,
        Err(e) => {
            return Err(e);
        },
    };
    let sa = if wide {
        crate::arith::signed_val64(ra)
    } else {
        crate::arith::signed_val32(ra)
    };
    let sb = if wide {
        crate::arith::signed_val64(rb)
    } else {
        crate::arith::signed_val32(rb)
    };
    let scale: u128 = if !extend {
        1
    } else if wide {
        0x1_0000_0000_0000_0000
    } else {
        0x1_0000_0000
    };
    let min_q: i128 = if wide {
        -0x8000_0000_0000_0000
    } else {
        -0x8000_0000
    };
    let max_q: i128 = if wide {
        0x7FFF_FFFF_FFFF_FFFF
    } else {
        0x7FFF_FFFF
    };
    let (q, ov) = crate::arith::sdiv_core(sa, sb, scale, min_q, max_q);
    let rt: u64 = if ov {
        0
    } else if wide {
        crate::arith::wrap_i128(q)
    } else {
        crate::arith::wrap32_i128(q)
    };
    let so_in = match inputs.try_get_overflow() {
        Ok(f) => f.so,
        Err(e) => {
            return Err(e);
        },
    };
    let mut out = InstructionOutput::default();
    out.rt = Some(rt);
    out.overflow = Some(OverflowFlags { so: so_in || ov, ov, ov32: ov });
    Ok(out)
}

pub fn divdo(inputs: InstructionInput) -> (r: InstructionResult)
    ensures
        r == spec_divdo(inputs),
{
    sdiv_exec(inputs, true, false)
}

pub open spec fn spec_divd(inputs: InstructionInput) -> InstructionResult {
    drop_overflow_result(spec_divdo(with_default_overflow(inputs)))
}

pub open spec fn spec_divdo_(inputs: InstructionInput) -> InstructionResult {
    append_cr0_64(spec_divdo(inputs))
}

pub open spec fn spec_divd_(inputs: InstructionInput) -> InstructionResult {
    replace_cr0_so_drop_overflow(spec_divdo_(inputs), inputs)
}

pub fn divd(inputs: InstructionInput) -> (r: InstructionResult)
    ensures
        r == spec_divd(inputs),
{
    let mut with_ov = inputs;
    with_ov.overflow = Some(OverflowFlags { so: false, ov: false, ov32: false });
    drop_overflow_exec(divdo(with_ov))
}

pub fn divdo_(inputs: InstructionInput) -> (r: InstructionResult)
    ensures
        r == spec_divdo_(inputs),
{
    append_cr0_64_exec(divdo(inputs))
}

pub fn divd_(inputs: InstructionInput) -> (r: InstructionResult)
    ensures
        r == spec_divd_(inputs),
{
    replace_cr0_so_drop_overflow_exec(divdo_(inputs), inputs)
}

pub fn divdeo(inputs: InstructionInput) -> (r: InstructionResult)
    ensures
        r == spec_divdeo(inputs),
{
    sdiv_exec(inputs, true, true)
}

pub open spec fn spec_divde(inputs: InstructionInput) -> InstructionResult {
    drop_overflow_result(spec_divdeo(with_default_overflow(inputs)))
}

pub open spec fn spec_divdeo_(inputs: InstructionInput) -> InstructionResult {
    append_cr0_64(spec_divdeo(inputs))
}

pub open spec fn spec_divde_(inputs: InstructionInput) -> InstructionResult {
    replace_cr0_so_drop_overflow(spec_divdeo_(inputs), inputs)
}

pub fn divde(inputs: InstructionInput) -> (r: InstructionResult)
    ensures
        r == spec_divde(inputs),
{
    let mut with_ov = inputs;
    with_ov.overflow = Some(OverflowFlags { so: false, ov: false, ov32: false });
    drop_overflow_exec(divdeo(with_ov))
}

pub fn divdeo_(inputs: InstructionInput) -> (r: InstructionResult)
    ensures
        r == spec_divdeo_(inputs),
{
    append_cr0_64_exec(divdeo(inputs))
}

pub fn divde_(inputs: InstructionInput) -> (r: InstructionResult)
    ensures
        r == spec_divde_(inputs),
{
    replace_cr0_so_drop_overflow_exec(divdeo_(inputs), inputs)
}

pub fn divwo(inputs: InstructionInput) -> (r: InstructionResult)
    ensures
        r == spec_divwo(inputs),
{
    sdiv_exec(inputs, false, false)
}

pub open spec fn spec_divw(inputs: InstructionInput) -> InstructionResult {
    drop_overflow_result(spec_divwo(with_default_overflow(inputs)))
}

pub open spec fn spec_divwo_(inputs: InstructionInput) -> InstructionResult {
    append_cr0_64(spec_divwo(inputs))
}

pub open spec fn spec_divw_(inputs: InstructionInput) -> InstructionResult {
    replace_cr0_so_drop_overflow(spec_divwo_(inputs), inputs)
}

pub fn divw(inputs: InstructionInput) -> (r: InstructionResult)
    ensures
        r == spec_divw(inputs),
{
    let mut with_ov = inputs;
    with_ov.overflow = Some(OverflowFlags { so: false, ov: false, ov32: false });
    drop_overflow_exec(divwo(with_ov))
}

pub fn divwo_(inputs: InstructionInput) -> (r: InstructionResult)
    ensures
        r == spec_divwo_(inputs),
{
    append_cr0_64_exec(divwo(inputs))
}

pub fn divw_(inputs: InstructionInput) -> (r: InstructionResult)
    ensures
        r == spec_divw_(inputs),
{
    replace_cr0_so_drop_overflow_exec(divwo_(inputs), inputs)
}

pub fn divweo(inputs: InstructionInput) -> (r: InstructionResult)
    ensures
        r == spec_divweo(inputs),
{
    sdiv_exec(inputs, false, true)
}

pub open spec fn spec_divwe(inputs: InstructionInput) -> InstructionResult {
    drop_overflow_result(spec_divweo(with_default_overflow(inputs)))
}

pub open spec fn spec_divweo_(inputs: InstructionInput) -> InstructionResult {
    append_cr0_64(spec_divweo(inputs))
}

pub open spec fn spec_divwe_(inputs: InstructionInput) -> InstructionResult {
    replace_cr0_so_drop_overflow(spec_divweo_(inputs), inputs)
}

pub fn divwe(inputs: InstructionInput) -> (r: InstructionResult)
    ensures
        r == spec_divwe(inputs),
{
    let mut with_ov = inputs;
    with_ov.overflow = Some(OverflowFlags { so: false, ov: false, ov32: false });
    drop_overflow_exec(divweo(with_ov))
}

pub fn divweo_(inputs: InstructionInput) -> (r: InstructionResult)
    ensures
        r == spec_divweo_(inputs),
{
    append_cr0_64_exec(divweo(inputs))
}

pub fn divwe_(inputs: InstructionInput) -> (r: InstructionResult)
    ensures
        r == spec_divwe_(inputs),
{
    replace_cr0_so_drop_overflow_exec(divweo_(inputs), inputs)
}

/// Ok payload of the unsigned divide families: the quotient of the extended
/// dividend `ua * scale` by `ub`; a zero divisor or a quotient above `max_q`
/// yields 0 with every overflow bit set.
pub open spec fn udiv_out(ua: int, ub: int, scale: int, max_q: int, so_in: bool)
    -> InstructionOutput {
    let q = (ua * scale) / ub;
    let ov = ub == 0 || q > max_q;
    let rt = if ov {
        0u64
    } else {
        q as u64
    };
    out_rt_ov(rt, ov_flags(so_in, ov, ov))
}

pub open spec fn spec_divduo(inputs: InstructionInput) -> InstructionResult {
    if inputs.ra is None {
        missing(InstructionInputRegister::Ra)
    } else if inputs.rb is None {
        missing(InstructionInputRegister::Rb)
    } else if inputs.overflow is None {
        missing(InstructionInputRegister::Overflow)
    } else {
        Ok(
            udiv_out(
                inputs.ra.unwrap() as int,
                inputs.rb.unwrap() as int,
                1,
                0xFFFF_FFFF_FFFF_FFFF,
                inputs.overflow.unwrap().so,
            ),
        )
    }
}

pub open spec fn spec_divdeuo(inputs: InstructionInput) -> InstructionResult {
    if inputs.ra is None {
        missing(InstructionInputRegister::Ra)
    } else if inputs.rb is None {
        missing(InstructionInputRegister::Rb)
    } else if inputs.overflow is None {
        missing(InstructionInputRegister::Overflow)
    } else {
        Ok(
            udiv_out(
                inputs.ra.unwrap() as int,
                inputs.rb.unwrap() as int,
                0x1_0000_0000_0000_0000,
                0xFFFF_FFFF_FFFF_FFFF,
                inputs.overflow.unwrap().so,
            ),
        )
    }
}

pub open spec fn spec_divwuo(inputs: InstructionInput) -> InstructionResult {
    if inputs.ra is None {
        missing(InstructionInputRegister::Ra)
    } else if inputs.rb is None {
        missing(InstructionInputRegister::Rb)
    } else if inputs.overflow is None {
        missing(InstructionInputRegister::Overflow)
    } else {
        Ok(
            udiv_out(
                low32(inputs.ra.unwrap()),
                low32(inputs.rb.unwrap()),
                1,
                0xFFFF_FFFF,
                inputs.overflow.unwrap().so,
            ),
        )
    }
}

pub open spec fn spec_divweuo(inputs: InstructionInput) -> InstructionResult {
    if inputs.ra is None {
        missing(InstructionInputRegister::Ra)
    } else if inputs.rb is None {
        missing(InstructionInputRegister::Rb)
    } else if inputs.overflow is None {
        missing(InstructionInputRegister::Overflow)
    } else {
        Ok(
            udiv_out(
                low32(inputs.ra.unwrap()),
                low32(inputs.rb.unwrap()),
                0x1_0000_0000,
                0xFFFF_FFFF,
                inputs.overflow.unwrap().so,
            ),
        )
    }
}

/// Shared exec body of the four unsigned divide instructions.
fn udiv_exec(inputs: InstructionInput, wide: bool, extend: bool) -> (r: InstructionResult)
    ensures
        wide && !extend ==> r == spec_divduo(inputs),
        wide && extend ==> r == spec_divdeuo(inputs),
        !wide && !extend ==> r == spec_divwuo(inputs),
        !wide && extend ==> r == spec_divweuo(inputs),
{
    let ra = match inputs.try_get_ra() {
        Ok(v) => v,
        Err(e) => {
            return Err(e);
        },
    };
    let rb = match inputs.try_get_rb() {
        Ok(v) => v,
        Err(e) => {
            return Err(e);
        },
    };
    let ua: u64 = if wide {
        ra
    } else {
        ra % 0x1_0000_0000
    };
    let ub: u64 = if wide {
        rb
    } else {
        rb % 0x1_0000_0000
    };
    let scale: u128 = if !extend {
        1
    } else if wide {
        0x1_0000_0000_0000_0000
    } else {
        0x1_0000_0000
    };
    let max_q: u64 = if wide {
        0xFFFF_FFFF_FFFF_FFFF
    } else {
        0xFFFF_FFFF
    };
    proof {
        if !extend && ub != 0 {
            lemma_div_le(ua as int, ub as int);
        }
    }
    let (q, ov) = crate::arith::udiv_core(ua, ub, scale, max_q);
    let rt: u64 = if ov {
        0
    } else {
        q
    };
    let so_in = match inputs.try_get_overflow() {
        Ok(f) => f.so,
        Err(e) => {
            return Err(e);
        },
    };
    let mut out = InstructionOutput::default();
    out.rt = Some(rt);
    out.overflow = Some(OverflowFlags { so: so_in || ov, ov, ov32: ov });
    Ok(out)
}

pub fn divduo(inputs: InstructionInput) -> (r: InstructionResult)
    ensures
        r == spec_divduo(inputs),
{
    udiv_exec(inputs, true, false)
}

pub open spec fn spec_divdu(inputs: InstructionInput) -> InstructionResult {
    drop_overflow_result(spec_divduo(with_default_overflow(inputs)))
}

pub open spec fn spec_divduo_(inputs: InstructionInput) -> InstructionResult {
    append_cr0_64(spec_divduo(inputs))
}

pub open spec fn spec_divdu_(inputs: InstructionInput) -> InstructionResult {
    replace_cr0_so_drop_overflow(spec_divduo_(inputs), inputs)
}

pub fn divdu(inputs: InstructionInput) -> (r: InstructionResult)
    ensures
        r == spec_divdu(inputs),
{
    let mut with_ov = inputs;
    with_ov.overflow = Some(OverflowFlags { so: false, ov: false, ov32: false });
    drop_overflow_exec(divduo(with_ov))
}

pub fn divduo_(inputs: InstructionInput) -> (r: InstructionResult)
    ensures
        r == spec_divduo_(inputs),
{
    append_cr0_64_exec(divduo(inputs))
}

pub fn divdu_(inputs: InstructionInput) -> (r: InstructionResult)
    ensures
        r == spec_divdu_(inputs),
{
    replace_cr0_so_drop_overflow_exec(divduo_(inputs), inputs)
}

pub fn divdeuo(inputs: InstructionInput) -> (r: InstructionResult)
    ensures
        r == spec_divdeuo(inputs),
{
    udiv_exec(inputs, true, true)
}

pub open spec fn spec_divdeu(inputs: InstructionInput) -> InstructionResult {
    drop_overflow_result(spec_divdeuo(with_default_overflow(inputs)))
}

pub open spec fn spec_divdeuo_(inputs: InstructionInput) -> InstructionResult {
    append_cr0_64(spec_divdeuo(inputs))
}

pub open spec fn spec_divdeu_(inputs: InstructionInput) -> InstructionResult {
    replace_cr0_so_drop_overflow(spec_divdeuo_(inputs), inputs)
}

pub fn divdeu(inputs: InstructionInput) -> (r: InstructionResult)
    ensures
        r == spec_divdeu(inputs),
{
    let mut with_ov = inputs;
    with_ov.overflow = Some(OverflowFlags { so: false, ov: false, ov32: false });
    drop_overflow_exec(divdeuo(with_ov))
}

pub fn divdeuo_(inputs: InstructionInput) -> (r: InstructionResult)
    ensures
        r == spec_divdeuo_(inputs),
{
    append_cr0_64_exec(divdeuo(inputs))
}

pub fn divdeu_(inputs: InstructionInput) -> (r: InstructionResult)
    ensures
        r == spec_divdeu_(inputs),
{
    replace_cr0_so_drop_overflow_exec(divdeuo_(inputs), inputs)
}

pub fn divwuo(inputs: InstructionInput) -> (r: InstructionResult)
    ensures
        r == spec_divwuo(inputs),
{
    udiv_exec(inputs, false, false)
}

pub open spec fn spec_divwu(inputs: InstructionInput) -> InstructionResult {
    drop_overflow_result(spec_divwuo(with_default_overflow(inputs)))
}

pub open spec fn spec_divwuo_(inputs: InstructionInput) -> InstructionResult {
    append_cr0_64(spec_divwuo(inputs))
}

pub open spec fn spec_divwu_(inputs: InstructionInput) -> InstructionResult {
    replace_cr0_so_drop_overflow(spec_divwuo_(inputs), inputs)
}

pub fn divwu(inputs: InstructionInput) -> (r: InstructionResult)
    ensures
        r == spec_divwu(inputs),
{
    let mut with_ov = inputs;
    with_ov.overflow = Some(OverflowFlags { so: false, ov: false, ov32: false });
    drop_overflow_exec(divwuo(with_ov))
}

pub fn divwuo_(inputs: InstructionInput) -> (r: InstructionResult)
    ensures
        r == spec_divwuo_(inputs),
{
    append_cr0_64_exec(divwuo(inputs))
}

pub fn divwu_(inputs: InstructionInput) -> (r: InstructionResult)
    ensures
        r == spec_divwu_(inputs),
{
    replace_cr0_so_drop_overflow_exec(divwuo_(inputs), inputs)
}

pub fn divweuo(inputs: InstructionInput) -> (r: InstructionResult)
    ensures
        r == spec_divweuo(inputs),
{
    udiv_exec(inputs, false, true)
}

pub open spec fn spec_divweu(inputs: InstructionInput) -> InstructionResult {
    drop_overflow_result(spec_divweuo(with_default_overflow(inputs)))
}

pub open spec fn spec_divweuo_(inputs: InstructionInput) -> InstructionResult {
    append_cr0_64(spec_divweuo(inputs))
}

pub open spec fn spec_divweu_(inputs: InstructionInput) -> InstructionResult {
    replace_cr0_so_drop_overflow(spec_divweuo_(inputs), inputs)
}

pub fn divweu(inputs: InstructionInput) -> (r: InstructionResult)
    ensures
        r == spec_divweu(inputs),
{
    let mut with_ov = inputs;
    with_ov.overflow = Some(OverflowFlags { so: false, ov: false, ov32: false });
    drop_overflow_exec(divweuo(with_ov))
}

pub fn divweuo_(inputs: InstructionInput) -> (r: InstructionResult)
    ensures
        r == spec_divweuo_(inputs),
{
    append_cr0_64_exec(divweuo(inputs))
}

pub fn divweu_(inputs: InstructionInput) -> (r: InstructionResult)
    ensures
        r == spec_divweu_(inputs),
{
    replace_cr0_so_drop_overflow_exec(divweuo_(inputs), inputs)
}

/// `modsd`: the 64-bit signed remainder, 0 on the degenerate inputs, with no
/// flag outputs at all.
pub open spec fn spec_modsd(inputs: InstructionInput) -> InstructionResult {
    if inputs.ra is None {
        missing(InstructionInputRegister::Ra)
    } else if inputs.rb is None {
        missing(InstructionInputRegister::Rb)
    } else {
        let sa = sext64(inputs.ra.unwrap());
        let sb = sext64(inputs.rb.unwrap());
        Ok(
            out_rt(
                if sb == 0 || (sb == -1 && sa == -0x8000_0000_0000_0000) {
                    0u64
                } else {
                    wrap64(trunc_rem(sa, sb))
                },
            ),
        )
    }
}

pub fn modsd(inputs: InstructionInput) -> (r: InstructionResult)
    ensures
        r == spec_modsd(inputs),
{
    let ra = match inputs.try_get_ra() {
        Ok(v) => v,
        Err(e) => {
            return Err(e);
        },
    };
    let rb = match inputs.try_get_rb() {
        Ok(v) => v,
        Err(e) => {
            return Err(e);
        },
    };
    let sa = crate::arith::signed_val64(ra);
    let sb = crate::arith::signed_val64(rb);
    let rt = crate::arith::smod_core(sa, sb, -0x8000_0000_0000_0000i128);
    let mut out = InstructionOutput::default();
    out.rt = Some(rt);
    Ok(out)
}

/// `modsw`: the 32-bit signed remainder, sign-extended to 64 bits, 0 on the
/// degenerate inputs, with no flag outputs at all.
pub open spec fn spec_modsw(inputs: InstructionInput) -> InstructionResult {
    if inputs.ra is None {
        missing(InstructionInputRegister::Ra)
    } else if inputs.rb is None {
        missing(InstructionInputRegister::Rb)
    } else {
        let sa = sext32(inputs.ra.unwrap());
        let sb = sext32(inputs.rb.unwrap());
        Ok(
            out_rt(
                if sb == 0 || (sb == -1 && sa == -0x8000_0000) {
                    0u64
                } else {
                    wrap64(trunc_rem(sa, sb))
                },
            ),
        )
    }
}

pub fn modsw(inputs: InstructionInput) -> (r: InstructionResult)
    ensures
        r == spec_modsw(inputs),
{
    let ra = match inputs.try_get_ra() {
        Ok(v) => v,
        Err(e) => {
            return Err(e);
        },
    };
    let rb = match inputs.try_get_rb() {
        Ok(v) => v,
        Err(e) => {
            return Err(e);
        },
    };
    let sa = crate::arith::signed_val32(ra);
    let sb = crate::arith::signed_val32(rb);
    let rt = crate::arith::smod_core(sa, sb, -0x8000_0000i128);
    let mut out = InstructionOutput::default();
    out.rt = Some(rt);
    Ok(out)
}

/// `modud`: the 64-bit unsigned remainder, 0 for a zero divisor, with no
/// flag outputs at all.
pub open spec fn spec_modud(inputs: InstructionInput) -> InstructionResult {
    if inputs.ra is None {
        missing(InstructionInputRegister::Ra)
    } else if inputs.rb is None {
        missing(InstructionInputRegister::Rb)
    } else {
        let ua = inputs.ra.unwrap();
        let ub = inputs.rb.unwrap();
        Ok(
            out_rt(
                if ub == 0 {
                    0u64
                } else {
                    (ua as int % ub as int) as u64
                },
            ),
        )
    }
}

pub fn modud(inputs: InstructionInput) -> (r: InstructionResult)
    ensures
        r == spec_modud(inputs),
{
    let ra = match inputs.try_get_ra() {
        Ok(v) => v,
        Err(e) => {
            return Err(e);
        },
    };
    let rb = match inputs.try_get_rb() {
        Ok(v) => v,
        Err(e) => {
            return Err(e);
        },
    };
    let rt: u64 = if rb == 0 {
        0
    } else {
        ra % rb
    };
    let mut out = InstructionOutput::default();
    out.rt = Some(rt);
    Ok(out)
}

/// `moduw`: the 32-bit unsigned remainder, zero-extended to 64 bits, 0 for a
/// zero divisor, with no flag outputs at all.
pub open spec fn spec_moduw(inputs: InstructionInput) -> InstructionResult {
    if inputs.ra is None {
        missing(InstructionInputRegister::Ra)
    } else if inputs.rb is None {
        missing(InstructionInputRegister::Rb)
    } else {
        let ua = low32(inputs.ra.unwrap());
        let ub = low32(inputs.rb.unwrap());
        Ok(
            out_rt(
                if ub == 0 {
                    0u64
                } else {
                    (ua % ub) as u64
                },
            ),
        )
    }
}

pub fn moduw(inputs: InstructionInput) -> (r: InstructionResult)
    ensures
        r == spec_moduw(inputs),
{
    let ra = match inputs.try_get_ra() {
        Ok(v) => v,
        Err(e) => {
            return Err(e);
        },
    };
    let rb = match inputs.try_get_rb() {
        Ok(v) => v,
        Err(e) => {
            return Err(e);
        },
    };
    let ua: u64 = ra % 0x1_0000_0000;
    let ub: u64 = rb % 0x1_0000_0000;
    let rt: u64 = if ub == 0 {
        0
    } else {
        ua % ub
    };
    let mut out = InstructionOutput::default();
    out.rt = Some(rt);
    Ok(out)
}

} // verus!

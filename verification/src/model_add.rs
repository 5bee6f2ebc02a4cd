//! Models of the add, subtract-from, negate and carrying-add instruction
//! families. Every arithmetic result is specified through the exact
//! one-width-up sums of [`crate::arith`], and every family's variants are
//! layered with the combinators of [`crate::variants`].

use vstd::prelude::*;

verus! {

use crate::arith::{carry32, carry64, not64, sext16, sovf32, sovf64, wadd64, wrap64};
use crate::flags::{CarryFlags, OverflowFlags};
use crate::inputs::{missing, InstructionInput, InstructionInputRegister, InstructionOutput,
    InstructionResult};
use crate::variants::{append_cr0_64, append_cr0_64_exec, drop_overflow_exec, drop_overflow_result,
    out_rt, out_rt_ca, out_rt_ov, out_rt_ov_ca, ov_flags, replace_cr0_so_drop_overflow,
    replace_cr0_so_drop_overflow_exec, record_from_input_so_64, record_from_input_so_64_exec,
    with_default_overflow};

/// The 64-bit register value of a sign-extended 16-bit immediate.
pub open spec fn simm64(iv: u64) -> u64 {
    wrap64(sext16(iv))
}

/// The 64-bit register value of a sign-extended 16-bit immediate shifted
/// left by 16 bits.
pub open spec fn simm64_shifted(iv: u64) -> u64 {
    wrap64(sext16(iv) * 0x1_0000)
}

fn simm_reg(imm: i16) -> (r: u64)
    ensures
        r == wrap64(imm as int),
{
    crate::arith::wrap_i128(imm as i128)
}

fn simm_shift_reg(imm: i16) -> (r: u64)
    ensures
        r == wrap64(imm as int * 0x1_0000),
{
    crate::arith::wrap_i128((imm as i128) * 0x1_0000)
}

/// `addi`: the sum of `ra` and the sign-extended immediate; no flags.
pub open spec fn spec_addi(inputs: InstructionInput) -> InstructionResult {
    if inputs.ra is None {
        missing(InstructionInputRegister::Ra)
    } else if inputs.immediate is None {
        missing(InstructionInputRegister::ImmediateS16)
    } else {
        Ok(out_rt(wadd64(inputs.ra.unwrap(), simm64(inputs.immediate.unwrap()), false)))
    }
}

pub fn addi(inputs: InstructionInput) -> (r: InstructionResult)
    ensures
        r == spec_addi(inputs),
{
    let ra = match inputs.try_get_ra() {
        Ok(v) => v,
        Err(e) => {
            return Err(e);
        },
    };
    let imm = match inputs.try_get_immediate_s16() {
        Ok(v) => v,
        Err(e) => {
            return Err(e);
        },
    };
    let res = crate::arith::add_core(ra, simm_reg(imm), false);
    let mut out = InstructionOutput::default();
    out.rt = Some(res.rt);
    Ok(out)
}

/// `addis`: the sum of `ra` and the sign-extended immediate shifted left by
/// 16 bits; no flags.
pub open spec fn spec_addis(inputs: InstructionInput) -> InstructionResult {
    if inputs.ra is None {
        missing(InstructionInputRegister::Ra)
    } else if inputs.immediate is None {
        missing(InstructionInputRegister::ImmediateS16)
    } else {
        Ok(out_rt(wadd64(inputs.ra.unwrap(), simm64_shifted(inputs.immediate.unwrap()), false)))
    }
}

pub fn addis(inputs: InstructionInput) -> (r: InstructionResult)
    ensures
        r == spec_addis(inputs),
{
    let ra = match inputs.try_get_ra() {
        Ok(v) => v,
        Err(e) => {
            return Err(e);
        },
    };
    let imm = match inputs.try_get_immediate_s16() {
        Ok(v) => v,
        Err(e) => {
            return Err(e);
        },
    };
    let res = crate::arith::add_core(ra, simm_shift_reg(imm), false);
    let mut out = InstructionOutput::default();
    out.rt = Some(res.rt);
    Ok(out)
}

/// Ok payload of `addo`: the wrapped sum of `ra` and `rb` with the signed
/// overflow of the exact sum at both widths.
pub open spec fn addo_out(ra: u64, rb: u64, so_in: bool) -> crate::inputs::InstructionOutput {
    out_rt_ov(
        wadd64(ra, rb, false),
        ov_flags(so_in, sovf64(ra, rb, false), sovf32(ra, rb, false)),
    )
}

pub open spec fn spec_addo(inputs: InstructionInput) -> InstructionResult {
    if inputs.ra is None {
        missing(InstructionInputRegister::Ra)
    } else if inputs.rb is None {
        missing(InstructionInputRegister::Rb)
    } else if inputs.overflow is None {
        missing(InstructionInputRegister::Overflow)
    } else {
        Ok(addo_out(inputs.ra.unwrap(), inputs.rb.unwrap(), inputs.overflow.unwrap().so))
    }
}

pub open spec fn spec_add(inputs: InstructionInput) -> InstructionResult {
    drop_overflow_result(spec_addo(with_default_overflow(inputs)))
}

pub open spec fn spec_addo_(inputs: InstructionInput) -> InstructionResult {
    append_cr0_64(spec_addo(inputs))
}

pub open spec fn spec_add_(inputs: InstructionInput) -> InstructionResult {
    replace_cr0_so_drop_overflow(spec_addo_(inputs), inputs)
}

pub fn addo(inputs: InstructionInput) -> (r: InstructionResult)
    ensures
        r == spec_addo(inputs),
{
    let ra = match inputs.try_get_ra() {
        Ok(v) => v,
        Err(e) => {
            return Err(e);
        },
    };
    let rb = match inputs.try_get_rb() {
        Ok(v) => v,
        Err(e) => {
            return Err(e);
        },
    };
    let res = crate::arith::add_core(ra, rb, false);
    let so_in = match inputs.try_get_overflow() {
        Ok(f) => f.so,
        Err(e) => {
            return Err(e);
        },
    };
    let mut out = InstructionOutput::default();
    out.rt = Some(res.rt);
    out.overflow = Some(OverflowFlags { so: so_in || res.ov, ov: res.ov, ov32: res.ov32 });
    Ok(out)
}

pub fn add(inputs: InstructionInput) -> (r: InstructionResult)
    ensures
        r == spec_add(inputs),
{
    let mut with_ov = inputs;
    with_ov.overflow = Some(OverflowFlags { so: false, ov: false, ov32: false });
    drop_overflow_exec(addo(with_ov))
}

pub fn addo_(inputs: InstructionInput) -> (r: InstructionResult)
    ensures
        r == spec_addo_(inputs),
{
    append_cr0_64_exec(addo(inputs))
}

pub fn add_(inputs: InstructionInput) -> (r: InstructionResult)
    ensures
        r == spec_add_(inputs),
{
    replace_cr0_so_drop_overflow_exec(addo_(inputs), inputs)
}

/// Ok payload of `addic`: the sum of `ra` and the sign-extended immediate,
/// with the unsigned carries at both widths.
pub open spec fn addic_out(ra: u64, iv: u64) -> crate::inputs::InstructionOutput {
    out_rt_ca(
        wadd64(ra, simm64(iv), false),
        CarryFlags { ca: carry64(ra, simm64(iv), false), ca32: carry32(ra, simm64(iv), false) },
    )
}

pub open spec fn spec_addic(inputs: InstructionInput) -> InstructionResult {
    if inputs.ra is None {
        missing(InstructionInputRegister::Ra)
    } else if inputs.immediate is None {
        missing(InstructionInputRegister::ImmediateS16)
    } else {
        Ok(addic_out(inputs.ra.unwrap(), inputs.immediate.unwrap()))
    }
}

pub open spec fn spec_addic_(inputs: InstructionInput) -> InstructionResult {
    record_from_input_so_64(spec_addic(inputs), inputs)
}

pub fn addic(inputs: InstructionInput) -> (r: InstructionResult)
    ensures
        r == spec_addic(inputs),
{
    let ra = match inputs.try_get_ra() {
        Ok(v) => v,
        Err(e) => {
            return Err(e);
        },
    };
    let imm = match inputs.try_get_immediate_s16() {
        Ok(v) => v,
        Err(e) => {
            return Err(e);
        },
    };
    let res = crate::arith::add_core(ra, simm_reg(imm), false);
    let mut out = InstructionOutput::default();
    out.rt = Some(res.rt);
    out.carry = Some(CarryFlags { ca: res.ca, ca32: res.ca32 });
    Ok(out)
}

pub fn addic_(inputs: InstructionInput) -> (r: InstructionResult)
    ensures
        r == spec_addic_(inputs),
{
    record_from_input_so_64_exec(addic(inputs), inputs)
}

/// Ok payload of `subfo`: `rb - ra`, computed as `¬ra + rb + 1`, with the
/// signed overflow of the exact difference at both widths.
pub open spec fn subfo_out(ra: u64, rb: u64, so_in: bool) -> crate::inputs::InstructionOutput {
    out_rt_ov(
        wadd64(not64(ra), rb, true),
        ov_flags(so_in, sovf64(not64(ra), rb, true), sovf32(not64(ra), rb, true)),
    )
}

pub open spec fn spec_subfo(inputs: InstructionInput) -> InstructionResult {
    if inputs.ra is None {
        missing(InstructionInputRegister::Ra)
    } else if inputs.rb is None {
        missing(InstructionInputRegister::Rb)
    } else if inputs.overflow is None {
        missing(InstructionInputRegister::Overflow)
    } else {
        Ok(subfo_out(inputs.ra.unwrap(), inputs.rb.unwrap(), inputs.overflow.unwrap().so))
    }
}

pub open spec fn spec_subf(inputs: InstructionInput) -> InstructionResult {
    drop_overflow_result(spec_subfo(with_default_overflow(inputs)))
}

pub open spec fn spec_subfo_(inputs: InstructionInput) -> InstructionResult {
    append_cr0_64(spec_subfo(inputs))
}

pub open spec fn spec_subf_(inputs: InstructionInput) -> InstructionResult {
    replace_cr0_so_drop_overflow(spec_subfo_(inputs), inputs)
}

pub fn subfo(inputs: InstructionInput) -> (r: InstructionResult)
    ensures
        r == spec_subfo(inputs),
{
    let ra = match inputs.try_get_ra() {
        Ok(v) => v,
        Err(e) => {
            return Err(e);
        },
    };
    let rb = match inputs.try_get_rb() {
        Ok(v) => v,
        Err(e) => {
            return Err(e);
        },
    };
    let not_ra: u64 = 0xFFFF_FFFF_FFFF_FFFF - ra;
    let res = crate::arith::add_core(not_ra, rb, true);
    let so_in = match inputs.try_get_overflow() {
        Ok(f) => f.so,
        Err(e) => {
            return Err(e);
        },
    };
    let mut out = InstructionOutput::default();
    out.rt = Some(res.rt);
    out.overflow = Some(OverflowFlags { so: so_in || res.ov, ov: res.ov, ov32: res.ov32 });
    Ok(out)
}

pub fn subf(inputs: InstructionInput) -> (r: InstructionResult)
    ensures
        r == spec_subf(inputs),
{
    let mut with_ov = inputs;
    with_ov.overflow = Some(OverflowFlags { so: false, ov: false, ov32: false });
    drop_overflow_exec(subfo(with_ov))
}

pub fn subfo_(inputs: InstructionInput) -> (r: InstructionResult)
    ensures
        r == spec_subfo_(inputs),
{
    append_cr0_64_exec(subfo(inputs))
}

pub fn subf_(inputs: InstructionInput) -> (r: InstructionResult)
    ensures
        r == spec_subf_(inputs),
{
    replace_cr0_so_drop_overflow_exec(subfo_(inputs), inputs)
}

/// Ok payload of `subfic`: the sign-extended immediate minus `ra`, computed
/// as `¬ra + imm + 1`, with the unsigned carries at both widths.
pub open spec fn subfic_out(ra: u64, iv: u64) -> crate::inputs::InstructionOutput {
    out_rt_ca(
        wadd64(not64(ra), simm64(iv), true),
        CarryFlags {
            ca: carry64(not64(ra), simm64(iv), true),
            ca32: carry32(not64(ra), simm64(iv), true),
        },
    )
}

pub open spec fn spec_subfic(inputs: InstructionInput) -> InstructionResult {
    if inputs.ra is None {
        missing(InstructionInputRegister::Ra)
    } else if inputs.immediate is None {
        missing(InstructionInputRegister::ImmediateS16)
    } else {
        Ok(subfic_out(inputs.ra.unwrap(), inputs.immediate.unwrap()))
    }
}

pub fn subfic(inputs: InstructionInput) -> (r: InstructionResult)
    ensures
        r == spec_subfic(inputs),
{
    let ra = match inputs.try_get_ra() {
        Ok(v) => v,
        Err(e) => {
            return Err(e);
        },
    };
    let imm = match inputs.try_get_immediate_s16() {
        Ok(v) => v,
        Err(e) => {
            return Err(e);
        },
    };
    let not_ra: u64 = 0xFFFF_FFFF_FFFF_FFFF - ra;
    let res = crate::arith::add_core(not_ra, simm_reg(imm), true);
    let mut out = InstructionOutput::default();
    out.rt = Some(res.rt);
    out.carry = Some(CarryFlags { ca: res.ca, ca32: res.ca32 });
    Ok(out)
}

/// Ok payload of `addco`: as `addo`, with the unsigned carries as well.
pub open spec fn addco_out(ra: u64, rb: u64, so_in: bool) -> crate::inputs::InstructionOutput {
    out_rt_ov_ca(
        wadd64(ra, rb, false),
        ov_flags(so_in, sovf64(ra, rb, false), sovf32(ra, rb, false)),
        CarryFlags { ca: carry64(ra, rb, false), ca32: carry32(ra, rb, false) },
    )
}

pub open spec fn spec_addco(inputs: InstructionInput) -> InstructionResult {
    if inputs.ra is None {
        missing(InstructionInputRegister::Ra)
    } else if inputs.rb is None {
        missing(InstructionInputRegister::Rb)
    } else if inputs.overflow is None {
        missing(InstructionInputRegister::Overflow)
    } else {
        Ok(addco_out(inputs.ra.unwrap(), inputs.rb.unwrap(), inputs.overflow.unwrap().so))
    }
}

pub open spec fn spec_addc(inputs: InstructionInput) -> InstructionResult {
    drop_overflow_result(spec_addco(with_default_overflow(inputs)))
}

pub open spec fn spec_addco_(inputs: InstructionInput) -> InstructionResult {
    append_cr0_64(spec_addco(inputs))
}

pub open spec fn spec_addc_(inputs: InstructionInput) -> InstructionResult {
    replace_cr0_so_drop_overflow(spec_addco_(inputs), inputs)
}

pub fn addco(inputs: InstructionInput) -> (r: InstructionResult)
    ensures
        r == spec_addco(inputs),
{
    let ra = match inputs.try_get_ra() {
        Ok(v) => v,
        Err(e) => {
            return Err(e);
        },
    };
    let rb = match inputs.try_get_rb() {
        Ok(v) => v,
        Err(e) => {
            return Err(e);
        },
    };
    let res = crate::arith::add_core(ra, rb, false);
    let so_in = match inputs.try_get_overflow() {
        Ok(f) => f.so,
        Err(e) => {
            return Err(e);
        },
    };
    let mut out = InstructionOutput::default();
    out.rt = Some(res.rt);
    out.overflow = Some(OverflowFlags { so: so_in || res.ov, ov: res.ov, ov32: res.ov32 });
    out.carry = Some(CarryFlags { ca: res.ca, ca32: res.ca32 });
    Ok(out)
}

pub fn addc(inputs: InstructionInput) -> (r: InstructionResult)
    ensures
        r == spec_addc(inputs),
{
    let mut with_ov = inputs;
    with_ov.overflow = Some(OverflowFlags { so: false, ov: false, ov32: false });
    drop_overflow_exec(addco(with_ov))
}

pub fn addco_(inputs: InstructionInput) -> (r: InstructionResult)
    ensures
        r == spec_addco_(inputs),
{
    append_cr0_64_exec(addco(inputs))
}

pub fn addc_(inputs: InstructionInput) -> (r: InstructionResult)
    ensures
        r == spec_addc_(inputs),
{
    replace_cr0_so_drop_overflow_exec(addco_(inputs), inputs)
}

/// Ok payload of `subfco`: as `subfo`, with the carries of `¬ra + rb + 1`,
/// each the logical negation of the corresponding borrow.
pub open spec fn subfco_out(ra: u64, rb: u64, so_in: bool) -> crate::inputs::InstructionOutput {
    out_rt_ov_ca(
        wadd64(not64(ra), rb, true),
        ov_flags(so_in, sovf64(not64(ra), rb, true), sovf32(not64(ra), rb, true)),
        CarryFlags { ca: carry64(not64(ra), rb, true), ca32: carry32(not64(ra), rb, true) },
    )
}

pub open spec fn spec_subfco(inputs: InstructionInput) -> InstructionResult {
    if inputs.ra is None {
        missing(InstructionInputRegister::Ra)
    } else if inputs.rb is None {
        missing(InstructionInputRegister::Rb)
    } else if inputs.overflow is None {
        missing(InstructionInputRegister::Overflow)
    } else {
        Ok(subfco_out(inputs.ra.unwrap(), inputs.rb.unwrap(), inputs.overflow.unwrap().so))
    }
}

pub open spec fn spec_subfc(inputs: InstructionInput) -> InstructionResult {
    drop_overflow_result(spec_subfco(with_default_overflow(inputs)))
}

pub open spec fn spec_subfco_(inputs: InstructionInput) -> InstructionResult {
    append_cr0_64(spec_subfco(inputs))
}

pub open spec fn spec_subfc_(inputs: InstructionInput) -> InstructionResult {
    replace_cr0_so_drop_overflow(spec_subfco_(inputs), inputs)
}

pub fn subfco(inputs: InstructionInput) -> (r: InstructionResult)
    ensures
        r == spec_subfco(inputs),
{
    let ra = match inputs.try_get_ra() {
        Ok(v) => v,
        Err(e) => {
            return Err(e);
        },
    };
    let rb = match inputs.try_get_rb() {
        Ok(v) => v,
        Err(e) => {
            return Err(e);
        },
    };
    let not_ra: u64 = 0xFFFF_FFFF_FFFF_FFFF - ra;
    let res = crate::arith::add_core(not_ra, rb, true);
    let so_in = match inputs.try_get_overflow() {
        Ok(f) => f.so,
        Err(e) => {
            return Err(e);
        },
    };
    let mut out = InstructionOutput::default();
    out.rt = Some(res.rt);
    out.overflow = Some(OverflowFlags { so: so_in || res.ov, ov: res.ov, ov32: res.ov32 });
    out.carry = Some(CarryFlags { ca: res.ca, ca32: res.ca32 });
    Ok(out)
}

pub fn subfc(inputs: InstructionInput) -> (r: InstructionResult)
    ensures
        r == spec_subfc(inputs),
{
    let mut with_ov = inputs;
    with_ov.overflow = Some(OverflowFlags { so: false, ov: false, ov32: false });
    drop_overflow_exec(subfco(with_ov))
}

pub fn subfco_(inputs: InstructionInput) -> (r: InstructionResult)
    ensures
        r == spec_subfco_(inputs),
{
    append_cr0_64_exec(subfco(inputs))
}

pub fn subfc_(inputs: InstructionInput) -> (r: InstructionResult)
    ensures
        r == spec_subfc_(inputs),
{
    replace_cr0_so_drop_overflow_exec(subfco_(inputs), inputs)
}

/// Ok payload of the extended-add family: `x + y + carry-in`, with all four
/// flag outputs of the adder.
pub open spec fn adde_style_out(x: u64, y: u64, cin: bool, so_in: bool)
    -> crate::inputs::InstructionOutput {
    out_rt_ov_ca(
        wadd64(x, y, cin),
        ov_flags(so_in, sovf64(x, y, cin), sovf32(x, y, cin)),
        CarryFlags { ca: carry64(x, y, cin), ca32: carry32(x, y, cin) },
    )
}

pub open spec fn spec_addeo(inputs: InstructionInput) -> InstructionResult {
    if inputs.ra is None {
        missing(InstructionInputRegister::Ra)
    } else if inputs.rb is None {
        missing(InstructionInputRegister::Rb)
    } else if inputs.carry is None {
        missing(InstructionInputRegister::Carry)
    } else if inputs.overflow is None {
        missing(InstructionInputRegister::Overflow)
    } else {
        Ok(
            adde_style_out(
                inputs.ra.unwrap(),
                inputs.rb.unwrap(),
                inputs.carry.unwrap().ca,
                inputs.overflow.unwrap().so,
            ),
        )
    }
}

pub open spec fn spec_adde(inputs: InstructionInput) -> InstructionResult {
    drop_overflow_result(spec_addeo(with_default_overflow(inputs)))
}

pub open spec fn spec_addeo_(inputs: InstructionInput) -> InstructionResult {
    append_cr0_64(spec_addeo(inputs))
}

pub open spec fn spec_adde_(inputs: InstructionInput) -> InstructionResult {
    replace_cr0_so_drop_overflow(spec_addeo_(inputs), inputs)
}

pub fn addeo(inputs: InstructionInput) -> (r: InstructionResult)
    ensures
        r == spec_addeo(inputs),
{
    let ra = match inputs.try_get_ra() {
        Ok(v) => v,
        Err(e) => {
            return Err(e);
        },
    };
    let rb = match inputs.try_get_rb() {
        Ok(v) => v,
        Err(e) => {
            return Err(e);
        },
    };
    let carry_in = match inputs.try_get_carry() {
        Ok(f) => f.ca,
        Err(e) => {
            return Err(e);
        },
    };
    let res = crate::arith::add_core(ra, rb, carry_in);
    let so_in = match inputs.try_get_overflow() {
        Ok(f) => f.so,
        Err(e) => {
            return Err(e);
        },
    };
    let mut out = InstructionOutput::default();
    out.rt = Some(res.rt);
    out.overflow = Some(OverflowFlags { so: so_in || res.ov, ov: res.ov, ov32: res.ov32 });
    out.carry = Some(CarryFlags { ca: res.ca, ca32: res.ca32 });
    Ok(out)
}

pub fn adde(inputs: InstructionInput) -> (r: InstructionResult)
    ensures
        r == spec_adde(inputs),
{
    let mut with_ov = inputs;
    with_ov.overflow = Some(OverflowFlags { so: false, ov: false, ov32: false });
    drop_overflow_exec(addeo(with_ov))
}

pub fn addeo_(inputs: InstructionInput) -> (r: InstructionResult)
    ensures
        r == spec_addeo_(inputs),
{
    append_cr0_64_exec(addeo(inputs))
}

pub fn adde_(inputs: InstructionInput) -> (r: InstructionResult)
    ensures
        r == spec_adde_(inputs),
{
    replace_cr0_so_drop_overflow_exec(addeo_(inputs), inputs)
}

pub open spec fn spec_subfeo(inputs: InstructionInput) -> InstructionResult {
    if inputs.ra is None {
        missing(InstructionInputRegister::Ra)
    } else if inputs.rb is None {
        missing(InstructionInputRegister::Rb)
    } else if inputs.carry is None {
        missing(InstructionInputRegister::Carry)
    } else if inputs.overflow is None {
        missing(InstructionInputRegister::Overflow)
    } else {
        Ok(
            adde_style_out(
                not64(inputs.ra.unwrap()),
                inputs.rb.unwrap(),
                inputs.carry.unwrap().ca,
                inputs.overflow.unwrap().so,
            ),
        )
    }
}

pub open spec fn spec_subfe(inputs: InstructionInput) -> InstructionResult {
    drop_overflow_result(spec_subfeo(with_default_overflow(inputs)))
}

pub open spec fn spec_subfeo_(inputs: InstructionInput) -> InstructionResult {
    append_cr0_64(spec_subfeo(inputs))
}

pub open spec fn spec_subfe_(inputs: InstructionInput) -> InstructionResult {
    replace_cr0_so_drop_overflow(spec_subfeo_(inputs), inputs)
}

pub fn subfeo(inputs: InstructionInput) -> (r: InstructionResult)
    ensures
        r == spec_subfeo(inputs),
{
    let ra = match inputs.try_get_ra() {
        Ok(v) => v,
        Err(e) => {
            return Err(e);
        },
    };
    let rb = match inputs.try_get_rb() {
        Ok(v) => v,
        Err(e) => {
            return Err(e);
        },
    };
    let carry_in = match inputs.try_get_carry() {
        Ok(f) => f.ca,
        Err(e) => {
            return Err(e);
        },
    };
    let not_ra: u64 = 0xFFFF_FFFF_FFFF_FFFF - ra;
    let res = crate::arith::add_core(not_ra, rb, carry_in);
    let so_in = match inputs.try_get_overflow() {
        Ok(f) => f.so,
        Err(e) => {
            return Err(e);
        },
    };
    let mut out = InstructionOutput::default();
    out.rt = Some(res.rt);
    out.overflow = Some(OverflowFlags { so: so_in || res.ov, ov: res.ov, ov32: res.ov32 });
    out.carry = Some(CarryFlags { ca: res.ca, ca32: res.ca32 });
    Ok(out)
}

pub fn subfe(inputs: InstructionInput) -> (r: InstructionResult)
    ensures
        r == spec_subfe(inputs),
{
    let mut with_ov = inputs;
    with_ov.overflow = Some(OverflowFlags { so: false, ov: false, ov32: false });
    drop_overflow_exec(subfeo(with_ov))
}

pub fn subfeo_(inputs: InstructionInput) -> (r: InstructionResult)
    ensures
        r == spec_subfeo_(inputs),
{
    append_cr0_64_exec(subfeo(inputs))
}

pub fn subfe_(inputs: InstructionInput) -> (r: InstructionResult)
    ensures
        r == spec_subfe_(inputs),
{
    replace_cr0_so_drop_overflow_exec(subfeo_(inputs), inputs)
}

/// Shared spec for the minus-one-extended and zero-extended add/subtract
/// families, whose second operand is fixed to all-ones or zero.
pub open spec fn spec_fixed_second_operand(
    inputs: InstructionInput,
    complement_ra: bool,
    y: u64,
) -> InstructionResult {
    if inputs.ra is None {
        missing(InstructionInputRegister::Ra)
    } else if inputs.carry is None {
        missing(InstructionInputRegister::Carry)
    } else if inputs.overflow is None {
        missing(InstructionInputRegister::Overflow)
    } else {
        Ok(
            adde_style_out(
                if complement_ra {
                    not64(inputs.ra.unwrap())
                } else {
                    inputs.ra.unwrap()
                },
                y,
                inputs.carry.unwrap().ca,
                inputs.overflow.unwrap().so,
            ),
        )
    }
}

fn fixed_second_operand(inputs: InstructionInput, complement_ra: bool, y: u64) -> (r:
    InstructionResult)
    ensures
        r == spec_fixed_second_operand(inputs, complement_ra, y),
{
    let ra = match inputs.try_get_ra() {
        Ok(v) => v,
        Err(e) => {
            return Err(e);
        },
    };
    let carry_in = match inputs.try_get_carry() {
        Ok(f) => f.ca,
        Err(e) => {
            return Err(e);
        },
    };
    let x: u64 = if complement_ra {
        0xFFFF_FFFF_FFFF_FFFF - ra
    } else {
        ra
    };
    let res = crate::arith::add_core(x, y, carry_in);
    let so_in = match inputs.try_get_overflow() {
        Ok(f) => f.so,
        Err(e) => {
            return Err(e);
        },
    };
    let mut out = InstructionOutput::default();
    out.rt = Some(res.rt);
    out.overflow = Some(OverflowFlags { so: so_in || res.ov, ov: res.ov, ov32: res.ov32 });
    out.carry = Some(CarryFlags { ca: res.ca, ca32: res.ca32 });
    Ok(out)
}

pub open spec fn spec_addmeo(inputs: InstructionInput) -> InstructionResult {
    spec_fixed_second_operand(inputs, false, 0xFFFF_FFFF_FFFF_FFFF)
}

pub open spec fn spec_addme(inputs: InstructionInput) -> InstructionResult {
    drop_overflow_result(spec_addmeo(with_default_overflow(inputs)))
}

pub open spec fn spec_addmeo_(inputs: InstructionInput) -> InstructionResult {
    append_cr0_64(spec_addmeo(inputs))
}

pub open spec fn spec_addme_(inputs: InstructionInput) -> InstructionResult {
    replace_cr0_so_drop_overflow(spec_addmeo_(inputs), inputs)
}

pub fn addmeo(inputs: InstructionInput) -> (r: InstructionResult)
    ensures
        r == spec_addmeo(inputs),
{
    fixed_second_operand(inputs, false, 0xFFFF_FFFF_FFFF_FFFF)
}

pub fn addme(inputs: InstructionInput) -> (r: InstructionResult)
    ensures
        r == spec_addme(inputs),
{
    let mut with_ov = inputs;
    with_ov.overflow = Some(OverflowFlags { so: false, ov: false, ov32: false });
    drop_overflow_exec(addmeo(with_ov))
}

pub fn addmeo_(inputs: InstructionInput) -> (r: InstructionResult)
    ensures
        r == spec_addmeo_(inputs),
{
    append_cr0_64_exec(addmeo(inputs))
}

pub fn addme_(inputs: InstructionInput) -> (r: InstructionResult)
    ensures
        r == spec_addme_(inputs),
{
    replace_cr0_so_drop_overflow_exec(addmeo_(inputs), inputs)
}

pub open spec fn spec_subfmeo(inputs: InstructionInput) -> InstructionResult {
    spec_fixed_second_operand(inputs, true, 0xFFFF_FFFF_FFFF_FFFF)
}

pub open spec fn spec_subfme(inputs: InstructionInput) -> InstructionResult {
    drop_overflow_result(spec_subfmeo(with_default_overflow(inputs)))
}

pub open spec fn spec_subfmeo_(inputs: InstructionInput) -> InstructionResult {
    append_cr0_64(spec_subfmeo(inputs))
}

pub open spec fn spec_subfme_(inputs: InstructionInput) -> InstructionResult {
    replace_cr0_so_drop_overflow(spec_subfmeo_(inputs), inputs)
}

pub fn subfmeo(inputs: InstructionInput) -> (r: InstructionResult)
    ensures
        r == spec_subfmeo(inputs),
{
    fixed_second_operand(inputs, true, 0xFFFF_FFFF_FFFF_FFFF)
}

pub fn subfme(inputs: InstructionInput) -> (r: InstructionResult)
    ensures
        r == spec_subfme(inputs),
{
    let mut with_ov = inputs;
    with_ov.overflow = Some(OverflowFlags { so: false, ov: false, ov32: false });
    drop_overflow_exec(subfmeo(with_ov))
}

pub fn subfmeo_(inputs: InstructionInput) -> (r: InstructionResult)
    ensures
        r == spec_subfmeo_(inputs),
{
    append_cr0_64_exec(subfmeo(inputs))
}

pub fn subfme_(inputs: InstructionInput) -> (r: InstructionResult)
    ensures
        r == spec_subfme_(inputs),
{
    replace_cr0_so_drop_overflow_exec(subfmeo_(inputs), inputs)
}

pub open spec fn spec_addzeo(inputs: InstructionInput) -> InstructionResult {
    spec_fixed_second_operand(inputs, false, 0)
}

pub open spec fn spec_addze(inputs: InstructionInput) -> InstructionResult {
    drop_overflow_result(spec_addzeo(with_default_overflow(inputs)))
}

pub open spec fn spec_addzeo_(inputs: InstructionInput) -> InstructionResult {
    append_cr0_64(spec_addzeo(inputs))
}

pub open spec fn spec_addze_(inputs: InstructionInput) -> InstructionResult {
    replace_cr0_so_drop_overflow(spec_addzeo_(inputs), inputs)
}

pub fn addzeo(inputs: InstructionInput) -> (r: InstructionResult)
    ensures
        r == spec_addzeo(inputs),
{
    fixed_second_operand(inputs, false, 0)
}

pub fn addze(inputs: InstructionInput) -> (r: InstructionResult)
    ensures
        r == spec_addze(inputs),
{
    let mut with_ov = inputs;
    with_ov.overflow = Some(OverflowFlags { so: false, ov: false, ov32: false });
    drop_overflow_exec(addzeo(with_ov))
}

pub fn addzeo_(inputs: InstructionInput) -> (r: InstructionResult)
    ensures
        r == spec_addzeo_(inputs),
{
    append_cr0_64_exec(addzeo(inputs))
}

pub fn addze_(inputs: InstructionInput) -> (r: InstructionResult)
    ensures
        r == spec_addze_(inputs),
{
    replace_cr0_so_drop_overflow_exec(addzeo_(inputs), inputs)
}

pub open spec fn spec_subfzeo(inputs: InstructionInput) -> InstructionResult {
    spec_fixed_second_operand(inputs, true, 0)
}

pub open spec fn spec_subfze(inputs: InstructionInput) -> InstructionResult {
    drop_overflow_result(spec_subfzeo(with_default_overflow(inputs)))
}

pub open spec fn spec_subfzeo_(inputs: InstructionInput) -> InstructionResult {
    append_cr0_64(spec_subfzeo(inputs))
}

pub open spec fn spec_subfze_(inputs: InstructionInput) -> InstructionResult {
    replace_cr0_so_drop_overflow(spec_subfzeo_(inputs), inputs)
}

pub fn subfzeo(inputs: InstructionInput) -> (r: InstructionResult)
    ensures
        r == spec_subfzeo(inputs),
{
    fixed_second_operand(inputs, true, 0)
}

pub fn subfze(inputs: InstructionInput) -> (r: InstructionResult)
    ensures
        r == spec_subfze(inputs),
{
    let mut with_ov = inputs;
    with_ov.overflow = Some(OverflowFlags { so: false, ov: false, ov32: false });
    drop_overflow_exec(subfzeo(with_ov))
}

pub fn subfzeo_(inputs: InstructionInput) -> (r: InstructionResult)
    ensures
        r == spec_subfzeo_(inputs),
{
    append_cr0_64_exec(subfzeo(inputs))
}

pub fn subfze_(inputs: InstructionInput) -> (r: InstructionResult)
    ensures
        r == spec_subfze_(inputs),
{
    replace_cr0_so_drop_overflow_exec(subfzeo_(inputs), inputs)
}

/// `addex`: `ra + rb` with the overflow bit as carry-in, writing the carries
/// back into the `ov`/`ov32` bits and leaving `so` untouched.
pub open spec fn spec_addex(inputs: InstructionInput) -> InstructionResult {
    if inputs.ra is None {
        missing(InstructionInputRegister::Ra)
    } else if inputs.rb is None {
        missing(InstructionInputRegister::Rb)
    } else if inputs.overflow is None {
        missing(InstructionInputRegister::Overflow)
    } else {
        let ra = inputs.ra.unwrap();
        let rb = inputs.rb.unwrap();
        let fl = inputs.overflow.unwrap();
        Ok(
            out_rt_ov(
                wadd64(ra, rb, fl.ov),
                OverflowFlags {
                    so: fl.so,
                    ov: carry64(ra, rb, fl.ov),
                    ov32: carry32(ra, rb, fl.ov),
                },
            ),
        )
    }
}

pub fn addex(inputs: InstructionInput) -> (r: InstructionResult)
    ensures
        r == spec_addex(inputs),
{
    let ra = match inputs.try_get_ra() {
        Ok(v) => v,
        Err(e) => {
            return Err(e);
        },
    };
    let rb = match inputs.try_get_rb() {
        Ok(v) => v,
        Err(e) => {
            return Err(e);
        },
    };
    let fl = match inputs.try_get_overflow() {
        Ok(f) => f,
        Err(e) => {
            return Err(e);
        },
    };
    let res = crate::arith::add_core(ra, rb, fl.ov);
    let mut out = InstructionOutput::default();
    out.rt = Some(res.rt);
    out.overflow = Some(OverflowFlags { so: fl.so, ov: res.ca, ov32: res.ca32 });
    Ok(out)
}

/// Ok payload of `nego`: the two's-complement negation of `ra`, overflowing
/// exactly when the exact negation does not fit the destination width.
pub open spec fn nego_out(ra: u64, so_in: bool) -> crate::inputs::InstructionOutput {
    out_rt_ov(
        wrap64(-crate::arith::sext64(ra)),
        ov_flags(
            so_in,
            !crate::arith::fits_i64(-crate::arith::sext64(ra)),
            !crate::arith::fits_i32(-crate::arith::sext32(ra)),
        ),
    )
}

pub open spec fn spec_nego(inputs: InstructionInput) -> InstructionResult {
    if inputs.ra is None {
        missing(InstructionInputRegister::Ra)
    } else if inputs.overflow is None {
        missing(InstructionInputRegister::Overflow)
    } else {
        Ok(nego_out(inputs.ra.unwrap(), inputs.overflow.unwrap().so))
    }
}

pub open spec fn spec_neg(inputs: InstructionInput) -> InstructionResult {
    drop_overflow_result(spec_nego(with_default_overflow(inputs)))
}

pub open spec fn spec_nego_(inputs: InstructionInput) -> InstructionResult {
    append_cr0_64(spec_nego(inputs))
}

pub open spec fn spec_neg_(inputs: InstructionInput) -> InstructionResult {
    replace_cr0_so_drop_overflow(spec_nego_(inputs), inputs)
}

pub fn nego(inputs: InstructionInput) -> (r: InstructionResult)
    ensures
        r == spec_nego(inputs),
{
    let ra = match inputs.try_get_ra() {
        Ok(v) => v,
        Err(e) => {
            return Err(e);
        },
    };
    let s = crate::arith::signed_val64(ra);
    let rt = crate::arith::wrap_i128(-s);
    let ov = s == -0x8000_0000_0000_0000i128;
    let t = crate::arith::signed_val32(ra);
    let ov32 = t == -0x8000_0000i128;
    let so_in = match inputs.try_get_overflow() {
        Ok(f) => f.so,
        Err(e) => {
            return Err(e);
        },
    };
    let mut out = InstructionOutput::default();
    out.rt = Some(rt);
    out.overflow = Some(OverflowFlags { so: so_in || ov, ov, ov32 });
    Ok(out)
}

pub fn neg(inputs: InstructionInput) -> (r: InstructionResult)
    ensures
        r == spec_neg(inputs),
{
    let mut with_ov = inputs;
    with_ov.overflow = Some(OverflowFlags { so: false, ov: false, ov32: false });
    drop_overflow_exec(nego(with_ov))
}

pub fn nego_(inputs: InstructionInput) -> (r: InstructionResult)
    ensures
        r == spec_nego_(inputs),
{
    append_cr0_64_exec(nego(inputs))
}

pub fn neg_(inputs: InstructionInput) -> (r: InstructionResult)
    ensures
        r == spec_neg_(inputs),
{
    replace_cr0_so_drop_overflow_exec(nego_(inputs), inputs)
}

} // verus!

//! Models of the compare instructions. Each writes exactly one condition
//! field, derived from a three-way ordering of the operands, signed or
//! unsigned per mnemonic, plus the sticky-overflow bit supplied on input; the
//! byte-range compare forces every field but `gt` to false.

use vstd::prelude::*;

verus! {

use crate::arith::{low16, low32, sext16, sext32, sext64};
use crate::flags::{cr_compare, ConditionRegister};
use crate::inputs::{missing, InstructionInput, InstructionInputRegister, InstructionOutput,
    InstructionResult};
use crate::variants::out_cr0;

fn cr_of_compare_i128(a: i128, b: i128, so: bool) -> (r: ConditionRegister)
    ensures
        r == cr_compare(a as int, b as int, so),
{
    ConditionRegister { lt: a < b, gt: a > b, eq: a == b, so }
}

fn cr_of_compare_u64(a: u64, b: u64, so: bool) -> (r: ConditionRegister)
    ensures
        r == cr_compare(a as int, b as int, so),
{
    ConditionRegister { lt: a < b, gt: a > b, eq: a == b, so }
}

/// `cmpdi`: signed 64-bit compare of `ra` with the sign-extended immediate.
pub open spec fn spec_cmpdi(inputs: InstructionInput) -> InstructionResult {
    if inputs.ra is None {
        missing(InstructionInputRegister::Ra)
    } else if inputs.immediate is None {
        missing(InstructionInputRegister::ImmediateS16)
    } else if inputs.overflow is None {
        missing(InstructionInputRegister::Overflow)
    } else {
        Ok(
            out_cr0(
                cr_compare(
                    sext64(inputs.ra.unwrap()),
                    sext16(inputs.immediate.unwrap()),
                    inputs.overflow.unwrap().so,
                ),
            ),
        )
    }
}

pub fn cmpdi(inputs: InstructionInput) -> (r: InstructionResult)
    ensures
        r == spec_cmpdi(inputs),
{
    let ra = match inputs.try_get_ra() {
        Ok(v) => v,
        Err(e) => {
            return Err(e);
        },
    };
    let imm = match inputs.try_get_immediate_s16() {
        Ok(v) => v,
        Err(e) => {
            return Err(e);
        },
    };
    let so = match inputs.try_get_overflow() {
        Ok(f) => f.so,
        Err(e) => {
            return Err(e);
        },
    };
    let cr = cr_of_compare_i128(crate::arith::signed_val64(ra), imm as i128, so);
    let mut out = InstructionOutput::default();
    out.cr0 = Some(cr);
    Ok(out)
}

/// `cmpwi`: signed 32-bit compare of `ra` with the sign-extended immediate.
pub open spec fn spec_cmpwi(inputs: InstructionInput) -> InstructionResult {
    if inputs.ra is None {
        missing(InstructionInputRegister::Ra)
    } else if inputs.immediate is None {
        missing(InstructionInputRegister::ImmediateS16)
    } else if inputs.overflow is None {
        missing(InstructionInputRegister::Overflow)
    } else {
        Ok(
            out_cr0(
                cr_compare(
                    sext32(inputs.ra.unwrap()),
                    sext16(inputs.immediate.unwrap()),
                    inputs.overflow.unwrap().so,
                ),
            ),
        )
    }
}

pub fn cmpwi(inputs: InstructionInput) -> (r: InstructionResult)
    ensures
        r == spec_cmpwi(inputs),
{
    let ra = match inputs.try_get_ra() {
        Ok(v) => v,
        Err(e) => {
            return Err(e);
        },
    };
    let imm = match inputs.try_get_immediate_s16() {
        Ok(v) => v,
        Err(e) => {
            return Err(e);
        },
    };
    let so = match inputs.try_get_overflow() {
        Ok(f) => f.so,
        Err(e) => {
            return Err(e);
        },
    };
    let cr = cr_of_compare_i128(crate::arith::signed_val32(ra), imm as i128, so);
    let mut out = InstructionOutput::default();
    out.cr0 = Some(cr);
    Ok(out)
}

/// `cmpldi`: unsigned 64-bit compare of `ra` with the zero-extended
/// immediate.
pub open spec fn spec_cmpldi(inputs: InstructionInput) -> InstructionResult {
    if inputs.ra is None {
        missing(InstructionInputRegister::Ra)
    } else if inputs.immediate is None {
        missing(InstructionInputRegister::ImmediateU16)
    } else if inputs.overflow is None {
        missing(InstructionInputRegister::Overflow)
    } else {
        Ok(
            out_cr0(
                cr_compare(
                    inputs.ra.unwrap() as int,
                    low16(inputs.immediate.unwrap()),
                    inputs.overflow.unwrap().so,
                ),
            ),
        )
    }
}

pub fn cmpldi(inputs: InstructionInput) -> (r: InstructionResult)
    ensures
        r == spec_cmpldi(inputs),
{
    let ra = match inputs.try_get_ra() {
        Ok(v) => v,
        Err(e) => {
            return Err(e);
        },
    };
    let imm = match inputs.try_get_immediate_u16() {
        Ok(v) => v,
        Err(e) => {
            return Err(e);
        },
    };
    let so = match inputs.try_get_overflow() {
        Ok(f) => f.so,
        Err(e) => {
            return Err(e);
        },
    };
    let cr = cr_of_compare_u64(ra, imm as u64, so);
    let mut out = InstructionOutput::default();
    out.cr0 = Some(cr);
    Ok(out)
}

/// `cmplwi`: unsigned 32-bit compare of `ra` with the zero-extended
/// immediate.
pub open spec fn spec_cmplwi(inputs: InstructionInput) -> InstructionResult {
    if inputs.ra is None {
        missing(InstructionInputRegister::Ra)
    } else if inputs.immediate is None {
        missing(InstructionInputRegister::ImmediateU16)
    } else if inputs.overflow is None {
        missing(InstructionInputRegister::Overflow)
    } else {
        Ok(
            out_cr0(
                cr_compare(
                    low32(inputs.ra.unwrap()),
                    low16(inputs.immediate.unwrap()),
                    inputs.overflow.unwrap().so,
                ),
            ),
        )
    }
}

pub fn cmplwi(inputs: InstructionInput) -> (r: InstructionResult)
    ensures
        r == spec_cmplwi(inputs),
{
    let ra = match inputs.try_get_ra() {
        Ok(v) => v,
        Err(e) => {
            return Err(e);
        },
    };
    let imm = match inputs.try_get_immediate_u16() {
        Ok(v) => v,
        Err(e) => {
            return Err(e);
        },
    };
    let so = match inputs.try_get_overflow() {
        Ok(f) => f.so,
        Err(e) => {
            return Err(e);
        },
    };
    let cr = cr_of_compare_u64(ra % 0x1_0000_0000, imm as u64, so);
    let mut out = InstructionOutput::default();
    out.cr0 = Some(cr);
    Ok(out)
}

/// `cmpd`: signed 64-bit compare of `ra` with `rb`.
pub open spec fn spec_cmpd(inputs: InstructionInput) -> InstructionResult {
    if inputs.ra is None {
        missing(InstructionInputRegister::Ra)
    } else if inputs.rb is None {
        missing(InstructionInputRegister::Rb)
    } else if inputs.overflow is None {
        missing(InstructionInputRegister::Overflow)
    } else {
        Ok(
            out_cr0(
                cr_compare(
                    sext64(inputs.ra.unwrap()),
                    sext64(inputs.rb.unwrap()),
                    inputs.overflow.unwrap().so,
                ),
            ),
        )
    }
}

pub fn cmpd(inputs: InstructionInput) -> (r: InstructionResult)
    ensures
        r == spec_cmpd(inputs),
{
    let ra = match inputs.try_get_ra() {
        Ok(v) => v,
        Err(e) => {
            return Err(e);
        },
    };
    let rb = match inputs.try_get_rb() {
        Ok(v) => v,
        Err(e) => {
            return Err(e);
        },
    };
    let so = match inputs.try_get_overflow() {
        Ok(f) => f.so,
        Err(e) => {
            return Err(e);
        },
    };
    let cr = cr_of_compare_i128(crate::arith::signed_val64(ra), crate::arith::signed_val64(rb), so);
    let mut out = InstructionOutput::default();
    out.cr0 = Some(cr);
    Ok(out)
}

/// `cmpw`: signed 32-bit compare of `ra` with `rb`.
pub open spec fn spec_cmpw(inputs: InstructionInput) -> InstructionResult {
    if inputs.ra is None {
        missing(InstructionInputRegister::Ra)
    } else if inputs.rb is None {
        missing(InstructionInputRegister::Rb)
    } else if inputs.overflow is None {
        missing(InstructionInputRegister::Overflow)
    } else {
        Ok(
            out_cr0(
                cr_compare(
                    sext32(inputs.ra.unwrap()),
                    sext32(inputs.rb.unwrap()),
                    inputs.overflow.unwrap().so,
                ),
            ),
        )
    }
}

pub fn cmpw(inputs: InstructionInput) -> (r: InstructionResult)
    ensures
        r == spec_cmpw(inputs),
{
    let ra = match inputs.try_get_ra() {
        Ok(v) => v,
        Err(e) => {
            return Err(e);
        },
    };
    let rb = match inputs.try_get_rb() {
        Ok(v) => v,
        Err(e) => {
            return Err(e);
        },
    };
    let so = match inputs.try_get_overflow() {
        Ok(f) => f.so,
        Err(e) => {
            return Err(e);
        },
    };
    let cr = cr_of_compare_i128(crate::arith::signed_val32(ra), crate::arith::signed_val32(rb), so);
    let mut out = InstructionOutput::default();
    out.cr0 = Some(cr);
    Ok(out)
}

/// `cmpld`: unsigned 64-bit compare of `ra` with `rb`.
pub open spec fn spec_cmpld(inputs: InstructionInput) -> InstructionResult {
    if inputs.ra is None {
        missing(InstructionInputRegister::Ra)
    } else if inputs.rb is None {
        missing(InstructionInputRegister::Rb)
    } else if inputs.overflow is None {
        missing(InstructionInputRegister::Overflow)
    } else {
        Ok(
            out_cr0(
                cr_compare(
                    inputs.ra.unwrap() as int,
                    inputs.rb.unwrap() as int,
                    inputs.overflow.unwrap().so,
                ),
            ),
        )
    }
}

pub fn cmpld(inputs: InstructionInput) -> (r: InstructionResult)
    ensures
        r == spec_cmpld(inputs),
{
    let ra = match inputs.try_get_ra() {
        Ok(v) => v,
        Err(e) => {
            return Err(e);
        },
    };
    let rb = match inputs.try_get_rb() {
        Ok(v) => v,
        Err(e) => {
            return Err(e);
        },
    };
    let so = match inputs.try_get_overflow() {
        Ok(f) => f.so,
        Err(e) => {
            return Err(e);
        },
    };
    let cr = cr_of_compare_u64(ra, rb, so);
    let mut out = InstructionOutput::default();
    out.cr0 = Some(cr);
    Ok(out)
}

/// `cmplw`: unsigned 32-bit compare of `ra` with `rb`.
pub open spec fn spec_cmplw(inputs: InstructionInput) -> InstructionResult {
    if inputs.ra is None {
        missing(InstructionInputRegister::Ra)
    } else if inputs.rb is None {
        missing(InstructionInputRegister::Rb)
    } else if inputs.overflow is None {
        missing(InstructionInputRegister::Overflow)
    } else {
        Ok(
            out_cr0(
                cr_compare(
                    low32(inputs.ra.unwrap()),
                    low32(inputs.rb.unwrap()),
                    inputs.overflow.unwrap().so,
                ),
            ),
        )
    }
}

pub fn cmplw(inputs: InstructionInput) -> (r: InstructionResult)
    ensures
        r == spec_cmplw(inputs),
{
    let ra = match inputs.try_get_ra() {
        Ok(v) => v,
        Err(e) => {
            return Err(e);
        },
    };
    let rb = match inputs.try_get_rb() {
        Ok(v) => v,
        Err(e) => {
            return Err(e);
        },
    };
    let so = match inputs.try_get_overflow() {
        Ok(f) => f.so,
        Err(e) => {
            return Err(e);
        },
    };
    let cr = cr_of_compare_u64(ra % 0x1_0000_0000, rb % 0x1_0000_0000, so);
    let mut out = InstructionOutput::default();
    out.cr0 = Some(cr);
    Ok(out)
}

/// `cmprb` with both flag operands zero: tests whether the low byte of `ra`
/// lies in the inclusive byte range packed into the low two bytes of `rb`,
/// reporting the answer in `gt` alone; every other field is forced false.
pub open spec fn spec_cmprb_0(inputs: InstructionInput) -> InstructionResult {
    if inputs.ra is None {
        missing(InstructionInputRegister::Ra)
    } else if inputs.rb is None {
        missing(InstructionInputRegister::Rb)
    } else {
        let v = (inputs.ra.unwrap() as int) % 0x100;
        let lo = (inputs.rb.unwrap() as int) % 0x100;
        let hi = ((inputs.rb.unwrap() as int) / 0x100) % 0x100;
        Ok(
            out_cr0(
                ConditionRegister { lt: false, gt: lo <= v && v <= hi, eq: false, so: false },
            ),
        )
    }
}

pub fn cmprb_0(inputs: InstructionInput) -> (r: InstructionResult)
    ensures
        r == spec_cmprb_0(inputs),
{
    let ra = match inputs.try_get_ra() {
        Ok(v) => v,
        Err(e) => {
            return Err(e);
        },
    };
    let rb = match inputs.try_get_rb() {
        Ok(v) => v,
        Err(e) => {
            return Err(e);
        },
    };
    let v: u64 = ra % 0x100;
    let lo: u64 = rb % 0x100;
    let hi: u64 = (rb / 0x100) % 0x100;
    let in_range = lo <= v && v <= hi;
    let cr = ConditionRegister { lt: false, gt: in_range, eq: false, so: false };
    let mut out = InstructionOutput::default();
    out.cr0 = Some(cr);
    Ok(out)
}

} // verus!

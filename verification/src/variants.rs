//! Composition of instruction variants. Each instruction family has a base
//! form; its "record" (`.`) form appends a condition field derived from the
//! result, its overflow (`o`) form is the one that actually computes the
//! overflow flags, and the plain form runs the overflow form on default flags
//! and strips them from the output. These combinators express the layering
//! once, so each family states only its overflow form from scratch.

use vstd::prelude::*;

verus! {

use crate::flags::{cr_signed32, cr_signed64, ConditionRegister, OverflowFlags};
use crate::inputs::{missing, InstructionInput, InstructionInputRegister, InstructionOutput,
    InstructionResult, spec_output_none};

/// Overflow flags freshly computed by an instruction, with the sticky `so`
/// bit propagated forward from the flags supplied on input.
pub open spec fn ov_flags(so_in: bool, ov: bool, ov32: bool) -> OverflowFlags {
    OverflowFlags { so: so_in || ov, ov, ov32 }
}

/// An output holding only a result register.
pub open spec fn out_rt(rt: u64) -> InstructionOutput {
    InstructionOutput { rt: Some(rt), ..spec_output_none() }
}

/// An output holding a result register and overflow flags.
pub open spec fn out_rt_ov(rt: u64, fl: OverflowFlags) -> InstructionOutput {
    InstructionOutput { rt: Some(rt), overflow: Some(fl), ..spec_output_none() }
}

/// An output holding a result register and carry flags.
pub open spec fn out_rt_ca(rt: u64, ca: crate::flags::CarryFlags) -> InstructionOutput {
    InstructionOutput { rt: Some(rt), carry: Some(ca), ..spec_output_none() }
}

/// An output holding a result register, overflow flags and carry flags.
pub open spec fn out_rt_ov_ca(
    rt: u64,
    fl: OverflowFlags,
    ca: crate::flags::CarryFlags,
) -> InstructionOutput {
    InstructionOutput { rt: Some(rt), overflow: Some(fl), carry: Some(ca), ..spec_output_none() }
}

/// An output holding only the first condition field.
pub open spec fn out_cr0(cr: ConditionRegister) -> InstructionOutput {
    InstructionOutput { cr0: Some(cr), ..spec_output_none() }
}

/// The same output with the first condition field set.
pub open spec fn with_cr0(out: InstructionOutput, cr: ConditionRegister) -> InstructionOutput {
    InstructionOutput { cr0: Some(cr), ..out }
}

/// The same output with the overflow flags stripped.
pub open spec fn without_overflow(out: InstructionOutput) -> InstructionOutput {
    InstructionOutput { overflow: None, ..out }
}

/// The same input record with the overflow flags present and default-false,
/// which is how the plain member of a family invokes the overflow member.
pub open spec fn with_default_overflow(inputs: InstructionInput) -> InstructionInput {
    InstructionInput {
        overflow: Some(OverflowFlags { so: false, ov: false, ov32: false }),
        ..inputs
    }
}

/// The plain member of a family, given its overflow member's result: the
/// overflow flags are stripped from the output.
pub open spec fn drop_overflow_result(r: InstructionResult) -> InstructionResult {
    match r {
        Ok(o) => Ok(without_overflow(o)),
        Err(e) => Err(e),
    }
}

/// The record-and-overflow member of a family, given the overflow member's
/// result: the first condition field is derived from the signed 64-bit
/// interpretation of the result register, carrying the output's sticky
/// overflow bit.
pub open spec fn append_cr0_64(r: InstructionResult) -> InstructionResult {
    match r {
        Ok(o) => Ok(with_cr0(o, cr_signed64(o.rt.unwrap(), o.overflow.unwrap().so))),
        Err(e) => Err(e),
    }
}

/// The record member of a family with overflow forms, given the
/// record-and-overflow member's result: the condition field's sticky bit is
/// replaced by the one supplied on input, and the overflow flags are
/// stripped.
pub open spec fn replace_cr0_so_drop_overflow(
    r: InstructionResult,
    inputs: InstructionInput,
) -> InstructionResult {
    match r {
        Ok(o) => Ok(
            without_overflow(
                with_cr0(
                    o,
                    ConditionRegister { so: inputs.overflow.unwrap().so, ..o.cr0.unwrap() },
                ),
            ),
        ),
        Err(e) => Err(e),
    }
}

/// The record member of a family without overflow forms, given the base
/// member's result: the first condition field is derived from the signed
/// 64-bit interpretation of the result register and the sticky bit supplied
/// on input, which must then be present.
pub open spec fn record_from_input_so_64(
    r: InstructionResult,
    inputs: InstructionInput,
) -> InstructionResult {
    match r {
        Ok(o) => if inputs.overflow is None {
            missing(InstructionInputRegister::Overflow)
        } else {
            Ok(with_cr0(o, cr_signed64(o.rt.unwrap(), inputs.overflow.unwrap().so)))
        },
        Err(e) => Err(e),
    }
}

/// As [`record_from_input_so_64`], but the condition field is derived from
/// the signed interpretation of the low 32 bits of the result register.
pub open spec fn record_from_input_so_32(
    r: InstructionResult,
    inputs: InstructionInput,
) -> InstructionResult {
    match r {
        Ok(o) => if inputs.overflow is None {
            missing(InstructionInputRegister::Overflow)
        } else {
            Ok(with_cr0(o, cr_signed32(o.rt.unwrap(), inputs.overflow.unwrap().so)))
        },
        Err(e) => Err(e),
    }
}

/// Strips the overflow flags from an instruction result.
pub fn drop_overflow_exec(r: InstructionResult) -> (out: InstructionResult)
    ensures
        out == drop_overflow_result(r),
{
    match r {
        Ok(o) => {
            let mut o = o;
            o.overflow = None;
            Ok(o)
        },
        Err(e) => Err(e),
    }
}

/// Appends the condition field derived from the signed 64-bit result and the
/// output's sticky overflow bit.
pub fn append_cr0_64_exec(r: InstructionResult) -> (out: InstructionResult)
    requires
        r is Ok ==> r.unwrap().rt is Some && r.unwrap().overflow is Some,
    ensures
        out == append_cr0_64(r),
{
    match r {
        Ok(o) => {
            let rt = match o.rt {
                Some(v) => v,
                None => unreached(),
            };
            let so = match o.overflow {
                Some(f) => f.so,
                None => unreached(),
            };
            let mut o = o;
            o.cr0 = Some(crate::flags::cr_of_signed64(rt, so));
            Ok(o)
        },
        Err(e) => Err(e),
    }
}

/// Replaces the condition field's sticky bit with the one supplied on input
/// and strips the overflow flags.
pub fn replace_cr0_so_drop_overflow_exec(r: InstructionResult, inputs: InstructionInput) -> (out:
    InstructionResult)
    requires
        r is Ok ==> r.unwrap().cr0 is Some && inputs.overflow is Some,
    ensures
        out == replace_cr0_so_drop_overflow(r, inputs),
{
    match r {
        Ok(o) => {
            let mut cr = match o.cr0 {
                Some(c) => c,
                None => unreached(),
            };
            let so_in = match inputs.overflow {
                Some(f) => f.so,
                None => unreached(),
            };
            cr.so = so_in;
            let mut o = o;
            o.cr0 = Some(cr);
            o.overflow = None;
            Ok(o)
        },
        Err(e) => Err(e),
    }
}

/// Appends the condition field derived from the signed 64-bit result and the
/// sticky overflow bit supplied on input.
pub fn record_from_input_so_64_exec(r: InstructionResult, inputs: InstructionInput) -> (out:
    InstructionResult)
    requires
        r is Ok ==> r.unwrap().rt is Some,
    ensures
        out == record_from_input_so_64(r, inputs),
{
    match r {
        Ok(o) => {
            let so_in = match inputs.try_get_overflow() {
                Ok(f) => f.so,
                Err(e) => {
                    return Err(e);
                },
            };
            let rt = match o.rt {
                Some(v) => v,
                None => unreached(),
            };
            let mut o = o;
            o.cr0 = Some(crate::flags::cr_of_signed64(rt, so_in));
            Ok(o)
        },
        Err(e) => Err(e),
    }
}

/// Appends the condition field derived from the signed low-32-bit result and
/// the sticky overflow bit supplied on input.
pub fn record_from_input_so_32_exec(r: InstructionResult, inputs: InstructionInput) -> (out:
    InstructionResult)
    requires
        r is Ok ==> r.unwrap().rt is Some,
    ensures
        out == record_from_input_so_32(r, inputs),
{
    match r {
        Ok(o) => {
            let so_in = match inputs.try_get_overflow() {
                Ok(f) => f.so,
                Err(e) => {
                    return Err(e);
                },
            };
            let rt = match o.rt {
                Some(v) => v,
                None => unreached(),
            };
            let mut o = o;
            o.cr0 = Some(crate::flags::cr_of_signed32(rt, so_in));
            Ok(o)
        },
        Err(e) => Err(e),
    }
}

} // verus!

//! The operand and result records that the instruction models consume and
//! produce. Each field is optional: it is present exactly when the
//! instruction being modelled declares that it reads or writes it.

use vstd::prelude::*;

verus! {

use crate::arith::{low16, sext16};
use crate::flags::{CarryFlags, ConditionRegister, OverflowFlags};

/// Names an operand slot an instruction can read. Used both as a set (which
/// slots an instruction needs) and as the error tag naming a missing slot.
#[derive(Clone, Copy, Debug, PartialEq, Eq, Hash, Structural)]
pub enum InstructionInputRegister {
    Ra,
    Rb,
    Rc,
    Carry,
    Overflow,
    ImmediateS16,
    ImmediateU16,
}

impl InstructionInputRegister {
    pub open spec fn spec_name(self) -> Seq<char> {
        match self {
            InstructionInputRegister::Ra => "ra"@,
            InstructionInputRegister::Rb => "rb"@,
            InstructionInputRegister::Rc => "rc"@,
            InstructionInputRegister::Carry => "carry"@,
            InstructionInputRegister::Overflow => "overflow"@,
            InstructionInputRegister::ImmediateS16 => "immediate_s16"@,
            InstructionInputRegister::ImmediateU16 => "immediate_u16"@,
        }
    }

    /// The canonical lower-case name of the operand slot.
    pub fn name(self) -> (r: &'static str)
        ensures
            r@ == self.spec_name(),
    {
        match self {
            InstructionInputRegister::Ra => "ra",
            InstructionInputRegister::Rb => "rb",
            InstructionInputRegister::Rc => "rc",
            InstructionInputRegister::Carry => "carry",
            InstructionInputRegister::Overflow => "overflow",
            InstructionInputRegister::ImmediateS16 => "immediate_s16",
            InstructionInputRegister::ImmediateU16 => "immediate_u16",
        }
    }
}

/// A required operand was absent from an [`InstructionInput`].
#[derive(Clone, Copy, Debug, PartialEq, Eq, Structural)]
pub struct MissingInstructionInput {
    pub input: InstructionInputRegister,
}

/// One test vector: every operand an instruction might read, each present
/// only when the instruction needs it.
#[derive(Clone, Copy, Debug, PartialEq)]
pub struct InstructionInput {
    pub ra: Option<u64>,
    pub rb: Option<u64>,
    pub rc: Option<u64>,
    pub immediate: Option<u64>,
    pub carry: Option<CarryFlags>,
    pub overflow: Option<OverflowFlags>,
}

/// Everything an instruction might produce, each field present only when the
/// instruction writes it.
#[derive(Clone, Copy, Debug, PartialEq)]
pub struct InstructionOutput {
    pub rt: Option<u64>,
    pub overflow: Option<OverflowFlags>,
    pub carry: Option<CarryFlags>,
    pub cr0: Option<ConditionRegister>,
    pub cr1: Option<ConditionRegister>,
    pub cr2: Option<ConditionRegister>,
    pub cr3: Option<ConditionRegister>,
    pub cr4: Option<ConditionRegister>,
    pub cr5: Option<ConditionRegister>,
    pub cr6: Option<ConditionRegister>,
    pub cr7: Option<ConditionRegister>,
}

pub type InstructionResult = Result<InstructionOutput, MissingInstructionInput>;

/// The input record with every operand absent.
pub open spec fn spec_input_none() -> InstructionInput {
    InstructionInput { ra: None, rb: None, rc: None, immediate: None, carry: None, overflow: None }
}

/// The output record with every field absent.
pub open spec fn spec_output_none() -> InstructionOutput {
    InstructionOutput {
        rt: None,
        overflow: None,
        carry: None,
        cr0: None,
        cr1: None,
        cr2: None,
        cr3: None,
        cr4: None,
        cr5: None,
        cr6: None,
        cr7: None,
    }
}

impl Default for InstructionInput {
    fn default() -> (r: Self)
        ensures
            r == spec_input_none(),
    {
        InstructionInput {
            ra: None,
            rb: None,
            rc: None,
            immediate: None,
            carry: None,
            overflow: None,
        }
    }
}

impl Default for InstructionOutput {
    fn default() -> (r: Self)
        ensures
            r == spec_output_none(),
    {
        InstructionOutput {
            rt: None,
            overflow: None,
            carry: None,
            cr0: None,
            cr1: None,
            cr2: None,
            cr3: None,
            cr4: None,
            cr5: None,
            cr6: None,
            cr7: None,
        }
    }
}

/// The error result naming a missing operand slot.
pub open spec fn missing(reg: InstructionInputRegister) -> InstructionResult {
    Err(MissingInstructionInput { input: reg })
}

/// Whether the operand slot named by `reg` is present in `inputs`.
pub open spec fn has_input(inputs: InstructionInput, reg: InstructionInputRegister) -> bool {
    match reg {
        InstructionInputRegister::Ra => inputs.ra is Some,
        InstructionInputRegister::Rb => inputs.rb is Some,
        InstructionInputRegister::Rc => inputs.rc is Some,
        InstructionInputRegister::Carry => inputs.carry is Some,
        InstructionInputRegister::Overflow => inputs.overflow is Some,
        InstructionInputRegister::ImmediateS16 => inputs.immediate is Some,
        InstructionInputRegister::ImmediateU16 => inputs.immediate is Some,
    }
}

impl InstructionInput {
    pub fn try_get_ra(self) -> (r: Result<u64, MissingInstructionInput>)
        ensures
            self.ra is Some ==> r == Ok::<u64, MissingInstructionInput>(self.ra.unwrap()),
            self.ra is None ==> r == Err::<u64, MissingInstructionInput>(
                MissingInstructionInput { input: InstructionInputRegister::Ra },
            ),
    {
        match self.ra {
            Some(v) => Ok(v),
            None => Err(MissingInstructionInput { input: InstructionInputRegister::Ra }),
        }
    }

    pub fn try_get_rb(self) -> (r: Result<u64, MissingInstructionInput>)
        ensures
            self.rb is Some ==> r == Ok::<u64, MissingInstructionInput>(self.rb.unwrap()),
            self.rb is None ==> r == Err::<u64, MissingInstructionInput>(
                MissingInstructionInput { input: InstructionInputRegister::Rb },
            ),
    {
        match self.rb {
            Some(v) => Ok(v),
            None => Err(MissingInstructionInput { input: InstructionInputRegister::Rb }),
        }
    }

    pub fn try_get_rc(self) -> (r: Result<u64, MissingInstructionInput>)
        ensures
            self.rc is Some ==> r == Ok::<u64, MissingInstructionInput>(self.rc.unwrap()),
            self.rc is None ==> r == Err::<u64, MissingInstructionInput>(
                MissingInstructionInput { input: InstructionInputRegister::Rc },
            ),
    {
        match self.rc {
            Some(v) => Ok(v),
            None => Err(MissingInstructionInput { input: InstructionInputRegister::Rc }),
        }
    }

    pub fn try_get_carry(self) -> (r: Result<CarryFlags, MissingInstructionInput>)
        ensures
            self.carry is Some ==> r == Ok::<CarryFlags, MissingInstructionInput>(
                self.carry.unwrap(),
            ),
            self.carry is None ==> r == Err::<CarryFlags, MissingInstructionInput>(
                MissingInstructionInput { input: InstructionInputRegister::Carry },
            ),
    {
        match self.carry {
            Some(v) => Ok(v),
            None => Err(MissingInstructionInput { input: InstructionInputRegister::Carry }),
        }
    }

    pub fn try_get_overflow(self) -> (r: Result<OverflowFlags, MissingInstructionInput>)
        ensures
            self.overflow is Some ==> r == Ok::<OverflowFlags, MissingInstructionInput>(
                self.overflow.unwrap(),
            ),
            self.overflow is None ==> r == Err::<OverflowFlags, MissingInstructionInput>(
                MissingInstructionInput { input: InstructionInputRegister::Overflow },
            ),
    {
        match self.overflow {
            Some(v) => Ok(v),
            None => Err(MissingInstructionInput { input: InstructionInputRegister::Overflow }),
        }
    }

    /// The low 16 bits of the immediate operand, interpreted as signed.
    pub fn try_get_immediate_s16(self) -> (r: Result<i16, MissingInstructionInput>)
        ensures
            self.immediate is Some ==> (r is Ok && r.unwrap() as int == sext16(
                self.immediate.unwrap(),
            )),
            self.immediate is None ==> r == Err::<i16, MissingInstructionInput>(
                MissingInstructionInput { input: InstructionInputRegister::ImmediateS16 },
            ),
    {
        match self.immediate {
            Some(v) => {
                let lo: u64 = v % 0x1_0000;
                if lo < 0x8000 {
                    Ok(lo as i16)
                } else {
                    Ok(((lo as i32) - 0x1_0000i32) as i16)
                }
            },
            None => Err(MissingInstructionInput { input: InstructionInputRegister::ImmediateS16 }),
        }
    }

    /// The low 16 bits of the immediate operand, interpreted as unsigned.
    pub fn try_get_immediate_u16(self) -> (r: Result<u16, MissingInstructionInput>)
        ensures
            self.immediate is Some ==> (r is Ok && r.unwrap() as int == low16(
                self.immediate.unwrap(),
            )),
            self.immediate is None ==> r == Err::<u16, MissingInstructionInput>(
                MissingInstructionInput { input: InstructionInputRegister::ImmediateU16 },
            ),
    {
        match self.immediate {
            Some(v) => {
                let lo: u64 = v % 0x1_0000;
                Ok(lo as u16)
            },
            None => Err(MissingInstructionInput { input: InstructionInputRegister::ImmediateU16 }),
        }
    }
}

fn opt_u64_eq(a: Option<u64>, b: Option<u64>) -> (r: bool)
    ensures
        r == (a == b),
{
    match (a, b) {
        (Some(x), Some(y)) => x == y,
        (None, None) => true,
        _ => false,
    }
}

fn opt_overflow_eq(a: Option<OverflowFlags>, b: Option<OverflowFlags>) -> (r: bool)
    ensures
        r == (a == b),
{
    match (a, b) {
        (Some(x), Some(y)) => x == y,
        (None, None) => true,
        _ => false,
    }
}

fn opt_carry_eq(a: Option<CarryFlags>, b: Option<CarryFlags>) -> (r: bool)
    ensures
        r == (a == b),
{
    match (a, b) {
        (Some(x), Some(y)) => x == y,
        (None, None) => true,
        _ => false,
    }
}

fn opt_cr_eq(a: Option<ConditionRegister>, b: Option<ConditionRegister>) -> (r: bool)
    ensures
        r == (a == b),
{
    match (a, b) {
        (Some(x), Some(y)) => x == y,
        (None, None) => true,
        _ => false,
    }
}

impl InstructionOutput {
    /// Field-by-field comparison for exact equality, counting an absent field
    /// as equal only to an absent field.
    pub fn same_as(&self, other: &InstructionOutput) -> (r: bool)
        ensures
            r == (*self == *other),
    {
        opt_u64_eq(self.rt, other.rt) && opt_overflow_eq(self.overflow, other.overflow)
            && opt_carry_eq(self.carry, other.carry) && opt_cr_eq(self.cr0, other.cr0) && opt_cr_eq(
            self.cr1,
            other.cr1,
        ) && opt_cr_eq(self.cr2, other.cr2) && opt_cr_eq(self.cr3, other.cr3) && opt_cr_eq(
            self.cr4,
            other.cr4,
        ) && opt_cr_eq(self.cr5, other.cr5) && opt_cr_eq(self.cr6, other.cr6) && opt_cr_eq(
            self.cr7,
            other.cr7,
        )
    }
}

} // verus!

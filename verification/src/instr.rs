//! The closed enumeration of every modelled instruction, carrying for each
//! one its canonical name, the exact set of operand slots it reads, and its
//! model function; plus the laws tying the three together.

use vstd::prelude::*;

verus! {

use crate::inputs::{has_input, InstructionInput, InstructionInputRegister, InstructionResult};

/// Every modelled instruction, one value per opcode and flag-suffix
/// combination.
#[derive(Clone, Copy, Debug, PartialEq, Eq, Hash, Structural)]
pub enum Instr {
    AddI,
    AddIS,
    Add,
    AddO,
    Add_,
    AddO_,
    AddIC,
    AddIC_,
    SubF,
    SubFO,
    SubF_,
    SubFO_,
    SubFIC,
    AddC,
    AddCO,
    AddC_,
    AddCO_,
    SubFC,
    SubFCO,
    SubFC_,
    SubFCO_,
    AddE,
    AddEO,
    AddE_,
    AddEO_,
    SubFE,
    SubFEO,
    SubFE_,
    SubFEO_,
    AddME,
    AddMEO,
    AddME_,
    AddMEO_,
    SubFME,
    SubFMEO,
    SubFME_,
    SubFMEO_,
    AddZE,
    AddZEO,
    AddZE_,
    AddZEO_,
    SubFZE,
    SubFZEO,
    SubFZE_,
    SubFZEO_,
    AddEX,
    Neg,
    NegO,
    Neg_,
    NegO_,
    DivDE,
    DivDEO,
    DivDE_,
    DivDEO_,
    DivDEU,
    DivDEUO,
    DivDEU_,
    DivDEUO_,
    DivD,
    DivDO,
    DivD_,
    DivDO_,
    DivDU,
    DivDUO,
    DivDU_,
    DivDUO_,
    DivWE,
    DivWEO,
    DivWE_,
    DivWEO_,
    DivWEU,
    DivWEUO,
    DivWEU_,
    DivWEUO_,
    DivW,
    DivWO,
    DivW_,
    DivWO_,
    DivWU,
    DivWUO,
    DivWU_,
    DivWUO_,
    ModSD,
    ModUD,
    ModSW,
    ModUW,
    MulLI,
    MulLW,
    MulLWO,
    MulLW_,
    MulLWO_,
    MulHW,
    MulHW_,
    MulHWU,
    MulHWU_,
    MulLD,
    MulLDO,
    MulLD_,
    MulLDO_,
    MulHD,
    MulHD_,
    MulHDU,
    MulHDU_,
    MAddHD,
    MAddHDU,
    MAddLD,
    CmpDI,
    CmpWI,
    CmpLDI,
    CmpLWI,
    CmpD,
    CmpW,
    CmpLD,
    CmpLW,
    CmpRB0,
}

fn regs1(a: InstructionInputRegister) -> (r: Vec<InstructionInputRegister>)
    ensures
        r@ == seq![a],
{
    let mut v: Vec<InstructionInputRegister> = Vec::new();
    v.push(a);
    proof {
        assert(v@ =~= seq![a]);
    }
    v
}

fn regs2(a: InstructionInputRegister, b: InstructionInputRegister) -> (r: Vec<
    InstructionInputRegister>)
    ensures
        r@ == seq![a, b],
{
    let mut v: Vec<InstructionInputRegister> = Vec::new();
    v.push(a);
    v.push(b);
    proof {
        assert(v@ =~= seq![a, b]);
    }
    v
}

fn regs3(
    a: InstructionInputRegister,
    b: InstructionInputRegister,
    c: InstructionInputRegister,
) -> (r: Vec<InstructionInputRegister>)
    ensures
        r@ == seq![a, b, c],
{
    let mut v: Vec<InstructionInputRegister> = Vec::new();
    v.push(a);
    v.push(b);
    v.push(c);
    proof {
        assert(v@ =~= seq![a, b, c]);
    }
    v
}

fn regs4(
    a: InstructionInputRegister,
    b: InstructionInputRegister,
    c: InstructionInputRegister,
    d: InstructionInputRegister,
) -> (r: Vec<InstructionInputRegister>)
    ensures
        r@ == seq![a, b, c, d],
{
    let mut v: Vec<InstructionInputRegister> = Vec::new();
    v.push(a);
    v.push(b);
    v.push(c);
    v.push(d);
    proof {
        assert(v@ =~= seq![a, b, c, d]);
    }
    v
}

impl Instr {
    /// The canonical assembly mnemonic of the instruction.
    pub open spec fn spec_name(self) -> Seq<char> {
        match self {
            Instr::AddI => "addi"@,
            Instr::AddIS => "addis"@,
            Instr::Add => "add"@,
            Instr::AddO => "addo"@,
            Instr::Add_ => "add."@,
            Instr::AddO_ => "addo."@,
            Instr::AddIC => "addic"@,
            Instr::AddIC_ => "addic."@,
            Instr::SubF => "subf"@,
            Instr::SubFO => "subfo"@,
            Instr::SubF_ => "subf."@,
            Instr::SubFO_ => "subfo."@,
            Instr::SubFIC => "subfic"@,
            Instr::AddC => "addc"@,
            Instr::AddCO => "addco"@,
            Instr::AddC_ => "addc."@,
            Instr::AddCO_ => "addco."@,
            Instr::SubFC => "subfc"@,
            Instr::SubFCO => "subfco"@,
            Instr::SubFC_ => "subfc."@,
            Instr::SubFCO_ => "subfco."@,
            Instr::AddE => "adde"@,
            Instr::AddEO => "addeo"@,
            Instr::AddE_ => "adde."@,
            Instr::AddEO_ => "addeo."@,
            Instr::SubFE => "subfe"@,
            Instr::SubFEO => "subfeo"@,
            Instr::SubFE_ => "subfe."@,
            Instr::SubFEO_ => "subfeo."@,
            Instr::AddME => "addme"@,
            Instr::AddMEO => "addmeo"@,
            Instr::AddME_ => "addme."@,
            Instr::AddMEO_ => "addmeo."@,
            Instr::SubFME => "subfme"@,
            Instr::SubFMEO => "subfmeo"@,
            Instr::SubFME_ => "subfme."@,
            Instr::SubFMEO_ => "subfmeo."@,
            Instr::AddZE => "addze"@,
            Instr::AddZEO => "addzeo"@,
            Instr::AddZE_ => "addze."@,
            Instr::AddZEO_ => "addzeo."@,
            Instr::SubFZE => "subfze"@,
            Instr::SubFZEO => "subfzeo"@,
            Instr::SubFZE_ => "subfze."@,
            Instr::SubFZEO_ => "subfzeo."@,
            Instr::AddEX => "addex"@,
            Instr::Neg => "neg"@,
            Instr::NegO => "nego"@,
            Instr::Neg_ => "neg."@,
            Instr::NegO_ => "nego."@,
            Instr::DivDE => "divde"@,
            Instr::DivDEO => "divdeo"@,
            Instr::DivDE_ => "divde."@,
            Instr::DivDEO_ => "divdeo."@,
            Instr::DivDEU => "divdeu"@,
            Instr::DivDEUO => "divdeuo"@,
            Instr::DivDEU_ => "divdeu."@,
            Instr::DivDEUO_ => "divdeuo."@,
            Instr::DivD => "divd"@,
            Instr::DivDO => "divdo"@,
            Instr::DivD_ => "divd."@,
            Instr::DivDO_ => "divdo."@,
            Instr::DivDU => "divdu"@,
            Instr::DivDUO => "divduo"@,
            Instr::DivDU_ => "divdu."@,
            Instr::DivDUO_ => "divduo."@,
            Instr::DivWE => "divwe"@,
            Instr::DivWEO => "divweo"@,
            Instr::DivWE_ => "divwe."@,
            Instr::DivWEO_ => "divweo."@,
            Instr::DivWEU => "divweu"@,
            Instr::DivWEUO => "divweuo"@,
            Instr::DivWEU_ => "divweu."@,
            Instr::DivWEUO_ => "divweuo."@,
            Instr::DivW => "divw"@,
            Instr::DivWO => "divwo"@,
            Instr::DivW_ => "divw."@,
            Instr::DivWO_ => "divwo."@,
            Instr::DivWU => "divwu"@,
            Instr::DivWUO => "divwuo"@,
            Instr::DivWU_ => "divwu."@,
            Instr::DivWUO_ => "divwuo."@,
            Instr::ModSD => "modsd"@,
            Instr::ModUD => "modud"@,
            Instr::ModSW => "modsw"@,
            Instr::ModUW => "moduw"@,
            Instr::MulLI => "mulli"@,
            Instr::MulLW => "mullw"@,
            Instr::MulLWO => "mullwo"@,
            Instr::MulLW_ => "mullw."@,
            Instr::MulLWO_ => "mullwo."@,
            Instr::MulHW => "mulhw"@,
            Instr::MulHW_ => "mulhw."@,
            Instr::MulHWU => "mulhwu"@,
            Instr::MulHWU_ => "mulhwu."@,
            Instr::MulLD => "mulld"@,
            Instr::MulLDO => "mulldo"@,
            Instr::MulLD_ => "mulld."@,
            Instr::MulLDO_ => "mulldo."@,
            Instr::MulHD => "mulhd"@,
            Instr::MulHD_ => "mulhd."@,
            Instr::MulHDU => "mulhdu"@,
            Instr::MulHDU_ => "mulhdu."@,
            Instr::MAddHD => "maddhd"@,
            Instr::MAddHDU => "maddhdu"@,
            Instr::MAddLD => "maddld"@,
            Instr::CmpDI => "cmpdi"@,
            Instr::CmpWI => "cmpwi"@,
            Instr::CmpLDI => "cmpldi"@,
            Instr::CmpLWI => "cmplwi"@,
            Instr::CmpD => "cmpd"@,
            Instr::CmpW => "cmpw"@,
            Instr::CmpLD => "cmpld"@,
            Instr::CmpLW => "cmplw"@,
            Instr::CmpRB0 => "cmprb_0"@,
        }
    }

    /// The canonical assembly mnemonic of the instruction.
    pub fn name(self) -> (r: &'static str)
        ensures
            r@ == self.spec_name(),
    {
        match self {
            Instr::AddI => "addi",
            Instr::AddIS => "addis",
            Instr::Add => "add",
            Instr::AddO => "addo",
            Instr::Add_ => "add.",
            Instr::AddO_ => "addo.",
            Instr::AddIC => "addic",
            Instr::AddIC_ => "addic.",
            Instr::SubF => "subf",
            Instr::SubFO => "subfo",
            Instr::SubF_ => "subf.",
            Instr::SubFO_ => "subfo.",
            Instr::SubFIC => "subfic",
            Instr::AddC => "addc",
            Instr::AddCO => "addco",
            Instr::AddC_ => "addc.",
            Instr::AddCO_ => "addco.",
            Instr::SubFC => "subfc",
            Instr::SubFCO => "subfco",
            Instr::SubFC_ => "subfc.",
            Instr::SubFCO_ => "subfco.",
            Instr::AddE => "adde",
            Instr::AddEO => "addeo",
            Instr::AddE_ => "adde.",
            Instr::AddEO_ => "addeo.",
            Instr::SubFE => "subfe",
            Instr::SubFEO => "subfeo",
            Instr::SubFE_ => "subfe.",
            Instr::SubFEO_ => "subfeo.",
            Instr::AddME => "addme",
            Instr::AddMEO => "addmeo",
            Instr::AddME_ => "addme.",
            Instr::AddMEO_ => "addmeo.",
            Instr::SubFME => "subfme",
            Instr::SubFMEO => "subfmeo",
            Instr::SubFME_ => "subfme.",
            Instr::SubFMEO_ => "subfmeo.",
            Instr::AddZE => "addze",
            Instr::AddZEO => "addzeo",
            Instr::AddZE_ => "addze.",
            Instr::AddZEO_ => "addzeo.",
            Instr::SubFZE => "subfze",
            Instr::SubFZEO => "subfzeo",
            Instr::SubFZE_ => "subfze.",
            Instr::SubFZEO_ => "subfzeo.",
            Instr::AddEX => "addex",
            Instr::Neg => "neg",
            Instr::NegO => "nego",
            Instr::Neg_ => "neg.",
            Instr::NegO_ => "nego.",
            Instr::DivDE => "divde",
            Instr::DivDEO => "divdeo",
            Instr::DivDE_ => "divde.",
            Instr::DivDEO_ => "divdeo.",
            Instr::DivDEU => "divdeu",
            Instr::DivDEUO => "divdeuo",
            Instr::DivDEU_ => "divdeu.",
            Instr::DivDEUO_ => "divdeuo.",
            Instr::DivD => "divd",
            Instr::DivDO => "divdo",
            Instr::DivD_ => "divd.",
            Instr::DivDO_ => "divdo.",
            Instr::DivDU => "divdu",
            Instr::DivDUO => "divduo",
            Instr::DivDU_ => "divdu.",
            Instr::DivDUO_ => "divduo.",
            Instr::DivWE => "divwe",
            Instr::DivWEO => "divweo",
            Instr::DivWE_ => "divwe.",
            Instr::DivWEO_ => "divweo.",
            Instr::DivWEU => "divweu",
            Instr::DivWEUO => "divweuo",
            Instr::DivWEU_ => "divweu.",
            Instr::DivWEUO_ => "divweuo.",
            Instr::DivW => "divw",
            Instr::DivWO => "divwo",
            Instr::DivW_ => "divw.",
            Instr::DivWO_ => "divwo.",
            Instr::DivWU => "divwu",
            Instr::DivWUO => "divwuo",
            Instr::DivWU_ => "divwu.",
            Instr::DivWUO_ => "divwuo.",
            Instr::ModSD => "modsd",
            Instr::ModUD => "modud",
            Instr::ModSW => "modsw",
            Instr::ModUW => "moduw",
            Instr::MulLI => "mulli",
            Instr::MulLW => "mullw",
            Instr::MulLWO => "mullwo",
            Instr::MulLW_ => "mullw.",
            Instr::MulLWO_ => "mullwo.",
            Instr::MulHW => "mulhw",
            Instr::MulHW_ => "mulhw.",
            Instr::MulHWU => "mulhwu",
            Instr::MulHWU_ => "mulhwu.",
            Instr::MulLD => "mulld",
            Instr::MulLDO => "mulldo",
            Instr::MulLD_ => "mulld.",
            Instr::MulLDO_ => "mulldo.",
            Instr::MulHD => "mulhd",
            Instr::MulHD_ => "mulhd.",
            Instr::MulHDU => "mulhdu",
            Instr::MulHDU_ => "mulhdu.",
            Instr::MAddHD => "maddhd",
            Instr::MAddHDU => "maddhdu",
            Instr::MAddLD => "maddld",
            Instr::CmpDI => "cmpdi",
            Instr::CmpWI => "cmpwi",
            Instr::CmpLDI => "cmpldi",
            Instr::CmpLWI => "cmplwi",
            Instr::CmpD => "cmpd",
            Instr::CmpW => "cmpw",
            Instr::CmpLD => "cmpld",
            Instr::CmpLW => "cmplw",
            Instr::CmpRB0 => "cmprb_0",
        }
    }

    /// The operand slots the instruction reads, in the canonical order the
    /// test generator enumerates them.
    pub open spec fn spec_inputs(self) -> Seq<InstructionInputRegister> {
        match self {
            Instr::AddI => seq![InstructionInputRegister::Ra, InstructionInputRegister::ImmediateS16],
            Instr::AddIS => seq![InstructionInputRegister::Ra, InstructionInputRegister::ImmediateS16],
            Instr::Add => seq![InstructionInputRegister::Ra, InstructionInputRegister::Rb],
            Instr::AddO => seq![InstructionInputRegister::Ra, InstructionInputRegister::Rb, InstructionInputRegister::Overflow],
            Instr::Add_ => seq![InstructionInputRegister::Ra, InstructionInputRegister::Rb, InstructionInputRegister::Overflow],
            Instr::AddO_ => seq![InstructionInputRegister::Ra, InstructionInputRegister::Rb, InstructionInputRegister::Overflow],
            Instr::AddIC => seq![InstructionInputRegister::Ra, InstructionInputRegister::ImmediateS16],
            Instr::AddIC_ => seq![InstructionInputRegister::Ra, InstructionInputRegister::ImmediateS16, InstructionInputRegister::Overflow],
            Instr::SubF => seq![InstructionInputRegister::Ra, InstructionInputRegister::Rb],
            Instr::SubFO => seq![InstructionInputRegister::Ra, InstructionInputRegister::Rb, InstructionInputRegister::Overflow],
            Instr::SubF_ => seq![InstructionInputRegister::Ra, InstructionInputRegister::Rb, InstructionInputRegister::Overflow],
            Instr::SubFO_ => seq![InstructionInputRegister::Ra, InstructionInputRegister::Rb, InstructionInputRegister::Overflow],
            Instr::SubFIC => seq![InstructionInputRegister::Ra, InstructionInputRegister::ImmediateS16],
            Instr::AddC => seq![InstructionInputRegister::Ra, InstructionInputRegister::Rb],
            Instr::AddCO => seq![InstructionInputRegister::Ra, InstructionInputRegister::Rb, InstructionInputRegister::Overflow],
            Instr::AddC_ => seq![InstructionInputRegister::Ra, InstructionInputRegister::Rb, InstructionInputRegister::Overflow],
            Instr::AddCO_ => seq![InstructionInputRegister::Ra, InstructionInputRegister::Rb, InstructionInputRegister::Overflow],
            Instr::SubFC => seq![InstructionInputRegister::Ra, InstructionInputRegister::Rb],
            Instr::SubFCO => seq![InstructionInputRegister::Ra, InstructionInputRegister::Rb, InstructionInputRegister::Overflow],
            Instr::SubFC_ => seq![InstructionInputRegister::Ra, InstructionInputRegister::Rb, InstructionInputRegister::Overflow],
            Instr::SubFCO_ => seq![InstructionInputRegister::Ra, InstructionInputRegister::Rb, InstructionInputRegister::Overflow],
            Instr::AddE => seq![InstructionInputRegister::Ra, InstructionInputRegister::Rb, InstructionInputRegister::Carry],
            Instr::AddEO => seq![InstructionInputRegister::Ra, InstructionInputRegister::Rb, InstructionInputRegister::Overflow, InstructionInputRegister::Carry],
            Instr::AddE_ => seq![InstructionInputRegister::Ra, InstructionInputRegister::Rb, InstructionInputRegister::Overflow, InstructionInputRegister::Carry],
            Instr::AddEO_ => seq![InstructionInputRegister::Ra, InstructionInputRegister::Rb, InstructionInputRegister::Overflow, InstructionInputRegister::Carry],
            Instr::SubFE => seq![InstructionInputRegister::Ra, InstructionInputRegister::Rb, InstructionInputRegister::Carry],
            Instr::SubFEO => seq![InstructionInputRegister::Ra, InstructionInputRegister::Rb, InstructionInputRegister::Overflow, InstructionInputRegister::Carry],
            Instr::SubFE_ => seq![InstructionInputRegister::Ra, InstructionInputRegister::Rb, InstructionInputRegister::Overflow, InstructionInputRegister::Carry],
            Instr::SubFEO_ => seq![InstructionInputRegister::Ra, InstructionInputRegister::Rb, InstructionInputRegister::Overflow, InstructionInputRegister::Carry],
            Instr::AddME => seq![InstructionInputRegister::Ra, InstructionInputRegister::Carry],
            Instr::AddMEO => seq![InstructionInputRegister::Ra, InstructionInputRegister::Overflow, InstructionInputRegister::Carry],
            Instr::AddME_ => seq![InstructionInputRegister::Ra, InstructionInputRegister::Overflow, InstructionInputRegister::Carry],
            Instr::AddMEO_ => seq![InstructionInputRegister::Ra, InstructionInputRegister::Overflow, InstructionInputRegister::Carry],
            Instr::SubFME => seq![InstructionInputRegister::Ra, InstructionInputRegister::Carry],
            Instr::SubFMEO => seq![InstructionInputRegister::Ra, InstructionInputRegister::Overflow, InstructionInputRegister::Carry],
            Instr::SubFME_ => seq![InstructionInputRegister::Ra, InstructionInputRegister::Overflow, InstructionInputRegister::Carry],
            Instr::SubFMEO_ => seq![InstructionInputRegister::Ra, InstructionInputRegister::Overflow, InstructionInputRegister::Carry],
            Instr::AddZE => seq![InstructionInputRegister::Ra, InstructionInputRegister::Carry],
            Instr::AddZEO => seq![InstructionInputRegister::Ra, InstructionInputRegister::Overflow, InstructionInputRegister::Carry],
            Instr::AddZE_ => seq![InstructionInputRegister::Ra, InstructionInputRegister::Overflow, InstructionInputRegister::Carry],
            Instr::AddZEO_ => seq![InstructionInputRegister::Ra, InstructionInputRegister::Overflow, InstructionInputRegister::Carry],
            Instr::SubFZE => seq![InstructionInputRegister::Ra, InstructionInputRegister::Carry],
            Instr::SubFZEO => seq![InstructionInputRegister::Ra, InstructionInputRegister::Overflow, InstructionInputRegister::Carry],
            Instr::SubFZE_ => seq![InstructionInputRegister::Ra, InstructionInputRegister::Overflow, InstructionInputRegister::Carry],
            Instr::SubFZEO_ => seq![InstructionInputRegister::Ra, InstructionInputRegister::Overflow, InstructionInputRegister::Carry],
            Instr::AddEX => seq![InstructionInputRegister::Ra, InstructionInputRegister::Rb, InstructionInputRegister::Overflow],
            Instr::Neg => seq![InstructionInputRegister::Ra],
            Instr::NegO => seq![InstructionInputRegister::Ra, InstructionInputRegister::Overflow],
            Instr::Neg_ => seq![InstructionInputRegister::Ra, InstructionInputRegister::Overflow],
            Instr::NegO_ => seq![InstructionInputRegister::Ra, InstructionInputRegister::Overflow],
            Instr::DivDE => seq![InstructionInputRegister::Ra, InstructionInputRegister::Rb],
            Instr::DivDEO => seq![InstructionInputRegister::Ra, InstructionInputRegister::Rb, InstructionInputRegister::Overflow],
            Instr::DivDE_ => seq![InstructionInputRegister::Ra, InstructionInputRegister::Rb, InstructionInputRegister::Overflow],
            Instr::DivDEO_ => seq![InstructionInputRegister::Ra, InstructionInputRegister::Rb, InstructionInputRegister::Overflow],
            Instr::DivDEU => seq![InstructionInputRegister::Ra, InstructionInputRegister::Rb],
            Instr::DivDEUO => seq![InstructionInputRegister::Ra, InstructionInputRegister::Rb, InstructionInputRegister::Overflow],
            Instr::DivDEU_ => seq![InstructionInputRegister::Ra, InstructionInputRegister::Rb, InstructionInputRegister::Overflow],
            Instr::DivDEUO_ => seq![InstructionInputRegister::Ra, InstructionInputRegister::Rb, InstructionInputRegister::Overflow],
            Instr::DivD => seq![InstructionInputRegister::Ra, InstructionInputRegister::Rb],
            Instr::DivDO => seq![InstructionInputRegister::Ra, InstructionInputRegister::Rb, InstructionInputRegister::Overflow],
            Instr::DivD_ => seq![InstructionInputRegister::Ra, InstructionInputRegister::Rb, InstructionInputRegister::Overflow],
            Instr::DivDO_ => seq![InstructionInputRegister::Ra, InstructionInputRegister::Rb, InstructionInputRegister::Overflow],
            Instr::DivDU => seq![InstructionInputRegister::Ra, InstructionInputRegister::Rb],
            Instr::DivDUO => seq![InstructionInputRegister::Ra, InstructionInputRegister::Rb, InstructionInputRegister::Overflow],
            Instr::DivDU_ => seq![InstructionInputRegister::Ra, InstructionInputRegister::Rb, InstructionInputRegister::Overflow],
            Instr::DivDUO_ => seq![InstructionInputRegister::Ra, InstructionInputRegister::Rb, InstructionInputRegister::Overflow],
            Instr::DivWE => seq![InstructionInputRegister::Ra, InstructionInputRegister::Rb],
            Instr::DivWEO => seq![InstructionInputRegister::Ra, InstructionInputRegister::Rb, InstructionInputRegister::Overflow],
            Instr::DivWE_ => seq![InstructionInputRegister::Ra, InstructionInputRegister::Rb, InstructionInputRegister::Overflow],
            Instr::DivWEO_ => seq![InstructionInputRegister::Ra, InstructionInputRegister::Rb, InstructionInputRegister::Overflow],
            Instr::DivWEU => seq![InstructionInputRegister::Ra, InstructionInputRegister::Rb],
            Instr::DivWEUO => seq![InstructionInputRegister::Ra, InstructionInputRegister::Rb, InstructionInputRegister::Overflow],
            Instr::DivWEU_ => seq![InstructionInputRegister::Ra, InstructionInputRegister::Rb, InstructionInputRegister::Overflow],
            Instr::DivWEUO_ => seq![InstructionInputRegister::Ra, InstructionInputRegister::Rb, InstructionInputRegister::Overflow],
            Instr::DivW => seq![InstructionInputRegister::Ra, InstructionInputRegister::Rb],
            Instr::DivWO => seq![InstructionInputRegister::Ra, InstructionInputRegister::Rb, InstructionInputRegister::Overflow],
            Instr::DivW_ => seq![InstructionInputRegister::Ra, InstructionInputRegister::Rb, InstructionInputRegister::Overflow],
            Instr::DivWO_ => seq![InstructionInputRegister::Ra, InstructionInputRegister::Rb, InstructionInputRegister::Overflow],
            Instr::DivWU => seq![InstructionInputRegister::Ra, InstructionInputRegister::Rb],
            Instr::DivWUO => seq![InstructionInputRegister::Ra, InstructionInputRegister::Rb, InstructionInputRegister::Overflow],
            Instr::DivWU_ => seq![InstructionInputRegister::Ra, InstructionInputRegister::Rb, InstructionInputRegister::Overflow],
            Instr::DivWUO_ => seq![InstructionInputRegister::Ra, InstructionInputRegister::Rb, InstructionInputRegister::Overflow],
            Instr::ModSD => seq![InstructionInputRegister::Ra, InstructionInputRegister::Rb],
            Instr::ModUD => seq![InstructionInputRegister::Ra, InstructionInputRegister::Rb],
            Instr::ModSW => seq![InstructionInputRegister::Ra, InstructionInputRegister::Rb],
            Instr::ModUW => seq![InstructionInputRegister::Ra, InstructionInputRegister::Rb],
            Instr::MulLI => seq![InstructionInputRegister::Ra, InstructionInputRegister::ImmediateS16],
            Instr::MulLW => seq![InstructionInputRegister::Ra, InstructionInputRegister::Rb],
            Instr::MulLWO => seq![InstructionInputRegister::Ra, InstructionInputRegister::Rb, InstructionInputRegister::Overflow],
            Instr::MulLW_ => seq![InstructionInputRegister::Ra, InstructionInputRegister::Rb, InstructionInputRegister::Overflow],
            Instr::MulLWO_ => seq![InstructionInputRegister::Ra, InstructionInputRegister::Rb, InstructionInputRegister::Overflow],
            Instr::MulHW => seq![InstructionInputRegister::Ra, InstructionInputRegister::Rb],
            Instr::MulHW_ => seq![InstructionInputRegister::Ra, InstructionInputRegister::Rb, InstructionInputRegister::Overflow],
            Instr::MulHWU => seq![InstructionInputRegister::Ra, InstructionInputRegister::Rb],
            Instr::MulHWU_ => seq![InstructionInputRegister::Ra, InstructionInputRegister::Rb, InstructionInputRegister::Overflow],
            Instr::MulLD => seq![InstructionInputRegister::Ra, InstructionInputRegister::Rb],
            Instr::MulLDO => seq![InstructionInputRegister::Ra, InstructionInputRegister::Rb, InstructionInputRegister::Overflow],
            Instr::MulLD_ => seq![InstructionInputRegister::Ra, InstructionInputRegister::Rb, InstructionInputRegister::Overflow],
            Instr::MulLDO_ => seq![InstructionInputRegister::Ra, InstructionInputRegister::Rb, InstructionInputRegister::Overflow],
            Instr::MulHD => seq![InstructionInputRegister::Ra, InstructionInputRegister::Rb],
            Instr::MulHD_ => seq![InstructionInputRegister::Ra, InstructionInputRegister::Rb, InstructionInputRegister::Overflow],
            Instr::MulHDU => seq![InstructionInputRegister::Ra, InstructionInputRegister::Rb],
            Instr::MulHDU_ => seq![InstructionInputRegister::Ra, InstructionInputRegister::Rb, InstructionInputRegister::Overflow],
            Instr::MAddHD => seq![InstructionInputRegister::Ra, InstructionInputRegister::Rb, InstructionInputRegister::Rc],
            Instr::MAddHDU => seq![InstructionInputRegister::Ra, InstructionInputRegister::Rb, InstructionInputRegister::Rc],
            Instr::MAddLD => seq![InstructionInputRegister::Ra, InstructionInputRegister::Rb, InstructionInputRegister::Rc],
            Instr::CmpDI => seq![InstructionInputRegister::Ra, InstructionInputRegister::ImmediateS16, InstructionInputRegister::Overflow],
            Instr::CmpWI => seq![InstructionInputRegister::Ra, InstructionInputRegister::ImmediateS16, InstructionInputRegister::Overflow],
            Instr::CmpLDI => seq![InstructionInputRegister::Ra, InstructionInputRegister::ImmediateU16, InstructionInputRegister::Overflow],
            Instr::CmpLWI => seq![InstructionInputRegister::Ra, InstructionInputRegister::ImmediateU16, InstructionInputRegister::Overflow],
            Instr::CmpD => seq![InstructionInputRegister::Ra, InstructionInputRegister::Rb, InstructionInputRegister::Overflow],
            Instr::CmpW => seq![InstructionInputRegister::Ra, InstructionInputRegister::Rb, InstructionInputRegister::Overflow],
            Instr::CmpLD => seq![InstructionInputRegister::Ra, InstructionInputRegister::Rb, InstructionInputRegister::Overflow],
            Instr::CmpLW => seq![InstructionInputRegister::Ra, InstructionInputRegister::Rb, InstructionInputRegister::Overflow],
            Instr::CmpRB0 => seq![InstructionInputRegister::Ra, InstructionInputRegister::Rb],
        }
    }

    /// The operand slots the instruction reads, in the canonical order the
    /// test generator enumerates them.
    pub fn get_used_input_registers(self) -> (r: Vec<InstructionInputRegister>)
        ensures
            r@ == self.spec_inputs(),
    {
        match self {
            Instr::AddI => regs2(InstructionInputRegister::Ra, InstructionInputRegister::ImmediateS16),
            Instr::AddIS => regs2(InstructionInputRegister::Ra, InstructionInputRegister::ImmediateS16),
            Instr::Add => regs2(InstructionInputRegister::Ra, InstructionInputRegister::Rb),
            Instr::AddO => regs3(InstructionInputRegister::Ra, InstructionInputRegister::Rb, InstructionInputRegister::Overflow),
            Instr::Add_ => regs3(InstructionInputRegister::Ra, InstructionInputRegister::Rb, InstructionInputRegister::Overflow),
            Instr::AddO_ => regs3(InstructionInputRegister::Ra, InstructionInputRegister::Rb, InstructionInputRegister::Overflow),
            Instr::AddIC => regs2(InstructionInputRegister::Ra, InstructionInputRegister::ImmediateS16),
            Instr::AddIC_ => regs3(InstructionInputRegister::Ra, InstructionInputRegister::ImmediateS16, InstructionInputRegister::Overflow),
            Instr::SubF => regs2(InstructionInputRegister::Ra, InstructionInputRegister::Rb),
            Instr::SubFO => regs3(InstructionInputRegister::Ra, InstructionInputRegister::Rb, InstructionInputRegister::Overflow),
            Instr::SubF_ => regs3(InstructionInputRegister::Ra, InstructionInputRegister::Rb, InstructionInputRegister::Overflow),
            Instr::SubFO_ => regs3(InstructionInputRegister::Ra, InstructionInputRegister::Rb, InstructionInputRegister::Overflow),
            Instr::SubFIC => regs2(InstructionInputRegister::Ra, InstructionInputRegister::ImmediateS16),
            Instr::AddC => regs2(InstructionInputRegister::Ra, InstructionInputRegister::Rb),
            Instr::AddCO => regs3(InstructionInputRegister::Ra, InstructionInputRegister::Rb, InstructionInputRegister::Overflow),
            Instr::AddC_ => regs3(InstructionInputRegister::Ra, InstructionInputRegister::Rb, InstructionInputRegister::Overflow),
            Instr::AddCO_ => regs3(InstructionInputRegister::Ra, InstructionInputRegister::Rb, InstructionInputRegister::Overflow),
            Instr::SubFC => regs2(InstructionInputRegister::Ra, InstructionInputRegister::Rb),
            Instr::SubFCO => regs3(InstructionInputRegister::Ra, InstructionInputRegister::Rb, InstructionInputRegister::Overflow),
            Instr::SubFC_ => regs3(InstructionInputRegister::Ra, InstructionInputRegister::Rb, InstructionInputRegister::Overflow),
            Instr::SubFCO_ => regs3(InstructionInputRegister::Ra, InstructionInputRegister::Rb, InstructionInputRegister::Overflow),
            Instr::AddE => regs3(InstructionInputRegister::Ra, InstructionInputRegister::Rb, InstructionInputRegister::Carry),
            Instr::AddEO => regs4(InstructionInputRegister::Ra, InstructionInputRegister::Rb, InstructionInputRegister::Overflow, InstructionInputRegister::Carry),
            Instr::AddE_ => regs4(InstructionInputRegister::Ra, InstructionInputRegister::Rb, InstructionInputRegister::Overflow, InstructionInputRegister::Carry),
            Instr::AddEO_ => regs4(InstructionInputRegister::Ra, InstructionInputRegister::Rb, InstructionInputRegister::Overflow, InstructionInputRegister::Carry),
            Instr::SubFE => regs3(InstructionInputRegister::Ra, InstructionInputRegister::Rb, InstructionInputRegister::Carry),
            Instr::SubFEO => regs4(InstructionInputRegister::Ra, InstructionInputRegister::Rb, InstructionInputRegister::Overflow, InstructionInputRegister::Carry),
            Instr::SubFE_ => regs4(InstructionInputRegister::Ra, InstructionInputRegister::Rb, InstructionInputRegister::Overflow, InstructionInputRegister::Carry),
            Instr::SubFEO_ => regs4(InstructionInputRegister::Ra, InstructionInputRegister::Rb, InstructionInputRegister::Overflow, InstructionInputRegister::Carry),
            Instr::AddME => regs2(InstructionInputRegister::Ra, InstructionInputRegister::Carry),
            Instr::AddMEO => regs3(InstructionInputRegister::Ra, InstructionInputRegister::Overflow, InstructionInputRegister::Carry),
            Instr::AddME_ => regs3(InstructionInputRegister::Ra, InstructionInputRegister::Overflow, InstructionInputRegister::Carry),
            Instr::AddMEO_ => regs3(InstructionInputRegister::Ra, InstructionInputRegister::Overflow, InstructionInputRegister::Carry),
            Instr::SubFME => regs2(InstructionInputRegister::Ra, InstructionInputRegister::Carry),
            Instr::SubFMEO => regs3(InstructionInputRegister::Ra, InstructionInputRegister::Overflow, InstructionInputRegister::Carry),
            Instr::SubFME_ => regs3(InstructionInputRegister::Ra, InstructionInputRegister::Overflow, InstructionInputRegister::Carry),
            Instr::SubFMEO_ => regs3(InstructionInputRegister::Ra, InstructionInputRegister::Overflow, InstructionInputRegister::Carry),
            Instr::AddZE => regs2(InstructionInputRegister::Ra, InstructionInputRegister::Carry),
            Instr::AddZEO => regs3(InstructionInputRegister::Ra, InstructionInputRegister::Overflow, InstructionInputRegister::Carry),
            Instr::AddZE_ => regs3(InstructionInputRegister::Ra, InstructionInputRegister::Overflow, InstructionInputRegister::Carry),
            Instr::AddZEO_ => regs3(InstructionInputRegister::Ra, InstructionInputRegister::Overflow, InstructionInputRegister::Carry),
            Instr::SubFZE => regs2(InstructionInputRegister::Ra, InstructionInputRegister::Carry),
            Instr::SubFZEO => regs3(InstructionInputRegister::Ra, InstructionInputRegister::Overflow, InstructionInputRegister::Carry),
            Instr::SubFZE_ => regs3(InstructionInputRegister::Ra, InstructionInputRegister::Overflow, InstructionInputRegister::Carry),
            Instr::SubFZEO_ => regs3(InstructionInputRegister::Ra, InstructionInputRegister::Overflow, InstructionInputRegister::Carry),
            Instr::AddEX => regs3(InstructionInputRegister::Ra, InstructionInputRegister::Rb, InstructionInputRegister::Overflow),
            Instr::Neg => regs1(InstructionInputRegister::Ra),
            Instr::NegO => regs2(InstructionInputRegister::Ra, InstructionInputRegister::Overflow),
            Instr::Neg_ => regs2(InstructionInputRegister::Ra, InstructionInputRegister::Overflow),
            Instr::NegO_ => regs2(InstructionInputRegister::Ra, InstructionInputRegister::Overflow),
            Instr::DivDE => regs2(InstructionInputRegister::Ra, InstructionInputRegister::Rb),
            Instr::DivDEO => regs3(InstructionInputRegister::Ra, InstructionInputRegister::Rb, InstructionInputRegister::Overflow),
            Instr::DivDE_ => regs3(InstructionInputRegister::Ra, InstructionInputRegister::Rb, InstructionInputRegister::Overflow),
            Instr::DivDEO_ => regs3(InstructionInputRegister::Ra, InstructionInputRegister::Rb, InstructionInputRegister::Overflow),
            Instr::DivDEU => regs2(InstructionInputRegister::Ra, InstructionInputRegister::Rb),
            Instr::DivDEUO => regs3(InstructionInputRegister::Ra, InstructionInputRegister::Rb, InstructionInputRegister::Overflow),
            Instr::DivDEU_ => regs3(InstructionInputRegister::Ra, InstructionInputRegister::Rb, InstructionInputRegister::Overflow),
            Instr::DivDEUO_ => regs3(InstructionInputRegister::Ra, InstructionInputRegister::Rb, InstructionInputRegister::Overflow),
            Instr::DivD => regs2(InstructionInputRegister::Ra, InstructionInputRegister::Rb),
            Instr::DivDO => regs3(InstructionInputRegister::Ra, InstructionInputRegister::Rb, InstructionInputRegister::Overflow),
            Instr::DivD_ => regs3(InstructionInputRegister::Ra, InstructionInputRegister::Rb, InstructionInputRegister::Overflow),
            Instr::DivDO_ => regs3(InstructionInputRegister::Ra, InstructionInputRegister::Rb, InstructionInputRegister::Overflow),
            Instr::DivDU => regs2(InstructionInputRegister::Ra, InstructionInputRegister::Rb),
            Instr::DivDUO => regs3(InstructionInputRegister::Ra, InstructionInputRegister::Rb, InstructionInputRegister::Overflow),
            Instr::DivDU_ => regs3(InstructionInputRegister::Ra, InstructionInputRegister::Rb, InstructionInputRegister::Overflow),
            Instr::DivDUO_ => regs3(InstructionInputRegister::Ra, InstructionInputRegister::Rb, InstructionInputRegister::Overflow),
            Instr::DivWE => regs2(InstructionInputRegister::Ra, InstructionInputRegister::Rb),
            Instr::DivWEO => regs3(InstructionInputRegister::Ra, InstructionInputRegister::Rb, InstructionInputRegister::Overflow),
            Instr::DivWE_ => regs3(InstructionInputRegister::Ra, InstructionInputRegister::Rb, InstructionInputRegister::Overflow),
            Instr::DivWEO_ => regs3(InstructionInputRegister::Ra, InstructionInputRegister::Rb, InstructionInputRegister::Overflow),
            Instr::DivWEU => regs2(InstructionInputRegister::Ra, InstructionInputRegister::Rb),
            Instr::DivWEUO => regs3(InstructionInputRegister::Ra, InstructionInputRegister::Rb, InstructionInputRegister::Overflow),
            Instr::DivWEU_ => regs3(InstructionInputRegister::Ra, InstructionInputRegister::Rb, InstructionInputRegister::Overflow),
            Instr::DivWEUO_ => regs3(InstructionInputRegister::Ra, InstructionInputRegister::Rb, InstructionInputRegister::Overflow),
            Instr::DivW => regs2(InstructionInputRegister::Ra, InstructionInputRegister::Rb),
            Instr::DivWO => regs3(InstructionInputRegister::Ra, InstructionInputRegister::Rb, InstructionInputRegister::Overflow),
            Instr::DivW_ => regs3(InstructionInputRegister::Ra, InstructionInputRegister::Rb, InstructionInputRegister::Overflow),
            Instr::DivWO_ => regs3(InstructionInputRegister::Ra, InstructionInputRegister::Rb, InstructionInputRegister::Overflow),
            Instr::DivWU => regs2(InstructionInputRegister::Ra, InstructionInputRegister::Rb),
            Instr::DivWUO => regs3(InstructionInputRegister::Ra, InstructionInputRegister::Rb, InstructionInputRegister::Overflow),
            Instr::DivWU_ => regs3(InstructionInputRegister::Ra, InstructionInputRegister::Rb, InstructionInputRegister::Overflow),
            Instr::DivWUO_ => regs3(InstructionInputRegister::Ra, InstructionInputRegister::Rb, InstructionInputRegister::Overflow),
            Instr::ModSD => regs2(InstructionInputRegister::Ra, InstructionInputRegister::Rb),
            Instr::ModUD => regs2(InstructionInputRegister::Ra, InstructionInputRegister::Rb),
            Instr::ModSW => regs2(InstructionInputRegister::Ra, InstructionInputRegister::Rb),
            Instr::ModUW => regs2(InstructionInputRegister::Ra, InstructionInputRegister::Rb),
            Instr::MulLI => regs2(InstructionInputRegister::Ra, InstructionInputRegister::ImmediateS16),
            Instr::MulLW => regs2(InstructionInputRegister::Ra, InstructionInputRegister::Rb),
            Instr::MulLWO => regs3(InstructionInputRegister::Ra, InstructionInputRegister::Rb, InstructionInputRegister::Overflow),
            Instr::MulLW_ => regs3(InstructionInputRegister::Ra, InstructionInputRegister::Rb, InstructionInputRegister::Overflow),
            Instr::MulLWO_ => regs3(InstructionInputRegister::Ra, InstructionInputRegister::Rb, InstructionInputRegister::Overflow),
            Instr::MulHW => regs2(InstructionInputRegister::Ra, InstructionInputRegister::Rb),
            Instr::MulHW_ => regs3(InstructionInputRegister::Ra, InstructionInputRegister::Rb, InstructionInputRegister::Overflow),
            Instr::MulHWU => regs2(InstructionInputRegister::Ra, InstructionInputRegister::Rb),
            Instr::MulHWU_ => regs3(InstructionInputRegister::Ra, InstructionInputRegister::Rb, InstructionInputRegister::Overflow),
            Instr::MulLD => regs2(InstructionInputRegister::Ra, InstructionInputRegister::Rb),
            Instr::MulLDO => regs3(InstructionInputRegister::Ra, InstructionInputRegister::Rb, InstructionInputRegister::Overflow),
            Instr::MulLD_ => regs3(InstructionInputRegister::Ra, InstructionInputRegister::Rb, InstructionInputRegister::Overflow),
            Instr::MulLDO_ => regs3(InstructionInputRegister::Ra, InstructionInputRegister::Rb, InstructionInputRegister::Overflow),
            Instr::MulHD => regs2(InstructionInputRegister::Ra, InstructionInputRegister::Rb),
            Instr::MulHD_ => regs3(InstructionInputRegister::Ra, InstructionInputRegister::Rb, InstructionInputRegister::Overflow),
            Instr::MulHDU => regs2(InstructionInputRegister::Ra, InstructionInputRegister::Rb),
            Instr::MulHDU_ => regs3(InstructionInputRegister::Ra, InstructionInputRegister::Rb, InstructionInputRegister::Overflow),
            Instr::MAddHD => regs3(InstructionInputRegister::Ra, InstructionInputRegister::Rb, InstructionInputRegister::Rc),
            Instr::MAddHDU => regs3(InstructionInputRegister::Ra, InstructionInputRegister::Rb, InstructionInputRegister::Rc),
            Instr::MAddLD => regs3(InstructionInputRegister::Ra, InstructionInputRegister::Rb, InstructionInputRegister::Rc),
            Instr::CmpDI => regs3(InstructionInputRegister::Ra, InstructionInputRegister::ImmediateS16, InstructionInputRegister::Overflow),
            Instr::CmpWI => regs3(InstructionInputRegister::Ra, InstructionInputRegister::ImmediateS16, InstructionInputRegister::Overflow),
            Instr::CmpLDI => regs3(InstructionInputRegister::Ra, InstructionInputRegister::ImmediateU16, InstructionInputRegister::Overflow),
            Instr::CmpLWI => regs3(InstructionInputRegister::Ra, InstructionInputRegister::ImmediateU16, InstructionInputRegister::Overflow),
            Instr::CmpD => regs3(InstructionInputRegister::Ra, InstructionInputRegister::Rb, InstructionInputRegister::Overflow),
            Instr::CmpW => regs3(InstructionInputRegister::Ra, InstructionInputRegister::Rb, InstructionInputRegister::Overflow),
            Instr::CmpLD => regs3(InstructionInputRegister::Ra, InstructionInputRegister::Rb, InstructionInputRegister::Overflow),
            Instr::CmpLW => regs3(InstructionInputRegister::Ra, InstructionInputRegister::Rb, InstructionInputRegister::Overflow),
            Instr::CmpRB0 => regs2(InstructionInputRegister::Ra, InstructionInputRegister::Rb),
        }
    }

    /// What the instruction's model function returns on the given inputs.
    pub open spec fn spec_model(self, inputs: InstructionInput) -> InstructionResult {
        match self {
            Instr::AddI => crate::model_add::spec_addi(inputs),
            Instr::AddIS => crate::model_add::spec_addis(inputs),
            Instr::Add => crate::model_add::spec_add(inputs),
            Instr::AddO => crate::model_add::spec_addo(inputs),
            Instr::Add_ => crate::model_add::spec_add_(inputs),
            Instr::AddO_ => crate::model_add::spec_addo_(inputs),
            Instr::AddIC => crate::model_add::spec_addic(inputs),
            Instr::AddIC_ => crate::model_add::spec_addic_(inputs),
            Instr::SubF => crate::model_add::spec_subf(inputs),
            Instr::SubFO => crate::model_add::spec_subfo(inputs),
            Instr::SubF_ => crate::model_add::spec_subf_(inputs),
            Instr::SubFO_ => crate::model_add::spec_subfo_(inputs),
            Instr::SubFIC => crate::model_add::spec_subfic(inputs),
            Instr::AddC => crate::model_add::spec_addc(inputs),
            Instr::AddCO => crate::model_add::spec_addco(inputs),
            Instr::AddC_ => crate::model_add::spec_addc_(inputs),
            Instr::AddCO_ => crate::model_add::spec_addco_(inputs),
            Instr::SubFC => crate::model_add::spec_subfc(inputs),
            Instr::SubFCO => crate::model_add::spec_subfco(inputs),
            Instr::SubFC_ => crate::model_add::spec_subfc_(inputs),
            Instr::SubFCO_ => crate::model_add::spec_subfco_(inputs),
            Instr::AddE => crate::model_add::spec_adde(inputs),
            Instr::AddEO => crate::model_add::spec_addeo(inputs),
            Instr::AddE_ => crate::model_add::spec_adde_(inputs),
            Instr::AddEO_ => crate::model_add::spec_addeo_(inputs),
            Instr::SubFE => crate::model_add::spec_subfe(inputs),
            Instr::SubFEO => crate::model_add::spec_subfeo(inputs),
            Instr::SubFE_ => crate::model_add::spec_subfe_(inputs),
            Instr::SubFEO_ => crate::model_add::spec_subfeo_(inputs),
            Instr::AddME => crate::model_add::spec_addme(inputs),
            Instr::AddMEO => crate::model_add::spec_addmeo(inputs),
            Instr::AddME_ => crate::model_add::spec_addme_(inputs),
            Instr::AddMEO_ => crate::model_add::spec_addmeo_(inputs),
            Instr::SubFME => crate::model_add::spec_subfme(inputs),
            Instr::SubFMEO => crate::model_add::spec_subfmeo(inputs),
            Instr::SubFME_ => crate::model_add::spec_subfme_(inputs),
            Instr::SubFMEO_ => crate::model_add::spec_subfmeo_(inputs),
            Instr::AddZE => crate::model_add::spec_addze(inputs),
            Instr::AddZEO => crate::model_add::spec_addzeo(inputs),
            Instr::AddZE_ => crate::model_add::spec_addze_(inputs),
            Instr::AddZEO_ => crate::model_add::spec_addzeo_(inputs),
            Instr::SubFZE => crate::model_add::spec_subfze(inputs),
            Instr::SubFZEO => crate::model_add::spec_subfzeo(inputs),
            Instr::SubFZE_ => crate::model_add::spec_subfze_(inputs),
            Instr::SubFZEO_ => crate::model_add::spec_subfzeo_(inputs),
            Instr::AddEX => crate::model_add::spec_addex(inputs),
            Instr::Neg => crate::model_add::spec_neg(inputs),
            Instr::NegO => crate::model_add::spec_nego(inputs),
            Instr::Neg_ => crate::model_add::spec_neg_(inputs),
            Instr::NegO_ => crate::model_add::spec_nego_(inputs),
            Instr::DivDE => crate::model_div::spec_divde(inputs),
            Instr::DivDEO => crate::model_div::spec_divdeo(inputs),
            Instr::DivDE_ => crate::model_div::spec_divde_(inputs),
            Instr::DivDEO_ => crate::model_div::spec_divdeo_(inputs),
            Instr::DivDEU => crate::model_div::spec_divdeu(inputs),
            Instr::DivDEUO => crate::model_div::spec_divdeuo(inputs),
            Instr::DivDEU_ => crate::model_div::spec_divdeu_(inputs),
            Instr::DivDEUO_ => crate::model_div::spec_divdeuo_(inputs),
            Instr::DivD => crate::model_div::spec_divd(inputs),
            Instr::DivDO => crate::model_div::spec_divdo(inputs),
            Instr::DivD_ => crate::model_div::spec_divd_(inputs),
            Instr::DivDO_ => crate::model_div::spec_divdo_(inputs),
            Instr::DivDU => crate::model_div::spec_divdu(inputs),
            Instr::DivDUO => crate::model_div::spec_divduo(inputs),
            Instr::DivDU_ => crate::model_div::spec_divdu_(inputs),
            Instr::DivDUO_ => crate::model_div::spec_divduo_(inputs),
            Instr::DivWE => crate::model_div::spec_divwe(inputs),
            Instr::DivWEO => crate::model_div::spec_divweo(inputs),
            Instr::DivWE_ => crate::model_div::spec_divwe_(inputs),
            Instr::DivWEO_ => crate::model_div::spec_divweo_(inputs),
            Instr::DivWEU => crate::model_div::spec_divweu(inputs),
            Instr::DivWEUO => crate::model_div::spec_divweuo(inputs),
            Instr::DivWEU_ => crate::model_div::spec_divweu_(inputs),
            Instr::DivWEUO_ => crate::model_div::spec_divweuo_(inputs),
            Instr::DivW => crate::model_div::spec_divw(inputs),
            Instr::DivWO => crate::model_div::spec_divwo(inputs),
            Instr::DivW_ => crate::model_div::spec_divw_(inputs),
            Instr::DivWO_ => crate::model_div::spec_divwo_(inputs),
            Instr::DivWU => crate::model_div::spec_divwu(inputs),
            Instr::DivWUO => crate::model_div::spec_divwuo(inputs),
            Instr::DivWU_ => crate::model_div::spec_divwu_(inputs),
            Instr::DivWUO_ => crate::model_div::spec_divwuo_(inputs),
            Instr::ModSD => crate::model_div::spec_modsd(inputs),
            Instr::ModUD => crate::model_div::spec_modud(inputs),
            Instr::ModSW => crate::model_div::spec_modsw(inputs),
            Instr::ModUW => crate::model_div::spec_moduw(inputs),
            Instr::MulLI => crate::model_mul::spec_mulli(inputs),
            Instr::MulLW => crate::model_mul::spec_mullw(inputs),
            Instr::MulLWO => crate::model_mul::spec_mullwo(inputs),
            Instr::MulLW_ => crate::model_mul::spec_mullw_(inputs),
            Instr::MulLWO_ => crate::model_mul::spec_mullwo_(inputs),
            Instr::MulHW => crate::model_mul::spec_mulhw(inputs),
            Instr::MulHW_ => crate::model_mul::spec_mulhw_(inputs),
            Instr::MulHWU => crate::model_mul::spec_mulhwu(inputs),
            Instr::MulHWU_ => crate::model_mul::spec_mulhwu_(inputs),
            Instr::MulLD => crate::model_mul::spec_mulld(inputs),
            Instr::MulLDO => crate::model_mul::spec_mulldo(inputs),
            Instr::MulLD_ => crate::model_mul::spec_mulld_(inputs),
            Instr::MulLDO_ => crate::model_mul::spec_mulldo_(inputs),
            Instr::MulHD => crate::model_mul::spec_mulhd(inputs),
            Instr::MulHD_ => crate::model_mul::spec_mulhd_(inputs),
            Instr::MulHDU => crate::model_mul::spec_mulhdu(inputs),
            Instr::MulHDU_ => crate::model_mul::spec_mulhdu_(inputs),
            Instr::MAddHD => crate::model_mul::spec_maddhd(inputs),
            Instr::MAddHDU => crate::model_mul::spec_maddhdu(inputs),
            Instr::MAddLD => crate::model_mul::spec_maddld(inputs),
            Instr::CmpDI => crate::model_cmp::spec_cmpdi(inputs),
            Instr::CmpWI => crate::model_cmp::spec_cmpwi(inputs),
            Instr::CmpLDI => crate::model_cmp::spec_cmpldi(inputs),
            Instr::CmpLWI => crate::model_cmp::spec_cmplwi(inputs),
            Instr::CmpD => crate::model_cmp::spec_cmpd(inputs),
            Instr::CmpW => crate::model_cmp::spec_cmpw(inputs),
            Instr::CmpLD => crate::model_cmp::spec_cmpld(inputs),
            Instr::CmpLW => crate::model_cmp::spec_cmplw(inputs),
            Instr::CmpRB0 => crate::model_cmp::spec_cmprb_0(inputs),
        }
    }

    /// Runs the instruction's model function on the given inputs.
    pub fn model(self, inputs: InstructionInput) -> (r: InstructionResult)
        ensures
            r == self.spec_model(inputs),
    {
        match self {
            Instr::AddI => crate::model_add::addi(inputs),
            Instr::AddIS => crate::model_add::addis(inputs),
            Instr::Add => crate::model_add::add(inputs),
            Instr::AddO => crate::model_add::addo(inputs),
            Instr::Add_ => crate::model_add::add_(inputs),
            Instr::AddO_ => crate::model_add::addo_(inputs),
            Instr::AddIC => crate::model_add::addic(inputs),
            Instr::AddIC_ => crate::model_add::addic_(inputs),
            Instr::SubF => crate::model_add::subf(inputs),
            Instr::SubFO => crate::model_add::subfo(inputs),
            Instr::SubF_ => crate::model_add::subf_(inputs),
            Instr::SubFO_ => crate::model_add::subfo_(inputs),
            Instr::SubFIC => crate::model_add::subfic(inputs),
            Instr::AddC => crate::model_add::addc(inputs),
            Instr::AddCO => crate::model_add::addco(inputs),
            Instr::AddC_ => crate::model_add::addc_(inputs),
            Instr::AddCO_ => crate::model_add::addco_(inputs),
            Instr::SubFC => crate::model_add::subfc(inputs),
            Instr::SubFCO => crate::model_add::subfco(inputs),
            Instr::SubFC_ => crate::model_add::subfc_(inputs),
            Instr::SubFCO_ => crate::model_add::subfco_(inputs),
            Instr::AddE => crate::model_add::adde(inputs),
            Instr::AddEO => crate::model_add::addeo(inputs),
            Instr::AddE_ => crate::model_add::adde_(inputs),
            Instr::AddEO_ => crate::model_add::addeo_(inputs),
            Instr::SubFE => crate::model_add::subfe(inputs),
            Instr::SubFEO => crate::model_add::subfeo(inputs),
            Instr::SubFE_ => crate::model_add::subfe_(inputs),
            Instr::SubFEO_ => crate::model_add::subfeo_(inputs),
            Instr::AddME => crate::model_add::addme(inputs),
            Instr::AddMEO => crate::model_add::addmeo(inputs),
            Instr::AddME_ => crate::model_add::addme_(inputs),
            Instr::AddMEO_ => crate::model_add::addmeo_(inputs),
            Instr::SubFME => crate::model_add::subfme(inputs),
            Instr::SubFMEO => crate::model_add::subfmeo(inputs),
            Instr::SubFME_ => crate::model_add::subfme_(inputs),
            Instr::SubFMEO_ => crate::model_add::subfmeo_(inputs),
            Instr::AddZE => crate::model_add::addze(inputs),
            Instr::AddZEO => crate::model_add::addzeo(inputs),
            Instr::AddZE_ => crate::model_add::addze_(inputs),
            Instr::AddZEO_ => crate::model_add::addzeo_(inputs),
            Instr::SubFZE => crate::model_add::subfze(inputs),
            Instr::SubFZEO => crate::model_add::subfzeo(inputs),
            Instr::SubFZE_ => crate::model_add::subfze_(inputs),
            Instr::SubFZEO_ => crate::model_add::subfzeo_(inputs),
            Instr::AddEX => crate::model_add::addex(inputs),
            Instr::Neg => crate::model_add::neg(inputs),
            Instr::NegO => crate::model_add::nego(inputs),
            Instr::Neg_ => crate::model_add::neg_(inputs),
            Instr::NegO_ => crate::model_add::nego_(inputs),
            Instr::DivDE => crate::model_div::divde(inputs),
            Instr::DivDEO => crate::model_div::divdeo(inputs),
            Instr::DivDE_ => crate::model_div::divde_(inputs),
            Instr::DivDEO_ => crate::model_div::divdeo_(inputs),
            Instr::DivDEU => crate::model_div::divdeu(inputs),
            Instr::DivDEUO => crate::model_div::divdeuo(inputs),
            Instr::DivDEU_ => crate::model_div::divdeu_(inputs),
            Instr::DivDEUO_ => crate::model_div::divdeuo_(inputs),
            Instr::DivD => crate::model_div::divd(inputs),
            Instr::DivDO => crate::model_div::divdo(inputs),
            Instr::DivD_ => crate::model_div::divd_(inputs),
            Instr::DivDO_ => crate::model_div::divdo_(inputs),
            Instr::DivDU => crate::model_div::divdu(inputs),
            Instr::DivDUO => crate::model_div::divduo(inputs),
            Instr::DivDU_ => crate::model_div::divdu_(inputs),
            Instr::DivDUO_ => crate::model_div::divduo_(inputs),
            Instr::DivWE => crate::model_div::divwe(inputs),
            Instr::DivWEO => crate::model_div::divweo(inputs),
            Instr::DivWE_ => crate::model_div::divwe_(inputs),
            Instr::DivWEO_ => crate::model_div::divweo_(inputs),
            Instr::DivWEU => crate::model_div::divweu(inputs),
            Instr::DivWEUO => crate::model_div::divweuo(inputs),
            Instr::DivWEU_ => crate::model_div::divweu_(inputs),
            Instr::DivWEUO_ => crate::model_div::divweuo_(inputs),
            Instr::DivW => crate::model_div::divw(inputs),
            Instr::DivWO => crate::model_div::divwo(inputs),
            Instr::DivW_ => crate::model_div::divw_(inputs),
            Instr::DivWO_ => crate::model_div::divwo_(inputs),
            Instr::DivWU => crate::model_div::divwu(inputs),
            Instr::DivWUO => crate::model_div::divwuo(inputs),
            Instr::DivWU_ => crate::model_div::divwu_(inputs),
            Instr::DivWUO_ => crate::model_div::divwuo_(inputs),
            Instr::ModSD => crate::model_div::modsd(inputs),
            Instr::ModUD => crate::model_div::modud(inputs),
            Instr::ModSW => crate::model_div::modsw(inputs),
            Instr::ModUW => crate::model_div::moduw(inputs),
            Instr::MulLI => crate::model_mul::mulli(inputs),
            Instr::MulLW => crate::model_mul::mullw(inputs),
            Instr::MulLWO => crate::model_mul::mullwo(inputs),
            Instr::MulLW_ => crate::model_mul::mullw_(inputs),
            Instr::MulLWO_ => crate::model_mul::mullwo_(inputs),
            Instr::MulHW => crate::model_mul::mulhw(inputs),
            Instr::MulHW_ => crate::model_mul::mulhw_(inputs),
            Instr::MulHWU => crate::model_mul::mulhwu(inputs),
            Instr::MulHWU_ => crate::model_mul::mulhwu_(inputs),
            Instr::MulLD => crate::model_mul::mulld(inputs),
            Instr::MulLDO => crate::model_mul::mulldo(inputs),
            Instr::MulLD_ => crate::model_mul::mulld_(inputs),
            Instr::MulLDO_ => crate::model_mul::mulldo_(inputs),
            Instr::MulHD => crate::model_mul::mulhd(inputs),
            Instr::MulHD_ => crate::model_mul::mulhd_(inputs),
            Instr::MulHDU => crate::model_mul::mulhdu(inputs),
            Instr::MulHDU_ => crate::model_mul::mulhdu_(inputs),
            Instr::MAddHD => crate::model_mul::maddhd(inputs),
            Instr::MAddHDU => crate::model_mul::maddhdu(inputs),
            Instr::MAddLD => crate::model_mul::maddld(inputs),
            Instr::CmpDI => crate::model_cmp::cmpdi(inputs),
            Instr::CmpWI => crate::model_cmp::cmpwi(inputs),
            Instr::CmpLDI => crate::model_cmp::cmpldi(inputs),
            Instr::CmpLWI => crate::model_cmp::cmplwi(inputs),
            Instr::CmpD => crate::model_cmp::cmpd(inputs),
            Instr::CmpW => crate::model_cmp::cmpw(inputs),
            Instr::CmpLD => crate::model_cmp::cmpld(inputs),
            Instr::CmpLW => crate::model_cmp::cmplw(inputs),
            Instr::CmpRB0 => crate::model_cmp::cmprb_0(inputs),
        }
    }
}

pub open spec fn values_add_seq() -> Seq<Instr> {
    seq![
        Instr::AddI,
        Instr::AddIS,
        Instr::Add,
        Instr::AddO,
        Instr::Add_,
        Instr::AddO_,
        Instr::AddIC,
        Instr::AddIC_,
        Instr::SubF,
        Instr::SubFO,
        Instr::SubF_,
        Instr::SubFO_,
        Instr::SubFIC,
        Instr::AddC,
        Instr::AddCO,
        Instr::AddC_,
        Instr::AddCO_,
        Instr::SubFC,
        Instr::SubFCO,
        Instr::SubFC_,
        Instr::SubFCO_,
    ]
}

fn values_add() -> (r: Vec<Instr>)
    ensures
        r@ == values_add_seq(),
{
    let mut v: Vec<Instr> = Vec::new();
    v.push(Instr::AddI);
    v.push(Instr::AddIS);
    v.push(Instr::Add);
    v.push(Instr::AddO);
    v.push(Instr::Add_);
    v.push(Instr::AddO_);
    v.push(Instr::AddIC);
    v.push(Instr::AddIC_);
    v.push(Instr::SubF);
    v.push(Instr::SubFO);
    v.push(Instr::SubF_);
    v.push(Instr::SubFO_);
    v.push(Instr::SubFIC);
    v.push(Instr::AddC);
    v.push(Instr::AddCO);
    v.push(Instr::AddC_);
    v.push(Instr::AddCO_);
    v.push(Instr::SubFC);
    v.push(Instr::SubFCO);
    v.push(Instr::SubFC_);
    v.push(Instr::SubFCO_);
    proof {
        assert(v@ =~= values_add_seq());
    }
    v
}

pub open spec fn values_extended_add_seq() -> Seq<Instr> {
    seq![
        Instr::AddE,
        Instr::AddEO,
        Instr::AddE_,
        Instr::AddEO_,
        Instr::SubFE,
        Instr::SubFEO,
        Instr::SubFE_,
        Instr::SubFEO_,
        Instr::AddME,
        Instr::AddMEO,
        Instr::AddME_,
        Instr::AddMEO_,
        Instr::SubFME,
        Instr::SubFMEO,
        Instr::SubFME_,
        Instr::SubFMEO_,
    ]
}

fn values_extended_add() -> (r: Vec<Instr>)
    ensures
        r@ == values_extended_add_seq(),
{
    let mut v: Vec<Instr> = Vec::new();
    v.push(Instr::AddE);
    v.push(Instr::AddEO);
    v.push(Instr::AddE_);
    v.push(Instr::AddEO_);
    v.push(Instr::SubFE);
    v.push(Instr::SubFEO);
    v.push(Instr::SubFE_);
    v.push(Instr::SubFEO_);
    v.push(Instr::AddME);
    v.push(Instr::AddMEO);
    v.push(Instr::AddME_);
    v.push(Instr::AddMEO_);
    v.push(Instr::SubFME);
    v.push(Instr::SubFMEO);
    v.push(Instr::SubFME_);
    v.push(Instr::SubFMEO_);
    proof {
        assert(v@ =~= values_extended_add_seq());
    }
    v
}

pub open spec fn values_zero_extended_add_seq() -> Seq<Instr> {
    seq![
        Instr::AddZE,
        Instr::AddZEO,
        Instr::AddZE_,
        Instr::AddZEO_,
        Instr::SubFZE,
        Instr::SubFZEO,
        Instr::SubFZE_,
        Instr::SubFZEO_,
        Instr::AddEX,
        Instr::Neg,
        Instr::NegO,
        Instr::Neg_,
        Instr::NegO_,
    ]
}

fn values_zero_extended_add() -> (r: Vec<Instr>)
    ensures
        r@ == values_zero_extended_add_seq(),
{
    let mut v: Vec<Instr> = Vec::new();
    v.push(Instr::AddZE);
    v.push(Instr::AddZEO);
    v.push(Instr::AddZE_);
    v.push(Instr::AddZEO_);
    v.push(Instr::SubFZE);
    v.push(Instr::SubFZEO);
    v.push(Instr::SubFZE_);
    v.push(Instr::SubFZEO_);
    v.push(Instr::AddEX);
    v.push(Instr::Neg);
    v.push(Instr::NegO);
    v.push(Instr::Neg_);
    v.push(Instr::NegO_);
    proof {
        assert(v@ =~= values_zero_extended_add_seq());
    }
    v
}

pub open spec fn values_divide_doubleword_seq() -> Seq<Instr> {
    seq![
        Instr::DivDE,
        Instr::DivDEO,
        Instr::DivDE_,
        Instr::DivDEO_,
        Instr::DivDEU,
        Instr::DivDEUO,
        Instr::DivDEU_,
        Instr::DivDEUO_,
        Instr::DivD,
        Instr::DivDO,
        Instr::DivD_,
        Instr::DivDO_,
        Instr::DivDU,
        Instr::DivDUO,
        Instr::DivDU_,
        Instr::DivDUO_,
    ]
}

fn values_divide_doubleword() -> (r: Vec<Instr>)
    ensures
        r@ == values_divide_doubleword_seq(),
{
    let mut v: Vec<Instr> = Vec::new();
    v.push(Instr::DivDE);
    v.push(Instr::DivDEO);
    v.push(Instr::DivDE_);
    v.push(Instr::DivDEO_);
    v.push(Instr::DivDEU);
    v.push(Instr::DivDEUO);
    v.push(Instr::DivDEU_);
    v.push(Instr::DivDEUO_);
    v.push(Instr::DivD);
    v.push(Instr::DivDO);
    v.push(Instr::DivD_);
    v.push(Instr::DivDO_);
    v.push(Instr::DivDU);
    v.push(Instr::DivDUO);
    v.push(Instr::DivDU_);
    v.push(Instr::DivDUO_);
    proof {
        assert(v@ =~= values_divide_doubleword_seq());
    }
    v
}

pub open spec fn values_divide_word_seq() -> Seq<Instr> {
    seq![
        Instr::DivWE,
        Instr::DivWEO,
        Instr::DivWE_,
        Instr::DivWEO_,
        Instr::DivWEU,
        Instr::DivWEUO,
        Instr::DivWEU_,
        Instr::DivWEUO_,
        Instr::DivW,
        Instr::DivWO,
        Instr::DivW_,
        Instr::DivWO_,
        Instr::DivWU,
        Instr::DivWUO,
        Instr::DivWU_,
        Instr::DivWUO_,
    ]
}

fn values_divide_word() -> (r: Vec<Instr>)
    ensures
        r@ == values_divide_word_seq(),
{
    let mut v: Vec<Instr> = Vec::new();
    v.push(Instr::DivWE);
    v.push(Instr::DivWEO);
    v.push(Instr::DivWE_);
    v.push(Instr::DivWEO_);
    v.push(Instr::DivWEU);
    v.push(Instr::DivWEUO);
    v.push(Instr::DivWEU_);
    v.push(Instr::DivWEUO_);
    v.push(Instr::DivW);
    v.push(Instr::DivWO);
    v.push(Instr::DivW_);
    v.push(Instr::DivWO_);
    v.push(Instr::DivWU);
    v.push(Instr::DivWUO);
    v.push(Instr::DivWU_);
    v.push(Instr::DivWUO_);
    proof {
        assert(v@ =~= values_divide_word_seq());
    }
    v
}

pub open spec fn values_modulo_multiply_seq() -> Seq<Instr> {
    seq![
        Instr::ModSD,
        Instr::ModUD,
        Instr::ModSW,
        Instr::ModUW,
        Instr::MulLI,
        Instr::MulLW,
        Instr::MulLWO,
        Instr::MulLW_,
        Instr::MulLWO_,
        Instr::MulHW,
        Instr::MulHW_,
        Instr::MulHWU,
        Instr::MulHWU_,
        Instr::MulLD,
        Instr::MulLDO,
        Instr::MulLD_,
        Instr::MulLDO_,
        Instr::MulHD,
        Instr::MulHD_,
        Instr::MulHDU,
        Instr::MulHDU_,
        Instr::MAddHD,
        Instr::MAddHDU,
        Instr::MAddLD,
    ]
}

fn values_modulo_multiply() -> (r: Vec<Instr>)
    ensures
        r@ == values_modulo_multiply_seq(),
{
    let mut v: Vec<Instr> = Vec::new();
    v.push(Instr::ModSD);
    v.push(Instr::ModUD);
    v.push(Instr::ModSW);
    v.push(Instr::ModUW);
    v.push(Instr::MulLI);
    v.push(Instr::MulLW);
    v.push(Instr::MulLWO);
    v.push(Instr::MulLW_);
    v.push(Instr::MulLWO_);
    v.push(Instr::MulHW);
    v.push(Instr::MulHW_);
    v.push(Instr::MulHWU);
    v.push(Instr::MulHWU_);
    v.push(Instr::MulLD);
    v.push(Instr::MulLDO);
    v.push(Instr::MulLD_);
    v.push(Instr::MulLDO_);
    v.push(Instr::MulHD);
    v.push(Instr::MulHD_);
    v.push(Instr::MulHDU);
    v.push(Instr::MulHDU_);
    v.push(Instr::MAddHD);
    v.push(Instr::MAddHDU);
    v.push(Instr::MAddLD);
    proof {
        assert(v@ =~= values_modulo_multiply_seq());
    }
    v
}

pub open spec fn values_compare_seq() -> Seq<Instr> {
    seq![
        Instr::CmpDI,
        Instr::CmpWI,
        Instr::CmpLDI,
        Instr::CmpLWI,
        Instr::CmpD,
        Instr::CmpW,
        Instr::CmpLD,
        Instr::CmpLW,
        Instr::CmpRB0,
    ]
}

fn values_compare() -> (r: Vec<Instr>)
    ensures
        r@ == values_compare_seq(),
{
    let mut v: Vec<Instr> = Vec::new();
    v.push(Instr::CmpDI);
    v.push(Instr::CmpWI);
    v.push(Instr::CmpLDI);
    v.push(Instr::CmpLWI);
    v.push(Instr::CmpD);
    v.push(Instr::CmpW);
    v.push(Instr::CmpLD);
    v.push(Instr::CmpLW);
    v.push(Instr::CmpRB0);
    proof {
        assert(v@ =~= values_compare_seq());
    }
    v
}

impl Instr {
    /// Every modelled instruction, in canonical order.
    pub open spec fn spec_values() -> Seq<Instr> {
        values_add_seq() + values_extended_add_seq() + values_zero_extended_add_seq()
            + values_divide_doubleword_seq() + values_divide_word_seq()
            + values_modulo_multiply_seq() + values_compare_seq()
    }

    /// Every modelled instruction, in canonical order.
    pub fn values() -> (r: Vec<Instr>)
        ensures
            r@ == Instr::spec_values(),
    {
        let mut v = values_add();
        let mut v2 = values_extended_add();
        v.append(&mut v2);
        let mut v3 = values_zero_extended_add();
        v.append(&mut v3);
        let mut v4 = values_divide_doubleword();
        v.append(&mut v4);
        let mut v5 = values_divide_word();
        v.append(&mut v5);
        let mut v6 = values_modulo_multiply();
        v.append(&mut v6);
        let mut v7 = values_compare();
        v.append(&mut v7);
        v
    }
}


/// Whether every operand slot in `regs` is present in `inputs`.
pub open spec fn has_all_inputs(
    inputs: InstructionInput,
    regs: Seq<InstructionInputRegister>,
) -> bool {
    forall|k: int| 0 <= k < regs.len() ==> has_input(inputs, #[trigger] regs[k])
}

proof fn lemma_has_all_1(inputs: InstructionInput, a: InstructionInputRegister)
    ensures
        has_all_inputs(inputs, seq![a]) <==> has_input(inputs, a),
{
    let s = seq![a];
    if has_input(inputs, a) {
        assert forall|k: int| 0 <= k < s.len() implies has_input(inputs, #[trigger] s[k]) by {
            assert(s[k] == a);
        }
    }
    if has_all_inputs(inputs, s) {
        assert(has_input(inputs, s[0]));
    }
}

proof fn lemma_has_all_2(
    inputs: InstructionInput,
    a: InstructionInputRegister,
    b: InstructionInputRegister,
)
    ensures
        has_all_inputs(inputs, seq![a, b]) <==> (has_input(inputs, a) && has_input(inputs, b)),
{
    let s = seq![a, b];
    if has_input(inputs, a) && has_input(inputs, b) {
        assert forall|k: int| 0 <= k < s.len() implies has_input(inputs, #[trigger] s[k]) by {
            if k == 0 {
                assert(s[k] == a);
            } else {
                assert(s[k] == b);
            }
        }
    }
    if has_all_inputs(inputs, s) {
        assert(has_input(inputs, s[0]));
        assert(has_input(inputs, s[1]));
    }
}

proof fn lemma_has_all_3(
    inputs: InstructionInput,
    a: InstructionInputRegister,
    b: InstructionInputRegister,
    c: InstructionInputRegister,
)
    ensures
        has_all_inputs(inputs, seq![a, b, c]) <==> (has_input(inputs, a) && has_input(inputs, b)
            && has_input(inputs, c)),
{
    let s = seq![a, b, c];
    if has_input(inputs, a) && has_input(inputs, b) && has_input(inputs, c) {
        assert forall|k: int| 0 <= k < s.len() implies has_input(inputs, #[trigger] s[k]) by {
            if k == 0 {
                assert(s[k] == a);
            } else if k == 1 {
                assert(s[k] == b);
            } else {
                assert(s[k] == c);
            }
        }
    }
    if has_all_inputs(inputs, s) {
        assert(has_input(inputs, s[0]));
        assert(has_input(inputs, s[1]));
        assert(has_input(inputs, s[2]));
    }
}

proof fn lemma_has_all_4(
    inputs: InstructionInput,
    a: InstructionInputRegister,
    b: InstructionInputRegister,
    c: InstructionInputRegister,
    d: InstructionInputRegister,
)
    ensures
        has_all_inputs(inputs, seq![a, b, c, d]) <==> (has_input(inputs, a) && has_input(
            inputs,
            b,
        ) && has_input(inputs, c) && has_input(inputs, d)),
{
    let s = seq![a, b, c, d];
    if has_input(inputs, a) && has_input(inputs, b) && has_input(inputs, c) && has_input(
        inputs,
        d,
    ) {
        assert forall|k: int| 0 <= k < s.len() implies has_input(inputs, #[trigger] s[k]) by {
            if k == 0 {
                assert(s[k] == a);
            } else if k == 1 {
                assert(s[k] == b);
            } else if k == 2 {
                assert(s[k] == c);
            } else {
                assert(s[k] == d);
            }
        }
    }
    if has_all_inputs(inputs, s) {
        assert(has_input(inputs, s[0]));
        assert(has_input(inputs, s[1]));
        assert(has_input(inputs, s[2]));
        assert(has_input(inputs, s[3]));
    }
}

proof fn lemma_ok_addi(inputs: InstructionInput)
    ensures
        (Instr::AddI.spec_model(inputs) is Ok) <==> has_all_inputs(
            inputs,
            Instr::AddI.spec_inputs(),
        ),
{
    lemma_has_all_2(inputs, InstructionInputRegister::Ra, InstructionInputRegister::ImmediateS16);
}

proof fn lemma_ok_addis(inputs: InstructionInput)
    ensures
        (Instr::AddIS.spec_model(inputs) is Ok) <==> has_all_inputs(
            inputs,
            Instr::AddIS.spec_inputs(),
        ),
{
    lemma_has_all_2(inputs, InstructionInputRegister::Ra, InstructionInputRegister::ImmediateS16);
}

proof fn lemma_ok_add(inputs: InstructionInput)
    ensures
        (Instr::Add.spec_model(inputs) is Ok) <==> has_all_inputs(
            inputs,
            Instr::Add.spec_inputs(),
        ),
{
    lemma_has_all_2(inputs, InstructionInputRegister::Ra, InstructionInputRegister::Rb);
}

proof fn lemma_ok_addo(inputs: InstructionInput)
    ensures
        (Instr::AddO.spec_model(inputs) is Ok) <==> has_all_inputs(
            inputs,
            Instr::AddO.spec_inputs(),
        ),
{
    lemma_has_all_3(inputs, InstructionInputRegister::Ra, InstructionInputRegister::Rb, InstructionInputRegister::Overflow);
}

proof fn lemma_so_addo(inputs: InstructionInput)
    requires
        inputs.overflow is Some,
        inputs.overflow.unwrap().so,
        Instr::AddO.spec_model(inputs) is Ok,
    ensures
        Instr::AddO.spec_model(inputs).unwrap().overflow is Some,
        Instr::AddO.spec_model(inputs).unwrap().overflow.unwrap().so,
{
}

proof fn lemma_ok_add_(inputs: InstructionInput)
    ensures
        (Instr::Add_.spec_model(inputs) is Ok) <==> has_all_inputs(
            inputs,
            Instr::Add_.spec_inputs(),
        ),
{
    lemma_has_all_3(inputs, InstructionInputRegister::Ra, InstructionInputRegister::Rb, InstructionInputRegister::Overflow);
}

proof fn lemma_ok_addo_(inputs: InstructionInput)
    ensures
        (Instr::AddO_.spec_model(inputs) is Ok) <==> has_all_inputs(
            inputs,
            Instr::AddO_.spec_inputs(),
        ),
{
    lemma_has_all_3(inputs, InstructionInputRegister::Ra, InstructionInputRegister::Rb, InstructionInputRegister::Overflow);
}

proof fn lemma_so_addo_(inputs: InstructionInput)
    requires
        inputs.overflow is Some,
        inputs.overflow.unwrap().so,
        Instr::AddO_.spec_model(inputs) is Ok,
    ensures
        Instr::AddO_.spec_model(inputs).unwrap().overflow is Some,
        Instr::AddO_.spec_model(inputs).unwrap().overflow.unwrap().so,
{
}

proof fn lemma_ok_addic(inputs: InstructionInput)
    ensures
        (Instr::AddIC.spec_model(inputs) is Ok) <==> has_all_inputs(
            inputs,
            Instr::AddIC.spec_inputs(),
        ),
{
    lemma_has_all_2(inputs, InstructionInputRegister::Ra, InstructionInputRegister::ImmediateS16);
}

proof fn lemma_ok_addic_(inputs: InstructionInput)
    ensures
        (Instr::AddIC_.spec_model(inputs) is Ok) <==> has_all_inputs(
            inputs,
            Instr::AddIC_.spec_inputs(),
        ),
{
    lemma_has_all_3(inputs, InstructionInputRegister::Ra, InstructionInputRegister::ImmediateS16, InstructionInputRegister::Overflow);
}

proof fn lemma_ok_subf(inputs: InstructionInput)
    ensures
        (Instr::SubF.spec_model(inputs) is Ok) <==> has_all_inputs(
            inputs,
            Instr::SubF.spec_inputs(),
        ),
{
    lemma_has_all_2(inputs, InstructionInputRegister::Ra, InstructionInputRegister::Rb);
}

proof fn lemma_ok_subfo(inputs: InstructionInput)
    ensures
        (Instr::SubFO.spec_model(inputs) is Ok) <==> has_all_inputs(
            inputs,
            Instr::SubFO.spec_inputs(),
        ),
{
    lemma_has_all_3(inputs, InstructionInputRegister::Ra, InstructionInputRegister::Rb, InstructionInputRegister::Overflow);
}

proof fn lemma_so_subfo(inputs: InstructionInput)
    requires
        inputs.overflow is Some,
        inputs.overflow.unwrap().so,
        Instr::SubFO.spec_model(inputs) is Ok,
    ensures
        Instr::SubFO.spec_model(inputs).unwrap().overflow is Some,
        Instr::SubFO.spec_model(inputs).unwrap().overflow.unwrap().so,
{
}

proof fn lemma_ok_subf_(inputs: InstructionInput)
    ensures
        (Instr::SubF_.spec_model(inputs) is Ok) <==> has_all_inputs(
            inputs,
            Instr::SubF_.spec_inputs(),
        ),
{
    lemma_has_all_3(inputs, InstructionInputRegister::Ra, InstructionInputRegister::Rb, InstructionInputRegister::Overflow);
}

proof fn lemma_ok_subfo_(inputs: InstructionInput)
    ensures
        (Instr::SubFO_.spec_model(inputs) is Ok) <==> has_all_inputs(
            inputs,
            Instr::SubFO_.spec_inputs(),
        ),
{
    lemma_has_all_3(inputs, InstructionInputRegister::Ra, InstructionInputRegister::Rb, InstructionInputRegister::Overflow);
}

proof fn lemma_so_subfo_(inputs: InstructionInput)
    requires
        inputs.overflow is Some,
        inputs.overflow.unwrap().so,
        Instr::SubFO_.spec_model(inputs) is Ok,
    ensures
        Instr::SubFO_.spec_model(inputs).unwrap().overflow is Some,
        Instr::SubFO_.spec_model(inputs).unwrap().overflow.unwrap().so,
{
}

proof fn lemma_ok_subfic(inputs: InstructionInput)
    ensures
        (Instr::SubFIC.spec_model(inputs) is Ok) <==> has_all_inputs(
            inputs,
            Instr::SubFIC.spec_inputs(),
        ),
{
    lemma_has_all_2(inputs, InstructionInputRegister::Ra, InstructionInputRegister::ImmediateS16);
}

proof fn lemma_ok_addc(inputs: InstructionInput)
    ensures
        (Instr::AddC.spec_model(inputs) is Ok) <==> has_all_inputs(
            inputs,
            Instr::AddC.spec_inputs(),
        ),
{
    lemma_has_all_2(inputs, InstructionInputRegister::Ra, InstructionInputRegister::Rb);
}

proof fn lemma_ok_addco(inputs: InstructionInput)
    ensures
        (Instr::AddCO.spec_model(inputs) is Ok) <==> has_all_inputs(
            inputs,
            Instr::AddCO.spec_inputs(),
        ),
{
    lemma_has_all_3(inputs, InstructionInputRegister::Ra, InstructionInputRegister::Rb, InstructionInputRegister::Overflow);
}

proof fn lemma_so_addco(inputs: InstructionInput)
    requires
        inputs.overflow is Some,
        inputs.overflow.unwrap().so,
        Instr::AddCO.spec_model(inputs) is Ok,
    ensures
        Instr::AddCO.spec_model(inputs).unwrap().overflow is Some,
        Instr::AddCO.spec_model(inputs).unwrap().overflow.unwrap().so,
{
}

proof fn lemma_ok_addc_(inputs: InstructionInput)
    ensures
        (Instr::AddC_.spec_model(inputs) is Ok) <==> has_all_inputs(
            inputs,
            Instr::AddC_.spec_inputs(),
        ),
{
    lemma_has_all_3(inputs, InstructionInputRegister::Ra, InstructionInputRegister::Rb, InstructionInputRegister::Overflow);
}

proof fn lemma_ok_addco_(inputs: InstructionInput)
    ensures
        (Instr::AddCO_.spec_model(inputs) is Ok) <==> has_all_inputs(
            inputs,
            Instr::AddCO_.spec_inputs(),
        ),
{
    lemma_has_all_3(inputs, InstructionInputRegister::Ra, InstructionInputRegister::Rb, InstructionInputRegister::Overflow);
}

proof fn lemma_so_addco_(inputs: InstructionInput)
    requires
        inputs.overflow is Some,
        inputs.overflow.unwrap().so,
        Instr::AddCO_.spec_model(inputs) is Ok,
    ensures
        Instr::AddCO_.spec_model(inputs).unwrap().overflow is Some,
        Instr::AddCO_.spec_model(inputs).unwrap().overflow.unwrap().so,
{
}

proof fn lemma_ok_subfc(inputs: InstructionInput)
    ensures
        (Instr::SubFC.spec_model(inputs) is Ok) <==> has_all_inputs(
            inputs,
            Instr::SubFC.spec_inputs(),
        ),
{
    lemma_has_all_2(inputs, InstructionInputRegister::Ra, InstructionInputRegister::Rb);
}

proof fn lemma_ok_subfco(inputs: InstructionInput)
    ensures
        (Instr::SubFCO.spec_model(inputs) is Ok) <==> has_all_inputs(
            inputs,
            Instr::SubFCO.spec_inputs(),
        ),
{
    lemma_has_all_3(inputs, InstructionInputRegister::Ra, InstructionInputRegister::Rb, InstructionInputRegister::Overflow);
}

proof fn lemma_so_subfco(inputs: InstructionInput)
    requires
        inputs.overflow is Some,
        inputs.overflow.unwrap().so,
        Instr::SubFCO.spec_model(inputs) is Ok,
    ensures
        Instr::SubFCO.spec_model(inputs).unwrap().overflow is Some,
        Instr::SubFCO.spec_model(inputs).unwrap().overflow.unwrap().so,
{
}

proof fn lemma_ok_subfc_(inputs: InstructionInput)
    ensures
        (Instr::SubFC_.spec_model(inputs) is Ok) <==> has_all_inputs(
            inputs,
            Instr::SubFC_.spec_inputs(),
        ),
{
    lemma_has_all_3(inputs, InstructionInputRegister::Ra, InstructionInputRegister::Rb, InstructionInputRegister::Overflow);
}

proof fn lemma_ok_subfco_(inputs: InstructionInput)
    ensures
        (Instr::SubFCO_.spec_model(inputs) is Ok) <==> has_all_inputs(
            inputs,
            Instr::SubFCO_.spec_inputs(),
        ),
{
    lemma_has_all_3(inputs, InstructionInputRegister::Ra, InstructionInputRegister::Rb, InstructionInputRegister::Overflow);
}

proof fn lemma_so_subfco_(inputs: InstructionInput)
    requires
        inputs.overflow is Some,
        inputs.overflow.unwrap().so,
        Instr::SubFCO_.spec_model(inputs) is Ok,
    ensures
        Instr::SubFCO_.spec_model(inputs).unwrap().overflow is Some,
        Instr::SubFCO_.spec_model(inputs).unwrap().overflow.unwrap().so,
{
}

proof fn lemma_ok_adde(inputs: InstructionInput)
    ensures
        (Instr::AddE.spec_model(inputs) is Ok) <==> has_all_inputs(
            inputs,
            Instr::AddE.spec_inputs(),
        ),
{
    lemma_has_all_3(inputs, InstructionInputRegister::Ra, InstructionInputRegister::Rb, InstructionInputRegister::Carry);
}

proof fn lemma_ok_addeo(inputs: InstructionInput)
    ensures
        (Instr::AddEO.spec_model(inputs) is Ok) <==> has_all_inputs(
            inputs,
            Instr::AddEO.spec_inputs(),
        ),
{
    lemma_has_all_4(inputs, InstructionInputRegister::Ra, InstructionInputRegister::Rb, InstructionInputRegister::Overflow, InstructionInputRegister::Carry);
}

proof fn lemma_so_addeo(inputs: InstructionInput)
    requires
        inputs.overflow is Some,
        inputs.overflow.unwrap().so,
        Instr::AddEO.spec_model(inputs) is Ok,
    ensures
        Instr::AddEO.spec_model(inputs).unwrap().overflow is Some,
        Instr::AddEO.spec_model(inputs).unwrap().overflow.unwrap().so,
{
}

proof fn lemma_ok_adde_(inputs: InstructionInput)
    ensures
        (Instr::AddE_.spec_model(inputs) is Ok) <==> has_all_inputs(
            inputs,
            Instr::AddE_.spec_inputs(),
        ),
{
    lemma_has_all_4(inputs, InstructionInputRegister::Ra, InstructionInputRegister::Rb, InstructionInputRegister::Overflow, InstructionInputRegister::Carry);
}

proof fn lemma_ok_addeo_(inputs: InstructionInput)
    ensures
        (Instr::AddEO_.spec_model(inputs) is Ok) <==> has_all_inputs(
            inputs,
            Instr::AddEO_.spec_inputs(),
        ),
{
    lemma_has_all_4(inputs, InstructionInputRegister::Ra, InstructionInputRegister::Rb, InstructionInputRegister::Overflow, InstructionInputRegister::Carry);
}

proof fn lemma_so_addeo_(inputs: InstructionInput)
    requires
        inputs.overflow is Some,
        inputs.overflow.unwrap().so,
        Instr::AddEO_.spec_model(inputs) is Ok,
    ensures
        Instr::AddEO_.spec_model(inputs).unwrap().overflow is Some,
        Instr::AddEO_.spec_model(inputs).unwrap().overflow.unwrap().so,
{
}

proof fn lemma_ok_subfe(inputs: InstructionInput)
    ensures
        (Instr::SubFE.spec_model(inputs) is Ok) <==> has_all_inputs(
            inputs,
            Instr::SubFE.spec_inputs(),
        ),
{
    lemma_has_all_3(inputs, InstructionInputRegister::Ra, InstructionInputRegister::Rb, InstructionInputRegister::Carry);
}

proof fn lemma_ok_subfeo(inputs: InstructionInput)
    ensures
        (Instr::SubFEO.spec_model(inputs) is Ok) <==> has_all_inputs(
            inputs,
            Instr::SubFEO.spec_inputs(),
        ),
{
    lemma_has_all_4(inputs, InstructionInputRegister::Ra, InstructionInputRegister::Rb, InstructionInputRegister::Overflow, InstructionInputRegister::Carry);
}

proof fn lemma_so_subfeo(inputs: InstructionInput)
    requires
        inputs.overflow is Some,
        inputs.overflow.unwrap().so,
        Instr::SubFEO.spec_model(inputs) is Ok,
    ensures
        Instr::SubFEO.spec_model(inputs).unwrap().overflow is Some,
        Instr::SubFEO.spec_model(inputs).unwrap().overflow.unwrap().so,
{
}

proof fn lemma_ok_subfe_(inputs: InstructionInput)
    ensures
        (Instr::SubFE_.spec_model(inputs) is Ok) <==> has_all_inputs(
            inputs,
            Instr::SubFE_.spec_inputs(),
        ),
{
    lemma_has_all_4(inputs, InstructionInputRegister::Ra, InstructionInputRegister::Rb, InstructionInputRegister::Overflow, InstructionInputRegister::Carry);
}

proof fn lemma_ok_subfeo_(inputs: InstructionInput)
    ensures
        (Instr::SubFEO_.spec_model(inputs) is Ok) <==> has_all_inputs(
            inputs,
            Instr::SubFEO_.spec_inputs(),
        ),
{
    lemma_has_all_4(inputs, InstructionInputRegister::Ra, InstructionInputRegister::Rb, InstructionInputRegister::Overflow, InstructionInputRegister::Carry);
}

proof fn lemma_so_subfeo_(inputs: InstructionInput)
    requires
        inputs.overflow is Some,
        inputs.overflow.unwrap().so,
        Instr::SubFEO_.spec_model(inputs) is Ok,
    ensures
        Instr::SubFEO_.spec_model(inputs).unwrap().overflow is Some,
        Instr::SubFEO_.spec_model(inputs).unwrap().overflow.unwrap().so,
{
}

proof fn lemma_ok_addme(inputs: InstructionInput)
    ensures
        (Instr::AddME.spec_model(inputs) is Ok) <==> has_all_inputs(
            inputs,
            Instr::AddME.spec_inputs(),
        ),
{
    lemma_has_all_2(inputs, InstructionInputRegister::Ra, InstructionInputRegister::Carry);
}

proof fn lemma_ok_addmeo(inputs: InstructionInput)
    ensures
        (Instr::AddMEO.spec_model(inputs) is Ok) <==> has_all_inputs(
            inputs,
            Instr::AddMEO.spec_inputs(),
        ),
{
    lemma_has_all_3(inputs, InstructionInputRegister::Ra, InstructionInputRegister::Overflow, InstructionInputRegister::Carry);
}

proof fn lemma_so_addmeo(inputs: InstructionInput)
    requires
        inputs.overflow is Some,
        inputs.overflow.unwrap().so,
        Instr::AddMEO.spec_model(inputs) is Ok,
    ensures
        Instr::AddMEO.spec_model(inputs).unwrap().overflow is Some,
        Instr::AddMEO.spec_model(inputs).unwrap().overflow.unwrap().so,
{
}

proof fn lemma_ok_addme_(inputs: InstructionInput)
    ensures
        (Instr::AddME_.spec_model(inputs) is Ok) <==> has_all_inputs(
            inputs,
            Instr::AddME_.spec_inputs(),
        ),
{
    lemma_has_all_3(inputs, InstructionInputRegister::Ra, InstructionInputRegister::Overflow, InstructionInputRegister::Carry);
}

proof fn lemma_ok_addmeo_(inputs: InstructionInput)
    ensures
        (Instr::AddMEO_.spec_model(inputs) is Ok) <==> has_all_inputs(
            inputs,
            Instr::AddMEO_.spec_inputs(),
        ),
{
    lemma_has_all_3(inputs, InstructionInputRegister::Ra, InstructionInputRegister::Overflow, InstructionInputRegister::Carry);
}

proof fn lemma_so_addmeo_(inputs: InstructionInput)
    requires
        inputs.overflow is Some,
        inputs.overflow.unwrap().so,
        Instr::AddMEO_.spec_model(inputs) is Ok,
    ensures
        Instr::AddMEO_.spec_model(inputs).unwrap().overflow is Some,
        Instr::AddMEO_.spec_model(inputs).unwrap().overflow.unwrap().so,
{
}

proof fn lemma_ok_subfme(inputs: InstructionInput)
    ensures
        (Instr::SubFME.spec_model(inputs) is Ok) <==> has_all_inputs(
            inputs,
            Instr::SubFME.spec_inputs(),
        ),
{
    lemma_has_all_2(inputs, InstructionInputRegister::Ra, InstructionInputRegister::Carry);
}

proof fn lemma_ok_subfmeo(inputs: InstructionInput)
    ensures
        (Instr::SubFMEO.spec_model(inputs) is Ok) <==> has_all_inputs(
            inputs,
            Instr::SubFMEO.spec_inputs(),
        ),
{
    lemma_has_all_3(inputs, InstructionInputRegister::Ra, InstructionInputRegister::Overflow, InstructionInputRegister::Carry);
}

proof fn lemma_so_subfmeo(inputs: InstructionInput)
    requires
        inputs.overflow is Some,
        inputs.overflow.unwrap().so,
        Instr::SubFMEO.spec_model(inputs) is Ok,
    ensures
        Instr::SubFMEO.spec_model(inputs).unwrap().overflow is Some,
        Instr::SubFMEO.spec_model(inputs).unwrap().overflow.unwrap().so,
{
}

proof fn lemma_ok_subfme_(inputs: InstructionInput)
    ensures
        (Instr::SubFME_.spec_model(inputs) is Ok) <==> has_all_inputs(
            inputs,
            Instr::SubFME_.spec_inputs(),
        ),
{
    lemma_has_all_3(inputs, InstructionInputRegister::Ra, InstructionInputRegister::Overflow, InstructionInputRegister::Carry);
}

proof fn lemma_ok_subfmeo_(inputs: InstructionInput)
    ensures
        (Instr::SubFMEO_.spec_model(inputs) is Ok) <==> has_all_inputs(
            inputs,
            Instr::SubFMEO_.spec_inputs(),
        ),
{
    lemma_has_all_3(inputs, InstructionInputRegister::Ra, InstructionInputRegister::Overflow, InstructionInputRegister::Carry);
}

proof fn lemma_so_subfmeo_(inputs: InstructionInput)
    requires
        inputs.overflow is Some,
        inputs.overflow.unwrap().so,
        Instr::SubFMEO_.spec_model(inputs) is Ok,
    ensures
        Instr::SubFMEO_.spec_model(inputs).unwrap().overflow is Some,
        Instr::SubFMEO_.spec_model(inputs).unwrap().overflow.unwrap().so,
{
}

proof fn lemma_ok_addze(inputs: InstructionInput)
    ensures
        (Instr::AddZE.spec_model(inputs) is Ok) <==> has_all_inputs(
            inputs,
            Instr::AddZE.spec_inputs(),
        ),
{
    lemma_has_all_2(inputs, InstructionInputRegister::Ra, InstructionInputRegister::Carry);
}

proof fn lemma_ok_addzeo(inputs: InstructionInput)
    ensures
        (Instr::AddZEO.spec_model(inputs) is Ok) <==> has_all_inputs(
            inputs,
            Instr::AddZEO.spec_inputs(),
        ),
{
    lemma_has_all_3(inputs, InstructionInputRegister::Ra, InstructionInputRegister::Overflow, InstructionInputRegister::Carry);
}

proof fn lemma_so_addzeo(inputs: InstructionInput)
    requires
        inputs.overflow is Some,
        inputs.overflow.unwrap().so,
        Instr::AddZEO.spec_model(inputs) is Ok,
    ensures
        Instr::AddZEO.spec_model(inputs).unwrap().overflow is Some,
        Instr::AddZEO.spec_model(inputs).unwrap().overflow.unwrap().so,
{
}

proof fn lemma_ok_addze_(inputs: InstructionInput)
    ensures
        (Instr::AddZE_.spec_model(inputs) is Ok) <==> has_all_inputs(
            inputs,
            Instr::AddZE_.spec_inputs(),
        ),
{
    lemma_has_all_3(inputs, InstructionInputRegister::Ra, InstructionInputRegister::Overflow, InstructionInputRegister::Carry);
}

proof fn lemma_ok_addzeo_(inputs: InstructionInput)
    ensures
        (Instr::AddZEO_.spec_model(inputs) is Ok) <==> has_all_inputs(
            inputs,
            Instr::AddZEO_.spec_inputs(),
        ),
{
    lemma_has_all_3(inputs, InstructionInputRegister::Ra, InstructionInputRegister::Overflow, InstructionInputRegister::Carry);
}

proof fn lemma_so_addzeo_(inputs: InstructionInput)
    requires
        inputs.overflow is Some,
        inputs.overflow.unwrap().so,
        Instr::AddZEO_.spec_model(inputs) is Ok,
    ensures
        Instr::AddZEO_.spec_model(inputs).unwrap().overflow is Some,
        Instr::AddZEO_.spec_model(inputs).unwrap().overflow.unwrap().so,
{
}

proof fn lemma_ok_subfze(inputs: InstructionInput)
    ensures
        (Instr::SubFZE.spec_model(inputs) is Ok) <==> has_all_inputs(
            inputs,
            Instr::SubFZE.spec_inputs(),
        ),
{
    lemma_has_all_2(inputs, InstructionInputRegister::Ra, InstructionInputRegister::Carry);
}

proof fn lemma_ok_subfzeo(inputs: InstructionInput)
    ensures
        (Instr::SubFZEO.spec_model(inputs) is Ok) <==> has_all_inputs(
            inputs,
            Instr::SubFZEO.spec_inputs(),
        ),
{
    lemma_has_all_3(inputs, InstructionInputRegister::Ra, InstructionInputRegister::Overflow, InstructionInputRegister::Carry);
}

proof fn lemma_so_subfzeo(inputs: InstructionInput)
    requires
        inputs.overflow is Some,
        inputs.overflow.unwrap().so,
        Instr::SubFZEO.spec_model(inputs) is Ok,
    ensures
        Instr::SubFZEO.spec_model(inputs).unwrap().overflow is Some,
        Instr::SubFZEO.spec_model(inputs).unwrap().overflow.unwrap().so,
{
}

proof fn lemma_ok_subfze_(inputs: InstructionInput)
    ensures
        (Instr::SubFZE_.spec_model(inputs) is Ok) <==> has_all_inputs(
            inputs,
            Instr::SubFZE_.spec_inputs(),
        ),
{
    lemma_has_all_3(inputs, InstructionInputRegister::Ra, InstructionInputRegister::Overflow, InstructionInputRegister::Carry);
}

proof fn lemma_ok_subfzeo_(inputs: InstructionInput)
    ensures
        (Instr::SubFZEO_.spec_model(inputs) is Ok) <==> has_all_inputs(
            inputs,
            Instr::SubFZEO_.spec_inputs(),
        ),
{
    lemma_has_all_3(inputs, InstructionInputRegister::Ra, InstructionInputRegister::Overflow, InstructionInputRegister::Carry);
}

proof fn lemma_so_subfzeo_(inputs: InstructionInput)
    requires
        inputs.overflow is Some,
        inputs.overflow.unwrap().so,
        Instr::SubFZEO_.spec_model(inputs) is Ok,
    ensures
        Instr::SubFZEO_.spec_model(inputs).unwrap().overflow is Some,
        Instr::SubFZEO_.spec_model(inputs).unwrap().overflow.unwrap().so,
{
}

proof fn lemma_ok_addex(inputs: InstructionInput)
    ensures
        (Instr::AddEX.spec_model(inputs) is Ok) <==> has_all_inputs(
            inputs,
            Instr::AddEX.spec_inputs(),
        ),
{
    lemma_has_all_3(inputs, InstructionInputRegister::Ra, InstructionInputRegister::Rb, InstructionInputRegister::Overflow);
}

proof fn lemma_so_addex(inputs: InstructionInput)
    requires
        inputs.overflow is Some,
        inputs.overflow.unwrap().so,
        Instr::AddEX.spec_model(inputs) is Ok,
    ensures
        Instr::AddEX.spec_model(inputs).unwrap().overflow is Some,
        Instr::AddEX.spec_model(inputs).unwrap().overflow.unwrap().so,
{
}

proof fn lemma_ok_neg(inputs: InstructionInput)
    ensures
        (Instr::Neg.spec_model(inputs) is Ok) <==> has_all_inputs(
            inputs,
            Instr::Neg.spec_inputs(),
        ),
{
    lemma_has_all_1(inputs, InstructionInputRegister::Ra);
}

proof fn lemma_ok_nego(inputs: InstructionInput)
    ensures
        (Instr::NegO.spec_model(inputs) is Ok) <==> has_all_inputs(
            inputs,
            Instr::NegO.spec_inputs(),
        ),
{
    lemma_has_all_2(inputs, InstructionInputRegister::Ra, InstructionInputRegister::Overflow);
}

proof fn lemma_so_nego(inputs: InstructionInput)
    requires
        inputs.overflow is Some,
        inputs.overflow.unwrap().so,
        Instr::NegO.spec_model(inputs) is Ok,
    ensures
        Instr::NegO.spec_model(inputs).unwrap().overflow is Some,
        Instr::NegO.spec_model(inputs).unwrap().overflow.unwrap().so,
{
}

proof fn lemma_ok_neg_(inputs: InstructionInput)
    ensures
        (Instr::Neg_.spec_model(inputs) is Ok) <==> has_all_inputs(
            inputs,
            Instr::Neg_.spec_inputs(),
        ),
{
    lemma_has_all_2(inputs, InstructionInputRegister::Ra, InstructionInputRegister::Overflow);
}

proof fn lemma_ok_nego_(inputs: InstructionInput)
    ensures
        (Instr::NegO_.spec_model(inputs) is Ok) <==> has_all_inputs(
            inputs,
            Instr::NegO_.spec_inputs(),
        ),
{
    lemma_has_all_2(inputs, InstructionInputRegister::Ra, InstructionInputRegister::Overflow);
}

proof fn lemma_so_nego_(inputs: InstructionInput)
    requires
        inputs.overflow is Some,
        inputs.overflow.unwrap().so,
        Instr::NegO_.spec_model(inputs) is Ok,
    ensures
        Instr::NegO_.spec_model(inputs).unwrap().overflow is Some,
        Instr::NegO_.spec_model(inputs).unwrap().overflow.unwrap().so,
{
}

proof fn lemma_ok_divde(inputs: InstructionInput)
    ensures
        (Instr::DivDE.spec_model(inputs) is Ok) <==> has_all_inputs(
            inputs,
            Instr::DivDE.spec_inputs(),
        ),
{
    lemma_has_all_2(inputs, InstructionInputRegister::Ra, InstructionInputRegister::Rb);
}

proof fn lemma_ok_divdeo(inputs: InstructionInput)
    ensures
        (Instr::DivDEO.spec_model(inputs) is Ok) <==> has_all_inputs(
            inputs,
            Instr::DivDEO.spec_inputs(),
        ),
{
    lemma_has_all_3(inputs, InstructionInputRegister::Ra, InstructionInputRegister::Rb, InstructionInputRegister::Overflow);
}

proof fn lemma_so_divdeo(inputs: InstructionInput)
    requires
        inputs.overflow is Some,
        inputs.overflow.unwrap().so,
        Instr::DivDEO.spec_model(inputs) is Ok,
    ensures
        Instr::DivDEO.spec_model(inputs).unwrap().overflow is Some,
        Instr::DivDEO.spec_model(inputs).unwrap().overflow.unwrap().so,
{
}

proof fn lemma_ok_divde_(inputs: InstructionInput)
    ensures
        (Instr::DivDE_.spec_model(inputs) is Ok) <==> has_all_inputs(
            inputs,
            Instr::DivDE_.spec_inputs(),
        ),
{
    lemma_has_all_3(inputs, InstructionInputRegister::Ra, InstructionInputRegister::Rb, InstructionInputRegister::Overflow);
}

proof fn lemma_ok_divdeo_(inputs: InstructionInput)
    ensures
        (Instr::DivDEO_.spec_model(inputs) is Ok) <==> has_all_inputs(
            inputs,
            Instr::DivDEO_.spec_inputs(),
        ),
{
    lemma_has_all_3(inputs, InstructionInputRegister::Ra, InstructionInputRegister::Rb, InstructionInputRegister::Overflow);
}

proof fn lemma_so_divdeo_(inputs: InstructionInput)
    requires
        inputs.overflow is Some,
        inputs.overflow.unwrap().so,
        Instr::DivDEO_.spec_model(inputs) is Ok,
    ensures
        Instr::DivDEO_.spec_model(inputs).unwrap().overflow is Some,
        Instr::DivDEO_.spec_model(inputs).unwrap().overflow.unwrap().so,
{
}

proof fn lemma_ok_divdeu(inputs: InstructionInput)
    ensures
        (Instr::DivDEU.spec_model(inputs) is Ok) <==> has_all_inputs(
            inputs,
            Instr::DivDEU.spec_inputs(),
        ),
{
    lemma_has_all_2(inputs, InstructionInputRegister::Ra, InstructionInputRegister::Rb);
}

proof fn lemma_ok_divdeuo(inputs: InstructionInput)
    ensures
        (Instr::DivDEUO.spec_model(inputs) is Ok) <==> has_all_inputs(
            inputs,
            Instr::DivDEUO.spec_inputs(),
        ),
{
    lemma_has_all_3(inputs, InstructionInputRegister::Ra, InstructionInputRegister::Rb, InstructionInputRegister::Overflow);
}

proof fn lemma_so_divdeuo(inputs: InstructionInput)
    requires
        inputs.overflow is Some,
        inputs.overflow.unwrap().so,
        Instr::DivDEUO.spec_model(inputs) is Ok,
    ensures
        Instr::DivDEUO.spec_model(inputs).unwrap().overflow is Some,
        Instr::DivDEUO.spec_model(inputs).unwrap().overflow.unwrap().so,
{
}

proof fn lemma_ok_divdeu_(inputs: InstructionInput)
    ensures
        (Instr::DivDEU_.spec_model(inputs) is Ok) <==> has_all_inputs(
            inputs,
            Instr::DivDEU_.spec_inputs(),
        ),
{
    lemma_has_all_3(inputs, InstructionInputRegister::Ra, InstructionInputRegister::Rb, InstructionInputRegister::Overflow);
}

proof fn lemma_ok_divdeuo_(inputs: InstructionInput)
    ensures
        (Instr::DivDEUO_.spec_model(inputs) is Ok) <==> has_all_inputs(
            inputs,
            Instr::DivDEUO_.spec_inputs(),
        ),
{
    lemma_has_all_3(inputs, InstructionInputRegister::Ra, InstructionInputRegister::Rb, InstructionInputRegister::Overflow);
}

proof fn lemma_so_divdeuo_(inputs: InstructionInput)
    requires
        inputs.overflow is Some,
        inputs.overflow.unwrap().so,
        Instr::DivDEUO_.spec_model(inputs) is Ok,
    ensures
        Instr::DivDEUO_.spec_model(inputs).unwrap().overflow is Some,
        Instr::DivDEUO_.spec_model(inputs).unwrap().overflow.unwrap().so,
{
}

proof fn lemma_ok_divd(inputs: InstructionInput)
    ensures
        (Instr::DivD.spec_model(inputs) is Ok) <==> has_all_inputs(
            inputs,
            Instr::DivD.spec_inputs(),
        ),
{
    lemma_has_all_2(inputs, InstructionInputRegister::Ra, InstructionInputRegister::Rb);
}

proof fn lemma_ok_divdo(inputs: InstructionInput)
    ensures
        (Instr::DivDO.spec_model(inputs) is Ok) <==> has_all_inputs(
            inputs,
            Instr::DivDO.spec_inputs(),
        ),
{
    lemma_has_all_3(inputs, InstructionInputRegister::Ra, InstructionInputRegister::Rb, InstructionInputRegister::Overflow);
}

proof fn lemma_so_divdo(inputs: InstructionInput)
    requires
        inputs.overflow is Some,
        inputs.overflow.unwrap().so,
        Instr::DivDO.spec_model(inputs) is Ok,
    ensures
        Instr::DivDO.spec_model(inputs).unwrap().overflow is Some,
        Instr::DivDO.spec_model(inputs).unwrap().overflow.unwrap().so,
{
}

proof fn lemma_ok_divd_(inputs: InstructionInput)
    ensures
        (Instr::DivD_.spec_model(inputs) is Ok) <==> has_all_inputs(
            inputs,
            Instr::DivD_.spec_inputs(),
        ),
{
    lemma_has_all_3(inputs, InstructionInputRegister::Ra, InstructionInputRegister::Rb, InstructionInputRegister::Overflow);
}

proof fn lemma_ok_divdo_(inputs: InstructionInput)
    ensures
        (Instr::DivDO_.spec_model(inputs) is Ok) <==> has_all_inputs(
            inputs,
            Instr::DivDO_.spec_inputs(),
        ),
{
    lemma_has_all_3(inputs, InstructionInputRegister::Ra, InstructionInputRegister::Rb, InstructionInputRegister::Overflow);
}

proof fn lemma_so_divdo_(inputs: InstructionInput)
    requires
        inputs.overflow is Some,
        inputs.overflow.unwrap().so,
        Instr::DivDO_.spec_model(inputs) is Ok,
    ensures
        Instr::DivDO_.spec_model(inputs).unwrap().overflow is Some,
        Instr::DivDO_.spec_model(inputs).unwrap().overflow.unwrap().so,
{
}

proof fn lemma_ok_divdu(inputs: InstructionInput)
    ensures
        (Instr::DivDU.spec_model(inputs) is Ok) <==> has_all_inputs(
            inputs,
            Instr::DivDU.spec_inputs(),
        ),
{
    lemma_has_all_2(inputs, InstructionInputRegister::Ra, InstructionInputRegister::Rb);
}

proof fn lemma_ok_divduo(inputs: InstructionInput)
    ensures
        (Instr::DivDUO.spec_model(inputs) is Ok) <==> has_all_inputs(
            inputs,
            Instr::DivDUO.spec_inputs(),
        ),
{
    lemma_has_all_3(inputs, InstructionInputRegister::Ra, InstructionInputRegister::Rb, InstructionInputRegister::Overflow);
}

proof fn lemma_so_divduo(inputs: InstructionInput)
    requires
        inputs.overflow is Some,
        inputs.overflow.unwrap().so,
        Instr::DivDUO.spec_model(inputs) is Ok,
    ensures
        Instr::DivDUO.spec_model(inputs).unwrap().overflow is Some,
        Instr::DivDUO.spec_model(inputs).unwrap().overflow.unwrap().so,
{
}

proof fn lemma_ok_divdu_(inputs: InstructionInput)
    ensures
        (Instr::DivDU_.spec_model(inputs) is Ok) <==> has_all_inputs(
            inputs,
            Instr::DivDU_.spec_inputs(),
        ),
{
    lemma_has_all_3(inputs, InstructionInputRegister::Ra, InstructionInputRegister::Rb, InstructionInputRegister::Overflow);
}

proof fn lemma_ok_divduo_(inputs: InstructionInput)
    ensures
        (Instr::DivDUO_.spec_model(inputs) is Ok) <==> has_all_inputs(
            inputs,
            Instr::DivDUO_.spec_inputs(),
        ),
{
    lemma_has_all_3(inputs, InstructionInputRegister::Ra, InstructionInputRegister::Rb, InstructionInputRegister::Overflow);
}

proof fn lemma_so_divduo_(inputs: InstructionInput)
    requires
        inputs.overflow is Some,
        inputs.overflow.unwrap().so,
        Instr::DivDUO_.spec_model(inputs) is Ok,
    ensures
        Instr::DivDUO_.spec_model(inputs).unwrap().overflow is Some,
        Instr::DivDUO_.spec_model(inputs).unwrap().overflow.unwrap().so,
{
}

proof fn lemma_ok_divwe(inputs: InstructionInput)
    ensures
        (Instr::DivWE.spec_model(inputs) is Ok) <==> has_all_inputs(
            inputs,
            Instr::DivWE.spec_inputs(),
        ),
{
    lemma_has_all_2(inputs, InstructionInputRegister::Ra, InstructionInputRegister::Rb);
}

proof fn lemma_ok_divweo(inputs: InstructionInput)
    ensures
        (Instr::DivWEO.spec_model(inputs) is Ok) <==> has_all_inputs(
            inputs,
            Instr::DivWEO.spec_inputs(),
        ),
{
    lemma_has_all_3(inputs, InstructionInputRegister::Ra, InstructionInputRegister::Rb, InstructionInputRegister::Overflow);
}

proof fn lemma_so_divweo(inputs: InstructionInput)
    requires
        inputs.overflow is Some,
        inputs.overflow.unwrap().so,
        Instr::DivWEO.spec_model(inputs) is Ok,
    ensures
        Instr::DivWEO.spec_model(inputs).unwrap().overflow is Some,
        Instr::DivWEO.spec_model(inputs).unwrap().overflow.unwrap().so,
{
}

proof fn lemma_ok_divwe_(inputs: InstructionInput)
    ensures
        (Instr::DivWE_.spec_model(inputs) is Ok) <==> has_all_inputs(
            inputs,
            Instr::DivWE_.spec_inputs(),
        ),
{
    lemma_has_all_3(inputs, InstructionInputRegister::Ra, InstructionInputRegister::Rb, InstructionInputRegister::Overflow);
}

proof fn lemma_ok_divweo_(inputs: InstructionInput)
    ensures
        (Instr::DivWEO_.spec_model(inputs) is Ok) <==> has_all_inputs(
            inputs,
            Instr::DivWEO_.spec_inputs(),
        ),
{
    lemma_has_all_3(inputs, InstructionInputRegister::Ra, InstructionInputRegister::Rb, InstructionInputRegister::Overflow);
}

proof fn lemma_so_divweo_(inputs: InstructionInput)
    requires
        inputs.overflow is Some,
        inputs.overflow.unwrap().so,
        Instr::DivWEO_.spec_model(inputs) is Ok,
    ensures
        Instr::DivWEO_.spec_model(inputs).unwrap().overflow is Some,
        Instr::DivWEO_.spec_model(inputs).unwrap().overflow.unwrap().so,
{
}

proof fn lemma_ok_divweu(inputs: InstructionInput)
    ensures
        (Instr::DivWEU.spec_model(inputs) is Ok) <==> has_all_inputs(
            inputs,
            Instr::DivWEU.spec_inputs(),
        ),
{
    lemma_has_all_2(inputs, InstructionInputRegister::Ra, InstructionInputRegister::Rb);
}

proof fn lemma_ok_divweuo(inputs: InstructionInput)
    ensures
        (Instr::DivWEUO.spec_model(inputs) is Ok) <==> has_all_inputs(
            inputs,
            Instr::DivWEUO.spec_inputs(),
        ),
{
    lemma_has_all_3(inputs, InstructionInputRegister::Ra, InstructionInputRegister::Rb, InstructionInputRegister::Overflow);
}

proof fn lemma_so_divweuo(inputs: InstructionInput)
    requires
        inputs.overflow is Some,
        inputs.overflow.unwrap().so,
        Instr::DivWEUO.spec_model(inputs) is Ok,
    ensures
        Instr::DivWEUO.spec_model(inputs).unwrap().overflow is Some,
        Instr::DivWEUO.spec_model(inputs).unwrap().overflow.unwrap().so,
{
}

proof fn lemma_ok_divweu_(inputs: InstructionInput)
    ensures
        (Instr::DivWEU_.spec_model(inputs) is Ok) <==> has_all_inputs(
            inputs,
            Instr::DivWEU_.spec_inputs(),
        ),
{
    lemma_has_all_3(inputs, InstructionInputRegister::Ra, InstructionInputRegister::Rb, InstructionInputRegister::Overflow);
}

proof fn lemma_ok_divweuo_(inputs: InstructionInput)
    ensures
        (Instr::DivWEUO_.spec_model(inputs) is Ok) <==> has_all_inputs(
            inputs,
            Instr::DivWEUO_.spec_inputs(),
        ),
{
    lemma_has_all_3(inputs, InstructionInputRegister::Ra, InstructionInputRegister::Rb, InstructionInputRegister::Overflow);
}

proof fn lemma_so_divweuo_(inputs: InstructionInput)
    requires
        inputs.overflow is Some,
        inputs.overflow.unwrap().so,
        Instr::DivWEUO_.spec_model(inputs) is Ok,
    ensures
        Instr::DivWEUO_.spec_model(inputs).unwrap().overflow is Some,
        Instr::DivWEUO_.spec_model(inputs).unwrap().overflow.unwrap().so,
{
}

proof fn lemma_ok_divw(inputs: InstructionInput)
    ensures
        (Instr::DivW.spec_model(inputs) is Ok) <==> has_all_inputs(
            inputs,
            Instr::DivW.spec_inputs(),
        ),
{
    lemma_has_all_2(inputs, InstructionInputRegister::Ra, InstructionInputRegister::Rb);
}

proof fn lemma_ok_divwo(inputs: InstructionInput)
    ensures
        (Instr::DivWO.spec_model(inputs) is Ok) <==> has_all_inputs(
            inputs,
            Instr::DivWO.spec_inputs(),
        ),
{
    lemma_has_all_3(inputs, InstructionInputRegister::Ra, InstructionInputRegister::Rb, InstructionInputRegister::Overflow);
}

proof fn lemma_so_divwo(inputs: InstructionInput)
    requires
        inputs.overflow is Some,
        inputs.overflow.unwrap().so,
        Instr::DivWO.spec_model(inputs) is Ok,
    ensures
        Instr::DivWO.spec_model(inputs).unwrap().overflow is Some,
        Instr::DivWO.spec_model(inputs).unwrap().overflow.unwrap().so,
{
}

proof fn lemma_ok_divw_(inputs: InstructionInput)
    ensures
        (Instr::DivW_.spec_model(inputs) is Ok) <==> has_all_inputs(
            inputs,
            Instr::DivW_.spec_inputs(),
        ),
{
    lemma_has_all_3(inputs, InstructionInputRegister::Ra, InstructionInputRegister::Rb, InstructionInputRegister::Overflow);
}

proof fn lemma_ok_divwo_(inputs: InstructionInput)
    ensures
        (Instr::DivWO_.spec_model(inputs) is Ok) <==> has_all_inputs(
            inputs,
            Instr::DivWO_.spec_inputs(),
        ),
{
    lemma_has_all_3(inputs, InstructionInputRegister::Ra, InstructionInputRegister::Rb, InstructionInputRegister::Overflow);
}

proof fn lemma_so_divwo_(inputs: InstructionInput)
    requires
        inputs.overflow is Some,
        inputs.overflow.unwrap().so,
        Instr::DivWO_.spec_model(inputs) is Ok,
    ensures
        Instr::DivWO_.spec_model(inputs).unwrap().overflow is Some,
        Instr::DivWO_.spec_model(inputs).unwrap().overflow.unwrap().so,
{
}

proof fn lemma_ok_divwu(inputs: InstructionInput)
    ensures
        (Instr::DivWU.spec_model(inputs) is Ok) <==> has_all_inputs(
            inputs,
            Instr::DivWU.spec_inputs(),
        ),
{
    lemma_has_all_2(inputs, InstructionInputRegister::Ra, InstructionInputRegister::Rb);
}

proof fn lemma_ok_divwuo(inputs: InstructionInput)
    ensures
        (Instr::DivWUO.spec_model(inputs) is Ok) <==> has_all_inputs(
            inputs,
            Instr::DivWUO.spec_inputs(),
        ),
{
    lemma_has_all_3(inputs, InstructionInputRegister::Ra, InstructionInputRegister::Rb, InstructionInputRegister::Overflow);
}

proof fn lemma_so_divwuo(inputs: InstructionInput)
    requires
        inputs.overflow is Some,
        inputs.overflow.unwrap().so,
        Instr::DivWUO.spec_model(inputs) is Ok,
    ensures
        Instr::DivWUO.spec_model(inputs).unwrap().overflow is Some,
        Instr::DivWUO.spec_model(inputs).unwrap().overflow.unwrap().so,
{
}

proof fn lemma_ok_divwu_(inputs: InstructionInput)
    ensures
        (Instr::DivWU_.spec_model(inputs) is Ok) <==> has_all_inputs(
            inputs,
            Instr::DivWU_.spec_inputs(),
        ),
{
    lemma_has_all_3(inputs, InstructionInputRegister::Ra, InstructionInputRegister::Rb, InstructionInputRegister::Overflow);
}

proof fn lemma_ok_divwuo_(inputs: InstructionInput)
    ensures
        (Instr::DivWUO_.spec_model(inputs) is Ok) <==> has_all_inputs(
            inputs,
            Instr::DivWUO_.spec_inputs(),
        ),
{
    lemma_has_all_3(inputs, InstructionInputRegister::Ra, InstructionInputRegister::Rb, InstructionInputRegister::Overflow);
}

proof fn lemma_so_divwuo_(inputs: InstructionInput)
    requires
        inputs.overflow is Some,
        inputs.overflow.unwrap().so,
        Instr::DivWUO_.spec_model(inputs) is Ok,
    ensures
        Instr::DivWUO_.spec_model(inputs).unwrap().overflow is Some,
        Instr::DivWUO_.spec_model(inputs).unwrap().overflow.unwrap().so,
{
}

proof fn lemma_ok_modsd(inputs: InstructionInput)
    ensures
        (Instr::ModSD.spec_model(inputs) is Ok) <==> has_all_inputs(
            inputs,
            Instr::ModSD.spec_inputs(),
        ),
{
    lemma_has_all_2(inputs, InstructionInputRegister::Ra, InstructionInputRegister::Rb);
}

proof fn lemma_ok_modud(inputs: InstructionInput)
    ensures
        (Instr::ModUD.spec_model(inputs) is Ok) <==> has_all_inputs(
            inputs,
            Instr::ModUD.spec_inputs(),
        ),
{
    lemma_has_all_2(inputs, InstructionInputRegister::Ra, InstructionInputRegister::Rb);
}

proof fn lemma_ok_modsw(inputs: InstructionInput)
    ensures
        (Instr::ModSW.spec_model(inputs) is Ok) <==> has_all_inputs(
            inputs,
            Instr::ModSW.spec_inputs(),
        ),
{
    lemma_has_all_2(inputs, InstructionInputRegister::Ra, InstructionInputRegister::Rb);
}

proof fn lemma_ok_moduw(inputs: InstructionInput)
    ensures
        (Instr::ModUW.spec_model(inputs) is Ok) <==> has_all_inputs(
            inputs,
            Instr::ModUW.spec_inputs(),
        ),
{
    lemma_has_all_2(inputs, InstructionInputRegister::Ra, InstructionInputRegister::Rb);
}

proof fn lemma_ok_mulli(inputs: InstructionInput)
    ensures
        (Instr::MulLI.spec_model(inputs) is Ok) <==> has_all_inputs(
            inputs,
            Instr::MulLI.spec_inputs(),
        ),
{
    lemma_has_all_2(inputs, InstructionInputRegister::Ra, InstructionInputRegister::ImmediateS16);
}

proof fn lemma_ok_mullw(inputs: InstructionInput)
    ensures
        (Instr::MulLW.spec_model(inputs) is Ok) <==> has_all_inputs(
            inputs,
            Instr::MulLW.spec_inputs(),
        ),
{
    lemma_has_all_2(inputs, InstructionInputRegister::Ra, InstructionInputRegister::Rb);
}

proof fn lemma_ok_mullwo(inputs: InstructionInput)
    ensures
        (Instr::MulLWO.spec_model(inputs) is Ok) <==> has_all_inputs(
            inputs,
            Instr::MulLWO.spec_inputs(),
        ),
{
    lemma_has_all_3(inputs, InstructionInputRegister::Ra, InstructionInputRegister::Rb, InstructionInputRegister::Overflow);
}

proof fn lemma_so_mullwo(inputs: InstructionInput)
    requires
        inputs.overflow is Some,
        inputs.overflow.unwrap().so,
        Instr::MulLWO.spec_model(inputs) is Ok,
    ensures
        Instr::MulLWO.spec_model(inputs).unwrap().overflow is Some,
        Instr::MulLWO.spec_model(inputs).unwrap().overflow.unwrap().so,
{
}

proof fn lemma_ok_mullw_(inputs: InstructionInput)
    ensures
        (Instr::MulLW_.spec_model(inputs) is Ok) <==> has_all_inputs(
            inputs,
            Instr::MulLW_.spec_inputs(),
        ),
{
    lemma_has_all_3(inputs, InstructionInputRegister::Ra, InstructionInputRegister::Rb, InstructionInputRegister::Overflow);
}

proof fn lemma_ok_mullwo_(inputs: InstructionInput)
    ensures
        (Instr::MulLWO_.spec_model(inputs) is Ok) <==> has_all_inputs(
            inputs,
            Instr::MulLWO_.spec_inputs(),
        ),
{
    lemma_has_all_3(inputs, InstructionInputRegister::Ra, InstructionInputRegister::Rb, InstructionInputRegister::Overflow);
}

proof fn lemma_so_mullwo_(inputs: InstructionInput)
    requires
        inputs.overflow is Some,
        inputs.overflow.unwrap().so,
        Instr::MulLWO_.spec_model(inputs) is Ok,
    ensures
        Instr::MulLWO_.spec_model(inputs).unwrap().overflow is Some,
        Instr::MulLWO_.spec_model(inputs).unwrap().overflow.unwrap().so,
{
}

proof fn lemma_ok_mulhw(inputs: InstructionInput)
    ensures
        (Instr::MulHW.spec_model(inputs) is Ok) <==> has_all_inputs(
            inputs,
            Instr::MulHW.spec_inputs(),
        ),
{
    lemma_has_all_2(inputs, InstructionInputRegister::Ra, InstructionInputRegister::Rb);
}

proof fn lemma_ok_mulhw_(inputs: InstructionInput)
    ensures
        (Instr::MulHW_.spec_model(inputs) is Ok) <==> has_all_inputs(
            inputs,
            Instr::MulHW_.spec_inputs(),
        ),
{
    lemma_has_all_3(inputs, InstructionInputRegister::Ra, InstructionInputRegister::Rb, InstructionInputRegister::Overflow);
}

proof fn lemma_ok_mulhwu(inputs: InstructionInput)
    ensures
        (Instr::MulHWU.spec_model(inputs) is Ok) <==> has_all_inputs(
            inputs,
            Instr::MulHWU.spec_inputs(),
        ),
{
    lemma_has_all_2(inputs, InstructionInputRegister::Ra, InstructionInputRegister::Rb);
}

proof fn lemma_ok_mulhwu_(inputs: InstructionInput)
    ensures
        (Instr::MulHWU_.spec_model(inputs) is Ok) <==> has_all_inputs(
            inputs,
            Instr::MulHWU_.spec_inputs(),
        ),
{
    lemma_has_all_3(inputs, InstructionInputRegister::Ra, InstructionInputRegister::Rb, InstructionInputRegister::Overflow);
}

proof fn lemma_ok_mulld(inputs: InstructionInput)
    ensures
        (Instr::MulLD.spec_model(inputs) is Ok) <==> has_all_inputs(
            inputs,
            Instr::MulLD.spec_inputs(),
        ),
{
    lemma_has_all_2(inputs, InstructionInputRegister::Ra, InstructionInputRegister::Rb);
}

proof fn lemma_ok_mulldo(inputs: InstructionInput)
    ensures
        (Instr::MulLDO.spec_model(inputs) is Ok) <==> has_all_inputs(
            inputs,
            Instr::MulLDO.spec_inputs(),
        ),
{
    lemma_has_all_3(inputs, InstructionInputRegister::Ra, InstructionInputRegister::Rb, InstructionInputRegister::Overflow);
}

proof fn lemma_so_mulldo(inputs: InstructionInput)
    requires
        inputs.overflow is Some,
        inputs.overflow.unwrap().so,
        Instr::MulLDO.spec_model(inputs) is Ok,
    ensures
        Instr::MulLDO.spec_model(inputs).unwrap().overflow is Some,
        Instr::MulLDO.spec_model(inputs).unwrap().overflow.unwrap().so,
{
}

proof fn lemma_ok_mulld_(inputs: InstructionInput)
    ensures
        (Instr::MulLD_.spec_model(inputs) is Ok) <==> has_all_inputs(
            inputs,
            Instr::MulLD_.spec_inputs(),
        ),
{
    lemma_has_all_3(inputs, InstructionInputRegister::Ra, InstructionInputRegister::Rb, InstructionInputRegister::Overflow);
}

proof fn lemma_ok_mulldo_(inputs: InstructionInput)
    ensures
        (Instr::MulLDO_.spec_model(inputs) is Ok) <==> has_all_inputs(
            inputs,
            Instr::MulLDO_.spec_inputs(),
        ),
{
    lemma_has_all_3(inputs, InstructionInputRegister::Ra, InstructionInputRegister::Rb, InstructionInputRegister::Overflow);
}

proof fn lemma_so_mulldo_(inputs: InstructionInput)
    requires
        inputs.overflow is Some,
        inputs.overflow.unwrap().so,
        Instr::MulLDO_.spec_model(inputs) is Ok,
    ensures
        Instr::MulLDO_.spec_model(inputs).unwrap().overflow is Some,
        Instr::MulLDO_.spec_model(inputs).unwrap().overflow.unwrap().so,
{
}

proof fn lemma_ok_mulhd(inputs: InstructionInput)
    ensures
        (Instr::MulHD.spec_model(inputs) is Ok) <==> has_all_inputs(
            inputs,
            Instr::MulHD.spec_inputs(),
        ),
{
    lemma_has_all_2(inputs, InstructionInputRegister::Ra, InstructionInputRegister::Rb);
}

proof fn lemma_ok_mulhd_(inputs: InstructionInput)
    ensures
        (Instr::MulHD_.spec_model(inputs) is Ok) <==> has_all_inputs(
            inputs,
            Instr::MulHD_.spec_inputs(),
        ),
{
    lemma_has_all_3(inputs, InstructionInputRegister::Ra, InstructionInputRegister::Rb, InstructionInputRegister::Overflow);
}

proof fn lemma_ok_mulhdu(inputs: InstructionInput)
    ensures
        (Instr::MulHDU.spec_model(inputs) is Ok) <==> has_all_inputs(
            inputs,
            Instr::MulHDU.spec_inputs(),
        ),
{
    lemma_has_all_2(inputs, InstructionInputRegister::Ra, InstructionInputRegister::Rb);
}

proof fn lemma_ok_mulhdu_(inputs: InstructionInput)
    ensures
        (Instr::MulHDU_.spec_model(inputs) is Ok) <==> has_all_inputs(
            inputs,
            Instr::MulHDU_.spec_inputs(),
        ),
{
    lemma_has_all_3(inputs, InstructionInputRegister::Ra, InstructionInputRegister::Rb, InstructionInputRegister::Overflow);
}

proof fn lemma_ok_maddhd(inputs: InstructionInput)
    ensures
        (Instr::MAddHD.spec_model(inputs) is Ok) <==> has_all_inputs(
            inputs,
            Instr::MAddHD.spec_inputs(),
        ),
{
    lemma_has_all_3(inputs, InstructionInputRegister::Ra, InstructionInputRegister::Rb, InstructionInputRegister::Rc);
}

proof fn lemma_ok_maddhdu(inputs: InstructionInput)
    ensures
        (Instr::MAddHDU.spec_model(inputs) is Ok) <==> has_all_inputs(
            inputs,
            Instr::MAddHDU.spec_inputs(),
        ),
{
    lemma_has_all_3(inputs, InstructionInputRegister::Ra, InstructionInputRegister::Rb, InstructionInputRegister::Rc);
}

proof fn lemma_ok_maddld(inputs: InstructionInput)
    ensures
        (Instr::MAddLD.spec_model(inputs) is Ok) <==> has_all_inputs(
            inputs,
            Instr::MAddLD.spec_inputs(),
        ),
{
    lemma_has_all_3(inputs, InstructionInputRegister::Ra, InstructionInputRegister::Rb, InstructionInputRegister::Rc);
}

proof fn lemma_ok_cmpdi(inputs: InstructionInput)
    ensures
        (Instr::CmpDI.spec_model(inputs) is Ok) <==> has_all_inputs(
            inputs,
            Instr::CmpDI.spec_inputs(),
        ),
{
    lemma_has_all_3(inputs, InstructionInputRegister::Ra, InstructionInputRegister::ImmediateS16, InstructionInputRegister::Overflow);
}

proof fn lemma_ok_cmpwi(inputs: InstructionInput)
    ensures
        (Instr::CmpWI.spec_model(inputs) is Ok) <==> has_all_inputs(
            inputs,
            Instr::CmpWI.spec_inputs(),
        ),
{
    lemma_has_all_3(inputs, InstructionInputRegister::Ra, InstructionInputRegister::ImmediateS16, InstructionInputRegister::Overflow);
}

proof fn lemma_ok_cmpldi(inputs: InstructionInput)
    ensures
        (Instr::CmpLDI.spec_model(inputs) is Ok) <==> has_all_inputs(
            inputs,
            Instr::CmpLDI.spec_inputs(),
        ),
{
    lemma_has_all_3(inputs, InstructionInputRegister::Ra, InstructionInputRegister::ImmediateU16, InstructionInputRegister::Overflow);
}

proof fn lemma_ok_cmplwi(inputs: InstructionInput)
    ensures
        (Instr::CmpLWI.spec_model(inputs) is Ok) <==> has_all_inputs(
            inputs,
            Instr::CmpLWI.spec_inputs(),
        ),
{
    lemma_has_all_3(inputs, InstructionInputRegister::Ra, InstructionInputRegister::ImmediateU16, InstructionInputRegister::Overflow);
}

proof fn lemma_ok_cmpd(inputs: InstructionInput)
    ensures
        (Instr::CmpD.spec_model(inputs) is Ok) <==> has_all_inputs(
            inputs,
            Instr::CmpD.spec_inputs(),
        ),
{
    lemma_has_all_3(inputs, InstructionInputRegister::Ra, InstructionInputRegister::Rb, InstructionInputRegister::Overflow);
}

proof fn lemma_ok_cmpw(inputs: InstructionInput)
    ensures
        (Instr::CmpW.spec_model(inputs) is Ok) <==> has_all_inputs(
            inputs,
            Instr::CmpW.spec_inputs(),
        ),
{
    lemma_has_all_3(inputs, InstructionInputRegister::Ra, InstructionInputRegister::Rb, InstructionInputRegister::Overflow);
}

proof fn lemma_ok_cmpld(inputs: InstructionInput)
    ensures
        (Instr::CmpLD.spec_model(inputs) is Ok) <==> has_all_inputs(
            inputs,
            Instr::CmpLD.spec_inputs(),
        ),
{
    lemma_has_all_3(inputs, InstructionInputRegister::Ra, InstructionInputRegister::Rb, InstructionInputRegister::Overflow);
}

proof fn lemma_ok_cmplw(inputs: InstructionInput)
    ensures
        (Instr::CmpLW.spec_model(inputs) is Ok) <==> has_all_inputs(
            inputs,
            Instr::CmpLW.spec_inputs(),
        ),
{
    lemma_has_all_3(inputs, InstructionInputRegister::Ra, InstructionInputRegister::Rb, InstructionInputRegister::Overflow);
}

proof fn lemma_ok_cmprb_0(inputs: InstructionInput)
    ensures
        (Instr::CmpRB0.spec_model(inputs) is Ok) <==> has_all_inputs(
            inputs,
            Instr::CmpRB0.spec_inputs(),
        ),
{
    lemma_has_all_2(inputs, InstructionInputRegister::Ra, InstructionInputRegister::Rb);
}

/// Law: an instruction's model succeeds exactly when every operand slot in
/// its declared input-register set is present in the input record.
pub proof fn lemma_model_ok_iff_inputs_present(i: Instr, inputs: InstructionInput)
    ensures
        (i.spec_model(inputs) is Ok) <==> has_all_inputs(inputs, i.spec_inputs()),
{
    match i {
        Instr::AddI => lemma_ok_addi(inputs),
        Instr::AddIS => lemma_ok_addis(inputs),
        Instr::Add => lemma_ok_add(inputs),
        Instr::AddO => lemma_ok_addo(inputs),
        Instr::Add_ => lemma_ok_add_(inputs),
        Instr::AddO_ => lemma_ok_addo_(inputs),
        Instr::AddIC => lemma_ok_addic(inputs),
        Instr::AddIC_ => lemma_ok_addic_(inputs),
        Instr::SubF => lemma_ok_subf(inputs),
        Instr::SubFO => lemma_ok_subfo(inputs),
        Instr::SubF_ => lemma_ok_subf_(inputs),
        Instr::SubFO_ => lemma_ok_subfo_(inputs),
        Instr::SubFIC => lemma_ok_subfic(inputs),
        Instr::AddC => lemma_ok_addc(inputs),
        Instr::AddCO => lemma_ok_addco(inputs),
        Instr::AddC_ => lemma_ok_addc_(inputs),
        Instr::AddCO_ => lemma_ok_addco_(inputs),
        Instr::SubFC => lemma_ok_subfc(inputs),
        Instr::SubFCO => lemma_ok_subfco(inputs),
        Instr::SubFC_ => lemma_ok_subfc_(inputs),
        Instr::SubFCO_ => lemma_ok_subfco_(inputs),
        Instr::AddE => lemma_ok_adde(inputs),
        Instr::AddEO => lemma_ok_addeo(inputs),
        Instr::AddE_ => lemma_ok_adde_(inputs),
        Instr::AddEO_ => lemma_ok_addeo_(inputs),
        Instr::SubFE => lemma_ok_subfe(inputs),
        Instr::SubFEO => lemma_ok_subfeo(inputs),
        Instr::SubFE_ => lemma_ok_subfe_(inputs),
        Instr::SubFEO_ => lemma_ok_subfeo_(inputs),
        Instr::AddME => lemma_ok_addme(inputs),
        Instr::AddMEO => lemma_ok_addmeo(inputs),
        Instr::AddME_ => lemma_ok_addme_(inputs),
        Instr::AddMEO_ => lemma_ok_addmeo_(inputs),
        Instr::SubFME => lemma_ok_subfme(inputs),
        Instr::SubFMEO => lemma_ok_subfmeo(inputs),
        Instr::SubFME_ => lemma_ok_subfme_(inputs),
        Instr::SubFMEO_ => lemma_ok_subfmeo_(inputs),
        Instr::AddZE => lemma_ok_addze(inputs),
        Instr::AddZEO => lemma_ok_addzeo(inputs),
        Instr::AddZE_ => lemma_ok_addze_(inputs),
        Instr::AddZEO_ => lemma_ok_addzeo_(inputs),
        Instr::SubFZE => lemma_ok_subfze(inputs),
        Instr::SubFZEO => lemma_ok_subfzeo(inputs),
        Instr::SubFZE_ => lemma_ok_subfze_(inputs),
        Instr::SubFZEO_ => lemma_ok_subfzeo_(inputs),
        Instr::AddEX => lemma_ok_addex(inputs),
        Instr::Neg => lemma_ok_neg(inputs),
        Instr::NegO => lemma_ok_nego(inputs),
        Instr::Neg_ => lemma_ok_neg_(inputs),
        Instr::NegO_ => lemma_ok_nego_(inputs),
        Instr::DivDE => lemma_ok_divde(inputs),
        Instr::DivDEO => lemma_ok_divdeo(inputs),
        Instr::DivDE_ => lemma_ok_divde_(inputs),
        Instr::DivDEO_ => lemma_ok_divdeo_(inputs),
        Instr::DivDEU => lemma_ok_divdeu(inputs),
        Instr::DivDEUO => lemma_ok_divdeuo(inputs),
        Instr::DivDEU_ => lemma_ok_divdeu_(inputs),
        Instr::DivDEUO_ => lemma_ok_divdeuo_(inputs),
        Instr::DivD => lemma_ok_divd(inputs),
        Instr::DivDO => lemma_ok_divdo(inputs),
        Instr::DivD_ => lemma_ok_divd_(inputs),
        Instr::DivDO_ => lemma_ok_divdo_(inputs),
        Instr::DivDU => lemma_ok_divdu(inputs),
        Instr::DivDUO => lemma_ok_divduo(inputs),
        Instr::DivDU_ => lemma_ok_divdu_(inputs),
        Instr::DivDUO_ => lemma_ok_divduo_(inputs),
        Instr::DivWE => lemma_ok_divwe(inputs),
        Instr::DivWEO => lemma_ok_divweo(inputs),
        Instr::DivWE_ => lemma_ok_divwe_(inputs),
        Instr::DivWEO_ => lemma_ok_divweo_(inputs),
        Instr::DivWEU => lemma_ok_divweu(inputs),
        Instr::DivWEUO => lemma_ok_divweuo(inputs),
        Instr::DivWEU_ => lemma_ok_divweu_(inputs),
        Instr::DivWEUO_ => lemma_ok_divweuo_(inputs),
        Instr::DivW => lemma_ok_divw(inputs),
        Instr::DivWO => lemma_ok_divwo(inputs),
        Instr::DivW_ => lemma_ok_divw_(inputs),
        Instr::DivWO_ => lemma_ok_divwo_(inputs),
        Instr::DivWU => lemma_ok_divwu(inputs),
        Instr::DivWUO => lemma_ok_divwuo(inputs),
        Instr::DivWU_ => lemma_ok_divwu_(inputs),
        Instr::DivWUO_ => lemma_ok_divwuo_(inputs),
        Instr::ModSD => lemma_ok_modsd(inputs),
        Instr::ModUD => lemma_ok_modud(inputs),
        Instr::ModSW => lemma_ok_modsw(inputs),
        Instr::ModUW => lemma_ok_moduw(inputs),
        Instr::MulLI => lemma_ok_mulli(inputs),
        Instr::MulLW => lemma_ok_mullw(inputs),
        Instr::MulLWO => lemma_ok_mullwo(inputs),
        Instr::MulLW_ => lemma_ok_mullw_(inputs),
        Instr::MulLWO_ => lemma_ok_mullwo_(inputs),
        Instr::MulHW => lemma_ok_mulhw(inputs),
        Instr::MulHW_ => lemma_ok_mulhw_(inputs),
        Instr::MulHWU => lemma_ok_mulhwu(inputs),
        Instr::MulHWU_ => lemma_ok_mulhwu_(inputs),
        Instr::MulLD => lemma_ok_mulld(inputs),
        Instr::MulLDO => lemma_ok_mulldo(inputs),
        Instr::MulLD_ => lemma_ok_mulld_(inputs),
        Instr::MulLDO_ => lemma_ok_mulldo_(inputs),
        Instr::MulHD => lemma_ok_mulhd(inputs),
        Instr::MulHD_ => lemma_ok_mulhd_(inputs),
        Instr::MulHDU => lemma_ok_mulhdu(inputs),
        Instr::MulHDU_ => lemma_ok_mulhdu_(inputs),
        Instr::MAddHD => lemma_ok_maddhd(inputs),
        Instr::MAddHDU => lemma_ok_maddhdu(inputs),
        Instr::MAddLD => lemma_ok_maddld(inputs),
        Instr::CmpDI => lemma_ok_cmpdi(inputs),
        Instr::CmpWI => lemma_ok_cmpwi(inputs),
        Instr::CmpLDI => lemma_ok_cmpldi(inputs),
        Instr::CmpLWI => lemma_ok_cmplwi(inputs),
        Instr::CmpD => lemma_ok_cmpd(inputs),
        Instr::CmpW => lemma_ok_cmpw(inputs),
        Instr::CmpLD => lemma_ok_cmpld(inputs),
        Instr::CmpLW => lemma_ok_cmplw(inputs),
        Instr::CmpRB0 => lemma_ok_cmprb_0(inputs),
    }
}

/// Whether the instruction writes the overflow flags into its output.
pub open spec fn writes_overflow(i: Instr) -> bool {
    match i {
        Instr::AddI => false,
        Instr::AddIS => false,
        Instr::Add => false,
        Instr::AddO => true,
        Instr::Add_ => false,
        Instr::AddO_ => true,
        Instr::AddIC => false,
        Instr::AddIC_ => false,
        Instr::SubF => false,
        Instr::SubFO => true,
        Instr::SubF_ => false,
        Instr::SubFO_ => true,
        Instr::SubFIC => false,
        Instr::AddC => false,
        Instr::AddCO => true,
        Instr::AddC_ => false,
        Instr::AddCO_ => true,
        Instr::SubFC => false,
        Instr::SubFCO => true,
        Instr::SubFC_ => false,
        Instr::SubFCO_ => true,
        Instr::AddE => false,
        Instr::AddEO => true,
        Instr::AddE_ => false,
        Instr::AddEO_ => true,
        Instr::SubFE => false,
        Instr::SubFEO => true,
        Instr::SubFE_ => false,
        Instr::SubFEO_ => true,
        Instr::AddME => false,
        Instr::AddMEO => true,
        Instr::AddME_ => false,
        Instr::AddMEO_ => true,
        Instr::SubFME => false,
        Instr::SubFMEO => true,
        Instr::SubFME_ => false,
        Instr::SubFMEO_ => true,
        Instr::AddZE => false,
        Instr::AddZEO => true,
        Instr::AddZE_ => false,
        Instr::AddZEO_ => true,
        Instr::SubFZE => false,
        Instr::SubFZEO => true,
        Instr::SubFZE_ => false,
        Instr::SubFZEO_ => true,
        Instr::AddEX => true,
        Instr::Neg => false,
        Instr::NegO => true,
        Instr::Neg_ => false,
        Instr::NegO_ => true,
        Instr::DivDE => false,
        Instr::DivDEO => true,
        Instr::DivDE_ => false,
        Instr::DivDEO_ => true,
        Instr::DivDEU => false,
        Instr::DivDEUO => true,
        Instr::DivDEU_ => false,
        Instr::DivDEUO_ => true,
        Instr::DivD => false,
        Instr::DivDO => true,
        Instr::DivD_ => false,
        Instr::DivDO_ => true,
        Instr::DivDU => false,
        Instr::DivDUO => true,
        Instr::DivDU_ => false,
        Instr::DivDUO_ => true,
        Instr::DivWE => false,
        Instr::DivWEO => true,
        Instr::DivWE_ => false,
        Instr::DivWEO_ => true,
        Instr::DivWEU => false,
        Instr::DivWEUO => true,
        Instr::DivWEU_ => false,
        Instr::DivWEUO_ => true,
        Instr::DivW => false,
        Instr::DivWO => true,
        Instr::DivW_ => false,
        Instr::DivWO_ => true,
        Instr::DivWU => false,
        Instr::DivWUO => true,
        Instr::DivWU_ => false,
        Instr::DivWUO_ => true,
        Instr::ModSD => false,
        Instr::ModUD => false,
        Instr::ModSW => false,
        Instr::ModUW => false,
        Instr::MulLI => false,
        Instr::MulLW => false,
        Instr::MulLWO => true,
        Instr::MulLW_ => false,
        Instr::MulLWO_ => true,
        Instr::MulHW => false,
        Instr::MulHW_ => false,
        Instr::MulHWU => false,
        Instr::MulHWU_ => false,
        Instr::MulLD => false,
        Instr::MulLDO => true,
        Instr::MulLD_ => false,
        Instr::MulLDO_ => true,
        Instr::MulHD => false,
        Instr::MulHD_ => false,
        Instr::MulHDU => false,
        Instr::MulHDU_ => false,
        Instr::MAddHD => false,
        Instr::MAddHDU => false,
        Instr::MAddLD => false,
        Instr::CmpDI => false,
        Instr::CmpWI => false,
        Instr::CmpLDI => false,
        Instr::CmpLWI => false,
        Instr::CmpD => false,
        Instr::CmpW => false,
        Instr::CmpLD => false,
        Instr::CmpLW => false,
        Instr::CmpRB0 => false,
    }
}

/// Law: every instruction that writes the overflow flags propagates a sticky
/// `so` supplied on input to its output, whether or not it overflows afresh.
pub proof fn lemma_so_propagation(i: Instr, inputs: InstructionInput)
    requires
        writes_overflow(i),
        inputs.overflow is Some,
        inputs.overflow.unwrap().so,
        i.spec_model(inputs) is Ok,
    ensures
        i.spec_model(inputs).unwrap().overflow is Some,
        i.spec_model(inputs).unwrap().overflow.unwrap().so,
{
    match i {
        Instr::AddO => lemma_so_addo(inputs),
        Instr::AddO_ => lemma_so_addo_(inputs),
        Instr::SubFO => lemma_so_subfo(inputs),
        Instr::SubFO_ => lemma_so_subfo_(inputs),
        Instr::AddCO => lemma_so_addco(inputs),
        Instr::AddCO_ => lemma_so_addco_(inputs),
        Instr::SubFCO => lemma_so_subfco(inputs),
        Instr::SubFCO_ => lemma_so_subfco_(inputs),
        Instr::AddEO => lemma_so_addeo(inputs),
        Instr::AddEO_ => lemma_so_addeo_(inputs),
        Instr::SubFEO => lemma_so_subfeo(inputs),
        Instr::SubFEO_ => lemma_so_subfeo_(inputs),
        Instr::AddMEO => lemma_so_addmeo(inputs),
        Instr::AddMEO_ => lemma_so_addmeo_(inputs),
        Instr::SubFMEO => lemma_so_subfmeo(inputs),
        Instr::SubFMEO_ => lemma_so_subfmeo_(inputs),
        Instr::AddZEO => lemma_so_addzeo(inputs),
        Instr::AddZEO_ => lemma_so_addzeo_(inputs),
        Instr::SubFZEO => lemma_so_subfzeo(inputs),
        Instr::SubFZEO_ => lemma_so_subfzeo_(inputs),
        Instr::AddEX => lemma_so_addex(inputs),
        Instr::NegO => lemma_so_nego(inputs),
        Instr::NegO_ => lemma_so_nego_(inputs),
        Instr::DivDEO => lemma_so_divdeo(inputs),
        Instr::DivDEO_ => lemma_so_divdeo_(inputs),
        Instr::DivDEUO => lemma_so_divdeuo(inputs),
        Instr::DivDEUO_ => lemma_so_divdeuo_(inputs),
        Instr::DivDO => lemma_so_divdo(inputs),
        Instr::DivDO_ => lemma_so_divdo_(inputs),
        Instr::DivDUO => lemma_so_divduo(inputs),
        Instr::DivDUO_ => lemma_so_divduo_(inputs),
        Instr::DivWEO => lemma_so_divweo(inputs),
        Instr::DivWEO_ => lemma_so_divweo_(inputs),
        Instr::DivWEUO => lemma_so_divweuo(inputs),
        Instr::DivWEUO_ => lemma_so_divweuo_(inputs),
        Instr::DivWO => lemma_so_divwo(inputs),
        Instr::DivWO_ => lemma_so_divwo_(inputs),
        Instr::DivWUO => lemma_so_divwuo(inputs),
        Instr::DivWUO_ => lemma_so_divwuo_(inputs),
        Instr::MulLWO => lemma_so_mullwo(inputs),
        Instr::MulLWO_ => lemma_so_mullwo_(inputs),
        Instr::MulLDO => lemma_so_mulldo(inputs),
        Instr::MulLDO_ => lemma_so_mulldo_(inputs),
        _ => {
        },
    }
}

} // verus!

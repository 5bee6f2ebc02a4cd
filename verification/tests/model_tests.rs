use power_instruction_analyzer::flags::{CarryFlags, ConditionRegister, OverflowFlags};
use power_instruction_analyzer::inputs::{InstructionInput, InstructionInputRegister};
use power_instruction_analyzer::instr::Instr;
use power_instruction_analyzer::model_add::{addic, addo};
use power_instruction_analyzer::model_cmp::{cmpd, cmprb_0};
use power_instruction_analyzer::model_div::{divdo, divwo, modsd, modsw};

fn base_inputs() -> InstructionInput {
    InstructionInput { ra: None, rb: None, rc: None, immediate: None, carry: None, overflow: None }
}

fn no_so() -> OverflowFlags {
    OverflowFlags { so: false, ov: false, ov32: false }
}

#[test]
fn divide_by_zero_sets_overflow_64() {
    let mut inputs = base_inputs();
    inputs.ra = Some(1234);
    inputs.rb = Some(0);
    inputs.overflow = Some(no_so());
    let out = divdo(inputs).unwrap();
    assert_eq!(out.rt, Some(0));
    let fl = out.overflow.unwrap();
    assert!(fl.ov);
    assert!(fl.ov32);
}

#[test]
fn divide_min_by_minus_one_sets_overflow_64() {
    let mut inputs = base_inputs();
    inputs.ra = Some(0x8000_0000_0000_0000);
    inputs.rb = Some(0xFFFF_FFFF_FFFF_FFFF);
    inputs.overflow = Some(no_so());
    let out = divdo(inputs).unwrap();
    assert_eq!(out.rt, Some(0));
    assert!(out.overflow.unwrap().ov);
}

#[test]
fn divide_by_zero_sets_overflow_32() {
    let mut inputs = base_inputs();
    inputs.ra = Some(77);
    inputs.rb = Some(0);
    inputs.overflow = Some(no_so());
    let out = divwo(inputs).unwrap();
    assert_eq!(out.rt, Some(0));
    assert!(out.overflow.unwrap().ov);
}

#[test]
fn divide_min_by_minus_one_sets_overflow_32() {
    let mut inputs = base_inputs();
    inputs.ra = Some(0x8000_0000);
    inputs.rb = Some(0xFFFF_FFFF);
    inputs.overflow = Some(no_so());
    let out = divwo(inputs).unwrap();
    assert_eq!(out.rt, Some(0));
    assert!(out.overflow.unwrap().ov);
}

#[test]
fn modulo_edge_cases_return_zero_without_overflow() {
    let mut inputs = base_inputs();
    inputs.ra = Some(0x8000_0000_0000_0000);
    inputs.rb = Some(0xFFFF_FFFF_FFFF_FFFF);
    let out = modsd(inputs).unwrap();
    assert_eq!(out.rt, Some(0));
    assert!(out.overflow.is_none());
    inputs.rb = Some(0);
    let out = modsd(inputs).unwrap();
    assert_eq!(out.rt, Some(0));
    assert!(out.overflow.is_none());
    inputs.ra = Some(0x8000_0000);
    inputs.rb = Some(0xFFFF_FFFF);
    let out = modsw(inputs).unwrap();
    assert_eq!(out.rt, Some(0));
    assert!(out.overflow.is_none());
}

#[test]
fn cmpd_equal_and_less() {
    let mut inputs = base_inputs();
    inputs.ra = Some(5);
    inputs.rb = Some(5);
    inputs.overflow = Some(OverflowFlags { so: true, ov: false, ov32: false });
    let out = cmpd(inputs).unwrap();
    let cr = out.cr0.unwrap();
    assert!(!cr.lt && !cr.gt && cr.eq && cr.so);
    inputs.ra = Some(i64::MIN as u64);
    inputs.rb = Some(1);
    inputs.overflow = Some(no_so());
    let out = cmpd(inputs).unwrap();
    let cr = out.cr0.unwrap();
    assert!(cr.lt && !cr.gt && !cr.eq && !cr.so);
}

#[test]
fn cmprb_byte_in_range_and_out_of_range() {
    let mut inputs = base_inputs();
    inputs.ra = Some(0x18);
    inputs.rb = Some(0x2010);
    let out = cmprb_0(inputs).unwrap();
    let cr = out.cr0.unwrap();
    assert!(!cr.lt && cr.gt && !cr.eq && !cr.so);
    inputs.ra = Some(0x21);
    let out = cmprb_0(inputs).unwrap();
    let cr = out.cr0.unwrap();
    assert!(!cr.lt && !cr.gt && !cr.eq && !cr.so);
}

#[test]
fn overflow_flags_roundtrip_all_combinations() {
    for bits in 0..8u32 {
        let f = OverflowFlags { so: bits & 4 != 0, ov: bits & 2 != 0, ov32: bits & 1 != 0 };
        assert_eq!(OverflowFlags::from_xer(f.to_xer()), f);
    }
}

#[test]
fn carry_flags_roundtrip_all_combinations() {
    for bits in 0..4u32 {
        let f = CarryFlags { ca: bits & 2 != 0, ca32: bits & 1 != 0 };
        assert_eq!(CarryFlags::from_xer(f.to_xer()), f);
    }
}

#[test]
fn condition_register_from_4_bits_roundtrip() {
    for bits in 0..16u8 {
        let cr = ConditionRegister::from_4_bits(bits);
        let packed = (if cr.lt { 8 } else { 0 }) | (if cr.gt { 4 } else { 0 }) | (if cr.eq {
            2
        } else {
            0
        }) | (if cr.so { 1 } else { 0 });
        assert_eq!(packed, bits);
    }
}

#[test]
fn condition_register_from_cr_field_extracts_nibble() {
    let cr_word: u32 = 0x1234_5678;
    let f0 = ConditionRegister::from_cr_field(cr_word, 0);
    assert!(!f0.lt && !f0.gt && !f0.eq && f0.so);
    let f7 = ConditionRegister::from_cr_field(cr_word, 7);
    assert!(f7.lt && !f7.gt && !f7.eq && !f7.so);
}

#[test]
fn so_propagates_through_addo() {
    let mut inputs = base_inputs();
    inputs.ra = Some(1);
    inputs.rb = Some(2);
    inputs.overflow = Some(OverflowFlags { so: true, ov: false, ov32: false });
    let out = addo(inputs).unwrap();
    assert_eq!(out.rt, Some(3));
    let fl = out.overflow.unwrap();
    assert!(fl.so && !fl.ov && !fl.ov32);
}

#[test]
fn carry_and_overflow_are_independent() {
    let mut inputs = base_inputs();
    inputs.ra = Some(0x7FFF_FFFF_FFFF_FFFF);
    inputs.rb = Some(1);
    inputs.overflow = Some(no_so());
    let out = addo(inputs).unwrap();
    let fl = out.overflow.unwrap();
    assert!(fl.ov);
    assert!(!fl.ov32);
    inputs.ra = Some(0x7FFF_FFFF);
    inputs.rb = Some(1);
    let out = addo(inputs).unwrap();
    let fl = out.overflow.unwrap();
    assert!(!fl.ov);
    assert!(fl.ov32);
}

#[test]
fn addic_computes_sum_and_carries() {
    let mut inputs = base_inputs();
    inputs.ra = Some(0xFFFF_FFFF_FFFF_FFFF);
    inputs.immediate = Some(1);
    let out = addic(inputs).unwrap();
    assert_eq!(out.rt, Some(0));
    let ca = out.carry.unwrap();
    assert!(ca.ca && ca.ca32);
    assert!(out.overflow.is_none());
}

#[test]
fn missing_input_is_reported() {
    let inputs = base_inputs();
    let err = addo(inputs).unwrap_err();
    assert_eq!(err.input, InstructionInputRegister::Ra);
}

#[test]
fn instr_values_and_names() {
    let values = Instr::values();
    assert_eq!(values.len(), 115);
    assert_eq!(values[0].name(), "addi");
    let regs = Instr::AddIC.get_used_input_registers();
    assert_eq!(
        regs,
        vec![InstructionInputRegister::Ra, InstructionInputRegister::ImmediateS16]
    );
}

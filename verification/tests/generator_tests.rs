use power_instruction_analyzer::executor::test_instr;
use power_instruction_analyzer::generator::enumerate_inputs;
use power_instruction_analyzer::inputs::{InstructionInput, InstructionInputRegister};
use power_instruction_analyzer::instr::Instr;

fn base_inputs() -> InstructionInput {
    InstructionInput { ra: None, rb: None, rc: None, immediate: None, carry: None, overflow: None }
}

#[test]
fn generator_count_is_product_of_corpus_sizes() {
    let regs = vec![InstructionInputRegister::Ra, InstructionInputRegister::ImmediateS16];
    let all = enumerate_inputs(base_inputs(), &regs);
    assert_eq!(all.len(), 32 * 9);
    let regs = vec![InstructionInputRegister::Ra, InstructionInputRegister::Rb];
    let all = enumerate_inputs(base_inputs(), &regs);
    assert_eq!(all.len(), 32 * 32);
    let regs = vec![
        InstructionInputRegister::Ra,
        InstructionInputRegister::Overflow,
        InstructionInputRegister::Carry,
    ];
    let all = enumerate_inputs(base_inputs(), &regs);
    assert_eq!(all.len(), 32 * 8 * 4);
}

#[test]
fn generator_varies_last_register_fastest() {
    let regs = vec![InstructionInputRegister::Ra, InstructionInputRegister::ImmediateS16];
    let all = enumerate_inputs(base_inputs(), &regs);
    // first block: ra stays at the first corpus value while the immediate walks
    for case in all.iter().take(9) {
        assert_eq!(case.ra, Some(0));
    }
    assert_eq!(all[0].immediate, Some(0));
    assert_eq!(all[1].immediate, Some(1));
    // 0xFFFF is sign-extended into the 64-bit immediate field
    assert_eq!(all[3].immediate, Some(0xFFFF_FFFF_FFFF_FFFF));
    // tenth case moves to the second ra corpus value
    assert_eq!(all[9].ra, Some(1));
    assert_eq!(all[9].immediate, Some(0));
}

#[test]
fn addic_end_to_end_run() {
    let cases = test_instr(Instr::AddIC).unwrap();
    assert_eq!(cases.len(), 32 * 9);
    for case in &cases {
        assert!(case.inputs.ra.is_some());
        assert!(case.inputs.immediate.is_some());
        assert!(case.model_outputs.carry.is_some());
        assert!(case.model_outputs.overflow.is_none());
        assert!(case.model_outputs.rt.is_some());
        assert!(case.native_outputs.is_none());
        assert!(!case.model_mismatch);
    }
}

#[test]
fn cmpd_full_run_never_misses_an_input() {
    let cases = test_instr(Instr::CmpD).unwrap();
    assert_eq!(cases.len(), 32 * 32 * 8);
    assert!(cases.iter().all(|c| !c.model_mismatch && c.model_outputs.cr0.is_some()));
}

#[test]
fn whole_run_is_complete_and_never_mismatches() {
    let whole = power_instruction_analyzer::executor::run_whole_test().unwrap();
    assert!(!whole.any_model_mismatch);
    let mut expected: usize = 0;
    for instr in Instr::values() {
        let mut product: usize = 1;
        for reg in instr.get_used_input_registers() {
            product *= match reg {
                InstructionInputRegister::Ra
                | InstructionInputRegister::Rb
                | InstructionInputRegister::Rc => 32,
                InstructionInputRegister::Carry => 4,
                InstructionInputRegister::Overflow => 8,
                InstructionInputRegister::ImmediateS16
                | InstructionInputRegister::ImmediateU16 => 9,
            };
        }
        expected += product;
    }
    assert_eq!(whole.test_cases.len(), expected);
    assert!(whole.test_cases.iter().all(|c| !c.model_mismatch && c.native_outputs.is_none()));
}

//! The differential executor and reporter. For each instruction it runs the
//! software model over every generated input combination, optionally pairs
//! the result with hardware outputs, compares the two field by field, and
//! aggregates the cases with an overall mismatch flag.

use vstd::prelude::*;

verus! {

use crate::generator::{corpus_product, enumerate_inputs, lemma_enumerate_sets, spec_enumerate};
use crate::inputs::{spec_input_none, InstructionInput, InstructionOutput, MissingInstructionInput};
use crate::instr::{lemma_model_ok_iff_inputs_present, Instr};

/// One differential test case: the inputs fed to an instruction, what the
/// model produced, what the hardware produced if it ran, and whether the two
/// disagree.
#[derive(Clone, Copy, Debug, PartialEq)]
pub struct TestCase {
    pub instr: Instr,
    pub inputs: InstructionInput,
    pub native_outputs: Option<InstructionOutput>,
    pub model_outputs: InstructionOutput,
    pub model_mismatch: bool,
}

/// The aggregate of a whole differential run: every test case, and whether
/// any of them mismatched.
#[derive(Clone, Debug)]
pub struct WholeTest {
    pub test_cases: Vec<TestCase>,
    pub any_model_mismatch: bool,
}

/// Whether a test case records exactly the model's answer for its inputs,
/// with a mismatch flag that is true exactly when hardware outputs are
/// present and differ from the model's in any field, absent-versus-present
/// included.
pub open spec fn case_consistent(c: TestCase) -> bool {
    &&& c.instr.spec_model(c.inputs) is Ok
    &&& c.model_outputs == c.instr.spec_model(c.inputs).unwrap()
    &&& c.model_mismatch == (c.native_outputs is Some && c.native_outputs.unwrap()
        != c.model_outputs)
}

impl TestCase {
    /// Builds one test case from the model's output and the hardware's, when
    /// the hardware ran, comparing the two field by field for exact equality.
    pub fn new(
        instr: Instr,
        inputs: InstructionInput,
        native_outputs: Option<InstructionOutput>,
        model_outputs: InstructionOutput,
    ) -> (r: TestCase)
        ensures
            r == (TestCase {
                instr,
                inputs,
                native_outputs,
                model_outputs,
                model_mismatch: native_outputs is Some && native_outputs.unwrap()
                    != model_outputs,
            }),
    {
        let model_mismatch = match &native_outputs {
            Some(n) => !n.same_as(&model_outputs),
            None => false,
        };
        TestCase { instr, inputs, native_outputs, model_outputs, model_mismatch }
    }
}

/// The exact sequence of test cases one instruction contributes to a model
/// run: one case per generated input combination, in enumeration order, with
/// the model's answer recorded and no hardware outputs.
pub open spec fn spec_instr_cases(instr: Instr) -> Seq<TestCase> {
    Seq::new(
        corpus_product(instr.spec_inputs()),
        |j: int|
            TestCase {
                instr,
                inputs: spec_enumerate(spec_input_none(), instr.spec_inputs())[j],
                native_outputs: None,
                model_outputs: instr.spec_model(
                    spec_enumerate(spec_input_none(), instr.spec_inputs())[j],
                ).unwrap(),
                model_mismatch: false,
            },
    )
}

/// The exact sequence of test cases a model run over the instruction list
/// `instrs` produces: each instruction's cases in turn, in list order.
pub open spec fn spec_whole_cases(instrs: Seq<Instr>) -> Seq<TestCase>
    decreases instrs.len(),
{
    if instrs.len() == 0 {
        Seq::empty()
    } else {
        spec_instr_cases(instrs[0]) + spec_whole_cases(instrs.drop_first())
    }
}

/// Runs the software model over every generated input combination for one
/// instruction. The generator supplies every operand the instruction
/// declares, so the model never reports a missing input; no hardware outputs
/// are recorded on this path, so no case mismatches.
pub fn test_instr(instr: Instr) -> (r: Result<Vec<TestCase>, MissingInstructionInput>)
    ensures
        r is Ok,
        r.unwrap()@ == spec_instr_cases(instr),
        r.unwrap()@.len() == corpus_product(instr.spec_inputs()),
        forall|j: int|
            0 <= j < r.unwrap()@.len() ==> {
                let c = #[trigger] r.unwrap()@[j];
                &&& c.instr == instr
                &&& c.inputs == spec_enumerate(spec_input_none(), instr.spec_inputs())[j]
                &&& c.native_outputs is None
                &&& !c.model_mismatch
                &&& case_consistent(c)
            },
{
    let regs = instr.get_used_input_registers();
    let all = enumerate_inputs(InstructionInput::default(), &regs);
    let total: usize = all.len();
    let mut cases: Vec<TestCase> = Vec::new();
    let mut i: usize = 0;
    while i < total
        invariant
            i <= total,
            total == all@.len(),
            regs@ == instr.spec_inputs(),
            all@ == spec_enumerate(spec_input_none(), instr.spec_inputs()),
            cases@.len() == i,
            forall|j: int|
                0 <= j < i ==> {
                    let c = #[trigger] cases@[j];
                    &&& c.instr == instr
                    &&& c.inputs == spec_enumerate(spec_input_none(), instr.spec_inputs())[j]
                    &&& c.native_outputs is None
                    &&& !c.model_mismatch
                    &&& case_consistent(c)
                },
        decreases total - i,
    {
        let case_inputs = all[i];
        proof {
            lemma_enumerate_sets(spec_input_none(), instr.spec_inputs(), i as int);
            lemma_model_ok_iff_inputs_present(instr, case_inputs);
        }
        let model_outputs = match instr.model(case_inputs) {
            Ok(o) => o,
            Err(e) => {
                return Err(e);
            },
        };
        cases.push(TestCase::new(instr, case_inputs, None, model_outputs));
        i += 1;
    }
    proof {
        assert(cases@ =~= spec_instr_cases(instr));
    }
    Ok(cases)
}

/// Runs the software model over every instruction and every generated input
/// combination, aggregating the cases. No hardware outputs are supplied on
/// this path, so the run never mismatches; the aggregate flag is still
/// computed from the cases. A missing input would name the responsible
/// instruction, but the generator provably supplies every declared operand,
/// so the run always succeeds.
#[verifier::rlimit(100)]
#[verifier::spinoff_prover]
pub fn run_whole_test() -> (r: Result<WholeTest, (Instr, MissingInstructionInput)>)
    ensures
        r is Ok,
        r.unwrap().test_cases@ == spec_whole_cases(Instr::spec_values()),
        forall|j: int|
            0 <= j < r.unwrap().test_cases@.len() ==> case_consistent(
                #[trigger] r.unwrap().test_cases@[j],
            ),
        r.unwrap().any_model_mismatch == (exists|j: int|
            0 <= j < r.unwrap().test_cases@.len()
                && (#[trigger] r.unwrap().test_cases@[j]).model_mismatch),
{
    let instrs = Instr::values();
    let total: usize = instrs.len();
    let mut test_cases: Vec<TestCase> = Vec::new();
    let mut any_model_mismatch = false;
    let mut i: usize = 0;
    proof {
        assert(instrs@.skip(0) =~= instrs@);
        assert(Seq::<TestCase>::empty() + spec_whole_cases(instrs@) =~= spec_whole_cases(instrs@));
    }
    while i < total
        invariant
            i <= total,
            total == instrs@.len(),
            instrs@ == Instr::spec_values(),
            test_cases@ + spec_whole_cases(instrs@.skip(i as int)) == spec_whole_cases(instrs@),
            forall|j: int|
                0 <= j < test_cases@.len() ==> case_consistent(#[trigger] test_cases@[j]),
            any_model_mismatch == (exists|j: int|
                0 <= j < test_cases@.len() && (#[trigger] test_cases@[j]).model_mismatch),
        decreases total - i,
    {
        let instr = instrs[i];
        let mut cases = match test_instr(instr) {
            Ok(c) => c,
            Err(e) => {
                return Err((instr, e));
            },
        };
        let ghost prev = test_cases@;
        let ghost added = cases@;
        test_cases.append(&mut cases);
        proof {
            assert(added == spec_instr_cases(instrs@[i as int]));
            assert(instrs@.skip(i as int)[0] == instrs@[i as int]);
            assert(instrs@.skip(i as int).drop_first() =~= instrs@.skip(i as int + 1));
            assert(spec_whole_cases(instrs@.skip(i as int)) == spec_instr_cases(
                instrs@[i as int],
            ) + spec_whole_cases(instrs@.skip(i as int + 1)));
            assert((prev + added) + spec_whole_cases(instrs@.skip(i as int + 1)) =~= prev + (added
                + spec_whole_cases(instrs@.skip(i as int + 1))));
            assert forall|j: int|
                0 <= j < test_cases@.len() implies case_consistent(
                #[trigger] test_cases@[j],
            ) by {
                if j < prev.len() {
                    assert(test_cases@[j] == prev[j]);
                } else {
                    assert(test_cases@[j] == added[j - prev.len()]);
                }
            }
            if any_model_mismatch {
                let j0 = choose|j: int| 0 <= j < prev.len() && (#[trigger] prev[j]).model_mismatch;
                assert(test_cases@[j0] == prev[j0]);
                assert(test_cases@[j0].model_mismatch);
            } else {
                assert forall|j: int|
                    0 <= j < test_cases@.len() implies !(#[trigger] test_cases@[j]).model_mismatch
                by {
                    if j < prev.len() {
                        assert(test_cases@[j] == prev[j]);
                        assert(!prev[j].model_mismatch);
                    } else {
                        assert(test_cases@[j] == added[j - prev.len()]);
                        assert(!added[j - prev.len()].model_mismatch);
                    }
                }
            }
        }
        i += 1;
    }
    proof {
        assert(instrs@.skip(total as int) =~= Seq::<Instr>::empty());
        assert(spec_whole_cases(instrs@.skip(total as int)) == Seq::<TestCase>::empty());
        assert(test_cases@ + Seq::<TestCase>::empty() =~= test_cases@);
    }
    Ok(WholeTest { test_cases, any_model_mismatch })
}

} // verus!

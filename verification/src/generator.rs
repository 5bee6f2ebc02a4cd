//! The combinatorial test-vector generator. Given an instruction's declared
//! input-register set it enumerates every combination of values drawn from a
//! fixed per-register corpus, walking the registers in declared order with
//! the last register varying fastest, and never skipping a combination: the
//! number of vectors is exactly the product of the corpus sizes.

use vstd::prelude::*;

verus! {

use crate::arith::{sext16, wrap64};
use crate::flags::{CarryFlags, OverflowFlags};
use crate::inputs::{has_input, InstructionInput, InstructionInputRegister};
use crate::instr::has_all_inputs;

/// The corpus of 64-bit boundary values for the register operands: zero,
/// small values, all-ones, the signed boundaries at both widths, and values
/// whose low bytes exercise the byte-range compare.
pub open spec fn spec_test_values() -> Seq<u64> {
    seq![
        0x0,
        0x1,
        0x2,
        0xFFFF_FFFF_FFFF_FFFF,
        0xFFFF_FFFF_FFFF_FFFE,
        0x7FFF_FFFF_FFFF_FFFE,
        0x7FFF_FFFF_FFFF_FFFF,
        0x8000_0000_0000_0000,
        0x8000_0000_0000_0001,
        0x1234_5678_0000_0000,
        0x1234_5678_7FFF_FFFE,
        0x1234_5678_7FFF_FFFF,
        0x1234_5678_8000_0000,
        0x1234_5678_8000_0001,
        0x1234_5678_FFFF_FFFF,
        0x7FFE,
        0x7FFF,
        0x8000,
        0x8001,
        0xFFED_CBA9_8765_4321,
        0x85AE_16A6_0C1A_0E1F,
        0xCF24_50C7_9E7E_DF20,
        0xD486_2724_930B_9021,
        0xDDBA_3880_8588_DF42,
        0x1F07_F322_68FE_5C43,
        0x739D_46C6_1E05_AE44,
        0xA131_E014_B201_9064,
        0xC70D_BC09_C48A_C665,
        0x1D61_5696_5920_E966,
        0x70F1_F260_8938_4486,
        0xEF25_5D74_1B45_CA87,
        0x3C54_DFA8_C006_5688,
    ]
}

/// The corpus of 16-bit boundary patterns for the immediate operands.
pub open spec fn spec_immed16_values() -> Seq<u64> {
    seq![0x0, 0x1, 0x2, 0xFFFF, 0xFFFE, 0x7FFE, 0x7FFF, 0x8000, 0x8001]
}

/// The register-operand corpus as a vector.
pub fn test_values() -> (r: Vec<u64>)
    ensures
        r@ == spec_test_values(),
{
    let mut v: Vec<u64> = Vec::new();
    v.push(0x0);
    v.push(0x1);
    v.push(0x2);
    v.push(0xFFFF_FFFF_FFFF_FFFF);
    v.push(0xFFFF_FFFF_FFFF_FFFE);
    v.push(0x7FFF_FFFF_FFFF_FFFE);
    v.push(0x7FFF_FFFF_FFFF_FFFF);
    v.push(0x8000_0000_0000_0000);
    v.push(0x8000_0000_0000_0001);
    v.push(0x1234_5678_0000_0000);
    v.push(0x1234_5678_7FFF_FFFE);
    v.push(0x1234_5678_7FFF_FFFF);
    v.push(0x1234_5678_8000_0000);
    v.push(0x1234_5678_8000_0001);
    v.push(0x1234_5678_FFFF_FFFF);
    v.push(0x7FFE);
    v.push(0x7FFF);
    v.push(0x8000);
    v.push(0x8001);
    v.push(0xFFED_CBA9_8765_4321);
    v.push(0x85AE_16A6_0C1A_0E1F);
    v.push(0xCF24_50C7_9E7E_DF20);
    v.push(0xD486_2724_930B_9021);
    v.push(0xDDBA_3880_8588_DF42);
    v.push(0x1F07_F322_68FE_5C43);
    v.push(0x739D_46C6_1E05_AE44);
    v.push(0xA131_E014_B201_9064);
    v.push(0xC70D_BC09_C48A_C665);
    v.push(0x1D61_5696_5920_E966);
    v.push(0x70F1_F260_8938_4486);
    v.push(0xEF25_5D74_1B45_CA87);
    v.push(0x3C54_DFA8_C006_5688);
    proof {
        assert(v@ =~= spec_test_values());
    }
    v
}

/// The immediate corpus as a vector.
pub fn immed16_values() -> (r: Vec<u64>)
    ensures
        r@ == spec_immed16_values(),
{
    let mut v: Vec<u64> = Vec::new();
    v.push(0x0);
    v.push(0x1);
    v.push(0x2);
    v.push(0xFFFF);
    v.push(0xFFFE);
    v.push(0x7FFE);
    v.push(0x7FFF);
    v.push(0x8000);
    v.push(0x8001);
    proof {
        assert(v@ =~= spec_immed16_values());
    }
    v
}

/// How many corpus values the generator enumerates for one operand slot.
pub open spec fn corpus_len(reg: InstructionInputRegister) -> nat {
    match reg {
        InstructionInputRegister::Ra => 32,
        InstructionInputRegister::Rb => 32,
        InstructionInputRegister::Rc => 32,
        InstructionInputRegister::Carry => 4,
        InstructionInputRegister::Overflow => 8,
        InstructionInputRegister::ImmediateS16 => 9,
        InstructionInputRegister::ImmediateU16 => 9,
    }
}

/// The exact number of combinations for a declared input-register list: the
/// product of the per-register corpus sizes.
pub open spec fn corpus_product(regs: Seq<InstructionInputRegister>) -> nat
    decreases regs.len(),
{
    if regs.len() == 0 {
        1
    } else {
        corpus_len(regs[0]) * corpus_product(regs.drop_first())
    }
}

/// The input record with the `k`-th corpus value of the slot `reg` filled in.
/// The signed immediate corpus is sign-extended into the 64-bit immediate
/// field, the unsigned one zero-extended; the flag corpora walk the full
/// boolean cross-products with the first-named flag varying slowest.
pub open spec fn apply_reg(
    inputs: InstructionInput,
    reg: InstructionInputRegister,
    k: int,
) -> InstructionInput {
    match reg {
        InstructionInputRegister::Ra => InstructionInput {
            ra: Some(spec_test_values()[k]),
            ..inputs
        },
        InstructionInputRegister::Rb => InstructionInput {
            rb: Some(spec_test_values()[k]),
            ..inputs
        },
        InstructionInputRegister::Rc => InstructionInput {
            rc: Some(spec_test_values()[k]),
            ..inputs
        },
        InstructionInputRegister::Carry => InstructionInput {
            carry: Some(CarryFlags { ca: k / 2 == 1, ca32: k % 2 == 1 }),
            ..inputs
        },
        InstructionInputRegister::Overflow => InstructionInput {
            overflow: Some(
                OverflowFlags { so: k / 4 == 1, ov: (k / 2) % 2 == 1, ov32: k % 2 == 1 },
            ),
            ..inputs
        },
        InstructionInputRegister::ImmediateS16 => InstructionInput {
            immediate: Some(wrap64(sext16(spec_immed16_values()[k]))),
            ..inputs
        },
        InstructionInputRegister::ImmediateU16 => InstructionInput {
            immediate: Some(spec_immed16_values()[k]),
            ..inputs
        },
    }
}

/// How far down the register list the enumeration has left to go: a measure
/// for the mutual recursion below.
pub open spec fn enumerate_measure(regs: Seq<InstructionInputRegister>) -> nat {
    if regs.len() == 0 {
        0
    } else {
        corpus_len(regs[0]) + 1
    }
}

/// Every combination of corpus values for the slots in `regs`, starting from
/// `inputs`: the registers are walked in declared order, the last one varying
/// fastest.
pub open spec fn spec_enumerate(
    inputs: InstructionInput,
    regs: Seq<InstructionInputRegister>,
) -> Seq<InstructionInput>
    decreases regs.len(), enumerate_measure(regs),
{
    if regs.len() == 0 {
        seq![inputs]
    } else {
        spec_enumerate_from(inputs, regs, 0)
    }
}

/// The tail of the enumeration: the combinations whose corpus index for the
/// first slot of `regs` is `k` or higher.
pub open spec fn spec_enumerate_from(
    inputs: InstructionInput,
    regs: Seq<InstructionInputRegister>,
    k: nat,
) -> Seq<InstructionInput>
    recommends
        regs.len() > 0,
    decreases regs.len(), corpus_len(regs[0]) - k,
{
    if regs.len() == 0 || k >= corpus_len(regs[0]) {
        Seq::empty()
    } else {
        spec_enumerate(apply_reg(inputs, regs[0], k as int), regs.drop_first())
            + spec_enumerate_from(inputs, regs, k + 1)
    }
}

proof fn lemma_enumerate_from_len(
    inputs: InstructionInput,
    regs: Seq<InstructionInputRegister>,
    k: nat,
)
    requires
        regs.len() > 0,
        k <= corpus_len(regs[0]),
    ensures
        spec_enumerate_from(inputs, regs, k).len() == (corpus_len(regs[0]) - k) * corpus_product(
            regs.drop_first(),
        ),
    decreases regs.len(), corpus_len(regs[0]) - k,
{
    let c = corpus_len(regs[0]);
    let p = corpus_product(regs.drop_first());
    if k < c {
        lemma_enumerate_from_len(inputs, regs, k + 1);
        lemma_enumerate_len(apply_reg(inputs, regs[0], k as int), regs.drop_first());
        assert(p + (c - k - 1) * p == (c - k) * p) by (nonlinear_arith)
            requires
                k < c,
        ;
    } else {
        assert((c - k) * p == 0) by (nonlinear_arith)
            requires
                c == k,
        ;
    }
}

/// Law: the generator enumerates exactly the product of the per-register
/// corpus sizes, one combination each, skipping none.
pub proof fn lemma_enumerate_len(inputs: InstructionInput, regs: Seq<InstructionInputRegister>)
    ensures
        spec_enumerate(inputs, regs).len() == corpus_product(regs),
    decreases regs.len(), enumerate_measure(regs),
{
    if regs.len() > 0 {
        lemma_enumerate_from_len(inputs, regs, 0);
    }
}

/// Filling one operand slot leaves every already-present slot present.
proof fn lemma_apply_reg_preserves(
    inputs: InstructionInput,
    reg: InstructionInputRegister,
    k: int,
    r: InstructionInputRegister,
)
    requires
        has_input(inputs, r),
    ensures
        has_input(apply_reg(inputs, reg, k), r),
{
}

proof fn lemma_enumerate_from_preserves(
    inputs: InstructionInput,
    regs: Seq<InstructionInputRegister>,
    k: nat,
    j: int,
    r: InstructionInputRegister,
)
    requires
        regs.len() > 0,
        has_input(inputs, r),
        0 <= j < spec_enumerate_from(inputs, regs, k).len(),
    ensures
        has_input(spec_enumerate_from(inputs, regs, k)[j], r),
    decreases regs.len(), corpus_len(regs[0]) - k,
{
    let applied = apply_reg(inputs, regs[0], k as int);
    let chunk = spec_enumerate(applied, regs.drop_first());
    if j < chunk.len() {
        lemma_apply_reg_preserves(inputs, regs[0], k as int, r);
        lemma_enumerate_preserves(applied, regs.drop_first(), j, r);
    } else {
        lemma_enumerate_from_preserves(inputs, regs, k + 1, j - chunk.len(), r);
    }
}

/// Law: every enumerated combination keeps the operand slots that were
/// already present in the starting record.
pub proof fn lemma_enumerate_preserves(
    inputs: InstructionInput,
    regs: Seq<InstructionInputRegister>,
    j: int,
    r: InstructionInputRegister,
)
    requires
        0 <= j < spec_enumerate(inputs, regs).len(),
        has_input(inputs, r),
    ensures
        has_input(spec_enumerate(inputs, regs)[j], r),
    decreases regs.len(), enumerate_measure(regs),
{
    if regs.len() == 0 {
        assert(spec_enumerate(inputs, regs)[0] == inputs);
    } else {
        lemma_enumerate_from_preserves(inputs, regs, 0, j, r);
    }
}

proof fn lemma_enumerate_from_sets(
    inputs: InstructionInput,
    regs: Seq<InstructionInputRegister>,
    k: nat,
    j: int,
)
    requires
        regs.len() > 0,
        0 <= j < spec_enumerate_from(inputs, regs, k).len(),
    ensures
        has_all_inputs(spec_enumerate_from(inputs, regs, k)[j], regs),
    decreases regs.len(), corpus_len(regs[0]) - k,
{
    let applied = apply_reg(inputs, regs[0], k as int);
    let chunk = spec_enumerate(applied, regs.drop_first());
    if j < chunk.len() {
        lemma_enumerate_sets(applied, regs.drop_first(), j);
        assert(has_input(applied, regs[0]));
        lemma_enumerate_preserves(applied, regs.drop_first(), j, regs[0]);
        let elem = chunk[j];
        assert forall|m: int| 0 <= m < regs.len() implies has_input(elem, #[trigger] regs[m]) by {
            if m > 0 {
                assert(regs.drop_first()[m - 1] == regs[m]);
                assert(has_input(elem, regs.drop_first()[m - 1]));
            }
        }
    } else {
        lemma_enumerate_from_sets(inputs, regs, k + 1, j - chunk.len());
    }
}

/// Law: every enumerated combination has every operand slot of the declared
/// input-register list present.
pub proof fn lemma_enumerate_sets(
    inputs: InstructionInput,
    regs: Seq<InstructionInputRegister>,
    j: int,
)
    requires
        0 <= j < spec_enumerate(inputs, regs).len(),
    ensures
        has_all_inputs(spec_enumerate(inputs, regs)[j], regs),
    decreases regs.len(), enumerate_measure(regs),
{
    if regs.len() > 0 {
        lemma_enumerate_from_sets(inputs, regs, 0, j);
    }
}

/// The input record with the `k`-th corpus value of the slot `reg` filled in.
fn apply_reg_exec(
    inputs: InstructionInput,
    reg: InstructionInputRegister,
    k: usize,
    tv: &Vec<u64>,
    iv: &Vec<u64>,
) -> (r: InstructionInput)
    requires
        tv@ == spec_test_values(),
        iv@ == spec_immed16_values(),
        (k as nat) < corpus_len(reg),
    ensures
        r == apply_reg(inputs, reg, k as int),
{
    match reg {
        InstructionInputRegister::Ra => {
            let mut inp = inputs;
            inp.ra = Some(tv[k]);
            inp
        },
        InstructionInputRegister::Rb => {
            let mut inp = inputs;
            inp.rb = Some(tv[k]);
            inp
        },
        InstructionInputRegister::Rc => {
            let mut inp = inputs;
            inp.rc = Some(tv[k]);
            inp
        },
        InstructionInputRegister::Carry => {
            let mut inp = inputs;
            inp.carry = Some(CarryFlags { ca: k / 2 == 1, ca32: k % 2 == 1 });
            inp
        },
        InstructionInputRegister::Overflow => {
            let mut inp = inputs;
            inp.overflow = Some(
                OverflowFlags { so: k / 4 == 1, ov: (k / 2) % 2 == 1, ov32: k % 2 == 1 },
            );
            inp
        },
        InstructionInputRegister::ImmediateS16 => {
            let v = iv[k];
            let lo: u64 = v % 0x1_0000;
            let s: i128 = if lo < 0x8000 {
                lo as i128
            } else {
                (lo as i128) - 0x1_0000i128
            };
            let mut inp = inputs;
            inp.immediate = Some(crate::arith::wrap_i128(s));
            inp
        },
        InstructionInputRegister::ImmediateU16 => {
            let mut inp = inputs;
            inp.immediate = Some(iv[k]);
            inp
        },
    }
}

/// The recursive core of the generator: appends to `out` every combination
/// for the register slots from `idx` on, in enumeration order.
fn enumerate_rec(
    inputs: InstructionInput,
    regs: &Vec<InstructionInputRegister>,
    idx: usize,
    out: &mut Vec<InstructionInput>,
)
    requires
        idx <= regs@.len(),
    ensures
        final(out)@ == old(out)@ + spec_enumerate(inputs, regs@.skip(idx as int)),
    decreases regs@.len() - idx,
{
    if idx == regs.len() {
        out.push(inputs);
        proof {
            assert(regs@.skip(idx as int) =~= Seq::<InstructionInputRegister>::empty());
            assert(out@ =~= old(out)@ + seq![inputs]);
        }
        return;
    }
    let tv = test_values();
    let iv = immed16_values();
    let reg = regs[idx];
    let n: usize = match reg {
        InstructionInputRegister::Ra => 32,
        InstructionInputRegister::Rb => 32,
        InstructionInputRegister::Rc => 32,
        InstructionInputRegister::Carry => 4,
        InstructionInputRegister::Overflow => 8,
        InstructionInputRegister::ImmediateS16 => 9,
        InstructionInputRegister::ImmediateU16 => 9,
    };
    proof {
        assert(regs@.skip(idx as int)[0] == regs@[idx as int]);
        assert(regs@.skip(idx as int).drop_first() =~= regs@.skip(idx as int + 1));
    }
    let mut k: usize = 0;
    while k < n
        invariant
            k <= n,
            idx < regs@.len(),
            regs@.len() <= usize::MAX,
            reg == regs@[idx as int],
            n as nat == corpus_len(reg),
            tv@ == spec_test_values(),
            iv@ == spec_immed16_values(),
            regs@.skip(idx as int)[0] == reg,
            regs@.skip(idx as int).drop_first() == regs@.skip(idx as int + 1),
            out@ + spec_enumerate_from(inputs, regs@.skip(idx as int), k as nat) == old(out)@
                + spec_enumerate(inputs, regs@.skip(idx as int)),
        decreases n - k,
    {
        let inp = apply_reg_exec(inputs, reg, k, &tv, &iv);
        let ghost out_prev = out@;
        enumerate_rec(inp, regs, idx + 1, out);
        proof {
            let full = regs@.skip(idx as int);
            let chunk = spec_enumerate(apply_reg(inputs, full[0], k as int), full.drop_first());
            assert(spec_enumerate_from(inputs, full, k as nat) == chunk + spec_enumerate_from(
                inputs,
                full,
                k as nat + 1,
            ));
            assert(out@ == out_prev + chunk);
            assert((out_prev + chunk) + spec_enumerate_from(inputs, full, k as nat + 1) =~= out_prev
                + (chunk + spec_enumerate_from(inputs, full, k as nat + 1)));
        }
        k += 1;
    }
    proof {
        let full = regs@.skip(idx as int);
        assert(spec_enumerate_from(inputs, full, n as nat) =~= Seq::<InstructionInput>::empty());
        assert(out@ + Seq::<InstructionInput>::empty() =~= out@);
    }
}

/// Enumerates every combination of corpus values for the given declared
/// input-register list, starting from `base`: the registers vary in list
/// order with the last varying fastest, no combination is skipped, and the
/// number of combinations is exactly the product of the corpus sizes.
pub fn enumerate_inputs(base: InstructionInput, regs: &Vec<InstructionInputRegister>) -> (r: Vec<
    InstructionInput>)
    ensures
        r@ == spec_enumerate(base, regs@),
        r@.len() == corpus_product(regs@),
{
    let mut out: Vec<InstructionInput> = Vec::new();
    proof {
        assert(regs@.skip(0) =~= regs@);
    }
    enumerate_rec(base, regs, 0, &mut out);
    proof {
        assert(Seq::<InstructionInput>::empty() + spec_enumerate(base, regs@) =~= spec_enumerate(
            base,
            regs@,
        ));
        lemma_enumerate_len(base, regs@);
    }
    out
}

} // verus!

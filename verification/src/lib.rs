//! A software model of the PowerPC fixed-point arithmetic, carry/overflow and
//! compare instructions, together with a combinatorial test-vector generator
//! and a differential executor that compares the model against optionally
//! supplied hardware results.
//!
//! Every instruction model is a pure function from an [`InstructionInput`]
//! record to an [`InstructionOutput`] record, specified bit-for-bit against a
//! mathematical model of two's-complement arithmetic.

pub mod arith;
pub mod flags;
pub mod executor;
pub mod generator;
pub mod inputs;
pub mod instr;
pub mod model_add;
pub mod model_cmp;
pub mod model_div;
pub mod model_mul;
pub mod variants;

pub use arith::{
    abs_val, b2i, carry32, carry64, fits_i32, fits_i64, low16, low32, not64, sext16, sext32,
    sext64, sovf32, sovf64, trunc_div, trunc_rem, wadd64, wrap32, wrap64,
};

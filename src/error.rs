//! The ways in which building an expression or differentiating it can fail.
use vstd::prelude::*;

verus! {

/// Why an operation on the tape, or a gradient query, did not succeed.
#[derive(Debug)]
pub enum AutodiffError {
    /// The variable is a detached constant: it has no position on a tape.
    NotDifferentiable,
    /// The variable names a position that the tape does not hold, so it was
    /// made on another tape.
    UnknownVariable,
    /// An operand that must be a constant lies on a tape.
    NotConstant,
    /// The operands' shapes do not fit the requested operation.
    ShapeMismatch,
    /// The value is not a two-dimensional tensor.
    NotAMatrix,
    /// The value does not hold 64-bit floats.
    WrongDType,
    /// The tensor library reported a failure.
    Tensor(candle_core::Error),
}

} // verus!

//! The rectified linear unit.
use vstd::prelude::*;
use candle_core::Tensor;
use crate::error::AutodiffError;
use crate::ops::checked;
use crate::tape::{Adjoint, AdjointKind, Tape};
use crate::tensor::{self, has_shape, is_matrix, shape_of};
use crate::variable::{lift, recorded, Variable};

verus! {

/// Values at which `max(x, 0)` can be differentiated.
pub trait ReLU: Sized {
    /// What a call of [`ReLU::derivative`] at `val` owes.
    spec fn derivative_spec(val: Self, r: Result<Self, AutodiffError>) -> bool;

    /// The derivative of `max(x, 0)` at `val`: 1 where `val` is positive,
    /// 0 elsewhere.
    fn derivative(val: &Self) -> (r: Result<Self, AutodiffError>)
        ensures
            Self::derivative_spec(*val, r);
}

impl ReLU for Tensor {
    /// A matrix of 64-bit floats has a derivative of its own shape; the only
    /// failures come from the tensor library.
    open spec fn derivative_spec(val: Tensor, r: Result<Tensor, AutodiffError>) -> bool {
        &&& is_matrix(val) ==> r is Ok && has_shape(r->Ok_0, shape_of(val))
        &&& r is Err ==> r->Err_0 is Tensor
    }

    fn derivative(val: &Tensor) -> (r: Result<Tensor, AutodiffError>) {
        let positive = lift(tensor::relu(val))?;
        lift(tensor::sign(&positive))
    }
}

impl Variable {
    /// Elementwise `max(self, 0)`, with weight 1 where `self` is positive and
    /// 0 elsewhere.
    pub fn relu(&self, tape: &mut Tape) -> (r: Result<Variable, AutodiffError>)
        requires
            old(tape).wf(),
            old(tape)@.len() < usize::MAX,
        ensures
            final(tape).wf(),
            checked(r, self.known_to(old(tape)), true, true),
            r is Ok ==> recorded(old(tape), final(tape), r->Ok_0, self.slot(), AdjointKind::Elementwise,
                None, AdjointKind::Inert, self.dims()),
            r is Err ==> final(tape)@ == old(tape)@ && final(tape).id() == old(tape).id(),
            r is Ok ==> has_shape(r->Ok_0.val(), r->Ok_0.dims()),
    {
        if !self.belongs_to(tape) {
            return Err(AutodiffError::UnknownVariable);
        }
        let value = lift(tensor::relu(self.value()))?;
        let weight = Tensor::derivative(self.value())?;
        Ok(tape.record(self.index(), Adjoint::Elementwise(weight), None, Adjoint::Inert, self.shape(), value))
    }
}

} // verus!

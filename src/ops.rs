//! The differentiable operations. Each computes its forward value, then
//! records one node whose adjoint rules are the local derivatives with
//! respect to its operands, taken at the operands' forward values.
use vstd::prelude::*;
use crate::error::AutodiffError;
use crate::tape::{Adjoint, AdjointKind, Tape};
use crate::tensor::{self, has_shape, Shape};
use crate::variable::{lift, recorded, Variable};

verus! {

/// The outcome of an operation: it fails with an operand unknown to the
/// tape, with an operand that must be constant and is not, or with shapes
/// that do not fit, checked in that order, and succeeds otherwise.
pub open spec fn checked(
    r: Result<Variable, AutodiffError>,
    known: bool,
    constant: bool,
    fits: bool,
) -> bool {
    &&& (r is Err && r->Err_0 is UnknownVariable) <==> !known
    &&& (r is Err && r->Err_0 is NotConstant) <==> known && !constant
    &&& (r is Err && r->Err_0 is ShapeMismatch) <==> known && constant && !fits
    &&& r is Ok <==> known && constant && fits
}

/// The matrix product of values of shapes `lhs` and `rhs` is defined: the
/// inner sizes agree.
pub open spec fn matmul_fits(lhs: Shape, rhs: Shape) -> bool {
    lhs.cols == rhs.rows
}

impl Variable {
    /// Elementwise sum: both adjoint rules pass the upstream adjoint through.
    pub fn add(&self, tape: &mut Tape, rhs: &Variable) -> (r: Result<Variable, AutodiffError>)
        requires
            old(tape).wf(),
            old(tape)@.len() < usize::MAX,
        ensures
            final(tape).wf(),
            checked(r, self.known_to(old(tape)) && rhs.known_to(old(tape)), true, self.dims() == rhs.dims()),
            r is Ok ==> recorded(old(tape), final(tape), r->Ok_0, self.slot(), AdjointKind::Identity,
                rhs.slot(), AdjointKind::Identity, self.dims()),
            r is Err ==> final(tape)@ == old(tape)@ && final(tape).id() == old(tape).id(),
            r is Ok ==> has_shape(r->Ok_0.val(), r->Ok_0.dims()),
    {
        if !self.belongs_to(tape) || !rhs.belongs_to(tape) {
            return Err(AutodiffError::UnknownVariable);
        }
        let shape = self.shape();
        if shape != rhs.shape() {
            return Err(AutodiffError::ShapeMismatch);
        }
        let value = lift(tensor::elem_add(self.value(), rhs.value()))?;
        Ok(tape.record(self.index(), Adjoint::Identity, rhs.index(), Adjoint::Identity, shape, value))
    }

    /// Elementwise difference `self - rhs`: the adjoint flows to `self` as it
    /// is and to `rhs` negated.
    pub fn sub(&self, tape: &mut Tape, rhs: &Variable) -> (r: Result<Variable, AutodiffError>)
        requires
            old(tape).wf(),
            old(tape)@.len() < usize::MAX,
        ensures
            final(tape).wf(),
            checked(r, self.known_to(old(tape)) && rhs.known_to(old(tape)), true, self.dims() == rhs.dims()),
            r is Ok ==> recorded(old(tape), final(tape), r->Ok_0, self.slot(), AdjointKind::Identity,
                rhs.slot(), AdjointKind::Negated, self.dims()),
            r is Err ==> final(tape)@ == old(tape)@ && final(tape).id() == old(tape).id(),
            r is Ok ==> has_shape(r->Ok_0.val(), r->Ok_0.dims()),
    {
        if !self.belongs_to(tape) || !rhs.belongs_to(tape) {
            return Err(AutodiffError::UnknownVariable);
        }
        let shape = self.shape();
        if shape != rhs.shape() {
            return Err(AutodiffError::ShapeMismatch);
        }
        let value = lift(tensor::elem_sub(self.value(), rhs.value()))?;
        Ok(tape.record(self.index(), Adjoint::Identity, rhs.index(), Adjoint::Negated, shape, value))
    }

    /// Matrix product `self · rhs`. The weight of each operand is the other
    /// operand, transposed only when the adjoint is propagated.
    pub fn mul(&self, tape: &mut Tape, rhs: &Variable) -> (r: Result<Variable, AutodiffError>)
        requires
            old(tape).wf(),
            old(tape)@.len() < usize::MAX,
        ensures
            final(tape).wf(),
            checked(r, self.known_to(old(tape)) && rhs.known_to(old(tape)), true,
                matmul_fits(self.dims(), rhs.dims())),
            r is Ok ==> recorded(old(tape), final(tape), r->Ok_0, self.slot(), AdjointKind::MatmulLhs,
                rhs.slot(), AdjointKind::MatmulRhs, Shape { rows: self.dims().rows, cols: rhs.dims().cols }),
            r is Ok && self.slot() is Some && rhs.slot() is Some ==> final(tape)@.last().weight == (
                Adjoint::MatmulLhs(rhs.val()), Adjoint::MatmulRhs(self.val())),
            r is Err ==> final(tape)@ == old(tape)@ && final(tape).id() == old(tape).id(),
            r is Ok ==> has_shape(r->Ok_0.val(), r->Ok_0.dims()),
    {
        if !self.belongs_to(tape) || !rhs.belongs_to(tape) {
            return Err(AutodiffError::UnknownVariable);
        }
        let (ls, rs) = (self.shape(), rhs.shape());
        if ls.cols != rs.rows {
            return Err(AutodiffError::ShapeMismatch);
        }
        let value = lift(tensor::mat_mul(self.value(), rhs.value()))?;
        let shape = Shape { rows: ls.rows, cols: rs.cols };
        Ok(tape.record(self.index(), Adjoint::MatmulLhs(rhs.value().clone()), rhs.index(),
            Adjoint::MatmulRhs(self.value().clone()), shape, value))
    }

    /// Elementwise product: the weight of each operand is the other operand.
    pub fn mul_elementwise(&self, tape: &mut Tape, rhs: &Variable) -> (r: Result<Variable, AutodiffError>)
        requires
            old(tape).wf(),
            old(tape)@.len() < usize::MAX,
        ensures
            final(tape).wf(),
            checked(r, self.known_to(old(tape)) && rhs.known_to(old(tape)), true, self.dims() == rhs.dims()),
            r is Ok ==> recorded(old(tape), final(tape), r->Ok_0, self.slot(), AdjointKind::Elementwise,
                rhs.slot(), AdjointKind::Elementwise, self.dims()),
            r is Err ==> final(tape)@ == old(tape)@ && final(tape).id() == old(tape).id(),
            r is Ok ==> has_shape(r->Ok_0.val(), r->Ok_0.dims()),
    {
        if !self.belongs_to(tape) || !rhs.belongs_to(tape) {
            return Err(AutodiffError::UnknownVariable);
        }
        let shape = self.shape();
        if shape != rhs.shape() {
            return Err(AutodiffError::ShapeMismatch);
        }
        let value = lift(tensor::elem_mul(self.value(), rhs.value()))?;
        Ok(tape.record(self.index(), Adjoint::Elementwise(rhs.value().clone()), rhs.index(),
            Adjoint::Elementwise(self.value().clone()), shape, value))
    }

    /// `factor · self` for a 1-by-1 constant `factor`: the factor is the weight,
    /// broadcast over the upstream adjoint.
    pub fn scale(&self, tape: &mut Tape, factor: &Variable) -> (r: Result<Variable, AutodiffError>)
        requires
            old(tape).wf(),
            old(tape)@.len() < usize::MAX,
        ensures
            final(tape).wf(),
            checked(r, self.known_to(old(tape)) && factor.known_to(old(tape)), factor.slot() is None,
                factor.dims() == Shape { rows: 1, cols: 1 }),
            r is Ok ==> recorded(old(tape), final(tape), r->Ok_0, self.slot(), AdjointKind::Broadcast,
                None, AdjointKind::Inert, self.dims()),
            r is Err ==> final(tape)@ == old(tape)@ && final(tape).id() == old(tape).id(),
            r is Ok ==> has_shape(r->Ok_0.val(), r->Ok_0.dims()),
    {
        if !self.belongs_to(tape) || !factor.belongs_to(tape) {
            return Err(AutodiffError::UnknownVariable);
        }
        if factor.index().is_some() {
            return Err(AutodiffError::NotConstant);
        }
        if factor.shape() != Shape::scalar() {
            return Err(AutodiffError::ShapeMismatch);
        }
        let value = lift(tensor::broadcast_mul(factor.value(), self.value()))?;
        Ok(tape.record(self.index(), Adjoint::Broadcast(factor.value().clone()), None, Adjoint::Inert,
            self.shape(), value))
    }

    /// The sum of all elements, as a 1-by-1 value. The weight is a tensor of
    /// ones of the operand's shape, over which the upstream adjoint is broadcast.
    pub fn sum(&self, tape: &mut Tape) -> (r: Result<Variable, AutodiffError>)
        requires
            old(tape).wf(),
            old(tape)@.len() < usize::MAX,
        ensures
            final(tape).wf(),
            checked(r, self.known_to(old(tape)), true, true),
            r is Ok ==> recorded(old(tape), final(tape), r->Ok_0, self.slot(), AdjointKind::Broadcast,
                None, AdjointKind::Inert, Shape { rows: 1, cols: 1 }),
            r is Err ==> final(tape)@ == old(tape)@ && final(tape).id() == old(tape).id(),
            r is Ok ==> has_shape(r->Ok_0.val(), r->Ok_0.dims()),
    {
        if !self.belongs_to(tape) {
            return Err(AutodiffError::UnknownVariable);
        }
        let value = lift(tensor::sum_all(self.value()))?;
        let shape = self.shape();
        let weight = lift(tensor::ones(shape.rows, shape.cols))?;
        Ok(tape.record(self.index(), Adjoint::Broadcast(weight), None, Adjoint::Inert, Shape::scalar(), value))
    }

    /// Elementwise sine, with weight `cos(self)`.
    pub fn sin(&self, tape: &mut Tape) -> (r: Result<Variable, AutodiffError>)
        requires
            old(tape).wf(),
            old(tape)@.len() < usize::MAX,
        ensures
            final(tape).wf(),
            checked(r, self.known_to(old(tape)), true, true),
            r is Ok ==> recorded(old(tape), final(tape), r->Ok_0, self.slot(), AdjointKind::Elementwise,
                None, AdjointKind::Inert, self.dims()),
            r is Err ==> final(tape)@ == old(tape)@ && final(tape).id() == old(tape).id(),
            r is Ok ==> has_shape(r->Ok_0.val(), r->Ok_0.dims()),
    {
        if !self.belongs_to(tape) {
            return Err(AutodiffError::UnknownVariable);
        }
        let value = lift(tensor::sin(self.value()))?;
        let weight = lift(tensor::cos(self.value()))?;
        Ok(tape.record(self.index(), Adjoint::Elementwise(weight), None, Adjoint::Inert, self.shape(), value))
    }

    /// Elementwise cosine, with weight `-sin(self)`.
    pub fn cos(&self, tape: &mut Tape) -> (r: Result<Variable, AutodiffError>)
        requires
            old(tape).wf(),
            old(tape)@.len() < usize::MAX,
        ensures
            final(tape).wf(),
            checked(r, self.known_to(old(tape)), true, true),
            r is Ok ==> recorded(old(tape), final(tape), r->Ok_0, self.slot(), AdjointKind::Elementwise,
                None, AdjointKind::Inert, self.dims()),
            r is Err ==> final(tape)@ == old(tape)@ && final(tape).id() == old(tape).id(),
            r is Ok ==> has_shape(r->Ok_0.val(), r->Ok_0.dims()),
    {
        if !self.belongs_to(tape) {
            return Err(AutodiffError::UnknownVariable);
        }
        let value = lift(tensor::cos(self.value()))?;
        let s = lift(tensor::sin(self.value()))?;
        let weight = lift(tensor::negated(&s))?;
        Ok(tape.record(self.index(), Adjoint::Elementwise(weight), None, Adjoint::Inert, self.shape(), value))
    }

    /// Each element raised to the power that the 1-by-1 constant `exponent`
    /// holds, with weight `p · self^(p - 1)`.
    pub fn pow(&self, tape: &mut Tape, exponent: &Variable) -> (r: Result<Variable, AutodiffError>)
        requires
            old(tape).wf(),
            old(tape)@.len() < usize::MAX,
        ensures
            final(tape).wf(),
            checked(r, self.known_to(old(tape)) && exponent.known_to(old(tape)), exponent.slot() is None,
                exponent.dims() == Shape { rows: 1, cols: 1 }),
            r is Ok ==> recorded(old(tape), final(tape), r->Ok_0, self.slot(), AdjointKind::Elementwise,
                None, AdjointKind::Inert, self.dims()),
            r is Err ==> final(tape)@ == old(tape)@ && final(tape).id() == old(tape).id(),
            r is Ok ==> has_shape(r->Ok_0.val(), r->Ok_0.dims()),
    {
        if !self.belongs_to(tape) || !exponent.belongs_to(tape) {
            return Err(AutodiffError::UnknownVariable);
        }
        if exponent.index().is_some() {
            return Err(AutodiffError::NotConstant);
        }
        if exponent.shape() != Shape::scalar() {
            return Err(AutodiffError::ShapeMismatch);
        }
        let value = lift(tensor::powf(self.value(), exponent.value()))?;
        let one = lift(tensor::ones(1, 1))?;
        let lowered = lift(tensor::elem_sub(exponent.value(), &one))?;
        let slope = lift(tensor::powf(self.value(), &lowered))?;
        let weight = lift(tensor::broadcast_mul(exponent.value(), &slope))?;
        Ok(tape.record(self.index(), Adjoint::Elementwise(weight), None, Adjoint::Inert, self.shape(), value))
    }
}

} // verus!

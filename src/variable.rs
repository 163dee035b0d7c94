//! Variables: handles that pair a value with its position on a tape.
use vstd::prelude::*;
use candle_core::Tensor;
use crate::error::AutodiffError;
use crate::tape::{slot_sound, Adjoint, AdjointKind, Node, Tape};
use crate::tensor::{dims, has_shape, is_f64, tensor_dims, tensor_is_f64, Shape};

verus! {

/// A value, with the tape and position of the node that stands for it, or no
/// position for a detached constant. The value is a matrix of 64-bit floats
/// of the recorded shape.
#[derive(Debug)]
pub struct Variable {
    index: Option<usize>,
    tape: u64,
    shape: Shape,
    value: Tensor,
}

impl Clone for Variable {
    /// The same variable: the same position, shape and value.
    fn clone(&self) -> Self {
        proof { use_type_invariant(self); }
        Variable { index: self.index, tape: self.tape, shape: self.shape, value: self.value.clone() }
    }
}

/// Hands a failure of the tensor library on as an [`AutodiffError`].
pub(crate) fn lift<T>(r: Result<T, candle_core::Error>) -> (o: Result<T, AutodiffError>)
    ensures
        r is Ok <==> o is Ok,
        r is Ok ==> o->Ok_0 == r->Ok_0,
        o is Err ==> o->Err_0 is Tensor,
{
    match r {
        Ok(t) => Ok(t),
        Err(e) => Err(AutodiffError::Tensor(e)),
    }
}

impl Variable {
    #[verifier::type_invariant]
    spec fn inv(&self) -> bool {
        has_shape(self.value, self.shape)
    }

    /// The tape position of the variable, `None` for a detached constant.
    pub closed spec fn slot(&self) -> Option<usize> {
        self.index
    }

    /// The identity of the tape the variable was made on; meaningless for a
    /// detached constant.
    pub closed spec fn tape_id(&self) -> u64 {
        self.tape
    }

    /// The shape of the variable's value.
    pub closed spec fn dims(&self) -> Shape {
        self.shape
    }

    /// The variable's value.
    pub closed spec fn val(&self) -> Tensor {
        self.value
    }

    /// The variable is a constant, or was made on `t` and names a position
    /// that `t` holds, whose node has the variable's shape.
    pub open spec fn known_to(&self, t: &Tape) -> bool {
        match self.slot() {
            Some(i) => self.tape_id() == t.id() && i < t@.len() && t@[i as int].shape == self.dims(),
            None => true,
        }
    }

    /// Wraps a matrix of 64-bit floats as a detached constant.
    pub fn from_tensor(value: Tensor) -> (r: Result<Variable, AutodiffError>)
        ensures
            (r is Err && r->Err_0 is NotAMatrix) <==> tensor_dims(value).len() != 2,
            (r is Err && r->Err_0 is WrongDType) <==> tensor_dims(value).len() == 2 && !tensor_is_f64(value),
            r is Err ==> r->Err_0 is NotAMatrix || r->Err_0 is WrongDType,
            r is Ok ==> {
                &&& r->Ok_0.slot() is None
                &&& r->Ok_0.val() == value
                &&& tensor_dims(value) == seq![r->Ok_0.dims().rows, r->Ok_0.dims().cols]
            },
    {
        match dims(&value) {
            Ok((rows, cols)) => if is_f64(&value) {
                assert(tensor_dims(value) =~= seq![rows, cols]);
                Ok(Variable { index: None, tape: 0, shape: Shape { rows, cols }, value })
            } else {
                Err(AutodiffError::WrongDType)
            },
            Err(_) => Err(AutodiffError::NotAMatrix),
        }
    }

    /// The position on the tape, `None` for a detached constant.
    pub fn index(&self) -> (r: Option<usize>)
        ensures
            r == self.slot(),
    {
        self.index
    }

    /// The identity of the tape the variable was made on.
    pub fn tape_id_value(&self) -> (r: u64)
        ensures
            r == self.tape_id(),
    {
        self.tape
    }

    /// The shape of the value.
    pub fn shape(&self) -> (r: Shape)
        ensures
            r == self.dims(),
    {
        self.shape
    }

    /// Whether the variable is a constant, or was made on `tape` and names a
    /// position that `tape` holds with a node of the variable's shape.
    pub fn belongs_to(&self, tape: &Tape) -> (r: bool)
        ensures
            r == self.known_to(tape),
    {
        match self.index {
            Some(i) => self.tape == tape.id_value() && i < tape.len() && tape.node(i).shape == self.shape,
            None => true,
        }
    }

    /// The value computed by the forward pass: a matrix of 64-bit floats of
    /// the variable's shape.
    pub fn value(&self) -> (r: &Tensor)
        ensures
            *r == self.val(),
            has_shape(*r, self.dims()),
    {
        proof { use_type_invariant(self); }
        &self.value
    }
}

/// What an operation with operands at positions `a` and `b` (`None` for a
/// constant) and adjoint rules `ka` and `kb` leaves behind: one new node whose
/// live slots point at the operands on the tape, or, when both operands are
/// constants, the tape as it was and a constant result.
pub open spec fn recorded(
    before: &Tape,
    after: &Tape,
    z: Variable,
    a: Option<usize>,
    ka: AdjointKind,
    b: Option<usize>,
    kb: AdjointKind,
    shape: Shape,
) -> bool {
    let n = before@.len();
    let node = after@.last();
    let pushed = {
        &&& after@.len() == n + 1
        &&& after@.take(n as int) == before@
        &&& z.slot() is Some && z.slot()->Some_0 == n
        &&& z.tape_id() == before.id()
        &&& !node.is_leaf
        &&& node.shape == shape
    };
    &&& after.id() == before.id()
    &&& z.dims() == shape
    &&& match (a, b) {
        (Some(i), Some(j)) => pushed && node.weight.0.kind() == ka && node.weight.1.kind() == kb
            && node.deps == (i, j),
        (Some(i), None) => pushed && node.weight.0.kind() == ka && node.weight.1 is Inert
            && node.deps.0 == i && node.deps.1 == n,
        (None, Some(j)) => pushed && node.weight.0.kind() == kb && node.weight.1 is Inert
            && node.deps.0 == j && node.deps.1 == n,
        (None, None) => z.slot() is None && after@ == before@,
    }
}

/// Recording an operation only appends: the nodes already on the tape keep
/// their positions and contents, every variable known to the tape before is
/// known to it after, and the result is known to it too.
pub proof fn lemma_record_extends(
    before: &Tape,
    after: &Tape,
    z: Variable,
    a: Option<usize>,
    ka: AdjointKind,
    b: Option<usize>,
    kb: AdjointKind,
    shape: Shape,
)
    requires
        recorded(before, after, z, a, ka, b, kb, shape),
    ensures
        before@.len() <= after@.len(),
        after@.take(before@.len() as int) == before@,
        z.known_to(after),
        forall|v: Variable| v.known_to(before) ==> #[trigger] v.known_to(after),
{
    if after@ == before@ {
        assert(after@.take(before@.len() as int) =~= before@);
    } else {
        assert(after@[before@.len() as int] == after@.last());
    }
    assert forall|v: Variable| v.known_to(before) implies #[trigger] v.known_to(after) by {
        if let Some(i) = v.slot() {
            assert(after@[i as int] == after@.take(before@.len() as int)[i as int]);
        }
    }
}

impl Tape {
    /// Records an operation whose forward value is `value` and returns the
    /// variable that holds it. `a` and `b` are the operands' positions, `None`
    /// for a constant operand, and `wa`, `wb` their adjoint rules: one node is
    /// pushed whose live slots are the operands on the tape, with their
    /// weights as given, or none when both operands are constants, and the
    /// result is then a constant too.
    pub fn record(
        &mut self,
        a: Option<usize>,
        wa: Adjoint,
        b: Option<usize>,
        wb: Adjoint,
        shape: Shape,
        value: Tensor,
    ) -> (z: Variable)
        requires
            old(self).wf(),
            old(self)@.len() < usize::MAX,
            has_shape(value, shape),
            a matches Some(i) ==> i < old(self)@.len() && slot_sound(wa, old(self)@[i as int].shape, shape),
            b matches Some(j) ==> j < old(self)@.len() && slot_sound(wb, old(self)@[j as int].shape, shape),
        ensures
            final(self).wf(),
            z.val() == value,
            recorded(old(self), final(self), z, a, wa.kind(), b, wb.kind(), shape),
            a is Some && b is Some ==> final(self)@.last().weight == (wa, wb),
            a is Some && b is None ==> final(self)@.last().weight == (wa, Adjoint::Inert),
            a is None && b is Some ==> final(self)@.last().weight == (wb, Adjoint::Inert),
    {
        let index = match (a, b) {
            (Some(i), Some(j)) => Some(self.push_binary(wa, i, wb, j, shape)),
            (Some(i), None) => Some(self.push_unary(wa, i, shape)),
            (None, Some(j)) => Some(self.push_unary(wb, j, shape)),
            (None, None) => None,
        };
        proof {
            if index is Some {
                assert(self@.take(old(self)@.len() as int) =~= old(self)@);
            }
        }
        Variable { index, tape: self.id_value(), shape, value }
    }

    /// Wraps a matrix of 64-bit floats as an input of the computation: a new
    /// leaf node of its shape.
    pub fn var(&mut self, value: Tensor) -> (r: Result<Variable, AutodiffError>)
        requires
            old(self).wf(),
            old(self)@.len() < usize::MAX,
        ensures
            final(self).wf(),
            final(self).id() == old(self).id(),
            (r is Err && r->Err_0 is NotAMatrix) <==> tensor_dims(value).len() != 2,
            (r is Err && r->Err_0 is WrongDType) <==> tensor_dims(value).len() == 2 && !tensor_is_f64(value),
            r is Err ==> final(self)@ == old(self)@ && (r->Err_0 is NotAMatrix || r->Err_0 is WrongDType),
            r is Ok ==> {
                let n = old(self)@.len() as usize;
                let v = r->Ok_0;
                &&& v.slot() == Some(n)
                &&& v.tape_id() == old(self).id()
                &&& v.val() == value
                &&& tensor_dims(value) == seq![v.dims().rows, v.dims().cols]
                &&& final(self)@ == old(self)@.push(
                    (Node { weight: (Adjoint::Inert, Adjoint::Inert), deps: (n, n), is_leaf: true, shape: v.dims() }),
                )
            },
    {
        match dims(&value) {
            Ok((rows, cols)) => if is_f64(&value) {
                assert(tensor_dims(value) =~= seq![rows, cols]);
                let shape = Shape { rows, cols };
                let index = self.push_leaf(shape);
                Ok(Variable { index: Some(index), tape: self.id_value(), shape, value })
            } else {
                Err(AutodiffError::WrongDType)
            },
            Err(_) => Err(AutodiffError::NotAMatrix),
        }
    }
}

} // verus!

//! The backward sweep, and the gradient it produces.
use vstd::prelude::*;
use candle_core::Tensor;
use crate::error::AutodiffError;
use crate::tape::{slot_sound, Adjoint, Node, Tape};
use crate::tensor::{self, has_shape};
use crate::variable::Variable;

verus! {

/// One derivative per position of one tape, from one backward sweep.
#[derive(Debug)]
pub struct Gradient {
    tape: u64,
    derivatives: Vec<Tensor>,
}

impl View for Gradient {
    type V = Seq<Tensor>;

    closed spec fn view(&self) -> Seq<Tensor> {
        self.derivatives@
    }
}

/// Every entry of `derivatives` is a matrix of 64-bit floats of the shape of
/// the node at its position.
pub open spec fn shaped_like(derivatives: Seq<Tensor>, nodes: Seq<Node>) -> bool {
    &&& derivatives.len() == nodes.len()
    &&& forall|k: int| 0 <= k < nodes.len() ==> #[trigger] has_shape(derivatives[k], nodes[k].shape)
}

impl Gradient {
    /// The identity of the tape the gradient was computed on.
    pub closed spec fn tape_id(&self) -> u64 {
        self.tape
    }

    /// The gradient over the positions of the tape with identity `tape`.
    pub fn from(tape: u64, derivatives: Vec<Tensor>) -> (r: Gradient)
        ensures
            r@ == derivatives@,
            r.tape_id() == tape,
    {
        Gradient { tape, derivatives }
    }

    /// The number of positions the gradient covers.
    pub fn len(&self) -> (r: usize)
        ensures
            r == self@.len(),
    {
        self.derivatives.len()
    }

    /// The derivative with respect to `var`: an error for a detached
    /// constant, and for a variable of another tape or beyond the gradient.
    pub fn wrt(&self, var: &Variable) -> (r: Result<&Tensor, AutodiffError>)
        ensures
            var.slot() is None ==> r is Err && r->Err_0 is NotDifferentiable,
            var.slot() matches Some(i) ==> if var.tape_id() == self.tape_id() && i < self@.len() {
                r is Ok && *r->Ok_0 == self@[i as int]
            } else {
                r is Err && r->Err_0 is UnknownVariable
            },
    {
        match var.index() {
            None => Err(AutodiffError::NotDifferentiable),
            Some(i) => if var.tape_id_value() == self.tape && i < self.derivatives.len() {
                Ok(&self.derivatives[i])
            } else {
                Err(AutodiffError::UnknownVariable)
            },
        }
    }
}

/// The value of a call of the tensor library that cannot fail.
fn expect_ok(r: Result<Tensor, candle_core::Error>) -> (t: Tensor)
    requires
        r is Ok,
    ensures
        t == r->Ok_0,
{
    match r {
        Ok(t) => t,
        Err(_) => vstd::pervasive::unreached(),
    }
}

/// Appends to `derivatives` one accumulator per tape position: zeros of the
/// shape recorded there.
fn initialize_derivates(derivatives: &mut Vec<Tensor>, tape: &Tape)
    ensures
        final(derivatives)@.len() == old(derivatives)@.len() + tape@.len(),
        final(derivatives)@.take(old(derivatives)@.len() as int) == old(derivatives)@,
        forall|k: int| 0 <= k < tape@.len()
            ==> #[trigger] has_shape(final(derivatives)@[old(derivatives)@.len() + k], tape@[k].shape),
{
    let len = tape.len();
    let mut i: usize = 0;
    while i < len
        invariant
            i <= len,
            len == tape@.len(),
            derivatives@.len() == old(derivatives)@.len() + i,
            derivatives@.take(old(derivatives)@.len() as int) == old(derivatives)@,
            forall|k: int| 0 <= k < i
                ==> #[trigger] has_shape(derivatives@[old(derivatives)@.len() + k], tape@[k].shape),
        decreases len - i,
    {
        let shape = tape.node(i).shape;
        let zero = expect_ok(tensor::zeros(shape.rows, shape.cols));
        proof {
            assert(derivatives@.push(zero).take(old(derivatives)@.len() as int) =~= old(derivatives)@);
        }
        derivatives.push(zero);
        i += 1;
    }
}

/// Adds to the accumulator at `dep` what the adjoint `derivatives[at]` of a
/// node contributes through `weight`, one of the node's two slots. Each
/// accumulator keeps the shape of its node.
fn propagate(
    derivatives: &mut Vec<Tensor>,
    weight: &Adjoint,
    dep: usize,
    at: usize,
    Ghost(nodes): Ghost<Seq<Node>>,
)
    requires
        dep < old(derivatives)@.len(),
        at < old(derivatives)@.len(),
        shaped_like(old(derivatives)@, nodes),
        slot_sound(*weight, nodes[dep as int].shape, nodes[at as int].shape),
    ensures
        shaped_like(final(derivatives)@, nodes),
        forall|k: int| 0 <= k < old(derivatives)@.len() && k != dep ==> final(derivatives)@[k] == old(derivatives)@[k],
        weight is Inert ==> final(derivatives)@ == old(derivatives)@,
{
    let upstream = &derivatives[at];
    assert(has_shape(derivatives@[dep as int], nodes[dep as int].shape));
    assert(has_shape(*upstream, nodes[at as int].shape));
    let sum = match weight {
        Adjoint::Inert => return,
        Adjoint::Identity => expect_ok(tensor::elem_add(&derivatives[dep], upstream)),
        Adjoint::Negated => expect_ok(tensor::elem_sub(&derivatives[dep], upstream)),
        Adjoint::Elementwise(w) => {
            let c = expect_ok(tensor::elem_mul(w, upstream));
            expect_ok(tensor::elem_add(&derivatives[dep], &c))
        },
        Adjoint::Broadcast(w) => {
            let c = expect_ok(tensor::broadcast_mul(w, upstream));
            expect_ok(tensor::elem_add(&derivatives[dep], &c))
        },
        Adjoint::MatmulLhs(w) => {
            let wt = expect_ok(tensor::transposed(w));
            let c = expect_ok(tensor::mat_mul(upstream, &wt));
            expect_ok(tensor::elem_add(&derivatives[dep], &c))
        },
        Adjoint::MatmulRhs(w) => {
            let wt = expect_ok(tensor::transposed(w));
            let c = expect_ok(tensor::mat_mul(&wt, upstream));
            expect_ok(tensor::elem_add(&derivatives[dep], &c))
        },
    };
    derivatives[dep] = sum;
}

impl Variable {
    /// Differentiates `self` with respect to every position of `tape` in one
    /// sweep from the last node to the first. The accumulator of `self` starts
    /// at ones, every other at zeros; each node that is not an input passes
    /// its accumulated adjoint on to its operands through its two slots.
    pub fn grad(&self, tape: &Tape) -> (r: Result<Gradient, AutodiffError>)
        requires
            tape.wf(),
        ensures
            (r is Err && r->Err_0 is NotDifferentiable) <==> self.slot() is None,
            (r is Err && r->Err_0 is UnknownVariable) <==> !self.known_to(tape),
            r is Ok <==> self.slot() is Some && self.known_to(tape),
            r is Ok ==> r->Ok_0.tape_id() == tape.id() && shaped_like(r->Ok_0@, tape@),
    {
        let index = match self.index() {
            Some(i) => i,
            None => return Err(AutodiffError::NotDifferentiable),
        };
        if !self.belongs_to(tape) {
            return Err(AutodiffError::UnknownVariable);
        }
        let len = tape.len();
        let mut derivatives: Vec<Tensor> = Vec::new();
        initialize_derivates(&mut derivatives, tape);
        assert forall|k: int| 0 <= k < tape@.len() implies #[trigger] has_shape(derivatives@[k], tape@[k].shape) by {
            assert(has_shape(derivatives@[0 + k], tape@[k].shape));
        }
        let seed_shape = tape.node(index).shape;
        derivatives[index] = expect_ok(tensor::ones(seed_shape.rows, seed_shape.cols));

        let mut i: usize = len;
        while i > 0
            invariant
                i <= len,
                len == tape@.len(),
                tape.wf(),
                shaped_like(derivatives@, tape@),
            decreases i,
        {
            i -= 1;
            let node = tape.node(i);
            assert(Tape::sound_at(tape@, i as int));
            if !node.is_leaf {
                propagate(&mut derivatives, &node.weight.0, node.deps.0, i, Ghost(tape@));
                propagate(&mut derivatives, &node.weight.1, node.deps.1, i, Ghost(tape@));
            }
        }
        Ok(Gradient::from(tape.id_value(), derivatives))
    }
}

} // verus!

//! The tape: an append-only sequence of nodes, one per elementary operation.
use vstd::prelude::*;
use candle_core::Tensor;
use crate::tensor::{has_shape, hash_of_zero, random_state, Shape};

verus! {

/// How the adjoint of a node flows back into one of its operands.
///
/// With `G` the adjoint accumulated at the node and `W` the stored weight,
/// the operand receives:
pub enum Adjoint {
    /// nothing (the unused slot of a leaf or of a unary node);
    Inert,
    /// `G` itself (either operand of a sum, the left operand of a difference);
    Identity,
    /// `-G` (the right operand of a difference);
    Negated,
    /// `W ⊙ G`, elementwise, where `W` has the operand's shape;
    Elementwise(Tensor),
    /// `W * G` with broadcasting, where one of `W` and `G` is 1-by-1;
    Broadcast(Tensor),
    /// `G · Wᵀ`, where `W` is the right operand of a matrix product;
    MatmulLhs(Tensor),
    /// `Wᵀ · G`, where `W` is the left operand of a matrix product.
    MatmulRhs(Tensor),
}

/// The rule of an [`Adjoint`] without its weight.
#[derive(Clone, Copy, Debug, PartialEq, Eq, Structural)]
pub enum AdjointKind {
    Inert,
    Identity,
    Negated,
    Elementwise,
    Broadcast,
    MatmulLhs,
    MatmulRhs,
}

impl Adjoint {
    pub open spec fn kind(&self) -> AdjointKind {
        match self {
            Adjoint::Inert => AdjointKind::Inert,
            Adjoint::Identity => AdjointKind::Identity,
            Adjoint::Negated => AdjointKind::Negated,
            Adjoint::Elementwise(_) => AdjointKind::Elementwise,
            Adjoint::Broadcast(_) => AdjointKind::Broadcast,
            Adjoint::MatmulLhs(_) => AdjointKind::MatmulLhs,
            Adjoint::MatmulRhs(_) => AdjointKind::MatmulRhs,
        }
    }
}

/// One tape entry: two (adjoint rule, operand position) pairs, whether the
/// entry is an input, and the shape of the value it stands for.
pub struct Node {
    pub weight: (Adjoint, Adjoint),
    pub deps: (usize, usize),
    pub is_leaf: bool,
    pub shape: Shape,
}

impl Node {
    pub fn from(weight: (Adjoint, Adjoint), deps: (usize, usize), shape: Shape, is_leaf: bool) -> (r: Node)
        ensures
            r.weight == weight,
            r.deps == deps,
            r.shape == shape,
            r.is_leaf == is_leaf,
    {
        Node { weight, deps, shape, is_leaf }
    }

    /// The node's plain description: rules, operands, leaf flag and shape.
    pub open spec fn describes(
        &self,
        k0: AdjointKind,
        d0: usize,
        k1: AdjointKind,
        d1: usize,
        is_leaf: bool,
        shape: Shape,
    ) -> bool {
        &&& self.weight.0.kind() == k0
        &&& self.weight.1.kind() == k1
        &&& self.deps == (d0, d1)
        &&& self.is_leaf == is_leaf
        &&& self.shape == shape
    }

    /// A node may stand at position `i`: its operands come before it, or are
    /// the node itself, and an input refers to nothing but itself.
    pub open spec fn wf_at(&self, i: int) -> bool {
        &&& self.deps.0 <= i
        &&& self.deps.1 <= i
        &&& self.is_leaf ==> {
            &&& self.deps.0 == i
            &&& self.deps.1 == i
            &&& self.weight.0 is Inert
            &&& self.weight.1 is Inert
        }
    }
}

/// An operand of shape `operand` may feed slot `w` of a node of shape
/// `result`: the shapes under which the rule's contraction is defined, with a
/// weight of 64-bit floats of the shape the rule needs.
pub open spec fn slot_sound(w: Adjoint, operand: Shape, result: Shape) -> bool {
    match w {
        Adjoint::Inert => true,
        Adjoint::Identity | Adjoint::Negated => operand == result,
        Adjoint::Elementwise(t) => operand == result && has_shape(t, result),
        Adjoint::Broadcast(t) => (operand == result && has_shape(t, Shape { rows: 1, cols: 1 }))
            || (result == (Shape { rows: 1, cols: 1 }) && has_shape(t, operand)),
        Adjoint::MatmulLhs(t) => operand.rows == result.rows
            && has_shape(t, Shape { rows: operand.cols, cols: result.cols }),
        Adjoint::MatmulRhs(t) => operand.cols == result.cols
            && has_shape(t, Shape { rows: result.rows, cols: operand.rows }),
    }
}

/// The node sequence of one computation. It only ever grows.
pub struct Tape {
    id: u64,
    nodes: Vec<Node>,
}

impl View for Tape {
    type V = Seq<Node>;

    closed spec fn view(&self) -> Seq<Node> {
        self.nodes@
    }
}

impl Tape {
    /// Every node is well formed at its position, so the positions are in
    /// an order in which each node comes after its operands.
    /// Every slot's operand has a shape that fits the slot's rule.
    pub open spec fn wf(&self) -> bool {
        forall|i: int| 0 <= i < self@.len() ==> #[trigger] Self::sound_at(self@, i)
    }

    /// The node at `i` is well formed there, and its operands' shapes fit.
    pub open spec fn sound_at(nodes: Seq<Node>, i: int) -> bool {
        let n = nodes[i];
        &&& n.wf_at(i)
        &&& slot_sound(n.weight.0, nodes[n.deps.0 as int].shape, n.shape)
        &&& slot_sound(n.weight.1, nodes[n.deps.1 as int].shape, n.shape)
    }

    /// The identity of the tape, which the variables and gradients made on it
    /// carry. Each tape draws it at random when it is made.
    pub closed spec fn id(&self) -> u64 {
        self.id
    }

    pub fn new() -> (r: Tape)
        ensures
            r@.len() == 0,
            r.wf(),
    {
        let keys = random_state();
        Tape { id: hash_of_zero(&keys), nodes: Vec::new() }
    }

    /// The tape's identity.
    pub fn id_value(&self) -> (r: u64)
        ensures
            r == self.id(),
    {
        self.id
    }

    /// The number of nodes, which is also the position the next node receives.
    pub fn len(&self) -> (r: usize)
        ensures
            r == self@.len(),
    {
        self.nodes.len()
    }

    /// Borrows the node at position `i`.
    pub fn node(&self, i: usize) -> (r: &Node)
        requires
            i < self@.len(),
        ensures
            *r == self@[i as int],
    {
        &self.nodes[i]
    }

    /// Appends an input node of the given shape and returns its position.
    pub fn push_leaf(&mut self, shape: Shape) -> (r: usize)
        requires
            old(self).wf(),
            old(self)@.len() < usize::MAX,
        ensures
            final(self).wf(),
            r == old(self)@.len(),
            final(self).id() == old(self).id(),
            final(self)@ == old(self)@.push(
                (Node { weight: (Adjoint::Inert, Adjoint::Inert), deps: (r, r), is_leaf: true, shape }),
            ),
    {
        let len = self.nodes.len();
        self.nodes.push(Node::from((Adjoint::Inert, Adjoint::Inert), (len, len), shape, true));
        proof { self.lemma_push_keeps_wf(old(self)); }
        len
    }

    /// Appends a node with one operand, at position `pos`, and returns its position.
    pub fn push_unary(&mut self, weight: Adjoint, pos: usize, shape: Shape) -> (r: usize)
        requires
            old(self).wf(),
            old(self)@.len() < usize::MAX,
            pos < old(self)@.len(),
            slot_sound(weight, old(self)@[pos as int].shape, shape),
        ensures
            final(self).wf(),
            r == old(self)@.len(),
            final(self).id() == old(self).id(),
            final(self)@ == old(self)@.push(
                (Node { weight: (weight, Adjoint::Inert), deps: (pos, r), is_leaf: false, shape }),
            ),
    {
        let len = self.nodes.len();
        self.nodes.push(Node::from((weight, Adjoint::Inert), (pos, len), shape, false));
        proof { self.lemma_push_keeps_wf(old(self)); }
        len
    }

    /// Appends a node with two operands and returns its position.
    pub fn push_binary(
        &mut self,
        weight0: Adjoint,
        pos0: usize,
        weight1: Adjoint,
        pos1: usize,
        shape: Shape,
    ) -> (r: usize)
        requires
            old(self).wf(),
            old(self)@.len() < usize::MAX,
            pos0 < old(self)@.len(),
            pos1 < old(self)@.len(),
            slot_sound(weight0, old(self)@[pos0 as int].shape, shape),
            slot_sound(weight1, old(self)@[pos1 as int].shape, shape),
        ensures
            final(self).wf(),
            r == old(self)@.len(),
            final(self).id() == old(self).id(),
            final(self)@ == old(self)@.push(
                (Node { weight: (weight0, weight1), deps: (pos0, pos1), is_leaf: false, shape }),
            ),
    {
        let len = self.nodes.len();
        self.nodes.push(Node::from((weight0, weight1), (pos0, pos1), shape, false));
        proof { self.lemma_push_keeps_wf(old(self)); }
        len
    }

    proof fn lemma_push_keeps_wf(&self, before: &Tape)
        requires
            before.wf(),
            self@ == before@.push(self@.last()),
            before@.len() < self@.len(),
            Self::sound_at(self@, before@.len() as int),
        ensures
            self.wf(),
            self@.take(before@.len() as int) == before@,
    {
        assert(self@.take(before@.len() as int) =~= before@);
        assert forall|i: int| 0 <= i < self@.len() implies #[trigger] Self::sound_at(self@, i) by {
            if i < before@.len() {
                assert(Self::sound_at(before@, i));
                assert(self@[i] == before@[i]);
                assert(self@[self@[i].deps.0 as int] == before@[before@[i].deps.0 as int]);
                assert(self@[self@[i].deps.1 as int] == before@[before@[i].deps.1 as int]);
            }
        }
    }
}

} // verus!

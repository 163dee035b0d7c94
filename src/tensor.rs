//! Thin, trusted access to the dense tensor library, and the plain shape model
//! that the verified logic reasons about.
//!
//! The library is built without GPU support, so every tensor lives on the CPU
//! (a GPU device cannot be created); candle's operations then depend only on
//! their arguments' shapes, dtypes and data.
use vstd::prelude::*;
use candle_core::{DType, Device, Tensor};
use std::collections::hash_map::RandomState;
use std::hash::BuildHasher;

verus! {

#[verifier::external_type_specification]
#[verifier::external_body]
pub struct ExTensor(candle_core::Tensor);

#[verifier::external_type_specification]
#[verifier::external_body]
pub struct ExTensorError(candle_core::Error);

/// The shape of a two-dimensional value: `rows` by `cols`.
#[derive(Clone, Copy, Debug, PartialEq, Eq, Structural)]
pub struct Shape {
    pub rows: usize,
    pub cols: usize,
}

impl Shape {
    /// The shape of a scalar, which is held as a 1-by-1 matrix.
    pub fn scalar() -> (r: Shape)
        ensures
            r == (Shape { rows: 1, cols: 1 }),
    {
        Shape { rows: 1, cols: 1 }
    }
}

/// What `Tensor::dims` returns for `t`: its dimensions, which never change.
pub uninterp spec fn tensor_dims(t: Tensor) -> Seq<usize>;

/// Whether `Tensor::dtype` returns `DType::F64` for `t`.
pub uninterp spec fn tensor_is_f64(t: Tensor) -> bool;

/// `t` is a matrix of 64-bit floats of shape `s`.
pub open spec fn has_shape(t: Tensor, s: Shape) -> bool {
    &&& tensor_dims(t) == seq![s.rows, s.cols]
    &&& tensor_is_f64(t)
}

/// `t` is a matrix of 64-bit floats.
pub open spec fn is_matrix(t: Tensor) -> bool {
    &&& tensor_dims(t).len() == 2
    &&& tensor_is_f64(t)
}

/// The shape of a matrix `t`.
pub open spec fn shape_of(t: Tensor) -> Shape {
    Shape { rows: tensor_dims(t)[0], cols: tensor_dims(t)[1] }
}

/// Relies on `Tensor`'s `Clone`, which hands out the same `Arc`.
pub assume_specification[ <candle_core::Tensor as Clone>::clone ](t: &candle_core::Tensor) -> (r: candle_core::Tensor)
    ensures
        r == *t,
;

/// Relies on `Tensor::dims2`: the two dimensions of a two-dimensional tensor,
/// an error for any other rank.
#[verifier::external_body]
pub(crate) fn dims(t: &Tensor) -> (r: Result<(usize, usize), candle_core::Error>)
    ensures
        r is Ok <==> tensor_dims(*t).len() == 2,
        r is Ok ==> r->Ok_0 == (tensor_dims(*t)[0], tensor_dims(*t)[1]),
{
    t.dims2()
}

/// Relies on `Tensor::dtype`, told apart by its variant.
#[verifier::external_body]
pub(crate) fn is_f64(t: &Tensor) -> (r: bool)
    ensures
        r == tensor_is_f64(*t),
{
    t.dtype() == DType::F64
}

/// Relies on `Tensor::zeros`: a `rows` by `cols` tensor of zeros on the CPU.
#[verifier::external_body]
pub(crate) fn zeros(rows: usize, cols: usize) -> (r: Result<Tensor, candle_core::Error>)
    ensures
        r is Ok && has_shape(r->Ok_0, Shape { rows, cols }),
{
    Tensor::zeros((rows, cols), DType::F64, &Device::Cpu)
}

/// Relies on `Tensor::ones`: a `rows` by `cols` tensor of ones on the CPU.
#[verifier::external_body]
pub(crate) fn ones(rows: usize, cols: usize) -> (r: Result<Tensor, candle_core::Error>)
    ensures
        r is Ok && has_shape(r->Ok_0, Shape { rows, cols }),
{
    Tensor::ones((rows, cols), DType::F64, &Device::Cpu)
}

/// Relies on `Tensor::add`: the elementwise sum of two tensors of one shape
/// and dtype.
#[verifier::external_body]
pub(crate) fn elem_add(a: &Tensor, b: &Tensor) -> (r: Result<Tensor, candle_core::Error>)
    ensures
        is_matrix(*a) && tensor_dims(*a) == tensor_dims(*b) && tensor_is_f64(*b)
            ==> r is Ok && has_shape(r->Ok_0, shape_of(*a)),
{
    a.add(b)
}

/// Relies on `Tensor::sub`: the elementwise difference of two tensors of one
/// shape and dtype.
#[verifier::external_body]
pub(crate) fn elem_sub(a: &Tensor, b: &Tensor) -> (r: Result<Tensor, candle_core::Error>)
    ensures
        is_matrix(*a) && tensor_dims(*a) == tensor_dims(*b) && tensor_is_f64(*b)
            ==> r is Ok && has_shape(r->Ok_0, shape_of(*a)),
{
    a.sub(b)
}

/// Relies on `Tensor::mul`: the elementwise product of two tensors of one
/// shape and dtype.
#[verifier::external_body]
pub(crate) fn elem_mul(a: &Tensor, b: &Tensor) -> (r: Result<Tensor, candle_core::Error>)
    ensures
        is_matrix(*a) && tensor_dims(*a) == tensor_dims(*b) && tensor_is_f64(*b)
            ==> r is Ok && has_shape(r->Ok_0, shape_of(*a)),
{
    a.mul(b)
}

/// Relies on `Tensor::broadcast_mul`: the elementwise product after
/// broadcasting; a 1-by-1 operand stretches to the other's shape.
#[verifier::external_body]
pub(crate) fn broadcast_mul(a: &Tensor, b: &Tensor) -> (r: Result<Tensor, candle_core::Error>)
    ensures
        has_shape(*a, Shape { rows: 1, cols: 1 }) && is_matrix(*b)
            ==> r is Ok && has_shape(r->Ok_0, shape_of(*b)),
        is_matrix(*a) && has_shape(*b, Shape { rows: 1, cols: 1 })
            ==> r is Ok && has_shape(r->Ok_0, shape_of(*a)),
{
    a.broadcast_mul(b)
}

/// Relies on `Tensor::matmul`: the matrix product `a · b` of an `m` by `k`
/// and a `k` by `n` matrix, which is `m` by `n`.
#[verifier::external_body]
pub(crate) fn mat_mul(a: &Tensor, b: &Tensor) -> (r: Result<Tensor, candle_core::Error>)
    ensures
        is_matrix(*a) && is_matrix(*b) && shape_of(*a).cols == shape_of(*b).rows
            ==> r is Ok && has_shape(r->Ok_0, Shape { rows: shape_of(*a).rows, cols: shape_of(*b).cols }),
{
    a.matmul(b)
}

/// Relies on `Tensor::t`: the transpose of a matrix.
#[verifier::external_body]
pub(crate) fn transposed(a: &Tensor) -> (r: Result<Tensor, candle_core::Error>)
    ensures
        is_matrix(*a) ==> r is Ok && has_shape(r->Ok_0, Shape { rows: shape_of(*a).cols, cols: shape_of(*a).rows }),
{
    a.t()
}

/// Relies on `Tensor::neg`: the elementwise negation.
#[verifier::external_body]
pub(crate) fn negated(a: &Tensor) -> (r: Result<Tensor, candle_core::Error>)
    ensures
        is_matrix(*a) ==> r is Ok && has_shape(r->Ok_0, shape_of(*a)),
{
    a.neg()
}

/// Relies on `Tensor::sum_keepdim` over both dimensions: the sum of all
/// elements, as a 1-by-1 tensor.
#[verifier::external_body]
pub(crate) fn sum_all(a: &Tensor) -> (r: Result<Tensor, candle_core::Error>)
    ensures
        is_matrix(*a) ==> r is Ok && has_shape(r->Ok_0, Shape { rows: 1, cols: 1 }),
{
    a.sum_keepdim((0, 1))
}

/// Relies on `Tensor::sin`: the elementwise sine.
#[verifier::external_body]
pub(crate) fn sin(a: &Tensor) -> (r: Result<Tensor, candle_core::Error>)
    ensures
        is_matrix(*a) ==> r is Ok && has_shape(r->Ok_0, shape_of(*a)),
{
    a.sin()
}

/// Relies on `Tensor::cos`: the elementwise cosine.
#[verifier::external_body]
pub(crate) fn cos(a: &Tensor) -> (r: Result<Tensor, candle_core::Error>)
    ensures
        is_matrix(*a) ==> r is Ok && has_shape(r->Ok_0, shape_of(*a)),
{
    a.cos()
}

/// Relies on `Tensor::relu`: the elementwise `max(x, 0)`.
#[verifier::external_body]
pub(crate) fn relu(a: &Tensor) -> (r: Result<Tensor, candle_core::Error>)
    ensures
        is_matrix(*a) ==> r is Ok && has_shape(r->Ok_0, shape_of(*a)),
{
    a.relu()
}

/// Relies on `Tensor::sign`: elementwise 1 for a positive element, 0 for zero,
/// -1 for a negative one.
#[verifier::external_body]
pub(crate) fn sign(a: &Tensor) -> (r: Result<Tensor, candle_core::Error>)
    ensures
        is_matrix(*a) ==> r is Ok && has_shape(r->Ok_0, shape_of(*a)),
{
    a.sign()
}

/// Relies on `Tensor::powf`: each element raised to the exponent that the
/// 1-by-1 tensor `e` holds. The exponent is read through `Tensor::reshape` to
/// rank zero and `Tensor::to_scalar`, which fail unless `e` holds exactly one
/// number of the dtype read.
#[verifier::external_body]
pub(crate) fn powf(a: &Tensor, e: &Tensor) -> (r: Result<Tensor, candle_core::Error>)
    ensures
        is_matrix(*a) && has_shape(*e, Shape { rows: 1, cols: 1 })
            ==> r is Ok && has_shape(r->Ok_0, shape_of(*a)),
{
    a.powf(e.reshape(())?.to_scalar()?)
}

/// Relies on `RandomState::new`: hashing keys that differ from those of every
/// other `RandomState` of the process.
#[verifier::external_body]
pub(crate) fn random_state() -> (r: RandomState) {
    RandomState::new()
}

/// Relies on `BuildHasher::hash_one`: the hash of a fixed byte under the
/// keys of `s`.
#[verifier::external_body]
pub(crate) fn hash_of_zero(s: &RandomState) -> (r: u64) {
    s.hash_one(0u8)
}

} // verus!

//! Reverse-mode automatic differentiation over a flat, append-only tape.

pub mod activation;
pub mod error;
pub mod grad;
pub mod ops;
pub mod tape;
pub mod tensor;
pub mod variable;

pub use activation::ReLU;
pub use error::AutodiffError;
pub use grad::Gradient;
pub use tape::{Adjoint, AdjointKind, Node, Tape};
pub use tensor::Shape;
pub use variable::Variable;

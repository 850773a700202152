//! A minimal feed-forward neural network evaluator.
//!
//! A [`neural::BNN`] owns an ordered sequence of dense, fully-connected
//! [`neural::Layer`]s. Construction validates the topology (positive input,
//! output and hidden sizes, a positive learning rate) and zero-initializes
//! every weight, bias and buffer; forward propagation threads an input
//! through the layers, each node computing the activation of its bias plus
//! the dot product of its weight row with the previous layer's output.
//!
//! The library is generic over the scalar type: the caller supplies the
//! arithmetic through the [`neural::Scalar`] trait, and the verified
//! contracts pin down the topology, the validation, the buffer shapes and
//! which state each call may touch.

pub mod neural;

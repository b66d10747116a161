//! A small convolutional digit classifier, stated over exact integer models.
//!
//! The crate holds the decisions of the pipeline: how raw records become a
//! normalized batch, which layers the network applies and what shape each of
//! them yields, how a training run moves from epoch to epoch, and how one
//! record is classified. Tensor kernels, gradients and storage are performed
//! by the caller, which is handed plain values and hands plain values back.

pub mod error;
pub mod data;
pub mod model;
pub mod training;
pub mod inference;

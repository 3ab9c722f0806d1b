//! A build-time source transformer: from one function written in a
//! suspending (asynchronous) style it derives a second, blocking variant
//! with every suspension point removed, so that a build-time flag can pick
//! exactly one of the two.
//!
//! The syntax tree is modelled by the types in [`ast`]; the rewrite rules
//! and their proofs live in [`rewrite`]; [`driver`] validates the input and
//! packages the two variants.

pub mod ast;
pub mod driver;
pub mod rewrite;

//! Control logic of an evaluator for Kummer's confluent hypergeometric
//! function M(a, b, z).
//!
//! The numerical work happens on doubles outside this crate; what is kept
//! here, and proved, are the decisions around it: which regime a parameter
//! triple falls into, and how a series summation advances, stops and is
//! judged.
pub mod regime;
pub mod series;

//! Building blocks of differentially private computations, and the rules by
//! which they combine: transformations of bounded stability, measurements of
//! bounded privacy loss, and the chaining and composition of both.

pub mod combinators;
pub mod domains;
pub mod error;
pub mod function;
pub mod interactive;
pub mod maps;
pub mod measurement;
pub mod measurements;
pub mod measures;
pub mod metrics;
pub mod poly;
pub mod samplers;
pub mod spaces;
pub mod traits;
pub mod transformation;
pub mod transformations;

//! The capabilities that carriers and distances must have.

pub mod ordering;
pub mod arithmetic;
pub mod integers;
pub mod checks;
pub mod float_bits;

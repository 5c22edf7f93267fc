//! Transformations that the library provides.

pub mod manipulation;
pub mod is_equal;
pub mod sum;

//! The ways in which transformations, measurements and odometers combine.

pub mod chain;
pub mod composition;
pub mod budget_laws;
pub mod odometer;
pub mod measure_cast;
pub mod sequential_odometer;
pub mod chain_laws;

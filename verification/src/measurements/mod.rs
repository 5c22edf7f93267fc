//! Measurements that the library provides.

pub mod discrete_exponential;

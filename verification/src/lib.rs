pub mod arith;
pub mod container;
pub mod error;
pub mod interpolation_table;
pub mod substance;
pub mod units;

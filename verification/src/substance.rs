pub mod water;

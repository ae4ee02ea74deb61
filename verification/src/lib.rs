pub mod float;
pub mod harness;
pub mod instructions;
pub mod rng;
pub mod text;
pub mod types;

pub mod defs;
pub mod interfaces;
pub mod math;

pub mod atomic;
pub mod hazard;

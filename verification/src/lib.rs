//! Points of the two-dimensional integer lattice, and a greeting.
//!
//! Everything here is verified: each function carries a contract stated
//! over mathematical integers and sequences of characters.

pub mod greeting;
pub mod math;

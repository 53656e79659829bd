//! Trace generation for a sum-reduction component of a tensor-program prover:
//! trace tables packed into power-of-two columns, lookup channels for the
//! LogUp argument, the global balance of claimed sums, multiplicity counters
//! and the value range that a non-linear lookup table has to cover.

pub mod log_size;
pub mod table;
pub mod claims;
pub mod interaction;
pub mod multiplicity;
pub mod range;

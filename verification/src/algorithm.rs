//! Transform strategies. Only the naive reference strategy for the type-8
//! transforms lives here; it is the ground truth any faster strategy for the
//! same transform must match.

pub mod type8_naive;

//! Naive discrete cosine/sine transforms of type 8.
//!
//! The kernels work over any scalar that implements [`common::DctNum`], the
//! crate's numeric abstraction: it supplies the additive identity, addition,
//! multiplication, the half-weighting of a boundary sample, and the
//! construction-time twiddle values. Every `process` call is specified exactly:
//! each output cell equals the defining summation over the input samples and
//! the precomputed twiddle table, with the table walked by a wraparound cursor.

pub mod common;
pub mod twiddle;
pub mod algorithm;

pub use crate::algorithm::type8_naive::{DCT8Naive, DST8Naive};
pub use crate::common::{DctNum, TransformError};
pub use crate::twiddle::TwiddleCursor;

//! The numeric abstraction the kernels are generic over, and the shared error
//! type for recoverable failures.
//!
//! A scalar brings its executable operations together with specification
//! twins, so that a kernel's contract can speak of the exact value it
//! computes. Twiddle values are produced by the scalar itself, once, at
//! construction time; the kernels never evaluate trigonometry during
//! `process`.

use vstd::prelude::*;
use vstd::arithmetic::div_mod::{lemma_add_mod_noop, lemma_mod_multiples_vanish, lemma_small_mod};

verus! {

/// A scalar the type-8 kernels can run on.
///
/// Each executable operation is pinned to a specification twin, so a kernel
/// verified against this trait computes, cell for cell, the summation its
/// contract states. `dct8_twiddle` stands for the DCT8 table entry at
/// position `i` for a transform of length `len` (in an exact real scalar,
/// `cos(pi / (2*len + 1) * (i + 1/2))`), and `dst8_twiddle` for the DST8
/// entry (`sin(pi / (2*len - 1) * (i + 1/2))`). `half_weight` is the
/// half-weighting that the DST8 boundary rule applies to the last input
/// sample.
pub trait DctNum: Sized + Copy {
    spec fn zero_spec() -> Self;

    spec fn plus_spec(self, other: Self) -> Self;

    spec fn times_spec(self, other: Self) -> Self;

    spec fn half_weight_spec(self) -> Self;

    spec fn dct8_twiddle_spec(i: int, len: int) -> Self;

    spec fn dst8_twiddle_spec(i: int, len: int) -> Self;

    /// The additive identity the summation starts from.
    fn zero() -> (r: Self)
        ensures
            r == Self::zero_spec(),
    ;

    fn plus(self, other: Self) -> (r: Self)
        ensures
            r == self.plus_spec(other),
    ;

    fn times(self, other: Self) -> (r: Self)
        ensures
            r == self.times_spec(other),
    ;

    /// The half-weighting of a boundary sample.
    fn half_weight(self) -> (r: Self)
        ensures
            r == self.half_weight_spec(),
    ;

    /// The DCT8 twiddle at table position `i` for a transform of length `len`.
    fn dct8_twiddle(i: usize, len: usize) -> (r: Self)
        ensures
            r == Self::dct8_twiddle_spec(i as int, len as int),
    ;

    /// The DST8 twiddle at table position `i` for a transform of length `len`.
    fn dst8_twiddle(i: usize, len: usize) -> (r: Self)
        ensures
            r == Self::dst8_twiddle_spec(i as int, len as int),
    ;
}

/// An exact probe scalar: arithmetic wraps modulo 2^64, half-weighting is
/// integer halving, and the twiddle at table position `i` is the marker
/// `i + 1` (DCT8) or `2*i + 1` (DST8). Because every marker names its own
/// table position, a transform's output reveals exactly which table entries
/// the kernel touched, which lets a test pin the table walk down to exact
/// integer values.
impl DctNum for u64 {
    open spec fn zero_spec() -> u64 {
        0u64
    }

    open spec fn plus_spec(self, other: u64) -> u64 {
        self.wrapping_add(other)
    }

    open spec fn times_spec(self, other: u64) -> u64 {
        self.wrapping_mul(other)
    }

    open spec fn half_weight_spec(self) -> u64 {
        self / 2u64
    }

    open spec fn dct8_twiddle_spec(i: int, len: int) -> u64 {
        (((i + 1) % 0x1_0000_0000_0000_0000) as u64)
    }

    open spec fn dst8_twiddle_spec(i: int, len: int) -> u64 {
        (((2 * i + 1) % 0x1_0000_0000_0000_0000) as u64)
    }

    fn zero() -> (r: u64) {
        0u64
    }

    fn plus(self, other: u64) -> (r: u64) {
        self.wrapping_add(other)
    }

    fn times(self, other: u64) -> (r: u64) {
        self.wrapping_mul(other)
    }

    fn half_weight(self) -> (r: u64) {
        self / 2u64
    }

    fn dct8_twiddle(i: usize, len: usize) -> (r: u64) {
        proof {
            let m: int = 0x1_0000_0000_0000_0000;
            if i + 1 < m {
                lemma_small_mod((i + 1) as nat, m as nat);
            } else {
                lemma_mod_multiples_vanish(1, 0, m);
                lemma_small_mod(0nat, m as nat);
            }
        }
        (i as u64).wrapping_add(1)
    }

    fn dst8_twiddle(i: usize, len: usize) -> (r: u64) {
        proof {
            let m: int = 0x1_0000_0000_0000_0000;
            let d: int = (2 * (i as int)) % m;
            lemma_small_mod(1nat, m as nat);
            lemma_add_mod_noop(2 * (i as int), 1, m);
            if d + 1 < m {
                lemma_small_mod((d + 1) as nat, m as nat);
            } else {
                lemma_mod_multiples_vanish(1, 0, m);
                lemma_small_mod(0nat, m as nat);
            }
        }
        (i as u64).wrapping_mul(2).wrapping_add(1)
    }
}

/// The recoverable failure a checked `process` entry reports.
#[derive(Clone, Copy, Debug, PartialEq, Eq, Structural)]
pub enum TransformError {
    /// An input or output slice's length differs from the instance's fixed
    /// logical length.
    LengthMismatch,
}

} // verus!

//! Wraparound walk over a twiddle table.
//!
//! A type-8 kernel reads its table at positions `start`, `start + stride`,
//! `start + 2*stride`, ... reduced modulo the table length. The cursor below
//! performs that walk one step at a time without ever widening past `usize`,
//! and its contract ties each visited position to [`twiddle_position`].

use vstd::prelude::*;
use vstd::arithmetic::div_mod::{lemma_add_mod_noop, lemma_mod_multiples_vanish, lemma_small_mod};

verus! {

/// The table position a type-8 kernel reads at the given step: the walk starts
/// at `start` and advances by `stride`, wrapping modulo `period`.
pub open spec fn twiddle_position(start: int, stride: int, step: int, period: int) -> int
    recommends
        period > 0,
{
    (start + step * stride) % period
}

/// Steps through a twiddle table of length `period`, starting at `index` and
/// advancing by `stride` with wraparound, exactly as the naive kernels index
/// their tables.
pub struct TwiddleCursor {
    pub index: usize,
    pub stride: usize,
    pub period: usize,
}

impl TwiddleCursor {
    /// A cursor stays inside its table, and its stride is short enough that a
    /// single wraparound subtraction per step suffices.
    pub open spec fn wf(&self) -> bool {
        &&& self.index < self.period
        &&& self.stride < self.period
    }

    pub fn new(start: usize, stride: usize, period: usize) -> (r: Self)
        requires
            start < period,
            stride < period,
        ensures
            r.wf(),
            r.index == start,
            r.stride == stride,
            r.period == period,
    {
        TwiddleCursor { index: start, stride, period }
    }

    /// Returns the current table position, then advances by one step.
    pub fn advance(&mut self) -> (r: usize)
        requires
            old(self).wf(),
        ensures
            final(self).wf(),
            r == old(self).index,
            final(self).stride == old(self).stride,
            final(self).period == old(self).period,
            final(self).index as int == (old(self).index + old(self).stride) % (old(self).period as int),
    {
        let r = self.index;
        if self.index >= self.period - self.stride {
            let next = self.index - (self.period - self.stride);
            proof {
                let p = self.period as int;
                let sum = self.index + self.stride;
                lemma_small_mod((sum - p) as nat, p as nat);
                lemma_mod_multiples_vanish(1, sum - p, p);
            }
            self.index = next;
        } else {
            proof {
                lemma_small_mod((self.index + self.stride) as nat, self.period as nat);
            }
            self.index = self.index + self.stride;
        }
        r
    }
}

/// Advancing a cursor that stands at step `step` of the walk moves it to step
/// `step + 1`: folding one more stride into a reduced position is the same as
/// reducing the unreduced position of the next step.
pub proof fn lemma_twiddle_position_step(start: int, stride: int, step: int, period: int)
    requires
        period > 0,
        0 <= stride < period,
        step >= 0,
    ensures
        (twiddle_position(start, stride, step, period) + stride) % period
            == twiddle_position(start, stride, step + 1, period),
{
    let a = start + step * stride;
    lemma_small_mod(stride as nat, period as nat);
    lemma_add_mod_noop(a, stride, period);
    assert((step + 1) * stride == step * stride + stride) by (nonlinear_arith);
}

} // verus!

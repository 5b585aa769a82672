//! Naive O(n^2) kernels for the type-8 discrete cosine and sine transforms.
//!
//! Each instance owns a twiddle table built once at construction and read-only
//! thereafter. `process` computes every output cell as a direct summation over
//! the input samples, reading the table at positions `k`, `k + (2k+1)`,
//! `k + 2*(2k+1)`, ... reduced modulo the table length. The DST8 kernel first
//! half-weights the last input sample, the boundary rule of that transform's
//! definition.

use vstd::prelude::*;
use crate::common::{DctNum, TransformError};
use crate::twiddle::{lemma_twiddle_position_step, twiddle_position, TwiddleCursor};

verus! {

/// The term a type-8 summation adds at step `i` of output cell `k`: the input
/// sample times the twiddle the wraparound walk reads at that step.
pub open spec fn type8_term<T: DctNum>(twiddles: Seq<T>, input: Seq<T>, k: int, i: int) -> T
    recommends
        twiddles.len() > 0,
        0 <= i < input.len(),
{
    input[i].times_spec(twiddles[twiddle_position(k, 2 * k + 1, i, twiddles.len() as int)])
}

/// The sum of the first `terms` terms of output cell `k`, starting from the
/// scalar's additive identity and adding the terms in index order.
pub open spec fn type8_prefix_sum<T: DctNum>(
    twiddles: Seq<T>,
    input: Seq<T>,
    k: int,
    terms: int,
) -> T
    decreases terms,
{
    if terms <= 0 {
        T::zero_spec()
    } else {
        type8_prefix_sum(twiddles, input, k, terms - 1).plus_spec(
            type8_term(twiddles, input, k, terms - 1),
        )
    }
}

/// Output cell `k` of a type-8 transform: the full summation over the input.
pub open spec fn type8_out<T: DctNum>(twiddles: Seq<T>, input: Seq<T>, k: int) -> T {
    type8_prefix_sum(twiddles, input, k, input.len() as int)
}

/// Naive O(n^2) DCT Type 8 implementation.
///
/// A transform of length `n` owns a table of `4n + 2` DCT8 twiddles; its
/// `process_dct8` writes, into every output cell `k`, the summation
/// `type8_out` of the input against that table.
pub struct DCT8Naive<T> {
    twiddles: Vec<T>,
}

impl<T: DctNum> DCT8Naive<T> {
    /// The twiddle table, fixed at construction.
    pub closed spec fn twiddles_spec(&self) -> Seq<T> {
        self.twiddles@
    }

    /// The fixed logical length, recovered from the table size.
    pub open spec fn len_spec(&self) -> int {
        (self.twiddles_spec().len() - 2) / 4
    }

    /// The table has the shape construction gives it: `4n + 2` entries.
    pub open spec fn wf(&self) -> bool {
        &&& 2 <= self.twiddles_spec().len()
        &&& (self.twiddles_spec().len() - 2) % 4 == 0
    }

    /// Creates a new DCT8 context that will process signals of length `len`.
    ///
    /// The bound on `len` only keeps the table size within `usize`.
    pub fn new(len: usize) -> (r: Self)
        requires
            len <= (usize::MAX - 2) / 4,
        ensures
            r.wf(),
            r.len_spec() == len,
            r.twiddles_spec().len() == 4 * len + 2,
            forall|i: int|
                0 <= i < r.twiddles_spec().len() ==> r.twiddles_spec()[i]
                    == T::dct8_twiddle_spec(i, len as int),
    {
        let table_len: usize = len * 4 + 2;
        let mut twiddles: Vec<T> = Vec::new();
        let mut i: usize = 0;
        while i < table_len
            invariant
                i <= table_len,
                table_len == 4 * len + 2,
                twiddles@.len() == i,
                forall|j: int|
                    0 <= j < i ==> twiddles@[j] == T::dct8_twiddle_spec(j, len as int),
            decreases table_len - i,
        {
            twiddles.push(T::dct8_twiddle(i, len));
            i = i + 1;
        }
        DCT8Naive { twiddles }
    }

    /// The fixed logical length of this transform.
    pub fn len(&self) -> (r: usize)
        requires
            self.wf(),
        ensures
            r as int == self.len_spec(),
    {
        (self.twiddles.len() - 2) / 4
    }

    /// Computes the DCT8: every output cell `k` becomes the summation
    /// `type8_out` of the input against this instance's twiddle table.
    pub fn process_dct8(&self, input: &Vec<T>, output: &mut Vec<T>)
        requires
            self.wf(),
            input@.len() == self.len_spec(),
            old(output)@.len() == self.len_spec(),
        ensures
            final(output)@.len() == old(output)@.len(),
            forall|k: int|
                0 <= k < final(output)@.len() ==> final(output)@[k]
                    == type8_out(self.twiddles_spec(), input@, k),
    {
        let n = input.len();
        let period = self.twiddles.len();
        let mut k: usize = 0;
        while k < n
            invariant
                self.wf(),
                n == input@.len(),
                n == self.len_spec(),
                period == self.twiddles_spec().len(),
                k <= n,
                output@.len() == n,
                forall|j: int|
                    0 <= j < k ==> output@[j] == type8_out(self.twiddles_spec(), input@, j),
            decreases n - k,
        {
            let stride = k * 2 + 1;
            let mut cursor = TwiddleCursor::new(k, stride, period);
            let mut acc = T::zero();
            proof {
                vstd::arithmetic::div_mod::lemma_small_mod(k as nat, period as nat);
            }
            let mut i: usize = 0;
            while i < n
                invariant
                    self.wf(),
                    n == input@.len(),
                    n == self.len_spec(),
                    period == self.twiddles_spec().len(),
                    k < n,
                    stride == 2 * k + 1,
                    i <= n,
                    cursor.wf(),
                    cursor.stride == stride,
                    cursor.period == period,
                    cursor.index as int == twiddle_position(k as int, stride as int, i as int, period as int),
                    acc == type8_prefix_sum(self.twiddles_spec(), input@, k as int, i as int),
                decreases n - i,
            {
                let t_idx = cursor.advance();
                let tw = self.twiddles[t_idx];
                acc = acc.plus(input[i].times(tw));
                proof {
                    lemma_twiddle_position_step(k as int, stride as int, i as int, period as int);
                }
                i = i + 1;
            }
            output[k] = acc;
            k = k + 1;
        }
    }

    /// The checked entry: rejects, deterministically and without touching the
    /// buffers, any call whose input or output length differs from `len()`,
    /// and otherwise computes the DCT8 exactly as `process_dct8` does.
    pub fn try_process_dct8(&self, input: &Vec<T>, output: &mut Vec<T>) -> (r: Result<
        (),
        TransformError,
    >)
        requires
            self.wf(),
        ensures
            r is Ok <==> input@.len() == self.len_spec() && old(output)@.len() == self.len_spec(),
            r is Err ==> final(output)@ == old(output)@,
            r is Ok ==> final(output)@.len() == old(output)@.len(),
            r is Ok ==> forall|k: int|
                0 <= k < final(output)@.len() ==> final(output)@[k]
                    == type8_out(self.twiddles_spec(), input@, k),
    {
        let n = self.len();
        if input.len() != n || output.len() != n {
            return Err(TransformError::LengthMismatch);
        }
        self.process_dct8(input, output);
        Ok(())
    }
}

/// Naive O(n^2) DST Type 8 implementation.
///
/// A transform of length `n >= 1` owns a table of `4n - 2` DST8 twiddles. Its
/// `process_dst8` first half-weights the last input sample (the DST8 boundary
/// rule), then writes into every output cell `k` the summation `type8_out` of
/// the weighted input against the table.
pub struct DST8Naive<T> {
    twiddles: Vec<T>,
}

impl<T: DctNum> DST8Naive<T> {
    /// The twiddle table, fixed at construction.
    pub closed spec fn twiddles_spec(&self) -> Seq<T> {
        self.twiddles@
    }

    /// The fixed logical length, recovered from the table size.
    pub open spec fn len_spec(&self) -> int {
        ((self.twiddles_spec().len() + 2) as int) / 4
    }

    /// The table has the shape construction gives it: `4n - 2` entries for
    /// some length `n >= 1`.
    pub open spec fn wf(&self) -> bool {
        &&& 2 <= self.twiddles_spec().len()
        &&& (self.twiddles_spec().len() + 2) % 4 == 0
        &&& self.twiddles_spec().len() <= usize::MAX - 2
    }

    /// Creates a new DST8 context that will process signals of length `len`.
    ///
    /// A DST8 of length zero does not exist (its table size `4*len - 2` would
    /// be negative); the upper bound only keeps the table size within `usize`.
    pub fn new(len: usize) -> (r: Self)
        requires
            1 <= len,
            len <= usize::MAX / 4,
        ensures
            r.wf(),
            r.len_spec() == len,
            r.twiddles_spec().len() == 4 * len - 2,
            forall|i: int|
                0 <= i < r.twiddles_spec().len() ==> r.twiddles_spec()[i]
                    == T::dst8_twiddle_spec(i, len as int),
    {
        let table_len: usize = len * 4 - 2;
        let mut twiddles: Vec<T> = Vec::new();
        let mut i: usize = 0;
        while i < table_len
            invariant
                i <= table_len,
                table_len == 4 * len - 2,
                twiddles@.len() == i,
                forall|j: int|
                    0 <= j < i ==> twiddles@[j] == T::dst8_twiddle_spec(j, len as int),
            decreases table_len - i,
        {
            twiddles.push(T::dst8_twiddle(i, len));
            i = i + 1;
        }
        DST8Naive { twiddles }
    }

    /// The fixed logical length of this transform.
    pub fn len(&self) -> (r: usize)
        requires
            self.wf(),
        ensures
            r as int == self.len_spec(),
    {
        (self.twiddles.len() + 2) / 4
    }

    /// Computes the DST8. The last input sample is half-weighted in place
    /// first — the caller's input buffer keeps that change, exactly as the
    /// summation saw it — and every output cell `k` then becomes the
    /// summation `type8_out` of the weighted input against the table.
    pub fn process_dst8(&self, input: &mut Vec<T>, output: &mut Vec<T>)
        requires
            self.wf(),
            old(input)@.len() == self.len_spec(),
            old(output)@.len() == self.len_spec(),
        ensures
            final(input)@ == old(input)@.update(
                old(input)@.len() - 1,
                old(input)@[old(input)@.len() - 1].half_weight_spec(),
            ),
            final(output)@.len() == old(output)@.len(),
            forall|k: int|
                0 <= k < final(output)@.len() ==> final(output)@[k]
                    == type8_out(self.twiddles_spec(), final(input)@, k),
    {
        let n = input.len();
        let last = input[n - 1];
        input[n - 1] = last.half_weight();
        let period = self.twiddles.len();
        let mut k: usize = 0;
        while k < n
            invariant
                self.wf(),
                n == input@.len(),
                n == self.len_spec(),
                input@ == old(input)@.update(
                    old(input)@.len() - 1,
                    old(input)@[old(input)@.len() - 1].half_weight_spec(),
                ),
                period == self.twiddles_spec().len(),
                k <= n,
                output@.len() == n,
                forall|j: int|
                    0 <= j < k ==> output@[j] == type8_out(self.twiddles_spec(), input@, j),
            decreases n - k,
        {
            let stride = k * 2 + 1;
            let mut cursor = TwiddleCursor::new(k, stride, period);
            let mut acc = T::zero();
            proof {
                vstd::arithmetic::div_mod::lemma_small_mod(k as nat, period as nat);
            }
            let mut i: usize = 0;
            while i < n
                invariant
                    self.wf(),
                    n == input@.len(),
                    n == self.len_spec(),
                    period == self.twiddles_spec().len(),
                    k < n,
                    stride == 2 * k + 1,
                    i <= n,
                    cursor.wf(),
                    cursor.stride == stride,
                    cursor.period == period,
                    cursor.index as int == twiddle_position(k as int, stride as int, i as int, period as int),
                    acc == type8_prefix_sum(self.twiddles_spec(), input@, k as int, i as int),
                decreases n - i,
            {
                let t_idx = cursor.advance();
                let tw = self.twiddles[t_idx];
                acc = acc.plus(input[i].times(tw));
                proof {
                    lemma_twiddle_position_step(k as int, stride as int, i as int, period as int);
                }
                i = i + 1;
            }
            output[k] = acc;
            k = k + 1;
        }
    }

    /// The checked entry: rejects, deterministically and without touching the
    /// buffers, any call whose input or output length differs from `len()`,
    /// and otherwise computes the DST8 exactly as `process_dst8` does.
    pub fn try_process_dst8(&self, input: &mut Vec<T>, output: &mut Vec<T>) -> (r: Result<
        (),
        TransformError,
    >)
        requires
            self.wf(),
        ensures
            r is Ok <==> old(input)@.len() == self.len_spec() && old(output)@.len()
                == self.len_spec(),
            r is Err ==> final(input)@ == old(input)@ && final(output)@ == old(output)@,
            r is Ok ==> final(input)@ == old(input)@.update(
                old(input)@.len() - 1,
                old(input)@[old(input)@.len() - 1].half_weight_spec(),
            ),
            r is Ok ==> final(output)@.len() == old(output)@.len(),
            r is Ok ==> forall|k: int|
                0 <= k < final(output)@.len() ==> final(output)@[k]
                    == type8_out(self.twiddles_spec(), final(input)@, k),
    {
        let n = self.len();
        if input.len() != n || output.len() != n {
            return Err(TransformError::LengthMismatch);
        }
        self.process_dst8(input, output);
        Ok(())
    }
}

/// A length-1 DCT8 reduces to a single coefficient: the one input sample
/// times the table's boundary twiddle (in an exact real scalar,
/// `cos(pi/3 * 1/2)`), folded into the additive identity.
pub proof fn lemma_dct8_len1<T: DctNum>(twiddles: Seq<T>, input: Seq<T>)
    requires
        input.len() == 1,
        twiddles.len() == 6,
        forall|i: int| 0 <= i < 6 ==> twiddles[i] == T::dct8_twiddle_spec(i, 1),
    ensures
        type8_out(twiddles, input, 0) == T::zero_spec().plus_spec(
            input[0].times_spec(T::dct8_twiddle_spec(0, 1)),
        ),
{
    vstd::arithmetic::div_mod::lemma_small_mod(0nat, 6nat);
    assert(twiddle_position(0, 1, 0, 6) == 0);
    assert(type8_prefix_sum(twiddles, input, 0, 0) == T::zero_spec());
    assert(type8_out(twiddles, input, 0) == type8_prefix_sum(twiddles, input, 0, 0).plus_spec(
        type8_term(twiddles, input, 0, 0),
    ));
}

/// A length-1 DST8 on the half-weighted input reduces to a single
/// coefficient: the half-weighted sample times the table's boundary twiddle
/// (in an exact real scalar, `sin(pi * 1/2)`), folded into the additive
/// identity. The half-weighting is the DST8 boundary rule `process_dst8`
/// applies before summing.
pub proof fn lemma_dst8_len1<T: DctNum>(twiddles: Seq<T>, input: Seq<T>)
    requires
        input.len() == 1,
        twiddles.len() == 2,
        forall|i: int| 0 <= i < 2 ==> twiddles[i] == T::dst8_twiddle_spec(i, 1),
    ensures
        type8_out(twiddles, input.update(0, input[0].half_weight_spec()), 0)
            == T::zero_spec().plus_spec(
            input[0].half_weight_spec().times_spec(T::dst8_twiddle_spec(0, 1)),
        ),
{
    vstd::arithmetic::div_mod::lemma_small_mod(0nat, 2nat);
    assert(twiddle_position(0, 1, 0, 2) == 0);
    let weighted = input.update(0, input[0].half_weight_spec());
    assert(weighted.len() == 1);
    assert(weighted[0] == input[0].half_weight_spec());
    assert(type8_prefix_sum(twiddles, weighted, 0, 0) == T::zero_spec());
    assert(type8_out(twiddles, weighted, 0) == type8_prefix_sum(twiddles, weighted, 0, 0).plus_spec(
        type8_term(twiddles, weighted, 0, 0),
    ));
}

} // verus!

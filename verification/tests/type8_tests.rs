//! Exact-value tests for the naive type-8 kernels, run on the probe scalar
//! (`u64`), whose DCT8 twiddle at table position `i` is `i + 1` and whose DST8
//! twiddle is `2*i + 1`. Every expected output below is computed by hand from
//! the defining summation, so a kernel that walked the table at any wrong
//! position, or skipped the DST8 half-weighting, would fail these.

use rustdct::{DCT8Naive, DST8Naive, TransformError, TwiddleCursor};

#[test]
fn dct8_len_matches_construction() {
    assert_eq!(DCT8Naive::<u64>::new(0).len(), 0);
    assert_eq!(DCT8Naive::<u64>::new(1).len(), 1);
    assert_eq!(DCT8Naive::<u64>::new(2).len(), 2);
    assert_eq!(DCT8Naive::<u64>::new(23).len(), 23);
}

#[test]
fn dst8_len_matches_construction() {
    assert_eq!(DST8Naive::<u64>::new(1).len(), 1);
    assert_eq!(DST8Naive::<u64>::new(2).len(), 2);
    assert_eq!(DST8Naive::<u64>::new(23).len(), 23);
}

#[test]
fn dct8_length_one_single_coefficient() {
    // Table is [1, 2, 3, 4, 5, 6]; the single output cell is
    // input[0] * table[0].
    let dct = DCT8Naive::<u64>::new(1);
    let input: Vec<u64> = vec![5];
    let mut output: Vec<u64> = vec![0];
    dct.process_dct8(&input, &mut output);
    assert_eq!(output, vec![5]);
}

#[test]
fn dst8_length_one_half_weighted_coefficient() {
    // Table is [1, 3]; the single input sample is half-weighted first, so the
    // output cell is (input[0] / 2) * table[0].
    let dst = DST8Naive::<u64>::new(1);
    let mut input: Vec<u64> = vec![10];
    let mut output: Vec<u64> = vec![0];
    dst.process_dst8(&mut input, &mut output);
    assert_eq!(output, vec![5]);
    // The half-weighting is applied in the caller's buffer.
    assert_eq!(input, vec![5]);
}

#[test]
fn dct8_length_two_exact_table_walk() {
    // Table is [1..=10]. Cell 0 walks positions 0, 1; cell 1 walks 1, 4.
    let dct = DCT8Naive::<u64>::new(2);
    let input: Vec<u64> = vec![100, 1000];
    let mut output: Vec<u64> = vec![0, 0];
    dct.process_dct8(&input, &mut output);
    assert_eq!(output, vec![100 * 1 + 1000 * 2, 100 * 2 + 1000 * 5]);
}

#[test]
fn dct8_length_four_wraparound() {
    // Table is [1..=18] (period 18). The walks per cell are
    //   k=0, stride 1: positions 0, 1, 2, 3
    //   k=1, stride 3: positions 1, 4, 7, 10
    //   k=2, stride 5: positions 2, 7, 12, 17
    //   k=3, stride 7: positions 3, 10, 17, 6   (24 wraps to 6)
    let dct = DCT8Naive::<u64>::new(4);
    let input: Vec<u64> = vec![1, 10, 100, 1000];
    let mut output: Vec<u64> = vec![0; 4];
    dct.process_dct8(&input, &mut output);
    assert_eq!(output, vec![4321, 11852, 19383, 8914]);
}

#[test]
fn dst8_length_four_wraparound_and_boundary() {
    // Table is the odd numbers [1, 3, ..., 27] (period 14). The walks are
    //   k=0, stride 1: positions 0, 1, 2, 3
    //   k=1, stride 3: positions 1, 4, 7, 10
    //   k=2, stride 5: positions 2, 7, 12, 3   (17 wraps to 3)
    //   k=3, stride 7: positions 3, 10, 3, 10  (17 wraps to 3 twice)
    // The last input sample is half-weighted before the summation.
    let dst = DST8Naive::<u64>::new(4);
    let mut input: Vec<u64> = vec![2, 4, 6, 8];
    let mut output: Vec<u64> = vec![0; 4];
    dst.process_dst8(&mut input, &mut output);
    assert_eq!(input, vec![2, 4, 6, 4]);
    assert_eq!(output, vec![72, 216, 248, 224]);
}

#[test]
fn dct8_checked_entry_computes_on_matching_lengths() {
    let dct = DCT8Naive::<u64>::new(2);
    let input: Vec<u64> = vec![100, 1000];
    let mut output: Vec<u64> = vec![0, 0];
    assert_eq!(dct.try_process_dct8(&input, &mut output), Ok(()));
    assert_eq!(output, vec![2100, 5200]);
}

#[test]
fn dct8_rejects_wrong_input_length() {
    let dct = DCT8Naive::<u64>::new(2);
    let input: Vec<u64> = vec![1, 2, 3];
    let mut output: Vec<u64> = vec![7, 7];
    assert_eq!(
        dct.try_process_dct8(&input, &mut output),
        Err(TransformError::LengthMismatch)
    );
    assert_eq!(output, vec![7, 7]);
}

#[test]
fn dct8_rejects_wrong_output_length() {
    let dct = DCT8Naive::<u64>::new(2);
    let input: Vec<u64> = vec![1, 2];
    let mut output: Vec<u64> = vec![7];
    assert_eq!(
        dct.try_process_dct8(&input, &mut output),
        Err(TransformError::LengthMismatch)
    );
    assert_eq!(output, vec![7]);
}

#[test]
fn dst8_rejects_wrong_input_length() {
    let dst = DST8Naive::<u64>::new(2);
    let mut input: Vec<u64> = vec![1];
    let mut output: Vec<u64> = vec![7, 7];
    assert_eq!(
        dst.try_process_dst8(&mut input, &mut output),
        Err(TransformError::LengthMismatch)
    );
    // On a rejected call the input keeps its last sample unweighted.
    assert_eq!(input, vec![1]);
    assert_eq!(output, vec![7, 7]);
}

#[test]
fn dst8_rejects_wrong_output_length() {
    let dst = DST8Naive::<u64>::new(2);
    let mut input: Vec<u64> = vec![1, 2];
    let mut output: Vec<u64> = vec![7, 7, 7];
    assert_eq!(
        dst.try_process_dst8(&mut input, &mut output),
        Err(TransformError::LengthMismatch)
    );
    assert_eq!(input, vec![1, 2]);
    assert_eq!(output, vec![7, 7, 7]);
}

#[test]
fn cursor_wraps_once_per_step() {
    let mut cursor = TwiddleCursor::new(3, 7, 18);
    let mut seen: Vec<usize> = Vec::new();
    for _ in 0..5 {
        seen.push(cursor.advance());
    }
    assert_eq!(seen, vec![3, 10, 17, 6, 13]);
}

#[test]
fn cursor_matches_modular_formula() {
    // Walk with start 5, stride 6, period 7 and compare each visited
    // position against (start + step * stride) mod period.
    let mut cursor = TwiddleCursor::new(5, 6, 7);
    for step in 0..20usize {
        assert_eq!(cursor.advance(), (5 + step * 6) % 7);
    }
}

#[test]
fn dct8_probe_arithmetic_wraps() {
    // The probe scalar's addition and multiplication wrap modulo 2^64.
    // Cell 0 is u64::MAX * 1 + 2 * 2, which wraps to 3; cell 1 is
    // u64::MAX * 2 + 2 * 5, which wraps to 8.
    let dct = DCT8Naive::<u64>::new(2);
    let input: Vec<u64> = vec![u64::MAX, 2];
    let mut output: Vec<u64> = vec![0, 0];
    dct.process_dct8(&input, &mut output);
    assert_eq!(output, vec![3, 8]);
}

#[test]
fn dst8_half_weighting_truncates_odd_samples() {
    let dst = DST8Naive::<u64>::new(1);
    let mut input: Vec<u64> = vec![11];
    let mut output: Vec<u64> = vec![0];
    dst.process_dst8(&mut input, &mut output);
    assert_eq!(input, vec![5]);
    assert_eq!(output, vec![5]);
}

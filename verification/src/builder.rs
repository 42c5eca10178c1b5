//! Mutable staging of an estimator configuration.
//!
//! The builder holds the requested segment count, the overlap fraction (an
//! exact rational `num/den` in `[0, 1)`), the transform-size cap exponent,
//! the borrowed signal and an optional sampling frequency. The derived
//! segment length is recomputed on every mutation of the segment count or of
//! the overlap, so the staged plan is internally consistent before
//! finalization; every validation happens when the builder is finalized.

use vstd::prelude::*;
use crate::plan;
use crate::plan::{sp_l0, sp_params_valid};
use crate::Signal;

verus! {

/// Generic builder, created with `k = 4`, `a = 1/2` and a maximum transform
/// size of `2^12 = 4096`.
pub struct Builder<'a, T: Signal> {
    /// number of segments (`k`)
    pub n_segment: usize,
    /// size of each segment (`l`), rederived on every mutation
    pub segment_size: usize,
    /// numerator of the segment overlapping fraction (`0 <= a < 1`)
    pub overlap_num: u32,
    /// denominator of the segment overlapping fraction
    pub overlap_den: u32,
    /// log2 of the maximum size of the discrete Fourier transform (`p`)
    pub dft_max_exponent: usize,
    /// the signal to estimate the spectral density for
    pub signal: &'a [T],
    /// the signal sampling frequency, `1` at finalization if never set
    pub fs: Option<T>,
}

/// The segment length staged by a builder: the derived one when the staged
/// parameters admit it, zero otherwise (finalization then reports the
/// configuration error before the length is ever used).
pub open spec fn sp_staged_l(n: int, k: usize, num: u32, den: u32) -> int {
    if sp_params_valid(k, num, den) {
        sp_l0(n, k as int, num as int, den as int)
    } else {
        0
    }
}

impl<'a, T: Signal> Builder<'a, T> {
    /// A builder staging the default configuration over `signal`.
    pub fn new(signal: &'a [T]) -> (r: Self)
        ensures
            r.n_segment == 4,
            r.overlap_num == 1,
            r.overlap_den == 2,
            r.dft_max_exponent == 12,
            r.signal@ == signal@,
            r.fs is None,
            r.segment_size == sp_staged_l(signal@.len() as int, 4, 1, 2),
    {
        let l = plan::derive_segment_size(signal.len(), 4, 1, 2);
        Builder {
            n_segment: 4,
            segment_size: l,
            overlap_num: 1,
            overlap_den: 2,
            dft_max_exponent: 12,
            signal,
            fs: None,
        }
    }

    /// Sets the signal sampling frequency.
    pub fn sampling_frequency(self, fs: T) -> (r: Self)
        ensures
            r.fs == Some(fs),
            r.n_segment == self.n_segment,
            r.segment_size == self.segment_size,
            r.overlap_num == self.overlap_num,
            r.overlap_den == self.overlap_den,
            r.dft_max_exponent == self.dft_max_exponent,
            r.signal@ == self.signal@,
    {
        Builder { fs: Some(fs), ..self }
    }

    /// Sets the segment overlapping fraction to the rational `num / den` and
    /// rederives the segment length.
    pub fn overlap(self, num: u32, den: u32) -> (r: Self)
        ensures
            r.overlap_num == num,
            r.overlap_den == den,
            r.n_segment == self.n_segment,
            r.dft_max_exponent == self.dft_max_exponent,
            r.signal@ == self.signal@,
            r.fs == self.fs,
            r.segment_size == sp_staged_l(self.signal@.len() as int, self.n_segment, num, den),
    {
        let l = if self.n_segment >= 1 && den >= 1 && num < den {
            plan::derive_segment_size(self.signal.len(), self.n_segment, num, den)
        } else {
            0
        };
        Builder { segment_size: l, overlap_num: num, overlap_den: den, ..self }
    }

    /// Sets the number of segments and rederives the segment length.
    pub fn n_segment(self, n_segment: usize) -> (r: Self)
        ensures
            r.n_segment == n_segment,
            r.overlap_num == self.overlap_num,
            r.overlap_den == self.overlap_den,
            r.dft_max_exponent == self.dft_max_exponent,
            r.signal@ == self.signal@,
            r.fs == self.fs,
            r.segment_size == sp_staged_l(
                self.signal@.len() as int,
                n_segment,
                self.overlap_num,
                self.overlap_den,
            ),
    {
        let l = if n_segment >= 1 && self.overlap_den >= 1 && self.overlap_num < self.overlap_den {
            plan::derive_segment_size(self.signal.len(), n_segment, self.overlap_num, self.overlap_den)
        } else {
            0
        };
        Builder { n_segment, segment_size: l, ..self }
    }

    /// Sets the log2 of the maximum size of the discrete Fourier transform;
    /// an exponent of zero is rejected at finalization.
    pub fn dft_log2_max_size(self, dft_log2_max_size: usize) -> (r: Self)
        ensures
            r.dft_max_exponent == dft_log2_max_size,
            r.n_segment == self.n_segment,
            r.segment_size == self.segment_size,
            r.overlap_num == self.overlap_num,
            r.overlap_den == self.overlap_den,
            r.signal@ == self.signal@,
            r.fs == self.fs,
    {
        Builder { dft_max_exponent: dft_log2_max_size, ..self }
    }
}

} // verus!

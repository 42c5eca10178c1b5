//! Spectral density estimation: a Welch estimator specialized to the Hann
//! window, producing a one-sided estimate in signal-units squared per Hertz.

use vstd::prelude::*;
use crate::builder::Builder;
use crate::periodogram::{sp_density_scale, sp_raw_values, sp_scale, Periodogram, SpectralDensityPeriodogram};
use crate::welch::{sp_build_err, sp_build_ok, Welch};
use crate::window::Hann;
use crate::Build;
use crate::Signal;
use crate::WelchError;

verus! {

/// Computes a signal spectral density from Welch periodograms using the
/// [`Hann`] window.
pub struct SpectralDensity<'a, T: Signal>(pub Welch<'a, T, Hann<T>>);

impl<'a, T: Signal> SpectralDensity<'a, T> {
    /// Returns a [`Builder`] over the `signal` sampled at `fs` Hz.
    pub fn builder(signal: &'a [T], fs: T) -> (r: Builder<'a, T>)
        ensures
            r.n_segment == 4,
            r.overlap_num == 1,
            r.overlap_den == 2,
            r.dft_max_exponent == 12,
            r.signal@ == signal@,
            r.fs == Some(fs),
            r.segment_size == crate::builder::sp_staged_l(signal@.len() as int, 4, 1, 2),
    {
        Builder::new(signal).sampling_frequency(fs)
    }

    /// Returns the spectral density periodogram: the squared magnitudes of
    /// the first `m/2` transform bins of every windowed segment, summed and
    /// scaled by `1 / (sqr_sum * k * fs)`.
    pub fn periodogram(&self) -> (r: Periodogram<T>)
        requires
            self.0.wf(),
        ensures
            r.sp_fs() == self.0.fs,
            r.sp_values() == sp_scale(sp_raw_values(&self.0), sp_density_scale(&self.0)),
            r.sp_values().len() == self.0.dft_size / 2,
    {
        SpectralDensityPeriodogram::periodogram(&self.0)
    }
}

impl<'a, T: Signal> Build<T, Hann<T>, Result<SpectralDensity<'a, T>, WelchError>> for Builder<
    'a,
    T,
> {
    open spec fn build_post(&self, r: Result<SpectralDensity<'a, T>, WelchError>) -> bool {
        match r {
            Ok(sd) => sp_build_err::<T, Hann<T>>(*self) is None && sp_build_ok(*self, sd.0),
            Err(e) => Some(e) == sp_build_err::<T, Hann<T>>(*self),
        }
    }

    fn build(&self) -> (r: Result<SpectralDensity<'a, T>, WelchError>) {
        let w: Result<Welch<'a, T, Hann<T>>, WelchError> = Build::build(self);
        match w {
            Ok(w) => Ok(SpectralDensity(w)),
            Err(e) => Err(e),
        }
    }
}

} // verus!

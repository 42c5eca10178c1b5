//! Power spectrum estimation: a Welch estimator specialized to the
//! rectangular [`One`] window, producing a one-sided estimate in
//! signal-units squared.

use vstd::prelude::*;
use crate::builder::Builder;
use crate::periodogram::{sp_power_scale, sp_raw_values, sp_scale, Periodogram, PowerSpectrumPeriodogram};
use crate::welch::{sp_build_err, sp_build_ok, Welch};
use crate::window::One;
use crate::Build;
use crate::Signal;
use crate::WelchError;

verus! {

/// Computes a signal power spectrum from Welch periodograms using the
/// [`One`] window.
pub struct PowerSpectrum<'a, T: Signal>(pub Welch<'a, T, One<T>>);

impl<'a, T: Signal> PowerSpectrum<'a, T> {
    /// Returns a [`Builder`] over the `signal`.
    pub fn builder(signal: &'a [T]) -> (r: Builder<'a, T>)
        ensures
            r.n_segment == 4,
            r.overlap_num == 1,
            r.overlap_den == 2,
            r.dft_max_exponent == 12,
            r.signal@ == signal@,
            r.fs is None,
            r.segment_size == crate::builder::sp_staged_l(signal@.len() as int, 4, 1, 2),
    {
        Builder::new(signal)
    }

    /// Returns the power spectrum periodogram: the squared magnitudes of the
    /// first `m/2` transform bins of every segment, summed and scaled by
    /// `1 / (sum_sqr * k)`.
    pub fn periodogram(&self) -> (r: Periodogram<T>)
        requires
            self.0.wf(),
        ensures
            r.sp_fs() == self.0.fs,
            r.sp_values() == sp_scale(sp_raw_values(&self.0), sp_power_scale(&self.0)),
            r.sp_values().len() == self.0.dft_size / 2,
    {
        PowerSpectrumPeriodogram::periodogram(&self.0)
    }
}

impl<'a, T: Signal> Build<T, One<T>, Result<PowerSpectrum<'a, T>, WelchError>> for Builder<
    'a,
    T,
> {
    open spec fn build_post(&self, r: Result<PowerSpectrum<'a, T>, WelchError>) -> bool {
        match r {
            Ok(ps) => sp_build_err::<T, One<T>>(*self) is None && sp_build_ok(*self, ps.0),
            Err(e) => Some(e) == sp_build_err::<T, One<T>>(*self),
        }
    }

    fn build(&self) -> (r: Result<PowerSpectrum<'a, T>, WelchError>) {
        let w: Result<Welch<'a, T, One<T>>, WelchError> = Build::build(self);
        match w {
            Ok(w) => Ok(PowerSpectrum(w)),
            Err(e) => Err(e),
        }
    }
}

} // verus!

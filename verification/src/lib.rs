//! Spectral density and power spectrum estimation with the Welch method.
//!
//! A stationary, zero-mean signal of length `n` is split into `k` overlapping
//! segments of length `l`, each segment overlapping a fraction `a` of the
//! previous one, so that `n = k*l - (k-1)*l*a`. Each segment is weighted by a
//! window, zero-padded to the transform size `m` (the smallest power of two at
//! least `l`, capped at a configurable maximum) and transformed to the
//! frequency domain; the squared magnitudes of the first `m/2` bins are summed
//! across segments and scaled into a one-sided [`Periodogram`].
//!
//! The crate is generic over the sample scalar: the [`Signal`] trait names the
//! arithmetic operations the pipeline needs, each tied to an abstract
//! specification function, so that segmentation, windowing, transform
//! bookkeeping, accumulation and scaling are specified and verified exactly
//! over the abstract operations, while a caller supplies a concrete scalar
//! (typically a wrapper around a machine floating-point type).

use vstd::prelude::*;

pub mod builder;
pub mod fft;
pub mod periodogram;
pub mod plan;
pub mod power_spectrum;
pub mod spectral_density;
pub mod welch;
pub mod window;

pub use builder::Builder;
pub use fft::Cpx;
pub use periodogram::Periodogram;
pub use periodogram::PowerSpectrumPeriodogram;
pub use periodogram::SpectralDensityPeriodogram;
pub use power_spectrum::PowerSpectrum;
pub use spectral_density::SpectralDensity;
pub use welch::Welch;
pub use window::Hann;
pub use window::One;
pub use window::Window;

verus! {

/// A mathematical sequence of sample scalars, as used by the abstract
/// specification functions of [`Signal`] and [`Window`]. Ghost-only: no
/// executable code constructs or inspects one, but an implementation of
/// either trait outside this crate names the type when writing the
/// specification slots of its impl.
pub type SampleSeq<T> = Seq<T>;

/// A mathematical sequence of complex values over a sample scalar.
pub type CpxSeq<T> = Seq<Cpx<T>>;

/// The arithmetic capability a sample scalar must offer.
///
/// Every executable operation is tied to an abstract specification function of
/// the same implementation, so everything the estimator computes can be stated
/// exactly as a term over the abstract operations. The crate itself proves
/// nothing about the arithmetic of a particular scalar; it proves that the
/// estimator combines samples, window weights and transform outputs exactly as
/// specified.
pub trait Signal: Copy + Sized {
    /// Abstract additive identity.
    spec fn sp_zero() -> Self;

    /// Abstract multiplicative identity.
    spec fn sp_one() -> Self;

    /// Abstract one half.
    spec fn sp_half() -> Self;

    /// Abstract circle constant.
    spec fn sp_pi() -> Self;

    /// Abstract conversion from a count.
    spec fn sp_from_usize(n: usize) -> Self;

    /// Abstract addition.
    spec fn sp_add(a: Self, b: Self) -> Self;

    /// Abstract multiplication.
    spec fn sp_mul(a: Self, b: Self) -> Self;

    /// Abstract division.
    spec fn sp_div(a: Self, b: Self) -> Self;

    /// Abstract sine.
    spec fn sp_sin(a: Self) -> Self;

    /// Abstract reciprocal.
    spec fn sp_recip(a: Self) -> Self;

    /// Whether a scalar is the zero of its arithmetic.
    spec fn sp_is_zero(a: Self) -> bool;

    /// Whether a scalar is strictly positive in its arithmetic.
    spec fn sp_is_positive(a: Self) -> bool;

    /// The forward discrete Fourier transform of a complex buffer over this
    /// scalar, as computed by the external transform collaborator. The
    /// transform is injected as an opaque function: the estimator only relies
    /// on it being a deterministic, length-preserving function of the buffer
    /// contents.
    spec fn sp_dft(input: CpxSeq<Self>) -> CpxSeq<Self>;

    /// The zero scalar.
    fn zero() -> (r: Self)
        ensures
            r == Self::sp_zero(),
    ;

    /// The unit scalar.
    fn one() -> (r: Self)
        ensures
            r == Self::sp_one(),
    ;

    /// One half.
    fn half() -> (r: Self)
        ensures
            r == Self::sp_half(),
    ;

    /// The circle constant.
    fn pi() -> (r: Self)
        ensures
            r == Self::sp_pi(),
    ;

    /// Converts a count to a scalar.
    fn from_usize(n: usize) -> (r: Self)
        ensures
            r == Self::sp_from_usize(n),
    ;

    /// `a + b`.
    fn add(a: Self, b: Self) -> (r: Self)
        ensures
            r == Self::sp_add(a, b),
    ;

    /// `a * b`.
    fn mul(a: Self, b: Self) -> (r: Self)
        ensures
            r == Self::sp_mul(a, b),
    ;

    /// `a / b`.
    fn div(a: Self, b: Self) -> (r: Self)
        ensures
            r == Self::sp_div(a, b),
    ;

    /// The sine of `a`.
    fn sin(a: Self) -> (r: Self)
        ensures
            r == Self::sp_sin(a),
    ;

    /// The reciprocal of `a`.
    fn recip(a: Self) -> (r: Self)
        ensures
            r == Self::sp_recip(a),
    ;

    /// Tests whether `a` is zero.
    fn is_zero(a: Self) -> (r: bool)
        ensures
            r == Self::sp_is_zero(a),
    ;

    /// Tests whether `a` is strictly positive.
    fn is_positive(a: Self) -> (r: bool)
        ensures
            r == Self::sp_is_positive(a),
    ;

    /// Applies the external forward discrete Fourier transform to a complex
    /// buffer of power-of-two length, in place. The transform is an injected
    /// capability: the estimator depends only on this contract, not on any
    /// transform engine; an implementation over a machine floating-point
    /// type can delegate to [`fft::rustfft_dft_in_place`].
    fn dft_in_place(buf: &mut Vec<Cpx<Self>>)
        requires
            1 <= old(buf)@.len(),
            vstd::arithmetic::power2::is_pow2(old(buf)@.len() as int),
        ensures
            final(buf)@ == Self::sp_dft(old(buf)@),
            final(buf)@.len() == old(buf)@.len(),
    ;
}

/// A configuration rejected while finalizing a [`Builder`].
///
/// Every validation happens during finalization, before any sample is
/// processed: either a fully valid estimator is produced or construction
/// fails with the first of these errors, in declaration order.
#[derive(Clone, Copy, Debug, PartialEq, Eq, Structural)]
pub enum WelchError {
    /// The overlap fraction is not a rational in `[0, 1)`.
    InvalidOverlap,
    /// The requested segment count is zero.
    ZeroSegmentCount,
    /// The transform-size exponent is zero, or names a transform size that
    /// cannot be represented.
    InvalidDftExponent,
    /// In the capped branch, the recomputed segment count is below one.
    NoSegments,
    /// The signal is too short for even one segment of the derived length, or
    /// for the window's minimum length, or for all requested segments.
    SignalTooShort,
    /// The derived stride between consecutive segment starts is zero.
    ZeroStride,
    /// A sampling frequency was set that is not strictly positive.
    NonPositiveSamplingFrequency,
    /// The window weights reduce to a zero normalization denominator.
    ZeroWindow,
}

/// Finalizes a [`Builder`] into an estimator of type `E`.
///
/// Each implementation fixes what finalization means through its own
/// `build_post` relation between the builder and the produced value.
pub trait Build<T: Signal, W: Window<T>, E>: Sized {
    /// What the produced value satisfies, exactly.
    spec fn build_post(&self, r: E) -> bool;

    /// Validates the staged configuration and produces the estimator.
    fn build(&self) -> (r: E)
        ensures
            self.build_post(r),
    ;
}

} // verus!

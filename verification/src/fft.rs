//! Boundary to the external discrete Fourier transform.
//!
//! The transform itself is out of scope: it is a black-box operation
//! "transform a complex buffer of power-of-two length in place, forward
//! direction", relied upon only as a deterministic, length-preserving
//! function of the buffer contents, named by [`Signal::sp_dft`].

use vstd::prelude::*;
use vstd::arithmetic::power2::is_pow2;
use crate::Signal;

verus! {

/// A complex value over the sample scalar `T`.
#[derive(Clone, Copy, Debug)]
pub struct Cpx<T> {
    /// real part
    pub re: T,
    /// imaginary part
    pub im: T,
}

/// Relies on rustfft's `Radix4::new` and `Fft::process`: an in-place forward
/// discrete Fourier transform of a buffer of power-of-two length, computed by
/// a scalar algorithm as a deterministic, length-preserving function of the
/// buffer contents alone (`Radix4::new` accepts any power-of-two length;
/// `process` on a buffer of exactly that length transforms it in place).
///
/// The canonical backend for [`Signal::dft_in_place`](crate::Signal): a
/// scalar that satisfies rustfft's numeric bound implements the transform
/// capability by delegating here, and thereby names this transform's result
/// with its own `sp_dft` slot; only the buffer length is promised here.
#[verifier::external_body]
pub fn rustfft_dft_in_place<T: Signal + rustfft::FftNum>(buf: &mut Vec<Cpx<T>>)
    requires
        1 <= old(buf)@.len(),
        is_pow2(old(buf)@.len() as int),
    ensures
        final(buf)@.len() == old(buf)@.len(),
{
    let mut buffer: Vec<num_complex::Complex<T>> =
        buf.iter().map(|c| num_complex::Complex::new(c.re, c.im)).collect();
    let fft = rustfft::algorithm::Radix4::new(buffer.len(), rustfft::FftDirection::Forward);
    rustfft::Fft::process(&fft, &mut buffer);
    buf.iter_mut().zip(buffer).for_each(|(c, z)| {
        c.re = z.re;
        c.im = z.im;
    });
}

} // verus!

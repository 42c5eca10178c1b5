//! The Welch spectral density estimator.
//!
//! Assuming the signal is divided into `k` segments, each of length `l`, and
//! each segment overlaps a fraction `a` of the previous segment, the relation
//! of `k`, `l` and `a` to the signal length `n` is `n = k*l - (k-1)*l*a`.
//! The requested number of segments defaults to `k = 4`, and the segment
//! length is derived from `l = trunc(n / (k*(1-a) + a))`. Each segment is
//! multiplied by the predetermined window and zero-padded to the size
//! `m = 2^p` where `p = ceil(log2(l))`; if `m` would exceed the configured
//! maximum (4096 by default), `l` is clamped to that maximum instead and the
//! increased number of segments is derived from `k = (n - l*a) / (l*(1-a))`.

use vstd::prelude::*;
use vstd::arithmetic::power2::{pow2, is_pow2};
use vstd::string::StringExecFns;
use vstd::arithmetic::mul::lemma_mul_inequality;
use crate::builder::Builder;
use crate::fft::Cpx;
use crate::plan;
use crate::plan::{sp_capped, sp_plan_d, sp_plan_err, sp_plan_k, sp_plan_l};
use crate::window::Window;
use crate::Build;
use crate::Signal;
use crate::WelchError;

verus! {

/// Welch spectral density estimator: an immutable segmentation plan, a window
/// instance, a sampling frequency and a borrowed view of the signal.
pub struct Welch<'a, T: Signal, W: Window<T>> {
    /// number of segments (`k`)
    pub n_segment: usize,
    /// size of each segment (`l`)
    pub segment_size: usize,
    /// size of the discrete Fourier transform (`m`)
    pub dft_size: usize,
    /// offset between consecutive segment starting points (`d`)
    pub stride: usize,
    /// the signal to estimate the spectral density for
    pub signal: &'a [T],
    /// the signal sampling frequency
    pub fs: T,
    /// segments windowing function
    pub window: W,
}

/// Segment `j` of the signal, windowed and zero-padded: a complex buffer of
/// length `m` whose entry `i` is `signal[start + i] * w[i]` for `i < l` and
/// an exact zero for `l <= i < m`, with every imaginary part zero.
pub open spec fn sp_windowed_segment<T: Signal>(
    sig: Seq<T>,
    w: Seq<T>,
    start: int,
    l: int,
    m: int,
) -> Seq<Cpx<T>> {
    Seq::new(
        m as nat,
        |i: int|
            if i < l {
                Cpx { re: T::sp_mul(sig[start + i], w[i]), im: T::sp_zero() }
            } else {
                Cpx { re: T::sp_zero(), im: T::sp_zero() }
            },
    )
}

/// The transform of a windowed, zero-padded segment.
pub open spec fn sp_segment_dft<T: Signal>(
    sig: Seq<T>,
    w: Seq<T>,
    start: int,
    l: int,
    m: int,
) -> Seq<Cpx<T>> {
    T::sp_dft(sp_windowed_segment(sig, w, start, l, m))
}

impl<'a, T: Signal, W: Window<T>> Welch<'a, T, W> {
    /// A built estimator is well formed: its plan admits all its segments
    /// within the signal, its window has exactly one weight per segment
    /// sample, and neither normalization denominator reduces to zero.
    pub open spec fn wf(&self) -> bool {
        &&& 1 <= self.n_segment
        &&& 1 <= self.segment_size
        &&& 1 <= self.stride <= self.segment_size
        &&& is_pow2(self.dft_size as int)
        &&& self.segment_size <= self.dft_size
        &&& (self.n_segment - 1) * self.stride + self.segment_size <= self.signal@.len()
        &&& self.window.sp_weights().len() == self.segment_size
        &&& !T::sp_is_zero(W::sp_sqr_sum_of(self.window.sp_weights()))
        &&& !T::sp_is_zero(W::sp_sum_sqr_of(self.window.sp_weights()))
    }

    /// The transform of segment `j` of this estimator's signal.
    pub open spec fn sp_segment_dft_of(&self, j: int) -> Seq<Cpx<T>> {
        sp_segment_dft(
            self.signal@,
            self.window.sp_weights(),
            j * self.stride,
            self.segment_size as int,
            self.dft_size as int,
        )
    }

    /// Returns a [`Builder`] staging the default configuration over `signal`.
    pub fn builder(signal: &'a [T]) -> (r: Builder<'a, T>)
        ensures
            r.n_segment == 4,
            r.overlap_num == 1,
            r.overlap_den == 2,
            r.dft_max_exponent == 12,
            r.signal@ == signal@,
            r.fs is None,
            r.segment_size == crate::builder::sp_staged_l(signal@.len() as int, 4, 1, 2),
    {
        Builder::new(signal)
    }

    /// Splits out segment `j`, applies the window and zero-pads to the
    /// transform size.
    pub(crate) fn windowed_segment(&self, j: usize) -> (buf: Vec<Cpx<T>>)
        requires
            self.wf(),
            j < self.n_segment,
        ensures
            buf@ == sp_windowed_segment(
                self.signal@,
                self.window.sp_weights(),
                j as int * self.stride as int,
                self.segment_size as int,
                self.dft_size as int,
            ),
    {
        let l = self.segment_size;
        let m = self.dft_size;
        let n = self.signal.len();
        proof {
            lemma_mul_inequality(j as int, self.n_segment as int - 1, self.stride as int);
            assert(j as int * self.stride as int + l as int <= n as int);
        }
        let start = j * self.stride;
        let wts = self.window.weights();
        let zero = <T as Signal>::zero();
        let mut buf: Vec<Cpx<T>> = Vec::new();
        let ghost target = sp_windowed_segment(
            self.signal@,
            self.window.sp_weights(),
            start as int,
            l as int,
            m as int,
        );
        let mut i: usize = 0;
        while i < m
            invariant
                i <= m,
                l <= m,
                start + l <= n,
                n == self.signal@.len(),
                wts@ == self.window.sp_weights(),
                wts@.len() == l,
                zero == T::sp_zero(),
                target == sp_windowed_segment(
                    self.signal@,
                    self.window.sp_weights(),
                    start as int,
                    l as int,
                    m as int,
                ),
                buf@ == target.take(i as int),
            decreases m - i,
        {
            if i < l {
                let x = *vstd::slice::slice_index_get(self.signal, start + i);
                let wv = *vstd::slice::slice_index_get(wts, i);
                buf.push(Cpx { re: <T as Signal>::mul(x, wv), im: zero });
            } else {
                buf.push(Cpx { re: zero, im: zero });
            }
            proof {
                assert(buf@ =~= target.take(i + 1));
            }
            i = i + 1;
        }
        proof {
            assert(buf@ =~= target);
        }
        buf
    }
}

impl<'a, T: Signal, W: Window<T>> Welch<'a, T, W> {
    /// Fourier transforms each windowed segment; segment `j` of the result
    /// occupies entries `[j*m, (j+1)*m)`.
    pub(crate) fn dfts(&self) -> (r: Vec<Cpx<T>>)
        requires
            self.wf(),
        ensures
            r@.len() == self.n_segment * self.dft_size,
            forall|j: int|
                0 <= j < self.n_segment ==> r@.subrange(
                    j * self.dft_size as int,
                    (j + 1) * self.dft_size as int,
                ) == self.sp_segment_dft_of(j),
    {
        let m = self.dft_size;
        let mut out: Vec<Cpx<T>> = Vec::new();
        let mut j: usize = 0;
        while j < self.n_segment
            invariant
                j <= self.n_segment,
                self.wf(),
                m == self.dft_size,
                out@.len() == j * m,
                forall|jj: int|
                    0 <= jj < j ==> out@.subrange(jj * m as int, (jj + 1) * m as int)
                        == self.sp_segment_dft_of(jj),
            decreases self.n_segment - j,
        {
            let ghost old_out = out@;
            let mut buf = self.windowed_segment(j);
            proof {
                assert(buf@.len() == m);
            }
            T::dft_in_place(&mut buf);
            let ghost seg = buf@;
            out.append(&mut buf);
            proof {
                assert(out@.len() == (j + 1) * m) by (nonlinear_arith)
                    requires
                        out@.len() == old_out.len() + seg.len(),
                        old_out.len() == j * m,
                        seg.len() == m,
                ;
                assert forall|jj: int| 0 <= jj < j + 1 implies out@.subrange(
                    jj * m as int,
                    (jj + 1) * m as int,
                ) == self.sp_segment_dft_of(jj) by {
                    assert(jj * m <= j * m && (jj + 1) * m <= (j + 1) * m && 0 <= jj * m
                        && jj * m + m == (jj + 1) * m && j * m + m == (j + 1) * m
                        && (jj < j ==> (jj + 1) * m <= j * m)) by (nonlinear_arith)
                        requires
                            0 <= jj <= j,
                            0 <= m,
                    ;
                    if jj < j {
                        assert(out@.subrange(jj * m as int, (jj + 1) * m as int) =~= old_out
                            .subrange(jj * m as int, (jj + 1) * m as int));
                    } else {
                        assert(out@.subrange(jj * m as int, (jj + 1) * m as int) =~= seg);
                    }
                }
            }
            j = j + 1;
        }
        out
    }
}

/// The decimal digit `d` as a character.
pub open spec fn sp_digit_char(d: int) -> char {
    if d == 0 {
        '0'
    } else if d == 1 {
        '1'
    } else if d == 2 {
        '2'
    } else if d == 3 {
        '3'
    } else if d == 4 {
        '4'
    } else if d == 5 {
        '5'
    } else if d == 6 {
        '6'
    } else if d == 7 {
        '7'
    } else if d == 8 {
        '8'
    } else {
        '9'
    }
}

/// The decimal rendering of a non-negative number.
pub open spec fn sp_decimal(x: int) -> Seq<char>
    decreases x,
{
    if x < 10 {
        seq![sp_digit_char(x)]
    } else {
        sp_decimal(x / 10) + seq![sp_digit_char(x % 10)]
    }
}

/// Appends the decimal rendering of `x`.
fn push_decimal(s: &mut String, x: usize)
    ensures
        final(s)@ == old(s)@ + sp_decimal(x as int),
    decreases x,
{
    if x >= 10 {
        push_decimal(s, x / 10);
    }
    let d = x % 10;
    let ds: &str = if d == 0 {
        "0"
    } else if d == 1 {
        "1"
    } else if d == 2 {
        "2"
    } else if d == 3 {
        "3"
    } else if d == 4 {
        "4"
    } else if d == 5 {
        "5"
    } else if d == 6 {
        "6"
    } else if d == 7 {
        "7"
    } else if d == 8 {
        "8"
    } else {
        "9"
    };
    proof {
        reveal_strlit("0");
        reveal_strlit("1");
        reveal_strlit("2");
        reveal_strlit("3");
        reveal_strlit("4");
        reveal_strlit("5");
        reveal_strlit("6");
        reveal_strlit("7");
        reveal_strlit("8");
        reveal_strlit("9");
        assert(ds@ =~= seq![sp_digit_char(d as int)]);
    }
    s.append(ds);
    proof {
        assert(final(s)@ =~= old(s)@ + sp_decimal(x as int));
    }
}

/// The human-readable parameter summary of an estimator.
pub open spec fn sp_summary<'a, T: Signal, W: Window<T>>(w: &Welch<'a, T, W>) -> Seq<char> {
    "Welch spectral density estimator:\n - number of segment: "@ + sp_decimal(w.n_segment as int)
        + "\n - segment size     : "@ + sp_decimal(w.segment_size as int)
        + "\n - overlap size     : "@ + sp_decimal(w.segment_size - w.stride)
        + "\n - dft size         : "@ + sp_decimal(w.dft_size as int)
}

impl<'a, T: Signal, W: Window<T>> Welch<'a, T, W> {
    /// A human-readable summary of the estimator parameters (segment count,
    /// segment size, overlap size, transform size), for diagnostics.
    pub fn summary(&self) -> (r: String)
        requires
            self.wf(),
        ensures
            r@ == sp_summary(self),
    {
        let mut s = String::new();
        s.append("Welch spectral density estimator:\n - number of segment: ");
        push_decimal(&mut s, self.n_segment);
        s.append("\n - segment size     : ");
        push_decimal(&mut s, self.segment_size);
        s.append("\n - overlap size     : ");
        push_decimal(&mut s, self.segment_size - self.stride);
        s.append("\n - dft size         : ");
        push_decimal(&mut s, self.dft_size);
        proof {
            assert(s@ =~= sp_summary(self));
        }
        s
    }
}

/// The first configuration error a builder's finalization reports, if any:
/// an overlap fraction outside `[0, 1)`, a requested segment count of zero,
/// a transform-size exponent of zero or beyond the machine word, a planning
/// error, a non-positive sampling frequency, or window weights that reduce
/// to a zero normalization denominator.
pub open spec fn sp_build_err<'a, T: Signal, W: Window<T>>(b: Builder<'a, T>) -> Option<
    WelchError,
> {
    let n = b.signal@.len() as int;
    if !(1 <= b.overlap_den && b.overlap_num < b.overlap_den) {
        Some(WelchError::InvalidOverlap)
    } else if b.n_segment < 1 {
        Some(WelchError::ZeroSegmentCount)
    } else if b.dft_max_exponent == 0 || pow2(b.dft_max_exponent as nat) > usize::MAX as int {
        Some(WelchError::InvalidDftExponent)
    } else {
        let max_m = pow2(b.dft_max_exponent as nat) as int;
        let perr = sp_plan_err(
            n,
            b.n_segment as int,
            b.overlap_num as int,
            b.overlap_den as int,
            max_m,
            W::sp_min_size() as int,
        );
        if perr is Some {
            perr
        } else if match b.fs {
            Some(f) => !T::sp_is_positive(f),
            None => false,
        } {
            Some(WelchError::NonPositiveSamplingFrequency)
        } else {
            let l = sp_plan_l(
                n,
                b.n_segment as int,
                b.overlap_num as int,
                b.overlap_den as int,
                max_m,
            );
            if T::sp_is_zero(W::sp_sqr_sum_of(W::sp_make(l as usize))) || T::sp_is_zero(
                W::sp_sum_sqr_of(W::sp_make(l as usize)),
            ) {
                Some(WelchError::ZeroWindow)
            } else {
                None
            }
        }
    }
}

/// What a successfully built estimator satisfies: its fields are exactly the
/// planner's outputs over the builder's staged configuration, its transform
/// size is the smallest power of two at least the segment size (their common
/// value, in the capped branch), its sampling frequency is the staged one or
/// one, its window holds the weights its shape produces for the segment
/// length, and it is well formed.
pub open spec fn sp_build_ok<'a, T: Signal, W: Window<T>>(
    b: Builder<'a, T>,
    w: Welch<'a, T, W>,
) -> bool {
    let n = b.signal@.len() as int;
    let k0 = b.n_segment as int;
    let num = b.overlap_num as int;
    let den = b.overlap_den as int;
    let max_m = pow2(b.dft_max_exponent as nat) as int;
    &&& w.signal@ == b.signal@
    &&& w.n_segment as int == sp_plan_k(n, k0, num, den, max_m)
    &&& w.segment_size as int == sp_plan_l(n, k0, num, den, max_m)
    &&& w.stride as int == sp_plan_d(n, k0, num, den, max_m)
    &&& is_pow2(w.dft_size as int)
    &&& w.segment_size <= w.dft_size
    &&& w.dft_size as int <= max_m
    &&& (sp_capped(n, k0, num, den, max_m) ==> w.dft_size == w.segment_size)
    &&& (!sp_capped(n, k0, num, den, max_m) ==> forall|x: int|
        is_pow2(x) && x >= w.segment_size ==> x >= w.dft_size)
    &&& w.fs == (match b.fs {
        Some(f) => f,
        None => T::sp_one(),
    })
    &&& w.window.sp_weights() == W::sp_make(w.segment_size)
    &&& w.wf()
}

impl<'a, T: Signal, W: Window<T>> Build<T, W, Result<Welch<'a, T, W>, WelchError>> for Builder<
    'a,
    T,
> {
    open spec fn build_post(&self, r: Result<Welch<'a, T, W>, WelchError>) -> bool {
        match r {
            Ok(w) => sp_build_err::<T, W>(*self) is None && sp_build_ok(*self, w),
            Err(e) => Some(e) == sp_build_err::<T, W>(*self),
        }
    }

    fn build(&self) -> (r: Result<Welch<'a, T, W>, WelchError>) {
        if !(1 <= self.overlap_den && self.overlap_num < self.overlap_den) {
            return Err(WelchError::InvalidOverlap);
        }
        if self.n_segment < 1 {
            return Err(WelchError::ZeroSegmentCount);
        }
        if self.dft_max_exponent == 0 {
            return Err(WelchError::InvalidDftExponent);
        }
        let max_m = match plan::pow2_checked(self.dft_max_exponent) {
            None => {
                return Err(WelchError::InvalidDftExponent);
            },
            Some(m) => m,
        };
        let min_l = W::min_size();
        let p = match plan::plan(
            self.signal.len(),
            self.n_segment,
            self.overlap_num,
            self.overlap_den,
            max_m,
            min_l,
        ) {
            Err(e) => {
                return Err(e);
            },
            Ok(p) => p,
        };
        let fs = match self.fs {
            Some(f) => {
                if !<T as Signal>::is_positive(f) {
                    return Err(WelchError::NonPositiveSamplingFrequency);
                }
                f
            },
            None => <T as Signal>::one(),
        };
        let window = W::new(p.segment_size);
        if <T as Signal>::is_zero(window.sqr_sum()) || <T as Signal>::is_zero(window.sum_sqr()) {
            return Err(WelchError::ZeroWindow);
        }
        Ok(
            Welch {
                n_segment: p.n_segment,
                segment_size: p.segment_size,
                dft_size: p.dft_size,
                stride: p.stride,
                signal: self.signal,
                fs,
                window,
            },
        )
    }
}

} // verus!

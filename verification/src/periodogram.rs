//! The periodogram result type and the two periodogram-producing interfaces.
//!
//! A periodogram holds a sampling-rate tag and an ordered sequence of
//! `m/2` one-sided spectrum values: the squared magnitudes of the first
//! `m/2` transform bins, summed across all segments and scaled by a single
//! mode-specific factor.

use vstd::prelude::*;
use crate::fft::Cpx;
use crate::welch::Welch;
use crate::window::Window;
use crate::Signal;

verus! {

/// The squared magnitude of a complex value: `re*re + im*im`.
pub open spec fn sp_norm_sqr<T: Signal>(c: Cpx<T>) -> T {
    T::sp_add(T::sp_mul(c.re, c.re), T::sp_mul(c.im, c.im))
}

/// The squared magnitudes of bin `i`, summed over the first `j` transformed
/// segments, accumulated in segment order from zero.
pub open spec fn sp_acc_bin<'a, T: Signal, W: Window<T>>(
    w: &Welch<'a, T, W>,
    j: int,
    i: int,
) -> T
    decreases j,
{
    if j <= 0 {
        T::sp_zero()
    } else {
        T::sp_add(sp_acc_bin(w, j - 1, i), sp_norm_sqr(w.sp_segment_dft_of(j - 1)[i]))
    }
}

/// The unscaled one-sided spectrum of an estimator: for each of the first
/// `m/2` bins, the squared magnitudes summed across all `k` segments.
pub open spec fn sp_raw_values<'a, T: Signal, W: Window<T>>(w: &Welch<'a, T, W>) -> Seq<T> {
    Seq::new((w.dft_size / 2) as nat, |i: int| sp_acc_bin(w, w.n_segment as int, i))
}

/// Every value scaled by `u`.
pub open spec fn sp_scale<T: Signal>(v: Seq<T>, u: T) -> Seq<T> {
    v.map_values(|x: T| T::sp_mul(x, u))
}

/// The spectral-density scale factor `1 / (sqr_sum * k * fs)`.
pub open spec fn sp_density_scale<'a, T: Signal, W: Window<T>>(w: &Welch<'a, T, W>) -> T {
    T::sp_recip(
        T::sp_mul(
            T::sp_mul(W::sp_sqr_sum_of(w.window.sp_weights()), T::sp_from_usize(w.n_segment)),
            w.fs,
        ),
    )
}

/// The power-spectrum scale factor `1 / (sum_sqr * k)`.
pub open spec fn sp_power_scale<'a, T: Signal, W: Window<T>>(w: &Welch<'a, T, W>) -> T {
    T::sp_recip(T::sp_mul(W::sp_sum_sqr_of(w.window.sp_weights()), T::sp_from_usize(w.n_segment)))
}

/// Frequency of bin `i` among `n` bins: `i * fs * 0.5 / (n - 1)`, a linear
/// axis covering `[0, fs/2]` inclusive.
pub open spec fn sp_freq_bin<T: Signal>(fs: T, i: int, n: int) -> T {
    T::sp_div(
        T::sp_mul(T::sp_mul(T::sp_from_usize(i as usize), fs), T::sp_half()),
        T::sp_from_usize((n - 1) as usize),
    )
}

/// Signal periodogram: a sampling-rate tag and `m/2` one-sided spectrum
/// values, owning its values independently of the estimator that produced
/// it.
#[derive(Clone, Debug)]
pub struct Periodogram<T: Signal> {
    fs: T,
    values: Vec<T>,
}

impl<T: Signal> Periodogram<T> {
    /// The sampling frequency this periodogram was computed at.
    pub closed spec fn sp_fs(&self) -> T {
        self.fs
    }

    /// The one-sided spectrum values.
    pub closed spec fn sp_values(&self) -> Seq<T> {
        self.values@
    }

    /// Returns the periodogram values.
    pub fn values(&self) -> (r: &[T])
        ensures
            r@ == self.sp_values(),
    {
        self.values.as_slice()
    }

    /// Returns the number of frequency bins.
    pub fn len(&self) -> (r: usize)
        ensures
            r == self.sp_values().len(),
    {
        self.values.len()
    }

    /// Returns the sampling frequency tag.
    pub fn fs(&self) -> (r: T)
        ensures
            r == self.sp_fs(),
    {
        self.fs
    }

    /// Returns the frequency vector in Hz: bin `i` maps to
    /// `i * fs * 0.5 / (n - 1)`.
    pub fn frequency(&self) -> (r: Vec<T>)
        ensures
            r@.len() == self.sp_values().len(),
            forall|i: int|
                0 <= i < r@.len() ==> r@[i] == sp_freq_bin::<T>(
                    self.sp_fs(),
                    i,
                    self.sp_values().len() as int,
                ),
    {
        let n = self.values.len();
        let fs = self.fs;
        let half = <T as Signal>::half();
        let mut r: Vec<T> = Vec::new();
        let mut i: usize = 0;
        while i < n
            invariant
                i <= n,
                n == self.sp_values().len(),
                fs == self.sp_fs(),
                half == T::sp_half(),
                r@.len() == i,
                forall|x: int|
                    0 <= x < i ==> r@[x] == sp_freq_bin::<T>(self.sp_fs(), x, n as int),
            decreases n - i,
        {
            let nm1 = <T as Signal>::from_usize(n - 1);
            r.push(<T as Signal>::div(<T as Signal>::mul(<T as Signal>::mul(<T as Signal>::from_usize(i), fs), half), nm1));
            i = i + 1;
        }
        r
    }
}

impl<T: Signal> Periodogram<T> {
    /// Creates a new periodogram from an estimator's transformed segments,
    /// scaled with `u`.
    pub(crate) fn new<'a, W: Window<T>>(welch: &Welch<'a, T, W>, u: T) -> (r: Self)
        requires
            welch.wf(),
        ensures
            r.sp_fs() == welch.fs,
            r.sp_values() == sp_scale(sp_raw_values(welch), u),
            r.sp_values().len() == welch.dft_size / 2,
    {
        let m = welch.dft_size;
        let half = m / 2;
        let k = welch.n_segment;
        let flat = welch.dfts();
        let flen = flat.len();
        let zero = <T as Signal>::zero();
        let mut acc: Vec<T> = Vec::new();
        let mut i0: usize = 0;
        while i0 < half
            invariant
                i0 <= half,
                zero == T::sp_zero(),
                acc@ == Seq::new(i0 as nat, |x: int| T::sp_zero()),
            decreases half - i0,
        {
            acc.push(zero);
            proof {
                assert(acc@ =~= Seq::new((i0 + 1) as nat, |x: int| T::sp_zero()));
            }
            i0 = i0 + 1;
        }
        let mut j: usize = 0;
        let mut base: usize = 0;
        while j < k
            invariant
                j <= k,
                k == welch.n_segment,
                m == welch.dft_size,
                half == m / 2,
                welch.wf(),
                flat@.len() == k * m,
                forall|jj: int|
                    0 <= jj < k ==> flat@.subrange(jj * m as int, (jj + 1) * m as int)
                        == welch.sp_segment_dft_of(jj),
                base == j * m,
                flen == flat@.len(),
                acc@.len() == half,
                forall|x: int| 0 <= x < half ==> acc@[x] == sp_acc_bin(welch, j as int, x),
            decreases k - j,
        {
            proof {
                assert(base + m == (j + 1) * m && (j + 1) * m <= k * m) by (nonlinear_arith)
                    requires
                        base == j * m,
                        0 <= m,
                        j < k,
                ;
            }
            let mut i: usize = 0;
            while i < half
                invariant
                    i <= half,
                    j < k,
                    k == welch.n_segment,
                    m == welch.dft_size,
                    half == m / 2,
                    welch.wf(),
                    flat@.len() == k * m,
                    forall|jj: int|
                        0 <= jj < k ==> flat@.subrange(jj * m as int, (jj + 1) * m as int)
                            == welch.sp_segment_dft_of(jj),
                    base == j * m,
                    flen == flat@.len(),
                    base + m <= flen,
                    acc@.len() == half,
                    forall|x: int| 0 <= x < i ==> acc@[x] == sp_acc_bin(welch, j + 1, x),
                    forall|x: int| i <= x < half ==> acc@[x] == sp_acc_bin(welch, j as int, x),
                decreases half - i,
            {
                let c = flat[base + i];
                let v = <T as Signal>::add(<T as Signal>::mul(c.re, c.re), <T as Signal>::mul(c.im, c.im));
                let cur = acc[i];
                acc[i] = <T as Signal>::add(cur, v);
                proof {
                    assert((j + 1) * (m as int) - j * (m as int) == m as int) by (nonlinear_arith);
                    let seg = flat@.subrange(j * m as int, (j + 1) * m as int);
                    assert(seg.len() == m);
                    assert(seg[i as int] == flat@[j * m as int + i as int]);
                    assert(c == welch.sp_segment_dft_of(j as int)[i as int]);
                    assert(acc@[i as int] == sp_acc_bin(welch, j + 1, i as int));
                }
                i = i + 1;
            }
            base = base + m;
            j = j + 1;
        }
        let mut vals: Vec<T> = Vec::new();
        let mut i: usize = 0;
        while i < half
            invariant
                i <= half,
                half == welch.dft_size / 2,
                k == welch.n_segment,
                acc@.len() == half,
                forall|x: int| 0 <= x < half ==> acc@[x] == sp_acc_bin(welch, k as int, x),
                vals@.len() == i,
                forall|x: int|
                    0 <= x < i ==> vals@[x] == T::sp_mul(sp_acc_bin(welch, k as int, x), u),
            decreases half - i,
        {
            vals.push(<T as Signal>::mul(acc[i], u));
            i = i + 1;
        }
        let r = Periodogram { fs: welch.fs, values: vals };
        proof {
            assert(r.sp_values() =~= sp_scale(sp_raw_values(welch), u));
        }
        r
    }
}

/// Interface to the spectral density periodogram.
pub trait SpectralDensityPeriodogram<T: Signal> {
    /// What the estimator must satisfy before the operation.
    spec fn density_req(&self) -> bool;

    /// What the returned periodogram satisfies, exactly.
    spec fn density_post(&self, r: Periodogram<T>) -> bool;

    /// Returns the signal spectral density (signal unit squared per Hertz).
    fn periodogram(&self) -> (r: Periodogram<T>)
        requires
            self.density_req(),
        ensures
            self.density_post(r),
    ;
}

/// Interface to the power spectrum periodogram.
pub trait PowerSpectrumPeriodogram<T: Signal> {
    /// What the estimator must satisfy before the operation.
    spec fn power_req(&self) -> bool;

    /// What the returned periodogram satisfies, exactly.
    spec fn power_post(&self, r: Periodogram<T>) -> bool;

    /// Returns the signal power spectrum (signal unit squared).
    fn periodogram(&self) -> (r: Periodogram<T>)
        requires
            self.power_req(),
        ensures
            self.power_post(r),
    ;
}

impl<'a, T: Signal, W: Window<T>> SpectralDensityPeriodogram<T> for Welch<'a, T, W> {
    open spec fn density_req(&self) -> bool {
        self.wf()
    }

    open spec fn density_post(&self, r: Periodogram<T>) -> bool {
        &&& r.sp_fs() == self.fs
        &&& r.sp_values() == sp_scale(sp_raw_values(self), sp_density_scale(self))
        &&& r.sp_values().len() == self.dft_size / 2
    }

    fn periodogram(&self) -> (r: Periodogram<T>) {
        let u = <T as Signal>::recip(
            <T as Signal>::mul(<T as Signal>::mul(self.window.sqr_sum(), <T as Signal>::from_usize(self.n_segment)), self.fs),
        );
        Periodogram::new(self, u)
    }
}

impl<'a, T: Signal, W: Window<T>> PowerSpectrumPeriodogram<T> for Welch<'a, T, W> {
    open spec fn power_req(&self) -> bool {
        self.wf()
    }

    open spec fn power_post(&self, r: Periodogram<T>) -> bool {
        &&& r.sp_fs() == self.fs
        &&& r.sp_values() == sp_scale(sp_raw_values(self), sp_power_scale(self))
        &&& r.sp_values().len() == self.dft_size / 2
    }

    fn periodogram(&self) -> (r: Periodogram<T>) {
        let u = <T as Signal>::recip(<T as Signal>::mul(self.window.sum_sqr(), <T as Signal>::from_usize(self.n_segment)));
        Periodogram::new(self, u)
    }
}

/// Idempotence of the spectral-density operation: the periodogram is a pure
/// function of the estimator, so two results of the same operation on an
/// unmodified estimator are identical in values and sampling-rate tag.
pub proof fn lemma_density_periodogram_idempotent<'a, T: Signal, W: Window<T>>(
    w: &Welch<'a, T, W>,
    p1: Periodogram<T>,
    p2: Periodogram<T>,
)
    requires
        w.density_post(p1),
        w.density_post(p2),
    ensures
        p1.sp_values() == p2.sp_values(),
        p1.sp_fs() == p2.sp_fs(),
{
}

/// Idempotence of the power-spectrum operation: the periodogram is a pure
/// function of the estimator, so two results of the same operation on an
/// unmodified estimator are identical in values and sampling-rate tag.
pub proof fn lemma_power_periodogram_idempotent<'a, T: Signal, W: Window<T>>(
    w: &Welch<'a, T, W>,
    p1: Periodogram<T>,
    p2: Periodogram<T>,
)
    requires
        w.power_post(p1),
        w.power_post(p2),
    ensures
        p1.sp_values() == p2.sp_values(),
        p1.sp_fs() == p2.sp_fs(),
{
}

} // verus!

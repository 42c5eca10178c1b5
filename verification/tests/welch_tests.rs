use welch_sde::fft::rustfft_dft_in_place;
use welch_sde::{
    Build, Cpx, CpxSeq, Hann, One, PowerSpectrum, PowerSpectrumPeriodogram, SampleSeq,
    Signal, SpectralDensity, SpectralDensityPeriodogram, Welch, WelchError, Window,
};

/// A sample scalar over `f64` implementing the crate's arithmetic capability
/// and the numeric surface the transform backend asks for.
#[derive(Clone, Copy, Debug, PartialEq, PartialOrd)]
pub struct R64(pub f64);

impl std::ops::Add for R64 {
    type Output = R64;
    fn add(self, o: R64) -> R64 {
        R64(self.0 + o.0)
    }
}
impl std::ops::Sub for R64 {
    type Output = R64;
    fn sub(self, o: R64) -> R64 {
        R64(self.0 - o.0)
    }
}
impl std::ops::Mul for R64 {
    type Output = R64;
    fn mul(self, o: R64) -> R64 {
        R64(self.0 * o.0)
    }
}
impl std::ops::Div for R64 {
    type Output = R64;
    fn div(self, o: R64) -> R64 {
        R64(self.0 / o.0)
    }
}
impl std::ops::Rem for R64 {
    type Output = R64;
    fn rem(self, o: R64) -> R64 {
        R64(self.0 % o.0)
    }
}
impl std::ops::Neg for R64 {
    type Output = R64;
    fn neg(self) -> R64 {
        R64(-self.0)
    }
}
impl num_traits::Zero for R64 {
    fn zero() -> R64 {
        R64(0.0)
    }
    fn is_zero(&self) -> bool {
        self.0 == 0.0
    }
}
impl num_traits::One for R64 {
    fn one() -> R64 {
        R64(1.0)
    }
}
impl num_traits::Num for R64 {
    type FromStrRadixErr = ();
    fn from_str_radix(s: &str, _radix: u32) -> Result<R64, ()> {
        s.parse::<f64>().map(R64).map_err(|_| ())
    }
}
impl num_traits::Signed for R64 {
    fn abs(&self) -> R64 {
        R64(self.0.abs())
    }
    fn abs_sub(&self, o: &R64) -> R64 {
        if self.0 <= o.0 {
            R64(0.0)
        } else {
            R64(self.0 - o.0)
        }
    }
    fn signum(&self) -> R64 {
        R64(self.0.signum())
    }
    fn is_positive(&self) -> bool {
        self.0 > 0.0
    }
    fn is_negative(&self) -> bool {
        self.0 < 0.0
    }
}
impl num_traits::FromPrimitive for R64 {
    fn from_i64(n: i64) -> Option<R64> {
        Some(R64(n as f64))
    }
    fn from_u64(n: u64) -> Option<R64> {
        Some(R64(n as f64))
    }
    fn from_usize(n: usize) -> Option<R64> {
        Some(R64(n as f64))
    }
    fn from_f32(n: f32) -> Option<R64> {
        Some(R64(n as f64))
    }
    fn from_f64(n: f64) -> Option<R64> {
        Some(R64(n))
    }
}

impl Signal for R64 {
    // the specification slots of the trait; nothing calls them at runtime
    fn sp_zero() -> R64 {
        R64(0.0)
    }
    fn sp_one() -> R64 {
        R64(1.0)
    }
    fn sp_half() -> R64 {
        R64(0.5)
    }
    fn sp_pi() -> R64 {
        R64(std::f64::consts::PI)
    }
    fn sp_from_usize(n: usize) -> R64 {
        R64(n as f64)
    }
    fn sp_add(a: R64, b: R64) -> R64 {
        R64(a.0 + b.0)
    }
    fn sp_mul(a: R64, b: R64) -> R64 {
        R64(a.0 * b.0)
    }
    fn sp_div(a: R64, b: R64) -> R64 {
        R64(a.0 / b.0)
    }
    fn sp_sin(a: R64) -> R64 {
        R64(a.0.sin())
    }
    fn sp_recip(a: R64) -> R64 {
        R64(a.0.recip())
    }
    fn sp_is_zero(a: R64) -> bool {
        a.0 == 0.0
    }
    fn sp_is_positive(a: R64) -> bool {
        a.0 > 0.0
    }
    fn sp_dft(input: CpxSeq<R64>) -> CpxSeq<R64> {
        input
    }
    fn zero() -> R64 {
        R64(0.0)
    }
    fn one() -> R64 {
        R64(1.0)
    }
    fn half() -> R64 {
        R64(0.5)
    }
    fn pi() -> R64 {
        R64(std::f64::consts::PI)
    }
    fn from_usize(n: usize) -> R64 {
        R64(n as f64)
    }
    fn add(a: R64, b: R64) -> R64 {
        R64(a.0 + b.0)
    }
    fn mul(a: R64, b: R64) -> R64 {
        R64(a.0 * b.0)
    }
    fn div(a: R64, b: R64) -> R64 {
        R64(a.0 / b.0)
    }
    fn sin(a: R64) -> R64 {
        R64(a.0.sin())
    }
    fn recip(a: R64) -> R64 {
        R64(a.0.recip())
    }
    fn is_zero(a: R64) -> bool {
        a.0 == 0.0
    }
    fn is_positive(a: R64) -> bool {
        a.0 > 0.0
    }
    fn dft_in_place(buf: &mut Vec<Cpx<R64>>) {
        rustfft_dft_in_place(buf);
    }
}

/// A window whose weights are all zero, to reach the zero-denominator guard.
struct ZeroWin {
    weight: Vec<R64>,
}
impl Window<R64> for ZeroWin {
    // the specification slots of the trait; nothing calls them at runtime
    fn sp_weights(&self) -> SampleSeq<R64> {
        panic!("ghost-only")
    }
    fn sp_make(_n: usize) -> SampleSeq<R64> {
        panic!("ghost-only")
    }
    fn sp_min_size() -> usize {
        1
    }
    fn sp_sqr_sum_of(_w: SampleSeq<R64>) -> R64 {
        R64(0.0)
    }
    fn sp_sum_sqr_of(_w: SampleSeq<R64>) -> R64 {
        R64(0.0)
    }
    fn min_size() -> usize {
        1
    }
    fn new(n: usize) -> ZeroWin {
        ZeroWin { weight: vec![R64(0.0); n] }
    }
    fn weights(&self) -> &[R64] {
        self.weight.as_slice()
    }
    fn sqr_sum(&self) -> R64 {
        R64(0.0)
    }
    fn sum_sqr(&self) -> R64 {
        R64(0.0)
    }
}

fn constant_signal(n: usize, c: f64) -> Vec<R64> {
    vec![R64(c); n]
}

fn lcg_noise(n: usize, seed: u64) -> Vec<R64> {
    let mut state = seed;
    let mut v: Vec<R64> = Vec::with_capacity(n);
    for _ in 0..n {
        state = state
            .wrapping_mul(6364136223846793005)
            .wrapping_add(1442695040888963407);
        let u = ((state >> 11) as f64) / ((1u64 << 53) as f64) - 0.5;
        v.push(R64(u));
    }
    // center to an exactly zero mean
    let mean = v.iter().map(|x| x.0).sum::<f64>() / n as f64;
    for x in v.iter_mut() {
        x.0 -= mean;
    }
    v
}

fn rel_close(a: f64, b: f64, rel: f64) -> bool {
    (a - b).abs() <= rel * a.abs().max(b.abs()).max(1e-300)
}

#[test]
fn default_plan_uncapped() {
    let signal = constant_signal(1000, 1.0);
    let b = PowerSpectrum::<R64>::builder(&signal);
    let ps: Result<PowerSpectrum<R64>, WelchError> = b.build();
    let ps = ps.unwrap();
    assert_eq!(ps.0.n_segment, 4);
    assert_eq!(ps.0.segment_size, 400);
    assert_eq!(ps.0.dft_size, 512);
    assert_eq!(ps.0.stride, 200);
}

#[test]
fn summary_text() {
    let signal = constant_signal(1000, 1.0);
    let b = PowerSpectrum::<R64>::builder(&signal);
    let ps: Result<PowerSpectrum<R64>, WelchError> = b.build();
    let ps = ps.unwrap();
    assert_eq!(
        ps.0.summary(),
        "Welch spectral density estimator:\n - number of segment: 4\n - segment size     : 400\n - overlap size     : 200\n - dft size         : 512"
    );
}

#[test]
fn default_plan_capped() {
    let signal = constant_signal(100000, 1.0);
    let b = PowerSpectrum::<R64>::builder(&signal);
    let ps: Result<PowerSpectrum<R64>, WelchError> = b.build();
    let ps = ps.unwrap();
    assert_eq!(ps.0.segment_size, 4096);
    assert_eq!(ps.0.dft_size, 4096);
    assert_eq!(ps.0.stride, 2048);
    // k = trunc((2n - 4096) / 4096) = trunc(195904 / 4096) = 47
    assert_eq!(ps.0.n_segment, 47);
}

#[test]
fn cap_branch_boundary() {
    // just below the boundary: l0 = 4096 keeps the uncapped branch
    let signal = constant_signal(10240, 1.0);
    let b = PowerSpectrum::<R64>::builder(&signal);
    let ps: Result<PowerSpectrum<R64>, WelchError> = b.build();
    let ps = ps.unwrap();
    assert_eq!(ps.0.segment_size, 4096);
    assert_eq!(ps.0.dft_size, 4096);
    assert_eq!(ps.0.n_segment, 4);
    // just above: l0 = 4097 takes the capped branch and recomputes k
    let signal = constant_signal(10243, 1.0);
    let b = PowerSpectrum::<R64>::builder(&signal);
    let ps: Result<PowerSpectrum<R64>, WelchError> = b.build();
    let ps = ps.unwrap();
    assert_eq!(ps.0.segment_size, 4096);
    assert_eq!(ps.0.dft_size, 4096);
    assert!(ps.0.n_segment >= 4);
    // far above: the segment count grows past the requested four
    let signal = constant_signal(40960, 1.0);
    let b = PowerSpectrum::<R64>::builder(&signal);
    let ps: Result<PowerSpectrum<R64>, WelchError> = b.build();
    let ps = ps.unwrap();
    assert_eq!(ps.0.segment_size, 4096);
    assert_eq!(ps.0.n_segment, 19);
    assert!(ps.0.n_segment > 4);
}

#[test]
fn segmentation_consistency_over_lengths() {
    for n in 5..200usize {
        let signal = constant_signal(n, 1.0);
        let b = PowerSpectrum::<R64>::builder(&signal);
        let ps: Result<PowerSpectrum<R64>, WelchError> = b.build();
        let w = ps.expect("default plan must fit for n >= 5").0;
        let (k, l, m, d) = (w.n_segment, w.segment_size, w.dft_size, w.stride);
        assert_eq!(k, 4);
        assert_eq!(l, 2 * n / 5);
        assert!(d >= 1);
        assert!((k - 1) * d + l <= n, "segments must fit: n={}", n);
        assert!(m.is_power_of_two());
        assert!(m >= l);
        assert!(m / 2 < l || m == 1, "m must be the smallest power of two >= l");
    }
}

#[test]
fn builder_rederives_segment_size() {
    let signal = constant_signal(1000, 1.0);
    let b = Welch::<R64, Hann<R64>>::builder(&signal);
    assert_eq!(b.segment_size, 400);
    let b = b.n_segment(8);
    // l = trunc(n*2 / (k*(2-1) + 1)) = trunc(2000 / 9) = 222
    assert_eq!(b.segment_size, 222);
    let b = b.overlap(1, 4);
    // l = trunc(n*4 / (k*(4-1) + 1)) = trunc(4000 / 25) = 160
    assert_eq!(b.segment_size, 160);
}

#[test]
fn hann_weights_formula() {
    let w = <Hann<R64> as Window<R64>>::new(10);
    let weights = w.weights();
    assert_eq!(weights.len(), 10);
    for i in 0..10 {
        let s = (std::f64::consts::PI * i as f64 / 9.0).sin();
        assert_eq!(weights[i].0, s * s);
    }
    assert_eq!(weights[0].0, 0.0);
}

#[test]
fn hann_scalars_reduce_weights() {
    let w = <Hann<R64> as Window<R64>>::new(16);
    let weights = w.weights();
    let sqr: f64 = weights.iter().map(|x| x.0 * x.0).sum();
    let sum: f64 = weights.iter().map(|x| x.0).sum();
    assert_eq!(w.sqr_sum().0, sqr);
    assert_eq!(w.sum_sqr().0, sum * sum);
}

#[test]
fn one_window_scalars() {
    let w = <One<R64> as Window<R64>>::new(5);
    let weights = w.weights();
    assert_eq!(weights.len(), 5);
    assert!(weights.iter().all(|x| x.0 == 1.0));
    assert_eq!(w.sqr_sum().0, 5.0);
    assert_eq!(w.sum_sqr().0, 25.0);
}

#[test]
fn frequency_axis_monotone() {
    let signal = lcg_noise(1000, 7);
    let b = SpectralDensity::<R64>::builder(&signal, R64(10e3));
    let sd: Result<SpectralDensity<R64>, WelchError> = b.build();
    let sd = sd.unwrap();
    let p = sd.periodogram();
    let f = p.frequency();
    assert_eq!(f.len(), 256);
    assert_eq!(f[0].0, 0.0);
    assert_eq!(f[255].0, 5e3);
    let spacing = 10e3 * 0.5 / 255.0;
    for i in 1..f.len() {
        assert!(f[i].0 > f[i - 1].0, "strictly increasing at {}", i);
        assert!(rel_close(f[i].0 - f[i - 1].0, spacing, 1e-9));
    }
}

#[test]
fn frequency_formula_exact() {
    let signal = lcg_noise(1000, 8);
    let b = SpectralDensity::<R64>::builder(&signal, R64(44100.0));
    let sd: Result<SpectralDensity<R64>, WelchError> = b.build();
    let sd = sd.unwrap();
    let p = sd.periodogram();
    let f = p.frequency();
    let n = p.len();
    for i in 0..n {
        let expected = i as f64 * 44100.0 * 0.5 / (n - 1) as f64;
        assert_eq!(f[i].0, expected);
    }
}

#[test]
fn density_idempotent() {
    let signal = lcg_noise(4000, 11);
    let b = SpectralDensity::<R64>::builder(&signal, R64(100.0));
    let sd: Result<SpectralDensity<R64>, WelchError> = b.build();
    let sd = sd.unwrap();
    let p1 = sd.periodogram();
    let p2 = sd.periodogram();
    assert_eq!(p1.values(), p2.values());
    assert_eq!(p1.fs(), p2.fs());
}

#[test]
fn power_idempotent() {
    let signal = lcg_noise(4000, 12);
    let b = PowerSpectrum::<R64>::builder(&signal);
    let ps: Result<PowerSpectrum<R64>, WelchError> = b.build();
    let ps = ps.unwrap();
    let p1 = ps.periodogram();
    let p2 = ps.periodogram();
    assert_eq!(p1.values(), p2.values());
}

#[test]
fn constant_signal_dc_invariant() {
    // the regression relation: for a unit constant signal under the Hann
    // window, sqr_sum ~= sum_sqr / (fs * ps[0])
    let signal = constant_signal(1000, 1.0);
    let fs = 10.0;
    let b = SpectralDensity::<R64>::builder(&signal, R64(fs));
    let sd: Result<SpectralDensity<R64>, WelchError> = b.build();
    let sd = sd.unwrap();
    let p = sd.periodogram();
    let sqr_sum = sd.0.window.sqr_sum().0;
    let sum_sqr = sd.0.window.sum_sqr().0;
    let dc = p.values()[0].0;
    assert!(
        rel_close(sqr_sum, sum_sqr / (fs * dc), 1e-9),
        "sqr_sum {} vs {}",
        sqr_sum,
        sum_sqr / (fs * dc)
    );
}

#[test]
fn constant_signal_concentrates_at_dc() {
    // capped branch: l == m, so a constant segment transforms to a pure
    // direct-current line; the power spectrum holds c^2 at bin zero and
    // numerical dust elsewhere
    let c = 3.0;
    let signal = constant_signal(12288, c);
    let b = PowerSpectrum::<R64>::builder(&signal);
    let ps: Result<PowerSpectrum<R64>, WelchError> = b.build();
    let ps = ps.unwrap();
    assert_eq!(ps.0.segment_size, ps.0.dft_size);
    let p = ps.periodogram();
    let v = p.values();
    assert!(rel_close(v[0].0, c * c, 1e-9), "dc bin {} vs {}", v[0].0, c * c);
    for i in 1..v.len() {
        assert!(v[i].0.abs() < 1e-12 * c * c, "bin {} holds {}", i, v[i].0);
    }
}

#[test]
fn parseval_white_noise() {
    let signal = lcg_noise(100000, 42);
    let variance =
        signal.iter().map(|x| x.0 * x.0).sum::<f64>() / signal.len() as f64;
    let b = PowerSpectrum::<R64>::builder(&signal);
    let ps: Result<PowerSpectrum<R64>, WelchError> = b.build();
    let ps = ps.unwrap();
    // capped branch: no zero padding, so Parseval applies directly
    assert_eq!(ps.0.segment_size, ps.0.dft_size);
    let p = ps.periodogram();
    let total: f64 = p.values().iter().map(|x| x.0).sum();
    assert!(
        rel_close(2.0 * total, variance, 0.05),
        "2*sum = {} vs variance = {}",
        2.0 * total,
        variance
    );
}

#[test]
fn density_and_power_scales_relate() {
    let signal = lcg_noise(5000, 21);
    let fs = 250.0;
    let b = Welch::<R64, Hann<R64>>::builder(&signal).sampling_frequency(R64(fs));
    let w: Result<Welch<R64, Hann<R64>>, WelchError> = b.build();
    let w = w.unwrap();
    let pd = SpectralDensityPeriodogram::periodogram(&w);
    let pp = PowerSpectrumPeriodogram::periodogram(&w);
    let sqr_sum = w.window.sqr_sum().0;
    let sum_sqr = w.window.sum_sqr().0;
    let ratio = sum_sqr / (sqr_sum * fs);
    for i in 0..pd.len() {
        assert!(rel_close(pd.values()[i].0, pp.values()[i].0 * ratio, 1e-9));
    }
}

#[test]
fn error_zero_sampling_frequency() {
    let signal = constant_signal(1000, 1.0);
    let b = SpectralDensity::<R64>::builder(&signal, R64(0.0));
    let sd: Result<SpectralDensity<R64>, WelchError> = b.build();
    assert_eq!(sd.err(), Some(WelchError::NonPositiveSamplingFrequency));
    let b = SpectralDensity::<R64>::builder(&signal, R64(-1.0));
    let sd: Result<SpectralDensity<R64>, WelchError> = b.build();
    assert_eq!(sd.err(), Some(WelchError::NonPositiveSamplingFrequency));
}

#[test]
fn error_overlap_out_of_range() {
    let signal = constant_signal(1000, 1.0);
    let b = PowerSpectrum::<R64>::builder(&signal).overlap(1, 1);
    let ps: Result<PowerSpectrum<R64>, WelchError> = b.build();
    assert_eq!(ps.err(), Some(WelchError::InvalidOverlap));
    let b = PowerSpectrum::<R64>::builder(&signal).overlap(3, 2);
    let ps: Result<PowerSpectrum<R64>, WelchError> = b.build();
    assert_eq!(ps.err(), Some(WelchError::InvalidOverlap));
    let b = PowerSpectrum::<R64>::builder(&signal).overlap(0, 0);
    let ps: Result<PowerSpectrum<R64>, WelchError> = b.build();
    assert_eq!(ps.err(), Some(WelchError::InvalidOverlap));
}

#[test]
fn error_window_needs_samples() {
    // a derived segment length of zero must fail, for either window shape
    let signal = constant_signal(2, 1.0);
    let b = SpectralDensity::<R64>::builder(&signal, R64(1.0));
    let sd: Result<SpectralDensity<R64>, WelchError> = b.build();
    assert_eq!(sd.err(), Some(WelchError::SignalTooShort));
    let signal: Vec<R64> = Vec::new();
    let b = PowerSpectrum::<R64>::builder(&signal);
    let ps: Result<PowerSpectrum<R64>, WelchError> = b.build();
    assert_eq!(ps.err(), Some(WelchError::SignalTooShort));
    // the Hann window needs at least two samples per segment
    let signal = constant_signal(5, 1.0);
    let b = SpectralDensity::<R64>::builder(&signal, R64(1.0));
    let sd: Result<SpectralDensity<R64>, WelchError> = b.build();
    assert!(sd.is_ok());
    let signal = constant_signal(4, 1.0);
    let b = SpectralDensity::<R64>::builder(&signal, R64(1.0));
    let sd: Result<SpectralDensity<R64>, WelchError> = b.build();
    assert_eq!(sd.err(), Some(WelchError::SignalTooShort));
}

#[test]
fn error_zero_segment_count() {
    let signal = constant_signal(1000, 1.0);
    let b = PowerSpectrum::<R64>::builder(&signal).n_segment(0);
    let ps: Result<PowerSpectrum<R64>, WelchError> = b.build();
    assert_eq!(ps.err(), Some(WelchError::ZeroSegmentCount));
}

#[test]
fn error_dft_exponent() {
    let signal = constant_signal(1000, 1.0);
    let b = PowerSpectrum::<R64>::builder(&signal).dft_log2_max_size(0);
    let ps: Result<PowerSpectrum<R64>, WelchError> = b.build();
    assert_eq!(ps.err(), Some(WelchError::InvalidDftExponent));
    let b = PowerSpectrum::<R64>::builder(&signal).dft_log2_max_size(300);
    let ps: Result<PowerSpectrum<R64>, WelchError> = b.build();
    assert_eq!(ps.err(), Some(WelchError::InvalidDftExponent));
}

#[test]
fn error_zero_stride() {
    let signal = constant_signal(3, 1.0);
    let b = PowerSpectrum::<R64>::builder(&signal).overlap(9, 10);
    let ps: Result<PowerSpectrum<R64>, WelchError> = b.build();
    assert_eq!(ps.err(), Some(WelchError::ZeroStride));
}

#[test]
fn error_signal_too_short_for_all_segments() {
    // l = trunc(3*21 / 9) = 7 and d = 7 - round(7/3) = 5, so the four
    // segments would need 22 samples out of 21
    let signal = constant_signal(21, 1.0);
    let b = PowerSpectrum::<R64>::builder(&signal).overlap(1, 3);
    let ps: Result<PowerSpectrum<R64>, WelchError> = b.build();
    assert_eq!(ps.err(), Some(WelchError::SignalTooShort));
}

#[test]
fn error_zero_window() {
    let signal = constant_signal(1000, 1.0);
    let b = Welch::<R64, ZeroWin>::builder(&signal);
    let w: Result<Welch<R64, ZeroWin>, WelchError> = b.build();
    assert_eq!(w.err(), Some(WelchError::ZeroWindow));
}

#[test]
fn periodogram_length_is_half_dft_size() {
    let signal = lcg_noise(1000, 33);
    let b = PowerSpectrum::<R64>::builder(&signal);
    let ps: Result<PowerSpectrum<R64>, WelchError> = b.build();
    let ps = ps.unwrap();
    let p = ps.periodogram();
    assert_eq!(p.len(), ps.0.dft_size / 2);
    assert_eq!(p.values().len(), 256);
}

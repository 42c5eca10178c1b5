//! Signal windowing: per-sample weights applied to a segment before the
//! transform, together with the two scalar reductions that normalize the two
//! output modes.

use vstd::prelude::*;
use crate::Signal;

verus! {

/// The sum of a weight sequence, accumulated left to right from zero.
pub open spec fn sp_sum<T: Signal>(w: Seq<T>) -> T
    decreases w.len(),
{
    if w.len() == 0 {
        T::sp_zero()
    } else {
        T::sp_add(sp_sum(w.drop_last()), w.last())
    }
}

/// The sum of the squared weights, accumulated left to right from zero.
pub open spec fn sp_sum_of_squares<T: Signal>(w: Seq<T>) -> T
    decreases w.len(),
{
    if w.len() == 0 {
        T::sp_zero()
    } else {
        T::sp_add(sp_sum_of_squares(w.drop_last()), T::sp_mul(w.last(), w.last()))
    }
}

/// The Hann weight at index `i` of a window of length `n`:
/// `sin(pi * i / (n - 1))` squared.
pub open spec fn sp_hann_weight<T: Signal>(i: int, n: int) -> T {
    let s = T::sp_sin(
        T::sp_div(
            T::sp_mul(T::sp_pi(), T::sp_from_usize(i as usize)),
            T::sp_from_usize((n - 1) as usize),
        ),
    );
    T::sp_mul(s, s)
}

/// Signal windowing interface.
///
/// A window is created once per estimator build from a length alone, exposes
/// its immutable weights, and reduces them to two scalars: `sqr_sum`, the sum
/// of the squared weights, normalizing the spectral-density mode, and
/// `sum_sqr`, the square of the weight sum, normalizing the power-spectrum
/// mode. Each implementation fixes, through its specification functions,
/// exactly which weights it produces and how it computes the two reductions.
pub trait Window<T: Signal>: Sized {
    /// The weight sequence of this window instance.
    spec fn sp_weights(&self) -> Seq<T>;

    /// The weights produced for a window of length `n`.
    spec fn sp_make(n: usize) -> Seq<T>;

    /// The smallest length this window shape is defined for.
    spec fn sp_min_size() -> usize;

    /// What `sqr_sum` computes from a weight sequence.
    spec fn sp_sqr_sum_of(w: Seq<T>) -> T;

    /// What `sum_sqr` computes from a weight sequence.
    spec fn sp_sum_sqr_of(w: Seq<T>) -> T;

    /// The smallest length this window shape is defined for.
    fn min_size() -> (r: usize)
        ensures
            r == Self::sp_min_size(),
    ;

    /// Creates a new window of size `n`.
    fn new(n: usize) -> (r: Self)
        requires
            n >= Self::sp_min_size(),
        ensures
            r.sp_weights() == Self::sp_make(n),
            r.sp_weights().len() == n,
    ;

    /// Returns the window sampling weights.
    fn weights(&self) -> (r: &[T])
        ensures
            r@ == self.sp_weights(),
    ;

    /// Returns the sum of the squared weights.
    fn sqr_sum(&self) -> (r: T)
        ensures
            r == Self::sp_sqr_sum_of(self.sp_weights()),
    ;

    /// Returns the square of the weights sum.
    fn sum_sqr(&self) -> (r: T)
        ensures
            r == Self::sp_sum_sqr_of(self.sp_weights()),
    ;
}

/// Hann window: `weights[i] = sin(pi * i / (n - 1))^2`, defined for lengths
/// of at least two.
#[derive(Clone, Debug)]
pub struct Hann<T> {
    weight: Vec<T>,
}

impl<T: Signal> Window<T> for Hann<T> {
    closed spec fn sp_weights(&self) -> Seq<T> {
        self.weight@
    }

    open spec fn sp_make(n: usize) -> Seq<T> {
        Seq::new(n as nat, |i: int| sp_hann_weight::<T>(i, n as int))
    }

    open spec fn sp_min_size() -> usize {
        2
    }

    open spec fn sp_sqr_sum_of(w: Seq<T>) -> T {
        sp_sum_of_squares(w)
    }

    open spec fn sp_sum_sqr_of(w: Seq<T>) -> T {
        T::sp_mul(sp_sum(w), sp_sum(w))
    }

    fn min_size() -> usize {
        2
    }

    fn new(n: usize) -> (r: Self) {
        let pi = <T as Signal>::pi();
        let nm1 = <T as Signal>::from_usize(n - 1);
        let mut weight: Vec<T> = Vec::new();
        let mut i: usize = 0;
        while i < n
            invariant
                i <= n,
                2 <= n,
                pi == T::sp_pi(),
                nm1 == T::sp_from_usize((n - 1) as usize),
                weight@ == Seq::new(i as nat, |x: int| sp_hann_weight::<T>(x, n as int)),
            decreases n - i,
        {
            let j = <T as Signal>::from_usize(i);
            let s = <T as Signal>::sin(<T as Signal>::div(<T as Signal>::mul(pi, j), nm1));
            weight.push(<T as Signal>::mul(s, s));
            proof {
                assert(weight@ =~= Seq::new(
                    (i + 1) as nat,
                    |x: int| sp_hann_weight::<T>(x, n as int),
                ));
            }
            i = i + 1;
        }
        let r = Hann { weight };
        proof {
            assert(r.sp_weights() =~= Self::sp_make(n));
        }
        r
    }

    fn weights(&self) -> &[T] {
        self.weight.as_slice()
    }

    fn sqr_sum(&self) -> (r: T) {
        sum_of_squares_exec(&self.weight)
    }

    fn sum_sqr(&self) -> (r: T) {
        let s = sum_exec(&self.weight);
        <T as Signal>::mul(s, s)
    }
}

/// One window: every weight is one; `sqr_sum` is the window length and
/// `sum_sqr` its square. Models the unwindowed case used for raw
/// power-spectrum estimation.
#[derive(Clone, Debug)]
pub struct One<T> {
    weight: Vec<T>,
}

impl<T: Signal> Window<T> for One<T> {
    closed spec fn sp_weights(&self) -> Seq<T> {
        self.weight@
    }

    open spec fn sp_make(n: usize) -> Seq<T> {
        Seq::new(n as nat, |i: int| T::sp_one())
    }

    open spec fn sp_min_size() -> usize {
        1
    }

    open spec fn sp_sqr_sum_of(w: Seq<T>) -> T {
        T::sp_from_usize(w.len() as usize)
    }

    open spec fn sp_sum_sqr_of(w: Seq<T>) -> T {
        T::sp_mul(T::sp_from_usize(w.len() as usize), T::sp_from_usize(w.len() as usize))
    }

    fn min_size() -> usize {
        1
    }

    fn new(n: usize) -> (r: Self) {
        let one = <T as Signal>::one();
        let mut weight: Vec<T> = Vec::new();
        let mut i: usize = 0;
        while i < n
            invariant
                i <= n,
                one == T::sp_one(),
                weight@ == Seq::new(i as nat, |x: int| T::sp_one()),
            decreases n - i,
        {
            weight.push(one);
            proof {
                assert(weight@ =~= Seq::new((i + 1) as nat, |x: int| T::sp_one()));
            }
            i = i + 1;
        }
        let r = One { weight };
        proof {
            assert(r.sp_weights() =~= Self::sp_make(n));
        }
        r
    }

    fn weights(&self) -> &[T] {
        self.weight.as_slice()
    }

    fn sqr_sum(&self) -> (r: T) {
        <T as Signal>::from_usize(self.weight.len())
    }

    fn sum_sqr(&self) -> (r: T) {
        let s = <T as Signal>::from_usize(self.weight.len());
        <T as Signal>::mul(s, s)
    }
}

/// Sums a weight vector left to right from zero.
fn sum_exec<T: Signal>(w: &Vec<T>) -> (r: T)
    ensures
        r == sp_sum(w@),
{
    let mut acc = <T as Signal>::zero();
    let mut i: usize = 0;
    while i < w.len()
        invariant
            i <= w@.len(),
            acc == sp_sum(w@.take(i as int)),
        decreases w@.len() - i,
    {
        acc = <T as Signal>::add(acc, w[i]);
        proof {
            assert(w@.take(i + 1).drop_last() =~= w@.take(i as int));
            assert(w@.take(i + 1).last() == w@[i as int]);
        }
        i = i + 1;
    }
    proof {
        assert(w@.take(w@.len() as int) =~= w@);
    }
    acc
}

/// Sums the squares of a weight vector left to right from zero.
fn sum_of_squares_exec<T: Signal>(w: &Vec<T>) -> (r: T)
    ensures
        r == sp_sum_of_squares(w@),
{
    let mut acc = <T as Signal>::zero();
    let mut i: usize = 0;
    while i < w.len()
        invariant
            i <= w@.len(),
            acc == sp_sum_of_squares(w@.take(i as int)),
        decreases w@.len() - i,
    {
        acc = <T as Signal>::add(acc, <T as Signal>::mul(w[i], w[i]));
        proof {
            assert(w@.take(i + 1).drop_last() =~= w@.take(i as int));
            assert(w@.take(i + 1).last() == w@[i as int]);
        }
        i = i + 1;
    }
    proof {
        assert(w@.take(w@.len() as int) =~= w@);
    }
    acc
}

} // verus!

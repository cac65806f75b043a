//! Exponential moving average of a temperature reading, used to keep the
//! LCD gauge from re-rendering on every sub-degree jitter.
//!
//! Readings come in millidegrees; the average is held, and handed out, in
//! microdegrees Celsius, so that rounding it at each step does not drift
//! it: whoever reads it rounds it once, to what they show.

use crate::config::round_half_away;
use vstd::prelude::*;

verus! {

/// Microdegrees in a millidegree.
pub const MICROS_PER_MILLI: i64 = 1000;

/// Largest magnitude, in microdegrees, of a millidegree reading.
pub open spec fn micro_bound() -> int {
    0x8000_0000int * 1000
}

/// One smoothing step from `prev` toward `t` (both microdegrees) with
/// weight `alpha`/1000, rounded to the nearest microdegree.
pub open spec fn smooth_step(prev: int, t: int, alpha_permille: int) -> int {
    prev + round_half_away((t - prev) * alpha_permille, 1000)
}

/// The smoothed value, in microdegrees, after feeding the reading `raw`
/// (millidegrees) to a smoother holding `prev`: a missing reading clears
/// the history, the first reading after that is taken as is.
pub open spec fn smoothed(prev: Option<i64>, raw: Option<i32>, alpha_permille: int) -> Option<int> {
    match raw {
        None => None,
        Some(t) => match prev {
            None => Some(t * 1000),
            Some(p) => Some(smooth_step(p as int, t * 1000, alpha_permille)),
        },
    }
}

/// Exponential moving average with weight `alpha_permille`/1000 on each
/// new reading. Readings are millidegrees; the average is microdegrees.
#[derive(Clone, Copy, Debug)]
pub struct Smoother {
    alpha_permille: u32,
    value_udeg: Option<i64>,
}

impl Smoother {
    #[verifier::type_invariant]
    spec fn well_formed(self) -> bool {
        &&& self.alpha_permille <= 1000
        &&& self.value_udeg matches Some(v) ==> -micro_bound() <= v <= micro_bound()
    }

    pub closed spec fn alpha(self) -> int {
        self.alpha_permille as int
    }

    pub closed spec fn current(self) -> Option<i64> {
        self.value_udeg
    }

    /// A smoother with no history.
    pub fn new(alpha_permille: u32) -> (s: Self)
        requires
            alpha_permille <= 1000,
        ensures
            s.alpha() == alpha_permille,
            s.current() is None,
    {
        Smoother { alpha_permille, value_udeg: None }
    }

    /// The weight given to each new reading, in thousandths.
    pub fn alpha_permille(&self) -> (a: u32)
        ensures
            a == self.alpha(),
            a <= 1000,
    {
        proof {
            use_type_invariant(self);
        }
        self.alpha_permille
    }

    /// The smoothed value held, in microdegrees, if any.
    pub fn value(&self) -> (v: Option<i64>)
        ensures
            v == self.current(),
    {
        self.value_udeg
    }

    /// Forgets the history.
    pub fn reset(&mut self)
        ensures
            final(self).alpha() == old(self).alpha(),
            final(self).current() is None,
    {
        proof {
            use_type_invariant(&*self);
        }
        self.value_udeg = None;
    }

    /// Feeds one raw reading (millidegrees) and returns the smoothed value
    /// (microdegrees). The result always lies between the previous smoothed
    /// value and the reading.
    pub fn update(&mut self, raw: Option<i32>) -> (r: Option<i64>)
        ensures
            final(self).alpha() == old(self).alpha(),
            final(self).current() == r,
            match smoothed(old(self).current(), raw, old(self).alpha()) {
                Some(v) => r == Some(v as i64),
                None => r is None,
            },
            (r is Some && raw is Some && old(self).current() is Some) ==> ({
                let (v, t, p) = (r->0, raw->0 * 1000, old(self).current()->0);
                (p <= v <= t) || (t <= v <= p)
            }),
    {
        proof {
            use_type_invariant(&*self);
        }
        let next = match raw {
            None => None,
            Some(t) => {
                let tu = t as i64 * MICROS_PER_MILLI;
                match self.value_udeg {
                    None => Some(tu),
                    Some(p) => Some(step(p, tu, self.alpha_permille)),
                }
            },
        };
        self.value_udeg = next;
        next
    }
}

fn step(prev: i64, t: i64, alpha: u32) -> (v: i64)
    requires
        alpha <= 1000,
        -micro_bound() <= prev <= micro_bound(),
        -micro_bound() <= t <= micro_bound(),
    ensures
        v == smooth_step(prev as int, t as int, alpha as int),
        (prev <= v <= t) || (t <= v <= prev),
{
    let d: i64 = t - prev;
    let a = alpha as i64;
    assert(-2 * micro_bound() * 1000 <= d * a <= 2 * micro_bound() * 1000) by (nonlinear_arith)
        requires
            -2 * micro_bound() <= d <= 2 * micro_bound(),
            0 <= a <= 1000,
    ;
    let num: i64 = d * a;
    let q: i64 = if num >= 0 {
        (2 * num + 1000) / 2000
    } else {
        0 - ((-2 * num + 1000) / 2000)
    };
    assert(d >= 0 ==> 0 <= q <= d) by (nonlinear_arith)
        requires
            num == d * a,
            0 <= a <= 1000,
            num >= 0 ==> q == (2 * num + 1000) / 2000,
            num < 0 ==> q == 0 - ((-2 * num + 1000) / 2000),
    ;
    assert(d < 0 ==> d <= q <= 0) by (nonlinear_arith)
        requires
            num == d * a,
            0 <= a <= 1000,
            num >= 0 ==> q == (2 * num + 1000) / 2000,
            num < 0 ==> q == 0 - ((-2 * num + 1000) / 2000),
    ;
    prev + q
}

} // verus!

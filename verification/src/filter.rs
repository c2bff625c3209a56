//! A second order IIR filter.
//!
//! A `LowPass` or `HighPass` filter gives 3 dB of attenuation at the cutoff and a
//! rolloff of 12 dB per octave beyond it. A `LowShelf` or `HighShelf` filter gives the
//! requested gain in the shelf region, which starts at the cutoff. A `Peak` filter gives
//! the requested gain around a centre frequency; a higher Q makes the peak narrower.
//!
//! The coefficients come from the bilinear transform, with the frequency warped by a
//! tangent. The designs assume the stream rate [`SAMPLE_RATE`]: a stream at another rate
//! needs the cutoff scaled by the caller.

use vstd::prelude::*;
use crate::arith::{
    fadd, fdiv, fmul, fpow, fsqrt, fsub, ftan, lawful, less, Op, ONE, PI, TEN, TWO, ZERO,
};

verus! {

/// The pattern of 48000, the stream rate in Hz that the designs assume.
pub const SAMPLE_RATE: u32 = 0x473b_8000;

/// The pattern of minus two.
pub const MINUS_TWO: u32 = 0xc000_0000;

/// The response of a second order filter. Cutoffs are in Hz and gains in decibels, all
/// as binary32 patterns.
#[derive(Clone, Copy, Debug)]
pub enum FilterMode {
    /// LowPass(cutoff)
    LowPass(u32),
    /// HighPass(cutoff)
    HighPass(u32),
    /// LowShelf(cutoff, gain)
    LowShelf(u32, u32),
    /// HighShelf(cutoff, gain)
    HighShelf(u32, u32),
    /// Peak(center, gain, Q)
    Peak(u32, u32, u32),
}

/// The five coefficients of the difference equation
/// `y = b0 x + b1 x[-1] + b2 x[-2] - a1 y[-1] - a2 y[-2]`.
#[derive(Clone, Copy, Debug)]
pub struct Coefficients {
    pub b0: u32,
    pub b1: u32,
    pub b2: u32,
    pub a1: u32,
    pub a2: u32,
}

/// The three coefficients of a polynomial `c0 + c1 z^-1 + c2 z^-2` before it is
/// normalised.
#[derive(Clone, Copy, Debug)]
pub struct Polynomial {
    pub c0: u32,
    pub c1: u32,
    pub c2: u32,
}

/// What a filter is at one moment: the last two inputs, the last two outputs, and the
/// coefficients it was made with.
pub struct FilterState {
    pub x_last1: u32,
    pub x_last2: u32,
    pub y_last1: u32,
    pub y_last2: u32,
    pub coefficients: Coefficients,
}

/// A two pole filter.
pub struct Filter {
    x_last1: u32,
    x_last2: u32,  // two time step delay elements
    y_last1: u32,
    y_last2: u32,
    b0: u32,
    b1: u32,
    b2: u32,
    a1: u32,
    a2: u32,
}

/// `10^(db / 10)`.
pub open spec fn spec_decibel_to_ratio<A: Fn(Op) -> u32>(alu: &A, db: u32) -> u32 {
    fpow(alu, TEN, fdiv(alu, db, TEN))
}

/// The warped frequency `K = tan(pi f / Fs)`.
pub open spec fn spec_warp<A: Fn(Op) -> u32>(alu: &A, cutoff: u32) -> u32 {
    ftan(alu, fdiv(alu, fmul(alu, PI, cutoff), SAMPLE_RATE))
}

/// The amplitude ratio `V0` of a shelf or a peak: the ratio of half the gain for a
/// boost, and its reciprocal for a cut. A gain below zero is a cut.
pub open spec fn spec_amplitude<A: Fn(Op) -> u32>(alu: &A, gain: u32) -> u32 {
    let ratio = spec_decibel_to_ratio(alu, fdiv(alu, gain, TWO));
    if less(gain, ZERO) {
        fdiv(alu, ONE, ratio)
    } else {
        ratio
    }
}

/// `(lead + linear) + tail`, or `(lead - linear) + tail`.
pub open spec fn spec_trinomial<A: Fn(Op) -> u32>(
    alu: &A,
    lead: u32,
    linear: u32,
    tail: u32,
    plus: bool,
) -> u32 {
    if plus {
        fadd(alu, fadd(alu, lead, linear), tail)
    } else {
        fadd(alu, fsub(alu, lead, linear), tail)
    }
}

/// `2 (a - b)`.
pub open spec fn spec_doubled_gap<A: Fn(Op) -> u32>(alu: &A, a: u32, b: u32) -> u32 {
    fmul(alu, TWO, fsub(alu, a, b))
}

/// The polynomial `(lead + linear + tail, 2 (tail - centre), lead - linear + tail)`,
/// the shape that every design below shares.
pub open spec fn spec_section<A: Fn(Op) -> u32>(
    alu: &A,
    lead: u32,
    linear: u32,
    tail: u32,
    centre: u32,
) -> Polynomial {
    Polynomial {
        c0: spec_trinomial(alu, lead, linear, tail, true),
        c1: spec_doubled_gap(alu, tail, centre),
        c2: spec_trinomial(alu, lead, linear, tail, false),
    }
}

/// The Butterworth polynomial `1 ± sqrt(2) K + K^2`, with `2 (K^2 - 1)` between.
pub open spec fn spec_butterworth<A: Fn(Op) -> u32>(alu: &A, k: u32) -> Polynomial {
    spec_section(alu, ONE, fmul(alu, fsqrt(alu, TWO), k), fmul(alu, k, k), ONE)
}

/// The low shelf polynomial `1 ± sqrt(2 V0) K + V0 K^2`, with `2 (V0 K^2 - 1)` between.
pub open spec fn spec_low_shelf<A: Fn(Op) -> u32>(alu: &A, k: u32, v0: u32) -> Polynomial {
    spec_section(
        alu,
        ONE,
        fmul(alu, fsqrt(alu, fmul(alu, TWO, v0)), k),
        fmul(alu, fmul(alu, v0, k), k),
        ONE,
    )
}

/// The high shelf polynomial `V0 ± sqrt(2 V0) K + K^2`, with `2 (K^2 - V0)` between.
pub open spec fn spec_high_shelf<A: Fn(Op) -> u32>(alu: &A, k: u32, v0: u32) -> Polynomial {
    spec_section(alu, v0, fmul(alu, fsqrt(alu, fmul(alu, TWO, v0)), k), fmul(alu, k, k), v0)
}

/// The feedback polynomial of a high shelf cut, `1 ± sqrt(2 / V0) K + K^2 / V0`, with
/// `2 (K^2 / V0 - 1)` between.
pub open spec fn spec_high_shelf_feedback<A: Fn(Op) -> u32>(
    alu: &A,
    k: u32,
    v0: u32,
) -> Polynomial {
    spec_section(
        alu,
        ONE,
        fmul(alu, fsqrt(alu, fdiv(alu, TWO, v0)), k),
        fdiv(alu, fmul(alu, k, k), v0),
        ONE,
    )
}

/// The peak polynomial `1 ± width + K^2`, with `2 (K^2 - 1)` between; the width is
/// `K / Q` or `V0 K / Q`.
pub open spec fn spec_peak<A: Fn(Op) -> u32>(alu: &A, k: u32, width: u32) -> Polynomial {
    spec_section(alu, ONE, width, fmul(alu, k, k), ONE)
}

/// The coefficients of the filter with the numerator `forward` over `scale`, and the
/// denominator `feedback` normalised by its own leading coefficient.
pub open spec fn spec_normalise<A: Fn(Op) -> u32>(
    alu: &A,
    forward: Polynomial,
    scale: u32,
    feedback: Polynomial,
) -> Coefficients {
    Coefficients {
        b0: fdiv(alu, forward.c0, scale),
        b1: fdiv(alu, forward.c1, scale),
        b2: fdiv(alu, forward.c2, scale),
        a1: fdiv(alu, feedback.c1, feedback.c0),
        a2: fdiv(alu, feedback.c2, feedback.c0),
    }
}

/// The coefficients of each response.
///
/// With `B` the Butterworth polynomial: a low pass is `(K^2, 2 K^2, K^2) / B`, a high
/// pass `(1, -2, 1) / B`. A shelf or a peak that boosts is its own polynomial over `B`
/// (over the peak polynomial of width `K / Q`); one that cuts is the same fraction turned
/// upside down, with `V0` the reciprocal ratio.
pub open spec fn coefficients<A: Fn(Op) -> u32>(alu: &A, mode: FilterMode) -> Coefficients {
    match mode {
        FilterMode::LowPass(cutoff) => {
            let k = spec_warp(alu, cutoff);
            let kk = fmul(alu, k, k);
            let plain = spec_butterworth(alu, k);
            let forward = Polynomial { c0: kk, c1: fmul(alu, fmul(alu, TWO, k), k), c2: kk };
            spec_normalise(alu, forward, plain.c0, plain)
        },
        FilterMode::HighPass(cutoff) => {
            let plain = spec_butterworth(alu, spec_warp(alu, cutoff));
            let forward = Polynomial { c0: ONE, c1: MINUS_TWO, c2: ONE };
            spec_normalise(alu, forward, plain.c0, plain)
        },
        FilterMode::LowShelf(cutoff, gain) => {
            let k = spec_warp(alu, cutoff);
            let plain = spec_butterworth(alu, k);
            let shelf = spec_low_shelf(alu, k, spec_amplitude(alu, gain));
            if less(gain, ZERO) {
                spec_normalise(alu, plain, shelf.c0, shelf)
            } else {
                spec_normalise(alu, shelf, plain.c0, plain)
            }
        },
        FilterMode::HighShelf(cutoff, gain) => {
            let k = spec_warp(alu, cutoff);
            let v0 = spec_amplitude(alu, gain);
            let plain = spec_butterworth(alu, k);
            let shelf = spec_high_shelf(alu, k, v0);
            if less(gain, ZERO) {
                spec_normalise(alu, plain, shelf.c0, spec_high_shelf_feedback(alu, k, v0))
            } else {
                spec_normalise(alu, shelf, plain.c0, plain)
            }
        },
        FilterMode::Peak(center, gain, q) => {
            let k = spec_warp(alu, center);
            let v0 = spec_amplitude(alu, gain);
            let narrow = spec_peak(alu, k, fdiv(alu, k, q));
            let wide = spec_peak(alu, k, fdiv(alu, fmul(alu, v0, k), q));
            if less(gain, ZERO) {
                spec_normalise(alu, narrow, wide.c0, wide)
            } else {
                spec_normalise(alu, wide, narrow.c0, narrow)
            }
        },
    }
}

/// The output of the difference equation for the input `x`, summed from the left.
pub open spec fn response<A: Fn(Op) -> u32>(alu: &A, s: FilterState, x: u32) -> u32 {
    let c = s.coefficients;
    fsub(
        alu,
        fsub(
            alu,
            fadd(
                alu,
                fadd(alu, fmul(alu, c.b0, x), fmul(alu, c.b1, s.x_last1)),
                fmul(alu, c.b2, s.x_last2),
            ),
            fmul(alu, c.a1, s.y_last1),
        ),
        fmul(alu, c.a2, s.y_last2),
    )
}

/// The state after the input `x`: the histories shift by one, the coefficients stay.
pub open spec fn advance<A: Fn(Op) -> u32>(alu: &A, s: FilterState, x: u32) -> FilterState {
    FilterState {
        x_last1: x,
        x_last2: s.x_last1,
        y_last1: response(alu, s, x),
        y_last2: s.y_last1,
        coefficients: s.coefficients,
    }
}

/// A filter that has seen only silence.
pub open spec fn at_rest(coefficients: Coefficients) -> FilterState {
    FilterState { x_last1: ZERO, x_last2: ZERO, y_last1: ZERO, y_last2: ZERO, coefficients }
}

#[verifier::when_used_as_spec(spec_decibel_to_ratio)]
fn decibel_to_ratio<A: Fn(Op) -> u32>(alu: &A, db: u32) -> (ratio: u32)
    requires
        lawful(alu),
    ensures
        ratio == spec_decibel_to_ratio(alu, db),
{
    fpow(alu, TEN, fdiv(alu, db, TEN))
}

fn amplitude<A: Fn(Op) -> u32>(alu: &A, gain: u32) -> (v0: u32)
    requires
        lawful(alu),
    ensures
        v0 == spec_amplitude(alu, gain),
{
    let ratio = decibel_to_ratio(alu, fdiv(alu, gain, TWO));  // amplitude dB
    if less(gain, ZERO) {
        fdiv(alu, ONE, ratio)
    } else {
        ratio
    }
}

fn section<A: Fn(Op) -> u32>(alu: &A, lead: u32, linear: u32, tail: u32, centre: u32) -> (p:
    Polynomial)
    requires
        lawful(alu),
    ensures
        p == spec_section(alu, lead, linear, tail, centre),
{
    Polynomial {
        c0: fadd(alu, fadd(alu, lead, linear), tail),
        c1: fmul(alu, TWO, fsub(alu, tail, centre)),
        c2: fadd(alu, fsub(alu, lead, linear), tail),
    }
}

fn normalise<A: Fn(Op) -> u32>(
    alu: &A,
    forward: Polynomial,
    scale: u32,
    feedback: Polynomial,
) -> (c: Coefficients)
    requires
        lawful(alu),
    ensures
        c == spec_normalise(alu, forward, scale, feedback),
{
    Coefficients {
        b0: fdiv(alu, forward.c0, scale),
        b1: fdiv(alu, forward.c1, scale),
        b2: fdiv(alu, forward.c2, scale),
        a1: fdiv(alu, feedback.c1, feedback.c0),
        a2: fdiv(alu, feedback.c2, feedback.c0),
    }
}

/// Computes the parameters for our filter
pub fn compute_parameters<A: Fn(Op) -> u32>(alu: &A, mode: FilterMode) -> (c: Coefficients)
    requires
        lawful(alu),
    ensures
        c == coefficients(alu, mode),
{
    let cutoff = match mode {
        FilterMode::LowPass(cutoff) => cutoff,
        FilterMode::HighPass(cutoff) => cutoff,
        FilterMode::LowShelf(cutoff, _) => cutoff,
        FilterMode::HighShelf(cutoff, _) => cutoff,
        FilterMode::Peak(center, _, _) => center,
    };
    let k = ftan(alu, fdiv(alu, fmul(alu, PI, cutoff), SAMPLE_RATE));
    let kk = fmul(alu, k, k);
    let plain = section(alu, ONE, fmul(alu, fsqrt(alu, TWO), k), kk, ONE);

    match mode {
        FilterMode::LowPass(_) => {
            let forward = Polynomial { c0: kk, c1: fmul(alu, fmul(alu, TWO, k), k), c2: kk };
            normalise(alu, forward, plain.c0, plain)
        },
        FilterMode::HighPass(_) => {
            let forward = Polynomial { c0: ONE, c1: MINUS_TWO, c2: ONE };
            normalise(alu, forward, plain.c0, plain)
        },
        FilterMode::LowShelf(_, gain) => {
            let v0 = amplitude(alu, gain);
            let slope = fmul(alu, fsqrt(alu, fmul(alu, TWO, v0)), k);
            let shelf = section(alu, ONE, slope, fmul(alu, fmul(alu, v0, k), k), ONE);
            if less(gain, ZERO) {
                // cut
                normalise(alu, plain, shelf.c0, shelf)
            } else {
                // boost
                normalise(alu, shelf, plain.c0, plain)
            }
        },
        FilterMode::HighShelf(_, gain) => {
            let v0 = amplitude(alu, gain);
            let slope = fmul(alu, fsqrt(alu, fmul(alu, TWO, v0)), k);
            let shelf = section(alu, v0, slope, kk, v0);
            if less(gain, ZERO) {
                // cut
                let slope = fmul(alu, fsqrt(alu, fdiv(alu, TWO, v0)), k);
                let feedback = section(alu, ONE, slope, fdiv(alu, kk, v0), ONE);
                normalise(alu, plain, shelf.c0, feedback)
            } else {
                // boost
                normalise(alu, shelf, plain.c0, plain)
            }
        },
        FilterMode::Peak(_, gain, q) => {
            let v0 = amplitude(alu, gain);
            let narrow = section(alu, ONE, fdiv(alu, k, q), kk, ONE);
            let wide = section(alu, ONE, fdiv(alu, fmul(alu, v0, k), q), kk, ONE);
            if less(gain, ZERO) {
                // cut
                normalise(alu, narrow, wide.c0, wide)
            } else {
                // boost
                normalise(alu, wide, narrow.c0, narrow)
            }
        },
    }
}

impl View for Filter {
    type V = FilterState;

    closed spec fn view(&self) -> FilterState {
        FilterState {
            x_last1: self.x_last1,
            x_last2: self.x_last2,
            y_last1: self.y_last1,
            y_last2: self.y_last2,
            coefficients: Coefficients {
                b0: self.b0,
                b1: self.b1,
                b2: self.b2,
                a1: self.a1,
                a2: self.a2,
            },
        }
    }
}

impl Filter {
    /// Creates a new second order filter with the provided mode, at rest.
    pub fn new<A: Fn(Op) -> u32>(alu: &A, mode: FilterMode) -> (filter: Self)
        requires
            lawful(alu),
        ensures
            filter@ == at_rest(coefficients(alu, mode)),
    {
        // Compute the parameter values
        let c = compute_parameters(alu, mode);

        Filter {
            x_last1: ZERO,
            x_last2: ZERO,
            y_last1: ZERO,
            y_last2: ZERO,
            b0: c.b0,
            b1: c.b1,
            b2: c.b2,
            a1: c.a1,
            a2: c.a2,
        }
    }

    /// Filters one sample: the output of the difference equation, which then becomes
    /// part of the history. The coefficients never change.
    pub fn tick<A: Fn(Op) -> u32>(&mut self, alu: &A, x: u32) -> (y: u32)
        requires
            lawful(alu),
        ensures
            y == response(alu, old(self)@, x),
            final(self)@ == advance(alu, old(self)@, x),
    {
        // Run the filter, and feed back the result
        let feed = fadd(
            alu,
            fadd(alu, fmul(alu, self.b0, x), fmul(alu, self.b1, self.x_last1)),
            fmul(alu, self.b2, self.x_last2),
        );
        let y = fsub(
            alu,
            fsub(alu, feed, fmul(alu, self.a1, self.y_last1)),
            fmul(alu, self.a2, self.y_last2),
        );

        // Store our results
        self.x_last2 = self.x_last1;
        self.y_last2 = self.y_last1;
        self.x_last1 = x;
        self.y_last1 = y;
        y
    }
}

} // verus!

//! The adaptive filter: a normalised least-mean-fourth style FIR filter whose update is
//! gated by its novelty.
//!
//! One step predicts the echo in the microphone sample from a window of reference
//! samples, and proposes a correction of every weight. The novelty of the proposal is
//! the largest `|dw[i] * error|` over the taps. The proposal is applied only while the
//! novelty lies below the caller's threshold: a large novelty marks double talk or a
//! dropout, and the weights are then left alone.

use vstd::prelude::*;
use crate::arith::{
    fadd, fdiv, fmul, fsub, is_nan, lawful, less, magnitude, Op, MAX, SIGN, ZERO,
};

verus! {

/// The adaptive filter. `T` is the type of a sample; the algorithm is given for binary32
/// patterns.
pub struct NLMF<T> {
    pub weights: Vec<T>,
    mu: T,
    eps: T,
}

/// What an adaptive filter is at one moment: its weights, its step size and its
/// regularisation.
pub struct Taps {
    pub weights: Seq<u32>,
    pub mu: u32,
    pub eps: u32,
}

/// An update was due, and the new weight of the tap `tap` would have been a NaN. No
/// earlier tap has that fault. The filter has kept its weights; they are beyond repair
/// all the same, and the caller is to stop.
#[derive(Clone, Copy, Debug)]
pub struct NanWeight {
    pub tap: usize,
}

/// The sum of `a[i] * b[i]` over the first `n` places, added up from the left, starting
/// from zero.
pub open spec fn dot<A: Fn(Op) -> u32>(alu: &A, a: Seq<u32>, b: Seq<u32>, n: nat) -> u32
    decreases n,
{
    if n == 0 {
        ZERO
    } else {
        fadd(alu, dot(alu, a, b, (n - 1) as nat), fmul(alu, a[n - 1], b[n - 1]))
    }
}

/// The echo that the filter predicts for a window.
pub open spec fn prediction<A: Fn(Op) -> u32>(alu: &A, t: Taps, input: Seq<u32>) -> u32 {
    dot(alu, t.weights, input, t.weights.len())
}

/// `target - output`.
pub open spec fn error<A: Fn(Op) -> u32>(alu: &A, t: Taps, input: Seq<u32>, target: u32) -> u32 {
    fsub(alu, target, prediction(alu, t, input))
}

/// The normalised step `mu / (eps + energy)`, with the energy of the window the sum of
/// its squares.
pub open spec fn step<A: Fn(Op) -> u32>(alu: &A, t: Taps, input: Seq<u32>) -> u32 {
    fdiv(alu, t.mu, fadd(alu, t.eps, dot(alu, input, input, input.len())))
}

/// The proposed change of the weight `i`: `(step * error) * input[i]`.
pub open spec fn delta<A: Fn(Op) -> u32>(
    alu: &A,
    t: Taps,
    input: Seq<u32>,
    target: u32,
    i: int,
) -> u32 {
    fmul(alu, fmul(alu, step(alu, t, input), error(alu, t, input, target)), input[i])
}

/// `|dw[i] * error|`.
pub open spec fn impact<A: Fn(Op) -> u32>(
    alu: &A,
    t: Taps,
    input: Seq<u32>,
    target: u32,
    i: int,
) -> u32 {
    magnitude(fmul(alu, delta(alu, t, input, target, i), error(alu, t, input, target)))
}

/// The largest impact among the first `n` taps, zero where there is none. An impact
/// that is a NaN is passed over.
pub open spec fn novelty_upto<A: Fn(Op) -> u32>(
    alu: &A,
    t: Taps,
    input: Seq<u32>,
    target: u32,
    n: nat,
) -> u32
    decreases n,
{
    if n == 0 {
        ZERO
    } else {
        let before = novelty_upto(alu, t, input, target, (n - 1) as nat);
        let here = impact(alu, t, input, target, n - 1);
        if less(before, here) {
            here
        } else {
            before
        }
    }
}

/// The novelty of a step: the largest impact over all taps.
pub open spec fn novelty<A: Fn(Op) -> u32>(alu: &A, t: Taps, input: Seq<u32>, target: u32) -> u32 {
    novelty_upto(alu, t, input, target, t.weights.len())
}

/// Whether the novelty is below the threshold, so that the update is applied.
pub open spec fn gate_open<A: Fn(Op) -> u32>(
    alu: &A,
    t: Taps,
    input: Seq<u32>,
    target: u32,
    novelty_threshold: u32,
) -> bool {
    less(novelty(alu, t, input, target), novelty_threshold)
}

/// The weight `i` after an update: `weights[i] + dw[i]`.
pub open spec fn updated<A: Fn(Op) -> u32>(
    alu: &A,
    t: Taps,
    input: Seq<u32>,
    target: u32,
    i: int,
) -> u32 {
    fadd(alu, t.weights[i], delta(alu, t, input, target, i))
}

/// Whether the update would leave a NaN among the weights.
pub open spec fn blows_up<A: Fn(Op) -> u32>(alu: &A, t: Taps, input: Seq<u32>, target: u32) -> bool {
    exists|i: int| 0 <= i < t.weights.len() && is_nan(#[trigger] updated(alu, t, input, target, i))
}

/// Whether `tap` is the first tap that the update would leave with a NaN.
pub open spec fn faults_at<A: Fn(Op) -> u32>(
    alu: &A,
    t: Taps,
    input: Seq<u32>,
    target: u32,
    tap: int,
) -> bool {
    &&& 0 <= tap < t.weights.len()
    &&& is_nan(updated(alu, t, input, target, tap))
    &&& forall|i: int| 0 <= i < tap ==> !is_nan(#[trigger] updated(alu, t, input, target, i))
}

/// The filter after a step on a window of the filter's own length.
pub open spec fn adapted<A: Fn(Op) -> u32>(
    alu: &A,
    t: Taps,
    input: Seq<u32>,
    target: u32,
    novelty_threshold: u32,
) -> Taps {
    if gate_open(alu, t, input, target, novelty_threshold) && !blows_up(alu, t, input, target) {
        Taps {
            weights: Seq::new(t.weights.len(), |i: int| updated(alu, t, input, target, i)),
            mu: t.mu,
            eps: t.eps,
        }
    } else {
        t
    }
}

/// Whether no weight is a NaN.
pub open spec fn sound(t: Taps) -> bool {
    forall|i: int| 0 <= i < t.weights.len() ==> !is_nan(#[trigger] t.weights[i])
}

/// What a step returns: the prediction and the novelty, neither of which depends on
/// the threshold; or nothing, where the update is due and would leave a NaN.
pub open spec fn verdict<A: Fn(Op) -> u32>(
    alu: &A,
    t: Taps,
    input: Seq<u32>,
    target: u32,
    novelty_threshold: u32,
) -> Option<(u32, u32)> {
    if gate_open(alu, t, input, target, novelty_threshold) && blows_up(alu, t, input, target) {
        None
    } else {
        Some((prediction(alu, t, input), novelty(alu, t, input, target)))
    }
}

/// The novelty is a magnitude: its sign bit is clear and it is no NaN, whatever the
/// unit answers.
pub proof fn lemma_novelty_is_magnitude<A: Fn(Op) -> u32>(
    alu: &A,
    t: Taps,
    input: Seq<u32>,
    target: u32,
    n: nat,
)
    ensures
        novelty_upto(alu, t, input, target, n) < SIGN,
        !is_nan(novelty_upto(alu, t, input, target, n)),
    decreases n,
{
    if n > 0 {
        lemma_novelty_is_magnitude(alu, t, input, target, (n - 1) as nat);
    }
}

/// The threshold decides whether the weights move, and nothing else.
///
/// Take one filter, one window and one target, and two thresholds: the largest finite
/// number, and one below the novelty of the step. Both steps return the same prediction
/// and the same novelty. The first applies the update, the second leaves the filter as
/// it was, and the two filters differ afterwards.
///
/// This is said of a step whose novelty is below the largest finite number, whose
/// update leaves no NaN, and whose update moves at least one weight.
pub proof fn law_threshold_decides<A: Fn(Op) -> u32>(
    alu: &A,
    t: Taps,
    input: Seq<u32>,
    target: u32,
    low: u32,
)
    requires
        input.len() == t.weights.len(),
        less(low, novelty(alu, t, input, target)),
        less(novelty(alu, t, input, target), MAX),
        !blows_up(alu, t, input, target),
        exists|i: int|
            0 <= i < t.weights.len() && #[trigger] updated(alu, t, input, target, i)
                != t.weights[i],
    ensures
        verdict(alu, t, input, target, MAX) == verdict(alu, t, input, target, low),
        verdict(alu, t, input, target, MAX) == Some(
            (prediction(alu, t, input), novelty(alu, t, input, target)),
        ),
        adapted(alu, t, input, target, low) == t,
        forall|i: int|
            0 <= i < t.weights.len() ==> adapted(alu, t, input, target, MAX).weights[i]
                == updated(alu, t, input, target, i),
        adapted(alu, t, input, target, MAX).weights != adapted(alu, t, input, target, low).weights,
{
    let i = choose|i: int|
        0 <= i < t.weights.len() && #[trigger] updated(alu, t, input, target, i) != t.weights[i];
    assert(adapted(alu, t, input, target, MAX).weights[i] != t.weights[i]);
}

/// A shut gate keeps the filter: with the novelty at or above the threshold, or with a
/// threshold that is a NaN, a step changes nothing and cannot fail.
pub proof fn law_shut_gate_keeps<A: Fn(Op) -> u32>(
    alu: &A,
    t: Taps,
    input: Seq<u32>,
    target: u32,
    novelty_threshold: u32,
)
    requires
        !less(novelty(alu, t, input, target), novelty_threshold),
    ensures
        adapted(alu, t, input, target, novelty_threshold) == t,
        verdict(alu, t, input, target, novelty_threshold) is Some,
{
}

/// Silence teaches nothing: a step on a window of silence leaves the filter as it
/// was, whatever the target and the threshold.
///
/// On such a window every tap is offered the same change, `(step * error) * 0`. This
/// is said of a unit and of weights for which adding that change to a weight gives the
/// weight back wherever the update is applied, as adding a zero does to every number
/// but the zero of the other sign.
pub proof fn law_silence_keeps_weights<A: Fn(Op) -> u32>(
    alu: &A,
    t: Taps,
    input: Seq<u32>,
    target: u32,
    novelty_threshold: u32,
)
    requires
        input.len() == t.weights.len(),
        forall|i: int| 0 <= i < input.len() ==> input[i] == ZERO,
        gate_open(alu, t, input, target, novelty_threshold) && !blows_up(alu, t, input, target)
            ==> forall|i: int|
            0 <= i < t.weights.len() ==> fadd(
                alu,
                #[trigger] t.weights[i],
                fmul(alu, fmul(alu, step(alu, t, input), error(alu, t, input, target)), ZERO),
            ) == t.weights[i],
    ensures
        adapted(alu, t, input, target, novelty_threshold) == t,
        forall|i: int|
            0 <= i < t.weights.len() ==> delta(alu, t, input, target, i) == fmul(
                alu,
                fmul(alu, step(alu, t, input), error(alu, t, input, target)),
                ZERO,
            ),
{
    let after = adapted(alu, t, input, target, novelty_threshold);
    assert(after.weights =~= t.weights);
}

/// A step keeps a filter free of NaN weights: it either leaves the weights alone or
/// gives each of them a value that is no NaN.
pub proof fn law_step_keeps_sound<A: Fn(Op) -> u32>(
    alu: &A,
    t: Taps,
    input: Seq<u32>,
    target: u32,
    novelty_threshold: u32,
)
    requires
        sound(t),
    ensures
        sound(adapted(alu, t, input, target, novelty_threshold)),
        adapted(alu, t, input, target, novelty_threshold).weights.len() == t.weights.len(),
        adapted(alu, t, input, target, novelty_threshold).mu == t.mu,
        adapted(alu, t, input, target, novelty_threshold).eps == t.eps,
{
}

impl View for NLMF<u32> {
    type V = Taps;

    closed spec fn view(&self) -> Taps {
        Taps { weights: self.weights@, mu: self.mu, eps: self.eps }
    }
}

impl NLMF<u32> {
    /// A filter of `n` taps with the step size `mu`, the regularisation `eps` and the
    /// initial weights.
    pub fn new(n: usize, mu: u32, eps: u32, weights: Vec<u32>) -> (filter: NLMF<u32>)
        requires
            weights.len() == n,
        ensures
            filter@ == (Taps { weights: weights@, mu, eps }),
    {
        NLMF { weights, mu, eps }
    }

    /// One step: returns the predicted echo and the novelty of the proposed update, and
    /// applies the update where the novelty is below `novelty_threshold`.
    ///
    /// The prediction and the novelty do not depend on the threshold. A step whose gate
    /// is shut leaves the filter as it was. A step whose gate is open either gives every
    /// weight its new value, none of them a NaN, or fails on the first tap whose new
    /// value is a NaN and leaves the filter as it was.
    pub fn adapt<A: Fn(Op) -> u32>(
        &mut self,
        alu: &A,
        input: &[u32],
        target: u32,
        novelty_threshold: u32,
    ) -> (r: Result<(u32, u32), NanWeight>)
        requires
            lawful(alu),
            input@.len() == old(self)@.weights.len(),
        ensures
            r is Err <==> gate_open(alu, old(self)@, input@, target, novelty_threshold) && blows_up(
                alu,
                old(self)@,
                input@,
                target,
            ),
            final(self)@ == adapted(alu, old(self)@, input@, target, novelty_threshold),
            r matches Ok(pair) ==> Some(pair) == verdict(
                alu,
                old(self)@,
                input@,
                target,
                novelty_threshold,
            ),
            novelty(alu, old(self)@, input@, target) < SIGN,
            !is_nan(novelty(alu, old(self)@, input@, target)),
            r matches Err(e) ==> faults_at(alu, old(self)@, input@, target, e.tap as int),
            sound(old(self)@) ==> sound(final(self)@),
    {
        let ghost t = self@;
        let n = self.weights.len();
        proof {
            lemma_novelty_is_magnitude(alu, t, input@, target, n as nat);
        }

        let mut output = ZERO;
        let mut energy = ZERO;
        let mut i: usize = 0;
        while i < n
            invariant
                lawful(alu),
                i <= n,
                n == input@.len(),
                self@ == t,
                n == t.weights.len(),
                output == dot(alu, t.weights, input@, i as nat),
                energy == dot(alu, input@, input@, i as nat),
            decreases n - i,
        {
            output = fadd(alu, output, fmul(alu, self.weights[i], input[i]));
            energy = fadd(alu, energy, fmul(alu, input[i], input[i]));
            i += 1;
        }

        let miss = fsub(alu, target, output);
        let nu = fdiv(alu, self.mu, fadd(alu, self.eps, energy));
        let gain = fmul(alu, nu, miss);

        let mut nov = ZERO;
        let mut dws: Vec<u32> = Vec::new();
        let mut i: usize = 0;
        while i < n
            invariant
                lawful(alu),
                i <= n,
                n == input@.len(),
                n == t.weights.len(),
                miss == error(alu, t, input@, target),
                gain == fmul(alu, step(alu, t, input@), miss),
                dws@.len() == i,
                forall|j: int| 0 <= j < i ==> dws@[j] == delta(alu, t, input@, target, j),
                nov == novelty_upto(alu, t, input@, target, i as nat),
            decreases n - i,
        {
            let dw = fmul(alu, gain, input[i]);
            let here = magnitude(fmul(alu, dw, miss));
            if less(nov, here) {
                nov = here;
            }
            dws.push(dw);
            i += 1;
        }

        if less(nov, novelty_threshold) {
            let mut next: Vec<u32> = Vec::new();
            let mut i: usize = 0;
            while i < n
                invariant
                    lawful(alu),
                    i <= n,
                    n == t.weights.len(),
                    n == input@.len(),
                    self@ == t,
                    t == old(self)@,
                    gate_open(alu, t, input@, target, novelty_threshold),
                    novelty(alu, t, input@, target) < SIGN,
                    !is_nan(novelty(alu, t, input@, target)),
                    dws@.len() == n,
                    forall|j: int| 0 <= j < n ==> dws@[j] == delta(alu, t, input@, target, j),
                    next@.len() == i,
                    forall|j: int|
                        0 <= j < i ==> next@[j] == updated(alu, t, input@, target, j) && !is_nan(
                            #[trigger] updated(alu, t, input@, target, j),
                        ),
                decreases n - i,
            {
                let w = fadd(alu, self.weights[i], dws[i]);
                if is_nan(w) {
                    assert(is_nan(updated(alu, t, input@, target, i as int)));
                    return Err(NanWeight { tap: i });
                }
                next.push(w);
                i += 1;
            }
            assert(next@ =~= Seq::new(n as nat, |j: int| updated(alu, t, input@, target, j)));
            self.weights = next;
        }
        Ok((output, nov))
    }
}

} // verus!

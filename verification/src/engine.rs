//! The echo cancelling engine: what happens to one frame, and how a batch of frames is
//! drawn from the input channels and sent to the output channel.
//!
//! A frame is one microphone sample with one reference sample. The reference sample
//! enters the delay line; the adaptive filter predicts from the delay line the echo in
//! the microphone sample and learns from its error; the residual is limited to the speech
//! band and sent on.

use vstd::prelude::*;
use crate::arith::{fsub, lawful, silence, Op, ONE, ZERO};
use crate::channel::{
    consumer_capacity, consumer_ready, consumer_received, consumer_size, is_empty, is_full,
    occupancy, pop, producer_capacity, producer_room, producer_sent, producer_size, push, waiting,
};
use crate::delay::{shifted, DelayLine};
use crate::filter::{advance, at_rest, coefficients, response, Filter, FilterMode, FilterState};
use crate::nlmf::{
    adapted, blows_up, faults_at, gate_open, law_step_keeps_sound, prediction, sound, NanWeight,
    Taps, NLMF,
};

verus! {

/// The number of taps of the adaptive filter, and so the length of the delay line.
pub const N_TAPS: usize = 2048;

/// The pattern of 0.0025, the novelty below which the engine lets an update through.
pub const NOVELTY_THRESHOLD: u32 = 0x3b23_d70a;

/// The pattern of 3400, the cutoff in Hz of the low pass that ends the speech band.
pub const LOWPASS_CUTOFF: u32 = 0x4554_8000;

/// The pattern of 300, the cutoff in Hz of the high pass that begins the speech band.
pub const HIGHPASS_CUTOFF: u32 = 0x4396_0000;

/// The number of frames from one telemetry snapshot to the next.
pub const TELEMETRY_STRIDE: usize = 1000;

/// What the engine is at one moment, apart from its channels.
pub struct EngineState {
    pub taps: Taps,
    pub window: Seq<u32>,
    pub lowpass: FilterState,
    pub highpass: FilterState,
}

/// What the engine knows of its three channels.
pub struct Ports {
    pub mic_received: Seq<u32>,
    pub mic_ready: nat,
    pub mic_capacity: nat,
    pub reference_received: Seq<u32>,
    pub reference_ready: nat,
    pub reference_capacity: nat,
    pub output_sent: Seq<u32>,
    pub output_room: nat,
    pub output_capacity: nat,
}

/// The filling of the three channels at one moment of a batch, each as the number of
/// samples in the channel and its capacity.
#[derive(Clone, Copy, Debug)]
pub struct Snapshot {
    pub mic: usize,
    pub mic_capacity: usize,
    pub reference: usize,
    pub reference_capacity: usize,
    pub output: usize,
    pub output_capacity: usize,
}

/// What one batch did.
pub struct BatchReport {
    /// The number of frames that went through the filters and into the output.
    pub processed: usize,
    /// Whether the output channel refused a result. As long as the engine is the only
    /// writer of its output, it never does.
    pub overrun: bool,
    /// The telemetry of the batch, in order; empty while telemetry is off.
    pub snapshots: Vec<Snapshot>,
    /// The number of samples seen in the output channel after the last frame.
    pub level: usize,
    /// The number of samples of silence that were added to keep the output going.
    pub padded: usize,
}

/// The engine as it is made: the given weights, a regularisation of one, a delay line
/// of silence, and the two band filters at rest.
pub open spec fn initial<A: Fn(Op) -> u32>(alu: &A, mu: u32, weights: Seq<u32>) -> EngineState {
    EngineState {
        taps: Taps { weights, mu, eps: ONE },
        window: silence(N_TAPS as nat),
        lowpass: at_rest(coefficients(alu, FilterMode::LowPass(LOWPASS_CUTOFF))),
        highpass: at_rest(coefficients(alu, FilterMode::HighPass(HIGHPASS_CUTOFF))),
    }
}

/// The residual of a frame: the microphone sample less the echo predicted from the
/// window that ends with the frame's reference sample.
pub open spec fn residual<A: Fn(Op) -> u32>(
    alu: &A,
    s: EngineState,
    mic: u32,
    reference: u32,
) -> u32 {
    fsub(alu, mic, prediction(alu, s.taps, shifted(s.window, reference)))
}

/// Whether a frame ends the engine: its update is due and would leave a NaN weight.
pub open spec fn frame_fails<A: Fn(Op) -> u32>(
    alu: &A,
    s: EngineState,
    mic: u32,
    reference: u32,
) -> bool {
    let window = shifted(s.window, reference);
    gate_open(alu, s.taps, window, mic, NOVELTY_THRESHOLD) && blows_up(alu, s.taps, window, mic)
}

/// The output of a frame: the residual after the low pass and then the high pass.
pub open spec fn frame_output<A: Fn(Op) -> u32>(
    alu: &A,
    s: EngineState,
    mic: u32,
    reference: u32,
) -> u32 {
    response(alu, s.highpass, response(alu, s.lowpass, residual(alu, s, mic, reference)))
}

/// The engine after a frame. A frame that fails has only moved the delay line.
pub open spec fn after_frame<A: Fn(Op) -> u32>(
    alu: &A,
    s: EngineState,
    mic: u32,
    reference: u32,
) -> EngineState {
    let window = shifted(s.window, reference);
    if frame_fails(alu, s, mic, reference) {
        EngineState { taps: s.taps, window, lowpass: s.lowpass, highpass: s.highpass }
    } else {
        let e = residual(alu, s, mic, reference);
        EngineState {
            taps: adapted(alu, s.taps, window, mic, NOVELTY_THRESHOLD),
            window,
            lowpass: advance(alu, s.lowpass, e),
            highpass: advance(alu, s.highpass, response(alu, s.lowpass, e)),
        }
    }
}

/// The engine after a run of frames, frame `k` being `mics[k]` with `references[k]`.
pub open spec fn after_frames<A: Fn(Op) -> u32>(
    alu: &A,
    s: EngineState,
    mics: Seq<u32>,
    references: Seq<u32>,
) -> EngineState
    decreases mics.len(),
{
    if mics.len() == 0 {
        s
    } else {
        after_frame(
            alu,
            after_frames(alu, s, mics.drop_last(), references.drop_last()),
            mics.last(),
            references.last(),
        )
    }
}

/// The outputs of a run of frames.
pub open spec fn outputs<A: Fn(Op) -> u32>(
    alu: &A,
    s: EngineState,
    mics: Seq<u32>,
    references: Seq<u32>,
) -> Seq<u32>
    decreases mics.len(),
{
    if mics.len() == 0 {
        Seq::<u32>::empty()
    } else {
        outputs(alu, s, mics.drop_last(), references.drop_last()).push(
            frame_output(
                alu,
                after_frames(alu, s, mics.drop_last(), references.drop_last()),
                mics.last(),
                references.last(),
            ),
        )
    }
}

/// Whether no frame of a run fails.
pub open spec fn clean<A: Fn(Op) -> u32>(
    alu: &A,
    s: EngineState,
    mics: Seq<u32>,
    references: Seq<u32>,
) -> bool
    decreases mics.len(),
{
    mics.len() == 0 || (clean(alu, s, mics.drop_last(), references.drop_last()) && !frame_fails(
        alu,
        after_frames(alu, s, mics.drop_last(), references.drop_last()),
        mics.last(),
        references.last(),
    ))
}

/// The number of snapshots that a batch of `frames` frames takes with telemetry on: one
/// at its first frame and one every [`TELEMETRY_STRIDE`] frames after it.
pub open spec fn snapshots_due(frames: nat) -> nat {
    (frames + 999) / 1000
}

/// The silence that keeps a starving output going: half the capacity, where less than
/// a fifth of the capacity is filled, and nothing otherwise.
pub open spec fn padding(level: nat, capacity: nat) -> nat {
    if 5 * level < capacity {
        capacity / 2
    } else {
        0
    }
}

/// The smallest of three numbers.
pub open spec fn least(a: nat, b: nat, c: nat) -> nat {
    if a <= b && a <= c {
        a
    } else if b <= c {
        b
    } else {
        c
    }
}

/// The microphone samples that the engine drew between two moments.
pub open spec fn mics_drawn(before: Ports, after: Ports) -> Seq<u32> {
    after.mic_received.skip(before.mic_received.len() as int)
}

/// The reference samples that the engine drew between two moments.
pub open spec fn references_drawn(before: Ports, after: Ports) -> Seq<u32> {
    after.reference_received.skip(before.reference_received.len() as int)
}

/// Whether the three channels have kept their capacities.
pub open spec fn same_capacities(before: Ports, after: Ports) -> bool {
    &&& after.mic_capacity == before.mic_capacity
    &&& after.reference_capacity == before.reference_capacity
    &&& after.output_capacity == before.output_capacity
}

/// Whether a snapshot was taken of these channels: it names their capacities, and no
/// channel holds more than its capacity.
pub open spec fn measured(snapshot: Snapshot, ports: Ports) -> bool {
    &&& snapshot.mic <= snapshot.mic_capacity == ports.mic_capacity
    &&& snapshot.reference <= snapshot.reference_capacity == ports.reference_capacity
    &&& snapshot.output <= snapshot.output_capacity == ports.output_capacity
}

/// What no run of frames changes: the number of taps, the length of the delay line,
/// the step size and the regularisation, and the coefficients of the two band filters.
/// A filter without NaN weights stays without them. Every frame has one output.
pub proof fn law_frames_keep_shape<A: Fn(Op) -> u32>(
    alu: &A,
    s: EngineState,
    mics: Seq<u32>,
    references: Seq<u32>,
)
    requires
        mics.len() == references.len(),
    ensures
        after_frames(alu, s, mics, references).window.len() == s.window.len(),
        after_frames(alu, s, mics, references).taps.weights.len() == s.taps.weights.len(),
        after_frames(alu, s, mics, references).taps.mu == s.taps.mu,
        after_frames(alu, s, mics, references).taps.eps == s.taps.eps,
        after_frames(alu, s, mics, references).lowpass.coefficients == s.lowpass.coefficients,
        after_frames(alu, s, mics, references).highpass.coefficients == s.highpass.coefficients,
        sound(s.taps) ==> sound(after_frames(alu, s, mics, references).taps),
        outputs(alu, s, mics, references).len() == mics.len(),
    decreases mics.len(),
{
    if mics.len() > 0 {
        law_frames_keep_shape(alu, s, mics.drop_last(), references.drop_last());
        let before = after_frames(alu, s, mics.drop_last(), references.drop_last());
        if sound(before.taps) {
            law_step_keeps_sound(
                alu,
                before.taps,
                shifted(before.window, references.last()),
                mics.last(),
                NOVELTY_THRESHOLD,
            );
        }
    }
}

/// The delay line holds the most recent reference samples: after a run of frames it is
/// the end of what it held before, followed by the references of the run.
pub proof fn law_window_is_recent<A: Fn(Op) -> u32>(
    alu: &A,
    s: EngineState,
    mics: Seq<u32>,
    references: Seq<u32>,
)
    requires
        mics.len() == references.len(),
        s.window.len() > 0,
    ensures
        after_frames(alu, s, mics, references).window == (s.window + references).skip(
            references.len() as int,
        ),
    decreases mics.len(),
{
    let all = s.window + references;
    if mics.len() == 0 {
        assert(all.skip(0) == s.window);
    } else {
        law_window_is_recent(alu, s, mics.drop_last(), references.drop_last());
        law_frames_keep_shape(alu, s, mics.drop_last(), references.drop_last());
        let shorter = s.window + references.drop_last();
        let before = after_frames(alu, s, mics.drop_last(), references.drop_last()).window;
        assert(before == shorter.skip(references.len() - 1));
        assert(shifted(before, references.last()) == all.skip(references.len() as int)) by {
            assert(all == shorter.push(references.last()));
            assert(before.skip(1).push(references.last()) =~= all.skip(
                references.len() as int,
            ));
        }
    }
}

/// The echo cancelling engine. It owns the reading ends of the microphone and the
/// reference channel, the writing end of the output channel, the adaptive filter with
/// its delay line, and the two filters that limit the result to the speech band.
pub struct AECFiltering {
    /// Incoming buffer of microphone data
    mic_buffer: ringbuf::Consumer<u32>,
    /// Incoming buffer of reference data
    capture_buffer: ringbuf::Consumer<u32>,
    /// Outgoing buffer for output
    output_buffer: ringbuf::Producer<u32>,
    /// The adaptive FIR filter instance
    nlmf_filter: NLMF<u32>,
    /// The running convolution to input into the FIR filter
    filter_buffer: DelayLine,
    /// A low pass filter
    lowpass_filter: Filter,
    /// A high pass filter
    highpass_fiter: Filter,
    /// Whether the batches record the filling state of the buffers
    telemetry: bool,
}

impl View for AECFiltering {
    type V = EngineState;

    closed spec fn view(&self) -> EngineState {
        EngineState {
            taps: self.nlmf_filter@,
            window: self.filter_buffer@,
            lowpass: self.lowpass_filter@,
            highpass: self.highpass_fiter@,
        }
    }
}

impl AECFiltering {
    /// What the engine knows of its channels.
    pub closed spec fn ports(&self) -> Ports {
        Ports {
            mic_received: consumer_received(self.mic_buffer),
            mic_ready: consumer_ready(self.mic_buffer),
            mic_capacity: consumer_capacity(self.mic_buffer),
            reference_received: consumer_received(self.capture_buffer),
            reference_ready: consumer_ready(self.capture_buffer),
            reference_capacity: consumer_capacity(self.capture_buffer),
            output_sent: producer_sent(self.output_buffer),
            output_room: producer_room(self.output_buffer),
            output_capacity: producer_capacity(self.output_buffer),
        }
    }

    /// Whether the batches take telemetry.
    pub closed spec fn telemetry(&self) -> bool {
        self.telemetry
    }

    /// The filter has as many taps as the delay line has samples.
    pub open spec fn wf(&self) -> bool {
        self@.taps.weights.len() == self@.window.len()
    }

    /// An engine between the three channels, with the step size `mu` and the initial
    /// weights of the adaptive filter, one for each of the [`N_TAPS`] taps. Small random
    /// weights serve better than zeros: they keep the first novelties apart.
    pub fn new<A: Fn(Op) -> u32>(
        alu: &A,
        mic_buffer: ringbuf::Consumer<u32>,
        capture_buffer: ringbuf::Consumer<u32>,
        output_buffer: ringbuf::Producer<u32>,
        mu: u32,
        weights: Vec<u32>,
    ) -> (engine: Self)
        requires
            lawful(alu),
            weights.len() == N_TAPS,
        ensures
            engine.wf(),
            engine@ == initial(alu, mu, weights@),
            !engine.telemetry(),
            engine.ports() == (Ports {
                mic_received: consumer_received(mic_buffer),
                mic_ready: consumer_ready(mic_buffer),
                mic_capacity: consumer_capacity(mic_buffer),
                reference_received: consumer_received(capture_buffer),
                reference_ready: consumer_ready(capture_buffer),
                reference_capacity: consumer_capacity(capture_buffer),
                output_sent: producer_sent(output_buffer),
                output_room: producer_room(output_buffer),
                output_capacity: producer_capacity(output_buffer),
            }),
    {
        let nlmf_filter = NLMF::new(N_TAPS, mu, ONE, weights);
        let lowpass_filter = Filter::new(alu, FilterMode::LowPass(LOWPASS_CUTOFF));
        let highpass_fiter = Filter::new(alu, FilterMode::HighPass(HIGHPASS_CUTOFF));
        let filter_buffer = DelayLine::new(N_TAPS);
        AECFiltering {
            mic_buffer,
            capture_buffer,
            output_buffer,
            nlmf_filter,
            filter_buffer,
            lowpass_filter,
            highpass_fiter,
            telemetry: false,
        }
    }

    /// Switches the telemetry of the batches on or off.
    pub fn set_telemetry(&mut self, on: bool)
        ensures
            final(self).telemetry() == on,
            final(self)@ == old(self)@,
            final(self).ports() == old(self).ports(),
    {
        self.telemetry = on;
    }

    /// One frame of the algorithm: the reference sample enters the delay line, the
    /// adaptive filter predicts the echo from the window and takes its step towards the
    /// microphone sample, and the residual goes through the low pass and the high pass.
    /// Returns the filtered residual, or the fault of the adaptive filter. The channels
    /// are not touched.
    pub fn process_frame<A: Fn(Op) -> u32>(&mut self, alu: &A, mic: u32, reference: u32) -> (r:
        Result<u32, NanWeight>)
        requires
            lawful(alu),
            old(self).wf(),
        ensures
            final(self).wf(),
            final(self).ports() == old(self).ports(),
            final(self).telemetry() == old(self).telemetry(),
            final(self)@ == after_frame(alu, old(self)@, mic, reference),
            r is Err <==> frame_fails(alu, old(self)@, mic, reference),
            r matches Ok(filtered) ==> filtered == frame_output(alu, old(self)@, mic, reference),
            r matches Err(e) ==> faults_at(
                alu,
                old(self)@.taps,
                shifted(old(self)@.window, reference),
                mic,
                e.tap as int,
            ),
    {
        self.filter_buffer.push(reference);
        let filter_input = self.filter_buffer.window();
        match self.nlmf_filter.adapt(alu, filter_input.as_slice(), mic, NOVELTY_THRESHOLD) {
            Ok((aec_output, _novelty)) => {
                let low = self.lowpass_filter.tick(alu, fsub(alu, mic, aec_output));
                Ok(self.highpass_fiter.tick(alu, low))
            },
            Err(e) => Err(e),
        }
    }

    /// One batch: handles frames for as long as both input channels have a sample and
    /// the output channel has a free slot, then looks after a starving output.
    ///
    /// A frame is one sample from the microphone and one from the reference, which go
    /// through [`Self::process_frame`]; the result goes to the output. With telemetry
    /// on, the first frame of the batch and every [`TELEMETRY_STRIDE`]th after it leave
    /// a snapshot of the three channels. Whatever was known to be at hand when the
    /// batch began is handled; what the other threads bring meanwhile is handled too.
    ///
    /// After the last frame, an output that is filled to less than a fifth gets silence
    /// for half of its capacity. A few samples of silence are the price of a stream
    /// that does not break off.
    ///
    /// The batch fails on the first frame whose update leaves a NaN weight. That frame
    /// is consumed and has no output.
    pub fn run_once<A: Fn(Op) -> u32>(&mut self, alu: &A) -> (r: Result<BatchReport, NanWeight>)
        requires
            lawful(alu),
            old(self).wf(),
        ensures
            final(self).wf(),
            final(self).telemetry() == old(self).telemetry(),
            same_capacities(old(self).ports(), final(self).ports()),
            old(self).ports().mic_received.is_prefix_of(final(self).ports().mic_received),
            old(self).ports().reference_received.is_prefix_of(
                final(self).ports().reference_received,
            ),
            mics_drawn(old(self).ports(), final(self).ports()).len() == references_drawn(
                old(self).ports(),
                final(self).ports(),
            ).len(),
            final(self)@ == after_frames(
                alu,
                old(self)@,
                mics_drawn(old(self).ports(), final(self).ports()),
                references_drawn(old(self).ports(), final(self).ports()),
            ),
            r is Ok <==> clean(
                alu,
                old(self)@,
                mics_drawn(old(self).ports(), final(self).ports()),
                references_drawn(old(self).ports(), final(self).ports()),
            ),
            r matches Ok(report) ==> {
                &&& report.processed == mics_drawn(old(self).ports(), final(self).ports()).len()
                &&& report.processed >= least(
                    old(self).ports().mic_ready,
                    old(self).ports().reference_ready,
                    old(self).ports().output_room,
                ) || report.processed == usize::MAX
                &&& !report.overrun
                &&& report.level <= final(self).ports().output_capacity
                &&& report.level + old(self).ports().output_room
                    <= final(self).ports().output_capacity + report.processed
                &&& final(self).ports().output_room + report.level + report.padded
                    >= final(self).ports().output_capacity
                &&& final(self).ports().mic_ready + report.processed
                    >= old(self).ports().mic_ready
                &&& final(self).ports().reference_ready + report.processed
                    >= old(self).ports().reference_ready
                &&& report.padded == padding(
                    report.level as nat,
                    final(self).ports().output_capacity,
                )
                &&& final(self).ports().output_sent == old(self).ports().output_sent + outputs(
                    alu,
                    old(self)@,
                    mics_drawn(old(self).ports(), final(self).ports()),
                    references_drawn(old(self).ports(), final(self).ports()),
                ) + silence(report.padded as nat)
                &&& report.snapshots@.len() == if old(self).telemetry() {
                    snapshots_due(report.processed as nat)
                } else {
                    0
                }
                &&& forall|i: int|
                    0 <= i < report.snapshots@.len() ==> measured(
                        #[trigger] report.snapshots@[i],
                        final(self).ports(),
                    )
            },
            r matches Err(e) ==> {
                &&& mics_drawn(old(self).ports(), final(self).ports()).len() > 0
                &&& faults_at(
                    alu,
                    after_frames(
                        alu,
                        old(self)@,
                        mics_drawn(old(self).ports(), final(self).ports()).drop_last(),
                        references_drawn(old(self).ports(), final(self).ports()).drop_last(),
                    ).taps,
                    final(self)@.window,
                    mics_drawn(old(self).ports(), final(self).ports()).last(),
                    e.tap as int,
                )
                &&& clean(
                    alu,
                    old(self)@,
                    mics_drawn(old(self).ports(), final(self).ports()).drop_last(),
                    references_drawn(old(self).ports(), final(self).ports()).drop_last(),
                )
                &&& final(self).ports().output_sent == old(self).ports().output_sent + outputs(
                    alu,
                    old(self)@,
                    mics_drawn(old(self).ports(), final(self).ports()).drop_last(),
                    references_drawn(old(self).ports(), final(self).ports()).drop_last(),
                )
            },
    {
        let ghost start = self@;
        let ghost before = self.ports();
        let ghost mut mics = Seq::<u32>::empty();
        let ghost mut references = Seq::<u32>::empty();
        let ghost taps = self@.window.len();

        let mut snapshots: Vec<Snapshot> = Vec::new();
        let mut overrun = false;
        let mut processed: usize = 0;

        proof {
            assert(before.mic_received + mics == before.mic_received);
            assert(before.reference_received + references == before.reference_received);
            assert(before.output_sent + outputs(alu, start, mics, references)
                == before.output_sent);
        }

        // as long as there is data in *both* buffers
        while processed < usize::MAX
            invariant
                lawful(alu),
                self.wf(),
                self.telemetry() == old(self).telemetry(),
                before == old(self).ports(),
                start == old(self)@,
                taps == start.window.len(),
                self@.window.len() == taps,
                same_capacities(before, self.ports()),
                mics.len() == processed,
                references.len() == processed,
                self.ports().mic_received == before.mic_received + mics,
                self.ports().reference_received == before.reference_received + references,
                self.ports().output_sent == before.output_sent + outputs(
                    alu,
                    start,
                    mics,
                    references,
                ),
                self@ == after_frames(alu, start, mics, references),
                clean(alu, start, mics, references),
                self.ports().mic_ready + processed >= before.mic_ready,
                self.ports().reference_ready + processed >= before.reference_ready,
                self.ports().output_room + processed >= before.output_room,
                !overrun,
                snapshots@.len() == if self.telemetry() {
                    snapshots_due(processed as nat)
                } else {
                    0
                },
                forall|i: int|
                    0 <= i < snapshots@.len() ==> measured(#[trigger] snapshots@[i], before),
            ensures
                processed >= least(before.mic_ready, before.reference_ready, before.output_room)
                    || processed == usize::MAX,
            decreases usize::MAX - processed,
        {
            if is_empty(&mut self.mic_buffer) {
                break;
            }
            if is_empty(&mut self.capture_buffer) {
                break;
            }
            if is_full(&mut self.output_buffer) {
                break;
            }
            // we are guaranteed there is data here as there can be only one consumer at a time
            let mic_sample = pop(&mut self.mic_buffer).unwrap();
            let capture_sample = pop(&mut self.capture_buffer).unwrap();
            proof {
                assert(mics.push(mic_sample).drop_last() == mics);
                assert(references.push(capture_sample).drop_last() == references);
                assert(before.mic_received + mics.push(mic_sample) == (before.mic_received
                    + mics).push(mic_sample));
                assert(before.reference_received + references.push(capture_sample) == (
                before.reference_received + references).push(capture_sample));
            }
            let filtered = match self.process_frame(alu, mic_sample, capture_sample) {
                Ok(filtered) => filtered,
                Err(e) => {
                    proof {
                        let m = mics.push(mic_sample);
                        let c = references.push(capture_sample);
                        assert((before.mic_received + m).skip(before.mic_received.len() as int)
                            == m);
                        assert((before.reference_received + c).skip(
                            before.reference_received.len() as int,
                        ) == c);
                    }
                    return Err(e);
                },
            };

            if self.telemetry && processed % TELEMETRY_STRIDE == 0 {
                let snapshot = Snapshot {
                    mic: waiting(&mut self.mic_buffer),
                    mic_capacity: consumer_size(&self.mic_buffer),
                    reference: waiting(&mut self.capture_buffer),
                    reference_capacity: consumer_size(&self.capture_buffer),
                    output: occupancy(&mut self.output_buffer),
                    output_capacity: producer_size(&self.output_buffer),
                };
                snapshots.push(snapshot);
            }
            // if we can no longer push to output buffer:
            if push(&mut self.output_buffer, filtered).is_err() {
                // no longer process elements!
                overrun = true;
                break;
            }
            proof {
                let grown = outputs(alu, start, mics, references).push(filtered);
                assert(before.output_sent + grown == (before.output_sent + outputs(
                    alu,
                    start,
                    mics,
                    references,
                )).push(filtered));
                mics = mics.push(mic_sample);
                references = references.push(capture_sample);
            }
            processed += 1;
        }

        // if by the time we are done the output buffer is getting very empty; fill it
        // with zeros
        let level = occupancy(&mut self.output_buffer);
        let size = producer_size(&self.output_buffer);
        let ghost drained = self.ports().output_sent;
        let mut padded: usize = 0;
        if size > 0 && level <= (size - 1) / 5 {
            while padded < size / 2
                invariant
                    self.wf(),
                    self.telemetry() == old(self).telemetry(),
                    self@ == after_frames(alu, start, mics, references),
                    same_capacities(before, self.ports()),
                    self.ports().mic_received == before.mic_received + mics,
                    self.ports().reference_received == before.reference_received + references,
                    size == before.output_capacity,
                    self.ports().mic_ready + processed >= before.mic_ready,
                    self.ports().reference_ready + processed >= before.reference_ready,
                    padded <= size / 2,
                    self.ports().output_room + padded + level >= size,
                    5 * level < size,
                    self.ports().output_sent == drained + silence(padded as nat),
                decreases size / 2 - padded,
            {
                let pushed = push(&mut self.output_buffer, ZERO);
                assert(pushed is Ok);
                assert(silence(padded as nat).push(ZERO) == silence((padded + 1) as nat));
                assert(drained + silence(padded as nat).push(ZERO) == (drained + silence(
                    padded as nat,
                )).push(ZERO));
                padded += 1;
            }
        }
        proof {
            assert(drained + silence(0) == drained);
            assert((before.mic_received + mics).skip(before.mic_received.len() as int) == mics);
            assert((before.reference_received + references).skip(
                before.reference_received.len() as int,
            ) == references);
        }
        Ok(BatchReport { processed, overrun, snapshots, level, padded })
    }
}

} // verus!

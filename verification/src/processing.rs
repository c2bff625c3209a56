//! The stages of the signal path that the audio callbacks run, one block at a time.
//!
//! A capture callback folds its interleaved stereo block to mono and offers it to a
//! sample channel; the playback callback drains a sample channel into an interleaved
//! stereo block. Neither ever waits: a full channel costs the sample, an empty one is
//! covered with silence. Between the two stands the engine, see [`crate::engine`].

use vstd::prelude::*;
use crate::arith::{fadd, fmul, lawful, Op, HALF, ZERO};
use crate::channel::{
    consumer_capacity, consumer_ready, consumer_received, pop, producer_capacity, producer_room,
    producer_sent, push,
};

pub use crate::engine::{AECFiltering, N_TAPS};

verus! {

/// The mono sample of a stereo pair: `0.5 * (left + right)`.
pub open spec fn spec_mixed<A: Fn(Op) -> u32>(alu: &A, left: u32, right: u32) -> u32 {
    fmul(alu, HALF, fadd(alu, left, right))
}

/// The mono signal of an interleaved stereo block: one sample for each whole pair, the
/// samples `2k` and `2k + 1` being the left and the right of pair `k`. A last sample
/// without a partner is left out.
pub open spec fn downmix<A: Fn(Op) -> u32>(alu: &A, data: Seq<u32>) -> Seq<u32> {
    Seq::new(data.len() / 2, |k: int| spec_mixed(alu, data[2 * k], data[2 * k + 1]))
}

/// Whether `taken` is what a channel may have kept of the samples offered to it one by
/// one: some of them, in their order, and certainly each of the first `sure`.
pub open spec fn selection(taken: Seq<u32>, offered: Seq<u32>, sure: nat) -> bool
    decreases offered.len(),
{
    if offered.len() == 0 {
        taken.len() == 0
    } else {
        ||| taken.len() > 0 && taken.last() == offered.last() && selection(
            taken.drop_last(),
            offered.drop_last(),
            sure,
        )
        ||| offered.len() > sure && selection(taken, offered.drop_last(), sure)
    }
}

/// Whether `block` is an interleaved stereo block made of the mono samples `got`, drawn
/// from a channel one for each pair of slots: a pair holds its sample twice, or silence
/// twice where the channel had none. Each of the first `sure` draws had one. A last slot
/// without a partner is served like a left one.
pub open spec fn upmixed(block: Seq<u32>, got: Seq<u32>, sure: nat) -> bool
    decreases block.len(),
{
    if block.len() == 0 {
        got.len() == 0
    } else if block.len() % 2 == 1 {
        ||| got.len() > 0 && block.last() == got.last() && upmixed(
            block.drop_last(),
            got.drop_last(),
            sure,
        )
        ||| got.len() >= sure && block.last() == ZERO && upmixed(block.drop_last(), got, sure)
    } else {
        block.last() == block[block.len() - 2] && upmixed(block.drop_last(), got, sure)
    }
}

/// The interleaved stereo block of a mono signal: every sample twice.
pub open spec fn upmix(mono: Seq<u32>) -> Seq<u32> {
    Seq::new(2 * mono.len(), |j: int| mono[j / 2])
}

/// What a channel keeps of the samples offered to it: never more than were offered,
/// and the first `sure` of them at the start, in their order. A channel that was sure
/// to take them all has taken exactly them.
pub proof fn law_selection_starts_sure(taken: Seq<u32>, offered: Seq<u32>, sure: nat)
    requires
        selection(taken, offered, sure),
    ensures
        taken.len() <= offered.len(),
        taken.len() >= offered.len() || taken.len() >= sure,
        forall|k: int| 0 <= k < offered.len() && k < sure ==> taken[k] == offered[k],
        sure >= offered.len() ==> taken == offered,
    decreases offered.len(),
{
    if offered.len() > 0 {
        let fewer = offered.drop_last();
        if taken.len() > 0 && taken.last() == offered.last() && selection(
            taken.drop_last(),
            fewer,
            sure,
        ) {
            let shorter = taken.drop_last();
            law_selection_starts_sure(shorter, fewer, sure);
            assert forall|k: int| 0 <= k < offered.len() && k < sure implies taken[k]
                == offered[k] by {
                if k < fewer.len() {
                    assert(shorter[k] == fewer[k]);
                } else {
                    assert(shorter.len() == fewer.len());
                }
            }
        } else {
            law_selection_starts_sure(taken, fewer, sure);
            assert forall|k: int| 0 <= k < offered.len() && k < sure implies taken[k]
                == offered[k] by {
                assert(taken[k] == fewer[k]);
            }
        }
    }
    if sure >= offered.len() {
        assert(taken =~= offered);
    }
}

/// What a block drawn from a channel looks like: the two slots of a pair hold the
/// same, the first `sure` pairs hold the first samples drawn, and a block that got a
/// sample for every pair is the stereo image of those samples.
pub proof fn law_upmixed_pairs(block: Seq<u32>, got: Seq<u32>, sure: nat)
    requires
        upmixed(block, got, sure),
    ensures
        got.len() <= (block.len() + 1) / 2,
        got.len() >= (block.len() + 1) / 2 || got.len() >= sure,
        forall|j: int| 0 <= j < block.len() && j % 2 == 1 ==> #[trigger] block[j] == block[j - 1],
        forall|j: int| 0 <= j < block.len() && j / 2 < sure ==> #[trigger] block[j] == got[j / 2],
        got.len() == (block.len() + 1) / 2 ==> block == upmix(got).take(block.len() as int),
    decreases block.len(),
{
    if block.len() > 0 {
        let rest = block.drop_last();
        let last = block.len() - 1;
        if block.len() % 2 == 1 {
            if got.len() > 0 && block.last() == got.last() && upmixed(
                rest,
                got.drop_last(),
                sure,
            ) {
                let fewer = got.drop_last();
                law_upmixed_pairs(rest, fewer, sure);
                assert forall|j: int| 0 <= j < block.len() && j / 2 < sure implies #[trigger] block[j]
                    == got[j / 2] by {
                    if j < last {
                        assert(rest[j] == fewer[j / 2]);
                    } else {
                        assert(fewer.len() == last / 2);
                    }
                }
                if got.len() == (block.len() + 1) / 2 {
                    assert(rest == upmix(fewer).take(rest.len() as int));
                    assert forall|j: int| 0 <= j < block.len() implies block[j] == upmix(
                        got,
                    ).take(block.len() as int)[j] by {
                        if j < last {
                            assert(rest[j] == upmix(fewer).take(rest.len() as int)[j]);
                        }
                    }
                }
            } else {
                law_upmixed_pairs(rest, got, sure);
                assert forall|j: int| 0 <= j < block.len() && j / 2 < sure implies #[trigger] block[j]
                    == got[j / 2] by {
                    if j < last {
                        assert(rest[j] == got[j / 2]);
                    }
                }
            }
        } else {
            law_upmixed_pairs(rest, got, sure);
            assert forall|j: int| 0 <= j < block.len() && j / 2 < sure implies #[trigger] block[j]
                == got[j / 2] by {
                if j < last {
                    assert(rest[j] == got[j / 2]);
                } else {
                    assert(rest[last - 1] == got[(last - 1) / 2]);
                }
            }
            if got.len() == (block.len() + 1) / 2 {
                assert(rest == upmix(got).take(rest.len() as int));
                assert forall|j: int| 0 <= j < block.len() implies block[j] == upmix(got).take(
                    block.len() as int,
                )[j] by {
                    if j < last {
                        assert(rest[j] == upmix(got).take(rest.len() as int)[j]);
                    } else {
                        assert(rest[last - 1] == upmix(got).take(rest.len() as int)[last - 1]);
                    }
                }
            }
        }
        assert forall|j: int| 0 <= j < block.len() && j % 2 == 1 implies #[trigger] block[j]
            == block[j - 1] by {
            if j < last {
                assert(rest[j] == rest[j - 1]);
            }
        }
    }
    if got.len() == (block.len() + 1) / 2 {
        assert(block =~= upmix(got).take(block.len() as int));
    }
}

/// Folds one stereo pair to mono.
#[verifier::when_used_as_spec(spec_mixed)]
fn mixed<A: Fn(Op) -> u32>(alu: &A, left: u32, right: u32) -> (mono: u32)
    requires
        lawful(alu),
    ensures
        mono == spec_mixed(alu, left, right),
{
    fmul(alu, HALF, fadd(alu, left, right))
}

/// The capture side: folds stereo to mono and feeds a sample channel.
pub struct Stereo2MonoCapture {
    output_buffer: ringbuf::Producer<u32>,
}

impl Stereo2MonoCapture {
    /// Every sample that the channel has taken from this stage, oldest first.
    pub closed spec fn sent(&self) -> Seq<u32> {
        producer_sent(self.output_buffer)
    }

    /// The slots of the channel that are known to be free.
    pub closed spec fn room(&self) -> nat {
        producer_room(self.output_buffer)
    }

    /// The capacity of the channel.
    pub closed spec fn capacity(&self) -> nat {
        producer_capacity(self.output_buffer)
    }

    // trivial constructor
    pub fn new(buffer: ringbuf::Producer<u32>) -> (stage: Self)
        ensures
            stage.sent() == producer_sent(buffer),
            stage.room() == producer_room(buffer),
            stage.capacity() == producer_capacity(buffer),
    {
        Stereo2MonoCapture { output_buffer: buffer }
    }

    /// Handles one captured block: offers the mono sample of each pair to the channel.
    /// A sample that the channel refuses is dropped and never offered again. Returns
    /// whether any was dropped, which means that the reader of the channel fell behind.
    ///
    /// The channel takes a sample whenever it has a free slot, so the first `room()`
    /// samples are sure to pass; what becomes of the others lies with the reader.
    pub fn callback<A: Fn(Op) -> u32>(&mut self, alu: &A, data: &[u32]) -> (overrun: bool)
        requires
            lawful(alu),
        ensures
            final(self).capacity() == old(self).capacity(),
            old(self).sent().is_prefix_of(final(self).sent()),
            selection(
                final(self).sent().skip(old(self).sent().len() as int),
                downmix(alu, data@),
                old(self).room(),
            ),
            final(self).sent().len() <= old(self).sent().len() + data@.len() / 2,
            overrun <==> final(self).sent().len() < old(self).sent().len() + data@.len() / 2,
            !overrun ==> final(self).sent() == old(self).sent() + downmix(alu, data@),
            old(self).room() >= data@.len() / 2 ==> !overrun,
            final(self).room() + final(self).sent().len()
                >= old(self).room() + old(self).sent().len(),
    {
        let ghost mono = downmix(alu, data@);
        let ghost before = self.sent();
        let ghost sure = self.room();
        let ghost mut taken = Seq::<u32>::empty();
        let pairs = data.len() / 2;
        let mut output_fell_behind = false;
        let mut k: usize = 0;
        while k < pairs
            invariant
                lawful(alu),
                k <= pairs,
                pairs == data@.len() / 2,
                2 * pairs <= data@.len() <= usize::MAX,
                output_fell_behind ==> sure < pairs,
                mono == downmix(alu, data@),
                self.capacity() == old(self).capacity(),
                self.sent() == before + taken,
                taken.len() <= k,
                selection(taken, mono.take(k as int), sure),
                self.room() + taken.len() >= sure,
                output_fell_behind <==> taken.len() < k,
                !output_fell_behind ==> taken == mono.take(k as int),
            decreases pairs - k,
        {
            let merged_sample = mixed(alu, data[2 * k], data[2 * k + 1]);
            assert(merged_sample == mono[k as int]);
            assert(mono.take(k + 1).drop_last() == mono.take(k as int));
            if push(&mut self.output_buffer, merged_sample).is_err() {
                output_fell_behind = true;
            } else {
                proof {
                    assert(taken.push(merged_sample).drop_last() == taken);
                    assert(before + taken.push(merged_sample) == (before + taken).push(
                        merged_sample,
                    ));
                    taken = taken.push(merged_sample);
                }
            }
            k += 1;
        }
        assert(mono.take(pairs as int) == mono);
        assert((before + taken).skip(before.len() as int) == taken);
        output_fell_behind
    }
}

/// The playback side: drains a sample channel and spreads mono to stereo.
pub struct Mono2StereoOutput {
    input_buffer: ringbuf::Consumer<u32>,
}

impl Mono2StereoOutput {
    /// Every sample that this stage has taken out of the channel, oldest first.
    pub closed spec fn received(&self) -> Seq<u32> {
        consumer_received(self.input_buffer)
    }

    /// The samples that are known to wait in the channel.
    pub closed spec fn ready(&self) -> nat {
        consumer_ready(self.input_buffer)
    }

    /// The capacity of the channel.
    pub closed spec fn capacity(&self) -> nat {
        consumer_capacity(self.input_buffer)
    }

    // trivial constructor
    pub fn new(buffer: ringbuf::Consumer<u32>) -> (stage: Self)
        ensures
            stage.received() == consumer_received(buffer),
            stage.ready() == consumer_ready(buffer),
            stage.capacity() == consumer_capacity(buffer),
    {
        Mono2StereoOutput { input_buffer: buffer }
    }

    /// Fills one block for playback: draws one mono sample for each pair of slots and
    /// writes it to both. Where the channel has none, the pair is silence. Returns
    /// whether that happened, which means that the writer of the channel fell behind.
    ///
    /// The channel has a sample whenever one waits, so the first `ready()` draws are
    /// sure to get one; what becomes of the others lies with the writer.
    pub fn callback(&mut self, data: &mut [u32]) -> (underrun: bool)
        ensures
            final(data)@.len() == old(data)@.len(),
            final(self).capacity() == old(self).capacity(),
            old(self).received().is_prefix_of(final(self).received()),
            upmixed(
                final(data)@,
                final(self).received().skip(old(self).received().len() as int),
                old(self).ready(),
            ),
            final(self).received().len()
                <= old(self).received().len() + (old(data)@.len() + 1) / 2,
            underrun <==> final(self).received().len()
                < old(self).received().len() + (old(data)@.len() + 1) / 2,
            !underrun ==> final(data)@ == upmix(
                final(self).received().skip(old(self).received().len() as int),
            ).take(final(data)@.len() as int),
            old(self).ready() >= (old(data)@.len() + 1) / 2 ==> !underrun,
            final(self).ready() + final(self).received().len()
                >= old(self).ready() + old(self).received().len(),
    {
        let ghost before = self.received();
        let ghost sure = self.ready();
        let ghost mut got = Seq::<u32>::empty();
        let n = data.len();
        let mut input_fell_behind = false;

        // variables to replicate input to generate stereo from mono:
        let mut flag = false;
        let mut last_sample = ZERO;

        // iterate over samples to output
        let mut i: usize = 0;
        while i < n
            invariant
                i <= n,
                n == data@.len(),
                n == old(data)@.len(),
                self.capacity() == old(self).capacity(),
                self.received() == before + got,
                flag <==> i % 2 == 1,
                flag ==> last_sample == data@[i - 1],
                got.len() <= (i + 1) / 2,
                upmixed(data@.take(i as int), got, sure),
                self.ready() + got.len() >= sure,
                input_fell_behind <==> got.len() < (i + 1) / 2,
                input_fell_behind ==> sure < (n + 1) / 2,
                !input_fell_behind ==> forall|j: int| 0 <= j < i ==> data@[j] == got[j / 2],
            decreases n - i,
        {
            let ghost filled = data@.take(i as int);
            if !flag {
                flag = true;
                match pop(&mut self.input_buffer) {
                    Some(s) => {
                        last_sample = s;
                        proof {
                            assert(got.push(s).drop_last() == got);
                            assert(before + got.push(s) == (before + got).push(s));
                            got = got.push(s);
                        }
                    },
                    None => {
                        input_fell_behind = true;
                        last_sample = ZERO;
                    },
                }
            } else {
                flag = false;
            }
            data[i] = last_sample;
            assert(data@.take(i + 1).drop_last() == filled);
            i += 1;
        }
        assert(data@.take(n as int) == data@);
        assert((before + got).skip(before.len() as int) == got);
        assert(!input_fell_behind ==> data@ =~= upmix(got).take(n as int));
        input_fell_behind
    }
}

} // verus!

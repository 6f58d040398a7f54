//! Silence detection inside the capture path.
//!
//! A [`SilencePolicy`] carries one thread-local counter of consecutive
//! silent chunks. Feeding it one chunk at a time, it reports the transition
//! into prolonged silence exactly once: on the chunk with which the run of
//! silent chunks reaches the configured timeout. Any chunk whose level
//! reaches the threshold resets the counter immediately.

use vstd::prelude::*;

use crate::PrcFmt;
use crate::audiodevice::AudioChunk;

verus! {

/// A chunk counts as silent when its observed extremes stay strictly inside
/// the band `(-threshold, threshold)`, that is, when its peak level lies
/// below the threshold.
pub open spec fn spec_chunk_is_silent(threshold: PrcFmt, chunk: AudioChunk) -> bool {
    chunk.maxval < threshold && chunk.minval > -threshold
}

/// The running silence state of one capture thread.
pub struct SilencePolicy {
    /// Amplitude below which a chunk counts as silent, in the sample scale.
    pub threshold: PrcFmt,
    /// Length of the silence timeout, in chunks.
    pub timeout_chunks: u64,
    /// Consecutive silent chunks seen so far, saturating at the timeout.
    pub counter: u64,
}

impl SilencePolicy {
    /// The policy's invariant: the threshold is an amplitude, and the
    /// counter never runs past the timeout.
    pub open spec fn wf(self) -> bool {
        &&& self.threshold >= 0
        &&& self.counter <= self.timeout_chunks
    }

    /// The counter after observing one chunk: reset on a loud chunk,
    /// advance on a silent one, saturate at the timeout.
    pub open spec fn spec_next_counter(self, chunk: AudioChunk) -> int {
        if spec_chunk_is_silent(self.threshold, chunk) {
            if self.counter < self.timeout_chunks {
                self.counter + 1
            } else {
                self.counter as int
            }
        } else {
            0
        }
    }

    /// Whether the timeout fires on this chunk: the chunk is silent and is
    /// exactly the one with which the run reaches the timeout. Along any
    /// uninterrupted run of silent chunks this holds exactly once, and with
    /// a timeout of zero chunks it never does.
    pub open spec fn spec_fires(self, chunk: AudioChunk) -> bool {
        spec_chunk_is_silent(self.threshold, chunk) && self.counter + 1 == self.timeout_chunks
    }

    pub fn new(threshold: PrcFmt, timeout_chunks: u64) -> (p: Self)
        requires
            threshold >= 0,
        ensures
            p.wf(),
            p.threshold == threshold,
            p.timeout_chunks == timeout_chunks,
            p.counter == 0,
    {
        SilencePolicy { threshold, timeout_chunks, counter: 0 }
    }

    /// Observe one chunk and report whether the silence timeout fires now.
    pub fn update(&mut self, chunk: &AudioChunk) -> (event: bool)
        requires
            old(self).wf(),
        ensures
            final(self).wf(),
            final(self).threshold == old(self).threshold,
            final(self).timeout_chunks == old(self).timeout_chunks,
            final(self).counter == old(self).spec_next_counter(*chunk),
            event == old(self).spec_fires(*chunk),
    {
        let neg_threshold = -self.threshold;
        if chunk.maxval < self.threshold && chunk.minval > neg_threshold {
            if self.counter < self.timeout_chunks {
                self.counter = self.counter + 1;
                self.counter == self.timeout_chunks
            } else {
                false
            }
        } else {
            self.counter = 0;
            false
        }
    }
}

/// The policy after observing a whole sequence of chunks, one update per
/// chunk.
pub open spec fn spec_run(p: SilencePolicy, chunks: Seq<AudioChunk>) -> SilencePolicy
    decreases chunks.len(),
{
    if chunks.len() == 0 {
        p
    } else {
        spec_run(
            SilencePolicy { counter: p.spec_next_counter(chunks[0]) as u64, ..p },
            chunks.drop_first(),
        )
    }
}

/// Along a run of silent chunks the counter counts them, saturating at the
/// timeout, and the configuration does not change.
pub proof fn lemma_silent_run_counts(p: SilencePolicy, chunks: Seq<AudioChunk>)
    requires
        p.wf(),
        forall|i: int|
            0 <= i < chunks.len() ==> spec_chunk_is_silent(p.threshold, #[trigger] chunks[i]),
    ensures
        spec_run(p, chunks).wf(),
        spec_run(p, chunks).threshold == p.threshold,
        spec_run(p, chunks).timeout_chunks == p.timeout_chunks,
        spec_run(p, chunks).counter == if p.counter + chunks.len() <= p.timeout_chunks {
            p.counter + chunks.len()
        } else {
            p.timeout_chunks as int
        },
    decreases chunks.len(),
{
    if chunks.len() > 0 {
        let p1 = SilencePolicy { counter: p.spec_next_counter(chunks[0]) as u64, ..p };
        assert forall|i: int|
            0 <= i < chunks.drop_first().len() implies spec_chunk_is_silent(
            p1.threshold,
            #[trigger] chunks.drop_first()[i],
        ) by {
            assert(chunks.drop_first()[i] == chunks[i + 1]);
        }
        lemma_silent_run_counts(p1, chunks.drop_first());
    }
}

/// The silence timeout fires exactly at the mark: starting from a fresh
/// counter, along an uninterrupted sequence of silent chunks, the event
/// fires on the chunk with which the run's length reaches the timeout, and
/// on no other.
pub proof fn lemma_silence_fires_exactly_at_the_mark(
    p: SilencePolicy,
    chunks: Seq<AudioChunk>,
    k: int,
)
    requires
        p.wf(),
        p.counter == 0,
        forall|i: int|
            0 <= i < chunks.len() ==> spec_chunk_is_silent(p.threshold, #[trigger] chunks[i]),
        0 <= k < chunks.len(),
    ensures
        spec_run(p, chunks.take(k)).spec_fires(chunks[k]) <==> k + 1 == p.timeout_chunks,
{
    assert forall|i: int|
        0 <= i < chunks.take(k).len() implies spec_chunk_is_silent(
        p.threshold,
        #[trigger] chunks.take(k)[i],
    ) by {
        assert(chunks.take(k)[i] == chunks[i]);
    }
    lemma_silent_run_counts(p, chunks.take(k));
}

/// The silence event does not repeat while silence continues: once it has
/// fired, the advanced policy cannot fire again on any chunk — only a loud
/// chunk, which resets the counter, starts a new run that can reach the
/// timeout once more.
pub proof fn lemma_silence_fires_at_most_once(p: SilencePolicy, chunk: AudioChunk, next: AudioChunk)
    requires
        p.wf(),
        p.spec_fires(chunk),
    ensures
        !(SilencePolicy {
            counter: p.spec_next_counter(chunk) as u64,
            ..p
        }).spec_fires(next),
{
}

/// Number of whole chunks that cover a timeout of `timeout_ms`
/// milliseconds, rounded up, so the timeout fires at or just after the
/// mark. The bound in `requires` keeps the intermediate products within the
/// machine word.
pub fn timeout_in_chunks(timeout_ms: u64, samplerate: usize, chunksize: usize) -> (n: u64)
    requires
        chunksize > 0,
        timeout_ms * samplerate + 1000 * chunksize <= u64::MAX,
    ensures
        n == (timeout_ms * samplerate + 1000 * chunksize - 1) / (1000 * chunksize),
{
    let denom: u64 = 1000 * (chunksize as u64);
    let num: u64 = timeout_ms * (samplerate as u64);
    (num + denom - 1) / denom
}

} // verus!

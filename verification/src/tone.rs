//! Tone generation: the sample-accurate counter machine behind a finite sine
//! tone.
//!
//! A generator is created with a total sample count (for a tone of `d`
//! seconds at the fixed rate of 44100 samples per second, that count is
//! `floor(d * 44100)`). Pulled once per sample, it yields the indices
//! `0, 1, ..., total - 1` in order and then signals end of stream. The
//! amplitude of sample `k` of a tone of frequency `f` Hz is
//! `sin(2 * pi * f * k / 44100) * 0.5`; that step is floating-point and is
//! left to the caller, which only needs the index `k` yielded here.

use vstd::prelude::*;

verus! {

/// Samples per second of produced audio. Fixed; not configurable.
pub const SAMPLE_RATE: u32 = 44100;

/// The finite, lazy sample stream of one tone, reduced to what drives it:
/// how many samples it yields in all and how many were already pulled.
///
/// Invariant: `elapsed_samples <= total_samples`. A generator is exhausted
/// once the two are equal; it then yields nothing further. It cannot be
/// restarted: a new generator must be created to replay a tone.
pub struct ToneGenerator {
    elapsed_samples: u64,
    total_samples: u64,
}

impl ToneGenerator {
    /// How many samples were already pulled from this generator.
    pub closed spec fn spec_elapsed(&self) -> nat {
        self.elapsed_samples as nat
    }

    /// How many samples this generator yields over its whole life.
    pub closed spec fn spec_total(&self) -> nat {
        self.total_samples as nat
    }

    /// The generator's invariant: it never counts past its total.
    pub open spec fn well_formed(&self) -> bool {
        self.spec_elapsed() <= self.spec_total()
    }

    /// An exhausted generator has yielded all its samples and only signals
    /// end of stream from now on.
    pub open spec fn exhausted(&self) -> bool {
        self.spec_elapsed() >= self.spec_total()
    }

    /// Creates the generator of a tone that is `total_samples` samples long,
    /// with nothing pulled yet.
    pub fn new(total_samples: u64) -> (g: ToneGenerator)
        ensures
            g.well_formed(),
            g.spec_elapsed() == 0,
            g.spec_total() == total_samples,
    {
        ToneGenerator { elapsed_samples: 0, total_samples }
    }

    /// Number of audio channels: one, monaural.
    pub fn channel_count(&self) -> (c: u16)
        ensures
            c == 1,
    {
        1
    }

    /// Samples per second: the fixed rate of 44100.
    pub fn sample_rate(&self) -> (r: u32)
        ensures
            r == SAMPLE_RATE,
    {
        SAMPLE_RATE
    }

    /// How many samples this generator yields over its whole life. The
    /// tone's duration in seconds is this count divided by the sample rate.
    pub fn total_samples(&self) -> (t: u64)
        ensures
            t == self.spec_total(),
    {
        self.total_samples
    }

    /// How many samples were already pulled from this generator.
    pub fn elapsed_samples(&self) -> (e: u64)
        ensures
            e == self.spec_elapsed(),
    {
        self.elapsed_samples
    }

    /// Pulls the next sample: yields this sample's index and advances the
    /// counter, or signals end of stream (`None`) once all samples are out.
    ///
    /// For a generator created with total `n`, successive calls yield
    /// exactly the `n` indices `0, ..., n - 1` and then `None` forever: a
    /// yield is owed exactly while `elapsed < total`.
    pub fn produce_next_sample(&mut self) -> (r: Option<u64>)
        ensures
            final(self).spec_total() == old(self).spec_total(),
            old(self).spec_elapsed() < old(self).spec_total() ==> {
                &&& r matches Some(k) && k as nat == old(self).spec_elapsed()
                &&& final(self).spec_elapsed() == old(self).spec_elapsed() + 1
            },
            old(self).exhausted() ==> {
                &&& r is None
                &&& final(self).spec_elapsed() == old(self).spec_elapsed()
            },
            old(self).well_formed() ==> final(self).well_formed(),
    {
        if self.elapsed_samples >= self.total_samples {
            return None;
        }
        let k = self.elapsed_samples;
        self.elapsed_samples = k + 1;
        Some(k)
    }

    /// Pulls every remaining sample, in order, until end of stream.
    ///
    /// A fresh generator created with total `n` hands back exactly the `n`
    /// indices `0, ..., n - 1` and ends exhausted: the stream is finite and
    /// its length is pinned by the total alone.
    pub fn collect_remaining(&mut self) -> (indices: Vec<u64>)
        requires
            old(self).well_formed(),
        ensures
            final(self).spec_total() == old(self).spec_total(),
            final(self).exhausted() && final(self).well_formed(),
            indices@.len() == old(self).spec_total() - old(self).spec_elapsed(),
            forall|i: int|
                0 <= i < indices@.len() ==> indices@[i] as nat == old(self).spec_elapsed() + i,
    {
        let mut indices: Vec<u64> = Vec::new();
        loop
            invariant
                self.well_formed(),
                self.spec_total() == old(self).spec_total(),
                self.spec_elapsed() == old(self).spec_elapsed() + indices@.len(),
                indices@.len() <= self.spec_total() - old(self).spec_elapsed(),
                forall|i: int|
                    0 <= i < indices@.len() ==> indices@[i] as nat == old(self).spec_elapsed() + i,
            decreases self.spec_total() - self.spec_elapsed(),
        {
            match self.produce_next_sample() {
                Some(k) => {
                    indices.push(k);
                },
                None => {
                    return indices;
                },
            }
        }
    }

    /// A tone of zero duration yields an immediate end of stream: a
    /// generator whose total is zero is exhausted from the start, so its
    /// very first pull signals `None`.
    pub proof fn lemma_zero_total_exhausted(&self)
        requires
            self.spec_total() == 0,
        ensures
            self.exhausted(),
    {
    }
}

} // verus!

//! Turning buffered audio into segments for transcription: the buffer is
//! drained, silence at both ends is cut away, and what remains is brought to
//! the rate the transcriber wants.

use vstd::prelude::*;
use crate::audio::Segment;
use crate::resample::resample_linear;
use crate::resample::resampled;
use crate::resample::resampled_count;
use crate::resample::resampled_len;
use crate::resample::lemma_resampled_len_grows;
use crate::sample_buffer::SampleBuffer;
use crate::sample_buffer::drained;
use crate::silence::all_silent;
use crate::silence::law_trim_spans_the_sound;
use crate::silence::trim_silence;
use crate::silence::trimmed;

verus! {

/// What a tick makes of the buffered samples `held`, captured at rate `from`:
/// nothing when they are silent throughout, else the trimmed samples at rate `to`.
pub open spec fn segment_of(held: Seq<i16>, from: u32, to: u32, threshold: u16) -> Option<
    Seq<i16>,
> {
    let kept = trimmed(held, threshold);
    if kept.len() == 0 {
        None
    } else {
        Some(resampled(kept, from, to))
    }
}

/// The fixed cadence, in seconds, at which the buffer is cut when nothing
/// else decides the moment.
pub const DEFAULT_TICK_SECONDS: u64 = 5;

/// The rate, in samples per second, that speech recognisers commonly expect.
pub const DEFAULT_TARGET_RATE: u32 = 16000;

/// Cuts the capture buffer into segments at the transcriber's rate.
#[derive(Clone, Copy, Debug)]
pub struct Segmenter {
    target_rate: u32,
    silence_threshold: u16,
}

impl Segmenter {
    #[verifier::type_invariant]
    closed spec fn inv(&self) -> bool {
        self.target_rate > 0
    }

    /// The rate that segments are delivered at.
    pub closed spec fn spec_target_rate(&self) -> u32 {
        self.target_rate
    }

    /// The magnitude up to which a sample counts as silence.
    pub closed spec fn spec_silence_threshold(&self) -> u16 {
        self.silence_threshold
    }

    /// A segmenter that delivers at `target_rate` and treats every sample of
    /// magnitude `silence_threshold` or less as silence; `None` when the rate
    /// is zero.
    pub fn new(target_rate: u32, silence_threshold: u16) -> (made: Option<Segmenter>)
        ensures
            made is Some <==> target_rate > 0,
            made matches Some(segmenter) ==> {
                &&& segmenter.spec_target_rate() == target_rate
                &&& segmenter.spec_silence_threshold() == silence_threshold
            },
    {
        if target_rate == 0 {
            None
        } else {
            Some(Segmenter { target_rate, silence_threshold })
        }
    }

    #[verifier::when_used_as_spec(spec_target_rate)]
    pub fn target_rate(&self) -> (rate: u32)
        ensures
            rate == self.spec_target_rate(),
            rate > 0,
    {
        proof {
            use_type_invariant(self);
        }
        self.target_rate
    }

    #[verifier::when_used_as_spec(spec_silence_threshold)]
    pub fn silence_threshold(&self) -> (threshold: u16)
        ensures
            threshold == self.spec_silence_threshold(),
    {
        self.silence_threshold
    }

    /// Whether a full `buffer`, brought to the target rate, still fits in a
    /// vector: the one thing `cut` needs of the buffer it is given.
    pub open spec fn spec_fits(&self, buffer: &SampleBuffer) -> bool {
        resampled_len(
            buffer.spec_capacity() as nat,
            buffer.spec_sample_rate(),
            self.spec_target_rate(),
        ) <= usize::MAX
    }

    /// Tests `spec_fits`. Capacity and rates never change, so one test when
    /// buffer and segmenter are set up holds for every later cut.
    #[verifier::when_used_as_spec(spec_fits)]
    pub fn fits(&self, buffer: &SampleBuffer) -> (ok: bool)
        ensures
            ok == self.spec_fits(buffer),
    {
        resampled_count(buffer.capacity(), buffer.sample_rate(), self.target_rate()).is_some()
    }

    /// One tick: drains `buffer`, cuts the silence off both ends, and brings
    /// what is left to the target rate. There is no segment, and so nothing to
    /// transcribe, when the buffer held no loud sample.
    pub fn cut(&self, buffer: &mut SampleBuffer) -> (segment: Option<Segment>)
        requires
            self.spec_fits(old(buffer)),
        ensures
            final(buffer)@ == drained(old(buffer)@).1,
            final(buffer).spec_capacity() == old(buffer).spec_capacity(),
            final(buffer).spec_sample_rate() == old(buffer).spec_sample_rate(),
            segment is Some <==> segment_of(
                old(buffer)@,
                old(buffer).spec_sample_rate(),
                self.spec_target_rate(),
                self.spec_silence_threshold(),
            ) is Some,
            segment matches Some(cut) ==> {
                &&& cut.samples@.len() > 0
                &&& Some(cut.samples@) == segment_of(
                    old(buffer)@,
                    old(buffer).spec_sample_rate(),
                    self.spec_target_rate(),
                    self.spec_silence_threshold(),
                )
                &&& cut.sample_rate == self.spec_target_rate()
            },
    {
        let from: u32 = buffer.sample_rate();
        let to: u32 = self.target_rate();
        let raw: Segment = buffer.drain_all();
        let kept: Vec<i16> = trim_silence(&raw.samples, self.silence_threshold);
        if kept.len() == 0 {
            return None;
        }
        proof {
            law_segments_are_never_empty(raw.samples@, from, to, self.silence_threshold);
            lemma_trimmed_is_shorter(raw.samples@, self.silence_threshold);
            lemma_resampled_len_grows(
                kept@.len(),
                old(buffer).spec_capacity() as nat,
                from,
                to,
            );
        }
        match resample_linear(&kept, from, to) {
            Some(samples) => Some(Segment { samples, sample_rate: to }),
            None => None,
        }
    }
}

proof fn lemma_trimmed_is_shorter(samples: Seq<i16>, threshold: u16)
    ensures
        trimmed(samples, threshold).len() <= samples.len(),
{
}

/// Audio that is silent throughout gives no segment: there is nothing to
/// transcribe.
pub proof fn law_silence_gives_no_segment(held: Seq<i16>, from: u32, to: u32, threshold: u16)
    requires
        all_silent(held, threshold),
    ensures
        trimmed(held, threshold) == Seq::<i16>::empty(),
        segment_of(held, from, to, threshold) is None,
{
    law_trim_spans_the_sound(held, threshold);
    assert(trimmed(held, threshold) =~= Seq::<i16>::empty());
}

/// A segment that is delivered holds at least one sample.
pub proof fn law_segments_are_never_empty(held: Seq<i16>, from: u32, to: u32, threshold: u16)
    requires
        from > 0,
        to > 0,
    ensures
        segment_of(held, from, to, threshold) matches Some(samples) ==> samples.len() > 0,
{
    let n = trimmed(held, threshold).len() as int;
    if n > 0 {
        let f = from as int;
        let total = n * to + f - 1;
        assert(total >= f) by (nonlinear_arith)
            requires
                n >= 1,
                to >= 1,
                total == n * to + f - 1,
        ;
        assert(total / f >= 1) by (nonlinear_arith)
            requires
                total >= f,
                f > 0,
        ;
    }
}

} // verus!

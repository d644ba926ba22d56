//! Plain audio values that travel between the capture edge, the buffer and
//! the transcription stage.

use vstd::prelude::*;

verus! {

/// One hardware-delivered run of samples, tagged with the format it was
/// captured in. A chunk is handed to the buffer whole and not looked at again.
#[derive(Clone, Debug, PartialEq, Eq)]
pub struct AudioChunk {
    pub samples: Vec<i16>,
    pub sample_rate: u32,
    pub channels: u16,
}

/// A finished, contiguous copy of samples taken out of the buffer, with the
/// rate they are to be played or transcribed at.
#[derive(Clone, Debug, PartialEq, Eq)]
pub struct Segment {
    pub samples: Vec<i16>,
    pub sample_rate: u32,
}

/// Encoded speech as the synthesis service returned it. Its bytes are not
/// looked into here: they go to playback as they came.
#[derive(Clone, Debug, PartialEq, Eq)]
pub struct SynthesizedAudio {
    pub bytes: Vec<u8>,
}

impl AudioChunk {
    /// A mono chunk at `sample_rate`.
    pub fn mono(samples: Vec<i16>, sample_rate: u32) -> (chunk: AudioChunk)
        ensures
            chunk.samples == samples,
            chunk.sample_rate == sample_rate,
            chunk.channels == 1,
    {
        AudioChunk { samples, sample_rate, channels: 1 }
    }
}

impl Segment {
    /// Number of samples in the segment.
    pub fn len(&self) -> (n: usize)
        ensures
            n == self.samples@.len(),
    {
        self.samples.len()
    }

    pub open spec fn spec_is_empty(&self) -> bool {
        self.samples@.len() == 0
    }

    /// Whether the segment holds no sample at all.
    #[verifier::when_used_as_spec(spec_is_empty)]
    pub fn is_empty(&self) -> (empty: bool)
        ensures
            empty == (self.samples@.len() == 0),
    {
        self.samples.len() == 0
    }
}

} // verus!

//! A voice assistant's decision core: a bounded capture buffer, the segmenter
//! that turns buffered audio into segments for transcription, the keyword
//! planner that answers a transcript, and the driver that sequences capture,
//! transcription, synthesis and playback.
//!
//! Audio samples are signed 16-bit PCM. Devices, models and network services
//! are not reached from here: the driver says what to do next and is told what
//! came of it.

pub mod audio;
pub mod errors;
pub mod pipeline;
pub mod planner;
pub mod resample;
pub mod retry;
pub mod sample_buffer;
pub mod segmenter;
pub mod silence;
pub mod transcript;

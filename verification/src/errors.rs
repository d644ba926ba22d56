//! What can go wrong, and how much it matters: a missing setting ends the
//! program before it starts, a lost device ends it once reopening has failed
//! often enough, and a failure on one segment costs that segment only.

use vstd::prelude::*;
use vstd::string::*;

verus! {

/// The four kinds of failure.
#[derive(Clone, Copy, Debug, PartialEq, Eq, Structural)]
pub enum ErrorClass {
    StartupConfig,
    Device,
    Collaborator,
    Playback,
}

/// Every failure the session knows of.
#[derive(Clone, Copy, Debug, PartialEq, Eq, Structural)]
pub enum PipelineError {
    /// No key for the speech-synthesis service was configured.
    MissingApiKey,
    /// The speech-recognition model is not where it should be.
    MissingModel,
    /// No input device could be opened when capture was to start.
    DeviceUnavailable,
    /// The input stream broke and reopening it was given up.
    DeviceLost,
    /// The transcriber failed on a segment.
    TranscriptionFailed,
    /// The synthesis service failed on a reply.
    SynthesisFailed,
    /// The synthesized reply could not be decoded or played.
    PlaybackFailed,
}

impl PipelineError {
    /// The kind that the failure belongs to.
    pub open spec fn spec_class(self) -> ErrorClass {
        match self {
            PipelineError::MissingApiKey | PipelineError::MissingModel => ErrorClass::StartupConfig,
            PipelineError::DeviceUnavailable | PipelineError::DeviceLost => ErrorClass::Device,
            PipelineError::TranscriptionFailed | PipelineError::SynthesisFailed => {
                ErrorClass::Collaborator
            },
            PipelineError::PlaybackFailed => ErrorClass::Playback,
        }
    }

    #[verifier::when_used_as_spec(spec_class)]
    pub fn class(self) -> (class: ErrorClass)
        ensures
            class == self.spec_class(),
    {
        match self {
            PipelineError::MissingApiKey | PipelineError::MissingModel => ErrorClass::StartupConfig,
            PipelineError::DeviceUnavailable | PipelineError::DeviceLost => ErrorClass::Device,
            PipelineError::TranscriptionFailed | PipelineError::SynthesisFailed => {
                ErrorClass::Collaborator
            },
            PipelineError::PlaybackFailed => ErrorClass::Playback,
        }
    }

    /// Whether the failure ends the session: startup and device failures do,
    /// failures on a single segment never do.
    pub open spec fn spec_is_fatal(self) -> bool {
        self.spec_class() is StartupConfig || self.spec_class() is Device
    }

    #[verifier::when_used_as_spec(spec_is_fatal)]
    pub fn is_fatal(self) -> (fatal: bool)
        ensures
            fatal == self.spec_is_fatal(),
    {
        match self.class() {
            ErrorClass::StartupConfig | ErrorClass::Device => true,
            ErrorClass::Collaborator | ErrorClass::Playback => false,
        }
    }

    /// The cause, in words for the user.
    pub open spec fn message(self) -> Seq<char> {
        match self {
            PipelineError::MissingApiKey => "ELEVENLABS_API_KEY not set"@,
            PipelineError::MissingModel => "Speech model not found"@,
            PipelineError::DeviceUnavailable => "No input device"@,
            PipelineError::DeviceLost => "Input device lost"@,
            PipelineError::TranscriptionFailed => "Transcription failed"@,
            PipelineError::SynthesisFailed => "Speech synthesis failed"@,
            PipelineError::PlaybackFailed => "Playback failed"@,
        }
    }

    /// Writes out `message`.
    pub fn describe(self) -> (text: String)
        ensures
            text@ == self.message(),
    {
        match self {
            PipelineError::MissingApiKey => "ELEVENLABS_API_KEY not set".to_string(),
            PipelineError::MissingModel => "Speech model not found".to_string(),
            PipelineError::DeviceUnavailable => "No input device".to_string(),
            PipelineError::DeviceLost => "Input device lost".to_string(),
            PipelineError::TranscriptionFailed => "Transcription failed".to_string(),
            PipelineError::SynthesisFailed => "Speech synthesis failed".to_string(),
            PipelineError::PlaybackFailed => "Playback failed".to_string(),
        }
    }
}

/// What the session needs before it can start.
#[derive(Clone, Debug, PartialEq, Eq)]
pub struct Settings {
    pub api_key: String,
    pub model_path: String,
}

/// Decides whether the session can start. `api_key` is the configured key, if
/// any; `model_found` says whether a model file is at `model_path`. The key
/// is looked at first.
pub fn check_startup(api_key: Option<String>, model_path: String, model_found: bool) -> (checked:
    Result<Settings, PipelineError>)
    ensures
        checked is Ok <==> api_key is Some && model_found,
        checked matches Ok(settings) ==> Some(settings.api_key) == api_key && settings.model_path
            == model_path,
        checked matches Err(error) ==> error == (if api_key is None {
            PipelineError::MissingApiKey
        } else {
            PipelineError::MissingModel
        }),
{
    match api_key {
        None => Err(PipelineError::MissingApiKey),
        Some(key) => {
            if model_found {
                Ok(Settings { api_key: key, model_path })
            } else {
                Err(PipelineError::MissingModel)
            }
        },
    }
}

} // verus!

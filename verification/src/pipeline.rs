//! The pipeline driver: a state machine that is told what happened and says
//! what to do next. It performs nothing itself. Whoever runs it opens the
//! device, calls the transcriber, the synthesis service and the player, and
//! reports back how each went.
//!
//! One segment is in flight at a time: capture, transcribe, plan the reply,
//! synthesize, play, and back to capture. A failure on a segment drops that
//! segment and nothing else.

use vstd::prelude::*;
use crate::audio::Segment;
use crate::audio::SynthesizedAudio;
use crate::errors::PipelineError;
use crate::planner::is_reply_to;
use crate::planner::process_command;
use crate::retry::RetryPolicy;
use crate::retry::backoff_delay;
use crate::retry::law_backoff_grows_to_limit;
use crate::transcript::Transcript;

verus! {

/// Where the pipeline stands.
#[derive(Clone, Copy, Debug, PartialEq, Eq, Structural)]
pub enum State {
    /// Not running: before the start, after a stop, or after a fatal failure.
    Idle,
    /// Listening, until the next tick brings a segment.
    Capturing,
    /// A segment is with the transcriber.
    Transcribing,
    /// A reply is with the synthesis service.
    Synthesizing,
    /// The spoken reply is being played.
    Playing,
}

/// What the outside reports to the driver.
#[derive(Debug, PartialEq, Eq)]
pub enum Event {
    /// The session is to begin.
    Start,
    /// The cadence fired.
    Tick,
    /// The buffer was cut as asked; with it comes the segment, if there is one.
    Segmented(Option<Segment>),
    /// The transcriber returned.
    Transcribed(Transcript),
    /// The transcriber failed.
    TranscriptionFailed,
    /// The synthesis service returned.
    Synthesized(SynthesizedAudio),
    /// The synthesis service failed.
    SynthesisFailed,
    /// The reply was played to its end.
    PlaybackFinished,
    /// The reply could not be decoded or played.
    PlaybackFailed,
    /// No input device could be opened at the start.
    DeviceUnavailable,
    /// The input stream reported an error, or opening it again failed.
    StreamFailed,
    /// The input stream is running again.
    DeviceReopened,
    /// The session is to end.
    Stop,
}

/// What the driver asks the outside to do.
#[derive(Debug, PartialEq, Eq)]
pub enum Action {
    /// Open the input device and start capturing.
    OpenDevice,
    /// Nothing to do but go on as before, until the next event.
    Wait,
    /// Drain the capture buffer through the segmenter and report what came out.
    CutSegment,
    /// Hand the segment to the transcriber.
    Transcribe(Segment),
    /// Hand the reply to the synthesis service.
    Synthesize(String),
    /// Play the synthesized reply.
    Play(SynthesizedAudio),
    /// Log the failure and go on listening.
    Report(PipelineError),
    /// Wait `delay_ms` milliseconds, then open the input device again.
    ReopenDevice { attempt: u32, delay_ms: u64 },
    /// Print the cause and end the program with a failure status.
    Abort(PipelineError),
    /// Close the input device and end the session.
    Shutdown,
}

/// What the driver remembers from one event to the next: where the pipeline
/// stands, how often in a row the input stream has failed, and how often it
/// may.
pub struct Progress {
    pub state: State,
    pub failures: u32,
    pub policy: RetryPolicy,
}

/// Whether the cut brought audio to work on. An empty segment is as good as none.
pub open spec fn brings_audio(event: Event) -> bool {
    event matches Event::Segmented(Some(segment)) && segment.samples@.len() > 0
}

/// The state after `event`. An event that the state is not waiting for
/// leaves it as it is.
pub open spec fn next_state(now: Progress, event: Event) -> State {
    let state = now.state;
    match event {
        Event::Stop => State::Idle,
        Event::Start => if state is Idle {
            State::Capturing
        } else {
            state
        },
        Event::DeviceUnavailable => State::Idle,
        Event::StreamFailed => if state is Idle || now.failures >= now.policy.max_attempts {
            State::Idle
        } else {
            state
        },
        Event::DeviceReopened | Event::Tick => state,
        Event::Segmented(_) => if state is Capturing && brings_audio(event) {
            State::Transcribing
        } else {
            state
        },
        Event::Transcribed(_) => if state is Transcribing {
            State::Synthesizing
        } else {
            state
        },
        Event::Synthesized(_) => if state is Synthesizing {
            State::Playing
        } else {
            state
        },
        Event::TranscriptionFailed => if state is Transcribing {
            State::Capturing
        } else {
            state
        },
        Event::SynthesisFailed => if state is Synthesizing {
            State::Capturing
        } else {
            state
        },
        Event::PlaybackFinished | Event::PlaybackFailed => if state is Playing {
            State::Capturing
        } else {
            state
        },
    }
}

/// The count of stream failures in a row after `event`.
pub open spec fn next_failures(now: Progress, event: Event) -> u32 {
    let state = now.state;
    let failures = now.failures;
    match event {
        Event::Stop | Event::DeviceUnavailable => 0,
        Event::Start => if state is Idle {
            0
        } else {
            failures
        },
        Event::DeviceReopened => if state is Idle {
            failures
        } else {
            0
        },
        Event::StreamFailed => if state is Idle {
            failures
        } else if failures < now.policy.max_attempts {
            (failures + 1) as u32
        } else {
            0
        },
        _ => failures,
    }
}

/// Whether `event` in `state` calls for a reply to be planned. That is the one
/// step whose action is not a function of state and event alone: a reply may
/// tell the time.
pub open spec fn plans_reply(state: State, event: Event) -> bool {
    state is Transcribing && event is Transcribed
}

/// The action that `event` calls for, wherever no reply is planned.
pub open spec fn fixed_action(now: Progress, event: Event) -> Action {
    let state = now.state;
    let failures = now.failures;
    let policy = now.policy;
    match event {
        Event::Stop => Action::Shutdown,
        Event::Start => if state is Idle {
            Action::OpenDevice
        } else {
            Action::Wait
        },
        Event::DeviceUnavailable => if state is Idle {
            Action::Wait
        } else {
            Action::Abort(PipelineError::DeviceUnavailable)
        },
        Event::StreamFailed => if state is Idle {
            Action::Wait
        } else if failures < policy.max_attempts {
            Action::ReopenDevice {
                attempt: (failures + 1) as u32,
                delay_ms: backoff_delay(policy, failures as nat) as u64,
            }
        } else {
            Action::Abort(PipelineError::DeviceLost)
        },
        Event::DeviceReopened => Action::Wait,
        Event::Tick => if state is Capturing {
            Action::CutSegment
        } else {
            Action::Wait
        },
        Event::Segmented(cut) => if state is Capturing && brings_audio(event) {
            Action::Transcribe(cut->0)
        } else {
            Action::Wait
        },
        Event::Transcribed(_) => Action::Wait,
        Event::Synthesized(audio) => if state is Synthesizing {
            Action::Play(audio)
        } else {
            Action::Wait
        },
        Event::TranscriptionFailed => if state is Transcribing {
            Action::Report(PipelineError::TranscriptionFailed)
        } else {
            Action::Wait
        },
        Event::SynthesisFailed => if state is Synthesizing {
            Action::Report(PipelineError::SynthesisFailed)
        } else {
            Action::Wait
        },
        Event::PlaybackFinished => Action::Wait,
        Event::PlaybackFailed => if state is Playing {
            Action::Report(PipelineError::PlaybackFailed)
        } else {
            Action::Wait
        },
    }
}

/// `action` is what `event` calls for in `state`: the planner's reply to the
/// transcript where one is planned, else exactly `fixed_action`.
pub open spec fn action_fits(now: Progress, event: Event, action: Action) -> bool {
    if plans_reply(now.state, event) {
        action matches Action::Synthesize(reply) && is_reply_to(
            event->Transcribed_0.text@,
            reply@,
        )
    } else {
        action == fixed_action(now, event)
    }
}

/// What the driver remembers after `event`.
pub open spec fn after(now: Progress, event: Event) -> Progress {
    Progress {
        state: next_state(now, event),
        failures: next_failures(now, event),
        policy: now.policy,
    }
}

/// The driver. Its view is what it remembers.
#[derive(Debug)]
pub struct Driver {
    state: State,
    failures: u32,
    policy: RetryPolicy,
}

impl View for Driver {
    type V = Progress;

    closed spec fn view(&self) -> Progress {
        Progress { state: self.state, failures: self.failures, policy: self.policy }
    }
}

impl Driver {
    /// An idle driver that reopens a failed device as `policy` says.
    pub fn new(policy: RetryPolicy) -> (driver: Driver)
        ensures
            driver@ == (Progress { state: State::Idle, failures: 0, policy }),
    {
        Driver { state: State::Idle, failures: 0, policy }
    }

    /// Where the pipeline stands.
    pub fn state(&self) -> (state: State)
        ensures
            state == self@.state,
    {
        self.state
    }

    /// How often in a row the input stream has failed.
    pub fn failures(&self) -> (failures: u32)
        ensures
            failures == self@.failures,
    {
        self.failures
    }

    /// The retry policy that the driver was made with.
    pub fn policy(&self) -> (policy: RetryPolicy)
        ensures
            policy == self@.policy,
    {
        self.policy
    }

    /// Takes in one event and says what to do about it.
    pub fn step(&mut self, event: Event) -> (action: Action)
        ensures
            final(self)@ == after(old(self)@, event),
            action_fits(old(self)@, event, action),
    {
        let state: State = self.state;
        let idle: bool = match state {
            State::Idle => true,
            _ => false,
        };
        match event {
            Event::Stop => {
                self.state = State::Idle;
                self.failures = 0;
                Action::Shutdown
            },
            Event::Start => {
                if idle {
                    self.state = State::Capturing;
                    self.failures = 0;
                    Action::OpenDevice
                } else {
                    Action::Wait
                }
            },
            Event::DeviceUnavailable => {
                self.state = State::Idle;
                self.failures = 0;
                if idle {
                    Action::Wait
                } else {
                    Action::Abort(PipelineError::DeviceUnavailable)
                }
            },
            Event::StreamFailed => {
                if idle {
                    Action::Wait
                } else if self.failures < self.policy.max_attempts {
                    let delay_ms: u64 = self.policy.delay_after(self.failures);
                    self.failures = self.failures + 1;
                    Action::ReopenDevice { attempt: self.failures, delay_ms }
                } else {
                    self.state = State::Idle;
                    self.failures = 0;
                    Action::Abort(PipelineError::DeviceLost)
                }
            },
            Event::DeviceReopened => {
                if !idle {
                    self.failures = 0;
                }
                Action::Wait
            },
            Event::Tick => {
                match state {
                    State::Capturing => Action::CutSegment,
                    _ => Action::Wait,
                }
            },
            Event::Segmented(cut) => {
                match (state, cut) {
                    (State::Capturing, Some(segment)) => {
                        if segment.samples.len() > 0 {
                            self.state = State::Transcribing;
                            Action::Transcribe(segment)
                        } else {
                            Action::Wait
                        }
                    },
                    _ => Action::Wait,
                }
            },
            Event::Transcribed(transcript) => {
                match state {
                    State::Transcribing => {
                        let reply: String = process_command(transcript.text.as_str());
                        self.state = State::Synthesizing;
                        Action::Synthesize(reply)
                    },
                    _ => Action::Wait,
                }
            },
            Event::Synthesized(audio) => {
                match state {
                    State::Synthesizing => {
                        self.state = State::Playing;
                        Action::Play(audio)
                    },
                    _ => Action::Wait,
                }
            },
            Event::TranscriptionFailed => {
                match state {
                    State::Transcribing => {
                        self.state = State::Capturing;
                        Action::Report(PipelineError::TranscriptionFailed)
                    },
                    _ => Action::Wait,
                }
            },
            Event::SynthesisFailed => {
                match state {
                    State::Synthesizing => {
                        self.state = State::Capturing;
                        Action::Report(PipelineError::SynthesisFailed)
                    },
                    _ => Action::Wait,
                }
            },
            Event::PlaybackFinished => {
                match state {
                    State::Playing => {
                        self.state = State::Capturing;
                        Action::Wait
                    },
                    _ => Action::Wait,
                }
            },
            Event::PlaybackFailed => {
                match state {
                    State::Playing => {
                        self.state = State::Capturing;
                        Action::Report(PipelineError::PlaybackFailed)
                    },
                    _ => Action::Wait,
                }
            },
        }
    }
}

/// A failure on one segment never ends the session. Whether the transcriber,
/// the synthesis service or the player failed, the failure is reported and
/// the driver is back to capturing: the next tick has the buffer cut again,
/// and a segment that comes out is sent to the transcriber as if nothing had
/// happened.
pub proof fn law_segment_failure_is_isolated(failures: u32, policy: RetryPolicy, next: Segment)
    requires
        next.samples@.len() > 0,
    ensures
        ({
            let transcribing = Progress { state: State::Transcribing, failures, policy };
            let synthesizing = Progress { state: State::Synthesizing, failures, policy };
            let playing = Progress { state: State::Playing, failures, policy };
            let capturing = Progress { state: State::Capturing, failures, policy };
            &&& after(transcribing, Event::TranscriptionFailed) == capturing
            &&& after(synthesizing, Event::SynthesisFailed) == capturing
            &&& after(playing, Event::PlaybackFailed) == capturing
            &&& fixed_action(transcribing, Event::TranscriptionFailed) == Action::Report(
                PipelineError::TranscriptionFailed,
            )
            &&& fixed_action(synthesizing, Event::SynthesisFailed) == Action::Report(
                PipelineError::SynthesisFailed,
            )
            &&& fixed_action(playing, Event::PlaybackFailed) == Action::Report(
                PipelineError::PlaybackFailed,
            )
            &&& after(capturing, Event::Tick) == capturing
            &&& fixed_action(capturing, Event::Tick) == Action::CutSegment
            &&& after(capturing, Event::Segmented(Some(next))).state == State::Transcribing
            &&& fixed_action(capturing, Event::Segmented(Some(next))) == Action::Transcribe(next)
        }),
{
}

/// The session is ended for one reason only: the input device. It is given up
/// at once when it cannot be opened at the start, and after the allowed
/// number of reopenings when the stream fails. Whatever is merely reported is
/// not fatal and leaves the driver capturing.
pub proof fn law_only_the_device_is_fatal(now: Progress, event: Event)
    ensures
        fixed_action(now, event) is Abort <==> now.state !is Idle && (event is DeviceUnavailable
            || (event is StreamFailed && now.failures >= now.policy.max_attempts)),
        fixed_action(now, event) matches Action::Abort(error) ==> {
            &&& error.spec_class() is Device
            &&& after(now, event).state is Idle
        },
        fixed_action(now, event) matches Action::Report(error) ==> {
            &&& !error.spec_is_fatal()
            &&& after(now, event).state is Capturing
        },
        fixed_action(now, event) matches Action::ReopenDevice { attempt, delay_ms } ==> {
            &&& 1 <= attempt <= now.policy.max_attempts
            &&& delay_ms == backoff_delay(now.policy, now.failures as nat)
            &&& after(now, event).failures == attempt
            &&& after(now, event).state == now.state
        },
{
    if fixed_action(now, event) is ReopenDevice {
        law_backoff_grows_to_limit(now.policy, now.failures as nat);
    }
}

/// Nothing goes to the transcriber unless the driver is capturing and the cut
/// brought at least one sample; a cut without audio changes nothing. And the
/// buffer is cut only while the driver is capturing, so no audio is drained
/// that the driver would not take.
pub proof fn law_no_audio_no_transcription(now: Progress, event: Event)
    ensures
        fixed_action(now, event) is Transcribe ==> now.state is Capturing && brings_audio(event),
        event is Segmented && !brings_audio(event) ==> {
            &&& fixed_action(now, event) == Action::Wait
            &&& after(now, event) == now
        },
        fixed_action(now, event) is CutSegment <==> now.state is Capturing && event is Tick,
{
}

} // verus!

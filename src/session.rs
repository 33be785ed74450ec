use vstd::prelude::*;
use crate::device::{
    channel_count, common_channels, AJConfig, AJInputDevice, AJOutputDevice, EngineError,
};

verus! {

/// Where a streaming session stands.
#[derive(PartialEq, Eq, Structural, Clone, Copy, Debug)]
pub enum SessionPhase {
    /// Waiting for the subsystem's answer on the duplex format.
    AwaitingFormat,
    /// The stream is being opened.
    Opening,
    /// The stream is open and being started.
    Starting,
    /// Samples are moving.
    Streaming,
    /// The stream is being stopped.
    Stopping,
    /// The stream is being closed.
    Closing,
    /// Everything is released.
    Ended,
}

/// What the host reports back after carrying out an action.
#[derive(PartialEq, Eq, Structural, Clone, Copy, Debug)]
pub enum SessionEvent {
    FormatChecked(bool),
    Opened(bool),
    Started(bool),
    StopRequested,
    TransportFailed,
    Stopped(bool),
    Closed(bool),
}

/// What the host must do next.
#[derive(PartialEq, Eq, Structural, Clone, Copy, Debug)]
pub enum SessionAction {
    OpenStream,
    StartStream,
    RunTransport,
    StopStream,
    CloseStream,
    /// The session ended cleanly.
    Finish,
    /// The session ended on this error; everything it held is released.
    Fail(EngineError),
    Ignore,
}

/// A stream is held open in this phase and must still be closed.
pub open spec fn holds_stream(p: SessionPhase) -> bool {
    p == SessionPhase::Starting || p == SessionPhase::Streaming || p == SessionPhase::Stopping
        || p == SessionPhase::Closing
}

/// How a session ends, given the first fault met and whether closing worked.
pub open spec fn outcome(fault: Option<EngineError>, closed: bool) -> SessionAction {
    match fault {
        Some(e) => SessionAction::Fail(e),
        None => if closed {
            SessionAction::Finish
        } else {
            SessionAction::Fail(EngineError::StreamFault)
        },
    }
}

/// The session is over.
pub open spec fn ends(a: SessionAction) -> bool {
    a == SessionAction::Finish || a is Fail
}

/// The transition table: next phase, fault kept, and action.
pub open spec fn next(
    phase: SessionPhase,
    fault: Option<EngineError>,
    frames: u32,
    ev: SessionEvent,
) -> (SessionPhase, Option<EngineError>, SessionAction) {
    match (phase, ev) {
        (SessionPhase::AwaitingFormat, SessionEvent::FormatChecked(ok)) => if ok && frames > 0 {
            (SessionPhase::Opening, fault, SessionAction::OpenStream)
        } else {
            (
                SessionPhase::Ended,
                fault,
                SessionAction::Fail(EngineError::UnsupportedFormat),
            )
        },
        (SessionPhase::Opening, SessionEvent::Opened(ok)) => if ok {
            (SessionPhase::Starting, fault, SessionAction::StartStream)
        } else {
            (SessionPhase::Ended, fault, SessionAction::Fail(EngineError::StreamFault))
        },
        (SessionPhase::Starting, SessionEvent::Started(ok)) => if ok {
            (SessionPhase::Streaming, fault, SessionAction::RunTransport)
        } else {
            (SessionPhase::Closing, Some(EngineError::StreamFault), SessionAction::CloseStream)
        },
        (SessionPhase::Streaming, SessionEvent::StopRequested) => (
            SessionPhase::Stopping,
            fault,
            SessionAction::StopStream,
        ),
        (SessionPhase::Streaming, SessionEvent::TransportFailed) => (
            SessionPhase::Stopping,
            Some(EngineError::InvariantViolation),
            SessionAction::StopStream,
        ),
        (SessionPhase::Stopping, SessionEvent::Stopped(ok)) => (
            SessionPhase::Closing,
            if !ok && fault is None {
                Some(EngineError::StreamFault)
            } else {
                fault
            },
            SessionAction::CloseStream,
        ),
        (SessionPhase::Closing, SessionEvent::Closed(ok)) => (
            SessionPhase::Ended,
            fault,
            outcome(fault, ok),
        ),
        _ => (phase, fault, SessionAction::Ignore),
    }
}

/// The live state of one input/output connection.
pub struct StreamSession<R, G> {
    config: AJConfig<R, G>,
    phase: SessionPhase,
    fault: Option<EngineError>,
}

impl<R: Copy, G: Copy> StreamSession<R, G> {
    pub closed spec fn spec_phase(&self) -> SessionPhase {
        self.phase
    }

    pub closed spec fn spec_fault(&self) -> Option<EngineError> {
        self.fault
    }

    /// The format the session runs with.
    pub closed spec fn spec_config(&self) -> AJConfig<R, G> {
        self.config
    }

    /// Starts a session for two devices. When they share no channel it
    /// fails with `IncompatibleDevices`, and no stream is ever asked for.
    /// Otherwise the session waits for the subsystem's answer on whether it
    /// supports the duplex format at `config.channels`.
    pub fn begin(
        input: &AJInputDevice,
        output: &AJOutputDevice,
        sample_rate: R,
        frames: u32,
        volume: G,
    ) -> (r: Result<Self, EngineError>)
        ensures
            r is Err <==> common_channels(input@, output@) <= 0,
            r is Err ==> r->Err_0 == EngineError::IncompatibleDevices,
            r is Ok ==> ({
                let s = r->Ok_0;
                &&& s.spec_phase() == SessionPhase::AwaitingFormat
                &&& s.spec_fault() is None
                &&& s.spec_config().channels == common_channels(input@, output@)
                &&& s.spec_config().frames == frames
                &&& s.spec_config().sample_rate == sample_rate
                &&& s.spec_config().volume == volume
            }),
    {
        match channel_count(input, output) {
            Err(e) => Err(e),
            Ok(channels) => Ok(
                StreamSession {
                    config: AJConfig { sample_rate, channels, frames, volume },
                    phase: SessionPhase::AwaitingFormat,
                    fault: None,
                },
            ),
        }
    }

    pub fn config(&self) -> (r: AJConfig<R, G>)
        ensures
            r == self.spec_config(),
    {
        self.config
    }

    pub fn phase(&self) -> (r: SessionPhase)
        ensures
            r == self.spec_phase(),
    {
        self.phase
    }

    /// Takes the host's report and says what to do next.
    pub fn handle(&mut self, ev: SessionEvent) -> (r: SessionAction)
        ensures
            (final(self).spec_phase(), final(self).spec_fault(), r) == next(
                old(self).spec_phase(),
                old(self).spec_fault(),
                old(self).spec_config().frames,
                ev,
            ),
            final(self).spec_config() == old(self).spec_config(),
    {
        let (p, f, a) = match (self.phase, ev) {
            (SessionPhase::AwaitingFormat, SessionEvent::FormatChecked(ok)) => {
                if ok && self.config.frames > 0 {
                    (SessionPhase::Opening, self.fault, SessionAction::OpenStream)
                } else {
                    (
                        SessionPhase::Ended,
                        self.fault,
                        SessionAction::Fail(EngineError::UnsupportedFormat),
                    )
                }
            },
            (SessionPhase::Opening, SessionEvent::Opened(ok)) => {
                if ok {
                    (SessionPhase::Starting, self.fault, SessionAction::StartStream)
                } else {
                    (
                        SessionPhase::Ended,
                        self.fault,
                        SessionAction::Fail(EngineError::StreamFault),
                    )
                }
            },
            (SessionPhase::Starting, SessionEvent::Started(ok)) => {
                if ok {
                    (SessionPhase::Streaming, self.fault, SessionAction::RunTransport)
                } else {
                    (
                        SessionPhase::Closing,
                        Some(EngineError::StreamFault),
                        SessionAction::CloseStream,
                    )
                }
            },
            (SessionPhase::Streaming, SessionEvent::StopRequested) => {
                (SessionPhase::Stopping, self.fault, SessionAction::StopStream)
            },
            (SessionPhase::Streaming, SessionEvent::TransportFailed) => {
                (
                    SessionPhase::Stopping,
                    Some(EngineError::InvariantViolation),
                    SessionAction::StopStream,
                )
            },
            (SessionPhase::Stopping, SessionEvent::Stopped(ok)) => {
                let f = if !ok && self.fault.is_none() {
                    Some(EngineError::StreamFault)
                } else {
                    self.fault
                };
                (SessionPhase::Closing, f, SessionAction::CloseStream)
            },
            (SessionPhase::Closing, SessionEvent::Closed(ok)) => {
                let out = match self.fault {
                    Some(e) => SessionAction::Fail(e),
                    None => if ok {
                        SessionAction::Finish
                    } else {
                        SessionAction::Fail(EngineError::StreamFault)
                    },
                };
                (SessionPhase::Ended, self.fault, out)
            },
            _ => (self.phase, self.fault, SessionAction::Ignore),
        };
        self.phase = p;
        self.fault = f;
        a
    }
}

/// No stream is opened before the subsystem has accepted the format: the
/// only step that asks to open one answers a positive format check.
pub proof fn lemma_open_needs_format(
    phase: SessionPhase,
    fault: Option<EngineError>,
    frames: u32,
    ev: SessionEvent,
)
    ensures
        next(phase, fault, frames, ev).2 == SessionAction::OpenStream ==> phase
            == SessionPhase::AwaitingFormat && ev == SessionEvent::FormatChecked(true) && frames > 0,
{
}

/// No leak on any path: while a stream is held, every step keeps holding
/// it or moves on towards closing it, and a session finishes with a stream
/// held only from the closing step.
pub proof fn lemma_no_leak(
    phase: SessionPhase,
    fault: Option<EngineError>,
    frames: u32,
    ev: SessionEvent,
)
    ensures
        holds_stream(phase) ==> holds_stream(next(phase, fault, frames, ev).0) || (phase
            == SessionPhase::Closing && ev matches SessionEvent::Closed(_)),
        ends(next(phase, fault, frames, ev).2) ==> !holds_stream(phase)
            || phase == SessionPhase::Closing,
        next(phase, fault, frames, ev).0 == SessionPhase::Ended ==> !holds_stream(phase) || phase
            == SessionPhase::Closing,
{
}

/// A fault met on the way is the one reported at the end.
pub proof fn lemma_fault_reported(fault: Option<EngineError>, frames: u32, ok: bool)
    requires
        fault is Some,
    ensures
        next(SessionPhase::Closing, fault, frames, SessionEvent::Closed(ok)).2
            == SessionAction::Fail(fault->Some_0),
{
}

} // verus!

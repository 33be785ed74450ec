use audio_jack::device::{AJInputDevice, AJOutputDevice, EngineError};
use audio_jack::session::{SessionAction, SessionEvent, SessionPhase, StreamSession};

fn input(channels: i32) -> AJInputDevice {
    AJInputDevice { name: "Mic A".to_string(), dev_index: 0, channels }
}

fn output(channels: i32) -> AJOutputDevice {
    AJOutputDevice { name: "Speakers B".to_string(), dev_index: 1, channels }
}

fn session(frames: u32) -> StreamSession<f64, f32> {
    StreamSession::begin(&input(2), &output(2), 44100.0, frames, 0.5).unwrap()
}

#[test]
fn zero_input_channels_never_opens_a_stream() {
    let r: Result<StreamSession<f64, f32>, EngineError> =
        StreamSession::begin(&input(0), &output(2), 44100.0, 256, 0.5);
    assert!(matches!(r, Err(EngineError::IncompatibleDevices)));
}

#[test]
fn session_runs_and_closes_cleanly() {
    let mut s = session(256);
    assert_eq!(s.phase(), SessionPhase::AwaitingFormat);
    let c = s.config();
    assert_eq!((c.channels, c.frames, c.sample_rate, c.volume), (2, 256, 44100.0, 0.5));
    assert_eq!(s.handle(SessionEvent::FormatChecked(true)), SessionAction::OpenStream);
    assert_eq!(s.handle(SessionEvent::Opened(true)), SessionAction::StartStream);
    assert_eq!(s.handle(SessionEvent::Started(true)), SessionAction::RunTransport);
    assert_eq!(s.phase(), SessionPhase::Streaming);
    assert_eq!(s.handle(SessionEvent::StopRequested), SessionAction::StopStream);
    assert_eq!(s.handle(SessionEvent::Stopped(true)), SessionAction::CloseStream);
    assert_eq!(s.handle(SessionEvent::Closed(true)), SessionAction::Finish);
    assert_eq!(s.phase(), SessionPhase::Ended);
}

#[test]
fn session_unsupported_format() {
    let mut s = session(256);
    assert_eq!(
        s.handle(SessionEvent::FormatChecked(false)),
        SessionAction::Fail(EngineError::UnsupportedFormat)
    );
    let mut s = session(0);
    assert_eq!(
        s.handle(SessionEvent::FormatChecked(true)),
        SessionAction::Fail(EngineError::UnsupportedFormat)
    );
}

#[test]
fn session_open_failure() {
    let mut s = session(256);
    s.handle(SessionEvent::FormatChecked(true));
    assert_eq!(s.handle(SessionEvent::Opened(false)), SessionAction::Fail(EngineError::StreamFault));
}

#[test]
fn session_start_failure_still_closes() {
    let mut s = session(256);
    s.handle(SessionEvent::FormatChecked(true));
    s.handle(SessionEvent::Opened(true));
    assert_eq!(s.handle(SessionEvent::Started(false)), SessionAction::CloseStream);
    assert_eq!(s.handle(SessionEvent::Closed(true)), SessionAction::Fail(EngineError::StreamFault));
}

#[test]
fn session_transport_defect_stops_and_closes() {
    let mut s = session(256);
    s.handle(SessionEvent::FormatChecked(true));
    s.handle(SessionEvent::Opened(true));
    s.handle(SessionEvent::Started(true));
    assert_eq!(s.handle(SessionEvent::TransportFailed), SessionAction::StopStream);
    assert_eq!(s.handle(SessionEvent::Stopped(false)), SessionAction::CloseStream);
    assert_eq!(
        s.handle(SessionEvent::Closed(true)),
        SessionAction::Fail(EngineError::InvariantViolation)
    );
}

#[test]
fn session_stop_or_close_failure_is_a_stream_fault() {
    let mut s = session(256);
    s.handle(SessionEvent::FormatChecked(true));
    s.handle(SessionEvent::Opened(true));
    s.handle(SessionEvent::Started(true));
    s.handle(SessionEvent::StopRequested);
    assert_eq!(s.handle(SessionEvent::Stopped(false)), SessionAction::CloseStream);
    assert_eq!(s.handle(SessionEvent::Closed(true)), SessionAction::Fail(EngineError::StreamFault));
    let mut s = session(256);
    s.handle(SessionEvent::FormatChecked(true));
    s.handle(SessionEvent::Opened(true));
    s.handle(SessionEvent::Started(true));
    s.handle(SessionEvent::StopRequested);
    s.handle(SessionEvent::Stopped(true));
    assert_eq!(s.handle(SessionEvent::Closed(false)), SessionAction::Fail(EngineError::StreamFault));
}

#[test]
fn session_ignores_events_out_of_turn() {
    let mut s = session(256);
    assert_eq!(s.handle(SessionEvent::Opened(true)), SessionAction::Ignore);
    assert_eq!(s.handle(SessionEvent::StopRequested), SessionAction::Ignore);
    assert_eq!(s.phase(), SessionPhase::AwaitingFormat);
    s.handle(SessionEvent::FormatChecked(true));
    assert_eq!(s.handle(SessionEvent::Closed(true)), SessionAction::Ignore);
    assert_eq!(s.phase(), SessionPhase::Opening);
}

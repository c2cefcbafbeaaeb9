use vibe_dictate::protocol::{
    is_answer, Control, Failure, Incoming, Outcome, Reply, Request, AUDIO_QUEUE_CAPACITY,
    AUDIO_WAIT_MS, DONE_TIMEOUT_MS, IDLE_PAUSE_MS,
};
use vibe_dictate::session::Session;
use vibe_dictate::transcript::{closing_event, Transcript};

/// Runs a session against a script of what it must ask for and what it is told.
fn run(script: &[(Request, Reply)]) -> Session {
    let mut session = Session::new();
    for &(request, reply) in script {
        assert_eq!(session.outcome(), None);
        assert_eq!(session.request(), request);
        assert!(is_answer(request, reply));
        session.step(reply);
    }
    session
}

const SETUP: [(Request, Reply); 3] = [
    (Request::Connect, Reply::Completed),
    (Request::SetNonblocking, Reply::Completed),
    (Request::SendConfig, Reply::Completed),
];

const NOTHING: Reply = Reply::Read(Incoming::Nothing);
const RELEASE: Reply = Reply::Control(Some(Control::Release));
const CANCEL: Reply = Reply::Control(Some(Control::Cancel));
const NO_COMMAND: Reply = Reply::Control(None);

fn set_up(rest: &[(Request, Reply)]) -> Vec<(Request, Reply)> {
    let mut script = SETUP.to_vec();
    script.extend_from_slice(rest);
    script
}

#[test]
fn a_release_drains_announces_the_end_and_waits() {
    let script = set_up(&[
        (Request::PollControl, NO_COMMAND),
        (Request::AwaitAudio, Reply::Chunk),
        (Request::SendChunk, Reply::Completed),
        (Request::Read, NOTHING),
        (Request::TakeDeviceError, Reply::DeviceError(false)),
        (Request::PollControl, RELEASE),
        (Request::TakeAudio, Reply::Chunk),
        (Request::SendChunk, Reply::Completed),
        (Request::Read, Reply::Read(Incoming::Message { done: false })),
        (Request::Read, NOTHING),
        (Request::TakeAudio, Reply::NoAudio),
        (Request::CheckOverflow, Reply::Overflow(false)),
        (Request::SendTail, Reply::Completed),
        (Request::SendEnd, Reply::Completed),
        (Request::CheckClock, Reply::Waited(0)),
        (Request::PollControl, NO_COMMAND),
        (Request::Read, NOTHING),
        (Request::Pause, Reply::Completed),
        (Request::CheckClock, Reply::Waited(11)),
        (Request::PollControl, RELEASE),
        (Request::Read, Reply::Read(Incoming::Other)),
        (Request::CheckClock, Reply::Waited(12)),
        (Request::PollControl, NO_COMMAND),
        (Request::Read, Reply::Read(Incoming::Message { done: true })),
    ]);
    let session = run(&script);
    assert_eq!(session.outcome(), Some(Outcome::Done));
    assert_eq!(session.request(), Request::Nothing);
}

#[test]
fn a_cancel_closes_the_socket_without_an_end() {
    let session = run(&set_up(&[
        (Request::PollControl, CANCEL),
        (Request::CloseCancelled, Reply::Completed),
    ]));
    assert_eq!(session.outcome(), Some(Outcome::Cancelled));
}

#[test]
fn a_cancel_interrupts_the_wait() {
    let session = run(&set_up(&[
        (Request::PollControl, RELEASE),
        (Request::TakeAudio, Reply::AudioClosed),
        (Request::CheckOverflow, Reply::Overflow(false)),
        (Request::SendTail, Reply::Completed),
        (Request::SendEnd, Reply::Completed),
        (Request::CheckClock, Reply::Waited(30)),
        (Request::PollControl, CANCEL),
        (Request::CloseCancelled, Reply::Completed),
    ]));
    assert_eq!(session.outcome(), Some(Outcome::Cancelled));
}

#[test]
fn dropped_audio_is_an_error() {
    let session = run(&set_up(&[
        (Request::PollControl, RELEASE),
        (Request::TakeAudio, Reply::NoAudio),
        (Request::CheckOverflow, Reply::Overflow(true)),
    ]));
    assert_eq!(session.outcome(), Some(Outcome::Failed(Failure::QueueOverflow)));
}

#[test]
fn without_audio_the_session_keeps_reading() {
    let session = run(&set_up(&[
        (Request::PollControl, NO_COMMAND),
        (Request::AwaitAudio, Reply::NoAudio),
        (Request::Read, Reply::Read(Incoming::Message { done: true })),
        (Request::Read, Reply::Read(Incoming::Closed)),
        (Request::TakeDeviceError, Reply::DeviceError(false)),
        (Request::PollControl, NO_COMMAND),
        (Request::AwaitAudio, Reply::AudioClosed),
        (Request::TakeDeviceError, Reply::DeviceError(false)),
        (Request::PollControl, NO_COMMAND),
        (Request::Read, NOTHING),
        (Request::Pause, Reply::Completed),
        (Request::TakeDeviceError, Reply::DeviceError(true)),
    ]));
    assert_eq!(session.outcome(), Some(Outcome::Failed(Failure::Device)));
}

#[test]
fn the_wait_has_a_deadline() {
    let released = set_up(&[
        (Request::PollControl, RELEASE),
        (Request::TakeAudio, Reply::NoAudio),
        (Request::CheckOverflow, Reply::Overflow(false)),
        (Request::SendTail, Reply::Completed),
        (Request::SendEnd, Reply::Completed),
    ]);
    let mut late = released.clone();
    late.push((Request::CheckClock, Reply::Waited(120_000)));
    assert_eq!(run(&late).outcome(), Some(Outcome::Failed(Failure::DoneTimeout)));
    let mut closed = released;
    closed.push((Request::CheckClock, Reply::Waited(119_999)));
    closed.push((Request::PollControl, NO_COMMAND));
    closed.push((Request::Read, Reply::Read(Incoming::Closed)));
    assert_eq!(run(&closed).outcome(), Some(Outcome::Failed(Failure::ClosedBeforeDone)));
}

#[test]
fn a_failed_request_ends_the_session() {
    let broken = Some(Outcome::Failed(Failure::Transport));
    for n in 0..SETUP.len() {
        let mut script = SETUP[..n].to_vec();
        script.push((SETUP[n].0, Reply::Failed));
        assert_eq!(run(&script).outcome(), broken);
    }
    let live = set_up(&[
        (Request::PollControl, NO_COMMAND),
        (Request::AwaitAudio, Reply::Chunk),
        (Request::SendChunk, Reply::Failed),
    ]);
    assert_eq!(run(&live).outcome(), broken);
}

#[test]
fn one_ending_is_reported() {
    let endings = [
        (vec![(Request::PollControl, CANCEL), (Request::CloseCancelled, Reply::Completed)], 1, 0),
        (vec![(Request::PollControl, RELEASE), (Request::TakeAudio, Reply::Chunk),
            (Request::SendChunk, Reply::Failed)], 0, 1),
    ];
    for (rest, closed, announced) in endings {
        let script = set_up(&rest);
        let asked = script.iter().filter(|(r, _)| *r == Request::CloseCancelled).count();
        let outcome = run(&script).outcome().unwrap();
        let event = closing_event(outcome, Transcript::new(), 0, None, String::new());
        assert_eq!((asked, event.iter().count()), (closed, announced));
    }
}

#[test]
fn replies_must_fit_the_request() {
    assert!(!is_answer(Request::Connect, Reply::Chunk));
    assert!(!is_answer(Request::PollControl, Reply::Completed));
    assert!(!is_answer(Request::Pause, Reply::Failed));
    assert!(!is_answer(Request::Nothing, Reply::Completed));
    assert!(is_answer(Request::Read, Reply::Failed));
    assert!(is_answer(Request::SendFrame(3), Reply::Completed));
}

#[test]
fn the_limits_of_a_session() {
    assert_eq!(AUDIO_QUEUE_CAPACITY, 32);
    assert_eq!((AUDIO_WAIT_MS, IDLE_PAUSE_MS, DONE_TIMEOUT_MS), (20, 10, 120_000));
}

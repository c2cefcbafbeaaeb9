use vibe_dictate::protocol::{
    is_answer, Control, Failure, Incoming, Outcome, Reply, Request, REALTIME_PAUSE_MS,
};
use vibe_dictate::transfer::Transfer;

fn run(frames: usize, realtime: bool, script: &[(Request, Reply)]) -> Transfer {
    let mut transfer = Transfer::new(frames, realtime);
    for request in [Request::Connect, Request::SetNonblocking, Request::SendConfig] {
        assert_eq!(transfer.request(), request);
        transfer.step(Reply::Completed);
    }
    for &(request, reply) in script {
        assert_eq!(transfer.outcome(), None);
        assert_eq!(transfer.request(), request);
        assert!(is_answer(request, reply));
        transfer.step(reply);
    }
    transfer
}

const NOTHING: Reply = Reply::Read(Incoming::Nothing);
const PARTIAL: Reply = Reply::Read(Incoming::Message { done: false });
const FINAL: Reply = Reply::Read(Incoming::Message { done: true });

#[test]
fn partials_are_read_before_the_end_is_announced() {
    let transfer = run(
        2,
        true,
        &[
            (Request::SendFrame(0), Reply::Completed),
            (Request::Read, PARTIAL),
            (Request::Read, NOTHING),
            (Request::Pace, Reply::Completed),
            (Request::SendFrame(1), Reply::Completed),
            (Request::Read, NOTHING),
            (Request::Pace, Reply::Completed),
            (Request::SendEnd, Reply::Completed),
            (Request::CheckClock, Reply::Waited(0)),
            (Request::PollControl, Reply::Control(None)),
            (Request::Read, FINAL),
        ],
    );
    assert_eq!(transfer.outcome(), Some(Outcome::Done));
    assert_eq!(REALTIME_PAUSE_MS, 50);
}

#[test]
fn without_pacing_frames_follow_at_once() {
    let transfer = run(
        2,
        false,
        &[
            (Request::SendFrame(0), Reply::Completed),
            (Request::Read, Reply::Read(Incoming::Closed)),
            (Request::SendFrame(1), Reply::Failed),
        ],
    );
    assert_eq!(transfer.outcome(), Some(Outcome::Failed(Failure::Transport)));
}

#[test]
fn an_empty_file_has_an_end_too() {
    let waiting = [
        (Request::SendEnd, Reply::Completed),
        (Request::CheckClock, Reply::Waited(1)),
        (Request::PollControl, Reply::Control(None)),
    ];
    let mut closed = waiting.to_vec();
    closed.push((Request::Read, Reply::Read(Incoming::Closed)));
    assert_eq!(
        run(0, true, &closed).outcome(),
        Some(Outcome::Failed(Failure::ClosedBeforeDone))
    );
    let cancelled = [
        waiting[0],
        waiting[1],
        (Request::PollControl, Reply::Control(Some(Control::Cancel))),
        (Request::CloseCancelled, Reply::Completed),
    ];
    assert_eq!(
        run(0, true, &cancelled).outcome(),
        Some(Outcome::Failed(Failure::ClosedBeforeDone))
    );
}

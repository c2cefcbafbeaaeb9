//! What holds of every live session, whatever its driver reports.

use crate::protocol::{
    answers, Control, Failure, Incoming, Outcome, Reply, Request, DONE_TIMEOUT_MS,
};
use crate::session::{stage_request, Session, Stage};
use crate::transcript::announced_at_the_end;
use crate::wait::WaitStage;
use vstd::prelude::*;

verus! {

/// The session after a history of replies.
pub open spec fn after(history: Seq<Reply>) -> Session
    decreases history.len(),
{
    if history.len() == 0 {
        Session::fresh()
    } else {
        after(history.drop_last()).next(history.last())
    }
}

/// Every reply of the history answered what the session had asked.
pub open spec fn genuine(history: Seq<Reply>) -> bool
    decreases history.len(),
{
    history.len() > 0 ==> {
        &&& genuine(history.drop_last())
        &&& answers(after(history.drop_last()).asks(), history.last())
    }
}

/// What the session asked for as its `i`-th request.
pub open spec fn asked(history: Seq<Reply>, i: int) -> Request {
    after(history.take(i)).asks()
}

/// How far along its course a stage lies. The loop of a live session counts as one place.
spec fn place(stage: Stage) -> int {
    match stage {
        Stage::Connecting => 0,
        Stage::Unblocking => 1,
        Stage::Configuring => 2,
        Stage::Polling
        | Stage::Listening
        | Stage::SendingLive
        | Stage::ReadingLive
        | Stage::Resting
        | Stage::CheckingDevice => 3,
        Stage::Draining | Stage::SendingDrained | Stage::ReadingDrained => 4,
        Stage::CheckingOverflow => 5,
        Stage::SendingTail => 6,
        Stage::SendingEnd => 7,
        Stage::Waiting(_) => 8,
        Stage::Cancelling => 9,
        Stage::Over(_) => 10,
    }
}

proof fn lemma_place_moves_on(history: Seq<Reply>, i: int)
    requires
        genuine(history),
        0 <= i <= history.len(),
    ensures
        genuine(history.take(i)),
        place(after(history.take(i)).stage) <= place(after(history).stage),
        i < history.len() && 5 <= place(after(history.take(i)).stage) <= 7 ==> place(
            after(history.take(i)).stage,
        ) < place(after(history).stage),
    decreases history.len(),
{
    if i == history.len() {
        assert(history.take(i) =~= history);
    } else {
        let shorter = history.drop_last();
        assert(history.take(i) =~= shorter.take(i));
        lemma_place_moves_on(shorter, i);
    }
}

proof fn lemma_step_of_history(history: Seq<Reply>, i: int)
    requires
        genuine(history),
        0 <= i < history.len(),
    ensures
        genuine(history.take(i)),
        genuine(history.take(i + 1)),
        answers(asked(history, i), history[i]),
        after(history.take(i + 1)) == after(history.take(i)).next(history[i]),
    decreases history.len(),
{
    lemma_place_moves_on(history, i);
    lemma_place_moves_on(history, i + 1);
    let upto = history.take(i + 1);
    assert(upto.drop_last() =~= history.take(i));
    assert(upto.last() == history[i]);
}

/// Once the session is over it stays as it is.
pub proof fn law_over_is_final(history: Seq<Reply>)
    requires
        genuine(history),
        after(history).stage is Over,
    ensures
        after(history).asks() == Request::Nothing,
        forall|reply: Reply| !answers(after(history).asks(), reply),
{
}

/// The end of the audio is announced once, and no audio is taken, sent or waited for after it.
pub proof fn law_no_audio_after_the_end(history: Seq<Reply>, i: int, j: int)
    requires
        genuine(history),
        0 <= i < j <= history.len(),
        asked(history, i) == Request::SendEnd,
    ensures
        asked(history, j) != Request::SendEnd,
        asked(history, j) != Request::SendChunk,
        asked(history, j) != Request::SendTail,
        asked(history, j) != Request::AwaitAudio,
        asked(history, j) != Request::TakeAudio,
{
    lemma_place_moves_on(history, j);
    let upto = history.take(j);
    lemma_place_moves_on(upto, i);
    assert(upto.take(i) =~= history.take(i));
}

/// No captured chunk is lost on the way: whenever one has been taken, it is sent next.
pub proof fn law_taken_audio_is_sent(history: Seq<Reply>)
    requires
        genuine(history),
        history.len() > 0,
        history.last() is Chunk,
    ensures
        after(history).asks() == Request::SendChunk,
{
}

/// Whether the capture queue was found empty after a release.
pub open spec fn was_drained(history: Seq<Reply>) -> bool {
    exists|i: int|
        0 <= i < history.len() && #[trigger] asked(history, i) == Request::TakeAudio && (history[i]
            is NoAudio || history[i] is AudioClosed)
}

/// Whether the capture queue was found not to have overflowed.
pub open spec fn was_complete(history: Seq<Reply>) -> bool {
    exists|i: int|
        0 <= i < history.len() && #[trigger] asked(history, i) == Request::CheckOverflow
            && history[i] == Reply::Overflow(false)
}

/// Whether the end of the audio was announced.
pub open spec fn was_ended(history: Seq<Reply>) -> bool {
    exists|i: int|
        0 <= i < history.len() && #[trigger] asked(history, i) == Request::SendEnd && history[i]
            is Completed
}

/// Whether the user released the key.
pub open spec fn was_released(history: Seq<Reply>) -> bool {
    exists|i: int|
        0 <= i < history.len() && #[trigger] asked(history, i) == Request::PollControl
            && history[i] == Reply::Control(Some(Control::Release))
}

/// The stages that a session can only reach by way of the end announcement.
spec fn past_end(stage: Stage) -> bool {
    stage is Waiting || stage == Stage::Over(Outcome::Done)
}

proof fn lemma_earlier_requests_stay(history: Seq<Reply>)
    requires
        history.len() > 0,
    ensures
        forall|i: int|
            0 <= i <= history.len() - 1 ==> #[trigger] asked(history, i) == asked(
                history.drop_last(),
                i,
            ),
        was_drained(history.drop_last()) ==> was_drained(history),
        was_complete(history.drop_last()) ==> was_complete(history),
        was_ended(history.drop_last()) ==> was_ended(history),
        was_released(history.drop_last()) ==> was_released(history),
        asked(history, history.len() - 1) == after(history.drop_last()).asks(),
{
    let shorter = history.drop_last();
    assert forall|i: int| 0 <= i <= history.len() - 1 implies #[trigger] asked(history, i) == asked(
        shorter,
        i,
    ) by {
        assert(history.take(i) =~= shorter.take(i));
    }
    assert(shorter.take(history.len() - 1) =~= shorter);
    if was_drained(shorter) {
        let i = choose|i: int|
            0 <= i < shorter.len() && #[trigger] asked(shorter, i) == Request::TakeAudio && (
            shorter[i] is NoAudio || shorter[i] is AudioClosed);
        assert(asked(history, i) == Request::TakeAudio);
    }
    if was_complete(shorter) {
        let i = choose|i: int|
            0 <= i < shorter.len() && #[trigger] asked(shorter, i) == Request::CheckOverflow
                && shorter[i] == Reply::Overflow(false);
        assert(asked(history, i) == Request::CheckOverflow);
    }
    if was_ended(shorter) {
        let i = choose|i: int|
            0 <= i < shorter.len() && #[trigger] asked(shorter, i) == Request::SendEnd && shorter[i]
                is Completed;
        assert(asked(history, i) == Request::SendEnd);
    }
    if was_released(shorter) {
        let i = choose|i: int|
            0 <= i < shorter.len() && #[trigger] asked(shorter, i) == Request::PollControl
                && shorter[i] == Reply::Control(Some(Control::Release));
        assert(asked(history, i) == Request::PollControl);
    }
}

proof fn lemma_milestones(history: Seq<Reply>)
    requires
        genuine(history),
    ensures
        4 <= place(after(history).stage) <= 8 ==> was_released(history),
        5 <= place(after(history).stage) <= 8 ==> was_drained(history),
        6 <= place(after(history).stage) <= 8 ==> was_complete(history),
        past_end(after(history).stage) ==> was_released(history) && was_drained(history)
            && was_complete(history) && was_ended(history),
    decreases history.len(),
{
    if history.len() > 0 {
        let shorter = history.drop_last();
        let before = after(shorter).stage;
        let n = history.len() - 1;
        lemma_milestones(shorter);
        lemma_earlier_requests_stay(history);
        assert(asked(history, n) == stage_request(before));
        assert(history[n] == history.last());
    }
}

/// The user only gets a result for complete audio: a session that ended well had been
/// released, had emptied the capture queue, had found that nothing was dropped, and had
/// announced the end of the audio.
pub proof fn law_result_only_for_complete_audio(history: Seq<Reply>)
    requires
        genuine(history),
        after(history).stage == Stage::Over(Outcome::Done),
    ensures
        was_released(history),
        was_drained(history),
        was_complete(history),
        was_ended(history),
{
    lemma_milestones(history);
}

/// Before the end is announced the capture queue has been emptied, and nothing was dropped.
pub proof fn law_drained_before_the_end(history: Seq<Reply>)
    requires
        genuine(history),
        after(history).asks() == Request::SendEnd,
    ensures
        was_released(history),
        was_drained(history),
        was_complete(history),
{
    lemma_milestones(history);
}

/// A session that ended well got the backend's final message as its last reply.
pub proof fn law_result_comes_with_the_final_message(history: Seq<Reply>)
    requires
        genuine(history),
        after(history).stage == Stage::Over(Outcome::Done),
    ensures
        history.len() > 0,
        history.last() == Reply::Read(Incoming::Message { done: true }),
        after(history.drop_last()).stage == Stage::Waiting(WaitStage::Read),
{
}

/// Dropped audio is an error, never a result: once an overflow is reported the session has
/// failed for that reason.
pub proof fn law_overflow_is_an_error(history: Seq<Reply>, i: int)
    requires
        genuine(history),
        0 <= i < history.len(),
        history[i] == Reply::Overflow(true),
    ensures
        i == history.len() - 1,
        after(history).stage == Stage::Over(Outcome::Failed(Failure::QueueOverflow)),
{
    lemma_step_of_history(history, i);
    let over = history.take(i + 1);
    if i + 1 < history.len() {
        lemma_step_of_history(history, i + 1);
    } else {
        assert(over =~= history);
    }
}

/// A cancellation is always heeded at once: the next request closes the socket, and then the
/// session is over as cancelled, whether it was still recording or waiting for the result.
pub proof fn law_cancel_is_heeded(history: Seq<Reply>, i: int)
    requires
        genuine(history),
        0 <= i < history.len(),
        history[i] == Reply::Control(Some(Control::Cancel)),
    ensures
        asked(history, i + 1) == Request::CloseCancelled,
        history.len() <= i + 2,
        history.len() == i + 2 ==> after(history).stage == Stage::Over(Outcome::Cancelled),
{
    lemma_step_of_history(history, i);
    if history.len() >= i + 2 {
        lemma_step_of_history(history, i + 1);
        if history.len() >= i + 3 {
            lemma_step_of_history(history, i + 2);
        } else {
            assert(history.take(i + 2) =~= history);
        }
    }
}

/// While a session waits for the result, every read is preceded by a look at the clock, which
/// had not run out, and by a look for a cancellation, which had not come.
pub proof fn law_every_wait_round_checks(history: Seq<Reply>)
    requires
        genuine(history),
        after(history).stage == Stage::Waiting(WaitStage::Read),
    ensures
        history.len() >= 2,
        history[history.len() - 1] is Control,
        history[history.len() - 1] != Reply::Control(Some(Control::Cancel)),
        history[history.len() - 2] matches Reply::Waited(ms) && ms < DONE_TIMEOUT_MS,
{
    let before = history.drop_last();
    assert(after(before).stage == Stage::Waiting(WaitStage::Control));
    assert(before.last() == history[history.len() - 2]);
}

/// A session does not wait for ever: once the time is up it has failed for that reason.
pub proof fn law_deadline_is_heeded(history: Seq<Reply>, i: int)
    requires
        genuine(history),
        0 <= i < history.len(),
        history[i] matches Reply::Waited(ms) && ms >= DONE_TIMEOUT_MS,
    ensures
        i == history.len() - 1,
        after(history).stage == Stage::Over(Outcome::Failed(Failure::DoneTimeout)),
{
    lemma_step_of_history(history, i);
    if i + 1 < history.len() {
        lemma_step_of_history(history, i + 1);
    } else {
        assert(history.take(i + 1) =~= history);
    }
}

/// How often the session has asked for something that has been answered.
pub open spec fn times_asked(history: Seq<Reply>, request: Request) -> nat
    decreases history.len(),
{
    if history.len() == 0 {
        0
    } else {
        let before = history.drop_last();
        times_asked(before, request) + if after(before).asks() == request {
            1nat
        } else {
            0nat
        }
    }
}

/// A session closes its socket as cancelled, and so reports that it was, exactly once if it
/// ends that way, and never otherwise.
pub proof fn law_cancelled_once_or_never(history: Seq<Reply>)
    requires
        genuine(history),
    ensures
        times_asked(history, Request::CloseCancelled) == if after(history).stage == Stage::Over(
            Outcome::Cancelled,
        ) {
            1nat
        } else {
            0nat
        },
    decreases history.len(),
{
    if history.len() > 0 {
        law_cancelled_once_or_never(history.drop_last());
    }
}

/// The user is told once how a session ended: either that it was cancelled, when its socket is
/// closed, or by the event that its end brings.
pub proof fn law_one_ending_is_reported(history: Seq<Reply>, outcome: Outcome)
    requires
        genuine(history),
        after(history).stage == Stage::Over(outcome),
    ensures
        times_asked(history, Request::CloseCancelled) + (if announced_at_the_end(outcome) {
            1nat
        } else {
            0nat
        }) == 1,
{
    law_cancelled_once_or_never(history);
}

/// A session that is cancelled before the key is released never announces an end.
pub proof fn law_cancelled_recording_sends_no_end(history: Seq<Reply>, i: int, j: int)
    requires
        genuine(history),
        0 <= i < history.len(),
        after(history.take(i)).stage == Stage::Polling,
        history[i] == Reply::Control(Some(Control::Cancel)),
        0 <= j <= history.len(),
    ensures
        asked(history, j) != Request::SendEnd,
{
    if j <= i {
        let upto = history.take(i);
        lemma_place_moves_on(history, i);
        lemma_place_moves_on(upto, j);
        assert(upto.take(j) =~= history.take(j));
    } else {
        law_cancel_is_heeded(history, i);
        if j == history.len() {
            assert(history.take(j) =~= history);
        }
    }
}

/// Whether the capture was found to have ended while the session was recording.
pub open spec fn capture_ended(history: Seq<Reply>) -> bool {
    exists|i: int|
        0 <= i < history.len() && #[trigger] asked(history, i) == Request::AwaitAudio && history[i]
            is AudioClosed
}

/// Milestones come from earlier replies or from the last one.
proof fn lemma_milestones_step(history: Seq<Reply>)
    requires
        history.len() > 0,
    ensures
        was_released(history) <==> was_released(history.drop_last()) || (after(
            history.drop_last(),
        ).asks() == Request::PollControl && history.last() == Reply::Control(
            Some(Control::Release),
        )),
        was_ended(history) <==> was_ended(history.drop_last()) || (after(
            history.drop_last(),
        ).asks() == Request::SendEnd && history.last() is Completed),
        capture_ended(history) <==> capture_ended(history.drop_last()) || (after(
            history.drop_last(),
        ).asks() == Request::AwaitAudio && history.last() is AudioClosed),
{
    let shorter = history.drop_last();
    let n = history.len() - 1;
    lemma_earlier_requests_stay(history);
    assert(asked(history, n) == after(shorter).asks());
    assert(history[n] == history.last());
    assert forall|i: int| 0 <= i < n implies #[trigger] asked(history, i) == asked(shorter, i)
        && history[i] == shorter[i] by {
    }
    if was_released(history) {
        let i = choose|i: int|
            0 <= i < history.len() && #[trigger] asked(history, i) == Request::PollControl
                && history[i] == Reply::Control(Some(Control::Release));
        if i < n {
            assert(asked(shorter, i) == Request::PollControl);
        }
    }
    if was_ended(history) {
        let i = choose|i: int|
            0 <= i < history.len() && #[trigger] asked(history, i) == Request::SendEnd && history[i]
                is Completed;
        if i < n {
            assert(asked(shorter, i) == Request::SendEnd);
        }
    }
    if capture_ended(history) {
        let i = choose|i: int|
            0 <= i < history.len() && #[trigger] asked(history, i) == Request::AwaitAudio
                && history[i] is AudioClosed;
        if i < n {
            assert(asked(shorter, i) == Request::AwaitAudio);
        }
    }
    if capture_ended(shorter) {
        let i = choose|i: int|
            0 <= i < shorter.len() && #[trigger] asked(shorter, i) == Request::AwaitAudio
                && shorter[i] is AudioClosed;
        assert(asked(history, i) == Request::AwaitAudio);
    }
}

/// How a session's stage goes with what has happened so far.
proof fn lemma_phase(history: Seq<Reply>)
    requires
        genuine(history),
    ensures
        place(after(history).stage) <= 3 ==> !was_released(history),
        4 <= place(after(history).stage) <= 8 ==> was_released(history),
        place(after(history).stage) <= 7 ==> !was_ended(history),
        place(after(history).stage) == 8 ==> was_ended(history),
        after(history).stage == Stage::Cancelling ==> !was_ended(history),
        after(history).audio_closed == capture_ended(history),
    decreases history.len(),
{
    if history.len() > 0 {
        lemma_phase(history.drop_last());
        lemma_milestones_step(history);
    }
}

/// A session opens in this order: it connects, makes the socket non-blocking, sends its
/// configuration, and then looks for the first command. None of these steps can end it but by
/// failing.
pub proof fn law_session_opens_in_order(history: Seq<Reply>)
    requires
        genuine(history),
    ensures
        history.len() == 0 ==> after(history).asks() == Request::Connect,
        history.len() > 0 && history.last() is Completed ==> {
            let done = asked(history, history.len() - 1);
            &&& done == Request::Connect ==> after(history).asks() == Request::SetNonblocking
            &&& done == Request::SetNonblocking ==> after(history).asks() == Request::SendConfig
            &&& done == Request::SendConfig ==> after(history).asks() == Request::PollControl
        },
{
    if history.len() > 0 {
        lemma_earlier_requests_stay(history);
    }
}

/// While the key is held a session keeps recording. Without a command it waits for audio or,
/// once capture has ended, only reads. Audio that came is sent, and then, as when none came, the
/// socket is read. Unless the device has failed, the next round begins with a look for a
/// command. A round without audio from an ended capture takes a rest.
pub proof fn law_recording_goes_on(history: Seq<Reply>)
    requires
        genuine(history),
        history.len() > 0,
        !was_released(history),
    ensures
        ({
            let done = asked(history, history.len() - 1);
            let now = after(history).asks();
            &&& history.last() == Reply::Control(None) ==> now == if capture_ended(history) {
                Request::Read
            } else {
                Request::AwaitAudio
            }
            &&& done == Request::AwaitAudio && history.last() is Chunk ==> now == Request::SendChunk
            &&& done == Request::AwaitAudio && history.last() is NoAudio ==> now == Request::Read
            &&& done == Request::AwaitAudio && history.last() is AudioClosed ==> now
                == Request::TakeDeviceError
            &&& done == Request::SendChunk && history.last() is Completed ==> now == Request::Read
            &&& done == Request::Pause ==> now == Request::TakeDeviceError
            &&& history.last() == Reply::DeviceError(false) ==> now == Request::PollControl
        }),
{
    lemma_earlier_requests_stay(history);
    lemma_milestones_step(history);
    lemma_phase(history.drop_last());
    lemma_phase(history);
    let before = after(history.drop_last());
    if before.stage is Waiting || 4 <= place(before.stage) <= 8 {
        assert(was_released(history));
    }
}

/// What the backend says before the end is announced never ends a session. After a message, the
/// last or not, and after a frame of another kind the socket is read again. When there is
/// nothing more to read, or the backend has closed the connection, the session goes back to its
/// audio: after a release to what is left of it, otherwise to the next round of recording.
pub proof fn law_reading_never_ends_the_recording(history: Seq<Reply>, incoming: Incoming)
    requires
        genuine(history),
        history.len() > 0,
        history.last() == Reply::Read(incoming),
        !was_ended(history),
    ensures
        !(after(history).stage is Over),
        after(history).asks() == match incoming {
            Incoming::Message { .. } | Incoming::Other => Request::Read,
            Incoming::Closed | Incoming::Nothing => if was_released(history) {
                Request::TakeAudio
            } else if capture_ended(history) {
                Request::Pause
            } else {
                Request::TakeDeviceError
            },
        },
{
    lemma_milestones_step(history);
    lemma_phase(history.drop_last());
}

/// A release is heeded: from then on the capture queue is emptied chunk by chunk, each of them
/// being sent and followed by a read. When nothing is left and nothing was dropped, the tail is
/// sent, the end is announced, and the wait for the result begins.
pub proof fn law_release_leads_to_the_end(history: Seq<Reply>)
    requires
        genuine(history),
        history.len() > 0,
    ensures
        ({
            let done = asked(history, history.len() - 1);
            let now = after(history).asks();
            &&& history.last() == Reply::Control(Some(Control::Release)) && !was_released(
                history.drop_last(),
            ) ==> now == Request::TakeAudio
            &&& done == Request::TakeAudio && history.last() is Chunk ==> now == Request::SendChunk
            &&& done == Request::TakeAudio && !(history.last() is Chunk) ==> now
                == Request::CheckOverflow
            &&& done == Request::SendChunk && history.last() is Completed ==> now == Request::Read
            &&& history.last() == Reply::Overflow(false) ==> now == Request::SendTail
            &&& done == Request::SendTail && history.last() is Completed ==> now == Request::SendEnd
            &&& done == Request::SendEnd && history.last() is Completed ==> now
                == Request::CheckClock
        }),
{
    lemma_earlier_requests_stay(history);
    lemma_phase(history.drop_last());
}

/// Once the end has been announced a session waits in rounds: as long as the time is not up it
/// looks for a cancellation and then reads. Only the final message makes it a success, and only
/// a close or the deadline a failure of the wait; a message that is not the last one, and a frame
/// of another kind, lead to the next round at once, and silence does after a rest. A second
/// release changes nothing.
pub proof fn law_wait_goes_on_until_the_final_message(history: Seq<Reply>)
    requires
        genuine(history),
        history.len() > 0,
        was_ended(history.drop_last()),
    ensures
        ({
            let now = after(history);
            let round = !(now.stage is Over) && now.asks() == Request::CheckClock;
            &&& history.last() matches Reply::Waited(ms) ==> ms < DONE_TIMEOUT_MS ==> now.asks()
                == Request::PollControl
            &&& history.last() matches Reply::Control(command) ==> command != Some(Control::Cancel)
                ==> now.asks() == Request::Read
            &&& history.last() == Reply::Read(Incoming::Message { done: false }) ==> round
            &&& history.last() == Reply::Read(Incoming::Other) ==> round
            &&& history.last() == Reply::Read(Incoming::Nothing) ==> now.asks() == Request::Pause
            &&& asked(history, history.len() - 1) == Request::Pause ==> round
            &&& history.last() == Reply::Read(Incoming::Message { done: true }) ==> now.stage
                == Stage::Over(Outcome::Done)
            &&& history.last() == Reply::Read(Incoming::Closed) ==> now.stage == Stage::Over(
                Outcome::Failed(Failure::ClosedBeforeDone),
            )
        }),
{
    lemma_earlier_requests_stay(history);
    lemma_phase(history.drop_last());
    lemma_ended_stays(history.drop_last());
}

proof fn lemma_ended_stays(history: Seq<Reply>)
    requires
        genuine(history),
        was_ended(history),
    ensures
        after(history).stage is Waiting || after(history).stage is Over,
{
    lemma_phase(history);
}

/// A failed request ends a session at once, and so does an error of the capture device, each as
/// that failure.
pub proof fn law_failures_are_heeded(history: Seq<Reply>)
    requires
        genuine(history),
        history.len() > 0,
    ensures
        history.last() is Failed ==> after(history).stage == Stage::Over(
            Outcome::Failed(Failure::Transport),
        ),
        history.last() == Reply::DeviceError(true) ==> after(history).stage == Stage::Over(
            Outcome::Failed(Failure::Device),
        ),
{
}

/// A session ends only for a reason, which its outcome names: the final message after the end
/// was announced, a cancellation whose socket has been closed, a failed request, an error of the
/// device, dropped audio, a deadline that has passed, or a connection that the backend closed
/// after the end was announced.
pub proof fn law_over_only_for_a_reason(history: Seq<Reply>, outcome: Outcome)
    requires
        genuine(history),
        after(history).stage == Stage::Over(outcome),
    ensures
        history.len() > 0,
        match outcome {
            Outcome::Done => {
                &&& history.last() == Reply::Read(Incoming::Message { done: true })
                &&& was_ended(history.drop_last())
            },
            Outcome::Cancelled => {
                &&& history.len() > 1
                &&& history[history.len() - 2] == Reply::Control(Some(Control::Cancel))
                &&& asked(history, history.len() - 1) == Request::CloseCancelled
            },
            Outcome::Failed(Failure::Transport) => history.last() is Failed,
            Outcome::Failed(Failure::Device) => history.last() == Reply::DeviceError(true),
            Outcome::Failed(Failure::QueueOverflow) => history.last() == Reply::Overflow(true),
            Outcome::Failed(Failure::DoneTimeout) => history.last() matches Reply::Waited(ms) && ms
                >= DONE_TIMEOUT_MS,
            Outcome::Failed(Failure::ClosedBeforeDone) => {
                &&& history.last() == Reply::Read(Incoming::Closed)
                &&& was_ended(history.drop_last())
            },
        },
{
    let shorter = history.drop_last();
    let before = after(shorter);
    assert(history.len() > 0);
    lemma_phase(shorter);
    lemma_earlier_requests_stay(history);
    if outcome is Cancelled {
        assert(shorter.len() > 0);
        assert(after(shorter.drop_last()).next(shorter.last()) == before);
        assert(shorter.last() == history[history.len() - 2]);
    }
}

} // verus!

//! Waiting for the final result once the end of the audio has been announced.

use crate::protocol::{
    answers, Control, Failure, Incoming, Outcome, Reply, Request, DONE_TIMEOUT_MS,
};
use vstd::prelude::*;

verus! {

/// Where the wait for the final result stands.
#[derive(Debug, Clone, Copy, PartialEq, Eq, Structural)]
pub enum WaitStage {
    Clock,
    Control,
    Read,
    Pause,
    Cancelling,
    Over(Outcome),
}

/// What the wait for the final result asks for at each stage.
pub open spec fn wait_request(stage: WaitStage) -> Request {
    match stage {
        WaitStage::Clock => Request::CheckClock,
        WaitStage::Control => Request::PollControl,
        WaitStage::Read => Request::Read,
        WaitStage::Pause => Request::Pause,
        WaitStage::Cancelling => Request::CloseCancelled,
        WaitStage::Over(_) => Request::Nothing,
    }
}

/// How the wait goes on: each round looks at the clock, then for a cancellation, then at the
/// socket. Only a cancellation matters among the control commands.
pub open spec fn wait_next(stage: WaitStage, reply: Reply) -> WaitStage {
    match (stage, reply) {
        (_, Reply::Failed) => WaitStage::Over(Outcome::Failed(Failure::Transport)),
        (WaitStage::Clock, Reply::Waited(ms)) => if ms >= DONE_TIMEOUT_MS {
            WaitStage::Over(Outcome::Failed(Failure::DoneTimeout))
        } else {
            WaitStage::Control
        },
        (WaitStage::Control, Reply::Control(Some(Control::Cancel))) => WaitStage::Cancelling,
        (WaitStage::Control, _) => WaitStage::Read,
        (WaitStage::Read, Reply::Read(incoming)) => match incoming {
            Incoming::Message { done } => if done {
                WaitStage::Over(Outcome::Done)
            } else {
                WaitStage::Clock
            },
            Incoming::Closed => WaitStage::Over(Outcome::Failed(Failure::ClosedBeforeDone)),
            Incoming::Other => WaitStage::Clock,
            Incoming::Nothing => WaitStage::Pause,
        },
        (WaitStage::Pause, _) => WaitStage::Clock,
        (WaitStage::Cancelling, _) => WaitStage::Over(Outcome::Cancelled),
        _ => stage,
    }
}

/// Tells what the wait for the final result asks for.
pub fn wait_request_at(stage: WaitStage) -> (res: Request)
    ensures
        res == wait_request(stage),
{
    match stage {
        WaitStage::Clock => Request::CheckClock,
        WaitStage::Control => Request::PollControl,
        WaitStage::Read => Request::Read,
        WaitStage::Pause => Request::Pause,
        WaitStage::Cancelling => Request::CloseCancelled,
        WaitStage::Over(_) => Request::Nothing,
    }
}

/// Takes the wait for the final result one step further.
pub fn wait_step(stage: WaitStage, reply: Reply) -> (res: WaitStage)
    requires
        answers(wait_request(stage), reply),
    ensures
        res == wait_next(stage, reply),
{
    if matches!(reply, Reply::Failed) {
        return WaitStage::Over(Outcome::Failed(Failure::Transport));
    }
    match stage {
        WaitStage::Clock => match reply {
            Reply::Waited(ms) if ms >= DONE_TIMEOUT_MS => WaitStage::Over(
                Outcome::Failed(Failure::DoneTimeout),
            ),
            _ => WaitStage::Control,
        },
        WaitStage::Control => match reply {
            Reply::Control(Some(Control::Cancel)) => WaitStage::Cancelling,
            _ => WaitStage::Read,
        },
        WaitStage::Read => match reply {
            Reply::Read(Incoming::Message { done: true }) => WaitStage::Over(Outcome::Done),
            Reply::Read(Incoming::Closed) => WaitStage::Over(
                Outcome::Failed(Failure::ClosedBeforeDone),
            ),
            Reply::Read(Incoming::Nothing) => WaitStage::Pause,
            _ => WaitStage::Clock,
        },
        WaitStage::Pause => WaitStage::Clock,
        WaitStage::Cancelling => WaitStage::Over(Outcome::Cancelled),
        WaitStage::Over(_) => stage,
    }
}

/// What one round of the wait brings: the time waited so far, a command, and what came off the
/// socket.
pub struct Round {
    pub waited: u128,
    pub command: Option<Control>,
    pub incoming: Incoming,
}

/// The wait after a history of replies, from its first look at the clock on.
pub open spec fn wait_after(history: Seq<Reply>) -> WaitStage
    decreases history.len(),
{
    if history.len() == 0 {
        WaitStage::Clock
    } else {
        wait_next(wait_after(history.drop_last()), history.last())
    }
}

/// The replies of a round. A silent socket is followed by a rest.
pub open spec fn round_replies(round: Round) -> Seq<Reply> {
    let read = seq![
        Reply::Waited(round.waited),
        Reply::Control(round.command),
        Reply::Read(round.incoming),
    ];
    if round.incoming is Nothing {
        read.push(Reply::Completed)
    } else {
        read
    }
}

/// The replies of several rounds, one after the other.
pub open spec fn rounds_replies(rounds: Seq<Round>) -> Seq<Reply>
    decreases rounds.len(),
{
    if rounds.len() == 0 {
        Seq::empty()
    } else {
        rounds_replies(rounds.drop_last()) + round_replies(rounds.last())
    }
}

/// Whether a round leaves the wait where it was: the time is not up, no one cancels, and the
/// socket brings neither the final message nor a close.
pub open spec fn uneventful(round: Round) -> bool {
    &&& round.waited < DONE_TIMEOUT_MS
    &&& round.command != Some(Control::Cancel)
    &&& round.incoming != (Incoming::Message { done: true })
    &&& round.incoming != Incoming::Closed
}

proof fn lemma_wait_after_round(before: Seq<Reply>, round: Round)
    requires
        wait_after(before) == WaitStage::Clock,
        round.waited < DONE_TIMEOUT_MS,
        round.command != Some(Control::Cancel),
    ensures
        wait_after(before + round_replies(round)) == match round.incoming {
            Incoming::Message { done: true } => WaitStage::Over(Outcome::Done),
            Incoming::Closed => WaitStage::Over(Outcome::Failed(Failure::ClosedBeforeDone)),
            _ => WaitStage::Clock,
        },
{
    let all = before + round_replies(round);
    let one = before.push(Reply::Waited(round.waited));
    let two = one.push(Reply::Control(round.command));
    let three = two.push(Reply::Read(round.incoming));
    assert(one.drop_last() =~= before);
    assert(two.drop_last() =~= one);
    assert(three.drop_last() =~= two);
    assert(wait_after(one) == WaitStage::Control);
    assert(wait_after(two) == WaitStage::Read);
    if round.incoming is Nothing {
        assert(all =~= three.push(Reply::Completed));
        assert(all.drop_last() =~= three);
        assert(wait_after(three) == WaitStage::Pause);
    } else {
        assert(all =~= three);
    }
}

/// The wait is patient: however many rounds bring messages that are not the last one, frames of
/// another kind, or nothing, it begins the next round; the final message then makes it a success,
/// and a close a failure.
pub proof fn law_wait_is_patient(rounds: Seq<Round>, last: Round)
    requires
        forall|i: int| 0 <= i < rounds.len() ==> uneventful(#[trigger] rounds[i]),
        last.waited < DONE_TIMEOUT_MS,
        last.command != Some(Control::Cancel),
    ensures
        wait_after(rounds_replies(rounds)) == WaitStage::Clock,
        last.incoming == (Incoming::Message { done: true }) ==> wait_after(
            rounds_replies(rounds) + round_replies(last),
        ) == WaitStage::Over(Outcome::Done),
        last.incoming == Incoming::Closed ==> wait_after(
            rounds_replies(rounds) + round_replies(last),
        ) == WaitStage::Over(Outcome::Failed(Failure::ClosedBeforeDone)),
    decreases rounds.len(),
{
    if rounds.len() > 0 {
        let fewer = rounds.drop_last();
        assert forall|i: int| 0 <= i < fewer.len() implies uneventful(#[trigger] fewer[i]) by {
            assert(fewer[i] == rounds[i]);
        }
        law_wait_is_patient(fewer, last);
        assert(uneventful(rounds[rounds.len() - 1]));
        lemma_wait_after_round(rounds_replies(fewer), rounds.last());
    }
    lemma_wait_after_round(rounds_replies(rounds), last);
}

/// A round of the wait looks at the clock, then for a command, then at the socket, and rests
/// after silence.
pub proof fn law_wait_round_in_order(before: Seq<Reply>, round: Round)
    requires
        wait_after(before) == WaitStage::Clock,
        round.waited < DONE_TIMEOUT_MS,
        round.command != Some(Control::Cancel),
    ensures
        ({
            let one = before.push(Reply::Waited(round.waited));
            let two = one.push(Reply::Control(round.command));
            &&& wait_request(wait_after(before)) == Request::CheckClock
            &&& wait_request(wait_after(one)) == Request::PollControl
            &&& wait_request(wait_after(two)) == Request::Read
            &&& wait_request(
                wait_after(two.push(Reply::Read(Incoming::Nothing))),
            ) == Request::Pause
        }),
{
    let one = before.push(Reply::Waited(round.waited));
    let two = one.push(Reply::Control(round.command));
    let three = two.push(Reply::Read(Incoming::Nothing));
    assert(one.drop_last() =~= before);
    assert(two.drop_last() =~= one);
    assert(three.drop_last() =~= two);
}

/// The wait ends only for a reason, which its outcome names, and otherwise goes on.
pub proof fn law_wait_ends_only_for_a_reason(stage: WaitStage, reply: Reply)
    requires
        answers(wait_request(stage), reply),
    ensures
        match reply {
            Reply::Failed => wait_next(stage, reply) == WaitStage::Over(
                Outcome::Failed(Failure::Transport),
            ),
            Reply::Waited(ms) if ms >= DONE_TIMEOUT_MS => wait_next(stage, reply)
                == WaitStage::Over(Outcome::Failed(Failure::DoneTimeout)),
            Reply::Read(Incoming::Closed) => wait_next(stage, reply) == WaitStage::Over(
                Outcome::Failed(Failure::ClosedBeforeDone),
            ),
            Reply::Read(Incoming::Message { done: true }) => wait_next(stage, reply)
                == WaitStage::Over(Outcome::Done),
            Reply::Control(Some(Control::Cancel)) => {
                &&& wait_request(wait_next(stage, reply)) == Request::CloseCancelled
                &&& wait_next(wait_next(stage, reply), Reply::Completed) == WaitStage::Over(
                    Outcome::Cancelled,
                )
            },
            _ => wait_next(stage, reply) is Over <==> wait_request(stage)
                == Request::CloseCancelled,
        },
        wait_request(stage) == Request::Nothing <==> stage is Over,
        wait_request(stage) == Request::Pause ==> wait_request(wait_next(stage, reply))
            == Request::CheckClock,
{
}

/// The backend has two minutes for the final result.
pub proof fn law_deadline_is_two_minutes()
    ensures
        DONE_TIMEOUT_MS == 2 * 60 * 1000,
{
}

} // verus!

//! The course of a file transfer: the same protocol as a live session, with frames that are
//! all there from the start.

use crate::protocol::{
    answers, Control, Failure, Incoming, Outcome, Reply, Request, DONE_TIMEOUT_MS,
    REALTIME_PAUSE_MS,
};
use crate::resample::TARGET_SAMPLE_RATE;
use crate::session::may_have_more;
use crate::wait::{wait_next, wait_request, wait_request_at, wait_step, WaitStage};
use crate::wire::FILE_FRAME_SAMPLES;
use vstd::prelude::*;

verus! {

/// Where a file transfer stands.
#[derive(Debug, Clone, Copy, PartialEq, Eq, Structural)]
pub enum TransferStage {
    Connecting,
    Unblocking,
    Configuring,
    Sending,
    Reading,
    Pacing,
    SendingEnd,
    Waiting(WaitStage),
    Over(Outcome),
}

/// The transfer of one file.
#[derive(Debug, Clone, Copy, PartialEq, Eq, Structural)]
pub struct Transfer {
    pub stage: TransferStage,
    /// How many frames the file has.
    pub frames: usize,
    /// The number of the frame that is sent next or, between frames, was sent last.
    pub current: usize,
    /// Whether the frames go out at speaking pace.
    pub realtime: bool,
}

impl Transfer {
    /// A transfer that has done nothing yet.
    pub open spec fn fresh(frames: usize, realtime: bool) -> Transfer {
        Transfer { stage: TransferStage::Connecting, frames, current: 0, realtime }
    }

    /// Sending starts with the first frame, and the current frame is one of the file's while
    /// frames are being sent.
    pub open spec fn wf(self) -> bool {
        match self.stage {
            TransferStage::Connecting | TransferStage::Unblocking | TransferStage::Configuring => {
                self.current == 0
            },
            TransferStage::Sending | TransferStage::Reading | TransferStage::Pacing => {
                self.current < self.frames
            },
            _ => true,
        }
    }

    /// The transfer at another stage.
    pub open spec fn at(self, stage: TransferStage) -> Transfer {
        Transfer { stage, ..self }
    }

    /// The transfer once the current frame has been dealt with.
    pub open spec fn past_frame(self) -> Transfer {
        if self.current + 1 < self.frames {
            Transfer {
                stage: TransferStage::Sending,
                current: (self.current + 1) as usize,
                ..self
            }
        } else {
            self.at(TransferStage::SendingEnd)
        }
    }

    /// What the transfer asks for.
    pub open spec fn asks(self) -> Request {
        match self.stage {
            TransferStage::Connecting => Request::Connect,
            TransferStage::Unblocking => Request::SetNonblocking,
            TransferStage::Configuring => Request::SendConfig,
            TransferStage::Sending => Request::SendFrame(self.current),
            TransferStage::Reading => Request::Read,
            TransferStage::Pacing => Request::Pace,
            TransferStage::SendingEnd => Request::SendEnd,
            TransferStage::Waiting(w) => wait_request(w),
            TransferStage::Over(_) => Request::Nothing,
        }
    }

    /// How the transfer goes on: after each frame it reads what the backend has to say and, at
    /// speaking pace, rests. Nothing but the final message makes it a success.
    pub open spec fn next(self, reply: Reply) -> Transfer {
        match self.stage {
            TransferStage::Waiting(w) => match wait_next(w, reply) {
                WaitStage::Over(Outcome::Cancelled) => self.at(
                    TransferStage::Over(Outcome::Failed(Failure::ClosedBeforeDone)),
                ),
                WaitStage::Over(outcome) => self.at(TransferStage::Over(outcome)),
                more => self.at(TransferStage::Waiting(more)),
            },
            _ if reply is Failed => self.at(
                TransferStage::Over(Outcome::Failed(Failure::Transport)),
            ),
            TransferStage::Connecting => self.at(TransferStage::Unblocking),
            TransferStage::Unblocking => self.at(TransferStage::Configuring),
            TransferStage::Configuring => if self.frames == 0 {
                self.at(TransferStage::SendingEnd)
            } else {
                self.at(TransferStage::Sending)
            },
            TransferStage::Sending => self.at(TransferStage::Reading),
            TransferStage::Reading => if may_have_more(reply) {
                self
            } else if self.realtime {
                self.at(TransferStage::Pacing)
            } else {
                self.past_frame()
            },
            TransferStage::Pacing => self.past_frame(),
            TransferStage::SendingEnd => self.at(TransferStage::Waiting(WaitStage::Clock)),
            TransferStage::Over(_) => self,
        }
    }

    /// Starts the transfer of a file with this many frames.
    pub fn new(frames: usize, realtime: bool) -> (res: Transfer)
        ensures
            res == Transfer::fresh(frames, realtime),
            res.wf(),
    {
        Transfer { stage: TransferStage::Connecting, frames, current: 0, realtime }
    }

    /// Tells what the transfer asks for.
    pub fn request(&self) -> (res: Request)
        ensures
            res == self.asks(),
    {
        match self.stage {
            TransferStage::Connecting => Request::Connect,
            TransferStage::Unblocking => Request::SetNonblocking,
            TransferStage::Configuring => Request::SendConfig,
            TransferStage::Sending => Request::SendFrame(self.current),
            TransferStage::Reading => Request::Read,
            TransferStage::Pacing => Request::Pace,
            TransferStage::SendingEnd => Request::SendEnd,
            TransferStage::Waiting(w) => wait_request_at(w),
            TransferStage::Over(_) => Request::Nothing,
        }
    }

    /// Tells how the transfer ended, once it is over.
    pub fn outcome(&self) -> (res: Option<Outcome>)
        ensures
            res == match self.stage {
                TransferStage::Over(outcome) => Some(outcome),
                _ => None,
            },
    {
        match self.stage {
            TransferStage::Over(outcome) => Some(outcome),
            _ => None,
        }
    }

    /// Takes in what came of the transfer's request and decides how to go on.
    pub fn step(&mut self, reply: Reply)
        requires
            old(self).wf(),
            answers(old(self).asks(), reply),
        ensures
            *final(self) == old(self).next(reply),
            final(self).wf(),
    {
        let more: bool = matches!(
            reply,
            Reply::Read(Incoming::Message { done: _ }) | Reply::Read(Incoming::Other)
        );
        let stage: TransferStage = match self.stage {
            TransferStage::Waiting(w) => match wait_step(w, reply) {
                WaitStage::Over(Outcome::Cancelled) => TransferStage::Over(
                    Outcome::Failed(Failure::ClosedBeforeDone),
                ),
                WaitStage::Over(outcome) => TransferStage::Over(outcome),
                next => TransferStage::Waiting(next),
            },
            _ if matches!(reply, Reply::Failed) => TransferStage::Over(
                Outcome::Failed(Failure::Transport),
            ),
            TransferStage::Connecting => TransferStage::Unblocking,
            TransferStage::Unblocking => TransferStage::Configuring,
            TransferStage::Configuring => if self.frames == 0 {
                TransferStage::SendingEnd
            } else {
                TransferStage::Sending
            },
            TransferStage::Sending => TransferStage::Reading,
            TransferStage::Reading if more => TransferStage::Reading,
            TransferStage::Reading if self.realtime => TransferStage::Pacing,
            TransferStage::Reading | TransferStage::Pacing => {
                if self.current + 1 < self.frames {
                    self.current = self.current + 1;
                    TransferStage::Sending
                } else {
                    TransferStage::SendingEnd
                }
            },
            TransferStage::SendingEnd => TransferStage::Waiting(WaitStage::Clock),
            TransferStage::Over(outcome) => TransferStage::Over(outcome),
        };
        self.stage = stage;
    }
}

/// The transfer after a history of replies.
pub open spec fn after(start: Transfer, history: Seq<Reply>) -> Transfer
    decreases history.len(),
{
    if history.len() == 0 {
        start
    } else {
        after(start, history.drop_last()).next(history.last())
    }
}

/// Every reply of the history answered what the transfer had asked.
pub open spec fn genuine(start: Transfer, history: Seq<Reply>) -> bool
    decreases history.len(),
{
    history.len() > 0 ==> {
        &&& genuine(start, history.drop_last())
        &&& answers(after(start, history.drop_last()).asks(), history.last())
    }
}

/// The numbers of the frames that have gone out, in the order in which they did.
pub open spec fn frames_sent(start: Transfer, history: Seq<Reply>) -> Seq<usize>
    decreases history.len(),
{
    if history.len() == 0 {
        Seq::empty()
    } else {
        let before = frames_sent(start, history.drop_last());
        match after(start, history.drop_last()).asks() {
            Request::SendFrame(i) => if history.last() is Completed {
                before.push(i)
            } else {
                before
            },
            _ => before,
        }
    }
}

/// The first `n` frame numbers.
pub open spec fn first_frames(n: nat) -> Seq<usize> {
    Seq::new(n, |i: int| i as usize)
}

spec fn frames_on_track(t: Transfer, sent: Seq<usize>) -> bool {
    match t.stage {
        TransferStage::Connecting | TransferStage::Unblocking | TransferStage::Configuring => {
            t.current == 0 && sent == first_frames(0)
        },
        TransferStage::Sending => t.current < t.frames && sent == first_frames(t.current as nat),
        TransferStage::Reading | TransferStage::Pacing => t.current < t.frames && sent
            == first_frames((t.current + 1) as nat),
        TransferStage::SendingEnd | TransferStage::Waiting(_) => sent == first_frames(
            t.frames as nat,
        ),
        TransferStage::Over(outcome) => outcome is Done ==> sent == first_frames(t.frames as nat),
    }
}

proof fn lemma_frames_stay_on_track(frames: usize, realtime: bool, history: Seq<Reply>)
    requires
        genuine(Transfer::fresh(frames, realtime), history),
    ensures
        frames_on_track(
            after(Transfer::fresh(frames, realtime), history),
            frames_sent(Transfer::fresh(frames, realtime), history),
        ),
        after(Transfer::fresh(frames, realtime), history).frames == frames,
    decreases history.len(),
{
    let start = Transfer::fresh(frames, realtime);
    if history.len() == 0 {
        assert(frames_sent(start, history) =~= first_frames(0));
    } else {
        lemma_frames_stay_on_track(frames, realtime, history.drop_last());
        let before = after(start, history.drop_last());
        let n = before.current as nat;
        assert(first_frames(n).push(n as usize) =~= first_frames(n + 1));
    }
}

/// By the time the end is announced, every frame of the file has gone out once, in order.
pub proof fn law_all_frames_before_the_end(frames: usize, realtime: bool, history: Seq<Reply>)
    requires
        genuine(Transfer::fresh(frames, realtime), history),
        after(Transfer::fresh(frames, realtime), history).asks() == Request::SendEnd,
    ensures
        frames_sent(Transfer::fresh(frames, realtime), history) == first_frames(frames as nat),
{
    lemma_frames_stay_on_track(frames, realtime, history);
}

/// A transfer that ended well has sent every frame of the file once, in order, and got the
/// backend's final message as its last reply.
pub proof fn law_result_for_the_whole_file(frames: usize, realtime: bool, history: Seq<Reply>)
    requires
        genuine(Transfer::fresh(frames, realtime), history),
        after(Transfer::fresh(frames, realtime), history).stage == TransferStage::Over(
            Outcome::Done,
        ),
    ensures
        frames_sent(Transfer::fresh(frames, realtime), history) == first_frames(frames as nat),
        history.len() > 0,
        history.last() == Reply::Read(Incoming::Message { done: true }),
{
    lemma_frames_stay_on_track(frames, realtime, history);
}

/// What the backend has to say is read after every frame, so that a partial text can arrive
/// before the end is announced: the request after a frame has gone out is a read.
pub proof fn law_reads_after_every_frame(t: Transfer, reply: Reply)
    requires
        t.asks() is SendFrame,
        reply is Completed,
    ensures
        t.next(reply).asks() == Request::Read,
{
}

/// Whether the end of the file has been announced.
pub open spec fn end_announced(start: Transfer, history: Seq<Reply>) -> bool
    decreases history.len(),
{
    history.len() > 0 && (end_announced(start, history.drop_last()) || (after(
        start,
        history.drop_last(),
    ).asks() == Request::SendEnd && history.last() is Completed))
}

proof fn lemma_end_announced(frames: usize, realtime: bool, history: Seq<Reply>)
    requires
        genuine(Transfer::fresh(frames, realtime), history),
    ensures
        ({
            let start = Transfer::fresh(frames, realtime);
            let t = after(start, history);
            &&& t.frames == frames
            &&& t.realtime == realtime
            &&& t.stage is Waiting ==> end_announced(start, history)
            &&& !(t.stage is Waiting) && !(t.stage is Over) ==> !end_announced(start, history)
            &&& t.stage matches TransferStage::Waiting(w) ==> !(w is Over)
        }),
    decreases history.len(),
{
    if history.len() > 0 {
        lemma_end_announced(frames, realtime, history.drop_last());
    }
}

/// A transfer opens in this order: it connects, makes the socket non-blocking, and sends its
/// configuration. Then comes the first frame or, for a file without frames, the end.
pub proof fn law_transfer_opens_in_order(frames: usize, realtime: bool, history: Seq<Reply>)
    requires
        genuine(Transfer::fresh(frames, realtime), history),
    ensures
        ({
            let start = Transfer::fresh(frames, realtime);
            let now = after(start, history).asks();
            &&& history.len() == 0 ==> now == Request::Connect
            &&& history.len() > 0 && history.last() is Completed ==> {
                let done = after(start, history.drop_last()).asks();
                &&& done == Request::Connect ==> now == Request::SetNonblocking
                &&& done == Request::SetNonblocking ==> now == Request::SendConfig
                &&& done == Request::SendConfig && frames > 0 ==> now == Request::SendFrame(0)
                &&& done == Request::SendConfig && frames == 0 ==> now == Request::SendEnd
            }
        }),
{
    if history.len() > 0 {
        lemma_frames_stay_on_track(frames, realtime, history.drop_last());
    }
}

/// What the backend says between two frames never ends a transfer. After a message, the last or
/// not, and after a frame of another kind the socket is read again. When there is nothing more
/// to read, or the backend has closed the connection, the transfer goes on with the first frame
/// that has not gone out yet, or with the end behind the last one; at speaking pace it rests
/// first.
pub proof fn law_reading_between_frames(
    frames: usize,
    realtime: bool,
    history: Seq<Reply>,
)
    requires
        genuine(Transfer::fresh(frames, realtime), history),
        history.len() > 0,
        !end_announced(Transfer::fresh(frames, realtime), history),
    ensures
        ({
            let start = Transfer::fresh(frames, realtime);
            let done = after(start, history.drop_last()).asks();
            let now = after(start, history).asks();
            let sent = frames_sent(start, history).len();
            &&& history.last() matches Reply::Read(incoming) ==> {
                &&& !(after(start, history).stage is Over)
                &&& (incoming is Message || incoming is Other) ==> now == Request::Read
                &&& (incoming is Closed || incoming is Nothing) && realtime ==> now == Request::Pace
            }
            &&& (done == Request::Pace || (history.last() matches Reply::Read(incoming) && (incoming
                is Closed || incoming is Nothing) && !realtime)) ==> {
                &&& sent < frames ==> now == Request::SendFrame(sent as usize)
                &&& sent >= frames ==> now == Request::SendEnd
            }
        }),
{
    let start = Transfer::fresh(frames, realtime);
    lemma_end_announced(frames, realtime, history.drop_last());
    lemma_frames_stay_on_track(frames, realtime, history.drop_last());
    lemma_frames_stay_on_track(frames, realtime, history);
}

/// Once the end has been announced a transfer waits in rounds: as long as the time is not up it
/// looks for a command and then reads. Only the final message makes it a success; a message that
/// is not the last one, and a frame of another kind, lead to the next round at once, and silence
/// does after a rest.
pub proof fn law_transfer_waits_until_the_final_message(
    frames: usize,
    realtime: bool,
    history: Seq<Reply>,
)
    requires
        genuine(Transfer::fresh(frames, realtime), history),
        history.len() > 0,
    ensures
        ({
            let start = Transfer::fresh(frames, realtime);
            let done = after(start, history.drop_last()).asks();
            let now = after(start, history);
            let round = !(now.stage is Over) && now.asks() == Request::CheckClock;
            let last = history.last();
            &&& done == Request::SendEnd && last is Completed ==> round
            &&& end_announced(start, history.drop_last()) ==> {
                &&& last matches Reply::Waited(ms) ==> ms < DONE_TIMEOUT_MS ==> now.asks()
                    == Request::PollControl
                &&& last matches Reply::Control(command) ==> command != Some(Control::Cancel)
                    ==> now.asks() == Request::Read
                &&& last == Reply::Read(Incoming::Message { done: false }) ==> round
                &&& last == Reply::Read(Incoming::Other) ==> round
                &&& last == Reply::Read(Incoming::Nothing) ==> now.asks() == Request::Pause
                &&& done == Request::Pause ==> round
                &&& last == Reply::Read(Incoming::Message { done: true }) ==> now.stage
                    == TransferStage::Over(Outcome::Done)
            }
        }),
{
    lemma_end_announced(frames, realtime, history.drop_last());
}

/// A transfer ends only for a reason, which its outcome names: the final message after the end
/// was announced, a failed request, a deadline that has passed, or a connection that was closed
/// after the end was announced, by the backend or on a cancellation.
pub proof fn law_transfer_over_only_for_a_reason(
    frames: usize,
    realtime: bool,
    history: Seq<Reply>,
    outcome: Outcome,
)
    requires
        genuine(Transfer::fresh(frames, realtime), history),
        after(Transfer::fresh(frames, realtime), history).stage == TransferStage::Over(outcome),
    ensures
        history.len() > 0,
        ({
            let before = history.drop_last();
            let start = Transfer::fresh(frames, realtime);
            match outcome {
                Outcome::Done => {
                    &&& history.last() == Reply::Read(Incoming::Message { done: true })
                    &&& end_announced(start, before)
                },
                Outcome::Failed(Failure::Transport) => history.last() is Failed,
                Outcome::Failed(Failure::DoneTimeout) => history.last() matches Reply::Waited(ms)
                    && ms >= DONE_TIMEOUT_MS,
                Outcome::Failed(Failure::ClosedBeforeDone) => {
                    &&& end_announced(start, before)
                    &&& history.last() == Reply::Read(Incoming::Closed) || after(
                        start,
                        before,
                    ).asks() == Request::CloseCancelled
                },
                _ => false,
            }
        }),
{
    lemma_end_announced(frames, realtime, history.drop_last());
}

/// A failed request ends a transfer at once, as a failure of the transport, and so does a
/// deadline that has passed, as that. A command to cancel closes the socket, and that is a
/// failure too.
pub proof fn law_transfer_failures_are_heeded(frames: usize, realtime: bool, history: Seq<Reply>)
    requires
        genuine(Transfer::fresh(frames, realtime), history),
        history.len() > 0,
    ensures
        ({
            let start = Transfer::fresh(frames, realtime);
            let done = after(start, history.drop_last()).asks();
            let now = after(start, history);
            let last = history.last();
            &&& last is Failed ==> now.stage == TransferStage::Over(
                Outcome::Failed(Failure::Transport),
            )
            &&& last matches Reply::Waited(ms) ==> ms >= DONE_TIMEOUT_MS ==> now.stage
                == TransferStage::Over(Outcome::Failed(Failure::DoneTimeout))
            &&& last == Reply::Control(Some(Control::Cancel)) ==> now.asks()
                == Request::CloseCancelled
            &&& done == Request::CloseCancelled ==> now.stage == TransferStage::Over(
                Outcome::Failed(Failure::ClosedBeforeDone),
            )
            &&& now.asks() == Request::Nothing <==> now.stage is Over
        }),
{
    lemma_end_announced(frames, realtime, history.drop_last());
    lemma_end_announced(frames, realtime, history);
}

/// At speaking pace the rest after a frame is as long as the frame takes to speak.
pub proof fn law_pace_is_that_of_speech()
    ensures
        REALTIME_PAUSE_MS * TARGET_SAMPLE_RATE == FILE_FRAME_SAMPLES * 1000,
{
}

} // verus!

//! The course of a live dictation session, from connecting to the final result.

use crate::protocol::{answers, Control, Failure, Incoming, Outcome, Reply, Request};
use crate::wait::{wait_next, wait_request, wait_request_at, wait_step, WaitStage};
use vstd::prelude::*;

verus! {

/// Where a live session stands.
#[derive(Debug, Clone, Copy, PartialEq, Eq, Structural)]
pub enum Stage {
    Connecting,
    Unblocking,
    Configuring,
    Polling,
    Listening,
    SendingLive,
    ReadingLive,
    Resting,
    CheckingDevice,
    Draining,
    SendingDrained,
    ReadingDrained,
    CheckingOverflow,
    SendingTail,
    SendingEnd,
    Cancelling,
    Waiting(WaitStage),
    Over(Outcome),
}


/// A live dictation session.
#[derive(Debug, Clone, Copy, PartialEq, Eq, Structural)]
pub struct Session {
    pub stage: Stage,
    /// Whether capture has ended, so that there is no audio to wait for.
    pub audio_closed: bool,
}

/// What a session asks for at each stage.
pub open spec fn stage_request(stage: Stage) -> Request {
    match stage {
        Stage::Connecting => Request::Connect,
        Stage::Unblocking => Request::SetNonblocking,
        Stage::Configuring => Request::SendConfig,
        Stage::Polling => Request::PollControl,
        Stage::Listening => Request::AwaitAudio,
        Stage::SendingLive => Request::SendChunk,
        Stage::ReadingLive => Request::Read,
        Stage::Resting => Request::Pause,
        Stage::CheckingDevice => Request::TakeDeviceError,
        Stage::Draining => Request::TakeAudio,
        Stage::SendingDrained => Request::SendChunk,
        Stage::ReadingDrained => Request::Read,
        Stage::CheckingOverflow => Request::CheckOverflow,
        Stage::SendingTail => Request::SendTail,
        Stage::SendingEnd => Request::SendEnd,
        Stage::Cancelling => Request::CloseCancelled,
        Stage::Waiting(w) => wait_request(w),
        Stage::Over(_) => Request::Nothing,
    }
}

/// The stage that stands for a stage of the wait, which ends with the session.
pub open spec fn waiting(w: WaitStage) -> Stage {
    match w {
        WaitStage::Over(outcome) => Stage::Over(outcome),
        _ => Stage::Waiting(w),
    }
}

/// Whether there may be more to read from the socket at once.
pub open spec fn may_have_more(reply: Reply) -> bool {
    reply matches Reply::Read(incoming) && (incoming is Message || incoming is Other)
}

impl Session {
    /// A session that has done nothing yet.
    pub open spec fn fresh() -> Session {
        Session { stage: Stage::Connecting, audio_closed: false }
    }

    /// What the session asks for.
    pub open spec fn asks(self) -> Request {
        stage_request(self.stage)
    }

    /// The session at another stage.
    pub open spec fn at(self, stage: Stage) -> Session {
        Session { stage, audio_closed: self.audio_closed }
    }

    /// How the session goes on.
    ///
    /// While the key is held it looks for a command, passes captured audio on as it comes, and
    /// reads what the backend has to say. A release empties the capture queue, gives up if
    /// audio had been dropped, sends the rest, announces the end and waits for the result.
    pub open spec fn next(self, reply: Reply) -> Session {
        match self.stage {
            Stage::Waiting(w) => self.at(waiting(wait_next(w, reply))),
            Stage::Cancelling => self.at(Stage::Over(Outcome::Cancelled)),
            _ if reply is Failed => self.at(Stage::Over(Outcome::Failed(Failure::Transport))),
            Stage::Connecting => self.at(Stage::Unblocking),
            Stage::Unblocking => self.at(Stage::Configuring),
            Stage::Configuring => self.at(Stage::Polling),
            Stage::Polling => match reply {
                Reply::Control(Some(Control::Cancel)) => self.at(Stage::Cancelling),
                Reply::Control(Some(Control::Release)) => self.at(Stage::Draining),
                _ => if self.audio_closed {
                    self.at(Stage::ReadingLive)
                } else {
                    self.at(Stage::Listening)
                },
            },
            Stage::Listening => match reply {
                Reply::Chunk => self.at(Stage::SendingLive),
                Reply::AudioClosed => Session { stage: Stage::CheckingDevice, audio_closed: true },
                _ => self.at(Stage::ReadingLive),
            },
            Stage::SendingLive => self.at(Stage::ReadingLive),
            Stage::ReadingLive => if may_have_more(reply) {
                self
            } else if self.audio_closed {
                self.at(Stage::Resting)
            } else {
                self.at(Stage::CheckingDevice)
            },
            Stage::Resting => self.at(Stage::CheckingDevice),
            Stage::CheckingDevice => if reply == Reply::DeviceError(true) {
                self.at(Stage::Over(Outcome::Failed(Failure::Device)))
            } else {
                self.at(Stage::Polling)
            },
            Stage::Draining => if reply is Chunk {
                self.at(Stage::SendingDrained)
            } else {
                self.at(Stage::CheckingOverflow)
            },
            Stage::SendingDrained => self.at(Stage::ReadingDrained),
            Stage::ReadingDrained => if may_have_more(reply) {
                self
            } else {
                self.at(Stage::Draining)
            },
            Stage::CheckingOverflow => if reply == Reply::Overflow(true) {
                self.at(Stage::Over(Outcome::Failed(Failure::QueueOverflow)))
            } else {
                self.at(Stage::SendingTail)
            },
            Stage::SendingTail => self.at(Stage::SendingEnd),
            Stage::SendingEnd => self.at(Stage::Waiting(WaitStage::Clock)),
            Stage::Over(_) => self,
        }
    }

    /// Starts a session.
    pub fn new() -> (res: Session)
        ensures
            res == Session::fresh(),
    {
        Session { stage: Stage::Connecting, audio_closed: false }
    }

    /// Tells what the session asks for.
    pub fn request(&self) -> (res: Request)
        ensures
            res == self.asks(),
    {
        match self.stage {
            Stage::Connecting => Request::Connect,
            Stage::Unblocking => Request::SetNonblocking,
            Stage::Configuring => Request::SendConfig,
            Stage::Polling => Request::PollControl,
            Stage::Listening => Request::AwaitAudio,
            Stage::SendingLive | Stage::SendingDrained => Request::SendChunk,
            Stage::ReadingLive | Stage::ReadingDrained => Request::Read,
            Stage::Resting => Request::Pause,
            Stage::CheckingDevice => Request::TakeDeviceError,
            Stage::Draining => Request::TakeAudio,
            Stage::CheckingOverflow => Request::CheckOverflow,
            Stage::SendingTail => Request::SendTail,
            Stage::SendingEnd => Request::SendEnd,
            Stage::Cancelling => Request::CloseCancelled,
            Stage::Waiting(w) => wait_request_at(w),
            Stage::Over(_) => Request::Nothing,
        }
    }

    /// Tells how the session ended, once it is over.
    pub fn outcome(&self) -> (res: Option<Outcome>)
        ensures
            res == match self.stage {
                Stage::Over(outcome) => Some(outcome),
                _ => None,
            },
    {
        match self.stage {
            Stage::Over(outcome) => Some(outcome),
            _ => None,
        }
    }

    /// Takes in what came of the session's request and decides how to go on.
    pub fn step(&mut self, reply: Reply)
        requires
            answers(old(self).asks(), reply),
        ensures
            *final(self) == old(self).next(reply),
    {
        let more: bool = matches!(
            reply,
            Reply::Read(Incoming::Message { done: _ }) | Reply::Read(Incoming::Other)
        );
        let stage: Stage = match self.stage {
            Stage::Waiting(w) => match wait_step(w, reply) {
                WaitStage::Over(outcome) => Stage::Over(outcome),
                next => Stage::Waiting(next),
            },
            Stage::Cancelling => Stage::Over(Outcome::Cancelled),
            _ if matches!(reply, Reply::Failed) => Stage::Over(Outcome::Failed(Failure::Transport)),
            Stage::Connecting => Stage::Unblocking,
            Stage::Unblocking => Stage::Configuring,
            Stage::Configuring => Stage::Polling,
            Stage::Polling => match reply {
                Reply::Control(Some(Control::Cancel)) => Stage::Cancelling,
                Reply::Control(Some(Control::Release)) => Stage::Draining,
                _ if self.audio_closed => Stage::ReadingLive,
                _ => Stage::Listening,
            },
            Stage::Listening => match reply {
                Reply::Chunk => Stage::SendingLive,
                Reply::AudioClosed => {
                    self.audio_closed = true;
                    Stage::CheckingDevice
                },
                _ => Stage::ReadingLive,
            },
            Stage::SendingLive => Stage::ReadingLive,
            Stage::ReadingLive => if more {
                Stage::ReadingLive
            } else if self.audio_closed {
                Stage::Resting
            } else {
                Stage::CheckingDevice
            },
            Stage::Resting => Stage::CheckingDevice,
            Stage::CheckingDevice => match reply {
                Reply::DeviceError(true) => Stage::Over(Outcome::Failed(Failure::Device)),
                _ => Stage::Polling,
            },
            Stage::Draining => match reply {
                Reply::Chunk => Stage::SendingDrained,
                _ => Stage::CheckingOverflow,
            },
            Stage::SendingDrained => Stage::ReadingDrained,
            Stage::ReadingDrained => if more {
                Stage::ReadingDrained
            } else {
                Stage::Draining
            },
            Stage::CheckingOverflow => match reply {
                Reply::Overflow(true) => Stage::Over(Outcome::Failed(Failure::QueueOverflow)),
                _ => Stage::SendingTail,
            },
            Stage::SendingTail => Stage::SendingEnd,
            Stage::SendingEnd => Stage::Waiting(WaitStage::Clock),
            Stage::Over(outcome) => Stage::Over(outcome),
        };
        self.stage = stage;
    }
}

} // verus!

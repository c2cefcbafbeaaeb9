//! What holds of a whole file transfer, from its first request to what it returns.

use crate::protocol::{answers, Failure, Incoming, Outcome, Reply, Request};
use crate::transcript::{
    empty_transcript, failure_text, returned, visible_text, MessageView, TranscriptView,
};
use crate::transfer::{Transfer, TransferStage};
use crate::wait::WaitStage;
use vstd::prelude::*;

verus! {

/// One step of a file transfer as its driver sees it.
pub struct Step {
    /// What came of the transfer's request.
    pub reply: Reply,
    /// The backend's message, where the reply stands for one.
    pub message: Option<MessageView>,
    /// When the message arrived, in milliseconds since the transfer began.
    pub at_ms: u128,
    /// Whether the event sink had room for what it was offered.
    pub taken: bool,
}

/// How far a file transfer has come.
pub struct Course {
    pub transfer: Transfer,
    pub transcript: TranscriptView,
    /// The partial texts that the event sink was offered.
    pub offered: Seq<Seq<char>>,
    /// Those of them that it took.
    pub delivered: Seq<Seq<char>>,
}

impl Course {
    /// The transfer once it has made one more step.
    pub open spec fn next(self, step: Step) -> Course {
        let shown = match step.message {
            Some(message) => visible_text(message),
            None => None,
        };
        Course {
            transfer: self.transfer.next(step.reply),
            transcript: match step.message {
                Some(message) => self.transcript.hearing(message, step.at_ms),
                None => self.transcript,
            },
            offered: match shown {
                Some(text) => self.offered.push(text),
                None => self.offered,
            },
            delivered: match shown {
                Some(text) => if step.taken {
                    self.delivered.push(text)
                } else {
                    self.delivered
                },
                None => self.delivered,
            },
        }
    }
}

/// The course of a file transfer over a history of steps.
pub open spec fn course(frames: usize, realtime: bool, steps: Seq<Step>) -> Course
    decreases steps.len(),
{
    if steps.len() == 0 {
        Course {
            transfer: Transfer::fresh(frames, realtime),
            transcript: empty_transcript(),
            offered: Seq::empty(),
            delivered: Seq::empty(),
        }
    } else {
        course(frames, realtime, steps.drop_last()).next(steps.last())
    }
}

/// A reply stands for a message as `Transcript::receive` says: one that reports an error is a
/// failure, any other is something that was read.
pub open spec fn stands_for(reply: Reply, message: MessageView) -> bool {
    reply == if message.error is Some {
        Reply::Failed
    } else {
        Reply::Read(Incoming::Message { done: message.done == Some(true) })
    }
}

/// Every step answered what the transfer had asked, a message came only where one was read, and
/// no command was given: a file transfer has no one who could give one.
pub open spec fn undisturbed(frames: usize, realtime: bool, steps: Seq<Step>) -> bool
    decreases steps.len(),
{
    steps.len() > 0 ==> {
        let request = course(frames, realtime, steps.drop_last()).transfer.asks();
        let step = steps.last();
        &&& undisturbed(frames, realtime, steps.drop_last())
        &&& answers(request, step.reply)
        &&& request == Request::PollControl ==> step.reply == Reply::Control(None)
        &&& match step.message {
            Some(message) => request == Request::Read && stands_for(step.reply, message),
            None => !(step.reply matches Reply::Read(incoming) && incoming is Message),
        }
    }
}

/// Two histories with the same replies and messages. Arrival times, and what became of the
/// events, may differ.
pub open spec fn same_replies(steps: Seq<Step>, other: Seq<Step>) -> bool {
    &&& steps.len() == other.len()
    &&& forall|i: int|
        0 <= i < steps.len() ==> (#[trigger] steps[i]).reply == other[i].reply && steps[i].message
            == other[i].message
}

/// Neither the event sink nor the clock has a say in what a file transfer returns: whether the
/// sink has room, is full or is not there, the same replies bring the transfer to the same
/// point, offer the same partial texts, and return the same text and clean text, or in either
/// case an error.
pub proof fn law_sink_does_not_change_the_result(
    frames: usize,
    realtime: bool,
    steps: Seq<Step>,
    other: Seq<Step>,
)
    requires
        same_replies(steps, other),
    ensures
        ({
            let one = course(frames, realtime, steps);
            let two = course(frames, realtime, other);
            &&& one.transfer == two.transfer
            &&& one.transcript.text == two.transcript.text
            &&& one.transcript.clean_text == two.transcript.clean_text
            &&& one.offered == two.offered
            &&& forall|outcome: Outcome|
                #[trigger] returned(outcome, one.transcript) == returned(outcome, two.transcript)
        }),
    decreases steps.len(),
{
    if steps.len() > 0 {
        assert forall|i: int| 0 <= i < steps.len() - 1 implies (#[trigger] steps.drop_last()[i]).reply
            == other.drop_last()[i].reply && steps.drop_last()[i].message
            == other.drop_last()[i].message by {
            assert(steps.drop_last()[i] == steps[i]);
        }
        law_sink_does_not_change_the_result(
            frames,
            realtime,
            steps.drop_last(),
            other.drop_last(),
        );
        assert(steps[steps.len() - 1].reply == other[steps.len() - 1].reply);
    }
}

/// A sink that always has room gets every partial text, in the order in which they arrived.
pub proof fn law_roomy_sink_gets_every_partial(frames: usize, realtime: bool, steps: Seq<Step>)
    requires
        forall|i: int| 0 <= i < steps.len() ==> (#[trigger] steps[i]).taken,
    ensures
        course(frames, realtime, steps).delivered == course(frames, realtime, steps).offered,
    decreases steps.len(),
{
    if steps.len() > 0 {
        assert forall|i: int| 0 <= i < steps.len() - 1 implies (#[trigger] steps.drop_last()[i]).taken by {
            assert(steps.drop_last()[i] == steps[i]);
        }
        law_roomy_sink_gets_every_partial(frames, realtime, steps.drop_last());
        assert(steps[steps.len() - 1].taken);
    }
}

/// A file transfer never asks for the one thing that would make it wait for its event sink, the
/// report of a cancellation, and it never ends as cancelled.
pub proof fn law_transfer_never_waits_for_its_sink(
    frames: usize,
    realtime: bool,
    steps: Seq<Step>,
)
    requires
        undisturbed(frames, realtime, steps),
    ensures
        course(frames, realtime, steps).transfer.asks() != Request::CloseCancelled,
        course(frames, realtime, steps).transfer.stage != TransferStage::Over(Outcome::Cancelled),
    decreases steps.len(),
{
    if steps.len() > 0 {
        law_transfer_never_waits_for_its_sink(frames, realtime, steps.drop_last());
    }
}

/// A connection that the backend closes once the end has been announced, before the final
/// message, fails the transfer with this very message.
pub proof fn law_close_before_done_is_an_error(
    frames: usize,
    realtime: bool,
    steps: Seq<Step>,
    cause: Seq<char>,
)
    requires
        undisturbed(frames, realtime, steps),
        steps.len() > 0,
        course(frames, realtime, steps.drop_last()).transfer.stage is Waiting,
        steps.last().reply == Reply::Read(Incoming::Closed),
    ensures
        course(frames, realtime, steps).transfer.stage == TransferStage::Over(
            Outcome::Failed(Failure::ClosedBeforeDone),
        ),
        failure_text(Failure::ClosedBeforeDone, cause) == "stream closed before done"@,
{
    let before = course(frames, realtime, steps.drop_last()).transfer;
    assert(before.stage == TransferStage::Waiting(WaitStage::Read));
}

} // verus!

//! What the backend says, and what the user gets to see of it.

use crate::error::StreamError;
use crate::protocol::{Failure, Incoming, Outcome, Reply};
use crate::text::opt_text;
use vstd::prelude::*;

verus! {

/// An event of a session for its user.
#[derive(Debug, Clone)]
pub enum StreamEvent {
    /// The newest text, which may still change.
    Partial(String),
    /// The session ended well.
    Done(StreamResult),
    /// The session failed, with a message for the user.
    Error(String),
    /// The session was cancelled.
    Cancelled,
}

/// The result of a session.
#[derive(Debug, Clone)]
pub struct StreamResult {
    pub text: String,
    pub clean_text: Option<String>,
    /// When the first text arrived, in milliseconds since the session began.
    pub first_update_ms: Option<u128>,
    /// When the final text arrived, in milliseconds since the session began.
    pub final_ms: u128,
    /// How long the final text took once the audio had ended, in milliseconds.
    pub release_to_final_ms: Option<u128>,
}

impl Default for StreamResult {
    fn default() -> (res: StreamResult)
        ensures
            res.text@ == Seq::<char>::empty(),
            res.clean_text is None,
            res.first_update_ms is None,
            res.final_ms == 0,
            res.release_to_final_ms is None,
    {
        StreamResult {
            text: String::new(),
            clean_text: None,
            first_update_ms: None,
            final_ms: 0,
            release_to_final_ms: None,
        }
    }
}

/// A message of the backend.
#[derive(Debug, Clone)]
pub struct ServerMessage {
    pub text: Option<String>,
    pub clean_text: Option<String>,
    pub done: Option<bool>,
    pub error: Option<String>,
}

/// What a backend message says.
pub struct MessageView {
    pub text: Option<Seq<char>>,
    pub clean_text: Option<Seq<char>>,
    pub done: Option<bool>,
    pub error: Option<Seq<char>>,
}

impl View for ServerMessage {
    type V = MessageView;

    open spec fn view(&self) -> MessageView {
        MessageView {
            text: opt_text(self.text),
            clean_text: opt_text(self.clean_text),
            done: self.done,
            error: opt_text(self.error),
        }
    }
}

/// The text of a session so far.
#[derive(Debug, Clone)]
pub struct Transcript {
    pub text: String,
    pub clean_text: Option<String>,
    pub first_update_ms: Option<u128>,
}

/// What a transcript says.
#[verifier::ext_equal]
pub struct TranscriptView {
    pub text: Seq<char>,
    pub clean_text: Option<Seq<char>>,
    pub first_update_ms: Option<u128>,
}

impl View for Transcript {
    type V = TranscriptView;

    open spec fn view(&self) -> TranscriptView {
        TranscriptView {
            text: self.text@,
            clean_text: opt_text(self.clean_text),
            first_update_ms: self.first_update_ms,
        }
    }
}

/// The transcript of a session that has heard nothing yet.
pub open spec fn empty_transcript() -> TranscriptView {
    TranscriptView { text: Seq::empty(), clean_text: None, first_update_ms: None }
}

impl TranscriptView {
    /// The transcript once a message has arrived, `elapsed_ms` after the session began. A
    /// message that reports an error changes nothing.
    pub open spec fn hearing(self, message: MessageView, elapsed_ms: u128) -> TranscriptView {
        if message.error is Some {
            self
        } else {
            TranscriptView {
                text: match message.text {
                    Some(text) => text,
                    None => self.text,
                },
                clean_text: match message.clean_text {
                    Some(clean) => Some(clean),
                    None => self.clean_text,
                },
                first_update_ms: if message.text is Some && self.first_update_ms is None {
                    Some(elapsed_ms)
                } else {
                    self.first_update_ms
                },
            }
        }
    }
}

/// The text that a message lets the user see: its clean text if it has one, and none unless it
/// brings text.
pub open spec fn visible_text(message: MessageView) -> Option<Seq<char>> {
    if message.error is Some || message.text is None {
        None
    } else if message.clean_text is Some {
        message.clean_text
    } else {
        message.text
    }
}

/// What became of a message.
#[derive(Debug)]
pub struct Heard {
    /// Whether it was the last one.
    pub done: bool,
    /// What the user should be told.
    pub event: Option<StreamEvent>,
}

/// What a message that was read means for the session.
#[derive(Debug)]
pub struct Received {
    /// What the session is told.
    pub reply: Reply,
    /// What the user should be told.
    pub event: Option<StreamEvent>,
    /// Why the session fails, if it does.
    pub error: Option<StreamError>,
}

impl Transcript {
    /// Starts the transcript of a session.
    pub fn new() -> (res: Transcript)
        ensures
            res@ == empty_transcript(),
    {
        Transcript { text: String::new(), clean_text: None, first_update_ms: None }
    }

    /// Takes in a message of the backend that arrived `elapsed_ms` after the session began.
    pub fn hear(&mut self, message: ServerMessage, elapsed_ms: u128) -> (res: Result<
        Heard,
        StreamError,
    >)
        ensures
            final(self)@ == old(self)@.hearing(message@, elapsed_ms),
            res is Err <==> message.error is Some,
            res matches Err(e) ==> {
                &&& e matches StreamError::Backend(error)
                &&& Some(error@) == message@.error
            },
            res matches Ok(heard) ==> {
                &&& heard.done == (message.done == Some(true))
                &&& match heard.event {
                    Some(event) => {
                        &&& event matches StreamEvent::Partial(text)
                        &&& visible_text(message@) == Some(text@)
                    },
                    None => visible_text(message@) is None,
                }
            },
    {
        if let Some(error) = message.error {
            return Err(StreamError::Backend(error));
        }
        let shown: Option<String> = match &message.clean_text {
            Some(clean) => {
                self.clean_text = Some(clean.clone());
                Some(clean.clone())
            },
            None => None,
        };
        let done: bool = match message.done {
            Some(done) => done,
            None => false,
        };
        let event: Option<StreamEvent> = match message.text {
            Some(text) => {
                self.text = text.clone();
                if self.first_update_ms.is_none() {
                    self.first_update_ms = Some(elapsed_ms);
                }
                Some(
                    StreamEvent::Partial(
                        match shown {
                            Some(clean) => clean,
                            None => text,
                        },
                    ),
                )
            },
            None => None,
        };
        Ok(Heard { done, event })
    }

    /// Takes in a message and says what it means for the session: an error of the backend fails
    /// it, and anything else is something that was read.
    pub fn receive(&mut self, message: ServerMessage, elapsed_ms: u128) -> (res: Received)
        ensures
            final(self)@ == old(self)@.hearing(message@, elapsed_ms),
            res.reply == if message.error is Some {
                Reply::Failed
            } else {
                Reply::Read(Incoming::Message { done: message.done == Some(true) })
            },
            match res.event {
                Some(event) => {
                    &&& event matches StreamEvent::Partial(text)
                    &&& visible_text(message@) == Some(text@)
                },
                None => visible_text(message@) is None,
            },
            match res.error {
                Some(e) => {
                    &&& e matches StreamError::Backend(error)
                    &&& message@.error == Some(error@)
                },
                None => message.error is None,
            },
    {
        match self.hear(message, elapsed_ms) {
            Ok(heard) => Received {
                reply: Reply::Read(Incoming::Message { done: heard.done }),
                event: heard.event,
                error: None,
            },
            Err(e) => Received { reply: Reply::Failed, event: None, error: Some(e) },
        }
    }

    /// Makes the result of a session that ended well.
    pub fn into_result(self, final_ms: u128, release_to_final_ms: Option<u128>) -> (res:
        StreamResult)
        ensures
            res.text@ == self@.text,
            opt_text(res.clean_text) == self@.clean_text,
            res.first_update_ms == self@.first_update_ms,
            res.final_ms == final_ms,
            res.release_to_final_ms == release_to_final_ms,
    {
        StreamResult {
            text: self.text,
            clean_text: self.clean_text,
            first_update_ms: self.first_update_ms,
            final_ms,
            release_to_final_ms,
        }
    }
}

/// The transcript after a history of messages, each with the time at which it arrived.
pub open spec fn after_messages(history: Seq<(MessageView, u128)>) -> TranscriptView
    decreases history.len(),
{
    if history.len() == 0 {
        empty_transcript()
    } else {
        after_messages(history.drop_last()).hearing(history.last().0, history.last().1)
    }
}

/// Whether a message brings text.
pub open spec fn brings_text(message: MessageView) -> bool {
    message.error is None && message.text is Some
}

/// The transcript holds the newest text: that of the last message that brought one.
pub proof fn law_newest_text_wins(history: Seq<(MessageView, u128)>, i: int)
    requires
        0 <= i < history.len(),
        brings_text(history[i].0),
        forall|j: int| i < j < history.len() ==> !brings_text((#[trigger] history[j]).0),
    ensures
        Some(after_messages(history).text) == history[i].0.text,
    decreases history.len(),
{
    if i < history.len() - 1 {
        let shorter = history.drop_last();
        assert forall|j: int| i < j < shorter.len() implies !brings_text(
            (#[trigger] shorter[j]).0,
        ) by {
            assert(shorter[j] == history[j]);
        }
        law_newest_text_wins(shorter, i);
        assert(!brings_text(history[history.len() - 1].0));
    }
}

/// The time of the first update is that of the first message that brought text, whatever
/// follows.
pub proof fn law_first_update_is_kept(history: Seq<(MessageView, u128)>, i: int)
    requires
        0 <= i < history.len(),
        brings_text(history[i].0),
        forall|j: int| 0 <= j < i ==> !brings_text((#[trigger] history[j]).0),
    ensures
        after_messages(history).first_update_ms == Some(history[i].1),
    decreases history.len(),
{
    let shorter = history.drop_last();
    assert(forall|j: int| 0 <= j < shorter.len() ==> shorter[j] == history[j]);
    if i < history.len() - 1 {
        law_first_update_is_kept(shorter, i);
    } else {
        law_no_update_without_text(shorter);
    }
}

/// Without text there is no update time, and nothing to show.
pub proof fn law_no_update_without_text(history: Seq<(MessageView, u128)>)
    requires
        forall|j: int| 0 <= j < history.len() ==> !brings_text((#[trigger] history[j]).0),
    ensures
        after_messages(history).first_update_ms is None,
        after_messages(history).text == Seq::<char>::empty(),
    decreases history.len(),
{
    if history.len() > 0 {
        let shorter = history.drop_last();
        assert(forall|j: int| 0 <= j < shorter.len() ==> shorter[j] == history[j]);
        law_no_update_without_text(shorter);
        assert(!brings_text(history[history.len() - 1].0));
    }
}

/// The error that a failed session ends with. `cause` describes a failure of the transport or
/// the device.
pub open spec fn failure_text(failure: Failure, cause: Seq<char>) -> Seq<char> {
    match failure {
        Failure::Transport | Failure::Device => cause,
        Failure::QueueOverflow => StreamError::QueueOverflow.text(),
        Failure::DoneTimeout => StreamError::DoneTimeout.text(),
        Failure::ClosedBeforeDone => StreamError::ClosedBeforeDone.text(),
    }
}

/// Turns the failure of a session into an error.
pub fn failure_error(failure: Failure, cause: String) -> (res: StreamError)
    ensures
        res.text() == failure_text(failure, cause@),
        match failure {
            Failure::Transport | Failure::Device => res == StreamError::Reported(cause),
            Failure::QueueOverflow => res is QueueOverflow,
            Failure::DoneTimeout => res is DoneTimeout,
            Failure::ClosedBeforeDone => res is ClosedBeforeDone,
        },
{
    match failure {
        Failure::Transport | Failure::Device => StreamError::Reported(cause),
        Failure::QueueOverflow => StreamError::QueueOverflow,
        Failure::DoneTimeout => StreamError::DoneTimeout,
        Failure::ClosedBeforeDone => StreamError::ClosedBeforeDone,
    }
}

/// Whether a session's end brings an event of its own.
pub open spec fn announced_at_the_end(outcome: Outcome) -> bool {
    !(outcome is Cancelled)
}

/// Makes the event that a session's end brings: the result if it ended well, and an error
/// message if it failed. That a session was cancelled is reported when its socket is closed.
pub fn closing_event(
    outcome: Outcome,
    transcript: Transcript,
    final_ms: u128,
    release_to_final_ms: Option<u128>,
    cause: String,
) -> (res: Option<StreamEvent>)
    ensures
        res is Some <==> announced_at_the_end(outcome),
        match outcome {
            Outcome::Done => {
                &&& res matches Some(StreamEvent::Done(result))
                &&& result.text@ == transcript@.text
                &&& opt_text(result.clean_text) == transcript@.clean_text
                &&& result.first_update_ms == transcript@.first_update_ms
                &&& result.final_ms == final_ms
                &&& result.release_to_final_ms == release_to_final_ms
            },
            Outcome::Cancelled => res is None,
            Outcome::Failed(failure) => {
                &&& res matches Some(StreamEvent::Error(message))
                &&& message@ == failure_text(failure, cause@)
            },
        },
{
    match outcome {
        Outcome::Done => Some(
            StreamEvent::Done(transcript.into_result(final_ms, release_to_final_ms)),
        ),
        Outcome::Cancelled => None,
        Outcome::Failed(failure) => Some(
            StreamEvent::Error(failure_error(failure, cause).message()),
        ),
    }
}

/// The text and clean text that a file transfer returns: those of the transcript if it ended
/// well. Otherwise it returns an error.
pub open spec fn returned(outcome: Outcome, transcript: TranscriptView) -> Option<
    (Seq<char>, Option<Seq<char>>),
> {
    match outcome {
        Outcome::Done => Some((transcript.text, transcript.clean_text)),
        _ => None,
    }
}

/// The error that a file transfer returns unless it ended well.
pub open spec fn transfer_error_text(outcome: Outcome, cause: Seq<char>) -> Seq<char> {
    match outcome {
        Outcome::Failed(failure) => failure_text(failure, cause),
        _ => StreamError::ClosedBeforeDone.text(),
    }
}

/// How a file transfer ends.
#[derive(Debug)]
pub struct TransferEnd {
    /// What its caller gets.
    pub result: Result<StreamResult, StreamError>,
    /// What its event sink is offered.
    pub event: Option<StreamEvent>,
}

fn copied(result: &StreamResult) -> (res: StreamResult)
    ensures
        res == *result,
{
    StreamResult {
        text: result.text.clone(),
        clean_text: match &result.clean_text {
            Some(clean) => Some(clean.clone()),
            None => None,
        },
        first_update_ms: result.first_update_ms,
        final_ms: result.final_ms,
        release_to_final_ms: result.release_to_final_ms,
    }
}

/// Makes what a finished file transfer returns, and what it offers its event sink. It is a
/// success only if the final message came, and only then is the sink offered an event: the very
/// result that is returned. `cause` describes a failure of the transport.
pub fn transfer_end(
    outcome: Outcome,
    transcript: Transcript,
    final_ms: u128,
    release_to_final_ms: Option<u128>,
    cause: String,
) -> (res: TransferEnd)
    ensures
        res.result is Ok <==> outcome is Done,
        res.event is Some <==> outcome is Done,
        match res.result {
            Ok(result) => {
                &&& res.event == Some(StreamEvent::Done(result))
                &&& returned(outcome, transcript@) == Some((result.text@, opt_text(result.clean_text)))
                &&& result.text@ == transcript@.text
                &&& opt_text(result.clean_text) == transcript@.clean_text
                &&& result.first_update_ms == transcript@.first_update_ms
                &&& result.final_ms == final_ms
                &&& result.release_to_final_ms == release_to_final_ms
            },
            Err(e) => {
                &&& returned(outcome, transcript@) is None
                &&& e.text() == transfer_error_text(outcome, cause@)
            },
        },
{
    match outcome {
        Outcome::Done => {
            let result: StreamResult = transcript.into_result(final_ms, release_to_final_ms);
            let event: StreamEvent = StreamEvent::Done(copied(&result));
            TransferEnd { result: Ok(result), event: Some(event) }
        },
        Outcome::Failed(failure) => TransferEnd {
            result: Err(failure_error(failure, cause)),
            event: None,
        },
        Outcome::Cancelled => TransferEnd {
            result: Err(StreamError::ClosedBeforeDone),
            event: None,
        },
    }
}

/// A message without an error counts in full: the text and the clean text that it brings
/// replace the earlier ones, and where it brings none the earlier ones stay. The first text sets
/// the time of the first update, and nothing changes it later. A message with an error changes
/// nothing at all.
pub proof fn law_each_message_counts(t: TranscriptView, message: MessageView, elapsed_ms: u128)
    ensures
        message.error is Some ==> t.hearing(message, elapsed_ms) == t,
        message.error is None ==> {
            let heard = t.hearing(message, elapsed_ms);
            &&& message.text matches Some(text) ==> heard.text == text
            &&& message.text is None ==> heard.text == t.text
            &&& message.clean_text matches Some(clean) ==> heard.clean_text == Some(clean)
            &&& message.clean_text is None ==> heard.clean_text == t.clean_text
            &&& t.first_update_ms is Some || message.text is None ==> heard.first_update_ms
                == t.first_update_ms
            &&& t.first_update_ms is None && message.text is Some ==> heard.first_update_ms == Some(
                elapsed_ms,
            )
        },
{
}

/// The transcript holds the newest clean text: that of the last message that brought one.
pub proof fn law_newest_clean_text_wins(history: Seq<(MessageView, u128)>, i: int)
    requires
        0 <= i < history.len(),
        history[i].0.error is None,
        history[i].0.clean_text is Some,
        forall|j: int|
            i < j < history.len() ==> (#[trigger] history[j]).0.error is Some
                || history[j].0.clean_text is None,
    ensures
        after_messages(history).clean_text == history[i].0.clean_text,
    decreases history.len(),
{
    if i < history.len() - 1 {
        let shorter = history.drop_last();
        assert forall|j: int| i < j < shorter.len() implies (#[trigger] shorter[j]).0.error is Some
            || shorter[j].0.clean_text is None by {
            assert(shorter[j] == history[j]);
        }
        law_newest_clean_text_wins(shorter, i);
        assert(history[history.len() - 1].0.error is Some || history[history.len()
            - 1].0.clean_text is None);
    }
}

/// There is no clean text unless a message has brought one.
pub proof fn law_no_clean_text_of_its_own(history: Seq<(MessageView, u128)>)
    requires
        forall|j: int|
            0 <= j < history.len() ==> (#[trigger] history[j]).0.error is Some
                || history[j].0.clean_text is None,
    ensures
        after_messages(history).clean_text is None,
    decreases history.len(),
{
    if history.len() > 0 {
        let shorter = history.drop_last();
        assert forall|j: int| 0 <= j < shorter.len() implies (#[trigger] shorter[j]).0.error is Some
            || shorter[j].0.clean_text is None by {
            assert(shorter[j] == history[j]);
        }
        law_no_clean_text_of_its_own(shorter);
        assert(history[history.len() - 1].0.error is Some || history[history.len()
            - 1].0.clean_text is None);
    }
}

/// A transfer that ended well returns the text of the last message that brought one, whether or
/// not there is a clean text, and with it the clean text of the transcript. No other end returns
/// a text.
pub proof fn law_transfer_returns_the_newest_text(
    history: Seq<(MessageView, u128)>,
    i: int,
    outcome: Outcome,
)
    requires
        0 <= i < history.len(),
        history[i].0.error is None,
        history[i].0.text is Some,
        forall|j: int|
            i < j < history.len() ==> (#[trigger] history[j]).0.error is Some || history[j].0.text
                is None,
    ensures
        returned(outcome, after_messages(history)) is Some <==> outcome is Done,
        returned(outcome, after_messages(history)) matches Some((text, clean)) ==> {
            &&& Some(text) == history[i].0.text
            &&& clean == after_messages(history).clean_text
        },
{
    assert(brings_text(history[i].0));
    assert forall|j: int| i < j < history.len() implies !brings_text((#[trigger] history[j]).0) by {
        assert(history[j].0.error is Some || history[j].0.text is None);
    }
    law_newest_text_wins(history, i);
}

/// The result of a transfer is its transcript, for every transcript: two transcripts give the
/// same result only if they hold the same texts, and the result is the text as it stands.
pub proof fn law_result_is_the_transcript(one: TranscriptView, two: TranscriptView)
    ensures
        returned(Outcome::Done, one) matches Some((text, clean)) && text == one.text && clean
            == one.clean_text,
        returned(Outcome::Done, one) == returned(Outcome::Done, two) <==> one.text == two.text
            && one.clean_text == two.clean_text,
{
}

/// The user sees a message exactly if it brings a text and no error. What they see is its clean
/// text where it has one, and otherwise its text, whatever came before.
pub proof fn law_messages_with_text_are_shown(message: MessageView)
    ensures
        visible_text(message) is Some <==> message.text is Some && message.error is None,
        visible_text(message) matches Some(shown) ==> {
            &&& message.clean_text matches Some(clean) ==> shown == clean
            &&& message.clean_text is None ==> Some(shown) == message.text
        },
{
}

/// A failure of the transport or the device is described by its cause; any other says what
/// happened, whatever the cause. A transfer that was cut short says so.
pub proof fn law_failures_say_what_happened(failure: Failure, cause: Seq<char>)
    ensures
        failure is Transport || failure is Device ==> failure_text(failure, cause) == cause,
        failure is QueueOverflow ==> failure_text(failure, cause)
            == "audio capture queue overflowed; transcription discarded"@,
        failure is DoneTimeout ==> failure_text(failure, cause)
            == "timed out waiting for streaming done"@,
        failure is ClosedBeforeDone ==> failure_text(failure, cause)
            == "stream closed before done"@,
        transfer_error_text(Outcome::Failed(failure), cause) == failure_text(failure, cause),
        transfer_error_text(Outcome::Cancelled, cause) == "stream closed before done"@,
{
}

/// Every end but a cancellation is announced by an event of its own.
pub proof fn law_every_other_end_is_announced(outcome: Outcome)
    ensures
        announced_at_the_end(outcome) <==> outcome != Outcome::Cancelled,
{
}

/// A message and a transcript say what their fields hold.
pub proof fn law_texts_are_taken_as_they_are(message: ServerMessage, transcript: Transcript)
    ensures
        message@.text is Some <==> message.text is Some,
        message.text matches Some(text) ==> message@.text == Some(text@),
        message@.clean_text is Some <==> message.clean_text is Some,
        message.clean_text matches Some(clean) ==> message@.clean_text == Some(clean@),
        message@.error is Some <==> message.error is Some,
        message.error matches Some(error) ==> message@.error == Some(error@),
        message@.done == message.done,
        transcript@.text == transcript.text@,
        transcript@.clean_text is Some <==> transcript.clean_text is Some,
        transcript.clean_text matches Some(clean) ==> transcript@.clean_text == Some(clean@),
        transcript@.first_update_ms == transcript.first_update_ms,
        empty_transcript().text.len() == 0,
        empty_transcript().clean_text is None,
        empty_transcript().first_update_ms is None,
{
}

} // verus!

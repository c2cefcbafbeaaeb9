//! The vocabulary between a session and the driver that does its input and output.
//!
//! A session tells its driver what to do next, the driver reports what came of it, and the
//! session decides how to go on.

use vstd::prelude::*;

verus! {

/// How many captured chunks may wait for the session before capture counts as overflowed.
pub const AUDIO_QUEUE_CAPACITY: usize = 32;

/// How many control commands may wait for the session.
pub const CONTROL_QUEUE_CAPACITY: usize = 2;

/// How many events may wait for the session's user.
pub const EVENT_QUEUE_CAPACITY: usize = 64;

/// How long a live session waits for the next chunk, in milliseconds.
pub const AUDIO_WAIT_MS: u64 = 20;

/// How long a session rests before it reads an idle socket again, in milliseconds.
pub const IDLE_PAUSE_MS: u64 = 10;

/// How long a file transfer at speaking pace rests after each frame, in milliseconds.
pub const REALTIME_PAUSE_MS: u64 = 50;

/// How long the backend may take for the final result once the end has been announced, in
/// milliseconds.
pub const DONE_TIMEOUT_MS: u128 = 120_000;

/// A command of the session's user.
#[derive(Debug, Clone, Copy, PartialEq, Eq, Structural)]
pub enum Control {
    /// The key was released: send what has been captured and wait for the result.
    Release,
    /// Throw the session away.
    Cancel,
}

/// What came off the socket.
#[derive(Debug, Clone, Copy, PartialEq, Eq, Structural)]
pub enum Incoming {
    /// A text message that was understood; `done` tells whether it is the last one.
    Message { done: bool },
    /// The backend closed the connection.
    Closed,
    /// A message of another kind.
    Other,
    /// Nothing is there yet.
    Nothing,
}

/// What a session asks its driver to do.
#[derive(Debug, Clone, Copy, PartialEq, Eq, Structural)]
pub enum Request {
    /// Open the websocket connection.
    Connect,
    /// Make the socket non-blocking.
    SetNonblocking,
    /// Send the session's configuration as a text message.
    SendConfig,
    /// Look whether a control command has arrived.
    PollControl,
    /// Wait up to `AUDIO_WAIT_MS` for the next captured chunk.
    AwaitAudio,
    /// Take the next captured chunk if there is one.
    TakeAudio,
    /// Resample the chunk that has just been taken and send it.
    SendChunk,
    /// Send the file's frame with this number.
    SendFrame(usize),
    /// Rest for `REALTIME_PAUSE_MS`, the time that one frame takes to speak.
    Pace,
    /// Read from the socket once, handling a text message.
    Read,
    /// Rest for `IDLE_PAUSE_MS`.
    Pause,
    /// Look whether the capture device has reported an error.
    TakeDeviceError,
    /// Look whether the capture queue has overflowed.
    CheckOverflow,
    /// Finish the resampler and send what it still yields.
    SendTail,
    /// Announce the end of the audio.
    SendEnd,
    /// Tell how long the session has been waiting for the final result.
    CheckClock,
    /// Close the socket and report that the session was cancelled.
    CloseCancelled,
    /// Nothing: the session is over.
    Nothing,
}

/// What the driver reports about a request.
#[derive(Debug, Clone, Copy, PartialEq, Eq, Structural)]
pub enum Reply {
    /// The request was carried out.
    Completed,
    /// The request failed; the driver keeps the cause.
    Failed,
    /// The control command that had arrived, if any.
    Control(Option<Control>),
    /// A captured chunk was taken.
    Chunk,
    /// No captured chunk was there.
    NoAudio,
    /// Capture has ended and no chunk is left.
    AudioClosed,
    /// Whether the capture device has reported an error.
    DeviceError(bool),
    /// Whether the capture queue has overflowed.
    Overflow(bool),
    /// How many milliseconds the session has been waiting for the final result.
    Waited(u128),
    /// What came off the socket.
    Read(Incoming),
}

/// Why a session failed.
#[derive(Debug, Clone, Copy, PartialEq, Eq, Structural)]
pub enum Failure {
    /// A request failed, for the cause that the driver keeps.
    Transport,
    /// The capture device reported an error.
    Device,
    /// Captured audio was dropped because the queue was full.
    QueueOverflow,
    /// The final result did not come in time.
    DoneTimeout,
    /// The backend closed the connection before the final result.
    ClosedBeforeDone,
}

/// How a session ended.
#[derive(Debug, Clone, Copy, PartialEq, Eq, Structural)]
pub enum Outcome {
    Done,
    Cancelled,
    Failed(Failure),
}

/// Whether `reply` can be the answer to `request`.
pub open spec fn answers(request: Request, reply: Reply) -> bool {
    match request {
        Request::Connect
        | Request::SetNonblocking
        | Request::SendConfig
        | Request::SendChunk
        | Request::SendFrame(_)
        | Request::SendTail
        | Request::SendEnd => reply is Completed || reply is Failed,
        Request::Pause | Request::Pace | Request::CloseCancelled => reply is Completed,
        Request::PollControl => reply is Control,
        Request::AwaitAudio | Request::TakeAudio => reply is Chunk || reply is NoAudio
            || reply is AudioClosed,
        Request::Read => reply is Read || reply is Failed,
        Request::TakeDeviceError => reply is DeviceError,
        Request::CheckOverflow => reply is Overflow,
        Request::CheckClock => reply is Waited,
        Request::Nothing => false,
    }
}

/// Tells whether `reply` can be the answer to `request`.
pub fn is_answer(request: Request, reply: Reply) -> (res: bool)
    ensures
        res == answers(request, reply),
{
    match request {
        Request::Connect
        | Request::SetNonblocking
        | Request::SendConfig
        | Request::SendChunk
        | Request::SendFrame(_)
        | Request::SendTail
        | Request::SendEnd => matches!(reply, Reply::Completed | Reply::Failed),
        Request::Pause | Request::Pace | Request::CloseCancelled => matches!(reply, Reply::Completed),
        Request::PollControl => matches!(reply, Reply::Control(_)),
        Request::AwaitAudio | Request::TakeAudio => matches!(
            reply,
            Reply::Chunk | Reply::NoAudio | Reply::AudioClosed
        ),
        Request::Read => matches!(reply, Reply::Read(_) | Reply::Failed),
        Request::TakeDeviceError => matches!(reply, Reply::DeviceError(_)),
        Request::CheckOverflow => matches!(reply, Reply::Overflow(_)),
        Request::CheckClock => matches!(reply, Reply::Waited(_)),
        Request::Nothing => false,
    }
}

/// A request can be answered by everything that may come of it: what was read can be anything
/// or an error, a command can be any or none, and so on. Only a session that is over takes no
/// answer, and no request takes the answer to another.
pub proof fn law_every_answer_is_taken(
    request: Request,
    command: Option<Control>,
    incoming: Incoming,
    found: bool,
    ms: u128,
)
    ensures
        answers(Request::Read, Reply::Read(incoming)),
        answers(Request::Read, Reply::Failed),
        answers(Request::PollControl, Reply::Control(command)),
        answers(Request::AwaitAudio, Reply::Chunk),
        answers(Request::AwaitAudio, Reply::NoAudio),
        answers(Request::AwaitAudio, Reply::AudioClosed),
        answers(Request::TakeAudio, Reply::Chunk),
        answers(Request::TakeAudio, Reply::NoAudio),
        answers(Request::TakeDeviceError, Reply::DeviceError(found)),
        answers(Request::CheckOverflow, Reply::Overflow(found)),
        answers(Request::CheckClock, Reply::Waited(ms)),
        request is Connect || request is SetNonblocking || request is SendConfig || request
            is SendChunk || request is SendFrame || request is SendTail || request is SendEnd
            ==> answers(request, Reply::Completed) && answers(request, Reply::Failed),
        request is Pause || request is Pace || request is CloseCancelled ==> answers(
            request,
            Reply::Completed,
        ),
        request is Nothing <==> forall|reply: Reply| !(#[trigger] answers(request, reply)),
        answers(request, Reply::Read(incoming)) ==> request is Read,
        answers(request, Reply::Control(command)) ==> request is PollControl,
        answers(request, Reply::Chunk) ==> request is AwaitAudio || request is TakeAudio,
        answers(request, Reply::DeviceError(found)) ==> request is TakeDeviceError,
        answers(request, Reply::Overflow(found)) ==> request is CheckOverflow,
        answers(request, Reply::Waited(ms)) ==> request is CheckClock,
{
    if !(request is Nothing) {
        assert(answers(request, Reply::Completed) || answers(request, Reply::Read(incoming))
            || answers(request, Reply::Control(command)) || answers(request, Reply::Chunk)
            || answers(request, Reply::DeviceError(found)) || answers(
            request,
            Reply::Overflow(found),
        ) || answers(request, Reply::Waited(ms)));
    }
}

/// The queues have room for a release and a cancellation, for 32 chunks, and for 64 events. A
/// session that is idle looks at its socket more often than one that waits for audio.
pub proof fn law_queues_and_pauses()
    ensures
        CONTROL_QUEUE_CAPACITY == 2,
        AUDIO_QUEUE_CAPACITY == 32,
        EVENT_QUEUE_CAPACITY == 64,
        AUDIO_WAIT_MS == 20,
        2 * IDLE_PAUSE_MS == AUDIO_WAIT_MS,
        REALTIME_PAUSE_MS == 50,
{
}

} // verus!

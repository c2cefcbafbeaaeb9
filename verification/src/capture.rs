//! Recording from a microphone: which one, in which format, for how long.

use crate::error::StreamError;
use crate::protocol::{Control, DONE_TIMEOUT_MS};
use crate::transcript::{StreamEvent, StreamResult};
use vstd::prelude::*;

verus! {

/// The user's handle on a running capture.
#[derive(Debug)]
pub struct StreamingCapture {
    recording: bool,
    cancel_token: bool,
}

/// What a capture handle says.
pub struct CaptureView {
    /// Whether the microphone is open.
    pub recording: bool,
    /// Whether the capture was cancelled.
    pub cancelled: bool,
}

impl View for StreamingCapture {
    type V = CaptureView;

    closed spec fn view(&self) -> CaptureView {
        CaptureView { recording: self.recording, cancelled: self.cancel_token }
    }
}

impl StreamingCapture {
    /// The handle on a capture whose microphone has just been opened.
    pub fn started() -> (res: StreamingCapture)
        ensures
            res@ == (CaptureView { recording: true, cancelled: false }),
    {
        StreamingCapture { recording: true, cancel_token: false }
    }

    /// Closes the microphone and returns the command that makes the session finish.
    pub fn release(&mut self) -> (res: Control)
        ensures
            res == Control::Release,
            final(self)@ == (CaptureView { recording: false, cancelled: old(self)@.cancelled }),
    {
        self.recording = false;
        Control::Release
    }

    /// Closes the microphone and returns the command that throws the session away.
    pub fn cancel(&mut self) -> (res: Control)
        ensures
            res == Control::Cancel,
            final(self)@ == (CaptureView { recording: false, cancelled: true }),
    {
        self.cancel_token = true;
        self.recording = false;
        Control::Cancel
    }

    /// Tells whether the capture was cancelled.
    pub fn cancel_token(&self) -> (res: bool)
        ensures
            res == self@.cancelled,
    {
        self.cancel_token
    }

    /// Tells whether the microphone is open.
    pub fn is_recording(&self) -> (res: bool)
        ensures
            res == self@.recording,
    {
        self.recording
    }
}

/// The handle after a history of commands. A handle that is dropped cancels.
pub open spec fn after_commands(history: Seq<Control>) -> CaptureView
    decreases history.len(),
{
    if history.len() == 0 {
        CaptureView { recording: true, cancelled: false }
    } else {
        CaptureView {
            recording: false,
            cancelled: history.last() is Cancel || after_commands(history.drop_last()).cancelled,
        }
    }
}

/// A capture is cancelled for good by a cancellation, at whatever point it came, and by nothing
/// else; any command closes the microphone for good.
pub proof fn law_cancelled_for_good(history: Seq<Control>)
    ensures
        after_commands(history).cancelled <==> history.contains(Control::Cancel),
        after_commands(history).recording <==> history.len() == 0,
    decreases history.len(),
{
    if history.len() > 0 {
        let shorter = history.drop_last();
        law_cancelled_for_good(shorter);
        if history.contains(Control::Cancel) {
            let i = history.index_of(Control::Cancel);
            if i < shorter.len() {
                assert(shorter[i] == Control::Cancel);
            }
        }
        if shorter.contains(Control::Cancel) {
            assert(history[shorter.index_of(Control::Cancel)] == Control::Cancel);
        }
        if history.last() is Cancel {
            assert(history[history.len() - 1] == Control::Cancel);
        }
    }
}

/// A sample format that the capture can convert.
#[derive(Debug, Clone, Copy, PartialEq, Eq, Structural)]
pub enum CaptureFormat {
    F32,
    I16,
    U16,
}

/// The sample format of a microphone.
#[derive(Debug)]
pub enum DeviceFormat {
    F32,
    I16,
    U16,
    /// Another format, by its name.
    Other(String),
}

/// Decides how a microphone's samples are converted.
pub fn capture_format(format: DeviceFormat) -> (res: Result<CaptureFormat, StreamError>)
    ensures
        match format {
            DeviceFormat::F32 => res == Ok::<CaptureFormat, StreamError>(CaptureFormat::F32),
            DeviceFormat::I16 => res == Ok::<CaptureFormat, StreamError>(CaptureFormat::I16),
            DeviceFormat::U16 => res == Ok::<CaptureFormat, StreamError>(CaptureFormat::U16),
            DeviceFormat::Other(name) => res == Err::<CaptureFormat, StreamError>(
                StreamError::UnsupportedFormat(name),
            ),
        },
{
    match format {
        DeviceFormat::F32 => Ok(CaptureFormat::F32),
        DeviceFormat::I16 => Ok(CaptureFormat::I16),
        DeviceFormat::U16 => Ok(CaptureFormat::U16),
        DeviceFormat::Other(name) => Err(StreamError::UnsupportedFormat(name)),
    }
}

/// Whether the microphone at position `i` is the one asked for. One whose name is not known
/// never is.
pub open spec fn is_named(names: Seq<Option<String>>, name: Seq<char>, i: int) -> bool {
    names[i] matches Some(n) && n@ == name
}

/// Finds the microphone to record from: the first one with the configured name. `None` stands
/// for the system's default, which is taken for an empty name or one that no microphone has.
pub fn pick_input_device(names: &[Option<String>], name: &String) -> (res: Option<usize>)
    ensures
        match res {
            Some(k) => {
                &&& name@.len() > 0
                &&& k < names@.len()
                &&& is_named(names@, name@, k as int)
                &&& forall|i: int| 0 <= i < k ==> !is_named(names@, name@, i)
            },
            None => name@.len() == 0 || forall|i: int|
                0 <= i < names@.len() ==> !is_named(names@, name@, i),
        },
{
    if name.as_str().is_empty() {
        return None;
    }
    let mut i: usize = 0;
    while i < names.len()
        invariant
            i <= names@.len(),
            name@.len() > 0,
            forall|j: int| 0 <= j < i ==> !is_named(names@, name@, j),
        decreases names@.len() - i,
    {
        let found: bool = match &names[i] {
            Some(n) => *n == *name,
            None => false,
        };
        if found {
            return Some(i);
        }
        i += 1;
    }
    None
}

/// The shortest timed recording, in seconds.
pub const MIN_RECORD_SECS: u64 = 1;

/// The longest timed recording, in seconds.
pub const MAX_RECORD_SECS: u64 = 15;

/// How long a timed recording waits for each event once the microphone is closed, in seconds.
pub const RECORD_WAIT_SECS: u64 = 120;

/// Checks the duration of a timed recording.
pub fn check_record_seconds(seconds: u64) -> (res: Result<(), StreamError>)
    ensures
        res is Ok <==> MIN_RECORD_SECS <= seconds <= MAX_RECORD_SECS,
        res matches Err(e) ==> e == StreamError::RecordDuration,
{
    if MIN_RECORD_SECS <= seconds && seconds <= MAX_RECORD_SECS {
        Ok(())
    } else {
        Err(StreamError::RecordDuration)
    }
}

/// What a timed recording makes of an event: nothing of a partial text; any other event ends
/// it.
pub fn record_outcome(event: StreamEvent) -> (res: Option<Result<StreamResult, StreamError>>)
    ensures
        match event {
            StreamEvent::Partial(_) => res is None,
            StreamEvent::Done(result) => res == Some(Ok::<StreamResult, StreamError>(result)),
            StreamEvent::Cancelled => res == Some(
                Err::<StreamResult, StreamError>(StreamError::RecordingCancelled),
            ),
            StreamEvent::Error(message) => res == Some(
                Err::<StreamResult, StreamError>(StreamError::Reported(message)),
            ),
        },
{
    match event {
        StreamEvent::Partial(_) => None,
        StreamEvent::Done(result) => Some(Ok(result)),
        StreamEvent::Cancelled => Some(Err(StreamError::RecordingCancelled)),
        StreamEvent::Error(message) => Some(Err(StreamError::Reported(message))),
    }
}

/// A microphone is the one asked for exactly if its name is known and is the configured one,
/// letter for letter.
pub proof fn law_microphones_go_by_their_name(names: Seq<Option<String>>, name: Seq<char>, i: int)
    requires
        0 <= i < names.len(),
    ensures
        names[i] is None ==> !is_named(names, name, i),
        names[i] matches Some(known) ==> (is_named(names, name, i) <==> known@ == name),
{
}

/// A timed recording takes from one to fifteen seconds, and then waits as long for each event as
/// the backend may take for the final result.
pub proof fn law_limits_of_a_timed_recording()
    ensures
        MIN_RECORD_SECS == 1,
        MAX_RECORD_SECS == 15,
        RECORD_WAIT_SECS * 1000 == DONE_TIMEOUT_MS,
{
}

} // verus!

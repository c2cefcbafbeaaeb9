//! The ways in which a dictation session can fail.

use vstd::prelude::*;

verus! {

/// A failure that the dictation core decides on.
#[derive(Debug, Clone)]
pub enum StreamError {
    /// A sample rate of zero cannot be resampled.
    ZeroSampleRate,
    /// A chunk arrived at another rate than the session's first one.
    SampleRateChanged,
    /// Captured audio was dropped because the queue was full.
    QueueOverflow,
    /// The backend closed the connection before the final result.
    ClosedBeforeDone,
    /// The final result did not come in time.
    DoneTimeout,
    /// The backend reported an error.
    Backend(String),
    /// The configured server address is neither a websocket nor a web address.
    UnsupportedUrl(String),
    /// The API key cannot be sent in a header, for this cause.
    InvalidApiKey(String),
    /// The health check got this answer instead of a success.
    HealthRefused(String),
    /// The backend is up but reports this status.
    Unhealthy(String),
    /// A timed recording must take between one and fifteen seconds.
    RecordDuration,
    /// A timed recording was cancelled.
    RecordingCancelled,
    /// A failure that another part of the program has described.
    Reported(String),
    /// There is no microphone to record from.
    NoInputDevice,
    /// The microphone delivers samples in this format, which is not understood.
    UnsupportedFormat(String),
}

impl StreamError {
    /// The message that a user is shown.
    pub open spec fn text(self) -> Seq<char> {
        match self {
            StreamError::ZeroSampleRate => "sample rates must be non-zero"@,
            StreamError::SampleRateChanged => "input sample rate changed mid-session"@,
            StreamError::QueueOverflow => {
                "audio capture queue overflowed; transcription discarded"@
            },
            StreamError::ClosedBeforeDone => "stream closed before done"@,
            StreamError::DoneTimeout => "timed out waiting for streaming done"@,
            StreamError::Backend(error) => "streaming backend: "@ + error@,
            StreamError::UnsupportedUrl(url) => {
                "unsupported streaming server URL '"@ + url@ + "'"@
            },
            StreamError::InvalidApiKey(cause) => "invalid streaming API key: "@ + cause@,
            StreamError::HealthRefused(status) => "healthz returned "@ + status@,
            StreamError::Unhealthy(status) => "streaming backend status is '"@ + status@ + "'"@,
            StreamError::RecordDuration => "record duration must be between 1 and 15 seconds"@,
            StreamError::RecordingCancelled => "recording was cancelled"@,
            StreamError::Reported(message) => message@,
            StreamError::NoInputDevice => "No default input device"@,
            StreamError::UnsupportedFormat(format) => "unsupported sample format: "@ + format@,
        }
    }

    /// Writes the message that a user is shown.
    pub fn message(&self) -> (res: String)
        ensures
            res@ == self.text(),
    {
        match self {
            StreamError::ZeroSampleRate => String::from_str("sample rates must be non-zero"),
            StreamError::SampleRateChanged => {
                String::from_str("input sample rate changed mid-session")
            },
            StreamError::QueueOverflow => {
                String::from_str("audio capture queue overflowed; transcription discarded")
            },
            StreamError::ClosedBeforeDone => String::from_str("stream closed before done"),
            StreamError::DoneTimeout => String::from_str("timed out waiting for streaming done"),
            StreamError::Backend(error) => {
                String::from_str("streaming backend: ").concat(error.as_str())
            },
            StreamError::UnsupportedUrl(url) => {
                String::from_str("unsupported streaming server URL '").concat(url.as_str()).concat(
                    "'",
                )
            },
            StreamError::InvalidApiKey(cause) => {
                String::from_str("invalid streaming API key: ").concat(cause.as_str())
            },
            StreamError::HealthRefused(status) => {
                String::from_str("healthz returned ").concat(status.as_str())
            },
            StreamError::Unhealthy(status) => {
                String::from_str("streaming backend status is '").concat(status.as_str()).concat(
                    "'",
                )
            },
            StreamError::RecordDuration => {
                String::from_str("record duration must be between 1 and 15 seconds")
            },
            StreamError::RecordingCancelled => String::from_str("recording was cancelled"),
            StreamError::Reported(message) => message.clone(),
            StreamError::NoInputDevice => String::from_str("No default input device"),
            StreamError::UnsupportedFormat(format) => {
                String::from_str("unsupported sample format: ").concat(format.as_str())
            },
        }
    }
}

/// An error that has a cause names it in full: what the backend, the server or another part of
/// the program said is part of the message, and comes last unless a quote closes it.
pub proof fn law_messages_name_their_cause(cause: String)
    ensures
        StreamError::Reported(cause).text() == cause@,
        cause@.is_suffix_of(StreamError::Backend(cause).text()),
        cause@.is_suffix_of(StreamError::InvalidApiKey(cause).text()),
        cause@.is_suffix_of(StreamError::HealthRefused(cause).text()),
        cause@.is_suffix_of(StreamError::UnsupportedFormat(cause).text()),
        (cause@ + "'"@).is_suffix_of(StreamError::UnsupportedUrl(cause).text()),
        (cause@ + "'"@).is_suffix_of(StreamError::Unhealthy(cause).text()),
        "streaming backend: "@.is_prefix_of(StreamError::Backend(cause).text()),
        "invalid streaming API key: "@.is_prefix_of(StreamError::InvalidApiKey(cause).text()),
        "healthz returned "@.is_prefix_of(StreamError::HealthRefused(cause).text()),
        "unsupported sample format: "@.is_prefix_of(StreamError::UnsupportedFormat(cause).text()),
        "unsupported streaming server URL '"@.is_prefix_of(
            StreamError::UnsupportedUrl(cause).text(),
        ),
        "streaming backend status is '"@.is_prefix_of(StreamError::Unhealthy(cause).text()),
        StreamError::Backend(cause).text().len() == "streaming backend: "@.len() + cause@.len(),
        StreamError::InvalidApiKey(cause).text().len() == "invalid streaming API key: "@.len()
            + cause@.len(),
        StreamError::HealthRefused(cause).text().len() == "healthz returned "@.len() + cause@.len(),
        StreamError::UnsupportedFormat(cause).text().len() == "unsupported sample format: "@.len()
            + cause@.len(),
        StreamError::UnsupportedUrl(cause).text().len()
            == "unsupported streaming server URL '"@.len() + cause@.len() + "'"@.len(),
        StreamError::Unhealthy(cause).text().len() == "streaming backend status is '"@.len()
            + cause@.len() + "'"@.len(),
{
    let quoted = cause@ + "'"@;
    lemma_parts("streaming backend: "@, cause@);
    lemma_parts("invalid streaming API key: "@, cause@);
    lemma_parts("healthz returned "@, cause@);
    lemma_parts("unsupported sample format: "@, cause@);
    lemma_parts("unsupported streaming server URL '"@, quoted);
    lemma_parts("streaming backend status is '"@, quoted);
    assert("unsupported streaming server URL '"@ + cause@ + "'"@
        =~= "unsupported streaming server URL '"@ + quoted);
    assert("streaming backend status is '"@ + cause@ + "'"@ =~= "streaming backend status is '"@
        + quoted);
}

proof fn lemma_parts(a: Seq<char>, b: Seq<char>)
    ensures
        a.is_prefix_of(a + b),
        b.is_suffix_of(a + b),
{
    assert(a =~= (a + b).subrange(0, a.len() as int));
    assert(b =~= (a + b).subrange((a + b).len() - b.len(), (a + b).len() as int));
}

/// The errors without a cause have these messages.
pub proof fn law_messages_without_a_cause()
    ensures
        StreamError::ZeroSampleRate.text() == "sample rates must be non-zero"@,
        StreamError::SampleRateChanged.text() == "input sample rate changed mid-session"@,
        StreamError::QueueOverflow.text()
            == "audio capture queue overflowed; transcription discarded"@,
        StreamError::ClosedBeforeDone.text() == "stream closed before done"@,
        StreamError::DoneTimeout.text() == "timed out waiting for streaming done"@,
        StreamError::RecordDuration.text() == "record duration must be between 1 and 15 seconds"@,
        StreamError::RecordingCancelled.text() == "recording was cancelled"@,
        StreamError::NoInputDevice.text() == "No default input device"@,
{
}

} // verus!

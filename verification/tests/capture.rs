use vibe_dictate::capture::{
    capture_format, check_record_seconds, pick_input_device, record_outcome, CaptureFormat,
    DeviceFormat, StreamingCapture,
};
use vibe_dictate::error::StreamError;
use vibe_dictate::protocol::Control;
use vibe_dictate::transcript::{StreamEvent, StreamResult};

#[test]
fn releasing_closes_the_microphone() {
    let mut capture = StreamingCapture::started();
    assert!(capture.is_recording() && !capture.cancel_token());
    assert_eq!(capture.release(), Control::Release);
    assert!(!capture.is_recording() && !capture.cancel_token());
    assert_eq!(capture.cancel(), Control::Cancel);
    assert!(!capture.is_recording() && capture.cancel_token());
    assert_eq!(capture.release(), Control::Release);
    assert!(capture.cancel_token());
}

#[test]
fn three_formats_are_understood() {
    assert!(matches!(capture_format(DeviceFormat::F32), Ok(CaptureFormat::F32)));
    assert!(matches!(capture_format(DeviceFormat::I16), Ok(CaptureFormat::I16)));
    assert!(matches!(capture_format(DeviceFormat::U16), Ok(CaptureFormat::U16)));
    let error = capture_format(DeviceFormat::Other("I32".to_string())).unwrap_err();
    assert!(matches!(error, StreamError::UnsupportedFormat(_)));
    assert_eq!(error.message(), "unsupported sample format: I32");
}

#[test]
fn the_first_microphone_with_the_name_is_taken() {
    let names: Vec<Option<String>> =
        vec![None, Some("a".to_string()), Some("b".to_string()), Some("b".to_string())];
    assert_eq!(pick_input_device(&names, &"b".to_string()), Some(2));
    assert_eq!(pick_input_device(&names, &"c".to_string()), None);
    assert_eq!(pick_input_device(&names, &String::new()), None);
    assert_eq!(pick_input_device(&[Some(String::new())], &String::new()), None);
    assert_eq!(StreamError::NoInputDevice.message(), "No default input device");
}

#[test]
fn recordings_take_one_to_fifteen_seconds() {
    for seconds in 1..=15 {
        assert!(check_record_seconds(seconds).is_ok());
    }
    for seconds in [0, 16, u64::MAX] {
        let error = check_record_seconds(seconds).unwrap_err();
        assert_eq!(error.message(), "record duration must be between 1 and 15 seconds");
    }
}

#[test]
fn a_recording_ends_with_the_first_decisive_event() {
    assert!(record_outcome(StreamEvent::Partial("x".to_string())).is_none());
    let result = StreamResult { text: "done".to_string(), ..StreamResult::default() };
    assert!(matches!(
        record_outcome(StreamEvent::Done(result)),
        Some(Ok(r)) if r.text == "done"
    ));
    let cancelled = record_outcome(StreamEvent::Cancelled).unwrap().unwrap_err();
    assert_eq!(cancelled.message(), "recording was cancelled");
    let failed = record_outcome(StreamEvent::Error("why".to_string())).unwrap().unwrap_err();
    assert!(matches!(&failed, StreamError::Reported(_)));
    assert_eq!(failed.message(), "why");
}

#[test]
fn a_cancelled_capture_stays_cancelled() {
    let mut capture = StreamingCapture::started();
    assert_eq!(capture.cancel(), Control::Cancel);
    assert_eq!(capture.release(), Control::Release);
    assert_eq!(capture.cancel(), Control::Cancel);
    assert!(!capture.is_recording() && capture.cancel_token());
}

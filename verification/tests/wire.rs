use vibe_dictate::error::StreamError;
use vibe_dictate::handshake::{authorization, config_message};
use vibe_dictate::resample::TARGET_SAMPLE_RATE;
use vibe_dictate::wire::{binary_message, encode_file, f32_bytes, END_MESSAGE, FILE_FRAME_SAMPLES};

#[test]
fn pcm_wire_bytes_are_little_endian_f32() {
    let samples: Vec<u32> = [1.0f32, -0.5].iter().map(|x| x.to_bits()).collect();
    assert_eq!(f32_bytes(&samples), vec![0, 0, 128, 63, 0, 0, 0, 191]);
}

#[test]
fn bytes_give_the_samples_back() {
    let samples: Vec<u32> = vec![0, 1, 0x1234_5678, u32::MAX, 0x8000_0000];
    let bytes = f32_bytes(&samples);
    assert_eq!(bytes.len(), 4 * samples.len());
    for (i, &x) in samples.iter().enumerate() {
        assert_eq!(bytes[4 * i..4 * i + 4], x.to_le_bytes());
    }
}

#[test]
fn nothing_is_sent_for_no_samples() {
    assert_eq!(binary_message(&[]), None);
    assert_eq!(binary_message(&[0x3f80_0000]), Some(vec![0, 0, 128, 63]));
    assert_eq!(END_MESSAGE, "end");
}

#[test]
fn a_file_goes_out_in_twentieths_of_a_second() {
    assert_eq!(FILE_FRAME_SAMPLES, TARGET_SAMPLE_RATE as usize / 20);
    let samples: Vec<u32> = (0..2_500).collect();
    let frames = encode_file(&samples);
    let sizes: Vec<usize> = frames.iter().map(|f| f.len()).collect();
    assert_eq!(sizes, vec![4_800, 4_800, 400]);
    assert_eq!(frames.concat(), f32_bytes(&samples));
    assert!(encode_file(&[]).is_empty());
}

#[test]
fn the_configuration_is_one_compact_object() {
    assert_eq!(
        config_message("test"),
        r#"{"context_info":"test","max_tokens":256,"temperature":0}"#
    );
    assert_eq!(
        config_message("a\"b\\c\n\t\r\u{8}\u{c}\u{1f}\u{7f}…"),
        "{\"context_info\":\"a\\\"b\\\\c\\n\\t\\r\\b\\f\\u001f\u{7f}…\",\"max_tokens\":256,\"temperature\":0}"
    );
}

#[test]
fn the_configuration_can_be_read_back() {
    let context = "Kubernetes, 中文 \u{0}\u{1}\u{b}\u{1a}\"";
    let value: serde_json::Value = serde_json::from_str(&config_message(context)).unwrap();
    assert_eq!(value["context_info"], context);
    assert_eq!(value["max_tokens"], 256);
    assert_eq!(value["temperature"], 0);
    assert_eq!(value.as_object().unwrap().len(), 3);
}

#[test]
fn blank_keys_send_no_header() {
    assert!(matches!(authorization(""), Ok(None)));
    assert!(matches!(authorization(" \t\n\u{3000}"), Ok(None)));
}

#[test]
fn keys_are_trimmed_and_sent_as_bearer() {
    assert_eq!(authorization("key").unwrap(), Some(b"Bearer key".to_vec()));
    assert_eq!(authorization("  a b\u{a0}\n").unwrap(), Some(b"Bearer a b".to_vec()));
    assert_eq!(authorization("a\tb").unwrap(), Some(b"Bearer a\tb".to_vec()));
    assert_eq!(authorization("schlüssel").unwrap(), Some("Bearer schlüssel".as_bytes().to_vec()));
}

#[test]
fn keys_with_control_characters_are_refused() {
    for key in ["a\nb", "a\u{0}b", "a\u{7f}b", "x\u{1f}"] {
        let error = authorization(key).unwrap_err();
        assert!(matches!(error, StreamError::InvalidApiKey(_)));
        assert_eq!(
            error.message(),
            "invalid streaming API key: failed to parse header value"
        );
    }
}

use vibe_dictate::chunking::split_chunks;
use vibe_dictate::text::{
    blank, decimal_string, has_prefix, has_suffix, trim, white_space, wide_text,
};

#[test]
fn white_space_is_that_of_unicode() {
    for v in 0..=0x10_ffff {
        if let Some(c) = char::from_u32(v) {
            assert_eq!(white_space(c), c.is_whitespace(), "{v:x}");
        }
    }
}

#[test]
fn trimming_agrees_with_the_standard_library() {
    for s in ["", " ", "a", " a", "a ", "\t a b \u{2028}", "\u{200b}x\u{200b}", "\u{3000}中\n"] {
        assert_eq!(trim(s), s.trim());
        assert_eq!(blank(s), s.trim().is_empty());
    }
}

#[test]
fn numbers_are_written_in_decimal() {
    for n in [0, 7, 9, 10, 42, 99, 100, 1_000_001, u64::MAX] {
        assert_eq!(decimal_string(n), n.to_string());
    }
}

#[test]
fn wide_text_is_utf16_with_a_zero() {
    for s in ["", "abc", "正在录音", "a𝄞b", "\u{ffff}\u{10000}\u{10ffff}"] {
        let expected: Vec<u16> = s.encode_utf16().chain([0]).collect();
        assert_eq!(wide_text(s), expected);
    }
}

#[test]
fn prefixes_and_suffixes() {
    assert!(has_prefix("ws://x", "ws://") && has_prefix("x", "") && has_prefix("中文", "中"));
    assert!(!has_prefix("ws:/", "ws://") && !has_prefix("wss://", "ws://"));
    assert!(has_suffix("/ws/asr", "/ws/asr") && has_suffix("x", "") && has_suffix("a中", "中"));
    assert!(!has_suffix("ws/asr", "/ws/asr") && !has_suffix("/ws/asr/", "/ws/asr"));
}

#[test]
fn chunks_are_full_but_for_the_last() {
    let samples: Vec<u32> = (0..7).collect();
    assert_eq!(split_chunks(&samples, 3), vec![vec![0, 1, 2], vec![3, 4, 5], vec![6]]);
    assert_eq!(split_chunks(&samples, 7), vec![samples.clone()]);
    assert_eq!(split_chunks(&samples, 1).concat(), samples);
    assert!(split_chunks(&[], 2).is_empty());
}

use vibe_dictate::card::{
    can_lay_out, can_measure, can_place, card_extent, card_text, effective_dpi, paint_card,
    place_card, standard_metrics, tail_text, work_area, Rect, TextStyle,
};
use vibe_dictate::overlay::OverlayState;

#[test]
fn short_texts_are_shown_whole() {
    let fits: String = "字".repeat(56);
    assert_eq!(tail_text(&fits), fits);
    assert_eq!(tail_text(""), "");
}

#[test]
fn long_texts_are_cut_to_their_end() {
    let text: String = ('a'..='z').cycle().take(57).collect();
    let expected: String = format!("…{}", &text[2..]);
    assert_eq!(tail_text(&text), expected);
    assert_eq!(tail_text(&text).chars().count(), 56);
    assert_eq!(tail_text(&tail_text(&text)), tail_text(&text));
}

#[test]
fn a_recording_card_counts_the_seconds() {
    let state = OverlayState::Recording {
        hotkey: "F8".to_string(),
        elapsed_secs: 120,
        transcript: Some("words".to_string()),
    };
    let text = card_text(&state).unwrap();
    assert_eq!(text.dot_color, 0x003333ee);
    assert_eq!(text.title, "正在录音");
    assert_eq!(text.detail, "F8 · 松开结束 · 120s");
    assert_eq!(text.body, "words");
    let waiting =
        OverlayState::Recording { hotkey: String::new(), elapsed_secs: 0, transcript: None };
    let text = card_text(&waiting).unwrap();
    assert_eq!(text.detail, " · 松开结束 · 0s");
    assert_eq!(text.body, "正在聆听，等待首个转写片段…");
}

#[test]
fn a_processing_card_waits_or_shows_words() {
    let text = card_text(&OverlayState::Processing { transcript: None }).unwrap();
    assert_eq!(text.dot_color, 0x0000a5ff);
    assert_eq!(text.title, "正在识别");
    assert_eq!(text.detail, "等待转写结果…");
    assert_eq!(text.body, "已松开按键，等待模型返回…");
    let live = OverlayState::Processing { transcript: Some("x".repeat(60)) };
    let text = card_text(&live).unwrap();
    assert_eq!(text.detail, "实时转写中…");
    assert_eq!(text.body, format!("…{}", "x".repeat(55)));
    assert!(card_text(&OverlayState::Hidden).is_none());
}

fn rect(left: i32, top: i32, right: i32, bottom: i32) -> Rect {
    Rect { left, top, right, bottom }
}

#[test]
fn the_card_is_painted_at_its_standard_size() {
    let state = OverlayState::Processing { transcript: Some("𝄞".to_string()) };
    assert_eq!(card_extent(rect(0, 0, 0, 0)), (480, 120));
    let paint = paint_card(&state, 480, 120, standard_metrics());
    assert_eq!(paint.card, rect(0, 0, 480, 120));
    assert_eq!((paint.background, paint.border), (0x00140d0a, 0x004f4038));
    let content = paint.content.unwrap();
    assert_eq!((content.dot, content.dot_color), (rect(20, 18, 36, 34), 0x0000a5ff));
    assert_eq!(content.title.area, rect(48, 10, 460, 38));
    assert_eq!((content.title.color, content.title.style), (0x00ffffff, TextStyle::Title));
    assert_eq!(content.detail.area, rect(48, 34, 460, 54));
    assert_eq!((content.detail.color, content.detail.style), (0x00c7bdb6, TextStyle::Detail));
    assert_eq!(content.body.area, rect(20, 62, 460, 106));
    assert_eq!((content.body.color, content.body.style), (0x00f5f1ed, TextStyle::Body));
    assert_eq!(content.body.units, vec![0xd834, 0xdd1e, 0]);
    let title: Vec<u16> = "正在识别\0".encode_utf16().collect();
    assert_eq!(content.title.units, title);
}

#[test]
fn a_hidden_card_is_only_background() {
    let paint = paint_card(&OverlayState::Hidden, 960, 240, standard_metrics());
    assert_eq!(paint.card, rect(0, 0, 960, 240));
    assert!(paint.content.is_none());
    assert_eq!(card_extent(rect(10, 10, 970, 100)), (960, 120));
}

#[test]
fn the_card_goes_to_the_middle_of_the_lower_edge() {
    let area = rect(0, 0, 1920, 1040);
    assert_eq!(place_card(area, 480, 120, 28), (720, 892));
    assert_eq!(place_card(rect(-1920, -100, -1, 1000), 480, 120, 28), (-1201, 852));
    assert_eq!(place_card(rect(100, 50, 300, 100), 480, 120, 28), (100, 50));
    assert_eq!(place_card(rect(0, 0, 481, 148), 480, 120, 28), (0, 0));
}

#[test]
fn the_screen_stands_in_for_an_unknown_monitor() {
    assert_eq!(work_area(Some(rect(1, 2, 3, 4)), 5, 6), rect(1, 2, 3, 4));
    assert_eq!(work_area(None, 5, 6), rect(0, 0, 5, 6));
    assert_eq!(effective_dpi(0, 96), 96);
    assert_eq!(effective_dpi(144, 96), 144);
}

#[test]
fn coordinates_out_of_range_are_noticed() {
    let m = standard_metrics();
    assert!(can_measure(rect(0, 0, 480, 120)));
    assert!(!can_measure(rect(-1, 0, i32::MAX, 120)));
    assert!(can_lay_out(480, 120, m));
    assert!(!can_lay_out(i32::MIN, 120, m));
    assert!(can_place(rect(0, 0, 1920, 1040), 480, 120, 28));
    assert!(!can_place(rect(i32::MIN, 0, i32::MAX, 1040), 480, 120, 28));
    assert!(!can_place(rect(0, 0, 1920, i32::MIN), 480, 120, 28));
}

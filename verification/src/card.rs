//! What the status card looks like: its wording, its colours and where everything goes.

use crate::overlay::{not_blank, OverlayState, StateView};
use crate::text::{decimal, decimal_string, is_blank, opt_text, utf16, wide_text};
use vstd::prelude::*;

verus! {

/// The width of the card at the standard resolution.
pub const CARD_WIDTH: i32 = 480;

/// The height of the card at the standard resolution.
pub const CARD_HEIGHT: i32 = 120;

/// How far the card stays above the lower edge at the standard resolution.
pub const CARD_MARGIN: i32 = 28;

/// How many characters of a transcript the card has room for.
pub const MAX_VISIBLE_CHARS: usize = 56;

// Colours are stored as 0x00BBGGRR.
pub const BACKGROUND_COLOR: u32 = 0x00140d0a;

pub const BORDER_COLOR: u32 = 0x004f4038;

pub const RECORDING_COLOR: u32 = 0x003333ee;

pub const PROCESSING_COLOR: u32 = 0x0000a5ff;

pub const TITLE_COLOR: u32 = 0x00ffffff;

pub const DETAIL_COLOR: u32 = 0x00c7bdb6;

pub const BODY_COLOR: u32 = 0x00f5f1ed;

/// A rectangle on the screen or inside the card.
#[derive(Debug, Clone, Copy, PartialEq, Eq, Structural)]
pub struct Rect {
    pub left: i32,
    pub top: i32,
    pub right: i32,
    pub bottom: i32,
}

/// The visible end of a text: all of it if there is room, else an ellipsis and as many of the
/// last characters as fit behind it.
pub open spec fn tail(text: Seq<char>) -> Seq<char> {
    if text.len() <= MAX_VISIBLE_CHARS {
        text
    } else {
        "…"@ + text.skip(text.len() - (MAX_VISIBLE_CHARS - 1))
    }
}

/// Cuts a text to its visible end.
pub fn tail_text(text: &str) -> (res: String)
    ensures
        res@ == tail(text@),
{
    let count: usize = text.unicode_len();
    if count <= MAX_VISIBLE_CHARS {
        return String::from_str(text);
    }
    let end: &str = text.substring_char(count - (MAX_VISIBLE_CHARS - 1), count);
    assert(end@ =~= text@.skip(text@.len() - (MAX_VISIBLE_CHARS - 1)));
    String::from_str("…").concat(end)
}

/// The visible end never takes more room than there is.
pub proof fn law_tail_fits(text: Seq<char>)
    ensures
        tail(text).len() <= MAX_VISIBLE_CHARS,
        text.len() > MAX_VISIBLE_CHARS ==> tail(text).len() == MAX_VISIBLE_CHARS,
{
    reveal_strlit("…");
}

/// The visible end shows the newest words: its last characters are those of the text.
pub proof fn law_tail_shows_the_end(text: Seq<char>, k: int)
    requires
        0 <= k < MAX_VISIBLE_CHARS - 1,
        k < text.len(),
    ensures
        tail(text)[tail(text).len() - 1 - k] == text[text.len() - 1 - k],
{
    reveal_strlit("…");
}

/// Cutting a text again changes nothing.
pub proof fn law_tail_is_stable(text: Seq<char>)
    ensures
        tail(tail(text)) == tail(text),
{
    law_tail_fits(text);
}

/// The words on the card.
#[derive(Debug)]
pub struct CardText {
    /// The colour of the dot.
    pub dot_color: u32,
    pub title: String,
    pub detail: String,
    pub body: String,
}

/// What the words on the card say.
pub struct CardTextView {
    pub dot_color: u32,
    pub title: Seq<char>,
    pub detail: Seq<char>,
    pub body: Seq<char>,
}

impl View for CardText {
    type V = CardTextView;

    open spec fn view(&self) -> CardTextView {
        CardTextView {
            dot_color: self.dot_color,
            title: self.title@,
            detail: self.detail@,
            body: self.body@,
        }
    }
}

/// The end of a transcript, or a stand-in while there is none.
pub open spec fn body_text(transcript: Option<Seq<char>>, stand_in: Seq<char>) -> Seq<char> {
    match transcript {
        Some(text) => tail(text),
        None => stand_in,
    }
}

/// The words for each state; a hidden card has none.
pub open spec fn wording(state: StateView) -> Option<CardTextView> {
    match state {
        StateView::Hidden => None,
        StateView::Recording { hotkey, elapsed_secs, transcript } => Some(
            CardTextView {
                dot_color: RECORDING_COLOR,
                title: "正在录音"@,
                detail: hotkey + " · 松开结束 · "@ + decimal(elapsed_secs as nat) + "s"@,
                body: body_text(transcript, "正在聆听，等待首个转写片段…"@),
            },
        ),
        StateView::Processing { transcript } => Some(
            CardTextView {
                dot_color: PROCESSING_COLOR,
                title: "正在识别"@,
                detail: if transcript is Some {
                    "实时转写中…"@
                } else {
                    "等待转写结果…"@
                },
                body: body_text(transcript, "已松开按键，等待模型返回…"@),
            },
        ),
    }
}

fn body_of(transcript: &Option<String>, stand_in: &str) -> (res: String)
    ensures
        res@ == body_text(opt_text(*transcript), stand_in@),
{
    match transcript {
        Some(text) => tail_text(text.as_str()),
        None => String::from_str(stand_in),
    }
}

/// Words the card for a state.
pub fn card_text(state: &OverlayState) -> (res: Option<CardText>)
    ensures
        res is Some <==> wording(state@) is Some,
        res matches Some(text) ==> wording(state@) == Some(text@),
{
    match state {
        OverlayState::Hidden => None,
        OverlayState::Recording { hotkey, elapsed_secs, transcript } => Some(
            CardText {
                dot_color: RECORDING_COLOR,
                title: String::from_str("正在录音"),
                detail: hotkey.clone().concat(" · 松开结束 · ").concat(
                    decimal_string(*elapsed_secs).as_str(),
                ).concat("s"),
                body: body_of(transcript, "正在聆听，等待首个转写片段…"),
            },
        ),
        OverlayState::Processing { transcript } => Some(
            CardText {
                dot_color: PROCESSING_COLOR,
                title: String::from_str("正在识别"),
                detail: if transcript.is_some() {
                    String::from_str("实时转写中…")
                } else {
                    String::from_str("等待转写结果…")
                },
                body: body_of(transcript, "已松开按键，等待模型返回…"),
            },
        ),
    }
}

/// The distances inside the card, in pixels.
#[derive(Debug, Clone, Copy, PartialEq, Eq, Structural)]
pub struct CardMetrics {
    /// Between the card's edge and its contents.
    pub pad: i32,
    /// The diameter of the dot.
    pub dot: i32,
    pub dot_top: i32,
    /// Between the dot and the words beside it.
    pub gap: i32,
    pub title_top: i32,
    pub title_bottom: i32,
    pub detail_top: i32,
    pub detail_bottom: i32,
    pub body_top: i32,
    /// Between the body and the card's lower edge.
    pub body_margin: i32,
    /// The heights of the fonts.
    pub title_font: i32,
    pub body_font: i32,
}

/// The distances at the standard resolution.
pub fn standard_metrics() -> (res: CardMetrics)
    ensures
        res == (CardMetrics {
            pad: 20,
            dot: 16,
            dot_top: 18,
            gap: 12,
            title_top: 10,
            title_bottom: 38,
            detail_top: 34,
            detail_bottom: 54,
            body_top: 62,
            body_margin: 14,
            title_font: 20,
            body_font: 16,
        }),
{
    CardMetrics {
        pad: 20,
        dot: 16,
        dot_top: 18,
        gap: 12,
        title_top: 10,
        title_bottom: 38,
        detail_top: 34,
        detail_bottom: 54,
        body_top: 62,
        body_margin: 14,
        title_font: 20,
        body_font: 16,
    }
}

/// Whether the extent of an area can be represented.
pub open spec fn extent_fits(area: Rect) -> bool {
    &&& i32::MIN <= area.right - area.left <= i32::MAX
    &&& i32::MIN <= area.bottom - area.top <= i32::MAX
}

/// Tells whether the extent of an area can be represented.
pub fn can_measure(area: Rect) -> (res: bool)
    ensures
        res == extent_fits(area),
{
    area.right.checked_sub(area.left).is_some() && area.bottom.checked_sub(area.top).is_some()
}

/// The size at which the card is painted into a client area: never below its standard size.
pub fn card_extent(client: Rect) -> (res: (i32, i32))
    requires
        extent_fits(client),
    ensures
        res.0 == if client.right - client.left > CARD_WIDTH {
            client.right - client.left
        } else {
            CARD_WIDTH as int
        },
        res.1 == if client.bottom - client.top > CARD_HEIGHT {
            client.bottom - client.top
        } else {
            CARD_HEIGHT as int
        },
{
    let width: i32 = client.right - client.left;
    let height: i32 = client.bottom - client.top;
    (
        if width > CARD_WIDTH {
            width
        } else {
            CARD_WIDTH
        },
        if height > CARD_HEIGHT {
            height
        } else {
            CARD_HEIGHT
        },
    )
}

/// How a piece of text is set.
#[derive(Debug, Clone, Copy, PartialEq, Eq, Structural)]
pub enum TextStyle {
    /// One line in the title font.
    Title,
    /// One line in the body font, cut with an ellipsis.
    Detail,
    /// Several lines in the body font, cut with an ellipsis.
    Body,
}

/// A piece of text to paint.
#[derive(Debug)]
pub struct TextRun {
    /// The text as zero-terminated UTF-16.
    pub units: Vec<u16>,
    pub color: u32,
    pub area: Rect,
    pub style: TextStyle,
}

impl TextRun {
    /// Whether this paints `text` in the given way.
    pub open spec fn paints(
        self,
        text: Seq<char>,
        color: u32,
        area: Rect,
        style: TextStyle,
    ) -> bool {
        &&& self.units@ == utf16(text).push(0)
        &&& self.color == color
        &&& self.area == area
        &&& self.style == style
    }
}

/// The contents of a card that is not hidden.
#[derive(Debug)]
pub struct CardContent {
    /// Where the dot goes.
    pub dot: Rect,
    pub dot_color: u32,
    pub title: TextRun,
    pub detail: TextRun,
    pub body: TextRun,
}

/// All that is painted.
#[derive(Debug)]
pub struct CardPaint {
    /// The area of the card, filled with the background colour and framed in the border colour.
    pub card: Rect,
    pub background: u32,
    pub border: u32,
    pub content: Option<CardContent>,
}

/// Whether every coordinate of the layout can be represented.
pub open spec fn layout_fits(width: i32, height: i32, m: CardMetrics) -> bool {
    &&& i32::MIN <= m.pad + m.dot <= i32::MAX
    &&& i32::MIN <= m.dot_top + m.dot <= i32::MAX
    &&& i32::MIN <= m.pad + m.dot + m.gap <= i32::MAX
    &&& i32::MIN <= width - m.pad <= i32::MAX
    &&& i32::MIN <= height - m.body_margin <= i32::MAX
}

/// Tells whether every coordinate of the layout can be represented.
pub fn can_lay_out(width: i32, height: i32, m: CardMetrics) -> (res: bool)
    ensures
        res == layout_fits(width, height, m),
{
    match m.pad.checked_add(m.dot) {
        Some(beside) => beside.checked_add(m.gap).is_some() && m.dot_top.checked_add(
            m.dot,
        ).is_some() && width.checked_sub(m.pad).is_some() && height.checked_sub(
            m.body_margin,
        ).is_some(),
        None => false,
    }
}

/// Where the dot goes.
pub open spec fn dot_area(m: CardMetrics) -> Rect {
    Rect {
        left: m.pad,
        top: m.dot_top,
        right: (m.pad + m.dot) as i32,
        bottom: (m.dot_top + m.dot) as i32,
    }
}

/// A line of words beside the dot.
pub open spec fn line_area(width: i32, m: CardMetrics, top: i32, bottom: i32) -> Rect {
    Rect { left: (m.pad + m.dot + m.gap) as i32, top, right: (width - m.pad) as i32, bottom }
}

/// The rest of the card.
pub open spec fn body_area(width: i32, height: i32, m: CardMetrics) -> Rect {
    Rect {
        left: m.pad,
        top: m.body_top,
        right: (width - m.pad) as i32,
        bottom: (height - m.body_margin) as i32,
    }
}

/// Decides what is painted for a state on a card of the given size.
pub fn paint_card(state: &OverlayState, width: i32, height: i32, m: CardMetrics) -> (res: CardPaint)
    requires
        state@ is Hidden || layout_fits(width, height, m),
    ensures
        res.card == (Rect { left: 0, top: 0, right: width, bottom: height }),
        res.background == BACKGROUND_COLOR,
        res.border == BORDER_COLOR,
        match res.content {
            None => wording(state@) is None,
            Some(content) => {
                &&& wording(state@) matches Some(words)
                &&& content.dot == dot_area(m)
                &&& content.dot_color == words.dot_color
                &&& content.title.paints(
                    words.title,
                    TITLE_COLOR,
                    line_area(width, m, m.title_top, m.title_bottom),
                    TextStyle::Title,
                )
                &&& content.detail.paints(
                    words.detail,
                    DETAIL_COLOR,
                    line_area(width, m, m.detail_top, m.detail_bottom),
                    TextStyle::Detail,
                )
                &&& content.body.paints(
                    words.body,
                    BODY_COLOR,
                    body_area(width, height, m),
                    TextStyle::Body,
                )
            },
        },
{
    let content: Option<CardContent> = match card_text(state) {
        None => None,
        Some(words) => {
            let beside: i32 = m.pad + m.dot + m.gap;
            let right: i32 = width - m.pad;
            let title = TextRun {
                units: wide_text(words.title.as_str()),
                color: TITLE_COLOR,
                area: Rect { left: beside, top: m.title_top, right, bottom: m.title_bottom },
                style: TextStyle::Title,
            };
            let detail = TextRun {
                units: wide_text(words.detail.as_str()),
                color: DETAIL_COLOR,
                area: Rect { left: beside, top: m.detail_top, right, bottom: m.detail_bottom },
                style: TextStyle::Detail,
            };
            let body = TextRun {
                units: wide_text(words.body.as_str()),
                color: BODY_COLOR,
                area: Rect {
                    left: m.pad,
                    top: m.body_top,
                    right,
                    bottom: height - m.body_margin,
                },
                style: TextStyle::Body,
            };
            let dot = Rect {
                left: m.pad,
                top: m.dot_top,
                right: m.pad + m.dot,
                bottom: m.dot_top + m.dot,
            };
            Some(CardContent { dot, dot_color: words.dot_color, title, detail, body })
        },
    };
    CardPaint {
        card: Rect { left: 0, top: 0, right: width, bottom: height },
        background: BACKGROUND_COLOR,
        border: BORDER_COLOR,
        content,
    }
}

/// An empty partial renders a waiting message, not an empty card.
pub proof fn law_blank_partial_shows_waiting(transcript: Seq<char>)
    requires
        is_blank(transcript),
    ensures
        wording(
            StateView::Processing { transcript: not_blank(Some(transcript)) },
        ) matches Some(words) && words.detail == "等待转写结果…"@ && words.body
            == "已松开按键，等待模型返回…"@,
{
}

/// The card shows the elapsed seconds and the newest words for as long as recording goes on.
pub proof fn law_recording_card_shows_progress(
    hotkey: Seq<char>,
    elapsed_secs: u64,
    transcript: Seq<char>,
)
    ensures
        wording(
            StateView::Recording { hotkey, elapsed_secs, transcript: Some(transcript) },
        ) matches Some(words) && words.dot_color == RECORDING_COLOR && (decimal(elapsed_secs as nat)
            + "s"@).is_suffix_of(words.detail) && words.body == tail(transcript),
{
    let words = wording(
        StateView::Recording { hotkey, elapsed_secs, transcript: Some(transcript) },
    )->0;
    let end = decimal(elapsed_secs as nat) + "s"@;
    assert(end =~= words.detail.subrange(
        words.detail.len() - end.len(),
        words.detail.len() as int,
    ));
}

/// Where a card of the given size goes on a work area: centred, and just above the lower edge,
/// but never left of or above the area.
pub open spec fn card_position(area: Rect, width: i32, height: i32, margin: i32) -> (int, int) {
    let slack = area.right - area.left - width;
    let above = area.bottom - height - margin;
    (
        if slack > 0 {
            area.left + slack / 2
        } else {
            area.left as int
        },
        if above > area.top {
            above
        } else {
            area.top as int
        },
    )
}

/// Whether every coordinate of the placement can be represented.
pub open spec fn placement_fits(area: Rect, width: i32, height: i32, margin: i32) -> bool {
    &&& i32::MIN <= area.right - area.left <= i32::MAX
    &&& i32::MIN <= area.right - area.left - width <= i32::MAX
    &&& i32::MIN <= area.bottom - height <= i32::MAX
    &&& i32::MIN <= area.bottom - height - margin <= i32::MAX
    &&& card_position(area, width, height, margin).0 <= i32::MAX
}

/// Tells whether every coordinate of the placement can be represented.
pub fn can_place(area: Rect, width: i32, height: i32, margin: i32) -> (res: bool)
    ensures
        res == placement_fits(area, width, height, margin),
{
    let wide: i32 = match area.right.checked_sub(area.left) {
        Some(wide) => wide,
        None => return false,
    };
    let slack: i32 = match wide.checked_sub(width) {
        Some(slack) => slack,
        None => return false,
    };
    let above: i32 = match area.bottom.checked_sub(height) {
        Some(above) => above,
        None => return false,
    };
    above.checked_sub(margin).is_some() && (slack <= 0 || area.left.checked_add(
        slack / 2,
    ).is_some())
}

/// Decides where the card goes.
pub fn place_card(area: Rect, width: i32, height: i32, margin: i32) -> (res: (i32, i32))
    requires
        placement_fits(area, width, height, margin),
    ensures
        (res.0 as int, res.1 as int) == card_position(area, width, height, margin),
{
    let slack: i32 = area.right - area.left - width;
    let x: i32 = if slack > 0 {
        area.left + slack / 2
    } else {
        area.left
    };
    let above: i32 = area.bottom - height - margin;
    let y: i32 = if above > area.top {
        above
    } else {
        area.top
    };
    (x, y)
}

/// A card that fits into the work area lies inside it, as far from the left as from the right
/// edge up to one pixel, with the margin below it.
pub proof fn law_card_stays_on_screen(area: Rect, width: i32, height: i32, margin: i32)
    requires
        0 <= width <= area.right - area.left,
        0 <= height,
        0 <= margin,
        height + margin <= area.bottom - area.top,
    ensures
        ({
            let (x, y) = card_position(area, width, height, margin);
            &&& area.left <= x
            &&& x + width <= area.right
            &&& 0 <= (area.right - (x + width)) - (x - area.left) <= 1
            &&& area.top <= y
            &&& y + height + margin == area.bottom
        }),
{
}

/// Picks the work area: that of the monitor if it is known, else the whole screen.
pub fn work_area(monitor: Option<Rect>, screen_width: i32, screen_height: i32) -> (res: Rect)
    ensures
        res == match monitor {
            Some(area) => area,
            None => Rect { left: 0, top: 0, right: screen_width, bottom: screen_height },
        },
{
    match monitor {
        Some(area) => area,
        None => Rect { left: 0, top: 0, right: screen_width, bottom: screen_height },
    }
}

/// Picks the resolution: the window's, unless it is not known.
pub fn effective_dpi(window_dpi: u32, system_dpi: u32) -> (res: u32)
    ensures
        res == if window_dpi == 0 {
            system_dpi
        } else {
            window_dpi
        },
{
    if window_dpi == 0 {
        system_dpi
    } else {
        window_dpi
    }
}

/// The card shows the newest words in every state that has a transcript, while recording and
/// while processing alike: its body is the transcript if that has at most 56 characters, and
/// otherwise an ellipsis and its last 55 characters.
pub proof fn law_newest_words_are_shown(
    hotkey: Seq<char>,
    elapsed_secs: u64,
    transcript: Seq<char>,
    k: int,
)
    ensures
        ({
            &&& wording(
                StateView::Recording { hotkey, elapsed_secs, transcript: Some(transcript) },
            ) matches Some(words)
            &&& wording(StateView::Processing { transcript: Some(transcript) }) matches Some(other)
            &&& words.body == other.body
            &&& transcript.len() <= 56 ==> words.body == transcript
            &&& transcript.len() > 56 ==> words.body.len() == 56 && words.body[0] == '…'
            &&& 0 <= k < 55 && k < transcript.len() ==> words.body[words.body.len() - 1 - k]
                == transcript[transcript.len() - 1 - k]
        }),
{
    reveal_strlit("…");
    if 0 <= k < 55 && k < transcript.len() {
        law_tail_shows_the_end(transcript, k);
    }
}

/// A card keeps up with its transcript: in either state, whatever is appended to a transcript is
/// at the end of the body, as far as there is room for it.
pub proof fn law_appended_words_are_shown(
    hotkey: Seq<char>,
    elapsed_secs: u64,
    transcript: Seq<char>,
    more: Seq<char>,
)
    requires
        more.len() <= 55,
    ensures
        wording(
            StateView::Recording { hotkey, elapsed_secs, transcript: Some(transcript + more) },
        ) matches Some(words) && more.is_suffix_of(words.body),
        wording(StateView::Processing { transcript: Some(transcript + more) }) matches Some(words)
            && more.is_suffix_of(words.body),
{
    reveal_strlit("…");
    let body = tail(transcript + more);
    assert(more =~= body.subrange(body.len() - more.len(), body.len() as int));
}

/// A hidden card has no words, and any other has. The dot and the title tell recording from
/// processing. While recording, the detail is the hotkey followed by how to end and the elapsed
/// seconds; while processing, it says whether there is a transcript. Without one the body says
/// what the card is waiting for.
pub proof fn law_words_of_each_state(
    hotkey: Seq<char>,
    elapsed_secs: u64,
    transcript: Option<Seq<char>>,
)
    ensures
        wording(StateView::Hidden) is None,
        ({
            let end = " · 松开结束 · "@ + (decimal(elapsed_secs as nat) + "s"@);
            &&& wording(StateView::Recording { hotkey, elapsed_secs, transcript }) matches Some(w)
            &&& w.dot_color == RECORDING_COLOR
            &&& w.title == "正在录音"@
            &&& w.detail.len() == hotkey.len() + end.len()
            &&& hotkey.is_prefix_of(w.detail)
            &&& end.is_suffix_of(w.detail)
            &&& transcript is None ==> w.body == "正在聆听，等待首个转写片段…"@
        }),
        ({
            &&& wording(StateView::Processing { transcript }) matches Some(w)
            &&& w.dot_color == PROCESSING_COLOR
            &&& w.title == "正在识别"@
            &&& transcript is Some ==> w.detail == "实时转写中…"@
            &&& transcript is None ==> w.detail == "等待转写结果…"@
            &&& transcript is None ==> w.body == "已松开按键，等待模型返回…"@
        }),
        RECORDING_COLOR != PROCESSING_COLOR,
{
    let end = " · 松开结束 · "@ + (decimal(elapsed_secs as nat) + "s"@);
    let detail = wording(StateView::Recording { hotkey, elapsed_secs, transcript })->0.detail;
    assert(detail =~= hotkey + end);
    assert(hotkey =~= detail.subrange(0, hotkey.len() as int));
    assert(end =~= detail.subrange(detail.len() - end.len(), detail.len() as int));
}

/// A text that fits is shown as it stands, and a longer one behind an ellipsis.
pub proof fn law_only_long_texts_are_cut(text: Seq<char>)
    ensures
        text.len() <= 56 ==> tail(text) == text,
        text.len() > 56 ==> tail(text).len() == 56 && tail(text)[0] == '…',
{
    reveal_strlit("…");
}

/// The dot is as wide as it is high and begins at the padding. The lines beside it begin a gap
/// behind it, and they and the body end at the padding. The body begins at the padding and
/// leaves its margin below it.
pub proof fn law_layout(width: i32, height: i32, m: CardMetrics, top: i32, bottom: i32)
    requires
        layout_fits(width, height, m),
    ensures
        ({
            let dot = dot_area(m);
            let line = line_area(width, m, top, bottom);
            let body = body_area(width, height, m);
            &&& dot.left == m.pad
            &&& dot.top == m.dot_top
            &&& dot.right - dot.left == m.dot
            &&& dot.bottom - dot.top == m.dot
            &&& line.left - dot.right == m.gap
            &&& width - line.right == m.pad
            &&& line.top == top
            &&& line.bottom == bottom
            &&& body.left == m.pad
            &&& width - body.right == m.pad
            &&& body.top == m.body_top
            &&& height - body.bottom == m.body_margin
        }),
{
}

/// Whether a coordinate is one that real screens have.
pub open spec fn ordinary(x: i32) -> bool {
    -0x1000_0000 <= x <= 0x1000_0000
}

/// A card can be measured, laid out and placed on every screen whose coordinates are anywhere
/// near those of real ones.
pub proof fn law_ordinary_screens_fit(area: Rect, width: i32, height: i32, margin: i32, m: CardMetrics)
    requires
        ordinary(area.left) && ordinary(area.top) && ordinary(area.right) && ordinary(area.bottom),
        ordinary(width) && ordinary(height) && ordinary(margin),
        ordinary(m.pad) && ordinary(m.dot) && ordinary(m.dot_top) && ordinary(m.gap) && ordinary(
            m.body_margin,
        ),
    ensures
        extent_fits(area),
        layout_fits(width, height, m),
        placement_fits(area, width, height, margin),
{
}

/// On each axis for itself: a card that has room is centred, or keeps its margin, and one that
/// has none begins where the work area does.
pub proof fn law_card_position_on_each_axis(area: Rect, width: i32, height: i32, margin: i32)
    ensures
        ({
            let (x, y) = card_position(area, width, height, margin);
            &&& width >= area.right - area.left ==> x == area.left
            &&& width < area.right - area.left ==> {
                &&& area.left <= x
                &&& 0 <= (area.right - (x + width)) - (x - area.left) <= 1
            }
            &&& height + margin >= area.bottom - area.top ==> y == area.top
            &&& height + margin < area.bottom - area.top ==> y + height + margin == area.bottom
        }),
{
}

/// What is painted for a text is its code units and the closing zero, in the given way.
pub proof fn law_text_runs(run: TextRun, text: Seq<char>, color: u32, area: Rect, style: TextStyle)
    requires
        run.paints(text, color, area, style),
    ensures
        run.units@.len() == utf16(text).len() + 1,
        run.units@.last() == 0,
        run.units@.drop_last() == utf16(text),
        run.color == color,
        run.area == area,
        run.style == style,
{
    assert(run.units@.drop_last() =~= utf16(text));
}

/// The part of a colour that is red, green or blue; colours are stored as 0x00BBGGRR.
pub open spec fn rgb(color: u32) -> (int, int, int) {
    (color as int % 0x100, color as int / 0x100 % 0x100, color as int / 0x1_0000)
}

/// A card is four times as wide as high. The recording dot is red and the processing dot is
/// orange; on the dark card the title is white, and the detail and the body are nearly so.
pub proof fn law_look_of_the_card()
    ensures
        CARD_WIDTH == 480,
        CARD_HEIGHT == 120,
        CARD_MARGIN == 28,
        rgb(BACKGROUND_COLOR) == (0x0Aint, 0x0Dint, 0x14int),
        rgb(BORDER_COLOR) == (0x38int, 0x40int, 0x4Fint),
        rgb(RECORDING_COLOR) == (0xEEint, 0x33int, 0x33int),
        rgb(PROCESSING_COLOR) == (0xFFint, 0xA5int, 0int),
        rgb(TITLE_COLOR) == (0xFFint, 0xFFint, 0xFFint),
        rgb(DETAIL_COLOR) == (0xB6int, 0xBDint, 0xC7int),
        rgb(BODY_COLOR) == (0xEDint, 0xF1int, 0xF5int),
{
}

} // verus!

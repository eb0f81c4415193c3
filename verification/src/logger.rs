//! The status publisher: the device state as text for the host.
//!
//! The publisher looks at the latest device state at a fixed period. When
//! the state differs from the one it showed last, it renders one frame of
//! six buffers; when it does not, it renders nothing. It never changes the
//! state.
use vstd::prelude::*;

use crate::ansi::cyan;
use crate::ansi::epilogue_bytes;
use crate::ansi::magenta;
use crate::ansi::yellow;
use crate::ansi::Canvas;
use crate::ansi::Color;
use crate::ansi::Colorable;
use crate::ansi::FormatColor;
use crate::ansi::WithForeground;
use crate::channels::cell_value;
use crate::channels::cell_version;
use crate::channels::news;
use crate::channels::GlobalDataChannel;
use crate::channels::GlobalDataChannelRx;
use crate::event_router::ButtonPhase;
use crate::event_router::GlobalData;
use crate::text::decimal;
use crate::text::fill_chunk;
use crate::text::lemma_decimal_digits;
use crate::text::lemma_decimal_len;
use crate::text::lemma_decimal_len_u64;
use crate::text::padded;
use crate::text::pow10;
use crate::text::render_decimal;
use crate::text::Text;
use crate::usb_io::is_packet_len;

verus! {

/// Time between two looks at the device state, in milliseconds.
pub const STATUS_PERIOD: u64 = 100;

/// Number of buffers in one status frame.
pub const FRAME_CHUNKS: usize = 6;

/// The sequence that hides the cursor.
pub open spec fn hide_cursor_text() -> Seq<u8> {
    seq![0x1Bu8, 0x5Bu8, 0x3Fu8, 0x32u8, 0x35u8, 0x6Cu8]
}

/// The sequence that moves the cursor to the home position.
pub open spec fn home_text() -> Seq<u8> {
    seq![0x1Bu8, 0x5Bu8, 0x48u8]
}

/// The sequence that clears the rest of the line and begins a new one.
pub open spec fn new_line_text() -> Seq<u8> {
    seq![0x1Bu8, 0x5Bu8, 0x30u8, 0x4Bu8, 0x0Du8, 0x0Au8]
}

/// The sequence that shows the cursor.
pub open spec fn show_cursor_text() -> Seq<u8> {
    seq![0x1Bu8, 0x5Bu8, 0x3Fu8, 0x32u8, 0x35u8, 0x68u8]
}

/// The elapsed seconds in cyan, then `sec` and a space.
pub open spec fn elapsed_text(secs: u64) -> Seq<u8> {
    Color::Cyan.prelude_spec(Canvas::Foreground) + decimal(secs as nat) + epilogue_bytes(
        Canvas::Foreground,
    ) + seq![0x73u8, 0x65u8, 0x63u8, 0x20u8]
}

/// `Button` and the number of the phase.
pub open spec fn button_text(phase: ButtonPhase) -> Seq<u8> {
    seq![0x42u8, 0x75u8, 0x74u8, 0x74u8, 0x6Fu8, 0x6Eu8] + decimal(phase.code_spec() as nat)
}

/// The texts of one status frame, in the order in which they are sent.
pub open spec fn status_texts(secs: u64, data: GlobalData) -> Seq<Seq<u8>> {
    seq![
        hide_cursor_text(),
        home_text(),
        elapsed_text(secs),
        button_text(data.button),
        new_line_text(),
        show_cursor_text(),
    ]
}

/// One status frame: each text in a buffer of its own, padded with zero
/// bytes.
pub open spec fn status_frame(secs: u64, data: GlobalData) -> Seq<Seq<u8>> {
    Seq::new(FRAME_CHUNKS as nat, |i: int| padded(status_texts(secs, data)[i]))
}

/// Whether a look at the cell calls for a frame: something was seen, and
/// it differs from what was shown last.
pub open spec fn status_changed(last: Option<GlobalData>, seen: Option<GlobalData>) -> bool {
    seen is Some && seen != last
}

/// What the publisher emits for one look at the cell.
pub open spec fn status_output(last: Option<GlobalData>, seen: Option<GlobalData>, secs: u64) -> Seq<
    Seq<u8>,
> {
    if status_changed(last, seen) {
        status_frame(secs, seen->Some_0)
    } else {
        Seq::empty()
    }
}

/// What the publisher has shown last, after one look at the cell.
pub open spec fn status_last(last: Option<GlobalData>, seen: Option<GlobalData>) -> Option<
    GlobalData,
> {
    if seen is Some {
        seen
    } else {
        last
    }
}

/// The buffers `out` hold the byte sequences `frame`, one for one.
pub open spec fn holds_frame(out: Seq<[u8; 64]>, frame: Seq<Seq<u8>>) -> bool {
    &&& out.len() == frame.len()
    &&& forall|i: int| 0 <= i < out.len() ==> (#[trigger] out[i])@ == frame[i]
}

/// Two looks in a row. When the second state equals the first, the
/// second look emits nothing; when it differs, it emits exactly one
/// frame, that of the second state.
pub proof fn lemma_publish_on_change(
    last: Option<GlobalData>,
    first: GlobalData,
    second: GlobalData,
    secs: u64,
)
    ensures
        first == second ==> status_output(status_last(last, Some(first)), Some(second), secs)
            == Seq::<Seq<u8>>::empty(),
        first != second ==> status_output(status_last(last, Some(first)), Some(second), secs)
            == status_frame(secs, second),
        status_frame(secs, second).len() == FRAME_CHUNKS,
{
}

/// A look that finds nothing new in the cell emits nothing and forgets
/// nothing.
pub proof fn lemma_quiet_without_news(last: Option<GlobalData>, secs: u64)
    ensures
        status_output(last, None, secs) == Seq::<Seq<u8>>::empty(),
        status_last(last, None) == last,
{
}

/// No text of a status frame holds a zero byte, and each is shorter
/// than a buffer.
proof fn lemma_status_text_plain(secs: u64, data: GlobalData, i: int)
    requires
        0 <= i < FRAME_CHUNKS,
    ensures
        status_texts(secs, data)[i].len() < 64,
        forall|j: int|
            0 <= j < status_texts(secs, data)[i].len() ==> status_texts(secs, data)[i][j] != 0,
{
    let text = status_texts(secs, data)[i];
    if i == 2 {
        assert(pow10(2) == 100) by {
            reveal_with_fuel(pow10, 3);
        }
        lemma_decimal_len(36, 2);
        lemma_decimal_len_u64(secs);
        lemma_decimal_digits(36);
        lemma_decimal_digits(secs as nat);
        let head = seq![0x1Bu8, 0x5Bu8, 0x30u8, 0x3Bu8];
        let colour = decimal(36);
        let digits = decimal(secs as nat);
        let tail = seq![0x6Du8] + epilogue_bytes(Canvas::Foreground) + seq![
            0x73u8,
            0x65u8,
            0x63u8,
            0x20u8,
        ];
        assert(text =~= head + colour + (seq![0x6Du8] + digits) + (epilogue_bytes(
            Canvas::Foreground,
        ) + seq![0x73u8, 0x65u8, 0x63u8, 0x20u8]));
        assert forall|j: int| 0 <= j < text.len() implies text[j] != 0 by {
            let a = head.len() + colour.len();
            if j < head.len() {
            } else if j < a {
                assert(text[j] == colour[j - head.len()]);
            } else if j == a {
            } else if j < a + 1 + digits.len() {
                assert(text[j] == digits[j - a - 1]);
            } else {
            }
        }
    } else if i == 3 {
        let digits = decimal(data.button.code_spec() as nat);
        lemma_decimal_len_u64(data.button.code_spec() as u64);
        lemma_decimal_digits(data.button.code_spec() as nat);
        assert forall|j: int| 0 <= j < text.len() implies text[j] != 0 by {
            if j >= 6 {
                assert(text[j] == digits[j - 6]);
            }
        }
    }
}

/// Every buffer of a status frame reaches the host whole. The host link
/// writes a buffer up to its first zero byte, and for each buffer of a
/// frame that is the text it was made from, no more and no less.
pub proof fn lemma_status_chunk_written_whole(secs: u64, data: GlobalData, i: int)
    requires
        0 <= i < FRAME_CHUNKS,
    ensures
        is_packet_len(status_frame(secs, data)[i], status_texts(secs, data)[i].len() as int),
        status_frame(secs, data)[i].take(status_texts(secs, data)[i].len() as int)
            == status_texts(secs, data)[i],
{
    lemma_status_text_plain(secs, data, i);
    let text = status_texts(secs, data)[i];
    assert(status_frame(secs, data)[i] == padded(text));
    assert(padded(text).take(text.len() as int) =~= text);
}

/// `High` for true and `Low` for false.
pub fn high_low(input: bool) -> (s: &'static str)
    ensures
        s@ == (if input {
            "High"@
        } else {
            "Low"@
        }),
{
    if input {
        "High"
    } else {
        "Low"
    }
}

/// `High` in magenta for true and `Low` in yellow for false.
pub fn high_low_color(input: bool) -> (r: WithForeground<&'static str, Color>)
    ensures
        r.item@ == (if input {
            "High"@
        } else {
            "Low"@
        }),
        r.formatter == (if input {
            Color::Magenta
        } else {
            Color::Yellow
        }),
{
    if input {
        high_low(input).fg(magenta())
    } else {
        high_low(input).fg(yellow())
    }
}

/// The buffer that begins a new line.
pub fn new_line() -> (chunk: [u8; 64])
    ensures
        chunk@ == padded(new_line_text()),
{
    let text: Vec<u8> = vec![0x1Bu8, 0x5Bu8, 0x30u8, 0x4Bu8, 0x0Du8, 0x0Au8];
    assert(text@ =~= new_line_text());
    fill_chunk(&text)
}

/// The buffer that moves the cursor to the home position.
pub fn home() -> (chunk: [u8; 64])
    ensures
        chunk@ == padded(home_text()),
{
    let text: Vec<u8> = vec![0x1Bu8, 0x5Bu8, 0x48u8];
    assert(text@ =~= home_text());
    fill_chunk(&text)
}

/// The buffer that hides the cursor.
pub fn hide_cursor() -> (chunk: [u8; 64])
    ensures
        chunk@ == padded(hide_cursor_text()),
{
    let text: Vec<u8> = vec![0x1Bu8, 0x5Bu8, 0x3Fu8, 0x32u8, 0x35u8, 0x6Cu8];
    assert(text@ =~= hide_cursor_text());
    fill_chunk(&text)
}

/// The buffer that shows the cursor.
pub fn show_cursor() -> (chunk: [u8; 64])
    ensures
        chunk@ == padded(show_cursor_text()),
{
    let text: Vec<u8> = vec![0x1Bu8, 0x5Bu8, 0x3Fu8, 0x32u8, 0x35u8, 0x68u8];
    assert(text@ =~= show_cursor_text());
    fill_chunk(&text)
}

/// The buffer that shows the elapsed seconds.
pub fn elapsed(secs: u64) -> (chunk: [u8; 64])
    ensures
        chunk@ == padded(elapsed_text(secs)),
{
    let colored = secs.fg(cyan());
    let mut text = colored.text();
    let mut unit: Vec<u8> = vec![0x73u8, 0x65u8, 0x63u8, 0x20u8];
    proof {
        assert(unit@ =~= seq![0x73u8, 0x65u8, 0x63u8, 0x20u8]);
        assert(pow10(2) == 100) by {
            reveal_with_fuel(pow10, 3);
        }
        lemma_decimal_len(36, 2);
        lemma_decimal_len_u64(secs);
    }
    text.append(&mut unit);
    assert(text@ =~= elapsed_text(secs));
    fill_chunk(&text)
}

/// The buffer that shows the phase of the button.
pub fn button_line(phase: ButtonPhase) -> (chunk: [u8; 64])
    ensures
        chunk@ == padded(button_text(phase)),
{
    let mut text: Vec<u8> = vec![0x42u8, 0x75u8, 0x74u8, 0x74u8, 0x6Fu8, 0x6Eu8];
    let mut number = render_decimal(phase.code() as u64);
    proof {
        assert(text@ =~= seq![0x42u8, 0x75u8, 0x74u8, 0x74u8, 0x6Fu8, 0x6Eu8]);
        lemma_decimal_len_u64(phase.code_spec() as u64);
    }
    text.append(&mut number);
    assert(text@ =~= button_text(phase));
    fill_chunk(&text)
}

/// One status frame for the state `data` at `secs` elapsed seconds.
pub fn render_status(secs: u64, data: &GlobalData) -> (out: Vec<[u8; 64]>)
    ensures
        holds_frame(out@, status_frame(secs, *data)),
{
    let mut out: Vec<[u8; 64]> = Vec::new();
    out.push(hide_cursor());
    out.push(home());
    out.push(elapsed(secs));
    out.push(button_line(data.button));
    out.push(new_line());
    out.push(show_cursor());
    out
}

/// The publisher and what it has shown last.
#[derive(Clone, Copy, Debug, PartialEq)]
pub struct StatusPublisher {
    pub last: Option<GlobalData>,
}

impl StatusPublisher {
    /// A publisher that has shown nothing yet.
    pub fn new() -> (p: Self)
        ensures
            p.last is None,
    {
        StatusPublisher { last: None }
    }

    /// Takes what one look at the cell gave: `seen` is the state if the
    /// cell held a new one. Returns one frame if the state differs from
    /// the one shown last, and nothing otherwise.
    pub fn observe(&mut self, seen: Option<GlobalData>, secs: u64) -> (out: Vec<[u8; 64]>)
        ensures
            holds_frame(out@, status_output(old(self).last, seen, secs)),
            final(self).last == status_last(old(self).last, seen),
    {
        match seen {
            Some(data) => {
                let same = match &self.last {
                    Some(shown) => shown.same(&data),
                    None => false,
                };
                self.last = Some(data);
                if same {
                    Vec::new()
                } else {
                    render_status(secs, &data)
                }
            },
            None => Vec::new(),
        }
    }

    /// One turn of the publisher: looks at the cell with the reader `rx`
    /// and renders a frame if the state has changed. Returns what the look
    /// gave and the buffers to send.
    pub fn poll(
        &mut self,
        rx: &mut GlobalDataChannelRx,
        cell: &GlobalDataChannel,
        secs: u64,
    ) -> (r: (Option<GlobalData>, Vec<[u8; 64]>))
        ensures
            r.0 == news(cell_value(*cell), cell_version(*cell), old(rx).seen),
            final(rx).seen == (if cell_version(*cell) > old(rx).seen {
                cell_version(*cell) as u64
            } else {
                old(rx).seen
            }),
            holds_frame(r.1@, status_output(old(self).last, r.0, secs)),
            final(self).last == status_last(old(self).last, r.0),
    {
        let seen = rx.try_changed(cell);
        let out = self.observe(seen, secs);
        (seen, out)
    }
}

} // verus!

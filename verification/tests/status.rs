use dmx_fixture::ansi::{
    black, blue, cyan, green, magenta, red, white, yellow, Canvas, Color, Colorable, FormatColor,
};
use dmx_fixture::channels::{Delivery, GlobalDataChannel, GlobalDataChannelRx, UsbChannel};
use dmx_fixture::event_router::{ButtonPhase, GlobalData};
use dmx_fixture::logger::{
    button_line, elapsed, hide_cursor, high_low, high_low_color, home, new_line, render_status,
    show_cursor, StatusPublisher,
};
use dmx_fixture::text::{fill_chunk, render_decimal, Text};
use dmx_fixture::usb_io::{next_outbound, packet_len};

fn text_of(chunk: &[u8; 64]) -> Vec<u8> {
    chunk[..packet_len(chunk)].to_vec()
}

#[test]
fn colour_numbers() {
    assert_eq!(black().to_num(), 0);
    assert_eq!(red().to_num(), 1);
    assert_eq!(green().to_num(), 2);
    assert_eq!(yellow().to_num(), 3);
    assert_eq!(blue().to_num(), 4);
    assert_eq!(magenta().to_num(), 5);
    assert_eq!(cyan().to_num(), 6);
    assert_eq!(white().to_num(), 7);
    assert_eq!(black(), Color::Black);
    assert_eq!(white(), Color::White);
}

#[test]
fn colour_sequences() {
    assert_eq!(cyan().prelude(Canvas::Foreground), b"\x1B[0;36m".to_vec());
    assert_eq!(black().prelude(Canvas::Foreground), b"\x1B[0;30m".to_vec());
    assert_eq!(white().prelude(Canvas::Foreground), b"\x1B[0;37m".to_vec());
    assert_eq!(red().prelude(Canvas::Background), b"\x1B[41m".to_vec());
    assert_eq!(white().prelude(Canvas::Background), b"\x1B[47m".to_vec());
    assert_eq!(red().epilogue(Canvas::Foreground), b"\x1B[37m".to_vec());
    assert_eq!(red().epilogue(Canvas::Background), b"\x1B[40m".to_vec());
}

#[test]
fn coloured_items() {
    let item = 42u64.fg(green());
    assert_eq!(item.item, 42);
    assert_eq!(item.formatter, Color::Green);
    assert_eq!(item.text(), b"\x1B[0;32m42\x1B[37m".to_vec());
    let item = 7u8.bg(blue());
    assert_eq!(item.text(), b"\x1B[44m7\x1B[40m".to_vec());
    let item = "ok".fg(yellow());
    assert_eq!(item.text(), b"\x1B[0;33mok\x1B[37m".to_vec());
}

#[test]
fn high_low_words() {
    assert_eq!(high_low(true), "High");
    assert_eq!(high_low(false), "Low");
    let high = high_low_color(true);
    assert_eq!(high.item, "High");
    assert_eq!(high.formatter, Color::Magenta);
    assert_eq!(high.text(), b"\x1B[0;35mHigh\x1B[37m".to_vec());
    let low = high_low_color(false);
    assert_eq!(low.formatter, Color::Yellow);
    assert_eq!(low.text(), b"\x1B[0;33mLow\x1B[37m".to_vec());
}

#[test]
fn decimal_digits() {
    assert_eq!(render_decimal(0), b"0".to_vec());
    assert_eq!(render_decimal(9), b"9".to_vec());
    assert_eq!(render_decimal(10), b"10".to_vec());
    assert_eq!(render_decimal(1234567890), b"1234567890".to_vec());
    assert_eq!(render_decimal(u64::MAX), b"18446744073709551615".to_vec());
    assert_eq!(255u8.text(), b"255".to_vec());
}

#[test]
fn chunk_is_text_then_zeros() {
    let chunk = fill_chunk(&b"abc".to_vec());
    assert_eq!(&chunk[..3], b"abc");
    assert!(chunk[3..].iter().all(|b| *b == 0));
    let chunk = fill_chunk(&Vec::new());
    assert_eq!(chunk, [0u8; 64]);
    let full = vec![b'z'; 64];
    assert_eq!(fill_chunk(&full), [b'z'; 64]);
}

#[test]
fn frame_chunks() {
    assert_eq!(text_of(&hide_cursor()), b"\x1B[?25l".to_vec());
    assert_eq!(text_of(&home()), b"\x1B[H".to_vec());
    assert_eq!(text_of(&new_line()), b"\x1B[0K\r\n".to_vec());
    assert_eq!(text_of(&show_cursor()), b"\x1B[?25h".to_vec());
    assert_eq!(text_of(&elapsed(0)), b"\x1B[0;36m0\x1B[37msec ".to_vec());
    assert_eq!(text_of(&elapsed(12)), b"\x1B[0;36m12\x1B[37msec ".to_vec());
    assert_eq!(
        text_of(&elapsed(u64::MAX)),
        b"\x1B[0;36m18446744073709551615\x1B[37msec ".to_vec()
    );
    assert_eq!(text_of(&button_line(ButtonPhase::Idle)), b"Button0".to_vec());
    assert_eq!(text_of(&button_line(ButtonPhase::Held)), b"Button1".to_vec());
    assert_eq!(text_of(&button_line(ButtonPhase::Pressed)), b"Button2".to_vec());
    assert_eq!(text_of(&button_line(ButtonPhase::DoublePressed)), b"Button3".to_vec());
}

#[test]
fn status_frame_has_six_chunks_in_order() {
    let mut data = GlobalData::default();
    data.button = ButtonPhase::Pressed;
    let frame = render_status(7, &data);
    let texts: Vec<Vec<u8>> = frame.iter().map(text_of).collect();
    assert_eq!(
        texts,
        vec![
            b"\x1B[?25l".to_vec(),
            b"\x1B[H".to_vec(),
            b"\x1B[0;36m7\x1B[37msec ".to_vec(),
            b"Button2".to_vec(),
            b"\x1B[0K\r\n".to_vec(),
            b"\x1B[?25h".to_vec(),
        ]
    );
    for chunk in frame.iter() {
        let n = packet_len(chunk);
        assert!(chunk[n..].iter().all(|b| *b == 0));
    }
}

#[test]
fn publisher_is_silent_when_nothing_changed() {
    let mut p = StatusPublisher::new();
    assert_eq!(p.last, None);
    assert!(p.observe(None, 1).is_empty());
    assert_eq!(p.last, None);

    let mut a = GlobalData::default();
    a.button = ButtonPhase::Held;
    assert_eq!(p.observe(Some(a), 2).len(), 6);
    assert_eq!(p.last, Some(a));
    assert!(p.observe(Some(a), 3).is_empty());
    assert!(p.observe(None, 4).is_empty());
    assert_eq!(p.last, Some(a));

    let mut b = a;
    b.dmx[100] = 1;
    let frame = p.observe(Some(b), 5);
    assert_eq!(frame.len(), 6);
    assert_eq!(text_of(&frame[3]), b"Button1".to_vec());
    assert_eq!(p.last, Some(b));
    assert_eq!(p.observe(Some(a), 6).len(), 6);
}

#[test]
fn publisher_shows_the_first_state_even_if_zeroed() {
    let mut p = StatusPublisher::new();
    let frame = p.observe(Some(GlobalData::default()), 0);
    assert_eq!(frame.len(), 6);
    assert_eq!(text_of(&frame[3]), b"Button0".to_vec());
}

#[test]
fn publisher_polls_the_state_cell() {
    let mut cell = GlobalDataChannel::new();
    let mut rx = GlobalDataChannelRx::new();
    let mut p = StatusPublisher::new();

    let (seen, out) = p.poll(&mut rx, &cell, 1);
    assert_eq!(seen, None);
    assert!(out.is_empty());

    let mut a = GlobalData::default();
    a.button = ButtonPhase::DoublePressed;
    cell.send(a);
    let (seen, out) = p.poll(&mut rx, &cell, 2);
    assert_eq!(seen, Some(a));
    assert_eq!(out.len(), 6);
    assert_eq!(text_of(&out[3]), b"Button3".to_vec());

    let (seen, out) = p.poll(&mut rx, &cell, 3);
    assert_eq!(seen, None);
    assert!(out.is_empty());

    cell.send(a);
    let (seen, out) = p.poll(&mut rx, &cell, 4);
    assert_eq!(seen, Some(a));
    assert!(out.is_empty());
}

#[test]
fn frame_reaches_the_host_chunk_by_chunk() {
    let mut usb = UsbChannel::new();
    let mut data = GlobalData::default();
    data.button = ButtonPhase::Held;
    let frame = render_status(3, &data);
    let mut written: Vec<u8> = Vec::new();
    for chunk in frame {
        assert_eq!(usb.offer(chunk), Delivery::Sent);
        let out = next_outbound(&mut usb).unwrap();
        written.extend_from_slice(&out.packet[..out.len]);
    }
    assert_eq!(
        written,
        b"\x1B[?25l\x1B[H\x1B[0;36m3\x1B[37msec Button1\x1B[0K\r\n\x1B[?25h".to_vec()
    );
}

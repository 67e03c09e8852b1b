use starfish::tail::{tail_lines, LenSpec};
use starfish::tailer::{
    append_event, on_fs_event, render_event, stream_error_event, tail_head_event, FsEvent,
    TailAction, TailEvent,
};

const NL: u8 = b'\n';

#[test]
fn tail_of_three_lines() {
    let data = b"L1\nL2\nL3\nL4\nL5\n";
    let tail = tail_lines(data, 3, NL);
    assert_eq!(tail, b"L3\nL4\nL5\n".to_vec());
}

#[test]
fn tail_zero_is_empty() {
    let data = b"L1\nL2\n";
    assert_eq!(tail_lines(data, 0, NL), Vec::<u8>::new());
    assert_eq!(tail_lines(b"", 0, NL), Vec::<u8>::new());
}

#[test]
fn tail_counts_trailing_partial_line() {
    let data = b"L1\nL2\nL3";
    assert_eq!(tail_lines(data, 1, NL), b"L3".to_vec());
    assert_eq!(tail_lines(data, 2, NL), b"L2\nL3".to_vec());
}

#[test]
fn tail_longer_than_file_returns_everything() {
    let data = b"only\ntwo\n";
    assert_eq!(tail_lines(data, 50, NL), data.to_vec());
    assert_eq!(tail_lines(b"", 50, NL), Vec::<u8>::new());
}

#[test]
fn tail_of_separators_only() {
    let data = b"\n\n\n";
    assert_eq!(tail_lines(data, 2, NL), b"\n\n".to_vec());
}

#[test]
fn tail_of_large_content() {
    let mut data = Vec::new();
    for i in 0..300 {
        data.extend_from_slice(format!("line number {i}\n").as_bytes());
    }
    let tail = tail_lines(&data, 2, NL);
    assert_eq!(tail, b"line number 298\nline number 299\n".to_vec());
}

#[test]
fn len_spec_defaults_to_twenty() {
    assert_eq!(LenSpec { len: None }.effective(), 20);
    assert_eq!(LenSpec { len: Some(3) }.effective(), 3);
}

#[test]
fn tail_head_event_is_a_text_event() {
    let data = b"L1\nL2\nL3\nL4\nL5\n";
    let ev = tail_head_event(data, 3);
    assert_eq!(ev, "{\"t\":\"Text\",\"c\":\"L3\\nL4\\nL5\\n\"}");
}

#[test]
fn appends_arrive_verbatim_and_empty_reads_are_dropped() {
    assert_eq!(append_event(b""), None);
    let ev = append_event(b"fresh output\n").expect("an event");
    assert_eq!(ev, "{\"t\":\"Text\",\"c\":\"fresh output\\n\"}");
}

#[test]
fn invalid_utf8_is_replaced_not_dropped() {
    let ev = append_event(&[0x61, 0xFF, 0x62]).expect("an event");
    assert_eq!(ev, format!("{{\"t\":\"Text\",\"c\":\"a{}b\"}}", '\u{FFFD}'));
}

#[test]
fn stream_decisions() {
    assert_eq!(on_fs_event(FsEvent::Modified), TailAction::ReadAppended);
    assert_eq!(on_fs_event(FsEvent::Created), TailAction::ResetAndStop);
    assert_eq!(on_fs_event(FsEvent::Other), TailAction::Ignore);
}

#[test]
fn stream_failures_become_error_events() {
    assert_eq!(
        stream_error_event("watch handle closed"),
        "{\"t\":\"Error\",\"c\":\"watch handle closed\"}"
    );
}

#[test]
fn event_rendering_escapes_json() {
    let reset = render_event(&TailEvent::Reset);
    assert_eq!(reset, "{\"t\":\"Reset\"}");
    let err = render_event(&TailEvent::Error("boom".to_string()));
    assert_eq!(err, "{\"t\":\"Error\",\"c\":\"boom\"}");
    let tricky = render_event(&TailEvent::Text("a\"b\\c\td\u{1}".to_string()));
    assert_eq!(tricky, "{\"t\":\"Text\",\"c\":\"a\\\"b\\\\c\\td\\u0001\"}");
}

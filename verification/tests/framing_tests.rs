use remote_shell::framing::{frame_line, LineBuffer};

#[test]
fn framing_hello_produces_exactly_the_payload_and_terminator() {
    let bytes = frame_line(b"hello");
    assert_eq!(bytes, b"hello\r\n".to_vec());
}

#[test]
fn framing_an_empty_payload_is_just_the_terminator() {
    assert_eq!(frame_line(b""), b"\r\n".to_vec());
}

#[test]
fn a_line_split_across_two_reads_comes_out_whole() {
    let mut buf = LineBuffer::new();
    buf.push_chunk(b"hel");
    assert_eq!(buf.pop_line(), None);
    buf.push_chunk(b"lo\r\nrest");
    assert_eq!(buf.pop_line(), Some(b"hello".to_vec()));
    assert_eq!(buf.pop_line(), None);
    assert!(!buf.is_empty());
}

#[test]
fn two_lines_in_one_read_come_out_one_per_call() {
    let mut buf = LineBuffer::new();
    buf.push_chunk(b"one\r\ntwo\r\n");
    assert_eq!(buf.pop_line(), Some(b"one".to_vec()));
    assert_eq!(buf.pop_line(), Some(b"two".to_vec()));
    assert_eq!(buf.pop_line(), None);
    assert!(buf.is_empty());
}

#[test]
fn an_empty_line_is_a_line() {
    let mut buf = LineBuffer::new();
    buf.push_chunk(b"\r\nnext");
    assert_eq!(buf.pop_line(), Some(b"".to_vec()));
}

#[test]
fn a_terminator_split_across_reads_is_still_found() {
    let mut buf = LineBuffer::new();
    buf.push_chunk(b"hi\r");
    assert_eq!(buf.pop_line(), None);
    buf.push_chunk(b"\n");
    assert_eq!(buf.pop_line(), Some(b"hi".to_vec()));
    assert!(buf.is_empty());
}

#[test]
fn a_bare_line_feed_does_not_end_a_line() {
    let mut buf = LineBuffer::new();
    buf.push_chunk(b"a\nb\r\n");
    assert_eq!(buf.pop_line(), Some(b"a\nb".to_vec()));
}

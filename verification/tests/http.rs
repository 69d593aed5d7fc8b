use ser_no_std::http::{find_header_value, request_complete, request_read_step, Header, ReadEvent, ReadStep};

fn header(name: &str, value: &[u8]) -> Header {
    Header { name: name.as_bytes().to_vec(), value: value.to_vec() }
}

#[test]
fn request_completes_on_blank_line() {
    let mut buf = [0u8; 32];
    let req = b"GET / HTTP/1.0\r\n\r\n";
    buf[..req.len()].copy_from_slice(req);
    assert!(request_complete(&buf, req.len()));
    assert!(!request_complete(&buf, req.len() - 1));
    assert!(!request_complete(&buf, 0));
    assert!(request_complete(&buf, 32));
}

#[test]
fn invalid_utf8_never_completes_before_full() {
    let mut buf = [0u8; 16];
    buf[0] = 0xFF;
    buf[1..5].copy_from_slice(b"\r\n\r\n");
    assert!(!request_complete(&buf, 5));
    assert!(request_complete(&buf, 16));
}

#[test]
fn read_steps() {
    let mut buf = [0u8; 16];
    buf[..6].copy_from_slice(b"ab\r\n\r\n");
    assert_eq!(request_read_step(&buf, 0, ReadEvent::Received(2)), ReadStep::Continue(2));
    assert_eq!(request_read_step(&buf, 2, ReadEvent::Received(4)), ReadStep::Done(6));
    assert_eq!(request_read_step(&buf, 2, ReadEvent::Received(0)), ReadStep::Done(2));
    assert_eq!(request_read_step(&buf, 3, ReadEvent::Closed), ReadStep::Done(3));
    assert_eq!(request_read_step(&buf, 3, ReadEvent::Failed), ReadStep::Done(3));
    assert_eq!(request_read_step(&buf, 10, ReadEvent::Received(6)), ReadStep::Done(16));
}

#[test]
fn header_lookup_case_insensitive_first_match() {
    let headers = vec![
        header("Server", b"x"),
        header("DATE", b"Mon, 01 Jan 2024"),
        header("date", b"second"),
        header("Content-Length", b"123"),
    ];
    assert_eq!(find_header_value(&headers, b"date"), Some("Mon, 01 Jan 2024"));
    assert_eq!(find_header_value(&headers, b"content-length"), Some("123"));
    assert_eq!(find_header_value(&headers, b"etag"), None);
}

#[test]
fn header_with_invalid_value_gives_none() {
    let headers = vec![header("Date", &[0xC3, 0x28]), header("date", b"fine")];
    assert_eq!(find_header_value(&headers, b"date"), None);
    let headers = vec![header("Date", "Grüße".as_bytes())];
    assert_eq!(find_header_value(&headers, b"date"), Some("Grüße"));
}

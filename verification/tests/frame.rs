use dap_writer::encode_frame;

#[test]
fn frame_for_small_body_is_byte_exact() {
    let body = b"abc".to_vec();
    let frame = encode_frame(&body);
    assert_eq!(frame, b"Content-Length: 3\r\n\r\nabc\r\n".to_vec());
}

#[test]
fn frame_for_empty_body() {
    let body: Vec<u8> = Vec::new();
    let frame = encode_frame(&body);
    assert_eq!(frame, b"Content-Length: 0\r\n\r\n\r\n".to_vec());
}

#[test]
fn frame_for_multi_digit_length() {
    let body = vec![120u8; 123];
    let frame = encode_frame(&body);
    assert!(frame.starts_with(b"Content-Length: 123\r\n\r\n"));
    assert!(frame.ends_with(b"\r\n"));
    assert_eq!(frame.len(), "Content-Length: 123\r\n\r\n".len() + 123 + 2);
}

#[test]
fn declared_length_matches_body() {
    for n in [0usize, 1, 9, 10, 27, 100, 123, 1000] {
        let body = vec![120u8; n];
        let frame = encode_frame(&body);
        assert!(frame.starts_with(b"Content-Length: "));
        let rest = &frame[b"Content-Length: ".len()..];
        let pos = rest
            .windows(4)
            .position(|w| w == b"\r\n\r\n")
            .expect("header must end with a CRLF pair and a blank line");
        let digits = &rest[..pos];
        let declared: usize = std::str::from_utf8(digits).unwrap().parse().unwrap();
        let body_part = &rest[pos + 4..rest.len() - 2];
        assert_eq!(declared, body_part.len());
        assert_eq!(declared, n);
        assert_eq!(&rest[rest.len() - 2..], b"\r\n");
    }
}

use rgc::gemini::codec::{decode, request_line, split_response};
use rgc::gemini::CodecError;

#[test]
fn the_request_is_the_location_and_a_line_end() {
    assert_eq!(request_line("gemini://example.org/"), b"gemini://example.org/\r\n".to_vec());
    assert_eq!(request_line(""), b"\r\n".to_vec());
    assert_eq!(
        request_line("gemini://example.org/caf\u{e9}"),
        "gemini://example.org/caf\u{e9}\r\n".as_bytes().to_vec()
    );
}

#[test]
fn a_response_splits_at_its_first_line_end() {
    let (header, body) = split_response("20 text/gemini\r\n# Title\r\nline\r\n").unwrap();
    assert_eq!(header, "20 text/gemini");
    assert_eq!(body, "# Title\r\nline\r\n");
}

#[test]
fn the_parts_of_a_response_may_be_empty() {
    assert_eq!(split_response("\r\n").unwrap(), ("", ""));
    assert_eq!(split_response("20 text/plain\r\n").unwrap(), ("20 text/plain", ""));
    assert_eq!(split_response("\r\nbody").unwrap(), ("", "body"));
    assert_eq!(split_response("a\r\r\nb").unwrap(), ("a\r", "b"));
    assert_eq!(split_response("a\n\r\nb\nc").unwrap(), ("a\n", "b\nc"));
    assert_eq!(split_response("h\u{e9}\u{1F600}\r\n\u{fffd}b").unwrap(), ("h\u{e9}\u{1F600}", "\u{fffd}b"));
}

#[test]
fn a_response_without_a_line_end_is_malformed() {
    for text in ["", "20 text/plain", "20 text/plain\n body", "20 text/plain\r", "\n\r", "\r \n"] {
        assert!(matches!(split_response(text), Err(CodecError::MalformedFraming)), "{:?}", text);
    }
}

#[test]
fn valid_bytes_decode_as_they_stand() {
    assert_eq!(decode(b""), "");
    assert_eq!(decode(b"20 text/plain\r\nhello"), "20 text/plain\r\nhello");
    assert_eq!(decode("caf\u{e9} \u{1F600}".as_bytes()), "caf\u{e9} \u{1F600}");
}

#[test]
fn invalid_bytes_are_replaced() {
    assert_eq!(decode(b"a\xffb"), "a\u{fffd}b");
    assert_eq!(decode(b"\xc3"), "\u{fffd}");
    assert_eq!(decode(b"20 ok\r\n\xe2\x82"), "20 ok\r\n\u{fffd}");
    assert_eq!(decode(b"\xf0\x9f\r\n"), "\u{fffd}\r\n");
}

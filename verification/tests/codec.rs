use echo_server::{DecodeFailure, EchoMessage};

fn message(content: &str) -> EchoMessage {
    EchoMessage::new(content.to_string())
}

#[test]
fn encode_hello_gives_key_length_and_text() {
    let bytes = message("hello").encode_to_vec();
    assert_eq!(bytes, vec![0x0a, 0x05, b'h', b'e', b'l', b'l', b'o']);
}

#[test]
fn encode_empty_content_gives_no_bytes() {
    assert_eq!(message("").encode_to_vec(), Vec::<u8>::new());
}

#[test]
fn encode_single_character() {
    assert_eq!(message("a").encode_to_vec(), vec![0x0a, 0x01, b'a']);
}

#[test]
fn encode_length_127_fits_one_byte() {
    let content = "x".repeat(127);
    let bytes = message(&content).encode_to_vec();
    assert_eq!(bytes.len(), 2 + 127);
    assert_eq!(&bytes[..2], &[0x0a, 0x7f]);
    assert_eq!(&bytes[2..], content.as_bytes());
}

#[test]
fn encode_length_128_takes_two_bytes() {
    let content = "x".repeat(128);
    let bytes = message(&content).encode_to_vec();
    assert_eq!(bytes.len(), 3 + 128);
    assert_eq!(&bytes[..3], &[0x0a, 0x80, 0x01]);
    assert_eq!(&bytes[3..], content.as_bytes());
}

#[test]
fn encode_length_200_takes_two_bytes() {
    let content = "y".repeat(200);
    let bytes = message(&content).encode_to_vec();
    assert_eq!(&bytes[..3], &[0x0a, 0xc8, 0x01]);
    assert_eq!(&bytes[3..], content.as_bytes());
}

#[test]
fn encode_length_16384_takes_three_bytes() {
    let content = "z".repeat(16384);
    let bytes = message(&content).encode_to_vec();
    assert_eq!(&bytes[..4], &[0x0a, 0x80, 0x80, 0x01]);
    assert_eq!(bytes.len(), 4 + 16384);
}

#[test]
fn encode_counts_utf8_bytes_not_characters() {
    let bytes = message("\u{e9}").encode_to_vec();
    assert_eq!(bytes, vec![0x0a, 0x02, 0xc3, 0xa9]);
    let bytes = message("\u{20ac}!").encode_to_vec();
    assert_eq!(bytes, vec![0x0a, 0x04, 0xe2, 0x82, 0xac, b'!']);
}

#[test]
fn encode_agrees_with_prost() {
    for content in ["", "a", "hello world", "\u{1f600} ok"] {
        let expected = prost::Message::encode_to_vec(&content.to_string());
        assert_eq!(message(content).encode_to_vec(), expected);
    }
}

#[test]
fn decode_reads_the_content_field() {
    let decoded = EchoMessage::decode(&[0x0a, 0x05, b'h', b'e', b'l', b'l', b'o']);
    assert_eq!(decoded, Ok(message("hello")));
}

#[test]
fn decode_of_encode_is_identity() {
    for content in ["", "a", "Hello, World!", "\u{e9}\u{20ac}\u{1f600}"] {
        let sent = message(content);
        let decoded = EchoMessage::decode(&sent.encode_to_vec());
        assert_eq!(decoded, Ok(sent));
    }
}

#[test]
fn decode_no_bytes_gives_empty_message() {
    assert_eq!(EchoMessage::decode(&[]), Ok(message("")));
}

#[test]
fn decode_skips_fields_it_does_not_know() {
    let decoded = EchoMessage::decode(&[0x10, 0x01, 0x0a, 0x02, b'h', b'i']);
    assert_eq!(decoded, Ok(message("hi")));
}

#[test]
fn decode_keeps_the_last_content_field() {
    let decoded = EchoMessage::decode(&[0x0a, 0x01, b'a', 0x0a, 0x01, b'b']);
    assert_eq!(decoded, Ok(message("b")));
}

#[test]
fn decode_rejects_truncated_content() {
    assert_eq!(EchoMessage::decode(&[0x0a, 0x05, b'h']), Err(DecodeFailure));
}

#[test]
fn decode_rejects_content_that_is_not_utf8() {
    assert_eq!(EchoMessage::decode(&[0x0a, 0x01, 0xff]), Err(DecodeFailure));
}

#[test]
fn decode_rejects_wrong_wire_type_for_content() {
    assert_eq!(EchoMessage::decode(&[0x08, 0x01]), Err(DecodeFailure));
}

#[test]
fn decode_rejects_plain_text() {
    assert_eq!(EchoMessage::decode(b"not a message"), Err(DecodeFailure));
}

#[test]
fn decode_rejects_tag_zero() {
    assert_eq!(EchoMessage::decode(&[0x02, 0x00]), Err(DecodeFailure));
}

#[test]
fn clone_keeps_the_content() {
    let first = message("copy me");
    assert_eq!(first.clone(), first);
}

use bytes::{BufMut, BytesMut};
use language_service::messages::codec::scan::HeaderScan;
use language_service::messages::codec::{DecodeError, EncodeError, LanguageServerCodec};
use language_service::messages::groups::requests::{AllRequests, AllServerRequests};
use language_service::messages::groups::{AllMessages, MessageGroup};
use language_service::messages::jsonrpc::request::{NumberOrString, RequestId, RequestMessage};
use language_service::messages::payload::headers::{
    Header, HeadersParseError, JsonRpcHeaders, CONTENT_LENGTH_HEADER_NAME,
    CONTENT_TYPE_HEADER_NAME, JSON_RPC_CONTENT_TYPE,
};
use language_service::messages::payload::{Payload, ProtocolMessage};

fn shutdown_request_mock() -> RequestMessage {
    RequestMessage { id: RequestId(NumberOrString::Number(0)), params: None }
}

fn message_mock() -> AllMessages {
    AllMessages::Requests(AllRequests::Server(AllServerRequests::Shutdown(shutdown_request_mock())))
}

fn payload_str_mock() -> String {
    Payload::try_new(&message_mock()).unwrap().to_string()
}

fn complete(headers: Vec<Header>) -> HeaderScan {
    HeaderScan::Complete { consumed: 0, headers }
}

fn decode_scanned(scan: HeaderScan) -> Result<Option<Vec<u8>>, DecodeError> {
    let mut codec = LanguageServerCodec::<AllMessages>::default();
    codec.decode_scanned(scan, &mut BytesMut::from("body"))
}

#[test]
fn decodes_messages() {
    let mut message_bytes = BytesMut::new();
    let mut codec = LanguageServerCodec::<AllMessages>::default();
    for _ in 0..2 {
        message_bytes.put(payload_str_mock().as_bytes());
        assert_eq!(message_mock(), codec.decode(&mut message_bytes).unwrap().unwrap());
    }
}

#[test]
fn ok_on_missing_content_length_header() {
    let mut message_bytes = BytesMut::from(
        format!("{}: {}", CONTENT_TYPE_HEADER_NAME, JSON_RPC_CONTENT_TYPE).as_str(),
    );

    let mut codec = LanguageServerCodec::<AllMessages>::default();
    assert!(codec.decode(&mut message_bytes).unwrap().is_none())
}

#[test]
fn ok_on_partial_headers() {
    let mut message_bytes = BytesMut::from("cont");

    let mut codec = LanguageServerCodec::<AllMessages>::default();
    assert!(codec.decode(&mut message_bytes).unwrap().is_none())
}

#[test]
fn ok_on_partial_content() {
    let mut message_bytes =
        BytesMut::from(JsonRpcHeaders { content_length: 100 }.to_string().as_str());

    let mut codec = LanguageServerCodec::<AllMessages>::default();
    assert!(codec.decode(&mut message_bytes).unwrap().is_none())
}

#[test]
fn bytes_after_the_frame_stay_in_the_buffer() {
    let mut message_bytes = BytesMut::from(
        format!("{}\r\nsomething", JsonRpcHeaders { content_length: 1 }.to_string()).as_str(),
    );

    let mut codec = LanguageServerCodec::<AllMessages>::default();
    assert_eq!(Some(b"s".to_vec()), codec.decode_frame(&mut message_bytes).unwrap());
    assert_eq!(&b"omething"[..], &message_bytes[..]);
    assert_eq!(None, codec.known_content_length);
}

#[test]
fn encodes_message() {
    let mut language_server_codec = LanguageServerCodec::<AllMessages>::default();
    let mut payload_buffer = BytesMut::new();
    language_server_codec.encode(message_mock(), &mut payload_buffer).unwrap();

    assert_eq!(
        &Payload::try_new(&message_mock()).unwrap().to_string(),
        std::str::from_utf8(&payload_buffer).unwrap()
    )
}

#[test]
fn displays_protocol_message() {
    let body_string = message_mock_body();
    let expected_string = format!(
        "{}\r\n{}",
        JsonRpcHeaders { content_length: body_string.len() }.to_string(),
        body_string
    );

    assert_eq!(expected_string, payload_str_mock());
}

fn message_mock_body() -> String {
    message_mock().to_json().print().unwrap()
}

#[test]
fn encode_displays_protocol_message() {
    let body_string = message_mock_body();
    let expected_string =
        format!("{}\r\n{}", JsonRpcHeaders::new(body_string.len()).to_string(), body_string);

    assert_eq!(expected_string, ProtocolMessage::try_new(&message_mock()).unwrap().to_string());
}

#[test]
fn payload_announces_the_length_of_its_body_in_bytes() {
    let payload = Payload::new("\"h\u{e9}\"".to_string());
    assert_eq!(5, payload.header.content_length);
    assert_eq!(
        "Content-Length: 5\r\nContent-Type: application/vscode-jsonrpc; charset=utf-8\r\n\r\n\"h\u{e9}\"",
        payload.to_string()
    );
    assert_eq!(payload.to_string().as_bytes(), &payload.to_bytes()[..]);
}

#[test]
fn payload_of_an_unprintable_message_is_a_serialize_error() {
    match Payload::from_printed(Err("no".to_string())) {
        Err(EncodeError::Serialize(text)) => assert_eq!("no", text),
        other => panic!("{:?}", other),
    }
    assert_eq!("{}", Payload::from_printed(Ok("{}".to_string())).unwrap().body);
}

#[test]
fn codec_fails_on_unknown_headers() {
    assert!(matches!(
        decode_scanned(complete(vec![Header::new("x", b"X")])),
        Err(DecodeError::HeadersParseError(HeadersParseError::InvalidHeader(_))),
    ))
}

#[test]
fn codec_fails_on_duplicate_headers() {
    assert!(matches!(
        decode_scanned(complete(vec![
            Header::new(CONTENT_TYPE_HEADER_NAME, b"x"),
            Header::new(CONTENT_TYPE_HEADER_NAME, b"x"),
        ])),
        Err(DecodeError::HeadersParseError(HeadersParseError::DuplicateOfValidHeader(_))),
    ))
}

#[test]
fn codec_fails_on_content_type_mismatch() {
    assert!(matches!(
        decode_scanned(complete(vec![Header::new(CONTENT_TYPE_HEADER_NAME, b"X")])),
        Err(DecodeError::HeadersParseError(HeadersParseError::InvalidContentType(_))),
    ))
}

#[test]
fn codec_allows_missing_content_type() {
    assert_eq!(
        Some(b"bo".to_vec()),
        decode_scanned(complete(vec![Header::new(CONTENT_LENGTH_HEADER_NAME, b"2")])).unwrap()
    )
}

#[test]
fn codec_fails_on_missing_content_length() {
    let mut codec = LanguageServerCodec::<AllMessages>::default();
    let mut buffer = BytesMut::from("body");
    let scan =
        complete(vec![Header::new(CONTENT_TYPE_HEADER_NAME, JSON_RPC_CONTENT_TYPE.as_bytes())]);
    assert_eq!(None, codec.decode_scanned(scan, &mut buffer).unwrap());
    assert_eq!(&b"body"[..], &buffer[..]);
    assert_eq!(None, codec.known_content_length);
}

#[test]
fn header_parser_finds_the_header_block_that_was_written() {
    for body in ["", "{}", "0123456789"] {
        let written = Payload::new(body.to_string()).to_bytes();
        let lines = JsonRpcHeaders::new(body.len()).to_bytes();
        match HeaderScan::of(&written) {
            HeaderScan::Complete { consumed, headers } => {
                assert_eq!(lines.len() + 2, consumed);
                assert_eq!(2, headers.len());
                assert_eq!(CONTENT_LENGTH_HEADER_NAME, headers[0].name);
                assert_eq!(body.len().to_string().as_bytes(), &headers[0].value[..]);
                assert_eq!(CONTENT_TYPE_HEADER_NAME, headers[1].name);
                assert_eq!(JSON_RPC_CONTENT_TYPE.as_bytes(), &headers[1].value[..]);
            }
            other => panic!("{:?}", other),
        }
        for cut in 0..lines.len() + 2 {
            assert!(matches!(HeaderScan::of(&written[..cut]), HeaderScan::Partial), "{}", cut);
        }
    }
}

#[test]
fn header_parser_trims_values_and_refuses_what_is_no_header() {
    match HeaderScan::of(b"A:  b c \r\n\r\nrest") {
        HeaderScan::Complete { consumed, headers } => {
            assert_eq!(12, consumed);
            assert_eq!("A", headers[0].name);
            assert_eq!(&b"b c"[..], &headers[0].value[..]);
        }
        other => panic!("{:?}", other),
    }
    match HeaderScan::of(b"a b: c\r\n\r\n") {
        HeaderScan::Malformed(text) => assert_eq!("invalid header name", text),
        other => panic!("{:?}", other),
    }
    assert!(matches!(HeaderScan::of(b"a: 1\r\nb: 2\r\nc: 3\r\n\r\n"), HeaderScan::Malformed(_)));
}

#[test]
fn scan_is_ignored_while_a_body_is_awaited() {
    let mut codec = LanguageServerCodec::<AllMessages>::default();
    codec.known_content_length = Some(3);
    let mut buffer = BytesMut::from("ab");
    let malformed = HeaderScan::Malformed("bad".to_string());
    assert_eq!(None, codec.decode_scanned(malformed, &mut buffer).unwrap());
    assert_eq!(Some(3), codec.known_content_length);
    buffer.put(&b"cd"[..]);
    assert_eq!(Some(b"abc".to_vec()), codec.decode_scanned(HeaderScan::Partial, &mut buffer).unwrap());
    assert_eq!(&b"d"[..], &buffer[..]);
    assert_eq!(None, codec.known_content_length);
}

#[test]
fn scan_outcomes_are_followed() {
    assert_eq!(None, decode_scanned(HeaderScan::Partial).unwrap());
    match decode_scanned(HeaderScan::Malformed("bad".to_string())) {
        Err(DecodeError::Httparse(text)) => assert_eq!("bad", text),
        other => panic!("{:?}", other),
    }
    let beyond = HeaderScan::Complete {
        consumed: 5,
        headers: vec![Header::new(CONTENT_LENGTH_HEADER_NAME, b"0")],
    };
    assert_eq!(None, decode_scanned(beyond).unwrap());
    let within = HeaderScan::Complete {
        consumed: 2,
        headers: vec![Header::new(CONTENT_LENGTH_HEADER_NAME, b"1")],
    };
    assert_eq!(Some(b"d".to_vec()), decode_scanned(within).unwrap());
}

#[test]
fn header_block_is_dropped_when_the_body_is_awaited() {
    let mut codec = LanguageServerCodec::<AllMessages>::default();
    let mut buffer = BytesMut::from("Content-Length: 10\r\n\r\nabc");
    assert_eq!(None, codec.decode_frame(&mut buffer).unwrap());
    assert_eq!(Some(10), codec.known_content_length);
    assert_eq!(&b"abc"[..], &buffer[..]);
    buffer.put(&b"defghij"[..]);
    assert_eq!(Some(b"abcdefghij".to_vec()), codec.decode_frame(&mut buffer).unwrap());
    assert!(buffer.is_empty());
}

#[test]
fn room_is_made_for_a_long_body() {
    let mut codec = LanguageServerCodec::<AllMessages>::default();
    let mut buffer = BytesMut::from("Content-Length: 100000\r\n\r\nabc");
    assert_eq!(None, codec.decode_frame(&mut buffer).unwrap());
    assert_eq!(Some(100000), codec.known_content_length);
    assert_eq!(&b"abc"[..], &buffer[..]);
    assert!(buffer.capacity() >= 100000);
    buffer.put(&vec![b'x'; 99997][..]);
    let body = codec.decode_frame(&mut buffer).unwrap().unwrap();
    assert_eq!(100000, body.len());
    assert_eq!(&b"abcx"[..], &body[..4]);
    assert!(buffer.is_empty());
}

#[test]
fn content_length_beyond_any_buffer_is_awaited_without_room() {
    let mut codec = LanguageServerCodec::<AllMessages>::default();
    let mut buffer = BytesMut::from("Content-Length: 18446744073709551615\r\n\r\nabc");
    assert_eq!(None, codec.decode_frame(&mut buffer).unwrap());
    assert_eq!(Some(usize::MAX), codec.known_content_length);
    assert_eq!(&b"abc"[..], &buffer[..]);
}

#[test]
fn frame_decodes_whatever_the_cut() {
    let whole = payload_str_mock().into_bytes();
    for cut in 0..whole.len() {
        let mut codec = LanguageServerCodec::<AllMessages>::default();
        let mut buffer = BytesMut::from(&whole[..cut]);
        assert_eq!(None, codec.decode(&mut buffer).unwrap(), "cut at {}", cut);
        buffer.put(&whole[cut..]);
        assert_eq!(Some(message_mock()), codec.decode(&mut buffer).unwrap(), "cut at {}", cut);
        assert!(buffer.is_empty());
        assert_eq!(None, codec.decode(&mut buffer).unwrap());
    }
}

#[test]
fn two_frames_decode_in_order() {
    let first = b"{\"jsonrpc\":\"2.0\",\"method\":\"exit\"}";
    let second = b"{\"jsonrpc\":\"2.0\",\"id\":\"a\",\"result\":null}";
    let mut codec = LanguageServerCodec::<AllMessages>::default();
    let mut buffer = BytesMut::new();
    codec.encode_frame(first, &mut buffer).unwrap();
    codec.encode_frame(second, &mut buffer).unwrap();
    assert_eq!(Some(first.to_vec()), codec.decode_frame(&mut buffer).unwrap());
    assert_eq!(Some(second.to_vec()), codec.decode_frame(&mut buffer).unwrap());
    assert_eq!(None, codec.decode_frame(&mut buffer).unwrap());
}

#[test]
fn duplicate_content_length_is_a_decode_error() {
    let mut codec = LanguageServerCodec::<AllMessages>::default();
    let mut buffer = BytesMut::from("Content-Length: 2\r\nContent-Length: 2\r\n\r\n{}");
    match codec.decode(&mut buffer) {
        Err(DecodeError::HeadersParseError(HeadersParseError::DuplicateOfValidHeader(name))) => {
            assert_eq!("Content-Length", name)
        }
        other => panic!("{:?}", other),
    }
}

#[test]
fn unknown_header_is_a_decode_error() {
    let mut codec = LanguageServerCodec::<AllMessages>::default();
    let mut buffer = BytesMut::from("Host: x\r\n\r\n");
    assert!(matches!(
        codec.decode(&mut buffer),
        Err(DecodeError::HeadersParseError(HeadersParseError::InvalidHeader(_)))
    ));
}

#[test]
fn a_third_header_is_more_than_the_parser_takes() {
    let mut codec = LanguageServerCodec::<AllMessages>::default();
    let mut buffer = BytesMut::from(
        "Content-Length: 2\r\nContent-Type: application/vscode-jsonrpc; charset=utf-8\r\nHost: x\r\n\r\n{}",
    );
    match codec.decode(&mut buffer) {
        Err(DecodeError::Httparse(text)) => assert_eq!("too many headers", text),
        other => panic!("{:?}", other),
    }
}

#[test]
fn bytes_that_are_no_header_are_a_decode_error() {
    let mut codec = LanguageServerCodec::<AllMessages>::default();
    let mut buffer = BytesMut::from("{\"jsonrpc\":\"2.0\"}\r\n\r\n");
    assert!(matches!(codec.decode(&mut buffer), Err(DecodeError::Httparse(_))));
    assert_eq!(&b"{\"jsonrpc\":\"2.0\"}\r\n\r\n"[..], &buffer[..]);
}

#[test]
fn deprecated_content_type_is_decoded() {
    let mut codec = LanguageServerCodec::<AllMessages>::default();
    let mut buffer = BytesMut::from(
        "Content-Type: application/vscode-jsonrpc; charset=utf8\r\nContent-Length: 2\r\n\r\n{}",
    );
    assert_eq!(Some(b"{}".to_vec()), codec.decode_frame(&mut buffer).unwrap());
}

#[test]
fn body_that_is_no_json_is_a_deserialize_error() {
    let mut codec = LanguageServerCodec::<AllMessages>::default();
    let mut buffer = BytesMut::from("Content-Length: 3\r\n\r\n{]}rest");
    assert!(matches!(codec.decode(&mut buffer), Err(DecodeError::Deserialize(_))));
    assert_eq!(&b"rest"[..], &buffer[..]);
    assert_eq!(None, codec.known_content_length);
}

#[test]
fn body_that_is_no_message_matches_no_variant() {
    let mut codec = LanguageServerCodec::<AllMessages>::default();
    let mut buffer = BytesMut::from(
        "Content-Length: 11\r\nContent-Type: application/vscode-jsonrpc; charset=utf-8\r\n\r\n{\"name\":10}",
    );
    match codec.decode(&mut buffer) {
        Err(DecodeError::Deserialize(text)) => {
            assert_eq!("data did not match any variant of the message set", text)
        }
        other => panic!("{:?}", other),
    }
}

#[test]
fn parser_verdicts_on_a_body_are_followed() {
    match LanguageServerCodec::<AllMessages>::decode_parsed(Err("bad".to_string())) {
        Err(DecodeError::Deserialize(text)) => assert_eq!("bad", text),
        other => panic!("{:?}", other),
    }
    assert_eq!(
        message_mock(),
        LanguageServerCodec::<AllMessages>::decode_body_message(message_mock_body().as_bytes())
            .unwrap()
    );
}

#[test]
fn printer_verdicts_are_followed() {
    let mut codec = LanguageServerCodec::<AllMessages>::default();
    let mut buffer = BytesMut::from("x");
    match codec.encode_printed(Err("no".to_string()), &mut buffer) {
        Err(EncodeError::Serialize(text)) => assert_eq!("no", text),
        other => panic!("{:?}", other),
    }
    assert_eq!(&b"x"[..], &buffer[..]);
    codec.encode_printed(Ok("{}".to_string()), &mut buffer).unwrap();
    assert_eq!(
        &b"xContent-Length: 2\r\nContent-Type: application/vscode-jsonrpc; charset=utf-8\r\n\r\n{}"[..],
        &buffer[..]
    );
}

#[test]
fn only_a_failed_source_is_not_recoverable() {
    assert!(!DecodeError::Io("closed".to_string()).is_recoverable());
    assert!(DecodeError::Httparse("bad".to_string()).is_recoverable());
    assert!(DecodeError::Deserialize("eof".to_string()).is_recoverable());
    assert!(DecodeError::HeadersParseError(HeadersParseError::MissingContentLength)
        .is_recoverable());
    assert!(DecodeError::Httparse("bad".to_string()).leaves_bytes());
    assert!(DecodeError::HeadersParseError(HeadersParseError::Utf8(0)).leaves_bytes());
    assert!(!DecodeError::Deserialize("eof".to_string()).leaves_bytes());
    assert!(!DecodeError::Io("closed".to_string()).leaves_bytes());
}

#[test]
fn decode_errors_have_a_text() {
    assert_eq!("closed", DecodeError::Io("closed".to_string()).to_string());
    assert_eq!("bad", DecodeError::Httparse("bad".to_string()).to_string());
    assert_eq!("eof", DecodeError::Deserialize("eof".to_string()).to_string());
    assert_eq!(
        "missing content length",
        DecodeError::HeadersParseError(HeadersParseError::MissingContentLength).to_string()
    );
    assert_eq!("no", EncodeError::Serialize("no".to_string()).to_string());
    assert_eq!("full", EncodeError::Io("full".to_string()).to_string());
}

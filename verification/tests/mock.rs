use bytes::{BufMut, BytesMut};
use language_service::json::Json;
use language_service::messages::codec::LanguageServerCodec;
use language_service::messages::groups::MessageGroup;
use language_service::messages::jsonrpc::request::NumberOrString;
use language_service::messages::jsonrpc::response::{
    LspResponse, ReservedResponseErrorCodes, ResponseErrorCode, ResponseId, ResponseMessage,
    UntypedResponseMessage, PARSE_ERROR,
};
use language_service::messages::jsonrpc::MessageError;
use language_service::messages::payload::headers::{
    JsonRpcHeaders, CONTENT_TYPE_HEADER_NAME, JSON_RPC_CONTENT_TYPE,
};
use language_service::messages::payload::{Payload, ProtocolMessage};

/// A message set of one: the response to a shutdown request.
#[derive(Debug, PartialEq)]
enum MockAgentMessage {
    Shutdown(ResponseMessage),
}

impl MessageGroup for MockAgentMessage {
    fn to_json(&self) -> Json {
        match self {
            MockAgentMessage::Shutdown(response) => UntypedResponseMessage {
                id: response.id.duplicate(),
                kind: Ok(Json::Null),
            }
            .to_json(),
        }
    }

    fn from_json(json: &Json) -> Result<Self, MessageError> {
        let untyped = UntypedResponseMessage::from_json(json)?;
        match &untyped.kind {
            Ok(Json::Null) => Ok(MockAgentMessage::Shutdown(ResponseMessage::typed(untyped))),
            _ => Err(MessageError::NoVariant),
        }
    }
}

fn shutdown_response_mock() -> ResponseMessage {
    ResponseMessage { id: ResponseId::NumberOrString(NumberOrString::Number(0)), kind: Ok(Json::Null) }
}

fn agent_message_mock() -> MockAgentMessage {
    MockAgentMessage::Shutdown(shutdown_response_mock())
}

fn shutdown_response_json() -> serde_json::Value {
    serde_json::from_str("{\"jsonrpc\":\"2.0\",\"id\":0,\"result\":null}").unwrap()
}

fn protocol_message() -> String {
    ProtocolMessage::try_new(&agent_message_mock()).unwrap().to_string()
}

#[test]
fn decode_decodes_messages() {
    let mut message_bytes = BytesMut::new();
    let mut codec = LanguageServerCodec::<MockAgentMessage>::default();
    for _ in 0..2 {
        message_bytes.put(protocol_message().as_bytes());
        assert_eq!(agent_message_mock(), codec.decode(&mut message_bytes).unwrap().unwrap())
    }
}

#[test]
fn decode_ok_on_missing_content_length_header() {
    let mut message_bytes = BytesMut::from(
        format!("{}: {}", CONTENT_TYPE_HEADER_NAME, JSON_RPC_CONTENT_TYPE).as_str(),
    );

    let mut codec = LanguageServerCodec::<MockAgentMessage>::default();
    assert!(codec.decode(&mut message_bytes).unwrap().is_none())
}

#[test]
fn decode_ok_on_partial_headers() {
    let mut message_bytes = BytesMut::from("cont");

    let mut codec = LanguageServerCodec::<MockAgentMessage>::default();
    assert!(codec.decode(&mut message_bytes).unwrap().is_none())
}

#[test]
fn decode_ok_on_partial_content() {
    let mut message_bytes =
        BytesMut::from(JsonRpcHeaders { content_length: 100 }.to_string().as_str());

    let mut codec = LanguageServerCodec::<MockAgentMessage>::default();
    assert!(codec.decode(&mut message_bytes).unwrap().is_none())
}

#[test]
fn message_of_another_set_matches_no_variant() {
    let mut message_bytes = BytesMut::from(
        Payload::new("{\"jsonrpc\":\"2.0\",\"id\":0,\"result\":1}".to_string()).to_string().as_str(),
    );
    let mut codec = LanguageServerCodec::<MockAgentMessage>::default();
    assert!(codec.decode(&mut message_bytes).is_err());
    assert!(message_bytes.is_empty());
}

#[test]
fn encode_encodes_message() {
    let mut language_server_codec = LanguageServerCodec::<MockAgentMessage>::default();
    let mut message_buffer = BytesMut::new();
    language_server_codec.encode(agent_message_mock(), &mut message_buffer).unwrap();

    assert_eq!(
        &ProtocolMessage::try_new(&agent_message_mock()).unwrap().to_string(),
        std::str::from_utf8(&message_buffer).unwrap()
    )
}

#[test]
fn mod_displays_protocol_message() {
    let body_string = agent_message_mock().to_json().print().unwrap();
    let expected_string = format!(
        "{}\r\n{}",
        JsonRpcHeaders { content_length: body_string.len() }.to_string(),
        body_string
    );

    assert_eq!(expected_string, protocol_message());
}

#[test]
fn codec_displays_protocol_message() {
    let body_string = shutdown_response_mock().untyped().to_json().print().unwrap();
    let expected_string =
        format!("{}\r\n{}", JsonRpcHeaders::new(body_string.len()).to_string(), body_string);

    assert_eq!(
        expected_string,
        Payload::try_new(&agent_message_mock()).unwrap().to_string()
    );
}

#[test]
fn headers_displays_header() {
    let header = JsonRpcHeaders::new(10);
    assert_eq!(
        "Content-Length: 10\r\nContent-Type: application/vscode-jsonrpc; charset=utf-8\r\n",
        header.to_string()
    );
}

#[test]
fn response_serializes_request_message() {
    let printed = shutdown_response_mock().untyped().to_json().print().unwrap();
    let value: serde_json::Value = serde_json::from_str(&printed).unwrap();
    assert_eq!(shutdown_response_json(), value)
}

#[test]
fn response_deserializes_request_message() {
    let json = Json::parse(shutdown_response_json().to_string().as_bytes()).unwrap();
    assert_eq!(
        shutdown_response_mock(),
        ResponseMessage::typed(UntypedResponseMessage::from_json(&json).unwrap())
    )
}

#[test]
fn response_serializes_reserved_response_error_code_as_i64() {
    let code = ResponseErrorCode::Reserved(ReservedResponseErrorCodes::ParseError);
    assert_eq!(PARSE_ERROR.to_string(), Json::integer(code.code()).print().unwrap())
}

#[test]
fn response_serializes_other_response_error_code_as_i64() {
    const OTHER_CODE: i64 = -123;
    assert_eq!(
        OTHER_CODE.to_string(),
        Json::integer(ResponseErrorCode::Other(OTHER_CODE).code()).print().unwrap()
    )
}

#[test]
fn response_deserializes_reserved_response_error_code_from_i64() {
    let number = Json::parse(PARSE_ERROR.to_string().as_bytes()).unwrap().as_integer().unwrap();
    assert_eq!(
        ResponseErrorCode::Reserved(ReservedResponseErrorCodes::ParseError),
        ResponseErrorCode::from_code(number)
    )
}

#[test]
fn response_deserializes_other_response_error_code_from_i64() {
    const OTHER_CODE: i64 = -123;
    let number = Json::parse(OTHER_CODE.to_string().as_bytes()).unwrap().as_integer().unwrap();
    assert_eq!(ResponseErrorCode::Other(OTHER_CODE), ResponseErrorCode::from_code(number))
}

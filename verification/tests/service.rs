use language_service::json::Json;
use language_service::messages::codec::LanguageServerCodec;
use language_service::messages::groups::notifications::{
    AllNotifications, AllServerNotifications, NotificationMethod, ServerNotificationMethod,
};
use language_service::messages::groups::requests::{
    AllClientRequests, AllRequests, AllServerRequests, ClientRequestMethod, RequestMethod,
    ServerRequestMethod,
};
use language_service::messages::groups::responses::ErrorResponse;
use language_service::messages::groups::{AllMessages, MessageGroup};
use language_service::messages::jsonrpc::notification::NotificationMessage;
use language_service::messages::jsonrpc::request::{NumberOrString, RequestId, RequestMessage};
use language_service::messages::jsonrpc::response::{
    ReservedResponseErrorCodes, ResponseError, ResponseErrorCode, ResponseId, ResponseMessage,
    UntypedResponseMessage,
};
use language_service::messages::payload::Payload;
use language_service::service::filter::{
    ClientRole, IncomingMessage, MessageFilter, OutgoingMessage, ServerRole, ServiceMessageFilter,
};
use language_service::service::frontend::ServiceFrontend;
use language_service::service::type_store::{TypeStore, TypedResponse};

/// A role that takes two requests and one notification, and wants the result
/// of a shutdown to be `null`.
struct FilterMock;

impl MessageFilter for FilterMock {
    fn name() -> &'static str {
        "FilterMock"
    }

    fn accepts_request(method: RequestMethod) -> bool {
        matches!(
            method,
            RequestMethod::Server(ServerRequestMethod::Shutdown)
                | RequestMethod::Server(ServerRequestMethod::WillRenameFiles)
        )
    }

    fn accepts_notification(method: NotificationMethod) -> bool {
        matches!(method, NotificationMethod::Server(ServerNotificationMethod::Exit))
    }

    fn check_result(method: RequestMethod, result: &Json) -> Result<(), String> {
        match method {
            RequestMethod::Server(ServerRequestMethod::Shutdown) if !result.is_null() => {
                Err("invalid type: expected unit".to_string())
            }
            _ => Ok(()),
        }
    }
}

/// The pipeline without streams: bytes go in and come out by hand.
struct ServiceDriver<F: MessageFilter> {
    frontend: ServiceFrontend,
    message_filter: ServiceMessageFilter<F>,
    to_filter: Vec<AllMessages>,
    to_frontend: Vec<AllMessages>,
    incoming: Vec<IncomingMessage>,
    outgoing: Vec<OutgoingMessage>,
}

fn take_first<T>(queue: &mut Vec<T>) -> Option<T> {
    if queue.is_empty() {
        None
    } else {
        Some(queue.remove(0))
    }
}

impl<F: MessageFilter> ServiceDriver<F> {
    fn new() -> Self {
        Self {
            frontend: ServiceFrontend::new(),
            message_filter: ServiceMessageFilter::new(),
            to_filter: Vec::new(),
            to_frontend: Vec::new(),
            incoming: Vec::new(),
            outgoing: Vec::new(),
        }
    }

    fn send_input_message(&mut self, message: &AllMessages) {
        let payload_string = Payload::try_new(message).unwrap().to_string();
        self.send_raw_payload_str(&payload_string)
    }

    fn send_raw_payload_str(&mut self, payload_str: &str) {
        assert!(self.frontend.receive(payload_str.as_bytes()));
    }

    fn get_output_message(&mut self) -> Option<AllMessages> {
        let bytes = self.frontend.take_output();
        LanguageServerCodec::<AllMessages>::default()
            .decode(&mut bytes::BytesMut::from(&bytes[..]))
            .expect("invalid payload encoding")
    }

    fn get_incoming_at_backend(&mut self) -> Option<IncomingMessage> {
        take_first(&mut self.incoming)
    }

    fn send_outgoing_at_backend(&mut self, message: OutgoingMessage) {
        self.outgoing.push(message)
    }

    fn filter_tick(&mut self) {
        let from_frontend = take_first(&mut self.to_filter);
        let from_backend = take_first(&mut self.outgoing);
        let handed_on = self.message_filter.tick(from_frontend, from_backend);
        self.incoming.extend(handed_on.to_backend);
        self.to_frontend.extend(handed_on.to_frontend);
    }

    fn tick(&mut self) {
        // Backend to frontend
        self.filter_tick();
        // Frontend to filter
        let from_filter = take_first(&mut self.to_frontend);
        self.to_filter.extend(self.frontend.tick(from_filter).unwrap());
        // Filter to backend
        self.filter_tick();
    }
}

fn request(id: NumberOrString) -> RequestMessage {
    RequestMessage { id: RequestId(id), params: None }
}

fn shutdown_request_mock() -> RequestMessage {
    request(NumberOrString::Number(0))
}

fn message_mock() -> AllMessages {
    AllMessages::Requests(AllRequests::Server(AllServerRequests::Shutdown(shutdown_request_mock())))
}

fn outgoing_message_mock() -> OutgoingMessage {
    OutgoingMessage::Request(AllRequests::Server(AllServerRequests::Shutdown(
        shutdown_request_mock(),
    )))
}

fn incoming_message_mock() -> IncomingMessage {
    IncomingMessage::Request(AllRequests::Server(AllServerRequests::Shutdown(
        shutdown_request_mock(),
    )))
}

fn show_document_params() -> Json {
    Json::parse(b"{\"uri\":\"www.google.com\"}").unwrap()
}

fn invalid_incoming_mock() -> AllMessages {
    AllMessages::Requests(AllRequests::Client(AllClientRequests::ShowDocument(RequestMessage {
        id: RequestId(NumberOrString::Number(1)),
        params: Some(show_document_params()),
    })))
}

fn invalid_payload_str_mock() -> String {
    Payload::new("{\"name\":10}".to_string()).to_string()
}

fn assert_response_message(message: AllMessages) -> UntypedResponseMessage {
    match message {
        AllMessages::UntypedResponse(untyped_response) => untyped_response,
        _ => panic!(),
    }
}

fn assert_error(message: AllMessages) -> (ResponseId, ResponseError) {
    let response = assert_response_message(message);
    (response.id, response.kind.unwrap_err())
}

#[test]
fn forwards_payload_to_backend() {
    let mut service_driver = ServiceDriver::<FilterMock>::new();
    service_driver.send_input_message(&message_mock());
    service_driver.tick();
    assert!(service_driver
        .get_incoming_at_backend()
        .is_some_and(|message| message == incoming_message_mock()))
}

#[test]
fn fails_on_invalid_incoming() {
    let mut service_driver = ServiceDriver::<FilterMock>::new();
    service_driver.send_input_message(&invalid_incoming_mock());
    // Send message to message filter
    service_driver.tick();
    // Pull error message message filter.
    service_driver.tick();
    assert!(service_driver.get_output_message().is_some_and(|message| {
        let response_message = assert_response_message(message);
        ResponseMessage::typed(response_message)
            .kind
            .is_err_and(|err| err.message.contains("invalid message"))
    }))
}

#[test]
fn outputs_payload_from_backend() {
    let mut service_driver = ServiceDriver::<FilterMock>::new();
    service_driver.send_outgoing_at_backend(outgoing_message_mock());
    service_driver.tick();
    assert!(service_driver.get_output_message().is_some_and(|message| message == message_mock()))
}

#[test]
fn responds_with_decode_error_for_invalid_payload() {
    let mut service_driver = ServiceDriver::<FilterMock>::new();
    service_driver.send_raw_payload_str(&invalid_payload_str_mock());
    service_driver.tick();
    assert!(service_driver.get_output_message().is_some_and(|message| {
        let response_message = assert_response_message(message);
        ResponseMessage::typed(response_message).kind.is_err_and(|err| {
            err.code == ResponseErrorCode::Reserved(ReservedResponseErrorCodes::ParseError)
        })
    }))
}

#[test]
fn shutdown_request_reaches_the_server() {
    let mut driver = ServiceDriver::<ServerRole>::new();
    let body = "{\"jsonrpc\":\"2.0\",\"id\":0,\"method\":\"shutdown\"}";
    driver.send_raw_payload_str(&Payload::new(body.to_string()).to_string());
    driver.tick();
    assert_eq!(Some(incoming_message_mock()), driver.get_incoming_at_backend());
    assert_eq!(None, driver.get_incoming_at_backend());
    assert!(driver.frontend.take_output().is_empty());
}

#[test]
fn server_refuses_a_request_for_clients() {
    let mut driver = ServiceDriver::<ServerRole>::new();
    let body = "{\"jsonrpc\":\"2.0\",\"id\":1,\"method\":\"window/showDocument\",\"params\":{\"uri\":\"www.google.com\"}}";
    driver.send_raw_payload_str(&Payload::new(body.to_string()).to_string());
    driver.tick();
    driver.tick();
    assert_eq!(None, driver.get_incoming_at_backend());
    let (id, error) = assert_error(driver.get_output_message().unwrap());
    assert_eq!(ResponseId::NumberOrString(NumberOrString::Number(1)), id);
    assert_eq!(ResponseErrorCode::Reserved(ReservedResponseErrorCodes::InternalError), error.code);
    assert_eq!(-32603, error.code.code());
    assert_eq!("invalid message for server", error.message);
    let data = error.data.unwrap();
    assert_eq!(Ok(invalid_incoming_mock()), AllMessages::from_json(&data).map_err(|_| ()));
}

#[test]
fn client_refuses_a_request_for_servers() {
    let mut driver = ServiceDriver::<ClientRole>::new();
    driver.send_input_message(&message_mock());
    driver.tick();
    driver.tick();
    assert_eq!(None, driver.get_incoming_at_backend());
    let (id, error) = assert_error(driver.get_output_message().unwrap());
    assert_eq!(ResponseId::NumberOrString(NumberOrString::Number(0)), id);
    assert_eq!("invalid message for client", error.message);
}

#[test]
fn refused_notification_is_answered_to_nobody() {
    let mut filter = ServiceMessageFilter::<ClientRole>::new();
    let exit = AllMessages::Notifications(AllNotifications::Server(AllServerNotifications::Exit(
        NotificationMessage { params: None },
    )));
    let answer = filter.typeset_incoming(exit).unwrap_err();
    assert_eq!(ResponseId::Null, answer.id);
    assert_eq!(ResponseErrorCode::Reserved(ReservedResponseErrorCodes::InternalError), answer.error.code);
}

#[test]
fn accepted_notification_reaches_the_backend() {
    let mut filter = ServiceMessageFilter::<ServerRole>::new();
    let exit = AllNotifications::Server(AllServerNotifications::Exit(NotificationMessage {
        params: None,
    }));
    let incoming = filter
        .typeset_incoming(AllMessages::Notifications(AllNotifications::Server(
            AllServerNotifications::Exit(NotificationMessage { params: None }),
        )))
        .unwrap();
    assert_eq!(Some(IncomingMessage::Notification(exit)), incoming);
}

#[test]
fn invalid_body_is_answered_with_a_parse_error() {
    let mut driver = ServiceDriver::<ServerRole>::new();
    driver.send_raw_payload_str(
        "Content-Length: 11\r\nContent-Type: application/vscode-jsonrpc; charset=utf-8\r\n\r\n{\"name\":10}",
    );
    driver.tick();
    let (id, error) = assert_error(driver.get_output_message().unwrap());
    assert_eq!(ResponseId::Null, id);
    assert_eq!(-32700, error.code.code());
    assert_eq!(None, error.data);
    assert_eq!(None, driver.get_incoming_at_backend());
}

#[test]
fn body_cut_short_by_its_content_length_is_answered_with_a_parse_error() {
    let mut driver = ServiceDriver::<ServerRole>::new();
    driver.send_raw_payload_str(
        "Content-Length: 9\r\nContent-Type: application/vscode-jsonrpc; charset=utf-8\r\n\r\n{\"name\":10}",
    );
    driver.tick();
    let (id, error) = assert_error(driver.get_output_message().unwrap());
    assert_eq!(ResponseId::Null, id);
    assert_eq!(-32700, error.code.code());
    assert_eq!(None, driver.get_incoming_at_backend());
}

#[test]
fn body_shorter_than_announced_waits_for_more() {
    let mut driver = ServiceDriver::<ServerRole>::new();
    driver.send_raw_payload_str(
        "Content-Length: 9\r\nContent-Type: application/vscode-jsonrpc; charset=utf-8\r\n\r\n{\"name\"",
    );
    driver.tick();
    assert!(driver.frontend.take_output().is_empty());
    driver.send_raw_payload_str(":1}");
    driver.tick();
    let (id, error) = assert_error(driver.get_output_message().unwrap());
    assert_eq!(ResponseId::Null, id);
    assert_eq!(-32700, error.code.code());
}

#[test]
fn response_is_typed_by_the_request_that_went_out() {
    let mut driver = ServiceDriver::<ClientRole>::new();
    let id = NumberOrString::String("abc".to_string());
    driver.send_outgoing_at_backend(OutgoingMessage::Request(AllRequests::Server(
        AllServerRequests::WillRenameFiles(request(id.clone())),
    )));
    driver.tick();
    assert_eq!(
        Some(AllMessages::Requests(AllRequests::Server(AllServerRequests::WillRenameFiles(
            request(id.clone())
        )))),
        driver.get_output_message()
    );
    driver.send_raw_payload_str(
        &Payload::new("{\"jsonrpc\":\"2.0\",\"id\":\"abc\",\"result\":null}".to_string())
            .to_string(),
    );
    driver.tick();
    assert_eq!(
        Some(IncomingMessage::Response(TypedResponse {
            method: RequestMethod::Server(ServerRequestMethod::WillRenameFiles),
            message: ResponseMessage { id: ResponseId::NumberOrString(id), kind: Ok(Json::Null) },
        })),
        driver.get_incoming_at_backend()
    );
    assert!(driver.message_filter.type_store.entries.is_empty());
}

#[test]
fn response_that_fails_the_check_is_answered_with_a_parse_error() {
    let mut filter = ServiceMessageFilter::<FilterMock>::new();
    filter.forward_to_frontend(Some(outgoing_message_mock()));
    let response = UntypedResponseMessage {
        id: ResponseId::NumberOrString(NumberOrString::Number(0)),
        kind: Ok(Json::Bool(true)),
    };
    let answer = filter.typeset_incoming(AllMessages::UntypedResponse(response)).unwrap_err();
    assert_eq!(ResponseId::NumberOrString(NumberOrString::Number(0)), answer.id);
    assert_eq!(ResponseErrorCode::Reserved(ReservedResponseErrorCodes::ParseError), answer.error.code);
    assert_eq!("invalid type: expected unit", answer.error.message);
    assert!(filter.type_store.entries.is_empty());
}

#[test]
fn error_response_is_typed_without_a_check() {
    let mut filter = ServiceMessageFilter::<FilterMock>::new();
    filter.forward_to_frontend(Some(outgoing_message_mock()));
    let error = ResponseError {
        code: ResponseErrorCode::Other(7),
        message: "no".to_string(),
        data: None,
    };
    let response = UntypedResponseMessage {
        id: ResponseId::NumberOrString(NumberOrString::Number(0)),
        kind: Err(ResponseError { code: error.code, message: "no".to_string(), data: None }),
    };
    assert_eq!(
        Ok(Some(IncomingMessage::Response(TypedResponse {
            method: RequestMethod::Server(ServerRequestMethod::Shutdown),
            message: ResponseMessage {
                id: ResponseId::NumberOrString(NumberOrString::Number(0)),
                kind: Err(error),
            },
        }))),
        filter.typeset_incoming(AllMessages::UntypedResponse(response))
    );
}

#[test]
fn response_on_no_record_is_dropped() {
    let mut filter = ServiceMessageFilter::<ServerRole>::new();
    filter.forward_to_frontend(Some(outgoing_message_mock()));
    for id in [
        ResponseId::Null,
        ResponseId::NumberOrString(NumberOrString::Number(1)),
        ResponseId::NumberOrString(NumberOrString::String("0".to_string())),
    ] {
        let response = UntypedResponseMessage { id, kind: Ok(Json::Null) };
        assert_eq!(Ok(None), filter.typeset_incoming(AllMessages::UntypedResponse(response)));
        assert_eq!(1, filter.type_store.entries.len());
    }
}

#[test]
fn later_request_replaces_the_record_of_an_earlier_one() {
    let mut store = TypeStore::new();
    let id = RequestId(NumberOrString::Number(5));
    store.store_request_type(&AllRequests::Server(AllServerRequests::Hover(request(
        NumberOrString::Number(5),
    ))));
    store.store_request_type(&AllRequests::Client(AllClientRequests::ShowDocument(request(
        NumberOrString::Number(5),
    ))));
    assert_eq!(Some(RequestMethod::Client(ClientRequestMethod::ShowDocument)), store.method_of(&id));
    let response = UntypedResponseMessage {
        id: ResponseId::NumberOrString(NumberOrString::Number(5)),
        kind: Ok(Json::Null),
    };
    let typed = store.load_response_type(response).unwrap();
    assert_eq!(RequestMethod::Client(ClientRequestMethod::ShowDocument), typed.method);
    assert_eq!(None, store.method_of(&id));
    let again = UntypedResponseMessage {
        id: ResponseId::NumberOrString(NumberOrString::Number(5)),
        kind: Ok(Json::Null),
    };
    assert!(store.load_response_type(again).is_err());
}

#[test]
fn split_frame_behaves_as_the_whole() {
    let mut driver = ServiceDriver::<ServerRole>::new();
    let body = "{\"jsonrpc\":\"2.0\",\"id\":0,\"method\":\"shutdown\"}";
    let whole = Payload::new(body.to_string()).to_string();
    driver.send_raw_payload_str(&whole[..10]);
    driver.tick();
    assert_eq!(None, driver.get_incoming_at_backend());
    driver.send_raw_payload_str(&whole[10..]);
    driver.tick();
    assert_eq!(Some(incoming_message_mock()), driver.get_incoming_at_backend());
    assert!(driver.frontend.take_output().is_empty());
}

#[test]
fn duplicate_content_length_is_answered_with_a_decode_error() {
    let mut driver = ServiceDriver::<ServerRole>::new();
    driver.send_raw_payload_str("Content-Length: 2\r\nContent-Length: 2\r\n\r\n{}");
    driver.tick();
    let (id, error) = assert_error(driver.get_output_message().unwrap());
    assert_eq!(ResponseId::Null, id);
    assert_eq!(-32700, error.code.code());
    assert_eq!("duplicate header: Content-Length", error.message);
}

#[test]
fn refused_header_block_is_answered_once_until_more_bytes_come() {
    let mut frontend = ServiceFrontend::new();
    assert!(frontend.receive(b"Host: x\r\n\r\n"));
    assert_eq!(Ok(None), frontend.tick(None).map_err(|_| ()));
    assert!(frontend.stalled);
    assert!(!frontend.take_output().is_empty());
    assert_eq!(Ok(None), frontend.tick(None).map_err(|_| ()));
    assert!(frontend.take_output().is_empty());
    assert!(frontend.receive(b""));
    assert!(frontend.stalled);
    assert!(frontend.receive(b"more"));
    assert!(!frontend.stalled);
    assert_eq!(Ok(None), frontend.tick(None).map_err(|_| ()));
    assert!(!frontend.take_output().is_empty());
    assert!(frontend.stalled);
}

#[test]
fn refused_body_leaves_the_next_frame_to_be_decoded() {
    let mut frontend = ServiceFrontend::new();
    let good = Payload::try_new(&message_mock()).unwrap().to_string();
    assert!(frontend.receive(format!("Content-Length: 2\r\n\r\n{{]{}", good).as_bytes()));
    assert_eq!(Ok(None), frontend.tick(None).map_err(|_| ()));
    assert!(!frontend.stalled);
    assert!(!frontend.take_output().is_empty());
    assert_eq!(Ok(Some(message_mock())), frontend.tick(None).map_err(|_| ()));
    assert!(frontend.take_output().is_empty());
}

#[test]
fn message_from_the_filter_is_written_behind_the_answer() {
    let mut frontend = ServiceFrontend::new();
    assert!(frontend.receive(b"Host: x\r\n\r\n"));
    assert_eq!(Ok(None), frontend.tick(Some(message_mock())).map_err(|_| ()));
    let written = frontend.take_output();
    let mut buffer = bytes::BytesMut::from(&written[..]);
    let mut codec = LanguageServerCodec::<AllMessages>::default();
    assert!(matches!(codec.decode(&mut buffer), Ok(Some(AllMessages::UntypedResponse(_)))));
    assert_eq!(Some(message_mock()), codec.decode(&mut buffer).unwrap());
    assert!(buffer.is_empty());
}

#[test]
fn one_pass_answers_first_and_forwards_then() {
    let mut filter = ServiceMessageFilter::<ServerRole>::new();
    let handed_on = filter.tick(Some(invalid_incoming_mock()), Some(outgoing_message_mock()));
    assert_eq!(None, handed_on.to_backend);
    assert_eq!(2, handed_on.to_frontend.len());
    assert!(matches!(handed_on.to_frontend[0], AllMessages::UntypedResponse(_)));
    assert_eq!(message_mock(), handed_on.to_frontend[1]);
    let idle = filter.tick(None, None);
    assert_eq!(None, idle.to_backend);
    assert!(idle.to_frontend.is_empty());
}

#[test]
fn outgoing_response_loses_its_type() {
    let mut filter = ServiceMessageFilter::<ServerRole>::new();
    let typed = TypedResponse {
        method: RequestMethod::Server(ServerRequestMethod::Shutdown),
        message: ResponseMessage {
            id: ResponseId::NumberOrString(NumberOrString::Number(0)),
            kind: Ok(Json::Null),
        },
    };
    assert_eq!(
        Some(AllMessages::UntypedResponse(UntypedResponseMessage {
            id: ResponseId::NumberOrString(NumberOrString::Number(0)),
            kind: Ok(Json::Null),
        })),
        filter.forward_to_frontend(Some(OutgoingMessage::Response(typed)))
    );
    assert!(filter.type_store.entries.is_empty());
}

#[test]
fn error_response_is_a_response() {
    let response = ErrorResponse {
        id: ResponseId::Null,
        error: ResponseError {
            code: ResponseErrorCode::Reserved(ReservedResponseErrorCodes::ParseError),
            message: "bad".to_string(),
            data: None,
        },
    };
    let printed = response.to_json().print().unwrap();
    let value: serde_json::Value = serde_json::from_str(&printed).unwrap();
    let expected: serde_json::Value = serde_json::from_str(
        "{\"jsonrpc\":\"2.0\",\"id\":null,\"error\":{\"code\":-32700,\"message\":\"bad\"}}",
    )
    .unwrap();
    assert_eq!(expected, value);
    assert!(matches!(AllMessages::from(response), AllMessages::UntypedResponse(_)));
}

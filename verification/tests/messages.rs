use language_service::json::Json;
use language_service::messages::groups::notifications::{
    AllClientNotifications, AllImplementationNotifications, AllNotifications,
    AllServerNotifications, ClientNotificationMethod, ImplementationNotificationMethod,
    NotificationMethod, ServerNotificationMethod,
};
use language_service::messages::groups::requests::{
    AllClientRequests, AllRequests, AllServerRequests, ClientRequestMethod, RequestMethod,
    ServerRequestMethod,
};
use language_service::messages::groups::responses::{
    DecodeErrorResponse, InternalErrorResponse, InvalidMessageResponse, ResponseErrors,
};
use language_service::messages::groups::{AllMessages, MessageGroup};
use language_service::messages::codec::DecodeError;
use language_service::messages::jsonrpc::notification::NotificationMessage;
use language_service::messages::jsonrpc::request::{
    LspRequest, NumberOrString, RequestId, RequestMessage,
};
use language_service::messages::jsonrpc::response::{
    LspResponse, ReservedResponseErrorCodes, ResponseError, ResponseErrorCode, ResponseId,
    ResponseMessage, UntypedResponseMessage, PARSE_ERROR,
};
use language_service::messages::jsonrpc::MessageError;
use lsp_types::notification::Notification;
use lsp_types::request::Request;

fn shutdown_request_mock() -> RequestMessage {
    RequestMessage { id: RequestId(NumberOrString::Number(0)), params: None }
}

fn shutdown_request_json() -> serde_json::Value {
    serde_json::from_str("{\"jsonrpc\":\"2.0\",\"id\":0,\"method\":\"shutdown\"}").unwrap()
}

fn shutdown_response_mock() -> ResponseMessage {
    ResponseMessage { id: ResponseId::NumberOrString(NumberOrString::Number(0)), kind: Ok(Json::Null) }
}

fn shutdown_response_json() -> serde_json::Value {
    serde_json::from_str("{\"jsonrpc\":\"2.0\",\"id\":0,\"result\":null}").unwrap()
}

fn to_value(json: &Json) -> serde_json::Value {
    serde_json::from_str(&json.print().unwrap()).unwrap()
}

fn from_value(value: &serde_json::Value) -> Json {
    Json::parse(value.to_string().as_bytes()).unwrap()
}

fn read(text: &str) -> Result<AllMessages, MessageError> {
    AllMessages::from_json(&Json::parse(text.as_bytes()).unwrap())
}

#[test]
fn serializes_request_message() {
    assert_eq!(shutdown_request_json(), to_value(&shutdown_request_mock().to_json("shutdown")))
}

#[test]
fn deserializes_request_message() {
    assert_eq!(
        shutdown_request_mock(),
        RequestMessage::from_json(&from_value(&shutdown_request_json()), "shutdown").unwrap()
    )
}

#[test]
fn serializes_response_message() {
    assert_eq!(shutdown_response_json(), to_value(&shutdown_response_mock().untyped().to_json()))
}

#[test]
fn deserializes_response_message() {
    assert_eq!(
        shutdown_response_mock(),
        ResponseMessage::typed(
            UntypedResponseMessage::from_json(&from_value(&shutdown_response_json())).unwrap()
        )
    )
}

#[test]
fn serializes_reserved_response_error_code_as_i64() {
    assert_eq!(
        PARSE_ERROR.to_string(),
        Json::integer(ResponseErrorCode::Reserved(ReservedResponseErrorCodes::ParseError).code())
            .print()
            .unwrap()
    )
}

#[test]
fn serializes_other_response_error_code_as_i64() {
    const OTHER_CODE: i64 = -123;
    assert_eq!(
        OTHER_CODE.to_string(),
        Json::integer(ResponseErrorCode::Other(OTHER_CODE).code()).print().unwrap()
    )
}

#[test]
fn deserializes_reserved_response_error_code_from_i64() {
    assert_eq!(
        ResponseErrorCode::Reserved(ReservedResponseErrorCodes::ParseError),
        ResponseErrorCode::from_code(
            Json::parse(PARSE_ERROR.to_string().as_bytes()).unwrap().as_integer().unwrap()
        )
    )
}

#[test]
fn deserializes_other_response_error_code_from_i64() {
    const OTHER_CODE: i64 = -123;
    assert_eq!(
        ResponseErrorCode::Other(OTHER_CODE),
        ResponseErrorCode::from_code(
            Json::parse(OTHER_CODE.to_string().as_bytes()).unwrap().as_integer().unwrap()
        )
    )
}

#[test]
fn reserved_codes_have_their_numbers() {
    let codes = [
        (ReservedResponseErrorCodes::ParseError, -32700),
        (ReservedResponseErrorCodes::InvalidRequest, -32600),
        (ReservedResponseErrorCodes::MethodNotFound, -32601),
        (ReservedResponseErrorCodes::InvalidParams, -32602),
        (ReservedResponseErrorCodes::InternalError, -32603),
        (ReservedResponseErrorCodes::ServerNotInitialized, -32002),
        (ReservedResponseErrorCodes::UnknownErrorCode, -32001),
        (ReservedResponseErrorCodes::RequestFailed, -32803),
        (ReservedResponseErrorCodes::RequestCancelled, lsp_types::error_codes::REQUEST_CANCELLED),
        (ReservedResponseErrorCodes::ContentModified, lsp_types::error_codes::SERVER_CANCELLED),
    ];
    for (reserved, number) in codes {
        assert_eq!(number, reserved.code());
        assert_eq!(Some(reserved), ReservedResponseErrorCodes::from_repr(number));
        assert_eq!(ResponseErrorCode::Reserved(reserved), ResponseErrorCode::from_code(number));
    }
    assert_eq!(None, ReservedResponseErrorCodes::from_repr(0));
    assert_eq!(None, ReservedResponseErrorCodes::from_repr(-32801));
    assert_eq!(ResponseErrorCode::Other(-32801), ResponseErrorCode::from_code(-32801));
}

#[test]
fn request_methods_have_the_names_of_the_protocol() {
    let names = [
        (ClientRequestMethod::RegisterCapability.name(), <lsp_types::request::RegisterCapability as Request>::METHOD),
        (ClientRequestMethod::UnregisterCapability.name(), <lsp_types::request::UnregisterCapability as Request>::METHOD),
        (ClientRequestMethod::InlayHintRefresh.name(), <lsp_types::request::InlayHintRefreshRequest as Request>::METHOD),
        (ClientRequestMethod::SemanticTokensRefresh.name(), <lsp_types::request::SemanticTokensRefresh as Request>::METHOD),
        (ClientRequestMethod::InlineValueRefresh.name(), <lsp_types::request::InlineValueRefreshRequest as Request>::METHOD),
        (ClientRequestMethod::WorkspaceDiagnosticsRefresh.name(), <lsp_types::request::WorkspaceDiagnosticRefresh as Request>::METHOD),
        (ClientRequestMethod::Configuration.name(), <lsp_types::request::WorkspaceConfiguration as Request>::METHOD),
        (ClientRequestMethod::WorkspaceFolders.name(), <lsp_types::request::WorkspaceFoldersRequest as Request>::METHOD),
        (ClientRequestMethod::ApplyWorkspaceEdit.name(), <lsp_types::request::ApplyWorkspaceEdit as Request>::METHOD),
        (ClientRequestMethod::ShowMessageRequest.name(), <lsp_types::request::ShowMessageRequest as Request>::METHOD),
        (ClientRequestMethod::ShowDocument.name(), <lsp_types::request::ShowDocument as Request>::METHOD),
        (ClientRequestMethod::WorkDoneProgressCreate.name(), <lsp_types::request::WorkDoneProgressCreate as Request>::METHOD),
        (ServerRequestMethod::Initialize.name(), <lsp_types::request::Initialize as Request>::METHOD),
        (ServerRequestMethod::Shutdown.name(), <lsp_types::request::Shutdown as Request>::METHOD),
        (ServerRequestMethod::WillSaveWaitUntilTextDocument.name(), <lsp_types::request::WillSaveWaitUntil as Request>::METHOD),
        (ServerRequestMethod::GotoDeclaration.name(), <lsp_types::request::GotoDeclaration as Request>::METHOD),
        (ServerRequestMethod::GotoDefinition.name(), <lsp_types::request::GotoDefinition as Request>::METHOD),
        (ServerRequestMethod::GotoTypeDefinition.name(), <lsp_types::request::GotoTypeDefinition as Request>::METHOD),
        (ServerRequestMethod::GotoImplementation.name(), <lsp_types::request::GotoImplementation as Request>::METHOD),
        (ServerRequestMethod::References.name(), <lsp_types::request::References as Request>::METHOD),
        (ServerRequestMethod::CallHierarchyPrepare.name(), <lsp_types::request::CallHierarchyPrepare as Request>::METHOD),
        (ServerRequestMethod::CallHierarchyIncoming.name(), <lsp_types::request::CallHierarchyIncomingCalls as Request>::METHOD),
        (ServerRequestMethod::CallHierarchyOutgoing.name(), <lsp_types::request::CallHierarchyOutgoingCalls as Request>::METHOD),
        (ServerRequestMethod::TypeHierarchyPrepare.name(), <lsp_types::request::TypeHierarchyPrepare as Request>::METHOD),
        (ServerRequestMethod::TypeHierarchySuper.name(), <lsp_types::request::TypeHierarchySupertypes as Request>::METHOD),
        (ServerRequestMethod::TypeHierarchySub.name(), <lsp_types::request::TypeHierarchySubtypes as Request>::METHOD),
        (ServerRequestMethod::DocumentHighlights.name(), <lsp_types::request::DocumentHighlightRequest as Request>::METHOD),
        (ServerRequestMethod::DocumentLink.name(), <lsp_types::request::DocumentLinkRequest as Request>::METHOD),
        (ServerRequestMethod::DocumentLinkResolve.name(), <lsp_types::request::DocumentLinkResolve as Request>::METHOD),
        (ServerRequestMethod::Hover.name(), <lsp_types::request::HoverRequest as Request>::METHOD),
        (ServerRequestMethod::CodeLens.name(), <lsp_types::request::CodeLensRequest as Request>::METHOD),
        (ServerRequestMethod::CodeLensResolve.name(), <lsp_types::request::CodeLensResolve as Request>::METHOD),
        (ServerRequestMethod::CodeLensRefresh.name(), <lsp_types::request::CodeLensRefresh as Request>::METHOD),
        (ServerRequestMethod::FoldingRange.name(), <lsp_types::request::FoldingRangeRequest as Request>::METHOD),
        (ServerRequestMethod::SelectionRange.name(), <lsp_types::request::SelectionRangeRequest as Request>::METHOD),
        (ServerRequestMethod::DocumentSymbols.name(), <lsp_types::request::DocumentSymbolRequest as Request>::METHOD),
        (ServerRequestMethod::SemanticTokensFull.name(), <lsp_types::request::SemanticTokensFullRequest as Request>::METHOD),
        (ServerRequestMethod::SemanticTokensFullDelta.name(), <lsp_types::request::SemanticTokensFullDeltaRequest as Request>::METHOD),
        (ServerRequestMethod::SemanticTokensRange.name(), <lsp_types::request::SemanticTokensRangeRequest as Request>::METHOD),
        (ServerRequestMethod::InlayHint.name(), <lsp_types::request::InlayHintRequest as Request>::METHOD),
        (ServerRequestMethod::InlayHindResolve.name(), <lsp_types::request::InlayHintResolveRequest as Request>::METHOD),
        (ServerRequestMethod::InlineValue.name(), <lsp_types::request::InlineValueRequest as Request>::METHOD),
        (ServerRequestMethod::Moniker.name(), <lsp_types::request::MonikerRequest as Request>::METHOD),
        (ServerRequestMethod::Completion.name(), <lsp_types::request::Completion as Request>::METHOD),
        (ServerRequestMethod::ResolveCompletionItem.name(), <lsp_types::request::ResolveCompletionItem as Request>::METHOD),
        (ServerRequestMethod::DocumentDiagnostics.name(), <lsp_types::request::DocumentDiagnosticRequest as Request>::METHOD),
        (ServerRequestMethod::WorkspaceDiagnostics.name(), <lsp_types::request::WorkspaceDiagnosticRequest as Request>::METHOD),
        (ServerRequestMethod::SignatureHelp.name(), <lsp_types::request::SignatureHelpRequest as Request>::METHOD),
        (ServerRequestMethod::CodeAction.name(), <lsp_types::request::CodeActionRequest as Request>::METHOD),
        (ServerRequestMethod::CodeActionResolve.name(), <lsp_types::request::CodeActionResolveRequest as Request>::METHOD),
        (ServerRequestMethod::DocumentColor.name(), <lsp_types::request::DocumentColor as Request>::METHOD),
        (ServerRequestMethod::ColorPresentation.name(), <lsp_types::request::ColorPresentationRequest as Request>::METHOD),
        (ServerRequestMethod::DocumentFormatting.name(), <lsp_types::request::Formatting as Request>::METHOD),
        (ServerRequestMethod::DocumentRangeFormatting.name(), <lsp_types::request::RangeFormatting as Request>::METHOD),
        (ServerRequestMethod::DocumentOnTypeFormatting.name(), <lsp_types::request::OnTypeFormatting as Request>::METHOD),
        (ServerRequestMethod::Rename.name(), <lsp_types::request::Rename as Request>::METHOD),
        (ServerRequestMethod::PrepareRename.name(), <lsp_types::request::PrepareRenameRequest as Request>::METHOD),
        (ServerRequestMethod::LinkedEditingRange.name(), <lsp_types::request::LinkedEditingRange as Request>::METHOD),
        (ServerRequestMethod::WorkspaceSymbols.name(), <lsp_types::request::WorkspaceSymbolRequest as Request>::METHOD),
        (ServerRequestMethod::WorkspaceSymbolsResolve.name(), <lsp_types::request::WorkspaceSymbolResolve as Request>::METHOD),
        (ServerRequestMethod::WillCreateFiles.name(), <lsp_types::request::WillCreateFiles as Request>::METHOD),
        (ServerRequestMethod::WillRenameFiles.name(), <lsp_types::request::WillRenameFiles as Request>::METHOD),
        (ServerRequestMethod::WillDeleteFiles.name(), <lsp_types::request::WillDeleteFiles as Request>::METHOD),
        (ServerRequestMethod::ExecuteCommand.name(), <lsp_types::request::ExecuteCommand as Request>::METHOD),
    ];
    for (ours, theirs) in names {
        assert_eq!(theirs, ours);
    }
    assert_eq!(64, names.len());
}

#[test]
fn notification_methods_have_the_names_of_the_protocol() {
    let names = [
        (ClientNotificationMethod::LogTrace.name(), <lsp_types::notification::LogTrace as Notification>::METHOD),
        (ClientNotificationMethod::LogMessage.name(), <lsp_types::notification::LogMessage as Notification>::METHOD),
        (ClientNotificationMethod::PublishDiagnostics.name(), <lsp_types::notification::PublishDiagnostics as Notification>::METHOD),
        (ClientNotificationMethod::ShowMessage.name(), <lsp_types::notification::ShowMessage as Notification>::METHOD),
        (ClientNotificationMethod::Telemetry.name(), <lsp_types::notification::TelemetryEvent as Notification>::METHOD),
        (ServerNotificationMethod::Initialized.name(), <lsp_types::notification::Initialized as Notification>::METHOD),
        (ServerNotificationMethod::SetTrace.name(), <lsp_types::notification::SetTrace as Notification>::METHOD),
        (ServerNotificationMethod::Exit.name(), <lsp_types::notification::Exit as Notification>::METHOD),
        (ServerNotificationMethod::WillSaveTextDocument.name(), <lsp_types::notification::WillSaveTextDocument as Notification>::METHOD),
        (ServerNotificationMethod::WorkDoneProgressCancel.name(), <lsp_types::notification::WorkDoneProgressCancel as Notification>::METHOD),
        (ServerNotificationMethod::DidOpenText.name(), <lsp_types::notification::DidOpenTextDocument as Notification>::METHOD),
        (ServerNotificationMethod::DidChangeText.name(), <lsp_types::notification::DidChangeTextDocument as Notification>::METHOD),
        (ServerNotificationMethod::DidSaveTextDocument.name(), <lsp_types::notification::DidSaveTextDocument as Notification>::METHOD),
        (ServerNotificationMethod::DidCloseTextDocument.name(), <lsp_types::notification::DidCloseTextDocument as Notification>::METHOD),
        (ServerNotificationMethod::DidChangeNotification.name(), <lsp_types::notification::DidChangeConfiguration as Notification>::METHOD),
        (ServerNotificationMethod::DidChangeWorkspaceFolders.name(), <lsp_types::notification::DidChangeWorkspaceFolders as Notification>::METHOD),
        (ServerNotificationMethod::DidCreateFiles.name(), <lsp_types::notification::DidCreateFiles as Notification>::METHOD),
        (ServerNotificationMethod::DidRenameFiles.name(), <lsp_types::notification::DidRenameFiles as Notification>::METHOD),
        (ServerNotificationMethod::DidDeleteFiles.name(), <lsp_types::notification::DidDeleteFiles as Notification>::METHOD),
        (ServerNotificationMethod::DidChangeWatcheFiles.name(), <lsp_types::notification::DidChangeWatchedFiles as Notification>::METHOD),
        (ImplementationNotificationMethod::CancelRequest.name(), <lsp_types::notification::Cancel as Notification>::METHOD),
        (ImplementationNotificationMethod::Progress.name(), <lsp_types::notification::Progress as Notification>::METHOD),
    ];
    for (ours, theirs) in names {
        assert_eq!(theirs, ours);
    }
    assert_eq!("notebookDocument/didOpen", ServerNotificationMethod::DidOpenNotebook.name());
    assert_eq!("notebookDocument/didChange", ServerNotificationMethod::DidChangeNotebook.name());
    assert_eq!("notebookDocument/didSave", ServerNotificationMethod::DidSaveNotebookDocument.name());
    assert_eq!("notebookDocument/didClose", ServerNotificationMethod::DidCloseNotebookDocument.name());
}

#[test]
fn methods_are_found_by_their_names() {
    assert_eq!(
        Some(RequestMethod::Server(ServerRequestMethod::Hover)),
        RequestMethod::from_name("textDocument/hover")
    );
    assert_eq!(
        Some(RequestMethod::Client(ClientRequestMethod::ShowDocument)),
        RequestMethod::from_name("window/showDocument")
    );
    assert_eq!(None, RequestMethod::from_name("exit"));
    assert_eq!(None, RequestMethod::from_name("textDocument/hove"));
    assert_eq!(
        Some(NotificationMethod::Server(ServerNotificationMethod::Exit)),
        NotificationMethod::from_name("exit")
    );
    assert_eq!(
        Some(NotificationMethod::Client(ClientNotificationMethod::LogTrace)),
        NotificationMethod::from_name("$/logTrace")
    );
    assert_eq!(
        Some(NotificationMethod::ImplementationDependent(
            ImplementationNotificationMethod::Progress
        )),
        NotificationMethod::from_name("$/progress")
    );
    assert_eq!(None, NotificationMethod::from_name("shutdown"));
    assert_eq!(Some(ServerRequestMethod::ExecuteCommand), ServerRequestMethod::from_name("workspace/executeCommand"));
    assert_eq!(None, ClientRequestMethod::from_name("workspace/executeCommand"));
}

#[test]
fn requests_are_made_of_method_and_message() {
    let made = AllRequests::new(
        RequestMethod::Server(ServerRequestMethod::Rename),
        RequestMessage { id: RequestId(NumberOrString::Number(3)), params: None },
    );
    assert_eq!(
        AllRequests::Server(AllServerRequests::Rename(RequestMessage {
            id: RequestId(NumberOrString::Number(3)),
            params: None
        })),
        made
    );
    assert_eq!(RequestMethod::Server(ServerRequestMethod::Rename), made.method());
    assert_eq!(&RequestId(NumberOrString::Number(3)), made.request_id());
    assert_eq!(&RequestId(NumberOrString::Number(3)), &made.message().id);
    let client = AllClientRequests::new(
        ClientRequestMethod::Configuration,
        RequestMessage { id: RequestId(NumberOrString::String("c".to_string())), params: None },
    );
    assert!(matches!(client, AllClientRequests::Configuration(_)));
    assert_eq!(ClientRequestMethod::Configuration, client.method());
    assert_eq!(&RequestId(NumberOrString::String("c".to_string())), client.request_id());
}

#[test]
fn notifications_are_made_of_method_and_message() {
    let made = AllNotifications::new(
        NotificationMethod::ImplementationDependent(
            ImplementationNotificationMethod::CancelRequest,
        ),
        NotificationMessage { params: Some(Json::Null) },
    );
    assert_eq!(
        AllNotifications::ImplementationDependent(AllImplementationNotifications::CancelRequest(
            NotificationMessage { params: Some(Json::Null) }
        )),
        made
    );
    assert_eq!(
        NotificationMethod::ImplementationDependent(
            ImplementationNotificationMethod::CancelRequest
        ),
        made.method()
    );
    assert_eq!(&NotificationMessage { params: Some(Json::Null) }, made.message());
    let client = AllClientNotifications::new(
        ClientNotificationMethod::Telemetry,
        NotificationMessage { params: None },
    );
    assert!(matches!(client, AllClientNotifications::Telemetry(_)));
    let server = AllServerNotifications::new(
        ServerNotificationMethod::Initialized,
        NotificationMessage { params: None },
    );
    assert_eq!(ServerNotificationMethod::Initialized, server.method());
}

#[test]
fn only_requests_have_a_request_id() {
    let request = AllMessages::Requests(AllRequests::Server(AllServerRequests::Shutdown(
        shutdown_request_mock(),
    )));
    assert_eq!(Some(&RequestId(NumberOrString::Number(0))), request.request_id());
    let response = AllMessages::UntypedResponse(shutdown_response_mock().untyped());
    assert_eq!(None, response.request_id());
    let notification = AllMessages::Notifications(AllNotifications::Server(
        AllServerNotifications::Exit(NotificationMessage { params: None }),
    ));
    assert_eq!(None, notification.request_id());
}

#[test]
fn messages_read_back_as_they_were_written() {
    let params = Json::parse(b"{\"a\":[1,2.5,\"x\",null,true],\"b\":{}}" as &[u8]).unwrap();
    let messages = [
        AllMessages::Requests(AllRequests::Server(AllServerRequests::Shutdown(
            shutdown_request_mock(),
        ))),
        AllMessages::Requests(AllRequests::Client(AllClientRequests::ShowDocument(
            RequestMessage {
                id: RequestId(NumberOrString::String("abc".to_string())),
                params: Some(params.duplicate()),
            },
        ))),
        AllMessages::Requests(AllRequests::Server(AllServerRequests::Hover(RequestMessage {
            id: RequestId(NumberOrString::Number(i32::MIN)),
            params: Some(Json::Null),
        }))),
        AllMessages::Notifications(AllNotifications::Server(AllServerNotifications::Exit(
            NotificationMessage { params: None },
        ))),
        AllMessages::Notifications(AllNotifications::ImplementationDependent(
            AllImplementationNotifications::Progress(NotificationMessage {
                params: Some(params.duplicate()),
            }),
        )),
        AllMessages::Notifications(AllNotifications::Client(
            AllClientNotifications::PublishDiagnostics(NotificationMessage {
                params: Some(params.duplicate()),
            }),
        )),
        AllMessages::UntypedResponse(UntypedResponseMessage {
            id: ResponseId::Null,
            kind: Ok(params.duplicate()),
        }),
        AllMessages::UntypedResponse(UntypedResponseMessage {
            id: ResponseId::NumberOrString(NumberOrString::Number(7)),
            kind: Err(ResponseError {
                code: ResponseErrorCode::Reserved(ReservedResponseErrorCodes::RequestFailed),
                message: "no".to_string(),
                data: Some(params.duplicate()),
            }),
        }),
        AllMessages::UntypedResponse(UntypedResponseMessage {
            id: ResponseId::NumberOrString(NumberOrString::String("7".to_string())),
            kind: Err(ResponseError {
                code: ResponseErrorCode::Other(1),
                message: String::new(),
                data: None,
            }),
        }),
    ];
    for message in messages {
        let text = message.to_json().print().unwrap();
        let back = AllMessages::from_json(&Json::parse(text.as_bytes()).unwrap()).unwrap();
        assert_eq!(message, back, "{}", text);
    }
}

#[test]
fn reserved_number_spelled_as_other_reads_back_reserved() {
    let written = UntypedResponseMessage {
        id: ResponseId::Null,
        kind: Err(ResponseError {
            code: ResponseErrorCode::Other(-32700),
            message: String::new(),
            data: None,
        }),
    };
    let back = UntypedResponseMessage::from_json(&written.to_json()).unwrap();
    assert_eq!(
        ResponseErrorCode::Reserved(ReservedResponseErrorCodes::ParseError),
        back.kind.unwrap_err().code
    );
}

#[test]
fn kind_of_a_message_is_told_by_its_fields() {
    assert!(matches!(
        read("{\"jsonrpc\":\"2.0\",\"id\":1,\"method\":\"shutdown\",\"result\":1}"),
        Ok(AllMessages::Requests(_))
    ));
    assert!(matches!(
        read("{\"jsonrpc\":\"2.0\",\"id\":1,\"method\":\"exit\"}"),
        Ok(AllMessages::Notifications(_))
    ));
    assert!(matches!(
        read("{\"jsonrpc\":\"2.0\",\"id\":1,\"method\":\"exit\",\"result\":1}"),
        Ok(AllMessages::UntypedResponse(_))
    ));
    assert!(matches!(
        read("{\"jsonrpc\":\"2.0\",\"id\":null,\"result\":1}"),
        Ok(AllMessages::UntypedResponse(_))
    ));
}

#[test]
fn values_that_are_no_message_match_no_variant() {
    let texts = [
        "{\"name\":10}",
        "[]",
        "{\"id\":1,\"method\":\"shutdown\"}",
        "{\"jsonrpc\":\"1.0\",\"id\":1,\"method\":\"shutdown\"}",
        "{\"jsonrpc\":\"2.0\",\"id\":1,\"method\":\"no/such/method\"}",
        "{\"jsonrpc\":\"2.0\",\"id\":1.5,\"method\":\"shutdown\"}",
        "{\"jsonrpc\":\"2.0\",\"id\":2147483648,\"method\":\"shutdown\"}",
        "{\"jsonrpc\":\"2.0\",\"id\":true,\"result\":1}",
        "{\"jsonrpc\":\"2.0\",\"result\":1}",
        "{\"jsonrpc\":\"2.0\",\"id\":1}",
        "{\"jsonrpc\":\"2.0\",\"id\":1,\"result\":1,\"error\":{\"code\":1,\"message\":\"\"}}",
        "{\"jsonrpc\":\"2.0\",\"id\":1,\"error\":{\"code\":1}}",
        "{\"jsonrpc\":\"2.0\",\"id\":1,\"error\":{\"code\":\"1\",\"message\":\"\"}}",
        "{\"jsonrpc\":\"2.0\",\"id\":1,\"error\":{\"code\":1,\"message\":\"\",\"more\":1}}",
        "{\"jsonrpc\":\"2.0\",\"id\":1,\"error\":[]}",
        "{\"jsonrpc\":\"2.0\",\"method\":7}",
    ];
    for text in texts {
        assert!(matches!(read(text), Err(MessageError::NoVariant)), "{}", text);
    }
}

#[test]
fn request_of_another_method_is_an_unknown_variant() {
    let json = from_value(&shutdown_request_json());
    match RequestMessage::from_json(&json, "initialize") {
        Err(MessageError::UnknownVariant(method)) => assert_eq!("shutdown", method),
        other => panic!("{:?}", other),
    }
    match NotificationMessage::from_json(&json, "exit") {
        Err(MessageError::UnknownVariant(method)) => assert_eq!("shutdown", method),
        other => panic!("{:?}", other),
    }
    assert!(matches!(
        RequestMessage::from_json(&Json::parse(b"{\"jsonrpc\":\"2.0\",\"method\":\"shutdown\"}" as &[u8]).unwrap(), "shutdown"),
        Err(MessageError::Malformed)
    ));
    assert_eq!(
        NotificationMessage { params: None },
        NotificationMessage::from_json(&json, "shutdown").unwrap()
    );
}

#[test]
fn message_errors_have_a_text() {
    assert_eq!(
        "a field of the message is missing or has the wrong shape",
        MessageError::Malformed.to_string()
    );
    assert_eq!("unknown variant: x", MessageError::UnknownVariant("x".to_string()).to_string());
    assert_eq!(
        "data did not match any variant of the message set",
        MessageError::NoVariant.to_string()
    );
}

#[test]
fn notification_is_written_with_its_method() {
    let expected: serde_json::Value =
        serde_json::from_str("{\"jsonrpc\":\"2.0\",\"method\":\"exit\",\"params\":[1]}").unwrap();
    let notification = NotificationMessage { params: Some(Json::parse(b"[1]").unwrap()) };
    assert_eq!(expected, to_value(&notification.to_json("exit")));
}

#[test]
fn error_is_written_with_a_bare_code() {
    let expected: serde_json::Value = serde_json::from_str(
        "{\"jsonrpc\":\"2.0\",\"id\":\"x\",\"error\":{\"code\":-32603,\"message\":\"m\",\"data\":{\"k\":1}}}",
    )
    .unwrap();
    let response = UntypedResponseMessage {
        id: ResponseId::NumberOrString(NumberOrString::String("x".to_string())),
        kind: Err(ResponseError {
            code: ResponseErrorCode::Reserved(ReservedResponseErrorCodes::InternalError),
            message: "m".to_string(),
            data: Some(Json::parse(b"{\"k\":1}").unwrap()),
        }),
    };
    assert_eq!(expected, to_value(&response.to_json()));
}

#[test]
fn identifiers_are_numbers_or_strings() {
    let number = NumberOrString::Number(-5);
    let string = NumberOrString::String("-5".to_string());
    assert!(number.same(&NumberOrString::Number(-5)));
    assert!(!number.same(&string));
    assert!(string.same(&string.duplicate()));
    assert_eq!("-5", number.to_json().print().unwrap());
    assert_eq!("\"-5\"", string.to_json().print().unwrap());
    assert_eq!(Some(number), NumberOrString::from_json(&Json::parse(b"-5").unwrap()));
    assert_eq!(None, NumberOrString::from_json(&Json::parse(b"-5.0").unwrap()));
    assert_eq!(None, NumberOrString::from_json(&Json::Null));
    assert_eq!(Some(ResponseId::Null), ResponseId::from_json(&Json::Null));
    assert_eq!("null", ResponseId::Null.to_json().print().unwrap());
    assert_eq!(
        ResponseId::NumberOrString(NumberOrString::Number(1)),
        ResponseId::from(RequestId(NumberOrString::Number(1)))
    );
    assert_eq!(
        RequestId(NumberOrString::Number(1)),
        RequestId(NumberOrString::Number(1)).duplicate()
    );
    assert_eq!(ResponseId::Null, ResponseId::Null.duplicate());
}

#[test]
fn empty_string_is_no_identifier() {
    let empty = NumberOrString::String(String::new());
    assert!(!empty.is_valid());
    assert!(NumberOrString::String("0".to_string()).is_valid());
    assert!(NumberOrString::Number(0).is_valid());
    assert_eq!("\"\"", empty.to_json().print().unwrap());
    assert_eq!(None, NumberOrString::from_json(&empty.to_json()));
    assert!(matches!(
        read("{\"jsonrpc\":\"2.0\",\"id\":\"\",\"method\":\"shutdown\"}"),
        Err(MessageError::NoVariant)
    ));
    assert!(matches!(
        read("{\"jsonrpc\":\"2.0\",\"id\":\"\",\"result\":null}"),
        Err(MessageError::NoVariant)
    ));
    assert!(matches!(
        read("{\"jsonrpc\":\"2.0\",\"id\":\"\",\"method\":\"exit\"}"),
        Ok(AllMessages::Notifications(_))
    ));
}

#[test]
fn decode_error_response_is_a_parse_error_for_nobody() {
    let response = DecodeErrorResponse::create(DecodeError::Deserialize("bad".to_string()));
    assert_eq!(ResponseId::Null, response.id);
    assert_eq!(
        ResponseError {
            code: ResponseErrorCode::Reserved(ReservedResponseErrorCodes::ParseError),
            message: "bad".to_string(),
            data: None,
        },
        response.error
    );
    assert_eq!(response, DecodeErrorResponse::new(DecodeError::Deserialize("bad".to_string())).0);
    let addressed = DecodeErrorResponse::addressed(
        ResponseId::NumberOrString(NumberOrString::Number(4)),
        DecodeError::Io("closed".to_string()),
    );
    assert_eq!(ResponseId::NumberOrString(NumberOrString::Number(4)), addressed.id);
    assert_eq!("closed", addressed.error.message);
    assert_eq!(&ResponseId::NumberOrString(NumberOrString::Number(4)), addressed.response_id());
}

#[test]
fn internal_error_response_is_for_the_request_at_hand() {
    let response = InternalErrorResponse::new(
        Some(RequestId(NumberOrString::Number(9))),
        "backend closed".to_string(),
    );
    assert_eq!(ResponseId::NumberOrString(NumberOrString::Number(9)), response.0.id);
    assert_eq!(
        ResponseErrorCode::Reserved(ReservedResponseErrorCodes::InternalError),
        response.0.error.code
    );
    assert_eq!("backend closed", response.0.error.message);
    assert_eq!(None, response.0.error.data);
    assert_eq!(ResponseId::Null, InternalErrorResponse::new(None, String::new()).0.id);
}

#[test]
fn invalid_message_response_is_what_it_is_given() {
    let error = ResponseError {
        code: ResponseErrorCode::Other(5),
        message: "m".to_string(),
        data: Some(Json::Bool(false)),
    };
    let response = InvalidMessageResponse::create(
        ResponseId::Null,
        ResponseError { code: error.code, message: "m".to_string(), data: Some(Json::Bool(false)) },
    );
    assert_eq!(ResponseId::Null, response.id);
    assert_eq!(error, response.error);
}

#[test]
fn backend_that_is_gone_is_an_internal_error_for_the_request_at_hand() {
    let request = AllMessages::Requests(AllRequests::Server(AllServerRequests::Shutdown(
        shutdown_request_mock(),
    )));
    let errors = ResponseErrors::backend_closed(&request);
    assert!(!errors.is_recoverable());
    let response = errors.into_response();
    assert_eq!(ResponseId::NumberOrString(NumberOrString::Number(0)), response.id);
    assert_eq!(-32603, response.error.code.code());
    assert_eq!("Service backend closed unexpectedly.", response.error.message);
    let notification = AllMessages::Notifications(AllNotifications::Server(
        AllServerNotifications::Exit(NotificationMessage { params: None }),
    ));
    let message = AllMessages::from(ResponseErrors::backend_closed(&notification));
    match message {
        AllMessages::UntypedResponse(response) => assert_eq!(ResponseId::Null, response.id),
        other => panic!("{:?}", other),
    }
}

#[test]
fn only_decode_errors_are_recoverable() {
    let decode = ResponseErrors::Decode(DecodeErrorResponse::new(DecodeError::Io(String::new())));
    let internal = ResponseErrors::Internal(InternalErrorResponse::new(None, String::new()));
    assert!(decode.is_recoverable());
    assert!(!internal.is_recoverable());
    assert_eq!(
        ReservedResponseErrorCodes::ParseError.code(),
        decode.into_response().error.code.code()
    );
    assert_eq!(-32603, internal.into_response().error.code.code());
}

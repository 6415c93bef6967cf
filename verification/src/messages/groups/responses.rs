//! The error responses that the runtime itself sends.

use vstd::prelude::*;
use vstd::std_specs::convert::FromSpecImpl;
use crate::json::{Json, JsonView};
use crate::messages::codec::decode::DecodeError;
use crate::messages::groups::AllMessages;
use crate::messages::jsonrpc::request::RequestId;
use crate::messages::jsonrpc::response::{
    is_response_id_json, is_response_json, LspResponse, ReservedResponseErrorCodes, ResponseError,
    ResponseErrorCode, ResponseErrorView, ResponseId, ResponseIdView, ResponseMessageView,
    UntypedResponseMessage,
};
use crate::messages::jsonrpc::{
    has_version, lemma_keys_differ, KEY_CODE, KEY_ERROR, KEY_ID, KEY_MESSAGE, KEY_RESULT,
};

verus! {

/// A response that carries an error and answers no method in particular.
#[derive(Debug, PartialEq)]
pub struct ErrorResponse {
    pub id: ResponseId,
    pub error: ResponseError,
}

/// The mathematical view of a `ErrorResponse`.
pub struct ErrorResponseView {
    pub id: ResponseIdView,
    pub error: ResponseErrorView,
}

impl View for ErrorResponse {
    type V = ErrorResponseView;

    open spec fn view(&self) -> ErrorResponseView {
        ErrorResponseView { id: self.id@, error: self.error@ }
    }
}

impl ErrorResponseView {
    /// The response that this is.
    pub open spec fn message(self) -> ResponseMessageView {
        ResponseMessageView { id: self.id, kind: Err(self.error) }
    }
}

impl LspResponse for ErrorResponse {
    open spec fn response_id_spec(&self) -> ResponseId {
        self.id
    }

    open spec fn untyped_spec(self) -> UntypedResponseMessage {
        UntypedResponseMessage { id: self.id, kind: Err(self.error) }
    }

    fn response_id(&self) -> (id: &ResponseId) {
        &self.id
    }

    fn untyped(self) -> (untyped: UntypedResponseMessage) {
        UntypedResponseMessage { id: self.id, kind: Err(self.error) }
    }
}

impl From<ErrorResponse> for AllMessages {
    fn from(error_response: ErrorResponse) -> (message: AllMessages) {
        AllMessages::UntypedResponse(error_response.untyped())
    }
}

impl FromSpecImpl<ErrorResponse> for AllMessages {
    open spec fn obeys_from_spec() -> bool {
        true
    }

    open spec fn from_spec(error_response: ErrorResponse) -> AllMessages {
        AllMessages::UntypedResponse(error_response.untyped_spec())
    }
}

/// What is written for an error response is an error envelope: the version,
/// the identifier of the response or `null`, no result, and an error object
/// whose code is a bare integer.
pub proof fn lemma_error_envelope(json: JsonView, response: ErrorResponseView)
    requires
        is_response_json(json, response.message()),
    ensures
        has_version(json),
        json.field(KEY_ID@) matches Some(id) && is_response_id_json(id, response.id),
        response.id is Null ==> json.field(KEY_ID@) == Some(JsonView::Null),
        json.field(KEY_RESULT@).is_none(),
        json.field(KEY_ERROR@) matches Some(error) && (error.field(KEY_CODE@) matches Some(code)
            && code is Number && code.integer() == Some(response.error.code.code_spec()))
            && error.field(KEY_MESSAGE@) == Some(JsonView::Text(response.error.message)),
{
    lemma_keys_differ();
}

impl ErrorResponse {
    /// The JSON object of this response: an error envelope whose identifier
    /// is that of this response, and whose error has the code as a bare
    /// integer.
    pub fn to_json(&self) -> (json: Json)
        ensures
            is_response_json(json@, self@.message()),
    {
        let untyped = UntypedResponseMessage {
            id: self.id.duplicate(),
            kind: Err(
                ResponseError {
                    code: self.error.code,
                    message: self.error.message.clone(),
                    data: match &self.error.data {
                        Some(data) => Some(data.duplicate()),
                        None => None,
                    },
                },
            ),
        };
        untyped.to_json()
    }
}

/// The answer to bytes that are no message: nobody can tell whom it answers.
#[derive(Debug, PartialEq)]
pub struct DecodeErrorResponse(pub ErrorResponse);

impl DecodeErrorResponse {
    /// What the response to a decode error says: a parse error with the
    /// error's text, addressed to `id`.
    pub open spec fn response_spec(id: ResponseIdView, text: Seq<char>) -> ErrorResponseView {
        ErrorResponseView {
            id,
            error: ResponseErrorView {
                code: ResponseErrorCode::Reserved(ReservedResponseErrorCodes::ParseError),
                message: text,
                data: None,
            },
        }
    }

    /// The response to a decode error, addressed to nobody.
    pub fn new(decode_error: DecodeError) -> (response: DecodeErrorResponse)
        ensures
            response.0@ == Self::response_spec(ResponseIdView::Null, decode_error@.message()),
    {
        DecodeErrorResponse(Self::addressed(ResponseId::Null, decode_error))
    }

    /// The response to a decode error, addressed to nobody.
    pub fn create(decode_error: DecodeError) -> (response: ErrorResponse)
        ensures
            response@ == Self::response_spec(ResponseIdView::Null, decode_error@.message()),
    {
        Self::addressed(ResponseId::Null, decode_error)
    }

    /// The response to a decode error that is known to concern `id`.
    pub fn addressed(id: ResponseId, decode_error: DecodeError) -> (response: ErrorResponse)
        ensures
            response.id == id,
            response@ == Self::response_spec(id@, decode_error@.message()),
    {
        ErrorResponse {
            id,
            error: ResponseError {
                code: ResponseErrorCode::Reserved(ReservedResponseErrorCodes::ParseError),
                message: decode_error.to_string(),
                data: None,
            },
        }
    }
}

/// The answer when the runtime itself failed.
#[derive(Debug, PartialEq)]
pub struct InternalErrorResponse(pub ErrorResponse);

impl InternalErrorResponse {
    /// The response to an internal error: addressed to the request that was
    /// being handled, where there was one.
    pub fn new(request_id: Option<RequestId>, message: String) -> (response: InternalErrorResponse)
        ensures
            response.0.id == match request_id {
                Some(id) => ResponseId::NumberOrString(id.0),
                None => ResponseId::Null,
            },
            response.0.error.code == ResponseErrorCode::Reserved(
                ReservedResponseErrorCodes::InternalError,
            ),
            response.0.error.message == message,
            response.0.error.data.is_none(),
    {
        InternalErrorResponse(
            ErrorResponse {
                id: match request_id {
                    Some(id) => ResponseId::from(id),
                    None => ResponseId::Null,
                },
                error: ResponseError {
                    code: ResponseErrorCode::Reserved(ReservedResponseErrorCodes::InternalError),
                    message,
                    data: None,
                },
            },
        )
    }
}

/// The answer to a message that the receiver has no use for.
#[derive(Debug)]
pub struct InvalidMessageResponse;

impl InvalidMessageResponse {
    /// The response with this identifier and this error.
    pub fn create(id: ResponseId, response_error: ResponseError) -> (response: ErrorResponse)
        ensures
            response.id == id,
            response.error == response_error,
    {
        ErrorResponse { id, error: response_error }
    }
}

/// The error responses that the reading side sends.
#[derive(Debug, PartialEq)]
pub enum ResponseErrors {
    Decode(DecodeErrorResponse),
    Internal(InternalErrorResponse),
}

/// What is said when the backend is gone.
pub const SERVICE_BACKEND_CLOSED: &'static str = "Service backend closed unexpectedly.";

impl From<ResponseErrors> for AllMessages {
    fn from(errors: ResponseErrors) -> (message: AllMessages) {
        AllMessages::from(errors.into_response())
    }
}

impl FromSpecImpl<ResponseErrors> for AllMessages {
    open spec fn obeys_from_spec() -> bool {
        true
    }

    open spec fn from_spec(errors: ResponseErrors) -> AllMessages {
        AllMessages::UntypedResponse(errors.response_spec().untyped_spec())
    }
}

impl ResponseErrors {
    /// The response itself.
    pub open spec fn response_spec(self) -> ErrorResponse {
        match self {
            ResponseErrors::Decode(decode) => decode.0,
            ResponseErrors::Internal(internal) => internal.0,
        }
    }

    /// The answer to a message that could not be handed to the backend
    /// because the backend is gone: an internal error, addressed to the
    /// message's sender where the message is a request.
    pub fn backend_closed(message: &AllMessages) -> (errors: ResponseErrors)
        ensures
            errors is Internal,
            errors.response_spec().id@ == match message.request_id_spec() {
                Some(id) => ResponseIdView::NumberOrString(id@),
                None => ResponseIdView::Null,
            },
            errors.response_spec().error.code == ResponseErrorCode::Reserved(
                ReservedResponseErrorCodes::InternalError,
            ),
            errors.response_spec().error.message@ == SERVICE_BACKEND_CLOSED@,
            errors.response_spec().error.data.is_none(),
    {
        let request_id = match message.request_id() {
            Some(id) => Some(id.duplicate()),
            None => None,
        };
        ResponseErrors::Internal(
            InternalErrorResponse::new(request_id, SERVICE_BACKEND_CLOSED.to_owned()),
        )
    }

    /// After a decode error the peer may send another message; after an
    /// internal error nothing can go on.
    pub open spec fn is_recoverable_spec(&self) -> bool {
        self is Decode
    }

    pub fn is_recoverable(&self) -> (recoverable: bool)
        ensures
            recoverable == self.is_recoverable_spec(),
    {
        match self {
            ResponseErrors::Decode(_) => true,
            ResponseErrors::Internal(_) => false,
        }
    }

    /// The response itself.
    pub fn into_response(self) -> (response: ErrorResponse)
        ensures
            response == self.response_spec(),
    {
        match self {
            ResponseErrors::Decode(decode) => decode.0,
            ResponseErrors::Internal(internal) => internal.0,
        }
    }
}

} // verus!

//! Responses, untyped as they arrive on the wire, and the errors they carry.

use vstd::prelude::*;
use vstd::std_specs::convert::FromSpecImpl;
use crate::json::{Json, JsonView};
use crate::messages::jsonrpc::request::{
    id_of, is_id_json, NumberOrString, NumberOrStringView, RequestId,
};
use crate::messages::jsonrpc::{
    check_version, has_version, lemma_keys_differ, optional_field, optional_view, MessageError,
    MessageFault, KEY_CODE, KEY_DATA, KEY_ERROR, KEY_ID, KEY_MESSAGE, KEY_RESULT, KEY_VERSION,
    VERSION,
};

verus! {

/// The identifier of a response: that of its request, or `null` where the
/// request could not be told.
#[derive(Debug, Clone, Eq, Hash, PartialEq)]
pub enum ResponseId {
    NumberOrString(NumberOrString),
    Null,
}

/// The mathematical view of a `ResponseId`.
pub enum ResponseIdView {
    NumberOrString(NumberOrStringView),
    Null,
}

impl View for ResponseId {
    type V = ResponseIdView;

    open spec fn view(&self) -> ResponseIdView {
        match self {
            ResponseId::NumberOrString(id) => ResponseIdView::NumberOrString(id@),
            ResponseId::Null => ResponseIdView::Null,
        }
    }
}

impl From<RequestId> for ResponseId {
    fn from(request_id: RequestId) -> (id: ResponseId) {
        ResponseId::NumberOrString(request_id.0)
    }
}

impl FromSpecImpl<RequestId> for ResponseId {
    open spec fn obeys_from_spec() -> bool {
        true
    }

    open spec fn from_spec(request_id: RequestId) -> ResponseId {
        ResponseId::NumberOrString(request_id.0)
    }
}

impl ResponseIdView {
    /// A response identifier is `null` or a valid identifier.
    pub open spec fn is_valid(self) -> bool {
        self matches ResponseIdView::NumberOrString(id) ==> id.is_valid()
    }
}

/// Whether `json` is the JSON value that stands for the response identifier
/// `id`.
pub open spec fn is_response_id_json(json: JsonView, id: ResponseIdView) -> bool {
    match id {
        ResponseIdView::NumberOrString(id) => is_id_json(json, id),
        ResponseIdView::Null => json is Null,
    }
}

/// The response identifier that a JSON value is: `null`, or an identifier.
pub open spec fn response_id_of(json: Option<JsonView>) -> Option<ResponseIdView> {
    match json {
        Some(JsonView::Null) => Some(ResponseIdView::Null),
        other => match id_of(other) {
            Some(id) => Some(ResponseIdView::NumberOrString(id)),
            None => None,
        },
    }
}

impl ResponseId {
    /// A copy with the same value.
    pub fn duplicate(&self) -> (copy: ResponseId)
        ensures
            copy@ == self@,
    {
        match self {
            ResponseId::NumberOrString(id) => ResponseId::NumberOrString(id.duplicate()),
            ResponseId::Null => ResponseId::Null,
        }
    }

    /// The identifier as a JSON value. It reads back as this identifier
    /// where the identifier is valid.
    pub fn to_json(&self) -> (json: Json)
        ensures
            is_response_id_json(json@, self@),
            self@.is_valid() ==> response_id_of(Some(json@)) == Some(self@),
    {
        match self {
            ResponseId::NumberOrString(id) => id.to_json(),
            ResponseId::Null => Json::Null,
        }
    }

    /// The response identifier that a JSON value is, where it is one.
    pub fn from_json(json: &Json) -> (id: Option<ResponseId>)
        ensures
            match id {
                Some(found) => response_id_of(Some(json@)) == Some(found@),
                None => response_id_of(Some(json@)).is_none(),
            },
    {
        if json.is_null() {
            Some(ResponseId::Null)
        } else {
            match NumberOrString::from_json(json) {
                Some(id) => Some(ResponseId::NumberOrString(id)),
                None => None,
            }
        }
    }
}

// The numbers of the reserved codes.
pub const PARSE_ERROR: i64 = -32700;

pub const INVALID_REQUEST: i64 = -32600;

pub const METHOD_NOT_FOUND: i64 = -32601;

pub const INVALID_PARAMS: i64 = -32602;

pub const INTERNAL_ERROR: i64 = -32603;

pub const SERVER_NOT_INITIALIZED: i64 = -32002;

pub const UNKNOWN_ERROR_CODE: i64 = -32001;

pub const REQUEST_FAILED: i64 = -32803;

pub const REQUEST_CANCELLED: i64 = -32800;

pub const SERVER_CANCELLED: i64 = -32802;

/// The error codes that JSON-RPC and the protocol reserve.
#[derive(Debug, Clone, Copy, PartialEq, Eq, Structural)]
pub enum ReservedResponseErrorCodes {
    ParseError,
    InvalidRequest,
    MethodNotFound,
    InvalidParams,
    InternalError,
    ServerNotInitialized,
    UnknownErrorCode,
    RequestFailed,
    RequestCancelled,
    ContentModified,
}

impl ReservedResponseErrorCodes {
    /// The number that stands for this code on the wire.
    pub open spec fn code_spec(self) -> i64 {
        match self {
            ReservedResponseErrorCodes::ParseError => PARSE_ERROR,
            ReservedResponseErrorCodes::InvalidRequest => INVALID_REQUEST,
            ReservedResponseErrorCodes::MethodNotFound => METHOD_NOT_FOUND,
            ReservedResponseErrorCodes::InvalidParams => INVALID_PARAMS,
            ReservedResponseErrorCodes::InternalError => INTERNAL_ERROR,
            ReservedResponseErrorCodes::ServerNotInitialized => SERVER_NOT_INITIALIZED,
            ReservedResponseErrorCodes::UnknownErrorCode => UNKNOWN_ERROR_CODE,
            ReservedResponseErrorCodes::RequestFailed => REQUEST_FAILED,
            ReservedResponseErrorCodes::RequestCancelled => REQUEST_CANCELLED,
            ReservedResponseErrorCodes::ContentModified => SERVER_CANCELLED,
        }
    }

    /// The reserved code that a number stands for, where it stands for one.
    pub open spec fn from_repr_spec(code: i64) -> Option<ReservedResponseErrorCodes> {
        if code == PARSE_ERROR {
            Some(ReservedResponseErrorCodes::ParseError)
        } else if code == INVALID_REQUEST {
            Some(ReservedResponseErrorCodes::InvalidRequest)
        } else if code == METHOD_NOT_FOUND {
            Some(ReservedResponseErrorCodes::MethodNotFound)
        } else if code == INVALID_PARAMS {
            Some(ReservedResponseErrorCodes::InvalidParams)
        } else if code == INTERNAL_ERROR {
            Some(ReservedResponseErrorCodes::InternalError)
        } else if code == SERVER_NOT_INITIALIZED {
            Some(ReservedResponseErrorCodes::ServerNotInitialized)
        } else if code == UNKNOWN_ERROR_CODE {
            Some(ReservedResponseErrorCodes::UnknownErrorCode)
        } else if code == REQUEST_FAILED {
            Some(ReservedResponseErrorCodes::RequestFailed)
        } else if code == REQUEST_CANCELLED {
            Some(ReservedResponseErrorCodes::RequestCancelled)
        } else if code == SERVER_CANCELLED {
            Some(ReservedResponseErrorCodes::ContentModified)
        } else {
            None
        }
    }

    pub fn code(self) -> (code: i64)
        ensures
            code == self.code_spec(),
    {
        match self {
            ReservedResponseErrorCodes::ParseError => PARSE_ERROR,
            ReservedResponseErrorCodes::InvalidRequest => INVALID_REQUEST,
            ReservedResponseErrorCodes::MethodNotFound => METHOD_NOT_FOUND,
            ReservedResponseErrorCodes::InvalidParams => INVALID_PARAMS,
            ReservedResponseErrorCodes::InternalError => INTERNAL_ERROR,
            ReservedResponseErrorCodes::ServerNotInitialized => SERVER_NOT_INITIALIZED,
            ReservedResponseErrorCodes::UnknownErrorCode => UNKNOWN_ERROR_CODE,
            ReservedResponseErrorCodes::RequestFailed => REQUEST_FAILED,
            ReservedResponseErrorCodes::RequestCancelled => REQUEST_CANCELLED,
            ReservedResponseErrorCodes::ContentModified => SERVER_CANCELLED,
        }
    }

    pub fn from_repr(code: i64) -> (reserved: Option<ReservedResponseErrorCodes>)
        ensures
            reserved == Self::from_repr_spec(code),
            reserved matches Some(r) ==> r.code_spec() == code,
            reserved is None ==> forall|r: ReservedResponseErrorCodes| r.code_spec() != code,
    {
        if code == PARSE_ERROR {
            Some(ReservedResponseErrorCodes::ParseError)
        } else if code == INVALID_REQUEST {
            Some(ReservedResponseErrorCodes::InvalidRequest)
        } else if code == METHOD_NOT_FOUND {
            Some(ReservedResponseErrorCodes::MethodNotFound)
        } else if code == INVALID_PARAMS {
            Some(ReservedResponseErrorCodes::InvalidParams)
        } else if code == INTERNAL_ERROR {
            Some(ReservedResponseErrorCodes::InternalError)
        } else if code == SERVER_NOT_INITIALIZED {
            Some(ReservedResponseErrorCodes::ServerNotInitialized)
        } else if code == UNKNOWN_ERROR_CODE {
            Some(ReservedResponseErrorCodes::UnknownErrorCode)
        } else if code == REQUEST_FAILED {
            Some(ReservedResponseErrorCodes::RequestFailed)
        } else if code == REQUEST_CANCELLED {
            Some(ReservedResponseErrorCodes::RequestCancelled)
        } else if code == SERVER_CANCELLED {
            Some(ReservedResponseErrorCodes::ContentModified)
        } else {
            None
        }
    }
}

/// An error code: a reserved one, or any other number.
#[derive(Debug, Clone, Copy, PartialEq, Eq, Structural)]
pub enum ResponseErrorCode {
    Reserved(ReservedResponseErrorCodes),
    Other(i64),
}

impl ResponseErrorCode {
    /// The number that stands for this code on the wire.
    pub open spec fn code_spec(self) -> i64 {
        match self {
            ResponseErrorCode::Reserved(reserved) => reserved.code_spec(),
            ResponseErrorCode::Other(other) => other,
        }
    }

    /// The code that a number stands for: the reserved one where there is
    /// one.
    pub open spec fn from_code_spec(code: i64) -> ResponseErrorCode {
        match ReservedResponseErrorCodes::from_repr_spec(code) {
            Some(reserved) => ResponseErrorCode::Reserved(reserved),
            None => ResponseErrorCode::Other(code),
        }
    }

    /// A code is canonical unless it spells a reserved number as `Other`.
    pub open spec fn is_canonical(self) -> bool {
        self matches ResponseErrorCode::Other(other) ==> ReservedResponseErrorCodes::from_repr_spec(
            other,
        ) is None
    }

    pub fn code(self) -> (code: i64)
        ensures
            code == self.code_spec(),
            self.is_canonical() ==> Self::from_code_spec(code) == self,
    {
        match self {
            ResponseErrorCode::Reserved(reserved) => reserved.code(),
            ResponseErrorCode::Other(other) => other,
        }
    }

    pub fn from_code(code: i64) -> (found: ResponseErrorCode)
        ensures
            found == Self::from_code_spec(code),
            found.code_spec() == code,
            found.is_canonical(),
    {
        match ReservedResponseErrorCodes::from_repr(code) {
            Some(reserved) => ResponseErrorCode::Reserved(reserved),
            None => ResponseErrorCode::Other(code),
        }
    }
}

/// The error that a response carries in place of a result.
#[derive(Debug, PartialEq)]
pub struct ResponseError {
    pub code: ResponseErrorCode,
    pub message: String,
    pub data: Option<Json>,
}

/// The mathematical view of a `ResponseError`.
pub struct ResponseErrorView {
    pub code: ResponseErrorCode,
    pub message: Seq<char>,
    pub data: Option<JsonView>,
}

impl View for ResponseError {
    type V = ResponseErrorView;

    open spec fn view(&self) -> ResponseErrorView {
        ResponseErrorView {
            code: self.code,
            message: self.message@,
            data: optional_view(self.data),
        }
    }
}

/// The keys of an error object with or without data.
pub open spec fn error_keys(with_data: bool) -> Set<Seq<char>> {
    if with_data {
        set![KEY_CODE@, KEY_MESSAGE@, KEY_DATA@]
    } else {
        set![KEY_CODE@, KEY_MESSAGE@]
    }
}

/// Whether `json` is the object that stands for `error`: the code as a bare
/// integer, the message, the data where there are any, and nothing else.
pub open spec fn is_error_json(json: JsonView, error: ResponseErrorView) -> bool {
    &&& json is Object
    &&& json->Object_0.dom() =~= error_keys(error.data.is_some())
    &&& json.field(KEY_CODE@) is Some
    &&& json.field(KEY_CODE@).unwrap() is Number
    &&& json.field(KEY_CODE@).unwrap().integer() == Some(error.code.code_spec())
    &&& json.field(KEY_MESSAGE@) == Some(JsonView::Text(error.message))
    &&& json.field(KEY_DATA@) == error.data
}

/// The error that a JSON value stands for: an object with an integer code, a
/// message, perhaps data, and no other field.
pub open spec fn read_error(json: JsonView) -> Option<ResponseErrorView> {
    if json.has_keys_among(KEY_CODE@, KEY_MESSAGE@, KEY_DATA@) {
        match (json.field(KEY_CODE@), json.field(KEY_MESSAGE@)) {
            (Some(code), Some(JsonView::Text(message))) => match code.integer() {
                Some(number) => Some(
                    ResponseErrorView {
                        code: ResponseErrorCode::from_code_spec(number),
                        message,
                        data: json.field(KEY_DATA@),
                    },
                ),
                None => None,
            },
            _ => None,
        }
    } else {
        None
    }
}

/// The object of an error with a canonical code reads back as that error.
pub proof fn lemma_error_round_trip(json: JsonView, error: ResponseErrorView)
    requires
        is_error_json(json, error),
        error.code.is_canonical(),
    ensures
        read_error(json) == Some(error),
{
    lemma_keys_differ();
}

impl ResponseError {
    /// The JSON object of this error.
    pub fn to_json(&self) -> (json: Json)
        ensures
            is_error_json(json@, self@),
    {
        proof {
            lemma_keys_differ();
        }
        let json = Json::empty_object().with_field(
            KEY_CODE,
            Json::integer(self.code.code()),
        ).with_field(KEY_MESSAGE, Json::text(self.message.as_str()));
        match &self.data {
            Some(data) => json.with_field(KEY_DATA, data.duplicate()),
            None => json,
        }
    }

    /// Reads an error from a JSON value.
    pub fn from_json(json: &Json) -> (error: Option<ResponseError>)
        ensures
            match error {
                Some(found) => read_error(json@) == Some(found@),
                None => read_error(json@).is_none(),
            },
    {
        if !json.has_keys_among(KEY_CODE, KEY_MESSAGE, KEY_DATA) {
            return None;
        }
        let code = match json.field(KEY_CODE) {
            Some(value) => match value.as_integer() {
                Some(number) => ResponseErrorCode::from_code(number),
                None => {
                    return None;
                },
            },
            None => {
                return None;
            },
        };
        let message = match json.field(KEY_MESSAGE) {
            Some(value) => match value.as_text() {
                Some(text) => text.clone(),
                None => {
                    return None;
                },
            },
            None => {
                return None;
            },
        };
        Some(ResponseError { code, message, data: optional_field(json, KEY_DATA) })
    }
}

/// What a response carries: a result, or an error.
pub open spec fn kind_view(kind: Result<Json, ResponseError>) -> Result<
    JsonView,
    ResponseErrorView,
> {
    match kind {
        Ok(result) => Ok(result@),
        Err(error) => Err(error@),
    }
}

/// The mathematical view of a `ResponseMessage` and of an `UntypedResponseMessage`.
pub struct ResponseMessageView {
    pub id: ResponseIdView,
    pub kind: Result<JsonView, ResponseErrorView>,
}

/// What is a response has an identifier and an untyped form.
pub trait LspResponse: Sized {
    spec fn response_id_spec(&self) -> ResponseId;

    spec fn untyped_spec(self) -> UntypedResponseMessage;

    fn response_id(&self) -> (id: &ResponseId)
        ensures
            *id == self.response_id_spec(),
    ;

    fn untyped(self) -> (untyped: UntypedResponseMessage)
        ensures
            untyped == self.untyped_spec(),
    ;
}

/// A response whose method is known from the request that it answers.
#[derive(Debug, PartialEq)]
pub struct ResponseMessage {
    pub id: ResponseId,
    pub kind: Result<Json, ResponseError>,
}

impl View for ResponseMessage {
    type V = ResponseMessageView;

    open spec fn view(&self) -> ResponseMessageView {
        ResponseMessageView { id: self.id@, kind: kind_view(self.kind) }
    }
}

/// A response as it arrives on the wire: nothing says what it answers but its
/// identifier.
#[derive(Debug, PartialEq)]
pub struct UntypedResponseMessage {
    pub id: ResponseId,
    pub kind: Result<Json, ResponseError>,
}

impl View for UntypedResponseMessage {
    type V = ResponseMessageView;

    open spec fn view(&self) -> ResponseMessageView {
        ResponseMessageView { id: self.id@, kind: kind_view(self.kind) }
    }
}

impl LspResponse for ResponseMessage {
    open spec fn response_id_spec(&self) -> ResponseId {
        self.id
    }

    open spec fn untyped_spec(self) -> UntypedResponseMessage {
        UntypedResponseMessage { id: self.id, kind: self.kind }
    }

    fn response_id(&self) -> (id: &ResponseId) {
        &self.id
    }

    fn untyped(self) -> (untyped: UntypedResponseMessage) {
        UntypedResponseMessage { id: self.id, kind: self.kind }
    }
}

impl ResponseMessage {
    /// The response that an untyped one is once its method is known.
    pub fn typed(untyped: UntypedResponseMessage) -> (typed: ResponseMessage)
        ensures
            typed.id == untyped.id,
            typed.kind == untyped.kind,
    {
        ResponseMessage { id: untyped.id, kind: untyped.kind }
    }
}

/// The keys of a response with a result, or with an error.
pub open spec fn response_keys(with_result: bool) -> Set<Seq<char>> {
    if with_result {
        set![KEY_VERSION@, KEY_ID@, KEY_RESULT@]
    } else {
        set![KEY_VERSION@, KEY_ID@, KEY_ERROR@]
    }
}

/// Whether `json` is the object that stands for the response `message`.
pub open spec fn is_response_json(json: JsonView, message: ResponseMessageView) -> bool {
    &&& json is Object
    &&& json->Object_0.dom() =~= response_keys(message.kind is Ok)
    &&& has_version(json)
    &&& json.field(KEY_ID@) matches Some(id) && is_response_id_json(id, message.id)
    &&& match message.kind {
        Ok(result) => json.field(KEY_RESULT@) == Some(result),
        Err(error) => json.field(KEY_ERROR@) is Some && is_error_json(
            json.field(KEY_ERROR@).unwrap(),
            error,
        ),
    }
}

/// The response that a JSON value stands for. Version and identifier must be
/// there; of result and error exactly one.
pub open spec fn read_response(json: JsonView) -> Option<ResponseMessageView> {
    if !has_version(json) {
        None
    } else {
        match response_id_of(json.field(KEY_ID@)) {
            None => None,
            Some(id) => match (json.field(KEY_RESULT@), json.field(KEY_ERROR@)) {
                (Some(result), None) => Some(ResponseMessageView { id, kind: Ok(result) }),
                (None, Some(error)) => match read_error(error) {
                    Some(found) => Some(ResponseMessageView { id, kind: Err(found) }),
                    None => None,
                },
                _ => None,
            },
        }
    }
}

impl ResponseMessageView {
    /// A response survives being written and read back where its identifier
    /// is valid and the code of its error, if it has one, is canonical.
    pub open spec fn is_canonical(self) -> bool {
        &&& self.id.is_valid()
        &&& self.kind matches Err(error) ==> error.code.is_canonical()
    }
}

/// The object of a response reads back as that response, where the code of
/// its error, if it has one, is canonical.
pub proof fn lemma_response_round_trip(json: JsonView, message: ResponseMessageView)
    requires
        is_response_json(json, message),
        message.is_canonical(),
    ensures
        read_response(json) == Some(message),
{
    lemma_keys_differ();
    if let Err(error) = message.kind {
        lemma_error_round_trip(json.field(KEY_ERROR@).unwrap(), error);
    }
}

impl UntypedResponseMessage {
    /// The JSON object of this response.
    pub fn to_json(&self) -> (json: Json)
        ensures
            is_response_json(json@, self@),
    {
        proof {
            lemma_keys_differ();
        }
        let json = Json::empty_object().with_field(KEY_VERSION, Json::text(VERSION)).with_field(
            KEY_ID,
            self.id.to_json(),
        );
        match &self.kind {
            Ok(result) => json.with_field(KEY_RESULT, result.duplicate()),
            Err(error) => json.with_field(KEY_ERROR, error.to_json()),
        }
    }

    /// Reads a response from a JSON value.
    pub fn from_json(json: &Json) -> (message: Result<UntypedResponseMessage, MessageError>)
        ensures
            match message {
                Ok(found) => read_response(json@) == Some(found@),
                Err(e) => read_response(json@).is_none() && e@ == MessageFault::Malformed,
            },
    {
        if !check_version(json) {
            return Err(MessageError::Malformed);
        }
        let id = match json.field(KEY_ID) {
            Some(value) => match ResponseId::from_json(value) {
                Some(id) => id,
                None => {
                    return Err(MessageError::Malformed);
                },
            },
            None => {
                return Err(MessageError::Malformed);
            },
        };
        match (json.field(KEY_RESULT), json.field(KEY_ERROR)) {
            (Some(result), None) => Ok(UntypedResponseMessage { id, kind: Ok(result.duplicate()) }),
            (None, Some(error)) => match ResponseError::from_json(error) {
                Some(found) => Ok(UntypedResponseMessage { id, kind: Err(found) }),
                None => Err(MessageError::Malformed),
            },
            _ => Err(MessageError::Malformed),
        }
    }
}

} // verus!

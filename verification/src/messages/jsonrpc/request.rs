//! Requests and the identifiers that tie a response to its request.

use vstd::prelude::*;
use crate::json::{Json, JsonView};
use crate::messages::jsonrpc::{
    check_version, has_version, lemma_keys_differ, optional_field, optional_view, MessageError,
    MessageFault, KEY_ID, KEY_METHOD, KEY_PARAMS, KEY_VERSION, VERSION,
};
use crate::text::text_eq;

verus! {

/// A number or a string: what an identifier on the wire may be.
#[derive(Debug, Clone, PartialEq, Eq, Hash)]
pub enum NumberOrString {
    Number(i32),
    String(String),
}

/// The mathematical view of a `NumberOrString`.
pub enum NumberOrStringView {
    Number(i32),
    String(Seq<char>),
}

impl View for NumberOrString {
    type V = NumberOrStringView;

    open spec fn view(&self) -> NumberOrStringView {
        match self {
            NumberOrString::Number(n) => NumberOrStringView::Number(*n),
            NumberOrString::String(s) => NumberOrStringView::String(s@),
        }
    }
}

impl NumberOrStringView {
    /// An identifier is an integer or a string that is not empty.
    pub open spec fn is_valid(self) -> bool {
        self matches NumberOrStringView::String(s) ==> s.len() > 0
    }
}

/// Whether `json` is the JSON value that stands for the identifier `id`.
pub open spec fn is_id_json(json: JsonView, id: NumberOrStringView) -> bool {
    match id {
        NumberOrStringView::Number(n) => json is Number && json.integer() == Some(n as i64),
        NumberOrStringView::String(s) => json == JsonView::Text(s),
    }
}

/// The identifier that a JSON value is: a string that is not empty, or an
/// integer of 32 bits.
pub open spec fn id_of(json: Option<JsonView>) -> Option<NumberOrStringView> {
    match json {
        Some(JsonView::Text(s)) => if s.len() > 0 {
            Some(NumberOrStringView::String(s))
        } else {
            None
        },
        Some(JsonView::Number(n)) => match JsonView::Number(n).integer() {
            Some(i) => if i32::MIN <= i <= i32::MAX {
                Some(NumberOrStringView::Number(i as i32))
            } else {
                None
            },
            None => None,
        },
        _ => None,
    }
}

impl NumberOrString {
    /// A copy with the same value.
    pub fn duplicate(&self) -> (copy: NumberOrString)
        ensures
            copy@ == self@,
    {
        match self {
            NumberOrString::Number(n) => NumberOrString::Number(*n),
            NumberOrString::String(s) => NumberOrString::String(s.clone()),
        }
    }

    /// Whether two identifiers are the same. A number is never a string.
    pub fn same(&self, other: &NumberOrString) -> (same: bool)
        ensures
            same == (self@ == other@),
    {
        match (self, other) {
            (NumberOrString::Number(a), NumberOrString::Number(b)) => *a == *b,
            (NumberOrString::String(a), NumberOrString::String(b)) => text_eq(
                a.as_str(),
                b.as_str(),
            ),
            _ => false,
        }
    }

    /// Whether this is an integer or a string that is not empty.
    pub fn is_valid(&self) -> (valid: bool)
        ensures
            valid == self@.is_valid(),
    {
        match self {
            NumberOrString::Number(_) => true,
            NumberOrString::String(s) => !s.as_str().is_empty(),
        }
    }

    /// The identifier as a JSON value. It reads back as this identifier
    /// where the identifier is valid.
    pub fn to_json(&self) -> (json: Json)
        ensures
            is_id_json(json@, self@),
            self@.is_valid() ==> id_of(Some(json@)) == Some(self@),
    {
        match self {
            NumberOrString::Number(n) => Json::integer(*n as i64),
            NumberOrString::String(s) => Json::text(s.as_str()),
        }
    }

    /// The identifier that a JSON value is, where it is one.
    pub fn from_json(json: &Json) -> (id: Option<NumberOrString>)
        ensures
            match id {
                Some(found) => id_of(Some(json@)) == Some(found@),
                None => id_of(Some(json@)).is_none(),
            },
    {
        match json.as_text() {
            Some(text) => if text.as_str().is_empty() {
                None
            } else {
                Some(NumberOrString::String(text.clone()))
            },
            None => match json.as_integer() {
                Some(i) => if -2147483648 <= i && i <= 2147483647 {
                    Some(NumberOrString::Number(i as i32))
                } else {
                    None
                },
                None => None,
            },
        }
    }
}

/// The identifier of a request.
#[derive(Debug, Clone, PartialEq, Eq, Hash)]
pub struct RequestId(pub NumberOrString);

impl View for RequestId {
    type V = NumberOrStringView;

    open spec fn view(&self) -> NumberOrStringView {
        self.0@
    }
}

impl RequestId {
    /// A copy with the same value.
    pub fn duplicate(&self) -> (copy: RequestId)
        ensures
            copy@ == self@,
    {
        RequestId(self.0.duplicate())
    }
}

/// What has an identifier as a request has one.
pub trait LspRequest {
    spec fn request_id_spec(&self) -> RequestId;

    fn request_id(&self) -> (id: &RequestId)
        ensures
            *id == self.request_id_spec(),
    ;
}

/// A request of one method: its identifier and its parameters.
#[derive(Debug, PartialEq)]
pub struct RequestMessage {
    pub id: RequestId,
    pub params: Option<Json>,
}

/// The mathematical view of a `RequestMessage`.
pub struct RequestMessageView {
    pub id: NumberOrStringView,
    pub params: Option<JsonView>,
}

impl View for RequestMessage {
    type V = RequestMessageView;

    open spec fn view(&self) -> RequestMessageView {
        RequestMessageView { id: self.id@, params: optional_view(self.params) }
    }
}

impl LspRequest for RequestMessage {
    open spec fn request_id_spec(&self) -> RequestId {
        self.id
    }

    fn request_id(&self) -> (id: &RequestId) {
        &self.id
    }
}

/// The keys of a request with or without parameters.
pub open spec fn request_keys(with_params: bool) -> Set<Seq<char>> {
    if with_params {
        set![KEY_VERSION@, KEY_ID@, KEY_METHOD@, KEY_PARAMS@]
    } else {
        set![KEY_VERSION@, KEY_ID@, KEY_METHOD@]
    }
}

/// Whether `json` is the object that stands for the request `message` of the
/// method `method`: the version, the identifier, the method, the parameters
/// where there are any, and nothing else.
pub open spec fn is_request_json(
    json: JsonView,
    method: Seq<char>,
    message: RequestMessageView,
) -> bool {
    &&& json is Object
    &&& json->Object_0.dom() =~= request_keys(message.params.is_some())
    &&& has_version(json)
    &&& json.field(KEY_ID@) matches Some(id) && is_id_json(id, message.id)
    &&& json.field(KEY_METHOD@) == Some(JsonView::Text(method))
    &&& json.field(KEY_PARAMS@) == message.params
}

/// The request of the method `method` that a JSON value stands for. Version
/// and identifier must be there and well-formed; a method other than the one
/// expected is an unknown variant; fields beyond these four are ignored.
pub open spec fn read_request(json: JsonView, method: Seq<char>) -> Result<
    RequestMessageView,
    MessageFault,
> {
    if !has_version(json) {
        Err(MessageFault::Malformed)
    } else {
        match (id_of(json.field(KEY_ID@)), json.field(KEY_METHOD@)) {
            (Some(id), Some(JsonView::Text(found))) => if found == method {
                Ok(RequestMessageView { id, params: json.field(KEY_PARAMS@) })
            } else {
                Err(MessageFault::UnknownVariant(found))
            },
            _ => Err(MessageFault::Malformed),
        }
    }
}

/// The object of a request with a valid identifier reads back as that
/// request.
pub proof fn lemma_request_round_trip(
    json: JsonView,
    method: Seq<char>,
    message: RequestMessageView,
)
    requires
        is_request_json(json, method, message),
        message.id.is_valid(),
    ensures
        read_request(json, method) == Ok::<RequestMessageView, MessageFault>(message),
{
}

/// The identifier under the key `id`, where there is one.
pub fn read_id(json: &Json) -> (id: Option<NumberOrString>)
    ensures
        match id {
            Some(found) => id_of(json@.field(KEY_ID@)) == Some(found@),
            None => id_of(json@.field(KEY_ID@)).is_none(),
        },
{
    match json.field(KEY_ID) {
        Some(value) => NumberOrString::from_json(value),
        None => None,
    }
}

/// The method under the key `method`, where it is a string.
pub fn read_method(json: &Json) -> (method: Option<&String>)
    ensures
        match method {
            Some(found) => json@.field(KEY_METHOD@) == Some(JsonView::Text(found@)),
            None => !(json@.field(KEY_METHOD@) matches Some(JsonView::Text(_))),
        },
{
    match json.field(KEY_METHOD) {
        Some(value) => value.as_text(),
        None => None,
    }
}

impl RequestMessage {
    /// The JSON object of this request of the method `method`.
    pub fn to_json(&self, method: &str) -> (json: Json)
        ensures
            is_request_json(json@, method@, self@),
    {
        proof {
            lemma_keys_differ();
        }
        let json = Json::empty_object().with_field(KEY_VERSION, Json::text(VERSION)).with_field(
            KEY_ID,
            self.id.0.to_json(),
        ).with_field(KEY_METHOD, Json::text(method));
        match &self.params {
            Some(params) => json.with_field(KEY_PARAMS, params.duplicate()),
            None => json,
        }
    }

    /// Reads the request of the method `method` from a JSON value.
    pub fn from_json(json: &Json, method: &str) -> (message: Result<RequestMessage, MessageError>)
        ensures
            match message {
                Ok(request) => read_request(json@, method@) == Ok::<
                    RequestMessageView,
                    MessageFault,
                >(request@),
                Err(e) => read_request(json@, method@) == Err::<RequestMessageView, MessageFault>(
                    e@,
                ),
            },
    {
        if !check_version(json) {
            return Err(MessageError::Malformed);
        }
        match (read_id(json), read_method(json)) {
            (Some(id), Some(found)) => {
                if text_eq(found.as_str(), method) {
                    Ok(
                        RequestMessage {
                            id: RequestId(id),
                            params: optional_field(json, KEY_PARAMS),
                        },
                    )
                } else {
                    Err(MessageError::UnknownVariant(found.clone()))
                }
            },
            _ => Err(MessageError::Malformed),
        }
    }
}

} // verus!

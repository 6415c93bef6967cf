//! The JSON-RPC envelopes: requests, notifications and responses, and how
//! each is written as a JSON object and read back from one.

pub mod notification;
pub mod request;
pub mod response;

use vstd::prelude::*;
use vstd::string::StringExecFns;
use crate::json::{Json, JsonView};
use crate::text::text_eq;

verus! {

/// The only protocol version there is.
pub const VERSION: &'static str = "2.0";

// The keys of the envelopes and of the error object.
pub const KEY_VERSION: &'static str = "jsonrpc";

pub const KEY_ID: &'static str = "id";

pub const KEY_METHOD: &'static str = "method";

pub const KEY_PARAMS: &'static str = "params";

pub const KEY_RESULT: &'static str = "result";

pub const KEY_ERROR: &'static str = "error";

pub const KEY_CODE: &'static str = "code";

pub const KEY_MESSAGE: &'static str = "message";

pub const KEY_DATA: &'static str = "data";

/// Why a JSON value is not the message it was taken for.
#[derive(Debug)]
pub enum MessageError {
    /// A field is missing or has the wrong shape.
    Malformed,
    /// The message names another method than the one expected.
    UnknownVariant(String),
    /// The value is no request, no response and no notification.
    NoVariant,
}

/// The mathematical view of a `MessageError`.
pub enum MessageFault {
    Malformed,
    UnknownVariant(Seq<char>),
    NoVariant,
}

impl MessageFault {
    /// What the fault says.
    pub open spec fn message(self) -> Seq<char> {
        match self {
            MessageFault::Malformed => "a field of the message is missing or has the wrong shape"@,
            MessageFault::UnknownVariant(method) => "unknown variant: "@ + method,
            MessageFault::NoVariant => "data did not match any variant of the message set"@,
        }
    }
}

impl MessageError {
    /// What the error says, as text.
    pub fn to_string(&self) -> (text: String)
        ensures
            text@ == self@.message(),
    {
        match self {
            MessageError::Malformed => {
                "a field of the message is missing or has the wrong shape".to_owned()
            },
            MessageError::UnknownVariant(method) => {
                let mut text = "unknown variant: ".to_owned();
                text.append(method.as_str());
                text
            },
            MessageError::NoVariant => {
                "data did not match any variant of the message set".to_owned()
            },
        }
    }
}

impl View for MessageError {
    type V = MessageFault;

    open spec fn view(&self) -> MessageFault {
        match self {
            MessageError::Malformed => MessageFault::Malformed,
            MessageError::UnknownVariant(method) => MessageFault::UnknownVariant(method@),
            MessageError::NoVariant => MessageFault::NoVariant,
        }
    }
}

/// The keys of the envelopes differ from one another.
pub proof fn lemma_keys_differ()
    ensures
        KEY_VERSION@ != KEY_ID@,
        KEY_VERSION@ != KEY_METHOD@,
        KEY_VERSION@ != KEY_PARAMS@,
        KEY_VERSION@ != KEY_RESULT@,
        KEY_VERSION@ != KEY_ERROR@,
        KEY_ID@ != KEY_METHOD@,
        KEY_ID@ != KEY_PARAMS@,
        KEY_ID@ != KEY_RESULT@,
        KEY_ID@ != KEY_ERROR@,
        KEY_METHOD@ != KEY_PARAMS@,
        KEY_METHOD@ != KEY_RESULT@,
        KEY_METHOD@ != KEY_ERROR@,
        KEY_PARAMS@ != KEY_RESULT@,
        KEY_PARAMS@ != KEY_ERROR@,
        KEY_RESULT@ != KEY_ERROR@,
        KEY_CODE@ != KEY_MESSAGE@,
        KEY_CODE@ != KEY_DATA@,
        KEY_MESSAGE@ != KEY_DATA@,
{
    reveal_strlit("jsonrpc");
    reveal_strlit("id");
    reveal_strlit("method");
    reveal_strlit("params");
    reveal_strlit("result");
    reveal_strlit("error");
    reveal_strlit("code");
    reveal_strlit("message");
    reveal_strlit("data");
    assert(KEY_ID@.len() == 2);
    assert(KEY_METHOD@.len() == 6 && KEY_METHOD@[0] == 'm');
    assert(KEY_PARAMS@.len() == 6 && KEY_PARAMS@[0] == 'p');
    assert(KEY_RESULT@.len() == 6 && KEY_RESULT@[0] == 'r');
    assert(KEY_ERROR@.len() == 5);
    assert(KEY_MESSAGE@.len() == 7);
    assert(KEY_DATA@.len() == 4 && KEY_DATA@[0] == 'd');
}

/// Whether an object says that it speaks version 2.0 of the protocol.
pub open spec fn has_version(json: JsonView) -> bool {
    json.field(KEY_VERSION@) == Some(JsonView::Text(VERSION@))
}

/// Whether an object says that it speaks version 2.0 of the protocol.
pub fn check_version(json: &Json) -> (versioned: bool)
    ensures
        versioned == has_version(json@),
{
    match json.field(KEY_VERSION) {
        Some(found) => match found.as_text() {
            Some(text) => text_eq(text.as_str(), VERSION),
            None => false,
        },
        None => false,
    }
}

/// The field under `key`, where the object has it.
pub fn optional_field(json: &Json, key: &str) -> (found: Option<Json>)
    ensures
        match found {
            Some(value) => json@.field(key@) == Some(value@),
            None => json@.field(key@).is_none(),
        },
{
    match json.field(key) {
        Some(value) => Some(value.duplicate()),
        None => None,
    }
}

/// The views of an optional value.
pub open spec fn optional_view(value: Option<Json>) -> Option<JsonView> {
    match value {
        Some(json) => Some(json@),
        None => None,
    }
}

} // verus!

//! Notifications: messages that name a method and expect no answer.

use vstd::prelude::*;
use crate::json::{Json, JsonView};
use crate::messages::jsonrpc::request::read_method;
use crate::messages::jsonrpc::{
    check_version, has_version, lemma_keys_differ, optional_field, optional_view, MessageError,
    MessageFault, KEY_METHOD, KEY_PARAMS, KEY_VERSION, VERSION,
};
use crate::text::text_eq;

verus! {

/// A notification of one method: its parameters.
#[derive(Debug, PartialEq)]
pub struct NotificationMessage {
    pub params: Option<Json>,
}

/// The mathematical view of a `NotificationMessage`.
pub struct NotificationMessageView {
    pub params: Option<JsonView>,
}

impl View for NotificationMessage {
    type V = NotificationMessageView;

    open spec fn view(&self) -> NotificationMessageView {
        NotificationMessageView { params: optional_view(self.params) }
    }
}

/// The keys of a notification with or without parameters.
pub open spec fn notification_keys(with_params: bool) -> Set<Seq<char>> {
    if with_params {
        set![KEY_VERSION@, KEY_METHOD@, KEY_PARAMS@]
    } else {
        set![KEY_VERSION@, KEY_METHOD@]
    }
}

/// Whether `json` is the object that stands for the notification `message` of
/// the method `method`.
pub open spec fn is_notification_json(
    json: JsonView,
    method: Seq<char>,
    message: NotificationMessageView,
) -> bool {
    &&& json is Object
    &&& json->Object_0.dom() =~= notification_keys(message.params.is_some())
    &&& has_version(json)
    &&& json.field(KEY_METHOD@) == Some(JsonView::Text(method))
    &&& json.field(KEY_PARAMS@) == message.params
}

/// The notification of the method `method` that a JSON value stands for.
/// Fields beyond version, method and parameters are ignored.
pub open spec fn read_notification(json: JsonView, method: Seq<char>) -> Result<
    NotificationMessageView,
    MessageFault,
> {
    if !has_version(json) {
        Err(MessageFault::Malformed)
    } else {
        match json.field(KEY_METHOD@) {
            Some(JsonView::Text(found)) => if found == method {
                Ok(NotificationMessageView { params: json.field(KEY_PARAMS@) })
            } else {
                Err(MessageFault::UnknownVariant(found))
            },
            _ => Err(MessageFault::Malformed),
        }
    }
}

/// The object of a notification reads back as that notification.
pub proof fn lemma_notification_round_trip(
    json: JsonView,
    method: Seq<char>,
    message: NotificationMessageView,
)
    requires
        is_notification_json(json, method, message),
    ensures
        read_notification(json, method) == Ok::<NotificationMessageView, MessageFault>(message),
{
}

impl NotificationMessage {
    /// The JSON object of this notification of the method `method`.
    pub fn to_json(&self, method: &str) -> (json: Json)
        ensures
            is_notification_json(json@, method@, self@),
    {
        proof {
            lemma_keys_differ();
        }
        let json = Json::empty_object().with_field(KEY_VERSION, Json::text(VERSION)).with_field(
            KEY_METHOD,
            Json::text(method),
        );
        match &self.params {
            Some(params) => json.with_field(KEY_PARAMS, params.duplicate()),
            None => json,
        }
    }

    /// Reads the notification of the method `method` from a JSON value.
    pub fn from_json(json: &Json, method: &str) -> (message: Result<
        NotificationMessage,
        MessageError,
    >)
        ensures
            match message {
                Ok(notification) => read_notification(json@, method@) == Ok::<
                    NotificationMessageView,
                    MessageFault,
                >(notification@),
                Err(e) => read_notification(json@, method@) == Err::<
                    NotificationMessageView,
                    MessageFault,
                >(e@),
            },
    {
        if !check_version(json) {
            return Err(MessageError::Malformed);
        }
        match read_method(json) {
            Some(found) => {
                if text_eq(found.as_str(), method) {
                    Ok(NotificationMessage { params: optional_field(json, KEY_PARAMS) })
                } else {
                    Err(MessageError::UnknownVariant(found.clone()))
                }
            },
            None => Err(MessageError::Malformed),
        }
    }
}

} // verus!

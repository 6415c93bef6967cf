//! The closed set of messages, grouped by kind and by side.

pub mod notifications;
pub mod requests;
pub mod responses;

use vstd::prelude::*;
use crate::json::{Json, JsonView};
use crate::messages::groups::notifications::{
    read_notifications, AllNotifications, NotificationView,
};
use crate::messages::groups::requests::{read_requests, AllRequests, RequestView};
use crate::messages::jsonrpc::notification::is_notification_json;
use crate::messages::jsonrpc::request::{is_request_json, LspRequest, RequestId};
use crate::messages::jsonrpc::response::{
    is_response_json, lemma_response_round_trip, read_response,
    ResponseMessageView, UntypedResponseMessage,
};
use crate::messages::jsonrpc::{lemma_keys_differ, MessageError, MessageFault};

verus! {

/// A set of messages that can be written as JSON values and read back from
/// them. What an implementation writes and reads is what its own contracts
/// say.
pub trait MessageGroup: Sized {
    /// Writes this message as a JSON value.
    fn to_json(&self) -> (json: Json);

    /// Reads a message of this set from a JSON value.
    fn from_json(json: &Json) -> (message: Result<Self, MessageError>);
}

/// Every message there is: a request, a response as it comes off the wire, or
/// a notification.
#[derive(Debug, PartialEq)]
pub enum AllMessages {
    Requests(AllRequests),
    UntypedResponse(UntypedResponseMessage),
    Notifications(AllNotifications),
}

/// The mathematical view of a `AllMessages`.
pub enum AllMessagesView {
    Requests(RequestView),
    UntypedResponse(ResponseMessageView),
    Notifications(NotificationView),
}

impl View for AllMessages {
    type V = AllMessagesView;

    open spec fn view(&self) -> AllMessagesView {
        match self {
            AllMessages::Requests(request) => AllMessagesView::Requests(request@),
            AllMessages::UntypedResponse(response) => AllMessagesView::UntypedResponse(response@),
            AllMessages::Notifications(notification) => AllMessagesView::Notifications(
                notification@,
            ),
        }
    }
}

/// The message that a JSON value stands for. Nothing in the value says which
/// kind it is: it is a request where it reads as one, else a response where
/// it reads as one, else a notification where it reads as one.
pub open spec fn read_message(json: JsonView) -> Option<AllMessagesView> {
    match read_requests(json) {
        Some(request) => Some(AllMessagesView::Requests(request)),
        None => match read_response(json) {
            Some(response) => Some(AllMessagesView::UntypedResponse(response)),
            None => match read_notifications(json) {
                Some(notification) => Some(AllMessagesView::Notifications(notification)),
                None => None,
            },
        },
    }
}

impl AllMessages {
    /// The identifier that a message has as a request.
    pub open spec fn request_id_spec(&self) -> Option<RequestId> {
        match self {
            AllMessages::Requests(request) => Some(request.request_id_spec()),
            AllMessages::UntypedResponse(_) | AllMessages::Notifications(_) => None,
        }
    }

    /// The identifier of this message, where it is a request.
    pub fn request_id(&self) -> (id: Option<&RequestId>)
        ensures
            match id {
                Some(found) => self.request_id_spec() == Some(*found),
                None => self.request_id_spec().is_none(),
            },
    {
        match self {
            AllMessages::Requests(request) => Some(request.request_id()),
            AllMessages::UntypedResponse(_) | AllMessages::Notifications(_) => None,
        }
    }
}

impl AllMessages {
    /// Whether `json` is a JSON object that stands for this message.
    pub open spec fn written_as(&self, json: JsonView) -> bool {
        match self {
            AllMessages::Requests(request) => is_request_json(
                json,
                request.method_spec().name_spec(),
                request.message_spec()@,
            ),
            AllMessages::UntypedResponse(response) => is_response_json(json, response@),
            AllMessages::Notifications(notification) => is_notification_json(
                json,
                notification.method_spec().name_spec(),
                notification.message_spec()@,
            ),
        }
    }

    /// Whether this message survives being written and read back: the
    /// identifier of a request or a response must be valid, and the code of
    /// an error must not spell a reserved number as `Other`.
    pub open spec fn is_canonical(&self) -> bool {
        match self {
            AllMessages::Requests(request) => request@.message.id.is_valid(),
            AllMessages::UntypedResponse(response) => response@.is_canonical(),
            AllMessages::Notifications(_) => true,
        }
    }

    /// What is written for a canonical message reads back as that message.
    pub proof fn lemma_round_trip(&self, json: JsonView)
        requires
            self.written_as(json),
            self.is_canonical(),
        ensures
            read_message(json) == Some(self@),
    {
        lemma_keys_differ();
        match self {
            AllMessages::Requests(request) => {
                request.method_spec().lemma_named_name();
            },
            AllMessages::UntypedResponse(response) => {
                lemma_response_round_trip(json, response@);
            },
            AllMessages::Notifications(notification) => {
                notification.method_spec().lemma_named_name();
            },
        }
    }
}

impl MessageGroup for AllMessages {
    /// The JSON object that stands for this message.
    fn to_json(&self) -> (json: Json)
        ensures
            self.written_as(json@),
    {
        match self {
            AllMessages::Requests(request) => request.to_json(),
            AllMessages::UntypedResponse(response) => response.to_json(),
            AllMessages::Notifications(notification) => notification.to_json(),
        }
    }

    /// The message that a JSON value stands for; a value that stands for
    /// none matches no variant.
    fn from_json(json: &Json) -> (message: Result<Self, MessageError>)
        ensures
            match message {
                Ok(found) => read_message(json@) == Some(found@),
                Err(e) => read_message(json@).is_none() && e@ == MessageFault::NoVariant,
            },
    {
        match AllRequests::from_json(json) {
            Ok(request) => Ok(AllMessages::Requests(request)),
            Err(_) => match UntypedResponseMessage::from_json(json) {
                Ok(response) => Ok(AllMessages::UntypedResponse(response)),
                Err(_) => match AllNotifications::from_json(json) {
                    Ok(notification) => Ok(AllMessages::Notifications(notification)),
                    Err(_) => Err(MessageError::NoVariant),
                },
            },
        }
    }
}

} // verus!

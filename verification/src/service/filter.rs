//! The message filter: the gatekeeper between the wire, where every message
//! may arrive, and a backend, which has one role.

use std::marker::PhantomData;
use vstd::prelude::*;
use vstd::string::StringExecFns;
use crate::json::Json;
use crate::messages::codec::decode::DecodeError;
use crate::messages::groups::notifications::{AllNotifications, NotificationMethod};
use crate::messages::groups::requests::{AllRequests, RequestMethod};
use crate::messages::groups::responses::{
    DecodeErrorResponse, ErrorResponse, InvalidMessageResponse,
};
use crate::messages::groups::{AllMessages, MessageGroup};
use crate::messages::jsonrpc::request::{LspRequest, NumberOrStringView};
use crate::messages::jsonrpc::response::{
    LspResponse, ReservedResponseErrorCodes, ResponseError, ResponseErrorCode, ResponseId,
    ResponseIdView, ResponseMessage, UntypedResponseMessage,
};
use crate::service::type_store::{TypeStore, TypedResponse};

verus! {

/// What the filter says of a message that the backend has no use for.
pub const INVALID_MESSAGE: &'static str = "invalid message for ";

/// The role of a backend: which requests and notifications it takes, and what
/// the results of the requests that it sends must look like. What a role
/// answers is what its own contracts say.
pub trait MessageFilter: Sized {
    /// The name of the role.
    fn name() -> (name: &'static str);

    /// Whether a backend of this role answers requests of this method.
    fn accepts_request(method: RequestMethod) -> (accepted: bool);

    /// Whether a backend of this role takes notifications of this method.
    fn accepts_notification(method: NotificationMethod) -> (accepted: bool);

    /// Checks a result against what the method's results look like. The
    /// complaint of a failed check is sent to the peer as a decode error.
    fn check_result(method: RequestMethod, result: &Json) -> (checked: Result<(), String>);
}

/// The role of a language server: it answers the requests and takes the
/// notifications that clients send.
#[derive(Debug, PartialEq)]
pub struct ServerRole;

/// The role of a client: it answers the requests and takes the notifications
/// that servers send.
#[derive(Debug, PartialEq)]
pub struct ClientRole;

impl MessageFilter for ServerRole {
    fn name() -> (name: &'static str)
        ensures
            name@ == "server"@,
    {
        "server"
    }

    fn accepts_request(method: RequestMethod) -> (accepted: bool)
        ensures
            accepted == (method is Server),
    {
        match method {
            RequestMethod::Server(_) => true,
            RequestMethod::Client(_) => false,
        }
    }

    fn accepts_notification(method: NotificationMethod) -> (accepted: bool)
        ensures
            accepted == (method is Server || method is ImplementationDependent),
    {
        match method {
            NotificationMethod::Server(_) | NotificationMethod::ImplementationDependent(_) => true,
            NotificationMethod::Client(_) => false,
        }
    }

    /// This role knows no shapes: every result passes.
    fn check_result(method: RequestMethod, result: &Json) -> (checked: Result<(), String>)
        ensures
            checked is Ok,
    {
        Ok(())
    }
}

impl MessageFilter for ClientRole {
    fn name() -> (name: &'static str)
        ensures
            name@ == "client"@,
    {
        "client"
    }

    fn accepts_request(method: RequestMethod) -> (accepted: bool)
        ensures
            accepted == (method is Client),
    {
        match method {
            RequestMethod::Client(_) => true,
            RequestMethod::Server(_) => false,
        }
    }

    fn accepts_notification(method: NotificationMethod) -> (accepted: bool)
        ensures
            accepted == (method is Client || method is ImplementationDependent),
    {
        match method {
            NotificationMethod::Client(_) | NotificationMethod::ImplementationDependent(_) => true,
            NotificationMethod::Server(_) => false,
        }
    }

    /// This role knows no shapes: every result passes.
    fn check_result(method: RequestMethod, result: &Json) -> (checked: Result<(), String>)
        ensures
            checked is Ok,
    {
        Ok(())
    }
}

/// A message on its way to the backend.
#[derive(Debug, PartialEq)]
pub enum IncomingMessage {
    Notification(AllNotifications),
    Request(AllRequests),
    Response(TypedResponse),
}

/// A message on its way from the backend to the wire.
#[derive(Debug, PartialEq)]
pub enum OutgoingMessage {
    Notification(AllNotifications),
    Request(AllRequests),
    Response(TypedResponse),
}

impl OutgoingMessage {
    /// The message as the wire sees it: a response loses its type.
    pub open spec fn general(self) -> AllMessages {
        match self {
            OutgoingMessage::Notification(message) => AllMessages::Notifications(message),
            OutgoingMessage::Request(message) => AllMessages::Requests(message),
            OutgoingMessage::Response(typed) => AllMessages::UntypedResponse(typed.untyped_spec()),
        }
    }

    /// The message as the wire sees it.
    pub fn into_general(self) -> (message: AllMessages)
        ensures
            message == self.general(),
    {
        match self {
            OutgoingMessage::Notification(message) => AllMessages::Notifications(message),
            OutgoingMessage::Request(message) => AllMessages::Requests(message),
            OutgoingMessage::Response(typed) => AllMessages::UntypedResponse(typed.untyped()),
        }
    }
}

/// The identifier that the answer to a refused message carries: that of a
/// request or of a response, and `null` for a notification.
pub open spec fn refusal_id(message: AllMessages) -> ResponseId {
    match message {
        AllMessages::Requests(request) => ResponseId::NumberOrString(request.request_id_spec().0),
        AllMessages::UntypedResponse(response) => response.id,
        AllMessages::Notifications(_) => ResponseId::Null,
    }
}

/// Whether `response` refuses `message` in the name of the role `F`: an
/// internal error that says so, addressed to the message's sender, with the
/// message itself as data.
pub open spec fn is_refusal<F: MessageFilter>(
    message: AllMessages,
    response: ErrorResponse,
) -> bool {
    &&& response.id@ == refusal_id(message)@
    &&& response.error.code == ResponseErrorCode::Reserved(
        ReservedResponseErrorCodes::InternalError,
    )
    &&& exists|name: &'static str| #[trigger]
        call_ensures(F::name, (), name) && response.error.message@ == INVALID_MESSAGE@ + name@
    &&& response.error.data matches Some(data)
    &&& message.written_as(data@)
}

/// What typing a response comes to once its result has been checked: the
/// typed response for the backend; or, where the check failed, a decode
/// error with the check's complaint, addressed to the response's sender.
pub open spec fn is_typed(
    typed: TypedResponse,
    checked: Result<(), String>,
    outcome: Result<IncomingMessage, ErrorResponse>,
) -> bool {
    match checked {
        Ok(_) => outcome == Ok::<IncomingMessage, ErrorResponse>(IncomingMessage::Response(typed)),
        Err(complaint) => outcome matches Err(response) && response@
            == DecodeErrorResponse::response_spec(typed.message.id@, complaint@),
    }
}

/// Whether `checked` is what the role's check made of a typed response: the
/// result, where the response carries one, is handed to the check; a
/// response that carries an error passes unchecked.
pub open spec fn is_checked<F: MessageFilter>(
    typed: TypedResponse,
    checked: Result<(), String>,
) -> bool {
    match typed.message.kind {
        Ok(result) => call_ensures(F::check_result, (typed.method, &result), checked),
        Err(_) => checked is Ok,
    }
}

/// A decision on a message as the outcome of typesetting.
pub open spec fn handed_on(decided: Result<IncomingMessage, ErrorResponse>) -> Result<
    Option<IncomingMessage>,
    ErrorResponse,
> {
    match decided {
        Ok(incoming) => Ok(Some(incoming)),
        Err(answer) => Err(answer),
    }
}

/// What the filter does with a request or a notification once the role has
/// said whether it takes the method: the message goes to the backend, or it
/// is refused.
pub open spec fn is_admitted<F: MessageFilter>(
    accepted: bool,
    message: AllMessages,
    incoming: IncomingMessage,
    outcome: Result<Option<IncomingMessage>, ErrorResponse>,
) -> bool {
    if accepted {
        outcome == Ok::<Option<IncomingMessage>, ErrorResponse>(Some(incoming))
    } else {
        outcome matches Err(response) && is_refusal::<F>(message, response)
    }
}

/// What the filter makes of a message from the wire.
///
/// A request or a notification goes to the backend where the role takes its
/// method, and is refused otherwise. A response is typed with the method on
/// record for its identifier, which leaves the record; where the response
/// carries a result, the role checks the result, and a failed check is
/// answered with a decode error. A response that is on no record is dropped:
/// `Ok(None)`.
pub open spec fn is_typeset<F: MessageFilter>(
    before: Map<NumberOrStringView, RequestMethod>,
    message: AllMessages,
    after: Map<NumberOrStringView, RequestMethod>,
    outcome: Result<Option<IncomingMessage>, ErrorResponse>,
) -> bool {
    match message {
        AllMessages::Requests(request) => {
            &&& after == before
            &&& exists|accepted: bool| #[trigger]
                call_ensures(F::accepts_request, (request.method_spec(),), accepted)
                    && is_admitted::<F>(
                    accepted,
                    message,
                    IncomingMessage::Request(request),
                    outcome,
                )
        },
        AllMessages::Notifications(notification) => {
            &&& after == before
            &&& exists|accepted: bool| #[trigger]
                call_ensures(F::accepts_notification, (notification.method_spec(),), accepted)
                    && is_admitted::<F>(
                    accepted,
                    message,
                    IncomingMessage::Notification(notification),
                    outcome,
                )
        },
        AllMessages::UntypedResponse(response) => match response.id@ {
            ResponseIdView::NumberOrString(id) if before.contains_key(id) => {
                let typed = TypedResponse {
                    method: before[id],
                    message: ResponseMessage { id: response.id, kind: response.kind },
                };
                &&& after == before.remove(id)
                &&& exists|
                    checked: Result<(), String>,
                    decided: Result<IncomingMessage, ErrorResponse>,
                |
                    #![trigger is_typed(typed, checked, decided)]
                    is_checked::<F>(typed, checked) && is_typed(typed, checked, decided)
                        && outcome == handed_on(decided)
            },
            _ => after == before && outcome == Ok::<Option<IncomingMessage>, ErrorResponse>(None),
        },
    }
}

/// What the filter makes of what came from the wire, if anything came.
pub open spec fn is_inbound<F: MessageFilter>(
    before: Map<NumberOrStringView, RequestMethod>,
    from_frontend: Option<AllMessages>,
    after: Map<NumberOrStringView, RequestMethod>,
    outcome: Result<Option<IncomingMessage>, ErrorResponse>,
) -> bool {
    match from_frontend {
        Some(message) => is_typeset::<F>(before, message, after, outcome),
        None => after == before && outcome == Ok::<Option<IncomingMessage>, ErrorResponse>(None),
    }
}

/// The record after what came from the backend, if anything came, has
/// passed: the method of a request is on it.
pub open spec fn outbound_store(
    before: Map<NumberOrStringView, RequestMethod>,
    from_backend: Option<OutgoingMessage>,
) -> Map<NumberOrStringView, RequestMethod> {
    match from_backend {
        Some(OutgoingMessage::Request(request)) => before.insert(
            request.request_id_spec()@,
            request.method_spec(),
        ),
        _ => before,
    }
}

/// What goes to the wire of what came from the backend.
pub open spec fn outbound_messages(from_backend: Option<OutgoingMessage>) -> Seq<AllMessages> {
    match from_backend {
        Some(message) => seq![message.general()],
        None => seq![],
    }
}

/// What one pass hands on, given what the inbound half came to: the message
/// for the backend, and for the wire first the answer of the inbound half,
/// then the message from the backend.
pub open spec fn is_handed_on(
    inbound: Result<Option<IncomingMessage>, ErrorResponse>,
    from_backend: Option<OutgoingMessage>,
    tick: FilterTick,
) -> bool {
    match inbound {
        Ok(incoming) => tick.to_backend == incoming && tick.to_frontend@ == outbound_messages(
            from_backend,
        ),
        Err(answer) => tick.to_backend.is_none() && tick.to_frontend@ == seq![
            AllMessages::UntypedResponse(answer.untyped_spec()),
        ] + outbound_messages(from_backend),
    }
}

/// A server's filter refuses every request that is meant for a client: the
/// backend gets nothing, the record stays as it is, and the sender gets an
/// internal error that carries the request.
pub proof fn lemma_server_refuses_client_requests(
    before: Map<NumberOrStringView, RequestMethod>,
    request: AllRequests,
    after: Map<NumberOrStringView, RequestMethod>,
    outcome: Result<Option<IncomingMessage>, ErrorResponse>,
)
    requires
        request.method_spec() is Client,
        is_typeset::<ServerRole>(before, AllMessages::Requests(request), after, outcome),
    ensures
        after == before,
        outcome matches Err(response) && response.id@ == ResponseIdView::NumberOrString(
            request.request_id_spec()@,
        ) && response.error.code == ResponseErrorCode::Reserved(
            ReservedResponseErrorCodes::InternalError,
        ) && response.error.message@ == INVALID_MESSAGE@ + "server"@ && (response.error.data
            matches Some(data) && AllMessages::Requests(request).written_as(data@)),
{
}

/// A client's filter refuses every request that is meant for a server.
pub proof fn lemma_client_refuses_server_requests(
    before: Map<NumberOrStringView, RequestMethod>,
    request: AllRequests,
    after: Map<NumberOrStringView, RequestMethod>,
    outcome: Result<Option<IncomingMessage>, ErrorResponse>,
)
    requires
        request.method_spec() is Server,
        is_typeset::<ClientRole>(before, AllMessages::Requests(request), after, outcome),
    ensures
        after == before,
        outcome matches Err(response) && is_refusal::<ClientRole>(
            AllMessages::Requests(request),
            response,
        ),
{
}

/// The response to a request that a server sent comes in typed with the
/// method of that request: this role's check lets every result pass.
pub proof fn lemma_server_response_typed_by_request(
    before: Map<NumberOrStringView, RequestMethod>,
    request: AllRequests,
    response: UntypedResponseMessage,
    after: Map<NumberOrStringView, RequestMethod>,
    outcome: Result<Option<IncomingMessage>, ErrorResponse>,
)
    requires
        response.id@ == ResponseIdView::NumberOrString(request.request_id_spec()@),
        is_typeset::<ServerRole>(
            outbound_store(before, Some(OutgoingMessage::Request(request))),
            AllMessages::UntypedResponse(response),
            after,
            outcome,
        ),
    ensures
        after == before.remove(request.request_id_spec()@),
        outcome == Ok::<Option<IncomingMessage>, ErrorResponse>(
            Some(
                IncomingMessage::Response(
                    TypedResponse {
                        method: request.method_spec(),
                        message: ResponseMessage { id: response.id, kind: response.kind },
                    },
                ),
            ),
        ),
{
    let id = request.request_id_spec()@;
}

/// The response to a request that went out comes in typed with the method
/// of that request, and the record of the request is gone. Where the role's
/// check refuses the result, nothing comes in: the sender gets a parse error
/// under the same identifier. A response that carries an error always comes
/// in.
pub proof fn lemma_response_typed_by_request<F: MessageFilter>(
    before: Map<NumberOrStringView, RequestMethod>,
    request: AllRequests,
    response: UntypedResponseMessage,
    after: Map<NumberOrStringView, RequestMethod>,
    outcome: Result<Option<IncomingMessage>, ErrorResponse>,
)
    requires
        response.id@ == ResponseIdView::NumberOrString(request.request_id_spec()@),
        is_typeset::<F>(
            outbound_store(before, Some(OutgoingMessage::Request(request))),
            AllMessages::UntypedResponse(response),
            after,
            outcome,
        ),
    ensures
        after == before.remove(request.request_id_spec()@),
        match outcome {
            Ok(Some(incoming)) => incoming == IncomingMessage::Response(
                TypedResponse {
                    method: request.method_spec(),
                    message: ResponseMessage { id: response.id, kind: response.kind },
                },
            ),
            Ok(None) => false,
            Err(answer) => response.kind is Ok && answer@.id == response.id@
                && answer@.error.code == ResponseErrorCode::Reserved(
                ReservedResponseErrorCodes::ParseError,
            ),
        },
{
    let id = request.request_id_spec()@;
}

/// The filter of a backend with the role `F`.
#[derive(Debug)]
pub struct ServiceMessageFilter<F: MessageFilter> {
    pub type_store: TypeStore,
    pub marker: PhantomData<F>,
}

/// What one pass of the filter hands on: at most one message for the
/// backend, and the messages for the wire in the order in which they leave.
#[derive(Debug, PartialEq)]
pub struct FilterTick {
    pub to_backend: Option<IncomingMessage>,
    pub to_frontend: Vec<AllMessages>,
}

impl<F: MessageFilter> ServiceMessageFilter<F> {
    /// A filter that has no request on record.
    pub fn new() -> (filter: Self)
        ensures
            filter.type_store@ == Map::<NumberOrStringView, RequestMethod>::empty(),
    {
        Self { type_store: TypeStore::new(), marker: PhantomData }
    }

    /// The answer to a message that a backend of this role has no use for.
    pub fn invalid_message(message: AllMessages) -> (response: ErrorResponse)
        ensures
            is_refusal::<F>(message, response),
    {
        let id = match &message {
            AllMessages::Requests(request) => ResponseId::from(request.request_id().duplicate()),
            AllMessages::UntypedResponse(untyped_response) => untyped_response.id.duplicate(),
            AllMessages::Notifications(_) => ResponseId::Null,
        };
        let mut text = INVALID_MESSAGE.to_owned();
        let name = F::name();
        text.append(name);
        InvalidMessageResponse::create(
            id,
            ResponseError {
                code: ResponseErrorCode::Reserved(ReservedResponseErrorCodes::InternalError),
                message: text,
                data: Some(message.to_json()),
            },
        )
    }

    /// Decides on a typed response once the role has checked its result.
    pub fn type_response(typed: TypedResponse, checked: Result<(), String>) -> (outcome: Result<
        IncomingMessage,
        ErrorResponse,
    >)
        ensures
            is_typed(typed, checked, outcome),
    {
        match checked {
            Ok(_) => Ok(IncomingMessage::Response(typed)),
            Err(complaint) => Err(
                DecodeErrorResponse::addressed(
                    typed.message.id,
                    DecodeError::Deserialize(complaint),
                ),
            ),
        }
    }

    /// Types a message from the wire for the backend, or says why not.
    pub fn typeset_incoming(&mut self, all_messages: AllMessages) -> (outcome: Result<
        Option<IncomingMessage>,
        ErrorResponse,
    >)
        ensures
            is_typeset::<F>(old(self).type_store@, all_messages, final(self).type_store@, outcome),
    {
        match all_messages {
            AllMessages::Requests(request) => {
                let accepted = F::accepts_request(request.method());
                let outcome = if accepted {
                    Ok(Some(IncomingMessage::Request(request)))
                } else {
                    Err(Self::invalid_message(AllMessages::Requests(request)))
                };
                assert(call_ensures(F::accepts_request, (request.method_spec(),), accepted)
                    && is_admitted::<F>(
                    accepted,
                    all_messages,
                    IncomingMessage::Request(request),
                    outcome,
                ));
                outcome
            },
            AllMessages::Notifications(notification) => {
                let accepted = F::accepts_notification(notification.method());
                let outcome = if accepted {
                    Ok(Some(IncomingMessage::Notification(notification)))
                } else {
                    Err(Self::invalid_message(AllMessages::Notifications(notification)))
                };
                assert(call_ensures(
                    F::accepts_notification,
                    (notification.method_spec(),),
                    accepted,
                ) && is_admitted::<F>(
                    accepted,
                    all_messages,
                    IncomingMessage::Notification(notification),
                    outcome,
                ));
                outcome
            },
            AllMessages::UntypedResponse(untyped_response) => {
                match self.type_store.load_response_type(untyped_response) {
                    Err(_) => Ok(None),
                    Ok(typed) => {
                        let checked = match &typed.message.kind {
                            Ok(result) => F::check_result(typed.method, result),
                            Err(_) => Ok(()),
                        };
                        let ghost subject = typed;
                        let ghost verdict = checked;
                        let decided = Self::type_response(typed, checked);
                        let ghost decision = decided;
                        let outcome = match decided {
                            Ok(incoming) => Ok(Some(incoming)),
                            Err(answer) => Err(answer),
                        };
                        assert(is_checked::<F>(subject, verdict) && is_typed(
                            subject,
                            verdict,
                            decision,
                        ) && outcome == handed_on(decision));
                        outcome
                    },
                }
            },
        }
    }

    /// What the filter does with what came from the wire, if anything came:
    /// the message for the backend, or the answer for the wire.
    pub fn try_forward_to_backend(&mut self, from_frontend: Option<AllMessages>) -> (outcome:
        Result<Option<IncomingMessage>, ErrorResponse>)
        ensures
            is_inbound::<F>(old(self).type_store@, from_frontend, final(self).type_store@, outcome),
    {
        match from_frontend {
            Some(message) => self.typeset_incoming(message),
            None => Ok(None),
        }
    }

    /// What the filter does with what came from the backend, if anything
    /// came: the message goes to the wire as it is, and the method of a
    /// request goes on record first.
    pub fn forward_to_frontend(&mut self, from_backend: Option<OutgoingMessage>) -> (to_frontend:
        Option<AllMessages>)
        ensures
            final(self).type_store@ == outbound_store(old(self).type_store@, from_backend),
            to_frontend == match from_backend {
                Some(message) => Some(message.general()),
                None => None,
            },
    {
        match from_backend {
            Some(message) => {
                if let OutgoingMessage::Request(outgoing_request) = &message {
                    self.type_store.store_request_type(outgoing_request);
                }
                Some(message.into_general())
            },
            None => None,
        }
    }

    /// One pass of the filter: first what came from the wire, then what came
    /// from the backend.
    pub fn tick(
        &mut self,
        from_frontend: Option<AllMessages>,
        from_backend: Option<OutgoingMessage>,
    ) -> (tick: FilterTick)
        ensures
            exists|inbound: Result<Option<IncomingMessage>, ErrorResponse>,
                between: Map<NumberOrStringView, RequestMethod>| #[trigger]
                is_inbound::<F>(old(self).type_store@, from_frontend, between, inbound)
                    && final(self).type_store@ == outbound_store(between, from_backend)
                    && is_handed_on(inbound, from_backend, tick),
    {
        let ghost before = self.type_store@;
        let inbound = self.try_forward_to_backend(from_frontend);
        let ghost between = self.type_store@;
        let ghost witness = inbound;
        let mut to_frontend: Vec<AllMessages> = Vec::new();
        let to_backend = match inbound {
            Ok(incoming) => incoming,
            Err(answer) => {
                to_frontend.push(AllMessages::from(answer));
                None
            },
        };
        match self.forward_to_frontend(from_backend) {
            Some(message) => {
                to_frontend.push(message);
            },
            None => {},
        }
        let tick = FilterTick { to_backend, to_frontend };
        proof {
            assert(tick.to_frontend@ =~= match witness {
                Ok(_) => outbound_messages(from_backend),
                Err(answer) => seq![AllMessages::UntypedResponse(answer.untyped_spec())]
                    + outbound_messages(from_backend),
            });
            assert(is_inbound::<F>(before, from_frontend, between, witness)
                && self.type_store@ == outbound_store(between, from_backend) && is_handed_on(
                witness,
                from_backend,
                tick,
            ));
        }
        tick
    }
}

} // verus!

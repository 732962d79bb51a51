//! The client: what it is configured with, the request it makes of the
//! transport, and what it concludes from the transport's reports.
//!
//! The library performs no I/O. A chat call is a small state machine: the
//! state says what the transport has to do next, and each report of the
//! transport moves the call one step, until it is `Done`.

use crate::chat::{
    ChatMessage, ChatRequest, ChatResponse, MessageView, RequestView, ResponseView,
};
use crate::wire::{decoded, request_json};
use crate::error::{describe_transport_error, transport_error_text, ErrorView, OllmError};
use vstd::prelude::*;

verus! {

/// A handle on the service: where it is and the key that opens it.
pub struct OllmClient {
    base_url: String,
    api_key: String,
}

/// The model of an [`OllmClient`]: all that its behaviour depends on.
pub struct ClientView {
    pub base_url: Seq<char>,
    pub api_key: Seq<char>,
}

impl View for OllmClient {
    type V = ClientView;

    closed spec fn view(&self) -> ClientView {
        ClientView { base_url: self.base_url@, api_key: self.api_key@ }
    }
}

impl Clone for OllmClient {
    /// A second handle, configured like the first.
    fn clone(&self) -> (copy: Self)
        ensures
            copy@ == self@,
    {
        OllmClient { base_url: self.base_url.clone(), api_key: self.api_key.clone() }
    }
}

/// An HTTP `POST` for the transport to send to `url`, with `body` as its
/// body. `bearer_token` goes into the `Authorization` header, after the word
/// `Bearer`; `content_type` into the `Content-Type` header.
pub struct HttpPost {
    pub url: String,
    pub bearer_token: String,
    pub content_type: String,
    pub body: String,
}

/// The model of an [`HttpPost`].
pub struct HttpPostView {
    pub url: Seq<char>,
    pub bearer_token: Seq<char>,
    pub content_type: Seq<char>,
    pub body: Seq<char>,
}

impl View for HttpPost {
    type V = HttpPostView;

    open spec fn view(&self) -> HttpPostView {
        HttpPostView {
            url: self.url@,
            bearer_token: self.bearer_token@,
            content_type: self.content_type@,
            body: self.body@,
        }
    }
}

/// The request by which `client` asks `model` to continue `messages`.
pub open spec fn chat_request(
    client: ClientView,
    messages: Seq<MessageView>,
    model: Seq<char>,
) -> HttpPostView {
    HttpPostView {
        url: client.base_url + "/chat/completions"@,
        bearer_token: client.api_key,
        content_type: "application/json"@,
        body: request_json(RequestView { model, messages }),
    }
}

/// Whether `status` is one of the success codes, 200 to 299.
pub open spec fn is_success(status: u16) -> bool {
    200 <= status <= 299
}

/// What the transport reports back.
#[derive(Debug)]
pub enum TransportEvent {
    /// A response arrived, with this status code.
    Status(u16),
    /// The body was read as text.
    Text(String),
    /// The body was read as bytes.
    Body(Vec<u8>),
    /// The step the transport was asked for failed.
    Failed(reqwest::Error),
}

/// The model of a [`TransportEvent`].
pub enum EventView {
    Status(u16),
    Text(Seq<char>),
    Body(Seq<u8>),
    Failed(reqwest::Error),
}

impl View for TransportEvent {
    type V = EventView;

    open spec fn view(&self) -> EventView {
        match *self {
            TransportEvent::Status(status) => EventView::Status(status),
            TransportEvent::Text(text) => EventView::Text(text@),
            TransportEvent::Body(body) => EventView::Body(body@),
            TransportEvent::Failed(error) => EventView::Failed(error),
        }
    }
}

/// A chat call in progress. Each state but the last names what the transport
/// has to do next.
pub enum ChatCall {
    /// Send this request, and report the status or the failure.
    Send(HttpPost),
    /// The service refused with `status`: read the body as text.
    ReadError { status: u16 },
    /// The service accepted: read the body as bytes.
    ReadBody,
    /// The call is over, with this result.
    Done(Result<ChatResponse, OllmError>),
}

/// The model of a [`ChatCall`].
pub enum CallView {
    Send(HttpPostView),
    ReadError { status: u16 },
    ReadBody,
    Done(Result<ResponseView, ErrorView>),
}

/// The model of a call's result.
pub open spec fn result_view(result: Result<ChatResponse, OllmError>) -> Result<
    ResponseView,
    ErrorView,
> {
    match result {
        Ok(response) => Ok(response@),
        Err(error) => Err(error@),
    }
}

impl View for ChatCall {
    type V = CallView;

    open spec fn view(&self) -> CallView {
        match *self {
            ChatCall::Send(request) => CallView::Send(request@),
            ChatCall::ReadError { status } => CallView::ReadError { status },
            ChatCall::ReadBody => CallView::ReadBody,
            ChatCall::Done(result) => CallView::Done(result_view(result)),
        }
    }
}

/// The message of an `ApiError` whose body could not be read because of `error`.
pub open spec fn unreadable_body_message(error: reqwest::Error) -> Seq<char> {
    "Failed to read error response: "@ + transport_error_text(error)
}

impl CallView {
    /// Whether `event` is a report of the step that this state asks for.
    pub open spec fn expects(self, event: EventView) -> bool {
        match self {
            CallView::Send(_) => event is Status || event is Failed,
            CallView::ReadError { .. } => event is Text || event is Failed,
            CallView::ReadBody => event is Body || event is Failed,
            CallView::Done(_) => false,
        }
    }

    /// The state after `event`. A report that this state does not expect
    /// changes nothing.
    pub open spec fn after(self, event: EventView) -> CallView {
        match (self, event) {
            (CallView::Send(_), EventView::Status(status)) => if is_success(status) {
                CallView::ReadBody
            } else {
                CallView::ReadError { status }
            },
            (CallView::Send(_), EventView::Failed(error)) => CallView::Done(
                Err(ErrorView::Request(error)),
            ),
            (CallView::ReadError { status }, EventView::Text(text)) => CallView::Done(
                Err(ErrorView::ApiError { status, message: text }),
            ),
            (CallView::ReadError { status }, EventView::Failed(error)) => CallView::Done(
                Err(ErrorView::ApiError { status, message: unreadable_body_message(error) }),
            ),
            (CallView::ReadBody, EventView::Body(body)) => CallView::Done(decoded(body)),
            (CallView::ReadBody, EventView::Failed(error)) => CallView::Done(
                Err(ErrorView::Request(error)),
            ),
            _ => self,
        }
    }
}

impl OllmClient {
    /// A client for the service at `base_url`, opened by `api_key`. Neither is
    /// examined.
    pub fn new(base_url: &str, api_key: &str) -> (client: OllmClient)
        ensures
            client@ == (ClientView { base_url: base_url@, api_key: api_key@ }),
    {
        OllmClient { base_url: String::from_str(base_url), api_key: String::from_str(api_key) }
    }

    /// Starts a chat call: the request to send is [`chat_request`] of this
    /// client, `messages` and `model`.
    pub fn chat(&self, messages: Vec<ChatMessage>, model: &str) -> (call: ChatCall)
        ensures
            call@ == CallView::Send(
                chat_request(self@, messages@.map_values(|m: ChatMessage| m@), model@),
            ),
    {
        let mut url = self.base_url.clone();
        url.append("/chat/completions");
        let body = ChatRequest { model: String::from_str(model), messages };
        ChatCall::Send(
            HttpPost {
                url,
                bearer_token: self.api_key.clone(),
                content_type: String::from_str("application/json"),
                body: body.to_json(),
            },
        )
    }
}

impl ChatCall {
    /// Moves the call one step on a report of the transport.
    pub fn step(self, event: TransportEvent) -> (next: ChatCall)
        ensures
            next@ == self@.after(event@),
    {
        match (self, event) {
            (ChatCall::Send(_), TransportEvent::Status(status)) => {
                if 200 <= status && status <= 299 {
                    ChatCall::ReadBody
                } else {
                    ChatCall::ReadError { status }
                }
            },
            (ChatCall::Send(_), TransportEvent::Failed(error)) => ChatCall::Done(
                Err(OllmError::Request(error)),
            ),
            (ChatCall::ReadError { status }, TransportEvent::Text(text)) => ChatCall::Done(
                Err(OllmError::ApiError { status, message: text }),
            ),
            (ChatCall::ReadError { status }, TransportEvent::Failed(error)) => {
                let mut message = String::from_str("Failed to read error response: ");
                let detail = describe_transport_error(&error);
                message.append(detail.as_str());
                ChatCall::Done(Err(OllmError::ApiError { status, message }))
            },
            (ChatCall::ReadBody, TransportEvent::Body(body)) => ChatCall::Done(
                ChatResponse::from_json(body.as_slice()),
            ),
            (ChatCall::ReadBody, TransportEvent::Failed(error)) => ChatCall::Done(
                Err(OllmError::Request(error)),
            ),
            (call, _) => call,
        }
    }
}

/// Clients that are configured alike behave alike. Two clients made from the
/// same base URL and key have the same model (that is the contract of `new`,
/// and of `clone`), and the request that `chat` asks for depends on nothing
/// else of the client.
pub proof fn lemma_same_configuration_same_request(
    a: OllmClient,
    b: OllmClient,
    messages: Seq<MessageView>,
    model: Seq<char>,
)
    requires
        a@ == b@,
    ensures
        chat_request(a@, messages, model) == chat_request(b@, messages, model),
{
}

/// A call makes one request: a report that the call expects never leads back
/// to `Send`, and any other report leaves the call as it is.
pub proof fn lemma_one_request_per_call(call: CallView, event: EventView)
    ensures
        call.expects(event) ==> !(call.after(event) is Send),
        !call.expects(event) ==> call.after(event) == call,
{
}

/// A call is over after two reports at most: whatever the transport reports
/// on the request and then on the body, the call is `Done`.
pub proof fn lemma_two_reports_end_call(request: HttpPostView, first: EventView, second: EventView)
    requires
        CallView::Send(request).expects(first),
        CallView::Send(request).after(first).expects(second),
    ensures
        CallView::Send(request).after(first).after(second) is Done,
{
}

/// A finished call stays finished, with the result it has.
pub proof fn lemma_done_is_final(result: Result<ResponseView, ErrorView>, event: EventView)
    ensures
        CallView::Done(result).after(event) == CallView::Done(result),
{
}

/// Where the service refuses with a status outside 200..=299 and the body can
/// be read, the call fails with `ApiError`, carrying that status and the body
/// unchanged.
pub proof fn lemma_refusal_carries_status_and_body(
    request: HttpPostView,
    status: u16,
    body: Seq<char>,
)
    requires
        !is_success(status),
    ensures
        CallView::Send(request).after(EventView::Status(status)).after(EventView::Text(body))
            == CallView::Done(Err(ErrorView::ApiError { status, message: body })),
{
}

/// Where the service answers with a success status and the body can be read,
/// the call ends with what the body decodes to.
pub proof fn lemma_success_decodes_body(request: HttpPostView, status: u16, body: Seq<u8>)
    requires
        is_success(status),
    ensures
        CallView::Send(request).after(EventView::Status(status)).after(EventView::Body(body))
            == CallView::Done(decoded(body)),
{
}

/// A failure of the transport is never swallowed. Where sending fails, or
/// reading the body of an accepted request, the call fails with `Request`,
/// carrying the transport's error; where reading the body of a refusal fails,
/// the call still fails with `ApiError` and the refusal's status.
pub proof fn lemma_transport_failure_surfaces(
    request: HttpPostView,
    status: u16,
    error: reqwest::Error,
)
    ensures
        CallView::Send(request).after(EventView::Failed(error)) == CallView::Done(
            Err(ErrorView::Request(error)),
        ),
        is_success(status) ==> CallView::Send(request).after(EventView::Status(status)).after(
            EventView::Failed(error),
        ) == CallView::Done(Err(ErrorView::Request(error))),
        !is_success(status) ==> CallView::Send(request).after(EventView::Status(status)).after(
            EventView::Failed(error),
        ) == CallView::Done(
            Err(ErrorView::ApiError { status, message: unreadable_body_message(error) }),
        ),
{
}

} // verus!

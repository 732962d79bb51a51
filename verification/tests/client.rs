use ollm_sdk::client::{ChatCall, HttpPost, TransportEvent};
use ollm_sdk::{ChatMessage, Model, OllmClient, OllmError};

fn user(content: &str) -> Vec<ChatMessage> {
    vec![ChatMessage {
        role: "user".to_string(),
        content: content.to_string(),
    }]
}

fn request_of(call: ChatCall) -> HttpPost {
    match call {
        ChatCall::Send(request) => request,
        _ => panic!("a new call asks for its request to be sent"),
    }
}

fn started() -> ChatCall {
    OllmClient::new("https://api.ollm.com/v1", "test-key")
        .chat(user("Say hello"), Model::NearGLM46.as_str())
}

fn transport_error() -> reqwest::Error {
    reqwest::Client::new()
        .get("not a url")
        .build()
        .unwrap_err()
}

#[test]
fn test_client_creation() {
    let _client = OllmClient::new("https://api.ollm.com/v1", "test-key");
    // Client should be created successfully - just verify it doesn't panic
}

#[test]
fn test_client_clone() {
    let client = OllmClient::new("https://api.ollm.com/v1", "test-key");
    let _cloned = client.clone();
    // Both should be valid - just verify clone works
}

#[test]
fn chat_asks_for_the_documented_request() {
    let request = request_of(started());
    assert_eq!(request.url, "https://api.ollm.com/v1/chat/completions");
    assert_eq!(request.bearer_token, "test-key");
    assert_eq!(request.content_type, "application/json");
    assert_eq!(
        request.body,
        "{\"model\":\"near/GLM-4.6\",\"messages\":[{\"role\":\"user\",\"content\":\"Say hello\"}]}"
    );
}

#[test]
fn chat_does_not_examine_url_or_key() {
    let client = OllmClient::new("", "");
    let request = request_of(client.chat(vec![], ""));
    assert_eq!(request.url, "/chat/completions");
    assert_eq!(request.bearer_token, "");
    assert_eq!(request.body, "{\"model\":\"\",\"messages\":[]}");

    let client = OllmClient::new("https://host/v1/", "k e y");
    let request = request_of(client.chat(vec![], "m"));
    assert_eq!(request.url, "https://host/v1//chat/completions");
    assert_eq!(request.bearer_token, "k e y");
}

#[test]
fn clients_configured_alike_ask_alike() {
    let a = OllmClient::new("https://api.ollm.com/v1", "test-key");
    let b = OllmClient::new("https://api.ollm.com/v1", "test-key");
    let ra = request_of(a.chat(user("Hi"), "near/GLM-4.6"));
    let rb = request_of(b.chat(user("Hi"), "near/GLM-4.6"));
    assert_eq!(ra.url, rb.url);
    assert_eq!(ra.bearer_token, rb.bearer_token);
    assert_eq!(ra.content_type, rb.content_type);
    assert_eq!(ra.body, rb.body);
}

#[test]
fn a_clone_asks_as_its_source_does() {
    let source = OllmClient::new("https://api.ollm.com/v1", "test-key");
    let copy = source.clone();
    let from_copy = request_of(copy.chat(user("Hi"), "m"));
    let from_source = request_of(source.chat(user("Hi"), "m"));
    let again = request_of(source.chat(user("Hi"), "m"));
    assert_eq!(from_copy.url, from_source.url);
    assert_eq!(from_copy.bearer_token, from_source.bearer_token);
    assert_eq!(from_copy.body, from_source.body);
    assert_eq!(again.url, from_source.url);
    assert_eq!(again.body, from_source.body);
}

fn shareable<T: Send + Sync + Clone>(_value: &T) {}

#[test]
fn a_client_can_be_shared_and_cloned_across_threads() {
    let client = OllmClient::new("https://api.ollm.com/v1", "test-key");
    shareable(&client);
}

#[test]
fn calls_on_one_client_do_not_affect_each_other() {
    let client = OllmClient::new("https://api.ollm.com/v1", "test-key");
    let first = client.chat(user("one"), "m");
    let second = client.chat(user("two"), "m");
    let first = first
        .step(TransportEvent::Status(500))
        .step(TransportEvent::Text("down".to_string()));
    assert!(matches!(first, ChatCall::Done(Err(OllmError::ApiError { status: 500, .. }))));
    let request = request_of(second);
    assert_eq!(
        request.body,
        "{\"model\":\"m\",\"messages\":[{\"role\":\"user\",\"content\":\"two\"}]}"
    );
    let third = request_of(client.chat(user("one"), "m"));
    assert_eq!(
        third.body,
        "{\"model\":\"m\",\"messages\":[{\"role\":\"user\",\"content\":\"one\"}]}"
    );
}

#[test]
fn refusal_gives_api_error_with_status_and_body() {
    let call = started().step(TransportEvent::Status(400));
    assert!(matches!(call, ChatCall::ReadError { status: 400 }));
    let call = call.step(TransportEvent::Text("Bad request".to_string()));
    match call {
        ChatCall::Done(Err(OllmError::ApiError { status, message })) => {
            assert_eq!(status, 400);
            assert_eq!(message, "Bad request");
        }
        _ => panic!("a refusal ends the call with an API error"),
    }
}

#[test]
fn success_gives_the_decoded_response() {
    let body = "{\"model\":\"near/GLM-4.6\",\"choices\":[{\"message\":{\"role\":\"assistant\",\"content\":\"Hello, world!\"}}]}";
    let call = started().step(TransportEvent::Status(200));
    assert!(matches!(call, ChatCall::ReadBody));
    let call = call.step(TransportEvent::Body(body.as_bytes().to_vec()));
    match call {
        ChatCall::Done(Ok(response)) => {
            assert_eq!(response.model, "near/GLM-4.6");
            assert_eq!(response.first_content().unwrap(), "Hello, world!");
        }
        _ => panic!("a well-formed body ends the call with its response"),
    }
}

#[test]
fn success_status_is_200_to_299() {
    for status in [200u16, 201, 204, 250, 299] {
        assert!(matches!(
            started().step(TransportEvent::Status(status)),
            ChatCall::ReadBody
        ));
    }
    for status in [0u16, 100, 199, 300, 301, 400, 404, 500, 599, 999, 65535] {
        match started().step(TransportEvent::Status(status)) {
            ChatCall::ReadError { status: kept } => assert_eq!(kept, status),
            _ => panic!("a status outside 200..=299 is a refusal"),
        }
    }
}

#[test]
fn undecodable_success_is_an_invalid_response() {
    let call = started()
        .step(TransportEvent::Status(200))
        .step(TransportEvent::Body(b"<html>oops</html>".to_vec()));
    assert!(matches!(
        call,
        ChatCall::Done(Err(OllmError::InvalidResponse))
    ));

    let call = started()
        .step(TransportEvent::Status(200))
        .step(TransportEvent::Body(b"{\"choices\":[]}".to_vec()));
    assert!(matches!(
        call,
        ChatCall::Done(Err(OllmError::InvalidResponse))
    ));
}

#[test]
fn success_without_choices_decodes_and_has_no_first_content() {
    let call = started()
        .step(TransportEvent::Status(200))
        .step(TransportEvent::Body(
            b"{\"model\":\"near/GLM-4.6\",\"choices\":[]}".to_vec(),
        ));
    match call {
        ChatCall::Done(Ok(response)) => {
            assert!(matches!(
                response.first_content(),
                Err(OllmError::MissingChoice)
            ));
        }
        _ => panic!("an empty list of choices is still a response"),
    }
}

#[test]
fn failure_to_send_is_a_request_error() {
    let error = transport_error();
    let detail = error.to_string();
    match started().step(TransportEvent::Failed(error)) {
        ChatCall::Done(Err(OllmError::Request(kept))) => assert_eq!(kept.to_string(), detail),
        _ => panic!("a failure to send ends the call with the transport's error"),
    }
}

#[test]
fn failure_to_read_an_accepted_body_is_a_request_error() {
    let error = transport_error();
    let detail = error.to_string();
    let call = started()
        .step(TransportEvent::Status(200))
        .step(TransportEvent::Failed(error));
    match call {
        ChatCall::Done(Err(OllmError::Request(kept))) => assert_eq!(kept.to_string(), detail),
        _ => panic!("a failure to read ends the call with the transport's error"),
    }
}

#[test]
fn failure_to_read_a_refusal_keeps_the_status() {
    let error = transport_error();
    let detail = error.to_string();
    let call = started()
        .step(TransportEvent::Status(503))
        .step(TransportEvent::Failed(error));
    match call {
        ChatCall::Done(Err(OllmError::ApiError { status, message })) => {
            assert_eq!(status, 503);
            assert_eq!(
                message,
                format!("Failed to read error response: {}", detail)
            );
        }
        _ => panic!("an unreadable refusal is still an API error"),
    }
}

#[test]
fn reports_out_of_turn_change_nothing() {
    let call = started().step(TransportEvent::Text("early".to_string()));
    let request = request_of(call);
    assert_eq!(request.url, "https://api.ollm.com/v1/chat/completions");

    let call = started().step(TransportEvent::Body(vec![]));
    assert!(matches!(call, ChatCall::Send(_)));

    let call = started()
        .step(TransportEvent::Status(200))
        .step(TransportEvent::Status(500));
    assert!(matches!(call, ChatCall::ReadBody));

    let call = started()
        .step(TransportEvent::Status(200))
        .step(TransportEvent::Text("text".to_string()));
    assert!(matches!(call, ChatCall::ReadBody));

    let call = started()
        .step(TransportEvent::Status(404))
        .step(TransportEvent::Body(vec![]));
    assert!(matches!(call, ChatCall::ReadError { status: 404 }));
}

#[test]
fn a_finished_call_stays_finished() {
    let finished = || {
        started()
            .step(TransportEvent::Status(401))
            .step(TransportEvent::Text("Unauthorized".to_string()))
    };
    let events = vec![
        TransportEvent::Status(200),
        TransportEvent::Text("again".to_string()),
        TransportEvent::Body(vec![1, 2, 3]),
        TransportEvent::Failed(transport_error()),
    ];
    for event in events {
        match finished().step(event) {
            ChatCall::Done(Err(OllmError::ApiError { status, message })) => {
                assert_eq!(status, 401);
                assert_eq!(message, "Unauthorized");
            }
            _ => panic!("a finished call keeps its result"),
        }
    }
}

#[test]
fn no_step_asks_for_a_second_request() {
    let after_status = started().step(TransportEvent::Status(200));
    assert!(!matches!(after_status, ChatCall::Send(_)));
    let after_body = after_status.step(TransportEvent::Body(vec![]));
    assert!(!matches!(after_body, ChatCall::Send(_)));
    let after_failure = started().step(TransportEvent::Failed(transport_error()));
    assert!(!matches!(after_failure, ChatCall::Send(_)));
    let after_refusal = started().step(TransportEvent::Status(500));
    assert!(!matches!(after_refusal, ChatCall::Send(_)));
}

//! The wire format: chat requests written as JSON, chat responses read from it.
//!
//! On both sides the JSON itself is `serde_json`'s business (see
//! [`crate::json`]); which members a request has and a response must have is
//! decided here.

use crate::chat::{
    text_view, ChatChoice, ChatMessage, ChatMessageResponse, ChatRequest, ChatResponse,
    MessageView, RequestView, ResponseView, Usage,
};
use crate::error::{ErrorView, OllmError};
use crate::json::{
    is_null, is_object, items, json_document, json_quoted, json_tree, member, parse, quote, text,
    unsigned, Json,
};
use vstd::prelude::*;

verus! {

/// The JSON object that stands for one message on the wire.
pub open spec fn message_json(message: MessageView) -> Seq<char> {
    "{\"role\":"@ + json_quoted(message.role) + ",\"content\":"@ + json_quoted(message.content)
        + "}"@
}

/// The JSON objects of `messages`, in order, with a comma between neighbours.
pub open spec fn messages_json(messages: Seq<MessageView>) -> Seq<char>
    decreases messages.len(),
{
    if messages.len() == 0 {
        Seq::empty()
    } else if messages.len() == 1 {
        message_json(messages[0])
    } else {
        messages_json(messages.drop_last()) + ","@ + message_json(messages.last())
    }
}

/// The JSON object that stands for a chat request on the wire.
pub open spec fn request_json(request: RequestView) -> Seq<char> {
    "{\"model\":"@ + json_quoted(request.model) + ",\"messages\":["@ + messages_json(
        request.messages,
    ) + "]}"@
}

impl ChatMessage {
    /// Writes the message as a JSON object with the members `role` and
    /// `content`, in that order.
    pub fn to_json(&self) -> (json: String)
        ensures
            json@ == message_json(self@),
    {
        let mut json = String::from_str("{\"role\":");
        let role = quote(self.role.as_str()).unwrap();
        json.append(role.as_str());
        json.append(",\"content\":");
        let content = quote(self.content.as_str()).unwrap();
        json.append(content.as_str());
        json.append("}");
        json
    }
}

impl ChatRequest {
    /// Writes the request as a JSON object with the members `model` and
    /// `messages`, in that order.
    pub fn to_json(&self) -> (json: String)
        ensures
            json@ == request_json(self@),
    {
        let mut json = String::from_str("{\"model\":");
        let model = quote(self.model.as_str()).unwrap();
        json.append(model.as_str());
        json.append(",\"messages\":[");
        let ghost head = json@;
        let mut i: usize = 0;
        while i < self.messages.len()
            invariant
                i <= self.messages.len(),
                json@ == head + messages_json(self@.messages.take(i as int)),
            decreases self.messages.len() - i,
        {
            if i > 0 {
                json.append(",");
            }
            let message = self.messages[i].to_json();
            json.append(message.as_str());
            proof {
                let done = self@.messages.take(i as int + 1);
                assert(done.drop_last() =~= self@.messages.take(i as int));
                assert(done.last() == self.messages@[i as int]@);
            }
            i += 1;
        }
        assert(self@.messages.take(i as int) =~= self@.messages);
        json.append("]}");
        json
    }
}

/// The member `key` of `doc`, where it is there and is not `null`.
pub open spec fn present(doc: Json, key: Seq<char>) -> Option<Json> {
    match doc.member(key) {
        Some(value) => if value is Null {
            None
        } else {
            Some(value)
        },
        None => None,
    }
}

/// The text of the member `key`, which must be there and be a string.
pub open spec fn text_member(doc: Json, key: Seq<char>) -> Option<Seq<char>> {
    match doc.member(key) {
        Some(value) => value.text(),
        None => None,
    }
}

/// The text of the member `key`, which may be missing or `null`; `None` where
/// it is there and is no string.
pub open spec fn optional_text_member(doc: Json, key: Seq<char>) -> Option<Option<Seq<char>>> {
    match present(doc, key) {
        Some(value) => match value.text() {
            Some(t) => Some(Some(t)),
            None => None,
        },
        None => Some(None),
    }
}

/// The number of the member `key`, which may be missing or `null`; `None`
/// where it is there and is no integer that a `u64` holds.
pub open spec fn optional_u64_member(doc: Json, key: Seq<char>) -> Option<Option<u64>> {
    match present(doc, key) {
        Some(value) => match value.unsigned() {
            Some(n) => Some(Some(n)),
            None => None,
        },
        None => Some(None),
    }
}

/// The number of the member `key`, which may be missing or `null`; `None`
/// where it is there and is no integer that a `u32` holds.
pub open spec fn optional_u32_member(doc: Json, key: Seq<char>) -> Option<Option<u32>> {
    match present(doc, key) {
        Some(value) => match value.unsigned() {
            Some(n) => if n <= u32::MAX {
                Some(Some(n as u32))
            } else {
                None
            },
            None => None,
        },
        None => Some(None),
    }
}

/// The token counts that the object `doc` holds; `None` where `doc` is no
/// object or one of its counts is malformed.
pub open spec fn usage_of(doc: Json) -> Option<Usage> {
    let prompt = optional_u32_member(doc, "prompt_tokens"@);
    let completion = optional_u32_member(doc, "completion_tokens"@);
    let total = optional_u32_member(doc, "total_tokens"@);
    if doc is Object && prompt is Some && completion is Some && total is Some {
        Some(
            Usage {
                prompt_tokens: prompt->0,
                completion_tokens: completion->0,
                total_tokens: total->0,
            },
        )
    } else {
        None
    }
}

/// The token counts of the member `key`, which may be missing or `null`.
pub open spec fn optional_usage_member(doc: Json, key: Seq<char>) -> Option<Option<Usage>> {
    match present(doc, key) {
        Some(value) => match usage_of(value) {
            Some(usage) => Some(Some(usage)),
            None => None,
        },
        None => Some(None),
    }
}

/// The message that `doc` holds: both `role` and `content` must be strings.
pub open spec fn message_of(doc: Json) -> Option<MessageView> {
    match (text_member(doc, "role"@), text_member(doc, "content"@)) {
        (Some(role), Some(content)) => Some(MessageView { role, content }),
        _ => None,
    }
}

/// The message of the choice that `doc` holds, under its member `message`.
pub open spec fn choice_of(doc: Json) -> Option<MessageView> {
    match doc.member("message"@) {
        Some(message) => message_of(message),
        None => None,
    }
}

/// The messages of the choices `items`, in order; `None` where one of them is
/// malformed.
pub open spec fn choices_of(items: Seq<Json>) -> Option<Seq<MessageView>> {
    if forall|i: int| 0 <= i < items.len() ==> (#[trigger] choice_of(items[i])) is Some {
        Some(Seq::new(items.len(), |i: int| choice_of(items[i])->0))
    } else {
        None
    }
}

/// The choices of the member `key`, which must be there and be an array.
pub open spec fn choices_member(doc: Json, key: Seq<char>) -> Option<Seq<MessageView>> {
    match doc.member(key) {
        Some(value) => match value.items() {
            Some(items) => choices_of(items),
            None => None,
        },
        None => None,
    }
}

/// The response that the document `doc` holds. `model` and `choices` must be
/// there; `id`, `object`, `created` and `usage` may be missing or `null`;
/// members of other names are passed over.
pub open spec fn response_of(doc: Json) -> Option<ResponseView> {
    let id = optional_text_member(doc, "id"@);
    let object = optional_text_member(doc, "object"@);
    let created = optional_u64_member(doc, "created"@);
    let model = text_member(doc, "model"@);
    let choices = choices_member(doc, "choices"@);
    let usage = optional_usage_member(doc, "usage"@);
    if id is Some && object is Some && created is Some && model is Some && choices is Some
        && usage is Some {
        Some(
            ResponseView {
                id: id->0,
                object: object->0,
                created: created->0,
                model: model->0,
                choices: choices->0,
                usage: usage->0,
            },
        )
    } else {
        None
    }
}

/// What a response body decodes to: the response it holds, or
/// `InvalidResponse` where it is no JSON or holds no response.
pub open spec fn decoded(body: Seq<u8>) -> Result<ResponseView, ErrorView> {
    match json_document(body) {
        Some(doc) => match response_of(doc) {
            Some(response) => Ok(response),
            None => Err(ErrorView::InvalidResponse),
        },
        None => Err(ErrorView::InvalidResponse),
    }
}

/// The member `key` of `doc`, where it is there and is not `null`.
fn present_member<'a>(doc: &'a serde_json::Value, key: &str) -> (found: Option<
    &'a serde_json::Value,
>)
    ensures
        match found {
            Some(value) => present(json_tree(*doc), key@) == Some(json_tree(*value)),
            None => present(json_tree(*doc), key@) is None,
        },
{
    match member(doc, key) {
        Some(value) => if is_null(value) {
            None
        } else {
            Some(value)
        },
        None => None,
    }
}

/// Reads the member `key`, which must be there and be a string.
fn read_text(doc: &serde_json::Value, key: &str) -> (found: Option<String>)
    ensures
        text_view(found) == text_member(json_tree(*doc), key@),
{
    match member(doc, key) {
        Some(value) => match text(value) {
            Some(t) => Some(String::from_str(t)),
            None => None,
        },
        None => None,
    }
}

/// Reads the member `key`, a string that may be missing or `null`. The outer
/// `None` says that the member is malformed.
fn read_optional_text(doc: &serde_json::Value, key: &str) -> (found: Option<Option<String>>)
    ensures
        match found {
            Some(t) => optional_text_member(json_tree(*doc), key@) == Some(text_view(t)),
            None => optional_text_member(json_tree(*doc), key@) is None,
        },
{
    match present_member(doc, key) {
        Some(value) => match text(value) {
            Some(t) => Some(Some(String::from_str(t))),
            None => None,
        },
        None => Some(None),
    }
}

/// Reads the member `key`, a `u64` that may be missing or `null`. The outer
/// `None` says that the member is malformed.
fn read_optional_u64(doc: &serde_json::Value, key: &str) -> (found: Option<Option<u64>>)
    ensures
        found == optional_u64_member(json_tree(*doc), key@),
{
    match present_member(doc, key) {
        Some(value) => match unsigned(value) {
            Some(n) => Some(Some(n)),
            None => None,
        },
        None => Some(None),
    }
}

/// Reads the member `key`, a `u32` that may be missing or `null`. The outer
/// `None` says that the member is malformed.
fn read_optional_u32(doc: &serde_json::Value, key: &str) -> (found: Option<Option<u32>>)
    ensures
        found == optional_u32_member(json_tree(*doc), key@),
{
    match present_member(doc, key) {
        Some(value) => match unsigned(value) {
            Some(n) => if n <= u32::MAX as u64 {
                Some(Some(n as u32))
            } else {
                None
            },
            None => None,
        },
        None => Some(None),
    }
}

/// Reads the token counts out of the object `doc`.
fn read_usage(doc: &serde_json::Value) -> (found: Option<Usage>)
    ensures
        found == usage_of(json_tree(*doc)),
{
    if !is_object(doc) {
        return None;
    }
    let prompt_tokens = match read_optional_u32(doc, "prompt_tokens") {
        Some(n) => n,
        None => { return None; },
    };
    let completion_tokens = match read_optional_u32(doc, "completion_tokens") {
        Some(n) => n,
        None => { return None; },
    };
    let total_tokens = match read_optional_u32(doc, "total_tokens") {
        Some(n) => n,
        None => { return None; },
    };
    Some(Usage { prompt_tokens, completion_tokens, total_tokens })
}

/// Reads the member `key`, token counts that may be missing or `null`. The
/// outer `None` says that the member is malformed.
fn read_optional_usage(doc: &serde_json::Value, key: &str) -> (found: Option<Option<Usage>>)
    ensures
        found == optional_usage_member(json_tree(*doc), key@),
{
    match present_member(doc, key) {
        Some(value) => match read_usage(value) {
            Some(usage) => Some(Some(usage)),
            None => None,
        },
        None => Some(None),
    }
}

/// Reads one choice: an object whose member `message` holds a message.
fn read_choice(doc: &serde_json::Value) -> (found: Option<ChatChoice>)
    ensures
        match found {
            Some(choice) => choice_of(json_tree(*doc)) == Some(choice@),
            None => choice_of(json_tree(*doc)) is None,
        },
{
    let message = match member(doc, "message") {
        Some(message) => message,
        None => { return None; },
    };
    let role = match read_text(message, "role") {
        Some(role) => role,
        None => { return None; },
    };
    let content = match read_text(message, "content") {
        Some(content) => content,
        None => { return None; },
    };
    Some(ChatChoice { message: ChatMessageResponse { role, content } })
}

/// Reads the member `key`, which must be there and be an array of choices.
fn read_choices(doc: &serde_json::Value, key: &str) -> (found: Option<Vec<ChatChoice>>)
    ensures
        match found {
            Some(choices) => choices_member(json_tree(*doc), key@) == Some(
                choices@.map_values(|c: ChatChoice| c@),
            ),
            None => choices_member(json_tree(*doc), key@) is None,
        },
{
    let list = match member(doc, key) {
        Some(value) => match items(value) {
            Some(list) => list,
            None => { return None; },
        },
        None => { return None; },
    };
    let ghost trees = list@.map_values(|item: serde_json::Value| json_tree(item));
    let mut choices: Vec<ChatChoice> = Vec::new();
    let mut i: usize = 0;
    while i < list.len()
        invariant
            i <= list.len(),
            choices@.len() == i,
            trees == list@.map_values(|item: serde_json::Value| json_tree(item)),
            choices_member(json_tree(*doc), key@) == choices_of(trees),
            forall|j: int| 0 <= j < i ==> (#[trigger] choice_of(trees[j])) == Some(choices@[j]@),
        decreases list.len() - i,
    {
        match read_choice(&list[i]) {
            Some(choice) => {
                choices.push(choice);
            },
            None => {
                assert(choice_of(trees[i as int]) is None);
                return None;
            },
        }
        i += 1;
    }
    assert(choices@.map_values(|c: ChatChoice| c@) =~= Seq::new(
        trees.len(),
        |j: int| choice_of(trees[j])->0,
    ));
    Some(choices)
}

impl ChatResponse {
    /// Reads a response out of a parsed JSON document, as [`response_of`] says.
    pub fn from_value(doc: &serde_json::Value) -> (found: Option<ChatResponse>)
        ensures
            match found {
                Some(response) => response_of(json_tree(*doc)) == Some(response@),
                None => response_of(json_tree(*doc)) is None,
            },
    {
        let id = match read_optional_text(doc, "id") {
            Some(id) => id,
            None => { return None; },
        };
        let object = match read_optional_text(doc, "object") {
            Some(object) => object,
            None => { return None; },
        };
        let created = match read_optional_u64(doc, "created") {
            Some(created) => created,
            None => { return None; },
        };
        let model = match read_text(doc, "model") {
            Some(model) => model,
            None => { return None; },
        };
        let choices = match read_choices(doc, "choices") {
            Some(choices) => choices,
            None => { return None; },
        };
        let usage = match read_optional_usage(doc, "usage") {
            Some(usage) => usage,
            None => { return None; },
        };
        Some(ChatResponse { id, object, created, model, choices, usage })
    }

    /// Decodes a response body: `Ok` exactly where the body is a JSON document
    /// that holds a response, `InvalidResponse` otherwise.
    pub fn from_json(body: &[u8]) -> (outcome: Result<ChatResponse, OllmError>)
        ensures
            match outcome {
                Ok(response) => decoded(body@) == Ok::<ResponseView, ErrorView>(response@),
                Err(error) => decoded(body@) == Err::<ResponseView, ErrorView>(error@),
            },
    {
        match parse(body) {
            Some(doc) => match ChatResponse::from_value(&doc) {
                Some(response) => Ok(response),
                None => Err(OllmError::InvalidResponse),
            },
            None => Err(OllmError::InvalidResponse),
        }
    }
}

/// A response without choices is well formed: an empty array of choices
/// decodes to an empty list, and only the lookup of a first choice fails.
pub proof fn lemma_empty_choices_decode()
    ensures
        choices_of(Seq::empty()) == Some(Seq::<MessageView>::empty()),
{
    assert(Seq::new(0, |i: int| choice_of(Seq::<Json>::empty()[i])->0) =~= Seq::<
        MessageView,
    >::empty());
}

/// The smallest document that holds an answer: an object with the model's
/// name and one choice.
pub open spec fn answer_document(model: Seq<char>, role: Seq<char>, content: Seq<char>) -> Json {
    let message = Json::Object(
        Map::empty().insert("role"@, Json::Text(role)).insert("content"@, Json::Text(content)),
    );
    let choice = Json::Object(Map::empty().insert("message"@, message));
    Json::Object(
        Map::empty().insert("model"@, Json::Text(model)).insert(
            "choices"@,
            Json::Array(seq![choice]),
        ),
    )
}

/// A document with a model's name and one choice decodes to a response with
/// that model and that choice, all optional members missing; its first
/// content is the choice's content.
pub proof fn lemma_answer_document_decodes(model: Seq<char>, role: Seq<char>, content: Seq<char>)
    ensures
        response_of(answer_document(model, role, content)) == Some(
            ResponseView {
                id: None,
                object: None,
                created: None,
                model,
                choices: seq![MessageView { role, content }],
                usage: None,
            },
        ),
        response_of(answer_document(model, role, content))->0.first_content() == Ok::<
            Seq<char>,
            ErrorView,
        >(content),
{
    reveal_strlit("role");
    reveal_strlit("content");
    reveal_strlit("message");
    reveal_strlit("model");
    reveal_strlit("choices");
    reveal_strlit("id");
    reveal_strlit("object");
    reveal_strlit("created");
    reveal_strlit("usage");
    // The names of the members differ from one another.
    assert("role"@.len() == 4 && "content"@.len() == 7);
    assert("id"@.len() == 2 && "object"@.len() == 6 && "model"@.len() == 5 && "choices"@.len()
        == 7);
    assert("created"@[1] != "choices"@[1]);
    assert("usage"@[0] != "model"@[0]);
    let message = MessageView { role, content };
    let items = answer_document(model, role, content).member("choices"@)->0.items()->0;
    assert(choice_of(items[0]) == Some(message));
    assert(Seq::new(items.len(), |i: int| choice_of(items[i])->0) =~= seq![message]);
}

} // verus!

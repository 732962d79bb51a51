//! The chat data model: what is asked of the service and what it answers.
//!
//! How these values are written to and read from JSON is in [`crate::wire`].

use crate::error::{ErrorView, OllmError};
use vstd::prelude::*;

verus! {

/// One message of a conversation, as the caller writes it.
#[derive(Debug)]
pub struct ChatMessage {
    /// Who speaks: by convention "user", "assistant" or "system".
    pub role: String,
    /// What is said.
    pub content: String,
}

/// A message as a pair of texts: the model of both [`ChatMessage`] and
/// [`ChatMessageResponse`].
pub struct MessageView {
    pub role: Seq<char>,
    pub content: Seq<char>,
}

impl View for ChatMessage {
    type V = MessageView;

    open spec fn view(&self) -> MessageView {
        MessageView { role: self.role@, content: self.content@ }
    }
}

impl Clone for ChatMessage {
    /// A copy with the same role and content.
    fn clone(&self) -> (copy: Self)
        ensures
            copy@ == self@,
    {
        ChatMessage { role: self.role.clone(), content: self.content.clone() }
    }
}

/// The body of a chat request.
pub struct ChatRequest {
    pub model: String,
    pub messages: Vec<ChatMessage>,
}

/// The model of a [`ChatRequest`].
pub struct RequestView {
    pub model: Seq<char>,
    pub messages: Seq<MessageView>,
}

impl View for ChatRequest {
    type V = RequestView;

    open spec fn view(&self) -> RequestView {
        RequestView { model: self.model@, messages: self.messages@.map_values(|m: ChatMessage| m@) }
    }
}

/// Token counts the service may report.
#[derive(Debug)]
pub struct Usage {
    pub prompt_tokens: Option<u32>,
    pub completion_tokens: Option<u32>,
    pub total_tokens: Option<u32>,
}

/// A message as the service wrote it.
#[derive(Debug)]
pub struct ChatMessageResponse {
    pub role: String,
    pub content: String,
}

impl View for ChatMessageResponse {
    type V = MessageView;

    open spec fn view(&self) -> MessageView {
        MessageView { role: self.role@, content: self.content@ }
    }
}

/// One candidate reply.
#[derive(Debug)]
pub struct ChatChoice {
    pub message: ChatMessageResponse,
}

impl View for ChatChoice {
    type V = MessageView;

    open spec fn view(&self) -> MessageView {
        self.message@
    }
}

/// What the service answers to a chat request.
#[derive(Debug)]
pub struct ChatResponse {
    pub id: Option<String>,
    pub object: Option<String>,
    pub created: Option<u64>,
    pub model: String,
    pub choices: Vec<ChatChoice>,
    pub usage: Option<Usage>,
}

/// The model of a [`ChatResponse`]: texts as sequences, each choice as its message.
pub struct ResponseView {
    pub id: Option<Seq<char>>,
    pub object: Option<Seq<char>>,
    pub created: Option<u64>,
    pub model: Seq<char>,
    pub choices: Seq<MessageView>,
    pub usage: Option<Usage>,
}

/// The model of an optional text.
pub open spec fn text_view(text: Option<String>) -> Option<Seq<char>> {
    match text {
        Some(t) => Some(t@),
        None => None,
    }
}

impl View for ChatResponse {
    type V = ResponseView;

    open spec fn view(&self) -> ResponseView {
        ResponseView {
            id: text_view(self.id),
            object: text_view(self.object),
            created: self.created,
            model: self.model@,
            choices: self.choices@.map_values(|c: ChatChoice| c@),
            usage: self.usage,
        }
    }
}

impl ResponseView {
    /// The content of the first choice, or `MissingChoice` where there is none.
    pub open spec fn first_content(self) -> Result<Seq<char>, ErrorView> {
        if self.choices.len() > 0 {
            Ok(self.choices[0].content)
        } else {
            Err(ErrorView::MissingChoice)
        }
    }
}

impl ChatResponse {
    /// The content of the first choice, unchanged, or `MissingChoice` where
    /// the response holds no choice.
    pub fn first_content(&self) -> (content: Result<&str, OllmError>)
        ensures
            match content {
                Ok(text) => self@.first_content() == Ok::<Seq<char>, ErrorView>(text@),
                Err(error) => self@.first_content() == Err::<Seq<char>, ErrorView>(error@),
            },
    {
        if self.choices.len() > 0 {
            Ok(self.choices[0].message.content.as_str())
        } else {
            Err(OllmError::MissingChoice)
        }
    }
}

} // verus!

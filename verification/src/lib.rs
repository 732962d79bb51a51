//! Verified core of a client for an OpenAI-compatible chat-completion service.
//!
//! The library holds the model catalogue, the chat data model with its wire
//! format, the error kinds, and the client's decisions. It performs no I/O:
//! [`OllmClient::chat`] hands out the request to send, and
//! [`client::ChatCall::step`] takes what the transport reports.

pub mod chat;
pub mod client;
pub mod error;
pub mod json;
pub mod models;
pub mod numeral;
pub mod wire;

pub use chat::{ChatMessage, ChatResponse};
pub use client::OllmClient;
pub use error::OllmError;
pub use models::Model;

//! A typed client for a remote inference API offering chat completion,
//! speech-to-text and text-to-speech.
//!
//! The wire format of every request body is specified character by
//! character, and the functions that build bodies, choose request paths
//! and classify responses are verified against those specifications.
//! Network transport and raw JSON parsing are delegated to outside
//! crates behind a small set of trusted wrappers.

pub mod client;
pub mod http;
pub mod json_read;
pub mod model;
pub mod response;
pub mod text;
pub mod wire;

pub use client::GroqClient;
pub use http::HttpReply;
pub use model::ChatCompletionChoice;
pub use model::ChatCompletionMessage;
pub use model::ChatCompletionRequest;
pub use model::ChatCompletionResponse;
pub use model::ChatCompletionRoles;
pub use model::GroqError;
pub use model::SpeechToTextRequest;
pub use model::SpeechToTextResponse;
pub use model::TextToSpeechRequest;
pub use model::TextToSpeechResponse;
pub use text::Decimal;

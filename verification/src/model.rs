//! The data model of the client: chat, speech-to-text and text-to-speech
//! requests and responses, and the error taxonomy. All values are plain
//! data; fractional fields are carried as [`Decimal`].

use vstd::prelude::*;
use crate::text::Decimal;

verus! {

/// The role of a chat message author.
#[derive(Clone, Copy, Debug, PartialEq, Eq, Structural)]
pub enum ChatCompletionRoles {
    System,
    User,
    Assistant,
}

/// One chat message: a role, its content, and an optional author name.
#[derive(Clone, Debug, PartialEq, Eq)]
pub struct ChatCompletionMessage {
    pub role: ChatCompletionRoles,
    pub content: String,
    pub name: Option<String>,
}

/// A chat completion request. Optional fields left as `None` are given
/// their documented defaults at serialization time: temperature `1.0`,
/// `max_tokens` 1024, `top_p` `1.0`, `stream` false. `stop` and `seed`
/// are only put on the wire when supplied.
#[derive(Clone, Debug)]
pub struct ChatCompletionRequest {
    pub model: String,
    pub messages: Vec<ChatCompletionMessage>,
    pub temperature: Option<Decimal>,
    pub max_tokens: Option<i64>,
    pub top_p: Option<Decimal>,
    pub stream: Option<bool>,
    pub stop: Option<String>,
    pub seed: Option<i64>,
}

impl ChatCompletionRequest {
    /// A request for `model` over `messages`, every optional field absent.
    pub fn new(model: &str, messages: Vec<ChatCompletionMessage>) -> (r: Self)
        ensures
            r.model@ == model@,
            r.messages == messages,
            r.temperature is None,
            r.max_tokens is None,
            r.top_p is None,
            r.stream is None,
            r.stop is None,
            r.seed is None,
    {
        ChatCompletionRequest {
            model: model.to_owned(),
            messages,
            temperature: None,
            max_tokens: None,
            top_p: None,
            stream: None,
            stop: None,
            seed: None,
        }
    }
}

/// One returned completion choice.
#[derive(Clone, Debug, PartialEq, Eq)]
pub struct ChatCompletionChoice {
    pub message: ChatCompletionMessage,
}

/// The typed envelope of a successful chat completion: zero or more
/// choices, of which callers usually read the first.
#[derive(Clone, Debug, PartialEq, Eq)]
pub struct ChatCompletionResponse {
    pub choices: Vec<ChatCompletionChoice>,
}

/// A speech-to-text request. `file` is sent as an attachment under the
/// fixed name `audio.wav`; `english_text` routes the request to the
/// translation operation instead of transcription and is not itself a
/// form field.
#[derive(Clone, Debug)]
pub struct SpeechToTextRequest {
    pub file: Vec<u8>,
    pub temperature: Option<Decimal>,
    pub language: Option<String>,
    pub model: Option<String>,
    pub prompt: Option<String>,
    pub english_text: bool,
}

impl SpeechToTextRequest {
    /// A transcription request for `file`, every optional field absent.
    pub fn new(file: Vec<u8>) -> (r: Self)
        ensures
            r.file == file,
            r.temperature is None,
            r.language is None,
            r.model is None,
            r.prompt is None,
            r.english_text == false,
    {
        SpeechToTextRequest {
            file,
            temperature: None,
            language: None,
            model: None,
            prompt: None,
            english_text: false,
        }
    }

    /// The same request with `temperature` set.
    pub fn temperature(self, temperature: Decimal) -> (r: Self)
        ensures
            r.temperature == Some(temperature),
            r.file == self.file,
            r.language == self.language,
            r.model == self.model,
            r.prompt == self.prompt,
            r.english_text == self.english_text,
    {
        SpeechToTextRequest { temperature: Some(temperature), ..self }
    }

    /// The same request with `language` set.
    pub fn language(self, language: &str) -> (r: Self)
        ensures
            r.language matches Some(l) && l@ == language@,
            r.file == self.file,
            r.temperature == self.temperature,
            r.model == self.model,
            r.prompt == self.prompt,
            r.english_text == self.english_text,
    {
        SpeechToTextRequest { language: Some(language.to_owned()), ..self }
    }

    /// The same request with `model` set.
    pub fn model(self, model: &str) -> (r: Self)
        ensures
            r.model matches Some(m) && m@ == model@,
            r.file == self.file,
            r.temperature == self.temperature,
            r.language == self.language,
            r.prompt == self.prompt,
            r.english_text == self.english_text,
    {
        SpeechToTextRequest { model: Some(model.to_owned()), ..self }
    }

    /// The same request with `prompt` set.
    pub fn prompt(self, prompt: &str) -> (r: Self)
        ensures
            r.prompt matches Some(p) && p@ == prompt@,
            r.file == self.file,
            r.temperature == self.temperature,
            r.language == self.language,
            r.model == self.model,
            r.english_text == self.english_text,
    {
        SpeechToTextRequest { prompt: Some(prompt.to_owned()), ..self }
    }

    /// The same request routed to translation (`true`) or transcription.
    pub fn english_text(self, english_text: bool) -> (r: Self)
        ensures
            r.english_text == english_text,
            r.file == self.file,
            r.temperature == self.temperature,
            r.language == self.language,
            r.model == self.model,
            r.prompt == self.prompt,
    {
        SpeechToTextRequest { english_text, ..self }
    }
}

/// The typed envelope of a successful transcription or translation.
/// Only `text` is retained: the envelope may carry further members,
/// which decoding tolerates and deliberately drops.
#[derive(Clone, Debug, PartialEq, Eq)]
pub struct SpeechToTextResponse {
    pub text: String,
}

/// A text-to-speech request. `speed` left as `None` defaults to `1.0`
/// at serialization time.
#[derive(Clone, Debug)]
pub struct TextToSpeechRequest {
    pub model: String,
    pub input: String,
    pub voice: String,
    pub speed: Option<Decimal>,
}

impl TextToSpeechRequest {
    /// A synthesis request, `speed` absent.
    pub fn new(model: &str, input: &str, voice: &str) -> (r: Self)
        ensures
            r.model@ == model@,
            r.input@ == input@,
            r.voice@ == voice@,
            r.speed is None,
    {
        TextToSpeechRequest {
            model: model.to_owned(),
            input: input.to_owned(),
            voice: voice.to_owned(),
            speed: None,
        }
    }
}

/// The successful result of text-to-speech: the response body taken
/// byte for byte, with no JSON parsing attempted.
#[derive(Clone, Debug, PartialEq, Eq)]
pub struct TextToSpeechResponse {
    pub audio_data: Vec<u8>,
}

/// The error taxonomy of the client.
#[derive(Clone, Debug, PartialEq, Eq)]
pub enum GroqError {
    /// The remote service answered with a non-success status. `message`
    /// and `type_` come from the service's error envelope when it has
    /// one, and otherwise fall back as the response parser specifies.
    ApiError { message: String, type_: String },
    /// The transport call itself failed before any status was obtained.
    TransportError { detail: String },
    /// The status was a success but the body did not match the expected
    /// typed shape.
    DeserializationError { detail: String },
}

} // verus!

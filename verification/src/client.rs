//! The blocking client: each operation builds its verified wire shape,
//! performs exactly one transport attempt, and routes the completed
//! exchange through the shared response parser. The client holds only
//! immutable configuration and a reusable transport handle.

use vstd::prelude::*;
use crate::http::form_file;
use crate::http::form_new;
use crate::http::form_text;
use crate::http::form_file_parts;
use crate::http::form_text_fields;
use crate::http::new_transport;
use crate::http::post_json;
use crate::http::post_multipart;
use crate::model::ChatCompletionRequest;
use crate::model::ChatCompletionResponse;
use crate::model::GroqError;
use crate::model::SpeechToTextRequest;
use crate::model::SpeechToTextResponse;
use crate::model::TextToSpeechRequest;
use crate::model::TextToSpeechResponse;
use crate::response::chat_reply_model;
use crate::response::interpret_chat_reply;
use crate::response::interpret_speech_to_text_reply;
use crate::response::interpret_text_to_speech_reply;
use crate::response::speech_to_text_reply_model;
use crate::response::text_to_speech_reply_model;
use crate::wire::chat_completion_body;
use crate::wire::join_url;
use crate::wire::speech_to_text_fields;
use crate::wire::speech_to_text_path;
use crate::wire::stt_text_fields;
use crate::wire::text_to_speech_body;

verus! {

/// Builds the multipart form of a speech-to-text request: the audio
/// bytes as the single attachment, under field name `file` with the
/// fixed file name `audio.wav`, then the optional text fields in wire
/// order.
pub fn speech_to_text_form(request: SpeechToTextRequest) -> (f:
    reqwest::blocking::multipart::Form)
    ensures
        form_file_parts(f) == seq![("file"@, "audio.wav"@, request.file@)],
        form_text_fields(f) == stt_text_fields(request),
{
    let fields = speech_to_text_fields(&request);
    let mut f = form_new();
    f = form_file(f, "file".to_owned(), "audio.wav".to_owned(), request.file);
    proof {
        assert(form_file_parts(f) =~= seq![("file"@, "audio.wav"@, request.file@)]);
    }
    let n = fields.len();
    let mut i: usize = 0;
    while i < n
        invariant
            i <= n,
            n == fields@.len(),
            fields@.map_values(|p: (String, String)| (p.0@, p.1@)) == stt_text_fields(request),
            form_text_fields(f) == stt_text_fields(request).take(i as int),
            form_file_parts(f) == seq![("file"@, "audio.wav"@, request.file@)],
        decreases n - i,
    {
        let pair = &fields[i];
        f = form_text(f, pair.0.clone(), pair.1.clone());
        proof {
            assert(stt_text_fields(request).take(i as int + 1) =~= stt_text_fields(
                request,
            ).take(i as int).push(stt_text_fields(request)[i as int]));
            assert(fields@.map_values(|p: (String, String)| (p.0@, p.1@))[i as int] == (
                fields@[i as int].0@,
                fields@[i as int].1@,
            ));
        }
        i += 1;
    }
    proof {
        assert(stt_text_fields(request).take(n as int) =~= stt_text_fields(request));
    }
    f
}

/// What one chat completion attempt may return: a transport failure's
/// description, or exactly what some completed exchange owes per
/// `chat_reply_model`. The network decides which exchange; nothing
/// else can be promised of it.
pub open spec fn chat_completion_outcome(r: Result<ChatCompletionResponse, GroqError>) -> bool {
    ||| r matches Err(e) && e is TransportError
    ||| exists|status: u16, body: Seq<u8>| chat_reply_model(r, status, body)
}

/// What one speech-to-text attempt may return: a transport failure's
/// description, or exactly what some completed exchange owes per
/// `speech_to_text_reply_model`.
pub open spec fn speech_to_text_outcome(r: Result<SpeechToTextResponse, GroqError>) -> bool {
    ||| r matches Err(e) && e is TransportError
    ||| exists|status: u16, body: Seq<u8>| speech_to_text_reply_model(r, status, body)
}

/// What one text-to-speech attempt may return: a transport failure's
/// description, or exactly what some completed exchange owes per
/// `text_to_speech_reply_model`.
pub open spec fn text_to_speech_outcome(r: Result<TextToSpeechResponse, GroqError>) -> bool {
    ||| r matches Err(e) && e is TransportError
    ||| exists|status: u16, body: Seq<u8>| text_to_speech_reply_model(r, status, body)
}

/// A blocking client for the remote inference API. It holds the API
/// key, the base endpoint and a reusable transport handle, all fixed at
/// construction; each operation fully occupies the calling thread for
/// one attempt, with no retry.
pub struct GroqClient {
    api_key: String,
    endpoint: String,
    client: reqwest::blocking::Client,
}

impl GroqClient {
    /// The configured API key.
    pub closed spec fn api_key_spec(&self) -> Seq<char> {
        self.api_key@
    }

    /// The configured base endpoint.
    pub closed spec fn endpoint_spec(&self) -> Seq<char> {
        self.endpoint@
    }

    /// A client for the given key. The endpoint defaults to the
    /// service's canonical base URL when absent; construction performs
    /// no network I/O.
    pub fn new(api_key: String, endpoint: Option<String>) -> (c: GroqClient)
        ensures
            c.api_key_spec() == api_key@,
            endpoint matches Some(e) ==> c.endpoint_spec() == e@,
            endpoint is None ==> c.endpoint_spec() == "https://api.groq.com/openai/v1"@,
    {
        let ep = match endpoint {
            Some(e) => e,
            None => "https://api.groq.com/openai/v1".to_owned(),
        };
        GroqClient { api_key, endpoint: ep, client: new_transport() }
    }

    /// One chat completion attempt: the verified JSON body of `request`
    /// is posted to `/chat/completions` under the configured endpoint,
    /// and the completed exchange is classified by the shared response
    /// parser; a failure of the transport itself is `TransportError`.
    pub fn chat_completion(&self, request: ChatCompletionRequest) -> (r: Result<
        ChatCompletionResponse,
        GroqError,
    >)
        ensures
            chat_completion_outcome(r),
    {
        let body = chat_completion_body(&request);
        let url = join_url(self.endpoint.as_str(), "/chat/completions");
        match post_json(&self.client, url.as_str(), self.api_key.as_str(), body) {
            Err(detail) => Err(GroqError::TransportError { detail }),
            Ok(reply) => {
                let r = interpret_chat_reply(&reply);
                proof {
                    assert(chat_reply_model(r, reply.status, reply.body@));
                }
                r
            },
        }
    }

    /// One transcription or translation attempt: the verified multipart
    /// form of `request` is posted to the path that `english_text`
    /// selects, and the completed exchange is classified by the shared
    /// response parser; a failure of the transport itself is
    /// `TransportError`.
    pub fn speech_to_text(&self, request: SpeechToTextRequest) -> (r: Result<
        SpeechToTextResponse,
        GroqError,
    >)
        ensures
            speech_to_text_outcome(r),
    {
        let path = speech_to_text_path(request.english_text);
        let url = join_url(self.endpoint.as_str(), path);
        let form = speech_to_text_form(request);
        match post_multipart(&self.client, url.as_str(), self.api_key.as_str(), form) {
            Err(detail) => Err(GroqError::TransportError { detail }),
            Ok(reply) => {
                let r = interpret_speech_to_text_reply(&reply);
                proof {
                    assert(speech_to_text_reply_model(r, reply.status, reply.body@));
                }
                r
            },
        }
    }

    /// One synthesis attempt: the verified JSON body of `request` is
    /// posted to `/audio/speech` under the configured endpoint. A
    /// success reply's body is returned byte for byte; a failure of the
    /// transport itself is `TransportError`.
    pub fn text_to_speech(&self, request: TextToSpeechRequest) -> (r: Result<
        TextToSpeechResponse,
        GroqError,
    >)
        ensures
            text_to_speech_outcome(r),
    {
        let body = text_to_speech_body(&request);
        let url = join_url(self.endpoint.as_str(), "/audio/speech");
        match post_json(&self.client, url.as_str(), self.api_key.as_str(), body) {
            Err(detail) => Err(GroqError::TransportError { detail }),
            Ok(reply) => {
                let ghost gstatus = reply.status;
                let ghost gbody = reply.body@;
                let r = interpret_text_to_speech_reply(reply);
                proof {
                    assert(text_to_speech_reply_model(r, gstatus, gbody));
                }
                r
            },
        }
    }
}

} // verus!

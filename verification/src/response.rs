//! The shared response parser: status classification, the error
//! envelope with its documented fallbacks, and the typed decoding of
//! each operation's successful body. Everything an operation returns
//! for a completed exchange is stated as a function of the status code
//! and the raw body bytes, over the named accessor results of
//! `json_read`; only the raw JSON accessors themselves are trusted.

use vstd::prelude::*;
use crate::http::HttpReply;
use crate::json_read::array_docs;
use crate::json_read::doc_of_value;
use crate::json_read::json_as_array;
use crate::json_read::json_as_str;
use crate::json_read::json_get;
use crate::json_read::json_parse;
use crate::json_read::member_doc;
use crate::json_read::parsed_doc;
use crate::json_read::str_doc;
use crate::model::ChatCompletionChoice;
use crate::model::ChatCompletionMessage;
use crate::model::ChatCompletionResponse;
use crate::model::ChatCompletionRoles;
use crate::model::GroqError;
use crate::model::SpeechToTextResponse;
use crate::model::TextToSpeechResponse;
use crate::text::dec_digits;
use crate::text::push_u64;

verus! {

/// Whether an HTTP status code reports success.
pub open spec fn is_success_status(status: u16) -> bool {
    200 <= status < 300
}

/// Whether an HTTP status code reports success.
pub fn status_is_success(status: u16) -> (b: bool)
    ensures
        b == is_success_status(status),
{
    200 <= status && status < 300
}

/// The message synthesized when a non-success body carries no readable
/// error envelope: the words below, then the status code in decimal.
pub open spec fn status_code_message(status: u16) -> Seq<char> {
    "Request failed with status code: "@ + dec_digits(status as nat)
}

/// Builds the synthesized status-code message.
pub fn make_status_code_message(status: u16) -> (s: String)
    ensures
        s@ == status_code_message(status),
{
    let mut out = "Request failed with status code: ".to_owned();
    push_u64(&mut out, status as u64);
    out
}

/// The content of an optional extracted string.
pub open spec fn opt_view(o: Option<String>) -> Option<Seq<char>> {
    match o {
        Some(s) => Some(s@),
        None => None,
    }
}

/// The string content of the document an optional member names, `None`
/// when the member is absent or not a string.
pub open spec fn opt_str(d: Option<Seq<char>>) -> Option<Seq<char>> {
    match d {
        Some(t) => str_doc(t),
        None => None,
    }
}

/// An extracted error envelope: the `message` and `type` string
/// contents, each where present.
pub type EnvelopeModel = Option<(Option<Seq<char>>, Option<Seq<char>>)>;

/// The error envelope that body `bytes` carry: `None` when the bytes
/// are not JSON or the document has no `error` member; otherwise the
/// `error` object's `message` and `type` string contents where present.
pub open spec fn envelope_model(bytes: Seq<u8>) -> EnvelopeModel {
    match parsed_doc(bytes) {
        None => None,
        Some(doc) => match member_doc(doc, "error"@) {
            None => None,
            Some(err) => Some(
                (opt_str(member_doc(err, "message"@)), opt_str(member_doc(err, "type"@))),
            ),
        },
    }
}

/// The `error` object found in a non-success response body, as far as
/// it was readable: its `message` and `type` members when they were
/// strings.
pub struct ApiErrorEnvelope {
    pub message: Option<String>,
    pub type_: Option<String>,
}

/// The content of an optional extracted envelope.
pub open spec fn env_view(env: Option<ApiErrorEnvelope>) -> EnvelopeModel {
    match env {
        Some(e) => Some((opt_view(e.message), opt_view(e.type_))),
        None => None,
    }
}

/// The message and type of the `ApiError` owed for `status` given the
/// envelope `env`: the envelope's fields with the documented fallbacks
/// (`"Unknown error"` / `"unknown_error"`) when an envelope was there,
/// and the synthesized status-code message with type `"request_error"`
/// when none was.
pub open spec fn api_error_spec(status: u16, env: EnvelopeModel) -> (Seq<char>, Seq<char>) {
    match env {
        Some(e) => (
            match e.0 {
                Some(m) => m,
                None => "Unknown error"@,
            },
            match e.1 {
                Some(t) => t,
                None => "unknown_error"@,
            },
        ),
        None => (status_code_message(status), "request_error"@),
    }
}

/// Whether `e` is exactly the `ApiError` owed for `status` and the
/// envelope `env`.
pub open spec fn api_error_matches(e: GroqError, status: u16, env: EnvelopeModel) -> bool {
    e matches GroqError::ApiError { message, type_ } && message@ == api_error_spec(status, env).0
        && type_@ == api_error_spec(status, env).1
}

/// Builds the `ApiError` owed for `status` and the extracted envelope.
pub fn api_error_for(status: u16, env: Option<ApiErrorEnvelope>) -> (e: GroqError)
    ensures
        api_error_matches(e, status, env_view(env)),
{
    match env {
        Some(envelope) => {
            let message = match envelope.message {
                Some(m) => m,
                None => "Unknown error".to_owned(),
            };
            let type_ = match envelope.type_ {
                Some(t) => t,
                None => "unknown_error".to_owned(),
            };
            GroqError::ApiError { message, type_ }
        },
        None => GroqError::ApiError {
            message: make_status_code_message(status),
            type_: "request_error".to_owned(),
        },
    }
}

/// The string content of member `key` of `v`, `None` when the member
/// is absent or not a string.
fn member_str(v: &serde_json::Value, key: &str) -> (r: Option<String>)
    ensures
        opt_view(r) == opt_str(member_doc(doc_of_value(*v), key@)),
{
    match json_get(v, key) {
        Some(m) => json_as_str(m),
        None => None,
    }
}

/// Looks for an `error` object in raw body bytes: exactly the envelope
/// that `envelope_model` names for them.
fn envelope_of(body: &[u8]) -> (r: Option<ApiErrorEnvelope>)
    ensures
        env_view(r) == envelope_model(body@),
{
    match json_parse(body) {
        None => None,
        Some(v) => match json_get(&v, "error") {
            None => None,
            Some(err) => Some(
                ApiErrorEnvelope {
                    message: member_str(err, "message"),
                    type_: member_str(err, "type"),
                },
            ),
        },
    }
}

/// The `ApiError` owed for a non-success `status` with raw body
/// `body`: envelope extraction and the documented fallbacks, in the
/// one place every operation routes its error branch through.
pub fn api_error_from_body(status: u16, body: &[u8]) -> (e: GroqError)
    ensures
        api_error_matches(e, status, envelope_model(body@)),
{
    let env = envelope_of(body);
    api_error_for(status, env)
}

/// Classifies a completed exchange for a JSON-returning operation. A
/// success status hands the parsed body back for typed decoding, and
/// reports `DeserializationError` exactly when the body is not JSON.
/// Any other status yields the `ApiError` owed for its envelope.
pub fn parse_reply(reply: &HttpReply) -> (r: Result<serde_json::Value, GroqError>)
    ensures
        !is_success_status(reply.status) ==> (r matches Err(e) && api_error_matches(
            e,
            reply.status,
            envelope_model(reply.body@),
        )),
        is_success_status(reply.status) ==> ((r is Ok) <==> parsed_doc(reply.body@) is Some),
        is_success_status(reply.status) ==> (r matches Ok(v) ==> Some(doc_of_value(v))
            == parsed_doc(reply.body@)),
        is_success_status(reply.status) ==> (r matches Err(e) ==> (e
            matches GroqError::DeserializationError { detail } && detail@
            == "the response body is not valid JSON"@)),
{
    if status_is_success(reply.status) {
        match json_parse(reply.body.as_slice()) {
            Some(v) => Ok(v),
            None => Err(
                GroqError::DeserializationError {
                    detail: "the response body is not valid JSON".to_owned(),
                },
            ),
        }
    } else {
        Err(api_error_from_body(reply.status, reply.body.as_slice()))
    }
}

/// The chat role a wire string names, `None` for any other string.
pub open spec fn role_model(s: Seq<char>) -> Option<ChatCompletionRoles> {
    if s == "system"@ {
        Some(ChatCompletionRoles::System)
    } else if s == "user"@ {
        Some(ChatCompletionRoles::User)
    } else if s == "assistant"@ {
        Some(ChatCompletionRoles::Assistant)
    } else {
        None
    }
}

/// The chat role named by a wire string, `None` for any other string.
pub fn role_from_wire(s: &String) -> (r: Option<ChatCompletionRoles>)
    ensures
        r == role_model(s@),
{
    proof {
        reveal_strlit("system");
        reveal_strlit("user");
        reveal_strlit("assistant");
        assert("system"@.len() == 6);
        assert("user"@.len() == 4);
        assert("assistant"@.len() == 9);
        assert("system"@ != "user"@);
        assert("system"@ != "assistant"@);
        assert("user"@ != "assistant"@);
    }
    let system: String = "system".to_owned();
    let user: String = "user".to_owned();
    let assistant: String = "assistant".to_owned();
    if *s == system {
        Some(ChatCompletionRoles::System)
    } else if *s == user {
        Some(ChatCompletionRoles::User)
    } else if *s == assistant {
        Some(ChatCompletionRoles::Assistant)
    } else {
        None
    }
}

/// A decoded chat message: role, content, optional author name.
pub type MessageModel = (ChatCompletionRoles, Seq<char>, Option<Seq<char>>);

/// The content of a chat message value.
pub open spec fn message_view(m: ChatCompletionMessage) -> MessageModel {
    (
        m.role,
        m.content@,
        match m.name {
            Some(n) => Some(n@),
            None => None,
        },
    )
}

/// What one member of `choices` decodes to: its `message` object's
/// `role` (which must name a known role) and `content` (which must be
/// a string), with `name` kept when it is a string; `None` when the
/// member does not match that shape.
pub open spec fn choice_model(doc: Seq<char>) -> Option<MessageModel> {
    match member_doc(doc, "message"@) {
        None => None,
        Some(msg) => {
            let role = opt_str(member_doc(msg, "role"@));
            let content = opt_str(member_doc(msg, "content"@));
            let name = opt_str(member_doc(msg, "name"@));
            match (role, content) {
                (Some(rs), Some(c)) => match role_model(rs) {
                    Some(r) => Some((r, c, name)),
                    None => None,
                },
                _ => None,
            }
        },
    }
}

/// What a success chat body decodes to: the `choices` member must be
/// an array and every member must decode; `None` when the bytes are
/// not JSON or any step fails.
pub open spec fn chat_choices_model(bytes: Seq<u8>) -> Option<Seq<MessageModel>> {
    match parsed_doc(bytes) {
        None => None,
        Some(doc) => match member_doc(doc, "choices"@) {
            None => None,
            Some(cs) => match array_docs(cs) {
                None => None,
                Some(items) => if forall|j: int|
                    0 <= j < items.len() ==> (#[trigger] choice_model(items[j])) is Some {
                    Some(Seq::new(items.len(), |j: int| choice_model(items[j])->Some_0))
                } else {
                    None
                },
            },
        },
    }
}

/// Everything a completed chat exchange owes: the envelope-derived
/// `ApiError` on a non-success status; on a success status, the decoded
/// choices exactly when the body matches the expected shape, and
/// `DeserializationError` exactly when it does not.
pub open spec fn chat_reply_model(
    r: Result<ChatCompletionResponse, GroqError>,
    status: u16,
    body: Seq<u8>,
) -> bool {
    &&& !is_success_status(status) ==> (r matches Err(e) && api_error_matches(
        e,
        status,
        envelope_model(body),
    ))
    &&& is_success_status(status) ==> {
        &&& (r is Ok) <==> chat_choices_model(body) is Some
        &&& r matches Ok(resp) ==> Some(
            resp.choices@.map_values(|c: ChatCompletionChoice| message_view(c.message)),
        ) == chat_choices_model(body)
        &&& r matches Err(e) ==> e is DeserializationError
    }
}

/// Decodes one member of `choices`: exactly what `choice_model` names
/// for its document.
fn decode_choice(v: &serde_json::Value) -> (r: Option<ChatCompletionChoice>)
    ensures
        (r is Some) <==> choice_model(doc_of_value(*v)) is Some,
        r matches Some(c) ==> Some(message_view(c.message)) == choice_model(doc_of_value(*v)),
{
    match json_get(v, "message") {
        None => None,
        Some(m) => {
            let role_str = member_str(m, "role");
            let content = member_str(m, "content");
            let name = member_str(m, "name");
            match (role_str, content) {
                (Some(rs), Some(content)) => match role_from_wire(&rs) {
                    Some(role) => Some(
                        ChatCompletionChoice {
                            message: ChatCompletionMessage { role, content, name },
                        },
                    ),
                    None => None,
                },
                _ => None,
            }
        },
    }
}

/// Interprets a completed chat completion exchange: exactly what
/// `chat_reply_model` owes for its status and body.
pub fn interpret_chat_reply(reply: &HttpReply) -> (r: Result<ChatCompletionResponse, GroqError>)
    ensures
        chat_reply_model(r, reply.status, reply.body@),
{
    let v = match parse_reply(reply) {
        Err(e) => {
            return Err(e);
        },
        Ok(v) => v,
    };
    let cs = match json_get(&v, "choices") {
        None => {
            return Err(
                GroqError::DeserializationError {
                    detail: "the response carries no choices member".to_owned(),
                },
            );
        },
        Some(cs) => cs,
    };
    let arr = match json_as_array(cs) {
        None => {
            return Err(
                GroqError::DeserializationError {
                    detail: "the choices member is not an array".to_owned(),
                },
            );
        },
        Some(arr) => arr,
    };
    let ghost items = array_docs(doc_of_value(*cs))->Some_0;
    proof {
        assert(items == arr@.map_values(|m: serde_json::Value| doc_of_value(m)));
        assert(items.len() == arr@.len());
    }
    let mut choices: Vec<ChatCompletionChoice> = Vec::new();
    let n = arr.len();
    let mut i: usize = 0;
    while i < n
        invariant
            is_success_status(reply.status),
            parsed_doc(reply.body@) == Some(doc_of_value(v)),
            member_doc(doc_of_value(v), "choices"@) == Some(doc_of_value(*cs)),
            array_docs(doc_of_value(*cs)) == Some(items),
            items == arr@.map_values(|m: serde_json::Value| doc_of_value(m)),
            n == arr@.len(),
            i <= n,
            forall|j: int| 0 <= j < i ==> (#[trigger] choice_model(items[j])) is Some,
            choices@.map_values(|c: ChatCompletionChoice| message_view(c.message)) == Seq::new(
                i as nat,
                |j: int| choice_model(items[j])->Some_0,
            ),
        decreases n - i,
    {
        let ghost prev = choices@;
        match decode_choice(&arr[i]) {
            None => {
                proof {
                    assert(choice_model(items[i as int]) is None);
                    assert(chat_choices_model(reply.body@) is None);
                }
                return Err(
                    GroqError::DeserializationError {
                        detail: "a choice does not match the expected shape".to_owned(),
                    },
                );
            },
            Some(c) => {
                choices.push(c);
                proof {
                    assert(choices@.map_values(|ch: ChatCompletionChoice| message_view(ch.message))
                        =~= prev.map_values(|ch: ChatCompletionChoice| message_view(ch.message))
                        .push(message_view(c.message)));
                    assert(choices@.map_values(|ch: ChatCompletionChoice| message_view(ch.message))
                        =~= Seq::new((i + 1) as nat, |j: int| choice_model(items[j])->Some_0));
                }
            },
        }
        i += 1;
    }
    proof {
        assert(chat_choices_model(reply.body@) == Some(
            Seq::new(items.len(), |j: int| choice_model(items[j])->Some_0),
        ));
        assert(choices@.map_values(|c: ChatCompletionChoice| message_view(c.message)) =~= Seq::new(
            items.len(),
            |j: int| choice_model(items[j])->Some_0,
        ));
    }
    Ok(ChatCompletionResponse { choices })
}

/// What a success transcription body decodes to: the `text` member's
/// string content; `None` when the bytes are not JSON or the member is
/// absent or not a string.
pub open spec fn stt_text_model(bytes: Seq<u8>) -> Option<Seq<char>> {
    match parsed_doc(bytes) {
        None => None,
        Some(doc) => opt_str(member_doc(doc, "text"@)),
    }
}

/// Everything a completed transcription or translation exchange owes:
/// the envelope-derived `ApiError` on a non-success status; on a
/// success status, the body's `text` exactly when it carries one, and
/// `DeserializationError` exactly when it does not.
pub open spec fn speech_to_text_reply_model(
    r: Result<SpeechToTextResponse, GroqError>,
    status: u16,
    body: Seq<u8>,
) -> bool {
    &&& !is_success_status(status) ==> (r matches Err(e) && api_error_matches(
        e,
        status,
        envelope_model(body),
    ))
    &&& is_success_status(status) ==> {
        &&& (r is Ok) <==> stt_text_model(body) is Some
        &&& r matches Ok(resp) ==> Some(resp.text@) == stt_text_model(body)
        &&& r matches Err(e) ==> e is DeserializationError
    }
}

/// Interprets a completed transcription or translation exchange:
/// exactly what `speech_to_text_reply_model` owes for its status and
/// body.
pub fn interpret_speech_to_text_reply(reply: &HttpReply) -> (r: Result<
    SpeechToTextResponse,
    GroqError,
>)
    ensures
        speech_to_text_reply_model(r, reply.status, reply.body@),
{
    let v = match parse_reply(reply) {
        Err(e) => {
            return Err(e);
        },
        Ok(v) => v,
    };
    match member_str(&v, "text") {
        Some(text) => Ok(SpeechToTextResponse { text }),
        None => Err(
            GroqError::DeserializationError {
                detail: "the response carries no text string".to_owned(),
            },
        ),
    }
}

/// Everything a completed text-to-speech exchange owes: the body byte
/// for byte on a success status, and the envelope-derived `ApiError`
/// on any other status.
pub open spec fn text_to_speech_reply_model(
    r: Result<TextToSpeechResponse, GroqError>,
    status: u16,
    body: Seq<u8>,
) -> bool {
    &&& is_success_status(status) ==> (r matches Ok(resp) && resp.audio_data@ == body)
    &&& !is_success_status(status) ==> (r matches Err(e) && api_error_matches(
        e,
        status,
        envelope_model(body),
    ))
}

/// Interprets a completed text-to-speech exchange. A success status
/// returns the body byte for byte, unparsed and unmodified; any other
/// status yields the `ApiError` owed for its envelope.
pub fn interpret_text_to_speech_reply(reply: HttpReply) -> (r: Result<
    TextToSpeechResponse,
    GroqError,
>)
    ensures
        text_to_speech_reply_model(r, reply.status, reply.body@),
{
    if status_is_success(reply.status) {
        Ok(TextToSpeechResponse { audio_data: reply.body })
    } else {
        Err(api_error_from_body(reply.status, reply.body.as_slice()))
    }
}

} // verus!

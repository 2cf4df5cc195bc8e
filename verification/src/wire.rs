//! Wire-shape construction: the JSON bodies, multipart text fields and
//! request paths of the three operations, each specified character by
//! character and each builder proved to produce exactly that text.

use vstd::prelude::*;
use vstd::string::StringExecFns;
use crate::text::Decimal;
use crate::text::decimal_digits;
use crate::text::esc_str;
use crate::text::int_digits;
use crate::text::lemma_esc_str_push;
use crate::text::push_decimal;
use crate::text::push_i64;
use crate::text::push_json_escaped;
use crate::model::ChatCompletionMessage;
use crate::model::ChatCompletionRequest;
use crate::model::ChatCompletionRoles;
use crate::model::SpeechToTextRequest;
use crate::model::TextToSpeechRequest;

verus! {

/// The wire name of a chat role.
pub open spec fn role_str(r: ChatCompletionRoles) -> Seq<char> {
    match r {
        ChatCompletionRoles::System => "system"@,
        ChatCompletionRoles::User => "user"@,
        ChatCompletionRoles::Assistant => "assistant"@,
    }
}

/// The wire name of a chat role.
pub fn role_to_str(r: ChatCompletionRoles) -> (s: &'static str)
    ensures
        s@ == role_str(r),
{
    match r {
        ChatCompletionRoles::System => "system",
        ChatCompletionRoles::User => "user",
        ChatCompletionRoles::Assistant => "assistant",
    }
}

/// The wire form of one chat message: a JSON object holding `role` and
/// `content`, and `name` only when it is present.
pub open spec fn message_json(m: ChatCompletionMessage) -> Seq<char> {
    let base = "{\"role\":\""@ + role_str(m.role) + "\",\"content\":\""@ + esc_str(m.content@)
        + "\""@;
    match m.name {
        Some(n) => base + ",\"name\":\""@ + esc_str(n@) + "\""@ + "}"@,
        None => base + "}"@,
    }
}

/// A message whose `name` is absent serializes without any `name` key:
/// its wire form is exactly the two-field role/content object.
pub proof fn lemma_message_name_omitted(m: ChatCompletionMessage)
    requires
        m.name is None,
    ensures
        message_json(m) == "{\"role\":\""@ + role_str(m.role) + "\",\"content\":\""@ + esc_str(
            m.content@,
        ) + "\"}"@,
{
    reveal_strlit("\"");
    reveal_strlit("}");
    reveal_strlit("\"}");
    assert(message_json(m) =~= "{\"role\":\""@ + role_str(m.role) + "\",\"content\":\""@
        + esc_str(m.content@) + "\"}"@);
}

/// Appends the wire form of `m` to `out`.
pub fn push_message_json(out: &mut String, m: &ChatCompletionMessage)
    ensures
        final(out)@ == old(out)@ + message_json(*m),
{
    out.append("{\"role\":\"");
    out.append(role_to_str(m.role));
    out.append("\",\"content\":\"");
    push_json_escaped(out, m.content.as_str());
    out.append("\"");
    match &m.name {
        Some(n) => {
            out.append(",\"name\":\"");
            push_json_escaped(out, n.as_str());
            out.append("\"");
            out.append("}");
        },
        None => {
            out.append("}");
        },
    }
    proof {
        assert(final(out)@ =~= old(out)@ + message_json(*m));
    }
}

/// The wire form of a message sequence: the members in order, separated
/// by commas.
pub open spec fn messages_json(ms: Seq<ChatCompletionMessage>) -> Seq<char>
    decreases ms.len(),
{
    if ms.len() == 0 {
        Seq::empty()
    } else if ms.len() == 1 {
        message_json(ms[0])
    } else {
        message_json(ms[0]) + ","@ + messages_json(ms.drop_first())
    }
}

/// Serializing a message sequence extended by one message appends a
/// comma (when the sequence was not empty) and that message's wire form.
pub proof fn lemma_messages_json_push(ms: Seq<ChatCompletionMessage>, m: ChatCompletionMessage)
    ensures
        messages_json(ms.push(m)) == if ms.len() == 0 {
            message_json(m)
        } else {
            messages_json(ms) + ","@ + messages_json(seq![m])
        },
    decreases ms.len(),
{
    assert(messages_json(seq![m]) == message_json(seq![m][0]));
    assert(seq![m][0] == m);
    if ms.len() == 0 {
        assert(ms.push(m) =~= seq![m]);
    } else {
        assert(ms.push(m)[0] == ms[0]);
        assert(ms.push(m).drop_first() =~= ms.drop_first().push(m));
        lemma_messages_json_push(ms.drop_first(), m);
        assert(messages_json(ms.push(m)) =~= messages_json(ms) + ","@ + message_json(m));
    }
}

/// Appends the comma-separated wire forms of `ms` to `out`.
pub fn push_messages_json(out: &mut String, ms: &Vec<ChatCompletionMessage>)
    ensures
        final(out)@ == old(out)@ + messages_json(ms@),
{
    let mut i: usize = 0;
    while i < ms.len()
        invariant
            i <= ms@.len(),
            out@ == old(out)@ + messages_json(ms@.take(i as int)),
        decreases ms@.len() - i,
    {
        if i > 0 {
            out.append(",");
        }
        push_message_json(out, &ms[i]);
        proof {
            assert(ms@.take(i as int + 1) =~= ms@.take(i as int).push(ms@[i as int]));
            lemma_messages_json_push(ms@.take(i as int), ms@[i as int]);
            assert(messages_json(seq![ms@[i as int]]) == message_json(ms@[i as int]));
            assert(out@ =~= old(out)@ + messages_json(ms@.take(i as int + 1)));
        }
        i += 1;
    }
    proof {
        assert(ms@.take(ms@.len() as int) =~= ms@);
    }
}

/// The value of an optional decimal field once its default is applied.
pub open spec fn opt_dec(o: Option<Decimal>, default_milli: i64) -> Decimal {
    match o {
        Some(d) => d,
        None => Decimal { milli: default_milli },
    }
}

/// The value of an optional integer field once its default is applied.
pub open spec fn opt_i64(o: Option<i64>, default: i64) -> i64 {
    match o {
        Some(v) => v,
        None => default,
    }
}

/// The value of an optional boolean field once its default is applied.
pub open spec fn opt_bool(o: Option<bool>, default: bool) -> bool {
    match o {
        Some(v) => v,
        None => default,
    }
}

/// The wire form of a boolean.
pub open spec fn bool_str(b: bool) -> Seq<char> {
    if b {
        "true"@
    } else {
        "false"@
    }
}

/// The `stop` member of a chat body: present only when supplied.
pub open spec fn stop_part(o: Option<String>) -> Seq<char> {
    match o {
        Some(s) => ",\"stop\":\""@ + esc_str(s@) + "\""@,
        None => Seq::empty(),
    }
}

/// The `seed` member of a chat body: present only when supplied.
pub open spec fn seed_part(o: Option<i64>) -> Seq<char> {
    match o {
        Some(v) => ",\"seed\":"@ + int_digits(v as int),
        None => Seq::empty(),
    }
}

/// The complete JSON body of a chat completion request. Omitted optional
/// fields appear with their documented defaults — temperature `1.0`,
/// `max_tokens` 1024, `top_p` `1.0`, `stream` false — and `stop` and
/// `seed` appear only when supplied; nothing is ever rendered as `null`.
pub open spec fn chat_body_json(r: ChatCompletionRequest) -> Seq<char> {
    "{\"model\":\""@ + esc_str(r.model@) + "\",\"messages\":["@ + messages_json(r.messages@)
        + "],\"temperature\":"@ + decimal_digits(opt_dec(r.temperature, 1000))
        + ",\"max_tokens\":"@ + int_digits(opt_i64(r.max_tokens, 1024) as int) + ",\"top_p\":"@
        + decimal_digits(opt_dec(r.top_p, 1000)) + ",\"stream\":"@ + bool_str(
        opt_bool(r.stream, false),
    ) + stop_part(r.stop) + seed_part(r.seed) + "}"@
}

/// `r` with every defaulted field written out explicitly.
pub open spec fn with_chat_defaults(r: ChatCompletionRequest) -> ChatCompletionRequest {
    ChatCompletionRequest {
        temperature: Some(opt_dec(r.temperature, 1000)),
        max_tokens: Some(opt_i64(r.max_tokens, 1024)),
        top_p: Some(opt_dec(r.top_p, 1000)),
        stream: Some(opt_bool(r.stream, false)),
        ..r
    }
}

/// Optional chat fields omitted by the caller serialize exactly as the
/// documented defaults would: the body of a request is the body of the
/// same request with temperature `1.0`, `max_tokens` 1024, `top_p` `1.0`
/// and `stream` false filled in wherever they were absent.
pub proof fn lemma_chat_body_defaults(r: ChatCompletionRequest)
    ensures
        chat_body_json(r) == chat_body_json(with_chat_defaults(r)),
        with_chat_defaults(r).temperature == Some(opt_dec(r.temperature, 1000)),
        with_chat_defaults(r).max_tokens == Some(opt_i64(r.max_tokens, 1024)),
        with_chat_defaults(r).top_p == Some(opt_dec(r.top_p, 1000)),
        with_chat_defaults(r).stream == Some(opt_bool(r.stream, false)),
{
    assert(chat_body_json(r) =~= chat_body_json(with_chat_defaults(r)));
}

/// Builds the JSON body of a chat completion request.
#[verifier::rlimit(60)]
pub fn chat_completion_body(r: &ChatCompletionRequest) -> (s: String)
    ensures
        s@ == chat_body_json(*r),
{
    let mut out = String::new();
    out.append("{\"model\":\"");
    push_json_escaped(&mut out, r.model.as_str());
    out.append("\",\"messages\":[");
    push_messages_json(&mut out, &r.messages);
    out.append("],\"temperature\":");
    push_decimal(&mut out, match r.temperature {
        Some(d) => d,
        None => Decimal { milli: 1000 },
    });
    out.append(",\"max_tokens\":");
    push_i64(&mut out, match r.max_tokens {
        Some(v) => v,
        None => 1024,
    });
    out.append(",\"top_p\":");
    push_decimal(&mut out, match r.top_p {
        Some(d) => d,
        None => Decimal { milli: 1000 },
    });
    out.append(",\"stream\":");
    let stream = match r.stream {
        Some(v) => v,
        None => false,
    };
    if stream {
        out.append("true");
    } else {
        out.append("false");
    }
    match &r.stop {
        Some(s) => {
            out.append(",\"stop\":\"");
            push_json_escaped(&mut out, s.as_str());
            out.append("\"");
        },
        None => {},
    }
    match &r.seed {
        Some(v) => {
            out.append(",\"seed\":");
            push_i64(&mut out, *v);
        },
        None => {},
    }
    out.append("}");
    proof {
        assert(out@ =~= chat_body_json(*r));
    }
    out
}

/// The complete JSON body of a text-to-speech request. An omitted
/// `speed` appears as `1.0`.
pub open spec fn speech_body_json(r: TextToSpeechRequest) -> Seq<char> {
    "{\"model\":\""@ + esc_str(r.model@) + "\",\"input\":\""@ + esc_str(r.input@)
        + "\",\"voice\":\""@ + esc_str(r.voice@) + "\",\"speed\":"@ + decimal_digits(
        opt_dec(r.speed, 1000),
    ) + "}"@
}

/// Builds the JSON body of a text-to-speech request.
pub fn text_to_speech_body(r: &TextToSpeechRequest) -> (s: String)
    ensures
        s@ == speech_body_json(*r),
{
    let mut out = String::new();
    out.append("{\"model\":\"");
    push_json_escaped(&mut out, r.model.as_str());
    out.append("\",\"input\":\"");
    push_json_escaped(&mut out, r.input.as_str());
    out.append("\",\"voice\":\"");
    push_json_escaped(&mut out, r.voice.as_str());
    out.append("\",\"speed\":");
    push_decimal(&mut out, match r.speed {
        Some(d) => d,
        None => Decimal { milli: 1000 },
    });
    out.append("}");
    proof {
        assert(out@ =~= speech_body_json(*r));
    }
    out
}

/// The request path of the speech-to-text operation: translation when
/// `english_text` is set, transcription otherwise.
pub fn speech_to_text_path(english_text: bool) -> (p: &'static str)
    ensures
        english_text ==> p@ == "/audio/translations"@,
        !english_text ==> p@ == "/audio/transcriptions"@,
{
    if english_text {
        "/audio/translations"
    } else {
        "/audio/transcriptions"
    }
}

/// One optional multipart text field: a single entry when the value is
/// present, nothing otherwise.
pub open spec fn opt_entry(name: Seq<char>, v: Option<Seq<char>>) -> Seq<(Seq<char>, Seq<char>)> {
    match v {
        Some(s) => seq![(name, s)],
        None => Seq::empty(),
    }
}

/// The multipart text fields of a speech-to-text request, in wire order:
/// `temperature` (rendered as a decimal), `language`, `model`, `prompt`,
/// each present exactly when the request carries it.
pub open spec fn stt_text_fields(r: SpeechToTextRequest) -> Seq<(Seq<char>, Seq<char>)> {
    opt_entry(
        "temperature"@,
        match r.temperature {
            Some(d) => Some(decimal_digits(d)),
            None => None,
        },
    ) + opt_entry(
        "language"@,
        match r.language {
            Some(s) => Some(s@),
            None => None,
        },
    ) + opt_entry(
        "model"@,
        match r.model {
            Some(s) => Some(s@),
            None => None,
        },
    ) + opt_entry(
        "prompt"@,
        match r.prompt {
            Some(s) => Some(s@),
            None => None,
        },
    )
}

/// Builds the multipart text fields of a speech-to-text request.
pub fn speech_to_text_fields(r: &SpeechToTextRequest) -> (fs: Vec<(String, String)>)
    ensures
        fs@.map_values(|p: (String, String)| (p.0@, p.1@)) == stt_text_fields(*r),
{
    let mut fs: Vec<(String, String)> = Vec::new();
    match &r.temperature {
        Some(d) => {
            let mut v = String::new();
            push_decimal(&mut v, *d);
            fs.push(("temperature".to_owned(), v));
        },
        None => {},
    }
    match &r.language {
        Some(s) => {
            fs.push(("language".to_owned(), s.clone()));
        },
        None => {},
    }
    match &r.model {
        Some(s) => {
            fs.push(("model".to_owned(), s.clone()));
        },
        None => {},
    }
    match &r.prompt {
        Some(s) => {
            fs.push(("prompt".to_owned(), s.clone()));
        },
        None => {},
    }
    proof {
        assert(fs@.map_values(|p: (String, String)| (p.0@, p.1@)) =~= stt_text_fields(*r));
    }
    fs
}

/// Joins the configured endpoint and an operation path into a URL.
pub fn join_url(endpoint: &str, path: &str) -> (u: String)
    ensures
        u@ == endpoint@ + path@,
{
    let mut u = endpoint.to_owned();
    u.append(path);
    u
}

} // verus!

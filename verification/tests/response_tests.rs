use groq_client::ChatCompletionMessage;
use groq_client::ChatCompletionRequest;
use groq_client::ChatCompletionRoles;
use groq_client::Decimal;
use groq_client::GroqError;
use groq_client::GroqClient;
use groq_client::HttpReply;
use groq_client::SpeechToTextRequest;
use groq_client::client::speech_to_text_form;
use groq_client::response::interpret_chat_reply;
use groq_client::response::interpret_speech_to_text_reply;
use groq_client::response::interpret_text_to_speech_reply;
use groq_client::response::make_status_code_message;
use groq_client::response::status_is_success;

#[test]
fn error_envelope_is_reported_verbatim() {
    let reply = HttpReply {
        status: 400,
        body: b"{\"error\":{\"message\":\"bad request\",\"type\":\"invalid_request_error\"}}"
            .to_vec(),
    };
    let r = interpret_chat_reply(&reply);
    assert_eq!(
        r,
        Err(GroqError::ApiError {
            message: "bad request".to_string(),
            type_: "invalid_request_error".to_string(),
        })
    );
}

#[test]
fn unparseable_error_body_synthesizes_the_status_message() {
    let reply = HttpReply { status: 429, body: b"not json at all".to_vec() };
    let r = interpret_chat_reply(&reply);
    assert_eq!(
        r,
        Err(GroqError::ApiError {
            message: "Request failed with status code: 429".to_string(),
            type_: "request_error".to_string(),
        })
    );
}

#[test]
fn empty_envelope_falls_back_field_by_field() {
    let reply = HttpReply { status: 500, body: b"{\"error\":{}}".to_vec() };
    let r = interpret_chat_reply(&reply);
    assert_eq!(
        r,
        Err(GroqError::ApiError {
            message: "Unknown error".to_string(),
            type_: "unknown_error".to_string(),
        })
    );
    let reply = HttpReply {
        status: 500,
        body: b"{\"error\":{\"message\":\"oops\"}}".to_vec(),
    };
    let r = interpret_chat_reply(&reply);
    assert_eq!(
        r,
        Err(GroqError::ApiError {
            message: "oops".to_string(),
            type_: "unknown_error".to_string(),
        })
    );
}

#[test]
fn error_body_without_envelope_synthesizes_too() {
    let reply = HttpReply { status: 404, body: b"{\"detail\":\"missing\"}".to_vec() };
    let r = interpret_speech_to_text_reply(&reply);
    assert_eq!(
        r,
        Err(GroqError::ApiError {
            message: "Request failed with status code: 404".to_string(),
            type_: "request_error".to_string(),
        })
    );
}

#[test]
fn chat_success_body_is_decoded() {
    let body = "{\"choices\":[{\"message\":{\"role\":\"assistant\",\"content\":\"Hi there\"}}]}";
    let reply = HttpReply { status: 200, body: body.as_bytes().to_vec() };
    let r = interpret_chat_reply(&reply).unwrap();
    assert_eq!(r.choices.len(), 1);
    assert_eq!(r.choices[0].message.content, "Hi there");
    assert!(matches!(r.choices[0].message.role, ChatCompletionRoles::Assistant));
    assert_eq!(r.choices[0].message.name, None);
}

#[test]
fn chat_success_allows_zero_choices() {
    let reply = HttpReply { status: 200, body: b"{\"choices\":[]}".to_vec() };
    let r = interpret_chat_reply(&reply).unwrap();
    assert!(r.choices.is_empty());
}

#[test]
fn chat_success_with_wrong_shape_is_a_deserialization_error() {
    let reply = HttpReply { status: 200, body: b"{\"nothing\":1}".to_vec() };
    let r = interpret_chat_reply(&reply);
    assert!(matches!(r, Err(GroqError::DeserializationError { .. })));
    let reply = HttpReply { status: 200, body: b"not json".to_vec() };
    let r = interpret_chat_reply(&reply);
    assert!(matches!(r, Err(GroqError::DeserializationError { .. })));
}

#[test]
fn replies_decode_independently() {
    let first = HttpReply {
        status: 200,
        body: b"{\"choices\":[{\"message\":{\"role\":\"assistant\",\"content\":\"one\"}}]}"
            .to_vec(),
    };
    let second = HttpReply {
        status: 200,
        body: b"{\"choices\":[{\"message\":{\"role\":\"assistant\",\"content\":\"two\"}}]}"
            .to_vec(),
    };
    let r1 = interpret_chat_reply(&first).unwrap();
    let r2 = interpret_chat_reply(&second).unwrap();
    assert_eq!(r1.choices[0].message.content, "one");
    assert_eq!(r2.choices[0].message.content, "two");
}

#[test]
fn speech_to_text_reads_the_text_member() {
    let reply = HttpReply { status: 200, body: b"{\"text\":\"hello world\"}".to_vec() };
    let r = interpret_speech_to_text_reply(&reply).unwrap();
    assert_eq!(r.text, "hello world");
}

#[test]
fn speech_to_text_parse_failure_is_a_deserialization_error() {
    let reply = HttpReply { status: 200, body: b"...".to_vec() };
    let r = interpret_speech_to_text_reply(&reply);
    assert!(matches!(r, Err(GroqError::DeserializationError { .. })));
    let reply = HttpReply { status: 200, body: b"{\"no_text\":true}".to_vec() };
    let r = interpret_speech_to_text_reply(&reply);
    assert!(matches!(r, Err(GroqError::DeserializationError { .. })));
}

#[test]
fn text_to_speech_returns_the_bytes_unmodified() {
    let payload: Vec<u8> = vec![0, 155, 255, 7, 42, 0, 1];
    let reply = HttpReply { status: 200, body: payload.clone() };
    let r = interpret_text_to_speech_reply(reply).unwrap();
    assert_eq!(r.audio_data, payload);
}

#[test]
fn text_to_speech_error_uses_the_same_fallbacks() {
    let reply = HttpReply { status: 503, body: b"<html>down</html>".to_vec() };
    let r = interpret_text_to_speech_reply(reply);
    assert_eq!(
        r,
        Err(GroqError::ApiError {
            message: "Request failed with status code: 503".to_string(),
            type_: "request_error".to_string(),
        })
    );
}

#[test]
fn status_classification_matches_the_success_range() {
    assert!(status_is_success(200));
    assert!(status_is_success(204));
    assert!(status_is_success(299));
    assert!(!status_is_success(199));
    assert!(!status_is_success(300));
    assert!(!status_is_success(404));
}

#[test]
fn synthesized_message_reflects_the_code() {
    assert_eq!(make_status_code_message(429), "Request failed with status code: 429");
    assert_eq!(make_status_code_message(503), "Request failed with status code: 503");
}

#[test]
fn client_builds_without_network() {
    let _with_default = GroqClient::new("k".to_string(), None);
    let _with_custom = GroqClient::new(
        "k".to_string(),
        Some("http://localhost:9".to_string()),
    );
}

#[test]
fn transport_failure_is_a_transport_error() {
    let client = GroqClient::new("k".to_string(), Some("http://127.0.0.1:9".to_string()));
    let messages = vec![ChatCompletionMessage {
        role: ChatCompletionRoles::User,
        content: "Hello".to_string(),
        name: None,
    }];
    let r = client.chat_completion(ChatCompletionRequest::new("m", messages));
    assert!(matches!(r, Err(GroqError::TransportError { .. })));
}

#[test]
fn multipart_form_builds_without_network() {
    let request = SpeechToTextRequest::new(vec![1, 2, 3])
        .temperature(Decimal::from_milli(700))
        .language("en");
    let _form = speech_to_text_form(request);
}

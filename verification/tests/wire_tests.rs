use groq_client::ChatCompletionMessage;
use groq_client::ChatCompletionRequest;
use groq_client::ChatCompletionRoles;
use groq_client::Decimal;
use groq_client::SpeechToTextRequest;
use groq_client::TextToSpeechRequest;
use groq_client::text::push_decimal;
use groq_client::text::push_i64;
use groq_client::text::push_json_escaped;
use groq_client::wire::chat_completion_body;
use groq_client::wire::join_url;
use groq_client::wire::speech_to_text_fields;
use groq_client::wire::speech_to_text_path;
use groq_client::wire::text_to_speech_body;

fn decimal_string(milli: i64) -> String {
    let mut s = String::new();
    push_decimal(&mut s, Decimal::from_milli(milli));
    s
}

#[test]
fn decimal_rendering_is_exact() {
    assert_eq!(decimal_string(1000), "1.0");
    assert_eq!(decimal_string(700), "0.7");
    assert_eq!(decimal_string(750), "0.75");
    assert_eq!(decimal_string(755), "0.755");
    assert_eq!(decimal_string(0), "0.0");
    assert_eq!(decimal_string(-500), "-0.5");
    assert_eq!(decimal_string(1500), "1.5");
    assert_eq!(decimal_string(2000), "2.0");
    assert_eq!(decimal_string(12345), "12.345");
}

#[test]
fn integer_rendering_is_exact() {
    let mut s = String::new();
    push_i64(&mut s, 1024);
    assert_eq!(s, "1024");
    let mut t = String::new();
    push_i64(&mut t, -7);
    assert_eq!(t, "-7");
    let mut z = String::new();
    push_i64(&mut z, 0);
    assert_eq!(z, "0");
}

#[test]
fn escaping_covers_quotes_and_controls() {
    let mut s = String::new();
    push_json_escaped(&mut s, "a\"b\\c\nd\re\tf\u{1}g");
    assert_eq!(s, "a\\\"b\\\\c\\nd\\re\\tf\\u0001g");
}

#[test]
fn chat_body_applies_defaults() {
    let messages = vec![ChatCompletionMessage {
        role: ChatCompletionRoles::User,
        content: "Hello".to_string(),
        name: None,
    }];
    let request = ChatCompletionRequest::new("llama3-70b-8192", messages);
    let body = chat_completion_body(&request);
    assert_eq!(
        body,
        "{\"model\":\"llama3-70b-8192\",\"messages\":[{\"role\":\"user\",\"content\":\"Hello\"}],\"temperature\":1.0,\"max_tokens\":1024,\"top_p\":1.0,\"stream\":false}"
    );
    assert!(!body.contains("null"));
}

#[test]
fn chat_body_is_valid_json_with_default_values() {
    let messages = vec![ChatCompletionMessage {
        role: ChatCompletionRoles::User,
        content: "he said \"hi\"\n".to_string(),
        name: None,
    }];
    let request = ChatCompletionRequest::new("llama3-70b-8192", messages);
    let body = chat_completion_body(&request);
    let v: serde_json::Value = serde_json::from_str(&body).unwrap();
    assert_eq!(v["temperature"], serde_json::Value::from(1.0));
    assert_eq!(v["max_tokens"], serde_json::Value::from(1024));
    assert_eq!(v["top_p"], serde_json::Value::from(1.0));
    assert_eq!(v["stream"], serde_json::Value::from(false));
    assert_eq!(v["messages"][0]["content"], serde_json::Value::from("he said \"hi\"\n"));
    assert!(v.get("stop").is_none());
    assert!(v.get("seed").is_none());
}

#[test]
fn chat_body_keeps_supplied_values() {
    let messages = vec![ChatCompletionMessage {
        role: ChatCompletionRoles::System,
        content: "Be brief".to_string(),
        name: None,
    }];
    let mut request = ChatCompletionRequest::new("llama3-70b-8192", messages);
    request.temperature = Some(Decimal::from_milli(700));
    request.max_tokens = Some(42);
    request.top_p = Some(Decimal::from_milli(250));
    request.stream = Some(true);
    request.stop = Some("END".to_string());
    request.seed = Some(17);
    let body = chat_completion_body(&request);
    assert_eq!(
        body,
        "{\"model\":\"llama3-70b-8192\",\"messages\":[{\"role\":\"system\",\"content\":\"Be brief\"}],\"temperature\":0.7,\"max_tokens\":42,\"top_p\":0.25,\"stream\":true,\"stop\":\"END\",\"seed\":17}"
    );
}

#[test]
fn message_with_no_name_omits_the_key() {
    let messages = vec![ChatCompletionMessage {
        role: ChatCompletionRoles::User,
        content: "Hello".to_string(),
        name: None,
    }];
    let request = ChatCompletionRequest::new("m", messages);
    let body = chat_completion_body(&request);
    assert!(!body.contains("name"));
    let v: serde_json::Value = serde_json::from_str(&body).unwrap();
    assert!(v["messages"][0].get("name").is_none());
}

#[test]
fn message_with_name_carries_the_key() {
    let messages = vec![ChatCompletionMessage {
        role: ChatCompletionRoles::Assistant,
        content: "Hi".to_string(),
        name: Some("helper".to_string()),
    }];
    let request = ChatCompletionRequest::new("m", messages);
    let body = chat_completion_body(&request);
    let v: serde_json::Value = serde_json::from_str(&body).unwrap();
    assert_eq!(v["messages"][0]["name"], serde_json::Value::from("helper"));
}

#[test]
fn several_messages_are_comma_separated() {
    let messages = vec![
        ChatCompletionMessage {
            role: ChatCompletionRoles::System,
            content: "a".to_string(),
            name: None,
        },
        ChatCompletionMessage {
            role: ChatCompletionRoles::User,
            content: "b".to_string(),
            name: None,
        },
    ];
    let request = ChatCompletionRequest::new("m", messages);
    let body = chat_completion_body(&request);
    let v: serde_json::Value = serde_json::from_str(&body).unwrap();
    assert_eq!(v["messages"].as_array().unwrap().len(), 2);
    assert_eq!(v["messages"][0]["role"], serde_json::Value::from("system"));
    assert_eq!(v["messages"][1]["role"], serde_json::Value::from("user"));
}

#[test]
fn speech_body_defaults_speed() {
    let request = TextToSpeechRequest::new("playai-tts", "Read this", "Fritz-PlayAI");
    let body = text_to_speech_body(&request);
    assert_eq!(
        body,
        "{\"model\":\"playai-tts\",\"input\":\"Read this\",\"voice\":\"Fritz-PlayAI\",\"speed\":1.0}"
    );
}

#[test]
fn speech_body_keeps_supplied_speed() {
    let mut request = TextToSpeechRequest::new("playai-tts", "Read this", "Fritz-PlayAI");
    request.speed = Some(Decimal::from_milli(1250));
    let body = text_to_speech_body(&request);
    assert!(body.ends_with("\"speed\":1.25}"));
}

#[test]
fn translation_and_transcription_paths() {
    assert_eq!(speech_to_text_path(true), "/audio/translations");
    assert_eq!(speech_to_text_path(false), "/audio/transcriptions");
}

#[test]
fn speech_to_text_fields_follow_the_request() {
    let request = SpeechToTextRequest::new(vec![1, 2, 3])
        .temperature(Decimal::from_milli(700))
        .language("en")
        .model("whisper-large-v3");
    assert_eq!(request.english_text, false);
    let fields = speech_to_text_fields(&request);
    assert_eq!(
        fields,
        vec![
            ("temperature".to_string(), "0.7".to_string()),
            ("language".to_string(), "en".to_string()),
            ("model".to_string(), "whisper-large-v3".to_string()),
        ]
    );
}

#[test]
fn speech_to_text_fields_can_be_empty() {
    let request = SpeechToTextRequest::new(vec![]);
    let fields = speech_to_text_fields(&request);
    assert!(fields.is_empty());
}

#[test]
fn speech_to_text_prompt_is_last() {
    let request = SpeechToTextRequest::new(vec![9]).prompt("context").english_text(true);
    assert!(request.english_text);
    let fields = speech_to_text_fields(&request);
    assert_eq!(fields, vec![("prompt".to_string(), "context".to_string())]);
}

#[test]
fn urls_join_endpoint_and_path() {
    assert_eq!(
        join_url("https://api.groq.com/openai/v1", "/chat/completions"),
        "https://api.groq.com/openai/v1/chat/completions"
    );
}

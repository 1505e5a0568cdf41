use gemini_relay::json::Json;
use gemini_relay::request::build_upstream_body;
use gemini_relay::request::contents_of_request;
use gemini_relay::request::prompt_to_contents;
use gemini_relay::request::default_endpoint;
use gemini_relay::request::system_prompt;
use gemini_relay::request::upstream_url;
use gemini_relay::request::IncomingRequest;

fn obj(fields: Vec<(&str, Json)>) -> Json {
    Json::Obj(fields.into_iter().map(|(k, v)| (k.to_string(), v)).collect())
}

fn s(text: &str) -> Json {
    Json::Str(text.to_string())
}

#[test]
fn prompt_becomes_single_user_message() {
    let contents = prompt_to_contents("hello".to_string());
    let expected = vec![obj(vec![
        ("role", s("user")),
        ("parts", Json::Arr(vec![obj(vec![("text", s("hello"))])])),
    ])];
    assert_eq!(contents, expected);
}

#[test]
fn contents_request_passes_through_unmodified() {
    let history = vec![
        obj(vec![("role", s("user")), ("parts", Json::Arr(vec![obj(vec![("text", s("hi"))])]))]),
        obj(vec![
            ("role", s("model")),
            ("parts", Json::Arr(vec![obj(vec![("text", s("hey"))])])),
        ]),
    ];
    let same = vec![
        obj(vec![("role", s("user")), ("parts", Json::Arr(vec![obj(vec![("text", s("hi"))])]))]),
        obj(vec![
            ("role", s("model")),
            ("parts", Json::Arr(vec![obj(vec![("text", s("hey"))])])),
        ]),
    ];
    assert_eq!(contents_of_request(IncomingRequest::Contents(history)), same);
}

#[test]
fn body_carries_contents_verbatim() {
    let history = vec![obj(vec![
        ("role", s("user")),
        ("parts", Json::Arr(vec![obj(vec![("text", s("what is up"))])])),
    ])];
    let copy = vec![obj(vec![
        ("role", s("user")),
        ("parts", Json::Arr(vec![obj(vec![("text", s("what is up"))])])),
    ])];
    let body = build_upstream_body(history);
    let carried = body.field(&"contents".to_string()).unwrap();
    assert_eq!(*carried, Json::Arr(copy));
}

#[test]
fn body_has_system_instruction_with_persona_prompt() {
    let body = build_upstream_body(vec![]);
    let si = body.field(&"system_instruction".to_string()).unwrap();
    let parts = si.field(&"parts".to_string()).unwrap();
    let text = parts.at(0).unwrap().field(&"text".to_string()).unwrap();
    match text {
        Json::Str(prompt) => assert_eq!(*prompt, system_prompt()),
        other => panic!("system instruction text is not a string: {:?}", other),
    }
}

#[test]
fn body_has_minimal_thinking_level() {
    let body = build_upstream_body(vec![]);
    let config = body.field(&"generationConfig".to_string()).unwrap();
    let thinking = config.field(&"thinking_config".to_string()).unwrap();
    let level = thinking.field(&"thinking_level".to_string()).unwrap();
    assert_eq!(*level, s("minimal"));
}

#[test]
fn url_interpolates_key_as_query_parameter() {
    assert_eq!(
        upstream_url("https://example.test/model:generate", "k123"),
        "https://example.test/model:generate?key=k123"
    );
}

#[test]
fn default_endpoint_names_model_and_version() {
    let endpoint = default_endpoint();
    assert!(endpoint.starts_with("https://generativelanguage.googleapis.com/v1beta/models/"));
    assert!(endpoint.ends_with(":generateContent"));
}

#[test]
fn persona_prompt_is_the_fixed_instruction() {
    let prompt = system_prompt();
    assert!(prompt.starts_with("You are my 22-year-old uni best friend"));
    assert!(prompt.ends_with("Start by matching my energy."));
}

use gemini_relay::extract::extract_text;
use gemini_relay::json::Json;

const PLACEHOLDER: &str = "The AI returned an empty response.";

fn obj(fields: Vec<(&str, Json)>) -> Json {
    Json::Obj(fields.into_iter().map(|(k, v)| (k.to_string(), v)).collect())
}

fn s(text: &str) -> Json {
    Json::Str(text.to_string())
}

/// A response whose `candidates[0].content.parts` is the given array.
fn response_with_parts(parts: Vec<Json>) -> Json {
    obj(vec![(
        "candidates",
        Json::Arr(vec![obj(vec![("content", obj(vec![("parts", Json::Arr(parts))]))])]),
    )])
}

#[test]
fn text_in_single_part() {
    let resp = response_with_parts(vec![obj(vec![("text", s("hello"))])]);
    assert_eq!(extract_text(&resp), "hello");
}

#[test]
fn text_after_thought_parts() {
    let resp = response_with_parts(vec![
        obj(vec![("thought", s("step one"))]),
        obj(vec![("thought", s("step two"))]),
        obj(vec![("text", s("the answer"))]),
    ]);
    assert_eq!(extract_text(&resp), "the answer");
}

#[test]
fn first_text_wins_over_later_text() {
    let resp = response_with_parts(vec![
        obj(vec![("text", s("first"))]),
        obj(vec![("text", s("second"))]),
    ]);
    assert_eq!(extract_text(&resp), "first");
}

#[test]
fn thought_taken_when_no_text_anywhere() {
    let resp = response_with_parts(vec![obj(vec![("thought", s("only thinking"))])]);
    assert_eq!(extract_text(&resp), "only thinking");
}

#[test]
fn thought_only_read_from_first_element() {
    // No element has `text`; the `thought` sits at index 1, which the
    // fallback never reads, so the placeholder comes back.
    let resp = response_with_parts(vec![
        obj(vec![("other", s("x"))]),
        obj(vec![("thought", s("late thought"))]),
    ]);
    assert_eq!(extract_text(&resp), PLACEHOLDER);
}

#[test]
fn non_string_text_falls_back_to_first_thought() {
    // The first element carrying `text` holds a number there, so the
    // fallback reads the first element's `thought` instead.
    let resp = response_with_parts(vec![
        obj(vec![("thought", s("mulling"))]),
        obj(vec![("text", Json::Num("7".to_string()))]),
    ]);
    assert_eq!(extract_text(&resp), "mulling");
}

#[test]
fn placeholder_on_empty_parts() {
    let resp = response_with_parts(vec![]);
    assert_eq!(extract_text(&resp), PLACEHOLDER);
}

#[test]
fn placeholder_on_parts_absent() {
    let resp = obj(vec![("candidates", Json::Arr(vec![obj(vec![("content", obj(vec![]))])]))]);
    assert_eq!(extract_text(&resp), PLACEHOLDER);
}

#[test]
fn placeholder_on_candidates_absent() {
    let resp = obj(vec![("unrelated", s("x"))]);
    assert_eq!(extract_text(&resp), PLACEHOLDER);
}

#[test]
fn placeholder_on_candidates_empty() {
    let resp = obj(vec![("candidates", Json::Arr(vec![]))]);
    assert_eq!(extract_text(&resp), PLACEHOLDER);
}

#[test]
fn placeholder_on_first_element_lacking_text_and_thought() {
    let resp = response_with_parts(vec![obj(vec![("other", s("x"))])]);
    assert_eq!(extract_text(&resp), PLACEHOLDER);
}

#[test]
fn placeholder_on_parts_not_an_array() {
    let resp = obj(vec![(
        "candidates",
        Json::Arr(vec![obj(vec![("content", obj(vec![("parts", s("not an array"))]))])]),
    )]);
    assert_eq!(extract_text(&resp), PLACEHOLDER);
}

#[test]
fn total_on_scalar_responses() {
    assert_eq!(extract_text(&Json::Null), PLACEHOLDER);
    assert_eq!(extract_text(&Json::Bool(true)), PLACEHOLDER);
    assert_eq!(extract_text(&Json::Num("3".to_string())), PLACEHOLDER);
    assert_eq!(extract_text(&s("just a string")), PLACEHOLDER);
    assert_eq!(extract_text(&Json::Arr(vec![])), PLACEHOLDER);
    assert_eq!(extract_text(&Json::Obj(vec![])), PLACEHOLDER);
}

#[test]
fn total_on_deeply_mismatched_shapes() {
    // `candidates` is a string; `candidates[0]` is a number; `content` is
    // an array; each navigation step just comes up empty.
    assert_eq!(extract_text(&obj(vec![("candidates", s("nope"))])), PLACEHOLDER);
    assert_eq!(
        extract_text(&obj(vec![("candidates", Json::Arr(vec![Json::Num("1".to_string())]))])),
        PLACEHOLDER
    );
    assert_eq!(
        extract_text(&obj(vec![(
            "candidates",
            Json::Arr(vec![obj(vec![("content", Json::Arr(vec![s("x")]))])]),
        )])),
        PLACEHOLDER
    );
}

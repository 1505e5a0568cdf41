use vstd::prelude::*;
use vstd::string::StringExecFns;

use crate::json::is_text_object;
use crate::json::text_object;
use crate::json::Json;

verus! {

/// The fixed upstream endpoint; the model name and the API version are
/// pinned here and nowhere else.
pub open spec fn spec_default_endpoint() -> Seq<char> {
    "https://generativelanguage.googleapis.com/v1beta/models/gemini-3-flash-preview:generateContent"@
}

/// The fixed upstream endpoint; the model name and the API version are
/// pinned here and nowhere else.
pub fn default_endpoint() -> (r: String)
    ensures
        r@ == spec_default_endpoint(),
{
    "https://generativelanguage.googleapis.com/v1beta/models/gemini-3-flash-preview:generateContent".to_owned()
}

/// The full target URL of one upstream call: the endpoint with the API
/// key interpolated as its query parameter.
pub fn upstream_url(endpoint: &str, api_key: &str) -> (r: String)
    ensures
        r@ == endpoint@ + "?key="@ + api_key@,
{
    let mut url = endpoint.to_owned();
    url.append("?key=");
    url.append(api_key);
    url
}

/// The fixed persona instruction injected into every upstream request.
pub open spec fn spec_system_prompt() -> Seq<char> {
    "You are my 22-year-old uni best friend — smart, a bit chaotic, slightly sarcastic. Talk casual like someone my age: slang, light roasts when I'm being dumb, memes sometimes, emojis when it fits 😭😂.
You get student life: procrastination, broke vibes, 3 a.m. panic, dating fails.
Explain anything (coding, math, life stuff) super simply — short sentences, everyday examples (TikTok, games, food, Netflix, gym fails). No jargon unless you explain it right away. If it's hard, say 'okay this is brain-melting, imagine it like…'.
Be funny/sarcastic when it fits, but switch to patient + clear mode when I'm actually learning or stressed.
Ask 'does that make sense?' sometimes. Give honest friend advice when I ask.
Never sound like a boring textbook or fake-nice teacher. Keep replies normal length.
Start by matching my energy."@
}

/// The fixed persona instruction injected into every upstream request.
pub fn system_prompt() -> (r: String)
    ensures
        r@ == spec_system_prompt(),
{
    "You are my 22-year-old uni best friend — smart, a bit chaotic, slightly sarcastic. Talk casual like someone my age: slang, light roasts when I'm being dumb, memes sometimes, emojis when it fits 😭😂.
You get student life: procrastination, broke vibes, 3 a.m. panic, dating fails.
Explain anything (coding, math, life stuff) super simply — short sentences, everyday examples (TikTok, games, food, Netflix, gym fails). No jargon unless you explain it right away. If it's hard, say 'okay this is brain-melting, imagine it like…'.
Be funny/sarcastic when it fits, but switch to patient + clear mode when I'm actually learning or stressed.
Ask 'does that make sense?' sometimes. Give honest friend advice when I ask.
Never sound like a boring textbook or fake-nice teacher. Keep replies normal length.
Start by matching my energy.".to_owned()
}

/// Holds exactly when `j` is one user message whose single part wraps `text`.
pub open spec fn is_user_message(j: Json, text: Seq<char>) -> bool {
    match j {
        Json::Obj(pairs) => pairs@.len() == 2 && pairs@[0].0@ == "role"@ && (match pairs@[0].1 {
            Json::Str(r) => r@ == "user"@,
            _ => false,
        }) && pairs@[1].0@ == "parts"@ && (match pairs@[1].1 {
            Json::Arr(parts) => parts@.len() == 1 && is_text_object(parts@[0], text),
            _ => false,
        }),
        _ => false,
    }
}

/// Holds exactly when `j` is the fixed system-instruction block: a `parts`
/// array holding one text part with the persona prompt.
pub open spec fn is_system_instruction(j: Json) -> bool {
    match j {
        Json::Obj(pairs) => pairs@.len() == 1 && pairs@[0].0@ == "parts"@ && (match pairs@[0].1 {
            Json::Arr(parts) => parts@.len() == 1 && is_text_object(
                parts@[0],
                spec_system_prompt(),
            ),
            _ => false,
        }),
        _ => false,
    }
}

/// Holds exactly when `j` is the fixed generation-configuration block,
/// which asks the upstream model for a minimal thinking level.
pub open spec fn is_generation_config(j: Json) -> bool {
    match j {
        Json::Obj(pairs) => pairs@.len() == 1 && pairs@[0].0@ == "thinking_config"@ && (
        match pairs@[0].1 {
            Json::Obj(inner) => inner@.len() == 1 && inner@[0].0@ == "thinking_level"@ && (
            match inner@[0].1 {
                Json::Str(s) => s@ == "minimal"@,
                _ => false,
            }),
            _ => false,
        }),
        _ => false,
    }
}

/// Holds exactly when `j` is the upstream request body built around
/// `contents`: the caller's conversation passed through unmodified, the
/// fixed system instruction, and the fixed generation configuration.
pub open spec fn is_upstream_body(j: Json, contents: Seq<Json>) -> bool {
    match j {
        Json::Obj(pairs) => pairs@.len() == 3 && pairs@[0].0@ == "contents"@ && (match pairs@[0].1 {
            Json::Arr(c) => c@ == contents,
            _ => false,
        }) && pairs@[1].0@ == "system_instruction"@ && is_system_instruction(pairs@[1].1)
            && pairs@[2].0@ == "generationConfig"@ && is_generation_config(pairs@[2].1),
        _ => false,
    }
}

/// The conversation an upstream body carries under `contents`, if any.
pub open spec fn spec_body_contents(body: Json) -> Option<Seq<Json>> {
    match body.spec_field("contents"@) {
        Some(c) => match c {
            Json::Arr(v) => Some(v@),
            _ => None,
        },
        None => None,
    }
}

/// An inbound request: either a bare prompt, or a full conversation of
/// message values that is to reach the upstream service as it stands.
#[derive(Debug, PartialEq, Eq)]
pub enum IncomingRequest {
    Prompt(String),
    Contents(Vec<Json>),
}

/// Wraps a bare prompt as the single user message of a fresh conversation.
pub fn prompt_to_contents(prompt: String) -> (r: Vec<Json>)
    ensures
        r@.len() == 1,
        is_user_message(r@[0], prompt@),
{
    let mut msg: Vec<(String, Json)> = Vec::new();
    msg.push(("role".to_owned(), Json::Str("user".to_owned())));
    let mut parts: Vec<Json> = Vec::new();
    parts.push(text_object(prompt));
    msg.push(("parts".to_owned(), Json::Arr(parts)));
    let mut contents: Vec<Json> = Vec::new();
    contents.push(Json::Obj(msg));
    contents
}

/// The conversation a request stands for: a bare prompt becomes the single
/// user message wrapping it, a conversation passes through unchanged.
pub fn contents_of_request(req: IncomingRequest) -> (r: Vec<Json>)
    ensures
        req matches IncomingRequest::Contents(c) ==> r == c,
        req matches IncomingRequest::Prompt(p) ==> r@.len() == 1 && is_user_message(r@[0], p@),
{
    match req {
        IncomingRequest::Prompt(p) => prompt_to_contents(p),
        IncomingRequest::Contents(c) => c,
    }
}

/// The fixed system-instruction block of every upstream request.
fn system_instruction() -> (r: Json)
    ensures
        is_system_instruction(r),
{
    let mut parts: Vec<Json> = Vec::new();
    parts.push(text_object(system_prompt()));
    let mut pairs: Vec<(String, Json)> = Vec::new();
    pairs.push(("parts".to_owned(), Json::Arr(parts)));
    Json::Obj(pairs)
}

/// The fixed generation-configuration block of every upstream request.
fn generation_config() -> (r: Json)
    ensures
        is_generation_config(r),
{
    let mut inner: Vec<(String, Json)> = Vec::new();
    inner.push(("thinking_level".to_owned(), Json::Str("minimal".to_owned())));
    let mut pairs: Vec<(String, Json)> = Vec::new();
    pairs.push(("thinking_config".to_owned(), Json::Obj(inner)));
    Json::Obj(pairs)
}

/// Builds the upstream request body around a conversation: the caller's
/// `contents` unmodified, beside the fixed system instruction and the
/// fixed generation configuration.
pub fn build_upstream_body(contents: Vec<Json>) -> (r: Json)
    ensures
        is_upstream_body(r, contents@),
        spec_body_contents(r) == Some(contents@),
{
    let mut pairs: Vec<(String, Json)> = Vec::new();
    pairs.push(("contents".to_owned(), Json::Arr(contents)));
    pairs.push(("system_instruction".to_owned(), system_instruction()));
    pairs.push(("generationConfig".to_owned(), generation_config()));
    Json::Obj(pairs)
}

/// The upstream request body for an inbound request: a conversation is
/// forwarded unmodified; a bare prompt is first wrapped as the single
/// user message of the conversation.
pub fn upstream_body_for(req: IncomingRequest) -> (r: Json)
    ensures
        req matches IncomingRequest::Contents(c) ==> is_upstream_body(r, c@),
        req matches IncomingRequest::Prompt(p) ==> (match spec_body_contents(r) {
            Some(cs) => cs.len() == 1 && is_user_message(cs[0], p@) && is_upstream_body(r, cs),
            None => false,
        }),
{
    let contents = contents_of_request(req);
    build_upstream_body(contents)
}

} // verus!

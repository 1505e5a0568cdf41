use vstd::prelude::*;

use crate::json::Json;

verus! {

/// The fixed answer handed out when nothing can be extracted.
pub open spec fn spec_placeholder() -> Seq<char> {
    "The AI returned an empty response."@
}

/// The fixed answer handed out when nothing can be extracted.
pub fn placeholder_text() -> (r: String)
    ensures
        r@ == spec_placeholder(),
{
    "The AI returned an empty response.".to_owned()
}

/// The `candidates[0].content.parts` value of an upstream response, if
/// every step of the path resolves; `None` as soon as one step does not.
pub open spec fn spec_parts(resp: Json) -> Option<Json> {
    match resp.spec_field("candidates"@) {
        Some(cands) => match cands.spec_at(0) {
            Some(c0) => match c0.spec_field("content"@) {
                Some(content) => content.spec_field("parts"@),
                None => None,
            },
            None => None,
        },
        None => None,
    }
}

/// The first element of `items` that has a `text` field of any shape.
pub open spec fn spec_first_with_text(items: Seq<Json>) -> Option<Json>
    decreases items.len(),
{
    if items.len() == 0 {
        None
    } else if items[0].spec_field("text"@) is Some {
        Some(items[0])
    } else {
        spec_first_with_text(items.drop_first())
    }
}

/// The `thought` string of the first element of `items` — of that element
/// only — if there is one and it is a string.
pub open spec fn spec_first_thought(items: Seq<Json>) -> Option<Seq<char>> {
    if items.len() > 0 {
        match items[0].spec_field("thought"@) {
            Some(t) => t.spec_text(),
            None => None,
        }
    } else {
        None
    }
}

/// The fallback answer taken from a `parts` array that yielded no string
/// `text` field: the first element's `thought` string, else the placeholder.
pub open spec fn spec_fallback(items: Seq<Json>) -> Seq<char> {
    match spec_first_thought(items) {
        Some(t) => t,
        None => spec_placeholder(),
    }
}

/// The answer string extracted from an arbitrary upstream response.
///
/// In priority order: the `text` string of the first element of
/// `candidates[0].content.parts` that has a `text` field; else that
/// array's first element's `thought` string; else the placeholder.
/// Whenever the path does not resolve to an array, the placeholder.
pub open spec fn spec_extract(resp: Json) -> Seq<char> {
    match spec_parts(resp) {
        Some(Json::Arr(items)) => match spec_first_with_text(items@) {
            Some(elem) => match elem.spec_field("text"@) {
                Some(tv) => match tv.spec_text() {
                    Some(s) => s,
                    None => spec_fallback(items@),
                },
                None => spec_fallback(items@),
            },
            None => spec_fallback(items@),
        },
        _ => spec_placeholder(),
    }
}

pub proof fn lemma_first_text_found(items: Seq<Json>, i: int)
    requires
        0 <= i < items.len(),
        items[i].spec_field("text"@) is Some,
        forall|k: int| 0 <= k < i ==> items[k].spec_field("text"@) is None,
    ensures
        spec_first_with_text(items) == Some(items[i]),
    decreases i,
{
    if i > 0 {
        let rest = items.drop_first();
        assert(rest[i - 1] == items[i]);
        assert forall|k: int| 0 <= k < i - 1 implies rest[k].spec_field("text"@) is None by {
            assert(rest[k] == items[k + 1]);
        }
        lemma_first_text_found(rest, i - 1);
    }
}

pub proof fn lemma_first_text_none(items: Seq<Json>)
    requires
        forall|k: int| 0 <= k < items.len() ==> items[k].spec_field("text"@) is None,
    ensures
        spec_first_with_text(items) is None,
    decreases items.len(),
{
    if items.len() > 0 {
        let rest = items.drop_first();
        assert forall|k: int| 0 <= k < rest.len() implies rest[k].spec_field("text"@) is None by {
            assert(rest[k] == items[k + 1]);
        }
        lemma_first_text_none(rest);
    }
}

/// The fallback path of the extraction, on the array the path resolved to.
fn fallback_text(items: &Vec<Json>, key_thought: &String) -> (r: String)
    requires
        key_thought@ == "thought"@,
    ensures
        r@ == spec_fallback(items@),
{
    if items.len() > 0 {
        match items[0].field(key_thought) {
            Some(t) => match t {
                Json::Str(s) => s.clone(),
                _ => placeholder_text(),
            },
            None => placeholder_text(),
        }
    } else {
        placeholder_text()
    }
}

/// Extracts the answer string from an arbitrary upstream response.
///
/// Total over every shape of `resp`: a response missing any part of the
/// expected structure yields the fallback or the placeholder, never a fault.
#[verifier::loop_isolation(false)]
pub fn extract_text(resp: &Json) -> (r: String)
    ensures
        r@ == spec_extract(*resp),
{
    let key_candidates = "candidates".to_owned();
    let key_content = "content".to_owned();
    let key_parts = "parts".to_owned();
    let key_text = "text".to_owned();
    let key_thought = "thought".to_owned();

    let parts_opt: Option<&Json> = match resp.field(&key_candidates) {
        Some(cands) => match cands.at(0) {
            Some(c0) => match c0.field(&key_content) {
                Some(content) => content.field(&key_parts),
                None => None,
            },
            None => None,
        },
        None => None,
    };

    match parts_opt {
        Some(p) => match p {
            Json::Arr(items) => {
                let n = items.len();
                let mut i: usize = 0;
                while i < n
                    invariant
                        i <= n,
                        forall|k: int| 0 <= k < i ==> items@[k].spec_field("text"@) is None,
                    decreases n - i,
                {
                    match items[i].field(&key_text) {
                        Some(tv) => {
                            proof {
                                lemma_first_text_found(items@, i as int);
                            }
                            match tv {
                                Json::Str(s) => {
                                    return s.clone();
                                },
                                _ => {
                                    return fallback_text(items, &key_thought);
                                },
                            }
                        },
                        None => {},
                    }
                    i += 1;
                }
                proof {
                    lemma_first_text_none(items@);
                }
                fallback_text(items, &key_thought)
            },
            _ => placeholder_text(),
        },
        None => placeholder_text(),
    }
}

/// Law: for any response whose `parts` path resolves to an array, the
/// extraction returns the `text` string of the first element that has a
/// `text` field, at whatever position it stands and whatever the array's
/// length.
pub proof fn lemma_extract_first_text(resp: Json, items: Seq<Json>, i: int, s: Seq<char>)
    requires
        spec_parts(resp) matches Some(p) && p matches Json::Arr(v) && v@ == items,
        0 <= i < items.len(),
        items[i].spec_field("text"@) matches Some(tv) && tv.spec_text() == Some(s),
        forall|k: int| 0 <= k < i ==> items[k].spec_field("text"@) is None,
    ensures
        spec_extract(resp) == s,
{
    lemma_first_text_found(items, i);
}

/// Law: when no element of the `parts` array has a `text` field, the
/// extraction returns the `thought` string of the first element — a
/// `thought` anywhere else is never taken.
pub proof fn lemma_extract_first_thought(resp: Json, items: Seq<Json>, t: Seq<char>)
    requires
        spec_parts(resp) matches Some(p) && p matches Json::Arr(v) && v@ == items,
        forall|k: int| 0 <= k < items.len() ==> items[k].spec_field("text"@) is None,
        items.len() > 0,
        items[0].spec_field("thought"@) matches Some(tv) && tv.spec_text() == Some(t),
    ensures
        spec_extract(resp) == t,
{
    lemma_first_text_none(items);
}

/// Law: when the `candidates[0].content.parts` path does not resolve to an
/// array — `candidates` absent or empty, `content` or `parts` absent, or
/// any value of another shape on the way — the extraction returns the
/// placeholder.
pub proof fn lemma_extract_placeholder_no_parts(resp: Json)
    requires
        !(spec_parts(resp) matches Some(p) && p matches Json::Arr(_)),
    ensures
        spec_extract(resp) == spec_placeholder(),
{
}

/// Law: an empty `parts` array yields the placeholder.
pub proof fn lemma_extract_placeholder_empty(resp: Json)
    requires
        spec_parts(resp) matches Some(p) && p matches Json::Arr(v) && v@.len() == 0,
    ensures
        spec_extract(resp) == spec_placeholder(),
{
}

/// Law: when no element of the `parts` array has a `text` field and its
/// first element has no string `thought` field either, the extraction
/// returns the placeholder.
pub proof fn lemma_extract_placeholder_no_answer(resp: Json, items: Seq<Json>)
    requires
        spec_parts(resp) matches Some(p) && p matches Json::Arr(v) && v@ == items,
        forall|k: int| 0 <= k < items.len() ==> items[k].spec_field("text"@) is None,
        spec_first_thought(items) is None,
    ensures
        spec_extract(resp) == spec_placeholder(),
{
    lemma_first_text_none(items);
}

} // verus!

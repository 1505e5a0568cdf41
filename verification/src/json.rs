use vstd::prelude::*;

verus! {

/// A JSON document, modeled as a tree of plain values.
///
/// A number is carried as its decimal text: the relay never computes with
/// numbers, it only passes them through, and this keeps inexact arithmetic
/// out of the library. An object is a list of key/value pairs in document
/// order; a lookup takes the first pair whose key matches.
#[derive(Debug, PartialEq, Eq)]
pub enum Json {
    Null,
    Bool(bool),
    Num(String),
    Str(String),
    Arr(Vec<Json>),
    Obj(Vec<(String, Json)>),
}

/// The value of the first pair of `pairs` whose key is `key`, if any.
pub open spec fn first_with_key(pairs: Seq<(String, Json)>, key: Seq<char>) -> Option<Json>
    decreases pairs.len(),
{
    if pairs.len() == 0 {
        None
    } else if pairs[0].0@ == key {
        Some(pairs[0].1)
    } else {
        first_with_key(pairs.drop_first(), key)
    }
}

pub proof fn lemma_first_with_key_found(pairs: Seq<(String, Json)>, key: Seq<char>, i: int)
    requires
        0 <= i < pairs.len(),
        pairs[i].0@ == key,
        forall|k: int| 0 <= k < i ==> pairs[k].0@ != key,
    ensures
        first_with_key(pairs, key) == Some(pairs[i].1),
    decreases i,
{
    if i > 0 {
        assert(pairs[0].0@ != key);
        let rest = pairs.drop_first();
        assert(rest[i - 1] == pairs[i]);
        assert forall|k: int| 0 <= k < i - 1 implies rest[k].0@ != key by {
            assert(rest[k] == pairs[k + 1]);
        }
        lemma_first_with_key_found(rest, key, i - 1);
    }
}

pub proof fn lemma_first_with_key_none(pairs: Seq<(String, Json)>, key: Seq<char>)
    requires
        forall|k: int| 0 <= k < pairs.len() ==> pairs[k].0@ != key,
    ensures
        first_with_key(pairs, key) is None,
    decreases pairs.len(),
{
    if pairs.len() > 0 {
        let rest = pairs.drop_first();
        assert forall|k: int| 0 <= k < rest.len() implies rest[k].0@ != key by {
            assert(rest[k] == pairs[k + 1]);
        }
        lemma_first_with_key_none(rest, key);
    }
}

/// Holds exactly when `j` is the one-field object `{"text": text}`.
pub open spec fn is_text_object(j: Json, text: Seq<char>) -> bool {
    match j {
        Json::Obj(pairs) => pairs@.len() == 1 && pairs@[0].0@ == "text"@ && (match pairs@[0].1 {
            Json::Str(s) => s@ == text,
            _ => false,
        }),
        _ => false,
    }
}

/// Builds the one-field object `{"text": text}`.
pub fn text_object(text: String) -> (r: Json)
    ensures
        is_text_object(r, text@),
{
    let mut pairs: Vec<(String, Json)> = Vec::new();
    pairs.push(("text".to_owned(), Json::Str(text)));
    Json::Obj(pairs)
}

impl Json {
    /// The value under `key`, if this is an object with such a field.
    pub open spec fn spec_field(self, key: Seq<char>) -> Option<Json> {
        match self {
            Json::Obj(pairs) => first_with_key(pairs@, key),
            _ => None,
        }
    }

    /// The element at `i`, if this is an array of more than `i` elements.
    pub open spec fn spec_at(self, i: int) -> Option<Json> {
        match self {
            Json::Arr(items) => if 0 <= i < items@.len() {
                Some(items@[i])
            } else {
                None
            },
            _ => None,
        }
    }

    /// The characters of this value, if it is a string.
    pub open spec fn spec_text(self) -> Option<Seq<char>> {
        match self {
            Json::Str(s) => Some(s@),
            _ => None,
        }
    }

    /// Looks up `key` in an object; `None` on any other shape, so a chain
    /// of lookups never fails, it only comes up empty.
    pub fn field<'a>(&'a self, key: &String) -> (r: Option<&'a Json>)
        ensures
            match self.spec_field(key@) {
                Some(v) => r matches Some(f) && *f == v,
                None => r is None,
            },
    {
        match self {
            Json::Obj(pairs) => {
                let n = pairs.len();
                let mut j: usize = 0;
                while j < n
                    invariant
                        *self == Json::Obj(*pairs),
                        n == pairs@.len(),
                        j <= n,
                        forall|k: int| 0 <= k < j ==> pairs@[k].0@ != key@,
                    decreases n - j,
                {
                    if pairs[j].0 == *key {
                        proof {
                            lemma_first_with_key_found(pairs@, key@, j as int);
                        }
                        return Some(&pairs[j].1);
                    }
                    j += 1;
                }
                proof {
                    lemma_first_with_key_none(pairs@, key@);
                }
                None
            },
            _ => None,
        }
    }

    /// The element at `i` of an array; `None` on any other shape or out of range.
    pub fn at<'a>(&'a self, i: usize) -> (r: Option<&'a Json>)
        ensures
            match self.spec_at(i as int) {
                Some(v) => r matches Some(e) && *e == v,
                None => r is None,
            },
    {
        match self {
            Json::Arr(items) => if i < items.len() {
                Some(&items[i])
            } else {
                None
            },
            _ => None,
        }
    }

    /// The string contents; `None` on any other shape.
    pub fn text<'a>(&'a self) -> (r: Option<&'a String>)
        ensures
            match self.spec_text() {
                Some(t) => r matches Some(s) && s@ == t,
                None => r is None,
            },
    {
        match self {
            Json::Str(s) => Some(s),
            _ => None,
        }
    }
}

} // verus!

//! Reading of JSON text.

use vstd::prelude::*;

verus! {

/// The outermost structure of a JSON text; the parts are JSON texts again.
pub enum JsonShape {
    /// The text is not JSON.
    Malformed,
    /// A string.
    Text(Seq<char>),
    /// An unsigned number of at most 64 bits.
    Count(u64),
    /// Another number, a truth value or null.
    Scalar,
    /// A list.
    List(Seq<Seq<u8>>),
    /// The members of an object with their names.
    Object(Seq<(Seq<char>, Seq<u8>)>),
}

/// A member of an object.
pub struct JsonMember {
    pub name: String,
    pub value: Vec<u8>,
}

/// The outermost structure of a text that was read.
pub enum JsonParts {
    Malformed,
    Text(String),
    Count(u64),
    Scalar,
    List(Vec<Vec<u8>>),
    Object(Vec<JsonMember>),
}

impl JsonParts {
    /// The structure.
    pub open spec fn shape(self) -> JsonShape {
        match self {
            JsonParts::Malformed => JsonShape::Malformed,
            JsonParts::Text(text) => JsonShape::Text(text@),
            JsonParts::Count(n) => JsonShape::Count(n),
            JsonParts::Scalar => JsonShape::Scalar,
            JsonParts::List(items) => JsonShape::List(
                Seq::new(items@.len(), |i: int| items@[i]@),
            ),
            JsonParts::Object(members) => JsonShape::Object(
                Seq::new(members@.len(), |i: int| (members@[i].name@, members@[i].value@)),
            ),
        }
    }
}

/// The structure that `serde_json` finds in a text.
pub uninterp spec fn json_shape(text: Seq<u8>) -> JsonShape;

/// Calls `serde_json::from_slice` for a value of any kind and hands out its
/// parts, each written as JSON again by `serde_json::Value::to_string`. What it
/// finds depends on the text alone.
#[verifier::external_body]
pub(crate) fn read_parts(text: &[u8]) -> (parts: JsonParts)
    ensures
        parts.shape() == json_shape(text@),
{
    match serde_json::from_slice::<serde_json::Value>(text) {
        Err(_) => JsonParts::Malformed,
        Ok(serde_json::Value::String(text)) => JsonParts::Text(text),
        Ok(serde_json::Value::Number(n)) => n.as_u64().map_or(JsonParts::Scalar, JsonParts::Count),
        Ok(serde_json::Value::Array(items)) => JsonParts::List(
            items.into_iter().map(|item| item.to_string().into_bytes()).collect(),
        ),
        Ok(serde_json::Value::Object(members)) => JsonParts::Object(
            members.into_iter().map(
                |(name, value)| JsonMember { name, value: value.to_string().into_bytes() },
            ).collect(),
        ),
        Ok(_) => JsonParts::Scalar,
    }
}

/// The string that a text holds.
pub open spec fn json_string(text: Seq<u8>) -> Option<Seq<char>> {
    match json_shape(text) {
        JsonShape::Text(string) => Some(string),
        _ => None,
    }
}

/// Reads a string.
pub fn read_string(text: &[u8]) -> (string: Option<String>)
    ensures
        match json_string(text@) {
            Some(s) => string matches Some(found) && found@ == s,
            None => string is None,
        },
{
    match read_parts(text) {
        JsonParts::Text(string) => Some(string),
        _ => None,
    }
}

/// The unsigned numbers that the first `n` texts hold, if each holds one.
pub open spec fn counted(items: Seq<Seq<u8>>, n: int) -> Option<Seq<u64>>
    decreases n,
{
    if n <= 0 {
        Some(Seq::empty())
    } else {
        match (counted(items, n - 1), json_shape(items[n - 1])) {
            (Some(numbers), JsonShape::Count(k)) => Some(numbers.push(k)),
            _ => None,
        }
    }
}

/// The list of unsigned numbers that a text holds.
pub open spec fn json_numbers(text: Seq<u8>) -> Option<Seq<u64>> {
    match json_shape(text) {
        JsonShape::List(items) => counted(items, items.len() as int),
        _ => None,
    }
}

proof fn lemma_counted_stays(items: Seq<Seq<u8>>, i: int, n: int)
    requires
        0 <= i <= n,
        counted(items, i) is None,
    ensures
        counted(items, n) is None,
    decreases n - i,
{
    if i < n {
        lemma_counted_stays(items, i + 1, n);
    }
}

/// Reads a list of unsigned numbers.
pub fn read_numbers(text: &[u8]) -> (numbers: Option<Vec<u64>>)
    ensures
        match json_numbers(text@) {
            Some(list) => numbers matches Some(found) && found@ == list,
            None => numbers is None,
        },
{
    let items: Vec<Vec<u8>> = match read_parts(text) {
        JsonParts::List(items) => items,
        _ => {
            return None;
        },
    };
    let ghost texts = Seq::new(items@.len(), |i: int| items@[i]@);
    let mut numbers: Vec<u64> = Vec::new();
    let mut i: usize = 0;
    while i < items.len()
        invariant
            i <= items@.len(),
            texts == Seq::new(items@.len(), |i: int| items@[i]@),
            json_shape(text@) == JsonShape::List(texts),
            counted(texts, i as int) == Some(numbers@),
        decreases items@.len() - i,
    {
        match read_parts(items[i].as_slice()) {
            JsonParts::Count(k) => {
                numbers.push(k);
            },
            _ => {
                proof {
                    lemma_counted_stays(texts, i + 1, texts.len() as int);
                }
                return None;
            },
        }
        i = i + 1;
    }
    Some(numbers)
}

/// The value of the first member of that name, from index `i` on.
pub open spec fn member_from(
    members: Seq<(Seq<char>, Seq<u8>)>,
    name: Seq<char>,
    i: int,
) -> Option<Seq<u8>>
    decreases members.len() - i,
{
    if i < 0 || i >= members.len() {
        None
    } else if members[i].0 == name {
        Some(members[i].1)
    } else {
        member_from(members, name, i + 1)
    }
}

/// The value of the member of that name.
pub open spec fn member(members: Seq<(Seq<char>, Seq<u8>)>, name: Seq<char>) -> Option<Seq<u8>> {
    member_from(members, name, 0)
}

/// The members as texts.
pub open spec fn member_texts(members: Seq<JsonMember>) -> Seq<(Seq<char>, Seq<u8>)> {
    Seq::new(members.len(), |i: int| (members[i].name@, members[i].value@))
}

/// Finds the member of that name.
pub fn find_member<'a>(members: &'a Vec<JsonMember>, name: &str) -> (value: Option<&'a Vec<u8>>)
    ensures
        match member(member_texts(members@), name@) {
            Some(text) => value matches Some(v) && v@ == text,
            None => value is None,
        },
{
    let mut i: usize = 0;
    while i < members.len()
        invariant
            i <= members@.len(),
            member(member_texts(members@), name@) == member_from(
                member_texts(members@),
                name@,
                i as int,
            ),
        decreases members@.len() - i,
    {
        proof {
            assert(member_texts(members@)[i as int] == (
                members@[i as int].name@,
                members@[i as int].value@,
            ));
        }
        if crate::model::requests::same_text(members[i].name.as_str(), name) {
            return Some(&members[i].value);
        }
        i = i + 1;
    }
    None
}

} // verus!

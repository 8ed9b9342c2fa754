use vstd::prelude::*;

verus! {

/// A JSON number, as far as the library reads it: a non-negative integer, a
/// negative integer, or a number with a fraction or exponent.
#[derive(Clone, Copy, Debug, PartialEq, Eq, Structural)]
pub enum JsonNumber {
    PosInt(u64),
    NegInt(i64),
    Float,
}

/// A parsed JSON document. An object lists its members in order, each name once.
#[derive(Debug)]
pub enum JsonValue {
    Null,
    Bool(bool),
    Number(JsonNumber),
    String(String),
    Array(Vec<JsonValue>),
    Object(Vec<(String, JsonValue)>),
}

/// The value of the first member named `key` among `entries`.
pub open spec fn lookup(entries: Seq<(String, JsonValue)>, key: Seq<char>) -> Option<JsonValue>
    decreases entries.len(),
{
    if entries.len() == 0 {
        None
    } else if entries[0].0@ == key {
        Some(entries[0].1)
    } else {
        lookup(entries.drop_first(), key)
    }
}

impl JsonValue {
    /// The member named `key` of an object; nothing for any other value.
    pub open spec fn spec_get(self, key: Seq<char>) -> Option<JsonValue> {
        match self {
            JsonValue::Object(entries) => lookup(entries@, key),
            _ => None,
        }
    }

    /// The value as a `u64`, where it is a non-negative integer.
    pub open spec fn spec_as_u64(self) -> Option<u64> {
        match self {
            JsonValue::Number(JsonNumber::PosInt(n)) => Some(n),
            _ => None,
        }
    }

    pub open spec fn spec_is_object(self) -> bool {
        self is Object
    }

    /// Look up the member named `key` of an object.
    pub fn get(&self, key: &String) -> (r: Option<&JsonValue>)
        ensures
            match r {
                Some(v) => self.spec_get(key@) == Some(*v),
                None => self.spec_get(key@) is None,
            },
    {
        match self {
            JsonValue::Object(entries) => {
                let mut i: usize = 0;
                assert(entries@.skip(0) =~= entries@);
                while i < entries.len()
                    invariant
                        i <= entries@.len(),
                        self.spec_get(key@) == lookup(entries@, key@),
                        lookup(entries@, key@) == lookup(entries@.skip(i as int), key@),
                    decreases entries@.len() - i,
                {
                    proof {
                        assert(entries@.skip(i as int).drop_first() =~= entries@.skip(i as int + 1));
                    }
                    if entries[i].0 == *key {
                        return Some(&entries[i].1);
                    }
                    i = i + 1;
                }
                None
            },
            _ => None,
        }
    }

    /// The value as a `u64`, where it is a non-negative integer.
    pub fn as_u64(&self) -> (r: Option<u64>)
        ensures
            r == self.spec_as_u64(),
    {
        match self {
            JsonValue::Number(JsonNumber::PosInt(n)) => Some(*n),
            _ => None,
        }
    }

    /// Whether the value is an object.
    pub fn is_object(&self) -> (r: bool)
        ensures
            r == self.spec_is_object(),
    {
        match self {
            JsonValue::Object(_) => true,
            _ => false,
        }
    }
}

/// `serde_json::Value`, the document that `serde_json` parses text into; it is
/// carried only inside the parse below.
#[verifier::external_type_specification]
#[verifier::external_body]
pub struct ExJsonDocument(serde_json::Value);

/// The document that `serde_json` parses `text` into, in the library's model;
/// nothing where the text is not JSON.
pub uninterp spec fn json_parse(text: Seq<char>) -> Option<JsonValue>;

/// A character that JSON counts as whitespace: space, newline, tab or carriage
/// return.
pub open spec fn is_json_whitespace(c: char) -> bool {
    c == ' ' || c == '\n' || c == '\t' || c == '\r'
}

/// `text` starts with a complete JSON document `head` and goes on with `rest`,
/// which holds something other than whitespace after it. Where the document is
/// a number, `rest` must begin with whitespace, so that it cannot continue the
/// number.
pub open spec fn document_then_trailing(text: Seq<char>, head: Seq<char>, rest: Seq<char>) -> bool {
    &&& text == head + rest
    &&& json_parse(head) is Some
    &&& (json_parse(head)->0 is Number ==> rest.len() > 0 && is_json_whitespace(rest[0]))
    &&& exists|i: int| 0 <= i < rest.len() && !is_json_whitespace(#[trigger] rest[i])
}

/// `text` is a JSON document followed by more than whitespace.
pub open spec fn has_trailing_text(text: Seq<char>) -> bool {
    exists|head: Seq<char>, rest: Seq<char>| #[trigger] document_then_trailing(text, head, rest)
}

/// Calls `serde_json::from_str::<serde_json::Value>` on `text` and takes the
/// parsed document into the library's model. Parsing depends on the text
/// alone; which texts parse, and into what, is left to the name `json_parse`.
/// `from_str` requires the whole text to be one document: after the value it
/// reads it skips whitespace (space, `\n`, `\t`, `\r`) and fails with
/// `TrailingCharacters` on anything else. A document other than a number ends
/// at a fixed character (a closing bracket or quote, the last letter of
/// `true`, `false`, `null`), and a number ends at whitespace, so a text made of
/// a document and then more than whitespace does not parse.
#[verifier::external_body]
pub(crate) fn parse_json(text: &str) -> (r: Option<JsonValue>)
    ensures
        r == json_parse(text@),
        has_trailing_text(text@) ==> r is None,
{
    match serde_json::from_str::<serde_json::Value>(text) {
        Ok(doc) => Some(document_model(&doc)),
        Err(_) => None,
    }
}

/// Converts a parsed `serde_json::Value` into the library's model, one node for
/// one node: a number becomes `PosInt` where `as_u64` gives it, `NegInt` where
/// `as_i64` does, and `Float` otherwise; an object keeps its members in the
/// order `serde_json` holds them. Used by `parse_json` alone.
#[verifier::external_body]
fn document_model(doc: &serde_json::Value) -> JsonValue {
    match doc {
        serde_json::Value::Null => JsonValue::Null,
        serde_json::Value::Bool(b) => JsonValue::Bool(*b),
        serde_json::Value::Number(n) => JsonValue::Number(match (n.as_u64(), n.as_i64()) {
            (Some(u), _) => JsonNumber::PosInt(u),
            (None, Some(i)) => JsonNumber::NegInt(i),
            (None, None) => JsonNumber::Float,
        }),
        serde_json::Value::String(s) => JsonValue::String(s.clone()),
        serde_json::Value::Array(items) => JsonValue::Array(items.iter().map(document_model).collect()),
        serde_json::Value::Object(map) => JsonValue::Object(map.iter().map(|(k, v)| (k.clone(), document_model(v))).collect()),
    }
}

} // verus!

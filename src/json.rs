//! A JSON value tree that the normalising logic reads, and the parse of JSON
//! text into it.
use vstd::prelude::*;
use crate::text::text_eq;

verus! {

/// A JSON value.
pub enum Json {
    Null,
    Bool(bool),
    /// A number that is an integer within the range of `i64`.
    Int(i64),
    /// Any other number: fractional, or outside the range of `i64`.
    OtherNumber,
    Str(String),
    Array(Vec<Json>),
    /// The members of an object, in the order the parser gave them.
    Object(Vec<(String, Json)>),
}

/// The value of the first member of `fields` named `key`.
pub open spec fn lookup(fields: Seq<(String, Json)>, key: Seq<char>) -> Option<Json>
    decreases fields.len(),
{
    if fields.len() == 0 {
        None
    } else if fields[0].0@ == key {
        Some(fields[0].1)
    } else {
        lookup(fields.drop_first(), key)
    }
}

/// The value behind an optional reference.
pub open spec fn deref_opt(r: Option<&Json>) -> Option<Json> {
    match r {
        Some(x) => Some(*x),
        None => None,
    }
}

impl Json {
    /// The member `key` of an object; nothing for other values.
    pub open spec fn field(self, key: Seq<char>) -> Option<Json> {
        match self {
            Json::Object(fields) => lookup(fields@, key),
            _ => None,
        }
    }

    /// The characters of a string value.
    pub open spec fn text(self) -> Option<Seq<char>> {
        match self {
            Json::Str(s) => Some(s@),
            _ => None,
        }
    }

    /// The value of an integer that fits in `i64`.
    pub open spec fn integer(self) -> Option<i64> {
        match self {
            Json::Int(n) => Some(n),
            _ => None,
        }
    }

    /// The elements of an array.
    pub open spec fn items(self) -> Option<Seq<Json>> {
        match self {
            Json::Array(v) => Some(v@),
            _ => None,
        }
    }

    /// The value of a boolean.
    pub open spec fn boolean(self) -> Option<bool> {
        match self {
            Json::Bool(b) => Some(b),
            _ => None,
        }
    }

    /// The member `key`, if present.
    pub fn get(&self, key: &str) -> (r: Option<&Json>)
        ensures
            deref_opt(r) == self.field(key@),
    {
        match self {
            Json::Object(fields) => {
                let mut i: usize = 0;
                proof {
                    assert(fields@.subrange(0, fields@.len() as int) =~= fields@);
                }
                while i < fields.len()
                    invariant
                        0 <= i <= fields@.len(),
                        self.field(key@) == lookup(fields@, key@),
                        lookup(fields@, key@) == lookup(
                            fields@.subrange(i as int, fields@.len() as int),
                            key@,
                        ),
                    decreases fields@.len() - i,
                {
                    assert(fields@.subrange(i as int, fields@.len() as int).drop_first()
                        =~= fields@.subrange(i + 1, fields@.len() as int));
                    assert(fields@.subrange(i as int, fields@.len() as int)[0] == fields@[i as int]);
                    if text_eq(fields[i].0.as_str(), key) {
                        let found = &fields[i].1;
                        assert(lookup(fields@.subrange(i as int, fields@.len() as int), key@)
                            == Some(fields@[i as int].1));
                        assert(*found == fields@[i as int].1);
                        return Some(found);
                    }
                    i += 1;
                }
                None
            },
            _ => None,
        }
    }

    /// The string, if this is one.
    pub fn as_str(&self) -> (r: Option<&String>)
        ensures
            match r {
                Some(s) => self.text() == Some(s@),
                None => self.text() is None,
            },
    {
        match self {
            Json::Str(s) => Some(s),
            _ => None,
        }
    }

    /// The integer, if this is one that fits in `i64`.
    pub fn as_i64(&self) -> (r: Option<i64>)
        ensures
            r == self.integer(),
    {
        match self {
            Json::Int(n) => Some(*n),
            _ => None,
        }
    }

    /// The elements, if this is an array.
    pub fn as_array(&self) -> (r: Option<&Vec<Json>>)
        ensures
            match r {
                Some(v) => self.items() == Some(v@),
                None => self.items() is None,
            },
    {
        match self {
            Json::Array(v) => Some(v),
            _ => None,
        }
    }

    /// The boolean, if this is one.
    pub fn as_bool(&self) -> (r: Option<bool>)
        ensures
            r == self.boolean(),
    {
        match self {
            Json::Bool(b) => Some(*b),
            _ => None,
        }
    }

    /// Whether this is `null`.
    pub fn is_null(&self) -> (r: bool)
        ensures
            r == (*self is Null),
    {
        match self {
            Json::Null => true,
            _ => false,
        }
    }
}

/// The characters of an optional string value.
pub open spec fn opt_text(o: Option<Json>) -> Option<Seq<char>> {
    match o {
        Some(j) => j.text(),
        None => None,
    }
}

/// The characters of an optional string value, or `d`.
pub open spec fn text_or(o: Option<Json>, d: Seq<char>) -> Seq<char> {
    match opt_text(o) {
        Some(t) => t,
        None => d,
    }
}

/// The value of an optional integer.
pub open spec fn opt_int(o: Option<Json>) -> Option<i64> {
    match o {
        Some(j) => j.integer(),
        None => None,
    }
}

/// The elements of an optional array.
pub open spec fn opt_items(o: Option<Json>) -> Option<Seq<Json>> {
    match o {
        Some(j) => j.items(),
        None => None,
    }
}

/// The value of an optional boolean.
pub open spec fn opt_bool(o: Option<Json>) -> Option<bool> {
    match o {
        Some(j) => j.boolean(),
        None => None,
    }
}

/// The characters of an optional string.
pub open spec fn opt_view(o: Option<String>) -> Option<Seq<char>> {
    match o {
        Some(s) => Some(s@),
        None => None,
    }
}

/// The characters of each string.
pub open spec fn texts(v: Seq<String>) -> Seq<Seq<char>> {
    v.map_values(|s: String| s@)
}

/// The results of `f` that are present, in order.
pub open spec fn filter_map<A, B>(s: Seq<A>, f: spec_fn(A) -> Option<B>) -> Seq<B>
    decreases s.len(),
{
    if s.len() == 0 {
        Seq::empty()
    } else {
        let init = filter_map(s.drop_last(), f);
        match f(s.last()) {
            Some(b) => init.push(b),
            None => init,
        }
    }
}

/// One more element of `s` adds its result, if any, at the end.
pub proof fn lemma_filter_map_step<A, B>(s: Seq<A>, i: int, f: spec_fn(A) -> Option<B>)
    requires
        0 <= i < s.len(),
    ensures
        filter_map(s.subrange(0, i + 1), f) == match f(s[i]) {
            Some(b) => filter_map(s.subrange(0, i), f).push(b),
            None => filter_map(s.subrange(0, i), f),
        },
{
    assert(s.subrange(0, i + 1).drop_last() =~= s.subrange(0, i));
}

/// Adding an element without a result leaves the results unchanged; adding
/// one with a result appends it.
pub proof fn lemma_filter_map_push<A, B>(s: Seq<A>, x: A, f: spec_fn(A) -> Option<B>)
    ensures
        filter_map(s.push(x), f) == match f(x) {
            Some(b) => filter_map(s, f).push(b),
            None => filter_map(s, f),
        },
{
    assert(s.push(x).drop_last() =~= s);
}

/// A copy of the string member `key`, if present.
pub fn text_at(v: &Json, key: &str) -> (r: Option<String>)
    ensures
        opt_view(r) == opt_text(v.field(key@)),
{
    match v.get(key) {
        Some(x) => match x.as_str() {
            Some(s) => Some(s.clone()),
            None => None,
        },
        None => None,
    }
}

/// A copy of the string member `key`, or of `default` when it is absent or
/// not a string.
pub fn text_at_or(v: &Json, key: &str, default: &str) -> (r: String)
    ensures
        r@ == text_or(v.field(key@), default@),
{
    match text_at(v, key) {
        Some(s) => s,
        None => String::from_str(default),
    }
}

/// The array member `key`, if present.
pub fn items_at<'a>(v: &'a Json, key: &str) -> (r: Option<&'a Vec<Json>>)
    ensures
        match r {
            Some(a) => opt_items(v.field(key@)) == Some(a@),
            None => opt_items(v.field(key@)) is None,
        },
{
    match v.get(key) {
        Some(x) => x.as_array(),
        None => None,
    }
}

#[verifier::external_type_specification]
#[verifier::external_body]
pub struct ExSerdeJsonValue(serde_json::Value);

/// The value that serde_json reads from a JSON text, if the text is valid JSON.
pub uninterp spec fn json_from_text(text: Seq<char>) -> Option<Json>;

/// The value that serde_json reads from JSON bytes, or the text of its error.
pub uninterp spec fn json_from_bytes(bytes: Seq<u8>) -> Result<Json, Seq<char>>;

/// Converts serde_json's value tree into a `Json`, variant for variant.
#[verifier::external_body]
fn from_serde(v: serde_json::Value) -> Json {
    match v {
        serde_json::Value::Null => Json::Null,
        serde_json::Value::Bool(b) => Json::Bool(b),
        serde_json::Value::Number(n) => n.as_i64().map_or(Json::OtherNumber, Json::Int),
        serde_json::Value::String(s) => Json::Str(s),
        serde_json::Value::Array(a) => Json::Array(a.into_iter().map(from_serde).collect()),
        serde_json::Value::Object(m) => Json::Object(m.into_iter().map(|(k, x)| (k, from_serde(x))).collect()),
    }
}

/// Relies on serde_json::from_str: parses JSON text; the value depends on the
/// text alone.
#[verifier::external_body]
pub(crate) fn parse_json_text(text: &str) -> (r: Option<Json>)
    ensures
        r == json_from_text(text@),
{
    serde_json::from_str::<serde_json::Value>(text).ok().map(from_serde)
}

/// Relies on serde_json::from_slice: parses JSON bytes, or reports the
/// parser's error text; both depend on the bytes alone.
#[verifier::external_body]
pub(crate) fn parse_json_bytes(bytes: &[u8]) -> (r: Result<Json, String>)
    ensures
        match r {
            Ok(j) => json_from_bytes(bytes@) == Ok::<Json, Seq<char>>(j),
            Err(e) => json_from_bytes(bytes@) == Err::<Json, Seq<char>>(e@),
        },
{
    match serde_json::from_slice::<serde_json::Value>(bytes) {
        Ok(v) => Ok(from_serde(v)),
        Err(e) => Err(e.to_string()),
    }
}

} // verus!

use vstd::prelude::*;

verus! {

/// The text that serde_json writes for a list of strings.
pub uninterp spec fn json_string_array(items: Seq<Seq<char>>) -> Seq<char>;

/// The text that serde_json writes for one string: the string quoted, with its special
/// characters escaped.
pub uninterp spec fn json_string_text(s: Seq<char>) -> Seq<char>;

/// The entries, in key order, of a JSON object whose values are all strings, as serde_json
/// reads it; `None` when the text is no such object.
pub uninterp spec fn json_string_map_entries(text: Seq<char>) -> Option<Seq<(Seq<char>, Seq<char>)>>;

/// The members of a JSON object, in key order, each value as its own JSON text, as serde_json
/// reads it; `None` when the text is no JSON object.
pub uninterp spec fn json_object_members(text: Seq<char>) -> Option<Seq<(Seq<char>, Seq<char>)>>;

/// A JSON string or `null`, as serde_json reads it: `Some(Some(s))` for a string,
/// `Some(None)` for `null`, `None` for any other text.
pub uninterp spec fn json_optional_string(text: Seq<char>) -> Option<Option<Seq<char>>>;

pub open spec fn pairs_view(v: Seq<(String, String)>) -> Seq<(Seq<char>, Seq<char>)> {
    v.map_values(|p: (String, String)| (p.0@, p.1@))
}

pub open spec fn keys_unique(fields: Seq<(Seq<char>, Seq<char>)>) -> bool {
    forall|i: int, j: int|
        0 <= i < fields.len() && 0 <= j < fields.len() && i != j ==> fields[i].0 != fields[j].0
}

/// Relies on serde_json::to_string on a slice of strings: a JSON array of those strings, in
/// order. It fails only when a `Serialize` impl fails or a map has keys that are not
/// strings, neither of which a slice of strings can do.
#[verifier::external_body]
pub(crate) fn encode_string_array(items: &Vec<String>) -> (r: Option<String>)
    ensures
        r is Some,
        r->0@ == json_string_array(items.deep_view()),
{
    serde_json::to_string(items.as_slice()).ok()
}

/// Relies on serde_json::to_string on a `&str`: the string as a JSON string. It fails only
/// when a `Serialize` impl fails or a map has keys that are not strings, neither of which a
/// string can do.
#[verifier::external_body]
pub(crate) fn encode_string(s: &str) -> (r: Option<String>)
    ensures
        r is Some,
        r->0@ == json_string_text(s@),
{
    serde_json::to_string(s).ok()
}

/// Relies on serde_json::from_str into a `BTreeMap<String, String>`: the entries of the
/// object, in key order; `None` when the text is not a JSON object of strings.
#[verifier::external_body]
pub(crate) fn decode_string_map(text: &str) -> (r: Option<Vec<(String, String)>>)
    ensures
        r matches Some(v) ==> json_string_map_entries(text@) == Some(pairs_view(v@)),
        r is None ==> json_string_map_entries(text@) is None,
{
    serde_json::from_str::<std::collections::BTreeMap<String, String>>(text)
        .ok()
        .map(|m| m.into_iter().collect())
}

/// Relies on serde_json::from_str into a `BTreeMap<String, Box<RawValue>>` and on
/// `RawValue::get`: the members of the object, in key order, each value as the JSON text it
/// was written as; `None` when the text is not a JSON object.
#[verifier::external_body]
pub(crate) fn decode_object_members(text: &str) -> (r: Option<Vec<(String, String)>>)
    ensures
        r matches Some(v) ==> json_object_members(text@) == Some(pairs_view(v@)),
        r is None ==> json_object_members(text@) is None,
{
    serde_json::from_str::<std::collections::BTreeMap<String, Box<serde_json::value::RawValue>>>(
        text,
    )
        .ok()
        .map(|m| m.into_iter().map(|(k, v)| (k, v.get().to_string())).collect())
}

/// Relies on serde_json::from_str into an `Option<String>`: a JSON string or `null`;
/// `None` for any other text.
#[verifier::external_body]
pub(crate) fn decode_optional_string(text: &str) -> (r: Option<Option<String>>)
    ensures
        json_optional_string(text@) == match r {
            Some(Some(s)) => Some(Some(s@)),
            Some(None) => Some(None::<Seq<char>>),
            None => None::<Option<Seq<char>>>,
        },
{
    serde_json::from_str::<Option<String>>(text).ok()
}

} // verus!

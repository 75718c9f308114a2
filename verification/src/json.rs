use vstd::prelude::*;

verus! {

/// `serde_json::Value`: a JSON value, carried as it is. What it holds is
/// spoken of through `json_view`.
#[verifier::external_type_specification]
#[verifier::external_body]
pub struct ExJsonValue(serde_json::Value);

/// `serde_json::Map`: the entries of a JSON object, carried as they are.
/// What it holds is spoken of through `object_view`.
#[verifier::external_type_specification]
#[verifier::external_body]
#[verifier::reject_recursive_types(K)]
#[verifier::reject_recursive_types(V)]
pub struct ExJsonMap<K, V>(serde_json::Map<K, V>);

/// The mathematical content of a JSON value. A number that is not a
/// non-negative integer is kept only as `Other`.
pub enum JsonView {
    Null,
    Bool(bool),
    Unsigned(nat),
    Other,
    Text(Seq<char>),
    Array(Seq<JsonView>),
    Object(Map<Seq<char>, JsonView>),
}

/// What a `serde_json::Value` holds.
pub uninterp spec fn json_view(v: serde_json::Value) -> JsonView;

/// The entries of a `serde_json::Map`, by key.
pub uninterp spec fn object_view(m: serde_json::Map<String, serde_json::Value>) -> Map<
    Seq<char>,
    JsonView,
>;

/// What `serde_json::from_str` makes of a text, as a value: `None` where it
/// reports an error.
pub uninterp spec fn json_document(text: Seq<char>) -> Option<JsonView>;

/// What `serde_json::to_string_pretty` writes for a value: `None` where it
/// reports an error.
pub uninterp spec fn pretty_json(v: serde_json::Value) -> Option<Seq<char>>;

/// The view of a value that may be absent.
pub open spec fn document_view(doc: Option<serde_json::Value>) -> Option<JsonView> {
    match doc {
        Some(v) => Some(json_view(v)),
        None => None,
    }
}

/// The views of a sequence of values, in order.
pub open spec fn json_views(items: Seq<serde_json::Value>) -> Seq<JsonView> {
    items.map_values(|v: serde_json::Value| json_view(v))
}

/// The member of an object under a key: `None` for a missing key and for a
/// value that is no object.
pub open spec fn member(v: JsonView, key: Seq<char>) -> Option<JsonView> {
    match v {
        JsonView::Object(entries) => if entries.contains_key(key) {
            Some(entries[key])
        } else {
            None
        },
        _ => None,
    }
}

/// The object without entries.
pub open spec fn no_entries() -> Map<Seq<char>, JsonView> {
    Map::empty()
}

/// The entries are finitely many, and `n` in number.
pub open spec fn has_size(entries: Map<Seq<char>, JsonView>, n: nat) -> bool {
    entries.dom().finite() && entries.len() == n
}

/// The entries of an object; `None` for any other value.
pub open spec fn entries_of(v: JsonView) -> Option<Map<Seq<char>, JsonView>> {
    match v {
        JsonView::Object(entries) => Some(entries),
        _ => None,
    }
}

/// The text of a string value; `None` for any other value.
pub open spec fn text_of(v: JsonView) -> Option<Seq<char>> {
    match v {
        JsonView::Text(s) => Some(s),
        _ => None,
    }
}

/// Calls `serde_json::from_str` for a `Value`. The contract names the outcome
/// `json_document`: it depends on the text alone, and an error becomes `None`.
#[verifier::external_body]
pub(crate) fn parse_document(text: &str) -> (res: Option<serde_json::Value>)
    ensures
        document_view(res) == json_document(text@),
{
    match serde_json::from_str::<serde_json::Value>(text) {
        Ok(v) => Some(v),
        Err(_) => None,
    }
}

/// Calls `serde_json::Value::get` with a string key: the entry under that key
/// where the value is an object that has it, `None` otherwise.
#[verifier::external_body]
pub(crate) fn value_member<'a>(v: &'a serde_json::Value, key: &str) -> (res: Option<
    &'a serde_json::Value,
>)
    ensures
        match res {
            Some(inner) => member(json_view(*v), key@) == Some(json_view(*inner)),
            None => member(json_view(*v), key@).is_none(),
        },
{
    v.get(key)
}

/// Calls `serde_json::Value::as_object`: the map of an object, `None` for any
/// other value.
#[verifier::external_body]
pub(crate) fn value_entries<'a>(v: &'a serde_json::Value) -> (res: Option<
    &'a serde_json::Map<String, serde_json::Value>,
>)
    ensures
        match res {
            Some(m) => entries_of(json_view(*v)) == Some(object_view(*m)),
            None => entries_of(json_view(*v)).is_none(),
        },
{
    v.as_object()
}

/// Calls `serde_json::Value::as_str`: the text of a string value, `None` for
/// any other value.
#[verifier::external_body]
pub(crate) fn value_text<'a>(v: &'a serde_json::Value) -> (res: Option<&'a str>)
    ensures
        match res {
            Some(s) => text_of(json_view(*v)) == Some(s@),
            None => text_of(json_view(*v)).is_none(),
        },
{
    v.as_str()
}

/// Calls `serde_json::Map::len`: the number of entries, which is finite.
#[verifier::external_body]
pub(crate) fn object_len(m: &serde_json::Map<String, serde_json::Value>) -> (res: usize)
    ensures
        has_size(object_view(*m), res as nat),
{
    m.len()
}

/// Calls `serde_json::Map::new`: a map without entries.
#[verifier::external_body]
pub(crate) fn object_new() -> (res: serde_json::Map<String, serde_json::Value>)
    ensures
        object_view(res) == no_entries(),
{
    serde_json::Map::new()
}

/// Calls `serde_json::Map::insert`: the key then maps to the value, and the
/// other entries stay. The value that was replaced, if any, is dropped.
#[verifier::external_body]
pub(crate) fn object_insert(
    m: &mut serde_json::Map<String, serde_json::Value>,
    key: String,
    value: serde_json::Value,
)
    ensures
        object_view(*final(m)) == object_view(*old(m)).insert(key@, json_view(value)),
{
    m.insert(key, value);
}

/// Builds `serde_json::Value::Object` from a map.
#[verifier::external_body]
pub(crate) fn object_value(m: serde_json::Map<String, serde_json::Value>) -> (res:
    serde_json::Value)
    ensures
        json_view(res) == JsonView::Object(object_view(m)),
{
    serde_json::Value::Object(m)
}

/// Builds `serde_json::Value::Array` from its items.
#[verifier::external_body]
pub(crate) fn array_value(items: Vec<serde_json::Value>) -> (res: serde_json::Value)
    ensures
        json_view(res) == JsonView::Array(json_views(items@)),
{
    serde_json::Value::Array(items)
}

/// Builds `serde_json::Value::String` from a text.
#[verifier::external_body]
pub(crate) fn text_value(text: String) -> (res: serde_json::Value)
    ensures
        json_view(res) == JsonView::Text(text@),
{
    serde_json::Value::String(text)
}

/// Calls `serde_json::Value::from` on a `u64`: the number with that value.
#[verifier::external_body]
pub(crate) fn unsigned_value(n: u64) -> (res: serde_json::Value)
    ensures
        json_view(res) == JsonView::Unsigned(n as nat),
{
    serde_json::Value::from(n)
}

/// Calls `serde_json::to_string_pretty` on a value. The contract names the
/// outcome `pretty_json`: it depends on the value alone, and an error becomes
/// `None`. Nothing else is claimed of the text.
#[verifier::external_body]
pub(crate) fn pretty_text(v: &serde_json::Value) -> (res: Option<String>)
    ensures
        match res {
            Some(text) => pretty_json(*v) == Some(text@),
            None => pretty_json(*v).is_none(),
        },
{
    match serde_json::to_string_pretty(v) {
        Ok(s) => Some(s),
        Err(_) => None,
    }
}

} // verus!

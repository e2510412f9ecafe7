//! JSON documents, as far as a power can be read from them.

use serde_json::Value;
use vstd::prelude::*;

verus! {

broadcast use vstd::string::group_string_axioms;

/// A JSON value of `serde_json`.
#[verifier::external_type_specification]
#[verifier::external_body]
pub struct ExValue(serde_json::Value);

/// A JSON value, as far as a power can be read from it.
pub enum JsonTree {
    /// A number: the bits of the double that stands for it, if one does.
    Number(Option<u64>),
    Text(Seq<char>),
    /// The members by name.
    Object(Seq<(Seq<char>, JsonTree)>),
    /// Null, a boolean or an array.
    Other,
}

/// A JSON value, as far as a power can be read from it.
#[derive(Debug)]
pub enum Json {
    Number(Option<u64>),
    Text(String),
    Object(Vec<(String, Json)>),
    Other,
}

/// The tree of a JSON value.
pub open spec fn tree(json: Json) -> JsonTree
    decreases json,
{
    match json {
        Json::Number(n) => JsonTree::Number(n),
        Json::Text(s) => JsonTree::Text(s@),
        Json::Object(members) => JsonTree::Object(
            Seq::new(
                members@.len(),
                |i: int|
                    if 0 <= i < members@.len() {
                        (members@[i].0@, tree(members@[i].1))
                    } else {
                        arbitrary()
                    },
            ),
        ),
        Json::Other => JsonTree::Other,
    }
}

/// The tree of a value of `serde_json`.
pub uninterp spec fn json_content(value: serde_json::Value) -> JsonTree;

/// The tree of a JSON document, if the text is one.
pub uninterp spec fn json_document(text: Seq<char>) -> Option<JsonTree>;

/// The outermost layer of a value of `serde_json`.
enum Layer<'a> {
    Number(Option<u64>),
    Text(&'a str),
    Object(Vec<(&'a str, &'a Value)>),
    Other,
}

/// The tree of which this is the outermost layer.
spec fn layer_tree(layer: Layer) -> JsonTree {
    match layer {
        Layer::Number(n) => JsonTree::Number(n),
        Layer::Text(s) => JsonTree::Text(s@),
        Layer::Object(members) => JsonTree::Object(
            Seq::new(members@.len(), |i: int| (members@[i].0@, json_content(*members@[i].1))),
        ),
        Layer::Other => JsonTree::Other,
    }
}

/// Reads a JSON document. Calls `serde_json::from_str`: whether the text is a
/// document, and its value, depend on the text alone.
#[verifier::external_body]
fn value_from_str(text: &str) -> (value: Option<Value>)
    ensures
        match value {
            Some(v) => json_document(text@) == Some(json_content(v)),
            None => json_document(text@) is None,
        },
{
    serde_json::from_str(text).ok()
}

/// Takes off the outermost layer of a value. Tells the variants of
/// `serde_json::Value` apart; a number is handed out as the bits of what
/// `Number::as_f64` gives for it, a map as its entries in the order of the map.
#[verifier::external_body]
fn layer_of(value: &Value) -> (layer: Layer<'_>)
    ensures
        layer_tree(layer) == json_content(*value),
{
    match value {
        Value::Null => Layer::Other,
        Value::Bool(_) => Layer::Other,
        Value::Number(n) => Layer::Number(n.as_f64().map(|v| v.to_bits())),
        Value::String(s) => Layer::Text(s),
        Value::Array(_) => Layer::Other,
        Value::Object(m) => Layer::Object(m.iter().map(|(k, v)| (k.as_str(), v)).collect()),
    }
}

fn json_of(value: &Value) -> (json: Json)
    ensures
        tree(json) == json_content(*value),
    decreases json_content(*value),
{
    match layer_of(value) {
        Layer::Number(n) => Json::Number(n),
        Layer::Text(s) => Json::Text(s.to_owned()),
        Layer::Object(members) => {
            let mut out: Vec<(String, Json)> = Vec::new();
            let mut i: usize = 0;
            let ghost entries = json_content(*value)->Object_0;
            while i < members.len()
                invariant
                    i <= members.len(),
                    out@.len() == i,
                    json_content(*value) == JsonTree::Object(entries),
                    entries.len() == members@.len(),
                    forall|j: int|
                        0 <= j < members@.len() ==> #[trigger] entries[j] == (
                            members@[j].0@,
                            json_content(*members@[j].1),
                        ),
                    forall|j: int|
                        0 <= j < i ==> (#[trigger] out@[j]).0@ == members@[j].0@ && tree(out@[j].1)
                            == json_content(*members@[j].1),
                decreases members.len() - i,
            {
                let (key, member) = &members[i];
                assert(entries[i as int].1 == json_content(**member));
                assert(decreases_to!(json_content(*value) => json_content(*value)->Object_0));
                assert(decreases_to!(entries => entries[i as int]));
                assert(decreases_to!(entries[i as int] => entries[i as int].1));
                out.push(((*key).to_owned(), json_of(member)));
                i += 1;
            }
            let json = Json::Object(out);
            assert(tree(json)->Object_0 =~= entries);
            json
        },
        Layer::Other => Json::Other,
    }
}

/// Reads a JSON document.
pub fn parse_json(text: &str) -> (json: Option<Json>)
    ensures
        match json {
            Some(j) => json_document(text@) == Some(tree(j)),
            None => json_document(text@) is None,
        },
{
    match value_from_str(text) {
        Some(value) => Some(json_of(&value)),
        None => None,
    }
}

} // verus!

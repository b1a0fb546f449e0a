//! JSON documents, as `serde_json` holds them, and the few questions that
//! the library asks of one.
//!
//! A document is described by what stands at each of its places. A place is
//! the path that leads to it from the top: a key for each object on the way,
//! an index for each array.

use vstd::prelude::*;

verus! {

/// `serde_json::Value`: a JSON document, opaque to the verifier.
#[verifier::external_type_specification]
#[verifier::external_body]
pub struct ExValue(serde_json::Value);

/// One step into a document.
pub enum Step {
    /// Into an object, by a key.
    Key(Seq<char>),
    /// Into an array, by a position counted from 0.
    Index(nat),
}

/// What stands at one place of a document, without what is below it.
pub enum Node {
    Null,
    Bool(bool),
    /// A number: its value if it is written as a non-negative integer of at
    /// most 2^64 - 1, nothing if it is written with a sign, a fraction part
    /// or an exponent (`7.0` and `7e0` are no such number).
    Number(Option<u64>),
    Text(Seq<char>),
    /// An array of this length.
    Array(nat),
    /// An object with these keys, in the order in which it is walked.
    Object(Seq<Seq<char>>),
}

/// The places of a document and what stands at each. The empty path is the
/// place of the document itself.
pub uninterp spec fn json_nodes(v: serde_json::Value) -> Map<Seq<Step>, Node>;

/// The places below one step, seen from there.
pub open spec fn below(m: Map<Seq<Step>, Node>, step: Step) -> Map<Seq<Step>, Node> {
    Map::new(|p: Seq<Step>| m.contains_key(seq![step] + p), |p: Seq<Step>| m[seq![step] + p])
}

/// No place at all.
pub open spec fn nowhere() -> Map<Seq<Step>, Node> {
    Map::empty()
}

/// Whether `node` stands at the top of a document.
pub open spec fn top_is(m: Map<Seq<Step>, Node>, node: Node) -> bool {
    m.contains_key(Seq::empty()) && m[Seq::empty()] == node
}

/// Whether something stands at the top of a document.
pub open spec fn has_top(m: Map<Seq<Step>, Node>) -> bool {
    m.contains_key(Seq::empty())
}

/// What stands at the top of a document.
pub open spec fn top(m: Map<Seq<Step>, Node>) -> Node {
    m[Seq::empty()]
}

/// `serde_json::Value::get` with a text: the value under `key` if `v` is an
/// object that has the key. The places of that value are the places of `v`
/// below the key; where there is no such value, `v` has no place below the
/// key.
#[verifier::external_body]
pub(crate) fn member<'a>(v: &'a serde_json::Value, key: &str) -> (r: Option<&'a serde_json::Value>)
    ensures
        match r {
            Some(c) => json_nodes(*c) == below(json_nodes(*v), Step::Key(key@)),
            None => below(json_nodes(*v), Step::Key(key@)) == nowhere(),
        },
{
    v.get(key)
}

/// `serde_json::Value::get` with a number: the value at position `i` if `v`
/// is an array that long. The places of that value are the places of `v`
/// below the position; where there is no such value, `v` has no place below
/// the position.
#[verifier::external_body]
pub(crate) fn element<'a>(v: &'a serde_json::Value, i: usize) -> (r: Option<&'a serde_json::Value>)
    ensures
        match r {
            Some(c) => json_nodes(*c) == below(json_nodes(*v), Step::Index(i as nat)),
            None => below(json_nodes(*v), Step::Index(i as nat)) == nowhere(),
        },
{
    v.get(i)
}

/// `serde_json::Value::as_array`: the items of `v` if it is an array, each
/// with the places of `v` below its position.
#[verifier::external_body]
pub(crate) fn elements<'a>(v: &'a serde_json::Value) -> (r: Option<&'a Vec<serde_json::Value>>)
    ensures
        match r {
            Some(items) => top_is(json_nodes(*v), Node::Array(items@.len())) && forall|i: int|
                0 <= i < items@.len() ==> json_nodes(#[trigger] items@[i]) == below(
                    json_nodes(*v),
                    Step::Index(i as nat),
                ),
            None => has_top(json_nodes(*v)) && !(top(json_nodes(*v)) is Array),
        },
{
    v.as_array()
}

/// `serde_json::Map::values`, on the map of `v` if `v` is an object: its
/// values in the order in which the object is walked, each with the places
/// of `v` below its key.
#[verifier::external_body]
pub(crate) fn entries<'a>(v: &'a serde_json::Value) -> (r: Option<Vec<&'a serde_json::Value>>)
    ensures
        match r {
            Some(items) => has_top(json_nodes(*v)) && top(json_nodes(*v)) is Object && top(
                json_nodes(*v),
            )->Object_0.len() == items@.len() && forall|i: int|
                0 <= i < items@.len() ==> json_nodes(*#[trigger] items@[i]) == below(
                    json_nodes(*v),
                    Step::Key(top(json_nodes(*v))->Object_0[i]),
                ),
            None => has_top(json_nodes(*v)) && !(top(json_nodes(*v)) is Object),
        },
{
    match v {
        serde_json::Value::Object(object) => Some(object.values().collect()),
        _ => None,
    }
}

/// `serde_json::Value::as_str`: the text of `v` if it is a text.
#[verifier::external_body]
pub(crate) fn as_text<'a>(v: &'a serde_json::Value) -> (r: Option<&'a str>)
    ensures
        match r {
            Some(s) => top_is(json_nodes(*v), Node::Text(s@)),
            None => has_top(json_nodes(*v)) && !(top(json_nodes(*v)) is Text),
        },
{
    v.as_str()
}

/// `serde_json::Value::as_u64`: the number `v` if it is written as a
/// non-negative integer of at most 2^64 - 1.
#[verifier::external_body]
pub(crate) fn as_unsigned(v: &serde_json::Value) -> (r: Option<u64>)
    ensures
        match r {
            Some(n) => top_is(json_nodes(*v), Node::Number(Some(n))),
            None => has_top(json_nodes(*v)) && !(top(json_nodes(*v)) is Number && top(
                json_nodes(*v),
            )->Number_0 is Some),
        },
{
    v.as_u64()
}

/// `serde_json::Value::as_bool`: the truth value `v` if it is one.
#[verifier::external_body]
pub(crate) fn as_truth(v: &serde_json::Value) -> (r: Option<bool>)
    ensures
        match r {
            Some(b) => top_is(json_nodes(*v), Node::Bool(b)),
            None => has_top(json_nodes(*v)) && !(top(json_nodes(*v)) is Bool),
        },
{
    v.as_bool()
}

/// `serde_json::Value::is_null`: whether `v` is null.
#[verifier::external_body]
pub(crate) fn is_null(v: &serde_json::Value) -> (r: bool)
    ensures
        if r {
            top_is(json_nodes(*v), Node::Null)
        } else {
            has_top(json_nodes(*v)) && !(top(json_nodes(*v)) is Null)
        },
{
    v.is_null()
}

} // verus!

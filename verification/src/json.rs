//! Reading JSON: a document, and what stands at a place in it.
use serde_json::Value;
use vstd::prelude::*;
use vstd::string::*;

use crate::text;

verus! {

broadcast use vstd::string::group_string_axioms;

/// A JSON document, as `serde_json` holds it.
#[verifier::external_type_specification]
#[verifier::external_body]
pub struct ExValue(serde_json::Value);

/// What stands at a place in a document: a text, a list of some length, or something else.
#[derive(Debug, Clone, PartialEq, Eq)]
pub enum JsonNode {
    Text(String),
    List(usize),
    Other,
}

/// The model of what stands at a place.
pub enum NodeModel {
    Text(Seq<char>),
    List(nat),
    Other,
}

impl View for JsonNode {
    type V = NodeModel;

    open spec fn view(&self) -> NodeModel {
        match self {
            JsonNode::Text(s) => NodeModel::Text(s@),
            JsonNode::List(len) => NodeModel::List(*len as nat),
            JsonNode::Other => NodeModel::Other,
        }
    }
}

/// What a document holds, by JSON pointer.
pub uninterp spec fn json_nodes(document: Value) -> Map<Seq<char>, NodeModel>;

/// The document that `serde_json` reads from a text, where it can.
pub uninterp spec fn parsed_json(text: Seq<char>) -> Option<Value>;

/// Calls `serde_json::from_str`: the text is read as a JSON document, or it is none. What
/// document a text stands for is a function of the text alone.
#[verifier::external_body]
pub(crate) fn parse_json(text: &str) -> (res: Option<Value>)
    ensures
        res == parsed_json(text@),
{
    serde_json::from_str::<Value>(text).ok()
}

/// Calls `serde_json::Value::pointer`: what stands at the place that a JSON pointer names,
/// where anything does. What a document holds is a function of the document alone.
#[verifier::external_body]
pub(crate) fn node_at(document: &Value, pointer: &str) -> (res: Option<JsonNode>)
    ensures
        match res {
            Some(node) => json_nodes(*document).contains_key(pointer@)
                && json_nodes(*document)[pointer@] == node@,
            None => !json_nodes(*document).contains_key(pointer@),
        },
{
    match document.pointer(pointer)? {
        Value::String(s) => Some(JsonNode::Text(s.clone())),
        Value::Array(items) => Some(JsonNode::List(items.len())),
        _ => Some(JsonNode::Other),
    }
}

/// The text at a place, where one stands there.
pub open spec fn text_in(nodes: Map<Seq<char>, NodeModel>, pointer: Seq<char>) -> Option<Seq<char>> {
    if nodes.contains_key(pointer) {
        match nodes[pointer] {
            NodeModel::Text(s) => Some(s),
            _ => None,
        }
    } else {
        None
    }
}

/// The length of the list at a place, where one stands there.
pub open spec fn list_in(nodes: Map<Seq<char>, NodeModel>, pointer: Seq<char>) -> Option<nat> {
    if nodes.contains_key(pointer) {
        match nodes[pointer] {
            NodeModel::List(len) => Some(len),
            _ => None,
        }
    } else {
        None
    }
}

/// The text at the first of two places, or, where nothing at all stands there, at the
/// second.
pub open spec fn either_text_in(
    nodes: Map<Seq<char>, NodeModel>,
    first: Seq<char>,
    second: Seq<char>,
) -> Option<Seq<char>> {
    if nodes.contains_key(first) {
        text_in(nodes, first)
    } else {
        text_in(nodes, second)
    }
}

/// The text at a place, where one stands there.
pub fn text_at(document: &Value, pointer: &str) -> (res: Option<String>)
    ensures
        text::opt_view(res) == text_in(json_nodes(*document), pointer@),
{
    match node_at(document, pointer) {
        Some(JsonNode::Text(s)) => Some(s),
        _ => None,
    }
}

/// The length of the list at a place, where one stands there.
pub fn list_at(document: &Value, pointer: &str) -> (res: Option<usize>)
    ensures
        match res {
            Some(len) => list_in(json_nodes(*document), pointer@) == Some(len as nat),
            None => list_in(json_nodes(*document), pointer@) is None,
        },
{
    match node_at(document, pointer) {
        Some(JsonNode::List(len)) => Some(len),
        _ => None,
    }
}

/// The text at the first of two places, or, where nothing at all stands there, at the
/// second.
pub fn either_text_at(document: &Value, first: &str, second: &str) -> (res: Option<String>)
    ensures
        text::opt_view(res) == either_text_in(json_nodes(*document), first@, second@),
{
    match node_at(document, first) {
        Some(JsonNode::Text(s)) => Some(s),
        Some(_) => None,
        None => text_at(document, second),
    }
}

/// A text is read where a text stands, and a length where a list stands; what is something else, or
/// stands nowhere, is neither. Of two places the second counts only where nothing at all stands at
/// the first.
pub proof fn law_texts_and_lists_are_read_at_their_place(
    nodes: Map<Seq<char>, NodeModel>,
    pointer: Seq<char>,
    second: Seq<char>,
    said: Seq<char>,
    count: nat,
)
    ensures
        text_in(nodes, pointer) == Some(said) <==> nodes.contains_key(pointer) && nodes[pointer]
            == NodeModel::Text(said),
        list_in(nodes, pointer) == Some(count) <==> nodes.contains_key(pointer) && nodes[pointer]
            == NodeModel::List(count),
        nodes.contains_key(pointer) && nodes[pointer] == NodeModel::Text(said) ==> either_text_in(
            nodes,
            pointer,
            second,
        ) == Some(said),
        nodes.contains_key(pointer) && nodes[pointer] !is Text ==> either_text_in(
            nodes,
            pointer,
            second,
        ) is None,
        !nodes.contains_key(pointer) && nodes.contains_key(second) && nodes[second]
            == NodeModel::Text(said) ==> either_text_in(nodes, pointer, second) == Some(said),
{
}

} // verus!

//! TOML documents as trees of plain values.
//!
//! The `toml` crate parses the text. Its tree is carried over, node for node,
//! into [`Node`], on which the rest of the library works.

use vstd::prelude::*;

verus! {

/// Mathematical value of a [`Node`].
pub enum NodeView {
    String(Seq<char>),
    Integer,
    Float,
    Boolean,
    Datetime,
    Array(Seq<NodeView>),
    /// The entries of a table, in the order in which the parser lists them.
    Table(Seq<(Seq<char>, NodeView)>),
}

/// One node of a parsed document. A scalar other than a string keeps its kind
/// only: no chart is made of its value.
#[derive(Debug, PartialEq, Eq)]
pub enum Node {
    String(String),
    Integer,
    Float,
    Boolean,
    Datetime,
    Array(Vec<Node>),
    Table(Vec<(String, Node)>),
}

impl View for Node {
    type V = NodeView;

    open spec fn view(&self) -> NodeView {
        node_view(*self)
    }
}

/// The value of a node: the node with each string, array and table replaced
/// by its sequence.
pub open spec fn node_view(node: Node) -> NodeView
    decreases node,
{
    match node {
        Node::String(text) => NodeView::String(text@),
        Node::Integer => NodeView::Integer,
        Node::Float => NodeView::Float,
        Node::Boolean => NodeView::Boolean,
        Node::Datetime => NodeView::Datetime,
        Node::Array(items) => NodeView::Array(
            Seq::new(
                items@.len(),
                |i: int|
                    if 0 <= i < items@.len() {
                        node_view(items@[i])
                    } else {
                        arbitrary()
                    },
            ),
        ),
        Node::Table(entries) => NodeView::Table(
            Seq::new(
                entries@.len(),
                |i: int|
                    if 0 <= i < entries@.len() {
                        (entries@[i].0@, node_view(entries@[i].1))
                    } else {
                        arbitrary()
                    },
            ),
        ),
    }
}

/// The values of the items of an array, position by position.
pub open spec fn items_view(items: Seq<Node>) -> Seq<NodeView> {
    Seq::new(items.len(), |i: int| items[i]@)
}

/// The keys and values of the entries of a table, position by position.
pub open spec fn entries_view(entries: Seq<(String, Node)>) -> Seq<(Seq<char>, NodeView)> {
    Seq::new(entries.len(), |i: int| (entries[i].0@, entries[i].1@))
}

/// The value of an array node is the array of its items' values.
pub proof fn lemma_array_view(items: Vec<Node>)
    ensures
        Node::Array(items)@ == NodeView::Array(items_view(items@)),
{
    assert(Node::Array(items)@->Array_0 =~= items_view(items@));
}

/// The value of a table node is the list of its entries' keys and values.
pub proof fn lemma_table_view(entries: Vec<(String, Node)>)
    ensures
        Node::Table(entries)@ == NodeView::Table(entries_view(entries@)),
{
    assert(Node::Table(entries)@->Table_0 =~= entries_view(entries@));
}

/// `toml::Value`, the parser's own tree. What one holds is spoken of through
/// [`toml_tree`].
#[verifier::external_type_specification]
#[verifier::external_body]
pub struct ExTomlValue(toml::Value);

/// `toml::de::Error`, the parser's report of a text that it rejects. Nothing
/// of it is read.
#[verifier::external_type_specification]
#[verifier::external_body]
pub struct ExTomlError(toml::de::Error);

/// The tree that `toml::from_str` reads from a text, or `None` where it
/// rejects the text.
pub uninterp spec fn toml_document(text: Seq<char>) -> Option<NodeView>;

/// What a `toml::Value` holds: its strings, arrays and tables, and the kind of
/// each other scalar. A table's entries stand in the order in which the
/// table's iterator yields them.
pub uninterp spec fn toml_tree(value: toml::Value) -> NodeView;

/// `toml::from_str`, read as a `toml::Value`. The outcome depends on the text
/// alone: the value that [`toml_document`] names, or an error where it names
/// none. The parser follows nesting by recursion, so how deep a text may nest
/// is bounded by the stack of the machine.
#[verifier::external_body]
fn parse_toml(text: &str) -> (outcome: Result<toml::Value, toml::de::Error>)
    ensures
        match outcome {
            Ok(value) => toml_document(text@) == Some(toml_tree(value)),
            Err(_) => toml_document(text@).is_none(),
        },
{
    toml::from_str::<toml::Value>(text)
}

/// Moves a `toml::Value` into a [`Node`], variant by variant: the result's
/// value is what the `toml::Value` holds. Nesting is followed by recursion, as
/// deep as the parser went.
#[verifier::external_body]
fn plain_tree(value: toml::Value) -> (tree: Node)
    ensures
        tree@ == toml_tree(value),
{
    match value {
        toml::Value::String(text) => Node::String(text),
        toml::Value::Integer(_) => Node::Integer,
        toml::Value::Float(_) => Node::Float,
        toml::Value::Boolean(_) => Node::Boolean,
        toml::Value::Datetime(_) => Node::Datetime,
        toml::Value::Array(items) => Node::Array(items.into_iter().map(plain_tree).collect()),
        toml::Value::Table(entries) => Node::Table(
            entries.into_iter().map(|(key, item)| (key, plain_tree(item))).collect(),
        ),
    }
}

/// Parses a TOML text into its tree; `None` where the text is not TOML.
pub fn parse_document(text: &str) -> (doc: Option<Node>)
    ensures
        match doc {
            Some(tree) => toml_document(text@) == Some(tree@),
            None => toml_document(text@).is_none(),
        },
{
    match parse_toml(text) {
        Ok(value) => Some(plain_tree(value)),
        Err(_) => None,
    }
}

} // verus!

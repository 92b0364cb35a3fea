//! A parsed configuration document: nested tables of texts and flags.

use vstd::prelude::*;
use crate::text::text_eq;

verus! {

/// A value of a configuration document.
#[derive(Debug)]
pub enum Node {
    /// A string.
    Text(String),
    /// A boolean.
    Flag(bool),
    /// A table: keys with their values, in the table's order.
    Table(Vec<(String, Node)>),
    /// Any other value: a number, a date or an array.
    Other,
}

/// The mathematical content of a [`Node`].
pub enum NodeView {
    Text(Seq<char>),
    Flag(bool),
    Table(Seq<(Seq<char>, NodeView)>),
    Other,
}

impl View for Node {
    type V = NodeView;

    open spec fn view(&self) -> NodeView
        decreases self,
    {
        match self {
            Node::Text(text) => NodeView::Text(text@),
            Node::Flag(flag) => NodeView::Flag(*flag),
            Node::Table(entries) => NodeView::Table(
                Seq::new(
                    entries@.len(),
                    |i: int|
                        if 0 <= i < entries@.len() {
                            (entries@[i].0@, entries@[i].1.view())
                        } else {
                            (Seq::empty(), NodeView::Other)
                        },
                ),
            ),
            Node::Other => NodeView::Other,
        }
    }
}

/// The views of a table's entries, in order.
pub open spec fn entry_views(entries: Seq<(String, Node)>) -> Seq<(Seq<char>, NodeView)> {
    Seq::new(entries.len(), |i: int| (entries[i].0@, entries[i].1@))
}

/// The view of a table is the table of its entries' views.
pub proof fn lemma_table_view(entries: Vec<(String, Node)>)
    ensures
        Node::Table(entries)@ == NodeView::Table(entry_views(entries@)),
{
    reveal_with_fuel(<Node as View>::view, 2);
    assert(Node::Table(entries)@->Table_0 =~= entry_views(entries@));
}

/// The value of the first entry with the given key.
pub open spec fn first_entry(entries: Seq<(Seq<char>, NodeView)>, key: Seq<char>) -> Option<
    NodeView,
>
    decreases entries.len(),
{
    if entries.len() == 0 {
        None
    } else if entries[0].0 == key {
        Some(entries[0].1)
    } else {
        first_entry(entries.drop_first(), key)
    }
}

/// The key of the first entry whose key is none of `known`.
pub open spec fn first_unknown_key(
    entries: Seq<(Seq<char>, NodeView)>,
    known: Seq<Seq<char>>,
) -> Option<Seq<char>>
    decreases entries.len(),
{
    if entries.len() == 0 {
        None
    } else if !known.contains(entries[0].0) {
        Some(entries[0].0)
    } else {
        first_unknown_key(entries.drop_first(), known)
    }
}

/// The view of an optional borrowed node.
pub open spec fn found_view(found: Option<&Node>) -> Option<NodeView> {
    match found {
        Some(node) => Some(node@),
        None => None,
    }
}

/// Looks up the first entry with the given key.
pub fn find_entry<'a>(entries: &'a Vec<(String, Node)>, key: &str) -> (found: Option<&'a Node>)
    ensures
        found_view(found) == first_entry(entry_views(entries@), key@),
{
    let mut i: usize = 0;
    assert(entry_views(entries@).skip(0) =~= entry_views(entries@));
    while i < entries.len()
        invariant
            i <= entries@.len(),
            first_entry(entry_views(entries@), key@) == first_entry(
                entry_views(entries@).skip(i as int),
                key@,
            ),
        decreases entries@.len() - i,
    {
        assert(entry_views(entries@).skip(i as int).drop_first() =~= entry_views(entries@).skip(
            i + 1,
        ));
        if text_eq(entries[i].0.as_str(), key) {
            return Some(&entries[i].1);
        }
        i += 1;
    }
    None
}

/// What a document holds, once parsed: its top-level table, or the
/// parser's message for a text that is no TOML document.
pub uninterp spec fn toml_document(text: Seq<char>) -> Result<NodeView, Seq<char>>;

/// What a TOML value holds.
pub uninterp spec fn toml_contents(value: toml::Value) -> NodeView;

/// `toml::Value`: a parsed TOML value, carried through as it is.
#[verifier::external_type_specification]
#[verifier::external_body]
pub struct ExTomlValue(toml::Value);

/// Parses `text` with the `FromStr` impl of `toml::Table` and wraps the
/// table as a `toml::Value`; a failure is handed on as the parser's message.
/// The result is a function of the text alone: it is what `toml_document`
/// names, through `toml_contents` for the parsed value.
#[verifier::external_body]
fn parse_value(text: &str) -> (parsed: Result<toml::Value, String>)
    ensures
        match parsed {
            Ok(value) => toml_document(text@) == Ok::<NodeView, Seq<char>>(toml_contents(value)),
            Err(message) => toml_document(text@) == Err::<NodeView, Seq<char>>(message@),
        },
{
    text.parse::<toml::Table>().map(toml::Value::Table).map_err(|e| e.to_string())
}

/// Converts a `toml::Value` variant by variant: a string, a boolean and a
/// table (entries in the table's own order, values converted likewise) keep
/// what they hold; every other variant becomes `Other`. The result is what
/// `toml_contents` names.
#[verifier::external_body]
fn node_of(value: &toml::Value) -> (node: Node)
    ensures
        node@ == toml_contents(*value),
{
    match value {
        toml::Value::String(text) => Node::Text(text.clone()),
        toml::Value::Boolean(flag) => Node::Flag(*flag),
        toml::Value::Table(table) => Node::Table(
            table.iter().map(|(key, inner)| (key.clone(), node_of(inner))).collect(),
        ),
        _ => Node::Other,
    }
}

/// The view of a parse result.
pub open spec fn parsed_view(parsed: Result<Node, String>) -> Result<NodeView, Seq<char>> {
    match parsed {
        Ok(node) => Ok(node@),
        Err(message) => Err(message@),
    }
}

/// Parses a TOML document into its top-level table.
pub fn parse_document(text: &str) -> (parsed: Result<Node, String>)
    ensures
        parsed_view(parsed) == toml_document(text@),
{
    match parse_value(text) {
        Ok(value) => Ok(node_of(&value)),
        Err(message) => Err(message),
    }
}

} // verus!

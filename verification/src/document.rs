//! Structured documents: the common shape of a parsed TOML or JSON text.
//!
//! Both parsers hand back a tree of their own. A descriptor is read from a
//! [`Node`], which keeps of such a tree what a descriptor can hold: strings,
//! booleans, arrays and tables. Numbers and dates are kept as [`Node::Other`],
//! so that a field of the wrong kind can be told from a missing one.

use vstd::prelude::*;

verus! {

/// The mathematical value of a [`Node`].
pub enum Doc {
    /// An explicit null.
    Null,
    /// A boolean.
    Flag(bool),
    /// A string.
    Text(Seq<char>),
    /// An array.
    List(Seq<Doc>),
    /// A table of keyed members, in the order the parser hands them out.
    Table(Seq<(Seq<char>, Doc)>),
    /// Any other scalar: a number or a date.
    Other,
}

/// One keyed member of a table.
#[derive(Debug, PartialEq, Eq)]
pub struct Member {
    pub key: String,
    pub value: Node,
}

/// A parsed document, as far as a descriptor looks into one.
#[derive(Debug, PartialEq, Eq)]
pub enum Node {
    Null,
    Flag(bool),
    Text(String),
    List(Vec<Node>),
    Table(Vec<Member>),
    Other,
}

impl Node {
    /// The document that this node stands for.
    pub open spec fn doc(self) -> Doc
        decreases self,
    {
        match self {
            Node::Null => Doc::Null,
            Node::Flag(b) => Doc::Flag(b),
            Node::Text(s) => Doc::Text(s@),
            Node::List(items) => Doc::List(
                Seq::new(
                    items@.len(),
                    |i: int|
                        if 0 <= i < items@.len() {
                            items@[i].doc()
                        } else {
                            Doc::Null
                        },
                ),
            ),
            Node::Table(members) => Doc::Table(
                Seq::new(
                    members@.len(),
                    |i: int|
                        if 0 <= i < members@.len() {
                            (members@[i].key@, members@[i].value.doc())
                        } else {
                            (Seq::<char>::empty(), Doc::Null)
                        },
                ),
            ),
            Node::Other => Doc::Other,
        }
    }
}

impl View for Node {
    type V = Doc;

    open spec fn view(&self) -> Doc {
        self.doc()
    }
}

/// The value of the first member of `table` at or after position `from` whose
/// key is `key`.
pub open spec fn member_from(table: Seq<(Seq<char>, Doc)>, key: Seq<char>, from: int) -> Option<Doc>
    decreases table.len() - from,
{
    if from < 0 || from >= table.len() {
        None
    } else if table[from].0 == key {
        Some(table[from].1)
    } else {
        member_from(table, key, from + 1)
    }
}

/// The value that `table` holds under `key`: that of the first member with
/// that key, if there is one.
pub open spec fn member(table: Seq<(Seq<char>, Doc)>, key: Seq<char>) -> Option<Doc> {
    member_from(table, key, 0)
}

/// The texts of `items`, if every one of them is a string.
pub open spec fn all_texts(items: Seq<Doc>) -> Option<Seq<Seq<char>>> {
    if forall|i: int| 0 <= i < items.len() ==> items[i] is Text {
        Some(Seq::new(items.len(), |i: int| items[i]->Text_0))
    } else {
        None
    }
}

/// The view of a table, member by member.
pub proof fn lemma_table_view(members: Vec<Member>)
    ensures
        Node::Table(members)@ is Table,
        Node::Table(members)@->Table_0.len() == members@.len(),
        forall|i: int|
            0 <= i < members@.len() ==> (#[trigger] Node::Table(members)@->Table_0[i]) == (
                members@[i].key@,
                members@[i].value@,
            ),
{
}

/// The view of an array, item by item.
pub proof fn lemma_list_view(items: Vec<Node>)
    ensures
        Node::List(items)@ is List,
        Node::List(items)@->List_0.len() == items@.len(),
        forall|i: int|
            0 <= i < items@.len() ==> (#[trigger] Node::List(items)@->List_0[i]) == items@[i]@,
{
}

/// The document behind an optional node.
pub open spec fn found_doc(found: Option<&Node>) -> Option<Doc> {
    match found {
        Some(node) => Some(node@),
        None => None,
    }
}

/// Whether `text` and `literal` hold the same characters.
pub fn text_is(text: &String, literal: &str) -> (same: bool)
    ensures
        same == (text@ == literal@),
{
    let other = String::from_str(literal);
    *text == other
}

/// Looks `key` up in a table's members.
pub fn find<'a>(members: &'a Vec<Member>, key: &str) -> (found: Option<&'a Node>)
    ensures
        found_doc(found) == member(Node::Table(*members)@->Table_0, key@),
{
    let ghost table = Node::Table(*members)@->Table_0;
    let mut i: usize = 0;
    while i < members.len()
        invariant
            0 <= i <= members.len(),
            table == Node::Table(*members)@->Table_0,
            table.len() == members@.len(),
            member(table, key@) == member_from(table, key@, i as int),
        decreases members.len() - i,
    {
        if text_is(&members[i].key, key) {
            return Some(&members[i].value);
        }
        i += 1;
    }
    None
}

/// The strings of an array, cloned, if every item is one.
pub fn strings_of(items: &Vec<Node>) -> (texts: Option<Vec<String>>)
    ensures
        match texts {
            Some(v) => all_texts(Node::List(*items)@->List_0) == Some(v.deep_view()),
            None => all_texts(Node::List(*items)@->List_0).is_none(),
        },
{
    let ghost docs = Node::List(*items)@->List_0;
    proof {
        lemma_list_view(*items);
    }
    let mut out: Vec<String> = Vec::new();
    let mut i: usize = 0;
    while i < items.len()
        invariant
            0 <= i <= items.len(),
            docs == Node::List(*items)@->List_0,
            docs.len() == items@.len(),
            forall|j: int| 0 <= j < items@.len() ==> docs[j] == #[trigger] items@[j].doc(),
            out@.len() == i,
            forall|j: int| 0 <= j < i ==> (#[trigger] docs[j]) is Text && out@[j]@ == docs[j]->Text_0,
        decreases items.len() - i,
    {
        proof {
            assert(docs[i as int] == items@[i as int].doc());
        }
        match &items[i] {
            Node::Text(s) => {
                out.push(s.clone());
            },
            _ => {
                assert(!(docs[i as int] is Text));
                return None;
            },
        }
        i += 1;
    }
    proof {
        assert(out.deep_view() =~= Seq::new(docs.len(), |i: int| docs[i]->Text_0));
    }
    Some(out)
}

/// What `toml::from_str` makes of a text at the type `toml::Value`, as a
/// document: `None` where it reports an error.
pub uninterp spec fn toml_document(content: Seq<char>) -> Option<Doc>;

/// What `serde_json::from_str` makes of a text at the type
/// `serde_json::Value`, as a document: `None` where it reports an error.
pub uninterp spec fn json_document(content: Seq<char>) -> Option<Doc>;

/// `toml::Value`: a parsed TOML value, with nothing known of what is inside.
#[verifier::external_type_specification]
#[verifier::external_body]
pub struct ExTomlValue(toml::Value);

/// `toml::de::Error`: the error of the TOML parser, with nothing known of what is inside.
#[verifier::external_type_specification]
#[verifier::external_body]
pub struct ExTomlError(toml::de::Error);

/// `serde_json::Value`: a parsed JSON value, with nothing known of what is inside.
#[verifier::external_type_specification]
#[verifier::external_body]
pub struct ExJsonValue(serde_json::Value);

/// `serde_json::Error`: the error of the JSON parser, with nothing known of what is inside.
#[verifier::external_type_specification]
#[verifier::external_body]
pub struct ExJsonError(serde_json::Error);

/// Rewrites a `toml::Value` as a [`Node`], variant by variant: strings,
/// booleans, arrays and tables keep their contents, integers, floats and
/// dates become [`Node::Other`]. Nothing is claimed of the result here.
#[verifier::external_body]
fn node_of_toml(value: toml::Value) -> Node {
    match value {
        toml::Value::String(s) => Node::Text(s),
        toml::Value::Boolean(b) => Node::Flag(b),
        toml::Value::Array(items) => Node::List(items.into_iter().map(node_of_toml).collect()),
        toml::Value::Table(table) => Node::Table(
            table.into_iter().map(|(key, v)| Member { key, value: node_of_toml(v) }).collect(),
        ),
        toml::Value::Integer(_) => Node::Other,
        toml::Value::Float(_) => Node::Other,
        toml::Value::Datetime(_) => Node::Other,
    }
}

/// Rewrites a `serde_json::Value` as a [`Node`], variant by variant: null,
/// strings, booleans, arrays and objects keep their contents, numbers become
/// [`Node::Other`]. Nothing is claimed of the result here.
#[verifier::external_body]
fn node_of_json(value: serde_json::Value) -> Node {
    match value {
        serde_json::Value::Null => Node::Null,
        serde_json::Value::String(s) => Node::Text(s),
        serde_json::Value::Bool(b) => Node::Flag(b),
        serde_json::Value::Array(items) => Node::List(items.into_iter().map(node_of_json).collect()),
        serde_json::Value::Object(map) => Node::Table(
            map.into_iter().map(|(key, v)| Member { key, value: node_of_json(v) }).collect(),
        ),
        serde_json::Value::Number(_) => Node::Other,
    }
}

/// `toml::from_str` at `toml::Value`. The parse depends on the text alone, so
/// its outcome has a name: the node returned stands for `toml_document` of the
/// text, and an error comes exactly where that is `None`.
#[verifier::external_body]
pub(crate) fn parse_toml(content: &str) -> (parsed: Result<Node, toml::de::Error>)
    ensures
        match parsed {
            Ok(node) => toml_document(content@) == Some(node@),
            Err(_) => toml_document(content@).is_none(),
        },
{
    toml::from_str::<toml::Value>(content).map(node_of_toml)
}

/// `serde_json::from_str` at `serde_json::Value`. The parse depends on the
/// text alone, so its outcome has a name: the node returned stands for
/// `json_document` of the text, and an error comes exactly where that is
/// `None`.
#[verifier::external_body]
pub(crate) fn parse_json(content: &str) -> (parsed: Result<Node, serde_json::Error>)
    ensures
        match parsed {
            Ok(node) => json_document(content@) == Some(node@),
            Err(_) => json_document(content@).is_none(),
        },
{
    serde_json::from_str::<serde_json::Value>(content).map(node_of_json)
}

} // verus!

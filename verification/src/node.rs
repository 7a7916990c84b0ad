//! The field tree that a document is written out as: what a serializer is
//! handed, key by key, whatever its syntax.

use vstd::prelude::*;

verus! {

/// A value in the field tree.
#[derive(Debug, PartialEq, Eq)]
pub enum Node {
    /// An optional value that is absent.
    Null,
    Number(u32),
    Text(String),
    /// Values in order, without keys.
    List(Vec<Node>),
    /// Fields in the order in which they are written. A key may repeat.
    Object(Vec<Field>),
}

/// A key with its value.
#[derive(Debug, PartialEq, Eq)]
pub struct Field {
    pub key: String,
    pub value: Node,
}

pub enum NodeView {
    Null,
    Number(u32),
    Text(Seq<char>),
    List(Seq<NodeView>),
    Object(Seq<FieldView>),
}

pub struct FieldView {
    pub key: Seq<char>,
    pub value: NodeView,
}

impl View for Node {
    type V = NodeView;

    open spec fn view(&self) -> NodeView
        decreases self,
    {
        match self {
            Node::Null => NodeView::Null,
            Node::Number(n) => NodeView::Number(*n),
            Node::Text(s) => NodeView::Text(s@),
            Node::List(items) => NodeView::List(
                Seq::new(
                    items@.len(),
                    |i: int|
                        if 0 <= i < items@.len() {
                            items@[i]@
                        } else {
                            NodeView::Null
                        },
                ),
            ),
            Node::Object(fields) => NodeView::Object(
                Seq::new(
                    fields@.len(),
                    |i: int|
                        if 0 <= i < fields@.len() {
                            FieldView { key: fields@[i].key@, value: fields@[i].value@ }
                        } else {
                            FieldView { key: Seq::empty(), value: NodeView::Null }
                        },
                ),
            ),
        }
    }
}

impl DeepView for Node {
    type V = NodeView;

    open spec fn deep_view(&self) -> NodeView {
        self.view()
    }
}

impl View for Field {
    type V = FieldView;

    open spec fn view(&self) -> FieldView {
        FieldView { key: self.key@, value: self.value@ }
    }
}

impl DeepView for Field {
    type V = FieldView;

    open spec fn deep_view(&self) -> FieldView {
        self.view()
    }
}

/// An optional number as a value.
pub open spec fn number_or_null(value: Option<u32>) -> NodeView {
    match value {
        Some(n) => NodeView::Number(n),
        None => NodeView::Null,
    }
}

/// An optional text as a value.
pub open spec fn text_or_null(value: Option<Seq<char>>) -> NodeView {
    match value {
        Some(s) => NodeView::Text(s),
        None => NodeView::Null,
    }
}

/// A number under a key, if there is a number.
pub open spec fn number_if_some(key: Seq<char>, value: Option<u32>) -> Seq<FieldView> {
    match value {
        Some(n) => seq![FieldView { key, value: NodeView::Number(n) }],
        None => Seq::empty(),
    }
}

impl Node {
    /// A list of the given values.
    pub fn list(items: Vec<Node>) -> (node: Node)
        ensures
            node@ == NodeView::List(items.deep_view()),
    {
        let node = Node::List(items);
        proof {
            reveal_with_fuel(<Node as View>::view, 2);
            assert(node@->List_0 =~= items.deep_view());
        }
        node
    }

    /// An object of the given fields.
    pub fn object(fields: Vec<Field>) -> (node: Node)
        ensures
            node@ == NodeView::Object(fields.deep_view()),
    {
        let node = Node::Object(fields);
        proof {
            reveal_with_fuel(<Node as View>::view, 2);
            assert(node@->Object_0 =~= fields.deep_view());
        }
        node
    }

    /// A copy of a text as a value.
    pub fn text(value: &String) -> (node: Node)
        ensures
            node@ == NodeView::Text(value@),
    {
        Node::Text(value.clone())
    }

    /// An optional number as a value.
    pub fn number_or_null(value: Option<u32>) -> (node: Node)
        ensures
            node@ == number_or_null(value),
    {
        match value {
            Some(n) => Node::Number(n),
            None => Node::Null,
        }
    }

    /// A copy of an optional text as a value.
    pub fn text_or_null(value: &Option<String>) -> (node: Node)
        ensures
            node@ == text_or_null(
                match *value {
                    Some(s) => Some(s@),
                    None => None,
                },
            ),
    {
        match value {
            Some(s) => Node::Text(s.clone()),
            None => Node::Null,
        }
    }
}

impl Field {
    /// A value under a copy of a key.
    pub fn new(key: &str, value: Node) -> (field: Field)
        ensures
            field@ == (FieldView { key: key@, value: value@ }),
    {
        Field { key: key.to_owned(), value }
    }
}

/// Adds a field at the end of a list of fields.
pub fn push_field(fields: &mut Vec<Field>, field: Field)
    ensures
        final(fields).deep_view() == old(fields).deep_view().push(field@),
{
    fields.push(field);
}

/// Adds a number under a key at the end of a list of fields, if there is a
/// number.
pub fn push_number_if_some(fields: &mut Vec<Field>, key: &str, value: Option<u32>)
    ensures
        final(fields).deep_view() == old(fields).deep_view() + number_if_some(key@, value),
{
    if let Some(n) = value {
        push_field(fields, Field::new(key, Node::Number(n)));
    }
}

/// Adds fields at the end of a list of fields, in their order.
pub fn append_fields(fields: &mut Vec<Field>, more: Vec<Field>)
    ensures
        final(fields).deep_view() == old(fields).deep_view() + more.deep_view(),
{
    let mut more = more;
    fields.append(&mut more);
}

/// Adds a value at the end of a list of values.
pub fn push_node(items: &mut Vec<Node>, node: Node)
    ensures
        final(items).deep_view() == old(items).deep_view().push(node@),
{
    items.push(node);
}

} // verus!

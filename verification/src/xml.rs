//! The attributed element tree that the decoder walks, and the reader that
//! builds it from the bytes of a document.
//!
//! The tree is plain data: a tag name, the attributes in document order and
//! the child nodes in document order. Everything the decoder needs to know
//! about a document is in this tree.

use crate::text::same_text;
use vstd::prelude::*;

verus! {

/// One attribute of an element, keyed by its local name.
#[derive(Debug)]
pub struct Attribute {
    pub name: String,
    pub value: String,
}

/// A child of an element.
#[derive(Debug)]
pub enum Node {
    Element(XmlElement),
    Comment(String),
    CData(String),
    Text(String),
    ProcessingInstruction(String, Option<String>),
}

/// An element: its local tag name, its attributes and its children.
#[derive(Debug)]
pub struct XmlElement {
    pub name: String,
    pub attributes: Vec<Attribute>,
    pub children: Vec<Node>,
}

/// The view of `Attribute`.
pub ghost struct AttributeView {
    pub name: Seq<char>,
    pub value: Seq<char>,
}

/// The view of `Node`.
pub ghost enum NodeView {
    Element(XmlElementView),
    Comment(Seq<char>),
    CData(Seq<char>),
    Text(Seq<char>),
    ProcessingInstruction(Seq<char>, Option<Seq<char>>),
}

/// The view of `XmlElement`.
pub ghost struct XmlElementView {
    pub name: Seq<char>,
    pub attributes: Seq<AttributeView>,
    pub children: Seq<NodeView>,
}

impl DeepView for Attribute {
    type V = AttributeView;

    open spec fn deep_view(&self) -> AttributeView {
        AttributeView { name: self.name@, value: self.value@ }
    }
}

impl DeepView for Node {
    type V = NodeView;

    open spec fn deep_view(&self) -> NodeView
        decreases self,
    {
        match self {
            Node::Element(e) => NodeView::Element(e.deep_view()),
            Node::Comment(t) => NodeView::Comment(t@),
            Node::CData(t) => NodeView::CData(t@),
            Node::Text(t) => NodeView::Text(t@),
            Node::ProcessingInstruction(name, data) => NodeView::ProcessingInstruction(
                name@,
                data.deep_view(),
            ),
        }
    }
}

impl DeepView for XmlElement {
    type V = XmlElementView;

    open spec fn deep_view(&self) -> XmlElementView
        decreases self,
    {
        XmlElementView {
            name: self.name@,
            attributes: self.attributes.deep_view(),
            children: Seq::new(
                self.children@.len(),
                |i: int|
                    if 0 <= i < self.children@.len() {
                        self.children@[i].deep_view()
                    } else {
                        NodeView::Text(Seq::empty())
                    },
            ),
        }
    }
}

impl View for XmlElement {
    type V = XmlElementView;

    open spec fn view(&self) -> XmlElementView {
        self.deep_view()
    }
}

impl XmlElementView {
    /// The value of the first attribute called `name`.
    pub open spec fn attr(self, name: Seq<char>) -> Option<Seq<char>> {
        lookup(self.attributes, name)
    }

    /// The text and character data directly below this element, joined in
    /// document order; `None` where it has neither.
    pub open spec fn text(self) -> Option<Seq<char>> {
        joined_text(self.children)
    }
}

/// The value of the first attribute of `attributes` called `name`.
pub open spec fn lookup(attributes: Seq<AttributeView>, name: Seq<char>) -> Option<Seq<char>>
    decreases attributes.len(),
{
    if attributes.len() == 0 {
        None
    } else if attributes[0].name == name {
        Some(attributes[0].value)
    } else {
        lookup(attributes.drop_first(), name)
    }
}

/// The text and character data among `nodes`, joined in document order.
pub open spec fn joined_text(nodes: Seq<NodeView>) -> Option<Seq<char>>
    decreases nodes.len(),
{
    if nodes.len() == 0 {
        None
    } else {
        let before = joined_text(nodes.drop_last());
        match nodes.last() {
            NodeView::Text(t) | NodeView::CData(t) => match before {
                Some(s) => Some(s + t),
                None => Some(t),
            },
            _ => before,
        }
    }
}

impl XmlElement {
    /// The value of the first attribute called `name`.
    pub fn attribute(&self, name: &str) -> (value: Option<&String>)
        ensures
            value.deep_view() == self.deep_view().attr(name@),
    {
        let ghost all = self.attributes.deep_view();
        let mut i: usize = 0;
        assert(all.skip(0) =~= all);
        while i < self.attributes.len()
            invariant
                i <= self.attributes.len(),
                all == self.attributes.deep_view(),
                lookup(all, name@) == lookup(all.skip(i as int), name@),
            decreases self.attributes.len() - i,
        {
            let a = &self.attributes[i];
            proof {
                let rest = all.skip(i as int);
                assert(rest[0] == a.deep_view());
                assert(rest.drop_first() =~= all.skip(i + 1));
            }
            if same_text(a.name.as_str(), name) {
                return Some(&a.value);
            }
            i += 1;
        }
        None
    }

    /// The text and character data directly below this element, joined in
    /// document order; `None` where it has neither.
    pub fn text(&self) -> (text: Option<String>)
        ensures
            text.deep_view() == self.deep_view().text(),
    {
        let ghost all = self.deep_view().children;
        let mut text: Option<String> = None;
        let mut i: usize = 0;
        while i < self.children.len()
            invariant
                i <= self.children.len(),
                all == self.deep_view().children,
                text.deep_view() == joined_text(all.take(i as int)),
            decreases self.children.len() - i,
        {
            proof {
                let next = all.take(i + 1);
                assert(next.drop_last() =~= all.take(i as int));
                assert(next.last() == self.children[i as int].deep_view());
            }
            match &self.children[i] {
                Node::Text(t) | Node::CData(t) => {
                    text = Some(
                        match text {
                            Some(s) => vstd::string::StringExecFns::concat(s, t.as_str()),
                            None => t.clone(),
                        },
                    );
                },
                _ => {},
            }
            i += 1;
        }
        assert(all.take(i as int) =~= all);
        text
    }
}

/// `xmltree::Element`, as the reader hands it out.
#[verifier::external_type_specification]
#[verifier::external_body]
pub struct ExTreeElement(xmltree::Element);

/// `xmltree::XMLNode`, a child of an `xmltree::Element`.
#[verifier::external_type_specification]
#[verifier::external_body]
pub struct ExTreeNode(xmltree::XMLNode);

/// `xmltree::ParseError`, the reader's account of a document it could not
/// read.
#[verifier::external_type_specification]
#[verifier::external_body]
pub struct ExParseError(xmltree::ParseError);

/// The root element that `xmltree::Element::parse` builds from the bytes of
/// a document, or `None` where it reports an error.
pub uninterp spec fn document_root(bytes: Seq<u8>) -> Option<XmlElementView>;

/// Reads a document with `xmltree::Element::parse`. The root element that
/// comes back is a function of the bytes alone, and it is `document_root` of
/// them; nothing else is claimed of the reader.
#[verifier::external_body]
pub(crate) fn read_document(bytes: &[u8]) -> (read: Result<XmlElement, xmltree::ParseError>)
    ensures
        document_root(bytes@) == match read {
            Ok(root) => Some(root.deep_view()),
            Err(_) => None,
        },
{
    match xmltree::Element::parse(bytes) {
        Ok(root) => Ok(element_from(&root)),
        Err(error) => Err(error),
    }
}

/// Copies an `xmltree::Element` field by field: the local name, the
/// attributes in the order the reader kept them, and the children.
#[verifier::external_body]
fn element_from(e: &xmltree::Element) -> XmlElement {
    let mut attributes = Vec::new();
    for (name, value) in e.attributes.iter() {
        attributes.push(Attribute { name: name.clone(), value: value.clone() });
    }
    let mut children = Vec::new();
    for node in e.children.iter() {
        children.push(node_from(node));
    }
    XmlElement { name: e.name.clone(), attributes, children }
}

/// Copies an `xmltree::XMLNode`, variant by variant.
#[verifier::external_body]
fn node_from(node: &xmltree::XMLNode) -> Node {
    match node {
        xmltree::XMLNode::Element(e) => Node::Element(element_from(e)),
        xmltree::XMLNode::Comment(t) => Node::Comment(t.clone()),
        xmltree::XMLNode::CData(t) => Node::CData(t.clone()),
        xmltree::XMLNode::Text(t) => Node::Text(t.clone()),
        xmltree::XMLNode::ProcessingInstruction(name, data) => {
            Node::ProcessingInstruction(name.clone(), data.clone())
        },
    }
}

} // verus!

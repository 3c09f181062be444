//! A parsed XML document as plain data: its nodes in document order, each
//! with the position of its parent and the size of its subtree.

use vstd::prelude::*;
use crate::text::str_eq;

verus! {

/// An attribute of an element: its local name and its value.
#[derive(Clone, Debug, PartialEq, Eq)]
pub struct XmlAttribute {
    pub name: String,
    pub value: String,
}

/// A node of a document.
#[derive(Clone, Debug, PartialEq, Eq)]
pub struct XmlNode {
    /// The local name of an element; empty for any other node.
    pub name: String,
    /// The text of the node: for an element, that of its first child if that
    /// child is text; for a text or a comment, its own.
    pub text: Option<String>,
    /// The attributes of an element, in the order of the document.
    pub attributes: Vec<XmlAttribute>,
    /// The position of the parent; `None` for the root.
    pub parent: Option<usize>,
    /// The number of nodes in the subtree of this node, itself included.
    pub span: usize,
}

/// A document: its nodes in document order, the root first.
#[derive(Clone, Debug, PartialEq, Eq)]
pub struct XmlDocument {
    pub nodes: Vec<XmlNode>,
}

/// An `XmlAttribute` as plain values.
pub struct AttributeView {
    pub name: Seq<char>,
    pub value: Seq<char>,
}

/// An `XmlNode` as plain values.
pub struct NodeView {
    pub name: Seq<char>,
    pub text: Option<Seq<char>>,
    pub attributes: Seq<AttributeView>,
    pub parent: Option<nat>,
    pub span: nat,
}

impl View for XmlAttribute {
    type V = AttributeView;

    open spec fn view(&self) -> AttributeView {
        AttributeView { name: self.name@, value: self.value@ }
    }
}

impl View for XmlNode {
    type V = NodeView;

    open spec fn view(&self) -> NodeView {
        NodeView {
            name: self.name@,
            text: match self.text {
                Some(t) => Some(t@),
                None => None,
            },
            attributes: self.attributes@.map_values(|a: XmlAttribute| a@),
            parent: match self.parent {
                Some(p) => Some(p as nat),
                None => None,
            },
            span: self.span as nat,
        }
    }
}

impl View for XmlDocument {
    type V = Seq<NodeView>;

    open spec fn view(&self) -> Seq<NodeView> {
        self.nodes@.map_values(|n: XmlNode| n@)
    }
}

/// What parsing `text` gives: the nodes of the document in document order,
/// or `None` where `text` is not a document that the parser accepts under
/// the two options.
pub uninterp spec fn parsed_xml(text: Seq<char>, allow_dtd: bool, nodes_limit: u32) -> Option<
    Seq<NodeView>,
>;

/// `roxmltree::Error`: why the parser did not take a text. The library
/// carries it from the parser to the place where it is turned into an
/// `XmlError`, and never looks into it.
#[verifier::external_type_specification]
#[verifier::external_body]
pub struct ExError(roxmltree::Error);

/// Calls `roxmltree::Document::parse_with_options` on `text`, with the two
/// options as given and no entity resolver, and copies each node that
/// `Document::descendants` yields, in its order: the local tag name, the
/// text, the attributes by local name and value, the parent's id, and the
/// number of nodes that the node's own `descendants` yields. The parser is
/// a function of the text and the options, and `parsed_xml` stands for what
/// it returns; an error is returned exactly where that is `None`.
#[verifier::external_body]
fn parse_nodes(text: &str, allow_dtd: bool, nodes_limit: u32) -> (parsed: Result<
    Vec<XmlNode>,
    roxmltree::Error,
>)
    ensures
        match parsed {
            Ok(nodes) => parsed_xml(text@, allow_dtd, nodes_limit) == Some(
                nodes@.map_values(|n: XmlNode| n@),
            ),
            Err(_) => parsed_xml(text@, allow_dtd, nodes_limit) is None,
        },
{
    let options = roxmltree::ParsingOptions { allow_dtd, nodes_limit, entity_resolver: None };
    let doc = roxmltree::Document::parse_with_options(text, options)?;
    Ok(doc.descendants().map(|n| XmlNode {
        name: n.tag_name().name().to_string(),
        text: n.text().map(str::to_string),
        attributes: n.attributes().map(|a| XmlAttribute {
            name: a.name().to_string(),
            value: a.value().to_string(),
        }).collect(),
        parent: n.parent().map(|p| p.id().get_usize()),
        span: n.descendants().len(),
    }).collect())
}

/// Why a text could not be taken in as a document.
#[derive(Clone, Copy, Debug, PartialEq, Eq, Structural)]
pub enum XmlError {
    /// The text is not well-formed XML, or is beyond the parser's limits.
    Malformed,
}

/// The end of the subtree of the node `at`: the position after its last
/// node, and never beyond the document.
pub open spec fn subtree_end(doc: Seq<NodeView>, at: int) -> int {
    if 0 <= at < doc.len() {
        if at + doc[at].span <= doc.len() {
            at + doc[at].span
        } else {
            doc.len() as int
        }
    } else {
        at
    }
}

/// Whether the node `child` is a child of the node `parent`: it lies in the
/// subtree of `parent` and names it as its parent.
pub open spec fn is_child(doc: Seq<NodeView>, parent: int, child: int) -> bool {
    &&& 0 <= parent < child < subtree_end(doc, parent)
    &&& doc[child].parent == Some(parent as nat)
}

/// The text of a node, or the empty text where it has none.
pub open spec fn text_or_empty(node: NodeView) -> Seq<char> {
    match node.text {
        Some(t) => t,
        None => Seq::empty(),
    }
}

/// The value of the first attribute called `name` among the first `upto`.
pub open spec fn attribute_among(attributes: Seq<AttributeView>, name: Seq<char>, upto: int)
    -> Option<Seq<char>>
    decreases upto,
{
    if upto <= 0 {
        None
    } else {
        match attribute_among(attributes, name, upto - 1) {
            Some(v) => Some(v),
            None => if attributes[upto - 1].name == name {
                Some(attributes[upto - 1].value)
            } else {
                None
            },
        }
    }
}

/// The value of the first attribute of `node` called `name`.
pub open spec fn attribute_value(node: NodeView, name: Seq<char>) -> Option<Seq<char>> {
    attribute_among(node.attributes, name, node.attributes.len() as int)
}

impl XmlNode {
    /// The text of the node, or the empty text where it has none.
    pub fn text_or_empty(&self) -> (text: String)
        ensures
            text@ == text_or_empty(self@),
    {
        match &self.text {
            Some(t) => t.clone(),
            None => String::new(),
        }
    }

    /// Whether the node is an element called `name`.
    pub fn is_named(&self, name: &str) -> (named: bool)
        ensures
            named == (self@.name == name@),
    {
        str_eq(self.name.as_str(), name)
    }

    /// The value of the first attribute called `name`.
    pub fn attribute(&self, name: &str) -> (value: Option<String>)
        ensures
            match value {
                Some(v) => attribute_value(self@, name@) == Some(v@),
                None => attribute_value(self@, name@) is None,
            },
    {
        let mut i: usize = 0;
        while i < self.attributes.len()
            invariant
                i <= self.attributes.len(),
                attribute_among(self@.attributes, name@, i as int) is None,
            decreases self.attributes.len() - i,
        {
            assert(self@.attributes[i as int] == self.attributes[i as int]@);
            if str_eq(self.attributes[i].name.as_str(), name) {
                let value = self.attributes[i].value.clone();
                assert(attribute_among(self@.attributes, name@, i + 1) == Some(value@));
                proof {
                    lemma_attribute_found(
                        self@.attributes,
                        name@,
                        i + 1,
                        self@.attributes.len() as int,
                    );
                }
                return Some(value);
            }
            i += 1;
        }
        None
    }
}

/// Once an attribute is found among the first `upto`, it stays the one
/// found among more.
pub proof fn lemma_attribute_found(
    attributes: Seq<AttributeView>,
    name: Seq<char>,
    upto: int,
    beyond: int,
)
    requires
        upto <= beyond,
        attribute_among(attributes, name, upto) is Some,
    ensures
        attribute_among(attributes, name, beyond) == attribute_among(attributes, name, upto),
    decreases beyond - upto,
{
    if upto < beyond {
        lemma_attribute_found(attributes, name, upto, beyond - 1);
    }
}

impl XmlDocument {
    /// Parses `text` with the parser's defaults for everything but
    /// `allow_dtd` and `nodes_limit`.
    pub fn parse_with_options(text: &str, allow_dtd: bool, nodes_limit: u32) -> (parsed: Result<
        XmlDocument,
        XmlError,
    >)
        ensures
            match parsed {
                Ok(doc) => parsed_xml(text@, allow_dtd, nodes_limit) == Some(doc@),
                Err(e) => e == XmlError::Malformed && parsed_xml(text@, allow_dtd, nodes_limit)
                    is None,
            },
    {
        match parse_nodes(text, allow_dtd, nodes_limit) {
            Ok(nodes) => Ok(XmlDocument { nodes }),
            Err(_) => Err(XmlError::Malformed),
        }
    }

    /// The number of nodes.
    pub fn len(&self) -> (n: usize)
        ensures
            n == self@.len(),
    {
        self.nodes.len()
    }

    /// The node at the position `at`.
    pub fn node(&self, at: usize) -> (node: &XmlNode)
        requires
            at < self@.len(),
        ensures
            node@ == self@[at as int],
    {
        &self.nodes[at]
    }

    /// The end of the subtree of the node `at`.
    pub fn subtree_end(&self, at: usize) -> (end: usize)
        ensures
            end == subtree_end(self@, at as int),
    {
        if at < self.nodes.len() {
            assert(self@[at as int] == self.nodes[at as int]@);
            let span: usize = self.nodes[at].span;
            if span <= self.nodes.len() - at {
                at + span
            } else {
                self.nodes.len()
            }
        } else {
            at
        }
    }

    /// Whether the node `child` is a child of the node `parent`.
    pub fn is_child(&self, parent: usize, child: usize) -> (yes: bool)
        ensures
            yes == is_child(self@, parent as int, child as int),
    {
        if parent < child && child < self.subtree_end(parent) {
            assert(self@[child as int] == self.nodes[child as int]@);
            match self.nodes[child].parent {
                Some(p) => p == parent,
                None => false,
            }
        } else {
            false
        }
    }
}

} // verus!

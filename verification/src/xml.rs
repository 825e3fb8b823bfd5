//! XML documents as the game data files write them, read through `roxmltree`, and the
//! navigation over them that the data extraction uses.
use roxmltree::{Document, NodeId};
use vstd::prelude::*;

use crate::text::text_eq;

verus! {

/// `roxmltree::Document`: a parsed XML document, a tree of nodes stored by id.
#[verifier::external_type_specification]
#[verifier::external_body]
pub struct ExDocument<'input>(Document<'input>);

/// `roxmltree::Error`: why a text is no well-formed XML document.
#[verifier::external_type_specification]
#[verifier::external_body]
pub struct ExXmlParseError(roxmltree::Error);

/// An attribute of an element: its namespace, local name and value.
pub struct XmlAttributeModel {
    pub namespace: Option<Seq<char>>,
    pub name: Seq<char>,
    pub value: Seq<char>,
}

/// A node of a document: whether it is an element, its local tag name (elements only), its
/// attributes, its text (for an element, the text of its first child when that is a text node),
/// and the ids of its children in document order.
pub struct XmlNodeModel {
    pub is_element: bool,
    pub tag_name: Seq<char>,
    pub attributes: Seq<XmlAttributeModel>,
    pub text: Option<Seq<char>>,
    pub children: Seq<usize>,
}

/// What a document holds: its nodes by id; id 0 is the root node.
pub uninterp spec fn xml_nodes(doc: Document) -> Seq<XmlNodeModel>;

/// The nodes of the document that `roxmltree` parses from `text`, or none when the text is not
/// well-formed XML.
pub uninterp spec fn xml_parse(text: Seq<char>) -> Option<Seq<XmlNodeModel>>;

/// `Document::parse`: parses a text into a document; the document always has a root node.
#[verifier::external_body]
pub(crate) fn parse_document(text: &str) -> (r: Result<Document<'_>, roxmltree::Error>)
    ensures
        r is Ok <==> xml_parse(text@) is Some,
        r matches Ok(d) ==> xml_parse(text@) == Some(xml_nodes(d)) && xml_nodes(d).len() > 0,
{
    Document::parse(text)
}

/// `Node::children`: the ids of the children of a node, in document order; each is the id of a
/// node of the same document.
#[verifier::external_body]
fn node_children(doc: &Document, node: usize) -> (r: Vec<usize>)
    requires
        node < xml_nodes(*doc).len(),
    ensures
        r@ == xml_nodes(*doc)[node as int].children,
        forall|k: int| 0 <= k < r@.len() ==> #[trigger] r@[k] < xml_nodes(*doc).len(),
{
    doc.get_node(NodeId::from(node)).unwrap().children().map(|c| c.id().get_usize()).collect()
}

/// `Node::has_tag_name` with a name without namespace: whether the node is an element with the
/// given local name.
#[verifier::external_body]
fn node_has_tag_name(doc: &Document, node: usize, tag: &str) -> (r: bool)
    requires
        node < xml_nodes(*doc).len(),
    ensures
        r == (xml_nodes(*doc)[node as int].is_element && xml_nodes(*doc)[node as int].tag_name
            == tag@),
{
    doc.get_node(NodeId::from(node)).unwrap().has_tag_name(tag)
}

/// `Node::is_element`: whether the node is an element.
#[verifier::external_body]
fn node_is_element(doc: &Document, node: usize) -> (r: bool)
    requires
        node < xml_nodes(*doc).len(),
    ensures
        r == xml_nodes(*doc)[node as int].is_element,
{
    doc.get_node(NodeId::from(node)).unwrap().is_element()
}

/// `Node::text`: the text of the node.
#[verifier::external_body]
fn node_text<'a>(doc: &'a Document, node: usize) -> (r: Option<&'a str>)
    requires
        node < xml_nodes(*doc).len(),
    ensures
        r is Some <==> xml_nodes(*doc)[node as int].text is Some,
        r matches Some(t) ==> xml_nodes(*doc)[node as int].text == Some(t@),
{
    doc.get_node(NodeId::from(node)).unwrap().text()
}

/// `Node::attribute` with a name without namespace: the value of the first attribute with that
/// local name, whatever its namespace.
#[verifier::external_body]
fn node_attribute<'a>(doc: &'a Document, node: usize, name: &str) -> (r: Option<&'a str>)
    requires
        node < xml_nodes(*doc).len(),
    ensures
        r is Some <==> attribute_value(xml_nodes(*doc)[node as int].attributes, None, name@) is Some,
        r matches Some(v) ==> attribute_value(xml_nodes(*doc)[node as int].attributes, None, name@)
            == Some(v@),
{
    doc.get_node(NodeId::from(node)).unwrap().attribute(name)
}

/// `Node::attribute` with a namespaced name: the value of the first attribute with that
/// namespace and local name.
#[verifier::external_body]
fn node_attribute_ns<'a>(doc: &'a Document, node: usize, namespace: &str, name: &str) -> (r: Option<&'a str>)
    requires
        node < xml_nodes(*doc).len(),
    ensures
        r is Some <==> attribute_value(
            xml_nodes(*doc)[node as int].attributes,
            Some(namespace@),
            name@,
        ) is Some,
        r matches Some(v) ==> attribute_value(
            xml_nodes(*doc)[node as int].attributes,
            Some(namespace@),
            name@,
        ) == Some(v@),
{
    doc.get_node(NodeId::from(node)).unwrap().attribute((namespace, name))
}

/// The value of the first attribute with local name `name` and, when `namespace` is given, with
/// that namespace.
pub open spec fn attribute_value(
    attributes: Seq<XmlAttributeModel>,
    namespace: Option<Seq<char>>,
    name: Seq<char>,
) -> Option<Seq<char>>
    decreases attributes.len(),
{
    if attributes.len() == 0 {
        None
    } else if attributes[0].name == name && (namespace is None || attributes[0].namespace
        == namespace) {
        Some(attributes[0].value)
    } else {
        attribute_value(attributes.drop_first(), namespace, name)
    }
}

/// Whether a character is white space in the sense of Unicode's `White_Space` property.
pub open spec fn is_white_space(c: char) -> bool {
    let u = c as u32;
    (0x9 <= u <= 0xd) || u == 0x20 || u == 0x85 || u == 0xa0 || u == 0x1680 || (0x2000 <= u
        <= 0x200a) || u == 0x2028 || u == 0x2029 || u == 0x202f || u == 0x205f || u == 0x3000
}

/// `s` without its leading white space.
pub open spec fn trim_start(s: Seq<char>) -> Seq<char>
    decreases s.len(),
{
    if s.len() > 0 && is_white_space(s[0]) {
        trim_start(s.drop_first())
    } else {
        s
    }
}

/// `s` without its trailing white space.
pub open spec fn trim_end(s: Seq<char>) -> Seq<char>
    decreases s.len(),
{
    if s.len() > 0 && is_white_space(s.last()) {
        trim_end(s.drop_last())
    } else {
        s
    }
}

/// `s` without leading and trailing white space.
pub open spec fn trimmed(s: Seq<char>) -> Seq<char> {
    trim_end(trim_start(s))
}

/// `str::trim`: the text without leading and trailing white space.
#[verifier::external_body]
pub(crate) fn trim(s: &str) -> (r: &str)
    ensures
        r@ == trimmed(s@),
{
    s.trim()
}

/// Failures while reading data out of an XML document.
#[derive(Debug, PartialEq, Eq, Structural, Clone, Copy)]
pub enum XmlError {
    /// The document does not have the expected structure.
    StructureFail,
    /// The text of an element or attribute could not be parsed.
    ParseTextFail,
}

impl XmlError {
    /// The message that describes this error.
    pub fn message(&self) -> (r: &'static str)
        ensures
            r@ == (match self {
                XmlError::StructureFail => "Unexpected XML structure"@,
                XmlError::ParseTextFail => "Could not parse text or attribute of an XML element"@,
            }),
    {
        match self {
            XmlError::StructureFail => "Unexpected XML structure",
            XmlError::ParseTextFail => "Could not parse text or attribute of an XML element",
        }
    }
}

/// Why a text could not be read as a document with an element.
#[derive(Debug)]
pub enum DocumentError {
    /// The text is not well-formed XML.
    ParseFail(roxmltree::Error),
    /// The document does not have the expected structure.
    XmlFail(XmlError),
}

/// Parses a text into a document and finds its document element (the first child element of
/// the root node).
pub fn parse_document_element(text: &str) -> (r: Result<(Document<'_>, usize), DocumentError>)
    ensures
        match xml_parse(text@) {
            None => r matches Err(DocumentError::ParseFail(_)),
            Some(nodes) => match first_child_element(nodes, 0) {
                None => r matches Err(DocumentError::XmlFail(XmlError::StructureFail)),
                Some(root) => r matches Ok((d, e)) && xml_nodes(d) == nodes && e == root && is_node(
                    &d,
                    e,
                ),
            },
        },
{
    let doc = match parse_document(text) {
        Ok(doc) => doc,
        Err(e) => return Err(DocumentError::ParseFail(e)),
    };
    match first_child_elem(&doc, 0) {
        Ok(root) => Ok((doc, root)),
        Err(e) => Err(DocumentError::XmlFail(e)),
    }
}

/// Whether node `n` is an element with local tag name `tag`.
pub open spec fn is_elem_with_tag(nodes: Seq<XmlNodeModel>, n: usize, tag: Seq<char>) -> bool {
    nodes[n as int].is_element && nodes[n as int].tag_name == tag
}

/// The first of the nodes `cs` that satisfies `p`.
pub open spec fn first_where(cs: Seq<usize>, p: spec_fn(usize) -> bool) -> Option<usize>
    decreases cs.len(),
{
    if cs.len() == 0 {
        None
    } else if p(cs[0]) {
        Some(cs[0])
    } else {
        first_where(cs.drop_first(), p)
    }
}

/// The first of the nodes `cs` that is an element with tag `tag`.
pub open spec fn first_with_tag(nodes: Seq<XmlNodeModel>, cs: Seq<usize>, tag: Seq<char>) -> Option<usize> {
    first_where(cs, |c: usize| is_elem_with_tag(nodes, c, tag))
}

/// The first of the nodes `cs` that is an element.
pub open spec fn first_element(nodes: Seq<XmlNodeModel>, cs: Seq<usize>) -> Option<usize> {
    first_where(cs, |c: usize| nodes[c as int].is_element)
}

/// The first of the nodes `cs` that is an element with tag `tag` and has text.
pub open spec fn first_with_tag_and_text(nodes: Seq<XmlNodeModel>, cs: Seq<usize>, tag: Seq<char>) -> Option<usize> {
    first_where(cs, |c: usize| is_elem_with_tag(nodes, c, tag) && nodes[c as int].text is Some)
}

/// The nodes of `cs` that are elements with tag `tag`, in order.
pub open spec fn all_with_tag(nodes: Seq<XmlNodeModel>, cs: Seq<usize>, tag: Seq<char>) -> Seq<usize>
    decreases cs.len(),
{
    if cs.len() == 0 {
        Seq::empty()
    } else {
        let rest = all_with_tag(nodes, cs.drop_last(), tag);
        if is_elem_with_tag(nodes, cs.last(), tag) {
            rest.push(cs.last())
        } else {
            rest
        }
    }
}

/// The first child element of `node` with tag `tag`.
pub open spec fn child_with_tag(nodes: Seq<XmlNodeModel>, node: usize, tag: Seq<char>) -> Option<usize> {
    first_with_tag(nodes, nodes[node as int].children, tag)
}

/// The first child element of `node`.
pub open spec fn first_child_element(nodes: Seq<XmlNodeModel>, node: usize) -> Option<usize> {
    first_element(nodes, nodes[node as int].children)
}

/// The text of the first child element of `node` with tag `tag` that has text, trimmed.
pub open spec fn child_text(nodes: Seq<XmlNodeModel>, node: usize, tag: Seq<char>) -> Option<Seq<char>> {
    match first_with_tag_and_text(nodes, nodes[node as int].children, tag) {
        Some(c) => Some(trimmed(nodes[c as int].text->0)),
        None => None,
    }
}

/// The boolean that a text denotes: `true` or `false`.
pub open spec fn parse_bool(t: Seq<char>) -> Option<bool> {
    if t == "true"@ {
        Some(true)
    } else if t == "false"@ {
        Some(false)
    } else {
        None
    }
}

/// Whether `n` is a node of the document.
pub open spec fn is_node(doc: &Document, n: usize) -> bool {
    n < xml_nodes(*doc).len()
}

/// Skipping nodes that do not satisfy `p` does not change the first that does.
proof fn lemma_first_where_skip(cs: Seq<usize>, i: int, p: spec_fn(usize) -> bool)
    requires
        0 <= i <= cs.len(),
        forall|j: int| 0 <= j < i ==> !p(#[trigger] cs[j]),
    ensures
        first_where(cs, p) == first_where(cs.skip(i), p),
    decreases i,
{
    if i == 0 {
        assert(cs.skip(0) =~= cs);
    } else {
        assert(!p(cs[0]));
        assert forall|j: int| 0 <= j < i - 1 implies !p(#[trigger] cs.drop_first()[j]) by {
            assert(cs.drop_first()[j] == cs[j + 1]);
        }
        lemma_first_where_skip(cs.drop_first(), i - 1, p);
        assert(cs.drop_first().skip(i - 1) =~= cs.skip(i));
    }
}

/// When no node satisfies `p`, there is no first one.
proof fn lemma_first_where_none(cs: Seq<usize>, p: spec_fn(usize) -> bool)
    requires
        forall|j: int| 0 <= j < cs.len() ==> !p(#[trigger] cs[j]),
    ensures
        first_where(cs, p) is None,
{
    lemma_first_where_skip(cs, cs.len() as int, p);
    assert(cs.skip(cs.len() as int).len() == 0);
}

/// The first node that satisfies `p` is one of the nodes.
proof fn lemma_first_where_member(cs: Seq<usize>, p: spec_fn(usize) -> bool)
    ensures
        first_where(cs, p) matches Some(c) ==> cs.contains(c) && p(c),
    decreases cs.len(),
{
    if cs.len() > 0 && !p(cs[0]) {
        lemma_first_where_member(cs.drop_first(), p);
        if first_where(cs, p) is Some {
            let c = first_where(cs, p)->0;
            let k = choose|k: int| 0 <= k < cs.drop_first().len() && cs.drop_first()[k] == c;
            assert(cs[k + 1] == c);
        }
    }
}

/// The first child element of `node` with tag `tag`; a missing one is a structure failure.
pub fn child_elem(doc: &Document, node: usize, tag: &str) -> (r: Result<usize, XmlError>)
    requires
        is_node(doc, node),
    ensures
        match child_with_tag(xml_nodes(*doc), node, tag@) {
            Some(c) => r == Ok::<usize, XmlError>(c),
            None => r == Err::<usize, XmlError>(XmlError::StructureFail),
        },
        r matches Ok(c) ==> is_node(doc, c),
{
    match child_elem_opt(doc, node, tag) {
        Some(c) => Ok(c),
        None => Err(XmlError::StructureFail),
    }
}

/// The first child element of `node` with tag `tag`, if any.
pub fn child_elem_opt(doc: &Document, node: usize, tag: &str) -> (r: Option<usize>)
    requires
        is_node(doc, node),
    ensures
        r == child_with_tag(xml_nodes(*doc), node, tag@),
        r matches Some(c) ==> is_node(doc, c),
{
    let ghost nodes = xml_nodes(*doc);
    let children = node_children(doc, node);
    let mut i: usize = 0;
    while i < children.len()
        invariant
            nodes == xml_nodes(*doc),
            children@ == nodes[node as int].children,
            forall|k: int| 0 <= k < children@.len() ==> #[trigger] children@[k] < nodes.len(),
            i <= children@.len(),
            forall|j: int| 0 <= j < i ==> !is_elem_with_tag(nodes, #[trigger] children@[j], tag@),
        decreases children.len() - i,
    {
        let c = children[i];
        if node_has_tag_name(doc, c, tag) {
            proof {
                let p = |c: usize| is_elem_with_tag(nodes, c, tag@);
                lemma_first_where_skip(children@, i as int, p);
            }
            return Some(c);
        }
        i = i + 1;
    }
    proof {
        let p = |c: usize| is_elem_with_tag(nodes, c, tag@);
        lemma_first_where_none(children@, p);
    }
    None
}

/// The first child element of `node`, if any.
pub fn first_element_child(doc: &Document, node: usize) -> (r: Option<usize>)
    requires
        is_node(doc, node),
    ensures
        r == first_child_element(xml_nodes(*doc), node),
        r matches Some(c) ==> is_node(doc, c),
{
    let ghost nodes = xml_nodes(*doc);
    let ghost p = |c: usize| nodes[c as int].is_element;
    let children = node_children(doc, node);
    let mut i: usize = 0;
    while i < children.len()
        invariant
            nodes == xml_nodes(*doc),
            p == (|c: usize| nodes[c as int].is_element),
            children@ == nodes[node as int].children,
            forall|k: int| 0 <= k < children@.len() ==> #[trigger] children@[k] < nodes.len(),
            i <= children@.len(),
            forall|j: int| 0 <= j < i ==> !p(#[trigger] children@[j]),
        decreases children.len() - i,
    {
        let c = children[i];
        if node_is_element(doc, c) {
            proof {
                lemma_first_where_skip(children@, i as int, p);
            }
            return Some(c);
        }
        i = i + 1;
    }
    proof {
        lemma_first_where_none(children@, p);
    }
    None
}

/// The first child element of `node`; a missing one is a structure failure.
pub fn first_child_elem(doc: &Document, node: usize) -> (r: Result<usize, XmlError>)
    requires
        is_node(doc, node),
    ensures
        match first_child_element(xml_nodes(*doc), node) {
            Some(c) => r == Ok::<usize, XmlError>(c),
            None => r == Err::<usize, XmlError>(XmlError::StructureFail),
        },
        r matches Ok(c) ==> is_node(doc, c),
{
    match first_element_child(doc, node) {
        Some(c) => Ok(c),
        None => Err(XmlError::StructureFail),
    }
}

/// The child elements of `node` with tag `tag`, in document order.
pub fn children_elems(doc: &Document, node: usize, tag: &str) -> (r: Vec<usize>)
    requires
        is_node(doc, node),
    ensures
        r@ == all_with_tag(xml_nodes(*doc), xml_nodes(*doc)[node as int].children, tag@),
        forall|k: int| 0 <= k < r@.len() ==> is_node(doc, #[trigger] r@[k]),
{
    let ghost nodes = xml_nodes(*doc);
    let children = node_children(doc, node);
    let mut r: Vec<usize> = Vec::new();
    let mut i: usize = 0;
    while i < children.len()
        invariant
            nodes == xml_nodes(*doc),
            children@ == nodes[node as int].children,
            forall|k: int| 0 <= k < children@.len() ==> #[trigger] children@[k] < nodes.len(),
            i <= children@.len(),
            r@ == all_with_tag(nodes, children@.take(i as int), tag@),
            forall|k: int| 0 <= k < r@.len() ==> #[trigger] r@[k] < nodes.len(),
        decreases children.len() - i,
    {
        let c = children[i];
        assert(children@.take(i + 1).drop_last() =~= children@.take(i as int));
        if node_has_tag_name(doc, c, tag) {
            r.push(c);
        }
        i = i + 1;
    }
    assert(children@.take(i as int) =~= children@);
    r
}

/// The text of `node`; a node without text is a structure failure.
pub fn text_or_err<'a>(doc: &'a Document, node: usize) -> (r: Result<&'a str, XmlError>)
    requires
        is_node(doc, node),
    ensures
        match xml_nodes(*doc)[node as int].text {
            Some(t) => r matches Ok(s) && s@ == t,
            None => r == Err::<&str, XmlError>(XmlError::StructureFail),
        },
{
    match node_text(doc, node) {
        Some(t) => Ok(t),
        None => Err(XmlError::StructureFail),
    }
}

/// The text of `node`, if any.
pub fn text<'a>(doc: &'a Document, node: usize) -> (r: Option<&'a str>)
    requires
        is_node(doc, node),
    ensures
        r is Some <==> xml_nodes(*doc)[node as int].text is Some,
        r matches Some(s) ==> xml_nodes(*doc)[node as int].text == Some(s@),
{
    node_text(doc, node)
}

/// The value of the first attribute of `node` with local name `name`, whatever its namespace.
pub fn attribute<'a>(doc: &'a Document, node: usize, name: &str) -> (r: Option<&'a str>)
    requires
        is_node(doc, node),
    ensures
        r is Some <==> attribute_value(xml_nodes(*doc)[node as int].attributes, None, name@) is Some,
        r matches Some(v) ==> attribute_value(xml_nodes(*doc)[node as int].attributes, None, name@)
            == Some(v@),
{
    node_attribute(doc, node, name)
}

/// The value of the attribute of `node` with the given namespace and local name.
pub fn attribute_ns<'a>(doc: &'a Document, node: usize, namespace: &str, name: &str) -> (r: Option<&'a str>)
    requires
        is_node(doc, node),
    ensures
        r is Some <==> attribute_value(
            xml_nodes(*doc)[node as int].attributes,
            Some(namespace@),
            name@,
        ) is Some,
        r matches Some(v) ==> attribute_value(
            xml_nodes(*doc)[node as int].attributes,
            Some(namespace@),
            name@,
        ) == Some(v@),
{
    node_attribute_ns(doc, node, namespace, name)
}

/// The first child element of `node` with tag `tag` that has text.
fn child_with_text(doc: &Document, node: usize, tag: &str) -> (r: Option<usize>)
    requires
        is_node(doc, node),
    ensures
        r == first_with_tag_and_text(xml_nodes(*doc), xml_nodes(*doc)[node as int].children, tag@),
        r matches Some(c) ==> is_node(doc, c),
{
    let ghost nodes = xml_nodes(*doc);
    let ghost p = |c: usize| is_elem_with_tag(nodes, c, tag@) && nodes[c as int].text is Some;
    let children = node_children(doc, node);
    let mut i: usize = 0;
    while i < children.len()
        invariant
            nodes == xml_nodes(*doc),
            p == (|c: usize| is_elem_with_tag(nodes, c, tag@) && nodes[c as int].text is Some),
            children@ == nodes[node as int].children,
            forall|k: int| 0 <= k < children@.len() ==> #[trigger] children@[k] < nodes.len(),
            i <= children@.len(),
            forall|j: int| 0 <= j < i ==> !p(#[trigger] children@[j]),
        decreases children.len() - i,
    {
        let c = children[i];
        if node_has_tag_name(doc, c, tag) {
            if node_text(doc, c).is_some() {
                proof {
                    lemma_first_where_skip(children@, i as int, p);
                }
                return Some(c);
            }
        }
        i = i + 1;
    }
    proof {
        lemma_first_where_none(children@, p);
    }
    None
}

/// The trimmed text of the first child element of `node` with tag `tag` that has text; a missing
/// one is a structure failure.
pub fn parse_child_elem_string(doc: &Document, node: usize, tag: &str) -> (r: Result<String, XmlError>)
    requires
        is_node(doc, node),
    ensures
        match child_text(xml_nodes(*doc), node, tag@) {
            Some(t) => r matches Ok(s) && s@ == t,
            None => r matches Err(XmlError::StructureFail),
        },
{
    match parse_child_elem_opt_string(doc, node, tag) {
        Some(s) => Ok(s),
        None => Err(XmlError::StructureFail),
    }
}

/// The trimmed text of the first child element of `node` with tag `tag` that has text, if any.
pub fn parse_child_elem_opt_string(doc: &Document, node: usize, tag: &str) -> (r: Option<String>)
    requires
        is_node(doc, node),
    ensures
        r is Some <==> child_text(xml_nodes(*doc), node, tag@) is Some,
        r matches Some(s) ==> child_text(xml_nodes(*doc), node, tag@) == Some(s@),
{
    match child_with_text(doc, node, tag) {
        Some(c) => {
            proof {
                let nodes = xml_nodes(*doc);
                lemma_first_where_member(
                    nodes[node as int].children,
                    |c: usize| is_elem_with_tag(nodes, c, tag@) && nodes[c as int].text is Some,
                );
            }
            match node_text(doc, c) {
                Some(t) => Some(trim(t).to_owned()),
                None => None,
            }
        },
        None => None,
    }
}

/// Parses a text as a boolean: `true` or `false`.
pub fn parse_bool_text(t: &str) -> (r: Option<bool>)
    ensures
        r == parse_bool(t@),
{
    if text_eq(t, "true") {
        Some(true)
    } else if text_eq(t, "false") {
        Some(false)
    } else {
        None
    }
}

/// The boolean that the trimmed text of the first child element of `node` with tag `tag` that
/// has text denotes; a missing element is a structure failure, other text a parse failure.
pub fn parse_child_elem_bool(doc: &Document, node: usize, tag: &str) -> (r: Result<bool, XmlError>)
    requires
        is_node(doc, node),
    ensures
        match child_text(xml_nodes(*doc), node, tag@) {
            Some(t) => match parse_bool(t) {
                Some(b) => r == Ok::<bool, XmlError>(b),
                None => r == Err::<bool, XmlError>(XmlError::ParseTextFail),
            },
            None => r == Err::<bool, XmlError>(XmlError::StructureFail),
        },
{
    match parse_child_elem_opt_bool(doc, node, tag) {
        Ok(Some(b)) => Ok(b),
        Ok(None) => Err(XmlError::StructureFail),
        Err(e) => Err(e),
    }
}

/// The boolean that the trimmed text of the first child element of `node` with tag `tag` that
/// has text denotes, if there is such an element; other text is a parse failure.
pub fn parse_child_elem_opt_bool(doc: &Document, node: usize, tag: &str) -> (r: Result<Option<bool>, XmlError>)
    requires
        is_node(doc, node),
    ensures
        match child_text(xml_nodes(*doc), node, tag@) {
            Some(t) => match parse_bool(t) {
                Some(b) => r == Ok::<Option<bool>, XmlError>(Some(b)),
                None => r == Err::<Option<bool>, XmlError>(XmlError::ParseTextFail),
            },
            None => r == Ok::<Option<bool>, XmlError>(None),
        },
{
    match parse_child_elem_opt_string(doc, node, tag) {
        Some(t) => match parse_bool_text(t.as_str()) {
            Some(b) => Ok(Some(b)),
            None => Err(XmlError::ParseTextFail),
        },
        None => Ok(None),
    }
}

/// The trimmed value of the attribute of `node` with local name `name`; a missing attribute is a
/// structure failure.
pub fn parse_attribute_string(doc: &Document, node: usize, name: &str) -> (r: Result<String, XmlError>)
    requires
        is_node(doc, node),
    ensures
        match attribute_value(xml_nodes(*doc)[node as int].attributes, None, name@) {
            Some(v) => r matches Ok(s) && s@ == trimmed(v),
            None => r matches Err(XmlError::StructureFail),
        },
{
    match node_attribute(doc, node, name) {
        Some(v) => Ok(trim(v).to_owned()),
        None => Err(XmlError::StructureFail),
    }
}

} // verus!

use vstd::prelude::*;

use html5ever::tendril::TendrilSink;
use markup5ever_rcdom::NodeData;

use crate::engine::join_errors;
use crate::engine::joined_msgs;
use crate::engine::validate_document;
use crate::rules::validation_msgs;
use crate::tree::Attribute;
use crate::tree::DomNode;
use crate::tree::NodeKind;

verus! {

#[verifier::external_type_specification]
#[verifier::external_body]
pub struct ExRcdom(markup5ever_rcdom::Node);

/// The tree that parsing a given text yields. Parsing runs with fixed
/// options and builds the tree from the text alone, so the result is a
/// function of the text.
pub uninterp spec fn parsed_tree(text: Seq<char>) -> DomNode;

/// Relies on the `NodeData` variants of markup5ever_rcdom: one arm per
/// variant, moving the name, attribute and content fields over.
#[verifier::external_body]
fn convert_kind(h: &std::rc::Rc<markup5ever_rcdom::Node>) -> NodeKind {
    match &h.data {
        NodeData::Document => NodeKind::Document,
        NodeData::Doctype { name, .. } => NodeKind::Doctype { name: name.to_string() },
        NodeData::Element { name, attrs, .. } => NodeKind::Element {
            name: name.local.to_string(),
            attrs: attrs.borrow().iter().map(|a| Attribute {
                name: a.name.local.to_string(),
                value: a.value.to_string(),
            }).collect(),
        },
        NodeData::Text { contents } => NodeKind::Text { content: contents.borrow().to_string() },
        NodeData::Comment { contents } => NodeKind::Comment { content: contents.to_string() },
        _ => NodeKind::Other,
    }
}

/// Relies on the child lists of markup5ever_rcdom nodes: each node is
/// carried over with its children in stored order.
#[verifier::external_body]
fn convert_node(h: &std::rc::Rc<markup5ever_rcdom::Node>) -> DomNode {
    let mut children: Vec<DomNode> = Vec::new();
    for c in h.children.borrow().iter() {
        children.push(convert_node(c));
    }
    DomNode { kind: convert_kind(h), children }
}

/// Relies on html5ever's parse_document driving a markup5ever_rcdom tree
/// sink over the in-memory text. The parse recovers from malformed input
/// rather than failing, and with default options the resulting tree depends
/// on the text alone.
#[verifier::external_body]
fn parse_html_text(content: &str) -> (r: DomNode)
    ensures
        r == parsed_tree(content@),
{
    let dom = html5ever::parse_document(
        markup5ever_rcdom::RcDom::default(),
        html5ever::ParseOpts::default(),
    ).one(content);
    convert_node(&dom.document)
}

/// Parse a document text and validate the resulting tree.
///
/// The result is `Ok` exactly when the parsed tree's report is empty, and
/// `Err` with the report's messages joined by line breaks when it is not.
pub fn validate_html(content: &str) -> (r: Result<(), String>)
    ensures
        r is Ok <==> validation_msgs(parsed_tree(content@)).len() == 0,
        r matches Err(e) ==> e@ == joined_msgs(validation_msgs(parsed_tree(content@))),
{
    let root = parse_html_text(content);
    let errors = validate_document(&root);
    if errors.len() == 0 {
        Ok(())
    } else {
        Err(join_errors(&errors))
    }
}

} // verus!

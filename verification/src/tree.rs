use vstd::prelude::*;

verus! {

/// One attribute of an element: an ordered (name, value) pair of text.
/// Duplicate names are passed through as-is; the tree layer does not
/// deduplicate them.
pub struct Attribute {
    pub name: String,
    pub value: String,
}

/// The kind of a node in the parsed document tree.
///
/// `Other` stands for any node kind outside the recognized set (for example a
/// processing instruction): the engine treats it as a no-op but still walks
/// its children.
pub enum NodeKind {
    Document,
    Doctype { name: String },
    Element { name: String, attrs: Vec<Attribute> },
    Text { content: String },
    Comment { content: String },
    Other,
}

/// A node of the parsed document tree. Each node exclusively owns its
/// children; their order is document order and is significant.
pub struct DomNode {
    pub kind: NodeKind,
    pub children: Vec<DomNode>,
}

impl Attribute {
    pub fn new(name: String, value: String) -> (a: Attribute)
        ensures
            a.name@ == name@,
            a.value@ == value@,
    {
        Attribute { name, value }
    }
}

impl DomNode {
    pub fn document(children: Vec<DomNode>) -> (n: DomNode)
        ensures
            n == (DomNode { kind: NodeKind::Document, children }),
    {
        DomNode { kind: NodeKind::Document, children }
    }

    pub fn doctype(name: String) -> (n: DomNode)
        ensures
            n.kind == (NodeKind::Doctype { name }),
            n.children@.len() == 0,
    {
        DomNode { kind: NodeKind::Doctype { name }, children: Vec::new() }
    }

    pub fn element(name: String, attrs: Vec<Attribute>, children: Vec<DomNode>) -> (n: DomNode)
        ensures
            n == (DomNode { kind: NodeKind::Element { name, attrs }, children }),
    {
        DomNode { kind: NodeKind::Element { name, attrs }, children }
    }

    pub fn text(content: String) -> (n: DomNode)
        ensures
            n.kind == (NodeKind::Text { content }),
            n.children@.len() == 0,
    {
        DomNode { kind: NodeKind::Text { content }, children: Vec::new() }
    }

    pub fn comment(content: String) -> (n: DomNode)
        ensures
            n.kind == (NodeKind::Comment { content }),
            n.children@.len() == 0,
    {
        DomNode { kind: NodeKind::Comment { content }, children: Vec::new() }
    }
}

/// Whether some attribute in the sequence has exactly the given name
/// (case-preserving; if a name repeats, either occurrence counts).
pub open spec fn has_attr(attrs: Seq<Attribute>, name: Seq<char>) -> bool {
    exists|i: int| 0 <= i < attrs.len() && attrs[i].name@ == name
}

} // verus!

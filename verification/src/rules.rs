use vstd::prelude::*;

use crate::context::flags_step;
use crate::context::init_ctx;
use crate::context::structure_msgs;
use crate::context::Ctx;
use crate::messages::duplicate_msg;
use crate::messages::invalid_doctype_msg;
use crate::messages::missing_alt_msg;
use crate::messages::missing_href_msg;
use crate::messages::missing_src_msg;
use crate::messages::void_children_msg;
use crate::tree::has_attr;
use crate::tree::Attribute;
use crate::tree::DomNode;
use crate::tree::NodeKind;

verus! {

/// The element names that may occur at most once per document.
pub open spec fn singleton_tags() -> Set<Seq<char>> {
    set!["title"@, "base"@]
}

/// The element names of the void category, which never contain children.
pub open spec fn void_tags() -> Set<Seq<char>> {
    set![
        "area"@,
        "base"@,
        "br"@,
        "col"@,
        "embed"@,
        "hr"@,
        "img"@,
        "input"@,
        "link"@,
        "meta"@,
        "source"@,
        "track"@,
        "wbr"@,
    ]
}

/// The doctype rule: a doctype named exactly "html" sets the flag; any other
/// name yields the invalid-doctype finding and leaves the flag alone.
pub open spec fn doctype_step(name: Seq<char>, c: Ctx) -> (Ctx, Seq<Seq<char>>) {
    if name == "html"@ {
        (Ctx { has_doctype: true, ..c }, Seq::<Seq<char>>::empty())
    } else {
        (c, seq![invalid_doctype_msg(name)])
    }
}

/// The singleton rule: a second or later occurrence of a singleton tag yields
/// the duplicate finding; the first occurrence is recorded.
pub open spec fn unique_step(name: Seq<char>, c: Ctx) -> (Ctx, Seq<Seq<char>>) {
    if singleton_tags().contains(name) {
        if c.seen.contains(name) {
            (c, seq![duplicate_msg(name)])
        } else {
            (Ctx { seen: c.seen.insert(name), ..c }, Seq::<Seq<char>>::empty())
        }
    } else {
        (c, Seq::<Seq<char>>::empty())
    }
}

/// The required-attribute rule: `img` must carry `src` and `alt` (checked
/// independently, in that order), `a` must carry `href`.
pub open spec fn attr_msgs(name: Seq<char>, attrs: Seq<Attribute>) -> Seq<Seq<char>> {
    if name == "img"@ {
        (if !has_attr(attrs, "src"@) {
            seq![missing_src_msg()]
        } else {
            Seq::<Seq<char>>::empty()
        }) + (if !has_attr(attrs, "alt"@) {
            seq![missing_alt_msg()]
        } else {
            Seq::<Seq<char>>::empty()
        })
    } else if name == "a"@ {
        if !has_attr(attrs, "href"@) {
            seq![missing_href_msg()]
        } else {
            Seq::<Seq<char>>::empty()
        }
    } else {
        Seq::<Seq<char>>::empty()
    }
}

/// The void rule: a void-category element with any children at all yields
/// exactly one finding, however many children it has.
pub open spec fn void_step_msgs(name: Seq<char>, has_children: bool) -> Seq<Seq<char>> {
    if void_tags().contains(name) && has_children {
        seq![void_children_msg(name)]
    } else {
        Seq::<Seq<char>>::empty()
    }
}

/// Everything one element contributes, in the order the checks run: the
/// structure flags, then the singleton rule, the attribute rules and the
/// void rule.
pub open spec fn element_step(
    name: Seq<char>,
    attrs: Seq<Attribute>,
    has_children: bool,
    c: Ctx,
) -> (Ctx, Seq<Seq<char>>) {
    let c1 = flags_step(name, c);
    let (c2, dup) = unique_step(name, c1);
    (c2, dup + attr_msgs(name, attrs) + void_step_msgs(name, has_children))
}

/// What visiting one node (not its children) does to the context and which
/// findings it appends. Document, text, comment and unrecognized kinds are
/// no-ops.
pub open spec fn node_step(n: DomNode, c: Ctx) -> (Ctx, Seq<Seq<char>>) {
    match n.kind {
        NodeKind::Document => (c, Seq::<Seq<char>>::empty()),
        NodeKind::Doctype { name } => doctype_step(name@, c),
        NodeKind::Element { name, attrs } => element_step(
            name@,
            attrs@,
            n.children@.len() > 0,
            c,
        ),
        NodeKind::Text { .. } => (c, Seq::<Seq<char>>::empty()),
        NodeKind::Comment { .. } => (c, Seq::<Seq<char>>::empty()),
        NodeKind::Other => (c, Seq::<Seq<char>>::empty()),
    }
}

/// The pre-order walk: the node's own findings first, then those of its
/// children, left to right, threading the context through.
pub open spec fn traverse_spec(n: DomNode, c: Ctx) -> (Ctx, Seq<Seq<char>>)
    decreases n, 0int,
{
    let (c1, m1) = node_step(n, c);
    let (c2, m2) = traverse_nodes_spec(n.children@, 0, c1);
    (c2, m1 + m2)
}

/// The walk over the nodes of `nodes` from position `i` on.
pub open spec fn traverse_nodes_spec(nodes: Seq<DomNode>, i: int, c: Ctx) -> (Ctx, Seq<Seq<char>>)
    decreases nodes, nodes.len() - i,
{
    if 0 <= i < nodes.len() {
        let (c1, m1) = traverse_spec(nodes[i], c);
        let (c2, m2) = traverse_nodes_spec(nodes, i + 1, c1);
        (c2, m1 + m2)
    } else {
        (c, Seq::<Seq<char>>::empty())
    }
}

/// The full report owed to a tree: the findings of the walk from the initial
/// context, followed by the structural findings of the final context.
pub open spec fn validation_msgs(root: DomNode) -> Seq<Seq<char>> {
    let (c, m) = traverse_spec(root, init_ctx());
    m + structure_msgs(c)
}

} // verus!

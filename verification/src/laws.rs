use vstd::prelude::*;

use crate::context::flags_step;
use crate::context::init_ctx;
use crate::context::structure_msgs;
use crate::context::Ctx;
use crate::messages::duplicate_msg;
use crate::messages::invalid_doctype_msg;
use crate::messages::is_invalid_doctype_message;
use crate::messages::lemma_attribute_msg_chars;
use crate::messages::lemma_duplicate_base_ne_title;
use crate::messages::lemma_duplicate_msg_chars;
use crate::messages::lemma_invalid_doctype_msg_chars;
use crate::messages::lemma_structure_msg_chars;
use crate::messages::lemma_void_msg_chars;
use crate::messages::missing_alt_msg;
use crate::messages::missing_body_msg;
use crate::messages::missing_doctype_msg;
use crate::messages::missing_head_msg;
use crate::messages::missing_href_msg;
use crate::messages::missing_html_msg;
use crate::messages::missing_src_msg;
use crate::messages::void_children_msg;
use crate::rules::attr_msgs;
use crate::rules::singleton_tags;
use crate::rules::element_step;
use crate::rules::node_step;
use crate::rules::traverse_nodes_spec;
use crate::rules::traverse_spec;
use crate::rules::unique_step;
use crate::rules::validation_msgs;
use crate::rules::void_step_msgs;
use crate::rules::void_tags;
use crate::tree::has_attr;
use crate::tree::Attribute;
use crate::tree::DomNode;
use crate::tree::NodeKind;

verus! {

// Tree measures the laws speak about.

/// Whether every doctype node in the tree is named exactly "html".
pub open spec fn doctypes_all_html(n: DomNode) -> bool
    decreases n, 0int,
{
    (match n.kind {
        NodeKind::Doctype { name } => name@ == "html"@,
        _ => true,
    }) && doctypes_all_html_from(n.children@, 0)
}

/// Whether every doctype node under the nodes of `nodes` from position `i`
/// on is named exactly "html".
pub open spec fn doctypes_all_html_from(nodes: Seq<DomNode>, i: int) -> bool
    decreases nodes, nodes.len() - i,
{
    if 0 <= i < nodes.len() {
        doctypes_all_html(nodes[i]) && doctypes_all_html_from(nodes, i + 1)
    } else {
        true
    }
}

/// Whether the tree holds a doctype node named exactly "html".
pub open spec fn has_html_doctype(n: DomNode) -> bool
    decreases n, 0int,
{
    (match n.kind {
        NodeKind::Doctype { name } => name@ == "html"@,
        _ => false,
    }) || has_html_doctype_from(n.children@, 0)
}

/// Whether some node of `nodes` from position `i` on holds a doctype node
/// named exactly "html".
pub open spec fn has_html_doctype_from(nodes: Seq<DomNode>, i: int) -> bool
    decreases nodes, nodes.len() - i,
{
    if 0 <= i < nodes.len() {
        has_html_doctype(nodes[i]) || has_html_doctype_from(nodes, i + 1)
    } else {
        false
    }
}

/// How many `title` elements the tree holds.
pub open spec fn title_count(n: DomNode) -> int
    decreases n, 0int,
{
    (match n.kind {
        NodeKind::Element { name, .. } => if name@ == "title"@ {
            1int
        } else {
            0int
        },
        _ => 0int,
    }) + title_count_from(n.children@, 0)
}

/// How many `title` elements the nodes of `nodes` from position `i` on hold.
pub open spec fn title_count_from(nodes: Seq<DomNode>, i: int) -> int
    decreases nodes, nodes.len() - i,
{
    if 0 <= i < nodes.len() {
        title_count(nodes[i]) + title_count_from(nodes, i + 1)
    } else {
        0int
    }
}

/// How many entries of `msgs` equal `target`.
pub open spec fn count_eq(msgs: Seq<Seq<char>>, target: Seq<char>) -> int
    decreases msgs.len(),
{
    if msgs.len() == 0 {
        0int
    } else {
        (if msgs[0] == target {
            1int
        } else {
            0int
        }) + count_eq(msgs.drop_first(), target)
    }
}

proof fn lemma_count_eq_add(a: Seq<Seq<char>>, b: Seq<Seq<char>>, target: Seq<char>)
    ensures
        count_eq(a + b, target) == count_eq(a, target) + count_eq(b, target),
    decreases a.len(),
{
    if a.len() == 0 {
        assert(a + b =~= b);
    } else {
        assert((a + b).drop_first() =~= a.drop_first() + b);
        lemma_count_eq_add(a.drop_first(), b, target);
    }
}

proof fn lemma_count_eq_single(m: Seq<char>, target: Seq<char>)
    ensures
        count_eq(seq![m], target) == (if m == target {
            1int
        } else {
            0int
        }),
{
    assert(seq![m].drop_first() =~= Seq::<Seq<char>>::empty());
    assert(count_eq(Seq::<Seq<char>>::empty(), target) == 0);
    assert(seq![m][0] == m);
}

// Determinism.

/// Law: validation is deterministic. Two runs over the same immutable tree
/// owe the same report, in contents and in order.
pub proof fn lemma_validation_deterministic(
    root: DomNode,
    r1: Seq<Seq<char>>,
    r2: Seq<Seq<char>>,
)
    requires
        r1 == validation_msgs(root),
        r2 == validation_msgs(root),
    ensures
        r1 == r2,
{
}

// Report order.

/// Law: the report of a tree is exactly the walk's findings, in discovery
/// order, followed by the structural findings of the final context; the
/// structural tail keeps the fixed order doctype, html, head, body whatever
/// was absent from the document.
pub proof fn lemma_report_order(root: DomNode)
    ensures
        ({
            let (c, m) = traverse_spec(root, init_ctx());
            validation_msgs(root).take(m.len() as int) == m && validation_msgs(root).skip(
                m.len() as int,
            ) == structure_msgs(c)
        }),
{
    let (c, m) = traverse_spec(root, init_ctx());
    assert(validation_msgs(root).take(m.len() as int) =~= m);
    assert(validation_msgs(root).skip(m.len() as int) =~= structure_msgs(c));
}

// The img rule fires one finding per missing attribute.

/// Law: an `img` element that misses both `src` and `alt` yields exactly two
/// findings, one per missing attribute, and the two findings differ.
pub proof fn lemma_img_missing_both(attrs: Seq<Attribute>)
    requires
        !has_attr(attrs, "src"@),
        !has_attr(attrs, "alt"@),
    ensures
        attr_msgs("img"@, attrs) == seq![missing_src_msg(), missing_alt_msg()],
        missing_src_msg() != missing_alt_msg(),
{
    lemma_attribute_msg_chars();
    assert(attr_msgs("img"@, attrs) =~= seq![missing_src_msg(), missing_alt_msg()]);
}

// The void rule fires exactly once per offending element.

/// Law: a void-category element with at least one child yields exactly one
/// children finding. The rule reads only whether children exist at all, so
/// the finding is the same however many children the element has.
pub proof fn lemma_void_one_finding(name: Seq<char>)
    requires
        void_tags().contains(name),
    ensures
        void_step_msgs(name, true) == seq![void_children_msg(name)],
        void_step_msgs(name, false) == Seq::<Seq<char>>::empty(),
{
}


// The doctype law.

/// A finding text that cannot be an invalid-doctype finding: it is nonempty
/// and starts with another character.
spec fn not_invalid_doctype_text(m: Seq<char>) -> bool {
    m.len() > 0 && m[0] != 'I'
}

proof fn lemma_element_msgs_clean(name: Seq<char>, attrs: Seq<Attribute>, has_children: bool, c: Ctx)
    ensures
        ({
            let (c2, m) = element_step(name, attrs, has_children, c);
            (forall|k: int| 0 <= k < m.len() ==> not_invalid_doctype_text(#[trigger] m[k]))
                && c2.has_doctype == c.has_doctype
        }),
{
    lemma_duplicate_msg_chars(name);
    lemma_attribute_msg_chars();
    lemma_void_msg_chars(name);
}

proof fn lemma_clean_walk(n: DomNode, c: Ctx)
    requires
        doctypes_all_html(n),
    ensures
        ({
            let (c2, m) = traverse_spec(n, c);
            c2.has_doctype == (c.has_doctype || has_html_doctype(n)) && (forall|k: int|
                0 <= k < m.len() ==> not_invalid_doctype_text(#[trigger] m[k]))
        }),
    decreases n, 0int,
{
    let (c1, m1) = node_step(n, c);
    let (c2, m2) = traverse_nodes_spec(n.children@, 0, c1);
    match n.kind {
        NodeKind::Element { name, attrs } => {
            lemma_element_msgs_clean(name@, attrs@, n.children@.len() > 0, c);
        },
        _ => {},
    }
    lemma_clean_walk_from(n.children@, 0, c1);
    assert forall|k: int| 0 <= k < (m1 + m2).len() implies not_invalid_doctype_text(
        #[trigger] (m1 + m2)[k],
    ) by {
        if k < m1.len() {
            assert((m1 + m2)[k] == m1[k]);
        } else {
            assert((m1 + m2)[k] == m2[k - m1.len()]);
        }
    }
}

proof fn lemma_clean_walk_from(nodes: Seq<DomNode>, i: int, c: Ctx)
    requires
        doctypes_all_html_from(nodes, i),
    ensures
        ({
            let (c2, m) = traverse_nodes_spec(nodes, i, c);
            c2.has_doctype == (c.has_doctype || has_html_doctype_from(nodes, i)) && (forall|k: int|
                0 <= k < m.len() ==> not_invalid_doctype_text(#[trigger] m[k]))
        }),
    decreases nodes, nodes.len() - i,
{
    if 0 <= i < nodes.len() {
        let (c1, m1) = traverse_spec(nodes[i], c);
        let (c2, m2) = traverse_nodes_spec(nodes, i + 1, c1);
        lemma_clean_walk(nodes[i], c);
        lemma_clean_walk_from(nodes, i + 1, c1);
        assert forall|k: int| 0 <= k < (m1 + m2).len() implies not_invalid_doctype_text(
            #[trigger] (m1 + m2)[k],
        ) by {
            if k < m1.len() {
                assert((m1 + m2)[k] == m1[k]);
            } else {
                assert((m1 + m2)[k] == m2[k - m1.len()]);
            }
        }
    }
}

/// Law: a document whose doctype nodes are all named exactly "html", and
/// which holds at least one of them, has the doctype flag set after the walk
/// and its report holds no invalid-doctype finding.
pub proof fn lemma_html_doctype_accepted(root: DomNode)
    requires
        doctypes_all_html(root),
        has_html_doctype(root),
    ensures
        traverse_spec(root, init_ctx()).0.has_doctype,
        forall|k: int|
            0 <= k < validation_msgs(root).len() ==> !is_invalid_doctype_message(
                #[trigger] validation_msgs(root)[k],
            ),
{
    lemma_clean_walk(root, init_ctx());
    lemma_structure_msg_chars();
    let (c, m) = traverse_spec(root, init_ctx());
    let s = structure_msgs(c);
    assert forall|k: int| 0 <= k < validation_msgs(root).len() implies !is_invalid_doctype_message(
        #[trigger] validation_msgs(root)[k],
    ) by {
        let msg = validation_msgs(root)[k];
        if k < m.len() {
            assert(msg == m[k]);
        } else {
            assert(msg == s[k - m.len()]);
            assert(msg.len() > 0 && msg[0] == 'M');
        }
        if is_invalid_doctype_message(msg) {
            let dn = choose|dn: Seq<char>| msg == invalid_doctype_msg(dn);
            lemma_invalid_doctype_msg_chars(dn);
            assert(false);
        }
    }
}

// The duplicate-title law.

/// How many duplicate-title findings a walk owes for `count` title elements,
/// starting from a context that has (or has not) seen a title already.
spec fn expected_dups(count: int, seen: bool) -> int {
    if seen {
        count
    } else if count > 0 {
        count - 1
    } else {
        0int
    }
}

proof fn lemma_title_count_nonneg(n: DomNode)
    ensures
        title_count(n) >= 0,
    decreases n, 0int,
{
    lemma_title_count_from_nonneg(n.children@, 0);
}

proof fn lemma_title_count_from_nonneg(nodes: Seq<DomNode>, i: int)
    ensures
        title_count_from(nodes, i) >= 0,
    decreases nodes, nodes.len() - i,
{
    if 0 <= i < nodes.len() {
        lemma_title_count_nonneg(nodes[i]);
        lemma_title_count_from_nonneg(nodes, i + 1);
    }
}

proof fn lemma_attr_msgs_no_dup(name: Seq<char>, attrs: Seq<Attribute>)
    ensures
        count_eq(attr_msgs(name, attrs), duplicate_msg("title"@)) == 0,
{
    let d = duplicate_msg("title"@);
    lemma_attribute_msg_chars();
    lemma_duplicate_msg_chars("title"@);
    assert(count_eq(Seq::<Seq<char>>::empty(), d) == 0);
    if name == "img"@ {
        let s1 = if !has_attr(attrs, "src"@) {
            seq![missing_src_msg()]
        } else {
            Seq::<Seq<char>>::empty()
        };
        let s2 = if !has_attr(attrs, "alt"@) {
            seq![missing_alt_msg()]
        } else {
            Seq::<Seq<char>>::empty()
        };
        lemma_count_eq_add(s1, s2, d);
        lemma_count_eq_single(missing_src_msg(), d);
        lemma_count_eq_single(missing_alt_msg(), d);
    } else if name == "a"@ {
        lemma_count_eq_single(missing_href_msg(), d);
    }
}

proof fn lemma_element_dup_titles(name: Seq<char>, attrs: Seq<Attribute>, has_children: bool, c: Ctx)
    ensures
        ({
            let (c2, m) = element_step(name, attrs, has_children, c);
            c2.seen.contains("title"@) == (c.seen.contains("title"@) || name == "title"@)
                && count_eq(m, duplicate_msg("title"@)) == (if name == "title"@
                && c.seen.contains("title"@) {
                1int
            } else {
                0int
            })
        }),
{
    let d = duplicate_msg("title"@);
    let c1 = flags_step(name, c);
    let (c2, dup) = unique_step(name, c1);
    let am = attr_msgs(name, attrs);
    let vm = void_step_msgs(name, has_children);
    lemma_count_eq_add(dup + am, vm, d);
    lemma_count_eq_add(dup, am, d);
    lemma_attr_msgs_no_dup(name, attrs);
    lemma_void_msg_chars(name);
    lemma_duplicate_msg_chars("title"@);
    assert(count_eq(Seq::<Seq<char>>::empty(), d) == 0);
    if void_tags().contains(name) && has_children {
        lemma_count_eq_single(void_children_msg(name), d);
    }
    reveal_strlit("title");
    reveal_strlit("base");
    if singleton_tags().contains(name) {
        assert(name == "title"@ || name == "base"@);
        if c1.seen.contains(name) {
            lemma_count_eq_single(duplicate_msg(name), d);
            if name == "base"@ {
                lemma_duplicate_base_ne_title();
            }
        }
    }
}

proof fn lemma_title_walk(n: DomNode, c: Ctx)
    ensures
        ({
            let (c2, m) = traverse_spec(n, c);
            c2.seen.contains("title"@) == (c.seen.contains("title"@) || title_count(n) > 0)
                && count_eq(m, duplicate_msg("title"@)) == expected_dups(
                title_count(n),
                c.seen.contains("title"@),
            )
        }),
    decreases n, 0int,
{
    let d = duplicate_msg("title"@);
    let (c1, m1) = node_step(n, c);
    let (c2, m2) = traverse_nodes_spec(n.children@, 0, c1);
    assert(count_eq(Seq::<Seq<char>>::empty(), d) == 0);
    match n.kind {
        NodeKind::Doctype { name } => {
            if name@ != "html"@ {
                lemma_invalid_doctype_msg_chars(name@);
                lemma_duplicate_msg_chars("title"@);
                lemma_count_eq_single(invalid_doctype_msg(name@), d);
            }
        },
        NodeKind::Element { name, attrs } => {
            lemma_element_dup_titles(name@, attrs@, n.children@.len() > 0, c);
        },
        _ => {},
    }
    lemma_title_walk_from(n.children@, 0, c1);
    lemma_title_count_from_nonneg(n.children@, 0);
    lemma_count_eq_add(m1, m2, d);
}

proof fn lemma_title_walk_from(nodes: Seq<DomNode>, i: int, c: Ctx)
    ensures
        ({
            let (c2, m) = traverse_nodes_spec(nodes, i, c);
            c2.seen.contains("title"@) == (c.seen.contains("title"@) || title_count_from(nodes, i)
                > 0) && count_eq(m, duplicate_msg("title"@)) == expected_dups(
                title_count_from(nodes, i),
                c.seen.contains("title"@),
            )
        }),
    decreases nodes, nodes.len() - i,
{
    let d = duplicate_msg("title"@);
    if 0 <= i < nodes.len() {
        let (c1, m1) = traverse_spec(nodes[i], c);
        let (c2, m2) = traverse_nodes_spec(nodes, i + 1, c1);
        lemma_title_walk(nodes[i], c);
        lemma_title_walk_from(nodes, i + 1, c1);
        lemma_title_count_nonneg(nodes[i]);
        lemma_title_count_from_nonneg(nodes, i + 1);
        lemma_count_eq_add(m1, m2, d);
    } else {
        assert(count_eq(Seq::<Seq<char>>::empty(), d) == 0);
    }
}

/// Law: a document holding two or more `title` elements yields exactly one
/// duplicate-title finding per occurrence beyond the first; in particular at
/// least one such finding.
pub proof fn lemma_duplicate_titles(root: DomNode)
    requires
        title_count(root) >= 2,
    ensures
        count_eq(validation_msgs(root), duplicate_msg("title"@)) == title_count(root) - 1,
        count_eq(validation_msgs(root), duplicate_msg("title"@)) >= 1,
{
    let d = duplicate_msg("title"@);
    lemma_title_walk(root, init_ctx());
    let (c, m) = traverse_spec(root, init_ctx());
    let s = structure_msgs(c);
    lemma_count_eq_add(m, s, d);
    lemma_structure_msg_chars();
    lemma_duplicate_msg_chars("title"@);
    assert(count_eq(Seq::<Seq<char>>::empty(), d) == 0);
    let s1 = if !c.has_doctype {
        seq![missing_doctype_msg()]
    } else {
        Seq::<Seq<char>>::empty()
    };
    let s2 = if !c.has_html {
        seq![missing_html_msg()]
    } else {
        Seq::<Seq<char>>::empty()
    };
    let s3 = if !c.has_head {
        seq![missing_head_msg()]
    } else {
        Seq::<Seq<char>>::empty()
    };
    let s4 = if !c.has_body {
        seq![missing_body_msg()]
    } else {
        Seq::<Seq<char>>::empty()
    };
    lemma_count_eq_add(s1 + s2 + s3, s4, d);
    lemma_count_eq_add(s1 + s2, s3, d);
    lemma_count_eq_add(s1, s2, d);
    lemma_count_eq_single(missing_doctype_msg(), d);
    lemma_count_eq_single(missing_html_msg(), d);
    lemma_count_eq_single(missing_head_msg(), d);
    lemma_count_eq_single(missing_body_msg(), d);
}

} // verus!

use vstd::prelude::*;

use crate::context::init_ctx;
use crate::context::msgs_view;
use crate::context::ValidationContext;
use crate::rules::attr_msgs;
use crate::rules::doctype_step;
use crate::rules::node_step;
use crate::rules::traverse_nodes_spec;
use crate::rules::traverse_spec;
use crate::rules::unique_step;
use crate::rules::validation_msgs;
use crate::rules::void_step_msgs;
use crate::rules::void_tags;
use crate::messages::make_duplicate_msg;
use crate::messages::make_invalid_doctype_msg;
use crate::messages::make_void_children_msg;
use crate::strutil::str_eq;
use crate::tree::has_attr;
use crate::tree::Attribute;
use crate::tree::DomNode;
use crate::tree::NodeKind;

verus! {

/// Whether some attribute of `attrs` has exactly the name `name`.
pub fn has_attribute(attrs: &Vec<Attribute>, name: &str) -> (b: bool)
    ensures
        b == has_attr(attrs@, name@),
{
    let mut i: usize = 0;
    while i < attrs.len()
        invariant
            i <= attrs@.len(),
            forall|j: int| 0 <= j < i ==> attrs@[j].name@ != name@,
        decreases attrs@.len() - i,
    {
        if str_eq(attrs[i].name.as_str(), name) {
            proof {
                assert(attrs@[i as int].name@ == name@);
            }
            return true;
        }
        i += 1;
    }
    false
}

/// Whether `name` is one of the void-category element names.
pub fn is_void_tag(name: &str) -> (b: bool)
    ensures
        b == void_tags().contains(name@),
{
    str_eq(name, "area") || str_eq(name, "base") || str_eq(name, "br") || str_eq(name, "col")
        || str_eq(name, "embed") || str_eq(name, "hr") || str_eq(name, "img") || str_eq(
        name,
        "input",
    ) || str_eq(name, "link") || str_eq(name, "meta") || str_eq(name, "source") || str_eq(
        name,
        "track",
    ) || str_eq(name, "wbr")
}

/// One validation run: the context accumulated so far and the findings in
/// discovery order.
pub struct HtmlValidator {
    pub context: ValidationContext,
    pub errors: Vec<String>,
}

impl HtmlValidator {
    pub fn new() -> (v: HtmlValidator)
        ensures
            v.context@ == init_ctx(),
            v.errors@ == Seq::<String>::empty(),
    {
        HtmlValidator { context: ValidationContext::new(), errors: Vec::new() }
    }

    /// The doctype rule: the name must be exactly "html".
    pub fn validate_doctype(&mut self, name: &str)
        ensures
            ({
                let (c, m) = doctype_step(name@, old(self).context@);
                final (self).context@ == c && msgs_view(final (self).errors@) == msgs_view(
                    old(self).errors@,
                ) + m
            }),
    {
        let ghost e0 = self.errors@;
        if str_eq(name, "html") {
            self.context.has_doctype = true;
        } else {
            self.errors.push(make_invalid_doctype_msg(name));
        }
        proof {
            let (c, m) = doctype_step(name@, old(self).context@);
            assert(msgs_view(self.errors@) =~= msgs_view(e0) + m);
        }
    }

    /// The singleton rule for `title` and `base`: a repeated occurrence is
    /// reported; a first occurrence is recorded.
    pub fn validate_unique_elements(&mut self, name: &str)
        ensures
            ({
                let (c, m) = unique_step(name@, old(self).context@);
                final (self).context@ == c && msgs_view(final (self).errors@) == msgs_view(
                    old(self).errors@,
                ) + m
            }),
    {
        let ghost e0 = self.errors@;
        if str_eq(name, "title") || str_eq(name, "base") {
            if self.context.has_seen(name) {
                self.errors.push(make_duplicate_msg(name));
            } else {
                self.context.record_seen(name);
            }
        }
        proof {
            let (c, m) = unique_step(name@, old(self).context@);
            assert(msgs_view(self.errors@) =~= msgs_view(e0) + m);
        }
    }

    /// The required-attribute rules: `img` must carry `src` and `alt`
    /// (checked independently), `a` must carry `href`.
    pub fn validate_attributes(&mut self, name: &str, attrs: &Vec<Attribute>)
        ensures
            final (self).context == old(self).context,
            msgs_view(final (self).errors@) == msgs_view(old(self).errors@) + attr_msgs(
                name@,
                attrs@,
            ),
    {
        let ghost e0 = self.errors@;
        if str_eq(name, "img") {
            if !has_attribute(attrs, "src") {
                self.errors.push(String::from_str("<img> tag is missing 'src' attribute."));
            }
            if !has_attribute(attrs, "alt") {
                self.errors.push(String::from_str("<img> tag is missing 'alt' attribute."));
            }
        } else if str_eq(name, "a") {
            if !has_attribute(attrs, "href") {
                self.errors.push(String::from_str("<a> tag is missing 'href' attribute."));
            }
        }
        proof {
            assert(msgs_view(self.errors@) =~= msgs_view(e0) + attr_msgs(name@, attrs@));
        }
    }

    /// The void rule: a void-category element must have no children.
    pub fn validate_void_elements(&mut self, name: &str, node: &DomNode)
        ensures
            final (self).context == old(self).context,
            msgs_view(final (self).errors@) == msgs_view(old(self).errors@) + void_step_msgs(
                name@,
                node.children@.len() > 0,
            ),
    {
        let ghost e0 = self.errors@;
        if is_void_tag(name) && node.children.len() > 0 {
            self.errors.push(make_void_children_msg(name));
        }
        proof {
            assert(msgs_view(self.errors@) =~= msgs_view(e0) + void_step_msgs(
                name@,
                node.children@.len() > 0,
            ));
        }
    }

    /// The pre-order walk: dispatch on the node's kind, then recurse into
    /// every child in stored order, whatever the node itself produced.
    pub fn traverse_dom(&mut self, node: &DomNode)
        ensures
            ({
                let (c, m) = traverse_spec(*node, old(self).context@);
                final (self).context@ == c && msgs_view(final (self).errors@) == msgs_view(
                    old(self).errors@,
                ) + m
            }),
        decreases *node,
    {
        let ghost c0 = self.context@;
        let ghost e0 = self.errors@;
        match &node.kind {
            NodeKind::Document => {},
            NodeKind::Doctype { name } => {
                self.validate_doctype(name.as_str());
            },
            NodeKind::Element { name, attrs } => {
                self.context.update_context(name.as_str());
                self.validate_unique_elements(name.as_str());
                self.validate_attributes(name.as_str(), attrs);
                self.validate_void_elements(name.as_str(), node);
            },
            NodeKind::Text { .. } => {},
            NodeKind::Comment { .. } => {},
            NodeKind::Other => {},
        }
        proof {
            let (c, m) = node_step(*node, c0);
            assert(self.context@ == c);
            assert(msgs_view(self.errors@) =~= msgs_view(e0) + m);
        }
        let ghost c_mid = self.context@;
        let ghost e_mid = self.errors@;
        let ghost target = traverse_nodes_spec(node.children@, 0, c_mid);
        let ghost mut done: Seq<Seq<char>> = Seq::empty();
        proof {
            assert(msgs_view(self.errors@) =~= msgs_view(e_mid) + done);
        }
        let mut i: usize = 0;
        while i < node.children.len()
            invariant
                i <= node.children@.len(),
                msgs_view(self.errors@) == msgs_view(e_mid) + done,
                target.0 == traverse_nodes_spec(node.children@, i as int, self.context@).0,
                target.1 == done + traverse_nodes_spec(node.children@, i as int, self.context@).1,
            decreases node.children@.len() - i,
        {
            let ghost prev = self.context@;
            proof {
                assert(decreases_to!(*node => node.children@[i as int]));
            }
            self.traverse_dom(&node.children[i]);
            proof {
                let (c1, m1) = traverse_spec(node.children@[i as int], prev);
                let (c2, m2) = traverse_nodes_spec(node.children@, i + 1, c1);
                assert(msgs_view(self.errors@) =~= (msgs_view(e_mid) + done) + m1);
                assert((msgs_view(e_mid) + done) + m1 =~= msgs_view(e_mid) + (done + m1));
                assert(target.1 =~= (done + m1) + m2);
                done = done + m1;
            }
            i += 1;
        }
        proof {
            let (c, m) = traverse_spec(*node, c0);
            let (cm, mm) = node_step(*node, c0);
            assert(target.1 =~= done);
            assert(msgs_view(self.errors@) =~= msgs_view(e0) + m);
        }
    }
}

/// The report's messages joined by line breaks: nothing for an empty
/// report, otherwise the messages in order with one line break between
/// each pair of neighbours.
pub open spec fn joined_msgs(msgs: Seq<Seq<char>>) -> Seq<char>
    decreases msgs.len(),
{
    if msgs.len() == 0 {
        Seq::<char>::empty()
    } else if msgs.len() == 1 {
        msgs[0]
    } else {
        joined_msgs(msgs.drop_last()) + "\n"@ + msgs.last()
    }
}

/// Join an error list into one reportable text, line break separated.
pub fn join_errors(errors: &Vec<String>) -> (r: String)
    ensures
        r@ == joined_msgs(msgs_view(errors@)),
{
    let mut r = String::new();
    let mut i: usize = 0;
    while i < errors.len()
        invariant
            i <= errors@.len(),
            r@ == joined_msgs(msgs_view(errors@).take(i as int)),
        decreases errors@.len() - i,
    {
        if i > 0 {
            r.append("\n");
        }
        r.append(errors[i].as_str());
        proof {
            let mv = msgs_view(errors@);
            assert(mv.take(i + 1 as int).drop_last() =~= mv.take(i as int));
            assert(mv.take(i + 1 as int).last() == mv[i as int]);
            if i == 0 {
                assert(Seq::<char>::empty() + mv[0] =~= mv[0]);
            }
        }
        i += 1;
    }
    proof {
        assert(msgs_view(errors@).take(errors@.len() as int) =~= msgs_view(errors@));
    }
    r
}

/// One full validation run over a tree: walk it from a fresh context, then
/// append the structural findings. The result is exactly the report owed to
/// the tree: the findings in discovery order, empty when the tree is valid.
pub fn validate_document(root: &DomNode) -> (errors: Vec<String>)
    ensures
        msgs_view(errors@) == validation_msgs(*root),
{
    let mut validator = HtmlValidator::new();
    validator.traverse_dom(root);
    validator.context.check_document_structure(&mut validator.errors);
    proof {
        assert(msgs_view(Seq::<String>::empty()) =~= Seq::<Seq<char>>::empty());
        assert(msgs_view(validator.errors@) =~= validation_msgs(*root));
    }
    validator.errors
}

} // verus!

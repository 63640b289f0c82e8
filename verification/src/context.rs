use vstd::prelude::*;

use crate::messages::missing_body_msg;
use crate::messages::missing_doctype_msg;
use crate::messages::missing_head_msg;
use crate::messages::missing_html_msg;
use crate::strutil::str_eq;

verus! {

/// The mathematical model of a `ValidationContext`: the four structure flags
/// and the set of singleton tag names already seen.
pub struct Ctx {
    pub has_doctype: bool,
    pub has_html: bool,
    pub has_head: bool,
    pub has_body: bool,
    pub seen: Set<Seq<char>>,
}

/// The context every validation run starts from: no structure flag set, no
/// singleton tag seen.
pub open spec fn init_ctx() -> Ctx {
    Ctx {
        has_doctype: false,
        has_html: false,
        has_head: false,
        has_body: false,
        seen: Set::empty(),
    }
}

/// The set of the views of the recorded names.
pub open spec fn seen_set(names: Seq<String>) -> Set<Seq<char>> {
    Set::new(|x: Seq<char>| exists|i: int| 0 <= i < names.len() && names[i]@ == x)
}

/// The structural findings owed to a finished context, in the fixed order
/// doctype, html, head, body.
pub open spec fn structure_msgs(c: Ctx) -> Seq<Seq<char>> {
    (if !c.has_doctype {
        seq![missing_doctype_msg()]
    } else {
        Seq::<Seq<char>>::empty()
    }) + (if !c.has_html {
        seq![missing_html_msg()]
    } else {
        Seq::<Seq<char>>::empty()
    }) + (if !c.has_head {
        seq![missing_head_msg()]
    } else {
        Seq::<Seq<char>>::empty()
    }) + (if !c.has_body {
        seq![missing_body_msg()]
    } else {
        Seq::<Seq<char>>::empty()
    })
}

/// The view of an error list: the sequence of the texts of its entries.
pub open spec fn msgs_view(errors: Seq<String>) -> Seq<Seq<char>> {
    errors.map_values(|s: String| s@)
}

/// The mutable accumulator of one traversal: which structural pieces were
/// seen, and which singleton tags occurred already.
pub struct ValidationContext {
    pub has_doctype: bool,
    pub has_html: bool,
    pub has_head: bool,
    pub has_body: bool,
    pub unique_elements: Vec<String>,
}

impl View for ValidationContext {
    type V = Ctx;

    open spec fn view(&self) -> Ctx {
        Ctx {
            has_doctype: self.has_doctype,
            has_html: self.has_html,
            has_head: self.has_head,
            has_body: self.has_body,
            seen: seen_set(self.unique_elements@),
        }
    }
}

impl ValidationContext {
    pub fn new() -> (c: ValidationContext)
        ensures
            c@ == init_ctx(),
    {
        let c = ValidationContext {
            has_doctype: false,
            has_html: false,
            has_head: false,
            has_body: false,
            unique_elements: Vec::new(),
        };
        proof {
            assert(c@.seen =~= Set::<Seq<char>>::empty());
        }
        c
    }

    /// Whether `name` was already recorded as a seen singleton tag.
    pub fn has_seen(&self, name: &str) -> (b: bool)
        ensures
            b == self@.seen.contains(name@),
    {
        let mut i: usize = 0;
        while i < self.unique_elements.len()
            invariant
                0 <= i <= self.unique_elements@.len(),
                forall|j: int| 0 <= j < i ==> self.unique_elements@[j]@ != name@,
            decreases self.unique_elements@.len() - i,
        {
            if str_eq(self.unique_elements[i].as_str(), name) {
                return true;
            }
            i += 1;
        }
        false
    }

    /// Record `name` as a seen singleton tag.
    pub fn record_seen(&mut self, name: &str)
        ensures
            final(self)@ == (Ctx { seen: old(self)@.seen.insert(name@), ..old(self)@ }),
    {
        let owned: String = String::from_str(name);
        let ghost names0 = self.unique_elements@;
        self.unique_elements.push(owned);
        proof {
            let names1 = self.unique_elements@;
            assert forall|x: Seq<char>| seen_set(names1).contains(x) implies old(
                self,
            )@.seen.insert(name@).contains(x) by {
                let i = choose|i: int| 0 <= i < names1.len() && names1[i]@ == x;
                if i < names0.len() {
                    assert(names0[i]@ == x);
                }
            }
            assert forall|x: Seq<char>| old(self)@.seen.insert(name@).contains(x) implies seen_set(
                names1,
            ).contains(x) by {
                if old(self)@.seen.contains(x) {
                    let i = choose|i: int| 0 <= i < names0.len() && names0[i]@ == x;
                    assert(names1[i]@ == x);
                } else {
                    assert(names1[names0.len() as int]@ == x);
                }
            }
            assert(self@.seen =~= old(self)@.seen.insert(name@));
        }
    }

    /// Record that an `html`, `head` or `body` element was seen; any other
    /// name leaves the context unchanged.
    pub fn update_context(&mut self, name: &str)
        ensures
            final(self)@ == flags_step(name@, old(self)@),
    {
        if str_eq(name, "html") {
            self.has_html = true;
        } else if str_eq(name, "head") {
            self.has_head = true;
        } else if str_eq(name, "body") {
            self.has_body = true;
        }
    }

    /// Append the structural findings: one distinct message for each of the
    /// four required pieces still missing, in the fixed order doctype, html,
    /// head, body.
    pub fn check_document_structure(&self, errors: &mut Vec<String>)
        ensures
            msgs_view(final(errors)@) == msgs_view(old(errors)@) + structure_msgs(self@),
    {
        let ghost e0 = errors@;
        if !self.has_doctype {
            errors.push(String::from_str("Missing <!DOCTYPE html> declaration."));
        }
        if !self.has_html {
            errors.push(String::from_str("Missing <html> element."));
        }
        if !self.has_head {
            errors.push(String::from_str("Missing <head> element."));
        }
        if !self.has_body {
            errors.push(String::from_str("Missing <body> element."));
        }
        proof {
            assert(msgs_view(errors@) =~= msgs_view(e0) + structure_msgs(self@));
        }
    }
}

/// What one element name does to the structure flags.
pub open spec fn flags_step(name: Seq<char>, c: Ctx) -> Ctx {
    if name == "html"@ {
        Ctx { has_html: true, ..c }
    } else if name == "head"@ {
        Ctx { has_head: true, ..c }
    } else if name == "body"@ {
        Ctx { has_body: true, ..c }
    } else {
        c
    }
}

} // verus!

use vstd::prelude::*;

verus! {

// The texts of the validation findings. Each spec function below gives the
// exact character sequence of one finding; the executable builders produce
// `String`s whose views equal them.

pub open spec fn invalid_doctype_msg(name: Seq<char>) -> Seq<char> {
    "Invalid doctype: "@ + name + ". Expected <!DOCTYPE html>."@
}

pub open spec fn duplicate_msg(name: Seq<char>) -> Seq<char> {
    "Multiple <"@ + name + "> elements found. There should only be one <"@ + name
        + "> element."@
}

pub open spec fn missing_src_msg() -> Seq<char> {
    "<img> tag is missing 'src' attribute."@
}

pub open spec fn missing_alt_msg() -> Seq<char> {
    "<img> tag is missing 'alt' attribute."@
}

pub open spec fn missing_href_msg() -> Seq<char> {
    "<a> tag is missing 'href' attribute."@
}

pub open spec fn void_children_msg(name: Seq<char>) -> Seq<char> {
    "Void element <"@ + name + "> should not have children."@
}

pub open spec fn missing_doctype_msg() -> Seq<char> {
    "Missing <!DOCTYPE html> declaration."@
}

pub open spec fn missing_html_msg() -> Seq<char> {
    "Missing <html> element."@
}

pub open spec fn missing_head_msg() -> Seq<char> {
    "Missing <head> element."@
}

pub open spec fn missing_body_msg() -> Seq<char> {
    "Missing <body> element."@
}

/// Whether `m` is the invalid-doctype finding for some doctype name.
pub open spec fn is_invalid_doctype_message(m: Seq<char>) -> bool {
    exists|dn: Seq<char>| m == invalid_doctype_msg(dn)
}

pub fn make_invalid_doctype_msg(name: &str) -> (m: String)
    ensures
        m@ == invalid_doctype_msg(name@),
{
    let mut m = String::from_str("Invalid doctype: ");
    m.append(name);
    m.append(". Expected <!DOCTYPE html>.");
    m
}

pub fn make_duplicate_msg(name: &str) -> (m: String)
    ensures
        m@ == duplicate_msg(name@),
{
    let mut m = String::from_str("Multiple <");
    m.append(name);
    m.append("> elements found. There should only be one <");
    m.append(name);
    m.append("> element.");
    m
}

pub fn make_void_children_msg(name: &str) -> (m: String)
    ensures
        m@ == void_children_msg(name@),
{
    let mut m = String::from_str("Void element <");
    m.append(name);
    m.append("> should not have children.");
    m
}

// The findings of distinct rules are distinct texts. The lemmas below pin
// the leading characters of each message family, which is enough to tell
// every pair of families apart.

pub proof fn lemma_invalid_doctype_msg_chars(name: Seq<char>)
    ensures
        invalid_doctype_msg(name).len() > 0,
        invalid_doctype_msg(name)[0] == 'I',
{
    reveal_strlit("Invalid doctype: ");
}

pub proof fn lemma_duplicate_msg_chars(name: Seq<char>)
    ensures
        duplicate_msg(name).len() > 1,
        duplicate_msg(name)[0] == 'M',
        duplicate_msg(name)[1] == 'u',
{
    reveal_strlit("Multiple <");
}

pub proof fn lemma_attribute_msg_chars()
    ensures
        missing_src_msg().len() > 1,
        missing_src_msg()[0] == '<',
        missing_alt_msg().len() > 1,
        missing_alt_msg()[0] == '<',
        missing_href_msg().len() > 1,
        missing_href_msg()[0] == '<',
        missing_src_msg() != missing_alt_msg(),
{
    reveal_strlit("<img> tag is missing 'src' attribute.");
    reveal_strlit("<img> tag is missing 'alt' attribute.");
    reveal_strlit("<a> tag is missing 'href' attribute.");
    assert(missing_src_msg()[22] == 's');
    assert(missing_alt_msg()[22] == 'a');
}

pub proof fn lemma_void_msg_chars(name: Seq<char>)
    ensures
        void_children_msg(name).len() > 0,
        void_children_msg(name)[0] == 'V',
{
    reveal_strlit("Void element <");
}

pub proof fn lemma_structure_msg_chars()
    ensures
        missing_doctype_msg().len() > 1,
        missing_doctype_msg()[0] == 'M',
        missing_doctype_msg()[1] == 'i',
        missing_html_msg().len() > 1,
        missing_html_msg()[0] == 'M',
        missing_html_msg()[1] == 'i',
        missing_head_msg().len() > 1,
        missing_head_msg()[0] == 'M',
        missing_head_msg()[1] == 'i',
        missing_body_msg().len() > 1,
        missing_body_msg()[0] == 'M',
        missing_body_msg()[1] == 'i',
{
    reveal_strlit("Missing <!DOCTYPE html> declaration.");
    reveal_strlit("Missing <html> element.");
    reveal_strlit("Missing <head> element.");
    reveal_strlit("Missing <body> element.");
}

/// The duplicate-element findings for the two singleton tags differ.
pub proof fn lemma_duplicate_base_ne_title()
    ensures
        duplicate_msg("base"@) != duplicate_msg("title"@),
{
    reveal_strlit("Multiple <");
    reveal_strlit("base");
    reveal_strlit("title");
    assert(duplicate_msg("base"@)[10] == 'b');
    assert(duplicate_msg("title"@)[10] == 't');
}

} // verus!

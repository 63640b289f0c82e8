use html_validator::validate_document;
use html_validator::Attribute;
use html_validator::DomNode;
use html_validator::HtmlValidator;

fn el(name: &str, attrs: Vec<(&str, &str)>, children: Vec<DomNode>) -> DomNode {
    let attrs = attrs
        .into_iter()
        .map(|(n, v)| Attribute::new(n.to_string(), v.to_string()))
        .collect();
    DomNode::element(name.to_string(), attrs, children)
}

fn page(body_children: Vec<DomNode>) -> DomNode {
    DomNode::document(vec![
        DomNode::doctype("html".to_string()),
        el(
            "html",
            vec![],
            vec![
                el("head", vec![], vec![el("title", vec![], vec![DomNode::text("T".to_string())])]),
                el("body", vec![], body_children),
            ],
        ),
    ])
}

#[test]
fn valid_page_has_no_errors() {
    let errors = validate_document(&page(vec![]));
    assert!(errors.is_empty());
}

#[test]
fn img_missing_both_gives_two_messages() {
    let errors = validate_document(&page(vec![el("img", vec![], vec![])]));
    assert_eq!(
        errors,
        vec![
            "<img> tag is missing 'src' attribute.".to_string(),
            "<img> tag is missing 'alt' attribute.".to_string(),
        ]
    );
}

#[test]
fn img_with_src_only_misses_alt() {
    let errors = validate_document(&page(vec![el("img", vec![("src", "a.png")], vec![])]));
    assert_eq!(errors, vec!["<img> tag is missing 'alt' attribute.".to_string()]);
}

#[test]
fn img_with_both_attributes_is_fine() {
    let errors =
        validate_document(&page(vec![el("img", vec![("src", "a.png"), ("alt", "a")], vec![])]));
    assert!(errors.is_empty());
}

#[test]
fn anchor_without_href_is_reported() {
    let errors = validate_document(&page(vec![el(
        "a",
        vec![],
        vec![DomNode::text("link".to_string())],
    )]));
    assert_eq!(errors, vec!["<a> tag is missing 'href' attribute.".to_string()]);
}

#[test]
fn anchor_with_href_is_fine() {
    let errors = validate_document(&page(vec![el(
        "a",
        vec![("href", "x")],
        vec![DomNode::text("link".to_string())],
    )]));
    assert!(errors.is_empty());
}

#[test]
fn three_titles_give_two_duplicate_messages() {
    let dup = "Multiple <title> elements found. There should only be one <title> element.";
    let errors = validate_document(&page(vec![
        el("title", vec![], vec![]),
        el("title", vec![], vec![]),
    ]));
    assert_eq!(errors, vec![dup.to_string(), dup.to_string()]);
}

#[test]
fn duplicate_base_is_reported() {
    let errors = validate_document(&page(vec![
        el("base", vec![], vec![]),
        el("base", vec![], vec![]),
    ]));
    assert_eq!(
        errors,
        vec!["Multiple <base> elements found. There should only be one <base> element.".to_string()]
    );
}

#[test]
fn invalid_doctype_names_the_actual_name() {
    let root = DomNode::document(vec![
        DomNode::doctype("foo".to_string()),
        el(
            "html",
            vec![],
            vec![el("head", vec![], vec![]), el("body", vec![], vec![])],
        ),
    ]);
    let errors = validate_document(&root);
    assert_eq!(
        errors,
        vec![
            "Invalid doctype: foo. Expected <!DOCTYPE html>.".to_string(),
            "Missing <!DOCTYPE html> declaration.".to_string(),
        ]
    );
}

#[test]
fn void_element_with_children_gives_one_message() {
    let errors = validate_document(&page(vec![el(
        "br",
        vec![],
        vec![el("span", vec![], vec![DomNode::text("x".to_string())]), DomNode::text(
            "y".to_string(),
        )],
    )]));
    assert_eq!(errors, vec!["Void element <br> should not have children.".to_string()]);
}

#[test]
fn empty_document_reports_structure_in_fixed_order() {
    let errors = validate_document(&DomNode::document(vec![]));
    assert_eq!(
        errors,
        vec![
            "Missing <!DOCTYPE html> declaration.".to_string(),
            "Missing <html> element.".to_string(),
            "Missing <head> element.".to_string(),
            "Missing <body> element.".to_string(),
        ]
    );
}

#[test]
fn traversal_messages_come_before_structural_ones() {
    let root = DomNode::document(vec![el(
        "html",
        vec![],
        vec![el("head", vec![], vec![]), el(
            "body",
            vec![],
            vec![el("img", vec![], vec![])],
        )],
    )]);
    let errors = validate_document(&root);
    assert_eq!(
        errors,
        vec![
            "<img> tag is missing 'src' attribute.".to_string(),
            "<img> tag is missing 'alt' attribute.".to_string(),
            "Missing <!DOCTYPE html> declaration.".to_string(),
        ]
    );
}

#[test]
fn two_runs_give_identical_reports() {
    let root = page(vec![
        el("img", vec![], vec![]),
        el("title", vec![], vec![]),
        el("br", vec![], vec![DomNode::text("x".to_string())]),
    ]);
    let first = validate_document(&root);
    let second = validate_document(&root);
    assert_eq!(first, second);
}

#[test]
fn comments_and_text_are_ignored() {
    let errors = validate_document(&page(vec![
        DomNode::comment("note".to_string()),
        DomNode::text("hello".to_string()),
    ]));
    assert!(errors.is_empty());
}

#[test]
fn validator_records_html_doctype() {
    let mut v = HtmlValidator::new();
    v.traverse_dom(&DomNode::doctype("html".to_string()));
    assert!(v.context.has_doctype);
    assert!(v.errors.is_empty());
}

#[test]
fn duplicate_attribute_name_still_counts_as_present() {
    let errors = validate_document(&page(vec![el(
        "img",
        vec![("src", "a.png"), ("src", "b.png"), ("alt", "x")],
        vec![],
    )]));
    assert!(errors.is_empty());
}

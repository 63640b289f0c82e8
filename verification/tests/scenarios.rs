use html_validator::join_errors;
use html_validator::validate_html;

#[test]
fn scenario_valid_document() {
    let input = "<!DOCTYPE html><html><head><title>T</title></head><body></body></html>";
    assert_eq!(validate_html(input), Ok(()));
}

#[test]
fn scenario_missing_doctype_and_img_attributes() {
    let input = "<html><head></head><body><img></body></html>";
    let expected = "<img> tag is missing 'src' attribute.\n\
                    <img> tag is missing 'alt' attribute.\n\
                    Missing <!DOCTYPE html> declaration.";
    assert_eq!(validate_html(input), Err(expected.to_string()));
}

#[test]
fn scenario_duplicate_title_and_bare_anchor() {
    let input = "<!DOCTYPE html><html><head><title>A</title><title>B</title></head>\
                 <body><a>link</a></body></html>";
    let expected = "Multiple <title> elements found. There should only be one <title> element.\n\
                    <a> tag is missing 'href' attribute.";
    assert_eq!(validate_html(input), Err(expected.to_string()));
}

#[test]
fn empty_input_misses_only_the_doctype() {
    // The parser supplies the html, head and body elements even for empty
    // input, so only the doctype is reported missing.
    let expected = "Missing <!DOCTYPE html> declaration.";
    assert_eq!(validate_html(""), Err(expected.to_string()));
}

#[test]
fn joined_report_separates_messages_with_line_breaks() {
    let errors = vec!["one".to_string(), "two".to_string(), "three".to_string()];
    assert_eq!(join_errors(&errors), "one\ntwo\nthree".to_string());
}

#[test]
fn joining_nothing_gives_the_empty_text() {
    let errors: Vec<String> = vec![];
    assert_eq!(join_errors(&errors), String::new());
}

#[test]
fn parsed_attributes_reach_the_attribute_rules() {
    let input = "<!DOCTYPE html><html><head><title>T</title></head>\
                 <body><img src=\"a.png\" alt=\"a\"></body></html>";
    assert_eq!(validate_html(input), Ok(()));
}

#[test]
fn parsed_doctype_name_reaches_the_doctype_rule() {
    let input = "<!DOCTYPE foo><html><head><title>T</title></head><body></body></html>";
    let report = validate_html(input).unwrap_err();
    assert!(report.contains("Invalid doctype: foo. Expected <!DOCTYPE html>."));
}

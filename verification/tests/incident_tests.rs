use konveyor_core::incident::{extract_code_snip, Incident, Location, Position};
use serde_json::Value;

fn make_location(line: u32, start_col: u32, end_col: u32) -> Location {
    Location {
        start: Position {
            line,
            character: start_col,
        },
        end: Position {
            line,
            character: end_col,
        },
    }
}

#[test]
fn test_incident_new_defaults() {
    let incident = Incident::new("file:///test.tsx".to_string(), 10, make_location(9, 0, 20));
    assert_eq!(incident.file_uri, "file:///test.tsx");
    assert_eq!(incident.line_number, Some(10));
    assert!(incident.code_snip.is_none());
    assert!(incident.variables.is_empty());
    assert!(incident.effort.is_none());
    assert!(incident.links.is_empty());
    assert!(!incident.is_dependency_incident);
    assert!(incident.message.is_empty());
}

#[test]
fn test_incident_with_code_snip() {
    let incident = Incident::new("file:///test.tsx".to_string(), 5, make_location(4, 0, 10))
        .with_code_snip("const x = 1;".to_string());

    assert_eq!(incident.code_snip, Some("const x = 1;".to_string()));
}

#[test]
fn test_incident_with_variable() {
    let incident = Incident::new("file:///test.tsx".to_string(), 1, make_location(0, 0, 5))
        .with_variable("propName", Value::from("isActive"))
        .with_variable("componentName", Value::from("Button"));

    assert_eq!(incident.variables.len(), 2);
    assert_eq!(
        incident.variables.get("propName"),
        Some(&serde_json::Value::String("isActive".to_string()))
    );
    assert_eq!(
        incident.variables.get("componentName"),
        Some(&serde_json::Value::String("Button".to_string()))
    );
}

#[test]
fn test_incident_builder_chain() {
    let incident = Incident::new("file:///app.tsx".to_string(), 42, make_location(41, 4, 30))
        .with_code_snip("  <Button isActive />".to_string())
        .with_variable("propName", Value::from("isActive"))
        .with_variable("componentName", Value::from("Button"));

    assert_eq!(incident.file_uri, "file:///app.tsx");
    assert_eq!(incident.line_number, Some(42));
    assert_eq!(
        incident.code_snip,
        Some("  <Button isActive />".to_string())
    );
    assert_eq!(incident.variables.len(), 2);
}

#[test]
fn test_extract_code_snip_middle_of_file() {
    let source = "line1\nline2\nline3\nline4\nline5\nline6\nline7";
    let snip = extract_code_snip(source, 4, 2);
    assert!(snip.contains("line2"));
    assert!(snip.contains("line3"));
    assert!(snip.contains("line4"));
    assert!(snip.contains("line5"));
    assert!(snip.contains("line6"));
}

#[test]
fn test_extract_code_snip_start_of_file() {
    let source = "first\nsecond\nthird\nfourth\nfifth";
    let snip = extract_code_snip(source, 1, 2);
    assert!(snip.contains("first"));
    assert!(snip.contains("second"));
    assert!(snip.contains("third"));
}

#[test]
fn test_extract_code_snip_end_of_file() {
    let source = "a\nb\nc\nd\ne";
    let snip = extract_code_snip(source, 5, 2);
    assert!(snip.contains("c"));
    assert!(snip.contains("d"));
    assert!(snip.contains("e"));
}

#[test]
fn snip_exact_text_in_the_middle() {
    let source = "line1\nline2\nline3\nline4\nline5\nline6\nline7";
    assert_eq!(
        extract_code_snip(source, 4, 2),
        "2  line2\n3  line3\n4  line4\n5  line5\n6  line6\n"
    );
}

#[test]
fn snip_exact_text_at_both_ends() {
    assert_eq!(
        extract_code_snip("first\nsecond\nthird\nfourth\nfifth", 1, 2),
        "1  first\n2  second\n3  third\n"
    );
    assert_eq!(extract_code_snip("a\nb\nc\nd\ne", 5, 2), "3  c\n4  d\n5  e\n");
}

#[test]
fn snip_pads_line_numbers_to_the_widest() {
    let source = "l1\nl2\nl3\nl4\nl5\nl6\nl7\nl8\nl9\nl10\nl11";
    assert_eq!(
        extract_code_snip(source, 9, 1),
        " 8  l8\n 9  l9\n10  l10\n"
    );
}

#[test]
fn snip_strips_crlf_and_ignores_final_newline() {
    assert_eq!(extract_code_snip("a\r\nb\r\n", 1, 5), "1  a\n2  b\n");
    assert_eq!(extract_code_snip("a\rb\n", 1, 0), "1  a\rb\n");
    assert_eq!(extract_code_snip("x\n\ny", 2, 0), "2  \n");
}

#[test]
fn snip_past_the_end_or_of_empty_source_is_empty() {
    assert_eq!(extract_code_snip("a\nb", 10, 1), "");
    assert_eq!(extract_code_snip("", 1, 3), "");
    assert_eq!(extract_code_snip("only", 0, 0), "");
}

#[test]
fn incident_clone_keeps_every_field() {
    let incident = Incident::new("file:///a.tsx".to_string(), 3, make_location(2, 1, 4))
        .with_code_snip("snip".to_string())
        .with_variable("k", Value::from(7));
    let copy = incident.clone();
    assert_eq!(copy.file_uri, incident.file_uri);
    assert_eq!(copy.code_snip, incident.code_snip);
    assert_eq!(copy.variables, incident.variables);
    assert_eq!(copy.code_location.unwrap().end.character, 4);
}

#[test]
fn with_variable_replaces_a_variable_of_the_same_name() {
    let incident = Incident::new("file:///a.tsx".to_string(), 1, make_location(0, 0, 1))
        .with_variable("k", Value::from("old"))
        .with_variable("k", Value::from("new"));
    assert_eq!(incident.variables.len(), 1);
    assert_eq!(incident.variables.get("k"), Some(&Value::from("new")));
}

#[test]
fn snip_is_the_same_for_crlf_line_endings() {
    let lf = "one\ntwo\nthree\nfour\n";
    let crlf = lf.replace('\n', "\r\n");
    for line in 0..6 {
        assert_eq!(extract_code_snip(&crlf, line, 1), extract_code_snip(lf, line, 1));
    }
}

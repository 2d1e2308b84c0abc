use canvas_api::InvalidPaginationError;
use canvas_api::Pagination;

#[test]
pub fn test_pagination_parse() {
    let test = r#"
    <https://<canvas>/api/v1/courses/:id/discussion_topics.json?opaqueA>; rel="current",
      <https://<canvas>/api/v1/courses/:id/discussion_topics.json?opaqueB>; rel="next",
      <https://<canvas>/api/v1/courses/:id/discussion_topics.json?opaqueC>; rel="first",
      <https://<canvas>/api/v1/courses/:id/discussion_topics.json?opaqueD>; rel="last"
      "#;
    let pagination = Pagination::from_str(test).unwrap();
    assert_eq!(
        pagination.current,
        "https://<canvas>/api/v1/courses/:id/discussion_topics.json?opaqueA"
    );
    assert_eq!(
        pagination.first,
        "https://<canvas>/api/v1/courses/:id/discussion_topics.json?opaqueC"
    );
    assert_eq!(
        pagination.last,
        "https://<canvas>/api/v1/courses/:id/discussion_topics.json?opaqueD"
    );
    assert_eq!(
        pagination.next,
        Some("https://<canvas>/api/v1/courses/:id/discussion_topics.json?opaqueB".to_string())
    );
}

#[test]
fn parse_all_four_relations_any_order() {
    let header = r#"<U1>; rel="current", <U2>; rel="next", <U3>; rel="first", <U4>; rel="last""#;
    let p = Pagination::from_str(header).unwrap();
    assert_eq!(p.current, "U1");
    assert_eq!(p.first, "U3");
    assert_eq!(p.last, "U4");
    assert_eq!(p.next, Some("U2".to_string()));
}

#[test]
fn parse_without_next_yields_none() {
    let header = r#"<a>; rel="current", <b>; rel="first", <c>; rel="last""#;
    let p = Pagination::from_str(header).unwrap();
    assert_eq!(p.current, "a");
    assert_eq!(p.first, "b");
    assert_eq!(p.last, "c");
    assert_eq!(p.next, None);
}

#[test]
fn parse_ignores_unknown_relations() {
    let header = r#"<a>; rel="current", <z>; rel="prev", <b>; rel="first", <c>; rel="last""#;
    let p = Pagination::from_str(header).unwrap();
    assert_eq!(p.current, "a");
    assert_eq!(p.next, None);
}

#[test]
fn parse_duplicate_relation_takes_last() {
    let header = r#"<a1>; rel="current", <a2>; rel="current", <b>; rel="first", <c>; rel="last""#;
    let p = Pagination::from_str(header).unwrap();
    assert_eq!(p.current, "a2");
}

#[test]
fn parse_missing_current_fails() {
    let header = r#"<b>; rel="first", <c>; rel="last""#;
    assert!(Pagination::from_str(header).is_err());
}

#[test]
fn parse_missing_first_fails() {
    let header = r#"<a>; rel="current", <c>; rel="last""#;
    assert!(Pagination::from_str(header).is_err());
}

#[test]
fn parse_missing_last_fails() {
    let header = r#"<a>; rel="current", <b>; rel="first""#;
    assert!(Pagination::from_str(header).is_err());
}

#[test]
fn parse_entry_without_rel_marker_fails() {
    let header = r#"<a>; rel="current", <b>; nope="first", <c>; rel="last""#;
    assert!(Pagination::from_str(header).is_err());
}

#[test]
fn parse_entry_without_semicolon_fails() {
    let header = r#"<a>; rel="current", <b>, <c>; rel="last""#;
    assert!(Pagination::from_str(header).is_err());
}

#[test]
fn parse_empty_header_fails() {
    assert!(Pagination::from_str("").is_err());
}

#[test]
fn error_message_text() {
    let e = InvalidPaginationError;
    assert_eq!(e.message(), "Invalid Pagination Response");
}

#[test]
fn round_trip_with_next() {
    let p = Pagination {
        current: "https://host/api/v1/courses?page=2".to_string(),
        first: "https://host/api/v1/courses?page=1".to_string(),
        last: "https://host/api/v1/courses?page=9".to_string(),
        next: Some("https://host/api/v1/courses?page=3".to_string()),
    };
    let header = p.to_header();
    let q = Pagination::from_str(&header).unwrap();
    assert_eq!(p, q);
}

#[test]
fn round_trip_without_next() {
    let p = Pagination {
        current: "https://host/api/v1/courses?page=9".to_string(),
        first: "https://host/api/v1/courses?page=1".to_string(),
        last: "https://host/api/v1/courses?page=9".to_string(),
        next: None,
    };
    let header = p.to_header();
    let q = Pagination::from_str(&header).unwrap();
    assert_eq!(p, q);
}

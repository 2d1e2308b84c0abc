use canvas_api::courses::Course;
use canvas_api::json::JsonValue;

fn key(name: &str, v: JsonValue) -> (String, JsonValue) {
    (name.to_string(), v)
}

fn text(s: &str) -> JsonValue {
    JsonValue::Text(s.to_string())
}

#[test]
fn id_without_name_decodes_to_stub() {
    let raw = JsonValue::Object(vec![key("id", JsonValue::Int(7))]);
    match Course::decode(raw) {
        Course::EmptyCourse { id } => assert_eq!(id, 7),
        Course::FullCourse(_) => panic!("a record without a name must degrade to a stub"),
    }
}

#[test]
fn id_and_name_decode_to_detailed() {
    let raw = JsonValue::Object(vec![key("id", JsonValue::Int(7)), key("name", text("Algebra"))]);
    match Course::decode(raw) {
        Course::FullCourse(fc) => {
            assert_eq!(fc.id, 7);
            assert_eq!(fc.name, "Algebra");
            assert_eq!(fc.account_id, None);
            assert_eq!(fc.uuid, None);
            assert_eq!(fc.calendar, None);
            assert_eq!(fc.enrollments, None);
            assert_eq!(fc.grading_standard_id, None);
            assert_eq!(fc.workflow_state, None);
        },
        Course::EmptyCourse { .. } => panic!("id and name suffice for a detailed course"),
    }
}

#[test]
fn empty_object_decodes_to_stub_with_placeholder() {
    let raw = JsonValue::Object(vec![]);
    assert_eq!(Course::decode(raw), Course::EmptyCourse { id: 0 });
}

#[test]
fn non_object_decodes_to_stub_with_placeholder() {
    let raw = JsonValue::Array(vec![JsonValue::Int(1)]);
    assert_eq!(Course::decode(raw), Course::EmptyCourse { id: 0 });
}

#[test]
fn mistyped_optional_degrades_to_stub() {
    let raw = JsonValue::Object(vec![
        key("id", JsonValue::Int(3)),
        key("name", text("Biology")),
        key("account_id", text("not a number")),
    ]);
    assert_eq!(Course::decode(raw), Course::EmptyCourse { id: 3 });
}

#[test]
fn null_optionals_decode_as_absent() {
    let raw = JsonValue::Object(vec![
        key("id", JsonValue::Int(4)),
        key("name", text("Chemistry")),
        key("account_id", JsonValue::Null),
        key("is_public", JsonValue::Null),
        key("uuid", JsonValue::Null),
        key("calendar", JsonValue::Null),
        key("enrollments", JsonValue::Null),
    ]);
    match Course::decode(raw) {
        Course::FullCourse(fc) => {
            assert_eq!(fc.account_id, None);
            assert_eq!(fc.is_public, None);
            assert_eq!(fc.uuid, None);
            assert_eq!(fc.calendar, None);
            assert_eq!(fc.enrollments, None);
        },
        Course::EmptyCourse { .. } => panic!("null attributes must decode as absent"),
    }
}

#[test]
fn typed_optionals_are_kept() {
    let raw = JsonValue::Object(vec![
        key("id", JsonValue::Int(11)),
        key("name", text("Drama")),
        key("account_id", JsonValue::Int(42)),
        key("uuid", text("u-77")),
        key("is_public", JsonValue::Bool(true)),
        key("storage_quota_mb", JsonValue::Int(500)),
        key("grading_standard_id", text("standard")),
    ]);
    match Course::decode(raw) {
        Course::FullCourse(fc) => {
            assert_eq!(fc.account_id, Some(42));
            assert_eq!(fc.uuid, Some("u-77".to_string()));
            assert_eq!(fc.is_public, Some(true));
            assert_eq!(fc.storage_quota_mb, Some(500));
            assert_eq!(fc.grading_standard_id, Some(text("standard")));
        },
        Course::EmptyCourse { .. } => panic!("well-typed attributes must decode"),
    }
}

#[test]
fn calendar_and_enrollments_decode() {
    let enrollment = JsonValue::Object(vec![
        key("type", text("StudentEnrollment")),
        key("role", text("StudentEnrollment")),
        key("role_id", JsonValue::Int(3)),
        key("user_id", JsonValue::Int(901)),
        key("enrollment_state", text("active")),
        key("limit_privileges_to_course_section", JsonValue::Bool(false)),
    ]);
    let raw = JsonValue::Object(vec![
        key("id", JsonValue::Int(12)),
        key("name", text("Economics")),
        key("calendar", JsonValue::Object(vec![key("ics", text("https://host/feed.ics"))])),
        key("enrollments", JsonValue::Array(vec![enrollment])),
    ]);
    match Course::decode(raw) {
        Course::FullCourse(fc) => {
            assert_eq!(fc.calendar.unwrap().ics, "https://host/feed.ics");
            let es = fc.enrollments.unwrap();
            assert_eq!(es.len(), 1);
            assert_eq!(es[0].enrollment_type, "StudentEnrollment");
            assert_eq!(es[0].role_id, 3);
            assert_eq!(es[0].user_id, 901);
            assert_eq!(es[0].enrollment_state, "active");
            assert!(!es[0].limit_privileges_to_course_section);
        },
        Course::EmptyCourse { .. } => panic!("nested structures must decode"),
    }
}

#[test]
fn incomplete_enrollment_degrades_to_stub() {
    let enrollment = JsonValue::Object(vec![key("type", text("StudentEnrollment"))]);
    let raw = JsonValue::Object(vec![
        key("id", JsonValue::Int(13)),
        key("name", text("French")),
        key("enrollments", JsonValue::Array(vec![enrollment])),
    ]);
    assert_eq!(Course::decode(raw), Course::EmptyCourse { id: 13 });
}

#[test]
fn calendar_without_ics_degrades_to_stub() {
    let raw = JsonValue::Object(vec![
        key("id", JsonValue::Int(14)),
        key("name", text("Geography")),
        key("calendar", JsonValue::Object(vec![])),
    ]);
    assert_eq!(Course::decode(raw), Course::EmptyCourse { id: 14 });
}

#[test]
fn duplicate_key_takes_last_occurrence() {
    let raw = JsonValue::Object(vec![
        key("id", JsonValue::Int(1)),
        key("name", text("Old")),
        key("name", text("New")),
    ]);
    match Course::decode(raw) {
        Course::FullCourse(fc) => assert_eq!(fc.name, "New"),
        Course::EmptyCourse { .. } => panic!("the record carries the full schema"),
    }
}

#[test]
fn unknown_keys_are_ignored() {
    let raw = JsonValue::Object(vec![
        key("id", JsonValue::Int(2)),
        key("name", text("History")),
        key("something_else", JsonValue::Array(vec![JsonValue::Num])),
    ]);
    match Course::decode(raw) {
        Course::FullCourse(fc) => assert_eq!(fc.id, 2),
        Course::EmptyCourse { .. } => panic!("unknown keys must be ignored"),
    }
}

//! Course records and their tolerant decoder.
//!
//! The API returns a list of course records, but a record the caller
//! may not fully see comes in a restricted, partial form. The decoder
//! therefore never fails: a record that carries the full schema decodes
//! to a detailed course, anything else degrades to a minimal stub that
//! keeps whatever identity the record offered.

use vstd::prelude::*;

use crate::json::lookup;
use crate::json::JsonValue;
use vstd::string::StringExecFns;

verus! {

/// A calendar feed reference: its `ics` URL is mandatory.
#[derive(Debug, PartialEq, Eq)]
pub struct Calendar {
    pub ics: String,
}

/// One enrollment of a user in a course; every field is mandatory
/// within an enrollment record.
#[derive(Debug, PartialEq, Eq)]
pub struct Enrollment {
    pub enrollment_type: String,
    pub role: String,
    pub role_id: i64,
    pub user_id: i64,
    pub enrollment_state: String,
    pub limit_privileges_to_course_section: bool,
}

/// A fully decoded course record: identity and display name are
/// mandatory, every other attribute is independently optional.
#[derive(Debug, PartialEq, Eq)]
pub struct FullCourse {
    pub id: i64,
    pub name: String,
    pub account_id: Option<i64>,
    pub uuid: Option<String>,
    pub start_at: Option<String>,
    pub grading_standard_id: Option<JsonValue>,
    pub is_public: Option<bool>,
    pub created_at: Option<String>,
    pub course_code: Option<String>,
    pub default_view: Option<String>,
    pub root_account_id: Option<i64>,
    pub enrollment_term_id: Option<i64>,
    pub license: Option<String>,
    pub grade_passback_setting: Option<JsonValue>,
    pub end_at: Option<String>,
    pub public_syllabus: Option<bool>,
    pub public_syllabus_to_auth: Option<bool>,
    pub storage_quota_mb: Option<i64>,
    pub is_public_to_auth_users: Option<bool>,
    pub homeroom_course: Option<bool>,
    pub course_color: Option<JsonValue>,
    pub friendly_name: Option<JsonValue>,
    pub apply_assignment_group_weights: Option<bool>,
    pub calendar: Option<Calendar>,
    pub time_zone: Option<String>,
    pub blueprint: Option<bool>,
    pub template: Option<bool>,
    pub enrollments: Option<Vec<Enrollment>>,
    pub hide_final_grades: Option<bool>,
    pub workflow_state: Option<String>,
    pub course_format: Option<String>,
    pub restrict_enrollments_to_course_dates: Option<bool>,
    pub overridden_course_visibility: Option<String>,
    pub access_restricted_by_date: Option<bool>,
}

/// A course as the decoder yields it: detailed when the record carried
/// the full schema, otherwise a stub holding only the identity the
/// record offered.
#[derive(Debug, PartialEq, Eq)]
pub enum Course {
    EmptyCourse { id: i64 },
    FullCourse(FullCourse),
}

/// A list of courses, as one page of the API returns it.
pub type Courses = Vec<Course>;

/// An optional integer attribute: absent or null is absent, an integer
/// is itself, anything else is a type error.
pub open spec fn dec_opt_i64(o: Option<JsonValue>) -> Result<Option<i64>, ()> {
    match o {
        None => Ok(None),
        Some(JsonValue::Null) => Ok(None),
        Some(JsonValue::Int(n)) => Ok(Some(n)),
        Some(_) => Err(()),
    }
}

/// An optional boolean attribute, by the same rule.
pub open spec fn dec_opt_bool(o: Option<JsonValue>) -> Result<Option<bool>, ()> {
    match o {
        None => Ok(None),
        Some(JsonValue::Null) => Ok(None),
        Some(JsonValue::Bool(b)) => Ok(Some(b)),
        Some(_) => Err(()),
    }
}

/// An optional string attribute, by the same rule.
pub open spec fn dec_opt_text(o: Option<JsonValue>) -> Result<Option<String>, ()> {
    match o {
        None => Ok(None),
        Some(JsonValue::Null) => Ok(None),
        Some(JsonValue::Text(s)) => Ok(Some(s)),
        Some(_) => Err(()),
    }
}

/// An attribute carried through as raw JSON: absent or null is absent,
/// anything else is kept as it is; never a type error.
pub open spec fn dec_opt_any(o: Option<JsonValue>) -> Option<JsonValue> {
    match o {
        None => None,
        Some(JsonValue::Null) => None,
        Some(v) => Some(v),
    }
}

/// An optional calendar reference: an object with a mandatory `ics`
/// string.
pub open spec fn dec_calendar(o: Option<JsonValue>) -> Result<Option<Calendar>, ()> {
    match o {
        None => Ok(None),
        Some(JsonValue::Null) => Ok(None),
        Some(JsonValue::Object(fs)) => match lookup(fs@, "ics"@) {
            Some(JsonValue::Text(s)) => Ok(Some(Calendar { ics: s })),
            _ => Err(()),
        },
        Some(_) => Err(()),
    }
}

/// One enrollment record: an object carrying all six mandatory fields.
pub open spec fn spec_enrollment(v: JsonValue) -> Result<Enrollment, ()> {
    match v {
        JsonValue::Object(fs) => match (
            lookup(fs@, "type"@),
            lookup(fs@, "role"@),
            lookup(fs@, "role_id"@),
            lookup(fs@, "user_id"@),
            lookup(fs@, "enrollment_state"@),
            lookup(fs@, "limit_privileges_to_course_section"@),
        ) {
            (
                Some(JsonValue::Text(t)),
                Some(JsonValue::Text(r)),
                Some(JsonValue::Int(ri)),
                Some(JsonValue::Int(ui)),
                Some(JsonValue::Text(es)),
                Some(JsonValue::Bool(lp)),
            ) => Ok(
                Enrollment {
                    enrollment_type: t,
                    role: r,
                    role_id: ri,
                    user_id: ui,
                    enrollment_state: es,
                    limit_privileges_to_course_section: lp,
                },
            ),
            _ => Err(()),
        },
        _ => Err(()),
    }
}

/// The optional enrollments list decodes when absent, null, or an array
/// whose every element is a well-formed enrollment record.
pub open spec fn enrollments_ok(o: Option<JsonValue>) -> bool {
    match o {
        None => true,
        Some(JsonValue::Null) => true,
        Some(JsonValue::Array(items)) => forall|i: int|
            0 <= i < items@.len() ==> (#[trigger] spec_enrollment(items@[i])) is Ok,
        Some(_) => false,
    }
}

/// What the decoded enrollments field must hold for the raw value `o`.
pub open spec fn enrollments_match(o: Option<JsonValue>, f: Option<Vec<Enrollment>>) -> bool {
    match o {
        None => f is None,
        Some(JsonValue::Null) => f is None,
        Some(JsonValue::Array(items)) => f matches Some(es) && es@.len() == items@.len()
            && (forall|i: int|
                0 <= i < items@.len() ==> (#[trigger] spec_enrollment(items@[i])) == Ok::<
                    Enrollment,
                    (),
                >(es@[i])),
        Some(_) => false,
    }
}

/// Whether `v` carries the full course schema: an object whose `id` is
/// an integer, whose `name` is a string, and whose every optional
/// attribute, when present and not null, has its declared shape.
pub open spec fn strict_ok(v: JsonValue) -> bool {
    match v {
        JsonValue::Object(fs) => {
            &&& lookup(fs@, "id"@) matches Some(JsonValue::Int(_))
            &&& lookup(fs@, "name"@) matches Some(JsonValue::Text(_))
            &&& dec_opt_i64(lookup(fs@, "account_id"@)) is Ok
            &&& dec_opt_text(lookup(fs@, "uuid"@)) is Ok
            &&& dec_opt_text(lookup(fs@, "start_at"@)) is Ok
            &&& dec_opt_bool(lookup(fs@, "is_public"@)) is Ok
            &&& dec_opt_text(lookup(fs@, "created_at"@)) is Ok
            &&& dec_opt_text(lookup(fs@, "course_code"@)) is Ok
            &&& dec_opt_text(lookup(fs@, "default_view"@)) is Ok
            &&& dec_opt_i64(lookup(fs@, "root_account_id"@)) is Ok
            &&& dec_opt_i64(lookup(fs@, "enrollment_term_id"@)) is Ok
            &&& dec_opt_text(lookup(fs@, "license"@)) is Ok
            &&& dec_opt_text(lookup(fs@, "end_at"@)) is Ok
            &&& dec_opt_bool(lookup(fs@, "public_syllabus"@)) is Ok
            &&& dec_opt_bool(lookup(fs@, "public_syllabus_to_auth"@)) is Ok
            &&& dec_opt_i64(lookup(fs@, "storage_quota_mb"@)) is Ok
            &&& dec_opt_bool(lookup(fs@, "is_public_to_auth_users"@)) is Ok
            &&& dec_opt_bool(lookup(fs@, "homeroom_course"@)) is Ok
            &&& dec_opt_bool(lookup(fs@, "apply_assignment_group_weights"@)) is Ok
            &&& dec_calendar(lookup(fs@, "calendar"@)) is Ok
            &&& dec_opt_text(lookup(fs@, "time_zone"@)) is Ok
            &&& dec_opt_bool(lookup(fs@, "blueprint"@)) is Ok
            &&& dec_opt_bool(lookup(fs@, "template"@)) is Ok
            &&& enrollments_ok(lookup(fs@, "enrollments"@))
            &&& dec_opt_bool(lookup(fs@, "hide_final_grades"@)) is Ok
            &&& dec_opt_text(lookup(fs@, "workflow_state"@)) is Ok
            &&& dec_opt_text(lookup(fs@, "course_format"@)) is Ok
            &&& dec_opt_bool(lookup(fs@, "restrict_enrollments_to_course_dates"@)) is Ok
            &&& dec_opt_text(lookup(fs@, "overridden_course_visibility"@)) is Ok
            &&& dec_opt_bool(lookup(fs@, "access_restricted_by_date"@)) is Ok
        },
        _ => false,
    }
}

/// What a detailed course must hold, attribute by attribute, for the
/// raw record `v`.
pub open spec fn full_matches(fc: FullCourse, v: JsonValue) -> bool {
    match v {
        JsonValue::Object(fs) => {
            &&& lookup(fs@, "id"@) == Some(JsonValue::Int(fc.id))
            &&& lookup(fs@, "name"@) == Some(JsonValue::Text(fc.name))
            &&& dec_opt_i64(lookup(fs@, "account_id"@)) == Ok::<_, ()>(fc.account_id)
            &&& dec_opt_text(lookup(fs@, "uuid"@)) == Ok::<_, ()>(fc.uuid)
            &&& dec_opt_text(lookup(fs@, "start_at"@)) == Ok::<_, ()>(fc.start_at)
            &&& dec_opt_any(lookup(fs@, "grading_standard_id"@)) == fc.grading_standard_id
            &&& dec_opt_bool(lookup(fs@, "is_public"@)) == Ok::<_, ()>(fc.is_public)
            &&& dec_opt_text(lookup(fs@, "created_at"@)) == Ok::<_, ()>(fc.created_at)
            &&& dec_opt_text(lookup(fs@, "course_code"@)) == Ok::<_, ()>(fc.course_code)
            &&& dec_opt_text(lookup(fs@, "default_view"@)) == Ok::<_, ()>(fc.default_view)
            &&& dec_opt_i64(lookup(fs@, "root_account_id"@)) == Ok::<_, ()>(fc.root_account_id)
            &&& dec_opt_i64(lookup(fs@, "enrollment_term_id"@)) == Ok::<_, ()>(
                fc.enrollment_term_id,
            )
            &&& dec_opt_text(lookup(fs@, "license"@)) == Ok::<_, ()>(fc.license)
            &&& dec_opt_any(lookup(fs@, "grade_passback_setting"@)) == fc.grade_passback_setting
            &&& dec_opt_text(lookup(fs@, "end_at"@)) == Ok::<_, ()>(fc.end_at)
            &&& dec_opt_bool(lookup(fs@, "public_syllabus"@)) == Ok::<_, ()>(fc.public_syllabus)
            &&& dec_opt_bool(lookup(fs@, "public_syllabus_to_auth"@)) == Ok::<_, ()>(
                fc.public_syllabus_to_auth,
            )
            &&& dec_opt_i64(lookup(fs@, "storage_quota_mb"@)) == Ok::<_, ()>(fc.storage_quota_mb)
            &&& dec_opt_bool(lookup(fs@, "is_public_to_auth_users"@)) == Ok::<_, ()>(
                fc.is_public_to_auth_users,
            )
            &&& dec_opt_bool(lookup(fs@, "homeroom_course"@)) == Ok::<_, ()>(fc.homeroom_course)
            &&& dec_opt_any(lookup(fs@, "course_color"@)) == fc.course_color
            &&& dec_opt_any(lookup(fs@, "friendly_name"@)) == fc.friendly_name
            &&& dec_opt_bool(lookup(fs@, "apply_assignment_group_weights"@)) == Ok::<_, ()>(
                fc.apply_assignment_group_weights,
            )
            &&& dec_calendar(lookup(fs@, "calendar"@)) == Ok::<_, ()>(fc.calendar)
            &&& dec_opt_text(lookup(fs@, "time_zone"@)) == Ok::<_, ()>(fc.time_zone)
            &&& dec_opt_bool(lookup(fs@, "blueprint"@)) == Ok::<_, ()>(fc.blueprint)
            &&& dec_opt_bool(lookup(fs@, "template"@)) == Ok::<_, ()>(fc.template)
            &&& enrollments_match(lookup(fs@, "enrollments"@), fc.enrollments)
            &&& dec_opt_bool(lookup(fs@, "hide_final_grades"@)) == Ok::<_, ()>(
                fc.hide_final_grades,
            )
            &&& dec_opt_text(lookup(fs@, "workflow_state"@)) == Ok::<_, ()>(fc.workflow_state)
            &&& dec_opt_text(lookup(fs@, "course_format"@)) == Ok::<_, ()>(fc.course_format)
            &&& dec_opt_bool(lookup(fs@, "restrict_enrollments_to_course_dates"@)) == Ok::<
                _,
                (),
            >(fc.restrict_enrollments_to_course_dates)
            &&& dec_opt_text(lookup(fs@, "overridden_course_visibility"@)) == Ok::<_, ()>(
                fc.overridden_course_visibility,
            )
            &&& dec_opt_bool(lookup(fs@, "access_restricted_by_date"@)) == Ok::<_, ()>(
                fc.access_restricted_by_date,
            )
        },
        _ => false,
    }
}

/// The identity a stub keeps: the record's integer `id` when it offers
/// one, and the placeholder zero otherwise.
pub open spec fn stub_id(v: JsonValue) -> i64 {
    match v {
        JsonValue::Object(fs) => match lookup(fs@, "id"@) {
            Some(JsonValue::Int(n)) => n,
            _ => 0,
        },
        _ => 0,
    }
}

/// The value under one key, collected while a record's fields are
/// consumed: `slot` holds the last occurrence of the key among the
/// fields already taken off the back, and the rest still sits in `rem`.
pub open spec fn slot_inv(
    orig: Seq<(String, JsonValue)>,
    rem: Seq<(String, JsonValue)>,
    k: Seq<char>,
    slot: Option<JsonValue>,
) -> bool {
    lookup(orig, k) == if slot is Some {
        slot
    } else {
        lookup(rem, k)
    }
}

/// Decode an optional integer attribute.
fn take_opt_i64(o: Option<JsonValue>) -> (r: Result<Option<i64>, ()>)
    ensures
        r == dec_opt_i64(o),
{
    match o {
        None => Ok(None),
        Some(JsonValue::Null) => Ok(None),
        Some(JsonValue::Int(n)) => Ok(Some(n)),
        Some(_) => Err(()),
    }
}

/// Decode an optional boolean attribute.
fn take_opt_bool(o: Option<JsonValue>) -> (r: Result<Option<bool>, ()>)
    ensures
        r == dec_opt_bool(o),
{
    match o {
        None => Ok(None),
        Some(JsonValue::Null) => Ok(None),
        Some(JsonValue::Bool(b)) => Ok(Some(b)),
        Some(_) => Err(()),
    }
}

/// Decode an optional string attribute.
fn take_opt_text(o: Option<JsonValue>) -> (r: Result<Option<String>, ()>)
    ensures
        r == dec_opt_text(o),
{
    match o {
        None => Ok(None),
        Some(JsonValue::Null) => Ok(None),
        Some(JsonValue::Text(s)) => Ok(Some(s)),
        Some(_) => Err(()),
    }
}

/// Keep an attribute as raw JSON.
fn take_opt_any(o: Option<JsonValue>) -> (r: Option<JsonValue>)
    ensures
        r == dec_opt_any(o),
{
    match o {
        None => None,
        Some(JsonValue::Null) => None,
        Some(v) => Some(v),
    }
}

/// Decode the optional calendar reference.
fn take_calendar(o: Option<JsonValue>) -> (r: Result<Option<Calendar>, ()>)
    ensures
        r == dec_calendar(o),
{
    match o {
        None => Ok(None),
        Some(JsonValue::Null) => Ok(None),
        Some(JsonValue::Object(mut fs)) => {
            let ghost fs0 = fs@;
            let n_ics = "ics".to_owned();
            let mut slot: Option<JsonValue> = None;
            while fs.len() > 0
                invariant
                    n_ics@ == "ics"@,
                    slot_inv(fs0, fs@, "ics"@, slot),
                decreases fs.len(),
            {
                let ghost rem_old = fs@;
                let pair = fs.pop().unwrap();
                proof {
                    assert(rem_old.drop_last() =~= fs@);
                }
                let (k, val) = pair;
                if k == n_ics {
                    if slot.is_none() {
                        slot = Some(val);
                    }
                }
            }
            match slot {
                Some(JsonValue::Text(s)) => Ok(Some(Calendar { ics: s })),
                _ => Err(()),
            }
        },
        Some(_) => Err(()),
    }
}

/// The facts about the six enrollment keys that tell them apart.
proof fn lemma_enrollment_keys()
    ensures
        "type"@.len() == 4,
        "type"@[0] == 't',
        "role"@.len() == 4,
        "role"@[0] == 'r',
        "role_id"@.len() == 7,
        "role_id"@[0] == 'r',
        "role_id"@[1] == 'o',
        "user_id"@.len() == 7,
        "user_id"@[0] == 'u',
        "enrollment_state"@.len() == 16,
        "enrollment_state"@[0] == 'e',
        "limit_privileges_to_course_section"@.len() == 34,
        "limit_privileges_to_course_section"@[0] == 'l',
{
    reveal_strlit("type");
    reveal_strlit("role");
    reveal_strlit("role_id");
    reveal_strlit("user_id");
    reveal_strlit("enrollment_state");
    reveal_strlit("limit_privileges_to_course_section");
}

/// Decode one enrollment record.
#[verifier::rlimit(100)]
fn take_enrollment(v: JsonValue) -> (r: Result<Enrollment, ()>)
    ensures
        r == spec_enrollment(v),
{
    let ghost v0 = v;
    match v {
        JsonValue::Object(mut fs) => {
            let ghost fs0 = fs@;
            let n_type = "type".to_owned();
            let n_role = "role".to_owned();
            let n_role_id = "role_id".to_owned();
            let n_user_id = "user_id".to_owned();
            let n_state = "enrollment_state".to_owned();
            let n_limit = "limit_privileges_to_course_section".to_owned();
            let mut s_type: Option<JsonValue> = None;
            let mut s_role: Option<JsonValue> = None;
            let mut s_role_id: Option<JsonValue> = None;
            let mut s_user_id: Option<JsonValue> = None;
            let mut s_state: Option<JsonValue> = None;
            let mut s_limit: Option<JsonValue> = None;
            while fs.len() > 0
                invariant
                    n_type@ == "type"@,
                    n_role@ == "role"@,
                    n_role_id@ == "role_id"@,
                    n_user_id@ == "user_id"@,
                    n_state@ == "enrollment_state"@,
                    n_limit@ == "limit_privileges_to_course_section"@,
                    slot_inv(fs0, fs@, "type"@, s_type),
                    slot_inv(fs0, fs@, "role"@, s_role),
                    slot_inv(fs0, fs@, "role_id"@, s_role_id),
                    slot_inv(fs0, fs@, "user_id"@, s_user_id),
                    slot_inv(fs0, fs@, "enrollment_state"@, s_state),
                    slot_inv(fs0, fs@, "limit_privileges_to_course_section"@, s_limit),
                decreases fs.len(),
            {
                let ghost rem_old = fs@;
                let pair = fs.pop().unwrap();
                proof {
                    lemma_enrollment_keys();
                    assert(rem_old.drop_last() =~= fs@);
                }
                let (k, val) = pair;
                if k == n_type {
                    if s_type.is_none() {
                        s_type = Some(val);
                    }
                } else if k == n_role {
                    if s_role.is_none() {
                        s_role = Some(val);
                    }
                } else if k == n_role_id {
                    if s_role_id.is_none() {
                        s_role_id = Some(val);
                    }
                } else if k == n_user_id {
                    if s_user_id.is_none() {
                        s_user_id = Some(val);
                    }
                } else if k == n_state {
                    if s_state.is_none() {
                        s_state = Some(val);
                    }
                } else if k == n_limit {
                    if s_limit.is_none() {
                        s_limit = Some(val);
                    }
                }
            }
            match (s_type, s_role, s_role_id, s_user_id, s_state, s_limit) {
                (
                    Some(JsonValue::Text(t)),
                    Some(JsonValue::Text(r)),
                    Some(JsonValue::Int(ri)),
                    Some(JsonValue::Int(ui)),
                    Some(JsonValue::Text(es)),
                    Some(JsonValue::Bool(lp)),
                ) => Ok(
                    Enrollment {
                        enrollment_type: t,
                        role: r,
                        role_id: ri,
                        user_id: ui,
                        enrollment_state: es,
                        limit_privileges_to_course_section: lp,
                    },
                ),
                _ => Err(()),
            }
        },
        _ => Err(()),
    }
}

/// Decode the optional enrollments list.
fn take_enrollments(o: Option<JsonValue>) -> (r: Result<Option<Vec<Enrollment>>, ()>)
    ensures
        r is Ok <==> enrollments_ok(o),
        match r {
            Ok(f) => enrollments_match(o, f),
            Err(_) => true,
        },
{
    match o {
        None => Ok(None),
        Some(JsonValue::Null) => Ok(None),
        Some(JsonValue::Array(mut items)) => {
            let ghost items0 = items@;
            let mut out: Vec<Enrollment> = Vec::new();
            while items.len() > 0
                invariant
                    o matches Some(JsonValue::Array(a)) && a@ == items0,
                    out@.len() + items@.len() == items0.len(),
                    items@ == items0.subrange(out@.len() as int, items0.len() as int),
                    forall|i: int|
                        0 <= i < out@.len() ==> (#[trigger] spec_enrollment(items0[i])) == Ok::<
                            Enrollment,
                            (),
                        >(out@[i]),
                decreases items.len(),
            {
                let ghost k = out@.len() as int;
                let e = items.remove(0);
                proof {
                    assert(e == items0[k]);
                    assert(items@ =~= items0.subrange(k + 1, items0.len() as int));
                }
                match take_enrollment(e) {
                    Ok(enr) => {
                        out.push(enr);
                    },
                    Err(_) => {
                        proof {
                            assert(spec_enrollment(items0[k]) is Err);
                            assert(!enrollments_ok(o));
                        }
                        return Err(());
                    },
                }
            }
            proof {
                assert(forall|i: int|
                    0 <= i < items0.len() ==> (#[trigger] spec_enrollment(items0[i])) is Ok);
                assert(enrollments_ok(o));
                assert(enrollments_match(o, Some(out)));
            }
            Ok(Some(out))
        },
        Some(_) => Err(()),
    }
}

/// The raw value found for each schema key while a record's fields are
/// consumed; `None` where the key has not been seen.
struct CourseSlots {
    id: Option<JsonValue>,
    name: Option<JsonValue>,
    account_id: Option<JsonValue>,
    uuid: Option<JsonValue>,
    start_at: Option<JsonValue>,
    grading_standard_id: Option<JsonValue>,
    is_public: Option<JsonValue>,
    created_at: Option<JsonValue>,
    course_code: Option<JsonValue>,
    default_view: Option<JsonValue>,
    root_account_id: Option<JsonValue>,
    enrollment_term_id: Option<JsonValue>,
    license: Option<JsonValue>,
    grade_passback_setting: Option<JsonValue>,
    end_at: Option<JsonValue>,
    public_syllabus: Option<JsonValue>,
    public_syllabus_to_auth: Option<JsonValue>,
    storage_quota_mb: Option<JsonValue>,
    is_public_to_auth_users: Option<JsonValue>,
    homeroom_course: Option<JsonValue>,
    course_color: Option<JsonValue>,
    friendly_name: Option<JsonValue>,
    apply_assignment_group_weights: Option<JsonValue>,
    calendar: Option<JsonValue>,
    time_zone: Option<JsonValue>,
    blueprint: Option<JsonValue>,
    template: Option<JsonValue>,
    enrollments: Option<JsonValue>,
    hide_final_grades: Option<JsonValue>,
    workflow_state: Option<JsonValue>,
    course_format: Option<JsonValue>,
    restrict_enrollments_to_course_dates: Option<JsonValue>,
    overridden_course_visibility: Option<JsonValue>,
    access_restricted_by_date: Option<JsonValue>,
}

/// Whether the collected raw values all have their declared shape.
spec fn slots_ok(s: CourseSlots) -> bool {
    &&& s.id matches Some(JsonValue::Int(_))
    &&& s.name matches Some(JsonValue::Text(_))
    &&& dec_opt_i64(s.account_id) is Ok
    &&& dec_opt_text(s.uuid) is Ok
    &&& dec_opt_text(s.start_at) is Ok
    &&& dec_opt_bool(s.is_public) is Ok
    &&& dec_opt_text(s.created_at) is Ok
    &&& dec_opt_text(s.course_code) is Ok
    &&& dec_opt_text(s.default_view) is Ok
    &&& dec_opt_i64(s.root_account_id) is Ok
    &&& dec_opt_i64(s.enrollment_term_id) is Ok
    &&& dec_opt_text(s.license) is Ok
    &&& dec_opt_text(s.end_at) is Ok
    &&& dec_opt_bool(s.public_syllabus) is Ok
    &&& dec_opt_bool(s.public_syllabus_to_auth) is Ok
    &&& dec_opt_i64(s.storage_quota_mb) is Ok
    &&& dec_opt_bool(s.is_public_to_auth_users) is Ok
    &&& dec_opt_bool(s.homeroom_course) is Ok
    &&& dec_opt_bool(s.apply_assignment_group_weights) is Ok
    &&& dec_calendar(s.calendar) is Ok
    &&& dec_opt_text(s.time_zone) is Ok
    &&& dec_opt_bool(s.blueprint) is Ok
    &&& dec_opt_bool(s.template) is Ok
    &&& enrollments_ok(s.enrollments)
    &&& dec_opt_bool(s.hide_final_grades) is Ok
    &&& dec_opt_text(s.workflow_state) is Ok
    &&& dec_opt_text(s.course_format) is Ok
    &&& dec_opt_bool(s.restrict_enrollments_to_course_dates) is Ok
    &&& dec_opt_text(s.overridden_course_visibility) is Ok
    &&& dec_opt_bool(s.access_restricted_by_date) is Ok
}

/// What a detailed course must hold for the collected raw values.
spec fn slots_match(fc: FullCourse, s: CourseSlots) -> bool {
    &&& s.id == Some(JsonValue::Int(fc.id))
    &&& s.name == Some(JsonValue::Text(fc.name))
    &&& dec_opt_i64(s.account_id) == Ok::<_, ()>(fc.account_id)
    &&& dec_opt_text(s.uuid) == Ok::<_, ()>(fc.uuid)
    &&& dec_opt_text(s.start_at) == Ok::<_, ()>(fc.start_at)
    &&& dec_opt_any(s.grading_standard_id) == fc.grading_standard_id
    &&& dec_opt_bool(s.is_public) == Ok::<_, ()>(fc.is_public)
    &&& dec_opt_text(s.created_at) == Ok::<_, ()>(fc.created_at)
    &&& dec_opt_text(s.course_code) == Ok::<_, ()>(fc.course_code)
    &&& dec_opt_text(s.default_view) == Ok::<_, ()>(fc.default_view)
    &&& dec_opt_i64(s.root_account_id) == Ok::<_, ()>(fc.root_account_id)
    &&& dec_opt_i64(s.enrollment_term_id) == Ok::<_, ()>(fc.enrollment_term_id)
    &&& dec_opt_text(s.license) == Ok::<_, ()>(fc.license)
    &&& dec_opt_any(s.grade_passback_setting) == fc.grade_passback_setting
    &&& dec_opt_text(s.end_at) == Ok::<_, ()>(fc.end_at)
    &&& dec_opt_bool(s.public_syllabus) == Ok::<_, ()>(fc.public_syllabus)
    &&& dec_opt_bool(s.public_syllabus_to_auth) == Ok::<_, ()>(fc.public_syllabus_to_auth)
    &&& dec_opt_i64(s.storage_quota_mb) == Ok::<_, ()>(fc.storage_quota_mb)
    &&& dec_opt_bool(s.is_public_to_auth_users) == Ok::<_, ()>(fc.is_public_to_auth_users)
    &&& dec_opt_bool(s.homeroom_course) == Ok::<_, ()>(fc.homeroom_course)
    &&& dec_opt_any(s.course_color) == fc.course_color
    &&& dec_opt_any(s.friendly_name) == fc.friendly_name
    &&& dec_opt_bool(s.apply_assignment_group_weights) == Ok::<_, ()>(fc.apply_assignment_group_weights)
    &&& dec_calendar(s.calendar) == Ok::<_, ()>(fc.calendar)
    &&& dec_opt_text(s.time_zone) == Ok::<_, ()>(fc.time_zone)
    &&& dec_opt_bool(s.blueprint) == Ok::<_, ()>(fc.blueprint)
    &&& dec_opt_bool(s.template) == Ok::<_, ()>(fc.template)
    &&& enrollments_match(s.enrollments, fc.enrollments)
    &&& dec_opt_bool(s.hide_final_grades) == Ok::<_, ()>(fc.hide_final_grades)
    &&& dec_opt_text(s.workflow_state) == Ok::<_, ()>(fc.workflow_state)
    &&& dec_opt_text(s.course_format) == Ok::<_, ()>(fc.course_format)
    &&& dec_opt_bool(s.restrict_enrollments_to_course_dates) == Ok::<_, ()>(fc.restrict_enrollments_to_course_dates)
    &&& dec_opt_text(s.overridden_course_visibility) == Ok::<_, ()>(fc.overridden_course_visibility)
    &&& dec_opt_bool(s.access_restricted_by_date) == Ok::<_, ()>(fc.access_restricted_by_date)
}

/// The facts about the schema keys that tell any two of them apart.
proof fn lemma_course_keys()
    ensures
        "id"@.len() == 2,
        "id"@[0] == 'i',
        "name"@.len() == 4,
        "name"@[0] == 'n',
        "account_id"@.len() == 10,
        "account_id"@[0] == 'a',
        "uuid"@.len() == 4,
        "uuid"@[0] == 'u',
        "start_at"@.len() == 8,
        "start_at"@[0] == 's',
        "grading_standard_id"@.len() == 19,
        "grading_standard_id"@[0] == 'g',
        "is_public"@.len() == 9,
        "is_public"@[0] == 'i',
        "created_at"@.len() == 10,
        "created_at"@[0] == 'c',
        "course_code"@.len() == 11,
        "course_code"@[0] == 'c',
        "default_view"@.len() == 12,
        "default_view"@[0] == 'd',
        "root_account_id"@.len() == 15,
        "root_account_id"@[0] == 'r',
        "enrollment_term_id"@.len() == 18,
        "enrollment_term_id"@[0] == 'e',
        "license"@.len() == 7,
        "license"@[0] == 'l',
        "grade_passback_setting"@.len() == 22,
        "grade_passback_setting"@[0] == 'g',
        "end_at"@.len() == 6,
        "end_at"@[0] == 'e',
        "public_syllabus"@.len() == 15,
        "public_syllabus"@[0] == 'p',
        "public_syllabus_to_auth"@.len() == 23,
        "public_syllabus_to_auth"@[0] == 'p',
        "storage_quota_mb"@.len() == 16,
        "storage_quota_mb"@[0] == 's',
        "is_public_to_auth_users"@.len() == 23,
        "is_public_to_auth_users"@[0] == 'i',
        "homeroom_course"@.len() == 15,
        "homeroom_course"@[0] == 'h',
        "course_color"@.len() == 12,
        "course_color"@[0] == 'c',
        "friendly_name"@.len() == 13,
        "friendly_name"@[0] == 'f',
        "apply_assignment_group_weights"@.len() == 30,
        "apply_assignment_group_weights"@[0] == 'a',
        "calendar"@.len() == 8,
        "calendar"@[0] == 'c',
        "time_zone"@.len() == 9,
        "time_zone"@[0] == 't',
        "blueprint"@.len() == 9,
        "blueprint"@[0] == 'b',
        "template"@.len() == 8,
        "template"@[0] == 't',
        "enrollments"@.len() == 11,
        "enrollments"@[0] == 'e',
        "hide_final_grades"@.len() == 17,
        "hide_final_grades"@[0] == 'h',
        "workflow_state"@.len() == 14,
        "workflow_state"@[0] == 'w',
        "course_format"@.len() == 13,
        "course_format"@[0] == 'c',
        "restrict_enrollments_to_course_dates"@.len() == 36,
        "restrict_enrollments_to_course_dates"@[0] == 'r',
        "overridden_course_visibility"@.len() == 28,
        "overridden_course_visibility"@[0] == 'o',
        "access_restricted_by_date"@.len() == 25,
        "access_restricted_by_date"@[0] == 'a',
{
    reveal_strlit("id");
    reveal_strlit("name");
    reveal_strlit("account_id");
    reveal_strlit("uuid");
    reveal_strlit("start_at");
    reveal_strlit("grading_standard_id");
    reveal_strlit("is_public");
    reveal_strlit("created_at");
    reveal_strlit("course_code");
    reveal_strlit("default_view");
    reveal_strlit("root_account_id");
    reveal_strlit("enrollment_term_id");
    reveal_strlit("license");
    reveal_strlit("grade_passback_setting");
    reveal_strlit("end_at");
    reveal_strlit("public_syllabus");
    reveal_strlit("public_syllabus_to_auth");
    reveal_strlit("storage_quota_mb");
    reveal_strlit("is_public_to_auth_users");
    reveal_strlit("homeroom_course");
    reveal_strlit("course_color");
    reveal_strlit("friendly_name");
    reveal_strlit("apply_assignment_group_weights");
    reveal_strlit("calendar");
    reveal_strlit("time_zone");
    reveal_strlit("blueprint");
    reveal_strlit("template");
    reveal_strlit("enrollments");
    reveal_strlit("hide_final_grades");
    reveal_strlit("workflow_state");
    reveal_strlit("course_format");
    reveal_strlit("restrict_enrollments_to_course_dates");
    reveal_strlit("overridden_course_visibility");
    reveal_strlit("access_restricted_by_date");
}

/// Whether two strings hold the same characters.
fn str_eq(a: &str, b: &str) -> (r: bool)
    ensures
        r == (a@ == b@),
{
    let n = a.unicode_len();
    let m = b.unicode_len();
    if n != m {
        return false;
    }
    let mut i: usize = 0;
    while i < n
        invariant
            0 <= i <= n,
            n == a@.len() && n == b@.len(),
            forall|j: int| 0 <= j < i ==> a@[j] == b@[j],
        decreases n - i,
    {
        if a.get_char(i) != b.get_char(i) {
            return false;
        }
        i = i + 1;
    }
    proof {
        assert(a@ =~= b@);
    }
    true
}

/// Assemble a detailed course from the collected raw values, or say
/// that some value does not fit the schema.
fn build_full(s: CourseSlots) -> (r: Result<FullCourse, ()>)
    ensures
        r is Ok <==> slots_ok(s),
        match r {
            Ok(fc) => slots_match(fc, s),
            Err(_) => true,
        },
{
    let CourseSlots { id, name, account_id, uuid, start_at, grading_standard_id, is_public, created_at, course_code, default_view, root_account_id, enrollment_term_id, license, grade_passback_setting, end_at, public_syllabus, public_syllabus_to_auth, storage_quota_mb, is_public_to_auth_users, homeroom_course, course_color, friendly_name, apply_assignment_group_weights, calendar, time_zone, blueprint, template, enrollments, hide_final_grades, workflow_state, course_format, restrict_enrollments_to_course_dates, overridden_course_visibility, access_restricted_by_date } = s;
    let id = match id {
        Some(JsonValue::Int(x)) => x,
        _ => { return Err(()); },
    };
    let name = match name {
        Some(JsonValue::Text(x)) => x,
        _ => { return Err(()); },
    };
    let account_id = match take_opt_i64(account_id) {
        Ok(x) => x,
        Err(_) => { return Err(()); },
    };
    let uuid = match take_opt_text(uuid) {
        Ok(x) => x,
        Err(_) => { return Err(()); },
    };
    let start_at = match take_opt_text(start_at) {
        Ok(x) => x,
        Err(_) => { return Err(()); },
    };
    let grading_standard_id = take_opt_any(grading_standard_id);
    let is_public = match take_opt_bool(is_public) {
        Ok(x) => x,
        Err(_) => { return Err(()); },
    };
    let created_at = match take_opt_text(created_at) {
        Ok(x) => x,
        Err(_) => { return Err(()); },
    };
    let course_code = match take_opt_text(course_code) {
        Ok(x) => x,
        Err(_) => { return Err(()); },
    };
    let default_view = match take_opt_text(default_view) {
        Ok(x) => x,
        Err(_) => { return Err(()); },
    };
    let root_account_id = match take_opt_i64(root_account_id) {
        Ok(x) => x,
        Err(_) => { return Err(()); },
    };
    let enrollment_term_id = match take_opt_i64(enrollment_term_id) {
        Ok(x) => x,
        Err(_) => { return Err(()); },
    };
    let license = match take_opt_text(license) {
        Ok(x) => x,
        Err(_) => { return Err(()); },
    };
    let grade_passback_setting = take_opt_any(grade_passback_setting);
    let end_at = match take_opt_text(end_at) {
        Ok(x) => x,
        Err(_) => { return Err(()); },
    };
    let public_syllabus = match take_opt_bool(public_syllabus) {
        Ok(x) => x,
        Err(_) => { return Err(()); },
    };
    let public_syllabus_to_auth = match take_opt_bool(public_syllabus_to_auth) {
        Ok(x) => x,
        Err(_) => { return Err(()); },
    };
    let storage_quota_mb = match take_opt_i64(storage_quota_mb) {
        Ok(x) => x,
        Err(_) => { return Err(()); },
    };
    let is_public_to_auth_users = match take_opt_bool(is_public_to_auth_users) {
        Ok(x) => x,
        Err(_) => { return Err(()); },
    };
    let homeroom_course = match take_opt_bool(homeroom_course) {
        Ok(x) => x,
        Err(_) => { return Err(()); },
    };
    let course_color = take_opt_any(course_color);
    let friendly_name = take_opt_any(friendly_name);
    let apply_assignment_group_weights = match take_opt_bool(apply_assignment_group_weights) {
        Ok(x) => x,
        Err(_) => { return Err(()); },
    };
    let calendar = match take_calendar(calendar) {
        Ok(x) => x,
        Err(_) => { return Err(()); },
    };
    let time_zone = match take_opt_text(time_zone) {
        Ok(x) => x,
        Err(_) => { return Err(()); },
    };
    let blueprint = match take_opt_bool(blueprint) {
        Ok(x) => x,
        Err(_) => { return Err(()); },
    };
    let template = match take_opt_bool(template) {
        Ok(x) => x,
        Err(_) => { return Err(()); },
    };
    let enrollments = match take_enrollments(enrollments) {
        Ok(x) => x,
        Err(_) => { return Err(()); },
    };
    let hide_final_grades = match take_opt_bool(hide_final_grades) {
        Ok(x) => x,
        Err(_) => { return Err(()); },
    };
    let workflow_state = match take_opt_text(workflow_state) {
        Ok(x) => x,
        Err(_) => { return Err(()); },
    };
    let course_format = match take_opt_text(course_format) {
        Ok(x) => x,
        Err(_) => { return Err(()); },
    };
    let restrict_enrollments_to_course_dates = match take_opt_bool(restrict_enrollments_to_course_dates) {
        Ok(x) => x,
        Err(_) => { return Err(()); },
    };
    let overridden_course_visibility = match take_opt_text(overridden_course_visibility) {
        Ok(x) => x,
        Err(_) => { return Err(()); },
    };
    let access_restricted_by_date = match take_opt_bool(access_restricted_by_date) {
        Ok(x) => x,
        Err(_) => { return Err(()); },
    };
    Ok(FullCourse { id, name, account_id, uuid, start_at, grading_standard_id, is_public, created_at, course_code, default_view, root_account_id, enrollment_term_id, license, grade_passback_setting, end_at, public_syllabus, public_syllabus_to_auth, storage_quota_mb, is_public_to_auth_users, homeroom_course, course_color, friendly_name, apply_assignment_group_weights, calendar, time_zone, blueprint, template, enrollments, hide_final_grades, workflow_state, course_format, restrict_enrollments_to_course_dates, overridden_course_visibility, access_restricted_by_date })
}

impl Course {
    /// Decode one raw course record. Decoding is total: a record that
    /// carries the full schema yields a detailed course whose every
    /// attribute is exactly what the record holds; any other value
    /// degrades to a stub that keeps the record's integer identity
    /// when it offers one, and the placeholder zero otherwise.
    #[verifier::rlimit(100)]
    pub fn decode(v: JsonValue) -> (r: Course)
        ensures
            strict_ok(v) ==> (r matches Course::FullCourse(fc) && full_matches(fc, v)),
            !strict_ok(v) ==> r == (Course::EmptyCourse { id: stub_id(v) }),
    {
        match v {
            JsonValue::Object(mut fs) => {
                let ghost fs0 = fs@;
                let mut slots = CourseSlots { id: None, name: None, account_id: None, uuid: None, start_at: None, grading_standard_id: None, is_public: None, created_at: None, course_code: None, default_view: None, root_account_id: None, enrollment_term_id: None, license: None, grade_passback_setting: None, end_at: None, public_syllabus: None, public_syllabus_to_auth: None, storage_quota_mb: None, is_public_to_auth_users: None, homeroom_course: None, course_color: None, friendly_name: None, apply_assignment_group_weights: None, calendar: None, time_zone: None, blueprint: None, template: None, enrollments: None, hide_final_grades: None, workflow_state: None, course_format: None, restrict_enrollments_to_course_dates: None, overridden_course_visibility: None, access_restricted_by_date: None };
                while fs.len() > 0
                    invariant
                        slot_inv(fs0, fs@, "id"@, slots.id),
                        slot_inv(fs0, fs@, "name"@, slots.name),
                        slot_inv(fs0, fs@, "account_id"@, slots.account_id),
                        slot_inv(fs0, fs@, "uuid"@, slots.uuid),
                        slot_inv(fs0, fs@, "start_at"@, slots.start_at),
                        slot_inv(fs0, fs@, "grading_standard_id"@, slots.grading_standard_id),
                        slot_inv(fs0, fs@, "is_public"@, slots.is_public),
                        slot_inv(fs0, fs@, "created_at"@, slots.created_at),
                        slot_inv(fs0, fs@, "course_code"@, slots.course_code),
                        slot_inv(fs0, fs@, "default_view"@, slots.default_view),
                        slot_inv(fs0, fs@, "root_account_id"@, slots.root_account_id),
                        slot_inv(fs0, fs@, "enrollment_term_id"@, slots.enrollment_term_id),
                        slot_inv(fs0, fs@, "license"@, slots.license),
                        slot_inv(fs0, fs@, "grade_passback_setting"@, slots.grade_passback_setting),
                        slot_inv(fs0, fs@, "end_at"@, slots.end_at),
                        slot_inv(fs0, fs@, "public_syllabus"@, slots.public_syllabus),
                        slot_inv(fs0, fs@, "public_syllabus_to_auth"@, slots.public_syllabus_to_auth),
                        slot_inv(fs0, fs@, "storage_quota_mb"@, slots.storage_quota_mb),
                        slot_inv(fs0, fs@, "is_public_to_auth_users"@, slots.is_public_to_auth_users),
                        slot_inv(fs0, fs@, "homeroom_course"@, slots.homeroom_course),
                        slot_inv(fs0, fs@, "course_color"@, slots.course_color),
                        slot_inv(fs0, fs@, "friendly_name"@, slots.friendly_name),
                        slot_inv(fs0, fs@, "apply_assignment_group_weights"@, slots.apply_assignment_group_weights),
                        slot_inv(fs0, fs@, "calendar"@, slots.calendar),
                        slot_inv(fs0, fs@, "time_zone"@, slots.time_zone),
                        slot_inv(fs0, fs@, "blueprint"@, slots.blueprint),
                        slot_inv(fs0, fs@, "template"@, slots.template),
                        slot_inv(fs0, fs@, "enrollments"@, slots.enrollments),
                        slot_inv(fs0, fs@, "hide_final_grades"@, slots.hide_final_grades),
                        slot_inv(fs0, fs@, "workflow_state"@, slots.workflow_state),
                        slot_inv(fs0, fs@, "course_format"@, slots.course_format),
                        slot_inv(fs0, fs@, "restrict_enrollments_to_course_dates"@, slots.restrict_enrollments_to_course_dates),
                        slot_inv(fs0, fs@, "overridden_course_visibility"@, slots.overridden_course_visibility),
                        slot_inv(fs0, fs@, "access_restricted_by_date"@, slots.access_restricted_by_date),
                    decreases fs.len(),
                {
                    let ghost rem_old = fs@;
                    let pair = fs.pop().unwrap();
                    proof {
                        lemma_course_keys();
                        assert(rem_old.drop_last() =~= fs@);
                    }
                    let (k, val) = pair;
                    if str_eq(k.as_str(), "id") {
                        if slots.id.is_none() {
                            slots.id = Some(val);
                        }
                    } else if str_eq(k.as_str(), "name") {
                        if slots.name.is_none() {
                            slots.name = Some(val);
                        }
                    } else if str_eq(k.as_str(), "account_id") {
                        if slots.account_id.is_none() {
                            slots.account_id = Some(val);
                        }
                    } else if str_eq(k.as_str(), "uuid") {
                        if slots.uuid.is_none() {
                            slots.uuid = Some(val);
                        }
                    } else if str_eq(k.as_str(), "start_at") {
                        if slots.start_at.is_none() {
                            slots.start_at = Some(val);
                        }
                    } else if str_eq(k.as_str(), "grading_standard_id") {
                        if slots.grading_standard_id.is_none() {
                            slots.grading_standard_id = Some(val);
                        }
                    } else if str_eq(k.as_str(), "is_public") {
                        if slots.is_public.is_none() {
                            slots.is_public = Some(val);
                        }
                    } else if str_eq(k.as_str(), "created_at") {
                        if slots.created_at.is_none() {
                            slots.created_at = Some(val);
                        }
                    } else if str_eq(k.as_str(), "course_code") {
                        if slots.course_code.is_none() {
                            slots.course_code = Some(val);
                        }
                    } else if str_eq(k.as_str(), "default_view") {
                        if slots.default_view.is_none() {
                            slots.default_view = Some(val);
                        }
                    } else if str_eq(k.as_str(), "root_account_id") {
                        if slots.root_account_id.is_none() {
                            slots.root_account_id = Some(val);
                        }
                    } else if str_eq(k.as_str(), "enrollment_term_id") {
                        if slots.enrollment_term_id.is_none() {
                            slots.enrollment_term_id = Some(val);
                        }
                    } else if str_eq(k.as_str(), "license") {
                        if slots.license.is_none() {
                            slots.license = Some(val);
                        }
                    } else if str_eq(k.as_str(), "grade_passback_setting") {
                        if slots.grade_passback_setting.is_none() {
                            slots.grade_passback_setting = Some(val);
                        }
                    } else if str_eq(k.as_str(), "end_at") {
                        if slots.end_at.is_none() {
                            slots.end_at = Some(val);
                        }
                    } else if str_eq(k.as_str(), "public_syllabus") {
                        if slots.public_syllabus.is_none() {
                            slots.public_syllabus = Some(val);
                        }
                    } else if str_eq(k.as_str(), "public_syllabus_to_auth") {
                        if slots.public_syllabus_to_auth.is_none() {
                            slots.public_syllabus_to_auth = Some(val);
                        }
                    } else if str_eq(k.as_str(), "storage_quota_mb") {
                        if slots.storage_quota_mb.is_none() {
                            slots.storage_quota_mb = Some(val);
                        }
                    } else if str_eq(k.as_str(), "is_public_to_auth_users") {
                        if slots.is_public_to_auth_users.is_none() {
                            slots.is_public_to_auth_users = Some(val);
                        }
                    } else if str_eq(k.as_str(), "homeroom_course") {
                        if slots.homeroom_course.is_none() {
                            slots.homeroom_course = Some(val);
                        }
                    } else if str_eq(k.as_str(), "course_color") {
                        if slots.course_color.is_none() {
                            slots.course_color = Some(val);
                        }
                    } else if str_eq(k.as_str(), "friendly_name") {
                        if slots.friendly_name.is_none() {
                            slots.friendly_name = Some(val);
                        }
                    } else if str_eq(k.as_str(), "apply_assignment_group_weights") {
                        if slots.apply_assignment_group_weights.is_none() {
                            slots.apply_assignment_group_weights = Some(val);
                        }
                    } else if str_eq(k.as_str(), "calendar") {
                        if slots.calendar.is_none() {
                            slots.calendar = Some(val);
                        }
                    } else if str_eq(k.as_str(), "time_zone") {
                        if slots.time_zone.is_none() {
                            slots.time_zone = Some(val);
                        }
                    } else if str_eq(k.as_str(), "blueprint") {
                        if slots.blueprint.is_none() {
                            slots.blueprint = Some(val);
                        }
                    } else if str_eq(k.as_str(), "template") {
                        if slots.template.is_none() {
                            slots.template = Some(val);
                        }
                    } else if str_eq(k.as_str(), "enrollments") {
                        if slots.enrollments.is_none() {
                            slots.enrollments = Some(val);
                        }
                    } else if str_eq(k.as_str(), "hide_final_grades") {
                        if slots.hide_final_grades.is_none() {
                            slots.hide_final_grades = Some(val);
                        }
                    } else if str_eq(k.as_str(), "workflow_state") {
                        if slots.workflow_state.is_none() {
                            slots.workflow_state = Some(val);
                        }
                    } else if str_eq(k.as_str(), "course_format") {
                        if slots.course_format.is_none() {
                            slots.course_format = Some(val);
                        }
                    } else if str_eq(k.as_str(), "restrict_enrollments_to_course_dates") {
                        if slots.restrict_enrollments_to_course_dates.is_none() {
                            slots.restrict_enrollments_to_course_dates = Some(val);
                        }
                    } else if str_eq(k.as_str(), "overridden_course_visibility") {
                        if slots.overridden_course_visibility.is_none() {
                            slots.overridden_course_visibility = Some(val);
                        }
                    } else if str_eq(k.as_str(), "access_restricted_by_date") {
                        if slots.access_restricted_by_date.is_none() {
                            slots.access_restricted_by_date = Some(val);
                        }
                    }
                }
                proof {
                    assert(slots.id == lookup(fs0, "id"@));
                    assert(slots.name == lookup(fs0, "name"@));
                    assert(slots.account_id == lookup(fs0, "account_id"@));
                    assert(slots.uuid == lookup(fs0, "uuid"@));
                    assert(slots.start_at == lookup(fs0, "start_at"@));
                    assert(slots.grading_standard_id == lookup(fs0, "grading_standard_id"@));
                    assert(slots.is_public == lookup(fs0, "is_public"@));
                    assert(slots.created_at == lookup(fs0, "created_at"@));
                    assert(slots.course_code == lookup(fs0, "course_code"@));
                    assert(slots.default_view == lookup(fs0, "default_view"@));
                    assert(slots.root_account_id == lookup(fs0, "root_account_id"@));
                    assert(slots.enrollment_term_id == lookup(fs0, "enrollment_term_id"@));
                    assert(slots.license == lookup(fs0, "license"@));
                    assert(slots.grade_passback_setting == lookup(fs0, "grade_passback_setting"@));
                    assert(slots.end_at == lookup(fs0, "end_at"@));
                    assert(slots.public_syllabus == lookup(fs0, "public_syllabus"@));
                    assert(slots.public_syllabus_to_auth == lookup(fs0, "public_syllabus_to_auth"@));
                    assert(slots.storage_quota_mb == lookup(fs0, "storage_quota_mb"@));
                    assert(slots.is_public_to_auth_users == lookup(fs0, "is_public_to_auth_users"@));
                    assert(slots.homeroom_course == lookup(fs0, "homeroom_course"@));
                    assert(slots.course_color == lookup(fs0, "course_color"@));
                    assert(slots.friendly_name == lookup(fs0, "friendly_name"@));
                    assert(slots.apply_assignment_group_weights == lookup(fs0, "apply_assignment_group_weights"@));
                    assert(slots.calendar == lookup(fs0, "calendar"@));
                    assert(slots.time_zone == lookup(fs0, "time_zone"@));
                    assert(slots.blueprint == lookup(fs0, "blueprint"@));
                    assert(slots.template == lookup(fs0, "template"@));
                    assert(slots.enrollments == lookup(fs0, "enrollments"@));
                    assert(slots.hide_final_grades == lookup(fs0, "hide_final_grades"@));
                    assert(slots.workflow_state == lookup(fs0, "workflow_state"@));
                    assert(slots.course_format == lookup(fs0, "course_format"@));
                    assert(slots.restrict_enrollments_to_course_dates == lookup(fs0, "restrict_enrollments_to_course_dates"@));
                    assert(slots.overridden_course_visibility == lookup(fs0, "overridden_course_visibility"@));
                    assert(slots.access_restricted_by_date == lookup(fs0, "access_restricted_by_date"@));
                }
                let stub = match &slots.id {
                    Some(JsonValue::Int(n)) => *n,
                    _ => 0,
                };
                match build_full(slots) {
                    Ok(fc) => Course::FullCourse(fc),
                    Err(_) => Course::EmptyCourse { id: stub },
                }
            },
            _ => Course::EmptyCourse { id: 0 },
        }
    }
}


/// In a two-field record, a key that neither field carries is absent.
proof fn lemma_lookup_two_absent(fs: Seq<(String, JsonValue)>, k: Seq<char>)
    requires
        fs.len() == 2,
        fs[0].0@ != k,
        fs[1].0@ != k,
    ensures
        lookup(fs, k) is None,
{
    assert(fs.last() == fs[1]);
    assert(fs.drop_last().last() == fs[0]);
    assert(fs.drop_last().drop_last() =~= Seq::<(String, JsonValue)>::empty());
    assert(lookup(fs.drop_last().drop_last(), k) is None);
    assert(lookup(fs.drop_last(), k) is None);
}

/// A record that carries only an integer `id` and a string `name`
/// decodes strictly, and every optional attribute of the detailed
/// course it yields is absent.
#[verifier::rlimit(100)]
pub proof fn lemma_id_name_only_detailed(fs: Vec<(String, JsonValue)>)
    requires
        fs@.len() == 2,
        fs@[0].0@ == "id"@,
        fs@[0].1 matches JsonValue::Int(_),
        fs@[1].0@ == "name"@,
        fs@[1].1 matches JsonValue::Text(_),
    ensures
        strict_ok(JsonValue::Object(fs)),
        forall|fc: FullCourse|
            full_matches(fc, JsonValue::Object(fs)) ==> ({
                &&& fc.account_id is None
                &&& fc.uuid is None
                &&& fc.start_at is None
                &&& fc.grading_standard_id is None
                &&& fc.is_public is None
                &&& fc.created_at is None
                &&& fc.course_code is None
                &&& fc.default_view is None
                &&& fc.root_account_id is None
                &&& fc.enrollment_term_id is None
                &&& fc.license is None
                &&& fc.grade_passback_setting is None
                &&& fc.end_at is None
                &&& fc.public_syllabus is None
                &&& fc.public_syllabus_to_auth is None
                &&& fc.storage_quota_mb is None
                &&& fc.is_public_to_auth_users is None
                &&& fc.homeroom_course is None
                &&& fc.course_color is None
                &&& fc.friendly_name is None
                &&& fc.apply_assignment_group_weights is None
                &&& fc.calendar is None
                &&& fc.time_zone is None
                &&& fc.blueprint is None
                &&& fc.template is None
                &&& fc.enrollments is None
                &&& fc.hide_final_grades is None
                &&& fc.workflow_state is None
                &&& fc.course_format is None
                &&& fc.restrict_enrollments_to_course_dates is None
                &&& fc.overridden_course_visibility is None
                &&& fc.access_restricted_by_date is None
            }),
{
    lemma_course_keys();
    assert(fs@.last() == fs@[1]);
    assert(fs@.drop_last().last() == fs@[0]);
    assert(fs@.drop_last().drop_last() =~= Seq::<(String, JsonValue)>::empty());
    assert(lookup(fs@, "name"@) == Some(fs@[1].1));
    assert(lookup(fs@.drop_last(), "id"@) == Some(fs@[0].1));
    assert(lookup(fs@, "id"@) == Some(fs@[0].1));
    lemma_lookup_two_absent(fs@, "account_id"@);
    lemma_lookup_two_absent(fs@, "uuid"@);
    lemma_lookup_two_absent(fs@, "start_at"@);
    lemma_lookup_two_absent(fs@, "grading_standard_id"@);
    lemma_lookup_two_absent(fs@, "is_public"@);
    lemma_lookup_two_absent(fs@, "created_at"@);
    lemma_lookup_two_absent(fs@, "course_code"@);
    lemma_lookup_two_absent(fs@, "default_view"@);
    lemma_lookup_two_absent(fs@, "root_account_id"@);
    lemma_lookup_two_absent(fs@, "enrollment_term_id"@);
    lemma_lookup_two_absent(fs@, "license"@);
    lemma_lookup_two_absent(fs@, "grade_passback_setting"@);
    lemma_lookup_two_absent(fs@, "end_at"@);
    lemma_lookup_two_absent(fs@, "public_syllabus"@);
    lemma_lookup_two_absent(fs@, "public_syllabus_to_auth"@);
    lemma_lookup_two_absent(fs@, "storage_quota_mb"@);
    lemma_lookup_two_absent(fs@, "is_public_to_auth_users"@);
    lemma_lookup_two_absent(fs@, "homeroom_course"@);
    lemma_lookup_two_absent(fs@, "course_color"@);
    lemma_lookup_two_absent(fs@, "friendly_name"@);
    lemma_lookup_two_absent(fs@, "apply_assignment_group_weights"@);
    lemma_lookup_two_absent(fs@, "calendar"@);
    lemma_lookup_two_absent(fs@, "time_zone"@);
    lemma_lookup_two_absent(fs@, "blueprint"@);
    lemma_lookup_two_absent(fs@, "template"@);
    lemma_lookup_two_absent(fs@, "enrollments"@);
    lemma_lookup_two_absent(fs@, "hide_final_grades"@);
    lemma_lookup_two_absent(fs@, "workflow_state"@);
    lemma_lookup_two_absent(fs@, "course_format"@);
    lemma_lookup_two_absent(fs@, "restrict_enrollments_to_course_dates"@);
    lemma_lookup_two_absent(fs@, "overridden_course_visibility"@);
    lemma_lookup_two_absent(fs@, "access_restricted_by_date"@);
}

/// A record without a `name` never carries the full schema: the
/// decoder degrades it to a stub.
pub proof fn lemma_missing_name_is_stub(fs: Vec<(String, JsonValue)>)
    requires
        lookup(fs@, "name"@) is None,
    ensures
        !strict_ok(JsonValue::Object(fs)),
{
}

} // verus!

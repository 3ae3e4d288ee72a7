use vstd::prelude::*;
use crate::models::{
    Course, CourseView, Teacher, TeacherView, Timestamp, UpdateCourse, UpdateCourseView,
    UpdateTeacher, UpdateTeacherView,
};

verus! {

/// Effective value of a nullable string column: the payload value when
/// present, otherwise the stored value, otherwise the empty string.
pub open spec fn effective_str(payload: Option<Seq<char>>, stored: Option<Seq<char>>) -> Seq<char> {
    match payload {
        Some(v) => v,
        None => match stored {
            Some(v) => v,
            None => Seq::<char>::empty(),
        },
    }
}

/// Effective value of the nullable timestamp column, falling back to the
/// epoch default.
pub open spec fn effective_time(payload: Option<Timestamp>, stored: Option<Timestamp>) -> Timestamp {
    match payload {
        Some(v) => v,
        None => match stored {
            Some(v) => v,
            None => Timestamp::spec_default(),
        },
    }
}

/// Effective value of the nullable price column, falling back to zero.
pub open spec fn effective_price(payload: Option<i32>, stored: Option<i32>) -> i32 {
    match payload {
        Some(v) => v,
        None => match stored {
            Some(v) => v,
            None => 0i32,
        },
    }
}

/// The row an update writes for a teacher: each field comes from the payload
/// when present there, otherwise from the current row; the id is never
/// touched.
pub open spec fn merged_teacher(cur: TeacherView, up: UpdateTeacherView) -> TeacherView {
    TeacherView {
        id: cur.id,
        name: match up.name {
            Some(n) => n,
            None => cur.name,
        },
        picture_url: match up.picture_url {
            Some(p) => p,
            None => cur.picture_url,
        },
        profile: match up.profile {
            Some(p) => p,
            None => cur.profile,
        },
    }
}

/// The row an update writes for a course: the full rewrite with computed
/// defaults. Every nullable column is written non-null, so a stored null
/// falls back to the column's type default when the payload is silent.
pub open spec fn merged_course(cur: CourseView, up: UpdateCourseView) -> CourseView {
    CourseView {
        teacher_id: cur.teacher_id,
        id: cur.id,
        name: match up.name {
            Some(n) => n,
            None => cur.name,
        },
        time: Some(effective_time(up.time, cur.time)),
        description: Some(effective_str(up.description, cur.description)),
        format: Some(effective_str(up.format, cur.format)),
        structure: Some(effective_str(up.structure, cur.structure)),
        duration: Some(effective_str(up.duration, cur.duration)),
        price: Some(effective_price(up.price, cur.price)),
        language: Some(effective_str(up.language, cur.language)),
        level: Some(effective_str(up.level, cur.level)),
    }
}

/// Computes the effective value of one nullable string column.
pub fn effective_string(payload: Option<String>, stored: Option<String>) -> (r: String)
    ensures
        r@ == effective_str(payload.deep_view(), stored.deep_view()),
{
    match payload {
        Some(v) => v,
        None => match stored {
            Some(v) => v,
            None => String::new(),
        },
    }
}

/// Merges a partial teacher update into the current row, field by field.
pub fn merge_teacher_update(current: Teacher, update_teacher: UpdateTeacher) -> (r: Teacher)
    ensures
        r@ == merged_teacher(current@, update_teacher@),
{
    Teacher {
        id: current.id,
        name: match update_teacher.name {
            Some(n) => n,
            None => current.name,
        },
        picture_url: match update_teacher.picture_url {
            Some(p) => p,
            None => current.picture_url,
        },
        profile: match update_teacher.profile {
            Some(p) => p,
            None => current.profile,
        },
    }
}

/// Merges a partial course update into the current row: the reconciler's
/// full rewrite with computed defaults.
pub fn merge_course_update(current: Course, update_course: UpdateCourse) -> (r: Course)
    ensures
        r@ == merged_course(current@, update_course@),
{
    let r = Course {
        teacher_id: current.teacher_id,
        id: current.id,
        name: match update_course.name {
            Some(n) => n,
            None => current.name,
        },
        time: Some(
            match update_course.time {
                Some(t) => t,
                None => match current.time {
                    Some(t) => t,
                    None => Timestamp::default(),
                },
            },
        ),
        description: Some(effective_string(update_course.description, current.description)),
        format: Some(effective_string(update_course.format, current.format)),
        structure: Some(effective_string(update_course.structure, current.structure)),
        duration: Some(effective_string(update_course.duration, current.duration)),
        price: Some(
            match update_course.price {
                Some(p) => p,
                None => match current.price {
                    Some(p) => p,
                    None => 0,
                },
            },
        ),
        language: Some(effective_string(update_course.language, current.language)),
        level: Some(effective_string(update_course.level, current.level)),
    };
    proof {
        assert(r@ =~= merged_course(current@, update_course@));
    }
    r
}

/// An update-teacher payload with every field absent.
pub open spec fn teacher_update_all_absent(up: UpdateTeacherView) -> bool {
    &&& up.name is None
    &&& up.picture_url is None
    &&& up.profile is None
}

/// An update-course payload with every field absent.
pub open spec fn course_update_all_absent(up: UpdateCourseView) -> bool {
    &&& up.name is None
    &&& up.time is None
    &&& up.description is None
    &&& up.format is None
    &&& up.structure is None
    &&& up.duration is None
    &&& up.price is None
    &&& up.language is None
    &&& up.level is None
}

/// A course row whose nullable columns all hold stored values. On such a row
/// the reconciler's fallback-to-default never fires.
pub open spec fn course_fully_populated(cur: CourseView) -> bool {
    &&& cur.time is Some
    &&& cur.description is Some
    &&& cur.format is Some
    &&& cur.structure is Some
    &&& cur.duration is Some
    &&& cur.price is Some
    &&& cur.language is Some
    &&& cur.level is Some
}

/// Law: an update payload with every field absent leaves a teacher row
/// unchanged.
pub proof fn lemma_teacher_noop_update(cur: TeacherView, up: UpdateTeacherView)
    requires
        teacher_update_all_absent(up),
    ensures
        merged_teacher(cur, up) == cur,
{
    assert(merged_teacher(cur, up) =~= cur);
}

/// Law: an update payload with every field absent leaves a course row
/// unchanged, provided every nullable column holds a stored value. (On a row
/// with a null column the full rewrite replaces that null with the column's
/// type default instead.)
pub proof fn lemma_course_noop_update(cur: CourseView, up: UpdateCourseView)
    requires
        course_update_all_absent(up),
        course_fully_populated(cur),
    ensures
        merged_course(cur, up) == cur,
{
    assert(merged_course(cur, up) =~= cur);
}

/// Law: an update payload carrying only a name changes only the name; every
/// other field keeps its prior stored value, again provided the nullable
/// columns hold stored values.
pub proof fn lemma_course_single_field_update(cur: CourseView, up: UpdateCourseView)
    requires
        up.name is Some,
        up.time is None,
        up.description is None,
        up.format is None,
        up.structure is None,
        up.duration is None,
        up.price is None,
        up.language is None,
        up.level is None,
        course_fully_populated(cur),
    ensures
        merged_course(cur, up) == (CourseView { name: up.name.unwrap(), ..cur }),
{
    assert(merged_course(cur, up) =~= CourseView { name: up.name.unwrap(), ..cur });
}

/// Law: an update payload carrying only a name changes only a teacher's name,
/// with no side condition, since no teacher column is nullable.
pub proof fn lemma_teacher_single_field_update(cur: TeacherView, up: UpdateTeacherView)
    requires
        up.name is Some,
        up.picture_url is None,
        up.profile is None,
    ensures
        merged_teacher(cur, up) == (TeacherView { name: up.name.unwrap(), ..cur }),
{
    assert(merged_teacher(cur, up) =~= TeacherView { name: up.name.unwrap(), ..cur });
}

} // verus!

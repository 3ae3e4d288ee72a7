use vstd::prelude::*;

verus! {

/// A calendar timestamp held as plain fields, the shape in which the store's
/// optional `time` column is read and written by this layer. The store itself
/// validates calendar ranges; this layer only carries the value through.
#[derive(Clone, Copy, Debug, PartialEq, Eq, Structural)]
pub struct Timestamp {
    pub year: i32,
    pub month: u8,
    pub day: u8,
    pub hour: u8,
    pub minute: u8,
    pub second: u8,
}

impl Timestamp {
    /// The type default for the timestamp column: the epoch instant. The
    /// reconciler writes this when a nullable timestamp has no stored value
    /// and the payload carries none.
    pub open spec fn spec_default() -> Timestamp {
        Timestamp { year: 1970, month: 1, day: 1, hour: 0, minute: 0, second: 0 }
    }
}

impl Default for Timestamp {
    fn default() -> (t: Self)
        ensures
            t == Timestamp::spec_default(),
    {
        Timestamp { year: 1970, month: 1, day: 1, hour: 0, minute: 0, second: 0 }
    }
}

/// A stored teacher row. The id is assigned by the store at creation and is
/// never changed by this layer; the remaining fields are required strings.
#[derive(Debug)]
pub struct Teacher {
    pub id: i32,
    pub name: String,
    pub picture_url: String,
    pub profile: String,
}

/// Mathematical image of a teacher row.
#[verifier::ext_equal]
pub ghost struct TeacherView {
    pub id: int,
    pub name: Seq<char>,
    pub picture_url: Seq<char>,
    pub profile: Seq<char>,
}

impl View for Teacher {
    type V = TeacherView;

    open spec fn view(&self) -> TeacherView {
        TeacherView {
            id: self.id as int,
            name: self.name@,
            picture_url: self.picture_url@,
            profile: self.profile@,
        }
    }
}

impl DeepView for Teacher {
    type V = TeacherView;

    open spec fn deep_view(&self) -> TeacherView {
        self.view()
    }
}

impl Clone for Teacher {
    fn clone(&self) -> (res: Self)
        ensures
            res@ == self@,
    {
        Teacher {
            id: self.id,
            name: self.name.clone(),
            picture_url: self.picture_url.clone(),
            profile: self.profile.clone(),
        }
    }
}

/// Payload for creating a teacher: the entity minus its store-assigned id.
#[derive(Debug)]
pub struct CreateTeacher {
    pub name: String,
    pub picture_url: String,
    pub profile: String,
}

/// Mathematical image of a create-teacher payload.
#[verifier::ext_equal]
pub ghost struct CreateTeacherView {
    pub name: Seq<char>,
    pub picture_url: Seq<char>,
    pub profile: Seq<char>,
}

impl View for CreateTeacher {
    type V = CreateTeacherView;

    open spec fn view(&self) -> CreateTeacherView {
        CreateTeacherView {
            name: self.name@,
            picture_url: self.picture_url@,
            profile: self.profile@,
        }
    }
}

/// Payload for a partial teacher update: a present field replaces the stored
/// value, an absent field keeps it.
#[derive(Debug)]
pub struct UpdateTeacher {
    pub name: Option<String>,
    pub picture_url: Option<String>,
    pub profile: Option<String>,
}

/// Mathematical image of an update-teacher payload.
#[verifier::ext_equal]
pub ghost struct UpdateTeacherView {
    pub name: Option<Seq<char>>,
    pub picture_url: Option<Seq<char>>,
    pub profile: Option<Seq<char>>,
}

impl View for UpdateTeacher {
    type V = UpdateTeacherView;

    open spec fn view(&self) -> UpdateTeacherView {
        UpdateTeacherView {
            name: self.name.deep_view(),
            picture_url: self.picture_url.deep_view(),
            profile: self.profile.deep_view(),
        }
    }
}

/// A stored course row, keyed by the composite (teacher_id, id). The id is
/// store-assigned; teacher_id references an existing teacher, a constraint the
/// store enforces. `name` is required; the remaining columns may be null.
#[derive(Debug)]
pub struct Course {
    pub teacher_id: i32,
    pub id: i32,
    pub name: String,
    pub time: Option<Timestamp>,
    pub description: Option<String>,
    pub format: Option<String>,
    pub structure: Option<String>,
    pub duration: Option<String>,
    pub price: Option<i32>,
    pub language: Option<String>,
    pub level: Option<String>,
}

/// Mathematical image of a course row.
#[verifier::ext_equal]
pub ghost struct CourseView {
    pub teacher_id: int,
    pub id: int,
    pub name: Seq<char>,
    pub time: Option<Timestamp>,
    pub description: Option<Seq<char>>,
    pub format: Option<Seq<char>>,
    pub structure: Option<Seq<char>>,
    pub duration: Option<Seq<char>>,
    pub price: Option<i32>,
    pub language: Option<Seq<char>>,
    pub level: Option<Seq<char>>,
}

impl View for Course {
    type V = CourseView;

    open spec fn view(&self) -> CourseView {
        CourseView {
            teacher_id: self.teacher_id as int,
            id: self.id as int,
            name: self.name@,
            time: self.time,
            description: self.description.deep_view(),
            format: self.format.deep_view(),
            structure: self.structure.deep_view(),
            duration: self.duration.deep_view(),
            price: self.price,
            language: self.language.deep_view(),
            level: self.level.deep_view(),
        }
    }
}

impl DeepView for Course {
    type V = CourseView;

    open spec fn deep_view(&self) -> CourseView {
        self.view()
    }
}

impl Clone for Course {
    fn clone(&self) -> (res: Self)
        ensures
            res@ == self@,
    {
        Course {
            teacher_id: self.teacher_id,
            id: self.id,
            name: self.name.clone(),
            time: self.time,
            description: clone_opt_string(&self.description),
            format: clone_opt_string(&self.format),
            structure: clone_opt_string(&self.structure),
            duration: clone_opt_string(&self.duration),
            price: self.price,
            language: clone_opt_string(&self.language),
            level: clone_opt_string(&self.level),
        }
    }
}

/// Copies an optional string, keeping its abstract value.
pub fn clone_opt_string(s: &Option<String>) -> (res: Option<String>)
    ensures
        res.deep_view() == s.deep_view(),
{
    match s {
        Some(v) => Some(v.clone()),
        None => None,
    }
}

/// Payload for creating a course: the entity minus its store-assigned id.
#[derive(Debug)]
pub struct CreateCourse {
    pub teacher_id: i32,
    pub name: String,
    pub time: Option<Timestamp>,
    pub description: Option<String>,
    pub format: Option<String>,
    pub structure: Option<String>,
    pub duration: Option<String>,
    pub price: Option<i32>,
    pub language: Option<String>,
    pub level: Option<String>,
}

/// Mathematical image of a create-course payload.
#[verifier::ext_equal]
pub ghost struct CreateCourseView {
    pub teacher_id: int,
    pub name: Seq<char>,
    pub time: Option<Timestamp>,
    pub description: Option<Seq<char>>,
    pub format: Option<Seq<char>>,
    pub structure: Option<Seq<char>>,
    pub duration: Option<Seq<char>>,
    pub price: Option<i32>,
    pub language: Option<Seq<char>>,
    pub level: Option<Seq<char>>,
}

impl View for CreateCourse {
    type V = CreateCourseView;

    open spec fn view(&self) -> CreateCourseView {
        CreateCourseView {
            teacher_id: self.teacher_id as int,
            name: self.name@,
            time: self.time,
            description: self.description.deep_view(),
            format: self.format.deep_view(),
            structure: self.structure.deep_view(),
            duration: self.duration.deep_view(),
            price: self.price,
            language: self.language.deep_view(),
            level: self.level.deep_view(),
        }
    }
}

/// Payload for a partial course update: a present field replaces the stored
/// value, an absent field keeps it (with the reconciler's fallback to the
/// column's type default where the stored value is itself null).
#[derive(Debug)]
pub struct UpdateCourse {
    pub name: Option<String>,
    pub time: Option<Timestamp>,
    pub description: Option<String>,
    pub format: Option<String>,
    pub structure: Option<String>,
    pub duration: Option<String>,
    pub price: Option<i32>,
    pub language: Option<String>,
    pub level: Option<String>,
}

/// Mathematical image of an update-course payload.
#[verifier::ext_equal]
pub ghost struct UpdateCourseView {
    pub name: Option<Seq<char>>,
    pub time: Option<Timestamp>,
    pub description: Option<Seq<char>>,
    pub format: Option<Seq<char>>,
    pub structure: Option<Seq<char>>,
    pub duration: Option<Seq<char>>,
    pub price: Option<i32>,
    pub language: Option<Seq<char>>,
    pub level: Option<Seq<char>>,
}

impl View for UpdateCourse {
    type V = UpdateCourseView;

    open spec fn view(&self) -> UpdateCourseView {
        UpdateCourseView {
            name: self.name.deep_view(),
            time: self.time,
            description: self.description.deep_view(),
            format: self.format.deep_view(),
            structure: self.structure.deep_view(),
            duration: self.duration.deep_view(),
            price: self.price,
            language: self.language.deep_view(),
            level: self.level.deep_view(),
        }
    }
}

} // verus!

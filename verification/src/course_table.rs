use vstd::prelude::*;
use crate::errors::MyError;
use crate::models::{
    Course, CourseView, CreateCourse, CreateCourseView, UpdateCourse, UpdateCourseView,
};
use crate::reconcile::{
    course_fully_populated, course_update_all_absent, lemma_course_noop_update,
    merge_course_update, merged_course,
};

verus! {

/// Well-formedness of the stored course rows against the store's id counter:
/// every id is positive, below the counter, and ids are unique across all
/// teachers (the id column is the table's primary key).
pub open spec fn wf_course_rows(rows: Seq<CourseView>, next_id: int) -> bool {
    &&& 1 <= next_id
    &&& forall|i: int| 0 <= i < rows.len() ==> 1 <= (#[trigger] rows[i]).id < next_id
    &&& forall|i: int, j: int|
        #![trigger rows[i].id, rows[j].id]
        0 <= i < j < rows.len() ==> rows[i].id != rows[j].id
}

/// The course row a create payload becomes under a store-assigned id; the
/// nullable columns are stored exactly as submitted, nulls included.
pub open spec fn course_from_create(p: CreateCourseView, id: int) -> CourseView {
    CourseView {
        teacher_id: p.teacher_id,
        id: id,
        name: p.name,
        time: p.time,
        description: p.description,
        format: p.format,
        structure: p.structure,
        duration: p.duration,
        price: p.price,
        language: p.language,
        level: p.level,
    }
}

/// The rows belonging to one teacher, in store order.
pub open spec fn courses_of(rows: Seq<CourseView>, teacher_id: int) -> Seq<CourseView>
    decreases rows.len(),
{
    if rows.len() == 0 {
        Seq::<CourseView>::empty()
    } else {
        let rest = courses_of(rows.drop_last(), teacher_id);
        if rows.last().teacher_id == teacher_id {
            rest.push(rows.last())
        } else {
            rest
        }
    }
}

/// Model of the course table: the committed rows in store order, plus the
/// counter the store assigns identities from. Reads are keyed by the
/// composite (teacher_id, id).
pub struct CourseTable {
    rows: Vec<Course>,
    next_id: i32,
}

impl CourseTable {
    pub closed spec fn rows_view(&self) -> Seq<CourseView> {
        self.rows.deep_view()
    }

    pub closed spec fn spec_next_id(&self) -> int {
        self.next_id as int
    }

    pub open spec fn wf(&self) -> bool {
        wf_course_rows(self.rows_view(), self.spec_next_id())
    }

    /// An empty table; the store assigns ids from 1.
    pub fn new() -> (t: Self)
        ensures
            t.wf(),
            t.rows_view() == Seq::<CourseView>::empty(),
            t.spec_next_id() == 1,
    {
        let t = CourseTable { rows: Vec::new(), next_id: 1 };
        proof {
            assert(t.rows_view() =~= Seq::<CourseView>::empty());
        }
        t
    }
}

/// Index of the row holding the given composite key, if any.
fn find_course_index(table: &CourseTable, teacher_id: i32, course_id: i32) -> (r: Option<usize>)
    requires
        table.wf(),
    ensures
        match r {
            Some(i) => i < table.rows_view().len() && table.rows_view()[i as int].teacher_id
                == teacher_id as int && table.rows_view()[i as int].id == course_id as int,
            None => forall|j: int|
                0 <= j < table.rows_view().len()
                    ==> !((#[trigger] table.rows_view()[j]).teacher_id == teacher_id as int
                    && table.rows_view()[j].id == course_id as int),
        },
{
    let n = table.rows.len();
    let mut i: usize = 0;
    while i < n
        invariant
            n == table.rows.len(),
            i <= n,
            forall|j: int|
                0 <= j < i ==> !((#[trigger] table.rows_view()[j]).teacher_id == teacher_id as int
                    && table.rows_view()[j].id == course_id as int),
        decreases n - i,
    {
        if table.rows[i].teacher_id == teacher_id && table.rows[i].id == course_id {
            return Some(i);
        }
        i = i + 1;
    }
    None
}

/// Classifies a fetched singleton course read: zero rows is NotFound.
pub fn course_detail_from_row(row: Option<Course>) -> (r: Result<Course, MyError>)
    ensures
        match r {
            Ok(c) => row matches Some(c0) && c == c0,
            Err(e) => row is None && e is NotFound,
        },
{
    match row {
        Some(c) => Ok(c),
        None => Err(MyError::NotFound("Course didn't founded".to_owned())),
    }
}

/// Creates a course scoped under its teacher_id: the store appends one row
/// under a fresh id and advances its counter. The model always succeeds; at
/// the real store any failure here (a missing teacher included) is a generic
/// store error, never NotFound.
pub fn post_new_course_db(table: &mut CourseTable, new_course: CreateCourse) -> (r: Result<
    (),
    MyError,
>)
    requires
        old(table).wf(),
        old(table).spec_next_id() < i32::MAX,
    ensures
        final(table).wf(),
        r is Ok,
        final(table).rows_view() == old(table).rows_view().push(
            course_from_create(new_course@, old(table).spec_next_id()),
        ),
        final(table).spec_next_id() == old(table).spec_next_id() + 1,
{
    let row = Course {
        teacher_id: new_course.teacher_id,
        id: table.next_id,
        name: new_course.name,
        time: new_course.time,
        description: new_course.description,
        format: new_course.format,
        structure: new_course.structure,
        duration: new_course.duration,
        price: new_course.price,
        language: new_course.language,
        level: new_course.level,
    };
    table.rows.push(row);
    table.next_id = table.next_id + 1;
    proof {
        assert(table.rows_view() =~= old(table).rows_view().push(
            course_from_create(new_course@, old(table).spec_next_id()),
        ));
    }
    Ok(())
}

/// Reads all courses of one teacher, in store order. Unlike the teacher
/// list, a teacher with zero courses yields an empty sequence, not NotFound.
pub fn get_courses_for_teacher_db(table: &CourseTable, teacher_id: i32) -> (r: Result<
    Vec<Course>,
    MyError,
>)
    requires
        table.wf(),
    ensures
        r is Ok,
        r matches Ok(v) ==> v.deep_view() == courses_of(table.rows_view(), teacher_id as int),
{
    let n = table.rows.len();
    let mut out: Vec<Course> = Vec::new();
    let mut i: usize = 0;
    while i < n
        invariant
            n == table.rows.len(),
            i <= n,
            out.deep_view() =~= courses_of(table.rows_view().take(i as int), teacher_id as int),
        decreases n - i,
    {
        proof {
            assert(table.rows_view().take(i + 1 as int).drop_last() =~= table.rows_view().take(
                i as int,
            ));
            assert(table.rows_view().take(i + 1 as int).last() == table.rows_view()[i as int]);
        }
        if table.rows[i].teacher_id == teacher_id {
            let c = table.rows[i].clone();
            out.push(c);
        }
        proof {
            assert(out.deep_view() =~= courses_of(
                table.rows_view().take(i + 1 as int),
                teacher_id as int,
            ));
        }
        i = i + 1;
    }
    proof {
        assert(table.rows_view().take(n as int) =~= table.rows_view());
        assert(out.deep_view() =~= courses_of(table.rows_view(), teacher_id as int));
    }
    Ok(out)
}

/// Reads the course with the given composite key. Ids are unique, so the
/// returned row is the one row under that key; zero matching rows is
/// NotFound.
pub fn get_course_details_db(table: &CourseTable, teacher_id: i32, course_id: i32) -> (r: Result<
    Course,
    MyError,
>)
    requires
        table.wf(),
    ensures
        match r {
            Ok(c) => c@.teacher_id == teacher_id as int && c@.id == course_id as int
                && table.rows_view().contains(c@),
            Err(e) => e is NotFound && (forall|i: int|
                0 <= i < table.rows_view().len()
                    ==> !((#[trigger] table.rows_view()[i]).teacher_id == teacher_id as int
                    && table.rows_view()[i].id == course_id as int)),
        },
{
    match find_course_index(table, teacher_id, course_id) {
        Some(i) => {
            let c = table.rows[i].clone();
            proof {
                assert(table.rows_view()[i as int] == c@);
            }
            course_detail_from_row(Some(c))
        },
        None => course_detail_from_row(None),
    }
}

/// Updates the course under the given composite key by the reconciler's full
/// rewrite with computed defaults. An absent row fails with NotFound before
/// any write; on success exactly that row is rewritten to the merged value
/// and an opaque confirmation is returned.
pub fn update_course_details_db(
    table: &mut CourseTable,
    teacher_id: i32,
    course_id: i32,
    update_course: UpdateCourse,
) -> (r: Result<String, MyError>)
    requires
        old(table).wf(),
    ensures
        final(table).wf(),
        final(table).spec_next_id() == old(table).spec_next_id(),
        match r {
            Ok(_) => exists|i: int|
                0 <= i < old(table).rows_view().len()
                    && (#[trigger] old(table).rows_view()[i]).teacher_id == teacher_id as int
                    && old(table).rows_view()[i].id == course_id as int
                    && final(table).rows_view() == old(table).rows_view().update(
                    i,
                    merged_course(old(table).rows_view()[i], update_course@),
                ),
            Err(e) => e is NotFound && final(table).rows_view() == old(table).rows_view() && (
            forall|i: int|
                0 <= i < old(table).rows_view().len()
                    ==> !((#[trigger] old(table).rows_view()[i]).teacher_id == teacher_id as int
                    && old(table).rows_view()[i].id == course_id as int)),
        },
{
    match find_course_index(table, teacher_id, course_id) {
        None => Err(MyError::NotFound("Course Id not found".to_owned())),
        Some(idx) => {
            let current = table.rows[idx].clone();
            let merged = merge_course_update(current, update_course);
            table.rows[idx] = merged;
            proof {
                let r0 = old(table).rows_view();
                let r1 = table.rows_view();
                assert(r1 =~= r0.update(
                    idx as int,
                    merged_course(r0[idx as int], update_course@),
                ));
                assert(forall|i: int| 0 <= i < r1.len() ==> r1[i].id == r0[i].id);
            }
            Ok("Updated record".to_owned())
        },
    }
}

/// Deletes by composite key and returns a confirmation unconditionally: zero
/// rows removed is not distinguished from one row removed at this layer.
pub fn delete_course_db(table: &mut CourseTable, teacher_id: i32, course_id: i32) -> (r: Result<
    String,
    MyError,
>)
    requires
        old(table).wf(),
    ensures
        final(table).wf(),
        final(table).spec_next_id() == old(table).spec_next_id(),
        r is Ok,
        (forall|i: int|
            0 <= i < old(table).rows_view().len() ==> !((#[trigger] old(
                table,
            ).rows_view()[i]).teacher_id == teacher_id as int && old(table).rows_view()[i].id
                == course_id as int)) ==> final(table).rows_view() == old(table).rows_view(),
        (exists|i: int|
            0 <= i < old(table).rows_view().len() && (#[trigger] old(
                table,
            ).rows_view()[i]).teacher_id == teacher_id as int && old(table).rows_view()[i].id
                == course_id as int) ==> (exists|i: int|
            0 <= i < old(table).rows_view().len() && (#[trigger] old(
                table,
            ).rows_view()[i]).teacher_id == teacher_id as int && old(table).rows_view()[i].id
                == course_id as int && final(table).rows_view() == old(table).rows_view().remove(
                i,
            )),
{
    match find_course_index(table, teacher_id, course_id) {
        None => Ok("Deleted record".to_owned()),
        Some(idx) => {
            table.rows.remove(idx);
            proof {
                let r0 = old(table).rows_view();
                let r1 = table.rows_view();
                assert(r1 =~= r0.remove(idx as int));
                assert(forall|k: int|
                    0 <= k < r1.len() ==> r1[k] == (if k < idx as int {
                        r0[k]
                    } else {
                        r0[k + 1]
                    }));
            }
            Ok("Deleted record".to_owned())
        },
    }
}

/// Law: a create followed by a get under the store-assigned id reads back
/// exactly the submitted fields, nulls included. After the append, the
/// created row is in the table, and any row carrying the fresh id is that
/// row, so the get's contract pins its result to the payload.
pub proof fn lemma_course_create_then_get(
    rows: Seq<CourseView>,
    next_id: int,
    p: CreateCourseView,
)
    requires
        wf_course_rows(rows, next_id),
    ensures
        ({
            let created = course_from_create(p, next_id);
            let rows2 = rows.push(created);
            &&& rows2.contains(created)
            &&& forall|i: int|
                0 <= i < rows2.len() && (#[trigger] rows2[i]).id == next_id ==> rows2[i] == created
        }),
{
    let created = course_from_create(p, next_id);
    let rows2 = rows.push(created);
    assert(rows2[rows.len() as int] == created);
    assert(rows2.contains(created));
}

/// Law: an update with an all-absent payload, applied to a stored row whose
/// nullable columns all hold values, is a successful no-op at the store: the
/// written row sequence equals the old one. (On a row with a null column the
/// full rewrite puts the column's type default there instead.)
pub proof fn lemma_course_noop_update_keeps_rows(
    rows: Seq<CourseView>,
    next_id: int,
    i: int,
    up: UpdateCourseView,
)
    requires
        wf_course_rows(rows, next_id),
        0 <= i < rows.len(),
        course_update_all_absent(up),
        course_fully_populated(rows[i]),
    ensures
        rows.update(i, merged_course(rows[i], up)) == rows,
{
    lemma_course_noop_update(rows[i], up);
    assert(rows.update(i, merged_course(rows[i], up)) =~= rows);
}

} // verus!

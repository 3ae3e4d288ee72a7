use vstd::prelude::*;
use crate::errors::MyError;
use crate::models::{
    CreateTeacher, CreateTeacherView, Teacher, TeacherView, UpdateTeacher, UpdateTeacherView,
};
use crate::reconcile::{
    lemma_teacher_noop_update, merge_teacher_update, merged_teacher, teacher_update_all_absent,
};

verus! {

/// Well-formedness of the stored teacher rows against the store's id counter:
/// every id is positive, below the counter, and ids are unique.
pub open spec fn wf_teacher_rows(rows: Seq<TeacherView>, next_id: int) -> bool {
    &&& 1 <= next_id
    &&& forall|i: int| 0 <= i < rows.len() ==> 1 <= (#[trigger] rows[i]).id < next_id
    &&& forall|i: int, j: int|
        #![trigger rows[i].id, rows[j].id]
        0 <= i < j < rows.len() ==> rows[i].id != rows[j].id
}

/// The teacher row a create payload becomes under a store-assigned id.
pub open spec fn teacher_from_create(p: CreateTeacherView, id: int) -> TeacherView {
    TeacherView { id: id, name: p.name, picture_url: p.picture_url, profile: p.profile }
}

/// Model of the teacher table: the committed rows in store order, plus the
/// counter the store assigns identities from. A row read back reflects
/// exactly the last committed write for its id.
pub struct TeacherTable {
    rows: Vec<Teacher>,
    next_id: i32,
}

impl TeacherTable {
    pub closed spec fn rows_view(&self) -> Seq<TeacherView> {
        self.rows.deep_view()
    }

    pub closed spec fn spec_next_id(&self) -> int {
        self.next_id as int
    }

    pub open spec fn wf(&self) -> bool {
        wf_teacher_rows(self.rows_view(), self.spec_next_id())
    }

    /// An empty table; the store assigns ids from 1.
    pub fn new() -> (t: Self)
        ensures
            t.wf(),
            t.rows_view() == Seq::<TeacherView>::empty(),
            t.spec_next_id() == 1,
    {
        let t = TeacherTable { rows: Vec::new(), next_id: 1 };
        proof {
            assert(t.rows_view() =~= Seq::<TeacherView>::empty());
        }
        t
    }
}

/// Index of the row holding the given id, if any.
fn find_teacher_index(table: &TeacherTable, teacher_id: i32) -> (r: Option<usize>)
    requires
        table.wf(),
    ensures
        match r {
            Some(i) => i < table.rows_view().len() && table.rows_view()[i as int].id
                == teacher_id as int,
            None => forall|j: int|
                0 <= j < table.rows_view().len() ==> (#[trigger] table.rows_view()[j]).id
                    != teacher_id as int,
        },
{
    let n = table.rows.len();
    let mut i: usize = 0;
    while i < n
        invariant
            n == table.rows.len(),
            i <= n,
            forall|j: int|
                0 <= j < i ==> (#[trigger] table.rows_view()[j]).id != teacher_id as int,
        decreases n - i,
    {
        if table.rows[i].id == teacher_id {
            return Some(i);
        }
        i = i + 1;
    }
    None
}

/// Classifies a fetched teacher result set: an empty read is reported as
/// NotFound by design, anything else is handed through unchanged.
pub fn classify_teacher_list(rows: Vec<Teacher>) -> (r: Result<Vec<Teacher>, MyError>)
    ensures
        match r {
            Ok(v) => rows.deep_view().len() > 0 && v.deep_view() == rows.deep_view(),
            Err(e) => rows.deep_view().len() == 0 && e is NotFound,
        },
{
    if rows.len() == 0 {
        Err(MyError::NotFound("Teacher not found".to_owned()))
    } else {
        Ok(rows)
    }
}

/// Classifies a fetched singleton teacher read: zero rows is NotFound.
pub fn teacher_detail_from_row(row: Option<Teacher>) -> (r: Result<Teacher, MyError>)
    ensures
        match r {
            Ok(t) => row matches Some(t0) && t == t0,
            Err(e) => row is None && e is NotFound,
        },
{
    match row {
        Some(t) => Ok(t),
        None => Err(MyError::NotFound("Teacher Id not found".to_owned())),
    }
}

/// Creates a teacher: the store appends one row under a fresh id and advances
/// its counter. The model always succeeds; at the real store any failure here
/// is a generic store error, never NotFound.
pub fn post_new_teacher_db(table: &mut TeacherTable, new_teacher: CreateTeacher) -> (r: Result<
    (),
    MyError,
>)
    requires
        old(table).wf(),
        old(table).spec_next_id() < i32::MAX,
    ensures
        final(table).wf(),
        r is Ok,
        final(table).rows_view() == old(table).rows_view().push(
            teacher_from_create(new_teacher@, old(table).spec_next_id()),
        ),
        final(table).spec_next_id() == old(table).spec_next_id() + 1,
{
    let row = Teacher {
        id: table.next_id,
        name: new_teacher.name,
        picture_url: new_teacher.picture_url,
        profile: new_teacher.profile,
    };
    table.rows.push(row);
    table.next_id = table.next_id + 1;
    proof {
        assert(table.rows_view() =~= old(table).rows_view().push(
            teacher_from_create(new_teacher@, old(table).spec_next_id()),
        ));
    }
    Ok(())
}

/// Reads all teacher rows in store order. An empty table is reported as
/// NotFound by design; callers distinguish "nothing exists yet" by this error
/// kind, never by length.
pub fn get_all_teachers_db(table: &TeacherTable) -> (r: Result<Vec<Teacher>, MyError>)
    requires
        table.wf(),
    ensures
        match r {
            Ok(v) => table.rows_view().len() > 0 && v.deep_view() == table.rows_view(),
            Err(e) => table.rows_view().len() == 0 && e is NotFound,
        },
{
    let n = table.rows.len();
    let mut out: Vec<Teacher> = Vec::new();
    let mut i: usize = 0;
    while i < n
        invariant
            n == table.rows.len(),
            i <= n,
            out.deep_view() =~= table.rows_view().take(i as int),
        decreases n - i,
    {
        let t = table.rows[i].clone();
        out.push(t);
        proof {
            assert(table.rows_view().take(i + 1 as int) =~= table.rows_view().take(i as int).push(
                table.rows_view()[i as int],
            ));
            assert(out.deep_view() =~= table.rows_view().take(i + 1 as int));
        }
        i = i + 1;
    }
    proof {
        assert(out.deep_view() =~= table.rows_view());
    }
    classify_teacher_list(out)
}

/// Reads the teacher with the given id. Ids are unique, so the returned row
/// is the one row carrying that id; zero matching rows is NotFound.
pub fn get_teacher_details_db(table: &TeacherTable, teacher_id: i32) -> (r: Result<
    Teacher,
    MyError,
>)
    requires
        table.wf(),
    ensures
        match r {
            Ok(t) => t@.id == teacher_id as int && table.rows_view().contains(t@),
            Err(e) => e is NotFound && (forall|i: int|
                0 <= i < table.rows_view().len() ==> (#[trigger] table.rows_view()[i]).id
                    != teacher_id as int),
        },
{
    match find_teacher_index(table, teacher_id) {
        Some(i) => {
            let t = table.rows[i].clone();
            proof {
                assert(table.rows_view()[i as int] == t@);
            }
            teacher_detail_from_row(Some(t))
        },
        None => teacher_detail_from_row(None),
    }
}

/// Updates the teacher with the given id by the reconciler's merge. An absent
/// row fails with NotFound before any write; on success exactly that row is
/// rewritten to the merged value and an opaque confirmation is returned.
pub fn update_teacher_details_db(
    table: &mut TeacherTable,
    teacher_id: i32,
    update_teacher: UpdateTeacher,
) -> (r: Result<String, MyError>)
    requires
        old(table).wf(),
    ensures
        final(table).wf(),
        final(table).spec_next_id() == old(table).spec_next_id(),
        match r {
            Ok(_) => exists|i: int|
                0 <= i < old(table).rows_view().len()
                    && (#[trigger] old(table).rows_view()[i]).id == teacher_id as int
                    && final(table).rows_view() == old(table).rows_view().update(
                    i,
                    merged_teacher(old(table).rows_view()[i], update_teacher@),
                ),
            Err(e) => e is NotFound && final(table).rows_view() == old(table).rows_view() && (
            forall|i: int|
                0 <= i < old(table).rows_view().len() ==> (#[trigger] old(table).rows_view()[i]).id
                    != teacher_id as int),
        },
{
    match find_teacher_index(table, teacher_id) {
        None => Err(MyError::NotFound("Teacher Id not found".to_owned())),
        Some(idx) => {
            let current = table.rows[idx].clone();
            let merged = merge_teacher_update(current, update_teacher);
            table.rows[idx] = merged;
            proof {
                let r0 = old(table).rows_view();
                let r1 = table.rows_view();
                assert(r1 =~= r0.update(
                    idx as int,
                    merged_teacher(r0[idx as int], update_teacher@),
                ));
                assert(forall|i: int| 0 <= i < r1.len() ==> r1[i].id == r0[i].id);
            }
            Ok("Updated record".to_owned())
        },
    }
}

/// Deletes by id and returns a confirmation unconditionally: zero rows
/// removed is not distinguished from one row removed at this layer.
pub fn delete_teacher_db(table: &mut TeacherTable, teacher_id: i32) -> (r: Result<String, MyError>)
    requires
        old(table).wf(),
    ensures
        final(table).wf(),
        final(table).spec_next_id() == old(table).spec_next_id(),
        r is Ok,
        (forall|i: int|
            0 <= i < old(table).rows_view().len() ==> (#[trigger] old(table).rows_view()[i]).id
                != teacher_id as int) ==> final(table).rows_view() == old(table).rows_view(),
        (exists|i: int|
            0 <= i < old(table).rows_view().len() && (#[trigger] old(table).rows_view()[i]).id
                == teacher_id as int) ==> (exists|i: int|
            0 <= i < old(table).rows_view().len() && (#[trigger] old(table).rows_view()[i]).id
                == teacher_id as int && final(table).rows_view() == old(
                table,
            ).rows_view().remove(i)),
{
    match find_teacher_index(table, teacher_id) {
        None => Ok("Deleted record".to_owned()),
        Some(idx) => {
            table.rows.remove(idx);
            proof {
                let r0 = old(table).rows_view();
                let r1 = table.rows_view();
                assert(r1 =~= r0.remove(idx as int));
                assert(forall|k: int|
                    0 <= k < r1.len() ==> r1[k] == (if k < idx as int {
                        r0[k]
                    } else {
                        r0[k + 1]
                    }));
            }
            Ok("Deleted record".to_owned())
        },
    }
}

/// Law: a create followed by a get under the store-assigned id reads back
/// exactly the submitted fields. After the append, the created row is in the
/// table, and any row carrying the fresh id is that row, so the get's
/// contract pins its result to the payload.
pub proof fn lemma_teacher_create_then_get(
    rows: Seq<TeacherView>,
    next_id: int,
    p: CreateTeacherView,
)
    requires
        wf_teacher_rows(rows, next_id),
    ensures
        ({
            let created = teacher_from_create(p, next_id);
            let rows2 = rows.push(created);
            &&& rows2.contains(created)
            &&& forall|i: int|
                0 <= i < rows2.len() && (#[trigger] rows2[i]).id == next_id ==> rows2[i] == created
        }),
{
    let created = teacher_from_create(p, next_id);
    let rows2 = rows.push(created);
    assert(rows2[rows.len() as int] == created);
    assert(rows2.contains(created));
}

/// Law: an update with an all-absent payload, applied to any stored row, is a
/// successful no-op at the store: the written row sequence equals the old
/// one. (Success itself is the update operation's contract.)
pub proof fn lemma_teacher_noop_update_keeps_rows(
    rows: Seq<TeacherView>,
    next_id: int,
    i: int,
    up: UpdateTeacherView,
)
    requires
        wf_teacher_rows(rows, next_id),
        0 <= i < rows.len(),
        teacher_update_all_absent(up),
    ensures
        rows.update(i, merged_teacher(rows[i], up)) == rows,
{
    lemma_teacher_noop_update(rows[i], up);
    assert(rows.update(i, merged_teacher(rows[i], up)) =~= rows);
}

} // verus!

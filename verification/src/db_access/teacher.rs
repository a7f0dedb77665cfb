//! Data access for teachers: list, detail, create, delete, and the
//! partial-update merge.

use vstd::prelude::*;

use crate::db_access::course::merged_field;
use crate::errors::MyError;
use crate::models::{opt_view, CreateTeacher, Teacher, TeacherView, UpdateTeacher, UpdateTeacherView};
use crate::store::{
    has_teacher, lemma_teacher_match_unique, teacher_index, teacher_matches, Store,
};

verus! {

/// The merge algorithm for teachers: the id is kept; every other column
/// takes the patch's value if present, else the stored value, with the
/// empty string standing in when the stored value is itself absent.
pub open spec fn merged_teacher(current: TeacherView, patch: UpdateTeacherView) -> TeacherView {
    TeacherView {
        id: current.id,
        name: Some(merged_field(patch.name, current.name)),
        picture_url: Some(merged_field(patch.picture_url, current.picture_url)),
        profile: Some(merged_field(patch.profile, current.profile)),
    }
}

fn merge_text(patch: Option<String>, current: &Option<String>) -> (r: String)
    ensures
        r@ == merged_field(opt_view(patch), opt_view(*current)),
{
    match patch {
        Some(v) => v,
        None => match current {
            Some(v) => v.clone(),
            None => String::new(),
        },
    }
}

/// Computes the merged row for a partial update of a teacher.
pub fn merge_teacher(current: &Teacher, patch: UpdateTeacher) -> (r: Teacher)
    ensures
        r@ == merged_teacher(current@, patch@),
{
    let r = Teacher {
        id: current.id,
        name: Some(merge_text(patch.name, &current.name)),
        picture_url: Some(merge_text(patch.picture_url, &current.picture_url)),
        profile: Some(merge_text(patch.profile, &current.profile)),
    };
    proof {
        assert(r@ =~= merged_teacher(current@, patch@));
    }
    r
}

/// Partial-update identity for teachers: a patch with every field absent
/// merges to a row equal to the current one, provided every optional
/// column of the current row is present. (A current row with an absent
/// column is the one exception: the merge writes the empty default back.)
pub proof fn lemma_merge_identity(current: TeacherView, patch: UpdateTeacherView)
    requires
        patch.name is None,
        patch.picture_url is None,
        patch.profile is None,
        current.name is Some,
        current.picture_url is Some,
        current.profile is Some,
    ensures
        merged_teacher(current, patch) == current,
{
    assert(merged_teacher(current, patch) =~= current);
}

/// Linear scan for the teacher with the given id, as the keyed SELECT
/// does.
fn find_teacher(teachers: &Vec<Teacher>, id: i32) -> (r: Option<usize>)
    ensures
        (r matches Some(i) && 0 <= i < teachers@.len() && teacher_matches(teachers@[i as int], id))
            || (r is None && !has_teacher(teachers@, id)),
{
    let mut i: usize = 0;
    while i < teachers.len()
        invariant
            i <= teachers@.len(),
            forall|j: int| 0 <= j < i ==> !#[trigger] teacher_matches(teachers@[j], id),
        decreases teachers@.len() - i,
    {
        let t = &teachers[i];
        if t.id == id {
            return Some(i);
        }
        i += 1;
    }
    None
}

/// What the list query's rows become: an empty table is reported as
/// `NotFound`, not as an empty success; anything else passes through.
pub fn teachers_list_outcome(rows: Vec<Teacher>) -> (r: Result<Vec<Teacher>, MyError>)
    ensures
        rows@.len() > 0 ==> (r matches Ok(v) && v == rows),
        rows@.len() == 0 ==> (r matches Err(e) && (e matches MyError::NotFound(m) && m@
            == "No teachers found"@)),
{
    if rows.len() == 0 {
        Err(MyError::NotFound("No teachers found".to_owned()))
    } else {
        Ok(rows)
    }
}

/// What the keyed detail query's optional row becomes: an absent row is
/// a `NotFound`.
pub fn teacher_row_outcome(row: Option<Teacher>) -> (r: Result<Teacher, MyError>)
    ensures
        row matches Some(t) ==> (r matches Ok(x) && x == t),
        row is None ==> (r matches Err(e) && (e matches MyError::NotFound(m) && m@
            == "Teacher is not found"@)),
{
    match row {
        Some(t) => Ok(t),
        None => Err(MyError::NotFound("Teacher is not found".to_owned())),
    }
}

/// Every teacher, in store order; an empty table is reported as
/// `NotFound`, not as an empty success.
pub fn get_all_teachers_db(store: &Store) -> (r: Result<Vec<Teacher>, MyError>)
    ensures
        store.teachers@.len() > 0 ==> (r matches Ok(v) && v@ == store.teachers@),
        store.teachers@.len() == 0 ==> (r matches Err(e) && (e matches MyError::NotFound(m) && m@
            == "No teachers found"@)),
{
    let mut rows: Vec<Teacher> = Vec::new();
    let mut i: usize = 0;
    while i < store.teachers.len()
        invariant
            i <= store.teachers@.len(),
            rows@ == store.teachers@.take(i as int),
        decreases store.teachers@.len() - i,
    {
        proof {
            assert(store.teachers@.take(i + 1).drop_last() =~= store.teachers@.take(i as int));
        }
        rows.push(store.teachers[i].clone());
        i += 1;
    }
    proof {
        assert(store.teachers@.take(store.teachers@.len() as int) =~= store.teachers@);
    }
    teachers_list_outcome(rows)
}

/// The teacher with the given id, or `NotFound` when no row carries it.
pub fn get_teacher_details_db(store: &Store, teacher_id: i32) -> (r: Result<Teacher, MyError>)
    requires
        store.wf(),
    ensures
        has_teacher(store.teachers@, teacher_id) ==> (r matches Ok(t) && t == store.teachers@[
        teacher_index(store.teachers@, teacher_id)]),
        !has_teacher(store.teachers@, teacher_id) ==> (r matches Err(e) && (
        e matches MyError::NotFound(m) && m@ == "Teacher is not found"@)),
{
    match find_teacher(&store.teachers, teacher_id) {
        Some(i) => {
            proof {
                lemma_teacher_match_unique(
                    store.teachers@,
                    teacher_id,
                    i as int,
                    teacher_index(store.teachers@, teacher_id),
                );
            }
            teacher_row_outcome(Some(store.teachers[i].clone()))
        },
        None => teacher_row_outcome(None),
    }
}

/// Inserts a new teacher, minting the id; every caller-supplied column
/// is stored as present. Exhaustion of the id space is the store-level
/// failure.
pub fn post_new_course_db(store: &mut Store, new_teacher: CreateTeacher) -> (r: Result<
    Teacher,
    MyError,
>)
    requires
        old(store).wf(),
    ensures
        final(store).wf(),
        final(store).courses@ == old(store).courses@,
        final(store).next_course_id == old(store).next_course_id,
        old(store).next_teacher_id < i32::MAX ==> (r matches Ok(t) && (t == Teacher {
            id: old(store).next_teacher_id,
            name: Some(new_teacher.name),
            picture_url: Some(new_teacher.picture_url),
            profile: Some(new_teacher.profile),
        }) && final(store).teachers@ == old(store).teachers@.push(t) && final(store).next_teacher_id == old(store).next_teacher_id + 1),
        old(store).next_teacher_id == i32::MAX ==> (r matches Err(e) && (
        e matches MyError::DBError(m) && m@ == "teacher id space exhausted"@) && *final(store)
            == *old(store)),
{
    if store.next_teacher_id == i32::MAX {
        return Err(MyError::DBError("teacher id space exhausted".to_owned()));
    }
    let id = store.next_teacher_id;
    store.next_teacher_id = id + 1;
    let row = Teacher {
        id,
        name: Some(new_teacher.name),
        picture_url: Some(new_teacher.picture_url),
        profile: Some(new_teacher.profile),
    };
    store.teachers.push(row.clone());
    Ok(row)
}

/// The partial update: read the current row by id, merge the patch over
/// it, and write the full merged row back; `NotFound` when the id
/// matches nothing, in which case the store is untouched.
pub fn update_teacher_details_db(
    store: &mut Store,
    teacher_id: i32,
    update_teacher: UpdateTeacher,
) -> (r: Result<Teacher, MyError>)
    requires
        old(store).wf(),
    ensures
        final(store).wf(),
        final(store).courses@ == old(store).courses@,
        final(store).next_course_id == old(store).next_course_id,
        final(store).next_teacher_id == old(store).next_teacher_id,
        !has_teacher(old(store).teachers@, teacher_id) ==> (r matches Err(e) && (
        e matches MyError::NotFound(m) && m@ == "Course id not found"@) && final(store).teachers@
            == old(store).teachers@),
        has_teacher(old(store).teachers@, teacher_id) ==> (r matches Ok(t) && t@ == merged_teacher(
            old(store).teachers@[teacher_index(old(store).teachers@, teacher_id)]@,
            update_teacher@,
        ) && final(store).teachers@ == old(store).teachers@.update(
            teacher_index(old(store).teachers@, teacher_id),
            t,
        )),
{
    match find_teacher(&store.teachers, teacher_id) {
        Some(i) => {
            proof {
                lemma_teacher_match_unique(
                    store.teachers@,
                    teacher_id,
                    i as int,
                    teacher_index(store.teachers@, teacher_id),
                );
            }
            let current = store.teachers[i].clone();
            let merged = merge_teacher(&current, update_teacher);
            let row = merged.clone();
            store.teachers[i] = merged;
            Ok(row)
        },
        None => Err(MyError::NotFound("Course id not found".to_owned())),
    }
}

/// Removes the teacher with the given id and reports how many rows were
/// affected, leaving the caller to decide what a zero-row delete means.
pub fn delete_teacher_db(store: &mut Store, teacher_id: i32) -> (r: u64)
    requires
        old(store).wf(),
    ensures
        final(store).wf(),
        final(store).courses@ == old(store).courses@,
        final(store).next_course_id == old(store).next_course_id,
        final(store).next_teacher_id == old(store).next_teacher_id,
        !has_teacher(old(store).teachers@, teacher_id) ==> r == 0 && final(store).teachers@ == old(store).teachers@,
        has_teacher(old(store).teachers@, teacher_id) ==> r == 1 && final(store).teachers@ == old(store).teachers@.remove(teacher_index(old(store).teachers@, teacher_id)),
{
    match find_teacher(&store.teachers, teacher_id) {
        Some(i) => {
            proof {
                lemma_teacher_match_unique(
                    store.teachers@,
                    teacher_id,
                    i as int,
                    teacher_index(store.teachers@, teacher_id),
                );
            }
            store.teachers.remove(i);
            1
        },
        None => 0,
    }
}

} // verus!

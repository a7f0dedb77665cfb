//! Handlers for the teacher routes, symmetric to the course routes.

use vstd::prelude::*;
use vstd::string::StringExecFns;

use crate::db_access::teacher::{
    delete_teacher_db, get_all_teachers_db, get_teacher_details_db, merged_teacher,
    post_new_course_db, update_teacher_details_db,
};
use crate::errors::MyError;
use crate::models::{CreateTeacher, Teacher, UpdateTeacher};
use crate::state::AppState;
use crate::store::{has_teacher, teacher_index};
use crate::text::{spec_decimal, u64_to_decimal};

verus! {

/// GET of every teacher; an empty table is a `NotFound`, never an empty
/// success.
pub fn get_all_teachers(app_state: &AppState) -> (r: Result<Vec<Teacher>, MyError>)
    ensures
        app_state.db.teachers@.len() > 0 ==> (r matches Ok(v) && v@ == app_state.db.teachers@),
        app_state.db.teachers@.len() == 0 ==> (r matches Err(e) && (e matches MyError::NotFound(m)
            && m@ == "No teachers found"@)),
{
    get_all_teachers_db(&app_state.db)
}

/// GET of one teacher by id.
pub fn get_teacher_details(app_state: &AppState, teacher_id: i32) -> (r: Result<Teacher, MyError>)
    requires
        app_state.db.wf(),
    ensures
        has_teacher(app_state.db.teachers@, teacher_id) ==> (r matches Ok(t) && t
            == app_state.db.teachers@[teacher_index(app_state.db.teachers@, teacher_id)]),
        !has_teacher(app_state.db.teachers@, teacher_id) ==> (r matches Err(e) && (
        e matches MyError::NotFound(m) && m@ == "Teacher is not found"@)),
{
    get_teacher_details_db(&app_state.db, teacher_id)
}

/// POST of a new teacher: inserts the body and replies with the full
/// persisted row.
pub fn post_new_teacher(app_state: &mut AppState, new_teacher: CreateTeacher) -> (r: Result<
    Teacher,
    MyError,
>)
    requires
        old(app_state).db.wf(),
    ensures
        final(app_state).db.wf(),
        final(app_state).health_check_response == old(app_state).health_check_response,
        final(app_state).visit_count == old(app_state).visit_count,
        final(app_state).db.courses@ == old(app_state).db.courses@,
        old(app_state).db.next_teacher_id < i32::MAX ==> (r matches Ok(t) && (t == Teacher {
            id: old(app_state).db.next_teacher_id,
            name: Some(new_teacher.name),
            picture_url: Some(new_teacher.picture_url),
            profile: Some(new_teacher.profile),
        }) && final(app_state).db.teachers@ == old(app_state).db.teachers@.push(t) && final(app_state).db.next_teacher_id == old(app_state).db.next_teacher_id + 1 && final(app_state).db.next_course_id == old(app_state).db.next_course_id),
        old(app_state).db.next_teacher_id == i32::MAX ==> (r matches Err(e) && e matches
            MyError::DBError(_) && final(app_state).db == old(app_state).db),
{
    post_new_course_db(&mut app_state.db, new_teacher)
}

/// PUT of a partial update: the body is merged over the current row and
/// the full merged row is written back and replied.
pub fn update_teacher_details(
    app_state: &mut AppState,
    teacher_id: i32,
    update_teacher: UpdateTeacher,
) -> (r: Result<Teacher, MyError>)
    requires
        old(app_state).db.wf(),
    ensures
        final(app_state).db.wf(),
        final(app_state).health_check_response == old(app_state).health_check_response,
        final(app_state).visit_count == old(app_state).visit_count,
        final(app_state).db.courses@ == old(app_state).db.courses@,
        final(app_state).db.next_teacher_id == old(app_state).db.next_teacher_id,
        !has_teacher(old(app_state).db.teachers@, teacher_id) ==> (r matches Err(e) && (
        e matches MyError::NotFound(m) && m@ == "Course id not found"@) && final(app_state).db.teachers@ == old(app_state).db.teachers@),
        has_teacher(old(app_state).db.teachers@, teacher_id) ==> (r matches Ok(t) && t@
            == merged_teacher(
            old(app_state).db.teachers@[teacher_index(old(app_state).db.teachers@, teacher_id)]@,
            update_teacher@,
        ) && final(app_state).db.teachers@ == old(app_state).db.teachers@.update(
            teacher_index(old(app_state).db.teachers@, teacher_id),
            t,
        )),
{
    update_teacher_details_db(&mut app_state.db, teacher_id, update_teacher)
}

/// What a delete's affected-row count becomes: zero rows is a
/// `NotFound`, anything else a report of how many rows went.
pub fn teacher_delete_outcome(affected: u64) -> (r: Result<String, MyError>)
    ensures
        affected > 0 ==> (r matches Ok(s) && s@ == "Delete "@ + spec_decimal(affected as nat)
            + " record"@),
        affected == 0 ==> (r matches Err(e) && (e matches MyError::NotFound(m) && m@
            == "Teacher is not found"@)),
{
    if affected == 0 {
        Err(MyError::NotFound("Teacher is not found".to_owned()))
    } else {
        let mut s = "Delete ".to_owned();
        s.append(u64_to_decimal(affected).as_str());
        s.append(" record");
        Ok(s)
    }
}

/// DELETE of one teacher: a one-row delete is reported, and a zero-row
/// delete is a `NotFound`.
pub fn delete_teacher(app_state: &mut AppState, teacher_id: i32) -> (r: Result<String, MyError>)
    requires
        old(app_state).db.wf(),
    ensures
        final(app_state).db.wf(),
        final(app_state).health_check_response == old(app_state).health_check_response,
        final(app_state).visit_count == old(app_state).visit_count,
        final(app_state).db.courses@ == old(app_state).db.courses@,
        final(app_state).db.next_teacher_id == old(app_state).db.next_teacher_id,
        has_teacher(old(app_state).db.teachers@, teacher_id) ==> (r matches Ok(s) && s@
            == "Delete "@ + spec_decimal(1) + " record"@ && final(app_state).db.teachers@ == old(app_state).db.teachers@.remove(teacher_index(old(app_state).db.teachers@, teacher_id))),
        !has_teacher(old(app_state).db.teachers@, teacher_id) ==> (r matches Err(e) && (
        e matches MyError::NotFound(m) && m@ == "Teacher is not found"@) && final(app_state).db.teachers@ == old(app_state).db.teachers@),
{
    let affected = delete_teacher_db(&mut app_state.db, teacher_id);
    teacher_delete_outcome(affected)
}

} // verus!

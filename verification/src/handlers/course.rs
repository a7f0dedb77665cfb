//! Handlers for the course routes. Each one calls exactly one
//! data-access operation on the shared state and performs no business
//! logic of its own; the delete route additionally decides what a
//! zero-row delete means, as the data-access layer only reports the
//! count.

use vstd::prelude::*;
use vstd::string::StringExecFns;

use crate::db_access::course::{
    delete_course_db, get_course_details_db, get_courses_for_teacher_db, merged_course,
    post_new_course_db, update_course_details_db,
};
use crate::errors::MyError;
use crate::models::{Course, CreateCourse, UpdateCourse};
use crate::state::AppState;
use crate::store::{course_index, courses_for_teacher, has_course};
use crate::text::{spec_decimal, u64_to_decimal};

verus! {

/// POST of a new course: inserts the body and replies with the full
/// persisted row.
pub fn post_new_course(app_state: &mut AppState, new_course: CreateCourse, now: i64) -> (r: Result<
    Course,
    MyError,
>)
    requires
        old(app_state).db.wf(),
    ensures
        final(app_state).db.wf(),
        final(app_state).health_check_response == old(app_state).health_check_response,
        final(app_state).visit_count == old(app_state).visit_count,
        final(app_state).db.teachers@ == old(app_state).db.teachers@,
        old(app_state).db.next_course_id < i32::MAX ==> (r matches Ok(c) && (c == Course {
            teacher_id: new_course.teacher_id,
            id: old(app_state).db.next_course_id,
            name: new_course.name,
            time: Some(now),
            description: new_course.description,
            format: new_course.format,
            structure: new_course.structure,
            duration: new_course.duration,
            price: new_course.price,
            language: new_course.language,
            level: new_course.level,
        }) && final(app_state).db.courses@ == old(app_state).db.courses@.push(c) && final(app_state).db.next_course_id == old(app_state).db.next_course_id + 1 && final(app_state).db.next_teacher_id == old(app_state).db.next_teacher_id),
        old(app_state).db.next_course_id == i32::MAX ==> (r matches Err(e) && e matches
            MyError::DBError(_) && final(app_state).db == old(app_state).db),
{
    post_new_course_db(&mut app_state.db, new_course, now)
}

/// GET of every course of one teacher; a teacher with zero courses is a
/// `NotFound`, never an empty success.
pub fn get_courses_for_teacher(app_state: &AppState, teacher_id: i32) -> (r: Result<
    Vec<Course>,
    MyError,
>)
    ensures
        courses_for_teacher(app_state.db.courses@, teacher_id).len() > 0 ==> (r matches Ok(v) && v@
            == courses_for_teacher(app_state.db.courses@, teacher_id)),
        courses_for_teacher(app_state.db.courses@, teacher_id).len() == 0 ==> (r matches Err(e)
            && (e matches MyError::NotFound(m) && m@ == "Course not found for teacher"@)),
{
    get_courses_for_teacher_db(&app_state.db, teacher_id)
}

/// GET of one course by its key pair.
pub fn get_course_detail(app_state: &AppState, teacher_id: i32, course_id: i32) -> (r: Result<
    Course,
    MyError,
>)
    requires
        app_state.db.wf(),
    ensures
        has_course(app_state.db.courses@, teacher_id, course_id) ==> (r matches Ok(c) && c
            == app_state.db.courses@[course_index(app_state.db.courses@, teacher_id, course_id)]),
        !has_course(app_state.db.courses@, teacher_id, course_id) ==> (r matches Err(e) && (
        e matches MyError::NotFound(m) && m@ == "Course Id or Teacher Id is not found"@)),
{
    get_course_details_db(&app_state.db, teacher_id, course_id)
}

/// What a delete's affected-row count becomes: zero rows is a
/// `NotFound`, anything else a report of how many rows went.
pub fn course_delete_outcome(affected: u64) -> (r: Result<String, MyError>)
    ensures
        affected > 0 ==> (r matches Ok(s) && s@ == "Delete "@ + spec_decimal(affected as nat)
            + " record"@),
        affected == 0 ==> (r matches Err(e) && (e matches MyError::NotFound(m) && m@
            == "Course Id or Teacher Id is not found"@)),
{
    if affected == 0 {
        Err(MyError::NotFound("Course Id or Teacher Id is not found".to_owned()))
    } else {
        let mut s = "Delete ".to_owned();
        s.append(u64_to_decimal(affected).as_str());
        s.append(" record");
        Ok(s)
    }
}

/// DELETE of one course: a one-row delete is reported, and a zero-row
/// delete is a `NotFound`.
pub fn delete_course(app_state: &mut AppState, teacher_id: i32, course_id: i32) -> (r: Result<
    String,
    MyError,
>)
    requires
        old(app_state).db.wf(),
    ensures
        final(app_state).db.wf(),
        final(app_state).health_check_response == old(app_state).health_check_response,
        final(app_state).visit_count == old(app_state).visit_count,
        final(app_state).db.teachers@ == old(app_state).db.teachers@,
        final(app_state).db.next_course_id == old(app_state).db.next_course_id,
        has_course(old(app_state).db.courses@, teacher_id, course_id) ==> (r matches Ok(s) && s@
            == "Delete "@ + spec_decimal(1) + " record"@ && final(app_state).db.courses@ == old(app_state).db.courses@.remove(
            course_index(old(app_state).db.courses@, teacher_id, course_id),
        )),
        !has_course(old(app_state).db.courses@, teacher_id, course_id) ==> (r matches Err(e) && (
        e matches MyError::NotFound(m) && m@ == "Course Id or Teacher Id is not found"@) && final(app_state).db.courses@ == old(app_state).db.courses@),
{
    let affected = delete_course_db(&mut app_state.db, teacher_id, course_id);
    course_delete_outcome(affected)
}

/// PUT of a partial update: the body is merged over the current row and
/// the full merged row is written back and replied.
pub fn update_course_details(
    app_state: &mut AppState,
    teacher_id: i32,
    course_id: i32,
    update_course: UpdateCourse,
) -> (r: Result<Course, MyError>)
    requires
        old(app_state).db.wf(),
    ensures
        final(app_state).db.wf(),
        final(app_state).health_check_response == old(app_state).health_check_response,
        final(app_state).visit_count == old(app_state).visit_count,
        final(app_state).db.teachers@ == old(app_state).db.teachers@,
        final(app_state).db.next_course_id == old(app_state).db.next_course_id,
        !has_course(old(app_state).db.courses@, teacher_id, course_id) ==> (r matches Err(e) && (
        e matches MyError::NotFound(m) && m@ == "Course id not found"@) && final(app_state).db.courses@ == old(app_state).db.courses@),
        has_course(old(app_state).db.courses@, teacher_id, course_id) ==> (r matches Ok(c) && c@
            == merged_course(
            old(app_state).db.courses@[course_index(
                old(app_state).db.courses@,
                teacher_id,
                course_id,
            )]@,
            update_course@,
        ) && final(app_state).db.courses@ == old(app_state).db.courses@.update(
            course_index(old(app_state).db.courses@, teacher_id, course_id),
            c,
        )),
{
    update_course_details_db(&mut app_state.db, teacher_id, course_id, update_course)
}

} // verus!

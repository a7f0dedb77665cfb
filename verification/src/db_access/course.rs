//! Data access for courses: list, detail, create, delete, and the
//! partial-update merge algorithm.

use vstd::prelude::*;

use crate::errors::MyError;
use crate::models::{opt_view, Course, CourseView, CreateCourse, UpdateCourse, UpdateCourseView};
use crate::store::{
    course_index, course_matches, courses_for_teacher, has_course, lemma_course_match_unique, Store,
};

verus! {

/// The merged value of one optional text column: the patch's value if
/// present, else the stored value, else the empty default.
pub open spec fn merged_field(patch: Option<Seq<char>>, current: Option<Seq<char>>) -> Seq<char> {
    match patch {
        Some(v) => v,
        None => match current {
            Some(v) => v,
            None => Seq::empty(),
        },
    }
}

/// The merged value of the numeric price column, with zero as the empty
/// default.
pub open spec fn merged_price(patch: Option<i32>, current: Option<i32>) -> i32 {
    match patch {
        Some(v) => v,
        None => match current {
            Some(v) => v,
            None => 0,
        },
    }
}

/// The merge algorithm: identity and timestamp are kept; every mutable
/// column takes the patch's value if present, else the stored value
/// (with a type-appropriate empty default when the stored value is
/// itself absent). The merged row carries every mutable column
/// explicitly, as the full-row write demands.
pub open spec fn merged_course(current: CourseView, patch: UpdateCourseView) -> CourseView {
    CourseView {
        teacher_id: current.teacher_id,
        id: current.id,
        time: current.time,
        name: match patch.name {
            Some(v) => v,
            None => current.name,
        },
        description: Some(merged_field(patch.description, current.description)),
        format: Some(merged_field(patch.format, current.format)),
        structure: Some(merged_field(patch.structure, current.structure)),
        duration: Some(merged_field(patch.duration, current.duration)),
        price: Some(merged_price(patch.price, current.price)),
        language: Some(merged_field(patch.language, current.language)),
        level: Some(merged_field(patch.level, current.level)),
    }
}

fn merge_text(patch: Option<String>, current: &Option<String>) -> (r: String)
    ensures
        r@ == merged_field(opt_view(patch), opt_view(*current)),
{
    match patch {
        Some(v) => v,
        None => match current {
            Some(v) => v.clone(),
            None => String::new(),
        },
    }
}

/// Computes the merged row for a partial update of a course.
pub fn merge_course(current: &Course, patch: UpdateCourse) -> (r: Course)
    ensures
        r@ == merged_course(current@, patch@),
{
    let name = match patch.name {
        Some(v) => v,
        None => current.name.clone(),
    };
    let r = Course {
        teacher_id: current.teacher_id,
        id: current.id,
        name,
        time: current.time,
        description: Some(merge_text(patch.description, &current.description)),
        format: Some(merge_text(patch.format, &current.format)),
        structure: Some(merge_text(patch.structure, &current.structure)),
        duration: Some(merge_text(patch.duration, &current.duration)),
        price: Some(match patch.price {
            Some(v) => v,
            None => match current.price {
                Some(v) => v,
                None => 0,
            },
        }),
        language: Some(merge_text(patch.language, &current.language)),
        level: Some(merge_text(patch.level, &current.level)),
    };
    proof {
        assert(r@ =~= merged_course(current@, patch@));
    }
    r
}

/// Partial-update identity: a patch with every field absent merges to a
/// row equal to the current one, provided every optional column of the
/// current row is present. (A current row with an absent column is the
/// one exception: the merge writes that column's empty default back.)
pub proof fn lemma_merge_identity(current: CourseView, patch: UpdateCourseView)
    requires
        patch.name is None,
        patch.description is None,
        patch.format is None,
        patch.structure is None,
        patch.duration is None,
        patch.price is None,
        patch.language is None,
        patch.level is None,
        current.description is Some,
        current.format is Some,
        current.structure is Some,
        current.duration is Some,
        current.price is Some,
        current.language is Some,
        current.level is Some,
    ensures
        merged_course(current, patch) == current,
{
    assert(merged_course(current, patch) =~= current);
}

/// Partial-update selectivity: a patch carrying only a price changes the
/// price to the patch's value and leaves every other column of the
/// current row unchanged, provided the other optional columns of the
/// current row are present (an absent one would be replaced by its empty
/// default).
pub proof fn lemma_merge_selectivity(current: CourseView, patch: UpdateCourseView)
    requires
        patch.price is Some,
        patch.name is None,
        patch.description is None,
        patch.format is None,
        patch.structure is None,
        patch.duration is None,
        patch.language is None,
        patch.level is None,
        current.description is Some,
        current.format is Some,
        current.structure is Some,
        current.duration is Some,
        current.language is Some,
        current.level is Some,
    ensures
        merged_course(current, patch).price == patch.price,
        merged_course(current, patch).teacher_id == current.teacher_id,
        merged_course(current, patch).id == current.id,
        merged_course(current, patch).time == current.time,
        merged_course(current, patch).name == current.name,
        merged_course(current, patch).description == current.description,
        merged_course(current, patch).format == current.format,
        merged_course(current, patch).structure == current.structure,
        merged_course(current, patch).duration == current.duration,
        merged_course(current, patch).language == current.language,
        merged_course(current, patch).level == current.level,
{
}

/// Round-trip: after a successful create (whose effect on the store is
/// exactly the hypotheses below), the created row is present under the
/// caller's teacher id and the assigned id, it is the unique row a keyed
/// get finds, and it carries every caller-supplied field unchanged, with
/// id and timestamp populated by the store.
pub proof fn lemma_create_then_get(
    pre: Store,
    post: Store,
    new_course: CreateCourse,
    now: i64,
    c: Course,
)
    requires
        pre.wf(),
        pre.next_course_id < i32::MAX,
        c == (Course {
            teacher_id: new_course.teacher_id,
            id: pre.next_course_id,
            name: new_course.name,
            time: Some(now),
            description: new_course.description,
            format: new_course.format,
            structure: new_course.structure,
            duration: new_course.duration,
            price: new_course.price,
            language: new_course.language,
            level: new_course.level,
        }),
        post.courses@ == pre.courses@.push(c),
        post.next_course_id == pre.next_course_id + 1,
        post.teachers@ == pre.teachers@,
        post.next_teacher_id == pre.next_teacher_id,
    ensures
        post.wf(),
        has_course(post.courses@, new_course.teacher_id, c.id),
        course_index(post.courses@, new_course.teacher_id, c.id) == post.courses@.len() - 1,
        post.courses@[course_index(post.courses@, new_course.teacher_id, c.id)] == c,
        c.teacher_id == new_course.teacher_id,
        c.name == new_course.name,
        c.description == new_course.description,
        c.format == new_course.format,
        c.structure == new_course.structure,
        c.duration == new_course.duration,
        c.price == new_course.price,
        c.language == new_course.language,
        c.level == new_course.level,
        c.id == pre.next_course_id,
        c.time == Some(now),
{
    let s = post.courses@;
    let n = s.len() - 1;
    assert(course_matches(s[n], new_course.teacher_id, c.id));
    assert forall|a: int, b: int| 0 <= a < b < s.len() implies #[trigger] s[a].id != #[trigger] s[b].id by {
        if b < n {
            assert(pre.courses@[a].id != pre.courses@[b].id);
        } else {
            assert(pre.courses@[a].id < pre.next_course_id);
        }
    }
    let k = course_index(s, new_course.teacher_id, c.id);
    lemma_course_match_unique(s, new_course.teacher_id, c.id, n, k);
}

/// Linear scan for the row with the given keys, as the keyed SELECT does.
fn find_course(courses: &Vec<Course>, teacher_id: i32, id: i32) -> (r: Option<usize>)
    ensures
        (r matches Some(i) && 0 <= i < courses@.len() && course_matches(
            courses@[i as int],
            teacher_id,
            id,
        )) || (r is None && !has_course(courses@, teacher_id, id)),
{
    let mut i: usize = 0;
    while i < courses.len()
        invariant
            i <= courses@.len(),
            forall|j: int| 0 <= j < i ==> !#[trigger] course_matches(courses@[j], teacher_id, id),
        decreases courses@.len() - i,
    {
        let c = &courses[i];
        if c.teacher_id == teacher_id && c.id == id {
            return Some(i);
        }
        i += 1;
    }
    None
}

/// What the list query's rows become: an empty result is reported as
/// `NotFound`, not as an empty success; anything else passes through.
pub fn courses_list_outcome(rows: Vec<Course>) -> (r: Result<Vec<Course>, MyError>)
    ensures
        rows@.len() > 0 ==> (r matches Ok(v) && v == rows),
        rows@.len() == 0 ==> (r matches Err(e) && (e matches MyError::NotFound(m) && m@
            == "Course not found for teacher"@)),
{
    if rows.len() == 0 {
        Err(MyError::NotFound("Course not found for teacher".to_owned()))
    } else {
        Ok(rows)
    }
}

/// What the keyed detail query's optional row becomes: an absent row is
/// a `NotFound`.
pub fn course_row_outcome(row: Option<Course>) -> (r: Result<Course, MyError>)
    ensures
        row matches Some(c) ==> (r matches Ok(x) && x == c),
        row is None ==> (r matches Err(e) && (e matches MyError::NotFound(m) && m@
            == "Course Id or Teacher Id is not found"@)),
{
    match row {
        Some(c) => Ok(c),
        None => Err(MyError::NotFound("Course Id or Teacher Id is not found".to_owned())),
    }
}

/// All courses of one teacher, in store order; an empty result is
/// reported as `NotFound`, not as an empty success.
pub fn get_courses_for_teacher_db(store: &Store, teacher_id: i32) -> (r: Result<
    Vec<Course>,
    MyError,
>)
    ensures
        courses_for_teacher(store.courses@, teacher_id).len() > 0 ==> (r matches Ok(v) && v@
            == courses_for_teacher(store.courses@, teacher_id)),
        courses_for_teacher(store.courses@, teacher_id).len() == 0 ==> (r matches Err(e) && (
        e matches MyError::NotFound(m) && m@ == "Course not found for teacher"@)),
{
    let ghost all = store.courses@;
    let mut rows: Vec<Course> = Vec::new();
    let mut i: usize = 0;
    while i < store.courses.len()
        invariant
            all == store.courses@,
            i <= all.len(),
            rows@ == courses_for_teacher(all.take(i as int), teacher_id),
        decreases all.len() - i,
    {
        proof {
            assert(all.take(i + 1).drop_last() =~= all.take(i as int));
            assert(all.take(i + 1).last() == all[i as int]);
        }
        let c = &store.courses[i];
        if c.teacher_id == teacher_id {
            rows.push(c.clone());
        }
        i += 1;
    }
    proof {
        assert(all.take(all.len() as int) =~= all);
    }
    courses_list_outcome(rows)
}

/// The single course with the given keys, or `NotFound` when no row
/// carries both.
pub fn get_course_details_db(store: &Store, teacher_id: i32, id: i32) -> (r: Result<
    Course,
    MyError,
>)
    requires
        store.wf(),
    ensures
        has_course(store.courses@, teacher_id, id) ==> (r matches Ok(c) && c == store.courses@[
        course_index(store.courses@, teacher_id, id)]),
        !has_course(store.courses@, teacher_id, id) ==> (r matches Err(e) && (
        e matches MyError::NotFound(m) && m@ == "Course Id or Teacher Id is not found"@)),
{
    match find_course(&store.courses, teacher_id, id) {
        Some(i) => {
            proof {
                lemma_course_match_unique(
                    store.courses@,
                    teacher_id,
                    id,
                    i as int,
                    course_index(store.courses@, teacher_id, id),
                );
            }
            course_row_outcome(Some(store.courses[i].clone()))
        },
        None => course_row_outcome(None),
    }
}

/// Inserts a new course, minting the id and stamping the creation time;
/// the full persisted row is returned. Exhaustion of the id space is the
/// store-level failure.
pub fn post_new_course_db(store: &mut Store, new_course: CreateCourse, now: i64) -> (r: Result<
    Course,
    MyError,
>)
    requires
        old(store).wf(),
    ensures
        final(store).wf(),
        final(store).teachers@ == old(store).teachers@,
        final(store).next_teacher_id == old(store).next_teacher_id,
        old(store).next_course_id < i32::MAX ==> (r matches Ok(c) && (c == Course {
            teacher_id: new_course.teacher_id,
            id: old(store).next_course_id,
            name: new_course.name,
            time: Some(now),
            description: new_course.description,
            format: new_course.format,
            structure: new_course.structure,
            duration: new_course.duration,
            price: new_course.price,
            language: new_course.language,
            level: new_course.level,
        }) && final(store).courses@ == old(store).courses@.push(c) && final(store).next_course_id
            == old(store).next_course_id + 1),
        old(store).next_course_id == i32::MAX ==> (r matches Err(e) && (
        e matches MyError::DBError(m) && m@ == "course id space exhausted"@) && *final(store)
            == *old(store)),
{
    if store.next_course_id == i32::MAX {
        return Err(MyError::DBError("course id space exhausted".to_owned()));
    }
    let id = store.next_course_id;
    store.next_course_id = id + 1;
    let row = Course {
        teacher_id: new_course.teacher_id,
        id,
        name: new_course.name,
        time: Some(now),
        description: new_course.description,
        format: new_course.format,
        structure: new_course.structure,
        duration: new_course.duration,
        price: new_course.price,
        language: new_course.language,
        level: new_course.level,
    };
    store.courses.push(row.clone());
    Ok(row)
}

/// Removes the row with the given keys and reports how many rows were
/// affected, leaving the caller to decide what a zero-row delete means.
pub fn delete_course_db(store: &mut Store, teacher_id: i32, id: i32) -> (r: u64)
    requires
        old(store).wf(),
    ensures
        final(store).wf(),
        final(store).teachers@ == old(store).teachers@,
        final(store).next_course_id == old(store).next_course_id,
        final(store).next_teacher_id == old(store).next_teacher_id,
        !has_course(old(store).courses@, teacher_id, id) ==> r == 0 && final(store).courses@ == old(store).courses@,
        has_course(old(store).courses@, teacher_id, id) ==> r == 1 && final(store).courses@ == old(store).courses@.remove(course_index(old(store).courses@, teacher_id, id)),
{
    match find_course(&store.courses, teacher_id, id) {
        Some(i) => {
            proof {
                lemma_course_match_unique(
                    store.courses@,
                    teacher_id,
                    id,
                    i as int,
                    course_index(store.courses@, teacher_id, id),
                );
            }
            store.courses.remove(i);
            1
        },
        None => 0,
    }
}

/// The partial update: read the current row by its keys, merge the patch
/// over it, and write the full merged row back; `NotFound` when the keys
/// match nothing, in which case the store is untouched.
pub fn update_course_details_db(
    store: &mut Store,
    teacher_id: i32,
    id: i32,
    update_course: UpdateCourse,
) -> (r: Result<Course, MyError>)
    requires
        old(store).wf(),
    ensures
        final(store).wf(),
        final(store).teachers@ == old(store).teachers@,
        final(store).next_course_id == old(store).next_course_id,
        final(store).next_teacher_id == old(store).next_teacher_id,
        !has_course(old(store).courses@, teacher_id, id) ==> (r matches Err(e) && (
        e matches MyError::NotFound(m) && m@ == "Course id not found"@) && final(store).courses@
            == old(store).courses@),
        has_course(old(store).courses@, teacher_id, id) ==> (r matches Ok(c) && c@
            == merged_course(
            old(store).courses@[course_index(old(store).courses@, teacher_id, id)]@,
            update_course@,
        ) && final(store).courses@ == old(store).courses@.update(
            course_index(old(store).courses@, teacher_id, id),
            c,
        )),
{
    match find_course(&store.courses, teacher_id, id) {
        Some(i) => {
            proof {
                lemma_course_match_unique(
                    store.courses@,
                    teacher_id,
                    id,
                    i as int,
                    course_index(store.courses@, teacher_id, id),
                );
            }
            let current = store.courses[i].clone();
            let merged = merge_course(&current, update_course);
            let row = merged.clone();
            store.courses[i] = merged;
            Ok(row)
        },
        None => Err(MyError::NotFound("Course id not found".to_owned())),
    }
}

} // verus!

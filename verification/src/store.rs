//! An exact model of the relational store behind the data-access layer:
//! the two tables, the store-generated primary keys, and the lookup
//! notions the data-access contracts are written in.
//!
//! Rows live in insertion order, as the store returns them when no
//! ordering is requested. Primary keys are handed out from a counter, so
//! a well-formed store never holds two rows with the same id and a fresh
//! id never collides with an existing row.

use vstd::prelude::*;

use crate::models::Course;
use crate::models::Teacher;

verus! {

/// The relational store: one courses table, one teachers table, and the
/// id counter of each.
pub struct Store {
    pub courses: Vec<Course>,
    pub teachers: Vec<Teacher>,
    pub next_course_id: i32,
    pub next_teacher_id: i32,
}

/// Whether a course row carries the given pair of keys.
pub open spec fn course_matches(c: Course, teacher_id: i32, id: i32) -> bool {
    c.teacher_id == teacher_id && c.id == id
}

/// Whether some row carries the given pair of keys.
pub open spec fn has_course(s: Seq<Course>, teacher_id: i32, id: i32) -> bool {
    exists|i: int| 0 <= i < s.len() && #[trigger] course_matches(s[i], teacher_id, id)
}

/// The position of the row with the given keys (meaningful only when
/// `has_course` holds; unique in a well-formed store).
pub open spec fn course_index(s: Seq<Course>, teacher_id: i32, id: i32) -> int {
    choose|i: int| 0 <= i < s.len() && #[trigger] course_matches(s[i], teacher_id, id)
}

/// Whether a teacher row carries the given id.
pub open spec fn teacher_matches(t: Teacher, id: i32) -> bool {
    t.id == id
}

/// Whether some teacher row carries the given id.
pub open spec fn has_teacher(s: Seq<Teacher>, id: i32) -> bool {
    exists|i: int| 0 <= i < s.len() && #[trigger] teacher_matches(s[i], id)
}

/// The position of the teacher row with the given id.
pub open spec fn teacher_index(s: Seq<Teacher>, id: i32) -> int {
    choose|i: int| 0 <= i < s.len() && #[trigger] teacher_matches(s[i], id)
}

/// The courses of one teacher, in store order.
pub open spec fn courses_for_teacher(s: Seq<Course>, teacher_id: i32) -> Seq<Course>
    decreases s.len(),
{
    if s.len() == 0 {
        Seq::empty()
    } else {
        let rest = courses_for_teacher(s.drop_last(), teacher_id);
        if s.last().teacher_id == teacher_id {
            rest.push(s.last())
        } else {
            rest
        }
    }
}

/// The empty-list policy's boundary, made precise: a teacher's course
/// list is empty exactly when no row of the table carries their id.
pub proof fn lemma_courses_for_teacher_empty(s: Seq<Course>, teacher_id: i32)
    ensures
        courses_for_teacher(s, teacher_id).len() == 0 <==> (forall|i: int|
            0 <= i < s.len() ==> #[trigger] s[i].teacher_id != teacher_id),
    decreases s.len(),
{
    if s.len() > 0 {
        lemma_courses_for_teacher_empty(s.drop_last(), teacher_id);
        assert(forall|i: int|
            0 <= i < s.len() - 1 ==> #[trigger] s[i].teacher_id == s.drop_last()[i].teacher_id);
    }
}

impl Store {
    /// Well-formedness: ids are pairwise distinct and below the counter
    /// that will mint the next one.
    pub open spec fn wf(self) -> bool {
        &&& forall|i: int, j: int|
            0 <= i < j < self.courses@.len() ==> #[trigger] self.courses@[i].id != #[trigger] self.courses@[j].id
        &&& forall|i: int| 0 <= i < self.courses@.len() ==> #[trigger] self.courses@[i].id < self.next_course_id
        &&& forall|i: int, j: int|
            0 <= i < j < self.teachers@.len() ==> #[trigger] self.teachers@[i].id != #[trigger] self.teachers@[j].id
        &&& forall|i: int| 0 <= i < self.teachers@.len() ==> #[trigger] self.teachers@[i].id < self.next_teacher_id
        &&& 1 <= self.next_course_id
        &&& 1 <= self.next_teacher_id
    }

    /// A fresh, empty store, with both id counters at the store's first
    /// serial value.
    pub fn new() -> (s: Store)
        ensures
            s.wf(),
            s.courses@.len() == 0,
            s.teachers@.len() == 0,
            s.next_course_id == 1,
            s.next_teacher_id == 1,
    {
        Store { courses: Vec::new(), teachers: Vec::new(), next_course_id: 1, next_teacher_id: 1 }
    }
}

/// In a store whose course ids are pairwise distinct, at most one row can
/// carry a given key pair.
pub proof fn lemma_course_match_unique(s: Seq<Course>, teacher_id: i32, id: i32, i: int, j: int)
    requires
        forall|a: int, b: int| 0 <= a < b < s.len() ==> #[trigger] s[a].id != #[trigger] s[b].id,
        0 <= i < s.len(),
        course_matches(s[i], teacher_id, id),
        0 <= j < s.len(),
        course_matches(s[j], teacher_id, id),
    ensures
        i == j,
{
    if i < j {
        assert(s[i].id != s[j].id);
    } else if j < i {
        assert(s[j].id != s[i].id);
    }
}

/// In a store whose teacher ids are pairwise distinct, at most one row
/// can carry a given id.
pub proof fn lemma_teacher_match_unique(s: Seq<Teacher>, id: i32, i: int, j: int)
    requires
        forall|a: int, b: int| 0 <= a < b < s.len() ==> #[trigger] s[a].id != #[trigger] s[b].id,
        0 <= i < s.len(),
        teacher_matches(s[i], id),
        0 <= j < s.len(),
        teacher_matches(s[j], id),
    ensures
        i == j,
{
    if i < j {
        assert(s[i].id != s[j].id);
    } else if j < i {
        assert(s[j].id != s[i].id);
    }
}

} // verus!

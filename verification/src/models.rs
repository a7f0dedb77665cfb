//! Domain entities and the request DTOs that create or patch them.
//!
//! `Course` and `Teacher` are the persisted shapes; the `Create*` DTOs
//! carry the caller-supplied fields of a new row, and the `Update*` DTOs
//! carry a patch in which `None` means "leave the stored value unchanged".
//! Each type has a mathematical view so contracts can speak about string
//! contents rather than `String` values.

use vstd::prelude::*;

verus! {

/// A persisted course row. `id` and `time` are assigned by the store on
/// creation; `teacher_id` is fixed at creation. The timestamp is carried
/// as whole seconds since the Unix epoch.
#[derive(Debug)]
pub struct Course {
    pub teacher_id: i32,
    pub id: i32,
    pub name: String,
    pub time: Option<i64>,
    pub description: Option<String>,
    pub format: Option<String>,
    pub structure: Option<String>,
    pub duration: Option<String>,
    pub price: Option<i32>,
    pub language: Option<String>,
    pub level: Option<String>,
}

/// Mathematical image of a `Course`: strings as character sequences.
#[verifier::ext_equal]
pub struct CourseView {
    pub teacher_id: i32,
    pub id: i32,
    pub name: Seq<char>,
    pub time: Option<i64>,
    pub description: Option<Seq<char>>,
    pub format: Option<Seq<char>>,
    pub structure: Option<Seq<char>>,
    pub duration: Option<Seq<char>>,
    pub price: Option<i32>,
    pub language: Option<Seq<char>>,
    pub level: Option<Seq<char>>,
}

/// View of an optional string: the contents, if present.
pub open spec fn opt_view(o: Option<String>) -> Option<Seq<char>> {
    match o {
        Some(s) => Some(s@),
        None => None,
    }
}

impl View for Course {
    type V = CourseView;

    open spec fn view(&self) -> CourseView {
        CourseView {
            teacher_id: self.teacher_id,
            id: self.id,
            name: self.name@,
            time: self.time,
            description: opt_view(self.description),
            format: opt_view(self.format),
            structure: opt_view(self.structure),
            duration: opt_view(self.duration),
            price: self.price,
            language: opt_view(self.language),
            level: opt_view(self.level),
        }
    }
}

/// Clones an optional string, preserving the value exactly.
pub fn clone_opt_string(o: &Option<String>) -> (r: Option<String>)
    ensures
        r == o,
{
    match o {
        Some(s) => Some(s.clone()),
        None => None,
    }
}

impl Clone for Course {
    fn clone(&self) -> (r: Self)
        ensures
            r == *self,
    {
        Course {
            teacher_id: self.teacher_id,
            id: self.id,
            name: self.name.clone(),
            time: self.time,
            description: clone_opt_string(&self.description),
            format: clone_opt_string(&self.format),
            structure: clone_opt_string(&self.structure),
            duration: clone_opt_string(&self.duration),
            price: self.price,
            language: clone_opt_string(&self.language),
            level: clone_opt_string(&self.level),
        }
    }
}

/// Caller-supplied fields of a new course. `id` and `time` are left to
/// the store.
#[derive(Debug)]
pub struct CreateCourse {
    pub teacher_id: i32,
    pub name: String,
    pub description: Option<String>,
    pub format: Option<String>,
    pub structure: Option<String>,
    pub duration: Option<String>,
    pub price: Option<i32>,
    pub language: Option<String>,
    pub level: Option<String>,
}

impl Clone for CreateCourse {
    fn clone(&self) -> (r: Self)
        ensures
            r == *self,
    {
        CreateCourse {
            teacher_id: self.teacher_id,
            name: self.name.clone(),
            description: clone_opt_string(&self.description),
            format: clone_opt_string(&self.format),
            structure: clone_opt_string(&self.structure),
            duration: clone_opt_string(&self.duration),
            price: self.price,
            language: clone_opt_string(&self.language),
            level: clone_opt_string(&self.level),
        }
    }
}

/// A partial update of a course. A `None` field asks for the stored
/// value to be kept; identity and timestamp cannot be patched at all.
#[derive(Debug)]
pub struct UpdateCourse {
    pub name: Option<String>,
    pub description: Option<String>,
    pub format: Option<String>,
    pub structure: Option<String>,
    pub duration: Option<String>,
    pub price: Option<i32>,
    pub language: Option<String>,
    pub level: Option<String>,
}

/// Mathematical image of an `UpdateCourse`.
#[verifier::ext_equal]
pub struct UpdateCourseView {
    pub name: Option<Seq<char>>,
    pub description: Option<Seq<char>>,
    pub format: Option<Seq<char>>,
    pub structure: Option<Seq<char>>,
    pub duration: Option<Seq<char>>,
    pub price: Option<i32>,
    pub language: Option<Seq<char>>,
    pub level: Option<Seq<char>>,
}

impl View for UpdateCourse {
    type V = UpdateCourseView;

    open spec fn view(&self) -> UpdateCourseView {
        UpdateCourseView {
            name: opt_view(self.name),
            description: opt_view(self.description),
            format: opt_view(self.format),
            structure: opt_view(self.structure),
            duration: opt_view(self.duration),
            price: self.price,
            language: opt_view(self.language),
            level: opt_view(self.level),
        }
    }
}

impl Clone for UpdateCourse {
    fn clone(&self) -> (r: Self)
        ensures
            r == *self,
    {
        UpdateCourse {
            name: clone_opt_string(&self.name),
            description: clone_opt_string(&self.description),
            format: clone_opt_string(&self.format),
            structure: clone_opt_string(&self.structure),
            duration: clone_opt_string(&self.duration),
            price: self.price,
            language: clone_opt_string(&self.language),
            level: clone_opt_string(&self.level),
        }
    }
}

/// A persisted teacher row. `id` is assigned by the store on creation.
#[derive(Debug)]
pub struct Teacher {
    pub id: i32,
    pub name: Option<String>,
    pub picture_url: Option<String>,
    pub profile: Option<String>,
}

/// Mathematical image of a `Teacher`.
#[verifier::ext_equal]
pub struct TeacherView {
    pub id: i32,
    pub name: Option<Seq<char>>,
    pub picture_url: Option<Seq<char>>,
    pub profile: Option<Seq<char>>,
}

impl View for Teacher {
    type V = TeacherView;

    open spec fn view(&self) -> TeacherView {
        TeacherView {
            id: self.id,
            name: opt_view(self.name),
            picture_url: opt_view(self.picture_url),
            profile: opt_view(self.profile),
        }
    }
}

impl Clone for Teacher {
    fn clone(&self) -> (r: Self)
        ensures
            r == *self,
    {
        Teacher {
            id: self.id,
            name: clone_opt_string(&self.name),
            picture_url: clone_opt_string(&self.picture_url),
            profile: clone_opt_string(&self.profile),
        }
    }
}

/// Caller-supplied fields of a new teacher; all are required.
#[derive(Debug)]
pub struct CreateTeacher {
    pub name: String,
    pub picture_url: String,
    pub profile: String,
}

impl Clone for CreateTeacher {
    fn clone(&self) -> (r: Self)
        ensures
            r == *self,
    {
        CreateTeacher {
            name: self.name.clone(),
            picture_url: self.picture_url.clone(),
            profile: self.profile.clone(),
        }
    }
}

/// A partial update of a teacher; `None` keeps the stored value.
#[derive(Debug)]
pub struct UpdateTeacher {
    pub name: Option<String>,
    pub picture_url: Option<String>,
    pub profile: Option<String>,
}

/// Mathematical image of an `UpdateTeacher`.
#[verifier::ext_equal]
pub struct UpdateTeacherView {
    pub name: Option<Seq<char>>,
    pub picture_url: Option<Seq<char>>,
    pub profile: Option<Seq<char>>,
}

impl View for UpdateTeacher {
    type V = UpdateTeacherView;

    open spec fn view(&self) -> UpdateTeacherView {
        UpdateTeacherView {
            name: opt_view(self.name),
            picture_url: opt_view(self.picture_url),
            profile: opt_view(self.profile),
        }
    }
}

impl Clone for UpdateTeacher {
    fn clone(&self) -> (r: Self)
        ensures
            r == *self,
    {
        UpdateTeacher {
            name: clone_opt_string(&self.name),
            picture_url: clone_opt_string(&self.picture_url),
            profile: clone_opt_string(&self.profile),
        }
    }
}

} // verus!

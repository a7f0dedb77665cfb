//! Course routes against a fresh store: creation, listing, detail,
//! update, delete, and the not-found boundaries.

use webservice::errors::MyError;
use webservice::handlers::course::{
    delete_course, get_course_detail, get_courses_for_teacher, post_new_course,
    update_course_details,
};
use webservice::models::{CreateCourse, UpdateCourse};
use webservice::state::AppState;

fn fresh_state() -> AppState {
    AppState::new("I'm OK.".to_string())
}

fn course_dto(teacher_id: i32, name: &str) -> CreateCourse {
    CreateCourse {
        teacher_id,
        name: name.to_string(),
        description: Some("This is a course".to_string()),
        format: None,
        structure: None,
        duration: None,
        price: None,
        language: Some("English".to_string()),
        level: Some("Beginner".to_string()),
    }
}

fn absent_patch() -> UpdateCourse {
    UpdateCourse {
        name: None,
        description: None,
        format: None,
        structure: None,
        duration: None,
        price: None,
        language: None,
        level: None,
    }
}

#[test]
fn post_course_test() {
    let mut state = fresh_state();
    let res = post_new_course(&mut state, course_dto(1, "Test Course"), 1_650_000_000);
    let course = res.expect("create should succeed");
    assert_eq!(course.teacher_id, 1);
    assert_eq!(course.id, 1);
    assert_eq!(course.name, "Test Course");
    assert_eq!(course.time, Some(1_650_000_000));
    assert_eq!(course.description.as_deref(), Some("This is a course"));
    assert_eq!(course.language.as_deref(), Some("English"));
    assert_eq!(course.level.as_deref(), Some("Beginner"));
    assert_eq!(course.price, None);
}

#[test]
fn get_all_courses_success() {
    let mut state = fresh_state();
    post_new_course(&mut state, course_dto(1, "First"), 10).unwrap();
    post_new_course(&mut state, course_dto(1, "Second"), 20).unwrap();
    post_new_course(&mut state, course_dto(2, "Other teacher"), 30).unwrap();
    let courses = get_courses_for_teacher(&state, 1).expect("listing should succeed");
    assert_eq!(courses.len(), 2);
    assert_eq!(courses[0].name, "First");
    assert_eq!(courses[1].name, "Second");
}

#[test]
fn get_one_course_success() {
    let mut state = fresh_state();
    post_new_course(&mut state, course_dto(1, "Only"), 10).unwrap();
    let course = get_course_detail(&state, 1, 1).expect("detail should succeed");
    assert_eq!(course.id, 1);
    assert_eq!(course.name, "Only");
}

#[test]
fn get_one_course_failure() {
    let mut state = fresh_state();
    post_new_course(&mut state, course_dto(1, "Only"), 10).unwrap();
    let err = get_course_detail(&state, 1, 100).expect_err("missing id must fail");
    assert_eq!(err.status_code(), 404);
    assert!(matches!(err, MyError::NotFound(_)));
}

#[test]
fn update_course_success() {
    let mut state = fresh_state();
    post_new_course(&mut state, course_dto(1, "First"), 10).unwrap();
    post_new_course(&mut state, course_dto(1, "Second"), 20).unwrap();
    let patch = UpdateCourse {
        name: Some("Courese name changed".to_string()),
        description: Some("This is another test course".to_string()),
        format: None,
        structure: None,
        duration: None,
        price: Some(32),
        language: Some("Chinese".to_string()),
        level: Some("Intermediate".to_string()),
    };
    let course = update_course_details(&mut state, 1, 2, patch).expect("update should succeed");
    assert_eq!(course.id, 2);
    assert_eq!(course.name, "Courese name changed");
    assert_eq!(course.description.as_deref(), Some("This is another test course"));
    assert_eq!(course.price, Some(32));
    assert_eq!(course.language.as_deref(), Some("Chinese"));
    assert_eq!(course.level.as_deref(), Some("Intermediate"));
    assert_eq!(course.time, Some(20));
}

#[test]
fn delete_course_success() {
    let mut state = fresh_state();
    post_new_course(&mut state, course_dto(1, "Doomed"), 10).unwrap();
    let report = delete_course(&mut state, 1, 1).expect("delete should succeed");
    assert_eq!(report, "Delete 1 record");
    let err = get_course_detail(&state, 1, 1).expect_err("row must be gone");
    assert_eq!(err.status_code(), 404);
}

#[test]
fn delete_course_failure() {
    let mut state = fresh_state();
    post_new_course(&mut state, course_dto(1, "Only"), 10).unwrap();
    let err = delete_course(&mut state, 1, 10000).expect_err("missing id must fail");
    assert_eq!(err.status_code(), 404);
    assert!(matches!(err, MyError::NotFound(_)));
}

#[test]
fn round_trip_returns_created_course() {
    let mut state = fresh_state();
    let created = post_new_course(&mut state, course_dto(7, "Algebra"), 99).unwrap();
    let fetched = get_course_detail(&state, 7, created.id).unwrap();
    assert_eq!(fetched.teacher_id, created.teacher_id);
    assert_eq!(fetched.id, created.id);
    assert_eq!(fetched.name, created.name);
    assert_eq!(fetched.time, created.time);
    assert_eq!(fetched.description, created.description);
    assert_eq!(fetched.format, created.format);
    assert_eq!(fetched.structure, created.structure);
    assert_eq!(fetched.duration, created.duration);
    assert_eq!(fetched.price, created.price);
    assert_eq!(fetched.language, created.language);
    assert_eq!(fetched.level, created.level);
}

#[test]
fn update_with_absent_patch_keeps_present_fields() {
    let mut state = fresh_state();
    let full = CreateCourse {
        teacher_id: 1,
        name: "Full".to_string(),
        description: Some("d".to_string()),
        format: Some("f".to_string()),
        structure: Some("s".to_string()),
        duration: Some("u".to_string()),
        price: Some(5),
        language: Some("l".to_string()),
        level: Some("v".to_string()),
    };
    let before = post_new_course(&mut state, full, 10).unwrap();
    let after = update_course_details(&mut state, 1, 1, absent_patch()).unwrap();
    assert_eq!(after.teacher_id, before.teacher_id);
    assert_eq!(after.id, before.id);
    assert_eq!(after.name, before.name);
    assert_eq!(after.time, before.time);
    assert_eq!(after.description, before.description);
    assert_eq!(after.format, before.format);
    assert_eq!(after.structure, before.structure);
    assert_eq!(after.duration, before.duration);
    assert_eq!(after.price, before.price);
    assert_eq!(after.language, before.language);
    assert_eq!(after.level, before.level);
}

#[test]
fn update_with_absent_patch_writes_empty_defaults_for_absent_fields() {
    let mut state = fresh_state();
    let sparse = CreateCourse {
        teacher_id: 1,
        name: "Sparse".to_string(),
        description: None,
        format: None,
        structure: None,
        duration: None,
        price: None,
        language: None,
        level: None,
    };
    post_new_course(&mut state, sparse, 10).unwrap();
    let after = update_course_details(&mut state, 1, 1, absent_patch()).unwrap();
    assert_eq!(after.name, "Sparse");
    assert_eq!(after.description.as_deref(), Some(""));
    assert_eq!(after.price, Some(0));
}

#[test]
fn update_with_only_price_changes_only_price() {
    let mut state = fresh_state();
    let full = CreateCourse {
        teacher_id: 1,
        name: "Full".to_string(),
        description: Some("keep me".to_string()),
        format: Some("online".to_string()),
        structure: Some("weekly".to_string()),
        duration: Some("6w".to_string()),
        price: Some(5),
        language: Some("English".to_string()),
        level: Some("Beginner".to_string()),
    };
    post_new_course(&mut state, full, 10).unwrap();
    let mut patch = absent_patch();
    patch.price = Some(32);
    let after = update_course_details(&mut state, 1, 1, patch).unwrap();
    assert_eq!(after.price, Some(32));
    assert_eq!(after.name, "Full");
    assert_eq!(after.description.as_deref(), Some("keep me"));
    assert_eq!(after.format.as_deref(), Some("online"));
    assert_eq!(after.structure.as_deref(), Some("weekly"));
    assert_eq!(after.duration.as_deref(), Some("6w"));
    assert_eq!(after.language.as_deref(), Some("English"));
    assert_eq!(after.level.as_deref(), Some("Beginner"));
}

#[test]
fn update_with_empty_string_replaces_value() {
    let mut state = fresh_state();
    post_new_course(&mut state, course_dto(1, "Named"), 10).unwrap();
    let mut patch = absent_patch();
    patch.description = Some(String::new());
    let after = update_course_details(&mut state, 1, 1, patch).unwrap();
    assert_eq!(after.description.as_deref(), Some(""));
    assert_eq!(after.language.as_deref(), Some("English"));
}

#[test]
fn update_missing_course_is_not_found() {
    let mut state = fresh_state();
    post_new_course(&mut state, course_dto(1, "Only"), 10).unwrap();
    let err = update_course_details(&mut state, 2, 1, absent_patch())
        .expect_err("wrong teacher id must fail");
    assert_eq!(err.status_code(), 404);
    assert!(matches!(err, MyError::NotFound(_)));
}

#[test]
fn listing_teacher_without_courses_is_not_found() {
    let mut state = fresh_state();
    post_new_course(&mut state, course_dto(1, "Only"), 10).unwrap();
    let err = get_courses_for_teacher(&state, 2).expect_err("empty list must be an error");
    assert_eq!(err.status_code(), 404);
    match err {
        MyError::NotFound(msg) => assert_eq!(msg, "Course not found for teacher"),
        other => panic!("expected NotFound, got {:?}", other),
    }
}

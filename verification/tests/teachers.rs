//! Teacher routes against a fresh store.

use webservice::errors::MyError;
use webservice::handlers::teacher::{
    delete_teacher, get_all_teachers, get_teacher_details, post_new_teacher,
    update_teacher_details,
};
use webservice::models::{CreateTeacher, UpdateTeacher};
use webservice::state::AppState;

fn fresh_state() -> AppState {
    AppState::new("I'm OK.".to_string())
}

fn teacher_dto(name: &str) -> CreateTeacher {
    CreateTeacher {
        name: name.to_string(),
        picture_url: "https://commonresource-1252524126.cdn.xiaoeknow.com/image/l2y5zx530z40.png"
            .to_string(),
        profile: "高级教师".to_string(),
    }
}

#[test]
fn post_teacher_success_test() {
    let mut state = fresh_state();
    let teacher = post_new_teacher(&mut state, teacher_dto("张三")).expect("create should succeed");
    assert_eq!(teacher.id, 1);
    assert_eq!(teacher.name.as_deref(), Some("张三"));
    assert_eq!(
        teacher.picture_url.as_deref(),
        Some("https://commonresource-1252524126.cdn.xiaoeknow.com/image/l2y5zx530z40.png")
    );
    assert_eq!(teacher.profile.as_deref(), Some("高级教师"));
}

#[test]
fn get_all_teachers_success_test() {
    let mut state = fresh_state();
    post_new_teacher(&mut state, teacher_dto("A")).unwrap();
    post_new_teacher(&mut state, teacher_dto("B")).unwrap();
    let teachers = get_all_teachers(&state).expect("listing should succeed");
    assert_eq!(teachers.len(), 2);
    assert_eq!(teachers[0].name.as_deref(), Some("A"));
    assert_eq!(teachers[1].name.as_deref(), Some("B"));
}

#[test]
fn get_all_teachers_empty_is_not_found() {
    let state = fresh_state();
    let err = get_all_teachers(&state).expect_err("empty table must be an error");
    assert_eq!(err.status_code(), 404);
    match err {
        MyError::NotFound(msg) => assert_eq!(msg, "No teachers found"),
        other => panic!("expected NotFound, got {:?}", other),
    }
}

#[test]
fn get_teacher_details_success() {
    let mut state = fresh_state();
    post_new_teacher(&mut state, teacher_dto("A")).unwrap();
    let teacher = get_teacher_details(&state, 1).expect("detail should succeed");
    assert_eq!(teacher.id, 1);
    assert_eq!(teacher.name.as_deref(), Some("A"));
}

#[test]
fn get_teacher_details_missing_is_not_found() {
    let state = fresh_state();
    let err = get_teacher_details(&state, 1).expect_err("missing id must fail");
    assert_eq!(err.status_code(), 404);
    assert!(matches!(err, MyError::NotFound(_)));
}

#[test]
fn update_teacher_success_test() {
    let mut state = fresh_state();
    post_new_teacher(&mut state, teacher_dto("李四")).unwrap();
    let patch = UpdateTeacher {
        name: Some("新李四".to_string()),
        picture_url: Some(
            "https://commonresource-1252524126.cdn.xiaoeknow.com/image/l2y5zx530z40.png"
                .to_string(),
        ),
        profile: None,
    };
    let teacher = update_teacher_details(&mut state, 1, patch).expect("update should succeed");
    assert_eq!(teacher.id, 1);
    assert_eq!(teacher.name.as_deref(), Some("新李四"));
    assert_eq!(teacher.profile.as_deref(), Some("高级教师"));
}

#[test]
fn update_missing_teacher_is_not_found() {
    let mut state = fresh_state();
    let patch = UpdateTeacher { name: None, picture_url: None, profile: None };
    let err = update_teacher_details(&mut state, 200, patch).expect_err("missing id must fail");
    assert_eq!(err.status_code(), 404);
    assert!(matches!(err, MyError::NotFound(_)));
}

#[test]
fn delete_teacher_success_test() {
    let mut state = fresh_state();
    post_new_teacher(&mut state, teacher_dto("Doomed")).unwrap();
    let report = delete_teacher(&mut state, 1).expect("delete should succeed");
    assert_eq!(report, "Delete 1 record");
    let err = get_teacher_details(&state, 1).expect_err("row must be gone");
    assert_eq!(err.status_code(), 404);
}

#[test]
fn delete_missing_teacher_is_not_found() {
    let mut state = fresh_state();
    let err = delete_teacher(&mut state, 100).expect_err("missing id must fail");
    assert_eq!(err.status_code(), 404);
    assert!(matches!(err, MyError::NotFound(_)));
}

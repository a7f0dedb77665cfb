//! The health check, the error taxonomy, body extraction, decimal
//! rendering, and the registration page's decisions.

use webservice::errors::MyError;
use webservice::handlers::general::{health_check_handler, require_json_body};
use webservice::models::CreateCourse;
use webservice::state::AppState;
use webservice::text::{i32_to_decimal, u64_to_decimal};
use webservice::translate_usize_to_i32;
use webservice::webapp::{handle_register, registration_reply, Config, TeacherRegisterForm, TeacherResponse};

#[test]
fn health_check_counts_visits() {
    let mut state = AppState::new("I'm OK.".to_string());
    assert_eq!(health_check_handler(&mut state), "I'm OK. 0 times");
    assert_eq!(health_check_handler(&mut state), "I'm OK. 1 times");
    assert_eq!(health_check_handler(&mut state), "I'm OK. 2 times");
    assert_eq!(state.visit_count, 3);
}

#[test]
fn error_statuses_follow_the_taxonomy() {
    assert_eq!(MyError::DBError("boom".to_string()).status_code(), 500);
    assert_eq!(MyError::ActixError("boom".to_string()).status_code(), 500);
    assert_eq!(MyError::NotFound("gone".to_string()).status_code(), 404);
    assert_eq!(MyError::InvalidInput("bad".to_string()).status_code(), 400);
}

#[test]
fn store_and_server_errors_are_not_leaked() {
    assert_eq!(MyError::DBError("connection refused".to_string()).error_response(), "Database error");
    assert_eq!(
        MyError::ActixError("worker died".to_string()).error_response(),
        "Internal Server error"
    );
}

#[test]
fn caller_correctable_messages_pass_through() {
    assert_eq!(MyError::NotFound("Teacher is not found".to_string()).error_response(), "Teacher is not found");
    assert_eq!(MyError::InvalidInput("bad field".to_string()).error_response(), "bad field");
}

#[test]
fn error_body_carries_the_message() {
    let body = MyError::NotFound("gone".to_string()).error_body();
    assert_eq!(body.error_message, "gone");
    let body = MyError::DBError("secret detail".to_string()).error_body();
    assert_eq!(body.error_message, "Database error");
}

#[test]
fn missing_body_is_invalid_input() {
    let err = require_json_body::<CreateCourse>(None).expect_err("no body must fail");
    assert_eq!(err.status_code(), 400);
    match err {
        MyError::InvalidInput(msg) => assert_eq!(msg, "Please provide valid json input"),
        other => panic!("expected InvalidInput, got {:?}", other),
    }
}

#[test]
fn parsed_body_passes_through() {
    let dto = CreateCourse {
        teacher_id: 1,
        name: "Intro".to_string(),
        description: None,
        format: None,
        structure: None,
        duration: None,
        price: None,
        language: None,
        level: None,
    };
    let out = require_json_body(Some(dto)).expect("parsed body must pass");
    assert_eq!(out.teacher_id, 1);
    assert_eq!(out.name, "Intro");
}

#[test]
fn decimal_rendering_is_exact() {
    assert_eq!(u64_to_decimal(0), "0");
    assert_eq!(u64_to_decimal(7), "7");
    assert_eq!(u64_to_decimal(10), "10");
    assert_eq!(u64_to_decimal(12345), "12345");
    assert_eq!(u64_to_decimal(u64::MAX), "18446744073709551615");
    assert_eq!(i32_to_decimal(42), "42");
    assert_eq!(i32_to_decimal(-5), "-5");
    assert_eq!(i32_to_decimal(i32::MIN), "-2147483648");
}

#[test]
fn translate_narrows_path_parameter() {
    assert_eq!(translate_usize_to_i32(0), 0);
    assert_eq!(translate_usize_to_i32(2147483647), i32::MAX);
}

#[test]
fn register_rejects_the_reserved_name() {
    let form = TeacherRegisterForm {
        name: "Dave".to_string(),
        image_url: "http://example.invalid/p.png".to_string(),
        profile: "p".to_string(),
    };
    let err = handle_register(&form).expect_err("Dave must be rejected");
    assert_eq!(err, "Dave is already exists!");
}

#[test]
fn register_builds_the_creation_payload() {
    let form = TeacherRegisterForm {
        name: "Eve".to_string(),
        image_url: "http://example.invalid/p.png".to_string(),
        profile: "maths".to_string(),
    };
    let payload = handle_register(&form).expect("other names must pass");
    assert_eq!(payload.name, "Eve");
    assert_eq!(payload.picture_url, "http://example.invalid/p.png");
    assert_eq!(payload.profile, "maths");
}

#[test]
fn registration_reply_names_the_assigned_id() {
    let response = TeacherResponse {
        id: 42,
        name: "Eve".to_string(),
        picture_url: "http://example.invalid/p.png".to_string(),
        profile: "maths".to_string(),
    };
    assert_eq!(registration_reply(&response), "Congratulation! Your id is: 42.");
}

#[test]
fn config_keeps_the_base_url() {
    let config = Config::new("http://localhost:3000".to_string());
    assert_eq!(config.base_url(), "http://localhost:3000");
}

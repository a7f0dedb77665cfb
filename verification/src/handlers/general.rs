//! The health-check route and the shared body-extraction policy.

use vstd::prelude::*;
use vstd::string::StringExecFns;

use crate::errors::MyError;
use crate::state::AppState;
use crate::text::{spec_decimal, u64_to_decimal};

verus! {

/// The health-check reply for a given greeting and visit count: the
/// greeting, the count, and the word `times`, space-separated.
pub fn health_check_message(health_check_response: &String, visit_count: u32) -> (r: String)
    ensures
        r@ == health_check_response@ + " "@ + spec_decimal(visit_count as nat) + " times"@,
{
    let mut response = health_check_response.clone();
    response.append(" ");
    response.append(u64_to_decimal(visit_count as u64).as_str());
    response.append(" times");
    response
}

/// Answers the health check: the fixed greeting, the number of visits
/// served so far, and the word `times`, then one more visit recorded.
/// The increment is the only mutation; the critical section around it is
/// the caller's concern.
pub fn health_check_handler(app_state: &mut AppState) -> (r: String)
    requires
        old(app_state).visit_count < u32::MAX,
    ensures
        final(app_state).health_check_response == old(app_state).health_check_response,
        final(app_state).db == old(app_state).db,
        final(app_state).visit_count == old(app_state).visit_count + 1,
        r@ == old(app_state).health_check_response@ + " "@ + spec_decimal(
            old(app_state).visit_count as nat,
        ) + " times"@,
{
    let response = health_check_message(&app_state.health_check_response, app_state.visit_count);
    app_state.visit_count = app_state.visit_count + 1;
    response
}

/// What a write route does with the outcome of body deserialization:
/// a parsed DTO goes through untouched, and a body that failed to parse
/// into the expected shape is rejected as `InvalidInput` before any
/// data access happens.
pub fn require_json_body<T>(parsed: Option<T>) -> (r: Result<T, MyError>)
    ensures
        parsed matches Some(v) ==> (r matches Ok(x) && x == v),
        parsed is None ==> (r matches Err(e) && (e matches MyError::InvalidInput(m) && m@
            == "Please provide valid json input"@)),
{
    match parsed {
        Some(v) => Ok(v),
        None => Err(MyError::InvalidInput("Please provide valid json input".to_owned())),
    }
}

} // verus!

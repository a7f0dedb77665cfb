//! The process-wide state every request touches: the fixed health-check
//! greeting, the visit counter, and the handle to the store.

use vstd::prelude::*;

use crate::store::Store;

verus! {

/// Shared application state. In the running service the counter sits
/// behind a mutex and the store behind a connection pool; the state a
/// request observes inside its critical section is modeled here.
pub struct AppState {
    /// The fixed part of the health-check reply.
    pub health_check_response: String,
    /// How many health checks have been answered so far.
    pub visit_count: u32,
    /// The relational store.
    pub db: Store,
}

impl AppState {
    /// Fresh state over an empty store, with the given greeting.
    pub fn new(health_check_response: String) -> (s: AppState)
        ensures
            s.health_check_response == health_check_response,
            s.visit_count == 0,
            s.db.wf(),
            s.db.courses@.len() == 0,
            s.db.teachers@.len() == 0,
            s.db.next_course_id == 1,
            s.db.next_teacher_id == 1,
    {
        AppState { health_check_response, visit_count: 0, db: Store::new() }
    }
}

} // verus!

//! Core of a course-management web service: domain models, the error
//! taxonomy that maps failures to wire responses, an in-memory model of
//! the relational store with the partial-update merge algorithm, and the
//! per-route handler logic. All I/O (HTTP, SQL, JSON) lives outside this
//! crate; the functions here are the decisions those edges call into.

pub mod db_access;
pub mod errors;
pub mod handlers;
pub mod models;
pub mod state;
pub mod store;
pub mod text;
pub mod webapp;

use vstd::prelude::*;

verus! {

/// Narrows a path parameter to the store's key type. The caller must
/// have checked the range; a larger value matches no key.
pub fn translate_usize_to_i32(param: usize) -> (r: i32)
    requires
        param <= i32::MAX,
    ensures
        r == param,
{
    param as i32
}

} // verus!


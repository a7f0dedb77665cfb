//! The handler layer: one function per route. Each handler extracts
//! nothing but plain values, calls exactly one data-access operation,
//! and leaves status selection to the error taxonomy.

pub mod course;
pub mod general;
pub mod teacher;

//! The data-access layer: the only component that reads or writes the
//! store. One submodule per entity.

pub mod course;
pub mod teacher;

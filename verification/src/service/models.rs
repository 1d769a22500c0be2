//! The backend's record types.

pub mod course;
pub mod tutor;

//! The store layer's semantics, stated over the two tables as sequences of
//! rows: lookups by key, creation with a generated id, the partial-update
//! merge, and deletion.

pub mod course;
pub mod tutor;

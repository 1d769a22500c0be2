//! The backend API's domain: models, store semantics, errors, health.

pub mod errors;
pub mod health;
pub mod models;
pub mod store;

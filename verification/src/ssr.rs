//! The server-rendered front end's domain: its error taxonomy, form and
//! response models, the local user table, and the registration and sign-in
//! decisions.

pub mod auth;
pub mod course;
pub mod errors;
pub mod model;
pub mod store;

//! A two-service tutoring web application, with its logic verified.
//!
//! `service` holds the backend API's domain: tutor and course records, the
//! store operations over them (including the partial-update merge), the error
//! taxonomy and its mapping to HTTP status codes, and the health counter.
//! `ssr` holds the server-rendered front end's domain: registration and
//! sign-in decisions, user credential records, and the payloads it forwards
//! to the backend. `text` holds decimal formatting shared by both.

pub mod service;
pub mod ssr;
pub mod text;

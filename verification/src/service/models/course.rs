//! Course records: the stored row, the creation payload, the update payload.
//!
//! A course is scoped under one owning tutor. `posted_time` is the moment the
//! row was created, as seconds since the Unix epoch; the store assigns it on
//! creation and an update never touches it.

use crate::service::models::tutor::clone_opt_string;
use vstd::prelude::*;

verus! {

/// A stored course row. `course_id` is store-generated. All fields but
/// `course_name` are optional in storage.
#[derive(Debug)]
pub struct Course {
    pub course_id: i32,
    pub tutor_id: i32,
    pub course_name: String,
    pub course_description: Option<String>,
    pub course_format: Option<String>,
    pub course_structure: Option<String>,
    pub course_duration: Option<String>,
    pub course_price: Option<i32>,
    pub course_language: Option<String>,
    pub course_level: Option<String>,
    pub posted_time: Option<i64>,
}

impl Clone for Course {
    fn clone(&self) -> (r: Self)
        ensures
            r == *self,
    {
        Course {
            course_id: self.course_id,
            tutor_id: self.tutor_id,
            course_name: self.course_name.clone(),
            course_description: clone_opt_string(&self.course_description),
            course_format: clone_opt_string(&self.course_format),
            course_structure: clone_opt_string(&self.course_structure),
            course_duration: clone_opt_string(&self.course_duration),
            course_price: self.course_price,
            course_language: clone_opt_string(&self.course_language),
            course_level: clone_opt_string(&self.course_level),
            posted_time: self.posted_time,
        }
    }
}

/// The payload that creates a course. `tutor_id` is embedded; the id and the
/// posted time are assigned by the store.
#[derive(Debug)]
pub struct NewCourse {
    pub tutor_id: i32,
    pub course_name: String,
    pub course_description: Option<String>,
    pub course_format: Option<String>,
    pub course_structure: Option<String>,
    pub course_duration: Option<String>,
    pub course_price: Option<i32>,
    pub course_language: Option<String>,
    pub course_level: Option<String>,
}

impl Clone for NewCourse {
    fn clone(&self) -> (r: Self)
        ensures
            r == *self,
    {
        NewCourse {
            tutor_id: self.tutor_id,
            course_name: self.course_name.clone(),
            course_description: clone_opt_string(&self.course_description),
            course_format: clone_opt_string(&self.course_format),
            course_structure: clone_opt_string(&self.course_structure),
            course_duration: clone_opt_string(&self.course_duration),
            course_price: self.course_price,
            course_language: clone_opt_string(&self.course_language),
            course_level: clone_opt_string(&self.course_level),
        }
    }
}

/// The payload that updates a course: every field optional, `None` meaning
/// "keep the current value" (for fields stored as optional, absent on both
/// sides falls back to an empty string, or zero for the price).
#[derive(Debug)]
pub struct UpdateCourse {
    pub course_name: Option<String>,
    pub course_description: Option<String>,
    pub course_format: Option<String>,
    pub course_structure: Option<String>,
    pub course_duration: Option<String>,
    pub course_price: Option<i32>,
    pub course_language: Option<String>,
    pub course_level: Option<String>,
}

impl Clone for UpdateCourse {
    fn clone(&self) -> (r: Self)
        ensures
            r == *self,
    {
        UpdateCourse {
            course_name: clone_opt_string(&self.course_name),
            course_description: clone_opt_string(&self.course_description),
            course_format: clone_opt_string(&self.course_format),
            course_structure: clone_opt_string(&self.course_structure),
            course_duration: clone_opt_string(&self.course_duration),
            course_price: self.course_price,
            course_language: clone_opt_string(&self.course_language),
            course_level: clone_opt_string(&self.course_level),
        }
    }
}

} // verus!

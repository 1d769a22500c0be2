//! The payloads the front end's course handlers forward to the backend.
//!
//! The front end accepts its own form shapes and sends the backend's: the
//! owning tutor comes from the path, and the fields the form requires are
//! wrapped into the backend's optional ones.

use crate::service::models::course as backend;
use crate::ssr::model::{NewCourse, UpdateCourse};
use vstd::prelude::*;

verus! {

/// The creation payload sent to the backend: the path's tutor id, the form's
/// name, and each further field carried over (the form's required text
/// fields become supplied optionals).
pub fn backend_new_course(tutor_id: i32, course: NewCourse) -> (r: backend::NewCourse)
    ensures
        r.tutor_id == tutor_id,
        r.course_name == course.course_name,
        r.course_description == Some(course.course_description),
        r.course_format == Some(course.course_format),
        r.course_duration == Some(course.course_duration),
        r.course_structure == course.course_structure,
        r.course_price == course.course_price,
        r.course_language == course.course_language,
        r.course_level == course.course_level,
{
    backend::NewCourse {
        tutor_id,
        course_name: course.course_name,
        course_description: Some(course.course_description),
        course_format: Some(course.course_format),
        course_structure: course.course_structure,
        course_duration: Some(course.course_duration),
        course_price: course.course_price,
        course_language: course.course_language,
        course_level: course.course_level,
    }
}

/// The update payload sent to the backend: the form's fields, one for one.
pub fn backend_update_course(course: UpdateCourse) -> (r: backend::UpdateCourse)
    ensures
        r.course_name == course.course_name,
        r.course_description == course.course_description,
        r.course_format == course.course_format,
        r.course_structure == course.course_structure,
        r.course_duration == course.course_duration,
        r.course_price == course.course_price,
        r.course_language == course.course_language,
        r.course_level == course.course_level,
{
    backend::UpdateCourse {
        course_name: course.course_name,
        course_description: course.course_description,
        course_format: course.course_format,
        course_structure: course.course_structure,
        course_duration: course.course_duration,
        course_price: course.course_price,
        course_language: course.course_language,
        course_level: course.course_level,
    }
}

} // verus!

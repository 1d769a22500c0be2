//! The front end's form and response models.

use crate::service::models::tutor::clone_opt_string;
use vstd::prelude::*;

verus! {

/// The registration form as posted by the browser.
#[derive(Debug)]
pub struct TutorRegisterForm {
    pub username: String,
    pub password: String,
    pub confirmation: String,
    pub name: String,
    pub imageurl: String,
    pub profile: String,
}

impl Clone for TutorRegisterForm {
    fn clone(&self) -> (r: Self)
        ensures
            r == *self,
    {
        TutorRegisterForm {
            username: self.username.clone(),
            password: self.password.clone(),
            confirmation: self.confirmation.clone(),
            name: self.name.clone(),
            imageurl: self.imageurl.clone(),
            profile: self.profile.clone(),
        }
    }
}

/// The backend's answer to a tutor creation.
#[derive(Debug)]
pub struct TutorResponse {
    pub tutor_id: i32,
    pub tutor_name: String,
    pub tutor_pic_url: String,
    pub tutor_profile: String,
}

/// A credential row in the front end's own user table. `user_password` is
/// the salted, irreversible hash, never the password itself.
#[derive(Debug)]
pub struct User {
    pub username: String,
    pub user_password: String,
    pub tutor_id: Option<i32>,
}

impl Clone for User {
    fn clone(&self) -> (r: Self)
        ensures
            r == *self,
    {
        User {
            username: self.username.clone(),
            user_password: self.user_password.clone(),
            tutor_id: self.tutor_id,
        }
    }
}

/// The sign-in form as posted by the browser.
#[derive(Debug)]
pub struct TutorSigninForm {
    pub username: String,
    pub password: String,
}

impl Clone for TutorSigninForm {
    fn clone(&self) -> (r: Self)
        ensures
            r == *self,
    {
        TutorSigninForm { username: self.username.clone(), password: self.password.clone() }
    }
}

/// The course creation form the front end accepts; the owning tutor comes
/// from the path, not the body.
#[derive(Debug)]
pub struct NewCourse {
    pub course_name: String,
    pub course_description: String,
    pub course_format: String,
    pub course_duration: String,
    pub course_structure: Option<String>,
    pub course_price: Option<i32>,
    pub course_language: Option<String>,
    pub course_level: Option<String>,
}

impl Clone for NewCourse {
    fn clone(&self) -> (r: Self)
        ensures
            r == *self,
    {
        NewCourse {
            course_name: self.course_name.clone(),
            course_description: self.course_description.clone(),
            course_format: self.course_format.clone(),
            course_duration: self.course_duration.clone(),
            course_structure: clone_opt_string(&self.course_structure),
            course_price: self.course_price,
            course_language: clone_opt_string(&self.course_language),
            course_level: clone_opt_string(&self.course_level),
        }
    }
}

/// The backend's answer to a course creation, with the rendered timestamp.
#[derive(Debug)]
pub struct NewCourseResponse {
    pub course_id: i32,
    pub tutor_id: i32,
    pub course_name: String,
    pub course_description: String,
    pub course_format: String,
    pub course_structure: Option<String>,
    pub course_duration: String,
    pub course_price: Option<i32>,
    pub course_language: Option<String>,
    pub course_level: Option<String>,
    pub posted_time: String,
}

/// The course update form the front end accepts.
#[derive(Debug)]
pub struct UpdateCourse {
    pub course_name: Option<String>,
    pub course_description: Option<String>,
    pub course_format: Option<String>,
    pub course_duration: Option<String>,
    pub course_structure: Option<String>,
    pub course_price: Option<i32>,
    pub course_language: Option<String>,
    pub course_level: Option<String>,
}

impl Clone for UpdateCourse {
    fn clone(&self) -> (r: Self)
        ensures
            r == *self,
    {
        UpdateCourse {
            course_name: clone_opt_string(&self.course_name),
            course_description: clone_opt_string(&self.course_description),
            course_format: clone_opt_string(&self.course_format),
            course_duration: clone_opt_string(&self.course_duration),
            course_structure: clone_opt_string(&self.course_structure),
            course_price: self.course_price,
            course_language: clone_opt_string(&self.course_language),
            course_level: clone_opt_string(&self.course_level),
        }
    }
}

/// The backend's answer to a course update: after a merge every optional
/// field is stored, so each comes back required.
#[derive(Debug)]
pub struct UpdateCourseResponse {
    pub course_id: i32,
    pub tutor_id: i32,
    pub course_name: String,
    pub course_description: String,
    pub course_format: String,
    pub course_structure: String,
    pub course_duration: String,
    pub course_price: i32,
    pub course_language: String,
    pub course_level: String,
    pub posted_time: String,
}

/// A course as the front end lists it.
#[derive(Debug)]
pub struct CourseResponse {
    pub course_id: i32,
    pub tutor_id: i32,
    pub course_name: String,
    pub course_description: String,
    pub course_format: String,
    pub course_structure: String,
    pub course_duration: String,
    pub course_price: i32,
    pub course_language: String,
    pub course_level: String,
    pub posted_time: String,
}

} // verus!

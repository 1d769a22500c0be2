//! Tutor records: the stored row, the creation payload, the update payload.

use vstd::prelude::*;

verus! {

/// A stored tutor row. `tutor_id` is store-generated, never client-supplied.
#[derive(Debug)]
pub struct Tutor {
    pub tutor_id: i32,
    pub tutor_name: String,
    pub tutor_pic_url: String,
    pub tutor_profile: String,
}

impl Clone for Tutor {
    fn clone(&self) -> (r: Self)
        ensures
            r == *self,
    {
        Tutor {
            tutor_id: self.tutor_id,
            tutor_name: self.tutor_name.clone(),
            tutor_pic_url: self.tutor_pic_url.clone(),
            tutor_profile: self.tutor_profile.clone(),
        }
    }
}

/// The payload that creates a tutor: every field required.
#[derive(Debug)]
pub struct NewTutor {
    pub tutor_name: String,
    pub tutor_pic_url: String,
    pub tutor_profile: String,
}

impl Clone for NewTutor {
    fn clone(&self) -> (r: Self)
        ensures
            r == *self,
    {
        NewTutor {
            tutor_name: self.tutor_name.clone(),
            tutor_pic_url: self.tutor_pic_url.clone(),
            tutor_profile: self.tutor_profile.clone(),
        }
    }
}

/// The payload that updates a tutor: every field optional, `None` meaning
/// "keep the current value".
#[derive(Debug)]
pub struct UpdateTutor {
    pub tutor_name: Option<String>,
    pub tutor_pic_url: Option<String>,
    pub tutor_profile: Option<String>,
}

impl Clone for UpdateTutor {
    fn clone(&self) -> (r: Self)
        ensures
            r == *self,
    {
        UpdateTutor {
            tutor_name: clone_opt_string(&self.tutor_name),
            tutor_pic_url: clone_opt_string(&self.tutor_pic_url),
            tutor_profile: clone_opt_string(&self.tutor_profile),
        }
    }
}

/// Clones an optional string, keeping its value.
pub fn clone_opt_string(s: &Option<String>) -> (r: Option<String>)
    ensures
        r == *s,
{
    match s {
        Some(v) => Some(v.clone()),
        None => None,
    }
}

} // verus!

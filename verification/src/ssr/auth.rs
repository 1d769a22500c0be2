//! Registration and sign-in: the decisions the two form handlers take, and
//! the password hashing they rest on.
//!
//! Registration rejects a taken user name or a mismatched confirmation and
//! echoes the form back with the password fields blanked; otherwise it
//! proceeds, and the credential row stores a salted, irreversible hash. A
//! failed sign-in always answers with the one generic message, whether the
//! user name was unknown or the password wrong.

use crate::ssr::model::{TutorRegisterForm, TutorSigninForm, User};
use rand::Rng;
use vstd::prelude::*;
use vstd::string::StringExecFns;

verus! {

/// The encoded hash that rust-argon2 computes for a password and a salt
/// under the default configuration. It depends on those arguments alone.
pub uninterp spec fn argon_hash_of(password: Seq<char>, salt: Seq<u8>) -> Seq<char>;

/// Whether rust-argon2 accepts the password against the encoded hash. It
/// depends on those arguments alone; an encoded text that does not parse as
/// a hash is never accepted.
pub uninterp spec fn argon_verify_of(encoded: Seq<char>, password: Seq<char>) -> bool;

/// Relies on rand's `thread_rng` and `gen`: a fresh 32-byte salt. Nothing is
/// promised of its value.
#[verifier::external_body]
fn random_salt() -> (r: [u8; 32]) {
    rand::thread_rng().gen::<[u8; 32]>()
}

/// Relies on rust-argon2's `hash_encoded` under `Config::default()`: with a
/// 32-byte salt and a password below 2^32 bytes its validation passes and it
/// returns the encoded hash, a function of the password and the salt alone.
#[verifier::external_body]
fn hash_password(password: &str, salt: &[u8; 32]) -> (r: String)
    requires
        password@.len() <= 0xFFFF_FFFF,
    ensures
        r@ == argon_hash_of(password@, salt@),
{
    match argon2::hash_encoded(password.as_bytes(), salt, &argon2::Config::default()) {
        Ok(encoded) => encoded,
        Err(_) => String::new(),
    }
}

/// Relies on rust-argon2's `verify_encoded`: deterministic in the encoded
/// hash and the password. An encoded text it cannot parse is treated as no
/// match, never surfaced as an error.
#[verifier::external_body]
fn verify_password(encoded: &str, password: &str) -> (r: bool)
    ensures
        r == argon_verify_of(encoded@, password@),
{
    match argon2::verify_encoded(encoded, password.as_bytes()) {
        Ok(accepted) => accepted,
        Err(_) => false,
    }
}

/// What the registration handler does with a submitted form.
#[derive(Debug)]
pub enum RegisterDecision {
    /// Re-render the form with an inline error: a normal success-shaped
    /// page, no exception raised.
    Reject { error: String, form: TutorRegisterForm },
    /// Create the tutor at the backend, then store the credential row.
    Proceed,
}

/// The rejected form echoes what was typed, except the password fields,
/// which come back blank.
pub open spec fn echoes_with_blank_passwords(
    echo: TutorRegisterForm,
    form: TutorRegisterForm,
) -> bool {
    &&& echo.username == form.username
    &&& echo.password@ == Seq::<char>::empty()
    &&& echo.confirmation@ == Seq::<char>::empty()
    &&& echo.name == form.name
    &&& echo.imageurl == form.imageurl
    &&& echo.profile == form.profile
}

fn blank_password_echo(form: &TutorRegisterForm) -> (r: TutorRegisterForm)
    ensures
        echoes_with_blank_passwords(r, *form),
{
    TutorRegisterForm {
        username: form.username.clone(),
        password: String::new(),
        confirmation: String::new(),
        name: form.name.clone(),
        imageurl: form.imageurl.clone(),
        profile: form.profile.clone(),
    }
}

/// Decides a registration. A taken user name is rejected first; then a
/// password that does not equal its confirmation; only a form that passes
/// both checks proceeds, so a mismatched confirmation never reaches the
/// credential store.
pub fn register_decision(form: &TutorRegisterForm, username_taken: bool) -> (r: RegisterDecision)
    ensures
        username_taken ==> (r matches RegisterDecision::Reject { error, form: echo } && error@
            == "User Id already exists"@ && echoes_with_blank_passwords(echo, *form)),
        !username_taken && form.password@ != form.confirmation@ ==> (r
            matches RegisterDecision::Reject { error, form: echo } && error@
            == "Passwords do not match"@ && echoes_with_blank_passwords(echo, *form)),
        !username_taken && form.password@ == form.confirmation@ ==> r is Proceed,
{
    if username_taken {
        RegisterDecision::Reject {
            error: String::from_str("User Id already exists"),
            form: blank_password_echo(form),
        }
    } else if !form.password.eq(&form.confirmation) {
        RegisterDecision::Reject {
            error: String::from_str("Passwords do not match"),
            form: blank_password_echo(form),
        }
    } else {
        RegisterDecision::Proceed
    }
}

/// Builds the credential row for a user that passed registration: the user
/// name as typed, a salted hash of the password (fresh 32-byte salt), and
/// the id of the tutor the backend created.
pub fn register_credentials(username: &String, password: &String, tutor_id: i32) -> (r: User)
    requires
        password@.len() <= 0xFFFF_FFFF,
    ensures
        r.username == *username,
        r.tutor_id == Some(tutor_id),
        exists|salt: Seq<u8>|
            salt.len() == 32 && r.user_password@ == #[trigger] argon_hash_of(password@, salt),
{
    let salt = random_salt();
    let hashed = hash_password(password.as_str(), &salt);
    proof {
        assert(salt@.len() == 32 && hashed@ == argon_hash_of(password@, salt@));
    }
    User { username: username.clone(), user_password: hashed, tutor_id: Some(tutor_id) }
}

/// What the sign-in handler renders.
#[derive(Debug)]
pub enum SigninOutcome {
    /// Re-render the sign-in form with an inline error, the typed user name
    /// and password echoed back.
    Retry { error: String, username: String, password: String },
    /// Render the confirmation page.
    Welcome { name: String, title: String, message: String },
}

/// The one shape every failed sign-in takes: the generic message, with the
/// typed fields echoed.
pub open spec fn signin_retry_shape(r: SigninOutcome, form: TutorSigninForm) -> bool {
    &&& r matches SigninOutcome::Retry { error, username, password }
    &&& error@ == "Invalid login"@
    &&& username@ == form.username@
    &&& password@ == form.password@
}

/// The shape of a successful sign-in's confirmation page.
pub open spec fn signin_welcome_shape(r: SigninOutcome, form: TutorSigninForm) -> bool {
    &&& r matches SigninOutcome::Welcome { name, title, message }
    &&& name@ == form.username@
    &&& title@ == "Signin confirmation!"@
    &&& message@ == "You have successfully logged in to EzyTutor!"@
}

fn signin_retry(form: &TutorSigninForm) -> (r: SigninOutcome)
    ensures
        signin_retry_shape(r, *form),
{
    SigninOutcome::Retry {
        error: String::from_str("Invalid login"),
        username: form.username.clone(),
        password: form.password.clone(),
    }
}

/// Decides a sign-in from the form and the looked-up credential row, if
/// any. Success is owed exactly when a row was found and the password
/// verifies against its stored hash; every failure takes the same shape.
pub fn signin_decision(form: &TutorSigninForm, user: Option<&User>) -> (r: SigninOutcome)
    ensures
        user is None ==> signin_retry_shape(r, *form),
        user matches Some(u) && !argon_verify_of(u.user_password@, form.password@)
            ==> signin_retry_shape(r, *form),
        user matches Some(u) && argon_verify_of(u.user_password@, form.password@)
            ==> signin_welcome_shape(r, *form),
{
    match user {
        Some(u) => {
            if verify_password(u.user_password.as_str(), form.password.as_str()) {
                SigninOutcome::Welcome {
                    name: form.username.clone(),
                    title: String::from_str("Signin confirmation!"),
                    message: String::from_str("You have successfully logged in to EzyTutor!"),
                }
            } else {
                signin_retry(form)
            }
        },
        None => signin_retry(form),
    }
}

/// A failed sign-in renders the same text whether the user name was unknown
/// or the password wrong: nothing in the answer says which check failed.
pub proof fn lemma_signin_rejection_uniform(
    r1: SigninOutcome,
    r2: SigninOutcome,
    form: TutorSigninForm,
)
    requires
        signin_retry_shape(r1, form),
        signin_retry_shape(r2, form),
    ensures
        r1->error@ == r2->error@,
        r1->username@ == r2->username@,
        r1->password@ == r2->password@,
{
}

} // verus!

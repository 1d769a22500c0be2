use ezytutor::ssr::auth::{
    register_credentials, register_decision, signin_decision, RegisterDecision, SigninOutcome,
};
use ezytutor::ssr::errors::EzyTutorError;
use ezytutor::ssr::model::{TutorRegisterForm, TutorSigninForm, User};
use ezytutor::ssr::store::UserStore;

fn register_form(password: &str, confirmation: &str) -> TutorRegisterForm {
    TutorRegisterForm {
        username: "alice".to_string(),
        password: password.to_string(),
        confirmation: confirmation.to_string(),
        name: "Alice".to_string(),
        imageurl: "http://tutor.s3.com/alice".to_string(),
        profile: "Algebra tutor".to_string(),
    }
}

#[test]
fn register_with_mismatched_confirmation_creates_no_user() {
    let users = UserStore::new();
    let form = register_form("wonderland", "wunderland");
    match register_decision(&form, false) {
        RegisterDecision::Reject { error, form: echo } => {
            assert_eq!(error, "Passwords do not match");
            assert_eq!(echo.username, "alice");
            assert_eq!(echo.password, "");
            assert_eq!(echo.confirmation, "");
            assert_eq!(echo.name, "Alice");
            assert_eq!(echo.imageurl, "http://tutor.s3.com/alice");
            assert_eq!(echo.profile, "Algebra tutor");
        }
        RegisterDecision::Proceed => panic!("a mismatched confirmation must be rejected"),
    }
    // The handler inserts a row only on Proceed, so the table stays empty.
    assert!(users.get_user_record("alice").is_err());
}

#[test]
fn register_with_taken_username_is_rejected() {
    let form = register_form("wonderland", "wonderland");
    match register_decision(&form, true) {
        RegisterDecision::Reject { error, form: echo } => {
            assert_eq!(error, "User Id already exists");
            assert_eq!(echo.username, "alice");
            assert_eq!(echo.password, "");
        }
        RegisterDecision::Proceed => panic!("a taken user name must be rejected"),
    }
}

#[test]
fn register_with_matching_confirmation_proceeds() {
    let form = register_form("wonderland", "wonderland");
    assert!(matches!(register_decision(&form, false), RegisterDecision::Proceed));
}

#[test]
fn register_then_signin_succeeds() {
    let mut users = UserStore::new();
    let user = register_credentials(&"alice".to_string(), &"wonderland".to_string(), 7);
    assert_eq!(user.username, "alice");
    assert_eq!(user.tutor_id, Some(7));
    users.post_new_user(user).unwrap();

    let stored = users.get_user_record("alice").unwrap();
    let form = TutorSigninForm {
        username: "alice".to_string(),
        password: "wonderland".to_string(),
    };
    match signin_decision(&form, Some(&stored)) {
        SigninOutcome::Welcome { name, title, message } => {
            assert_eq!(name, "alice");
            assert_eq!(title, "Signin confirmation!");
            assert_eq!(message, "You have successfully logged in to EzyTutor!");
        }
        SigninOutcome::Retry { .. } => panic!("the right password must sign in"),
    }
}

#[test]
fn stored_password_is_a_hash_not_the_password() {
    let user = register_credentials(&"bob".to_string(), &"hunter2".to_string(), 1);
    assert_ne!(user.user_password, "hunter2");
    // Presenting the stored hash text as the password must not sign in.
    let form = TutorSigninForm {
        username: "bob".to_string(),
        password: user.user_password.clone(),
    };
    assert!(matches!(signin_decision(&form, Some(&user)), SigninOutcome::Retry { .. }));
}

#[test]
fn signin_with_wrong_password_never_succeeds() {
    let user = register_credentials(&"alice".to_string(), &"wonderland".to_string(), 7);
    let form = TutorSigninForm {
        username: "alice".to_string(),
        password: "looking-glass".to_string(),
    };
    match signin_decision(&form, Some(&user)) {
        SigninOutcome::Retry { error, username, password } => {
            assert_eq!(error, "Invalid login");
            assert_eq!(username, "alice");
            assert_eq!(password, "looking-glass");
        }
        SigninOutcome::Welcome { .. } => panic!("a wrong password must not sign in"),
    }
}

#[test]
fn signin_failure_message_hides_whether_user_exists() {
    let user = register_credentials(&"alice".to_string(), &"wonderland".to_string(), 7);
    let form_known = TutorSigninForm {
        username: "alice".to_string(),
        password: "wrong".to_string(),
    };
    let form_unknown = TutorSigninForm {
        username: "mallory".to_string(),
        password: "wrong".to_string(),
    };
    let wrong_password = signin_decision(&form_known, Some(&user));
    let unknown_user = signin_decision(&form_unknown, None);
    match (wrong_password, unknown_user) {
        (
            SigninOutcome::Retry { error: e1, .. },
            SigninOutcome::Retry { error: e2, .. },
        ) => {
            assert_eq!(e1, e2);
            assert_eq!(e1, "Invalid login");
        }
        _ => panic!("both failures must re-render the form"),
    }
}

#[test]
fn duplicate_username_insert_fails() {
    let mut users = UserStore::new();
    let first = User {
        username: "carol".to_string(),
        user_password: "$argon2i$stub-one".to_string(),
        tutor_id: Some(1),
    };
    let second = User {
        username: "carol".to_string(),
        user_password: "$argon2i$stub-two".to_string(),
        tutor_id: Some(2),
    };
    users.post_new_user(first).unwrap();
    let err = users.post_new_user(second).unwrap_err();
    assert!(matches!(err, EzyTutorError::DbError(_)));
    assert_eq!(err.status_code(), 500);
    assert_eq!(err.error_response(), "Database error");
    // The first row is untouched.
    let kept = users.get_user_record("carol").unwrap();
    assert_eq!(kept.user_password, "$argon2i$stub-one");
    assert_eq!(kept.tutor_id, Some(1));
}

#[test]
fn get_missing_user_is_not_found() {
    let users = UserStore::new();
    let err = users.get_user_record("nobody").unwrap_err();
    assert_eq!(err.status_code(), 404);
    assert_eq!(err.error_response(), "User name not found");
}

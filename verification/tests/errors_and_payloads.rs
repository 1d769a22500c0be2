use ezytutor::service::errors::EzyTutorError as ServiceError;
use ezytutor::ssr::course::{backend_new_course, backend_update_course};
use ezytutor::ssr::errors::EzyTutorError as SsrError;
use ezytutor::ssr::model::{NewCourse, UpdateCourse};

#[test]
fn backend_error_kinds_map_to_statuses() {
    assert_eq!(ServiceError::DbError("pool timed out".to_string()).status_code(), 500);
    assert_eq!(ServiceError::ActixError("payload".to_string()).status_code(), 500);
    assert_eq!(ServiceError::NotFound("Tutor id not found".to_string()).status_code(), 404);
    assert_eq!(ServiceError::InvalidInput("Please provide valid Json input".to_string())
        .status_code(), 400);
}

#[test]
fn backend_error_bodies_hide_internal_detail() {
    assert_eq!(
        ServiceError::DbError("connection refused at 10.0.0.1".to_string()).error_response(),
        "Database error"
    );
    assert_eq!(
        ServiceError::ActixError("worker died".to_string()).error_response(),
        "Internal server error"
    );
    assert_eq!(
        ServiceError::NotFound("Course id not found".to_string()).error_response(),
        "Course id not found"
    );
    assert_eq!(
        ServiceError::InvalidInput("Please provide valid Json input".to_string())
            .error_response(),
        "Please provide valid Json input"
    );
}

#[test]
fn frontend_error_kinds_map_to_statuses_and_bodies() {
    assert_eq!(SsrError::DbError("x".to_string()).status_code(), 500);
    assert_eq!(SsrError::ActixError("x".to_string()).status_code(), 500);
    assert_eq!(SsrError::TeraError("missing template".to_string()).status_code(), 500);
    assert_eq!(SsrError::NotFound("User name not found".to_string()).status_code(), 404);
    assert_eq!(
        SsrError::TeraError("missing template".to_string()).error_response(),
        "Template render error"
    );
    assert_eq!(
        SsrError::NotFound("User name not found".to_string()).error_response(),
        "User name not found"
    );
}

#[test]
fn new_course_payload_carries_path_tutor_and_wraps_required_fields() {
    let form = NewCourse {
        course_name: "Third course".to_string(),
        course_description: "This is a test course".to_string(),
        course_format: "Video".to_string(),
        course_duration: "6 weeks".to_string(),
        course_structure: None,
        course_price: Some(100),
        course_language: Some("English".to_string()),
        course_level: Some("Beginner".to_string()),
    };
    let payload = backend_new_course(4, form);
    assert_eq!(payload.tutor_id, 4);
    assert_eq!(payload.course_name, "Third course");
    assert_eq!(payload.course_description.as_deref(), Some("This is a test course"));
    assert_eq!(payload.course_format.as_deref(), Some("Video"));
    assert_eq!(payload.course_duration.as_deref(), Some("6 weeks"));
    assert_eq!(payload.course_structure, None);
    assert_eq!(payload.course_price, Some(100));
    assert_eq!(payload.course_language.as_deref(), Some("English"));
    assert_eq!(payload.course_level.as_deref(), Some("Beginner"));
}

#[test]
fn update_course_payload_carries_fields_one_for_one() {
    let form = UpdateCourse {
        course_name: Some("Course name changed".to_string()),
        course_description: None,
        course_format: Some("Audio".to_string()),
        course_duration: None,
        course_structure: None,
        course_price: Some(50),
        course_language: None,
        course_level: None,
    };
    let payload = backend_update_course(form);
    assert_eq!(payload.course_name.as_deref(), Some("Course name changed"));
    assert_eq!(payload.course_description, None);
    assert_eq!(payload.course_format.as_deref(), Some("Audio"));
    assert_eq!(payload.course_duration, None);
    assert_eq!(payload.course_structure, None);
    assert_eq!(payload.course_price, Some(50));
    assert_eq!(payload.course_language, None);
    assert_eq!(payload.course_level, None);
}

use ezytutor::service::models::course::{NewCourse, UpdateCourse};
use ezytutor::service::store::course::CourseStore;

const POSTED: i64 = 1_672_531_200;

fn plain_course(name: &str) -> NewCourse {
    NewCourse {
        tutor_id: 1,
        course_name: name.to_string(),
        course_description: None,
        course_format: None,
        course_structure: None,
        course_duration: None,
        course_price: None,
        course_language: None,
        course_level: None,
    }
}

fn full_course(name: &str) -> NewCourse {
    NewCourse {
        tutor_id: 1,
        course_name: name.to_string(),
        course_description: Some("A description".to_string()),
        course_format: Some("Video".to_string()),
        course_structure: Some("Six modules".to_string()),
        course_duration: Some("6 weeks".to_string()),
        course_price: Some(100),
        course_language: Some("English".to_string()),
        course_level: Some("Beginner".to_string()),
    }
}

/// Five courses for tutor 1, with ids 1 through 5.
fn seeded_store() -> CourseStore {
    let mut store = CourseStore::new();
    store.post_new_course(full_course("First course"), POSTED).unwrap();
    store.post_new_course(full_course("Second course"), POSTED).unwrap();
    store.post_new_course(plain_course("Sparse course"), POSTED).unwrap();
    store.post_new_course(full_course("Fourth course"), POSTED).unwrap();
    store.post_new_course(full_course("Fifth course"), POSTED).unwrap();
    store
}

#[test]
fn get_all_courses_success() {
    let store = seeded_store();
    let courses = store.get_courses_for_tutor(1).unwrap();
    assert_eq!(courses.len(), 5);
    assert!(store.get_courses_for_tutor(2).unwrap().is_empty());
}

#[test]
fn get_course_detail_success() {
    let store = seeded_store();
    let course = store.get_course_details(1, 2).unwrap();
    assert_eq!(course.course_id, 2);
    assert_eq!(course.tutor_id, 1);
    assert_eq!(course.course_name, "Second course");
}

#[test]
fn get_course_detail_failure() {
    let store = seeded_store();
    let err = store.get_course_details(1, 21).unwrap_err();
    assert_eq!(err.status_code(), 404);
    assert_eq!(err.error_response(), "Course id not found");
}

#[test]
fn post_course_success() {
    let mut store = seeded_store();
    let course = store
        .post_new_course(
            NewCourse {
                tutor_id: 1,
                course_name: "Third course".to_string(),
                course_description: Some("This is a test course".to_string()),
                course_format: None,
                course_level: Some("Beginner".to_string()),
                course_price: None,
                course_duration: None,
                course_language: Some("English".to_string()),
                course_structure: None,
            },
            POSTED,
        )
        .unwrap();
    assert_eq!(course.course_id, 6);
    assert_eq!(course.course_name, "Third course");
    assert_eq!(course.course_description.as_deref(), Some("This is a test course"));
    assert_eq!(course.course_format, None);
    assert_eq!(course.posted_time, Some(POSTED));
}

#[test]
fn update_course_success() {
    let mut store = seeded_store();
    let updated = store
        .update_course_datails(
            1,
            2,
            UpdateCourse {
                course_name: Some("Course name changed".to_string()),
                course_description: Some("This is yet another test course".to_string()),
                course_format: None,
                course_level: Some("Intermediate".to_string()),
                course_price: None,
                course_duration: None,
                course_language: Some("German".to_string()),
                course_structure: None,
            },
        )
        .unwrap();
    assert_eq!(updated.course_id, 2);
    assert_eq!(updated.course_name, "Course name changed");
    assert_eq!(updated.course_description.as_deref(), Some("This is yet another test course"));
    assert_eq!(updated.course_language.as_deref(), Some("German"));
    assert_eq!(updated.course_level.as_deref(), Some("Intermediate"));
    assert_eq!(updated.course_format.as_deref(), Some("Video"));
    assert_eq!(updated.course_price, Some(100));
}

#[test]
fn delete_course_success() {
    let mut store = seeded_store();
    let msg = store.delete_course(1, 5).unwrap();
    assert_eq!(msg, "Deleted 1 record");
    assert!(store.get_course_details(1, 5).is_err());
}

#[test]
fn delete_course_failure() {
    let mut store = seeded_store();
    let msg = store.delete_course(1, 21).unwrap();
    assert_eq!(msg, "Deleted 0 record");
}

#[test]
fn empty_update_preserves_populated_row() {
    let mut store = seeded_store();
    let before = store.get_course_details(1, 1).unwrap();
    let updated = store
        .update_course_datails(
            1,
            1,
            UpdateCourse {
                course_name: None,
                course_description: None,
                course_format: None,
                course_structure: None,
                course_duration: None,
                course_price: None,
                course_language: None,
                course_level: None,
            },
        )
        .unwrap();
    assert_eq!(updated.course_name, before.course_name);
    assert_eq!(updated.course_description, before.course_description);
    assert_eq!(updated.course_format, before.course_format);
    assert_eq!(updated.course_structure, before.course_structure);
    assert_eq!(updated.course_duration, before.course_duration);
    assert_eq!(updated.course_price, before.course_price);
    assert_eq!(updated.course_language, before.course_language);
    assert_eq!(updated.course_level, before.course_level);
    assert_eq!(updated.posted_time, before.posted_time);
}

#[test]
fn empty_update_fills_absent_fields_with_defaults() {
    let mut store = seeded_store();
    let before = store.get_course_details(1, 3).unwrap();
    assert_eq!(before.course_description, None);
    let updated = store
        .update_course_datails(
            1,
            3,
            UpdateCourse {
                course_name: None,
                course_description: None,
                course_format: None,
                course_structure: None,
                course_duration: None,
                course_price: None,
                course_language: None,
                course_level: None,
            },
        )
        .unwrap();
    assert_eq!(updated.course_description.as_deref(), Some(""));
    assert_eq!(updated.course_price, Some(0));
}

#[test]
fn name_only_update_retains_other_fields() {
    let mut store = seeded_store();
    let before = store.get_course_details(1, 4).unwrap();
    let updated = store
        .update_course_datails(
            1,
            4,
            UpdateCourse {
                course_name: Some("Renamed".to_string()),
                course_description: None,
                course_format: None,
                course_structure: None,
                course_duration: None,
                course_price: None,
                course_language: None,
                course_level: None,
            },
        )
        .unwrap();
    assert_eq!(updated.course_name, "Renamed");
    assert_eq!(updated.course_description, before.course_description);
    assert_eq!(updated.course_format, before.course_format);
    assert_eq!(updated.course_structure, before.course_structure);
    assert_eq!(updated.course_duration, before.course_duration);
    assert_eq!(updated.course_price, before.course_price);
    assert_eq!(updated.course_language, before.course_language);
    assert_eq!(updated.course_level, before.course_level);
    assert_eq!(updated.posted_time, before.posted_time);
}

#[test]
fn update_missing_course_is_not_found() {
    let mut store = seeded_store();
    let err = store
        .update_course_datails(
            2,
            1,
            UpdateCourse {
                course_name: Some("Nope".to_string()),
                course_description: None,
                course_format: None,
                course_structure: None,
                course_duration: None,
                course_price: None,
                course_language: None,
                course_level: None,
            },
        )
        .unwrap_err();
    assert_eq!(err.status_code(), 404);
    assert_eq!(err.error_response(), "Course id not found");
}

use ezytutor::service::errors::EzyTutorError;
use ezytutor::service::models::tutor::{NewTutor, UpdateTutor};
use ezytutor::service::store::tutor::TutorStore;

fn seeded_store() -> TutorStore {
    let mut store = TutorStore::new();
    store
        .post_new_tutor(NewTutor {
            tutor_name: "Merlene".to_string(),
            tutor_pic_url: "http://tutor.s3.com/pic1".to_string(),
            tutor_profile: "Experienced tutor in Math".to_string(),
        })
        .unwrap();
    store
        .post_new_tutor(NewTutor {
            tutor_name: "Frank".to_string(),
            tutor_pic_url: "http://tutor.s3.com/pic2".to_string(),
            tutor_profile: "Experienced tutor in Physics".to_string(),
        })
        .unwrap();
    store
}

#[test]
fn get_all_tutors_success_test() {
    let store = seeded_store();
    let tutors = store.get_all_tutors().unwrap();
    assert_eq!(tutors.len(), 2);
    assert_eq!(tutors[0].tutor_name, "Merlene");
    assert_eq!(tutors[1].tutor_name, "Frank");
}

#[test]
fn get_tutor_detail_success() {
    let store = seeded_store();
    let tutor = store.get_tutor_details(1).unwrap();
    assert_eq!(tutor.tutor_id, 1);
    assert_eq!(tutor.tutor_name, "Merlene");
}

#[test]
fn post_tutor_success() {
    let mut store = seeded_store();
    let tutor = store
        .post_new_tutor(NewTutor {
            tutor_name: "Third tutor".into(),
            tutor_pic_url: "http://tutor.s3.com/ssdfds".to_string(),
            tutor_profile: "Experienced tutor in Statistics".to_string(),
        })
        .unwrap();
    assert_eq!(tutor.tutor_id, 3);
    assert_eq!(tutor.tutor_name, "Third tutor");
}

#[test]
fn delete_tutor_success() {
    let mut store = seeded_store();
    let msg = store.delete_tutor(2).unwrap();
    assert_eq!(msg, "Deleted 1 record");
    assert!(store.get_tutor_details(2).is_err());
}

#[test]
fn create_then_fetch_returns_identical_fields() {
    let mut store = seeded_store();
    let created = store
        .post_new_tutor(NewTutor {
            tutor_name: "Ada".to_string(),
            tutor_pic_url: "http://tutor.s3.com/ada".to_string(),
            tutor_profile: "Analytical engines".to_string(),
        })
        .unwrap();
    let fetched = store.get_tutor_details(created.tutor_id).unwrap();
    assert_eq!(fetched.tutor_id, created.tutor_id);
    assert_eq!(fetched.tutor_name, "Ada");
    assert_eq!(fetched.tutor_pic_url, "http://tutor.s3.com/ada");
    assert_eq!(fetched.tutor_profile, "Analytical engines");
}

#[test]
fn update_tutor_merges_partial_fields() {
    let mut store = seeded_store();
    let updated = store
        .update_tutor_details(
            1,
            UpdateTutor {
                tutor_name: Some("Merlene Ottey".to_string()),
                tutor_pic_url: None,
                tutor_profile: None,
            },
        )
        .unwrap();
    assert_eq!(updated.tutor_id, 1);
    assert_eq!(updated.tutor_name, "Merlene Ottey");
    assert_eq!(updated.tutor_pic_url, "http://tutor.s3.com/pic1");
    assert_eq!(updated.tutor_profile, "Experienced tutor in Math");
}

#[test]
fn fetch_missing_tutor_is_not_found() {
    let store = seeded_store();
    let err = store.get_tutor_details(21).unwrap_err();
    assert_eq!(err.status_code(), 404);
    assert_eq!(err.error_response(), "Tutor id not found");
    assert!(matches!(err, EzyTutorError::NotFound(_)));
}

#[test]
fn update_missing_tutor_is_not_found() {
    let mut store = seeded_store();
    let err = store
        .update_tutor_details(
            21,
            UpdateTutor { tutor_name: None, tutor_pic_url: None, tutor_profile: None },
        )
        .unwrap_err();
    assert_eq!(err.status_code(), 404);
    assert_eq!(err.error_response(), "Tutor id not found");
}

#[test]
fn delete_tutor_twice_reports_zero_rows() {
    let mut store = seeded_store();
    assert_eq!(store.delete_tutor(1).unwrap(), "Deleted 1 record");
    assert_eq!(store.delete_tutor(1).unwrap(), "Deleted 0 record");
}

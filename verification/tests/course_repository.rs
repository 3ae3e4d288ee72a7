use teacher_service::course_table::{
    delete_course_db, get_course_details_db, get_courses_for_teacher_db, post_new_course_db,
    update_course_details_db, CourseTable,
};
use teacher_service::models::{CreateCourse, Timestamp, UpdateCourse};

fn sample_course() -> CreateCourse {
    CreateCourse {
        teacher_id: 1,
        name: "Test course".to_string(),
        time: Some(Timestamp { year: 2025, month: 7, day: 12, hour: 10, minute: 15, second: 0 }),
        description: Some("This is a course".to_string()),
        format: None,
        structure: None,
        duration: None,
        price: None,
        language: Some("English".to_string()),
        level: Some("Beginner".to_string()),
    }
}

fn empty_update() -> UpdateCourse {
    UpdateCourse {
        name: None,
        time: None,
        description: None,
        format: None,
        structure: None,
        duration: None,
        price: None,
        language: None,
        level: None,
    }
}

#[test]
fn post_new_course_success() {
    let mut table = CourseTable::new();
    let response = post_new_course_db(&mut table, sample_course());
    assert!(response.is_ok());
}

#[test]
fn get_all_courses_success() {
    let mut table = CourseTable::new();
    post_new_course_db(&mut table, sample_course()).unwrap();
    post_new_course_db(
        &mut table,
        CreateCourse { teacher_id: 2, name: "Other teacher's course".to_string(), ..sample_course() },
    )
    .unwrap();
    let courses = get_courses_for_teacher_db(&table, 1).unwrap();
    assert_eq!(courses.len(), 1);
    assert_eq!(courses[0].teacher_id, 1);
    assert_eq!(courses[0].name, "Test course");
}

#[test]
fn get_one_course_success() {
    let mut table = CourseTable::new();
    post_new_course_db(&mut table, sample_course()).unwrap();
    let course = get_course_details_db(&table, 1, 1).unwrap();
    assert_eq!(course.teacher_id, 1);
    assert_eq!(course.id, 1);
    assert_eq!(course.name, "Test course");
    assert_eq!(
        course.time,
        Some(Timestamp { year: 2025, month: 7, day: 12, hour: 10, minute: 15, second: 0 })
    );
    assert_eq!(course.language.as_deref(), Some("English"));
    assert_eq!(course.level.as_deref(), Some("Beginner"));
    assert_eq!(course.format, None);
    assert_eq!(course.structure, None);
    assert_eq!(course.duration, None);
    assert_eq!(course.price, None);
}

#[test]
fn get_one_course_failure() {
    let mut table = CourseTable::new();
    post_new_course_db(&mut table, sample_course()).unwrap();
    let response = get_course_details_db(&table, 1, 100);
    match response {
        Ok(_) => println!("Something went wrong"),
        Err(err) => assert_eq!(err.status_code(), 404),
    }
}

#[test]
fn update_course_success() {
    let mut table = CourseTable::new();
    post_new_course_db(&mut table, sample_course()).unwrap();
    let update_param = UpdateCourse {
        name: Some("Course name changed".to_string()),
        time: Some(Timestamp { year: 2025, month: 7, day: 19, hour: 10, minute: 15, second: 0 }),
        description: Some("This is another test course".to_string()),
        format: None,
        structure: None,
        duration: None,
        price: None,
        language: Some("Chinese".to_string()),
        level: Some("Intermediate".to_string()),
    };
    let response = update_course_details_db(&mut table, 1, 1, update_param);
    assert!(response.is_ok());
    let course = get_course_details_db(&table, 1, 1).unwrap();
    assert_eq!(course.name, "Course name changed");
    assert_eq!(
        course.time,
        Some(Timestamp { year: 2025, month: 7, day: 19, hour: 10, minute: 15, second: 0 })
    );
    assert_eq!(course.description.as_deref(), Some("This is another test course"));
    assert_eq!(course.language.as_deref(), Some("Chinese"));
    assert_eq!(course.level.as_deref(), Some("Intermediate"));
    // absent fields whose stored value was null are rewritten to the type default
    assert_eq!(course.format.as_deref(), Some(""));
    assert_eq!(course.structure.as_deref(), Some(""));
    assert_eq!(course.duration.as_deref(), Some(""));
    assert_eq!(course.price, Some(0));
}

#[test]
fn update_course_failure_not_found() {
    let mut table = CourseTable::new();
    post_new_course_db(&mut table, sample_course()).unwrap();
    let response = update_course_details_db(&mut table, 1, 100, empty_update());
    match response {
        Ok(_) => panic!("update of a missing id must not succeed"),
        Err(err) => assert_eq!(err.status_code(), 404),
    }
    // the fetch is keyed by the composite key: the right id under the wrong
    // teacher is NotFound too
    let response = update_course_details_db(&mut table, 9, 1, empty_update());
    match response {
        Ok(_) => panic!("update under the wrong teacher must not succeed"),
        Err(err) => assert_eq!(err.status_code(), 404),
    }
}

#[test]
fn delete_course_success() {
    let mut table = CourseTable::new();
    post_new_course_db(&mut table, sample_course()).unwrap();
    let response = delete_course_db(&mut table, 1, 1);
    assert!(response.is_ok());
    assert_eq!(get_course_details_db(&table, 1, 1).unwrap_err().status_code(), 404);
}

#[test]
fn delete_course_failure() {
    let mut table = CourseTable::new();
    post_new_course_db(&mut table, sample_course()).unwrap();
    let response = delete_course_db(&mut table, 1, 101);
    match response {
        Ok(_) => println!("Something went wrong"),
        Err(err) => assert_eq!(err.status_code(), 404),
    }
}

#[test]
fn get_all_courses_empty_is_ok() {
    let mut table = CourseTable::new();
    post_new_course_db(&mut table, sample_course()).unwrap();
    // a teacher with zero courses yields an empty sequence, not an error
    let courses = get_courses_for_teacher_db(&table, 42).unwrap();
    assert!(courses.is_empty());
}

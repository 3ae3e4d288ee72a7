use teacher_service::models::{CreateTeacher, UpdateTeacher};
use teacher_service::teacher_table::{
    delete_teacher_db, get_all_teachers_db, get_teacher_details_db, post_new_teacher_db,
    update_teacher_details_db, TeacherTable,
};

fn sample_teacher() -> CreateTeacher {
    CreateTeacher {
        name: "A New Teacher".to_string(),
        picture_url: "https://i2.hdslb.com/bfs/article/1f8a3ece569b3d61903fe2062cf71d96435d6f8b.jpg@1192w.avif".to_string(),
        profile: "This is a test profile".to_string(),
    }
}

#[test]
fn post_new_teacher_success() {
    let mut table = TeacherTable::new();
    let response = post_new_teacher_db(&mut table, sample_teacher());
    assert!(response.is_ok());
}

#[test]
fn get_all_teachers_success() {
    let mut table = TeacherTable::new();
    post_new_teacher_db(&mut table, sample_teacher()).unwrap();
    let response = get_all_teachers_db(&table);
    let teachers = response.unwrap();
    assert_eq!(teachers.len(), 1);
    assert_eq!(teachers[0].id, 1);
    assert_eq!(teachers[0].name, "A New Teacher");
}

#[test]
fn get_teacher_detail_success() {
    let mut table = TeacherTable::new();
    post_new_teacher_db(&mut table, sample_teacher()).unwrap();
    let response = get_teacher_details_db(&table, 1);
    let teacher = response.unwrap();
    assert_eq!(teacher.id, 1);
    assert_eq!(teacher.name, "A New Teacher");
    assert_eq!(teacher.profile, "This is a test profile");
}

#[test]
fn get_teacher_detail_failure() {
    let mut table = TeacherTable::new();
    post_new_teacher_db(&mut table, sample_teacher()).unwrap();
    let response = get_teacher_details_db(&table, 100);
    match response {
        Ok(_) => println!("Something went wrong"),
        Err(err) => assert_eq!(err.status_code(), 404),
    }
}

#[test]
fn update_teacher_success() {
    let mut table = TeacherTable::new();
    post_new_teacher_db(&mut table, sample_teacher()).unwrap();
    post_new_teacher_db(
        &mut table,
        CreateTeacher {
            name: "Second Teacher".to_string(),
            picture_url: "https://example/second.jpg".to_string(),
            profile: "Second profile".to_string(),
        },
    )
    .unwrap();
    let update_param = UpdateTeacher {
        name: Some("Teacher name changed".to_string()),
        picture_url: Some("https://i2.hdslb.com/bfs/article/6e82414fa0c96d530caa120caed421240df75cfc.jpg@1192w.avif".to_string()),
        profile: Some("This is a update profile".to_string()),
    };
    let response = update_teacher_details_db(&mut table, 2, update_param);
    assert!(response.is_ok());
    let teacher = get_teacher_details_db(&table, 2).unwrap();
    assert_eq!(teacher.name, "Teacher name changed");
    assert_eq!(teacher.profile, "This is a update profile");
    // the other row is untouched
    let first = get_teacher_details_db(&table, 1).unwrap();
    assert_eq!(first.name, "A New Teacher");
}

#[test]
fn update_teacher_failure_not_found() {
    let mut table = TeacherTable::new();
    post_new_teacher_db(&mut table, sample_teacher()).unwrap();
    let update_param = UpdateTeacher {
        name: Some("Teacher name changed".to_string()),
        picture_url: None,
        profile: None,
    };
    let response = update_teacher_details_db(&mut table, 100, update_param);
    match response {
        Ok(_) => panic!("update of a missing id must not succeed"),
        Err(err) => assert_eq!(err.status_code(), 404),
    }
}

#[test]
fn delete_teacher_success() {
    let mut table = TeacherTable::new();
    post_new_teacher_db(&mut table, sample_teacher()).unwrap();
    post_new_teacher_db(
        &mut table,
        CreateTeacher {
            name: "Second Teacher".to_string(),
            picture_url: "https://example/second.jpg".to_string(),
            profile: "Second profile".to_string(),
        },
    )
    .unwrap();
    post_new_teacher_db(
        &mut table,
        CreateTeacher {
            name: "Third Teacher".to_string(),
            picture_url: "https://example/third.jpg".to_string(),
            profile: "Third profile".to_string(),
        },
    )
    .unwrap();
    let response = delete_teacher_db(&mut table, 3);
    assert!(response.is_ok());
    assert_eq!(get_teacher_details_db(&table, 3).unwrap_err().status_code(), 404);
}

#[test]
fn delete_teacher_failure() {
    let mut table = TeacherTable::new();
    post_new_teacher_db(&mut table, sample_teacher()).unwrap();
    let response = delete_teacher_db(&mut table, 100);
    match response {
        Ok(_) => println!("Something went wrong"),
        Err(err) => assert_eq!(err.status_code(), 404),
    }
}

#[test]
fn get_all_teachers_empty_is_not_found() {
    let table = TeacherTable::new();
    let response = get_all_teachers_db(&table);
    match response {
        Ok(_) => panic!("an empty teacher table must report NotFound"),
        Err(err) => {
            assert_eq!(err.status_code(), 404);
            assert_eq!(err.message().as_str(), "Teacher not found");
        }
    }
}

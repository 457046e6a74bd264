//! The service layer against the in-memory store.

use students::domain::NewStudent;
use students::domain::UpdateStudent;
use students::service::StudentService;
use students::service::StudentServiceImpl;
use students::store::MemoryStudentRepository;
use students::store::StudentRepository;

fn seeded_store(id: &str, name: &str, last_name: &str, created_on: &str) -> MemoryStudentRepository {
    let mut repository = MemoryStudentRepository::new();
    repository
        .create(&NewStudent {
            id: String::from(id),
            name: String::from(name),
            last_name: String::from(last_name),
            created_on: String::from(created_on),
        })
        .unwrap();
    repository
}

#[test]
fn test_all() {
    let repository = seeded_store(
        "14322988-32fe-447c-ac38-06fb6c699b4a",
        "John",
        "Doe",
        "2021-01-01T00:00:00Z",
    );
    let service = StudentServiceImpl::new(repository);
    let students = service.all().unwrap();
    assert_eq!(students.len(), 1);
    assert_eq!(students[0].id, "14322988-32fe-447c-ac38-06fb6c699b4a")
}

#[test]
fn test_get() {
    let expected_id = "some-id";
    let repository = seeded_store(expected_id, "John", "Doe", "2021-01-01T00:00:00Z");
    let service = StudentServiceImpl::new(repository);
    let student = service.get(expected_id).unwrap();
    assert_eq!(student.id, expected_id);
}

#[test]
fn test_create() {
    let repository = MemoryStudentRepository::new();
    let new_student = NewStudent {
        created_on: String::from("2021-01-01T00:00:00Z"),
        id: String::from("new-id"),
        name: String::from("John"),
        last_name: String::from("Doe"),
    };
    let mut service = StudentServiceImpl::new(repository);
    let student = service.create(&new_student).unwrap();
    assert_eq!(student.id, "new-id");
}

#[test]
fn test_create_with_invalid_student() {
    let repository = MemoryStudentRepository::new();
    let mut service = StudentServiceImpl::new(repository);

    let invalid_student = NewStudent {
        id: String::from("some-id"),
        name: String::new(),
        last_name: String::from("Doe"),
        created_on: String::from("2021-01-01T00:00:00Z"),
    };

    let result = service.create(&invalid_student);

    assert!(result.is_err(), "Expected an error due to validation");
}

#[test]
fn test_update() {
    let student_id = "update-id";
    let repository = seeded_store(student_id, "John", "Doe", "2021-01-01T00:00:00Z");
    let update_student = UpdateStudent {
        name: String::from("John"),
        last_name: String::from("Doe"),
    };
    let mut service = StudentServiceImpl::new(repository);
    let student = service.update(student_id, &update_student).unwrap();
    assert_eq!(student.id, student_id);
}

#[test]
fn test_update_with_invalid_student() {
    let repository = MemoryStudentRepository::new();
    let mut service = StudentServiceImpl::new(repository);

    let invalid_student = UpdateStudent {
        name: String::new(),
        last_name: String::from("Doe"),
    };

    let result = service.update("id", &invalid_student);

    assert!(result.is_err(), "Expected an error due to validation");
}

#[test]
fn test_delete() {
    let delete_id = "delete-id";
    let repository = seeded_store(delete_id, "John", "Doe", "2021-01-01T00:00:00Z");
    let mut service = StudentServiceImpl::new(repository);
    let student = service.delete(delete_id).unwrap();
    assert_eq!(student.id, delete_id);
}

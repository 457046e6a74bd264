//! End-to-end behaviour of the three layers on concrete values.

use students::domain::NewStudent;
use students::domain::UpdateStudent;
use students::error::ApiError;
use students::error::DbError;
use students::handler::create_student;
use students::handler::delete_student;
use students::handler::list_students;
use students::handler::put_students;
use students::handler::CreateStudentRequest;
use students::handler::UpdateStudentRequest;
use students::response::ResponseBody;
use students::service::StudentService;
use students::service::StudentServiceImpl;
use students::store::MemoryStudentRepository;
use students::store::StudentRepository;
use students::validation::violation_message;
use students::validation::violations_message;
use students::validation::StudentField;
use students::validation::Violation;

fn john_doe(id: &str) -> NewStudent {
    NewStudent {
        id: String::from(id),
        name: String::from("John"),
        last_name: String::from("Doe"),
        created_on: String::from("2021-01-01T00:00:00Z"),
    }
}

#[test]
fn create_then_get_round_trips() {
    let repository = MemoryStudentRepository::new();
    let mut service = StudentServiceImpl::new(repository);

    let created = service.create(&john_doe("round-trip-id")).unwrap();
    let fetched = service.get("round-trip-id").unwrap();

    assert_eq!(fetched, created);
}

#[test]
fn absent_id_always_fails_with_not_found() {
    let repository = MemoryStudentRepository::new();
    let mut service = StudentServiceImpl::new(repository);

    let got = service.get("missing");
    assert!(matches!(got, Err(ApiError::DbError(DbError::NotFound))));

    let update = UpdateStudent {
        name: String::from("John"),
        last_name: String::from("Doe"),
    };
    let updated = service.update("missing", &update);
    assert!(matches!(updated, Err(ApiError::DbError(DbError::NotFound))));

    let deleted = service.delete("missing");
    assert!(matches!(deleted, Err(ApiError::DbError(DbError::NotFound))));
}

#[test]
fn invalid_create_collects_all_violations_and_leaves_store_untouched() {
    let repository = MemoryStudentRepository::new();
    let mut service = StudentServiceImpl::new(repository);

    let invalid = NewStudent {
        id: String::from("invalid-id"),
        name: String::new(),
        last_name: String::new(),
        created_on: String::from("2021-01-01T00:00:00Z"),
    };

    let result = service.create(&invalid);
    match result {
        Err(ApiError::ValidationError(violations)) => {
            assert_eq!(
                violations,
                vec![
                    Violation { field: StudentField::Name },
                    Violation { field: StudentField::LastName },
                ]
            );
        }
        other => panic!("expected a validation error, got {:?}", other),
    }

    assert_eq!(service.all().unwrap().len(), 0);
}

#[test]
fn invalid_update_is_rejected_before_the_store_is_asked() {
    let mut repository = MemoryStudentRepository::new();
    repository.create(&john_doe("kept-id")).unwrap();
    let mut service = StudentServiceImpl::new(repository);

    let invalid = UpdateStudent {
        name: String::from("John"),
        last_name: String::new(),
    };

    let result = service.update("kept-id", &invalid);
    match result {
        Err(ApiError::ValidationError(violations)) => {
            assert_eq!(violations, vec![Violation { field: StudentField::LastName }]);
        }
        other => panic!("expected a validation error, got {:?}", other),
    }

    let unchanged = service.get("kept-id").unwrap();
    assert_eq!(unchanged.name, "John");
    assert_eq!(unchanged.last_name, "Doe");
}

#[test]
fn delete_then_get_yields_not_found() {
    let repository = MemoryStudentRepository::new();
    let mut service = StudentServiceImpl::new(repository);

    service.create(&john_doe("gone-id")).unwrap();
    service.delete("gone-id").unwrap();

    let got = service.get("gone-id");
    assert!(matches!(got, Err(ApiError::DbError(DbError::NotFound))));
}

#[test]
fn repeated_listings_are_equal() {
    let repository = MemoryStudentRepository::new();
    let mut service = StudentServiceImpl::new(repository);
    service.create(&john_doe("first-id")).unwrap();
    service
        .create(&NewStudent {
            id: String::from("second-id"),
            name: String::from("Jane"),
            last_name: String::from("Doe"),
            created_on: String::from("2021-01-02T00:00:00Z"),
        })
        .unwrap();

    let first = service.all().unwrap();
    let second = service.all().unwrap();

    assert_eq!(first, second);
    assert_eq!(first.len(), 2);
}

#[test]
fn scenario_created_record_is_listed() {
    let repository = MemoryStudentRepository::new();
    let mut service = StudentServiceImpl::new(repository);

    let request = CreateStudentRequest {
        name: String::from("John"),
        last_name: String::from("Doe"),
    };
    let resp = create_student(&mut service, &request);

    assert_eq!(resp.status, 200);
    let created = match resp.body {
        ResponseBody::SingleStudent(s) => s,
        other => panic!("expected a single-record body, got {:?}", other),
    };
    assert_eq!(created.id.chars().count(), 36);
    assert!(created.created_on.chars().count() >= 19);
    assert_eq!(created.name, "John");
    assert_eq!(created.last_name, "Doe");

    let listing = list_students(&service);
    match listing.body {
        ResponseBody::StudentList(all) => assert_eq!(all, vec![created]),
        other => panic!("expected a list body, got {:?}", other),
    }
}

#[test]
fn scenario_put_unknown_id_answers_not_found() {
    let repository = MemoryStudentRepository::new();
    let mut service = StudentServiceImpl::new(repository);

    let request = UpdateStudentRequest {
        name: String::from("John"),
        last_name: String::from("Doe"),
    };
    let resp = put_students(&mut service, "unknown-id", &request);

    assert_eq!(resp.status, 404);
    match resp.body {
        ResponseBody::Message { message } => assert_eq!(message, "Not Found"),
        other => panic!("expected a message body, got {:?}", other),
    }
}

#[test]
fn scenario_post_empty_name_lists_the_violation() {
    let repository = MemoryStudentRepository::new();
    let mut service = StudentServiceImpl::new(repository);

    let request = CreateStudentRequest {
        name: String::new(),
        last_name: String::from("Doe"),
    };
    let resp = create_student(&mut service, &request);

    assert_eq!(resp.status, 400);
    match resp.body {
        ResponseBody::Error { message, error } => {
            assert_eq!(message, "Validation failed");
            assert_eq!(error, "name: length must be between 1 and 200");
        }
        other => panic!("expected an error body, got {:?}", other),
    }
    assert_eq!(service.all().unwrap().len(), 0);
}

#[test]
fn scenario_delete_existing_then_get_is_not_found() {
    let mut repository = MemoryStudentRepository::new();
    repository.create(&john_doe("short-lived-id")).unwrap();
    let mut service = StudentServiceImpl::new(repository);

    let resp = delete_student(&mut service, "short-lived-id");
    assert_eq!(resp.status, 204);
    assert!(matches!(resp.body, ResponseBody::Empty));

    let got = service.get("short-lived-id");
    assert!(matches!(got, Err(ApiError::DbError(DbError::NotFound))));
}

#[test]
fn length_rule_boundaries() {
    let repository = MemoryStudentRepository::new();
    let mut service = StudentServiceImpl::new(repository);

    let longest = "x".repeat(200);
    let accepted = service.create(&NewStudent {
        id: String::from("long-id"),
        name: longest.clone(),
        last_name: String::from("Doe"),
        created_on: String::from("2021-01-01T00:00:00Z"),
    });
    assert!(accepted.is_ok());
    assert_eq!(accepted.unwrap().name, longest);

    let too_long = "x".repeat(201);
    let rejected = service.create(&NewStudent {
        id: String::from("too-long-id"),
        name: too_long,
        last_name: String::from("Doe"),
        created_on: String::from("2021-01-01T00:00:00Z"),
    });
    match rejected {
        Err(ApiError::ValidationError(violations)) => {
            assert_eq!(violations, vec![Violation { field: StudentField::Name }]);
        }
        other => panic!("expected a validation error, got {:?}", other),
    }
}

#[test]
fn duplicate_id_is_an_opaque_storage_error() {
    let mut repository = MemoryStudentRepository::new();
    repository.create(&john_doe("taken-id")).unwrap();

    let conflict = repository.create(&john_doe("taken-id"));
    assert!(matches!(conflict, Err(DbError::Storage(_))));

    let mut service = StudentServiceImpl::new(repository);
    let through_service = service.create(&john_doe("taken-id"));
    assert!(matches!(
        through_service,
        Err(ApiError::DbError(DbError::Storage(_)))
    ));
    assert_eq!(service.all().unwrap().len(), 1);
}

#[test]
fn storage_assigns_increasing_mnr() {
    let mut repository = MemoryStudentRepository::new();
    let first = repository.create(&john_doe("mnr-one")).unwrap();
    let second = repository
        .create(&NewStudent {
            id: String::from("mnr-two"),
            name: String::from("Jane"),
            last_name: String::from("Doe"),
            created_on: String::from("2021-01-02T00:00:00Z"),
        })
        .unwrap();

    assert_eq!(first.mnr, 1);
    assert_eq!(second.mnr, 2);
}

#[test]
fn update_replaces_only_the_mutable_attributes() {
    let mut repository = MemoryStudentRepository::new();
    let created = repository.create(&john_doe("stable-id")).unwrap();

    let updated = repository
        .update(
            "stable-id",
            &UpdateStudent {
                name: String::from("Johnny"),
                last_name: String::from("Dover"),
            },
        )
        .unwrap();

    assert_eq!(updated.id, created.id);
    assert_eq!(updated.mnr, created.mnr);
    assert_eq!(updated.created_on, created.created_on);
    assert_eq!(updated.name, "Johnny");
    assert_eq!(updated.last_name, "Dover");
}

#[test]
fn status_codes_follow_the_error_kind() {
    assert_eq!(ApiError::ValidationError(vec![]).status_code(), 400);
    assert_eq!(ApiError::DbError(DbError::NotFound).status_code(), 404);
    assert_eq!(
        ApiError::DbError(DbError::Storage(String::from("disk failed"))).status_code(),
        500
    );
}

#[test]
fn violation_texts_are_joined_in_field_order() {
    let name = Violation { field: StudentField::Name };
    let last_name = Violation { field: StudentField::LastName };

    assert_eq!(
        violation_message(&name),
        "name: length must be between 1 and 200"
    );
    assert_eq!(
        violation_message(&last_name),
        "last_name: length must be between 1 and 200"
    );
    assert_eq!(violations_message(&vec![]), "");
    assert_eq!(
        violations_message(&vec![name, last_name]),
        "name: length must be between 1 and 200, last_name: length must be between 1 and 200"
    );
}

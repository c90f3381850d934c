//! What clients are told of failures.

use task_api::error::{ApiError, DbFailure, StatusCode};
use task_api::routes::{Endpoint, Method};
use task_api::text::{contains_char, contains_text};

fn told(error: ApiError) -> (u16, serde_json::Value) {
    let (status, body) = error.into_response();
    (status.as_u16(), serde_json::Value::Object(body))
}

fn check(error: ApiError, status: u16, message: &str, error_type: &str) {
    let (number, body) = told(error);
    assert_eq!(number, status);
    assert_eq!(body["error_code"], status);
    assert_eq!(body["message"], message);
    assert_eq!(body["error_type"], error_type);
    assert_eq!(body.as_object().unwrap().len(), 3);
}

#[test]
fn every_failure_has_its_answer() {
    check(
        ApiError::UserAlreadyExists("a@b.c".to_string()),
        409,
        "User with email 'a@b.c' already exists.",
        "UserAlreadyExists",
    );
    check(ApiError::InvalidCredentials, 401, "Invalid email or password", "InvalidCredentials");
    check(
        ApiError::TaskNotFound(0xa1a2a3a4_b1b2_c1c2_d1d2_d3d4d5d6d7d8),
        404,
        "Task with ID a1a2a3a4-b1b2-c1c2-d1d2-d3d4d5d6d7d8 not found.",
        "TaskNotFound",
    );
    check(
        ApiError::InvalidInput("too short".to_string()),
        400,
        "Invalid input: too short.",
        "InvalidInput",
    );
    check(
        ApiError::DuplicateEntry("17".to_string()),
        409,
        "Task with ID 17 already exists",
        "DuplicateEntry",
    );
    check(
        ApiError::InternalServerError("secret".to_string()),
        500,
        "An unexpected internal server error occured",
        "InternalServerError",
    );
    check(
        ApiError::DbError("secret".to_string()),
        500,
        "An unexpected internal server error occured.",
        "DatabaseError",
    );
}

#[test]
fn identifiers_keep_their_leading_zeros() {
    let (_, body) = told(ApiError::TaskNotFound(0xf));
    assert_eq!(body["message"], "Task with ID 00000000-0000-0000-0000-00000000000f not found.");
    let (_, other) = told(ApiError::TaskNotFound(0xf << 124));
    assert_eq!(other["message"], "Task with ID f0000000-0000-0000-0000-000000000000 not found.");
    assert_ne!(body["message"], other["message"]);
}

#[test]
fn inner_texts_are_not_disclosed() {
    let left = told(ApiError::InternalServerError("one".to_string()));
    let right = told(ApiError::InternalServerError("another".to_string()));
    assert_eq!(left, right);
    let left = told(ApiError::DbError("one".to_string()));
    let right = told(ApiError::DbError("another".to_string()));
    assert_eq!(left, right);
}

fn postgres(code: &str, detail: Option<&str>) -> DbFailure {
    DbFailure::Postgres {
        code: code.to_string(),
        detail: detail.map(str::to_string),
        text: "the error".to_string(),
    }
}

#[test]
fn unique_violations_are_told_apart_by_their_detail() {
    let known = postgres("23505", Some("Key (email)=(a@b.c) already exists."));
    assert!(known.reports_duplicate());
    match ApiError::from(known) {
        ApiError::UserAlreadyExists(email) => assert_eq!(email, ""),
        other => panic!("{other:?}"),
    }
    match ApiError::from(postgres("23505", Some("Key (id)=(7) already exists."))) {
        ApiError::DbError(text) => {
            assert_eq!(text, "Unique constraint violated: Key (id)=(7) already exists.")
        }
        other => panic!("{other:?}"),
    }
    match ApiError::from(postgres("23505", None)) {
        ApiError::DbError(text) => assert_eq!(
            text,
            "Unique constraint violated: A record with that unique value already exists."
        ),
        other => panic!("{other:?}"),
    }
}

#[test]
fn missing_values_are_the_clients_fault() {
    match ApiError::from(postgres("23502", Some("Failing row"))) {
        ApiError::InvalidInput(text) => {
            assert_eq!(text, "A required field is missing. Detail: Failing row")
        }
        other => panic!("{other:?}"),
    }
    match ApiError::from(postgres("23502", None)) {
        ApiError::InvalidInput(text) => assert_eq!(
            text,
            "A required field is missing. Detail: No specific details available."
        ),
        other => panic!("{other:?}"),
    }
}

#[test]
fn other_database_failures() {
    let other = postgres("42P01", None);
    assert!(!other.reports_duplicate());
    match ApiError::from(other) {
        ApiError::DbError(text) => assert_eq!(text, "Uncategorized database error: the error"),
        other => panic!("{other:?}"),
    }
    assert!(matches!(ApiError::from(DbFailure::RowNotFound), ApiError::InvalidCredentials));
    match ApiError::from(DbFailure::OtherDatabase("odd".to_string())) {
        ApiError::DbError(text) => assert_eq!(text, "odd"),
        other => panic!("{other:?}"),
    }
    match ApiError::from(DbFailure::PoolTimedOut) {
        ApiError::InternalServerError(text) => {
            assert_eq!(text, "Database connection pool exhausted. Please try again later.")
        }
        other => panic!("{other:?}"),
    }
    match ApiError::from(DbFailure::Io("pipe".to_string())) {
        ApiError::InternalServerError(text) => assert_eq!(text, "Database I/O error: pipe"),
        other => panic!("{other:?}"),
    }
    match ApiError::from(DbFailure::Decode("bad".to_string())) {
        ApiError::InternalServerError(text) => {
            assert_eq!(text, "Database data decoding error. Check schema and types: bad")
        }
        other => panic!("{other:?}"),
    }
    match ApiError::from(DbFailure::Other("closed".to_string())) {
        ApiError::DbError(text) => assert_eq!(text, "closed"),
        other => panic!("{other:?}"),
    }
}

#[test]
fn status_numbers() {
    assert_eq!(StatusCode::Success.as_u16(), 200);
    assert_eq!(StatusCode::Created.as_u16(), 201);
    assert_eq!(StatusCode::NoContent.as_u16(), 204);
    assert_eq!(StatusCode::BadRequest.as_u16(), 400);
    assert_eq!(StatusCode::Unauthorized.as_u16(), 401);
    assert_eq!(StatusCode::NotFound.as_u16(), 404);
    assert_eq!(StatusCode::Conflict.as_u16(), 409);
    assert_eq!(StatusCode::InternalServerError.as_u16(), 500);
}

#[test]
fn texts_are_searched_by_characters() {
    assert!(contains_text("Key (email)", "email"));
    assert!(contains_text("email", "email"));
    assert!(contains_text("", ""));
    assert!(!contains_text("emai", "email"));
    assert!(!contains_text("Email", "email"));
    assert!(contains_text("\u{e9}\u{e9}mail", "\u{e9}mail"));
    assert!(contains_char("a@b", '@'));
    assert!(!contains_char("", '@'));
}

#[test]
fn routes_lead_to_one_endpoint_each() {
    let all = Endpoint::all();
    assert_eq!(all.len(), 7);
    for (i, left) in all.iter().enumerate() {
        for right in &all[i + 1..] {
            assert!(left.method() != right.method() || left.path() != right.path());
        }
    }
    assert_eq!(Endpoint::GetTaskById.path(), "/tasks/{id}");
    assert_eq!(Endpoint::GetTaskById.method(), Method::Get);
    assert_eq!(Endpoint::CreateTask.path(), "/tasks");
    assert_eq!(Endpoint::CreateTask.method(), Method::Post);
    assert_eq!(Endpoint::GetAllTasks.path(), "/tasks");
    assert_eq!(Endpoint::UpdateTask.method(), Method::Put);
    assert_eq!(Endpoint::DeleteTask.method(), Method::Delete);
    assert_eq!(Endpoint::RegisterUser.path(), "/register");
    assert_eq!(Endpoint::LoginUser.path(), "/login");
}

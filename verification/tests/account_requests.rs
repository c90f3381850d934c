//! Registration and login.

use task_api::accounts::{
    answer_login, check_registration, insert_user_query, login_user, login_user_query,
    register_user, register_user_query, register_user_query_with_salt, try_login_user,
    LoginUserPayload, RegisterUserPayload, User,
};
use task_api::error::{ApiError, DbFailure, StatusCode};
use task_api::password::{can_check, can_read};
use task_api::store::{Param, Query, INSERT_USER, SELECT_USER};

const SALT: &str = "c29tZXNhbHQxMjM0NTY3OA";

fn registration(email: &str, password: &str) -> RegisterUserPayload {
    RegisterUserPayload { email: email.to_string(), password: password.to_string() }
}

fn login(email: &str, password: &str) -> LoginUserPayload {
    LoginUserPayload { email: email.to_string(), password: password.to_string() }
}

fn user(email: &str, hash: &str, salt: &str) -> User {
    User {
        id: 0xa1a2a3a4_b1b2_c1c2_d1d2_d3d4d5d6d7d8,
        email: email.to_string(),
        password_hash: hash.to_string(),
        password_salt: salt.to_string(),
        created_at: 0,
        updated_at: 0,
    }
}

fn stored(query: Query) -> (String, String, String) {
    match query {
        Query::InsertUser { email, password_hash, password_salt } => {
            (email, password_hash, password_salt)
        }
        other => panic!("{other:?}"),
    }
}

fn refusal(payload: &RegisterUserPayload) -> String {
    match register_user_query(payload) {
        Err(ApiError::InvalidInput(text)) => text,
        other => panic!("{other:?}"),
    }
}

#[test]
fn faulty_registrations_are_refused() {
    assert_eq!(refusal(&registration("", "password")), "Email and password is required.");
    assert_eq!(refusal(&registration("a@b.c", "")), "Email and password is required.");
    assert_eq!(refusal(&registration("a.b.c", "password")), "Invalid email format.");
    assert_eq!(
        refusal(&registration("a@b.c", "1234567")),
        "Password must be at least 8 characters long."
    );
    assert!(check_registration(&registration("a@b.c", "12345678")).is_ok());
    assert!(check_registration(&registration("@", "\u{e9}\u{e9}\u{e9}\u{e9}")).is_ok());
}

#[test]
fn registration_under_a_given_salt() {
    let query = register_user_query_with_salt(&registration("a@b.c", "hunter2hunter2"), SALT);
    let (email, hash, salt) = stored(query.unwrap());
    assert_eq!(email, "a@b.c");
    let head = "$argon2id$v=19$m=19456,t=2,p=1$c29tZXNhbHQxMjM0NTY3OA$";
    assert!(hash.starts_with(head));
    assert_eq!(hash.len(), head.len() + 43);
    assert_eq!(salt, "YzI5dFpYTmhiSFF4TWpNME5UWTNPQQ==");
}

#[test]
fn registration_under_a_bad_salt_fails() {
    let query = register_user_query_with_salt(&registration("a@b.c", "hunter2hunter2"), "abc");
    match query {
        Err(ApiError::InternalServerError(text)) => {
            assert!(text.starts_with("Failed to has password: salt invalid: "))
        }
        other => panic!("{other:?}"),
    }
}

#[test]
fn hashing_errors_are_reported() {
    let cause = argon2::password_hash::Error::Password;
    match insert_user_query("a@b.c".to_string(), SALT, Err(cause)) {
        Err(ApiError::InternalServerError(text)) => {
            assert_eq!(text, "Failed to has password: invalid password")
        }
        other => panic!("{other:?}"),
    }
}

#[test]
fn salts_are_stored_in_base64() {
    let texts = [("", ""), ("f", "Zg=="), ("fo", "Zm8="), ("foo", "Zm9v"), ("foobar", "Zm9vYmFy")];
    for (salt, encoded) in texts {
        let query = insert_user_query("e".to_string(), salt, Ok("h".to_string()));
        let (email, hash, stored_salt) = stored(query.unwrap());
        assert_eq!(email, "e");
        assert_eq!(hash, "h");
        assert_eq!(stored_salt, encoded);
    }
    let query = insert_user_query("e".to_string(), "~~~???", Ok("h".to_string()));
    assert_eq!(stored(query.unwrap()).2, "fn5+Pz8/");
}

#[test]
fn salts_are_fresh() {
    let payload = registration("a@b.c", "hunter2hunter2");
    let (_, first_hash, first_salt) = stored(register_user_query(&payload).unwrap());
    let (_, second_hash, second_salt) = stored(register_user_query(&payload).unwrap());
    assert_ne!(first_salt, second_salt);
    assert_ne!(first_hash, second_hash);
    assert_eq!(first_salt.len(), 32);
    assert!(first_salt.ends_with("=="));
}

#[test]
fn registered_user_logs_in() {
    let payload = registration("a@b.c", "hunter2hunter2");
    let query = register_user_query(&payload).unwrap();
    let (email, hash, salt) = stored(query);
    assert!(can_check(&hash));

    let (status, body) =
        register_user(payload, Ok(user(&email, &hash, &salt))).unwrap();
    assert_eq!(status, StatusCode::Created);
    assert_eq!(body["message"], "User registered successfully.");
    assert_eq!(body["user_id"], "a1a2a3a4-b1b2-c1c2-d1d2-d3d4d5d6d7d8");
    assert_eq!(body["email"], "a@b.c");
    assert_eq!(body.len(), 3);

    let (status, body) =
        login_user(login("a@b.c", "hunter2hunter2"), Ok(Some(user(&email, &hash, &salt)))).unwrap();
    assert_eq!(status, StatusCode::Success);
    assert_eq!(body["message"], "Login successful");
    assert_eq!(body["user_id"], "a1a2a3a4-b1b2-c1c2-d1d2-d3d4d5d6d7d8");
    assert_eq!(body["email"], "a@b.c");
    assert_eq!(body.len(), 3);

    let wrong = login_user(login("a@b.c", "hunter3hunter3"), Ok(Some(user(&email, &hash, &salt))));
    assert!(matches!(wrong, Err(ApiError::InvalidCredentials)));
    let tried = try_login_user(login("a@b.c", "hunter2hunter2"), Ok(Some(user(&email, &hash, ""))));
    assert_eq!(tried.unwrap().unwrap().0, StatusCode::Success);
}

#[test]
fn refused_logins_look_alike() {
    let unknown = login_user(login("a@b.c", "password"), Ok(None)).unwrap_err().into_response();
    let wrong = answer_login(user("a@b.c", "", ""), false).unwrap_err().into_response();
    assert_eq!(unknown, wrong);
    assert_eq!(unknown.0.as_u16(), 401);
}

#[test]
fn accepted_login_is_answered() {
    let (status, body) = answer_login(user("a@b.c", "", ""), true).unwrap();
    assert_eq!(status.as_u16(), 200);
    assert_eq!(body["message"], "Login successful");
}

#[test]
fn duplicate_registration_names_the_address() {
    let duplicate = || DbFailure::Postgres {
        code: "23505".to_string(),
        detail: None,
        text: "duplicate key".to_string(),
    };
    match register_user(registration("a@b.c", "password"), Err(duplicate())) {
        Err(ApiError::UserAlreadyExists(email)) => assert_eq!(email, "a@b.c"),
        other => panic!("{other:?}"),
    }
    let lost = register_user(registration("a@b.c", "password"), Err(DbFailure::PoolTimedOut));
    assert!(matches!(lost, Err(ApiError::InternalServerError(_))));
}

#[test]
fn login_needs_both_fields() {
    for payload in [login("", "password"), login("a@b.c", "")] {
        match login_user_query(&payload) {
            Err(ApiError::InvalidInput(text)) => {
                assert_eq!(text, "Email and password are required")
            }
            other => panic!("{other:?}"),
        }
    }
    let statement = login_user_query(&login("a@b.c", "x")).unwrap().statement();
    assert_eq!(statement.sql, SELECT_USER);
    assert_eq!(statement.params, vec![Param::Text("a@b.c".to_string())]);
}

#[test]
fn registration_statement() {
    let query = Query::InsertUser {
        email: "e".to_string(),
        password_hash: "h".to_string(),
        password_salt: "s".to_string(),
    };
    let statement = query.statement();
    assert_eq!(statement.sql, INSERT_USER);
    assert_eq!(
        statement.params,
        vec![
            Param::Text("e".to_string()),
            Param::Text("h".to_string()),
            Param::Text("s".to_string()),
        ]
    );
}

#[test]
fn unreadable_hashes_are_not_checked() {
    let hash = "not a hash";
    assert!(!can_check(hash));
    assert!(!can_read(hash));
    assert!(try_login_user(login("a@b.c", "password"), Ok(Some(user("a@b.c", hash, "")))).is_none());
    let rest = "$c29tZXNhbHQxMjM0NTY3OA$c29tZXNhbHQxMjM0NTY3OA";
    assert!(can_check(&format!("$argon2id$v=19$m=64,t=1,p=99999999{rest}")));
    assert!(!can_check(&format!("$argon2id$v=19$m=64,t=1,p=999999999{rest}")));
    assert!(!can_check(&format!("$argon2id$v=19$p=999999999,m=64{rest}")));
    assert!(can_check(&format!("$argon2id$v=19$m=999999999,t=1{rest}")));
    assert!(can_read(&format!("$argon2id$v=19$m=64,t=1,p=999999999{rest}")));
    assert!(try_login_user(login("a@b.c", "password"), Ok(None)).unwrap().is_err());
}

#[test]
fn foreign_hashes_accept_nobody() {
    let hash = "$argon2id$v=19$m=64,t=1,p=99999999$c29tZXNhbHQxMjM0NTY3OA$c29tZXNhbHQxMjM0NTY3OA";
    let answer = try_login_user(login("a@b.c", "password"), Ok(Some(user("a@b.c", hash, ""))));
    assert!(matches!(answer, Some(Err(ApiError::InvalidCredentials))));
}

#[test]
fn excessive_parallelism_accepts_nobody() {
    let rest = "$c29tZXNhbHQxMjM0NTY3OA$c29tZXNhbHQxMjM0NTY3OA";
    for parallelism in ["100000000", "536870911", "999999999", "notanumber", "0000000001"] {
        let hash = format!("$argon2id$v=19$m=19456,t=2,p={parallelism}{rest}");
        assert!(!can_check(&hash));
        let answer = login_user(login("a@b.c", "password"), Ok(Some(user("a@b.c", &hash, ""))));
        assert!(matches!(answer, Err(ApiError::InvalidCredentials)));
        let tried = try_login_user(login("a@b.c", "password"), Ok(Some(user("a@b.c", &hash, ""))));
        assert!(matches!(tried, Some(Err(ApiError::InvalidCredentials))));
    }
}

#[test]
fn last_parallelism_counts() {
    let query = register_user_query_with_salt(&registration("a@b.c", "hunter2hunter2"), SALT);
    let (_, hash, _) = stored(query.unwrap());
    let overridden = hash.replace("p=1$", "p=999999999,p=1$");
    assert_ne!(overridden, hash);
    assert!(can_check(&overridden));
    let answer =
        login_user(login("a@b.c", "hunter2hunter2"), Ok(Some(user("a@b.c", &overridden, ""))));
    assert_eq!(answer.unwrap().0, StatusCode::Success);
    let excessive = hash.replace("p=1$", "p=1,p=999999999$");
    let answer =
        login_user(login("a@b.c", "hunter2hunter2"), Ok(Some(user("a@b.c", &excessive, ""))));
    assert!(matches!(answer, Err(ApiError::InvalidCredentials)));
}

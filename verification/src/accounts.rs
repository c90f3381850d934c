//! Registration and login.

use vstd::prelude::*;
use vstd::string::*;
use vstd::utf8::encode_utf8;

use crate::encoding::{base64_padded, base64_text, hyphenated, id_text};
use crate::error::{ApiError, ApiErrorView, DbFailure, StatusCode};
use crate::json::{empty_object, members, no_members, set_text, JsonMember, JsonObject};
use crate::laws::{carries_out_at, Reply, Tables};
use crate::password::{
    argon2_accepts, argon2_hash, can_check, can_read, fresh_salt, hash_password, is_checkable_hash,
    is_salt, phc_parameters, verify_password,
};
use crate::store::Query;
use crate::text::{contains_char, join2, owned};

verus! {

/// A registered user. Times are in microseconds since the start of 1970, in UTC.
#[derive(Debug)]
pub struct User {
    pub id: u128,
    pub email: String,
    pub password_hash: String,
    pub password_salt: String,
    pub created_at: i64,
    pub updated_at: i64,
}

/// What a client sends to register.
#[derive(Debug)]
pub struct RegisterUserPayload {
    pub email: String,
    pub password: String,
}

/// What a client sends to log in.
#[derive(Debug)]
pub struct LoginUserPayload {
    pub email: String,
    pub password: String,
}

/// A failure that is the client's fault, with this text.
pub open spec fn invalid(text: Seq<char>) -> Option<ApiErrorView> {
    Some(ApiErrorView::InvalidInput(text))
}

/// What is wrong with a registration, if anything: the email address and the password must be
/// there, the address must hold an `@`, and the password must be eight bytes long in UTF-8.
pub open spec fn registration_fault(email: Seq<char>, password: Seq<char>) -> Option<ApiErrorView> {
    if email.len() == 0 || password.len() == 0 {
        invalid("Email and password is required."@)
    } else if !email.contains('@') {
        invalid("Invalid email format."@)
    } else if encode_utf8(password).len() < 8 {
        invalid("Password must be at least 8 characters long."@)
    } else {
        None
    }
}

/// Refuses a registration with which something is wrong.
pub fn check_registration(payload: &RegisterUserPayload) -> (checked: Result<(), ApiError>)
    ensures
        match checked {
            Ok(()) => registration_fault(payload.email@, payload.password@) is None,
            Err(error) => registration_fault(payload.email@, payload.password@) == Some(error@),
        },
        checked is Ok <==> payload.email@.contains('@') && encode_utf8(payload.password@).len()
            >= 8,
        checked matches Err(error) ==> error is InvalidInput,
{
    if payload.email.as_str().is_empty() || payload.password.as_str().is_empty() {
        return Err(ApiError::InvalidInput(owned("Email and password is required.")));
    }
    if !contains_char(payload.email.as_str(), '@') {
        return Err(ApiError::InvalidInput(owned("Invalid email format.")));
    }
    if payload.password.as_str().as_bytes().len() < 8 {
        return Err(
            ApiError::InvalidInput(owned("Password must be at least 8 characters long.")),
        );
    }
    Ok(())
}

/// Whether a query stores a user with this email address and hash, and with this salt in base64.
pub open spec fn stores_user(
    query: Query,
    email: Seq<char>,
    hash: Seq<char>,
    salt: Seq<char>,
) -> bool {
    query matches Query::InsertUser { email: e, password_hash: h, password_salt: s } && e@ == email
        && h@ == hash && s@ == base64_padded(encode_utf8(salt))
}

/// Whether a failure reports the text of a hashing error.
pub open spec fn reports_hashing_error(
    error: ApiErrorView,
    cause: argon2::password_hash::Error,
) -> bool {
    exists|text: String|
        #[trigger] to_string_from_display_ensures(&cause, text) && error
            == ApiErrorView::InternalServerError("Failed to has password: "@ + text@)
}

/// The query that stores a user whose password was hashed under a salt, or the failure where it
/// was not.
pub fn insert_user_query(
    email: String,
    salt: &str,
    hashed: Result<String, argon2::password_hash::Error>,
) -> (query: Result<Query, ApiError>)
    requires
        hashed is Ok ==> 4 * ((encode_utf8(salt@).len() + 2) / 3) <= isize::MAX,
    ensures
        match hashed {
            Ok(hash) => query matches Ok(q) && stores_user(q, email@, hash@, salt@),
            Err(cause) => query matches Err(e) && reports_hashing_error(e@, cause),
        },
        hashed matches Ok(hash) ==> {
            &&& query matches Ok(Query::InsertUser { email: e, password_hash: h, password_salt: s })
            &&& e@ == email@
            &&& h@ == hash@
            &&& s@ == base64_padded(encode_utf8(salt@))
        },
        hashed is Err ==> (query matches Err(e) && e is InternalServerError),
{
    match hashed {
        Ok(password_hash) => {
            let password_salt = base64_text(salt.as_bytes());
            Ok(Query::InsertUser { email, password_hash, password_salt })
        },
        Err(cause) => {
            let text = cause.to_string();
            Err(ApiError::InternalServerError(join2("Failed to has password: ", text.as_str())))
        },
    }
}

/// Whether a query stores what a registration gives under a salt: the hash of the password, which
/// the same password is accepted for.
pub open spec fn is_registration(
    email: Seq<char>,
    password: Seq<char>,
    salt: Seq<char>,
    query: Query,
) -> bool {
    &&& argon2_hash(password, salt) is Ok
    &&& stores_user(query, email, argon2_hash(password, salt)->Ok_0, salt)
    &&& is_checkable_hash(argon2_hash(password, salt)->Ok_0)
    &&& argon2_accepts(password, argon2_hash(password, salt)->Ok_0)
}

/// The query that stores a new user with the hash of the password under a given salt, or the
/// failure.
pub fn register_user_query_with_salt(payload: &RegisterUserPayload, salt: &str) -> (query: Result<
    Query,
    ApiError,
>)
    ensures
        match registration_fault(payload.email@, payload.password@) {
            Some(fault) => query matches Err(e) && e@ == fault,
            None => match argon2_hash(payload.password@, salt@) {
                Ok(_) => query matches Ok(q) && is_registration(
                    payload.email@,
                    payload.password@,
                    salt@,
                    q,
                ),
                Err(cause) => query matches Err(e) && reports_hashing_error(e@, cause),
            },
        },
        registration_fault(payload.email@, payload.password@) is None && is_salt(salt@)
            && encode_utf8(payload.password@).len() <= 0xffff_ffff ==> query is Ok,
        query matches Err(e) && e is InvalidInput <==> !(payload.email@.contains('@')
            && encode_utf8(payload.password@).len() >= 8),
        query matches Ok(q) ==> {
            &&& q matches Query::InsertUser { email: e, password_hash: h, password_salt: s }
            &&& e@ == payload.email@
            &&& argon2_hash(payload.password@, salt@) == Ok::<
                Seq<char>,
                argon2::password_hash::Error,
            >(h@)
            &&& s@ == base64_padded(encode_utf8(salt@))
        },
{
    match check_registration(payload) {
        Ok(()) => {
            let hashed = hash_password(payload.password.as_str(), salt);
            insert_user_query(payload.email.clone(), salt, hashed)
        },
        Err(fault) => Err(fault),
    }
}

/// The query that stores a new user with the hash of the password under a fresh salt, or the
/// failure.
pub fn register_user_query(payload: &RegisterUserPayload) -> (query: Result<Query, ApiError>)
    ensures
        match registration_fault(payload.email@, payload.password@) {
            Some(fault) => query matches Err(e) && e@ == fault,
            None => exists|salt: Seq<char>| #[trigger]
                is_salt(salt) && match argon2_hash(payload.password@, salt) {
                    Ok(_) => query matches Ok(q) && is_registration(
                        payload.email@,
                        payload.password@,
                        salt,
                        q,
                    ),
                    Err(cause) => query matches Err(e) && reports_hashing_error(e@, cause),
                },
        },
        registration_fault(payload.email@, payload.password@) is None && encode_utf8(
            payload.password@,
        ).len() <= 0xffff_ffff ==> query is Ok,
        query matches Err(e) && e is InvalidInput <==> !(payload.email@.contains('@')
            && encode_utf8(payload.password@).len() >= 8),
        query matches Ok(q) ==> {
            &&& q matches Query::InsertUser { email: e, password_hash: h, .. }
            &&& e@ == payload.email@
            &&& argon2_accepts(payload.password@, h@)
        },
{
    match check_registration(payload) {
        Ok(()) => {
            let salt = fresh_salt();
            register_user_query_with_salt(payload, salt.as_str())
        },
        Err(fault) => Err(fault),
    }
}

/// The members of the JSON object that tells a client that a user was registered or logged in.
pub open spec fn account_members(message: Seq<char>, user: User) -> Map<Seq<char>, JsonMember> {
    no_members().insert("message"@, JsonMember::Text(message)).insert(
        "user_id"@,
        JsonMember::Text(hyphenated(user.id)),
    ).insert("email"@, JsonMember::Text(user.email@))
}

/// The JSON object that tells a client that a user was registered or logged in.
fn account_object(message: &str, user: &User) -> (object: JsonObject)
    ensures
        members(object) == account_members(message@, *user),
{
    let mut object = empty_object();
    set_text(&mut object, "message", message);
    set_text(&mut object, "user_id", id_text(user.id).as_str());
    set_text(&mut object, "email", user.email.as_str());
    object
}

/// An answer with the JSON object taken by its members and the error by its view.
pub open spec fn answer_view(answer: Result<(StatusCode, JsonObject), ApiError>) -> Result<
    (StatusCode, Map<Seq<char>, JsonMember>),
    ApiErrorView,
> {
    match answer {
        Ok((status, object)) => Ok((status, members(object))),
        Err(error) => Err(error@),
    }
}

/// The answer to a registration, from what the database stored.
pub open spec fn register_answer(email: Seq<char>, created: Result<User, DbFailure>) -> Result<
    (StatusCode, Map<Seq<char>, JsonMember>),
    ApiErrorView,
> {
    match created {
        Ok(user) => Ok(
            (StatusCode::Created, account_members("User registered successfully."@, user)),
        ),
        Err(failure) => if failure@.is_unique_violation() {
            Err(ApiErrorView::UserAlreadyExists(email))
        } else {
            Err(failure@.api_error())
        },
    }
}

/// The answer to a registration, once the database has tried to store the user.
pub fn register_user(payload: RegisterUserPayload, created: Result<User, DbFailure>) -> (answer:
    Result<(StatusCode, JsonObject), ApiError>)
    ensures
        answer_view(answer) == register_answer(payload.email@, created),
        match created {
            Ok(user) => answer matches Ok((status, object)) && status == StatusCode::Created
                && members(object) == account_members("User registered successfully."@, user),
            Err(failure) => answer matches Err(error) && error@ == if (
            failure matches DbFailure::Postgres { code, .. } && code@ == "23505"@) {
                ApiErrorView::UserAlreadyExists(payload.email@)
            } else {
                failure@.api_error()
            },
        },
{
    match created {
        Ok(user) => Ok(
            (StatusCode::Created, account_object("User registered successfully.", &user)),
        ),
        Err(failure) => {
            if failure.reports_duplicate() {
                Err(ApiError::UserAlreadyExists(payload.email))
            } else {
                Err(ApiError::from(failure))
            }
        },
    }
}

/// What is wrong with a login, if anything: the email address and the password must be there.
pub open spec fn login_fault(email: Seq<char>, password: Seq<char>) -> Option<ApiErrorView> {
    if email.len() == 0 || password.len() == 0 {
        invalid("Email and password are required"@)
    } else {
        None
    }
}

/// The query for the user who logs in, or the failure where the email address or the password is
/// missing.
pub fn login_user_query(payload: &LoginUserPayload) -> (query: Result<Query, ApiError>)
    ensures
        if payload.email@.len() == 0 || payload.password@.len() == 0 {
            query matches Err(e) && e@ == ApiErrorView::InvalidInput(
                "Email and password are required"@,
            )
        } else {
            query == Ok::<Query, ApiError>(Query::SelectUser { email: payload.email })
        },
        match query {
            Ok(_) => login_fault(payload.email@, payload.password@) is None,
            Err(error) => login_fault(payload.email@, payload.password@) == Some(error@),
        },
        query is Ok <==> payload.email@.len() > 0 && payload.password@.len() > 0,
        query matches Ok(q) ==> forall|before: Tables, now: i64, after: Tables, reply: Reply|
            #[trigger]
            carries_out_at(before, q, now, after, reply) ==> after == before && reply
                == Reply::User(before.user(payload.email@)),
{
    if payload.email.as_str().is_empty() || payload.password.as_str().is_empty() {
        return Err(ApiError::InvalidInput(owned("Email and password are required")));
    }
    Ok(Query::SelectUser { email: payload.email.clone() })
}

/// The answer to a login, from the user that the database found and from whether the password was
/// accepted for that user's hash.
pub open spec fn login_answer(found: Result<Option<User>, DbFailure>, accepted: bool) -> Result<
    (StatusCode, Map<Seq<char>, JsonMember>),
    ApiErrorView,
> {
    match found {
        Ok(Some(user)) => if accepted {
            Ok((StatusCode::Success, account_members("Login successful"@, user)))
        } else {
            Err(ApiErrorView::InvalidCredentials)
        },
        Ok(None) => Err(ApiErrorView::InvalidCredentials),
        Err(failure) => Err(failure@.api_error()),
    }
}

/// The answer to a login of a user who was found, by whether the password was accepted.
pub fn answer_login(user: User, accepted: bool) -> (answer: Result<
    (StatusCode, JsonObject),
    ApiError,
>)
    ensures
        answer_view(answer) == login_answer(Ok(Some(user)), accepted),
        answer is Ok <==> accepted,
        answer matches Ok((status, object)) ==> status == StatusCode::Success && members(object)
            == account_members("Login successful"@, user),
        answer matches Err(error) ==> error is InvalidCredentials,
{
    if !accepted {
        return Err(ApiError::InvalidCredentials);
    }
    Ok((StatusCode::Success, account_object("Login successful", &user)))
}

/// Whether a password is accepted for the user that was found, if one was.
pub open spec fn password_accepted(
    password: Seq<char>,
    found: Result<Option<User>, DbFailure>,
) -> bool {
    found matches Ok(Some(user)) && argon2_accepts(password, user.password_hash@)
}

/// Whether a password can be checked against what is stored of the user that was found, if one
/// was. Nobody is accepted for a hash that it cannot be checked against.
pub open spec fn has_checkable_hash(found: Result<Option<User>, DbFailure>) -> bool {
    found matches Ok(Some(user)) ==> is_checkable_hash(user.password_hash@)
}

/// Whether what is stored of the user that was found, if one was, can be read as a hash.
pub open spec fn has_readable_hash(found: Result<Option<User>, DbFailure>) -> bool {
    found matches Ok(Some(user)) ==> phc_parameters(user.password_hash@) is Some
}

/// The answer to a login, once the database has looked for the user.
pub fn login_user(payload: LoginUserPayload, found: Result<Option<User>, DbFailure>) -> (answer:
    Result<(StatusCode, JsonObject), ApiError>)
    requires
        has_readable_hash(found),
    ensures
        answer_view(answer) == login_answer(
            found,
            has_checkable_hash(found) && password_accepted(payload.password@, found),
        ),
        answer is Ok <==> (found matches Ok(Some(user)) && is_checkable_hash(user.password_hash@)
            && argon2_accepts(payload.password@, user.password_hash@)),
        found matches Ok(Some(user)) ==> match answer {
            Ok((status, object)) => status == StatusCode::Success && members(object)
                == account_members("Login successful"@, user),
            Err(error) => error is InvalidCredentials,
        },
        found matches Ok(None) ==> (answer matches Err(error) && error is InvalidCredentials),
        found matches Err(failure) ==> (answer matches Err(error) && error@
            == failure@.api_error()),
{
    match found {
        Ok(Some(user)) => {
            let hash = user.password_hash.as_str();
            let accepted = can_check(hash) && verify_password(payload.password.as_str(), hash);
            answer_login(user, accepted)
        },
        Ok(None) => Err(ApiError::InvalidCredentials),
        Err(failure) => Err(ApiError::from(failure)),
    }
}

/// The answer to a login, and `None` where what is stored of the user cannot be read as a hash.
pub fn try_login_user(
    payload: LoginUserPayload,
    found: Result<Option<User>, DbFailure>,
) -> (answer: Option<Result<(StatusCode, JsonObject), ApiError>>)
    ensures
        match answer {
            Some(answer) => has_readable_hash(found) && answer_view(answer) == login_answer(
                found,
                has_checkable_hash(found) && password_accepted(payload.password@, found),
            ),
            None => !has_readable_hash(found),
        },
        answer matches Some(Ok(_)) <==> (found matches Ok(Some(user)) && is_checkable_hash(
            user.password_hash@,
        ) && argon2_accepts(payload.password@, user.password_hash@)),
        answer is None <==> (found matches Ok(Some(user)) && phc_parameters(
            user.password_hash@,
        ) is None),
        found matches Ok(Some(user)) && !argon2_accepts(payload.password@, user.password_hash@)
            ==> (answer matches Some(answered) ==> (answered matches Err(error) && error
            is InvalidCredentials)),
{
    let readable = match &found {
        Ok(Some(user)) => can_read(user.password_hash.as_str()),
        _ => true,
    };
    if readable {
        Some(login_user(payload, found))
    } else {
        None
    }
}

} // verus!

//! What can go wrong with a request, and what the client is told of it.

use vstd::prelude::*;

use crate::encoding::{hyphenated, id_text};
use crate::json::{empty_object, members, no_members, set_number, set_text, JsonMember, JsonObject};
use crate::text::{contains_text, join2, join3, occurs_in, owned, same_text};

verus! {

/// The status of an HTTP answer.
#[derive(Debug, Clone, Copy, PartialEq, Eq, Structural)]
pub enum StatusCode {
    Success,
    Created,
    NoContent,
    BadRequest,
    Unauthorized,
    NotFound,
    Conflict,
    InternalServerError,
}

impl StatusCode {
    /// The number that stands for the status in HTTP.
    pub open spec fn number(self) -> u16 {
        match self {
            StatusCode::Success => 200,
            StatusCode::Created => 201,
            StatusCode::NoContent => 204,
            StatusCode::BadRequest => 400,
            StatusCode::Unauthorized => 401,
            StatusCode::NotFound => 404,
            StatusCode::Conflict => 409,
            StatusCode::InternalServerError => 500,
        }
    }

    /// The number that stands for the status in HTTP.
    pub fn as_u16(self) -> (number: u16)
        ensures
            number == self.number(),
            self == StatusCode::Success ==> number == 200,
            self == StatusCode::Created ==> number == 201,
            self == StatusCode::NoContent ==> number == 204,
            self == StatusCode::BadRequest ==> number == 400,
            self == StatusCode::Unauthorized ==> number == 401,
            self == StatusCode::NotFound ==> number == 404,
            self == StatusCode::Conflict ==> number == 409,
            self == StatusCode::InternalServerError ==> number == 500,
    {
        match self {
            StatusCode::Success => 200,
            StatusCode::Created => 201,
            StatusCode::NoContent => 204,
            StatusCode::BadRequest => 400,
            StatusCode::Unauthorized => 401,
            StatusCode::NotFound => 404,
            StatusCode::Conflict => 409,
            StatusCode::InternalServerError => 500,
        }
    }
}

/// Why a request was not carried out.
#[derive(Debug)]
pub enum ApiError {
    /// Somebody has registered this email address before.
    UserAlreadyExists(String),
    /// The email address or the password is wrong.
    InvalidCredentials,
    /// No task has this identifier.
    TaskNotFound(u128),
    /// The request itself is at fault, as the text says.
    InvalidInput(String),
    /// A task with this identifier exists already.
    DuplicateEntry(String),
    /// The service is at fault, as the text says.
    InternalServerError(String),
    /// The database is at fault, as the text says.
    DbError(String),
}

/// An `ApiError` with its texts taken as their characters.
#[verifier::ext_equal]
pub enum ApiErrorView {
    UserAlreadyExists(Seq<char>),
    InvalidCredentials,
    TaskNotFound(u128),
    InvalidInput(Seq<char>),
    DuplicateEntry(Seq<char>),
    InternalServerError(Seq<char>),
    DbError(Seq<char>),
}

impl View for ApiError {
    type V = ApiErrorView;

    open spec fn view(&self) -> ApiErrorView {
        match self {
            ApiError::UserAlreadyExists(email) => ApiErrorView::UserAlreadyExists(email@),
            ApiError::InvalidCredentials => ApiErrorView::InvalidCredentials,
            ApiError::TaskNotFound(id) => ApiErrorView::TaskNotFound(*id),
            ApiError::InvalidInput(text) => ApiErrorView::InvalidInput(text@),
            ApiError::DuplicateEntry(id) => ApiErrorView::DuplicateEntry(id@),
            ApiError::InternalServerError(text) => ApiErrorView::InternalServerError(text@),
            ApiError::DbError(text) => ApiErrorView::DbError(text@),
        }
    }
}

impl ApiErrorView {
    /// The status of the answer to a request that failed in this way.
    pub open spec fn status(self) -> StatusCode {
        match self {
            ApiErrorView::UserAlreadyExists(_) => StatusCode::Conflict,
            ApiErrorView::InvalidCredentials => StatusCode::Unauthorized,
            ApiErrorView::TaskNotFound(_) => StatusCode::NotFound,
            ApiErrorView::InvalidInput(_) => StatusCode::BadRequest,
            ApiErrorView::DuplicateEntry(_) => StatusCode::Conflict,
            ApiErrorView::InternalServerError(_) => StatusCode::InternalServerError,
            ApiErrorView::DbError(_) => StatusCode::InternalServerError,
        }
    }

    /// What the client is told.
    pub open spec fn message(self) -> Seq<char> {
        match self {
            ApiErrorView::UserAlreadyExists(email) => "User with email '"@ + email
                + "' already exists."@,
            ApiErrorView::InvalidCredentials => "Invalid email or password"@,
            ApiErrorView::TaskNotFound(id) => "Task with ID "@ + hyphenated(id) + " not found."@,
            ApiErrorView::InvalidInput(text) => "Invalid input: "@ + text + "."@,
            ApiErrorView::DuplicateEntry(id) => "Task with ID "@ + id + " already exists"@,
            ApiErrorView::InternalServerError(_) =>
                "An unexpected internal server error occured"@,
            ApiErrorView::DbError(_) => "An unexpected internal server error occured."@,
        }
    }

    /// The name of this kind of failure.
    pub open spec fn error_type(self) -> Seq<char> {
        match self {
            ApiErrorView::UserAlreadyExists(_) => "UserAlreadyExists"@,
            ApiErrorView::InvalidCredentials => "InvalidCredentials"@,
            ApiErrorView::TaskNotFound(_) => "TaskNotFound"@,
            ApiErrorView::InvalidInput(_) => "InvalidInput"@,
            ApiErrorView::DuplicateEntry(_) => "DuplicateEntry"@,
            ApiErrorView::InternalServerError(_) => "InternalServerError"@,
            ApiErrorView::DbError(_) => "DatabaseError"@,
        }
    }

    /// The members of the JSON object that the client is sent.
    pub open spec fn body(self) -> Map<Seq<char>, JsonMember> {
        no_members().insert(
            "error_code"@,
            JsonMember::Number(self.status().number() as int),
        ).insert("message"@, JsonMember::Text(self.message())).insert(
            "error_type"@,
            JsonMember::Text(self.error_type()),
        )
    }
}

impl ApiError {
    /// The status of the answer, what the client is told, and the name of the kind of failure.
    pub fn describe(&self) -> (described: (StatusCode, String, String))
        ensures
            described.0 == self@.status(),
            described.1@ == self@.message(),
            described.2@ == self@.error_type(),
    {
        match self {
            ApiError::UserAlreadyExists(email) => (
                StatusCode::Conflict,
                join3("User with email '", email.as_str(), "' already exists."),
                owned("UserAlreadyExists"),
            ),
            ApiError::InvalidCredentials => (
                StatusCode::Unauthorized,
                owned("Invalid email or password"),
                owned("InvalidCredentials"),
            ),
            ApiError::TaskNotFound(id) => (
                StatusCode::NotFound,
                join3("Task with ID ", id_text(*id).as_str(), " not found."),
                owned("TaskNotFound"),
            ),
            ApiError::InvalidInput(text) => (
                StatusCode::BadRequest,
                join3("Invalid input: ", text.as_str(), "."),
                owned("InvalidInput"),
            ),
            ApiError::DuplicateEntry(id) => (
                StatusCode::Conflict,
                join3("Task with ID ", id.as_str(), " already exists"),
                owned("DuplicateEntry"),
            ),
            ApiError::InternalServerError(_) => (
                StatusCode::InternalServerError,
                owned("An unexpected internal server error occured"),
                owned("InternalServerError"),
            ),
            ApiError::DbError(_) => (
                StatusCode::InternalServerError,
                owned("An unexpected internal server error occured."),
                owned("DatabaseError"),
            ),
        }
    }

    /// The answer that the client is sent: a status, and a JSON object that repeats its number
    /// and says what went wrong.
    pub fn into_response(self) -> (response: (StatusCode, JsonObject))
        ensures
            response.0 == self@.status(),
            members(response.1) == self@.body(),
    {
        let (status, message, error_type) = self.describe();
        let mut body = empty_object();
        set_number(&mut body, "error_code", status.as_u16());
        set_text(&mut body, "message", message.as_str());
        set_text(&mut body, "error_type", error_type.as_str());
        (status, body)
    }
}

/// Why the database did not carry out a statement.
#[derive(Debug)]
pub enum DbFailure {
    /// A row was to be returned and there is none.
    RowNotFound,
    /// PostgreSQL reports an error: its five-character code, its detail if it gives one, and the
    /// error as a text.
    Postgres { code: String, detail: Option<String>, text: String },
    /// A database other than PostgreSQL reports an error, with this text.
    OtherDatabase(String),
    /// No connection became free in time.
    PoolTimedOut,
    /// The connection failed, with this text.
    Io(String),
    /// A value that came back could not be read, with this text.
    Decode(String),
    /// Anything else, with this text.
    Other(String),
}

/// The characters of a text that may be missing.
pub open spec fn option_view(text: Option<String>) -> Option<Seq<char>> {
    match text {
        Some(text) => Some(text@),
        None => None,
    }
}

/// A `DbFailure` with its texts taken as their characters.
#[verifier::ext_equal]
pub enum DbFailureView {
    RowNotFound,
    Postgres { code: Seq<char>, detail: Option<Seq<char>>, text: Seq<char> },
    OtherDatabase(Seq<char>),
    PoolTimedOut,
    Io(Seq<char>),
    Decode(Seq<char>),
    Other(Seq<char>),
}

impl View for DbFailure {
    type V = DbFailureView;

    open spec fn view(&self) -> DbFailureView {
        match self {
            DbFailure::RowNotFound => DbFailureView::RowNotFound,
            DbFailure::Postgres { code, detail, text } => DbFailureView::Postgres {
                code: code@,
                detail: option_view(*detail),
                text: text@,
            },
            DbFailure::OtherDatabase(text) => DbFailureView::OtherDatabase(text@),
            DbFailure::PoolTimedOut => DbFailureView::PoolTimedOut,
            DbFailure::Io(text) => DbFailureView::Io(text@),
            DbFailure::Decode(text) => DbFailureView::Decode(text@),
            DbFailure::Other(text) => DbFailureView::Other(text@),
        }
    }
}

/// The code with which PostgreSQL reports that a value that must be unique occurs already.
pub const UNIQUE_VIOLATION: &'static str = "23505";

/// The code with which PostgreSQL reports that a value that must be there is missing.
pub const NOT_NULL_VIOLATION: &'static str = "23502";

/// The detail of an error, or the text that stands in for it.
pub open spec fn detail_or(detail: Option<Seq<char>>, instead: Seq<char>) -> Seq<char> {
    match detail {
        Some(detail) => detail,
        None => instead,
    }
}

impl DbFailureView {
    /// Whether PostgreSQL reports that a value that must be unique occurs already.
    pub open spec fn is_unique_violation(self) -> bool {
        self matches DbFailureView::Postgres { code, .. } && code == UNIQUE_VIOLATION@
    }

    /// What a request fails with when the database fails in this way.
    pub open spec fn api_error(self) -> ApiErrorView {
        match self {
            DbFailureView::RowNotFound => ApiErrorView::InvalidCredentials,
            DbFailureView::Postgres { code, detail, text } => if code == UNIQUE_VIOLATION@ {
                let told = detail_or(detail, "A record with that unique value already exists."@);
                if occurs_in("email"@, told) {
                    ApiErrorView::UserAlreadyExists(""@)
                } else {
                    ApiErrorView::DbError("Unique constraint violated: "@ + told)
                }
            } else if code == NOT_NULL_VIOLATION@ {
                ApiErrorView::InvalidInput(
                    "A required field is missing. Detail: "@ + detail_or(
                        detail,
                        "No specific details available."@,
                    ),
                )
            } else {
                ApiErrorView::DbError("Uncategorized database error: "@ + text)
            },
            DbFailureView::OtherDatabase(text) => ApiErrorView::DbError(text),
            DbFailureView::PoolTimedOut => ApiErrorView::InternalServerError(
                "Database connection pool exhausted. Please try again later."@,
            ),
            DbFailureView::Io(text) => ApiErrorView::InternalServerError(
                "Database I/O error: "@ + text,
            ),
            DbFailureView::Decode(text) => ApiErrorView::InternalServerError(
                "Database data decoding error. Check schema and types: "@ + text,
            ),
            DbFailureView::Other(text) => ApiErrorView::DbError(text),
        }
    }
}

/// The detail of an error, or the text that stands in for it.
fn told_detail(detail: Option<String>, instead: &str) -> (told: String)
    ensures
        told@ == detail_or(option_view(detail), instead@),
{
    match detail {
        Some(detail) => detail,
        None => owned(instead),
    }
}

impl DbFailure {
    /// Whether PostgreSQL reports that a value that must be unique occurs already.
    pub fn reports_duplicate(&self) -> (duplicate: bool)
        ensures
            duplicate == self@.is_unique_violation(),
            duplicate <==> (self matches DbFailure::Postgres { code, .. } && code@ == "23505"@),
    {
        match self {
            DbFailure::Postgres { code, .. } => same_text(code.as_str(), UNIQUE_VIOLATION),
            _ => false,
        }
    }
}

impl ApiError {
    /// What a request fails with when the database fails.
    pub fn from(failure: DbFailure) -> (error: ApiError)
        ensures
            error@ == failure@.api_error(),
    {
        match failure {
            DbFailure::RowNotFound => ApiError::InvalidCredentials,
            DbFailure::Postgres { code, detail, text } => {
                if same_text(code.as_str(), UNIQUE_VIOLATION) {
                    let told = told_detail(
                        detail,
                        "A record with that unique value already exists.",
                    );
                    if contains_text(told.as_str(), "email") {
                        ApiError::UserAlreadyExists(owned(""))
                    } else {
                        ApiError::DbError(join2("Unique constraint violated: ", told.as_str()))
                    }
                } else if same_text(code.as_str(), NOT_NULL_VIOLATION) {
                    let told = told_detail(detail, "No specific details available.");
                    ApiError::InvalidInput(
                        join2("A required field is missing. Detail: ", told.as_str()),
                    )
                } else {
                    ApiError::DbError(join2("Uncategorized database error: ", text.as_str()))
                }
            },
            DbFailure::OtherDatabase(text) => ApiError::DbError(text),
            DbFailure::PoolTimedOut => ApiError::InternalServerError(
                owned("Database connection pool exhausted. Please try again later."),
            ),
            DbFailure::Io(text) => ApiError::InternalServerError(
                join2("Database I/O error: ", text.as_str()),
            ),
            DbFailure::Decode(text) => ApiError::InternalServerError(
                join2(
                    "Database data decoding error. Check schema and types: ",
                    text.as_str(),
                ),
            ),
            DbFailure::Other(text) => ApiError::DbError(text),
        }
    }
}

} // verus!

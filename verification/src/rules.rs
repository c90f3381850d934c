//! What clients can rely on: statuses, messages, what is refused and who is let in.

use vstd::prelude::*;
use vstd::string::*;
use vstd::utf8::encode_utf8;

use crate::accounts::{
    account_members, answer_view, has_checkable_hash, has_readable_hash, is_registration,
    login_answer, login_fault, password_accepted, register_answer, registration_fault,
    reports_hashing_error, stores_user, User,
};
use crate::encoding::{
    base64_digits_differ, base64_is_injective, base64_padded, base64_unpadded, hyphenated, sextet,
    sextet_range,
};
use crate::error::{ApiError, ApiErrorView, DbFailure, DbFailureView, StatusCode};
use crate::json::{members, JsonMember, JsonObject};
use crate::password::{
    argon2_accepts, argon2_hash, is_checkable_hash, is_parallelism, is_salt, outcome_view,
    parallelism_fits, parameter_ends, phc_parameters,
};
use crate::store::{viewed, Query};
use crate::tasks::{
    all_tasks_answer, create_task_answer, delete_task_answer, one_task_answer, Task,
};
use crate::text::{occurrence_is_something_around, occurs_at, occurs_in};

verus! {

/// Each status has the number that HTTP gives it.
pub proof fn statuses_have_their_numbers(status: StatusCode)
    ensures
        status.number() == 200 <==> status is Success,
        status.number() == 201 <==> status is Created,
        status.number() == 204 <==> status is NoContent,
        status.number() == 400 <==> status is BadRequest,
        status.number() == 401 <==> status is Unauthorized,
        status.number() == 404 <==> status is NotFound,
        status.number() == 409 <==> status is Conflict,
        status.number() == 500 <==> status is InternalServerError,
{
}

/// A value that is taken already is a conflict, wrong credentials are unauthorized, a missing task
/// is not found, bad input is a bad request, and everything else is the fault of the service.
pub proof fn failures_have_their_statuses(error: ApiErrorView)
    ensures
        error.status().number() == 409 <==> (error is UserAlreadyExists || error is DuplicateEntry),
        error.status().number() == 401 <==> error is InvalidCredentials,
        error.status().number() == 404 <==> error is TaskNotFound,
        error.status().number() == 400 <==> error is InvalidInput,
        error.status().number() == 500 <==> (error is InternalServerError || error is DbError),
{
}

/// A client is told exactly these words, around the email address, the identifier or the text of
/// the failure, whatever they hold; of a failure of the service only that there was one.
pub proof fn failures_have_their_messages(text: Seq<char>, id: u128)
    ensures
        ApiErrorView::UserAlreadyExists(text).message() == "User with email '"@ + text
            + "' already exists."@,
        ApiErrorView::InvalidCredentials.message() == "Invalid email or password"@,
        ApiErrorView::TaskNotFound(id).message() == "Task with ID "@ + hyphenated(id)
            + " not found."@,
        ApiErrorView::InvalidInput(text).message() == "Invalid input: "@ + text + "."@,
        ApiErrorView::DuplicateEntry(text).message() == "Task with ID "@ + text
            + " already exists"@,
        ApiErrorView::InternalServerError(text).message()
            == "An unexpected internal server error occured"@,
        ApiErrorView::DbError(text).message() == "An unexpected internal server error occured."@,
{
}

/// Each kind of failure goes by its name.
pub proof fn failures_have_their_types(error: ApiErrorView)
    ensures
        error is UserAlreadyExists ==> error.error_type() == "UserAlreadyExists"@,
        error is InvalidCredentials ==> error.error_type() == "InvalidCredentials"@,
        error is TaskNotFound ==> error.error_type() == "TaskNotFound"@,
        error is InvalidInput ==> error.error_type() == "InvalidInput"@,
        error is DuplicateEntry ==> error.error_type() == "DuplicateEntry"@,
        error is InternalServerError ==> error.error_type() == "InternalServerError"@,
        error is DbError ==> error.error_type() == "DatabaseError"@,
{
}

/// What is told of a failure names what it is about: the email address, the identifier or the text
/// occurs in the message.
pub proof fn messages_name_what_they_are_about(text: Seq<char>, id: u128)
    ensures
        occurs_in(text, ApiErrorView::UserAlreadyExists(text).message()),
        occurs_in(hyphenated(id), ApiErrorView::TaskNotFound(id).message()),
        occurs_in(text, ApiErrorView::InvalidInput(text).message()),
        occurs_in(text, ApiErrorView::DuplicateEntry(text).message()),
{
    failures_have_their_messages(text, id);
    occurrence_is_something_around(text, ApiErrorView::UserAlreadyExists(text).message());
    occurrence_is_something_around(hyphenated(id), ApiErrorView::TaskNotFound(id).message());
    occurrence_is_something_around(text, ApiErrorView::InvalidInput(text).message());
    occurrence_is_something_around(text, ApiErrorView::DuplicateEntry(text).message());
}

/// The views keep which failure it is and every text of it.
pub proof fn views_keep_everything(error: ApiError, failure: DbFailure)
    ensures
        error matches ApiError::UserAlreadyExists(text) ==> error@
            == ApiErrorView::UserAlreadyExists(text@),
        error is InvalidCredentials ==> error@ == ApiErrorView::InvalidCredentials,
        error matches ApiError::TaskNotFound(id) ==> error@ == ApiErrorView::TaskNotFound(id),
        error matches ApiError::InvalidInput(text) ==> error@ == ApiErrorView::InvalidInput(text@),
        error matches ApiError::DuplicateEntry(text) ==> error@ == ApiErrorView::DuplicateEntry(
            text@,
        ),
        error matches ApiError::InternalServerError(text) ==> error@
            == ApiErrorView::InternalServerError(text@),
        error matches ApiError::DbError(text) ==> error@ == ApiErrorView::DbError(text@),
        failure is RowNotFound ==> failure@ == DbFailureView::RowNotFound,
        failure matches DbFailure::Postgres { code, detail: Some(detail), text } ==> failure@ == (
        DbFailureView::Postgres { code: code@, detail: Some(detail@), text: text@ }),
        failure matches DbFailure::Postgres { code, detail: None, text } ==> failure@ == (
        DbFailureView::Postgres { code: code@, detail: None, text: text@ }),
        failure matches DbFailure::OtherDatabase(text) ==> failure@
            == DbFailureView::OtherDatabase(text@),
        failure is PoolTimedOut ==> failure@ == DbFailureView::PoolTimedOut,
        failure matches DbFailure::Io(text) ==> failure@ == DbFailureView::Io(text@),
        failure matches DbFailure::Decode(text) ==> failure@ == DbFailureView::Decode(text@),
        failure matches DbFailure::Other(text) ==> failure@ == DbFailureView::Other(text@),
{
}

/// A value that occurs already is the email address of another user wherever the detail speaks of
/// an email, with anything before and after the word; otherwise it is a failure of the database
/// that repeats the detail, or says that there is such a record where no detail is given.
pub proof fn duplicates_are_told_apart(
    detail: Seq<char>,
    before: Seq<char>,
    after: Seq<char>,
    text: Seq<char>,
)
    ensures
        (DbFailureView::Postgres {
            code: "23505"@,
            detail: Some(before + "email"@ + after),
            text,
        }).api_error() == ApiErrorView::UserAlreadyExists(Seq::empty()),
        (forall|b: Seq<char>, a: Seq<char>| detail != #[trigger] (b + "email"@ + a)) ==> (
        DbFailureView::Postgres { code: "23505"@, detail: Some(detail), text }).api_error()
            == ApiErrorView::DbError("Unique constraint violated: "@ + detail),
        (DbFailureView::Postgres { code: "23505"@, detail: None, text }).api_error()
            == ApiErrorView::DbError(
            "Unique constraint violated: "@ + "A record with that unique value already exists."@,
        ),
{
    occurrence_is_something_around("email"@, before + "email"@ + after);
    occurrence_is_something_around("email"@, detail);
    reveal_strlit("");
    assert(""@ =~= Seq::<char>::empty());
    no_email_in_default_detail();
}

/// The detail that stands in where none is given does not speak of an email.
proof fn no_email_in_default_detail()
    ensures
        !occurs_in("email"@, "A record with that unique value already exists."@),
{
    let instead = "A record with that unique value already exists."@;
    reveal_strlit("email");
    reveal_strlit("A record with that unique value already exists.");
    assert forall|at: int| !occurs_at("email"@, instead, at) by {
        if occurs_at("email"@, instead, at) {
            assert(instead.subrange(at, at + 5)[1] == 'm');
            assert(instead[at + 1] == 'm');
        }
    }
}

/// A duplicate is reported with the code 23505 and with no other.
pub proof fn duplicates_have_one_code(failure: DbFailureView)
    ensures
        failure.is_unique_violation() <==> (failure matches DbFailureView::Postgres { code, .. }
            && code == "23505"@),
{
}

/// A missing value is the fault of the client, who is told the detail if there is one. Any other
/// report of PostgreSQL, and any report of another database, is a failure of the database that
/// repeats the report. A full pool, a broken connection and an unreadable value are failures of the
/// service. A row that is not there means wrong credentials.
pub proof fn database_failures_become_failures(
    code: Seq<char>,
    detail: Option<Seq<char>>,
    text: Seq<char>,
)
    ensures
        (DbFailureView::Postgres { code: "23502"@, detail, text }).api_error()
            == ApiErrorView::InvalidInput(
            "A required field is missing. Detail: "@ + if detail is Some {
                detail.unwrap()
            } else {
                "No specific details available."@
            },
        ),
        code != "23502"@ && code != "23505"@ ==> (DbFailureView::Postgres {
            code,
            detail,
            text,
        }).api_error() == ApiErrorView::DbError("Uncategorized database error: "@ + text),
        DbFailureView::OtherDatabase(text).api_error() == ApiErrorView::DbError(text),
        DbFailureView::Other(text).api_error() == ApiErrorView::DbError(text),
        DbFailureView::PoolTimedOut.api_error() == ApiErrorView::InternalServerError(
            "Database connection pool exhausted. Please try again later."@,
        ),
        DbFailureView::Io(text).api_error() == ApiErrorView::InternalServerError(
            "Database I/O error: "@ + text,
        ),
        DbFailureView::Decode(text).api_error() == ApiErrorView::InternalServerError(
            "Database data decoding error. Check schema and types: "@ + text,
        ),
        DbFailureView::RowNotFound.api_error() == ApiErrorView::InvalidCredentials,
{
    reveal_strlit("23505");
    reveal_strlit("23502");
    assert("23505"@[4] != "23502"@[4]);
}

/// Whatever the database fails with, every request about tasks and every login fails with the same,
/// and so does a registration unless the failure is a duplicate.
pub proof fn database_failures_reach_every_answer(
    failure: DbFailure,
    id: u128,
    email: Seq<char>,
    accepted: bool,
)
    ensures
        one_task_answer(id, Err(failure)) == Err::<Task, ApiErrorView>(failure@.api_error()),
        create_task_answer(Err(failure)) == Err::<(StatusCode, Task), ApiErrorView>(
            failure@.api_error(),
        ),
        all_tasks_answer(Err(failure)) == Err::<Vec<Task>, ApiErrorView>(failure@.api_error()),
        delete_task_answer(id, Err(failure)) == Err::<StatusCode, ApiErrorView>(
            failure@.api_error(),
        ),
        login_answer(Err(failure), accepted) == Err::<
            (StatusCode, Map<Seq<char>, JsonMember>),
            ApiErrorView,
        >(failure@.api_error()),
        !failure@.is_unique_violation() ==> register_answer(email, Err(failure)) == Err::<
            (StatusCode, Map<Seq<char>, JsonMember>),
            ApiErrorView,
        >(failure@.api_error()),
{
}

/// A task that the database brings back is answered as it is, whatever it holds; where it brings
/// back none, the answer is that there is none with that identifier. A removal is answered by
/// whether any row was removed, however many.
pub proof fn database_replies_are_answered_as_they_are(
    id: u128,
    task: Task,
    tasks: Vec<Task>,
    rows: u64,
)
    ensures
        one_task_answer(id, Ok(Some(task))) == Ok::<Task, ApiErrorView>(task),
        one_task_answer(id, Ok(None)) == Err::<Task, ApiErrorView>(ApiErrorView::TaskNotFound(id)),
        create_task_answer(Ok(task)) == Ok::<(StatusCode, Task), ApiErrorView>(
            (StatusCode::Created, task),
        ),
        all_tasks_answer(Ok(tasks)) == Ok::<Vec<Task>, ApiErrorView>(tasks),
        rows > 0 ==> delete_task_answer(id, Ok(rows)) == Ok::<StatusCode, ApiErrorView>(
            StatusCode::NoContent,
        ),
        rows == 0 ==> delete_task_answer(id, Ok(rows)) == Err::<StatusCode, ApiErrorView>(
            ApiErrorView::TaskNotFound(id),
        ),
{
}

/// An outcome is seen as it is: a value as itself, a failure by its view, a JSON object by its
/// members.
pub proof fn outcomes_are_seen_as_they_are<T>(
    value: T,
    error: ApiError,
    status: StatusCode,
    object: JsonObject,
    hash: String,
    cause: argon2::password_hash::Error,
)
    ensures
        viewed(Ok(value)) == Ok::<T, ApiErrorView>(value),
        viewed(Err::<T, ApiError>(error)) == Err::<T, ApiErrorView>(error@),
        answer_view(Ok((status, object))) == Ok::<
            (StatusCode, Map<Seq<char>, JsonMember>),
            ApiErrorView,
        >((status, members(object))),
        answer_view(Err(error)) == Err::<
            (StatusCode, Map<Seq<char>, JsonMember>),
            ApiErrorView,
        >(error@),
        outcome_view(Ok(hash)) == Ok::<Seq<char>, argon2::password_hash::Error>(hash@),
        outcome_view(Err(cause)) == Err::<Seq<char>, argon2::password_hash::Error>(cause),
{
}

/// A registration is in order exactly where the email address holds an `@` and the password has at
/// least eight bytes, however long both are. Where it is not, the client is told the first thing
/// that is wrong: something missing, then the address, then the password.
pub proof fn registrations_in_order_are_accepted(email: Seq<char>, password: Seq<char>)
    ensures
        registration_fault(email, password) is None <==> (email.contains('@') && encode_utf8(
            password,
        ).len() >= 8),
        email.len() == 0 || password.len() == 0 ==> registration_fault(email, password) == Some(
            ApiErrorView::InvalidInput("Email and password is required."@),
        ),
        email.len() > 0 && password.len() > 0 && !email.contains('@') ==> registration_fault(
            email,
            password,
        ) == Some(ApiErrorView::InvalidInput("Invalid email format."@)),
        password.len() > 0 && email.contains('@') && encode_utf8(password).len() < 8
            ==> registration_fault(email, password) == Some(
            ApiErrorView::InvalidInput("Password must be at least 8 characters long."@),
        ),
{
    if password.len() == 0 {
        assert(encode_utf8(password).len() == 0);
    }
}

/// A text has at least as many bytes in UTF-8 as any start of it.
proof fn longer_texts_have_more_bytes(text: Seq<char>, more: Seq<char>)
    ensures
        encode_utf8(text + more).len() >= encode_utf8(text).len(),
    decreases text.len(),
{
    if text.len() > 0 {
        assert((text + more).drop_first() =~= text.drop_first() + more);
        longer_texts_have_more_bytes(text.drop_first(), more);
    }
}

/// A registration that is in order stays so when the password or the email address gets longer at
/// its end.
pub proof fn longer_registrations_are_accepted_too(
    email: Seq<char>,
    password: Seq<char>,
    more_email: Seq<char>,
    more_password: Seq<char>,
)
    requires
        registration_fault(email, password) is None,
    ensures
        registration_fault(email + more_email, password + more_password) is None,
{
    registrations_in_order_are_accepted(email, password);
    registrations_in_order_are_accepted(email + more_email, password + more_password);
    let at = choose|at: int| 0 <= at < email.len() && email[at] == '@';
    assert((email + more_email)[at] == '@');
    longer_texts_have_more_bytes(password, more_password);
}

/// What a registration stores: the email address as it was sent, what Argon2 gives for the password
/// as it was sent, and the salt in base64, each in its own field.
pub proof fn registrations_store_the_hash(
    email: Seq<char>,
    password: Seq<char>,
    salt: Seq<char>,
    query: Query,
)
    requires
        is_registration(email, password, salt, query),
    ensures
        query matches Query::InsertUser { email: e, password_hash: h, password_salt: s } && {
            &&& e@ == email
            &&& argon2_hash(password, salt) == Ok::<Seq<char>, argon2::password_hash::Error>(h@)
            &&& s@ == base64_padded(encode_utf8(salt))
            &&& argon2_accepts(password, h@)
            &&& is_checkable_hash(h@)
        },
{
}

/// A query that stores a user determines the email address, the hash and the bytes of the salt.
pub proof fn stored_users_determine_what_was_given(
    query: Query,
    email: Seq<char>,
    hash: Seq<char>,
    salt: Seq<char>,
    other_email: Seq<char>,
    other_hash: Seq<char>,
    other_salt: Seq<char>,
)
    requires
        stores_user(query, email, hash, salt),
        stores_user(query, other_email, other_hash, other_salt),
    ensures
        email == other_email,
        hash == other_hash,
        encode_utf8(salt) == encode_utf8(other_salt),
{
    base64_is_injective(encode_utf8(salt), encode_utf8(other_salt));
}

/// A hashing error is the fault of the service, with these words and then the text of the error.
pub proof fn hashing_errors_are_reported(
    error: ApiErrorView,
    cause: argon2::password_hash::Error,
)
    ensures
        reports_hashing_error(error, cause) <==> exists|text: String| #[trigger]
            to_string_from_display_ensures(&cause, text) && error
                == ApiErrorView::InternalServerError("Failed to has password: "@ + text@),
{
}

/// Whoever was stored is told so with status 201; where a value occurs already the email address
/// that was sent is taken, whichever it is and whatever the database says of it.
pub proof fn registrations_are_answered(email: Seq<char>, user: User, failure: DbFailure)
    ensures
        register_answer(email, Ok(user)) == Ok::<
            (StatusCode, Map<Seq<char>, JsonMember>),
            ApiErrorView,
        >((StatusCode::Created, account_members("User registered successfully."@, user))),
        (failure matches DbFailure::Postgres { code, .. } && code@ == "23505"@)
            ==> register_answer(email, Err(failure)) == Err::<
            (StatusCode, Map<Seq<char>, JsonMember>),
            ApiErrorView,
        >(ApiErrorView::UserAlreadyExists(email)),
{
}

/// Any login with an email address and a password is looked up, however short or malformed they
/// are; one without either is the fault of the client. So whoever could register can try to log in.
pub proof fn logins_with_both_are_looked_up(email: Seq<char>, password: Seq<char>)
    ensures
        email.len() > 0 && password.len() > 0 ==> login_fault(email, password) is None,
        email.len() == 0 || password.len() == 0 ==> login_fault(email, password) == Some(
            ApiErrorView::InvalidInput("Email and password are required"@),
        ),
        registration_fault(email, password) is None ==> login_fault(email, password) is None,
{
}

/// Nobody is let in with a password that Argon2 does not accept for the stored hash, whatever the
/// password and the user, and everybody is with one that it does.
pub proof fn only_the_password_lets_in(user: User, password: Seq<char>)
    ensures
        !argon2_accepts(password, user.password_hash@) ==> login_answer(
            Ok(Some(user)),
            has_checkable_hash(Ok(Some(user))) && password_accepted(password, Ok(Some(user))),
        ) == Err::<(StatusCode, Map<Seq<char>, JsonMember>), ApiErrorView>(
            ApiErrorView::InvalidCredentials,
        ),
        is_checkable_hash(user.password_hash@) && argon2_accepts(password, user.password_hash@)
            ==> login_answer(
            Ok(Some(user)),
            has_checkable_hash(Ok(Some(user))) && password_accepted(password, Ok(Some(user))),
        ) == Ok::<(StatusCode, Map<Seq<char>, JsonMember>), ApiErrorView>(
            (StatusCode::Success, account_members("Login successful"@, user)),
        ),
        !is_checkable_hash(user.password_hash@) ==> login_answer(
            Ok(Some(user)),
            has_checkable_hash(Ok(Some(user))) && password_accepted(password, Ok(Some(user))),
        ) == Err::<(StatusCode, Map<Seq<char>, JsonMember>), ApiErrorView>(
            ApiErrorView::InvalidCredentials,
        ),
{
}

/// Where no user was found, nobody is let in; what is stored is asked for only where one was.
pub proof fn nobody_is_let_in_without_a_user(accepted: bool, failure: DbFailure)
    ensures
        login_answer(Ok(None), accepted) == Err::<
            (StatusCode, Map<Seq<char>, JsonMember>),
            ApiErrorView,
        >(ApiErrorView::InvalidCredentials),
        has_readable_hash(Ok(None)),
        has_readable_hash(Err(failure)),
{
}

/// The stored hash of a user can be read exactly where it is in PHC format, and a password can be
/// checked against it where moreover the degree of parallelism fits.
pub proof fn stored_hashes_are_read(user: User)
    ensures
        has_readable_hash(Ok(Some(user))) <==> phc_parameters(user.password_hash@) is Some,
        has_checkable_hash(Ok(Some(user))) <==> is_checkable_hash(user.password_hash@),
        is_checkable_hash(user.password_hash@) <==> (phc_parameters(
            user.password_hash@,
        ) matches Some(parameters) && parallelism_fits(parameters)),
{
}

/// A client who registered or logged in is told three things: that it went well, the identifier of
/// the user, and the email address of the user.
pub proof fn accounts_are_told_who_they_are(message: Seq<char>, user: User)
    ensures
        account_members(message, user).dom() == set!["message"@, "user_id"@, "email"@],
        account_members(message, user)["message"@] == JsonMember::Text(message),
        account_members(message, user)["user_id"@] == JsonMember::Text(hyphenated(user.id)),
        account_members(message, user)["email"@] == JsonMember::Text(user.email@),
{
    reveal_strlit("message");
    reveal_strlit("user_id");
    reveal_strlit("email");
    assert("message"@[0] == 'm' && "user_id"@[0] == 'u' && "email"@[0] == 'e');
    assert(account_members(message, user).dom() =~= set!["message"@, "user_id"@, "email"@]);
}

/// Any sixteen bytes give a salt, and a salt has twenty-two characters, none of them padding.
pub proof fn salts_are_sixteen_bytes(bytes: Seq<u8>, salt: Seq<char>)
    ensures
        bytes.len() == 16 ==> is_salt(base64_unpadded(bytes)),
        is_salt(salt) ==> salt.len() == 22 && !salt.contains('='),
{
    if is_salt(salt) {
        let given = choose|given: Seq<u8>|
            given.len() == 16 && salt == #[trigger] base64_unpadded(given);
        assert forall|i: int| 0 <= i < salt.len() implies salt[i] != '=' by {
            sextet_range(given, i);
            base64_digits_differ(sextet(given, i), 0);
        }
    }
}

/// Where a parameter `p` stands between other parameters and none follows it that is a `p` too, the
/// parameters fit exactly where what is written after `p=` has at most eight characters.
pub proof fn last_parallelism_decides(before: Seq<char>, value: Seq<char>, after: Seq<char>)
    requires
        before.len() == 0 || before.last() == ',',
        !value.contains(','),
        after.len() == 0 || after[0] == ',',
        forall|j: int|
            0 <= j && j + 2 < after.len() && #[trigger] after[j] == ',' ==> !(after[j + 1] == 'p'
                && after[j + 2] == '='),
    ensures
        parallelism_fits(before + seq!['p', '='] + value + after) <==> value.len() <= 8,
{
    let whole = before + seq!['p', '='] + value + after;
    let i = before.len() as int;
    let end = i + 2 + value.len();
    assert(is_parallelism(whole, i));
    assert forall|j: int| i < j implies !#[trigger] is_parallelism(whole, j) by {
        if is_parallelism(whole, j) {
            assert(whole[j - 1] == ',');
            if j - 1 < end {
                if j - 1 >= i + 2 {
                    assert(whole[j - 1] == value[j - 1 - i - 2]);
                }
                assert(false);
            } else {
                assert(whole[j - 1] == after[j - 1 - end]);
                assert(whole[j] == after[j - end]);
                assert(whole[j + 1] == after[j + 1 - end]);
                assert(false);
            }
        }
    }
    assert(parameter_ends(whole, end)) by {
        if after.len() > 0 {
            assert(whole[end] == after[0]);
        }
    }
    assert forall|k: int| i + 2 <= k < end implies !#[trigger] parameter_ends(whole, k) by {
        assert(whole[k] == value[k - i - 2]);
    }
}

/// Parameters without a `p` fit.
pub proof fn missing_parallelism_fits(parameters: Seq<char>)
    requires
        forall|i: int|
            0 <= i && i + 1 < parameters.len() && #[trigger] parameters[i] == 'p' && parameters[i
                + 1] == '=' ==> i > 0 && parameters[i - 1] != ',',
    ensures
        parallelism_fits(parameters),
{
    assert forall|i: int| !#[trigger] is_parallelism(parameters, i) by {
        if is_parallelism(parameters, i) {
            assert(parameters[i] == 'p');
        }
    }
}

} // verus!

//! What the queries mean for the tables of the database, and what follows for clients.
//!
//! The database itself is not part of this crate. What its statements do is stated here as a
//! relation between the tables before and after, and the laws say what holds of the answers
//! wherever the database keeps to it.

use vstd::prelude::*;

use crate::accounts::{
    account_members, has_checkable_hash, is_registration, login_answer, password_accepted,
    register_answer, User,
};
use crate::error::{ApiErrorView, DbFailure, StatusCode};
use crate::json::JsonMember;
use crate::store::Query;
use crate::tasks::{
    all_tasks_answer, create_task_answer, delete_task_answer, one_task_answer, CreateTaskPayload,
    Task, UpdateTaskPayload,
};

verus! {

/// The tables of the database: tasks by their identifier, users by their email address.
pub struct Tables {
    pub tasks: Map<u128, Task>,
    pub users: Map<Seq<char>, User>,
}

/// What a statement that was carried out brings back.
pub enum Reply {
    /// The row of a task, if there is one.
    Task(Option<Task>),
    /// The rows of several tasks.
    Tasks(Seq<Task>),
    /// The number of rows that were removed.
    Removed(u64),
    /// The row of a user, if there is one.
    User(Option<User>),
}

impl Tables {
    /// Every row stands under its own key.
    pub open spec fn valid(self) -> bool {
        &&& forall|id: u128| #[trigger]
            self.tasks.contains_key(id) ==> self.tasks[id].id == id
        &&& forall|email: Seq<char>| #[trigger]
            self.users.contains_key(email) ==> self.users[email].email@ == email
    }

    /// The row of a task, if there is one.
    pub open spec fn task(self, id: u128) -> Option<Task> {
        if self.tasks.contains_key(id) {
            Some(self.tasks[id])
        } else {
            None
        }
    }

    /// The row of a user, if there is one.
    pub open spec fn user(self, email: Seq<char>) -> Option<User> {
        if self.users.contains_key(email) {
            Some(self.users[email])
        } else {
            None
        }
    }

    /// The tables with the row of a task put under its identifier.
    pub open spec fn with_task(self, task: Task) -> Tables {
        Tables { tasks: self.tasks.insert(task.id, task), users: self.users }
    }

    /// The tables with the row of a user put under the email address.
    pub open spec fn with_user(self, user: User) -> Tables {
        Tables { tasks: self.tasks, users: self.users.insert(user.email@, user) }
    }

    /// The tables without the row of a task.
    pub open spec fn without_task(self, id: u128) -> Tables {
        Tables { tasks: self.tasks.remove(id), users: self.users }
    }
}

/// What is given, or else what is there.
pub open spec fn coalesce<T>(given: Option<T>, there: T) -> T {
    match given {
        Some(value) => value,
        None => there,
    }
}

/// What is given, or else what is there, of a value that may be missing.
pub open spec fn coalesce_optional<T>(given: Option<T>, there: Option<T>) -> Option<T> {
    match given {
        Some(value) => Some(value),
        None => there,
    }
}

/// A task with what is given replaced, at a time.
pub open spec fn changed_task(
    task: Task,
    title: Option<String>,
    description: Option<String>,
    completed: Option<bool>,
    now: i64,
) -> Task {
    Task {
        id: task.id,
        title: coalesce(title, task.title),
        description: coalesce_optional(description, task.description),
        completed: coalesce(completed, task.completed),
        created_at: task.created_at,
        updated_at: now,
    }
}

/// Whether rows are those of all tasks, each of them once, the youngest first.
pub open spec fn lists_all(tasks: Map<u128, Task>, rows: Seq<Task>) -> bool {
    &&& forall|i: int|
        0 <= i < rows.len() ==> tasks.contains_key((#[trigger] rows[i]).id) && tasks[rows[i].id]
            == rows[i]
    &&& forall|i: int, j: int|
        0 <= i < j < rows.len() ==> (#[trigger] rows[i]).id != (#[trigger] rows[j]).id
            && rows[i].created_at >= rows[j].created_at
    &&& forall|id: u128| #[trigger]
        tasks.contains_key(id) ==> exists|i: int| 0 <= i < rows.len() && #[trigger] rows[i].id == id
}

/// Whether the database, carrying out a query at the time `now`, goes from the tables `before` to
/// the tables `after` and brings back this reply. A new row has an identifier or an email address
/// that no row had; what else stands in it is left to the database.
pub open spec fn carries_out_at(
    before: Tables,
    query: Query,
    now: i64,
    after: Tables,
    reply: Reply,
) -> bool {
    match query {
        Query::InsertUser { email, password_hash, password_salt } => {
            &&& reply matches Reply::User(Some(user))
            &&& user.email == email
            &&& user.password_hash == password_hash
            &&& user.password_salt == password_salt
            &&& !before.users.contains_key(email@)
            &&& after == before.with_user(user)
        },
        Query::SelectUser { email } => {
            &&& reply == Reply::User(before.user(email@))
            &&& after == before
        },
        Query::SelectTask { id } => {
            &&& reply == Reply::Task(before.task(id))
            &&& after == before
        },
        Query::InsertTask { title, description } => {
            &&& reply matches Reply::Task(Some(task))
            &&& task.title == title
            &&& task.description == description
            &&& !before.tasks.contains_key(task.id)
            &&& after == before.with_task(task)
        },
        Query::SelectAllTasks => {
            &&& reply matches Reply::Tasks(rows)
            &&& lists_all(before.tasks, rows)
            &&& after == before
        },
        Query::UpdateTask { id, title, description, completed } => {
            &&& reply matches Reply::Task(row)
            &&& match before.task(id) {
                Some(task) => {
                    &&& row matches Some(changed)
                    &&& changed == changed_task(task, title, description, completed, now)
                    &&& after == before.with_task(changed)
                },
                None => row is None && after == before,
            }
        },
        Query::DeleteTask { id } => {
            &&& reply == Reply::Removed(if before.tasks.contains_key(id) { 1 } else { 0 })
            &&& after == before.without_task(id)
        },
    }
}

/// Whether the database, carrying out a query at some time, goes from the tables `before` to the
/// tables `after` and brings back this reply.
pub open spec fn carries_out(before: Tables, query: Query, after: Tables, reply: Reply) -> bool {
    exists|now: i64| #[trigger] carries_out_at(before, query, now, after, reply)
}

/// No query brings a row under a key that is not its own.
pub proof fn queries_keep_tables_valid(before: Tables, query: Query, after: Tables, reply: Reply)
    requires
        before.valid(),
        carries_out(before, query, after, reply),
    ensures
        after.valid(),
{
}

/// A task that was created is answered with its title and description, and is what a request for
/// its identifier is then answered with.
pub proof fn created_task_can_be_read(
    before: Tables,
    payload: CreateTaskPayload,
    middle: Tables,
    created: Task,
    after: Tables,
    found: Option<Task>,
)
    requires
        carries_out(
            before,
            Query::InsertTask { title: payload.title, description: payload.description },
            middle,
            Reply::Task(Some(created)),
        ),
        carries_out(middle, Query::SelectTask { id: created.id }, after, Reply::Task(found)),
    ensures
        create_task_answer(Ok(created)) == Ok::<(StatusCode, Task), ApiErrorView>(
            (StatusCode::Created, created),
        ),
        created.title == payload.title,
        created.description == payload.description,
        one_task_answer(created.id, Ok(found)) == Ok::<Task, ApiErrorView>(created),
        after == middle,
{
}

/// A request for a task that is not there is answered with status 404.
pub proof fn missing_task_is_not_found(
    before: Tables,
    id: u128,
    after: Tables,
    found: Option<Task>,
)
    requires
        !before.tasks.contains_key(id),
        carries_out(before, Query::SelectTask { id }, after, Reply::Task(found)),
    ensures
        one_task_answer(id, Ok(found)) == Err::<Task, ApiErrorView>(
            ApiErrorView::TaskNotFound(id),
        ),
        ApiErrorView::TaskNotFound(id).status().number() == 404,
{
}

/// The query that `update_task_query` gives.
pub open spec fn update_of(id: u128, payload: UpdateTaskPayload) -> Query {
    Query::UpdateTask {
        id,
        title: payload.title,
        description: payload.description,
        completed: payload.completed,
    }
}

/// A request that changes a task is answered with the task as it then is: the same identifier and
/// time of creation, what was given replaced, the rest as before, and the time of the change, even
/// where nothing is given. Where there is no such task, it is answered that there is none. A request
/// for the task is then answered the same way.
pub proof fn updated_task_can_be_read(
    before: Tables,
    id: u128,
    payload: UpdateTaskPayload,
    now: i64,
    middle: Tables,
    updated: Option<Task>,
    after: Tables,
    found: Option<Task>,
)
    requires
        before.valid(),
        carries_out_at(
            before,
            update_of(id, payload),
            now,
            middle,
            Reply::Task(updated),
        ),
        carries_out(middle, Query::SelectTask { id }, after, Reply::Task(found)),
    ensures
        match before.task(id) {
            Some(task) => {
                &&& one_task_answer(id, Ok(updated)) matches Ok(answered)
                &&& answered.id == id
                &&& answered.title == coalesce(payload.title, task.title)
                &&& answered.description == coalesce_optional(
                    payload.description,
                    task.description,
                )
                &&& answered.completed == coalesce(payload.completed, task.completed)
                &&& answered.created_at == task.created_at
                &&& answered.updated_at == now
            },
            None => one_task_answer(id, Ok(updated)) == Err::<Task, ApiErrorView>(
                ApiErrorView::TaskNotFound(id),
            ),
        },
        one_task_answer(id, Ok(found)) == one_task_answer(id, Ok(updated)),
{
}

/// A task that was there is removed with status 204, and one that was not is answered with 404.
/// Either way a request to read or to remove it is then answered with 404.
pub proof fn deleted_task_is_gone(
    before: Tables,
    id: u128,
    middle: Tables,
    removed: u64,
    after: Tables,
    found: Option<Task>,
    last: Tables,
    removed_again: u64,
)
    requires
        carries_out(before, Query::DeleteTask { id }, middle, Reply::Removed(removed)),
        carries_out(middle, Query::SelectTask { id }, after, Reply::Task(found)),
        carries_out(after, Query::DeleteTask { id }, last, Reply::Removed(removed_again)),
    ensures
        delete_task_answer(id, Ok(removed)) == if before.tasks.contains_key(id) {
            Ok::<StatusCode, ApiErrorView>(StatusCode::NoContent)
        } else {
            Err::<StatusCode, ApiErrorView>(ApiErrorView::TaskNotFound(id))
        },
        one_task_answer(id, Ok(found)) == Err::<Task, ApiErrorView>(
            ApiErrorView::TaskNotFound(id),
        ),
        delete_task_answer(id, Ok(removed_again)) == Err::<StatusCode, ApiErrorView>(
            ApiErrorView::TaskNotFound(id),
        ),
{
}

/// Whether a query changes or removes the task with an identifier.
pub open spec fn concerns(query: Query, id: u128) -> bool {
    match query {
        Query::UpdateTask { id: changed, .. } => changed == id,
        Query::DeleteTask { id: removed } => removed == id,
        _ => false,
    }
}

/// A task is left alone by every query but those that change or remove it.
pub proof fn other_tasks_stay(
    before: Tables,
    query: Query,
    after: Tables,
    reply: Reply,
    id: u128,
)
    requires
        before.valid(),
        before.tasks.contains_key(id),
        carries_out(before, query, after, reply),
        !concerns(query, id),
    ensures
        after.task(id) == before.task(id),
{
}

/// The row of a user is left alone by every query, and the tasks by every query about users.
pub proof fn users_and_tasks_do_not_interfere(
    before: Tables,
    query: Query,
    after: Tables,
    reply: Reply,
    email: Seq<char>,
)
    requires
        carries_out(before, query, after, reply),
    ensures
        before.users.contains_key(email) ==> after.user(email) == before.user(email),
        query is InsertUser || query is SelectUser ==> after.tasks == before.tasks,
        !(query is InsertUser) ==> after.users == before.users,
{
}

/// A request for all tasks is answered with every task once, the youngest first.
pub proof fn all_tasks_are_listed(before: Tables, after: Tables, rows: Vec<Task>)
    requires
        before.valid(),
        carries_out(before, Query::SelectAllTasks, after, Reply::Tasks(rows@)),
    ensures
        all_tasks_answer(Ok(rows)) == Ok::<Vec<Task>, ApiErrorView>(rows),
        before.tasks.dom().finite(),
        rows@.len() == before.tasks.len(),
        forall|task: Task| #[trigger] rows@.contains(task) <==> before.task(task.id) == Some(task),
        forall|i: int, j: int|
            0 <= i < j < rows@.len() ==> (#[trigger] rows@[i]).created_at >= (
            #[trigger] rows@[j]).created_at,
        after == before,
{
    let ids = rows@.map_values(|task: Task| task.id);
    assert forall|i: int, j: int| 0 <= i < j < ids.len() implies ids[i] != ids[j] by {
        assert(rows@[i].id != rows@[j].id);
    }
    assert(ids.no_duplicates());
    ids.unique_seq_to_set();
    assert forall|id: u128| #[trigger] ids.to_set().contains(id) <==> before.tasks.contains_key(
        id,
    ) by {
        if ids.to_set().contains(id) {
            let i = choose|i: int| 0 <= i < ids.len() && ids[i] == id;
            assert(before.tasks.contains_key(rows@[i].id));
        }
        if before.tasks.contains_key(id) {
            let i = choose|i: int| 0 <= i < rows@.len() && #[trigger] rows@[i].id == id;
            assert(ids[i] == id);
        }
    }
    assert(ids.to_set() =~= before.tasks.dom());
    assert forall|task: Task| #[trigger] rows@.contains(task) <==> before.task(task.id) == Some(
        task,
    ) by {
        if rows@.contains(task) {
            let i = choose|i: int| 0 <= i < rows@.len() && rows@[i] == task;
            assert(before.tasks.contains_key(rows@[i].id));
        }
        if before.task(task.id) == Some(task) {
            let i = choose|i: int| 0 <= i < rows@.len() && #[trigger] rows@[i].id == task.id;
            assert(rows@[i] == task);
        }
    }
}

/// Removing a task that was just created brings back the tables as they were before.
pub proof fn deletion_undoes_creation(
    before: Tables,
    payload: CreateTaskPayload,
    middle: Tables,
    created: Task,
    after: Tables,
    removed: u64,
)
    requires
        carries_out(
            before,
            Query::InsertTask { title: payload.title, description: payload.description },
            middle,
            Reply::Task(Some(created)),
        ),
        carries_out(middle, Query::DeleteTask { id: created.id }, after, Reply::Removed(removed)),
    ensures
        after == before,
        delete_task_answer(created.id, Ok(removed)) == Ok::<StatusCode, ApiErrorView>(
            StatusCode::NoContent,
        ),
{
    assert(after.tasks =~= before.tasks);
}

/// Two changes of a task, one after the other, come to one change at the time of the second, which
/// gives what the second gives and else what the first gives.
pub proof fn updates_merge(
    before: Tables,
    id: u128,
    first: UpdateTaskPayload,
    first_time: i64,
    middle: Tables,
    first_reply: Option<Task>,
    second: UpdateTaskPayload,
    second_time: i64,
    after: Tables,
    second_reply: Option<Task>,
)
    requires
        before.valid(),
        carries_out_at(before, update_of(id, first), first_time, middle, Reply::Task(first_reply)),
        carries_out_at(middle, update_of(id, second), second_time, after, Reply::Task(second_reply)),
    ensures
        carries_out_at(
            before,
            update_of(
                id,
                UpdateTaskPayload {
                    title: coalesce_optional(second.title, first.title),
                    description: coalesce_optional(second.description, first.description),
                    completed: coalesce_optional(second.completed, first.completed),
                },
            ),
            second_time,
            after,
            Reply::Task(second_reply),
        ),
{
    if before.tasks.contains_key(id) {
        assert(after.tasks =~= before.tasks.insert(id, after.tasks[id]));
    }
}

/// A created task is in the list of all tasks from then on, and the list is otherwise as before.
pub proof fn created_task_is_listed(
    before: Tables,
    old_rows: Vec<Task>,
    payload: CreateTaskPayload,
    created: Task,
    after: Tables,
    new_rows: Vec<Task>,
)
    requires
        before.valid(),
        carries_out(before, Query::SelectAllTasks, before, Reply::Tasks(old_rows@)),
        carries_out(
            before,
            Query::InsertTask { title: payload.title, description: payload.description },
            after,
            Reply::Task(Some(created)),
        ),
        carries_out(after, Query::SelectAllTasks, after, Reply::Tasks(new_rows@)),
    ensures
        new_rows@.len() == old_rows@.len() + 1,
        forall|task: Task| #[trigger]
            new_rows@.contains(task) <==> old_rows@.contains(task) || task == created,
{
    all_tasks_are_listed(before, before, old_rows);
    all_tasks_are_listed(after, after, new_rows);
    assert(after.tasks.dom() =~= before.tasks.dom().insert(created.id));
    assert forall|task: Task| #[trigger]
        new_rows@.contains(task) <==> old_rows@.contains(task) || task == created by {
        assert(new_rows@.contains(task) <==> after.task(task.id) == Some(task));
        assert(old_rows@.contains(task) <==> before.task(task.id) == Some(task));
    }
}

/// A removed task is in no list of all tasks from then on, and the list is otherwise as before.
pub proof fn deleted_task_is_not_listed(
    before: Tables,
    old_rows: Vec<Task>,
    id: u128,
    removed: u64,
    after: Tables,
    new_rows: Vec<Task>,
)
    requires
        before.valid(),
        carries_out(before, Query::SelectAllTasks, before, Reply::Tasks(old_rows@)),
        carries_out(before, Query::DeleteTask { id }, after, Reply::Removed(removed)),
        carries_out(after, Query::SelectAllTasks, after, Reply::Tasks(new_rows@)),
    ensures
        new_rows@.len() == old_rows@.len() - removed,
        forall|task: Task| #[trigger]
            new_rows@.contains(task) <==> old_rows@.contains(task) && task.id != id,
{
    all_tasks_are_listed(before, before, old_rows);
    all_tasks_are_listed(after, after, new_rows);
    assert(after.tasks.dom() =~= before.tasks.dom().remove(id));
    assert forall|task: Task| #[trigger]
        new_rows@.contains(task) <==> old_rows@.contains(task) && task.id != id by {
        assert(new_rows@.contains(task) <==> after.task(task.id) == Some(task));
        assert(old_rows@.contains(task) <==> before.task(task.id) == Some(task));
    }
}

/// A user whom a registration stored can log in with the same email address and password. That a
/// query is a registration is what `register_user_query` promises of every query it gives.
pub proof fn registered_user_can_log_in(
    before: Tables,
    email: Seq<char>,
    password: Seq<char>,
    salt: Seq<char>,
    query: Query,
    middle: Tables,
    user: User,
    login_email: String,
    after: Tables,
    found: Option<User>,
)
    requires
        is_registration(email, password, salt, query),
        carries_out(before, query, middle, Reply::User(Some(user))),
        login_email@ == email,
        carries_out(middle, Query::SelectUser { email: login_email }, after, Reply::User(found)),
    ensures
        register_answer(email, Ok(user)) == Ok::<
            (StatusCode, Map<Seq<char>, JsonMember>),
            ApiErrorView,
        >((StatusCode::Created, account_members("User registered successfully."@, user))),
        user.email@ == email,
        has_checkable_hash(Ok(found)),
        login_answer(
            Ok(found),
            has_checkable_hash(Ok(found)) && password_accepted(password, Ok(found)),
        ) == Ok::<
            (StatusCode, Map<Seq<char>, JsonMember>),
            ApiErrorView,
        >((StatusCode::Success, account_members("Login successful"@, user))),
{
}

/// A client is told the same whether no user has the email address or the password is not accepted
/// for the user who has it.
pub proof fn refused_login_hides_the_cause(user: User, password: Seq<char>)
    requires
        !(has_checkable_hash(Ok(Some(user))) && password_accepted(password, Ok(Some(user)))),
    ensures
        login_answer(
            Ok(Some(user)),
            has_checkable_hash(Ok(Some(user))) && password_accepted(password, Ok(Some(user))),
        ) == Err::<(StatusCode, Map<Seq<char>, JsonMember>), ApiErrorView>(
            ApiErrorView::InvalidCredentials,
        ),
        login_answer(
            Ok(None),
            has_checkable_hash(Ok(None)) && password_accepted(password, Ok(None)),
        ) == Err::<(StatusCode, Map<Seq<char>, JsonMember>), ApiErrorView>(
            ApiErrorView::InvalidCredentials,
        ),
        ApiErrorView::InvalidCredentials.status().number() == 401,
{
}

/// A registration that the database refuses because a unique value occurs already is answered with
/// status 409 and the email address that was sent.
pub proof fn duplicate_registration_is_a_conflict(email: Seq<char>, failure: DbFailure)
    requires
        failure@.is_unique_violation(),
    ensures
        register_answer(email, Err(failure)) == Err::<
            (StatusCode, Map<Seq<char>, JsonMember>),
            ApiErrorView,
        >(ApiErrorView::UserAlreadyExists(email)),
        ApiErrorView::UserAlreadyExists(email).status().number() == 409,
{
}

/// The answer to a failed request has three members. The member `error_code` repeats the status,
/// which is that of a client or server error.
pub proof fn failures_name_their_status(error: ApiErrorView)
    ensures
        error.body().dom() == set!["error_code"@, "message"@, "error_type"@],
        error.body()["error_code"@] == JsonMember::Number(error.status().number() as int),
        error.body()["message"@] == JsonMember::Text(error.message()),
        error.body()["error_type"@] == JsonMember::Text(error.error_type()),
        400 <= error.status().number() < 600,
{
    reveal_strlit("error_code");
    reveal_strlit("message");
    reveal_strlit("error_type");
    assert("error_code"@.len() != "message"@.len());
    assert("error_type"@.len() != "message"@.len());
    assert("error_code"@[6] != "error_type"@[6]);
    assert(error.body().dom() =~= set!["error_code"@, "message"@, "error_type"@]);
}

/// What is told of a failure of the service or of the database does not depend on its text: the
/// text stays with the service.
pub proof fn inner_failures_are_not_disclosed(left: Seq<char>, right: Seq<char>)
    ensures
        ApiErrorView::InternalServerError(left).body() == ApiErrorView::InternalServerError(
            right,
        ).body(),
        ApiErrorView::DbError(left).body() == ApiErrorView::DbError(right).body(),
        ApiErrorView::InternalServerError(left).status()
            == StatusCode::InternalServerError,
        ApiErrorView::DbError(left).status() == StatusCode::InternalServerError,
{
}

} // verus!

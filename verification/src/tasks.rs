//! Requests about tasks.
//!
//! Every request becomes one query to the database. What the database brings back then decides
//! the answer.

use vstd::prelude::*;

use crate::error::{ApiError, ApiErrorView, DbFailure, StatusCode};
use crate::laws::{carries_out_at, lists_all, update_of, Reply, Tables};
use crate::store::{viewed, Query};

verus! {

/// A task. Times are in microseconds since the start of 1970, in UTC.
#[derive(Debug, Clone, PartialEq, Eq)]
pub struct Task {
    pub id: u128,
    pub title: String,
    pub description: Option<String>,
    pub completed: bool,
    pub created_at: i64,
    pub updated_at: i64,
}

/// What a client sends to create a task.
#[derive(Debug)]
pub struct CreateTaskPayload {
    pub title: String,
    pub description: Option<String>,
}

/// What a client sends to change a task: what is missing stays as it is.
#[derive(Debug)]
pub struct UpdateTaskPayload {
    pub title: Option<String>,
    pub description: Option<String>,
    pub completed: Option<bool>,
}

/// The answer to a request for one task, from what the database found.
pub open spec fn one_task_answer(id: u128, found: Result<Option<Task>, DbFailure>) -> Result<
    Task,
    ApiErrorView,
> {
    match found {
        Ok(Some(task)) => Ok(task),
        Ok(None) => Err(ApiErrorView::TaskNotFound(id)),
        Err(failure) => Err(failure@.api_error()),
    }
}

/// The answer to a request that creates a task, from what the database stored.
pub open spec fn create_task_answer(created: Result<Task, DbFailure>) -> Result<
    (StatusCode, Task),
    ApiErrorView,
> {
    match created {
        Ok(task) => Ok((StatusCode::Created, task)),
        Err(failure) => Err(failure@.api_error()),
    }
}

/// The answer to a request for all tasks, from what the database found.
pub open spec fn all_tasks_answer(found: Result<Vec<Task>, DbFailure>) -> Result<
    Vec<Task>,
    ApiErrorView,
> {
    match found {
        Ok(tasks) => Ok(tasks),
        Err(failure) => Err(failure@.api_error()),
    }
}

/// The answer to a request that removes a task, from the number of rows that the database removed.
pub open spec fn delete_task_answer(id: u128, affected: Result<u64, DbFailure>) -> Result<
    StatusCode,
    ApiErrorView,
> {
    match affected {
        Ok(rows) => if rows == 0 {
            Err(ApiErrorView::TaskNotFound(id))
        } else {
            Ok(StatusCode::NoContent)
        },
        Err(failure) => Err(failure@.api_error()),
    }
}

/// The query for one task.
pub fn get_task_by_id_query(id: u128) -> (query: Query)
    ensures
        query == (Query::SelectTask { id }),
        forall|before: Tables, now: i64, after: Tables, reply: Reply| #[trigger]
            carries_out_at(before, query, now, after, reply) ==> after == before && reply
                == Reply::Task(before.task(id)),
{
    Query::SelectTask { id }
}

/// The answer to a request for one task.
pub fn get_task_by_id(id: u128, found: Result<Option<Task>, DbFailure>) -> (answer: Result<
    Task,
    ApiError,
>)
    ensures
        viewed(answer) == one_task_answer(id, found),
        match found {
            Ok(Some(task)) => answer == Ok::<Task, ApiError>(task),
            Ok(None) => answer == Err::<Task, ApiError>(ApiError::TaskNotFound(id)),
            Err(failure) => answer matches Err(error) && error@ == failure@.api_error(),
        },
{
    match found {
        Ok(Some(task)) => Ok(task),
        Ok(None) => Err(ApiError::TaskNotFound(id)),
        Err(failure) => Err(ApiError::from(failure)),
    }
}

/// The query that creates a task.
pub fn create_task_query(payload: CreateTaskPayload) -> (query: Query)
    ensures
        query == (Query::InsertTask { title: payload.title, description: payload.description }),
        forall|before: Tables, now: i64, after: Tables, reply: Reply| #[trigger]
            carries_out_at(before, query, now, after, reply) ==> {
                &&& reply matches Reply::Task(Some(task))
                &&& task.title == payload.title
                &&& task.description == payload.description
                &&& !before.tasks.contains_key(task.id)
                &&& after == before.with_task(task)
            },
{
    Query::InsertTask { title: payload.title, description: payload.description }
}

/// The answer to a request that creates a task.
pub fn create_task_handler(created: Result<Task, DbFailure>) -> (answer: Result<
    (StatusCode, Task),
    ApiError,
>)
    ensures
        viewed(answer) == create_task_answer(created),
        match created {
            Ok(task) => answer == Ok::<(StatusCode, Task), ApiError>((StatusCode::Created, task)),
            Err(failure) => answer matches Err(error) && error@ == failure@.api_error(),
        },
{
    match created {
        Ok(task) => Ok((StatusCode::Created, task)),
        Err(failure) => Err(ApiError::from(failure)),
    }
}

/// The query for all tasks.
pub fn get_all_tasks_query() -> (query: Query)
    ensures
        query == Query::SelectAllTasks,
        forall|before: Tables, now: i64, after: Tables, reply: Reply| #[trigger]
            carries_out_at(before, query, now, after, reply) ==> after == before && (
            reply matches Reply::Tasks(rows) && lists_all(before.tasks, rows)),
{
    Query::SelectAllTasks
}

/// The answer to a request for all tasks.
pub fn get_all_tasks(found: Result<Vec<Task>, DbFailure>) -> (answer: Result<Vec<Task>, ApiError>)
    ensures
        viewed(answer) == all_tasks_answer(found),
        match found {
            Ok(tasks) => answer == Ok::<Vec<Task>, ApiError>(tasks),
            Err(failure) => answer matches Err(error) && error@ == failure@.api_error(),
        },
{
    match found {
        Ok(tasks) => Ok(tasks),
        Err(failure) => Err(ApiError::from(failure)),
    }
}

/// The query that changes a task.
pub fn update_task_query(id: u128, payload: UpdateTaskPayload) -> (query: Query)
    ensures
        query == (Query::UpdateTask {
            id,
            title: payload.title,
            description: payload.description,
            completed: payload.completed,
        }),
        query == update_of(id, payload),
        forall|before: Tables, now: i64, after: Tables, reply: Reply| #[trigger]
            carries_out_at(before, query, now, after, reply) && before.tasks.contains_key(id) ==> {
                let task = before.tasks[id];
                &&& reply matches Reply::Task(Some(changed))
                &&& changed.id == task.id
                &&& changed.title == if payload.title is Some {
                    payload.title.unwrap()
                } else {
                    task.title
                }
                &&& changed.description == if payload.description is Some {
                    payload.description
                } else {
                    task.description
                }
                &&& changed.completed == if payload.completed is Some {
                    payload.completed.unwrap()
                } else {
                    task.completed
                }
                &&& changed.created_at == task.created_at
                &&& changed.updated_at == now
                &&& after == before.with_task(changed)
            },
        forall|before: Tables, now: i64, after: Tables, reply: Reply| #[trigger]
            carries_out_at(before, query, now, after, reply) && !before.tasks.contains_key(id)
                ==> reply == Reply::Task(None) && after == before,
{
    Query::UpdateTask {
        id,
        title: payload.title,
        description: payload.description,
        completed: payload.completed,
    }
}

/// The answer to a request that changes a task.
pub fn update_task(id: u128, updated: Result<Option<Task>, DbFailure>) -> (answer: Result<
    Task,
    ApiError,
>)
    ensures
        viewed(answer) == one_task_answer(id, updated),
        match updated {
            Ok(Some(task)) => answer == Ok::<Task, ApiError>(task),
            Ok(None) => answer == Err::<Task, ApiError>(ApiError::TaskNotFound(id)),
            Err(failure) => answer matches Err(error) && error@ == failure@.api_error(),
        },
{
    match updated {
        Ok(Some(task)) => Ok(task),
        Ok(None) => Err(ApiError::TaskNotFound(id)),
        Err(failure) => Err(ApiError::from(failure)),
    }
}

/// The query that removes a task.
pub fn delete_task_query(id: u128) -> (query: Query)
    ensures
        query == (Query::DeleteTask { id }),
        forall|before: Tables, now: i64, after: Tables, reply: Reply| #[trigger]
            carries_out_at(before, query, now, after, reply) ==> {
                &&& reply matches Reply::Removed(rows)
                &&& rows > 0 <==> before.tasks.contains_key(id)
                &&& after == before.without_task(id)
            },
{
    Query::DeleteTask { id }
}

/// The answer to a request that removes a task, from the number of rows that were removed.
pub fn delete_task(id: u128, affected: Result<u64, DbFailure>) -> (answer: Result<
    StatusCode,
    ApiError,
>)
    ensures
        viewed(answer) == delete_task_answer(id, affected),
        match affected {
            Ok(rows) => answer == if rows > 0 {
                Ok::<StatusCode, ApiError>(StatusCode::NoContent)
            } else {
                Err::<StatusCode, ApiError>(ApiError::TaskNotFound(id))
            },
            Err(failure) => answer matches Err(error) && error@ == failure@.api_error(),
        },
{
    match affected {
        Ok(rows) => {
            if rows == 0 {
                Err(ApiError::TaskNotFound(id))
            } else {
                Ok(StatusCode::NoContent)
            }
        },
        Err(failure) => Err(ApiError::from(failure)),
    }
}

} // verus!

//! The statements that the service sends to its database.

use vstd::prelude::*;

use crate::error::{ApiError, ApiErrorView};
use crate::laws::{carries_out_at, Reply, Tables};
use crate::sql::{runs_at, sent_statements_mean_their_queries};

verus! {

/// What the service asks of its database.
#[derive(Debug, PartialEq, Eq)]
#[allow(inconsistent_fields)]
pub enum Query {
    /// Store a new user and return the row.
    InsertUser { email: String, password_hash: String, password_salt: String },
    /// Return the row of the user with this email address, if there is one.
    SelectUser { email: String },
    /// Return the row of the task with this identifier, if there is one.
    SelectTask { id: u128 },
    /// Store a new task and return the row.
    InsertTask { title: String, description: Option<String> },
    /// Return the rows of all tasks, the youngest first.
    SelectAllTasks,
    /// Replace what is given of the task with this identifier and return the row, if there is one.
    UpdateTask {
        id: u128,
        title: Option<String>,
        description: Option<String>,
        completed: Option<bool>,
    },
    /// Remove the task with this identifier.
    DeleteTask { id: u128 },
}

/// A value that a statement is sent with.
#[derive(Debug, PartialEq, Eq)]
pub enum Param {
    Id(u128),
    Text(String),
    OptionalText(Option<String>),
    OptionalFlag(Option<bool>),
}

/// A statement in SQL and the values for its placeholders `$1`, `$2` and so on, in this order.
#[derive(Debug, PartialEq, Eq)]
pub struct Statement {
    pub sql: &'static str,
    pub params: Vec<Param>,
}

pub const INSERT_USER: &'static str =
    "INSERT INTO users (email, password_hash, password_salt) VALUES ($1, $2, $3) RETURNING id, email, password_hash, password_salt, created_at, updated_at";

pub const SELECT_USER: &'static str =
    "SELECT id, email, password_hash, password_salt, created_at, updated_at FROM users WHERE email = $1";

pub const SELECT_TASK: &'static str =
    "SELECT id, title, description, completed, created_at, updated_at FROM tasks WHERE id = $1";

pub const INSERT_TASK: &'static str =
    "INSERT INTO tasks (title, description) VALUES ($1, $2) RETURNING *";

pub const SELECT_ALL_TASKS: &'static str =
    "SELECT id, title, description, completed, created_at, updated_at FROM tasks ORDER BY created_at DESC";

pub const UPDATE_TASK: &'static str =
    "UPDATE tasks SET title = COALESCE($1, title), description = COALESCE($2, description), completed = COALESCE($3, completed), updated_at = NOW() WHERE id = $4 RETURNING *";

pub const DELETE_TASK: &'static str = "DELETE FROM tasks WHERE id = $1";

impl Query {
    /// The SQL text of the statement.
    pub open spec fn sql(self) -> Seq<char> {
        match self {
            Query::InsertUser { .. } => INSERT_USER@,
            Query::SelectUser { .. } => SELECT_USER@,
            Query::SelectTask { .. } => SELECT_TASK@,
            Query::InsertTask { .. } => INSERT_TASK@,
            Query::SelectAllTasks => SELECT_ALL_TASKS@,
            Query::UpdateTask { .. } => UPDATE_TASK@,
            Query::DeleteTask { .. } => DELETE_TASK@,
        }
    }

    /// The values for the placeholders of the statement.
    pub open spec fn params(self) -> Seq<Param> {
        match self {
            Query::InsertUser { email, password_hash, password_salt } => seq![
                Param::Text(email),
                Param::Text(password_hash),
                Param::Text(password_salt),
            ],
            Query::SelectUser { email } => seq![Param::Text(email)],
            Query::SelectTask { id } => seq![Param::Id(id)],
            Query::InsertTask { title, description } => seq![
                Param::Text(title),
                Param::OptionalText(description),
            ],
            Query::SelectAllTasks => seq![],
            Query::UpdateTask { id, title, description, completed } => seq![
                Param::OptionalText(title),
                Param::OptionalText(description),
                Param::OptionalFlag(completed),
                Param::Id(id),
            ],
            Query::DeleteTask { id } => seq![Param::Id(id)],
        }
    }

    /// The statement that asks this of the database.
    pub fn statement(self) -> (statement: Statement)
        ensures
            statement.sql@ == self.sql(),
            statement.params@ == self.params(),
            forall|before: Tables, now: i64, after: Tables, reply: Reply| #[trigger]
                runs_at(before, statement.sql@, statement.params@, now, after, reply)
                    <==> carries_out_at(before, self, now, after, reply),
    {
        let ghost query = self;
        let statement = match self {
            Query::InsertUser { email, password_hash, password_salt } => Statement {
                sql: INSERT_USER,
                params: vec![
                    Param::Text(email),
                    Param::Text(password_hash),
                    Param::Text(password_salt),
                ],
            },
            Query::SelectUser { email } => Statement {
                sql: SELECT_USER,
                params: vec![Param::Text(email)],
            },
            Query::SelectTask { id } => Statement { sql: SELECT_TASK, params: vec![Param::Id(id)] },
            Query::InsertTask { title, description } => Statement {
                sql: INSERT_TASK,
                params: vec![Param::Text(title), Param::OptionalText(description)],
            },
            Query::SelectAllTasks => Statement { sql: SELECT_ALL_TASKS, params: vec![] },
            Query::UpdateTask { id, title, description, completed } => Statement {
                sql: UPDATE_TASK,
                params: vec![
                    Param::OptionalText(title),
                    Param::OptionalText(description),
                    Param::OptionalFlag(completed),
                    Param::Id(id),
                ],
            },
            Query::DeleteTask { id } => Statement { sql: DELETE_TASK, params: vec![Param::Id(id)] },
        };
        proof {
            assert(statement.params@ =~= query.params());
            assert forall|before: Tables, now: i64, after: Tables, reply: Reply| #[trigger]
                runs_at(before, statement.sql@, statement.params@, now, after, reply)
                    <==> carries_out_at(before, query, now, after, reply) by {
                sent_statements_mean_their_queries(before, query, now, after, reply);
            }
        }
        statement
    }
}

/// An outcome with the error taken by its view.
pub open spec fn viewed<T>(outcome: Result<T, ApiError>) -> Result<T, ApiErrorView> {
    match outcome {
        Ok(value) => Ok(value),
        Err(error) => Err(error@),
    }
}

} // verus!

//! What the SQL texts and the values sent with them mean for the tables.

use vstd::prelude::*;

use crate::laws::{carries_out_at, changed_task, lists_all, Reply, Tables};
use crate::store::{Param, Query};
use crate::tasks::{CreateTaskPayload, UpdateTaskPayload};

verus! {

/// Whether the database, running an SQL text with values for its placeholders at the time `now`,
/// goes from the tables `before` to the tables `after` and brings back this reply. The texts are
/// read as SQL has it: `$1` is the first value, `COALESCE` takes the first of its arguments that is
/// given, `ORDER BY .. DESC` puts the greatest first. A text that is none of these is not run.
pub open spec fn runs_at(
    before: Tables,
    sql: Seq<char>,
    params: Seq<Param>,
    now: i64,
    after: Tables,
    reply: Reply,
) -> bool {
    if sql
        == "INSERT INTO users (email, password_hash, password_salt) VALUES ($1, $2, $3) RETURNING id, email, password_hash, password_salt, created_at, updated_at"@ {
        &&& params.len() == 3
        &&& params[0] matches Param::Text(email)
        &&& params[1] matches Param::Text(password_hash)
        &&& params[2] matches Param::Text(password_salt)
        &&& reply matches Reply::User(Some(user))
        &&& user.email == email
        &&& user.password_hash == password_hash
        &&& user.password_salt == password_salt
        &&& !before.users.contains_key(email@)
        &&& after == before.with_user(user)
    } else if sql
        == "SELECT id, email, password_hash, password_salt, created_at, updated_at FROM users WHERE email = $1"@ {
        &&& params.len() == 1
        &&& params[0] matches Param::Text(email)
        &&& reply == Reply::User(before.user(email@))
        &&& after == before
    } else if sql
        == "SELECT id, title, description, completed, created_at, updated_at FROM tasks WHERE id = $1"@ {
        &&& params.len() == 1
        &&& params[0] matches Param::Id(id)
        &&& reply == Reply::Task(before.task(id))
        &&& after == before
    } else if sql == "INSERT INTO tasks (title, description) VALUES ($1, $2) RETURNING *"@ {
        &&& params.len() == 2
        &&& params[0] matches Param::Text(title)
        &&& params[1] matches Param::OptionalText(description)
        &&& reply matches Reply::Task(Some(task))
        &&& task.title == title
        &&& task.description == description
        &&& !before.tasks.contains_key(task.id)
        &&& after == before.with_task(task)
    } else if sql
        == "SELECT id, title, description, completed, created_at, updated_at FROM tasks ORDER BY created_at DESC"@ {
        &&& params.len() == 0
        &&& reply matches Reply::Tasks(rows)
        &&& lists_all(before.tasks, rows)
        &&& after == before
    } else if sql
        == "UPDATE tasks SET title = COALESCE($1, title), description = COALESCE($2, description), completed = COALESCE($3, completed), updated_at = NOW() WHERE id = $4 RETURNING *"@ {
        &&& params.len() == 4
        &&& params[0] matches Param::OptionalText(title)
        &&& params[1] matches Param::OptionalText(description)
        &&& params[2] matches Param::OptionalFlag(completed)
        &&& params[3] matches Param::Id(id)
        &&& reply matches Reply::Task(row)
        &&& match before.task(id) {
            Some(task) => {
                &&& row == Some(changed_task(task, title, description, completed, now))
                &&& after == before.with_task(row.unwrap())
            },
            None => row is None && after == before,
        }
    } else if sql == "DELETE FROM tasks WHERE id = $1"@ {
        &&& params.len() == 1
        &&& params[0] matches Param::Id(id)
        &&& reply == Reply::Removed(if before.tasks.contains_key(id) { 1 } else { 0 })
        &&& after == before.without_task(id)
    } else {
        false
    }
}

/// What a query is sent as means what the query means: running its SQL text with its values does to
/// the tables, and brings back, what carrying out the query does.
pub proof fn sent_statements_mean_their_queries(
    before: Tables,
    query: Query,
    now: i64,
    after: Tables,
    reply: Reply,
)
    ensures
        runs_at(before, query.sql(), query.params(), now, after, reply) <==> carries_out_at(
            before,
            query,
            now,
            after,
            reply,
        ),
{
    texts_differ_in_length();
}

/// What is sent to create a task stores one with exactly the title and the description that were
/// given, also where no description was, and leaves everything else alone.
pub proof fn sent_creation_stores_what_is_given(
    before: Tables,
    payload: CreateTaskPayload,
    now: i64,
    after: Tables,
    reply: Reply,
)
    requires
        ({
            let query = Query::InsertTask {
                title: payload.title,
                description: payload.description,
            };
            runs_at(before, query.sql(), query.params(), now, after, reply)
        }),
    ensures
        reply matches Reply::Task(Some(task)) && {
            &&& task.title == payload.title
            &&& payload.description is None ==> task.description is None
            &&& payload.description is Some ==> task.description == payload.description
            &&& !before.tasks.contains_key(task.id)
            &&& after.tasks == before.tasks.insert(task.id, task)
            &&& after.users == before.users
        },
{
    sent_statements_mean_their_queries(
        before,
        Query::InsertTask { title: payload.title, description: payload.description },
        now,
        after,
        reply,
    );
}

/// What is sent to change a task gives it the title, the description and the completion that were
/// given, each of them by itself, keeps those that were not, sets the time, and leaves every other
/// row alone.
pub proof fn sent_update_changes_what_is_given(
    before: Tables,
    id: u128,
    payload: UpdateTaskPayload,
    now: i64,
    after: Tables,
    reply: Reply,
    other: u128,
)
    requires
        before.valid(),
        ({
            let query = Query::UpdateTask {
                id,
                title: payload.title,
                description: payload.description,
                completed: payload.completed,
            };
            runs_at(before, query.sql(), query.params(), now, after, reply)
        }),
    ensures
        reply is Task,
        before.tasks.contains_key(id) ==> {
            let old_task = before.tasks[id];
            &&& reply matches Reply::Task(Some(task))
            &&& task.id == id
            &&& task.title == if payload.title is Some {
                payload.title.unwrap()
            } else {
                old_task.title
            }
            &&& task.description == if payload.description is Some {
                payload.description
            } else {
                old_task.description
            }
            &&& task.completed == if payload.completed is Some {
                payload.completed.unwrap()
            } else {
                old_task.completed
            }
            &&& task.created_at == old_task.created_at
            &&& task.updated_at == now
            &&& after.tasks.contains_key(id)
            &&& after.tasks[id] == task
        },
        !before.tasks.contains_key(id) ==> reply == Reply::Task(None) && after == before,
        other != id ==> after.task(other) == before.task(other),
        after.users == before.users,
{
    sent_statements_mean_their_queries(
        before,
        Query::UpdateTask {
            id,
            title: payload.title,
            description: payload.description,
            completed: payload.completed,
        },
        now,
        after,
        reply,
    );
}

/// What is sent to read a task brings back its row, what is sent to remove it takes away that row
/// alone and says whether there was one, and what is sent to read all tasks brings back every row
/// once, a younger one before an older one.
pub proof fn sent_reads_and_deletions(
    before: Tables,
    id: u128,
    now: i64,
    after: Tables,
    reply: Reply,
    other: u128,
)
    ensures
        runs_at(
            before,
            (Query::SelectTask { id }).sql(),
            (Query::SelectTask { id }).params(),
            now,
            after,
            reply,
        ) ==> after == before && reply == if before.tasks.contains_key(id) {
            Reply::Task(Some(before.tasks[id]))
        } else {
            Reply::Task(None)
        },
        runs_at(
            before,
            (Query::DeleteTask { id }).sql(),
            (Query::DeleteTask { id }).params(),
            now,
            after,
            reply,
        ) ==> {
            &&& !after.tasks.contains_key(id)
            &&& other != id ==> after.task(other) == before.task(other)
            &&& after.users == before.users
            &&& reply matches Reply::Removed(rows)
            &&& rows > 0 <==> before.tasks.contains_key(id)
        },
        runs_at(
            before,
            Query::SelectAllTasks.sql(),
            Query::SelectAllTasks.params(),
            now,
            after,
            reply,
        ) ==> {
            &&& after == before
            &&& reply matches Reply::Tasks(rows)
            &&& forall|i: int, j: int|
                0 <= i < j < rows.len() ==> (#[trigger] rows[i]).created_at >= (
                #[trigger] rows[j]).created_at && rows[i].id != rows[j].id
            &&& forall|i: int|
                0 <= i < rows.len() ==> before.task((#[trigger] rows[i]).id) == Some(rows[i])
            &&& before.tasks.contains_key(id) ==> exists|i: int|
                0 <= i < rows.len() && #[trigger] rows[i].id == id
        },
{
    sent_statements_mean_their_queries(before, Query::SelectTask { id }, now, after, reply);
    sent_statements_mean_their_queries(before, Query::DeleteTask { id }, now, after, reply);
    sent_statements_mean_their_queries(before, Query::SelectAllTasks, now, after, reply);
}

/// What is sent to store a user stores exactly the email address, the hash and the salt of the
/// query, each in its own column, and what is sent to look for a user brings back the row with that
/// email address.
pub proof fn sent_account_statements(
    before: Tables,
    email: String,
    password_hash: String,
    password_salt: String,
    now: i64,
    after: Tables,
    reply: Reply,
)
    ensures
        ({
            let query = Query::InsertUser { email, password_hash, password_salt };
            runs_at(before, query.sql(), query.params(), now, after, reply)
        }) ==> {
            &&& reply matches Reply::User(Some(user))
            &&& user.email == email
            &&& user.password_hash == password_hash
            &&& user.password_salt == password_salt
            &&& after.users.contains_key(email@)
            &&& after.users[email@] == user
            &&& after.tasks == before.tasks
        },
        ({
            let query = Query::SelectUser { email };
            runs_at(before, query.sql(), query.params(), now, after, reply)
        }) ==> after == before && reply == if before.users.contains_key(email@) {
            Reply::User(Some(before.users[email@]))
        } else {
            Reply::User(None)
        },
{
    sent_statements_mean_their_queries(
        before,
        Query::InsertUser { email, password_hash, password_salt },
        now,
        after,
        reply,
    );
    sent_statements_mean_their_queries(before, Query::SelectUser { email }, now, after, reply);
}

/// No two of the SQL texts are equally long.
proof fn texts_differ_in_length()
    ensures
        "INSERT INTO users (email, password_hash, password_salt) VALUES ($1, $2, $3) RETURNING id, email, password_hash, password_salt, created_at, updated_at"@.len()
            == 149,
        "SELECT id, email, password_hash, password_salt, created_at, updated_at FROM users WHERE email = $1"@.len()
            == 98,
        "SELECT id, title, description, completed, created_at, updated_at FROM tasks WHERE id = $1"@.len()
            == 89,
        "INSERT INTO tasks (title, description) VALUES ($1, $2) RETURNING *"@.len() == 66,
        "SELECT id, title, description, completed, created_at, updated_at FROM tasks ORDER BY created_at DESC"@.len()
            == 100,
        "UPDATE tasks SET title = COALESCE($1, title), description = COALESCE($2, description), completed = COALESCE($3, completed), updated_at = NOW() WHERE id = $4 RETURNING *"@.len()
            == 168,
        "DELETE FROM tasks WHERE id = $1"@.len() == 31,
{
    reveal_strlit(
        "INSERT INTO users (email, password_hash, password_salt) VALUES ($1, $2, $3) RETURNING id, email, password_hash, password_salt, created_at, updated_at",
    );
    reveal_strlit(
        "SELECT id, email, password_hash, password_salt, created_at, updated_at FROM users WHERE email = $1",
    );
    reveal_strlit(
        "SELECT id, title, description, completed, created_at, updated_at FROM tasks WHERE id = $1",
    );
    reveal_strlit("INSERT INTO tasks (title, description) VALUES ($1, $2) RETURNING *");
    reveal_strlit(
        "SELECT id, title, description, completed, created_at, updated_at FROM tasks ORDER BY created_at DESC",
    );
    reveal_strlit(
        "UPDATE tasks SET title = COALESCE($1, title), description = COALESCE($2, description), completed = COALESCE($3, completed), updated_at = NOW() WHERE id = $4 RETURNING *",
    );
    reveal_strlit("DELETE FROM tasks WHERE id = $1");
}

} // verus!

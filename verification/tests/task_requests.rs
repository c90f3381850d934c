//! Requests about tasks, against a small table in memory that carries out the statements.

use task_api::error::{ApiError, DbFailure, StatusCode};
use task_api::store::{
    Param, Query, DELETE_TASK, INSERT_TASK, INSERT_USER, SELECT_ALL_TASKS, SELECT_TASK, SELECT_USER,
    UPDATE_TASK,
};
use task_api::tasks::{
    create_task_handler, create_task_query, delete_task, delete_task_query, get_all_tasks,
    get_all_tasks_query, get_task_by_id, get_task_by_id_query, update_task, update_task_query,
    CreateTaskPayload, Task, UpdateTaskPayload,
};

struct Table {
    rows: Vec<Task>,
    clock: i64,
}

fn id_param(param: &Param) -> u128 {
    match param {
        Param::Id(id) => *id,
        other => panic!("no identifier: {other:?}"),
    }
}

fn text_param(param: &Param) -> String {
    match param {
        Param::Text(text) => text.clone(),
        other => panic!("no text: {other:?}"),
    }
}

fn optional_text_param(param: &Param) -> Option<String> {
    match param {
        Param::OptionalText(text) => text.clone(),
        other => panic!("no optional text: {other:?}"),
    }
}

fn optional_flag_param(param: &Param) -> Option<bool> {
    match param {
        Param::OptionalFlag(flag) => *flag,
        other => panic!("no optional flag: {other:?}"),
    }
}

impl Table {
    fn new() -> Table {
        Table { rows: Vec::new(), clock: 1_700_000_000_000_000 }
    }

    fn returned(&mut self, query: Query) -> Vec<Task> {
        let statement = query.statement();
        let params = statement.params;
        self.clock += 1;
        if statement.sql == INSERT_TASK {
            assert_eq!(params.len(), 2);
            let task = Task {
                id: self.clock as u128 * 0x1_0000_0001,
                title: text_param(&params[0]),
                description: optional_text_param(&params[1]),
                completed: false,
                created_at: self.clock,
                updated_at: self.clock,
            };
            self.rows.push(task.clone());
            vec![task]
        } else if statement.sql == SELECT_TASK {
            assert_eq!(params.len(), 1);
            let id = id_param(&params[0]);
            self.rows.iter().filter(|task| task.id == id).cloned().collect()
        } else if statement.sql == SELECT_ALL_TASKS {
            assert!(params.is_empty());
            let mut rows = self.rows.clone();
            rows.sort_by_key(|task| -task.created_at);
            rows
        } else if statement.sql == UPDATE_TASK {
            assert_eq!(params.len(), 4);
            let id = id_param(&params[3]);
            let clock = self.clock;
            let mut changed = Vec::new();
            for task in self.rows.iter_mut().filter(|task| task.id == id) {
                if let Some(title) = optional_text_param(&params[0]) {
                    task.title = title;
                }
                if let Some(description) = optional_text_param(&params[1]) {
                    task.description = Some(description);
                }
                if let Some(completed) = optional_flag_param(&params[2]) {
                    task.completed = completed;
                }
                task.updated_at = clock;
                changed.push(task.clone());
            }
            changed
        } else {
            panic!("unexpected statement: {}", statement.sql)
        }
    }

    fn removed(&mut self, query: Query) -> u64 {
        let statement = query.statement();
        assert_eq!(statement.sql, DELETE_TASK);
        let id = id_param(&statement.params[0]);
        let before = self.rows.len();
        self.rows.retain(|task| task.id != id);
        (before - self.rows.len()) as u64
    }

    fn post(&mut self, payload: CreateTaskPayload) -> (StatusCode, Task) {
        let created = self.returned(create_task_query(payload)).remove(0);
        create_task_handler(Ok(created)).unwrap()
    }

    fn get(&mut self, id: u128) -> Result<Task, ApiError> {
        let found = self.returned(get_task_by_id_query(id)).pop();
        get_task_by_id(id, Ok(found))
    }

    fn get_all(&mut self) -> Vec<Task> {
        let found = self.returned(get_all_tasks_query());
        get_all_tasks(Ok(found)).unwrap()
    }

    fn put(&mut self, id: u128, payload: UpdateTaskPayload) -> Result<Task, ApiError> {
        let updated = self.returned(update_task_query(id, payload)).pop();
        update_task(id, Ok(updated))
    }

    fn delete(&mut self, id: u128) -> Result<StatusCode, ApiError> {
        let removed = self.removed(delete_task_query(id));
        delete_task(id, Ok(removed))
    }
}

fn new_task(title: &str) -> CreateTaskPayload {
    CreateTaskPayload { title: title.to_string(), description: None }
}

#[test]
fn create_task_test() {
    let mut table = Table::new();
    let payload = CreateTaskPayload {
        title: "Test Task".to_string(),
        description: Some("A task for testing".to_string()),
    };

    let (status, created_task) = table.post(payload);
    assert_eq!(status, StatusCode::Created);
    assert_eq!(status.as_u16(), 201);
    assert_eq!(created_task.title, "Test Task");
    assert_eq!(created_task.description, Some("A task for testing".to_string()));
    assert!(created_task.id != 0);
}

#[test]
fn get_all_tasks_test() {
    let mut table = Table::new();
    let (status, _) = table.post(new_task("Task 1"));
    assert_eq!(status, StatusCode::Created);

    let tasks = table.get_all();
    assert_eq!(tasks.len(), 1);
    assert_eq!(tasks[0].title, "Task 1");
}

#[test]
fn get_task_by_id_success_test() {
    let mut table = Table::new();
    let (status, created_task) = table.post(new_task("Specific Task"));
    assert_eq!(status, StatusCode::Created);

    let retrieved_task = table.get(created_task.id).unwrap();
    assert_eq!(retrieved_task.id, created_task.id);
    assert_eq!(retrieved_task, created_task);
}

#[test]
fn get_task_by_id_not_found_test() {
    let mut table = Table::new();
    let nonexistent_id: u128 = 0xf81d4fae_7dec_41d0_a765_00a0c91e6bf6;

    let error = table.get(nonexistent_id).unwrap_err();
    let (status, error_body) = error.into_response();
    assert_eq!(status, StatusCode::NotFound);
    assert_eq!(error_body["error_code"], 404);
}

#[test]
fn update_task_success_test() {
    let mut table = Table::new();
    let (_, created_task) = table.post(new_task("Original Task"));

    let update_payload = UpdateTaskPayload {
        title: Some("Updated Task Title".to_string()),
        description: Some("New description".to_string()),
        completed: Some(true),
    };
    let updated_task = table.put(created_task.id, update_payload).unwrap();
    assert_eq!(updated_task.id, created_task.id);
    assert_eq!(updated_task.title, "Updated Task Title");
    assert_eq!(updated_task.description, Some("New description".to_string()));
    assert!(updated_task.completed);
    assert_eq!(table.get(created_task.id).unwrap(), updated_task);
}

#[test]
fn delete_task_success_test() {
    let mut table = Table::new();
    let (_, created_task) = table.post(new_task("Task to delete"));

    let status = table.delete(created_task.id).unwrap();
    assert_eq!(status, StatusCode::NoContent);

    let (status, _) = table.get(created_task.id).unwrap_err().into_response();
    assert_eq!(status, StatusCode::NotFound);
    let (status, _) = table.delete(created_task.id).unwrap_err().into_response();
    assert_eq!(status, StatusCode::NotFound);
}

#[test]
fn tasks_are_listed_youngest_first() {
    let mut table = Table::new();
    table.post(new_task("older"));
    table.post(new_task("younger"));
    let titles: Vec<String> = table.get_all().into_iter().map(|task| task.title).collect();
    assert_eq!(titles, vec!["younger".to_string(), "older".to_string()]);
}

#[test]
fn update_keeps_what_is_not_given() {
    let mut table = Table::new();
    let (_, other) = table.post(new_task("other"));
    let (_, task) = table.post(CreateTaskPayload {
        title: "kept".to_string(),
        description: Some("kept too".to_string()),
    });
    let payload = UpdateTaskPayload { title: None, description: None, completed: Some(true) };
    let updated = table.put(task.id, payload).unwrap();
    assert_eq!(updated.title, "kept");
    assert_eq!(updated.description, Some("kept too".to_string()));
    assert!(updated.completed);
    assert_eq!(updated.created_at, task.created_at);
    assert_eq!(table.get(other.id).unwrap(), other);
}

#[test]
fn update_without_fields_sets_the_time() {
    let mut table = Table::new();
    let (_, task) = table.post(new_task("kept"));
    let payload = UpdateTaskPayload { title: None, description: None, completed: None };
    let updated = table.put(task.id, payload).unwrap();
    assert_eq!(updated.updated_at, table.clock);
    assert!(updated.updated_at > task.updated_at);
    assert_eq!(updated, Task { updated_at: table.clock, ..task });
}

#[test]
fn two_updates_come_to_one() {
    let mut table = Table::new();
    let (_, task) = table.post(new_task("first"));
    let first = UpdateTaskPayload {
        title: Some("second".to_string()),
        description: Some("given once".to_string()),
        completed: None,
    };
    let second = UpdateTaskPayload {
        title: Some("third".to_string()),
        description: None,
        completed: Some(true),
    };
    table.put(task.id, first).unwrap();
    let updated = table.put(task.id, second).unwrap();
    assert_eq!(updated.title, "third");
    assert_eq!(updated.description, Some("given once".to_string()));
    assert!(updated.completed);
    assert_eq!(updated.updated_at, table.clock);
}

#[test]
fn creation_and_deletion_show_in_the_list() {
    let mut table = Table::new();
    table.post(new_task("stays"));
    let before = table.get_all();
    let (_, created) = table.post(new_task("passing"));
    let listed = table.get_all();
    assert_eq!(listed.len(), before.len() + 1);
    assert!(listed.contains(&created) && listed.contains(&before[0]));
    table.delete(created.id).unwrap();
    assert_eq!(table.get_all(), before);
}

#[test]
fn update_of_a_missing_task_is_not_found() {
    let mut table = Table::new();
    let payload = UpdateTaskPayload { title: None, description: None, completed: None };
    assert!(matches!(table.put(7, payload), Err(ApiError::TaskNotFound(7))));
}

#[test]
fn queries_hold_what_was_sent() {
    assert_eq!(get_task_by_id_query(7), Query::SelectTask { id: 7 });
    assert_eq!(delete_task_query(8), Query::DeleteTask { id: 8 });
    assert_eq!(get_all_tasks_query(), Query::SelectAllTasks);
    let update = update_task_query(
        9,
        UpdateTaskPayload {
            title: Some("t".to_string()),
            description: Some("d".to_string()),
            completed: Some(false),
        },
    );
    let statement = update.statement();
    assert_eq!(statement.sql, UPDATE_TASK);
    assert_eq!(
        statement.params,
        vec![
            Param::OptionalText(Some("t".to_string())),
            Param::OptionalText(Some("d".to_string())),
            Param::OptionalFlag(Some(false)),
            Param::Id(9),
        ]
    );
}

#[test]
fn every_placeholder_has_a_value() {
    let queries = vec![
        Query::InsertUser {
            email: String::new(),
            password_hash: String::new(),
            password_salt: String::new(),
        },
        Query::SelectUser { email: String::new() },
        Query::SelectTask { id: 0 },
        Query::InsertTask { title: String::new(), description: None },
        Query::SelectAllTasks,
        Query::UpdateTask { id: 0, title: None, description: None, completed: None },
        Query::DeleteTask { id: 0 },
    ];
    for query in queries {
        let statement = query.statement();
        for place in 1..=9usize {
            let named = statement.sql.contains(&format!("${place}"));
            assert_eq!(named, place <= statement.params.len(), "{}", statement.sql);
        }
    }
}

#[test]
fn rows_stand_under_their_identifiers() {
    let mut table = Table::new();
    let ids: Vec<u128> = ["a", "b", "c"].iter().map(|title| table.post(new_task(title)).1.id).collect();
    let payload = UpdateTaskPayload { title: Some("d".to_string()), description: None, completed: None };
    table.put(ids[1], payload).unwrap();
    table.delete(ids[2]).unwrap();
    assert_eq!(table.get(ids[0]).unwrap().id, ids[0]);
    assert_eq!(table.get(ids[1]).unwrap().id, ids[1]);
    assert!(matches!(table.get(ids[2]), Err(ApiError::TaskNotFound(id)) if id == ids[2]));
}

#[test]
fn statements_touch_one_table_each() {
    for sql in [SELECT_TASK, INSERT_TASK, SELECT_ALL_TASKS, UPDATE_TASK, DELETE_TASK] {
        assert!(sql.contains("tasks") && !sql.contains("users"));
    }
    for sql in [INSERT_USER, SELECT_USER] {
        assert!(sql.contains("users") && !sql.contains("tasks"));
    }
}

#[test]
fn database_failures_become_failures_of_the_request() {
    let lost = || DbFailure::Io("broken pipe".to_string());
    assert!(matches!(get_task_by_id(1, Err(lost())), Err(ApiError::InternalServerError(_))));
    assert!(matches!(update_task(1, Err(lost())), Err(ApiError::InternalServerError(_))));
    assert!(matches!(delete_task(1, Err(lost())), Err(ApiError::InternalServerError(_))));
    assert!(matches!(create_task_handler(Err(lost())), Err(ApiError::InternalServerError(_))));
    assert!(matches!(get_all_tasks(Err(lost())), Err(ApiError::InternalServerError(_))));
    assert!(matches!(
        create_task_handler(Err(DbFailure::RowNotFound)),
        Err(ApiError::InvalidCredentials)
    ));
}

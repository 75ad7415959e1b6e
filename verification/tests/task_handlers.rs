use todo_api::exchange::{Reply, Statement, Step};
use todo_api::response::{DbError, Payload, Response};
use todo_api::structs::{
    Context, FullContextDb, IndexQuery, Task, TaskDb, TaskGetRequest, TaskPutRequest, TaskRequest,
};
use todo_api::tasks::{self, TaskExchange};

fn task(id: i32) -> Task {
    Task::new(id, format!("task {}", id), false, "c".to_string(), "m".to_string())
}

fn answer(step: Step) -> Response {
    match step {
        Step::Respond(r) => r,
        Step::Run(s) => panic!("expected an answer, got {:?}", s),
    }
}

fn statement(step: Step) -> Statement {
    match step {
        Step::Run(s) => s,
        Step::Respond(r) => panic!("expected a statement, got {:?}", r),
    }
}

fn text_of(r: &Response) -> &str {
    match &r.payload {
        Payload::Text(t) => t.as_str(),
        other => panic!("expected a text, got {:?}", other),
    }
}

fn task_ids(r: &Response) -> Vec<i32> {
    match &r.payload {
        Payload::Tasks(ts) => ts.iter().map(|t| t.id()).collect(),
        other => panic!("expected tasks, got {:?}", other),
    }
}

fn by_id() -> IndexQuery {
    IndexQuery { index: None }
}

fn by_position() -> IndexQuery {
    IndexQuery { index: Some(true) }
}

fn new_task(content: &str, context_id: Option<i32>) -> TaskRequest {
    TaskRequest { content: content.to_string(), context_id, creation_date: None, modification_date: None }
}

#[test]
fn fetch_tasks_of_a_context() {
    let (state, step) = tasks::fetch(TaskGetRequest { active: Some(true), context_id: Some(2) });
    assert!(matches!(statement(step), Statement::SelectTasksOfContext { context_id: 2 }));
    let (_, step) = state.resume(Reply::Tasks(Ok(vec![task(1), task(4)])));
    let r = answer(step);
    assert_eq!(r.status, 200);
    assert_eq!(task_ids(&r), vec![1, 4]);
}

#[test]
fn fetch_tasks_of_a_context_failure() {
    let (state, _) = tasks::fetch(TaskGetRequest { active: None, context_id: Some(2) });
    let (_, step) = state.resume(Reply::Tasks(Err(DbError::RowNotFound)));
    assert_eq!(answer(step).status, 404);
}

#[test]
fn fetch_all_contexts_with_tasks() {
    let (state, step) = tasks::fetch(TaskGetRequest { active: None, context_id: None });
    assert!(matches!(statement(step), Statement::ListContexts { active_only: false }));
    let rows = vec![FullContextDb {
        id: 1,
        name: "inbox".to_string(),
        active: 1,
        tasks: vec![TaskDb::new(3, "t".to_string(), 1, "c".to_string(), "m".to_string())],
    }];
    let (state, step) = state.resume(Reply::FullContexts(Ok(rows)));
    assert!(matches!(state, TaskExchange::Finished));
    let r = answer(step);
    assert_eq!(r.status, 200);
    match r.payload {
        Payload::FullContexts(fs) => {
            assert_eq!(fs.len(), 1);
            assert!(fs[0].active);
            assert_eq!(fs[0].tasks[0].id(), 3);
            assert!(fs[0].tasks[0].done());
        }
        other => panic!("unexpected {:?}", other),
    }
}

#[test]
fn fetch_active_contexts_only() {
    let (_, step) = tasks::fetch(TaskGetRequest { active: Some(true), context_id: None });
    assert!(matches!(statement(step), Statement::ListContexts { active_only: true }));
    let (_, step) = tasks::fetch(TaskGetRequest { active: Some(false), context_id: None });
    assert!(matches!(statement(step), Statement::ListContexts { active_only: false }));
}

#[test]
fn fetch_one_task() {
    let (state, step) = tasks::fetch_one(12);
    assert!(matches!(statement(step), Statement::SelectTask { id: 12 }));
    let (_, step) = state.resume(Reply::Task(Err(DbError::RowNotFound)));
    let r = answer(step);
    assert_eq!(r.status, 404);
    assert_eq!(text_of(&r), "Not found");
}

#[test]
fn create_needs_content() {
    let (_, step) = tasks::create(new_task("", Some(1)));
    let r = answer(step);
    assert_eq!(r.status, 400);
    assert_eq!(text_of(&r), "Name is required");
}

#[test]
fn create_in_named_context() {
    let (state, step) = tasks::create(new_task("write", Some(3)));
    assert!(matches!(statement(step), Statement::InsertTask { ref content, context_id: 3 } if content == "write"));
    let (_, step) = state.resume(Reply::Task(Ok(task(40))));
    let r = answer(step);
    assert_eq!(r.status, 200);
    assert!(matches!(r.payload, Payload::Task(ref t) if t.id() == 40));
}

#[test]
fn create_in_active_context() {
    let (state, step) = tasks::create(new_task("write", None));
    assert!(matches!(statement(step), Statement::SelectActiveContext));
    let active = Context { id: 7, name: "now".to_string(), active: true };
    let (_, step) = state.resume(Reply::MaybeContext(Ok(Some(active))));
    assert!(matches!(statement(step), Statement::InsertTask { context_id: 7, .. }));
}

#[test]
fn create_without_active_context_is_refused() {
    let (state, _) = tasks::create(new_task("write", None));
    let (_, step) = state.resume(Reply::MaybeContext(Ok(None)));
    let r = answer(step);
    assert_eq!(r.status, 400);
    assert_eq!(text_of(&r), "A context must exist before to create a task");

    let (state, _) = tasks::create(new_task("write", None));
    let (_, step) = state.resume(Reply::MaybeContext(Err(DbError::Other)));
    assert_eq!(answer(step).status, 500);
}

#[test]
fn batch_insertion_text() {
    let reqs = vec![
        TaskRequest {
            content: "a".to_string(),
            context_id: Some(1),
            creation_date: Some("2024-05-01".to_string()),
            modification_date: None,
        },
        new_task("b", Some(-2)),
    ];
    let (state, step) = tasks::create_batch_at(reqs, "NOW");
    match statement(step) {
        Statement::InsertTasks { sql } => assert_eq!(
            sql,
            "INSERT INTO task (content, context_id, creation_date, modification_date) VALUES \
             ('a', 1, '2024-05-01', 'NOW'), ('b', -2, 'NOW', 'NOW')"
        ),
        other => panic!("unexpected {:?}", other),
    }
    let (_, step) = state.resume(Reply::Done(Ok(())));
    let r = answer(step);
    assert_eq!(r.status, 200);
    assert_eq!(text_of(&r), "Tasks created");
}

#[test]
fn batch_insertion_uses_the_clock() {
    let reqs = vec![TaskRequest {
        content: "a".to_string(),
        context_id: Some(1),
        creation_date: Some("c".to_string()),
        modification_date: Some("m".to_string()),
    }];
    let (_, step) = tasks::create_batch(reqs);
    match statement(step) {
        Statement::InsertTasks { sql } => assert_eq!(
            sql,
            "INSERT INTO task (content, context_id, creation_date, modification_date) VALUES ('a', 1, 'c', 'm')"
        ),
        other => panic!("unexpected {:?}", other),
    }
    let (_, step) = tasks::create_batch(vec![new_task("x", Some(2))]);
    match statement(step) {
        Statement::InsertTasks { sql } => {
            assert!(sql.starts_with("INSERT INTO task (content, context_id, creation_date, modification_date) VALUES ('x', 2, '"));
            assert!(!sql.contains("''"));
        }
        other => panic!("unexpected {:?}", other),
    }
}

#[test]
fn empty_batch_still_runs() {
    let (state, step) = tasks::create_batch_at(vec![], "NOW");
    assert!(matches!(statement(step), Statement::InsertTasks { ref sql } if sql.ends_with("VALUES ")));
    let (_, step) = state.resume(Reply::Done(Err(DbError::Other)));
    assert_eq!(answer(step).status, 500);
}

#[test]
fn toggle_goes_through_each_id() {
    let (state, step) = tasks::toggle_done("3,5", by_id());
    assert!(matches!(statement(step), Statement::ToggleTask { id: 3 }));
    let (state, step) = state.resume(Reply::Task(Ok(task(3))));
    assert!(matches!(statement(step), Statement::ToggleTask { id: 5 }));
    let (state, step) = state.resume(Reply::Task(Ok(task(5))));
    assert!(matches!(state, TaskExchange::Finished));
    let r = answer(step);
    assert_eq!(r.status, 200);
    assert_eq!(task_ids(&r), vec![3, 5]);
}

#[test]
fn toggle_stops_at_first_failure() {
    let (state, _) = tasks::toggle_done("3,5,8", by_id());
    let (state, _) = state.resume(Reply::Task(Ok(task(3))));
    let (_, step) = state.resume(Reply::Task(Err(DbError::RowNotFound)));
    let r = answer(step);
    assert_eq!(r.status, 404);
    assert_eq!(text_of(&r), "Not found");
}

#[test]
fn toggle_without_ids_is_not_found() {
    let (_, step) = tasks::toggle_done("x,", by_id());
    let r = answer(step);
    assert_eq!(r.status, 404);
    assert_eq!(text_of(&r), "Task not found");
}

#[test]
fn toggle_by_position_reads_active_tasks() {
    let (state, step) = tasks::toggle_done("2,9", by_position());
    assert!(matches!(statement(step), Statement::SelectActiveTasks));
    let (state, step) = state.resume(Reply::Tasks(Ok(vec![task(10), task(20), task(30)])));
    assert!(matches!(statement(step), Statement::ToggleTask { id: 20 }));
    let (_, step) = state.resume(Reply::Task(Ok(task(20))));
    assert_eq!(task_ids(&answer(step)), vec![20]);
}

#[test]
fn toggle_by_position_without_listing_is_not_found() {
    let (state, _) = tasks::toggle_done("1", by_position());
    let (_, step) = state.resume(Reply::Tasks(Err(DbError::Other)));
    let r = answer(step);
    assert_eq!(r.status, 404);
    assert_eq!(text_of(&r), "Task not found");
}

#[test]
fn update_needs_a_change() {
    let (_, step) = tasks::update(TaskPutRequest { content: None, done: None }, by_id(), "1");
    let r = answer(step);
    assert_eq!(r.status, 400);
    assert_eq!(text_of(&r), "Content or done is required");
}

#[test]
fn update_takes_one_id() {
    let put = TaskPutRequest { content: None, done: Some(true) };
    let (_, step) = tasks::update(put, by_id(), "1,2");
    let r = answer(step);
    assert_eq!(r.status, 400);
    assert_eq!(text_of(&r), "Only one ID allowed for update");

    let put = TaskPutRequest { content: None, done: Some(true) };
    let (_, step) = tasks::update(put, by_id(), "");
    assert_eq!(text_of(&answer(step)), "Task not found");
}

#[test]
fn update_text_of_content() {
    let put = TaskPutRequest { content: Some("new".to_string()), done: None };
    let (state, step) = tasks::update(put, by_id(), "4");
    match statement(step) {
        Statement::UpdateTask { sql, id } => {
            assert_eq!(id, 4);
            assert_eq!(
                sql,
                "\n        UPDATE task\n        SET \n        content = 'new'\n        \n        WHERE id = $1\n        RETURNING *;\n        "
            );
        }
        other => panic!("unexpected {:?}", other),
    }
    let (_, step) = state.resume(Reply::Task(Ok(task(4))));
    assert_eq!(answer(step).status, 200);
}

#[test]
fn update_text_of_flag() {
    let put = TaskPutRequest { content: None, done: Some(false) };
    let (_, step) = tasks::update(put, by_id(), "4");
    match statement(step) {
        Statement::UpdateTask { sql, .. } => assert_eq!(
            sql,
            "\n        UPDATE task\n        SET \n        \n        done = false\n        WHERE id = $1\n        RETURNING *;\n        "
        ),
        other => panic!("unexpected {:?}", other),
    }
}

#[test]
fn delete_goes_through_each_id() {
    let (state, step) = tasks::delete("8", by_id());
    assert!(matches!(statement(step), Statement::DeleteTask { id: 8 }));
    let (_, step) = state.resume(Reply::Task(Ok(task(8))));
    assert_eq!(task_ids(&answer(step)), vec![8]);
}

#[test]
fn delete_all_tasks() {
    let (state, step) = tasks::delete_all();
    assert!(matches!(statement(step), Statement::DeleteAllTasks));
    let (_, step) = state.resume(Reply::Done(Ok(())));
    assert_eq!(text_of(&answer(step)), "All tasks deleted");

    let (state, _) = tasks::delete_all();
    let (_, step) = state.resume(Reply::Done(Err(DbError::RowNotFound)));
    let r = answer(step);
    assert_eq!(r.status, 200);
    assert_eq!(text_of(&r), "All contexts deleted");

    let (state, _) = tasks::delete_all();
    let (_, step) = state.resume(Reply::Done(Err(DbError::Other)));
    assert_eq!(answer(step).status, 500);
}

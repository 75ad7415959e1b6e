use todo_api::structs::{
    Context, ContextDb, FullContext, FullContextDb, Task, TaskDb,
};

fn stored_task(id: i32, content: &str, done: i32) -> TaskDb {
    TaskDb::new(
        id,
        content.to_string(),
        done,
        "2024-01-01".to_string(),
        "2024-01-02".to_string(),
    )
}

#[test]
fn context_from_stored_reads_flag() {
    let active = Context::from(ContextDb { id: 3, name: "work".to_string(), active: 1 });
    assert_eq!(active.id, 3);
    assert_eq!(active.name, "work");
    assert!(active.active);

    let inactive = Context::from(ContextDb { id: 4, name: "home".to_string(), active: 0 });
    assert!(!inactive.active);

    let odd = Context::from(ContextDb { id: 5, name: "x".to_string(), active: -7 });
    assert!(odd.active);
}

#[test]
fn task_from_stored_keeps_fields() {
    let task = Task::from(stored_task(9, "buy milk", 0));
    assert_eq!(task.id(), 9);
    assert_eq!(task.content(), "buy milk");
    assert!(!task.done());
    assert_eq!(task.creation_date(), "2024-01-01");
    assert_eq!(task.modification_date(), "2024-01-02");

    let done = Task::from(stored_task(10, "call", 2));
    assert!(done.done());
}

#[test]
fn full_context_from_stored_converts_each_task() {
    let raw = FullContextDb {
        id: 1,
        name: "inbox".to_string(),
        active: 0,
        tasks: vec![stored_task(1, "a", 1), stored_task(2, "b", 0), stored_task(7, "c", 5)],
    };
    let full = FullContext::from(raw);
    assert_eq!(full.id, 1);
    assert_eq!(full.name, "inbox");
    assert!(!full.active);
    let ids: Vec<i32> = full.tasks.iter().map(|t| t.id()).collect();
    assert_eq!(ids, vec![1, 2, 7]);
    let flags: Vec<bool> = full.tasks.iter().map(|t| t.done()).collect();
    assert_eq!(flags, vec![true, false, true]);
    assert_eq!(full.tasks[1].content(), "b");
}

#[test]
fn full_context_without_tasks() {
    let full = FullContext::from(FullContextDb {
        id: 2,
        name: "empty".to_string(),
        active: 1,
        tasks: vec![],
    });
    assert!(full.active);
    assert!(full.tasks.is_empty());
}

#[test]
fn task_builders_and_getters() {
    let t = Task::new(4, "x".to_string(), true, "c".to_string(), "m".to_string());
    assert_eq!(t.id, 4);
    assert!(t.done());
    let s = TaskDb::new(4, "x".to_string(), 0, "c".to_string(), "m".to_string());
    assert_eq!(s.done(), 0);
    assert_eq!(s.content(), "x");
    assert_eq!(s.creation_date(), "c");
    assert_eq!(s.modification_date(), "m");
    assert_eq!(s.id(), 4);
}

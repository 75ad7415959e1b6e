use todo_api::contexts::{self, ContextExchange};
use todo_api::exchange::{Reply, Statement, Step};
use todo_api::response::{DbError, Payload, Response};
use todo_api::structs::{Context, ContextRequest};

fn ctx(id: i32, name: &str, active: bool) -> Context {
    Context { id, name: name.to_string(), active }
}

fn answer(step: Step) -> Response {
    match step {
        Step::Respond(r) => r,
        Step::Run(s) => panic!("expected an answer, got {:?}", s),
    }
}

fn statement(step: Step) -> Statement {
    match step {
        Step::Run(s) => s,
        Step::Respond(r) => panic!("expected a statement, got {:?}", r),
    }
}

fn text_of(r: &Response) -> &str {
    match &r.payload {
        Payload::Text(t) => t.as_str(),
        other => panic!("expected a text, got {:?}", other),
    }
}

fn context_of(r: &Response) -> &Context {
    match &r.payload {
        Payload::Context(c) => c,
        other => panic!("expected a context, got {:?}", other),
    }
}

fn request(name: &str, simple: Option<bool>) -> ContextRequest {
    ContextRequest { name: name.to_string(), active: None, simple_create: simple }
}

#[test]
fn fetch_all_lists_contexts() {
    let (state, step) = contexts::fetch_all();
    assert!(matches!(statement(step), Statement::SelectContexts));
    let (state, step) = state.resume(Reply::Contexts(Ok(vec![ctx(1, "a", true), ctx(2, "b", false)])));
    assert!(matches!(state, ContextExchange::Finished));
    let r = answer(step);
    assert_eq!(r.status, 200);
    assert!(matches!(r.payload, Payload::Contexts(ref cs) if cs.len() == 2 && cs[1].name == "b"));
}

#[test]
fn fetch_all_failure_is_server_error() {
    let (state, _) = contexts::fetch_all();
    let (_, step) = state.resume(Reply::Contexts(Err(DbError::RowNotFound)));
    let r = answer(step);
    assert_eq!(r.status, 500);
    assert_eq!(text_of(&r), "Internal Server Error");
}

#[test]
fn use_or_create_needs_a_name() {
    let (state, step) = contexts::use_or_create(request("", None));
    assert!(matches!(state, ContextExchange::Finished));
    let r = answer(step);
    assert_eq!(r.status, 400);
    assert_eq!(text_of(&r), "Name is required");
}

#[test]
fn simple_create_inserts() {
    let (state, step) = contexts::use_or_create(request("work", Some(true)));
    assert!(matches!(statement(step), Statement::InsertContext { ref name } if name == "work"));
    let (_, step) = state.resume(Reply::Context(Ok(ctx(8, "work", false))));
    let r = answer(step);
    assert_eq!(r.status, 200);
    assert_eq!(context_of(&r).id, 8);
}

#[test]
fn simple_create_failure_is_server_error() {
    let (state, _) = contexts::use_or_create(request("work", Some(true)));
    let (_, step) = state.resume(Reply::Context(Err(DbError::Other)));
    assert_eq!(answer(step).status, 500);
}

#[test]
fn use_existing_context_activates_it_and_deactivates_others() {
    let (state, step) = contexts::use_or_create(request("home", Some(false)));
    assert!(matches!(statement(step), Statement::ActivateContextNamed { ref name } if name == "home"));
    let (state, step) = state.resume(Reply::MaybeContext(Ok(Some(ctx(2, "home", true)))));
    assert!(matches!(statement(step), Statement::DeactivateOtherNames { ref name } if name == "home"));
    // the result of deactivating the others is not looked at
    let (state, step) = state.resume(Reply::Done(Err(DbError::Other)));
    assert!(matches!(state, ContextExchange::Finished));
    let r = answer(step);
    assert_eq!(r.status, 200);
    assert_eq!(context_of(&r).id, 2);
}

#[test]
fn use_missing_context_creates_it_active() {
    let (state, _) = contexts::use_or_create(request("new", None));
    let (state, _) = state.resume(Reply::MaybeContext(Ok(None)));
    let (state, step) = state.resume(Reply::Done(Ok(())));
    assert!(matches!(statement(step), Statement::InsertActiveContext { ref name } if name == "new"));
    let (_, step) = state.resume(Reply::Context(Ok(ctx(5, "new", true))));
    let r = answer(step);
    assert_eq!(r.status, 200);
    assert!(context_of(&r).active);
}

#[test]
fn use_or_create_activation_failure_is_server_error() {
    let (state, _) = contexts::use_or_create(request("new", None));
    let (_, step) = state.resume(Reply::MaybeContext(Err(DbError::Other)));
    assert_eq!(answer(step).status, 500);
}

#[test]
fn clear_deletes_tasks() {
    let (state, step) = contexts::clear(4);
    assert!(matches!(statement(step), Statement::DeleteTasksOfContext { context_id: 4 }));
    let (_, step) = state.resume(Reply::Done(Ok(())));
    let r = answer(step);
    assert_eq!(r.status, 200);
    assert_eq!(text_of(&r), "Context cleared");
}

#[test]
fn clear_failure_is_server_error() {
    let (state, _) = contexts::clear(4);
    let (_, step) = state.resume(Reply::Done(Err(DbError::Other)));
    assert_eq!(answer(step).status, 500);
}

#[test]
fn update_of_missing_context_is_not_found() {
    let (state, step) = contexts::update(ctx(0, "x", true), 9);
    assert!(matches!(statement(step), Statement::SelectContext { id: 9 }));
    let (_, step) = state.resume(Reply::Context(Err(DbError::Other)));
    let r = answer(step);
    assert_eq!(r.status, 404);
    assert_eq!(text_of(&r), "Context not found");
}

#[test]
fn update_that_activates_deactivates_others_first() {
    let (state, _) = contexts::update(ctx(0, "renamed", true), 9);
    let (state, step) = state.resume(Reply::Context(Ok(ctx(9, "old", false))));
    assert!(matches!(statement(step), Statement::DeactivateOthers { id: 9 }));
    let (state, step) = state.resume(Reply::Done(Ok(())));
    assert!(matches!(
        statement(step),
        Statement::UpdateContext { id: 9, ref name, active: true } if name == "renamed"
    ));
    let (_, step) = state.resume(Reply::Context(Ok(ctx(9, "renamed", true))));
    let r = answer(step);
    assert_eq!(r.status, 200);
    assert_eq!(context_of(&r).name, "renamed");
}

#[test]
fn update_without_activation_updates_directly() {
    let (state, _) = contexts::update(ctx(0, "n", false), 3);
    let (state, step) = state.resume(Reply::Context(Ok(ctx(3, "o", true))));
    assert!(matches!(statement(step), Statement::UpdateContext { id: 3, active: false, .. }));
    let (_, step) = state.resume(Reply::Context(Err(DbError::RowNotFound)));
    let r = answer(step);
    assert_eq!(r.status, 404);
    assert_eq!(text_of(&r), "Not found");
}

#[test]
fn update_cleanup_failure_is_server_error() {
    let (state, _) = contexts::update(ctx(0, "n", true), 3);
    let (state, _) = state.resume(Reply::Context(Ok(ctx(3, "o", false))));
    let (_, step) = state.resume(Reply::Done(Err(DbError::Other)));
    assert_eq!(answer(step).status, 500);
}

#[test]
fn delete_of_active_context_keeps_others_inactive() {
    let (state, step) = contexts::delete(6);
    assert!(matches!(statement(step), Statement::DeleteTasksOfContext { context_id: 6 }));
    let (state, step) = state.resume(Reply::Done(Ok(())));
    assert!(matches!(statement(step), Statement::DeleteContext { id: 6 }));
    let (state, step) = state.resume(Reply::Context(Ok(ctx(6, "gone", true))));
    assert!(matches!(statement(step), Statement::DeactivateOthers { id: 6 }));
    let (_, step) = state.resume(Reply::Done(Ok(())));
    let r = answer(step);
    assert_eq!(r.status, 200);
    assert_eq!(context_of(&r).name, "gone");
}

#[test]
fn delete_of_inactive_context_answers_at_once() {
    let (state, _) = contexts::delete(6);
    let (state, _) = state.resume(Reply::Done(Ok(())));
    let (_, step) = state.resume(Reply::Context(Ok(ctx(6, "gone", false))));
    assert_eq!(answer(step).status, 200);
}

#[test]
fn delete_of_missing_context_is_not_found() {
    let (state, _) = contexts::delete(6);
    let (state, _) = state.resume(Reply::Done(Ok(())));
    let (_, step) = state.resume(Reply::Context(Err(DbError::RowNotFound)));
    let r = answer(step);
    assert_eq!(r.status, 404);
    assert_eq!(text_of(&r), "Context not found");
}

#[test]
fn delete_failures_are_server_errors() {
    let (state, _) = contexts::delete(6);
    let (_, step) = state.resume(Reply::Done(Err(DbError::Other)));
    assert_eq!(answer(step).status, 500);

    let (state, _) = contexts::delete(6);
    let (state, _) = state.resume(Reply::Done(Ok(())));
    let (_, step) = state.resume(Reply::Context(Err(DbError::Other)));
    assert_eq!(answer(step).status, 500);
}

#[test]
fn delete_all_contexts() {
    let (state, step) = contexts::delete_all();
    assert!(matches!(statement(step), Statement::DeleteAllContexts));
    let (_, step) = state.resume(Reply::Done(Ok(())));
    let r = answer(step);
    assert_eq!(r.status, 200);
    assert_eq!(text_of(&r), "All contexts deleted");

    let (state, _) = contexts::delete_all();
    let (_, step) = state.resume(Reply::Done(Err(DbError::RowNotFound)));
    let r = answer(step);
    assert_eq!(r.status, 404);
    assert_eq!(text_of(&r), "Not found");
}

#[test]
fn unexpected_replies_are_server_errors() {
    let (state, _) = contexts::fetch_all();
    let (state, step) = state.resume(Reply::Done(Ok(())));
    assert_eq!(answer(step).status, 500);
    let (_, step) = state.resume(Reply::Done(Ok(())));
    assert_eq!(answer(step).status, 500);
}

//! The conversation between a handler and the database: the statements a
//! handler asks to run, the replies it gets back, and each step it takes.
use vstd::prelude::*;
use crate::response::{DbError, Response, ResponseView};
use crate::structs::{Context, FullContextDb, Task};

verus! {

/// A database statement that a handler asks to run.  The comment on each
/// variant says what it does and what it answers with.
#[derive(Debug)]
pub enum Statement {
    /// All contexts by ascending id; answers `Contexts`.
    SelectContexts,
    /// Inserts a context with this name and the default flag; answers `Context`.
    InsertContext { name: String },
    /// Marks the contexts with this name active; answers `MaybeContext`
    /// (the first of them, if any).
    ActivateContextNamed { name: String },
    /// Marks every active context with another name inactive; answers `Done`.
    DeactivateOtherNames { name: String },
    /// Inserts an active context with this name; answers `Context`.
    InsertActiveContext { name: String },
    /// Deletes the tasks of a context; answers `Done`.
    DeleteTasksOfContext { context_id: i32 },
    /// The context with this id; answers `Context`.
    SelectContext { id: i32 },
    /// Marks every active context but this one inactive; answers `Done`.
    DeactivateOthers { id: i32 },
    /// The inactive context with the least id other than this one; answers
    /// `Context`.
    SelectFirstInactiveOther { id: i32 },
    /// Marks the context with this id active; answers `Done`.
    ActivateContext { id: i32 },
    /// Sets name and flag of the context with this id; answers `Context`.
    UpdateContext { id: i32, name: String, active: bool },
    /// Deletes the context with this id; answers `Context` (the deleted row).
    DeleteContext { id: i32 },
    /// Deletes every context, expecting one row back; answers `Done`.
    DeleteAllContexts,
    /// The tasks of a context by ascending id; answers `Tasks`.
    SelectTasksOfContext { context_id: i32 },
    /// Every context (or the active ones only) with its tasks, by ascending
    /// id; answers `FullContexts`.
    ListContexts { active_only: bool },
    /// The task with this id; answers `Task`.
    SelectTask { id: i32 },
    /// An active context; answers `MaybeContext`.
    SelectActiveContext,
    /// Inserts a task in a context, created and modified at the time the
    /// statement runs; answers `Task`.
    InsertTask { content: String, context_id: i32 },
    /// Runs this insertion of several tasks; answers `Done`.
    InsertTasks { sql: String },
    /// The tasks of the active context by ascending id; answers `Tasks`.
    SelectActiveTasks,
    /// Flips the done flag of the task with this id; answers `Task`.
    ToggleTask { id: i32 },
    /// Runs this update (its `$1` is the id) on the task with this id;
    /// answers `Task`.
    UpdateTask { sql: String, id: i32 },
    /// Deletes the task with this id; answers `Task` (the deleted row).
    DeleteTask { id: i32 },
    /// Deletes every task, expecting one row back; answers `Done`.
    DeleteAllTasks,
}

/// What the database answered to a statement.
#[derive(Debug)]
pub enum Reply {
    Done(Result<(), DbError>),
    Context(Result<Context, DbError>),
    MaybeContext(Result<Option<Context>, DbError>),
    Contexts(Result<Vec<Context>, DbError>),
    Task(Result<Task, DbError>),
    Tasks(Result<Vec<Task>, DbError>),
    FullContexts(Result<Vec<FullContextDb>, DbError>),
}

/// What a handler does next: run a statement, or answer the client.
#[derive(Debug)]
pub enum Step {
    Run(Statement),
    Respond(Response),
}

/// The abstract value of a statement: its texts as character sequences.
pub enum StatementView {
    SelectContexts,
    InsertContext { name: Seq<char> },
    ActivateContextNamed { name: Seq<char> },
    DeactivateOtherNames { name: Seq<char> },
    InsertActiveContext { name: Seq<char> },
    DeleteTasksOfContext { context_id: i32 },
    SelectContext { id: i32 },
    DeactivateOthers { id: i32 },
    SelectFirstInactiveOther { id: i32 },
    ActivateContext { id: i32 },
    UpdateContext { id: i32, name: Seq<char>, active: bool },
    DeleteContext { id: i32 },
    DeleteAllContexts,
    SelectTasksOfContext { context_id: i32 },
    ListContexts { active_only: bool },
    SelectTask { id: i32 },
    SelectActiveContext,
    InsertTask { content: Seq<char>, context_id: i32 },
    InsertTasks { sql: Seq<char> },
    SelectActiveTasks,
    ToggleTask { id: i32 },
    UpdateTask { sql: Seq<char>, id: i32 },
    DeleteTask { id: i32 },
    DeleteAllTasks,
}

impl View for Statement {
    type V = StatementView;

    open spec fn view(&self) -> StatementView {
        match self {
            Statement::SelectContexts => StatementView::SelectContexts,
            Statement::InsertContext { name } => StatementView::InsertContext { name: name@ },
            Statement::ActivateContextNamed { name } => StatementView::ActivateContextNamed {
                name: name@,
            },
            Statement::DeactivateOtherNames { name } => StatementView::DeactivateOtherNames {
                name: name@,
            },
            Statement::InsertActiveContext { name } => StatementView::InsertActiveContext {
                name: name@,
            },
            Statement::DeleteTasksOfContext { context_id } => StatementView::DeleteTasksOfContext {
                context_id: *context_id,
            },
            Statement::SelectContext { id } => StatementView::SelectContext { id: *id },
            Statement::DeactivateOthers { id } => StatementView::DeactivateOthers { id: *id },
            Statement::SelectFirstInactiveOther { id } => StatementView::SelectFirstInactiveOther {
                id: *id,
            },
            Statement::ActivateContext { id } => StatementView::ActivateContext { id: *id },
            Statement::UpdateContext { id, name, active } => StatementView::UpdateContext {
                id: *id,
                name: name@,
                active: *active,
            },
            Statement::DeleteContext { id } => StatementView::DeleteContext { id: *id },
            Statement::DeleteAllContexts => StatementView::DeleteAllContexts,
            Statement::SelectTasksOfContext { context_id } => StatementView::SelectTasksOfContext {
                context_id: *context_id,
            },
            Statement::ListContexts { active_only } => StatementView::ListContexts {
                active_only: *active_only,
            },
            Statement::SelectTask { id } => StatementView::SelectTask { id: *id },
            Statement::SelectActiveContext => StatementView::SelectActiveContext,
            Statement::InsertTask { content, context_id } => StatementView::InsertTask {
                content: content@,
                context_id: *context_id,
            },
            Statement::InsertTasks { sql } => StatementView::InsertTasks { sql: sql@ },
            Statement::SelectActiveTasks => StatementView::SelectActiveTasks,
            Statement::ToggleTask { id } => StatementView::ToggleTask { id: *id },
            Statement::UpdateTask { sql, id } => StatementView::UpdateTask { sql: sql@, id: *id },
            Statement::DeleteTask { id } => StatementView::DeleteTask { id: *id },
            Statement::DeleteAllTasks => StatementView::DeleteAllTasks,
        }
    }
}

/// The abstract value of a step.
pub enum StepView {
    Run(StatementView),
    Respond(ResponseView),
}

impl View for Step {
    type V = StepView;

    open spec fn view(&self) -> StepView {
        match self {
            Step::Run(s) => StepView::Run(s@),
            Step::Respond(r) => StepView::Respond(r@),
        }
    }
}

} // verus!

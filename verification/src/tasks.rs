//! The task handlers, as exchanges with the database: each handler starts
//! with a step, and every reply of the database leads to the next step, until
//! the handler answers.
use vstd::prelude::*;
use crate::clock::local_now_text;
use crate::exchange::{Reply, Statement, StatementView, Step, StepView};
use crate::indexes::{
    ids_at_positions, ids_from_positions, indexes_of, law_positions_pick_listed_tasks, parse_indexes,
};
use crate::response::{
    error_response, handle_err, internal_error, ok_json, server_error, text, text_response,
    DbError, Payload, PayloadView, Response, ResponseView,
};
use crate::structs::{
    served_full, FullContext, FullContextDb, IndexQuery, Task, TaskGetRequest, TaskPutRequest,
    TaskRequest,
};
use crate::task_sql::{
    all_have_context, batch_insert_sql, batch_insert_task_sql, update_sql, update_task_sql,
};

verus! {

/// What is done to each selected task, one statement per task.
#[derive(Debug, Clone, Copy, PartialEq, Eq, Structural)]
pub enum Action {
    /// Flip its done flag.
    Toggle,
    /// Delete it.
    Delete,
}

/// What a handler does with the tasks its path selects.
#[derive(Debug)]
pub enum Selection {
    /// Flip the done flag of each.
    Toggle,
    /// Change the single selected task.
    Update(TaskPutRequest),
    /// Delete each.
    Delete,
}

/// Where a task handler stands, waiting for the reply to its last statement.
#[derive(Debug)]
pub enum TaskExchange {
    /// The handler has answered.
    Finished,
    /// Waiting for the tasks of one context.
    ListingOfContext,
    /// Waiting for the contexts with their tasks.
    ListingAll,
    /// Waiting for one task row (read, inserted or updated).
    AwaitingTask,
    /// Waiting for the active context, to put a new task with `content` in it.
    FindingContext { content: String },
    /// Waiting for a batch insertion.
    Batch,
    /// Waiting for the tasks of the active context, to turn `positions` into
    /// task ids.
    Resolving { positions: Vec<i32>, then: Selection },
    /// Applying `action` to each of `ids`: the statement for `ids[next - 1]`
    /// is running, `done` holds the rows the earlier ones gave back.
    Applying { action: Action, ids: Vec<i32>, next: usize, done: Vec<Task> },
    /// Waiting for all tasks to be deleted.
    Wiping,
}

/// The abstract value of a task handler's state.
pub enum TaskExchangeView {
    Finished,
    ListingOfContext,
    ListingAll,
    AwaitingTask,
    FindingContext { content: Seq<char> },
    Batch,
    Resolving { positions: Seq<i32>, then: Selection },
    Applying { action: Action, ids: Seq<i32>, next: int, done: Seq<Task> },
    Wiping,
}

impl View for TaskExchange {
    type V = TaskExchangeView;

    open spec fn view(&self) -> TaskExchangeView {
        match self {
            TaskExchange::Finished => TaskExchangeView::Finished,
            TaskExchange::ListingOfContext => TaskExchangeView::ListingOfContext,
            TaskExchange::ListingAll => TaskExchangeView::ListingAll,
            TaskExchange::AwaitingTask => TaskExchangeView::AwaitingTask,
            TaskExchange::FindingContext { content } => TaskExchangeView::FindingContext {
                content: content@,
            },
            TaskExchange::Batch => TaskExchangeView::Batch,
            TaskExchange::Resolving { positions, then } => TaskExchangeView::Resolving {
                positions: positions@,
                then: *then,
            },
            TaskExchange::Applying { action, ids, next, done } => TaskExchangeView::Applying {
                action: *action,
                ids: ids@,
                next: *next as int,
                done: done@,
            },
            TaskExchange::Wiping => TaskExchangeView::Wiping,
        }
    }
}

/// A step that answers.
pub open spec fn answer(r: ResponseView) -> (TaskExchangeView, StepView) {
    (TaskExchangeView::Finished, StepView::Respond(r))
}

/// The 200 answer with a task.
pub open spec fn task_ok(t: Task) -> ResponseView {
    ResponseView { status: 200, payload: PayloadView::Task(t) }
}

/// The statement that applies `action` to task `id`.
pub open spec fn action_statement(action: Action, id: i32) -> StatementView {
    match action {
        Action::Toggle => StatementView::ToggleTask { id },
        Action::Delete => StatementView::DeleteTask { id },
    }
}

/// Starting `fetch`: the tasks of the given context, or else every context
/// (only the active ones when `active` is set) with its tasks.
pub open spec fn fetch_spec(query: TaskGetRequest) -> (TaskExchangeView, StepView) {
    match query.context_id {
        Some(c) => (
            TaskExchangeView::ListingOfContext,
            StepView::Run(StatementView::SelectTasksOfContext { context_id: c }),
        ),
        None => (
            TaskExchangeView::ListingAll,
            StepView::Run(
                StatementView::ListContexts { active_only: query.active == Some(true) },
            ),
        ),
    }
}

/// Starting `fetch_one`: read the task.
pub open spec fn fetch_one_spec(id: i32) -> (TaskExchangeView, StepView) {
    (TaskExchangeView::AwaitingTask, StepView::Run(StatementView::SelectTask { id }))
}

/// Starting `create`: a task without content is refused with 400; a task
/// that names its context is inserted there, dated now; otherwise the active
/// context is looked up first.
pub open spec fn create_spec(req: TaskRequest) -> (TaskExchangeView, StepView) {
    if req.content@.len() == 0 {
        answer(text_response(400, "Name is required"@))
    } else {
        match req.context_id {
            Some(c) => (
                TaskExchangeView::AwaitingTask,
                StepView::Run(StatementView::InsertTask { content: req.content@, context_id: c }),
            ),
            None => (
                TaskExchangeView::FindingContext { content: req.content@ },
                StepView::Run(StatementView::SelectActiveContext),
            ),
        }
    }
}

/// Starting `create_batch` at time `date`: insert all the tasks at once.
pub open spec fn create_batch_spec(reqs: Seq<TaskRequest>, date: Seq<char>) -> (
    TaskExchangeView,
    StepView,
) {
    (
        TaskExchangeView::Batch,
        StepView::Run(StatementView::InsertTasks { sql: batch_insert_sql(reqs, date) }),
    )
}

/// Going on with the selected task ids: none selected is 404 "Task not
/// found"; an update takes exactly one id; toggling and deleting go through
/// the ids in order.
pub open spec fn with_ids_spec(ids: Seq<i32>, then: Selection) -> (TaskExchangeView, StepView) {
    if ids.len() == 0 {
        answer(text_response(404, "Task not found"@))
    } else {
        match then {
            Selection::Toggle => (
                TaskExchangeView::Applying {
                    action: Action::Toggle,
                    ids,
                    next: 1,
                    done: Seq::empty(),
                },
                StepView::Run(action_statement(Action::Toggle, ids[0])),
            ),
            Selection::Delete => (
                TaskExchangeView::Applying {
                    action: Action::Delete,
                    ids,
                    next: 1,
                    done: Seq::empty(),
                },
                StepView::Run(action_statement(Action::Delete, ids[0])),
            ),
            Selection::Update(put) => if ids.len() > 1 {
                answer(text_response(400, "Only one ID allowed for update"@))
            } else {
                (
                    TaskExchangeView::AwaitingTask,
                    StepView::Run(StatementView::UpdateTask { sql: update_sql(put), id: ids[0] }),
                )
            },
        }
    }
}

/// Selecting tasks from the numbers of a path: they are task ids unless
/// `by_index` is set, in which case they are positions in the active context,
/// whose tasks are read first.
pub open spec fn resolve_spec(positions: Seq<i32>, by_index: Option<bool>, then: Selection) -> (
    TaskExchangeView,
    StepView,
) {
    if by_index == Some(true) {
        (
            TaskExchangeView::Resolving { positions, then },
            StepView::Run(StatementView::SelectActiveTasks),
        )
    } else {
        with_ids_spec(positions, then)
    }
}

/// Starting `toggle_done`.
pub open spec fn toggle_done_spec(path: Seq<char>, query: IndexQuery) -> (
    TaskExchangeView,
    StepView,
) {
    resolve_spec(indexes_of(path), query.index, Selection::Toggle)
}

/// Starting `update`: a change with neither content nor flag is refused
/// with 400.
pub open spec fn update_spec(data: TaskPutRequest, query: IndexQuery, path: Seq<char>) -> (
    TaskExchangeView,
    StepView,
) {
    if data.content is None && data.done is None {
        answer(text_response(400, "Content or done is required"@))
    } else {
        resolve_spec(indexes_of(path), query.index, Selection::Update(data))
    }
}

/// Starting `delete`.
pub open spec fn delete_spec(path: Seq<char>, query: IndexQuery) -> (TaskExchangeView, StepView) {
    resolve_spec(indexes_of(path), query.index, Selection::Delete)
}

/// Starting `delete_all`.
pub open spec fn delete_all_spec() -> (TaskExchangeView, StepView) {
    (TaskExchangeView::Wiping, StepView::Run(StatementView::DeleteAllTasks))
}

/// The next step of a task handler, given the reply to its last statement.
/// A reply of another kind than the statement gives, or a reply to a finished
/// handler, is answered as a server error.
pub open spec fn resume_spec(state: TaskExchangeView, reply: Reply) -> (TaskExchangeView, StepView) {
    match state {
        TaskExchangeView::Finished => answer(internal_error()),
        TaskExchangeView::ListingOfContext => match reply {
            Reply::Tasks(Ok(ts)) => answer(
                ResponseView { status: 200, payload: PayloadView::Tasks(ts@) },
            ),
            Reply::Tasks(Err(e)) => answer(error_response(e)),
            _ => answer(internal_error()),
        },
        TaskExchangeView::ListingAll => match reply {
            Reply::FullContexts(Ok(raws)) => answer(
                ResponseView {
                    status: 200,
                    payload: PayloadView::FullContexts(
                        raws@.map_values(|r: FullContextDb| served_full(r)),
                    ),
                },
            ),
            Reply::FullContexts(Err(e)) => answer(error_response(e)),
            _ => answer(internal_error()),
        },
        TaskExchangeView::AwaitingTask => match reply {
            Reply::Task(Ok(t)) => answer(task_ok(t)),
            Reply::Task(Err(e)) => answer(error_response(e)),
            _ => answer(internal_error()),
        },
        TaskExchangeView::FindingContext { content } => match reply {
            Reply::MaybeContext(Ok(Some(c))) => (
                TaskExchangeView::AwaitingTask,
                StepView::Run(StatementView::InsertTask { content, context_id: c.id }),
            ),
            Reply::MaybeContext(Ok(None)) => answer(
                text_response(400, "A context must exist before to create a task"@),
            ),
            _ => answer(internal_error()),
        },
        TaskExchangeView::Batch => match reply {
            Reply::Done(Ok(())) => answer(text_response(200, "Tasks created"@)),
            Reply::Done(Err(e)) => answer(error_response(e)),
            _ => answer(internal_error()),
        },
        TaskExchangeView::Resolving { positions, then } => match reply {
            Reply::Tasks(Ok(ts)) => with_ids_spec(ids_at_positions(positions, ts@), then),
            Reply::Tasks(Err(_)) => with_ids_spec(Seq::empty(), then),
            _ => answer(internal_error()),
        },
        TaskExchangeView::Applying { action, ids, next, done } => match reply {
            Reply::Task(Ok(t)) => if 0 <= next < ids.len() {
                (
                    TaskExchangeView::Applying { action, ids, next: next + 1, done: done.push(t) },
                    StepView::Run(action_statement(action, ids[next])),
                )
            } else {
                answer(ResponseView { status: 200, payload: PayloadView::Tasks(done.push(t)) })
            },
            Reply::Task(Err(e)) => answer(error_response(e)),
            _ => answer(internal_error()),
        },
        TaskExchangeView::Wiping => match reply {
            Reply::Done(Ok(())) => answer(text_response(200, "All tasks deleted"@)),
            Reply::Done(Err(DbError::RowNotFound)) => answer(
                text_response(200, "All contexts deleted"@),
            ),
            Reply::Done(Err(e)) => answer(error_response(e)),
            _ => answer(internal_error()),
        },
    }
}

/// How many replies a task handler may still wait for, at most.
pub open spec fn replies_left(state: TaskExchangeView) -> nat {
    match state {
        TaskExchangeView::Finished => 0,
        TaskExchangeView::FindingContext { .. } => 2,
        TaskExchangeView::Resolving { positions, then } => match then {
            Selection::Update(_) => 2,
            _ => 1 + positions.len(),
        },
        TaskExchangeView::Applying { ids, next, .. } => if next <= ids.len() + 1 {
            (ids.len() + 1 - next) as nat
        } else {
            0
        },
        _ => 1,
    }
}

/// A task handler never waits forever: every step that runs a statement
/// leaves strictly fewer replies to wait for, and a step that answers leaves
/// the handler finished.
pub proof fn law_task_exchange_ends(state: TaskExchangeView, reply: Reply)
    ensures
        resume_spec(state, reply).1 is Run ==> replies_left(resume_spec(state, reply).0)
            < replies_left(state),
        resume_spec(state, reply).1 is Respond ==> resume_spec(state, reply).0 is Finished,
        replies_left(state) == 0 ==> resume_spec(state, reply).1 is Respond,
{
    match state {
        TaskExchangeView::Resolving { positions, then } => match reply {
            Reply::Tasks(Ok(ts)) => {
                law_positions_pick_listed_tasks(positions, ts@);
            },
            _ => {},
        },
        _ => {},
    }
}

/// Where a task handler stands after the given replies, one after the other,
/// starting from `start`.
pub open spec fn feed(start: (TaskExchangeView, StepView), replies: Seq<Reply>) -> (
    TaskExchangeView,
    StepView,
)
    decreases replies.len(),
{
    if replies.len() == 0 {
        start
    } else {
        resume_spec(feed(start, replies.drop_last()).0, replies.last())
    }
}

/// The replies that hand back these task rows, one per statement.
pub open spec fn task_replies(rows: Seq<Task>) -> Seq<Reply> {
    rows.map_values(|t: Task| Reply::Task(Ok(t)))
}

/// The selection that applies an action to each selected task.
pub open spec fn selection_of(action: Action) -> Selection {
    match action {
        Action::Toggle => Selection::Toggle,
        Action::Delete => Selection::Delete,
    }
}

proof fn lemma_applying_after(action: Action, ids: Seq<i32>, rows: Seq<Task>, k: int)
    requires
        ids.len() >= 1,
        rows.len() == ids.len(),
        0 <= k < ids.len(),
    ensures
        feed(with_ids_spec(ids, selection_of(action)), task_replies(rows.take(k))) == (
            TaskExchangeView::Applying { action, ids, next: k + 1, done: rows.take(k) },
            StepView::Run(action_statement(action, ids[k])),
        ),
    decreases k,
{
    if k == 0 {
        assert(rows.take(0) =~= Seq::<Task>::empty());
        assert(task_replies(rows.take(0)) =~= Seq::<Reply>::empty());
    } else {
        lemma_applying_after(action, ids, rows, k - 1);
        assert(task_replies(rows.take(k)).drop_last() =~= task_replies(rows.take(k - 1)));
        assert(task_replies(rows.take(k)).last() == Reply::Task(Ok(rows[k - 1])));
        assert(rows.take(k - 1).push(rows[k - 1]) =~= rows.take(k));
    }
}

/// Toggling or deleting selected tasks applies the action to each id once,
/// in the order of the selection: after the rows of the first `k` tasks came
/// back, the statement for the task at `k` runs; once every row came back,
/// the handler answers 200 with all the rows, in order.
pub proof fn law_action_applies_to_each_id_in_order(
    action: Action,
    ids: Seq<i32>,
    rows: Seq<Task>,
    k: int,
)
    requires
        ids.len() >= 1,
        rows.len() == ids.len(),
        0 <= k < ids.len(),
    ensures
        feed(with_ids_spec(ids, selection_of(action)), task_replies(rows.take(k))) == (
            TaskExchangeView::Applying { action, ids, next: k + 1, done: rows.take(k) },
            StepView::Run(action_statement(action, ids[k])),
        ),
        feed(with_ids_spec(ids, selection_of(action)), task_replies(rows)) == answer(
            ResponseView { status: 200, payload: PayloadView::Tasks(rows) },
        ),
{
    lemma_applying_after(action, ids, rows, k);
    let n = ids.len() - 1;
    lemma_applying_after(action, ids, rows, n);
    assert(task_replies(rows).drop_last() =~= task_replies(rows.take(n)));
    assert(task_replies(rows).last() == Reply::Task(Ok(rows[n])));
    assert(rows.take(n).push(rows[n]) =~= rows);
}

/// A new task is inserted with exactly the requested content: in the context
/// the request names, or else, after the active context was read, in that
/// context; with no active context the request is refused with 400 and
/// nothing is inserted.  The inserted row is the answer.
pub proof fn law_create_inserts_requested_content(
    req: TaskRequest,
    active: Option<crate::structs::Context>,
    row: Task,
)
    requires
        req.content@.len() > 0,
    ensures
        req.context_id matches Some(k) ==> create_spec(req).1 == StepView::Run(
            StatementView::InsertTask { content: req.content@, context_id: k },
        ),
        req.context_id is None ==> create_spec(req).1 == StepView::Run(
            StatementView::SelectActiveContext,
        ),
        ({
            let next = resume_spec(create_spec(req).0, Reply::MaybeContext(Ok(active)));
            &&& req.context_id is None ==> (active matches Some(c) ==> next.1 == StepView::Run(
                StatementView::InsertTask { content: req.content@, context_id: c.id },
            ))
            &&& req.context_id is None && active is None ==> next == answer(
                text_response(400, "A context must exist before to create a task"@),
            )
            &&& req.context_id is None && active is Some ==> resume_spec(
                next.0,
                Reply::Task(Ok(row)),
            ) == answer(task_ok(row))
        }),
        req.context_id is Some ==> resume_spec(create_spec(req).0, Reply::Task(Ok(row))) == answer(
            task_ok(row),
        ),
{
}

/// The tasks that a path selects for toggling or deleting: with `index` set,
/// the active context's tasks are read first and the numbers are 1-based
/// positions among them (`ids_at_positions`); otherwise the numbers are the
/// task ids themselves.  The action then runs first on the first selected
/// id, or the request is answered 404 when nothing is selected, also when
/// the active context's tasks could not be read.
pub proof fn law_selection_by_index_or_id(
    path: Seq<char>,
    query: IndexQuery,
    action: Action,
    listed: Vec<Task>,
    err: DbError,
)
    ensures
        ({
            let start = match action {
                Action::Toggle => toggle_done_spec(path, query),
                Action::Delete => delete_spec(path, query),
            };
            let ids = if query.index == Some(true) {
                ids_at_positions(indexes_of(path), listed@)
            } else {
                indexes_of(path)
            };
            let chosen = if query.index == Some(true) {
                resume_spec(start.0, Reply::Tasks(Ok(listed)))
            } else {
                start
            };
            &&& query.index == Some(true) ==> start.1 == StepView::Run(
                StatementView::SelectActiveTasks,
            )
            &&& ids.len() > 0 ==> chosen == (
                TaskExchangeView::Applying { action, ids, next: 1, done: Seq::empty() },
                StepView::Run(action_statement(action, ids[0])),
            )
            &&& ids.len() == 0 ==> chosen == answer(text_response(404, "Task not found"@))
            &&& query.index == Some(true) ==> resume_spec(start.0, Reply::Tasks(Err(err)))
                == answer(text_response(404, "Task not found"@))
        }),
{
}

/// A finished task handler answers any further reply with 500.
pub proof fn law_finished_task_handler(reply: Reply)
    ensures
        resume_spec(TaskExchangeView::Finished, reply) == answer(
            text_response(500, "Internal Server Error"@),
        ),
{
}

/// Listing tasks: with a context id, the tasks of that context are read and
/// answered 200 in the order given; without one, every context with its
/// tasks is read (only the active ones when `active` is set) and each is
/// answered in its served form, in order.  A failed read of tasks answers
/// 404 "Not found" for a missing row and 500 otherwise.
pub proof fn law_fetch_lists_tasks(
    query: TaskGetRequest,
    rows: Vec<Task>,
    raws: Vec<FullContextDb>,
    err: DbError,
)
    ensures
        query.context_id matches Some(c) ==> {
            &&& fetch_spec(query).1 == StepView::Run(
                StatementView::SelectTasksOfContext { context_id: c },
            )
            &&& resume_spec(fetch_spec(query).0, Reply::Tasks(Ok(rows))) == answer(
                ResponseView { status: 200, payload: PayloadView::Tasks(rows@) },
            )
            &&& resume_spec(fetch_spec(query).0, Reply::Tasks(Err(err))) == answer(
                if err == DbError::RowNotFound {
                    text_response(404, "Not found"@)
                } else {
                    text_response(500, "Internal Server Error"@)
                },
            )
        },
        query.context_id is None ==> {
            &&& fetch_spec(query).1 == StepView::Run(
                StatementView::ListContexts { active_only: query.active == Some(true) },
            )
            &&& resume_spec(fetch_spec(query).0, Reply::FullContexts(Ok(raws))) == answer(
                ResponseView {
                    status: 200,
                    payload: PayloadView::FullContexts(
                        raws@.map_values(|r: FullContextDb| served_full(r)),
                    ),
                },
            )
        },
{
}

/// Reading one task reads the task with that id and answers it; a missing
/// task is 404 "Not found", any other failure 500.
pub proof fn law_fetch_one_reads_the_task(id: i32, row: Task, err: DbError)
    ensures
        fetch_one_spec(id).1 == StepView::Run(StatementView::SelectTask { id }),
        resume_spec(fetch_one_spec(id).0, Reply::Task(Ok(row))) == answer(task_ok(row)),
        resume_spec(fetch_one_spec(id).0, Reply::Task(Err(err))) == answer(
            if err == DbError::RowNotFound {
                text_response(404, "Not found"@)
            } else {
                text_response(500, "Internal Server Error"@)
            },
        ),
{
}

/// A task without content is refused with 400 "Name is required" before any
/// statement.
pub proof fn law_create_refuses_empty_content(req: TaskRequest)
    ensures
        req.content@.len() == 0 ==> create_spec(req) == answer(
            text_response(400, "Name is required"@),
        ),
{
}

/// A batch runs one insertion of every task, and answers 200 "Tasks
/// created" when it succeeded, 404 "Not found" for a missing row and 500
/// for any other failure.
pub proof fn law_batch_runs_one_insertion(reqs: Seq<TaskRequest>, date: Seq<char>, res: Result<
    (),
    DbError,
>)
    ensures
        create_batch_spec(reqs, date).1 == StepView::Run(
            StatementView::InsertTasks { sql: batch_insert_sql(reqs, date) },
        ),
        resume_spec(create_batch_spec(reqs, date).0, Reply::Done(res)) == answer(
            match res {
                Ok(()) => text_response(200, "Tasks created"@),
                Err(DbError::RowNotFound) => text_response(404, "Not found"@),
                Err(DbError::Other) => text_response(500, "Internal Server Error"@),
            },
        ),
{
}

/// An update changes exactly one task: a request that changes nothing is
/// refused with 400 "Content or done is required"; when no task is
/// selected the answer is 404 "Task not found", when several are, 400 "Only
/// one ID allowed for update"; otherwise the update built from the request
/// runs on the one selected id (read as a position in the active context
/// when `index` is set), and the updated row is the answer.
pub proof fn law_update_changes_one_task(
    data: TaskPutRequest,
    query: IndexQuery,
    path: Seq<char>,
    listed: Vec<Task>,
    row: Task,
)
    ensures
        data.content is None && data.done is None ==> update_spec(data, query, path) == answer(
            text_response(400, "Content or done is required"@),
        ),
        !(data.content is None && data.done is None) ==> ({
            let start = update_spec(data, query, path);
            let ids = if query.index == Some(true) {
                ids_at_positions(indexes_of(path), listed@)
            } else {
                indexes_of(path)
            };
            let chosen = if query.index == Some(true) {
                resume_spec(start.0, Reply::Tasks(Ok(listed)))
            } else {
                start
            };
            &&& query.index == Some(true) ==> start.1 == StepView::Run(
                StatementView::SelectActiveTasks,
            )
            &&& ids.len() == 0 ==> chosen == answer(text_response(404, "Task not found"@))
            &&& ids.len() > 1 ==> chosen == answer(
                text_response(400, "Only one ID allowed for update"@),
            )
            &&& ids.len() == 1 ==> chosen.1 == StepView::Run(
                StatementView::UpdateTask { sql: update_sql(data), id: ids[0] },
            )
            &&& ids.len() == 1 ==> resume_spec(chosen.0, Reply::Task(Ok(row))) == answer(
                task_ok(row),
            )
        }),
{
}

/// When the action on a selected task fails, the handler stops there and
/// answers the failure: 404 "Not found" for a missing row, 500 otherwise.
pub proof fn law_action_stops_at_first_failure(
    action: Action,
    ids: Seq<i32>,
    rows: Seq<Task>,
    k: int,
    err: DbError,
)
    requires
        ids.len() >= 1,
        rows.len() == ids.len(),
        0 <= k < ids.len(),
    ensures
        feed(with_ids_spec(ids, selection_of(action)), task_replies(rows.take(k)).push(
            Reply::Task(Err(err)),
        )) == answer(
            if err == DbError::RowNotFound {
                text_response(404, "Not found"@)
            } else {
                text_response(500, "Internal Server Error"@)
            },
        ),
{
    lemma_applying_after(action, ids, rows, k);
    assert(task_replies(rows.take(k)).push(Reply::Task(Err(err))).drop_last() =~= task_replies(
        rows.take(k),
    ));
}

/// Deleting every task answers 200 "All tasks deleted" when the statement
/// gave a row back, 200 "All contexts deleted" when it gave none, and 500
/// for any other failure.
pub proof fn law_delete_all_tasks(res: Result<(), DbError>)
    ensures
        delete_all_spec().1 == StepView::Run(StatementView::DeleteAllTasks),
        resume_spec(delete_all_spec().0, Reply::Done(res)) == answer(
            match res {
                Ok(()) => text_response(200, "All tasks deleted"@),
                Err(DbError::RowNotFound) => text_response(200, "All contexts deleted"@),
                Err(DbError::Other) => text_response(500, "Internal Server Error"@),
            },
        ),
{
}

fn answer_with(r: Response) -> (out: (TaskExchange, Step))
    ensures
        out.0@ == TaskExchangeView::Finished,
        out.1@ == StepView::Respond(r@),
{
    (TaskExchange::Finished, Step::Respond(r))
}

fn action_stmt(action: Action, id: i32) -> (s: Statement)
    ensures
        s@ == action_statement(action, id),
{
    match action {
        Action::Toggle => Statement::ToggleTask { id },
        Action::Delete => Statement::DeleteTask { id },
    }
}

/// Handler `fetch`: the tasks of one context, or the contexts with their
/// tasks.
pub fn fetch(query: TaskGetRequest) -> (out: (TaskExchange, Step))
    ensures
        (out.0@, out.1@) == fetch_spec(query),
{
    match query.context_id {
        Some(c) => (
            TaskExchange::ListingOfContext,
            Step::Run(Statement::SelectTasksOfContext { context_id: c }),
        ),
        None => {
            let active = match query.active {
                Some(a) => a,
                None => false,
            };
            (TaskExchange::ListingAll, Step::Run(Statement::ListContexts { active_only: active }))
        },
    }
}

/// Handler `fetch_one`: one task by id.
pub fn fetch_one(id: i32) -> (out: (TaskExchange, Step))
    ensures
        (out.0@, out.1@) == fetch_one_spec(id),
{
    (TaskExchange::AwaitingTask, Step::Run(Statement::SelectTask { id }))
}

/// Handler `create`: adds a task to the given context, or to the active one.
pub fn create(req: TaskRequest) -> (out: (TaskExchange, Step))
    ensures
        (out.0@, out.1@) == create_spec(req),
{
    if req.content.as_str().is_empty() {
        return answer_with(text(400, "Name is required"));
    }
    match req.context_id {
        Some(c) => {
            (
                TaskExchange::AwaitingTask,
                Step::Run(Statement::InsertTask { content: req.content, context_id: c }),
            )
        },
        None => (
            TaskExchange::FindingContext { content: req.content },
            Step::Run(Statement::SelectActiveContext),
        ),
    }
}

/// Handler `create_batch` at time `date`: inserts all the tasks in one
/// statement.
pub fn create_batch_at(reqs: Vec<TaskRequest>, date: &str) -> (out: (TaskExchange, Step))
    requires
        all_have_context(reqs@),
    ensures
        (out.0@, out.1@) == create_batch_spec(reqs@, date@),
{
    let sql = batch_insert_task_sql(&reqs, date);
    (TaskExchange::Batch, Step::Run(Statement::InsertTasks { sql }))
}

/// Handler `create_batch`: inserts all the tasks in one statement, the dates
/// a task leaves out being the current time.
pub fn create_batch(reqs: Vec<TaskRequest>) -> (out: (TaskExchange, Step))
    requires
        all_have_context(reqs@),
    ensures
        out.0@ == TaskExchangeView::Batch,
        exists|date: Seq<char>| out.1@ == create_batch_spec(reqs@, date).1,
{
    let date = local_now_text();
    create_batch_at(reqs, date.as_str())
}

/// Goes on with the selected task ids.
fn with_ids(ids: Vec<i32>, then: Selection) -> (out: (TaskExchange, Step))
    ensures
        (out.0@, out.1@) == with_ids_spec(ids@, then),
{
    if ids.len() == 0 {
        return answer_with(text(404, "Task not found"));
    }
    let first = ids[0];
    match then {
        Selection::Toggle => (
            TaskExchange::Applying { action: Action::Toggle, ids, next: 1, done: Vec::new() },
            Step::Run(action_stmt(Action::Toggle, first)),
        ),
        Selection::Delete => (
            TaskExchange::Applying { action: Action::Delete, ids, next: 1, done: Vec::new() },
            Step::Run(action_stmt(Action::Delete, first)),
        ),
        Selection::Update(put) => {
            if ids.len() > 1 {
                answer_with(text(400, "Only one ID allowed for update"))
            } else {
                let sql = update_task_sql(&put);
                (TaskExchange::AwaitingTask, Step::Run(Statement::UpdateTask { sql, id: first }))
            }
        },
    }
}

/// Selects tasks from the numbers of a path.
fn resolve(positions: Vec<i32>, by_index: Option<bool>, then: Selection) -> (out: (
    TaskExchange,
    Step,
))
    ensures
        (out.0@, out.1@) == resolve_spec(positions@, by_index, then),
{
    if by_index == Some(true) {
        (TaskExchange::Resolving { positions, then }, Step::Run(Statement::SelectActiveTasks))
    } else {
        with_ids(positions, then)
    }
}

/// Handler `toggle_done`: flips the done flag of each selected task.
pub fn toggle_done(id: &str, query: IndexQuery) -> (out: (TaskExchange, Step))
    ensures
        (out.0@, out.1@) == toggle_done_spec(id@, query),
{
    resolve(parse_indexes(id), query.index, Selection::Toggle)
}

/// Handler `update`: changes the content or the flag of the one selected
/// task.
pub fn update(data: TaskPutRequest, query: IndexQuery, id: &str) -> (out: (TaskExchange, Step))
    ensures
        (out.0@, out.1@) == update_spec(data, query, id@),
{
    if data.content.is_none() && data.done.is_none() {
        return answer_with(text(400, "Content or done is required"));
    }
    resolve(parse_indexes(id), query.index, Selection::Update(data))
}

/// Handler `delete`: deletes each selected task.
pub fn delete(id: &str, query: IndexQuery) -> (out: (TaskExchange, Step))
    ensures
        (out.0@, out.1@) == delete_spec(id@, query),
{
    resolve(parse_indexes(id), query.index, Selection::Delete)
}

/// Handler `delete_all`: deletes every task.
pub fn delete_all() -> (out: (TaskExchange, Step))
    ensures
        (out.0@, out.1@) == delete_all_spec(),
{
    (TaskExchange::Wiping, Step::Run(Statement::DeleteAllTasks))
}

/// Converts the stored contexts with tasks into served ones, in order.
pub fn full_contexts_from(raws: Vec<FullContextDb>) -> (fulls: Vec<FullContext>)
    ensures
        fulls@.map_values(|f: FullContext| f@) == raws@.map_values(|r: FullContextDb| served_full(r)),
{
    let ghost all = raws@;
    let mut fulls: Vec<FullContext> = Vec::new();
    for raw in it: raws.into_iter()
        invariant
            it.seq() == all,
            fulls@.map_values(|f: FullContext| f@) == all.take(it.index()).map_values(
                |r: FullContextDb| served_full(r),
            ),
    {
        let ghost k = it.index();
        let ghost before = fulls@;
        assert(all.take(k + 1) == all.take(k).push(raw));
        assert(before.len() == k) by {
            assert(before.map_values(|f: FullContext| f@).len() == all.take(k).len());
        }
        let full = FullContext::from(raw);
        fulls.push(full);
        assert forall|i: int| 0 <= i < k + 1 implies #[trigger] fulls@[i]@ == served_full(
            all.take(k + 1)[i],
        ) by {
            if i < k {
                assert(fulls@[i] == before[i]);
                assert(before.map_values(|f: FullContext| f@)[i] == before[i]@);
                assert(all.take(k).map_values(|r: FullContextDb| served_full(r))[i] == served_full(
                    all.take(k)[i],
                ));
            }
        }
        assert(fulls@.map_values(|f: FullContext| f@) =~= all.take(k + 1).map_values(
            |r: FullContextDb| served_full(r),
        ));
    }
    assert(all.take(all.len() as int) == all);
    fulls
}

impl TaskExchange {
    /// The next step, given the database's reply to the last statement.
    /// Each step that runs a statement leaves fewer replies to wait for, so
    /// a handler always ends with an answer.
    pub fn resume(self, reply: Reply) -> (out: (TaskExchange, Step))
        ensures
            (out.0@, out.1@) == resume_spec(self@, reply),
            out.1 is Run ==> replies_left(out.0@) < replies_left(self@),
            out.1 is Respond ==> out.0@ is Finished,
    {
        match self {
            TaskExchange::Finished => answer_with(server_error()),
            TaskExchange::ListingOfContext => match reply {
                Reply::Tasks(Ok(ts)) => answer_with(ok_json(Payload::Tasks(ts))),
                Reply::Tasks(Err(e)) => answer_with(handle_err(e)),
                _ => answer_with(server_error()),
            },
            TaskExchange::ListingAll => match reply {
                Reply::FullContexts(Ok(raws)) => {
                    let fulls = full_contexts_from(raws);
                    answer_with(ok_json(Payload::FullContexts(fulls)))
                },
                Reply::FullContexts(Err(e)) => answer_with(handle_err(e)),
                _ => answer_with(server_error()),
            },
            TaskExchange::AwaitingTask => match reply {
                Reply::Task(Ok(t)) => answer_with(ok_json(Payload::Task(t))),
                Reply::Task(Err(e)) => answer_with(handle_err(e)),
                _ => answer_with(server_error()),
            },
            TaskExchange::FindingContext { content } => match reply {
                Reply::MaybeContext(Ok(Some(c))) => {
                    (
                        TaskExchange::AwaitingTask,
                        Step::Run(Statement::InsertTask { content, context_id: c.id }),
                    )
                },
                Reply::MaybeContext(Ok(None)) => answer_with(
                    text(400, "A context must exist before to create a task"),
                ),
                _ => answer_with(server_error()),
            },
            TaskExchange::Batch => match reply {
                Reply::Done(Ok(())) => answer_with(text(200, "Tasks created")),
                Reply::Done(Err(e)) => answer_with(handle_err(e)),
                _ => answer_with(server_error()),
            },
            TaskExchange::Resolving { positions, then } => match reply {
                Reply::Tasks(Ok(ts)) => {
                    let ids = ids_from_positions(&positions, &ts);
                    proof {
                        law_positions_pick_listed_tasks(positions@, ts@);
                    }
                    with_ids(ids, then)
                },
                Reply::Tasks(Err(_)) => with_ids(Vec::new(), then),
                _ => answer_with(server_error()),
            },
            TaskExchange::Applying { action, ids, next, done } => match reply {
                Reply::Task(Ok(t)) => {
                    let mut done = done;
                    done.push(t);
                    if next < ids.len() {
                        let id = ids[next];
                        (
                            TaskExchange::Applying { action, ids, next: next + 1, done },
                            Step::Run(action_stmt(action, id)),
                        )
                    } else {
                        answer_with(ok_json(Payload::Tasks(done)))
                    }
                },
                Reply::Task(Err(e)) => answer_with(handle_err(e)),
                _ => answer_with(server_error()),
            },
            TaskExchange::Wiping => match reply {
                Reply::Done(Ok(())) => answer_with(text(200, "All tasks deleted")),
                Reply::Done(Err(DbError::RowNotFound)) => answer_with(
                    text(200, "All contexts deleted"),
                ),
                Reply::Done(Err(e)) => answer_with(handle_err(e)),
                _ => answer_with(server_error()),
            },
        }
    }
}

} // verus!

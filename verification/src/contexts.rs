//! The context handlers, as exchanges with the database: each handler starts
//! with a step, and every reply of the database leads to the next step, until
//! the handler answers.
use vstd::prelude::*;
use crate::exchange::{Reply, Statement, StatementView, Step, StepView};
use crate::response::{
    error_response, handle_err, internal_error, ok_json, server_error, text, text_response,
    DbError, Payload, PayloadView, ResponseView,
};
use crate::structs::{Context, ContextRequest};

verus! {

/// Where a context handler stands, waiting for the reply to its last
/// statement.
#[derive(Debug)]
pub enum ContextExchange {
    /// The handler has answered.
    Finished,
    /// Waiting for the list of contexts.
    Listing,
    /// Waiting for the row of a context just inserted.
    Inserting,
    /// Waiting for the context just marked active by name.
    Activating { name: String },
    /// Waiting for the other names to be marked inactive; `found` is the
    /// context that was activated, if there was one.
    Deactivating { found: Option<Context>, name: String },
    /// Waiting for the tasks of a context to be deleted, for a clear.
    Clearing,
    /// Waiting for the stored context `id`, which `data` is to replace.
    Looking { id: i32, data: Context },
    /// Keeping one context active; what comes after is `then`.
    Cleaning { phase: CleanupPhase, then: AfterCleanup },
    /// Waiting for the updated context.
    Updating,
    /// Waiting for the tasks of context `id` to be deleted, for a deletion.
    Purging { id: i32 },
    /// Waiting for the deleted context.
    Deleting,
    /// Waiting for all contexts to be deleted.
    Wiping,
}

/// The statement that a clean-up of the active flag waits on.
#[derive(Debug)]
pub enum CleanupPhase {
    /// The other contexts are being marked inactive.
    Deactivating,
    /// An inactive context to activate is being looked up.
    Picking,
    /// That context is being marked active.
    Activating,
}

/// What follows a clean-up of the active flag.
#[derive(Debug)]
pub enum AfterCleanup {
    /// Store `data` as context `id`.
    Update { id: i32, data: Context },
    /// Answer with this deleted context.
    Answer(Context),
}

/// A step that answers.
pub open spec fn answer(r: ResponseView) -> (ContextExchange, StepView) {
    (ContextExchange::Finished, StepView::Respond(r))
}

/// The 200 answer with a context.
pub open spec fn context_ok(c: Context) -> ResponseView {
    ResponseView { status: 200, payload: PayloadView::Context(c) }
}

/// Starting `fetch_all`: ask for every context.
pub open spec fn fetch_all_spec() -> (ContextExchange, StepView) {
    (ContextExchange::Listing, StepView::Run(StatementView::SelectContexts))
}

/// Starting `use_or_create`: a request without a name is refused with 400;
/// a simple creation inserts the context; otherwise the named context is
/// activated.
pub open spec fn use_or_create_spec(req: ContextRequest) -> (ContextExchange, StepView) {
    if req.name@.len() == 0 {
        answer(text_response(400, "Name is required"@))
    } else if req.simple_create == Some(true) {
        (
            ContextExchange::Inserting,
            StepView::Run(StatementView::InsertContext { name: req.name@ }),
        )
    } else {
        (
            ContextExchange::Activating { name: req.name },
            StepView::Run(StatementView::ActivateContextNamed { name: req.name@ }),
        )
    }
}

/// Starting `clear`: delete the tasks of the context.
pub open spec fn clear_spec(id: i32) -> (ContextExchange, StepView) {
    (ContextExchange::Clearing, StepView::Run(StatementView::DeleteTasksOfContext { context_id: id }))
}

/// Starting `update`: look up the stored context.
pub open spec fn update_spec(data: Context, id: i32) -> (ContextExchange, StepView) {
    (ContextExchange::Looking { id, data }, StepView::Run(StatementView::SelectContext { id }))
}

/// Starting `delete`: delete the tasks of the context first.
pub open spec fn delete_spec(id: i32) -> (ContextExchange, StepView) {
    (ContextExchange::Purging { id }, StepView::Run(StatementView::DeleteTasksOfContext { context_id: id }))
}

/// Starting `delete_all`: delete every context.
pub open spec fn delete_all_spec() -> (ContextExchange, StepView) {
    (ContextExchange::Wiping, StepView::Run(StatementView::DeleteAllContexts))
}

/// A clean-up of the active flag around context `id`: when `active`, mark
/// every other context inactive; otherwise look for another context to make
/// active.
pub open spec fn clean_active_spec(id: i32, active: bool, then: AfterCleanup) -> (
    ContextExchange,
    StepView,
) {
    if active {
        (
            ContextExchange::Cleaning { phase: CleanupPhase::Deactivating, then },
            StepView::Run(StatementView::DeactivateOthers { id }),
        )
    } else {
        (
            ContextExchange::Cleaning { phase: CleanupPhase::Picking, then },
            StepView::Run(StatementView::SelectFirstInactiveOther { id }),
        )
    }
}

/// What follows a successful clean-up.
pub open spec fn after_cleanup_spec(then: AfterCleanup) -> (ContextExchange, StepView) {
    match then {
        AfterCleanup::Update { id, data } => (
            ContextExchange::Updating,
            StepView::Run(StatementView::UpdateContext { id, name: data.name@, active: data.active }),
        ),
        AfterCleanup::Answer(c) => answer(context_ok(c)),
    }
}

/// The next step of a context handler, given the reply to its last
/// statement.  A reply of another kind than the statement gives, or a reply
/// to a finished handler, is answered as a server error.
pub open spec fn resume_spec(state: ContextExchange, reply: Reply) -> (ContextExchange, StepView) {
    match state {
        ContextExchange::Finished => answer(internal_error()),
        ContextExchange::Listing => match reply {
            Reply::Contexts(Ok(cs)) => answer(
                ResponseView { status: 200, payload: PayloadView::Contexts(cs@) },
            ),
            _ => answer(internal_error()),
        },
        ContextExchange::Inserting => match reply {
            Reply::Context(Ok(c)) => answer(context_ok(c)),
            _ => answer(internal_error()),
        },
        ContextExchange::Activating { name } => match reply {
            Reply::MaybeContext(Ok(found)) => (
                ContextExchange::Deactivating { found, name },
                StepView::Run(StatementView::DeactivateOtherNames { name: name@ }),
            ),
            _ => answer(internal_error()),
        },
        ContextExchange::Deactivating { found, name } => match reply {
            Reply::Done(_) => match found {
                Some(c) => answer(context_ok(c)),
                None => (
                    ContextExchange::Inserting,
                    StepView::Run(StatementView::InsertActiveContext { name: name@ }),
                ),
            },
            _ => answer(internal_error()),
        },
        ContextExchange::Clearing => match reply {
            Reply::Done(Ok(())) => answer(text_response(200, "Context cleared"@)),
            _ => answer(internal_error()),
        },
        ContextExchange::Looking { id, data } => match reply {
            Reply::Context(Ok(existing)) => if data.active && !existing.active {
                clean_active_spec(existing.id, true, AfterCleanup::Update { id, data })
            } else {
                after_cleanup_spec(AfterCleanup::Update { id, data })
            },
            Reply::Context(Err(_)) => answer(text_response(404, "Context not found"@)),
            _ => answer(internal_error()),
        },
        ContextExchange::Cleaning { phase, then } => match phase {
            CleanupPhase::Deactivating => match reply {
                Reply::Done(Ok(())) => after_cleanup_spec(then),
                _ => answer(internal_error()),
            },
            CleanupPhase::Picking => match reply {
                Reply::Context(Ok(c)) => (
                    ContextExchange::Cleaning { phase: CleanupPhase::Activating, then },
                    StepView::Run(StatementView::ActivateContext { id: c.id }),
                ),
                _ => answer(internal_error()),
            },
            CleanupPhase::Activating => match reply {
                Reply::Done(Ok(())) => after_cleanup_spec(then),
                _ => answer(internal_error()),
            },
        },
        ContextExchange::Updating => match reply {
            Reply::Context(Ok(c)) => answer(context_ok(c)),
            Reply::Context(Err(e)) => answer(error_response(e)),
            _ => answer(internal_error()),
        },
        ContextExchange::Purging { id } => match reply {
            Reply::Done(Ok(())) => (
                ContextExchange::Deleting,
                StepView::Run(StatementView::DeleteContext { id }),
            ),
            _ => answer(internal_error()),
        },
        ContextExchange::Deleting => match reply {
            Reply::Context(Ok(c)) => if c.active {
                clean_active_spec(c.id, c.active, AfterCleanup::Answer(c))
            } else {
                answer(context_ok(c))
            },
            Reply::Context(Err(DbError::RowNotFound)) => answer(
                text_response(404, "Context not found"@),
            ),
            _ => answer(internal_error()),
        },
        ContextExchange::Wiping => match reply {
            Reply::Done(Ok(())) => answer(text_response(200, "All contexts deleted"@)),
            Reply::Done(Err(e)) => answer(error_response(e)),
            _ => answer(internal_error()),
        },
    }
}

/// How many replies a context handler may still wait for, at most.
pub open spec fn replies_left(state: ContextExchange) -> nat {
    match state {
        ContextExchange::Finished => 0,
        ContextExchange::Listing => 1,
        ContextExchange::Inserting => 1,
        ContextExchange::Activating { .. } => 3,
        ContextExchange::Deactivating { .. } => 2,
        ContextExchange::Clearing => 1,
        ContextExchange::Looking { .. } => 3,
        ContextExchange::Cleaning { phase, then } => {
            let after: nat = match then {
                AfterCleanup::Update { .. } => 1,
                AfterCleanup::Answer(_) => 0,
            };
            match phase {
                CleanupPhase::Picking => 2 + after,
                _ => 1 + after,
            }
        },
        ContextExchange::Updating => 1,
        ContextExchange::Purging { .. } => 3,
        ContextExchange::Deleting => 2,
        ContextExchange::Wiping => 1,
    }
}

/// A context handler never waits forever: every step that runs a statement
/// leaves strictly fewer replies to wait for, and a step that answers leaves
/// the handler finished.
pub proof fn law_context_exchange_ends(state: ContextExchange, reply: Reply)
    ensures
        resume_spec(state, reply).1 is Run ==> replies_left(resume_spec(state, reply).0)
            < replies_left(state),
        resume_spec(state, reply).1 is Respond ==> resume_spec(state, reply).0 is Finished,
        replies_left(state) == 0 ==> resume_spec(state, reply).1 is Respond,
{
}

/// Making a context active through `update` makes every other context
/// inactive first: once the stored context is read, the other contexts are
/// marked inactive, and the new name and flag are stored only after that
/// succeeded; when it fails, the handler answers 500 and stores nothing.
pub proof fn law_update_activation_deactivates_others_first(
    id: i32,
    data: Context,
    existing: Context,
    second: Reply,
)
    requires
        data.active,
        !existing.active,
    ensures
        ({
            let first = resume_spec(update_spec(data, id).0, Reply::Context(Ok(existing)));
            &&& update_spec(data, id).1 == StepView::Run(StatementView::SelectContext { id })
            &&& first.1 == StepView::Run(StatementView::DeactivateOthers { id: existing.id })
            &&& second == Reply::Done(Ok(())) ==> resume_spec(first.0, second).1 == StepView::Run(
                StatementView::UpdateContext { id, name: data.name@, active: true },
            )
            &&& second != Reply::Done(Ok(())) ==> resume_spec(first.0, second) == answer(
                internal_error(),
            )
        }),
{
    match second {
        Reply::Done(Ok(u)) => {
            assert(u == ());
        },
        _ => {},
    }
}

/// Using a context by name marks the contexts with other names inactive
/// before it answers with a context: the activation by name is followed by
/// that statement, or by a 500 answer when the activation failed.
pub proof fn law_use_deactivates_other_names(req: ContextRequest, first: Reply)
    requires
        req.name@.len() > 0,
        req.simple_create != Some(true),
    ensures
        use_or_create_spec(req).1 == StepView::Run(
            StatementView::ActivateContextNamed { name: req.name@ },
        ),
        ({
            let next = resume_spec(use_or_create_spec(req).0, first);
            ||| next.1 == StepView::Run(StatementView::DeactivateOtherNames { name: req.name@ })
            ||| next == answer(internal_error())
        }),
{
}

/// An update stores exactly the requested name and flag under the requested
/// id, whatever the stored context was: when the update makes an inactive
/// context active, this comes after the other contexts were made inactive;
/// otherwise it comes right after the stored context was read.  The row it
/// gives back is the answer.
pub proof fn law_update_stores_requested_name_and_flag(
    id: i32,
    data: Context,
    existing: Context,
    second: Reply,
    stored: Context,
)
    ensures
        ({
            let first = resume_spec(update_spec(data, id).0, Reply::Context(Ok(existing)));
            let store = StepView::Run(
                StatementView::UpdateContext { id, name: data.name@, active: data.active },
            );
            let activates = data.active && !existing.active;
            &&& !activates ==> first.1 == store
            &&& activates && second == Reply::Done(Ok(())) ==> resume_spec(first.0, second).1
                == store
            &&& !activates ==> resume_spec(first.0, Reply::Context(Ok(stored))) == answer(
                context_ok(stored),
            )
            &&& activates && second == Reply::Done(Ok(())) ==> resume_spec(
                resume_spec(first.0, second).0,
                Reply::Context(Ok(stored)),
            ) == answer(context_ok(stored))
        }),
{
}

/// Using a context by name answers with the context that the activation
/// found, once the other names were made inactive, whether or not that
/// succeeded, and inserts nothing; only when no context has the name is an
/// active one inserted, and the inserted row is the answer.
pub proof fn law_use_answers_found_context_or_inserts(
    req: ContextRequest,
    found: Option<Context>,
    res: Result<(), DbError>,
    inserted: Context,
)
    requires
        req.name@.len() > 0,
        req.simple_create != Some(true),
    ensures
        ({
            let first = resume_spec(use_or_create_spec(req).0, Reply::MaybeContext(Ok(found)));
            let second = resume_spec(first.0, Reply::Done(res));
            &&& first.1 == StepView::Run(StatementView::DeactivateOtherNames { name: req.name@ })
            &&& found matches Some(c) ==> second == answer(context_ok(c))
            &&& found is None ==> second.1 == StepView::Run(
                StatementView::InsertActiveContext { name: req.name@ },
            )
            &&& found is None ==> resume_spec(second.0, Reply::Context(Ok(inserted))) == answer(
                context_ok(inserted),
            )
        }),
{
}

/// Listing contexts reads them all and answers 200 with the rows in the
/// order the database gave them; a failed read is answered 500.
pub proof fn law_fetch_all_answers_rows(rows: Vec<Context>, err: DbError)
    ensures
        fetch_all_spec().1 == StepView::Run(StatementView::SelectContexts),
        resume_spec(fetch_all_spec().0, Reply::Contexts(Ok(rows))) == answer(
            ResponseView { status: 200, payload: PayloadView::Contexts(rows@) },
        ),
        resume_spec(fetch_all_spec().0, Reply::Contexts(Err(err))) == answer(
            text_response(500, "Internal Server Error"@),
        ),
{
}

/// A request without a name is refused with 400 "Name is required" before
/// any statement; a simple creation inserts a context with the requested
/// name and answers with the inserted row, or 500 when the insertion failed.
pub proof fn law_use_or_create_refusal_and_simple_creation(
    req: ContextRequest,
    row: Context,
    err: DbError,
)
    ensures
        req.name@.len() == 0 ==> use_or_create_spec(req) == answer(
            text_response(400, "Name is required"@),
        ),
        req.name@.len() > 0 && req.simple_create == Some(true) ==> {
            &&& use_or_create_spec(req).1 == StepView::Run(
                StatementView::InsertContext { name: req.name@ },
            )
            &&& resume_spec(use_or_create_spec(req).0, Reply::Context(Ok(row))) == answer(
                context_ok(row),
            )
            &&& resume_spec(use_or_create_spec(req).0, Reply::Context(Err(err))) == answer(
                text_response(500, "Internal Server Error"@),
            )
        },
        req.name@.len() > 0 && req.simple_create != Some(true) ==> use_or_create_spec(req).1
            == StepView::Run(StatementView::ActivateContextNamed { name: req.name@ }),
{
}

/// Clearing a context deletes exactly its tasks and answers 200 "Context
/// cleared", or 500 when the deletion failed.
pub proof fn law_clear_deletes_tasks_of_context(id: i32, err: DbError)
    ensures
        clear_spec(id).1 == StepView::Run(StatementView::DeleteTasksOfContext { context_id: id }),
        resume_spec(clear_spec(id).0, Reply::Done(Ok(()))) == answer(
            text_response(200, "Context cleared"@),
        ),
        resume_spec(clear_spec(id).0, Reply::Done(Err(err))) == answer(
            text_response(500, "Internal Server Error"@),
        ),
{
}

/// An update of a context that cannot be read is answered 404 "Context not
/// found" and stores nothing; when storing fails, a missing row is 404 "Not
/// found" and any other failure 500.
pub proof fn law_update_failures(
    id: i32,
    data: Context,
    existing: Context,
    err: DbError,
    store_err: DbError,
)
    ensures
        update_spec(data, id).1 == StepView::Run(StatementView::SelectContext { id }),
        resume_spec(update_spec(data, id).0, Reply::Context(Err(err))) == answer(
            text_response(404, "Context not found"@),
        ),
        !(data.active && !existing.active) ==> resume_spec(
            resume_spec(update_spec(data, id).0, Reply::Context(Ok(existing))).0,
            Reply::Context(Err(store_err)),
        ) == answer(
            if store_err == DbError::RowNotFound {
                text_response(404, "Not found"@)
            } else {
                text_response(500, "Internal Server Error"@)
            },
        ),
{
}

/// Deleting a context deletes its tasks first, then the context itself;
/// the deleted row is the answer.  When the deleted context was the active
/// one, every other active context is made inactive before answering.  A
/// context that is not there is answered 404 "Context not found".
pub proof fn law_delete_removes_tasks_then_context(id: i32, deleted: Context, err: DbError)
    ensures
        delete_spec(id).1 == StepView::Run(StatementView::DeleteTasksOfContext { context_id: id }),
        resume_spec(delete_spec(id).0, Reply::Done(Err(err))) == answer(
            text_response(500, "Internal Server Error"@),
        ),
        ({
            let second = resume_spec(delete_spec(id).0, Reply::Done(Ok(())));
            let third = resume_spec(second.0, Reply::Context(Ok(deleted)));
            &&& second.1 == StepView::Run(StatementView::DeleteContext { id })
            &&& !deleted.active ==> third == answer(context_ok(deleted))
            &&& deleted.active ==> third.1 == StepView::Run(
                StatementView::DeactivateOthers { id: deleted.id },
            )
            &&& deleted.active ==> resume_spec(third.0, Reply::Done(Ok(()))) == answer(
                context_ok(deleted),
            )
            &&& deleted.active ==> resume_spec(third.0, Reply::Done(Err(err))) == answer(
                text_response(500, "Internal Server Error"@),
            )
            &&& resume_spec(second.0, Reply::Context(Err(DbError::RowNotFound))) == answer(
                text_response(404, "Context not found"@),
            )
            &&& resume_spec(second.0, Reply::Context(Err(DbError::Other))) == answer(
                text_response(500, "Internal Server Error"@),
            )
        }),
{
}

/// Deleting every context answers 200 "All contexts deleted" when the
/// statement gave a row back; a missing row is 404 "Not found" and any other
/// failure 500.
pub proof fn law_delete_all_contexts(res: Result<(), DbError>)
    ensures
        delete_all_spec().1 == StepView::Run(StatementView::DeleteAllContexts),
        resume_spec(delete_all_spec().0, Reply::Done(res)) == answer(
            match res {
                Ok(()) => text_response(200, "All contexts deleted"@),
                Err(DbError::RowNotFound) => text_response(404, "Not found"@),
                Err(DbError::Other) => text_response(500, "Internal Server Error"@),
            },
        ),
{
}

/// A finished context handler answers any further reply with 500.
pub proof fn law_finished_context_handler(reply: Reply)
    ensures
        resume_spec(ContextExchange::Finished, reply) == answer(
            text_response(500, "Internal Server Error"@),
        ),
{
}

fn answer_with(r: crate::response::Response) -> (out: (ContextExchange, Step))
    ensures
        out.0 == ContextExchange::Finished,
        out.1@ == StepView::Respond(r@),
{
    (ContextExchange::Finished, Step::Respond(r))
}

/// Handler `fetch_all`: lists every context.
pub fn fetch_all() -> (out: (ContextExchange, Step))
    ensures
        out.0 == fetch_all_spec().0,
        out.1@ == fetch_all_spec().1,
{
    (ContextExchange::Listing, Step::Run(Statement::SelectContexts))
}

/// Handler `use_or_create`: makes the named context the active one,
/// creating it when it does not exist, or just creates it when
/// `simple_create` is set.
pub fn use_or_create(req: ContextRequest) -> (out: (ContextExchange, Step))
    ensures
        out.0 == use_or_create_spec(req).0,
        out.1@ == use_or_create_spec(req).1,
{
    if req.name.as_str().is_empty() {
        return answer_with(text(400, "Name is required"));
    }
    let simple = match req.simple_create {
        Some(b) => b,
        None => false,
    };
    if simple {
        (ContextExchange::Inserting, Step::Run(Statement::InsertContext { name: req.name }))
    } else {
        let name = req.name.clone();
        (
            ContextExchange::Activating { name: req.name },
            Step::Run(Statement::ActivateContextNamed { name }),
        )
    }
}

/// Handler `clear`: deletes the tasks of a context.
pub fn clear(id: i32) -> (out: (ContextExchange, Step))
    ensures
        out.0 == clear_spec(id).0,
        out.1@ == clear_spec(id).1,
{
    (ContextExchange::Clearing, Step::Run(Statement::DeleteTasksOfContext { context_id: id }))
}

/// Handler `update`: replaces the name and flag of a context; making it
/// active makes every other context inactive.
pub fn update(data: Context, id: i32) -> (out: (ContextExchange, Step))
    ensures
        out.0 == update_spec(data, id).0,
        out.1@ == update_spec(data, id).1,
{
    (ContextExchange::Looking { id, data }, Step::Run(Statement::SelectContext { id }))
}

/// Handler `delete`: deletes a context and its tasks.
pub fn delete(id: i32) -> (out: (ContextExchange, Step))
    ensures
        out.0 == delete_spec(id).0,
        out.1@ == delete_spec(id).1,
{
    (ContextExchange::Purging { id }, Step::Run(Statement::DeleteTasksOfContext { context_id: id }))
}

/// Handler `delete_all`: deletes every context.
pub fn delete_all() -> (out: (ContextExchange, Step))
    ensures
        out.0 == delete_all_spec().0,
        out.1@ == delete_all_spec().1,
{
    (ContextExchange::Wiping, Step::Run(Statement::DeleteAllContexts))
}

/// Starts the clean-up of the active flag around context `id`.
fn clean_active(id: i32, active: bool, then: AfterCleanup) -> (out: (ContextExchange, Step))
    ensures
        out.0 == clean_active_spec(id, active, then).0,
        out.1@ == clean_active_spec(id, active, then).1,
{
    if active {
        (
            ContextExchange::Cleaning { phase: CleanupPhase::Deactivating, then },
            Step::Run(Statement::DeactivateOthers { id }),
        )
    } else {
        (
            ContextExchange::Cleaning { phase: CleanupPhase::Picking, then },
            Step::Run(Statement::SelectFirstInactiveOther { id }),
        )
    }
}

/// Goes on after a successful clean-up.
fn after_cleanup(then: AfterCleanup) -> (out: (ContextExchange, Step))
    ensures
        out.0 == after_cleanup_spec(then).0,
        out.1@ == after_cleanup_spec(then).1,
{
    match then {
        AfterCleanup::Update { id, data } => (
            ContextExchange::Updating,
            Step::Run(Statement::UpdateContext { id, name: data.name, active: data.active }),
        ),
        AfterCleanup::Answer(c) => answer_with(ok_json(Payload::Context(c))),
    }
}

impl ContextExchange {
    /// The next step, given the database's reply to the last statement.
    /// Each step that runs a statement leaves fewer replies to wait for, so
    /// a handler always ends with an answer.
    pub fn resume(self, reply: Reply) -> (out: (ContextExchange, Step))
        ensures
            out.0 == resume_spec(self, reply).0,
            out.1@ == resume_spec(self, reply).1,
            out.1 is Run ==> replies_left(out.0) < replies_left(self),
            out.1 is Respond ==> out.0 is Finished,
    {
        match self {
            ContextExchange::Finished => answer_with(server_error()),
            ContextExchange::Listing => match reply {
                Reply::Contexts(Ok(cs)) => answer_with(ok_json(Payload::Contexts(cs))),
                _ => answer_with(server_error()),
            },
            ContextExchange::Inserting => match reply {
                Reply::Context(Ok(c)) => answer_with(ok_json(Payload::Context(c))),
                _ => answer_with(server_error()),
            },
            ContextExchange::Activating { name } => match reply {
                Reply::MaybeContext(Ok(found)) => {
                    let other = name.clone();
                    (
                        ContextExchange::Deactivating { found, name },
                        Step::Run(Statement::DeactivateOtherNames { name: other }),
                    )
                },
                _ => answer_with(server_error()),
            },
            ContextExchange::Deactivating { found, name } => match reply {
                Reply::Done(_) => match found {
                    Some(c) => answer_with(ok_json(Payload::Context(c))),
                    None => (
                        ContextExchange::Inserting,
                        Step::Run(Statement::InsertActiveContext { name }),
                    ),
                },
                _ => answer_with(server_error()),
            },
            ContextExchange::Clearing => match reply {
                Reply::Done(Ok(())) => answer_with(text(200, "Context cleared")),
                _ => answer_with(server_error()),
            },
            ContextExchange::Looking { id, data } => match reply {
                Reply::Context(Ok(existing)) => {
                    if data.active && !existing.active {
                        clean_active(existing.id, true, AfterCleanup::Update { id, data })
                    } else {
                        after_cleanup(AfterCleanup::Update { id, data })
                    }
                },
                Reply::Context(Err(_)) => answer_with(text(404, "Context not found")),
                _ => answer_with(server_error()),
            },
            ContextExchange::Cleaning { phase, then } => match phase {
                CleanupPhase::Deactivating => match reply {
                    Reply::Done(Ok(())) => after_cleanup(then),
                    _ => answer_with(server_error()),
                },
                CleanupPhase::Picking => match reply {
                    Reply::Context(Ok(c)) => (
                        ContextExchange::Cleaning { phase: CleanupPhase::Activating, then },
                        Step::Run(Statement::ActivateContext { id: c.id }),
                    ),
                    _ => answer_with(server_error()),
                },
                CleanupPhase::Activating => match reply {
                    Reply::Done(Ok(())) => after_cleanup(then),
                    _ => answer_with(server_error()),
                },
            },
            ContextExchange::Updating => match reply {
                Reply::Context(Ok(c)) => answer_with(ok_json(Payload::Context(c))),
                Reply::Context(Err(e)) => answer_with(handle_err(e)),
                _ => answer_with(server_error()),
            },
            ContextExchange::Purging { id } => match reply {
                Reply::Done(Ok(())) => (
                    ContextExchange::Deleting,
                    Step::Run(Statement::DeleteContext { id }),
                ),
                _ => answer_with(server_error()),
            },
            ContextExchange::Deleting => match reply {
                Reply::Context(Ok(c)) => {
                    if c.active {
                        let id = c.id;
                        let active = c.active;
                        clean_active(id, active, AfterCleanup::Answer(c))
                    } else {
                        answer_with(ok_json(Payload::Context(c)))
                    }
                },
                Reply::Context(Err(DbError::RowNotFound)) => answer_with(
                    text(404, "Context not found"),
                ),
                _ => answer_with(server_error()),
            },
            ContextExchange::Wiping => match reply {
                Reply::Done(Ok(())) => answer_with(text(200, "All contexts deleted")),
                Reply::Done(Err(e)) => answer_with(handle_err(e)),
                _ => answer_with(server_error()),
            },
        }
    }
}

} // verus!

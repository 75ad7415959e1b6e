use vstd::prelude::*;

verus! {

/// A context as stored: `active` is an integer flag, any value other than 0
/// meaning "active".
#[derive(Debug, Clone)]
pub struct ContextDb {
    pub id: i32,
    pub name: String,
    pub active: i32,
}

/// A context as served to clients.
#[derive(Debug, Clone)]
pub struct Context {
    pub id: i32,
    pub name: String,
    pub active: bool,
}

impl From<ContextDb> for Context {
    fn from(raw: ContextDb) -> (ctx: Self)
        ensures
            ctx.id == raw.id,
            ctx.name == raw.name,
            ctx.active == (raw.active != 0),
    {
        Context { id: raw.id, name: raw.name, active: raw.active != 0 }
    }
}

impl vstd::std_specs::convert::FromSpecImpl<ContextDb> for Context {
    open spec fn obeys_from_spec() -> bool {
        true
    }

    open spec fn from_spec(raw: ContextDb) -> Context {
        Context { id: raw.id, name: raw.name, active: raw.active != 0 }
    }
}

/// The name of a context.
#[derive(Debug)]
pub struct ContextName {
    pub name: String,
}

/// A context with the number of tasks it holds.
#[derive(Debug)]
pub struct ContextTaskCount {
    pub id: i32,
    pub name: String,
    pub active: bool,
    pub task_count: i64,
}

/// The body of a request that uses (activates) or creates a context.
#[derive(Debug)]
pub struct ContextRequest {
    pub name: String,
    pub active: Option<bool>,
    pub simple_create: Option<bool>,
}

/// The abstract value of a stored task.
pub struct TaskDbView {
    pub id: i32,
    pub content: Seq<char>,
    pub done: i32,
    pub creation_date: Seq<char>,
    pub modification_date: Seq<char>,
}

/// The abstract value of a served task.
pub struct TaskView {
    pub id: i32,
    pub content: Seq<char>,
    pub done: bool,
    pub creation_date: Seq<char>,
    pub modification_date: Seq<char>,
}

impl TaskDbView {
    /// The served form of a stored task: the same fields, `done` read as
    /// "not zero".
    pub open spec fn served(self) -> TaskView {
        TaskView {
            id: self.id,
            content: self.content,
            done: self.done != 0,
            creation_date: self.creation_date,
            modification_date: self.modification_date,
        }
    }
}

/// A task as stored: `done` is an integer flag.
#[derive(Debug, Clone)]
pub struct TaskDb {
    pub id: i32,
    content: String,
    done: i32,
    creation_date: String,
    modification_date: String,
}

impl View for TaskDb {
    type V = TaskDbView;

    closed spec fn view(&self) -> TaskDbView {
        TaskDbView {
            id: self.id,
            content: self.content@,
            done: self.done,
            creation_date: self.creation_date@,
            modification_date: self.modification_date@,
        }
    }
}

impl TaskDb {
    /// The task's id.
    pub fn id(&self) -> (r: i32)
        ensures
            r == self@.id,
    {
        self.id
    }

    /// Builds a stored task from its fields.
    pub fn new(
        id: i32,
        content: String,
        done: i32,
        creation_date: String,
        modification_date: String,
    ) -> (task: TaskDb)
        ensures
            task@ == (TaskDbView {
                id,
                content: content@,
                done,
                creation_date: creation_date@,
                modification_date: modification_date@,
            }),
    {
        TaskDb { id, content, done, creation_date, modification_date }
    }

    /// The task's text.
    pub fn content(&self) -> (r: &String)
        ensures
            r@ == self@.content,
    {
        &self.content
    }

    /// The task's stored completion flag.
    pub fn done(&self) -> (r: i32)
        ensures
            r == self@.done,
    {
        self.done
    }

    /// When the task was created.
    pub fn creation_date(&self) -> (r: &String)
        ensures
            r@ == self@.creation_date,
    {
        &self.creation_date
    }

    /// When the task was last changed.
    pub fn modification_date(&self) -> (r: &String)
        ensures
            r@ == self@.modification_date,
    {
        &self.modification_date
    }
}

/// A task as served to clients.
#[derive(Debug, Clone)]
pub struct Task {
    pub id: i32,
    content: String,
    done: bool,
    creation_date: String,
    modification_date: String,
}

impl View for Task {
    type V = TaskView;

    closed spec fn view(&self) -> TaskView {
        TaskView {
            id: self.id,
            content: self.content@,
            done: self.done,
            creation_date: self.creation_date@,
            modification_date: self.modification_date@,
        }
    }
}

impl Task {
    /// The task's id.
    pub fn id(&self) -> (r: i32)
        ensures
            r == self@.id,
    {
        self.id
    }

    /// Builds a served task from its fields.
    pub fn new(
        id: i32,
        content: String,
        done: bool,
        creation_date: String,
        modification_date: String,
    ) -> (task: Task)
        ensures
            task@ == (TaskView {
                id,
                content: content@,
                done,
                creation_date: creation_date@,
                modification_date: modification_date@,
            }),
    {
        Task { id, content, done, creation_date, modification_date }
    }

    /// The task's text.
    pub fn content(&self) -> (r: &String)
        ensures
            r@ == self@.content,
    {
        &self.content
    }

    /// Whether the task is done.
    pub fn done(&self) -> (r: bool)
        ensures
            r == self@.done,
    {
        self.done
    }

    /// When the task was created.
    pub fn creation_date(&self) -> (r: &String)
        ensures
            r@ == self@.creation_date,
    {
        &self.creation_date
    }

    /// When the task was last changed.
    pub fn modification_date(&self) -> (r: &String)
        ensures
            r@ == self@.modification_date,
    {
        &self.modification_date
    }
}

/// The served form of a stored task.
pub closed spec fn task_of(raw: TaskDb) -> Task {
    Task {
        id: raw.id,
        content: raw.content,
        done: raw.done != 0,
        creation_date: raw.creation_date,
        modification_date: raw.modification_date,
    }
}

/// Serving a stored task keeps its id, text and dates and reads its stored
/// flag as done exactly when it is not zero.
pub proof fn law_task_served_keeps_fields(raw: TaskDb)
    ensures
        task_of(raw)@.id == raw@.id,
        task_of(raw)@.content == raw@.content,
        task_of(raw)@.done <==> raw@.done != 0,
        task_of(raw)@.creation_date == raw@.creation_date,
        task_of(raw)@.modification_date == raw@.modification_date,
{
}

impl From<TaskDb> for Task {
    fn from(raw: TaskDb) -> (task: Self)
        ensures
            task == task_of(raw),
            task@ == raw@.served(),
    {
        Task {
            id: raw.id,
            content: raw.content,
            done: raw.done != 0,
            creation_date: raw.creation_date,
            modification_date: raw.modification_date,
        }
    }
}

impl vstd::std_specs::convert::FromSpecImpl<TaskDb> for Task {
    open spec fn obeys_from_spec() -> bool {
        true
    }

    open spec fn from_spec(raw: TaskDb) -> Task {
        task_of(raw)
    }
}

/// The body of a request that creates a task.
#[derive(Debug, Clone)]
pub struct TaskRequest {
    pub content: String,
    pub context_id: Option<i32>,
    pub creation_date: Option<String>,
    pub modification_date: Option<String>,
}

/// The body of a request that changes a task.
#[derive(Debug, Clone)]
pub struct TaskPutRequest {
    pub content: Option<String>,
    pub done: Option<bool>,
}

/// The query of a request that lists tasks.
#[derive(Debug)]
pub struct TaskGetRequest {
    pub active: Option<bool>,
    pub context_id: Option<i32>,
}

/// The query that says whether ids in a path are positions in the active
/// context rather than task ids.
#[derive(Debug)]
pub struct IndexQuery {
    pub index: Option<bool>,
}

/// A context with all its tasks, as served.
#[derive(Debug)]
pub struct FullContext {
    pub id: i32,
    pub name: String,
    pub active: bool,
    pub tasks: Vec<Task>,
}

/// The abstract value of a served context with its tasks.
pub struct FullContextView {
    pub id: i32,
    pub name: Seq<char>,
    pub active: bool,
    pub tasks: Seq<Task>,
}

impl View for FullContext {
    type V = FullContextView;

    open spec fn view(&self) -> FullContextView {
        FullContextView { id: self.id, name: self.name@, active: self.active, tasks: self.tasks@ }
    }
}

/// A context with all its tasks, as stored.
#[derive(Debug)]
pub struct FullContextDb {
    pub id: i32,
    pub name: String,
    pub active: i32,
    pub tasks: Vec<TaskDb>,
}

/// The served form of a stored context with its tasks: `active` read as "not
/// zero", each task converted, in the same order.
pub open spec fn served_full(raw: FullContextDb) -> FullContextView {
    FullContextView {
        id: raw.id,
        name: raw.name@,
        active: raw.active != 0,
        tasks: raw.tasks@.map_values(|t: TaskDb| task_of(t)),
    }
}

/// Serving a stored context with tasks keeps its id, name and tasks, in
/// order, each task served on its own, and reads its flag as active exactly
/// when it is not zero.
pub proof fn law_full_context_served_keeps_fields(raw: FullContextDb)
    ensures
        served_full(raw).id == raw.id,
        served_full(raw).name == raw.name@,
        served_full(raw).active <==> raw.active != 0,
        served_full(raw).tasks.len() == raw.tasks@.len(),
        forall|i: int|
            0 <= i < raw.tasks@.len() ==> (#[trigger] served_full(raw).tasks[i])@ == raw.tasks@[i]@.served(),
{
}

impl From<FullContextDb> for FullContext {
    fn from(raw: FullContextDb) -> (full: Self)
        ensures
            full@ == served_full(raw),
            full.name == raw.name,
    {
        let ghost raw_tasks = raw.tasks@;
        let mut tasks: Vec<Task> = Vec::new();
        for t in it: raw.tasks.into_iter()
            invariant
                it.seq() == raw_tasks,
                tasks@ == raw_tasks.take(it.index()).map_values(|t: TaskDb| task_of(t)),
        {
            assert(raw_tasks.take(it.index() + 1) == raw_tasks.take(it.index()).push(t));
            tasks.push(Task::from(t));
        }
        assert(raw_tasks.take(raw_tasks.len() as int) == raw_tasks);
        FullContext { id: raw.id, name: raw.name, active: raw.active != 0, tasks }
    }
}

/// Verus sees a vector only through its sequence of elements, so `from_spec`
/// names some vector with the converted tasks, not the one that `from` builds;
/// the contract callers use is the `ensures` of `from` itself.
impl vstd::std_specs::convert::FromSpecImpl<FullContextDb> for FullContext {
    open spec fn obeys_from_spec() -> bool {
        false
    }

    open spec fn from_spec(raw: FullContextDb) -> FullContext {
        FullContext {
            id: raw.id,
            name: raw.name,
            active: raw.active != 0,
            tasks: choose|tasks: Vec<Task>| #[trigger] tasks@ == raw.tasks@.map_values(|t: TaskDb| task_of(t)),
        }
    }
}

} // verus!

//! The SQL texts that the task handlers build from a request.
use vstd::prelude::*;
use crate::structs::{TaskPutRequest, TaskRequest};
use crate::text::{decimal, push_decimal};

verus! {

/// The `content = '...'` part of a task update, empty when the content is
/// not changed.
pub open spec fn content_clause(content: Option<String>) -> Seq<char> {
    match content {
        Some(c) => "content = '"@ + c@ + "'"@,
        None => Seq::empty(),
    }
}

/// The `done = ...` part of a task update, empty when the flag is not
/// changed.
pub open spec fn done_clause(done: Option<bool>) -> Seq<char> {
    match done {
        Some(true) => "done = true"@,
        Some(false) => "done = false"@,
        None => Seq::empty(),
    }
}

/// The update of one task (its id is the parameter `$1`), with the parts
/// laid out on lines of their own, as written.
pub open spec fn update_sql(put: TaskPutRequest) -> Seq<char> {
    "\n        UPDATE task\n        SET \n        "@ + content_clause(put.content) + "\n        "@
        + done_clause(put.done) + "\n        WHERE id = $1\n        RETURNING *;\n        "@
}

/// A stored date of a new task: the one given, or `date`.
pub open spec fn date_or(given: Option<String>, date: Seq<char>) -> Seq<char> {
    match given {
        Some(d) => d@,
        None => date,
    }
}

/// The row of one new task in a batch insertion:
/// `('content', context_id, 'creation', 'modification')`.
pub open spec fn batch_row(t: TaskRequest, date: Seq<char>) -> Seq<char> {
    "('"@ + t.content@ + "', "@ + decimal(t.context_id.unwrap() as int) + ", '"@ + date_or(
        t.creation_date,
        date,
    ) + "', '"@ + date_or(t.modification_date, date) + "')"@
}

/// The rows of a batch, separated by `", "`.
pub open spec fn batch_rows(ts: Seq<TaskRequest>, date: Seq<char>) -> Seq<char>
    decreases ts.len(),
{
    if ts.len() == 0 {
        Seq::empty()
    } else if ts.len() == 1 {
        batch_row(ts[0], date)
    } else {
        batch_rows(ts.drop_last(), date) + ", "@ + batch_row(ts.last(), date)
    }
}

/// The insertion of a batch of tasks, the dates missing from a task being
/// `date`.
pub open spec fn batch_insert_sql(ts: Seq<TaskRequest>, date: Seq<char>) -> Seq<char> {
    "INSERT INTO task (content, context_id, creation_date, modification_date) VALUES "@
        + batch_rows(ts, date)
}

/// Every task of the batch names its context.
pub open spec fn all_have_context(ts: Seq<TaskRequest>) -> bool {
    forall|i: int| 0 <= i < ts.len() ==> (#[trigger] ts[i]).context_id is Some
}

/// Whether `s` ends with `x`.
pub open spec fn ends_with(s: Seq<char>, x: Seq<char>) -> bool {
    x.len() <= s.len() && s.subrange(s.len() - x.len(), s.len() as int) == x
}

/// The end of a task update, after the fields it sets.
pub open spec fn update_tail() -> Seq<char> {
    "\n        WHERE id = $1\n        RETURNING *;\n        "@
}

/// A task update sets the done flag to the requested value: the last field
/// it sets, just before the `WHERE` of the id, is `done = true` when the
/// request asks for a done task and `done = false` when it asks for an open
/// one; with no flag requested, no field follows the content.  Asking for
/// new content sets `content = '...'` with exactly that text, right after
/// `SET`, and a request that keeps the content sets none.
pub proof fn law_update_sets_requested_fields(put: TaskPutRequest)
    ensures
        put.done == Some(true) ==> ends_with(update_sql(put), "done = true"@ + update_tail()),
        put.done == Some(false) ==> ends_with(update_sql(put), "done = false"@ + update_tail()),
        put.done is None ==> ends_with(update_sql(put), "\n        "@ + update_tail()),
        ({
            let head = "\n        UPDATE task\n        SET \n        "@;
            let sql = update_sql(put);
            &&& put.content matches Some(c) ==> sql.subrange(
                head.len() as int,
                head.len() + ("content = '"@ + c@ + "'"@).len() as int,
            ) == "content = '"@ + c@ + "'"@
            &&& put.content is None ==> sql.subrange(
                head.len() as int,
                head.len() + "\n        "@.len() as int,
            ) == "\n        "@
            &&& sql.subrange(0, head.len() as int) == head
        }),
{
    let head = "\n        UPDATE task\n        SET \n        "@;
    let sql = update_sql(put);
    let mid = head + content_clause(put.content) + "\n        "@;
    assert(sql == mid + done_clause(put.done) + update_tail());
    let x = done_clause(put.done) + update_tail();
    assert(sql =~= mid + x);
    assert(sql.subrange(sql.len() - x.len(), sql.len() as int) =~= x);
    if put.done is None {
        assert(x =~= update_tail());
        let y = "\n        "@ + update_tail();
        assert(sql =~= head + content_clause(put.content) + y);
        assert(sql.subrange(sql.len() - y.len(), sql.len() as int) =~= y);
    }
    assert(sql =~= head + (content_clause(put.content) + "\n        "@ + x));
    assert(sql.subrange(0, head.len() as int) =~= head);
    match put.content {
        Some(c) => {
            let cc = "content = '"@ + c@ + "'"@;
            assert(sql =~= head + cc + ("\n        "@ + x));
            assert(sql.subrange(head.len() as int, head.len() + cc.len() as int) =~= cc);
        },
        None => {
            assert(sql =~= head + "\n        "@ + x);
            assert(sql.subrange(head.len() as int, head.len() + "\n        "@.len() as int) =~= "\n        "@);
        },
    }
}

/// The start of every batch insertion, up to its first row.
pub open spec fn batch_head() -> Seq<char> {
    "INSERT INTO task (content, context_id, creation_date, modification_date) VALUES "@
}

/// A batch insertion lists one row per task, in order, separated by `", "`:
/// an empty batch is the bare head, a batch of one task is the head and its
/// row, and adding a task to a batch adds `", "` and its row at the end.  A
/// task's row holds its content, the decimal id of its context, and its
/// creation and modification dates, each the one the task gives or else
/// `date`.
pub proof fn law_batch_rows_in_order(ts: Seq<TaskRequest>, t: TaskRequest, date: Seq<char>)
    ensures
        batch_insert_sql(Seq::empty(), date) == batch_head(),
        batch_insert_sql(seq![t], date) == batch_head() + batch_row(t, date),
        ts.len() > 0 ==> batch_insert_sql(ts.push(t), date) == batch_insert_sql(ts, date) + ", "@
            + batch_row(t, date),
        batch_row(t, date) == "('"@ + t.content@ + "', "@ + decimal(t.context_id.unwrap() as int)
            + ", '"@ + (match t.creation_date {
            Some(d) => d@,
            None => date,
        }) + "', '"@ + (match t.modification_date {
            Some(d) => d@,
            None => date,
        }) + "')"@,
{
    let pushed = ts.push(t);
    assert(pushed.drop_last() =~= ts);
    assert(seq![t].len() == 1);
    assert(batch_insert_sql(Seq::empty(), date) =~= batch_head());
    if ts.len() > 0 {
        assert(batch_rows(pushed, date) == batch_rows(ts, date) + ", "@ + batch_row(t, date));
        assert(batch_insert_sql(pushed, date) =~= batch_insert_sql(ts, date) + ", "@ + batch_row(
            t,
            date,
        ));
    }
}

/// Builds the update of one task from the fields the request changes.
pub fn update_task_sql(put: &TaskPutRequest) -> (sql: String)
    ensures
        sql@ == update_sql(*put),
{
    let mut sql = String::new();
    sql.append("\n        UPDATE task\n        SET \n        ");
    let ghost head = sql@;
    match &put.content {
        Some(c) => {
            sql.append("content = '");
            sql.append(c.as_str());
            sql.append("'");
        },
        None => {},
    }
    assert(sql@ =~= head + content_clause(put.content));
    sql.append("\n        ");
    match put.done {
        Some(true) => {
            sql.append("done = true");
        },
        Some(false) => {
            sql.append("done = false");
        },
        None => {},
    }
    let ghost with_done = sql@;
    assert(with_done =~= head + content_clause(put.content) + "\n        "@ + done_clause(put.done));
    sql.append("\n        WHERE id = $1\n        RETURNING *;\n        ");
    assert(sql@ =~= update_sql(*put));
    sql
}

/// Appends the row of one new task.
fn push_batch_row(sql: &mut String, t: &TaskRequest, date: &str)
    requires
        t.context_id is Some,
    ensures
        final(sql)@ == old(sql)@ + batch_row(*t, date@),
{
    let ghost start = sql@;
    sql.append("('");
    sql.append(t.content.as_str());
    sql.append("', ");
    let context_id = match t.context_id {
        Some(c) => c,
        None => 0,
    };
    push_decimal(sql, context_id);
    sql.append(", '");
    match &t.creation_date {
        Some(d) => sql.append(d.as_str()),
        None => sql.append(date),
    }
    sql.append("', '");
    match &t.modification_date {
        Some(d) => sql.append(d.as_str()),
        None => sql.append(date),
    }
    sql.append("')");
    assert(sql@ =~= start + batch_row(*t, date@));
}

/// Builds the insertion of a batch of tasks, the dates a task leaves out
/// being `date`.
pub fn batch_insert_task_sql(ts: &Vec<TaskRequest>, date: &str) -> (sql: String)
    requires
        all_have_context(ts@),
    ensures
        sql@ == batch_insert_sql(ts@, date@),
{
    let mut sql = String::new();
    sql.append("INSERT INTO task (content, context_id, creation_date, modification_date) VALUES ");
    let ghost head = sql@;
    let n = ts.len();
    assert(ts@.take(0) =~= Seq::<TaskRequest>::empty());
    assert(head + batch_rows(ts@.take(0), date@) =~= head);
    for i in 0..n
        invariant
            n == ts@.len(),
            all_have_context(ts@),
            sql@ == head + batch_rows(ts@.take(i as int), date@),
    {
        let ghost before = sql@;
        let t = &ts[i];
        assert(ts@.take(i + 1).drop_last() =~= ts@.take(i as int));
        assert(ts@.take(i + 1).last() == ts@[i as int]);
        assert(t.context_id is Some);
        if i > 0 {
            sql.append(", ");
        }
        push_batch_row(&mut sql, t, date);
        if i == 0 {
            assert(ts@.take(1) =~= seq![ts@[0]]);
            assert(sql@ =~= head + batch_rows(ts@.take(i + 1), date@));
        } else {
            assert(sql@ =~= head + batch_rows(ts@.take(i + 1), date@));
        }
    }
    assert(ts@.take(n as int) =~= ts@);
    sql
}

} // verus!

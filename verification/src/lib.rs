//! The decision logic of a small task-board service: contexts (lists) that hold
//! tasks, one context being the active one.  The service's handlers are split
//! into verified steps: each step looks at a request or at the answer of one
//! database statement and decides the next statement or the response.
pub mod structs;
pub mod text;
pub mod indexes;
pub mod response;
pub mod exchange;
pub mod contexts;
pub mod task_sql;
mod clock;
pub mod tasks;
pub mod articles;
pub mod service;

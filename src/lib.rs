//! An in-memory task tracker: a store of tasks keyed by id, and the request
//! handlers that turn each request into one store operation and one response.

pub mod handlers;
pub mod laws;
pub mod store;
pub mod task;

pub use handlers::{
    create_task, create_task_with_id, delete_task, find_all, find_task_by_id, seeded_store,
    update_task, Body, Response, ID_LIMIT, STATUS_NOT_FOUND, STATUS_NO_CONTENT, STATUS_OK,
};
pub use store::TaskStore;
pub use task::{NewTask, Task};

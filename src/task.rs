use vstd::prelude::*;

verus! {

/// The abstract value of a task: its id, its text and its status.
pub struct TaskView {
    pub id: i32,
    pub description: Seq<char>,
    pub status: bool,
}

/// A task record. The id is assigned by the store's owner when the task is
/// created and never changes afterwards.
#[derive(Debug)]
pub struct Task {
    pub id: i32,
    pub description: String,
    pub status: bool,
}

/// What a client submits to create or update a task.
#[derive(Debug)]
pub struct NewTask {
    pub description: String,
    pub status: bool,
}

impl View for Task {
    type V = TaskView;

    open spec fn view(&self) -> TaskView {
        TaskView { id: self.id, description: self.description@, status: self.status }
    }
}

impl Task {
    pub fn new(id: i32, description: String, status: bool) -> (r: Task)
        ensures
            r@ == (TaskView { id, description: description@, status }),
    {
        Task { id, description, status }
    }

    /// A new task with the same id, description and status.
    pub fn copy(&self) -> (r: Task)
        ensures
            r@ == self@,
    {
        Task { id: self.id, description: self.description.clone(), status: self.status }
    }
}

impl NewTask {
    pub fn new(description: String, status: bool) -> (r: NewTask)
        ensures
            r.description@ == description@,
            r.status == status,
    {
        NewTask { description, status }
    }
}

} // verus!

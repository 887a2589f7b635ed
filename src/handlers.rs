use rand::Rng;
use vstd::prelude::*;

use crate::store::TaskStore;
use crate::task::{NewTask, Task, TaskView};

verus! {

/// The request succeeded and the body holds its result.
pub const STATUS_OK: u16 = 200;

/// The request succeeded and there is nothing to send back.
pub const STATUS_NO_CONTENT: u16 = 204;

/// No task has the requested id.
pub const STATUS_NOT_FOUND: u16 = 404;

/// Generated ids are drawn from `0..ID_LIMIT`.
pub const ID_LIMIT: i32 = 1000;

/// The body of a response.
#[derive(Debug)]
pub enum Body {
    Empty,
    One(Task),
    Many(Vec<Task>),
    Message(String),
}

/// A response: a status code and a body.
#[derive(Debug)]
pub struct Response {
    pub status: u16,
    pub body: Body,
}

/// The abstract value of a response body.
pub enum BodyView {
    Empty,
    One(TaskView),
    Many(Seq<TaskView>),
    Message(Seq<char>),
}

/// The abstract value of a response.
pub struct ResponseView {
    pub status: u16,
    pub body: BodyView,
}

impl View for Body {
    type V = BodyView;

    open spec fn view(&self) -> BodyView {
        match self {
            Body::Empty => BodyView::Empty,
            Body::One(t) => BodyView::One(t@),
            Body::Many(v) => BodyView::Many(v@.map_values(|t: Task| t@)),
            Body::Message(m) => BodyView::Message(m@),
        }
    }
}

impl View for Response {
    type V = ResponseView;

    open spec fn view(&self) -> ResponseView {
        ResponseView { status: self.status, body: self.body@ }
    }
}

/// The message sent when no task has the requested id.
pub open spec fn not_found_message() -> Seq<char> {
    "task not found"@
}

/// The message sent when a listing finds the store empty.
pub open spec fn empty_message() -> Seq<char> {
    "no tasks registered"@
}

/// The task value that a create or an update with these fields produces.
pub open spec fn task_value(id: i32, description: Seq<char>, status: bool) -> TaskView {
    TaskView { id, description, status }
}

/// The store after a task with these fields is created under `id`: a task
/// already under `id` is replaced.
pub open spec fn created(
    m: Map<i32, TaskView>,
    id: i32,
    description: Seq<char>,
    status: bool,
) -> Map<i32, TaskView> {
    m.insert(id, task_value(id, description, status))
}

/// The response to fetching `id`.
pub open spec fn find_response(m: Map<i32, TaskView>, id: i32) -> ResponseView {
    if m.contains_key(id) {
        ResponseView { status: STATUS_OK, body: BodyView::One(m[id]) }
    } else {
        ResponseView { status: STATUS_NOT_FOUND, body: BodyView::Message(not_found_message()) }
    }
}

/// `s` holds every task of `m` exactly once, in some order.
pub open spec fn lists_all(m: Map<i32, TaskView>, s: Seq<TaskView>) -> bool {
    &&& s.len() == m.dom().len()
    &&& forall|i: int| 0 <= i < s.len() ==> #[trigger] m.contains_key(s[i].id) && m[s[i].id] == s[i]
    &&& forall|i: int, j: int| 0 <= i < j < s.len() ==> s[i].id != s[j].id
}

/// `r` is a valid response to listing `m`: the message for an empty store,
/// else every task once.
pub open spec fn is_listing(m: Map<i32, TaskView>, r: ResponseView) -> bool {
    &&& r.status == STATUS_OK
    &&& if m.is_empty() {
        r.body == BodyView::Message(empty_message())
    } else {
        r.body matches BodyView::Many(s) && lists_all(m, s)
    }
}

/// The store after updating `id`: unchanged when there is no such task.
pub open spec fn updated(
    m: Map<i32, TaskView>,
    id: i32,
    description: Seq<char>,
    status: bool,
) -> Map<i32, TaskView> {
    if m.contains_key(id) {
        m.insert(id, task_value(id, description, status))
    } else {
        m
    }
}

/// The response to updating `id`.
pub open spec fn update_response(m: Map<i32, TaskView>, id: i32) -> ResponseView {
    if m.contains_key(id) {
        ResponseView { status: STATUS_NO_CONTENT, body: BodyView::Empty }
    } else {
        ResponseView { status: STATUS_NOT_FOUND, body: BodyView::Empty }
    }
}

/// The store after deleting `id`.
pub open spec fn deleted(m: Map<i32, TaskView>, id: i32) -> Map<i32, TaskView> {
    m.remove(id)
}

/// The response to deleting `id`.
pub open spec fn delete_response(m: Map<i32, TaskView>, id: i32) -> ResponseView {
    if m.contains_key(id) {
        ResponseView { status: STATUS_OK, body: BodyView::Empty }
    } else {
        ResponseView { status: STATUS_NOT_FOUND, body: BodyView::Empty }
    }
}

/// Relies on rand's `thread_rng().gen_range(low..high)`: a value drawn from
/// `low..high`. It panics only on an empty range.
#[verifier::external_body]
fn random_in_range(low: i32, high: i32) -> (r: i32)
    requires
        low < high,
    ensures
        low <= r < high,
{
    rand::thread_rng().gen_range(low..high)
}

/// The contents of a freshly started service: two example tasks, neither done.
pub open spec fn seed() -> Map<i32, TaskView> {
    map![
        1i32 => task_value(1, "wash clothes"@, false),
        2i32 => task_value(2, "sweep house"@, false),
    ]
}

/// A store holding the two example tasks of a freshly started service.
pub fn seeded_store() -> (r: TaskStore)
    ensures
        r.wf(),
        r.view() == seed(),
{
    let mut store = TaskStore::new();
    store.insert(Task::new(1, String::from_str("wash clothes"), false));
    store.insert(Task::new(2, String::from_str("sweep house"), false));
    proof {
        assert(store.view() =~= seed());
    }
    store
}

/// Creates a task from `new_task` under the given id and files it, replacing
/// any task already under that id.
pub fn create_task_with_id(store: &mut TaskStore, new_task: NewTask, id: i32) -> (r: Response)
    requires
        old(store).wf(),
    ensures
        final(store).wf(),
        final(store).view() == created(
            old(store).view(),
            id,
            new_task.description@,
            new_task.status,
        ),
        r@ == (ResponseView {
            status: STATUS_OK,
            body: BodyView::One(task_value(id, new_task.description@, new_task.status)),
        }),
{
    let task = Task::new(id, new_task.description, new_task.status);
    store.insert(task.copy());
    Response { status: STATUS_OK, body: Body::One(task) }
}

/// Creates a task from `new_task` under an id drawn at random from
/// `0..ID_LIMIT`. The id is not checked against the ids in use: a task
/// already under it is replaced.
pub fn create_task(store: &mut TaskStore, new_task: NewTask) -> (r: Response)
    requires
        old(store).wf(),
    ensures
        final(store).wf(),
        exists|id: i32|
            0 <= id < ID_LIMIT && final(store).view() == created(
                old(store).view(),
                id,
                new_task.description@,
                new_task.status,
            ) && r@ == (ResponseView {
                status: STATUS_OK,
                body: BodyView::One(task_value(id, new_task.description@, new_task.status)),
            }),
{
    let id = random_in_range(0, ID_LIMIT);
    create_task_with_id(store, new_task, id)
}

/// Fetches the task under `id`.
pub fn find_task_by_id(store: &TaskStore, id: i32) -> (r: Response)
    requires
        store.wf(),
    ensures
        r@ == find_response(store.view(), id),
{
    match store.get(id) {
        Some(t) => Response { status: STATUS_OK, body: Body::One(t) },
        None => Response {
            status: STATUS_NOT_FOUND,
            body: Body::Message(String::from_str("task not found")),
        },
    }
}

/// Lists every task, or sends a message when there is none.
pub fn find_all(store: &TaskStore) -> (r: Response)
    requires
        store.wf(),
    ensures
        is_listing(store.view(), r@),
{
    let tasks = store.values();
    if tasks.len() == 0 {
        proof {
            store.view().dom().lemma_len0_is_empty();
        }
        Response { status: STATUS_OK, body: Body::Message(String::from_str("no tasks registered")) }
    } else {
        let r = Response { status: STATUS_OK, body: Body::Many(tasks) };
        proof {
            let s = tasks@.map_values(|t: Task| t@);
            assert(r.body@ == BodyView::Many(s));
            assert forall|i: int| 0 <= i < s.len() implies #[trigger] store.view().contains_key(
                s[i].id,
            ) && store.view()[s[i].id] == s[i] by {
                assert(s[i] == tasks[i]@);
            }
            assert forall|i: int, j: int| 0 <= i < j < s.len() implies s[i].id != s[j].id by {
                assert(s[i] == tasks[i]@);
                assert(s[j] == tasks[j]@);
            }
            assert(!store.view().is_empty());
        }
        r
    }
}

/// Replaces the description and status of the task under `id`.
pub fn update_task(store: &mut TaskStore, id: i32, updated_task: NewTask) -> (r: Response)
    requires
        old(store).wf(),
    ensures
        final(store).wf(),
        final(store).view() == updated(
            old(store).view(),
            id,
            updated_task.description@,
            updated_task.status,
        ),
        r@ == update_response(old(store).view(), id),
{
    if store.update(id, updated_task.description, updated_task.status) {
        Response { status: STATUS_NO_CONTENT, body: Body::Empty }
    } else {
        Response { status: STATUS_NOT_FOUND, body: Body::Empty }
    }
}

/// Deletes the task under `id`.
pub fn delete_task(store: &mut TaskStore, id: i32) -> (r: Response)
    requires
        old(store).wf(),
    ensures
        final(store).wf(),
        final(store).view() == deleted(old(store).view(), id),
        r@ == delete_response(old(store).view(), id),
{
    if store.remove(id) {
        Response { status: STATUS_OK, body: Body::Empty }
    } else {
        Response { status: STATUS_NOT_FOUND, body: Body::Empty }
    }
}

} // verus!

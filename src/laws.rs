use vstd::prelude::*;

use crate::handlers::{
    created, delete_response, deleted, find_response, task_value, update_response, updated,
    BodyView, ResponseView, STATUS_NOT_FOUND, STATUS_OK,
};
use crate::task::TaskView;

verus! {

/// A task that has just been created is found under its id, with the fields
/// it was created with.
pub proof fn created_task_is_found(
    m: Map<i32, TaskView>,
    id: i32,
    description: Seq<char>,
    status: bool,
)
    ensures
        find_response(created(m, id, description, status), id) == (ResponseView {
            status: STATUS_OK,
            body: BodyView::One(task_value(id, description, status)),
        }),
{
}

/// Deleting an id that is not in the store reports not-found and leaves the
/// store as it was, so every later attempt reports not-found too.
pub proof fn delete_of_missing_id_is_idempotent(m: Map<i32, TaskView>, id: i32)
    requires
        !m.contains_key(id),
    ensures
        delete_response(m, id).status == STATUS_NOT_FOUND,
        deleted(m, id) == m,
        delete_response(deleted(m, id), id).status == STATUS_NOT_FOUND,
{
    assert(m.remove(id) =~= m);
}

/// After any delete, deleting the same id again reports not-found.
pub proof fn second_delete_is_not_found(m: Map<i32, TaskView>, id: i32)
    ensures
        delete_response(deleted(m, id), id).status == STATUS_NOT_FOUND,
{
}

/// Updating an id that is not in the store reports not-found and creates no
/// task under it.
pub proof fn update_of_missing_id_creates_nothing(
    m: Map<i32, TaskView>,
    id: i32,
    description: Seq<char>,
    status: bool,
)
    requires
        !m.contains_key(id),
    ensures
        update_response(m, id).status == STATUS_NOT_FOUND,
        updated(m, id, description, status) == m,
        !updated(m, id, description, status).contains_key(id),
{
}

/// Updating an existing id replaces exactly its description and status: the
/// id is kept, a later fetch sees the new values, and every other task is
/// untouched.
pub proof fn update_of_existing_id_replaces_fields(
    m: Map<i32, TaskView>,
    id: i32,
    description: Seq<char>,
    status: bool,
)
    requires
        m.contains_key(id),
    ensures
        ({
            let after = updated(m, id, description, status);
            &&& after.dom() == m.dom()
            &&& after[id].id == id
            &&& after[id].description == description
            &&& after[id].status == status
            &&& find_response(after, id) == (ResponseView {
                status: STATUS_OK,
                body: BodyView::One(task_value(id, description, status)),
            })
            &&& forall|k: i32| k != id && #[trigger] m.contains_key(k) ==> after[k] == m[k]
        }),
{
    assert(updated(m, id, description, status).dom() =~= m.dom());
}

/// One create: the id it drew, and the fields submitted.
pub struct CreateOp {
    pub id: i32,
    pub description: Seq<char>,
    pub status: bool,
}

/// The store after the creates in `ops` are applied to `m` one after another,
/// in the order the store's lock admitted them.
pub open spec fn apply_creates(m: Map<i32, TaskView>, ops: Seq<CreateOp>) -> Map<i32, TaskView>
    decreases ops.len(),
{
    if ops.len() == 0 {
        m
    } else {
        let last = ops.last();
        created(apply_creates(m, ops.drop_last()), last.id, last.description, last.status)
    }
}

/// Some create in `ops` drew `id`.
pub open spec fn drew(ops: Seq<CreateOp>, id: i32) -> bool {
    exists|i: int| 0 <= i < ops.len() && #[trigger] ops[i].id == id
}

/// An id is in the store after the creates in `ops` exactly when it was
/// there before or one of them drew it.
proof fn creates_keep_ids(m: Map<i32, TaskView>, ops: Seq<CreateOp>, k: i32)
    ensures
        apply_creates(m, ops).contains_key(k) <==> (m.contains_key(k) || drew(ops, k)),
    decreases ops.len(),
{
    if ops.len() > 0 {
        let init = ops.drop_last();
        creates_keep_ids(m, init, k);
        if drew(ops, k) && ops.last().id != k {
            let i = choose|i: int| 0 <= i < ops.len() && #[trigger] ops[i].id == k;
            assert(init[i].id == k);
        }
        if drew(init, k) {
            let i = choose|i: int| 0 <= i < init.len() && #[trigger] init[i].id == k;
            assert(ops[i].id == k);
        }
    }
}

/// A task under an id that no create in `ops` drew is left as it was.
proof fn creates_keep_other_tasks(m: Map<i32, TaskView>, ops: Seq<CreateOp>, k: i32)
    requires
        m.contains_key(k),
        !drew(ops, k),
    ensures
        apply_creates(m, ops)[k] == m[k],
    decreases ops.len(),
{
    if ops.len() > 0 {
        let init = ops.drop_last();
        assert(ops[ops.len() - 1].id != k);
        assert(!drew(init, k)) by {
            if drew(init, k) {
                let i = choose|i: int| 0 <= i < init.len() && #[trigger] init[i].id == k;
                assert(ops[i].id == k);
            }
        }
        creates_keep_other_tasks(m, init, k);
    }
}

/// The task under the id that the `i`-th create drew, where no later create
/// drew it again, is the one that create submitted.
proof fn last_create_wins(m: Map<i32, TaskView>, ops: Seq<CreateOp>, i: int)
    requires
        0 <= i < ops.len(),
        forall|j: int| i < j < ops.len() ==> (#[trigger] ops[j]).id != ops[i].id,
    ensures
        apply_creates(m, ops)[ops[i].id] == task_value(ops[i].id, ops[i].description, ops[i].status),
    decreases ops.len(),
{
    let n = ops.len() - 1;
    if i < n {
        let init = ops.drop_last();
        assert(ops[n].id != ops[i].id);
        assert(init[i] == ops[i]);
        assert forall|j: int| i < j < init.len() implies (#[trigger] init[j]).id != init[i].id by {
            assert(init[j] == ops[j]);
        }
        last_create_wins(m, init, i);
    }
}

/// Creates applied in any serial order lose nothing and invent nothing:
/// after them, an id is in the store exactly when it was there before or
/// some create drew it. The task under an id that a create drew is the one
/// that the last create to draw it submitted, so where two creates drew the
/// same id the later one wins; every other task is as it was.
pub proof fn serialized_creates_keep_every_insert(m: Map<i32, TaskView>, ops: Seq<CreateOp>)
    ensures
        forall|k: i32|
            #[trigger] apply_creates(m, ops).contains_key(k) <==> (m.contains_key(k) || drew(ops, k)),
        forall|k: i32|
            #[trigger] m.contains_key(k) && !drew(ops, k) ==> apply_creates(m, ops)[k] == m[k],
        forall|i: int|
            #![trigger ops[i]]
            0 <= i < ops.len() && (forall|j: int|
                i < j < ops.len() ==> (#[trigger] ops[j]).id != ops[i].id) ==> apply_creates(
                m,
                ops,
            )[ops[i].id] == task_value(ops[i].id, ops[i].description, ops[i].status),
{
    assert forall|k: i32|
        #[trigger] apply_creates(m, ops).contains_key(k) <==> (m.contains_key(k) || drew(ops, k)) by {
        creates_keep_ids(m, ops, k);
    }
    assert forall|k: i32| #[trigger] m.contains_key(k) && !drew(ops, k) implies apply_creates(
        m,
        ops,
    )[k] == m[k] by {
        creates_keep_other_tasks(m, ops, k);
    }
    assert forall|i: int|
        #![trigger ops[i]]
        0 <= i < ops.len() && (forall|j: int|
            i < j < ops.len() ==> (#[trigger] ops[j]).id != ops[i].id) implies apply_creates(
        m,
        ops,
    )[ops[i].id] == task_value(ops[i].id, ops[i].description, ops[i].status) by {
        last_create_wins(m, ops, i);
    }
}

} // verus!

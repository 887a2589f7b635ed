use std::collections::HashMap;
use vstd::prelude::*;
use vstd::std_specs::iter::IteratorSpec;

use crate::task::{Task, TaskView};

verus! {

broadcast use vstd::std_specs::hash::group_hash_axioms;

/// The authoritative set of tasks, keyed by id.
pub struct TaskStore {
    tasks: HashMap<i32, Task>,
}

impl TaskStore {
    /// Every task is filed under its own id.
    pub closed spec fn wf(&self) -> bool {
        forall|k: i32| #[trigger] self.tasks@.contains_key(k) ==> self.tasks@[k].id == k
    }

    /// The store as a map from id to task value.
    pub closed spec fn view(&self) -> Map<i32, TaskView> {
        self.tasks@.map_values(|t: Task| t@)
    }

    /// In a well-formed store every task is filed under its own id.
    pub proof fn lemma_ids_match_keys(&self)
        requires
            self.wf(),
        ensures
            forall|k: i32| #[trigger] self.view().contains_key(k) ==> self.view()[k].id == k,
    {
    }

    /// An empty store.
    pub fn new() -> (r: TaskStore)
        ensures
            r.wf(),
            r.view() == Map::<i32, TaskView>::empty(),
    {
        let r = TaskStore { tasks: HashMap::new() };
        assert(r.view() =~= Map::<i32, TaskView>::empty());
        r
    }

    /// Files `task` under its id, replacing any task already there.
    pub fn insert(&mut self, task: Task)
        requires
            old(self).wf(),
        ensures
            final(self).wf(),
            final(self).view() == old(self).view().insert(task.id, task@),
    {
        let ghost t = task@;
        self.tasks.insert(task.id, task);
        assert(self.view() =~= old(self).view().insert(t.id, t));
    }

    /// A copy of the task filed under `id`, if there is one.
    pub fn get(&self, id: i32) -> (r: Option<Task>)
        requires
            self.wf(),
        ensures
            match r {
                Some(t) => self.view().contains_key(id) && t@ == self.view()[id],
                None => !self.view().contains_key(id),
            },
    {
        match self.tasks.get(&id) {
            Some(t) => Some(t.copy()),
            None => None,
        }
    }

    /// Replaces the description and status of the task filed under `id`,
    /// and reports whether there was one. The store is unchanged when there
    /// was none.
    pub fn update(&mut self, id: i32, description: String, status: bool) -> (found: bool)
        requires
            old(self).wf(),
        ensures
            final(self).wf(),
            found == old(self).view().contains_key(id),
            found ==> final(self).view() == old(self).view().insert(
                id,
                TaskView { id, description: description@, status },
            ),
            !found ==> final(self).view() == old(self).view(),
    {
        if self.tasks.contains_key(&id) {
            let ghost d = description@;
            self.tasks.insert(id, Task { id, description, status });
            assert(self.view() =~= old(self).view().insert(id, TaskView { id, description: d, status }));
            true
        } else {
            false
        }
    }

    /// Removes the task filed under `id`, and reports whether there was one.
    pub fn remove(&mut self, id: i32) -> (found: bool)
        requires
            old(self).wf(),
        ensures
            final(self).wf(),
            found == old(self).view().contains_key(id),
            final(self).view() == old(self).view().remove(id),
    {
        let r = self.tasks.remove(&id);
        assert(self.view() =~= old(self).view().remove(id));
        r.is_some()
    }

    /// A copy of every task in the store, each once, in no particular order.
    pub fn values(&self) -> (r: Vec<Task>)
        requires
            self.wf(),
        ensures
            self.view().dom().finite(),
            r.len() == self.view().dom().len(),
            forall|i: int|
                0 <= i < r.len() ==> self.view().contains_key(#[trigger] r[i]@.id)
                    && self.view()[r[i]@.id] == r[i]@,
            forall|i: int, j: int| 0 <= i < j < r.len() ==> r[i].id != r[j].id,
    {
        let mut out: Vec<Task> = Vec::new();
        for e in it: self.tasks.iter()
            invariant
                self.wf(),
                out.len() == it.index(),
                it.seq() == vstd::std_specs::hash::spec_hash_map_iter(&self.tasks).remaining(),
                forall|j: int| 0 <= j < out.len() ==> #[trigger] out[j]@ == (*it.seq()[j].1)@,
        {
            out.push(e.1.copy());
        }
        proof {
            let s = vstd::std_specs::hash::spec_hash_map_iter(&self.tasks).remaining();
            assert(self.view().dom() =~= self.tasks@.dom());
            assert(self.tasks@.dom().finite());
            assert forall|i: int| 0 <= i < out.len() implies self.view().contains_key(
                #[trigger] out[i]@.id,
            ) && self.view()[out[i]@.id] == out[i]@ by {
                assert(self.tasks@.contains_key(*s[i].0));
                assert(self.tasks@[*s[i].0] == *s[i].1);
            }
            assert forall|i: int, j: int| 0 <= i < j < out.len() implies out[i].id != out[j].id by {
                assert(self.tasks@.contains_key(*s[i].0));
                assert(self.tasks@.contains_key(*s[j].0));
                assert(self.tasks@[*s[i].0] == *s[i].1);
                assert(self.tasks@[*s[j].0] == *s[j].1);
                assert(s.no_duplicates());
                assert(out[i]@ == (*s[i].1)@);
                assert(out[j]@ == (*s[j].1)@);
                assert((*s[i].1).id == *s[i].0);
                assert(out[i].id == *s[i].0);
                assert(out[j].id == *s[j].0);
                if *s[i].0 == *s[j].0 {
                    assert(s[i] == s[j]);
                    assert(false);
                }
            }
        }
        out
    }
}

} // verus!

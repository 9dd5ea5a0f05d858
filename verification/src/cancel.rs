//! The cancellation registry: a guarded mapping from task id to a
//! cooperative stop handle, whose lock is the single serialization point
//! between inserting a new task and tearing down an existing scope.
//!
//! Exclusive access to the registry stands for holding that lock: every
//! operation here takes the registry by `&mut`, so an insert and a
//! scope teardown can never interleave. `guarded_insert` performs the
//! scope check and the insert in one such critical section, and refuses
//! the insert outright while a cancellation for the same chat scope is
//! in progress.

use vstd::prelude::*;

use crate::error::StoreError;
use crate::store::{InsertTask, TaskStore};

verus! {

/// A cooperative stop signal for one task. Delivering it to the task's
/// transfer loop is the unverified edge's part; between chunks the loop
/// observes it and aborts.
#[derive(Clone, Copy, Debug, PartialEq, Eq, Structural)]
pub struct CancelHandle {
    pub task_id: i64,
    pub chat_id: i64,
}

/// Guarded collection of in-flight cancellation handles, plus the chat
/// scopes currently being torn down.
pub struct CancelRegistry {
    handles: Vec<CancelHandle>,
    cancelling_chats: Vec<i64>,
}

impl CancelRegistry {
    /// The registered handles, in registration order.
    pub closed spec fn handles(self) -> Seq<CancelHandle> {
        self.handles@
    }

    /// The chat scopes a cancellation is in progress for.
    pub closed spec fn cancelling(self) -> Seq<i64> {
        self.cancelling_chats@
    }

    /// Registry validity: one handle per task id, one mark per scope.
    pub open spec fn wf(self) -> bool {
        &&& forall|i: int, j: int|
            0 <= i < j < self.handles().len() ==> (#[trigger] self.handles()[i]).task_id != (
            #[trigger] self.handles()[j]).task_id
        &&& forall|i: int, j: int|
            0 <= i < j < self.cancelling().len() ==> #[trigger] self.cancelling()[i]
                != #[trigger] self.cancelling()[j]
    }

    /// Whether a handle is registered for the task.
    pub open spec fn has_handle(self, task_id: i64) -> bool {
        exists|i: int|
            0 <= i < self.handles().len() && (#[trigger] self.handles()[i]).task_id == task_id
    }

    /// The index of the task's handle.
    pub open spec fn idx_of(self, task_id: i64) -> int {
        choose|i: int|
            0 <= i < self.handles().len() && (#[trigger] self.handles()[i]).task_id == task_id
    }

    /// The task's registered handle.
    pub open spec fn handle_for(self, task_id: i64) -> CancelHandle {
        self.handles()[self.idx_of(task_id)]
    }

    /// Whether a cancellation for the chat scope is in progress.
    pub open spec fn chat_cancelling(self, chat_id: i64) -> bool {
        exists|i: int| 0 <= i < self.cancelling().len() && #[trigger] self.cancelling()[i] == chat_id
    }

    /// All registered handles belong to tasks below the given id bound.
    pub open spec fn handles_below(self, bound: int) -> bool {
        forall|i: int| 0 <= i < self.handles().len() ==> (#[trigger] self.handles()[i]).task_id < bound
    }

    /// An empty registry.
    pub fn new() -> (r: CancelRegistry)
        ensures
            r.wf(),
            r.handles() == Seq::<CancelHandle>::empty(),
            r.cancelling() == Seq::<i64>::empty(),
    {
        CancelRegistry { handles: Vec::new(), cancelling_chats: Vec::new() }
    }

    /// Index of the task's handle, if registered.
    fn find(&self, task_id: i64) -> (r: Option<usize>)
        requires
            self.wf(),
        ensures
            match r {
                Some(k) => self.has_handle(task_id) && k as int == self.idx_of(task_id) && k
                    < self.handles().len() && self.handles()[k as int].task_id == task_id,
                None => !self.has_handle(task_id),
            },
    {
        let n = self.handles.len();
        let mut i: usize = 0;
        while i < n
            invariant
                self.wf(),
                n == self.handles().len(),
                i <= n,
                forall|k: int| 0 <= k < i ==> (#[trigger] self.handles()[k]).task_id != task_id,
            decreases n - i,
        {
            if self.handles[i].task_id == task_id {
                proof {
                    let c = self.idx_of(task_id);
                    assert(self.has_handle(task_id));
                    assert(0 <= c < self.handles().len() && self.handles()[c].task_id == task_id);
                    let ii = i as int;
                    if c != ii {
                        if c < ii {
                            assert(self.handles()[c].task_id != self.handles()[ii].task_id);
                        } else {
                            assert(self.handles()[ii].task_id != self.handles()[c].task_id);
                        }
                    }
                }
                return Some(i);
            }
            i += 1;
        }
        None
    }

    /// Registers a stop handle for an accepted task; its lifetime spans
    /// from here to the task's terminal status.
    pub fn register(&mut self, task_id: i64, chat_id: i64) -> (r: Result<CancelHandle, StoreError>)
        requires
            old(self).wf(),
        ensures
            final(self).wf(),
            final(self).cancelling() == old(self).cancelling(),
            r.is_ok() <==> !old(self).has_handle(task_id),
            match r {
                Ok(h) => {
                    &&& h == (CancelHandle { task_id, chat_id })
                    &&& final(self).handles() == old(self).handles().push(h)
                    &&& final(self).has_handle(task_id)
                },
                Err(e) => *final(self) == *old(self) && e == StoreError::HandleExists,
            },
    {
        match self.find(task_id) {
            Some(_) => Err(StoreError::HandleExists),
            None => {
                let h = CancelHandle { task_id, chat_id };
                self.handles.push(h);
                proof {
                    let before = old(self).handles();
                    let after = self.handles();
                    assert(after[before.len() as int].task_id == task_id);
                    assert forall|i: int, j: int|
                        0 <= i < j < after.len() implies (#[trigger] after[i]).task_id != (
                    #[trigger] after[j]).task_id by {
                        if j == before.len() as int {
                            assert(after[i] == before[i]);
                            if before[i].task_id == task_id {
                                assert(old(self).has_handle(task_id));
                            }
                        } else {
                            assert(after[i] == before[i]);
                            assert(after[j] == before[j]);
                        }
                    }
                    assert(forall|i: int, j: int|
                        0 <= i < j < self.handles().len() ==> (#[trigger] self.handles()[i]).task_id
                            != (#[trigger] self.handles()[j]).task_id);
                    assert(self.cancelling() == old(self).cancelling());
                    assert(forall|i: int, j: int|
                        0 <= i < j < self.cancelling().len() ==> #[trigger] self.cancelling()[i]
                            != #[trigger] self.cancelling()[j]);
                    assert(self.wf());
                }
                Ok(h)
            },
        }
    }

    /// Signals and removes the task's handle: the returned handle is the
    /// stop signal, which the caller delivers to the task's transfer
    /// loop. `None` when no handle is registered for the task.
    pub fn cancel(&mut self, task_id: i64) -> (r: Option<CancelHandle>)
        requires
            old(self).wf(),
        ensures
            final(self).wf(),
            final(self).cancelling() == old(self).cancelling(),
            r is Some <==> old(self).has_handle(task_id),
            match r {
                Some(h) => {
                    &&& h == old(self).handle_for(task_id)
                    &&& final(self).handles() == old(self).handles().remove(
                        old(self).idx_of(task_id),
                    )
                    &&& !final(self).has_handle(task_id)
                },
                None => *final(self) == *old(self),
            },
    {
        self.remove_entry(task_id)
    }

    /// Removes the task's handle without signalling anything, once the
    /// task has reached a terminal status. Returns whether a handle was
    /// registered.
    pub fn clear_on_terminal(&mut self, task_id: i64) -> (r: bool)
        requires
            old(self).wf(),
        ensures
            final(self).wf(),
            final(self).cancelling() == old(self).cancelling(),
            r <==> old(self).has_handle(task_id),
            r ==> final(self).handles() == old(self).handles().remove(old(self).idx_of(task_id))
                && !final(self).has_handle(task_id),
            !r ==> *final(self) == *old(self),
    {
        match self.remove_entry(task_id) {
            Some(_) => true,
            None => false,
        }
    }

    /// Shared removal behind `cancel` and `clear_on_terminal`.
    fn remove_entry(&mut self, task_id: i64) -> (r: Option<CancelHandle>)
        requires
            old(self).wf(),
        ensures
            final(self).wf(),
            final(self).cancelling() == old(self).cancelling(),
            r is Some <==> old(self).has_handle(task_id),
            match r {
                Some(h) => {
                    &&& h == old(self).handle_for(task_id)
                    &&& final(self).handles() == old(self).handles().remove(
                        old(self).idx_of(task_id),
                    )
                    &&& !final(self).has_handle(task_id)
                },
                None => *final(self) == *old(self),
            },
    {
        match self.find(task_id) {
            Some(k) => {
                let h = self.handles.remove(k);
                proof {
                    let before = old(self).handles();
                    let after = self.handles();
                    assert forall|i: int, j: int|
                        0 <= i < j < after.len() implies (#[trigger] after[i]).task_id != (
                    #[trigger] after[j]).task_id by {
                        let bi = if i < k as int {
                            i
                        } else {
                            i + 1
                        };
                        let bj = if j < k as int {
                            j
                        } else {
                            j + 1
                        };
                        assert(after[i] == before[bi]);
                        assert(after[j] == before[bj]);
                    }
                    assert forall|i: int|
                        0 <= i < after.len() implies (#[trigger] after[i]).task_id != task_id by {
                        if i < k as int {
                            assert(after[i] == before[i]);
                        } else {
                            assert(after[i] == before[i + 1]);
                        }
                    }
                    assert(self.cancelling() == old(self).cancelling());
                    assert(forall|i: int, j: int|
                        0 <= i < j < self.cancelling().len() ==> #[trigger] self.cancelling()[i]
                            != #[trigger] self.cancelling()[j]);
                    assert(self.wf());
                }
                Some(h)
            },
            None => None,
        }
    }

    /// Marks a chat scope as being torn down; from here until
    /// `end_chat_teardown`, no task for that scope can be inserted.
    pub fn begin_chat_teardown(&mut self, chat_id: i64)
        requires
            old(self).wf(),
        ensures
            final(self).wf(),
            final(self).handles() == old(self).handles(),
            final(self).chat_cancelling(chat_id),
            final(self).cancelling() == if old(self).chat_cancelling(chat_id) {
                old(self).cancelling()
            } else {
                old(self).cancelling().push(chat_id)
            },
    {
        if !self.is_chat_cancelling(chat_id) {
            self.cancelling_chats.push(chat_id);
            proof {
                let before = old(self).cancelling();
                let after = self.cancelling();
                assert(after[before.len() as int] == chat_id);
                assert forall|p: int, q: int|
                    0 <= p < q < after.len() implies #[trigger] after[p] != #[trigger] after[q] by {
                    if q == before.len() as int {
                        assert(after[p] == before[p]);
                        if before[p] == chat_id {
                            assert(old(self).chat_cancelling(chat_id));
                        }
                    } else {
                        assert(after[p] == before[p]);
                        assert(after[q] == before[q]);
                    }
                }
                assert(self.handles() == old(self).handles());
                assert(forall|i: int, j: int|
                    0 <= i < j < self.handles().len() ==> (#[trigger] self.handles()[i]).task_id
                        != (#[trigger] self.handles()[j]).task_id);
                assert(self.wf());
            }
        }
    }

    /// Unmarks a chat scope once its teardown is complete.
    pub fn end_chat_teardown(&mut self, chat_id: i64)
        requires
            old(self).wf(),
        ensures
            final(self).wf(),
            final(self).handles() == old(self).handles(),
            !final(self).chat_cancelling(chat_id),
            old(self).chat_cancelling(chat_id) ==> final(self).cancelling() == old(
                self,
            ).cancelling().remove(
                choose|i: int|
                    0 <= i < old(self).cancelling().len() && #[trigger] old(self).cancelling()[i]
                        == chat_id,
            ),
            !old(self).chat_cancelling(chat_id) ==> *final(self) == *old(self),
    {
        let n = self.cancelling_chats.len();
        let mut i: usize = 0;
        while i < n
            invariant
                self.wf(),
                *self == *old(self),
                n == self.cancelling().len(),
                i <= n,
                forall|k: int| 0 <= k < i ==> #[trigger] self.cancelling()[k] != chat_id,
            decreases n - i,
        {
            if self.cancelling_chats[i] == chat_id {
                proof {
                    let c = choose|j: int|
                        0 <= j < self.cancelling().len() && #[trigger] self.cancelling()[j]
                            == chat_id;
                    assert(self.chat_cancelling(chat_id));
                    let ii = i as int;
                    if c != ii {
                        if c < ii {
                            assert(self.cancelling()[c] != self.cancelling()[ii]);
                        } else {
                            assert(self.cancelling()[ii] != self.cancelling()[c]);
                        }
                    }
                }
                let ghost before = self.cancelling();
                self.cancelling_chats.remove(i);
                proof {
                    let after = self.cancelling();
                    assert forall|p: int, q: int|
                        0 <= p < q < after.len() implies #[trigger] after[p]
                        != #[trigger] after[q] by {
                        let bp = if p < i as int {
                            p
                        } else {
                            p + 1
                        };
                        let bq = if q < i as int {
                            q
                        } else {
                            q + 1
                        };
                        assert(after[p] == before[bp]);
                        assert(after[q] == before[bq]);
                    }
                    assert forall|p: int|
                        0 <= p < after.len() implies #[trigger] after[p] != chat_id by {
                        if p < i as int {
                            assert(after[p] == before[p]);
                        } else {
                            assert(after[p] == before[p + 1]);
                        }
                    }
                    assert(self.handles() == old(self).handles());
                    assert(forall|x: int, y: int|
                        0 <= x < y < self.handles().len() ==> (#[trigger] self.handles()[x]).task_id
                            != (#[trigger] self.handles()[y]).task_id);
                    assert(self.wf());
                }
                return ;
            }
            i += 1;
        }
    }

    /// Whether a cancellation for the chat scope is in progress.
    pub fn is_chat_cancelling(&self, chat_id: i64) -> (r: bool)
        requires
            self.wf(),
        ensures
            r == self.chat_cancelling(chat_id),
    {
        let n = self.cancelling_chats.len();
        let mut i: usize = 0;
        while i < n
            invariant
                n == self.cancelling().len(),
                i <= n,
                forall|k: int| 0 <= k < i ==> #[trigger] self.cancelling()[k] != chat_id,
            decreases n - i,
        {
            if self.cancelling_chats[i] == chat_id {
                return true;
            }
            i += 1;
        }
        false
    }

    /// Inserts a task and registers its stop handle in one critical
    /// section of the registry's lock, after checking that no
    /// cancellation for the task's chat scope is in progress. While one
    /// is, nothing is inserted: the task table and the registry are both
    /// left untouched, so an insert and a scope teardown can never
    /// interleave.
    pub fn guarded_insert(&mut self, store: &mut TaskStore, t: InsertTask) -> (r: Result<
        i64,
        StoreError,
    >)
        requires
            old(self).wf(),
            old(store).wf(),
            t.wf(),
            old(store).spec_next_id() < i64::MAX,
            old(self).handles_below(old(store).spec_next_id()),
        ensures
            final(self).wf(),
            final(store).wf(),
            final(self).handles_below(final(store).spec_next_id()),
            final(self).cancelling() == old(self).cancelling(),
            r.is_ok() <==> !old(self).chat_cancelling(t.chat_id),
            match r {
                Ok(id) => {
                    &&& id == old(store).spec_next_id()
                    &&& !old(store).contains_id(id)
                    &&& final(store).rows() == old(store).rows().push(t.to_model(id))
                    &&& final(store).spec_next_id() == old(store).spec_next_id() + 1
                    &&& final(self).handles() == old(self).handles().push(
                        (CancelHandle { task_id: id, chat_id: t.chat_id }),
                    )
                },
                Err(e) => {
                    &&& *final(store) == *old(store)
                    &&& *final(self) == *old(self)
                    &&& e == StoreError::ScopeCancelling
                },
            },
    {
        if self.is_chat_cancelling(t.chat_id) {
            return Err(StoreError::ScopeCancelling);
        }
        let chat_id = t.chat_id;
        let id = store.insert_task(t);
        let reg = self.register(id, chat_id);
        proof {
            assert(!old(self).has_handle(id));
        }
        match reg {
            Ok(_) => Ok(id),
            Err(_) => {
                proof {
                    assert(false);
                }
                Ok(id)
            },
        }
    }
}

} // verus!

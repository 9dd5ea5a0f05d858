//! The durable table of transfer tasks: insert, progress update, status
//! transition, lookup, delete. The table enforces the status state
//! machine and the monotonic progress rule itself: a refused operation
//! leaves the table unchanged, so no caller can drive a row backwards.
//!
//! The rows here are the persisted state; the unverified edge serializes
//! them unchanged, so a reloaded store resumes exactly where this one
//! stopped.

use vstd::prelude::*;

use crate::error::StoreError;
use crate::tasks::{can_step, is_terminal, CmdType, Model, TaskStatus};

verus! {

/// Fields of a new transfer task. The store assigns the id and the
/// initial `Waiting` status itself.
pub struct InsertTask {
    pub cmd_type: CmdType,
    pub filename: String,
    pub root_path: String,
    pub url: Option<String>,
    pub upload_url: String,
    pub current_length: i64,
    pub total_length: i64,
    pub chat_id: i64,
    pub chat_bot_hex: String,
    pub chat_user_hex: String,
    pub chat_origin_hex: Option<String>,
    pub message_id: i32,
    pub message_id_forward: Option<i32>,
    pub message_id_origin: Option<i32>,
}

impl InsertTask {
    /// Same validity as the row it becomes.
    pub open spec fn wf(self) -> bool {
        &&& 0 <= self.current_length <= self.total_length
        &&& (self.url is Some <==> self.cmd_type == CmdType::Url)
    }

    /// The row these fields become under a given id.
    pub open spec fn to_model(self, id: i64) -> Model {
        Model {
            id,
            cmd_type: self.cmd_type,
            filename: self.filename,
            root_path: self.root_path,
            url: self.url,
            upload_url: self.upload_url,
            current_length: self.current_length,
            total_length: self.total_length,
            chat_bot_hex: self.chat_bot_hex,
            chat_user_hex: self.chat_user_hex,
            chat_origin_hex: self.chat_origin_hex,
            message_id: self.message_id,
            message_id_forward: self.message_id_forward,
            message_id_origin: self.message_id_origin,
            status: TaskStatus::Waiting,
        }
    }
}

/// The ids of the rows with the given status, in table order.
pub open spec fn ids_with_status(s: Seq<Model>, st: TaskStatus) -> Seq<i64>
    decreases s.len(),
{
    if s.len() == 0 {
        Seq::empty()
    } else {
        ids_with_status(s.drop_last(), st) + if s.last().status == st {
            seq![s.last().id]
        } else {
            Seq::empty()
        }
    }
}

/// Durable table of transfer tasks with monotonically assigned ids.
pub struct TaskStore {
    tasks: Vec<Model>,
    next_id: i64,
}

impl TaskStore {
    /// The rows of the table, in insertion order.
    pub closed spec fn rows(self) -> Seq<Model> {
        self.tasks@
    }

    /// The id the next inserted task will receive.
    pub closed spec fn spec_next_id(self) -> int {
        self.next_id as int
    }

    /// Table validity: every row is valid, ids climb strictly in table
    /// order (so they are unique), and all sit below the next id.
    pub open spec fn wf(self) -> bool {
        &&& 1 <= self.spec_next_id()
        &&& forall|i: int| 0 <= i < self.rows().len() ==> (#[trigger] self.rows()[i]).wf()
        &&& forall|i: int|
            0 <= i < self.rows().len() ==> (#[trigger] self.rows()[i]).id < self.spec_next_id()
        &&& forall|i: int, j: int|
            0 <= i < j < self.rows().len() ==> (#[trigger] self.rows()[i]).id < (
            #[trigger] self.rows()[j]).id
    }

    /// Whether some row carries the given id.
    pub open spec fn contains_id(self, id: i64) -> bool {
        exists|i: int| 0 <= i < self.rows().len() && (#[trigger] self.rows()[i]).id == id
    }

    /// The index of the row carrying the given id.
    pub open spec fn idx_of(self, id: i64) -> int {
        choose|i: int| 0 <= i < self.rows().len() && (#[trigger] self.rows()[i]).id == id
    }

    /// The row carrying the given id.
    pub open spec fn task_for(self, id: i64) -> Model {
        self.rows()[self.idx_of(id)]
    }

    /// An empty table; ids start at 1.
    pub fn new() -> (r: TaskStore)
        ensures
            r.wf(),
            r.rows() == Seq::<Model>::empty(),
            r.spec_next_id() == 1,
    {
        TaskStore { tasks: Vec::new(), next_id: 1 }
    }

    /// Index of the row with the given id, if any.
    fn find(&self, id: i64) -> (r: Option<usize>)
        requires
            self.wf(),
        ensures
            match r {
                Some(k) => self.contains_id(id) && k as int == self.idx_of(id) && k
                    < self.rows().len() && self.rows()[k as int].id == id,
                None => !self.contains_id(id),
            },
    {
        let n = self.tasks.len();
        let mut i: usize = 0;
        while i < n
            invariant
                self.wf(),
                n == self.rows().len(),
                i <= n,
                forall|k: int| 0 <= k < i ==> (#[trigger] self.rows()[k]).id != id,
            decreases n - i,
        {
            if self.tasks[i].id == id {
                proof {
                    let c = self.idx_of(id);
                    assert(self.contains_id(id));
                    assert(0 <= c < self.rows().len() && self.rows()[c].id == id);
                    let ii = i as int;
                    if c < ii {
                        assert(self.rows()[c].id < self.rows()[ii].id);
                    } else if ii < c {
                        assert(self.rows()[ii].id < self.rows()[c].id);
                    }
                }
                return Some(i);
            }
            i += 1;
        }
        None
    }

    /// Creates a row with `status = Waiting` under a fresh id and
    /// returns that id. Ids are assigned monotonically, so the id of a
    /// deleted task is never reused and no task is double-submitted
    /// under an existing id.
    pub fn insert_task(&mut self, t: InsertTask) -> (r: i64)
        requires
            old(self).wf(),
            t.wf(),
            old(self).spec_next_id() < i64::MAX,
        ensures
            final(self).wf(),
            r == old(self).spec_next_id(),
            !old(self).contains_id(r),
            final(self).rows() == old(self).rows().push(t.to_model(r)),
            final(self).spec_next_id() == old(self).spec_next_id() + 1,
    {
        let id = self.next_id;
        self.tasks.push(t.to_model_exec(id));
        self.next_id = id + 1;
        id
    }

    /// The row with the given id, if any.
    pub fn get(&self, id: i64) -> (r: Option<&Model>)
        requires
            self.wf(),
        ensures
            match r {
                Some(m) => self.contains_id(id) && *m == self.task_for(id),
                None => !self.contains_id(id),
            },
    {
        match self.find(id) {
            Some(k) => Some(&self.tasks[k]),
            None => None,
        }
    }

    /// Records a new progress offset for a task. Progress never moves
    /// backwards, never exceeds the total, and a terminal task is never
    /// mutated; a refused update leaves the table unchanged.
    pub fn update_progress(&mut self, id: i64, current_length: i64) -> (r: Result<(), StoreError>)
        requires
            old(self).wf(),
        ensures
            final(self).wf(),
            final(self).spec_next_id() == old(self).spec_next_id(),
            match r {
                Ok(()) => {
                    &&& old(self).contains_id(id)
                    &&& !is_terminal(old(self).task_for(id).status)
                    &&& old(self).task_for(id).current_length <= current_length <= old(
                        self,
                    ).task_for(id).total_length
                    &&& final(self).rows() == old(self).rows().update(
                        old(self).idx_of(id),
                        (Model { current_length, ..old(self).task_for(id) }),
                    )
                },
                Err(e) => {
                    &&& *final(self) == *old(self)
                    &&& e == if !old(self).contains_id(id) {
                        StoreError::TaskNotFound
                    } else if is_terminal(old(self).task_for(id).status) {
                        StoreError::InvalidTransition
                    } else if current_length < old(self).task_for(id).current_length {
                        StoreError::ProgressDecreased
                    } else {
                        StoreError::ProgressBeyondTotal
                    }
                    &&& (old(self).contains_id(id) && !is_terminal(old(self).task_for(id).status))
                        ==> !(old(self).task_for(id).current_length <= current_length <= old(
                        self,
                    ).task_for(id).total_length)
                },
            },
    {
        match self.find(id) {
            Some(k) => {
                let cur = self.tasks[k].current_length;
                let total = self.tasks[k].total_length;
                let st = self.tasks[k].status;
                if matches!(st, TaskStatus::Completed) || matches!(st, TaskStatus::Failed) {
                    Err(StoreError::InvalidTransition)
                } else if current_length < cur {
                    Err(StoreError::ProgressDecreased)
                } else if current_length > total {
                    Err(StoreError::ProgressBeyondTotal)
                } else {
                    let m = &mut self.tasks[k];
                    m.current_length = current_length;
                    proof {
                        lemma_update_preserves_wf(old(self).rows(), self.rows(), k as int);
                    }
                    Ok(())
                }
            },
            None => Err(StoreError::TaskNotFound),
        }
    }

    /// Moves a task to a new status, enforcing the status state
    /// machine; a refused transition leaves the table unchanged.
    pub fn transition(&mut self, id: i64, new_status: TaskStatus) -> (r: Result<(), StoreError>)
        requires
            old(self).wf(),
        ensures
            final(self).wf(),
            final(self).spec_next_id() == old(self).spec_next_id(),
            r.is_ok() <==> old(self).contains_id(id) && can_step(
                old(self).task_for(id).status,
                new_status,
            ),
            match r {
                Ok(()) => final(self).rows() == old(self).rows().update(
                    old(self).idx_of(id),
                    (Model { status: new_status, ..old(self).task_for(id) }),
                ),
                Err(e) => {
                    &&& *final(self) == *old(self)
                    &&& e == if !old(self).contains_id(id) {
                        StoreError::TaskNotFound
                    } else {
                        StoreError::InvalidTransition
                    }
                },
            },
    {
        match self.find(id) {
            Some(k) => {
                let st = self.tasks[k].status;
                if can_step_exec(st, new_status) {
                    let m = &mut self.tasks[k];
                    m.status = new_status;
                    proof {
                        lemma_update_preserves_wf(old(self).rows(), self.rows(), k as int);
                    }
                    Ok(())
                } else {
                    Err(StoreError::InvalidTransition)
                }
            },
            None => Err(StoreError::TaskNotFound),
        }
    }

    /// Removes a task's row.
    pub fn delete(&mut self, id: i64) -> (r: Result<(), StoreError>)
        requires
            old(self).wf(),
        ensures
            final(self).wf(),
            final(self).spec_next_id() == old(self).spec_next_id(),
            r.is_ok() <==> old(self).contains_id(id),
            match r {
                Ok(()) => {
                    &&& final(self).rows() == old(self).rows().remove(old(self).idx_of(id))
                    &&& !final(self).contains_id(id)
                },
                Err(e) => *final(self) == *old(self) && e == StoreError::TaskNotFound,
            },
    {
        match self.find(id) {
            Some(k) => {
                self.tasks.remove(k);
                proof {
                    lemma_remove_preserves_wf(old(self).rows(), self.rows(), k as int);
                    assert forall|i: int|
                        0 <= i < self.rows().len() implies (#[trigger] self.rows()[i]).id
                        != id by {
                        if i < k as int {
                            assert(old(self).rows()[i].id < old(self).rows()[k as int].id);
                        } else {
                            assert(old(self).rows()[k as int].id < old(self).rows()[i + 1].id);
                        }
                    }
                }
                Ok(())
            },
            None => Err(StoreError::TaskNotFound),
        }
    }

    /// The ids of all tasks in the given status, in table order; the
    /// driver picks `Waiting` tasks up through this.
    pub fn list_by_status(&self, status: TaskStatus) -> (r: Vec<i64>)
        requires
            self.wf(),
        ensures
            r@ == ids_with_status(self.rows(), status),
    {
        let mut out: Vec<i64> = Vec::new();
        let n = self.tasks.len();
        let mut i: usize = 0;
        while i < n
            invariant
                self.wf(),
                n == self.rows().len(),
                i <= n,
                out@ == ids_with_status(self.rows().subrange(0, i as int), status),
            decreases n - i,
        {
            proof {
                assert(self.rows().subrange(0, i as int + 1).drop_last() =~= self.rows().subrange(
                    0,
                    i as int,
                ));
                assert(self.rows().subrange(0, i as int + 1).last() == self.rows()[i as int]);
            }
            if matches_status(&self.tasks[i], status) {
                out.push(self.tasks[i].id);
            }
            proof {
                assert(out@ =~= ids_with_status(self.rows().subrange(0, i as int + 1), status));
            }
            i += 1;
        }
        proof {
            assert(self.rows().subrange(0, n as int) =~= self.rows());
        }
        out
    }
}

/// Executable form of the status state machine test.
pub fn can_step_exec(from: TaskStatus, to: TaskStatus) -> (r: bool)
    ensures
        r == can_step(from, to),
{
    let terminal = matches!(from, TaskStatus::Completed) || matches!(from, TaskStatus::Failed);
    if terminal {
        false
    } else if matches!(to, TaskStatus::Failed) {
        true
    } else {
        status_rank_exec(from) < status_rank_exec(to)
    }
}

/// Executable form of the chain position.
fn status_rank_exec(s: TaskStatus) -> (r: u8)
    ensures
        r as int == crate::tasks::status_rank(s),
{
    match s {
        TaskStatus::Waiting => 0,
        TaskStatus::Fetched => 1,
        TaskStatus::Started => 2,
        TaskStatus::Completed => 3,
        TaskStatus::Failed => 4,
    }
}

fn matches_status(m: &Model, st: TaskStatus) -> (r: bool)
    ensures
        r == (m.status == st),
{
    status_rank_exec(m.status) == status_rank_exec(st)
}

impl InsertTask {
    /// Executable counterpart of `to_model`.
    fn to_model_exec(self, id: i64) -> (r: Model)
        ensures
            r == self.to_model(id),
    {
        Model {
            id,
            cmd_type: self.cmd_type,
            filename: self.filename,
            root_path: self.root_path,
            url: self.url,
            upload_url: self.upload_url,
            current_length: self.current_length,
            total_length: self.total_length,
            chat_bot_hex: self.chat_bot_hex,
            chat_user_hex: self.chat_user_hex,
            chat_origin_hex: self.chat_origin_hex,
            message_id: self.message_id,
            message_id_forward: self.message_id_forward,
            message_id_origin: self.message_id_origin,
            status: TaskStatus::Waiting,
        }
    }
}

/// In a valid table the row index holding a given id is unique, so any
/// index seen to hold it is the table's index for it.
pub proof fn lemma_idx_of_unique(st: TaskStore, id: i64, k: int)
    requires
        st.wf(),
        0 <= k < st.rows().len(),
        st.rows()[k].id == id,
    ensures
        st.contains_id(id),
        st.idx_of(id) == k,
{
    assert(st.contains_id(id));
    let c = st.idx_of(id);
    assert(0 <= c < st.rows().len() && st.rows()[c].id == id);
    if c < k {
        assert(st.rows()[c].id < st.rows()[k].id);
    } else if k < c {
        assert(st.rows()[k].id < st.rows()[c].id);
    }
}

/// An in-place field update of one row keeps the table's id order and
/// bounds, provided the row's id did not change.
proof fn lemma_update_preserves_wf(before: Seq<Model>, after: Seq<Model>, k: int)
    requires
        0 <= k < before.len(),
        after.len() == before.len(),
        after[k].id == before[k].id,
        forall|i: int| 0 <= i < before.len() && i != k ==> after[i] == before[i],
    ensures
        forall|i: int, j: int|
            (0 <= i < j < before.len() && before[i].id < before[j].id) ==> (#[trigger] after[i]).id
                < (#[trigger] after[j]).id,
{
}

/// Removing one row keeps the table's id order.
proof fn lemma_remove_preserves_wf(before: Seq<Model>, after: Seq<Model>, k: int)
    requires
        0 <= k < before.len(),
        after == before.remove(k),
        forall|i: int, j: int|
            0 <= i < j < before.len() ==> (#[trigger] before[i]).id < (#[trigger] before[j]).id,
    ensures
        forall|i: int, j: int|
            0 <= i < j < after.len() ==> (#[trigger] after[i]).id < (#[trigger] after[j]).id,
{
    assert forall|i: int, j: int|
        0 <= i < j < after.len() implies (#[trigger] after[i]).id < (#[trigger] after[j]).id by {
        let bi = if i < k {
            i
        } else {
            i + 1
        };
        let bj = if j < k {
            j
        } else {
            j + 1
        };
        assert(after[i] == before[bi]);
        assert(after[j] == before[bj]);
    }
}

} // verus!

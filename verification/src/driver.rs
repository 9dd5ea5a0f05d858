//! The transfer driver: streams a task's bytes into its upload session
//! in chunks, persisting the new offset after every chunk so a crash
//! loses at most one chunk, and driving the status forward — `Fetched`
//! when the source is resolved, `Started` on the first written chunk,
//! `Completed` on reaching the total. A write failure turns the task
//! `Failed`; a cancellation observed between chunks removes the task
//! without failing it.
//!
//! The bytes themselves move on the unverified edge; it reports each
//! chunk's outcome and this module decides and records what follows.

use vstd::prelude::*;

use crate::cancel::CancelRegistry;
use crate::store::{lemma_idx_of_unique, TaskStore};
use crate::tasks::{Model, TaskStatus};

verus! {

/// The offset after sending one chunk from `cur`: a full chunk, or what
/// remains to `total`.
pub open spec fn chunk_target(cur: int, total: int, chunk: int) -> int {
    if cur + chunk < total {
        cur + chunk
    } else {
        total
    }
}

/// The byte ranges a transfer sends, in order, resuming at `cur`: each
/// is `[start, end)`, contiguous from `cur` to `total`.
pub open spec fn chunk_ranges(cur: int, total: int, chunk: int) -> Seq<(int, int)>
    decreases total - cur
        when chunk >= 1
{
    if cur >= total {
        Seq::empty()
    } else {
        seq![(cur, chunk_target(cur, total, chunk))] + chunk_ranges(
            chunk_target(cur, total, chunk),
            total,
            chunk,
        )
    }
}

/// A transfer resuming at offset `cur` sends exactly the bytes from
/// `cur` to `total` and nothing below `cur`: the ranges start at `cur`,
/// are contiguous, stay within `[cur, total]`, and end at `total`.
pub proof fn lemma_chunk_ranges_cover(cur: int, total: int, chunk: int)
    requires
        0 <= cur <= total,
        chunk >= 1,
    ensures
        chunk_ranges(cur, total, chunk).len() == 0 <==> cur == total,
        chunk_ranges(cur, total, chunk).len() > 0 ==> chunk_ranges(cur, total, chunk)[0].0 == cur,
        chunk_ranges(cur, total, chunk).len() > 0 ==> chunk_ranges(cur, total, chunk)[chunk_ranges(
            cur,
            total,
            chunk,
        ).len() - 1].1 == total,
        forall|k: int|
            0 <= k < chunk_ranges(cur, total, chunk).len() ==> cur <= (#[trigger] chunk_ranges(
                cur,
                total,
                chunk,
            )[k]).0 < chunk_ranges(cur, total, chunk)[k].1 <= total,
        forall|k: int|
            0 <= k && k + 1 < chunk_ranges(cur, total, chunk).len() ==> (#[trigger] chunk_ranges(
                cur,
                total,
                chunk,
            )[k]).1 == chunk_ranges(cur, total, chunk)[k + 1].0,
    decreases total - cur,
{
    if cur < total {
        let next = chunk_target(cur, total, chunk);
        lemma_chunk_ranges_cover(next, total, chunk);
        let rs = chunk_ranges(cur, total, chunk);
        let tail = chunk_ranges(next, total, chunk);
        assert(rs == seq![(cur, next)] + tail);
        assert forall|k: int| 0 <= k < rs.len() implies cur <= (#[trigger] rs[k]).0 < rs[k].1
            <= total by {
            if k > 0 {
                assert(rs[k] == tail[k - 1]);
            }
        }
        assert forall|k: int| 0 <= k && k + 1 < rs.len() implies (#[trigger] rs[k]).1 == rs[k
            + 1].0 by {
            if k > 0 {
                assert(rs[k] == tail[k - 1]);
                assert(rs[k + 1] == tail[k]);
            } else {
                assert(rs[1] == tail[0]);
            }
        }
        if tail.len() > 0 {
            assert(rs[rs.len() - 1] == tail[tail.len() - 1]);
        }
    }
}

/// Progress only moves forward: the persisted offsets of a transfer —
/// the ranges' ends — are strictly increasing, so a task's
/// `current_length` never decreases while the driver runs it.
pub proof fn lemma_progress_monotonic(cur: int, total: int, chunk: int, i: int, j: int)
    requires
        0 <= cur <= total,
        chunk >= 1,
        0 <= i <= j < chunk_ranges(cur, total, chunk).len(),
    ensures
        chunk_ranges(cur, total, chunk)[i].1 <= chunk_ranges(cur, total, chunk)[j].1,
    decreases j - i,
{
    lemma_chunk_ranges_cover(cur, total, chunk);
    if i < j {
        lemma_progress_monotonic(cur, total, chunk, i, j - 1);
        let rs = chunk_ranges(cur, total, chunk);
        assert(rs[j - 1].1 == rs[j].0);
    }
}

/// What the unverified edge reports about one chunk.
#[derive(Clone, Copy, Debug, PartialEq, Eq, Structural)]
pub enum ChunkOutcome {
    /// The chunk was written to the upload session.
    Written,
    /// The write failed unrecoverably.
    WriteFailed,
    /// A cancellation signal was observed before the chunk.
    Cancelled,
}

/// What one driver step did with the task.
#[derive(Clone, Copy, Debug, PartialEq, Eq, Structural)]
pub enum StepResult {
    /// A chunk landed; the new offset was persisted.
    Progressed { new_length: i64 },
    /// The final chunk landed; the task is `Completed`.
    Finished,
    /// The task was cancelled and its row removed; it is not `Failed`.
    Aborted,
    /// The task is `Failed`.
    TaskFailed,
}

/// Records the outcome of one chunk for a running task (status
/// `Fetched` or `Started`): a written chunk persists the next offset
/// before anything else happens and moves the status to `Started`, or to
/// `Completed` when the total is reached; a failed write turns the task
/// `Failed`; a cancellation removes the task's row without failing it.
pub fn drive_chunk(store: &mut TaskStore, id: i64, chunk_size: i64, outcome: ChunkOutcome) -> (r:
    StepResult)
    requires
        old(store).wf(),
        old(store).contains_id(id),
        old(store).task_for(id).status == TaskStatus::Fetched || old(store).task_for(id).status
            == TaskStatus::Started,
        chunk_size >= 1,
    ensures
        final(store).wf(),
        final(store).spec_next_id() == old(store).spec_next_id(),
        match outcome {
            ChunkOutcome::Cancelled => {
                &&& r == StepResult::Aborted
                &&& final(store).rows() == old(store).rows().remove(old(store).idx_of(id))
                &&& !final(store).contains_id(id)
            },
            ChunkOutcome::WriteFailed => {
                &&& r == StepResult::TaskFailed
                &&& final(store).rows() == old(store).rows().update(
                    old(store).idx_of(id),
                    (Model { status: TaskStatus::Failed, ..old(store).task_for(id) }),
                )
            },
            ChunkOutcome::Written => {
                let cur = old(store).task_for(id).current_length as int;
                let total = old(store).task_for(id).total_length as int;
                let next = chunk_target(cur, total, chunk_size as int);
                &&& (next == total ==> r == StepResult::Finished && final(store).rows() == old(
                    store,
                ).rows().update(
                    old(store).idx_of(id),
                    (Model {
                        current_length: total as i64,
                        status: TaskStatus::Completed,
                        ..old(store).task_for(id)
                    }),
                ))
                &&& (next < total ==> r == (StepResult::Progressed { new_length: next as i64 })
                    && final(store).rows() == old(store).rows().update(
                    old(store).idx_of(id),
                    (Model {
                        current_length: next as i64,
                        status: TaskStatus::Started,
                        ..old(store).task_for(id)
                    }),
                ))
            },
        },
{
    let ghost k = old(store).idx_of(id);
    proof {
        assert(0 <= k < old(store).rows().len() && old(store).rows()[k].id == id);
    }
    match outcome {
        ChunkOutcome::Cancelled => {
            let res = store.delete(id);
            proof {
                assert(res is Ok);
            }
            StepResult::Aborted
        },
        ChunkOutcome::WriteFailed => {
            let res = store.transition(id, TaskStatus::Failed);
            proof {
                assert(res is Ok);
            }
            StepResult::TaskFailed
        },
        ChunkOutcome::Written => {
            let (cur, total) = match store.get(id) {
                Some(m) => (m.current_length, m.total_length),
                None => {
                    proof {
                        assert(false);
                    }
                    (0, 0)
                },
            };
            let remaining = total - cur;
            let step = if chunk_size < remaining {
                chunk_size
            } else {
                remaining
            };
            let next = cur + step;
            let res = store.update_progress(id, next);
            proof {
                assert(res is Ok);
                assert(store.rows()[k].id == id);
                lemma_idx_of_unique(*store, id, k);
            }
            let ghost mid = *store;
            if next == total {
                let res2 = store.transition(id, TaskStatus::Completed);
                proof {
                    assert(res2 is Ok);
                    assert(final(store).rows() == mid.rows().update(
                        k,
                        (Model { status: TaskStatus::Completed, ..mid.task_for(id) }),
                    ));
                    assert(final(store).rows() =~= old(store).rows().update(
                        k,
                        (Model {
                            current_length: total,
                            status: TaskStatus::Completed,
                            ..old(store).task_for(id)
                        }),
                    ));
                }
                StepResult::Finished
            } else {
                let was_fetched = match store.get(id) {
                    Some(m) => matches!(m.status, TaskStatus::Fetched),
                    None => {
                        proof {
                            assert(false);
                        }
                        false
                    },
                };
                if was_fetched {
                    let res2 = store.transition(id, TaskStatus::Started);
                    proof {
                        assert(res2 is Ok);
                        assert(final(store).rows() =~= old(store).rows().update(
                            k,
                            (Model {
                                current_length: next,
                                status: TaskStatus::Started,
                                ..old(store).task_for(id)
                            }),
                        ));
                    }
                } else {
                    proof {
                        assert(mid.task_for(id).status == TaskStatus::Started);
                        assert(final(store).rows() =~= old(store).rows().update(
                            k,
                            (Model {
                                current_length: next,
                                status: TaskStatus::Started,
                                ..old(store).task_for(id)
                            }),
                        ));
                    }
                }
                StepResult::Progressed { new_length: next }
            }
        },
    }
}

/// Runs a freshly accepted task (status `Waiting`) to completion with
/// every chunk written: resolves to `Fetched`, sends the bytes from the
/// task's recorded `current_length` — never re-sending anything below it
/// — persisting each new offset in turn, and ends `Completed` with the
/// stop handle cleared without a signal. Returns the persisted offsets,
/// which are exactly the ends of `chunk_ranges` over the task's recorded
/// offset and total.
#[verifier::loop_isolation(false)]
pub fn run_transfer(
    store: &mut TaskStore,
    reg: &mut CancelRegistry,
    id: i64,
    chunk_size: i64,
) -> (r: Vec<i64>)
    requires
        old(store).wf(),
        old(reg).wf(),
        old(store).contains_id(id),
        old(store).task_for(id).status == TaskStatus::Waiting,
        chunk_size >= 1,
    ensures
        final(store).wf(),
        final(reg).wf(),
        final(store).spec_next_id() == old(store).spec_next_id(),
        final(store).rows() == old(store).rows().update(
            old(store).idx_of(id),
            (Model {
                current_length: old(store).task_for(id).total_length,
                status: TaskStatus::Completed,
                ..old(store).task_for(id)
            }),
        ),
        r@.len() == chunk_ranges(
            old(store).task_for(id).current_length as int,
            old(store).task_for(id).total_length as int,
            chunk_size as int,
        ).len(),
        forall|j: int|
            0 <= j < r@.len() ==> #[trigger] r@[j] as int == chunk_ranges(
                old(store).task_for(id).current_length as int,
                old(store).task_for(id).total_length as int,
                chunk_size as int,
            )[j].1,
        !final(reg).has_handle(id),
        final(reg).cancelling() == old(reg).cancelling(),
        old(reg).has_handle(id) ==> final(reg).handles() == old(reg).handles().remove(
            old(reg).idx_of(id),
        ),
        !old(reg).has_handle(id) ==> *final(reg) == *old(reg),
    {
        let ghost k = old(store).idx_of(id);
        let ghost cur0 = old(store).task_for(id).current_length as int;
        let ghost total_g = old(store).task_for(id).total_length as int;
        let ghost all_ranges = chunk_ranges(cur0, total_g, chunk_size as int);
        proof {
            assert(0 <= k < old(store).rows().len() && old(store).rows()[k].id == id);
        }
        let res = store.transition(id, TaskStatus::Fetched);
        proof {
            assert(res is Ok);
            assert(store.rows()[k].id == id);
            lemma_idx_of_unique(*store, id, k);
        }
        let (mut cur, total) = match store.get(id) {
            Some(m) => (m.current_length, m.total_length),
            None => {
                proof {
                    assert(false);
                }
                (0, 0)
            },
        };
        let mut r: Vec<i64> = Vec::new();
        while cur < total
            invariant
                store.wf(),
                chunk_size >= 1,
                store.spec_next_id() == old(store).spec_next_id(),
                0 <= k < store.rows().len(),
                store.rows().len() == old(store).rows().len(),
                store.rows()[k].id == id,
                store.contains_id(id),
                store.idx_of(id) == k,
                0 <= cur <= total,
                total as int == total_g,
                store.rows() == old(store).rows().update(
                    k,
                    (Model {
                        current_length: cur,
                        status: if r@.len() == 0 {
                            TaskStatus::Fetched
                        } else if (cur as int) < total_g {
                            TaskStatus::Started
                        } else {
                            TaskStatus::Completed
                        },
                        ..old(store).task_for(id)
                    }),
                ),
                r@.len() == 0 ==> cur as int == cur0,
                r@.len() <= all_ranges.len(),
                chunk_ranges(cur as int, total_g, chunk_size as int) == all_ranges.skip(
                    r@.len() as int,
                ),
                forall|j: int| 0 <= j < r@.len() ==> #[trigger] r@[j] as int == all_ranges[j].1,
            decreases total - cur,
        {
            proof {
                assert(store.task_for(id) == store.rows()[k]);
                assert(chunk_ranges(cur as int, total_g, chunk_size as int).len() > 0);
                assert(all_ranges.skip(r@.len() as int).len() > 0);
                assert(r@.len() < all_ranges.len());
                assert(all_ranges.skip(r@.len() as int)[0] == all_ranges[r@.len() as int]);
                assert(all_ranges.skip(r@.len() as int).drop_first() =~= all_ranges.skip(
                    r@.len() as int + 1,
                ));
            }
            let ghost pre = *store;
            let ghost next_g = chunk_target(cur as int, total_g, chunk_size as int);
            let step = drive_chunk(store, id, chunk_size, ChunkOutcome::Written);
            proof {
                assert(pre.idx_of(id) == k);
                assert(pre.task_for(id) == pre.rows()[k]);
                assert(store.rows()[k].id == id);
                lemma_idx_of_unique(*store, id, k);
            }
            match step {
                StepResult::Progressed { new_length } => {
                    r.push(new_length);
                    cur = new_length;
                },
                StepResult::Finished => {
                    r.push(total);
                    cur = total;
                },
                _ => {
                    proof {
                        assert(false);
                    }
                },
            }
            proof {
                assert(store.rows() =~= old(store).rows().update(
                    k,
                    (Model {
                        current_length: cur,
                        status: if r@.len() == 0 {
                            TaskStatus::Fetched
                        } else if (cur as int) < total_g {
                            TaskStatus::Started
                        } else {
                            TaskStatus::Completed
                        },
                        ..old(store).task_for(id)
                    }),
                ));
                assert(all_ranges[r@.len() as int - 1].1 == cur as int);
            }
        }
        proof {
            assert(chunk_ranges(cur as int, total_g, chunk_size as int).len() == 0);
            assert(all_ranges.skip(r@.len() as int).len() == 0);
            assert(r@.len() == all_ranges.len());
        }
        if r.len() == 0 {
            let res2 = store.transition(id, TaskStatus::Completed);
            proof {
                assert(res2 is Ok);
            }
        }
        proof {
            assert(store.rows() =~= old(store).rows().update(
                k,
                (Model {
                    current_length: old(store).task_for(id).total_length,
                    status: TaskStatus::Completed,
                    ..old(store).task_for(id)
                }),
            ));
        }
        reg.clear_on_terminal(id);
        r
    }

} // verus!

//! The table of transfers: the queue of pending ones, the running, completed
//! and failed ones.
use vstd::prelude::*;
use super::task::TransferTask;
use super::types::{TransferId, TransferState};
use crate::idlist::{contains_transfer_id, distinct, lemma_without_distinct, remove_transfer_id,
    without};

verus! {

pub struct StoreView {
    pub tasks: Seq<TransferTask>,
    pub pending: Seq<TransferId>,
    pub running: Seq<TransferId>,
    pub completed: Seq<TransferId>,
    pub failed: Seq<(TransferId, Seq<char>)>,
}

/// The task store. The runtime keeps the join handles of the running
/// transfers; the store keeps which transfers run.
pub struct TaskStore {
    tasks: Vec<TransferTask>,
    pending_queue: Vec<TransferId>,
    running_tasks: Vec<TransferId>,
    completed_tasks: Vec<TransferId>,
    failed_tasks: Vec<(TransferId, String)>,
}

pub open spec fn failed_view(v: Seq<(TransferId, String)>) -> Seq<(TransferId, Seq<char>)> {
    v.map_values(|p: (TransferId, String)| (p.0, p.1@))
}

impl View for TaskStore {
    type V = StoreView;

    closed spec fn view(&self) -> StoreView {
        StoreView {
            tasks: self.tasks@,
            pending: self.pending_queue@,
            running: self.running_tasks@,
            completed: self.completed_tasks@,
            failed: failed_view(self.failed_tasks@),
        }
    }
}

pub open spec fn ids_of(ts: Seq<TransferTask>) -> Seq<TransferId> {
    ts.map_values(|t: TransferTask| t.id)
}

pub open spec fn keys_of(f: Seq<(TransferId, Seq<char>)>) -> Seq<TransferId> {
    f.map_values(|p: (TransferId, Seq<char>)| p.0)
}

/// The position of `id` among `ids`, or -1.
pub open spec fn position(ids: Seq<TransferId>, id: TransferId) -> int {
    if ids.contains(id) {
        choose|i: int| 0 <= i < ids.len() && ids[i] == id
    } else {
        -1
    }
}

/// The task after `update_state(id, state)` at time `now`: the start time is
/// set when it starts transferring, the end time when it completes, fails or
/// is cancelled.
pub open spec fn with_new_state(t: TransferTask, s: TransferState, now: u64) -> TransferTask {
    TransferTask {
        state: s,
        started_at: if s == TransferState::Transferring {
            Some(now)
        } else {
            t.started_at
        },
        completed_at: if s == TransferState::Completed || s == TransferState::Failed || s
            == TransferState::Cancelled {
            Some(now)
        } else {
            t.completed_at
        },
        ..t
    }
}

pub open spec fn spec_update_state(w: StoreView, id: TransferId, s: TransferState, now: u64) -> StoreView {
    let i = position(ids_of(w.tasks), id);
    if i >= 0 {
        StoreView { tasks: w.tasks.update(i, with_new_state(w.tasks[i], s, now)), ..w }
    } else {
        w
    }
}

/// `running` with `id` added, if it was not there.
pub open spec fn with_member(s: Seq<TransferId>, id: TransferId) -> Seq<TransferId> {
    if s.contains(id) {
        s
    } else {
        s.push(id)
    }
}

/// `failed` with the reason of `id` set to `reason`.
pub open spec fn with_failure(
    f: Seq<(TransferId, Seq<char>)>,
    id: TransferId,
    reason: Seq<char>,
) -> Seq<(TransferId, Seq<char>)> {
    let i = position(keys_of(f), id);
    if i >= 0 {
        f.update(i, (id, reason))
    } else {
        f.push((id, reason))
    }
}

impl StoreView {
    /// Identifiers are unique in the table, the running set and the failures.
    pub open spec fn wf(self) -> bool {
        &&& distinct(ids_of(self.tasks))
        &&& distinct(self.running)
        &&& distinct(keys_of(self.failed))
    }
}

proof fn lemma_position(ids: Seq<TransferId>, i: int)
    requires
        distinct(ids),
        0 <= i < ids.len(),
    ensures
        position(ids, ids[i]) == i,
{
}

impl TaskStore {
    pub fn new() -> (r: TaskStore)
        ensures
            r@.tasks.len() == 0,
            r@.pending.len() == 0,
            r@.running.len() == 0,
            r@.completed.len() == 0,
            r@.failed.len() == 0,
            r@.wf(),
    {
        let r = TaskStore {
            tasks: Vec::new(),
            pending_queue: Vec::new(),
            running_tasks: Vec::new(),
            completed_tasks: Vec::new(),
            failed_tasks: Vec::new(),
        };
        assert(ids_of(r@.tasks) =~= Seq::<TransferId>::empty());
        assert(keys_of(r@.failed) =~= Seq::<TransferId>::empty());
        r
    }

    fn find(&self, id: TransferId) -> (r: Option<usize>)
        requires
            self@.wf(),
        ensures
            r matches Some(i) ==> i < self@.tasks.len() && self@.tasks[i as int].id == id
                && position(ids_of(self@.tasks), id) == i,
            r is None ==> position(ids_of(self@.tasks), id) == -1,
    {
        let mut i: usize = 0;
        while i < self.tasks.len()
            invariant
                i <= self.tasks.len(),
                self@.wf(),
                forall|k: int| 0 <= k < i ==> self@.tasks[k].id != id,
            decreases self.tasks.len() - i,
        {
            if self.tasks[i].id == id {
                proof {
                    assert(ids_of(self@.tasks)[i as int] == id);
                    lemma_position(ids_of(self@.tasks), i as int);
                }
                return Some(i);
            }
            i = i + 1;
        }
        proof {
            assert(!ids_of(self@.tasks).contains(id)) by {
                if ids_of(self@.tasks).contains(id) {
                    let k = choose|k: int| 0 <= k < ids_of(self@.tasks).len() && ids_of(self@.tasks)[k] == id;
                    assert(self@.tasks[k].id == id);
                }
            }
        }
        None
    }

    /// Adds a task (replacing one with the same identifier) and queues its identifier.
    pub fn add_task(&mut self, task: TransferTask)
        requires
            old(self)@.wf(),
        ensures
            final(self)@.wf(),
            final(self)@ == (StoreView {
                tasks: {
                    let i = position(ids_of(old(self)@.tasks), task.id);
                    if i >= 0 {
                        old(self)@.tasks.update(i, task)
                    } else {
                        old(self)@.tasks.push(task)
                    }
                },
                pending: old(self)@.pending.push(task.id),
                ..old(self)@
            }),
    {
        let ghost old_view = self@;
        match self.find(task.id) {
            Some(i) => {
                self.tasks.set(i, task);
                assert(ids_of(self@.tasks) =~= ids_of(old_view.tasks));
            },
            None => {
                self.tasks.push(task);
                assert(ids_of(self@.tasks) =~= ids_of(old_view.tasks).push(task.id));
                assert(!ids_of(old_view.tasks).contains(task.id));
            },
        }
        self.pending_queue.push(task.id);
    }

    /// Whether a task waits.
    pub fn has_next_task(&self) -> (r: bool)
        ensures
            r == (self@.pending.len() > 0),
    {
        self.pending_queue.len() > 0
    }

    /// Takes the identifier at the front of the queue.
    pub fn get_next_pending(&mut self) -> (r: Option<TransferId>)
        requires
            old(self)@.wf(),
        ensures
            final(self)@.wf(),
            old(self)@.pending.len() == 0 ==> r is None && final(self)@ == old(self)@,
            old(self)@.pending.len() > 0 ==> r == Some(old(self)@.pending[0]) && final(self)@ == (
            StoreView { pending: old(self)@.pending.drop_first(), ..old(self)@ }),
    {
        if self.pending_queue.len() == 0 {
            return None;
        }
        let id = self.pending_queue.remove(0);
        assert(self@.pending =~= old(self)@.pending.drop_first());
        Some(id)
    }

    /// Sets the state of the task `id`, if there is one, with its start or end time.
    pub fn update_state(&mut self, id: TransferId, state: TransferState, now: u64)
        requires
            old(self)@.wf(),
        ensures
            final(self)@.wf(),
            final(self)@ == spec_update_state(old(self)@, id, state, now),
    {
        let ghost old_view = self@;
        if let Some(i) = self.find(id) {
            let mut t = self.tasks[i];
            t.state = state;
            match state {
                TransferState::Transferring => {
                    t.started_at = Some(now);
                },
                TransferState::Completed | TransferState::Failed | TransferState::Cancelled => {
                    t.completed_at = Some(now);
                },
                _ => {},
            }
            self.tasks.set(i, t);
            assert(ids_of(self@.tasks) =~= ids_of(old_view.tasks));
        }
    }

    /// The transfer completed: it leaves the running set and is recorded as completed.
    pub fn mark_completed(&mut self, id: TransferId, now: u64)
        requires
            old(self)@.wf(),
        ensures
            final(self)@.wf(),
            final(self)@ == (StoreView {
                running: without(old(self)@.running, id),
                completed: old(self)@.completed.push(id),
                ..spec_update_state(old(self)@, id, TransferState::Completed, now)
            }),
    {
        remove_transfer_id(&mut self.running_tasks, id);
        proof {
            lemma_without_distinct(old(self)@.running, id);
        }
        self.update_state(id, TransferState::Completed, now);
        self.completed_tasks.push(id);
    }

    /// The transfer failed for `reason`: it leaves the running set and its reason is recorded.
    pub fn mark_failed(&mut self, id: TransferId, reason: String, now: u64)
        requires
            old(self)@.wf(),
        ensures
            final(self)@.wf(),
            final(self)@ == (StoreView {
                running: without(old(self)@.running, id),
                failed: with_failure(old(self)@.failed, id, reason@),
                ..spec_update_state(old(self)@, id, TransferState::Failed, now)
            }),
    {
        remove_transfer_id(&mut self.running_tasks, id);
        proof {
            lemma_without_distinct(old(self)@.running, id);
        }
        self.update_state(id, TransferState::Failed, now);
        self.set_failure(id, reason);
    }

    fn set_failure(&mut self, id: TransferId, reason: String)
        requires
            old(self)@.wf(),
        ensures
            final(self)@.wf(),
            final(self)@ == (StoreView { failed: with_failure(old(self)@.failed, id, reason@), ..old(self)@ }),
    {
        let ghost before = self@;
        let ghost reason_view = reason@;
        let mut i: usize = 0;
        while i < self.failed_tasks.len()
            invariant
                self@ == before,
                before == old(self)@,
                before.wf(),
                reason_view == reason@,
                i <= self.failed_tasks.len(),
                forall|k: int| 0 <= k < i ==> keys_of(before.failed)[k] != id,
            decreases self.failed_tasks.len() - i,
        {
            if self.failed_tasks[i].0 == id {
                let ghost fv0 = self.failed_tasks@;
                self.failed_tasks.set(i, (id, reason));
                proof {
                    assert(keys_of(before.failed)[i as int] == id);
                    lemma_position(keys_of(before.failed), i as int);
                    assert forall|j: int| 0 <= j < self.failed_tasks@.len() implies #[trigger] failed_view(self.failed_tasks@)[j] == before.failed.update(i as int, (id, reason_view))[j] by {
                        assert(failed_view(fv0)[j] == (fv0[j].0, fv0[j].1@));
                    }
                    assert(failed_view(self.failed_tasks@) =~= before.failed.update(i as int, (id, reason_view)));
                    assert(keys_of(self@.failed) =~= keys_of(before.failed));
                }
                return ;
            }
            i = i + 1;
        }
        proof {
            assert(!keys_of(before.failed).contains(id)) by {
                if keys_of(before.failed).contains(id) {
                    let k = choose|k: int| 0 <= k < keys_of(before.failed).len() && keys_of(before.failed)[k] == id;
                }
            }
        }
        let ghost fv0 = self.failed_tasks@;
        self.failed_tasks.push((id, reason));
        proof {
            assert forall|j: int| 0 <= j < self.failed_tasks@.len() implies #[trigger] failed_view(self.failed_tasks@)[j] == before.failed.push((id, reason_view))[j] by {
                if j < fv0.len() {
                    assert(failed_view(fv0)[j] == (fv0[j].0, fv0[j].1@));
                }
            }
            assert(failed_view(self.failed_tasks@) =~= before.failed.push((id, reason_view)));
            assert(keys_of(self@.failed) =~= keys_of(before.failed).push(id));
        }
    }

    /// Cancels and forgets the task `id`. A waiting task leaves the queue, a
    /// completed or failed one its record. Returns whether a running transfer
    /// must be aborted (its identifier then leaves the running set).
    pub fn cancel_task(&mut self, id: TransferId) -> (r: bool)
        requires
            old(self)@.wf(),
        ensures
            final(self)@.wf(),
            ({
                let i = position(ids_of(old(self)@.tasks), id);
                if i < 0 {
                    !r && final(self)@ == old(self)@
                } else {
                    let t = old(self)@.tasks[i];
                    let base = StoreView { tasks: old(self)@.tasks.remove(i), ..old(self)@ };
                    match t.state {
                        TransferState::Queued => !r && final(self)@ == (StoreView {
                            pending: without(old(self)@.pending, id),
                            ..base
                        }),
                        TransferState::Transferring => r == old(self)@.running.contains(id)
                            && final(self)@ == (StoreView {
                            running: without(old(self)@.running, id),
                            ..base
                        }),
                        TransferState::Completed => !r && final(self)@ == (StoreView {
                            completed: without(old(self)@.completed, id),
                            ..base
                        }),
                        TransferState::Failed => !r && final(self)@ == (StoreView {
                            failed: old(self)@.failed.filter(
                                |p: (TransferId, Seq<char>)| p.0 != id,
                            ),
                            ..base
                        }),
                        _ => !r && final(self)@ == base,
                    }
                }
            }),
    {
        let ghost old_view = self@;
        let i = match self.find(id) {
            Some(i) => i,
            None => return false,
        };
        let t = self.tasks.remove(i);
        proof {
            let ids = ids_of(old_view.tasks);
            assert(ids_of(self@.tasks) =~= ids.remove(i as int));
            assert forall|a: int, b: int| 0 <= a < ids.remove(i as int).len() && 0 <= b < ids.remove(i as int).len() && a != b implies ids.remove(i as int)[a] != ids.remove(i as int)[b] by {
                let a2 = if a < i { a } else { a + 1 };
                let b2 = if b < i { b } else { b + 1 };
                assert(ids.remove(i as int)[a] == ids[a2]);
                assert(ids.remove(i as int)[b] == ids[b2]);
            }
        }
        match t.state {
            TransferState::Queued => {
                remove_transfer_id(&mut self.pending_queue, id);
                false
            },
            TransferState::Transferring => {
                let was_running = contains_transfer_id(&self.running_tasks, id);
                remove_transfer_id(&mut self.running_tasks, id);
                proof {
                    lemma_without_distinct(old_view.running, id);
                }
                was_running
            },
            TransferState::Completed => {
                remove_transfer_id(&mut self.completed_tasks, id);
                false
            },
            TransferState::Failed => {
                self.remove_failure(id);
                false
            },
            _ => false,
        }
    }

    fn remove_failure(&mut self, id: TransferId)
        requires
            distinct(keys_of(old(self)@.failed)),
        ensures
            final(self)@ == (StoreView {
                failed: old(self)@.failed.filter(|p: (TransferId, Seq<char>)| p.0 != id),
                ..old(self)@
            }),
            distinct(keys_of(final(self)@.failed)),
    {
        let ghost p = |p: (TransferId, Seq<char>)| p.0 != id;
        let ghost fv = old(self)@.failed;
        let mut kept: Vec<(TransferId, String)> = Vec::new();
        let mut rest: Vec<(TransferId, String)> = Vec::new();
        std::mem::swap(&mut rest, &mut self.failed_tasks);
        let ghost mut n: int = 0;
        proof {
            reveal(Seq::filter);
            assert(fv.take(0).filter(p) =~= Seq::<(TransferId, Seq<char>)>::empty());
            assert(failed_view(rest@) =~= fv.skip(0));
        }
        while rest.len() > 0
            invariant
                0 <= n <= fv.len(),
                rest@.len() == fv.len() - n,
                failed_view(rest@) == fv.skip(n),
                failed_view(kept@) == fv.take(n).filter(p),
                p == (|p: (TransferId, Seq<char>)| p.0 != id),
            decreases rest.len(),
        {
            let ghost rv = rest@;
            proof {
                assert(failed_view(rv)[0] == (rv[0].0, rv[0].1@));
                assert(fv.skip(n)[0] == fv[n]);
            }
            let e = rest.remove(0);
            proof {
                assert(fv.take(n + 1) =~= fv.take(n).push(fv[n]));
                fv.take(n).lemma_filter_push(fv[n], p);
                assert(rest@ =~= rv.subrange(1, rv.len() as int));
                assert forall|j: int| 0 <= j < rest@.len() implies #[trigger] failed_view(rest@)[j] == fv.skip(n + 1)[j] by {
                    assert(failed_view(rv)[j + 1] == (rv[j + 1].0, rv[j + 1].1@));
                    assert(fv.skip(n)[j + 1] == fv[n + 1 + j]);
                }
                assert(failed_view(rest@) =~= fv.skip(n + 1));
            }
            if e.0 != id {
                let ghost before = failed_view(kept@);
                kept.push(e);
                assert(failed_view(kept@) =~= before.push(fv[n]));
            }
            proof {
                n = n + 1;
            }
        }
        proof {
            assert(fv.take(n) =~= fv);
            lemma_keys_filter_distinct(fv, p);
        }
        self.failed_tasks = kept;
    }

    /// The transfer started running: its state is `Transferring` and it joins the running set.
    pub fn add_running(&mut self, id: TransferId, now: u64)
        requires
            old(self)@.wf(),
        ensures
            final(self)@.wf(),
            final(self)@ == (StoreView {
                running: with_member(old(self)@.running, id),
                ..spec_update_state(old(self)@, id, TransferState::Transferring, now)
            }),
    {
        self.update_state(id, TransferState::Transferring, now);
        if !contains_transfer_id(&self.running_tasks, id) {
            self.running_tasks.push(id);
            proof {
                let r = old(self)@.running;
                assert forall|a: int, b: int| 0 <= a < r.push(id).len() && 0 <= b < r.push(id).len() && a != b implies r.push(id)[a] != r.push(id)[b] by {
                    if a == r.len() {
                        assert(r.contains(r.push(id)[b]) || b == r.len());
                    }
                    if b == r.len() {
                        assert(r.contains(r.push(id)[a]) || a == r.len());
                    }
                }
            }
        }
    }

    /// The task `id`, if the store has it.
    pub fn get_task(&self, id: TransferId) -> (r: Option<TransferTask>)
        requires
            self@.wf(),
        ensures
            ({
                let i = position(ids_of(self@.tasks), id);
                if i >= 0 {
                    r == Some(self@.tasks[i])
                } else {
                    r is None
                }
            }),
    {
        match self.find(id) {
            Some(i) => Some(self.tasks[i]),
            None => None,
        }
    }
}

proof fn lemma_keys_filter_distinct(f: Seq<(TransferId, Seq<char>)>, p: spec_fn((TransferId, Seq<char>)) -> bool)
    requires
        distinct(keys_of(f)),
    ensures
        distinct(keys_of(f.filter(p))),
        forall|j: int| 0 <= j < f.filter(p).len() ==> f.contains(#[trigger] f.filter(p)[j]),
    decreases f.len(),
{
    reveal(Seq::filter);
    if f.len() > 0 {
        let rest = f.drop_last();
        assert(keys_of(rest) =~= keys_of(f).drop_last());
        lemma_keys_filter_distinct(rest, p);
        assert(rest.push(f.last()) == f);
        rest.lemma_filter_push(f.last(), p);
        let fr = rest.filter(p);
        assert forall|j: int| 0 <= j < f.filter(p).len() implies f.contains(#[trigger] f.filter(p)[j]) by {
            if j < fr.len() {
                assert(rest.contains(fr[j]));
                let m = choose|m: int| 0 <= m < rest.len() && rest[m] == fr[j];
                assert(f[m] == fr[j]);
            } else {
                assert(f[f.len() - 1] == f.last());
            }
        }
        if p(f.last()) {
            let kf = keys_of(f.filter(p));
            assert forall|a: int, b: int| 0 <= a < kf.len() && 0 <= b < kf.len() && a != b implies kf[a] != kf[b] by {
                if a < fr.len() && b < fr.len() {
                    assert(kf[a] == keys_of(fr)[a] && kf[b] == keys_of(fr)[b]);
                } else {
                    let c = if a < fr.len() { a } else { b };
                    if c < fr.len() {
                        let m = choose|m: int| 0 <= m < rest.len() && rest[m] == fr[c];
                        assert(keys_of(f)[m] == fr[c].0);
                        assert(keys_of(f)[f.len() - 1] == f.last().0);
                    }
                }
            }
        } else {
            assert(keys_of(f.filter(p)) =~= keys_of(fr));
        }
    }
}

/// Law: the queue of pending transfers is first in, first out: after adding
/// a task to an empty queue, the next pending identifier is that task's.
pub proof fn law_pending_fifo(w: StoreView, t: TransferTask)
    requires
        w.pending.len() == 0,
    ensures
        w.pending.push(t.id)[0] == t.id,
        w.pending.push(t.id).drop_first().len() == 0,
{
}

} // verus!

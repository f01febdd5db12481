//! The decisions of the transfer scheduler: which transfer to start, and how
//! the table changes as transfers start, end and are cancelled.
//!
//! New transfers are put at the front of the pending queue and taken from its
//! back, so the first added is the first started. A transfer holds one of a
//! fixed number of permits from its start until its upload future ends.
use vstd::prelude::*;
use super::errors::TransferError;
use super::store::{ids_of, position, with_member, with_new_state};
use super::task::TransferTask;
use super::types::{TransferId, TransferState};
use crate::tus::types::is_v4_uuid;
use crate::idlist::{contains_transfer_id, distinct, lemma_without_contains, lemma_without_distinct,
    remove_transfer_id, without};

verus! {

pub struct SchedulerView {
    pub tasks: Seq<TransferTask>,
    /// Front first: new transfers enter at index 0 and are taken from the end.
    pub pending: Seq<TransferId>,
    /// Transfers with a cancellation token.
    pub running: Seq<TransferId>,
    /// Transfers whose upload future holds a permit.
    pub executing: Seq<TransferId>,
    pub permits: nat,
    pub capacity: nat,
}

/// The scheduler's table.
pub struct TaskManager {
    tasks: Vec<TransferTask>,
    pending_tasks: Vec<TransferId>,
    running_tasks: Vec<TransferId>,
    executing: Vec<TransferId>,
    permits: usize,
    capacity: usize,
}

impl View for TaskManager {
    type V = SchedulerView;

    closed spec fn view(&self) -> SchedulerView {
        SchedulerView {
            tasks: self.tasks@,
            pending: self.pending_tasks@,
            running: self.running_tasks@,
            executing: self.executing@,
            permits: self.permits as nat,
            capacity: self.capacity as nat,
        }
    }
}

impl SchedulerView {
    /// Identifiers are unique in each list, a pending transfer is not executing,
    /// and the free permits and the executing transfers add up to the capacity.
    pub open spec fn wf(self) -> bool {
        &&& distinct(ids_of(self.tasks))
        &&& distinct(self.pending)
        &&& distinct(self.running)
        &&& distinct(self.executing)
        &&& forall|x: TransferId| self.pending.contains(x) ==> !self.executing.contains(x)
        &&& self.permits + self.executing.len() == self.capacity
    }
}

/// `id` names a transfer of the table, waits in the queue or holds a permit.
pub open spec fn id_in_use(w: SchedulerView, id: TransferId) -> bool {
    ids_of(w.tasks).contains(id) || w.pending.contains(id) || w.executing.contains(id)
}

/// The table after adding the queued transfer `id` at time `now`.
pub open spec fn spec_add(w: SchedulerView, id: TransferId, now: u64) -> SchedulerView {
    SchedulerView {
        tasks: w.tasks.push(
            TransferTask {
                id,
                state: TransferState::Queued,
                created_at: now,
                started_at: None,
                completed_at: None,
            },
        ),
        pending: seq![id] + w.pending,
        ..w
    }
}

/// The table after `schedule`, and the transfer it starts.
pub open spec fn spec_schedule(w: SchedulerView) -> (SchedulerView, Option<TransferId>) {
    if w.permits == 0 || w.pending.len() == 0 {
        (w, None)
    } else {
        let id = w.pending.last();
        let rest = SchedulerView { pending: w.pending.drop_last(), ..w };
        if ids_of(w.tasks).contains(id) {
            (
                SchedulerView {
                    running: with_member(w.running, id),
                    executing: w.executing.push(id),
                    permits: (w.permits - 1) as nat,
                    ..rest
                },
                Some(id),
            )
        } else {
            (rest, None)
        }
    }
}

pub open spec fn spec_set_state(w: SchedulerView, id: TransferId, s: TransferState, now: u64) -> SchedulerView {
    let i = position(ids_of(w.tasks), id);
    if i >= 0 {
        SchedulerView { tasks: w.tasks.update(i, with_new_state(w.tasks[i], s, now)), ..w }
    } else {
        w
    }
}

/// The upload future of `id` ended: it gives its permit back.
pub open spec fn spec_release(w: SchedulerView, id: TransferId) -> SchedulerView {
    if w.executing.contains(id) {
        SchedulerView { executing: without(w.executing, id), permits: w.permits + 1, ..w }
    } else {
        w
    }
}

proof fn lemma_position(ids: Seq<TransferId>, i: int)
    requires
        distinct(ids),
        0 <= i < ids.len(),
    ensures
        position(ids, ids[i]) == i,
{
}

proof fn lemma_release_wf(w: SchedulerView, id: TransferId)
    requires
        w.wf(),
    ensures
        spec_release(w, id).wf(),
{
    if w.executing.contains(id) {
        lemma_without_distinct(w.executing, id);
        assert forall|x: TransferId| spec_release(w, id).pending.contains(x) implies !spec_release(w, id).executing.contains(x) by {
            lemma_without_contains(w.executing, id, x);
        }
        assert(without(w.executing, id).len() + 1 == w.executing.len()) by {
            lemma_without_len(w.executing, id);
        }
    }
}

proof fn lemma_without_len(s: Seq<TransferId>, id: TransferId)
    requires
        distinct(s),
        s.contains(id),
    ensures
        without(s, id).len() + 1 == s.len(),
    decreases s.len(),
{
    reveal(Seq::filter);
    let rest = s.drop_last();
    assert(rest.push(s.last()) == s);
    rest.lemma_filter_push(s.last(), crate::idlist::not_id(id));
    if s.last() == id {
        assert(!rest.contains(id)) by {
            if rest.contains(id) {
                let k = choose|k: int| 0 <= k < rest.len() && rest[k] == id;
                assert(s[k] == s[s.len() - 1]);
            }
        }
        crate::idlist::lemma_without_absent(rest, id);
    } else {
        let k = choose|k: int| 0 <= k < s.len() && s[k] == id;
        assert(rest[k] == id);
        lemma_without_len(rest, id);
    }
}

impl TaskManager {
    /// An empty table with `capacity` permits.
    pub fn new(capacity: usize) -> (r: TaskManager)
        ensures
            r@ == (SchedulerView {
                tasks: Seq::empty(),
                pending: Seq::empty(),
                running: Seq::empty(),
                executing: Seq::empty(),
                permits: capacity as nat,
                capacity: capacity as nat,
            }),
            r@.wf(),
    {
        let r = TaskManager {
            tasks: Vec::new(),
            pending_tasks: Vec::new(),
            running_tasks: Vec::new(),
            executing: Vec::new(),
            permits: capacity,
            capacity,
        };
        assert(ids_of(r@.tasks) =~= Seq::<TransferId>::empty());
        r
    }

    fn find(&self, id: TransferId) -> (r: Option<usize>)
        requires
            distinct(ids_of(self@.tasks)),
        ensures
            r matches Some(i) ==> i < self@.tasks.len() && self@.tasks[i as int].id == id
                && position(ids_of(self@.tasks), id) == i && ids_of(self@.tasks).contains(id),
            r is None ==> position(ids_of(self@.tasks), id) == -1 && !ids_of(self@.tasks).contains(id),
    {
        let mut i: usize = 0;
        while i < self.tasks.len()
            invariant
                i <= self.tasks.len(),
                distinct(ids_of(self@.tasks)),
                forall|k: int| 0 <= k < i ==> self@.tasks[k].id != id,
            decreases self.tasks.len() - i,
        {
            if self.tasks[i].id == id {
                proof {
                    assert(ids_of(self@.tasks)[i as int] == id);
                    lemma_position(ids_of(self@.tasks), i as int);
                }
                return Some(i);
            }
            i = i + 1;
        }
        proof {
            if ids_of(self@.tasks).contains(id) {
                let k = choose|k: int| 0 <= k < ids_of(self@.tasks).len() && ids_of(self@.tasks)[k] == id;
                assert(self@.tasks[k].id == id);
            }
        }
        None
    }

    /// Adds a queued transfer under `id` at the front of the pending queue. An
    /// identifier that the table already uses is refused and nothing changes.
    pub fn insert_task(&mut self, id: TransferId, now: u64) -> (r: Result<(), TransferError>)
        requires
            old(self)@.wf(),
        ensures
            final(self)@.wf(),
            r is Err <==> id_in_use(old(self)@, id),
            r is Ok ==> final(self)@ == spec_add(old(self)@, id, now),
            r is Err ==> final(self)@ == old(self)@ && r matches Err(TransferError::Other(_)),
    {
        if self.find(id).is_some() || contains_transfer_id(&self.pending_tasks, id)
            || contains_transfer_id(&self.executing, id) {
            return Err(TransferError::Other(String::from_str("Transfer id already in use")));
        }
        let ghost old_view = self@;
        self.tasks.push(TransferTask::new(id, now));
        self.pending_tasks.insert(0, id);
        proof {
            assert(self@.pending =~= seq![id] + old_view.pending);
            assert(ids_of(self@.tasks) =~= ids_of(old_view.tasks).push(id));
            assert forall|x: TransferId| #[trigger] self@.pending.contains(x) ==> (x == id || old_view.pending.contains(x)) by {
                if self@.pending.contains(x) && x != id {
                    let k = choose|k: int| 0 <= k < self@.pending.len() && self@.pending[k] == x;
                    assert(old_view.pending[k - 1] == x);
                }
            }
            assert forall|a: int, b: int| 0 <= a < self@.pending.len() && 0 <= b < self@.pending.len() && a != b implies self@.pending[a] != self@.pending[b] by {
                if a > 0 && b > 0 {
                    assert(self@.pending[a] == old_view.pending[a - 1]);
                    assert(self@.pending[b] == old_view.pending[b - 1]);
                } else if a == 0 {
                    assert(old_view.pending.contains(self@.pending[b]));
                } else {
                    assert(old_view.pending.contains(self@.pending[a]));
                }
            }
        }
        Ok(())
    }

    /// Adds a new queued transfer under a fresh random identifier.
    pub fn add_task(&mut self, now: u64) -> (r: Result<TransferId, TransferError>)
        requires
            old(self)@.wf(),
        ensures
            final(self)@.wf(),
            r matches Ok(id) ==> final(self)@ == spec_add(old(self)@, id, now) && is_v4_uuid(id.0),
            r is Err ==> final(self)@ == old(self)@ && r matches Err(TransferError::Other(_)),
            r is Err ==> exists|id: TransferId| is_v4_uuid(id.0) && id_in_use(old(self)@, id),
    {
        let id = TransferId::new();
        match self.insert_task(id, now) {
            Ok(()) => Ok(id),
            Err(e) => Err(e),
        }
    }

    /// Picks the next transfer to start: when a permit is free, the identifier
    /// at the back of the queue leaves it; if it names a transfer, that transfer
    /// takes the permit and gets a cancellation token.
    pub fn schedule(&mut self) -> (r: Option<TransferId>)
        requires
            old(self)@.wf(),
        ensures
            final(self)@.wf(),
            (final(self)@, r) == spec_schedule(old(self)@),
    {
        let ghost old_view = self@;
        if self.permits == 0 || self.pending_tasks.len() == 0 {
            return None;
        }
        let id = self.pending_tasks.pop().unwrap();
        proof {
            assert(self@.pending =~= old_view.pending.drop_last());
            assert(old_view.pending.contains(id));
            assert forall|a: int, b: int| 0 <= a < self@.pending.len() && 0 <= b < self@.pending.len() && a != b implies self@.pending[a] != self@.pending[b] by {
                assert(self@.pending[a] == old_view.pending[a]);
                assert(self@.pending[b] == old_view.pending[b]);
            }
            assert forall|x: TransferId| #[trigger] self@.pending.contains(x) implies old_view.pending.contains(x) && x != id by {
                let k = choose|k: int| 0 <= k < self@.pending.len() && self@.pending[k] == x;
                assert(old_view.pending[k] == x);
                assert(old_view.pending[old_view.pending.len() - 1] == id);
            }
        }
        if self.find(id).is_none() {
            return None;
        }
        self.permits = self.permits - 1;
        if !contains_transfer_id(&self.running_tasks, id) {
            self.running_tasks.push(id);
        }
        self.executing.push(id);
        proof {
            assert(!old_view.executing.contains(id));
            assert forall|a: int, b: int| 0 <= a < self@.executing.len() && 0 <= b < self@.executing.len() && a != b implies self@.executing[a] != self@.executing[b] by {
                if a == old_view.executing.len() {
                    assert(old_view.executing.contains(self@.executing[b]));
                } else if b == old_view.executing.len() {
                    assert(old_view.executing.contains(self@.executing[a]));
                }
            }
            assert forall|a: int, b: int| 0 <= a < self@.running.len() && 0 <= b < self@.running.len() && a != b implies self@.running[a] != self@.running[b] by {
                if !old_view.running.contains(id) {
                    if a == old_view.running.len() {
                        assert(old_view.running.contains(self@.running[b]));
                    } else if b == old_view.running.len() {
                        assert(old_view.running.contains(self@.running[a]));
                    }
                }
            }
            assert forall|x: TransferId| #[trigger] self@.pending.contains(x) implies !self@.executing.contains(x) by {
                if self@.executing.contains(x) && x != id {
                    let k = choose|k: int| 0 <= k < self@.executing.len() && self@.executing[k] == x;
                    assert(old_view.executing[k] == x);
                }
            }
        }
        Some(id)
    }

    fn set_state(&mut self, id: TransferId, s: TransferState, now: u64)
        requires
            old(self)@.wf(),
        ensures
            final(self)@.wf(),
            final(self)@ == spec_set_state(old(self)@, id, s, now),
    {
        let ghost old_view = self@;
        if let Some(i) = self.find(id) {
            let mut t = self.tasks[i];
            t.state = s;
            match s {
                TransferState::Transferring => {
                    t.started_at = Some(now);
                },
                TransferState::Completed | TransferState::Failed | TransferState::Cancelled => {
                    t.completed_at = Some(now);
                },
                _ => {},
            }
            self.tasks.set(i, t);
            assert(ids_of(self@.tasks) =~= ids_of(old_view.tasks));
        }
    }

    fn release(&mut self, id: TransferId)
        requires
            old(self)@.wf(),
        ensures
            final(self)@.wf(),
            final(self)@ == spec_release(old(self)@, id),
    {
        proof {
            lemma_release_wf(old(self)@, id);
        }
        if contains_transfer_id(&self.executing, id) {
            remove_transfer_id(&mut self.executing, id);
            self.permits = self.permits + 1;
        }
    }

    /// The transfer `id` began executing.
    pub fn on_execute(&mut self, id: TransferId, now: u64)
        requires
            old(self)@.wf(),
        ensures
            final(self)@.wf(),
            final(self)@ == spec_set_state(old(self)@, id, TransferState::Transferring, now),
    {
        self.set_state(id, TransferState::Transferring, now);
    }

    /// The transfer `id` completed: its token is dropped, it is marked completed,
    /// and its permit is free again. Returns whether a permit is free, in which
    /// case the next transfer may be scheduled.
    pub fn on_completed(&mut self, id: TransferId, now: u64) -> (r: bool)
        requires
            old(self)@.wf(),
        ensures
            final(self)@.wf(),
            final(self)@ == spec_release(
                spec_set_state(
                    SchedulerView { running: without(old(self)@.running, id), ..old(self)@ },
                    id,
                    TransferState::Completed,
                    now,
                ),
                id,
            ),
            r == (final(self)@.permits != 0),
    {
        remove_transfer_id(&mut self.running_tasks, id);
        proof {
            lemma_without_distinct(old(self)@.running, id);
        }
        self.set_state(id, TransferState::Completed, now);
        self.release(id);
        self.permits != 0
    }

    /// The transfer `id` failed: its upload future ended and gives its permit back.
    /// Nothing else changes.
    pub fn on_failed(&mut self, id: TransferId)
        requires
            old(self)@.wf(),
        ensures
            final(self)@.wf(),
            final(self)@ == spec_release(old(self)@, id),
    {
        self.release(id);
    }

    /// Cancels and forgets the transfer `id`. A queued transfer leaves the queue;
    /// a transferring one loses its token (returned, to be cancelled) and its
    /// permit.
    pub fn cancel_task(&mut self, id: TransferId) -> (r: Option<TransferId>)
        requires
            old(self)@.wf(),
        ensures
            final(self)@.wf(),
            ({
                let i = position(ids_of(old(self)@.tasks), id);
                if i < 0 {
                    r is None && final(self)@ == old(self)@
                } else {
                    let base = SchedulerView { tasks: old(self)@.tasks.remove(i), ..old(self)@ };
                    match old(self)@.tasks[i].state {
                        TransferState::Queued => r is None && final(self)@ == (SchedulerView {
                            pending: without(old(self)@.pending, id),
                            ..base
                        }),
                        TransferState::Transferring => if old(self)@.running.contains(id) {
                            r == Some(id) && final(self)@ == spec_release(
                                SchedulerView { running: without(old(self)@.running, id), ..base },
                                id,
                            )
                        } else {
                            r is None && final(self)@ == base
                        },
                        _ => r is None && final(self)@ == base,
                    }
                }
            }),
    {
        let ghost old_view = self@;
        let i = match self.find(id) {
            Some(i) => i,
            None => return None,
        };
        let t = self.tasks.remove(i);
        proof {
            let ids = ids_of(old_view.tasks);
            assert(ids_of(self@.tasks) =~= ids.remove(i as int));
            assert forall|a: int, b: int| 0 <= a < ids.remove(i as int).len() && 0 <= b < ids.remove(i as int).len() && a != b implies ids.remove(i as int)[a] != ids.remove(i as int)[b] by {
                let a2 = if a < i { a } else { a + 1 };
                let b2 = if b < i { b } else { b + 1 };
                assert(ids.remove(i as int)[a] == ids[a2]);
                assert(ids.remove(i as int)[b] == ids[b2]);
            }
        }
        match t.state {
            TransferState::Queued => {
                remove_transfer_id(&mut self.pending_tasks, id);
                proof {
                    lemma_without_distinct(old_view.pending, id);
                    assert forall|x: TransferId| self@.pending.contains(x) implies !self@.executing.contains(x) by {
                        lemma_without_contains(old_view.pending, id, x);
                    }
                }
                None
            },
            TransferState::Transferring => {
                if contains_transfer_id(&self.running_tasks, id) {
                    remove_transfer_id(&mut self.running_tasks, id);
                    proof {
                        lemma_without_distinct(old_view.running, id);
                    }
                    self.release(id);
                    Some(id)
                } else {
                    None
                }
            },
            _ => None,
        }
    }
}

/// Law: no more transfers execute at once than the scheduler has permits.
pub proof fn law_executing_within_capacity(w: SchedulerView)
    requires
        w.wf(),
    ensures
        w.executing.len() <= w.capacity,
{
}

/// Law: transfers start in the order they were added. Adding `a` and then `b`
/// to a scheduler with an empty queue and a free permit starts `a` first.
pub proof fn law_first_added_first_started(w: SchedulerView, a: TransferId, b: TransferId, now: u64)
    requires
        w.wf(),
        w.pending.len() == 0,
        w.permits > 0,
        a != b,
    ensures
        spec_add(spec_add(w, a, now), b, now).pending == seq![b, a],
        spec_schedule(spec_add(spec_add(w, a, now), b, now)).1 == Some(a),
{
    let w2 = spec_add(spec_add(w, a, now), b, now);
    assert(w2.pending =~= seq![b, a]);
    assert(ids_of(w2.tasks)[w.tasks.len() as int] == a);
}

} // verus!

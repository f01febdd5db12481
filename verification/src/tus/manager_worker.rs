//! The decisions of the upload manager, as a state machine.
//!
//! The worker keeps the task table, the queue of waiting uploads and the set of
//! running ones. Each command changes that state and appends the events to
//! report and the actions (cancelling a running upload, deleting an upload on
//! the server) that the runtime must perform. The runtime performs the network
//! and file work and hands the results back.
use vstd::prelude::*;
use super::errors::{tus_error_message, TusError};
use crate::idlist::{contains_id, distinct, lemma_filter_distinct, lemma_without_absent,
    lemma_without_contains, lemma_without_distinct, remove_id, without};
use super::task::{copy_opt_string, copy_pairs, UploadTask, UploadTaskView};
use super::types::{is_v4_uuid, UploadConfig, UploadEvent, UploadId, UploadState};
use crate::text::push_str;

verus! {

/// The worker's record of one task. The runtime keeps the cancellation token
/// and the join handle of a running upload; the record says whether they exist.
pub struct TaskHandle {
    pub task: UploadTask,
    pub has_token: bool,
    pub has_join: bool,
}

pub struct TaskHandleView {
    pub task: UploadTaskView,
    pub has_token: bool,
    pub has_join: bool,
}

impl View for TaskHandle {
    type V = TaskHandleView;

    open spec fn view(&self) -> TaskHandleView {
        TaskHandleView { task: self.task@, has_token: self.has_token, has_join: self.has_join }
    }
}

/// Work that the runtime performs on the worker's behalf: cancelling the running
/// upload of a task, or deleting an upload on the server.
#[derive(Clone, Debug, PartialEq, Eq)]
pub enum WorkerAction {
    CancelToken(UploadId),
    /// Ask the server to delete the upload at this URL; the answer is ignored.
    DeleteOnServer(String),
}

/// The size and kind of a file, as the file system reports it.
#[derive(Clone, Copy, Debug)]
pub struct FileStat {
    pub is_file: bool,
    pub len: u64,
}

/// What a finished upload future returned.
#[derive(Clone, Debug)]
pub enum UploadOutcome {
    /// The upload completed at this URL.
    Finished(String),
    /// The upload returned this error.
    Failed(TusError),
    /// The upload task panicked; the message of the join error.
    Panicked(String),
}

/// What the runtime needs to start the upload of the task at the front of the queue.
pub struct StartRequest {
    pub upload_id: UploadId,
    pub file_size: u64,
    /// Whether the upload session must first be created on the server.
    pub needs_url: bool,
    pub metadata: Option<Vec<(String, String)>>,
}

pub struct WorkerView {
    pub config: UploadConfig,
    pub tasks: Seq<TaskHandleView>,
    pub queued: Seq<UploadId>,
    pub active: Seq<UploadId>,
}

/// The state of the upload manager.
pub struct UploadManagerWorker {
    config: UploadConfig,
    tasks: Vec<TaskHandle>,
    queued_tasks: Vec<UploadId>,
    active_uploads: Vec<UploadId>,
}

impl View for UploadManagerWorker {
    type V = WorkerView;

    closed spec fn view(&self) -> WorkerView {
        WorkerView {
            config: self.config,
            tasks: handles_view(self.tasks@),
            queued: self.queued_tasks@,
            active: self.active_uploads@,
        }
    }
}

pub open spec fn handles_view(v: Seq<TaskHandle>) -> Seq<TaskHandleView> {
    v.map_values(|h: TaskHandle| h@)
}

pub open spec fn task_ids_distinct(ts: Seq<TaskHandleView>) -> bool {
    forall|i: int, j: int|
        0 <= i < ts.len() && 0 <= j < ts.len() && i != j ==> ts[i].task.id != ts[j].task.id
}

pub open spec fn has_task(ts: Seq<TaskHandleView>, id: UploadId) -> bool {
    exists|i: int| 0 <= i < ts.len() && ts[i].task.id == id
}

pub open spec fn task_index(ts: Seq<TaskHandleView>, id: UploadId) -> int {
    choose|i: int| 0 <= i < ts.len() && ts[i].task.id == id
}

/// The record of the task `id`, if there is one.
pub open spec fn lookup(ts: Seq<TaskHandleView>, id: UploadId) -> Option<TaskHandleView> {
    if has_task(ts, id) {
        Some(ts[task_index(ts, id)])
    } else {
        None
    }
}

pub open spec fn with_state(h: TaskHandleView, s: UploadState) -> TaskHandleView {
    TaskHandleView { task: UploadTaskView { state: s, ..h.task }, ..h }
}

pub open spec fn state_changed(id: UploadId, from: UploadState, to: UploadState) -> UploadEvent {
    UploadEvent::StateChanged { upload_id: id, old_state: from, new_state: to }
}

/// The error for an unknown task: a parameter error with the given text.
pub open spec fn is_param_error(e: TusError, text: Seq<char>) -> bool {
    e matches TusError::ParamError(m) && m@ == text
}

impl WorkerView {
    /// The invariant of the worker: identifiers are unique in each list, a
    /// waiting task is in the queue and only a waiting or a failed one may be
    /// there, the
    /// running set is exactly the tasks in the `Uploading` state, each of which
    /// has a cancellation token, and no more of them run than the configured limit.
    pub open spec fn wf(self) -> bool {
        &&& task_ids_distinct(self.tasks)
        &&& distinct(self.queued)
        &&& distinct(self.active)
        &&& forall|i: int|
            0 <= i < self.tasks.len() && self.tasks[i].task.state == UploadState::Queued
                ==> self.queued.contains(self.tasks[i].task.id)
        &&& forall|i: int|
            0 <= i < self.tasks.len() && self.tasks[i].task.state != UploadState::Queued
                && self.tasks[i].task.state != UploadState::Failed ==> !self.queued.contains(
                self.tasks[i].task.id,
            )
        &&& forall|i: int|
            0 <= i < self.tasks.len() ==> (self.tasks[i].task.state == UploadState::Uploading
                <==> self.active.contains(self.tasks[i].task.id))
        &&& forall|i: int|
            0 <= i < self.tasks.len() && self.tasks[i].task.state == UploadState::Uploading
                ==> self.tasks[i].has_token
        &&& forall|k: int| 0 <= k < self.active.len() ==> has_task(self.tasks, self.active[k])
        &&& self.active.len() <= self.config.concurrent
    }
}

/// Changing only the state of the task at `i` keeps the set of identifiers.
proof fn lemma_update_keeps_ids(ts: Seq<TaskHandleView>, i: int, s: UploadState)
    requires
        0 <= i < ts.len(),
    ensures
        forall|x: UploadId| has_task(ts, x) <==> has_task(
            ts.update(i, with_state(ts[i], s)),
            x,
        ),
        task_ids_distinct(ts) ==> task_ids_distinct(ts.update(i, with_state(ts[i], s))),
{
    let nts = ts.update(i, with_state(ts[i], s));
    assert forall|x: UploadId| has_task(ts, x) implies has_task(nts, x) by {
        let j = choose|j: int| 0 <= j < ts.len() && ts[j].task.id == x;
        assert(nts[j].task.id == x);
    }
    assert forall|x: UploadId| has_task(nts, x) implies has_task(ts, x) by {
        let j = choose|j: int| 0 <= j < nts.len() && nts[j].task.id == x;
        assert(ts[j].task.id == x);
    }
}

/// A waiting task that leaves the queue for a state other than waiting,
/// running or paused-outside-the-queue keeps the invariant.
proof fn lemma_wf_leave_queue(old: WorkerView, i: int, s: UploadState)
    requires
        old.wf(),
        0 <= i < old.tasks.len(),
        old.tasks[i].task.state == UploadState::Queued,
        s != UploadState::Queued,
        s != UploadState::Uploading,
    ensures
        (WorkerView {
            tasks: old.tasks.update(i, with_state(old.tasks[i], s)),
            queued: without(old.queued, old.tasks[i].task.id),
            ..old
        }).wf(),
{
    let id = old.tasks[i].task.id;
    let new = WorkerView {
        tasks: old.tasks.update(i, with_state(old.tasks[i], s)),
        queued: without(old.queued, id),
        ..old
    };
    lemma_update_keeps_ids(old.tasks, i, s);
    lemma_without_distinct(old.queued, id);
    assert forall|x: UploadId| #[trigger] new.queued.contains(x) <==> (old.queued.contains(x) && x != id) by {
        lemma_without_contains(old.queued, id, x);
    }
    assert(!old.active.contains(id));
    assert forall|k: int| 0 <= k < new.active.len() implies has_task(new.tasks, new.active[k]) by {
        assert(has_task(old.tasks, old.active[k]));
    }
}

/// A running task that stops (leaving the running set) for a state that is
/// neither waiting nor running keeps the invariant.
proof fn lemma_wf_stop_running(old: WorkerView, i: int, s: UploadState)
    requires
        old.wf(),
        0 <= i < old.tasks.len(),
        old.tasks[i].task.state == UploadState::Uploading,
        s != UploadState::Queued,
        s != UploadState::Uploading,
    ensures
        (WorkerView {
            tasks: old.tasks.update(i, with_state(old.tasks[i], s)),
            active: without(old.active, old.tasks[i].task.id),
            ..old
        }).wf(),
{
    let id = old.tasks[i].task.id;
    let new = WorkerView {
        tasks: old.tasks.update(i, with_state(old.tasks[i], s)),
        active: without(old.active, id),
        ..old
    };
    lemma_update_keeps_ids(old.tasks, i, s);
    lemma_without_distinct(old.active, id);
    assert forall|x: UploadId| #[trigger] new.active.contains(x) <==> (old.active.contains(x) && x != id) by {
        lemma_without_contains(old.active, id, x);
    }
    assert forall|k: int| 0 <= k < new.active.len() implies has_task(new.tasks, new.active[k]) by {
        assert(new.active.contains(new.active[k]));
        let j = choose|j: int| 0 <= j < old.active.len() && old.active[j] == new.active[k];
        assert(has_task(old.tasks, old.active[j]));
    }
    assert(new.active.len() <= old.active.len());
}

/// A paused task that goes back to the queue keeps the invariant.
proof fn lemma_wf_requeue(old: WorkerView, i: int)
    requires
        old.wf(),
        0 <= i < old.tasks.len(),
        old.tasks[i].task.state == UploadState::Paused,
    ensures
        (WorkerView {
            tasks: old.tasks.update(i, with_state(old.tasks[i], UploadState::Queued)),
            queued: old.queued.push(old.tasks[i].task.id),
            ..old
        }).wf(),
{
    let id = old.tasks[i].task.id;
    let new = WorkerView {
        tasks: old.tasks.update(i, with_state(old.tasks[i], UploadState::Queued)),
        queued: old.queued.push(id),
        ..old
    };
    lemma_update_keeps_ids(old.tasks, i, UploadState::Queued);
    assert(!old.queued.contains(id));
    assert(!old.active.contains(id));
    assert forall|x: UploadId| #[trigger] new.queued.contains(x) <==> (old.queued.contains(x) || x == id) by {
        if new.queued.contains(x) && x != id {
            let j = choose|j: int| 0 <= j < new.queued.len() && new.queued[j] == x;
            assert(old.queued[j] == x);
        }
        if old.queued.contains(x) {
            let j = choose|j: int| 0 <= j < old.queued.len() && old.queued[j] == x;
            assert(new.queued[j] == x);
        }
        if x == id {
            assert(new.queued[old.queued.len() as int] == id);
        }
    }
    assert forall|k: int| 0 <= k < new.active.len() implies has_task(new.tasks, new.active[k]) by {
        assert(has_task(old.tasks, old.active[k]));
    }
}

/// Removing the task at `i` keeps the invariant, given that its identifier
/// leaves the running set when the task was running, and leaves the queue
/// when the task was waiting (a waiting identifier may also stay behind).
proof fn lemma_wf_remove(old: WorkerView, i: int, new_queued: Seq<UploadId>, new_active: Seq<UploadId>)
    requires
        old.wf(),
        0 <= i < old.tasks.len(),
        new_queued == old.queued || new_queued == without(old.queued, old.tasks[i].task.id),
        new_active == old.active || new_active == without(old.active, old.tasks[i].task.id),
        old.active.contains(old.tasks[i].task.id) ==> new_active == without(
            old.active,
            old.tasks[i].task.id,
        ),
    ensures
        (WorkerView { tasks: old.tasks.remove(i), queued: new_queued, active: new_active, ..old }).wf(),
{
    let id = old.tasks[i].task.id;
    let nts = old.tasks.remove(i);
    let new = WorkerView { tasks: nts, queued: new_queued, active: new_active, ..old };
    lemma_without_distinct(old.queued, id);
    lemma_without_distinct(old.active, id);
    assert forall|j: int| 0 <= j < nts.len() implies nts[j].task.id != id by {
        if j < i {
            assert(nts[j] == old.tasks[j]);
        } else {
            assert(nts[j] == old.tasks[j + 1]);
        }
    }
    assert forall|x: UploadId| x != id implies (#[trigger] new.queued.contains(x) <==> old.queued.contains(x)) by {
        lemma_without_contains(old.queued, id, x);
    }
    assert forall|x: UploadId| x != id implies (#[trigger] new.active.contains(x) <==> old.active.contains(x)) by {
        lemma_without_contains(old.active, id, x);
    }
    assert forall|k: int| 0 <= k < new.active.len() implies has_task(new.tasks, new.active[k]) by {
        let x = new.active[k];
        assert(new.active.contains(x));
        lemma_without_contains(old.active, id, x);
        assert(old.active.contains(x));
        assert(x != id);
        let kk = choose|kk: int| 0 <= kk < old.active.len() && old.active[kk] == x;
        assert(has_task(old.tasks, old.active[kk]));
        let j = choose|j: int| 0 <= j < old.tasks.len() && old.tasks[j].task.id == x;
        if j < i {
            assert(nts[j].task.id == x);
        } else {
            assert(j != i);
            assert(nts[j - 1].task.id == x);
        }
    }
    assert(new.active.len() <= old.active.len());
}

/// The record of a newly added task.
pub open spec fn new_handle(
    id: UploadId,
    file_path: Seq<char>,
    file_size: u64,
    metadata: Option<Seq<(String, String)>>,
    now: i64,
) -> TaskHandleView {
    TaskHandleView {
        task: UploadTaskView {
            id,
            file_path,
            file_size,
            upload_url: None,
            state: UploadState::Queued,
            bytes_uploaded: 0,
            created_at: now,
            started_at: None,
            completed_at: None,
            error: None,
            metadata,
        },
        has_token: false,
        has_join: false,
    }
}

pub open spec fn opt_pairs_view(m: Option<Vec<(String, String)>>) -> Option<Seq<(String, String)>> {
    match m {
        Some(v) => Some(v@),
        None => None,
    }
}

/// Adding a waiting task under a new identifier keeps the invariant.
proof fn lemma_wf_add(old: WorkerView, h: TaskHandleView)
    requires
        old.wf(),
        !has_task(old.tasks, h.task.id),
        !old.queued.contains(h.task.id),
        h.task.state == UploadState::Queued,
    ensures
        (WorkerView { tasks: old.tasks.push(h), queued: old.queued.push(h.task.id), ..old }).wf(),
{
    let id = h.task.id;
    let new = WorkerView { tasks: old.tasks.push(h), queued: old.queued.push(id), ..old };
    assert(!old.active.contains(id)) by {
        if old.active.contains(id) {
            let k = choose|k: int| 0 <= k < old.active.len() && old.active[k] == id;
            assert(has_task(old.tasks, old.active[k]));
        }
    }
    assert forall|x: UploadId| #[trigger] new.queued.contains(x) <==> (old.queued.contains(x) || x == id) by {
        if new.queued.contains(x) && x != id {
            let j = choose|j: int| 0 <= j < new.queued.len() && new.queued[j] == x;
            assert(old.queued[j] == x);
        }
        if old.queued.contains(x) {
            let j = choose|j: int| 0 <= j < old.queued.len() && old.queued[j] == x;
            assert(new.queued[j] == x);
        }
        if x == id {
            assert(new.queued[old.queued.len() as int] == id);
        }
    }
    assert forall|j: int| 0 <= j < old.tasks.len() implies old.tasks[j].task.id != id by {
        if old.tasks[j].task.id == id {
            assert(has_task(old.tasks, id));
        }
    }
    assert forall|k: int| 0 <= k < new.active.len() implies has_task(new.tasks, new.active[k]) by {
        assert(has_task(old.tasks, old.active[k]));
        let j = choose|j: int| 0 <= j < old.tasks.len() && old.tasks[j].task.id == old.active[k];
        assert(new.tasks[j].task.id == old.active[k]);
    }
}

/// Replacing the record at `i` by one with the same identifier keeps the identifiers.
proof fn lemma_set_keeps_ids(ts: Seq<TaskHandleView>, i: int, nh: TaskHandleView)
    requires
        0 <= i < ts.len(),
        nh.task.id == ts[i].task.id,
    ensures
        forall|x: UploadId| has_task(ts, x) <==> has_task(ts.update(i, nh), x),
        task_ids_distinct(ts) ==> task_ids_distinct(ts.update(i, nh)),
{
    let nts = ts.update(i, nh);
    assert forall|x: UploadId| has_task(ts, x) implies has_task(nts, x) by {
        let j = choose|j: int| 0 <= j < ts.len() && ts[j].task.id == x;
        assert(nts[j].task.id == x);
    }
    assert forall|x: UploadId| has_task(nts, x) implies has_task(ts, x) by {
        let j = choose|j: int| 0 <= j < nts.len() && nts[j].task.id == x;
        assert(ts[j].task.id == x);
    }
}

/// A waiting task that leaves the queue for a state that is neither waiting
/// nor running keeps the invariant.
proof fn lemma_wf_dequeue(old: WorkerView, i: int, nh: TaskHandleView)
    requires
        old.wf(),
        0 <= i < old.tasks.len(),
        old.tasks[i].task.state == UploadState::Queued,
        nh.task.id == old.tasks[i].task.id,
        nh.task.state != UploadState::Queued,
        nh.task.state != UploadState::Uploading,
    ensures
        (WorkerView {
            tasks: old.tasks.update(i, nh),
            queued: without(old.queued, nh.task.id),
            ..old
        }).wf(),
{
    let id = nh.task.id;
    let new = WorkerView { tasks: old.tasks.update(i, nh), queued: without(old.queued, id), ..old };
    lemma_set_keeps_ids(old.tasks, i, nh);
    lemma_without_distinct(old.queued, id);
    assert forall|x: UploadId| #[trigger] new.queued.contains(x) <==> (old.queued.contains(x) && x != id) by {
        lemma_without_contains(old.queued, id, x);
    }
    assert(!old.active.contains(id));
    assert forall|k: int| 0 <= k < new.active.len() implies has_task(new.tasks, new.active[k]) by {
        assert(has_task(old.tasks, old.active[k]));
    }
}

/// A waiting task that starts running keeps the invariant, when a slot is free.
proof fn lemma_wf_start(old: WorkerView, i: int, nh: TaskHandleView)
    requires
        old.wf(),
        0 <= i < old.tasks.len(),
        old.tasks[i].task.state == UploadState::Queued,
        nh.task.id == old.tasks[i].task.id,
        nh.task.state == UploadState::Uploading,
        nh.has_token,
        old.active.len() < old.config.concurrent,
    ensures
        (WorkerView {
            tasks: old.tasks.update(i, nh),
            queued: without(old.queued, nh.task.id),
            active: old.active.push(nh.task.id),
            ..old
        }).wf(),
{
    let id = nh.task.id;
    let new = WorkerView {
        tasks: old.tasks.update(i, nh),
        queued: without(old.queued, id),
        active: old.active.push(id),
        ..old
    };
    lemma_set_keeps_ids(old.tasks, i, nh);
    lemma_without_distinct(old.queued, id);
    assert(!old.active.contains(id));
    assert forall|x: UploadId| #[trigger] new.queued.contains(x) <==> (old.queued.contains(x) && x != id) by {
        lemma_without_contains(old.queued, id, x);
    }
    assert forall|x: UploadId| #[trigger] new.active.contains(x) <==> (old.active.contains(x) || x == id) by {
        if new.active.contains(x) && x != id {
            let j = choose|j: int| 0 <= j < new.active.len() && new.active[j] == x;
            assert(old.active[j] == x);
        }
        if old.active.contains(x) {
            let j = choose|j: int| 0 <= j < old.active.len() && old.active[j] == x;
            assert(new.active[j] == x);
        }
        if x == id {
            assert(new.active[old.active.len() as int] == id);
        }
    }
    assert forall|k: int| 0 <= k < new.active.len() implies has_task(new.tasks, new.active[k]) by {
        if k < old.active.len() {
            assert(has_task(old.tasks, old.active[k]));
        } else {
            assert(new.tasks[i].task.id == id);
        }
    }
}

/// A task that ends (completed while running, or failed) leaves the running
/// set and keeps the invariant.
proof fn lemma_wf_retire(old: WorkerView, i: int, nh: TaskHandleView)
    requires
        old.wf(),
        0 <= i < old.tasks.len(),
        nh.task.id == old.tasks[i].task.id,
        nh.task.state == UploadState::Failed || (nh.task.state == UploadState::Completed
            && old.tasks[i].task.state == UploadState::Uploading),
    ensures
        (WorkerView {
            tasks: old.tasks.update(i, nh),
            active: without(old.active, nh.task.id),
            ..old
        }).wf(),
{
    let id = nh.task.id;
    let new = WorkerView { tasks: old.tasks.update(i, nh), active: without(old.active, id), ..old };
    lemma_set_keeps_ids(old.tasks, i, nh);
    lemma_without_distinct(old.active, id);
    assert forall|x: UploadId| #[trigger] new.active.contains(x) <==> (old.active.contains(x) && x != id) by {
        lemma_without_contains(old.active, id, x);
    }
    assert forall|k: int| 0 <= k < new.active.len() implies has_task(new.tasks, new.active[k]) by {
        assert(new.active.contains(new.active[k]));
        let j = choose|j: int| 0 <= j < old.active.len() && old.active[j] == new.active[k];
        assert(has_task(old.tasks, old.active[j]));
    }
    assert(new.active.len() <= old.active.len());
}

/// Changing a record without changing its identifier or state keeps the invariant,
/// as long as a running task keeps its token.
proof fn lemma_wf_relabel(old: WorkerView, i: int, nh: TaskHandleView)
    requires
        old.wf(),
        0 <= i < old.tasks.len(),
        nh.task.id == old.tasks[i].task.id,
        nh.task.state == old.tasks[i].task.state,
        nh.task.state == UploadState::Uploading ==> nh.has_token,
    ensures
        (WorkerView { tasks: old.tasks.update(i, nh), ..old }).wf(),
{
    let new = WorkerView { tasks: old.tasks.update(i, nh), ..old };
    lemma_set_keeps_ids(old.tasks, i, nh);
    assert forall|k: int| 0 <= k < new.active.len() implies has_task(new.tasks, new.active[k]) by {
        assert(has_task(old.tasks, old.active[k]));
    }
}

/// The identifier at the front of the queue names a waiting task.
pub open spec fn queued_live(ts: Seq<TaskHandleView>, id: UploadId) -> bool {
    has_task(ts, id) && lookup(ts, id).unwrap().task.state == UploadState::Queued
}

/// The record of a task once its upload runs.
pub open spec fn started_handle(h: TaskHandleView, url: Seq<char>, now: i64) -> TaskHandleView {
    TaskHandleView {
        task: UploadTaskView {
            state: UploadState::Uploading,
            upload_url: Some(url),
            started_at: Some(now),
            ..h.task
        },
        has_token: true,
        has_join: true,
    }
}

/// The record of a task whose upload session could not be created.
pub open spec fn failed_handle(h: TaskHandleView, error: Seq<char>) -> TaskHandleView {
    TaskHandleView {
        task: UploadTaskView { state: UploadState::Failed, error: Some(error), ..h.task },
        ..h
    }
}

/// The record of a task whose upload completed.
pub open spec fn completed_handle(h: TaskHandleView, now: i64) -> TaskHandleView {
    TaskHandleView {
        task: UploadTaskView {
            state: UploadState::Completed,
            completed_at: Some(now),
            bytes_uploaded: h.task.file_size,
            ..h.task
        },
        ..h
    }
}

/// Dropping identifiers from the front of the queue that name no waiting task
/// keeps the invariant.
proof fn lemma_wf_drop_stale(old: WorkerView, k: int)
    requires
        old.wf(),
        0 <= k <= old.queued.len(),
        forall|j: int| 0 <= j < k ==> !queued_live(old.tasks, #[trigger] old.queued[j]),
    ensures
        (WorkerView { queued: old.queued.skip(k), ..old }).wf(),
{
    let new = WorkerView { queued: old.queued.skip(k), ..old };
    assert forall|i: int|
        0 <= i < new.tasks.len() && new.tasks[i].task.state == UploadState::Queued implies new.queued.contains(
        new.tasks[i].task.id,
    ) by {
        let id = new.tasks[i].task.id;
        assert(old.queued.contains(id));
        let m = choose|m: int| 0 <= m < old.queued.len() && old.queued[m] == id;
        lemma_index_unique(old.tasks, i);
        if m < k {
            assert(queued_live(old.tasks, old.queued[m]));
        }
        assert(new.queued[m - k] == id);
    }
    assert forall|x: UploadId| #[trigger] new.queued.contains(x) implies old.queued.contains(x) by {
        let m = choose|m: int| 0 <= m < new.queued.len() && new.queued[m] == x;
        assert(old.queued[m + k] == x);
    }
}

pub open spec fn kept_after_clean() -> spec_fn(TaskHandleView) -> bool {
    |h: TaskHandleView| h.task.state != UploadState::Completed && h.task.state != UploadState::Failed
}

proof fn lemma_filter_keeps_tasks(ts: Seq<TaskHandleView>, p: spec_fn(TaskHandleView) -> bool)
    requires
        task_ids_distinct(ts),
    ensures
        task_ids_distinct(ts.filter(p)),
        forall|j: int| 0 <= j < ts.filter(p).len() ==> ts.contains(#[trigger] ts.filter(p)[j]),
        forall|j: int| 0 <= j < ts.len() && p(ts[j]) ==> has_task(ts.filter(p), #[trigger] ts[j].task.id),
    decreases ts.len(),
{
    reveal(Seq::filter);
    if ts.len() > 0 {
        let rest = ts.drop_last();
        let last = ts.last();
        lemma_filter_keeps_tasks(rest, p);
        assert(rest.push(last) == ts);
        rest.lemma_filter_push(last, p);
        let fr = rest.filter(p);
        assert forall|j: int| 0 <= j < ts.filter(p).len() implies ts.contains(#[trigger] ts.filter(p)[j]) by {
            if j < fr.len() {
                assert(rest.contains(fr[j]));
                let m = choose|m: int| 0 <= m < rest.len() && rest[m] == fr[j];
                assert(ts[m] == fr[j]);
            } else {
                assert(ts[ts.len() - 1] == last);
            }
        }
        if p(last) {
            assert forall|j: int| 0 <= j < fr.len() implies fr[j].task.id != last.task.id by {
                let m = choose|m: int| 0 <= m < rest.len() && rest[m] == fr[j];
                assert(ts[m] == fr[j]);
            }
        }
        assert forall|j: int| 0 <= j < ts.len() && p(ts[j]) implies has_task(ts.filter(p), #[trigger] ts[j].task.id) by {
            if j < rest.len() {
                assert(rest[j] == ts[j]);
                assert(has_task(fr, rest[j].task.id));
                let m = choose|m: int| 0 <= m < fr.len() && fr[m].task.id == ts[j].task.id;
                assert(ts.filter(p)[m] == fr[m]);
            } else {
                assert(ts.filter(p)[fr.len() as int] == last);
            }
        }
    }
}

proof fn lemma_wf_clean(old: WorkerView)
    requires
        old.wf(),
    ensures
        (WorkerView { tasks: old.tasks.filter(kept_after_clean()), ..old }).wf(),
{
    let p = kept_after_clean();
    let nts = old.tasks.filter(p);
    let new = WorkerView { tasks: nts, ..old };
    lemma_filter_keeps_tasks(old.tasks, p);
    assert forall|i: int| 0 <= i < nts.len() implies old.tasks.contains(#[trigger] nts[i]) by {}
    assert forall|k: int| 0 <= k < new.active.len() implies has_task(new.tasks, new.active[k]) by {
        assert(has_task(old.tasks, old.active[k]));
        let j = choose|j: int| 0 <= j < old.tasks.len() && old.tasks[j].task.id == old.active[k];
        assert(old.active.contains(old.tasks[j].task.id));
        assert(p(old.tasks[j]));
    }
}

/// The state after `pause_upload`.
pub open spec fn spec_pause(w: WorkerView, id: UploadId) -> WorkerView {
    if !has_task(w.tasks, id) {
        w
    } else {
        let i = task_index(w.tasks, id);
        let h = w.tasks[i];
        match h.task.state {
            UploadState::Queued => WorkerView {
                tasks: w.tasks.update(i, with_state(h, UploadState::Paused)),
                queued: without(w.queued, id),
                ..w
            },
            UploadState::Uploading => WorkerView {
                tasks: w.tasks.update(i, with_state(h, UploadState::Paused)),
                active: without(w.active, id),
                ..w
            },
            _ => w,
        }
    }
}

/// The events that `pause_upload` reports.
pub open spec fn pause_events(w: WorkerView, id: UploadId) -> Seq<UploadEvent> {
    if !has_task(w.tasks, id) {
        Seq::empty()
    } else {
        match lookup(w.tasks, id).unwrap().task.state {
            UploadState::Queued => seq![state_changed(id, UploadState::Queued, UploadState::Paused)],
            UploadState::Uploading => seq![
                state_changed(id, UploadState::Uploading, UploadState::Paused),
            ],
            _ => Seq::empty(),
        }
    }
}

/// The actions of `pause_upload`: a running upload is cancelled.
pub open spec fn pause_actions(w: WorkerView, id: UploadId) -> Seq<WorkerAction> {
    if has_task(w.tasks, id) && lookup(w.tasks, id).unwrap().task.state == UploadState::Uploading {
        seq![WorkerAction::CancelToken(id)]
    } else {
        Seq::empty()
    }
}

/// The state after `resume_upload`.
pub open spec fn spec_resume(w: WorkerView, id: UploadId) -> WorkerView {
    if has_task(w.tasks, id) && lookup(w.tasks, id).unwrap().task.state == UploadState::Paused {
        let i = task_index(w.tasks, id);
        WorkerView {
            tasks: w.tasks.update(i, with_state(w.tasks[i], UploadState::Queued)),
            queued: w.queued.push(id),
            ..w
        }
    } else {
        w
    }
}

/// The events that `resume_upload` reports.
pub open spec fn resume_events(w: WorkerView, id: UploadId) -> Seq<UploadEvent> {
    if has_task(w.tasks, id) && lookup(w.tasks, id).unwrap().task.state == UploadState::Paused {
        seq![state_changed(id, UploadState::Paused, UploadState::Queued)]
    } else {
        Seq::empty()
    }
}

/// The state after `cancel_upload`: the task is forgotten; if it had a token,
/// its identifier also leaves the queue and the running set.
pub open spec fn spec_cancel(w: WorkerView, id: UploadId) -> WorkerView {
    if !has_task(w.tasks, id) {
        w
    } else {
        let i = task_index(w.tasks, id);
        let h = w.tasks[i];
        WorkerView {
            tasks: w.tasks.remove(i),
            queued: if h.has_token {
                without(w.queued, id)
            } else {
                w.queued
            },
            active: if h.has_token {
                without(w.active, id)
            } else {
                w.active
            },
            ..w
        }
    }
}

/// The events that `cancel_upload` reports.
pub open spec fn cancel_events(w: WorkerView, id: UploadId) -> Seq<UploadEvent> {
    if !has_task(w.tasks, id) {
        Seq::empty()
    } else {
        seq![state_changed(id, lookup(w.tasks, id).unwrap().task.state, UploadState::Cancelled)]
    }
}

/// An action, with the URL as its characters.
pub enum ActionView {
    CancelToken(UploadId),
    DeleteOnServer(Seq<char>),
}

pub open spec fn action_view(a: WorkerAction) -> ActionView {
    match a {
        WorkerAction::CancelToken(id) => ActionView::CancelToken(id),
        WorkerAction::DeleteOnServer(u) => ActionView::DeleteOnServer(u@),
    }
}

pub open spec fn actions_view(s: Seq<WorkerAction>) -> Seq<ActionView> {
    s.map_values(|a: WorkerAction| action_view(a))
}

/// The actions of cancelling the task `h`: its token is cancelled when it has
/// one, and its upload is deleted on the server when it has a URL.
pub open spec fn cancel_actions(h: TaskHandleView) -> Seq<ActionView> {
    (if h.has_token {
        seq![ActionView::CancelToken(h.task.id)]
    } else {
        Seq::empty()
    }) + (match h.task.upload_url {
        Some(u) => seq![ActionView::DeleteOnServer(u)],
        None => Seq::empty(),
    })
}

pub open spec fn live_in(ts: Seq<TaskHandleView>) -> spec_fn(UploadId) -> bool {
    |id: UploadId| queued_live(ts, id)
}

pub open spec fn not_live_in(ts: Seq<TaskHandleView>) -> spec_fn(UploadId) -> bool {
    |id: UploadId| !queued_live(ts, id)
}

/// A task after `pause_all`: waiting and running tasks are paused.
pub open spec fn paused_by_pause_all(h: TaskHandleView) -> TaskHandleView {
    if h.task.state == UploadState::Queued || h.task.state == UploadState::Uploading {
        with_state(h, UploadState::Paused)
    } else {
        h
    }
}

/// The state after `pause_all`: every waiting and running task is paused, the
/// queue keeps only the identifiers that named no waiting task, nothing runs.
pub open spec fn spec_pause_all(w: WorkerView) -> WorkerView {
    WorkerView {
        tasks: w.tasks.map_values(|h: TaskHandleView| paused_by_pause_all(h)),
        queued: w.queued.filter(not_live_in(w.tasks)),
        active: Seq::empty(),
        ..w
    }
}

/// The events of `pause_all`: the waiting tasks in queue order, then the running ones.
pub open spec fn pause_all_events(w: WorkerView) -> Seq<UploadEvent> {
    w.queued.filter(live_in(w.tasks)).map_values(
        |id: UploadId| state_changed(id, UploadState::Queued, UploadState::Paused),
    ) + w.active.map_values(
        |id: UploadId| state_changed(id, UploadState::Uploading, UploadState::Paused),
    )
}

pub open spec fn is_paused() -> spec_fn(TaskHandleView) -> bool {
    |h: TaskHandleView| h.task.state == UploadState::Paused
}

/// A task after `resume_all`: a paused task waits again.
pub open spec fn resumed_by_resume_all(h: TaskHandleView) -> TaskHandleView {
    if h.task.state == UploadState::Paused {
        with_state(h, UploadState::Queued)
    } else {
        h
    }
}

/// The state after `resume_all`: the paused tasks wait again, appended to the
/// queue in task order.
pub open spec fn spec_resume_all(w: WorkerView) -> WorkerView {
    WorkerView {
        tasks: w.tasks.map_values(|h: TaskHandleView| resumed_by_resume_all(h)),
        queued: w.queued + w.tasks.filter(is_paused()).map_values(|h: TaskHandleView| h.task.id),
        ..w
    }
}

pub open spec fn resume_all_events(w: WorkerView) -> Seq<UploadEvent> {
    w.tasks.filter(is_paused()).map_values(
        |h: TaskHandleView| state_changed(h.task.id, UploadState::Paused, UploadState::Queued),
    )
}

pub open spec fn not_token_holder_in(ts: Seq<TaskHandleView>) -> spec_fn(UploadId) -> bool {
    |id: UploadId| !(has_task(ts, id) && lookup(ts, id).unwrap().has_token)
}

/// The state after `cancel_all`: no task is left, and nothing runs.
pub open spec fn spec_cancel_all(w: WorkerView) -> WorkerView {
    WorkerView {
        tasks: Seq::empty(),
        queued: w.queued.filter(not_token_holder_in(w.tasks)),
        active: Seq::empty(),
        ..w
    }
}

pub open spec fn cancel_all_events(w: WorkerView) -> Seq<UploadEvent> {
    w.tasks.map_values(
        |h: TaskHandleView| state_changed(h.task.id, h.task.state, UploadState::Cancelled),
    )
}

/// The actions of cancelling the tasks `ts` one after the other.
pub open spec fn cancel_all_actions(ts: Seq<TaskHandleView>) -> Seq<ActionView>
    decreases ts.len(),
{
    if ts.len() == 0 {
        Seq::empty()
    } else {
        cancel_all_actions(ts.drop_last()) + cancel_actions(ts.last())
    }
}

/// Cancelling all the tasks `ts` deletes on the server every upload that has
/// a URL, and cancels every upload that holds a token.
proof fn lemma_cancel_all_covers(ts: Seq<TaskHandleView>, i: int)
    requires
        0 <= i < ts.len(),
    ensures
        ts[i].task.upload_url matches Some(u) ==> cancel_all_actions(ts).contains(
            ActionView::DeleteOnServer(u),
        ),
        ts[i].has_token ==> cancel_all_actions(ts).contains(ActionView::CancelToken(ts[i].task.id)),
    decreases ts.len(),
{
    let pre = cancel_all_actions(ts.drop_last());
    let c = cancel_actions(ts.last());
    assert(cancel_all_actions(ts) == pre + c);
    if i == ts.len() - 1 {
        if let Some(u) = ts[i].task.upload_url {
            assert((pre + c)[pre.len() + c.len() - 1] == ActionView::DeleteOnServer(u));
        }
        if ts[i].has_token {
            assert((pre + c)[pre.len() as int] == ActionView::CancelToken(ts[i].task.id));
        }
    } else {
        lemma_cancel_all_covers(ts.drop_last(), i);
        assert(ts.drop_last()[i] == ts[i]);
        if let Some(u) = ts[i].task.upload_url {
            let k = choose|k: int| 0 <= k < pre.len() && pre[k] == ActionView::DeleteOnServer(u);
            assert((pre + c)[k] == ActionView::DeleteOnServer(u));
        }
        if ts[i].has_token {
            let k = choose|k: int| 0 <= k < pre.len() && pre[k] == ActionView::CancelToken(ts[i].task.id);
            assert((pre + c)[k] == ActionView::CancelToken(ts[i].task.id));
        }
    }
}

proof fn lemma_wf_pause_all(old: WorkerView)
    requires
        old.wf(),
    ensures
        spec_pause_all(old).wf(),
{
    let new = spec_pause_all(old);
    let nl = not_live_in(old.tasks);
    lemma_filter_distinct(old.queued, nl);
    assert forall|i: int| 0 <= i < new.tasks.len() implies new.tasks[i].task.id == old.tasks[i].task.id
        && (new.tasks[i].task.state == UploadState::Queued ==> false)
        && (new.tasks[i].task.state == UploadState::Uploading ==> false) by {}
    assert forall|i: int|
        0 <= i < new.tasks.len() && (new.tasks[i].task.state == UploadState::Paused
            || new.tasks[i].task.state == UploadState::Uploading) implies !new.queued.contains(
        new.tasks[i].task.id,
    ) by {
        let id = old.tasks[i].task.id;
        lemma_index_unique(old.tasks, i);
        if old.tasks[i].task.state == UploadState::Queued {
            assert(queued_live(old.tasks, id));
        }
    }
}

proof fn lemma_wf_resume_all(old: WorkerView)
    requires
        old.wf(),
    ensures
        spec_resume_all(old).wf(),
{
    let new = spec_resume_all(old);
    let pp = is_paused();
    let f = old.tasks.filter(pp);
    let added = f.map_values(|h: TaskHandleView| h.task.id);
    lemma_filter_keeps_tasks(old.tasks, pp);
    assert forall|a: int| 0 <= a < added.len() implies !old.queued.contains(#[trigger] added[a]) && pp(f[a]) by {
        assert(old.tasks.contains(f[a]));
        old.tasks.lemma_filter_pred(pp, a);
    }
    assert forall|x: UploadId| #[trigger] new.queued.contains(x) <==> (old.queued.contains(x) || added.contains(x)) by {
        if new.queued.contains(x) {
            let k = choose|k: int| 0 <= k < new.queued.len() && new.queued[k] == x;
            if k < old.queued.len() {
                assert(old.queued[k] == x);
            } else {
                assert(added[k - old.queued.len()] == x);
            }
        }
        if old.queued.contains(x) {
            let k = choose|k: int| 0 <= k < old.queued.len() && old.queued[k] == x;
            assert(new.queued[k] == x);
        }
        if added.contains(x) {
            let k = choose|k: int| 0 <= k < added.len() && added[k] == x;
            assert(new.queued[old.queued.len() + k] == x);
        }
    }
    assert(distinct(new.queued)) by {
        assert forall|a: int, b: int| 0 <= a < new.queued.len() && 0 <= b < new.queued.len() && a != b implies new.queued[a] != new.queued[b] by {
            let n = old.queued.len() as int;
            if a < n && b < n {
            } else if a >= n && b >= n {
                assert(f[a - n].task.id != f[b - n].task.id);
            } else if a < n {
                assert(added[b - n] == new.queued[b]);
                assert(old.queued.contains(new.queued[a]));
            } else {
                assert(added[a - n] == new.queued[a]);
                assert(old.queued.contains(new.queued[b]));
            }
        }
    }
    assert forall|i: int|
        0 <= i < new.tasks.len() && new.tasks[i].task.state == UploadState::Queued implies new.queued.contains(
        new.tasks[i].task.id,
    ) by {
        if old.tasks[i].task.state == UploadState::Paused {
            assert(pp(old.tasks[i]));
            let m = choose|m: int| 0 <= m < f.len() && f[m].task.id == old.tasks[i].task.id;
            assert(added[m] == old.tasks[i].task.id);
        }
    }
    assert forall|i: int|
        0 <= i < new.tasks.len() && (new.tasks[i].task.state == UploadState::Paused
            || new.tasks[i].task.state == UploadState::Uploading) implies !new.queued.contains(
        new.tasks[i].task.id,
    ) by {
        let id = old.tasks[i].task.id;
        assert(old.tasks[i].task.state == UploadState::Uploading);
        if added.contains(id) {
            let m = choose|m: int| 0 <= m < added.len() && added[m] == id;
            assert(old.tasks.contains(f[m]));
            let t = choose|t: int| 0 <= t < old.tasks.len() && old.tasks[t] == f[m];
            assert(pp(f[m]));
            assert(t == i);
        }
    }
    assert forall|k: int| 0 <= k < new.active.len() implies has_task(new.tasks, new.active[k]) by {
        assert(has_task(old.tasks, old.active[k]));
        let j = choose|j: int| 0 <= j < old.tasks.len() && old.tasks[j].task.id == old.active[k];
        assert(new.tasks[j].task.id == old.active[k]);
    }
}

/// A file handed to `batch_add`: its path, metadata and what the file system reported.
pub type FileEntry = (String, Option<Vec<(String, String)>>, Result<FileStat, TusError>);

pub open spec fn stat_len(st: Result<FileStat, TusError>) -> u64 {
    match st {
        Ok(s) => s.len,
        Err(_) => 0,
    }
}

pub open spec fn is_regular_file(st: Result<FileStat, TusError>) -> bool {
    st matches Ok(s) && s.is_file
}

/// The records that adding `files` under `ids` creates.
pub open spec fn added_handles(files: Seq<FileEntry>, ids: Seq<UploadId>, now: i64) -> Seq<TaskHandleView> {
    Seq::new(
        ids.len(),
        |k: int| new_handle(ids[k], files[k].0@, stat_len(files[k].2), opt_pairs_view(files[k].1), now),
    )
}

/// The worker after adding `files` under `ids`, one after the other.
pub open spec fn with_added(w: WorkerView, files: Seq<FileEntry>, ids: Seq<UploadId>, now: i64) -> WorkerView {
    WorkerView { tasks: w.tasks + added_handles(files, ids, now), queued: w.queued + ids, ..w }
}

pub open spec fn added_events(ids: Seq<UploadId>) -> Seq<UploadEvent> {
    ids.map_values(|id: UploadId| state_changed(id, UploadState::Queued, UploadState::Queued))
}

/// `batch_add` added the first `ids.len()` files under `ids` and stopped at the
/// next one with the error `e`.
pub open spec fn batch_stopped(
    w0: WorkerView,
    files: Seq<FileEntry>,
    ids: Seq<UploadId>,
    now: i64,
    e: TusError,
    w1: WorkerView,
) -> bool {
    &&& ids.len() < files.len()
    &&& forall|k: int| 0 <= k < ids.len() ==> is_regular_file(#[trigger] files[k].2)
    &&& add_error(files[ids.len() as int].2, e)
    &&& w1 == with_added(w0, files, ids, now)
    &&& forall|k: int| 0 <= k < ids.len() ==> is_v4_uuid(#[trigger] ids[k].0)
    &&& is_regular_file(files[ids.len() as int].2) ==> exists|id: UploadId|
        is_v4_uuid(id.0) && (has_task(w1.tasks, id) || w1.queued.contains(id))
}

/// The error that `add_upload` gives for a file that cannot be added.
pub open spec fn add_error(st: Result<FileStat, TusError>, e: TusError) -> bool {
    match st {
        Err(e0) => e == e0,
        Ok(s) => if !s.is_file {
            is_param_error(e, "Not a file"@)
        } else {
            e is InternalError
        },
    }
}

/// What adding the file at `path` does to the worker `old` and the events
/// `old_events`, giving `new`, `new_events` and the result `r`. A file that
/// cannot be read gives its error and one that is not a regular file a
/// parameter error. A regular file gets a fresh version 4 identifier and is
/// queued as a new waiting task; should the drawn identifier be in use
/// already, an internal error is returned. Nothing changes on an error.
pub open spec fn add_upload_result(
    old: WorkerView,
    new: WorkerView,
    old_events: Seq<UploadEvent>,
    new_events: Seq<UploadEvent>,
    path: Seq<char>,
    metadata: Option<Seq<(String, String)>>,
    stat: Result<FileStat, TusError>,
    now: i64,
    r: Result<UploadId, TusError>,
) -> bool {
    &&& r is Err ==> new == old && new_events == old_events
    &&& stat matches Err(e) ==> r == Err::<UploadId, TusError>(e)
    &&& (stat matches Ok(st) && !st.is_file) ==> (r matches Err(e) && is_param_error(e, "Not a file"@))
    &&& (stat matches Ok(st) && st.is_file) ==> (r matches Err(e) ==> e is InternalError)
    &&& (stat matches Ok(st) && st.is_file && r is Err) ==> exists|id: UploadId|
        is_v4_uuid(id.0) && (has_task(old.tasks, id) || old.queued.contains(id))
    &&& r matches Ok(id) ==> is_v4_uuid(id.0) && !has_task(old.tasks, id)
        && new_events == old_events.push(state_changed(id, UploadState::Queued, UploadState::Queued))
    &&& r matches Ok(id) ==> (stat matches Ok(st) && st.is_file && new == (WorkerView {
        tasks: old.tasks.push(new_handle(id, path, st.len, metadata, now)),
        queued: old.queued.push(id),
        ..old
    }))
}

/// What adding `files` one after the other does to the worker `old` and the
/// events `old_events`, giving `new`, `new_events` and the result `r`: all
/// are added, or the files before the first that cannot be added are, and
/// its error is returned.
pub open spec fn batch_add_result(
    old: WorkerView,
    new: WorkerView,
    old_events: Seq<UploadEvent>,
    new_events: Seq<UploadEvent>,
    files: Seq<FileEntry>,
    now: i64,
    r: Result<Vec<UploadId>, TusError>,
) -> bool {
    &&& r matches Ok(ids) ==> {
        &&& ids@.len() == files.len()
        &&& forall|k: int| 0 <= k < files.len() ==> is_regular_file(#[trigger] files[k].2)
        &&& forall|k: int| 0 <= k < ids@.len() ==> is_v4_uuid(#[trigger] ids@[k].0)
        &&& new == with_added(old, files, ids@, now)
        &&& new_events == old_events + added_events(ids@)
    }
    &&& r matches Err(e) ==> exists|ids: Seq<UploadId>|
        #[trigger] batch_stopped(old, files, ids, now, e, new) && new_events == old_events
            + added_events(ids)
}

/// The record of a task read back from the saved state: an upload that was
/// running waits again; no token or join handle exists yet.
pub open spec fn restored_handle(t: UploadTaskView) -> TaskHandleView {
    TaskHandleView {
        task: UploadTaskView {
            state: if t.state == UploadState::Uploading {
                UploadState::Queued
            } else {
                t.state
            },
            ..t
        },
        has_token: false,
        has_join: false,
    }
}

/// Restoring one saved task: it replaces a task with the same identifier, or is
/// added; a waiting task is (re)placed at the end of the queue.
pub open spec fn restore_step(w: WorkerView, t: UploadTaskView) -> WorkerView {
    let h = restored_handle(t);
    let q = without(w.queued, t.id);
    let q2 = if h.task.state == UploadState::Queued {
        q.push(t.id)
    } else {
        q
    };
    if has_task(w.tasks, t.id) {
        WorkerView { tasks: w.tasks.update(task_index(w.tasks, t.id), h), queued: q2, ..w }
    } else {
        WorkerView { tasks: w.tasks.push(h), queued: q2, ..w }
    }
}

pub open spec fn restore_all(w: WorkerView, saved: Seq<UploadTaskView>) -> WorkerView
    decreases saved.len(),
{
    if saved.len() == 0 {
        w
    } else {
        restore_step(restore_all(w, saved.drop_last()), saved.last())
    }
}

pub open spec fn tasks_view(v: Seq<UploadTask>) -> Seq<UploadTaskView> {
    v.map_values(|t: UploadTask| t@)
}

proof fn lemma_wf_restore_step(w: WorkerView, t: UploadTaskView)
    requires
        w.wf(),
        w.active.len() == 0,
    ensures
        restore_step(w, t).wf(),
        restore_step(w, t).active.len() == 0,
{
    let id = t.id;
    let h = restored_handle(t);
    let n = restore_step(w, t);
    lemma_without_distinct(w.queued, id);
    let q = without(w.queued, id);
    assert forall|x: UploadId| #[trigger] q.contains(x) <==> (w.queued.contains(x) && x != id) by {
        lemma_without_contains(w.queued, id, x);
    }
    assert forall|x: UploadId| #[trigger] n.queued.contains(x) <==> ((w.queued.contains(x) && x != id) || (x == id && h.task.state == UploadState::Queued)) by {
        if h.task.state == UploadState::Queued {
            if n.queued.contains(x) && x != id {
                let j = choose|j: int| 0 <= j < n.queued.len() && n.queued[j] == x;
                assert(q[j] == x);
            }
            if q.contains(x) {
                let j = choose|j: int| 0 <= j < q.len() && q[j] == x;
                assert(n.queued[j] == x);
            }
            if x == id {
                assert(n.queued[q.len() as int] == id);
            }
        }
    }
    assert forall|i: int| 0 <= i < w.tasks.len() implies w.tasks[i].task.state != UploadState::Uploading by {
        if w.tasks[i].task.state == UploadState::Uploading {
            assert(w.active.contains(w.tasks[i].task.id));
        }
    }
    if has_task(w.tasks, id) {
        let i = task_index(w.tasks, id);
        lemma_set_keeps_ids(w.tasks, i, h);
    } else {
        assert forall|j: int| 0 <= j < w.tasks.len() implies w.tasks[j].task.id != id by {
            if w.tasks[j].task.id == id {
                assert(has_task(w.tasks, id));
            }
        }
    }
}

proof fn lemma_index_unique(ts: Seq<TaskHandleView>, i: int)
    requires
        task_ids_distinct(ts),
        0 <= i < ts.len(),
    ensures
        has_task(ts, ts[i].task.id),
        task_index(ts, ts[i].task.id) == i,
        lookup(ts, ts[i].task.id) == Some(ts[i]),
{
}

fn not_found() -> (e: TusError)
    ensures
        is_param_error(e, "Task not found"@),
{
    TusError::ParamError(String::from_str("Task not found"))
}

impl UploadManagerWorker {
    /// An empty worker with the given settings.
    pub fn new(config: UploadConfig) -> (r: UploadManagerWorker)
        ensures
            r@.config == config,
            r@.tasks.len() == 0,
            r@.queued.len() == 0,
            r@.active.len() == 0,
            r@.wf(),
    {
        let r = UploadManagerWorker {
            config,
            tasks: Vec::new(),
            queued_tasks: Vec::new(),
            active_uploads: Vec::new(),
        };
        assert(r@.tasks =~= Seq::<TaskHandleView>::empty());
        r
    }

    pub fn config(&self) -> (r: &UploadConfig)
        ensures
            *r == self@.config,
    {
        &self.config
    }

    fn find(&self, id: UploadId) -> (r: Option<usize>)
        requires
            task_ids_distinct(self@.tasks),
        ensures
            match r {
                Some(i) => i < self@.tasks.len() && self@.tasks[i as int].task.id == id
                    && has_task(self@.tasks, id) && task_index(self@.tasks, id) == i,
                None => !has_task(self@.tasks, id),
            },
    {
        let mut i: usize = 0;
        while i < self.tasks.len()
            invariant
                i <= self.tasks.len(),
                task_ids_distinct(self@.tasks),
                forall|k: int| 0 <= k < i ==> self@.tasks[k].task.id != id,
            decreases self.tasks.len() - i,
        {
            if self.tasks[i].task.id == id {
                proof {
                    lemma_index_unique(self@.tasks, i as int);
                }
                return Some(i);
            }
            i = i + 1;
        }
        None
    }

    /// Replaces the state of the task at index `i`.
    fn set_state(&mut self, i: usize, s: UploadState)
        requires
            i < old(self)@.tasks.len(),
        ensures
            final(self)@ == (WorkerView {
                tasks: old(self)@.tasks.update(i as int, with_state(old(self)@.tasks[i as int], s)),
                ..old(self)@
            }),
    {
        let mut h = self.tasks.remove(i);
        h.task.state = s;
        self.tasks.insert(i, h);
        assert(self@.tasks =~= old(self)@.tasks.update(i as int, with_state(old(self)@.tasks[i as int], s)));
    }

    /// The task `id`, if the worker has it.
    pub fn get_task(&self, upload_id: UploadId) -> (r: Option<UploadTask>)
        requires
            self@.wf(),
        ensures
            r is Some <==> has_task(self@.tasks, upload_id),
            r matches Some(t) ==> t@ == lookup(self@.tasks, upload_id).unwrap().task,
    {
        match self.find(upload_id) {
            Some(i) => Some(self.tasks[i].task.duplicate()),
            None => None,
        }
    }

    /// All tasks, in the worker's order.
    pub fn get_all_tasks(&self) -> (r: Vec<UploadTask>)
        ensures
            r@.len() == self@.tasks.len(),
            forall|i: int| 0 <= i < r@.len() ==> r@[i]@ == self@.tasks[i].task,
            tasks_view(r@) == saved_tasks(self@),
    {
        let mut r: Vec<UploadTask> = Vec::new();
        let mut i: usize = 0;
        while i < self.tasks.len()
            invariant
                i <= self.tasks.len(),
                r@.len() == i,
                forall|k: int| 0 <= k < i ==> r@[k]@ == self@.tasks[k].task,
            decreases self.tasks.len() - i,
        {
            r.push(self.tasks[i].task.duplicate());
            i = i + 1;
        }
        assert(tasks_view(r@) =~= saved_tasks(self@));
        r
    }

    /// Pauses the task `id`: a waiting task leaves the queue, a running one has
    /// its upload cancelled and leaves the running set; either becomes `Paused`.
    /// Other states are left as they are.
    pub fn pause_upload(
        &mut self,
        upload_id: UploadId,
        events: &mut Vec<UploadEvent>,
        actions: &mut Vec<WorkerAction>,
    ) -> (r: Result<(), TusError>)
        requires
            old(self)@.wf(),
        ensures
            final(self)@.wf(),
            final(self)@ == spec_pause(old(self)@, upload_id),
            final(events)@ == old(events)@ + pause_events(old(self)@, upload_id),
            final(actions)@ == old(actions)@ + pause_actions(old(self)@, upload_id),
            r is Ok <==> has_task(old(self)@.tasks, upload_id),
            r matches Err(e) ==> is_param_error(e, "Task not found"@),
    {
        let i = match self.find(upload_id) {
            Some(i) => i,
            None => return Err(not_found()),
        };
        let ghost old_view = self@;
        let state = self.tasks[i].task.state;
        match state {
            UploadState::Queued => {
                remove_id(&mut self.queued_tasks, upload_id);
                self.set_state(i, UploadState::Paused);
                events.push(
                    UploadEvent::StateChanged {
                        upload_id,
                        old_state: UploadState::Queued,
                        new_state: UploadState::Paused,
                    },
                );
                proof {
                    lemma_wf_leave_queue(old_view, i as int, UploadState::Paused);
                }
            },
            UploadState::Uploading => {
                if self.tasks[i].has_token {
                    actions.push(WorkerAction::CancelToken(upload_id));
                }
                self.set_state(i, UploadState::Paused);
                remove_id(&mut self.active_uploads, upload_id);
                events.push(
                    UploadEvent::StateChanged {
                        upload_id,
                        old_state: UploadState::Uploading,
                        new_state: UploadState::Paused,
                    },
                );
                proof {
                    lemma_wf_stop_running(old_view, i as int, UploadState::Paused);
                }
            },
            _ => {},
        }
        Ok(())
    }

    /// Resumes a paused task: it becomes `Queued` again, at the end of the queue.
    /// Other states are left as they are.
    pub fn resume_upload(&mut self, upload_id: UploadId, events: &mut Vec<UploadEvent>) -> (r: Result<(), TusError>)
        requires
            old(self)@.wf(),
        ensures
            final(self)@.wf(),
            final(self)@ == spec_resume(old(self)@, upload_id),
            final(events)@ == old(events)@ + resume_events(old(self)@, upload_id),
            r is Ok <==> has_task(old(self)@.tasks, upload_id),
            r matches Err(e) ==> is_param_error(e, "Task not found"@),
    {
        let i = match self.find(upload_id) {
            Some(i) => i,
            None => return Err(not_found()),
        };
        let ghost old_view = self@;
        if self.tasks[i].task.state == UploadState::Paused {
            self.set_state(i, UploadState::Queued);
            self.queued_tasks.push(upload_id);
            events.push(
                UploadEvent::StateChanged {
                    upload_id,
                    old_state: UploadState::Paused,
                    new_state: UploadState::Queued,
                },
            );
            proof {
                lemma_wf_requeue(old_view, i as int);
            }
        }
        Ok(())
    }

    /// Cancels and forgets the task `id`: a running upload is cancelled, the
    /// upload is deleted on the server when it has a URL, and the task is removed.
    pub fn cancel_upload(
        &mut self,
        upload_id: UploadId,
        events: &mut Vec<UploadEvent>,
        actions: &mut Vec<WorkerAction>,
    ) -> (r: Result<(), TusError>)
        requires
            old(self)@.wf(),
        ensures
            final(self)@.wf(),
            final(self)@ == spec_cancel(old(self)@, upload_id),
            final(events)@ == old(events)@ + cancel_events(old(self)@, upload_id),
            actions_view(final(actions)@) == actions_view(old(actions)@) + (if has_task(
                old(self)@.tasks,
                upload_id,
            ) {
                cancel_actions(lookup(old(self)@.tasks, upload_id).unwrap())
            } else {
                Seq::empty()
            }),
            r is Ok <==> has_task(old(self)@.tasks, upload_id),
            r matches Err(e) ==> is_param_error(e, "Task not found"@),
            has_task(old(self)@.tasks, upload_id) ==> (lookup(old(self)@.tasks, upload_id).unwrap().task.upload_url
                matches Some(u) ==> actions_view(final(actions)@).last() == ActionView::DeleteOnServer(u)),
            has_task(old(self)@.tasks, upload_id) && lookup(old(self)@.tasks, upload_id).unwrap().has_token
                ==> actions_view(final(actions)@)[old(actions)@.len() as int] == ActionView::CancelToken(
                upload_id,
            ),
            !has_task(old(self)@.tasks, upload_id) ==> final(actions)@ == old(actions)@,
    {
        let i = match self.find(upload_id) {
            Some(i) => i,
            None => return Err(not_found()),
        };
        let ghost old_view = self@;
        let ghost old_actions = actions@;
        proof {
            assert(lookup(old_view.tasks, upload_id).unwrap().task.id == upload_id);
        }
        if self.tasks[i].has_token {
            remove_id(&mut self.queued_tasks, upload_id);
            remove_id(&mut self.active_uploads, upload_id);
            actions.push(WorkerAction::CancelToken(upload_id));
        }
        let ghost mid_actions = actions@;
        match &self.tasks[i].task.upload_url {
            Some(url) => {
                actions.push(WorkerAction::DeleteOnServer(url.clone()));
            },
            None => {},
        }
        let old_state = self.tasks[i].task.state;
        self.tasks.remove(i);
        events.push(
            UploadEvent::StateChanged {
                upload_id,
                old_state,
                new_state: UploadState::Cancelled,
            },
        );
        proof {
            assert(self@.tasks =~= old_view.tasks.remove(i as int));
            let h = old_view.tasks[i as int];
            let hh = old_view.tasks[i as int];
            assert(actions_view(actions@) =~= actions_view(old_actions) + cancel_actions(hh));
            assert(old_view.active.contains(upload_id) ==> h.task.state == UploadState::Uploading);
            lemma_wf_remove(old_view, i as int, self@.queued, self@.active);
        }
        Ok(())
    }

    /// Adds a waiting task under `upload_id`. An identifier that the worker
    /// already knows, as a task or in the queue, is refused with an internal
    /// error and nothing changes. Writing the new task over the known one
    /// instead would orphan a running upload together with its place among the
    /// running ones (its end would no longer free that place) and list one
    /// identifier twice in the queue; the identifiers are random version 4
    /// UUIDs, so a collision needs two equal draws of 122 random bits.
    pub fn insert_upload(
        &mut self,
        upload_id: UploadId,
        file_path: String,
        file_size: u64,
        metadata: Option<Vec<(String, String)>>,
        now: i64,
        events: &mut Vec<UploadEvent>,
    ) -> (r: Result<(), TusError>)
        requires
            old(self)@.wf(),
        ensures
            final(self)@.wf(),
            r is Err <==> (has_task(old(self)@.tasks, upload_id) || old(self)@.queued.contains(
                upload_id,
            )),
            r matches Err(e) ==> e is InternalError && final(self)@ == old(self)@ && final(events)@
                == old(events)@,
            r is Ok ==> final(self)@ == (WorkerView {
                tasks: old(self)@.tasks.push(
                    new_handle(upload_id, file_path@, file_size, opt_pairs_view(metadata), now),
                ),
                queued: old(self)@.queued.push(upload_id),
                ..old(self)@
            }),
            r is Ok ==> final(events)@ == old(events)@.push(
                state_changed(upload_id, UploadState::Queued, UploadState::Queued),
            ),
    {
        if self.find(upload_id).is_some() || contains_id(&self.queued_tasks, upload_id) {
            return Err(TusError::InternalError(String::from_str("Upload id already in use")));
        }
        let ghost old_view = self@;
        let ghost h = new_handle(upload_id, file_path@, file_size, opt_pairs_view(metadata), now);
        let task = UploadTask {
            id: upload_id,
            file_path,
            file_size,
            upload_url: None,
            state: UploadState::Queued,
            bytes_uploaded: 0,
            created_at: now,
            started_at: None,
            completed_at: None,
            error: None,
            metadata,
        };
        self.tasks.push(TaskHandle { task, has_token: false, has_join: false });
        self.queued_tasks.push(upload_id);
        events.push(
            UploadEvent::StateChanged {
                upload_id,
                old_state: UploadState::Queued,
                new_state: UploadState::Queued,
            },
        );
        proof {
            assert(self@.tasks =~= old_view.tasks.push(h));
            lemma_wf_add(old_view, h);
        }
        Ok(())
    }

    /// Adds the file at `file_path` as a new waiting task. `stat` is what the
    /// file system reported of the file. The task gets a fresh random identifier.
    pub fn add_upload(
        &mut self,
        file_path: String,
        metadata: Option<Vec<(String, String)>>,
        stat: Result<FileStat, TusError>,
        now: i64,
        events: &mut Vec<UploadEvent>,
    ) -> (r: Result<UploadId, TusError>)
        requires
            old(self)@.wf(),
        ensures
            final(self)@.wf(),
            add_upload_result(
                old(self)@,
                final(self)@,
                old(events)@,
                final(events)@,
                file_path@,
                opt_pairs_view(metadata),
                stat,
                now,
                r,
            ),
    {
        let st = match stat {
            Ok(st) => st,
            Err(e) => return Err(e),
        };
        if !st.is_file {
            return Err(TusError::ParamError(String::from_str("Not a file")));
        }
        let upload_id = UploadId::new();
        match self.insert_upload(upload_id, file_path, st.len, metadata, now, events) {
            Ok(()) => Ok(upload_id),
            Err(e) => Err(e),
        }
    }

    /// While fewer uploads run than the limit allows, drops from the front of the
    /// queue the identifiers that no longer name a waiting task, and offers the
    /// first one that does; the queue is left starting with it.
    pub fn next_start(&mut self) -> (r: Option<StartRequest>)
        requires
            old(self)@.wf(),
        ensures
            final(self)@.wf(),
            final(self)@.tasks == old(self)@.tasks,
            final(self)@.active == old(self)@.active,
            final(self)@.config == old(self)@.config,
            exists|k: int|
                0 <= k <= old(self)@.queued.len() && final(self)@.queued == old(self)@.queued.skip(k)
                    && forall|j: int|
                    0 <= j < k ==> !queued_live(old(self)@.tasks, #[trigger] old(self)@.queued[j]),
            old(self)@.active.len() >= old(self)@.config.concurrent ==> r is None && final(self)@.queued
                == old(self)@.queued,
            (r is None && old(self)@.active.len() < old(self)@.config.concurrent) ==> final(self)@.queued.len() == 0,
            r is None ==> final(self)@.queued.len() == 0 || final(self)@.active.len()
                == final(self)@.config.concurrent,
            r matches Some(req) ==> {
                let h = lookup(old(self)@.tasks, req.upload_id).unwrap();
                &&& old(self)@.active.len() < old(self)@.config.concurrent
                &&& final(self)@.queued.len() > 0
                &&& final(self)@.queued[0] == req.upload_id
                &&& queued_live(old(self)@.tasks, req.upload_id)
                &&& req.file_size == h.task.file_size
                &&& req.needs_url == h.task.upload_url is None
                &&& opt_pairs_view(req.metadata) == h.task.metadata
            },
    {
        let ghost old_view = self@;
        let ghost mut k: int = 0;
        assert(old_view.queued.skip(0) =~= old_view.queued);
        while self.active_uploads.len() < self.config.concurrent && self.queued_tasks.len() > 0
            invariant
                old_view.wf(),
                old_view == old(self)@,
                old_view.active.len() >= old_view.config.concurrent ==> k == 0,
                self@ == (WorkerView { queued: old_view.queued.skip(k), ..old_view }),
                0 <= k <= old_view.queued.len(),
                forall|j: int| 0 <= j < k ==> !queued_live(old_view.tasks, #[trigger] old_view.queued[j]),
            decreases self.queued_tasks.len(),
        {
            proof {
                lemma_wf_drop_stale(old_view, k);
            }
            let id = self.queued_tasks[0];
            let found = self.find(id);
            match found {
                Some(i) => {
                    if self.tasks[i].task.state == UploadState::Queued {
                        let metadata = match &self.tasks[i].task.metadata {
                            Some(m) => Some(copy_pairs(m)),
                            None => None,
                        };
                        return Some(
                            StartRequest {
                                upload_id: id,
                                file_size: self.tasks[i].task.file_size,
                                needs_url: self.tasks[i].task.upload_url.is_none(),
                                metadata,
                            },
                        );
                    }
                },
                None => {},
            }
            assert(old_view.queued[k] == id);
            self.queued_tasks.remove(0);
            proof {
                assert(self@.queued =~= old_view.queued.skip(k + 1));
                k = k + 1;
            }
        }
        proof {
            lemma_wf_drop_stale(old_view, k);
        }
        None
    }

    /// Starts the upload of the waiting task `upload_id` (offered by `next_start`).
    /// `created` is the answer of the server when the task had no upload URL yet:
    /// the new URL, or the message of the error, in which case the task fails.
    /// On success the task runs, and the copy of the task handed to the upload
    /// is returned; the runtime spawns it with a new token and keeps its join handle.
    pub fn start_upload(
        &mut self,
        upload_id: UploadId,
        created: Option<Result<String, String>>,
        now: i64,
        events: &mut Vec<UploadEvent>,
    ) -> (r: Option<UploadTask>)
        requires
            old(self)@.wf(),
            queued_live(old(self)@.tasks, upload_id),
            old(self)@.active.len() < old(self)@.config.concurrent,
            created is Some <==> lookup(old(self)@.tasks, upload_id).unwrap().task.upload_url is None,
        ensures
            final(self)@.wf(),
            ({
                let i = task_index(old(self)@.tasks, upload_id);
                let h = old(self)@.tasks[i];
                match created {
                    Some(Err(msg)) => {
                        &&& r is None
                        &&& final(self)@ == (WorkerView {
                            tasks: old(self)@.tasks.update(i, failed_handle(h, msg@)),
                            queued: without(old(self)@.queued, upload_id),
                            ..old(self)@
                        })
                        &&& final(events)@ == old(events)@.push(
                            state_changed(upload_id, UploadState::Queued, UploadState::Preparing),
                        ).push(state_changed(upload_id, UploadState::Preparing, UploadState::Failed)).push(
                            UploadEvent::Failed { upload_id, error: msg },
                        )
                    },
                    _ => {
                        let url = match created {
                            Some(Ok(u)) => u@,
                            _ => h.task.upload_url.unwrap(),
                        };
                        &&& r matches Some(t) && t@ == (UploadTaskView {
                            state: UploadState::Preparing,
                            upload_url: Some(url),
                            ..h.task
                        })
                        &&& final(self)@ == (WorkerView {
                            tasks: old(self)@.tasks.update(i, started_handle(h, url, now)),
                            queued: without(old(self)@.queued, upload_id),
                            active: old(self)@.active.push(upload_id),
                            ..old(self)@
                        })
                        &&& final(events)@ == old(events)@.push(
                            state_changed(upload_id, UploadState::Queued, UploadState::Preparing),
                        ).push(state_changed(upload_id, UploadState::Preparing, UploadState::Uploading))
                    },
                }
            }),
    {
        let ghost old_view = self@;
        let i = match self.find(upload_id) {
            Some(i) => i,
            None => {
                return None;
            },
        };
        let ghost h0 = old_view.tasks[i as int];
        events.push(
            UploadEvent::StateChanged {
                upload_id,
                old_state: UploadState::Queued,
                new_state: UploadState::Preparing,
            },
        );
        let mut h = self.tasks.remove(i);
        if h.task.upload_url.is_none() {
            match created {
                Some(Ok(url)) => {
                    h.task.upload_url = Some(url);
                },
                Some(Err(msg)) => {
                    h.task.state = UploadState::Failed;
                    h.task.error = Some(msg.clone());
                    self.tasks.insert(i, h);
                    remove_id(&mut self.queued_tasks, upload_id);
                    events.push(
                        UploadEvent::StateChanged {
                            upload_id,
                            old_state: UploadState::Preparing,
                            new_state: UploadState::Failed,
                        },
                    );
                    events.push(UploadEvent::Failed { upload_id, error: msg });
                    proof {
                        assert(self@.tasks =~= old_view.tasks.update(i as int, failed_handle(h0, msg@)));
                        lemma_wf_dequeue(old_view, i as int, failed_handle(h0, msg@));
                    }
                    return None;
                },
                None => {
                    self.tasks.insert(i, h);
                    return None;
                },
            }
        }
        h.task.state = UploadState::Preparing;
        h.has_token = true;
        let snapshot = h.task.duplicate();
        h.has_join = true;
        h.task.state = UploadState::Uploading;
        h.task.started_at = Some(now);
        let ghost url = h.task.upload_url.unwrap()@;
        self.tasks.insert(i, h);
        remove_id(&mut self.queued_tasks, upload_id);
        self.active_uploads.push(upload_id);
        events.push(
            UploadEvent::StateChanged {
                upload_id,
                old_state: UploadState::Preparing,
                new_state: UploadState::Uploading,
            },
        );
        proof {
            assert(self@.tasks =~= old_view.tasks.update(i as int, started_handle(h0, url, now)));
            lemma_wf_start(old_view, i as int, started_handle(h0, url, now));
        }
        Some(snapshot)
    }

    /// Takes the join handle of the task's upload, if there is one: the runtime
    /// then awaits it and reports the outcome with `finish_upload`.
    pub fn take_join_handle(&mut self, upload_id: UploadId) -> (r: bool)
        requires
            old(self)@.wf(),
        ensures
            final(self)@.wf(),
            r == (has_task(old(self)@.tasks, upload_id) && lookup(
                old(self)@.tasks,
                upload_id,
            ).unwrap().has_join),
            r ==> ({
                let i = task_index(old(self)@.tasks, upload_id);
                final(self)@ == (WorkerView {
                    tasks: old(self)@.tasks.update(
                        i,
                        TaskHandleView { has_join: false, ..old(self)@.tasks[i] },
                    ),
                    ..old(self)@
                })
            }),
            !r ==> final(self)@ == old(self)@,
    {
        let ghost old_view = self@;
        let i = match self.find(upload_id) {
            Some(i) => i,
            None => return false,
        };
        if !self.tasks[i].has_join {
            return false;
        }
        let mut h = self.tasks.remove(i);
        h.has_join = false;
        self.tasks.insert(i, h);
        proof {
            let nh = TaskHandleView { has_join: false, ..old_view.tasks[i as int] };
            assert(self@.tasks =~= old_view.tasks.update(i as int, nh));
            lemma_wf_relabel(old_view, i as int, nh);
        }
        true
    }

    /// Records how the upload of `upload_id` ended. A completed upload completes
    /// the task if it was still running; an error other than cancellation, or a
    /// panic, fails it whatever its state (a task paused and resumed while its
    /// upload was ending keeps its place in the queue, and the queue skips it
    /// once it comes up); a cancellation changes nothing.
    pub fn finish_upload(
        &mut self,
        upload_id: UploadId,
        outcome: UploadOutcome,
        now: i64,
        events: &mut Vec<UploadEvent>,
    )
        requires
            old(self)@.wf(),
        ensures
            final(self)@.wf(),
            !has_task(old(self)@.tasks, upload_id) ==> final(self)@ == old(self)@ && final(events)@ == old(events)@,
            has_task(old(self)@.tasks, upload_id) ==> ({
                let i = task_index(old(self)@.tasks, upload_id);
                let h = old(self)@.tasks[i];
                match outcome {
                    UploadOutcome::Finished(url) => if h.task.state == UploadState::Uploading {
                        &&& final(self)@ == (WorkerView {
                            tasks: old(self)@.tasks.update(i, completed_handle(h, now)),
                            active: without(old(self)@.active, upload_id),
                            ..old(self)@
                        })
                        &&& final(events)@ == old(events)@.push(
                            state_changed(upload_id, UploadState::Uploading, UploadState::Completed),
                        ).push(UploadEvent::Completed { upload_id, upload_url: url })
                    } else {
                        final(self)@ == old(self)@ && final(events)@ == old(events)@
                    },
                    UploadOutcome::Failed(e) => if e is Cancelled {
                        final(self)@ == old(self)@ && final(events)@ == old(events)@
                    } else {
                        &&& final(self)@ == (WorkerView {
                            tasks: old(self)@.tasks.update(
                                i,
                                failed_handle(h, tus_error_message(e)),
                            ),
                            active: without(old(self)@.active, upload_id),
                            ..old(self)@
                        })
                        &&& final(events)@.len() == old(events)@.len() + 2
                        &&& final(events)@.subrange(0, old(events)@.len() as int + 1) == old(events)@.push(state_changed(upload_id, h.task.state, UploadState::Failed))
                        &&& final(events)@.last() matches UploadEvent::Failed { upload_id: fid, error }
                            && fid == upload_id && error@ == tus_error_message(e)
                    },
                    UploadOutcome::Panicked(m) => {
                        &&& final(self)@ == (WorkerView {
                            tasks: old(self)@.tasks.update(
                                i,
                                failed_handle(h, "Task panicked: "@ + m@),
                            ),
                            active: without(old(self)@.active, upload_id),
                            ..old(self)@
                        })
                        &&& final(events)@ == old(events)@.push(
                            state_changed(upload_id, h.task.state, UploadState::Failed),
                        )
                    },
                }
            }),
    {
        let ghost old_view = self@;
        let i = match self.find(upload_id) {
            Some(i) => i,
            None => return ,
        };
        let ghost h0 = old_view.tasks[i as int];
        let old_state = self.tasks[i].task.state;
        match outcome {
            UploadOutcome::Finished(url) => {
                if old_state == UploadState::Uploading {
                    let mut h = self.tasks.remove(i);
                    h.task.state = UploadState::Completed;
                    h.task.completed_at = Some(now);
                    h.task.bytes_uploaded = h.task.file_size;
                    self.tasks.insert(i, h);
                    remove_id(&mut self.active_uploads, upload_id);
                    events.push(
                        UploadEvent::StateChanged {
                            upload_id,
                            old_state,
                            new_state: UploadState::Completed,
                        },
                    );
                    events.push(UploadEvent::Completed { upload_id, upload_url: url });
                    proof {
                        assert(self@.tasks =~= old_view.tasks.update(i as int, completed_handle(h0, now)));
                        lemma_wf_retire(old_view, i as int, completed_handle(h0, now));
                    }
                }
            },
            UploadOutcome::Failed(err) => {
                if let TusError::Cancelled = err {
                    return ;
                }
                let message = err.message();
                let mut h = self.tasks.remove(i);
                h.task.state = UploadState::Failed;
                h.task.error = Some(message.clone());
                self.tasks.insert(i, h);
                remove_id(&mut self.active_uploads, upload_id);
                let ghost mid = events@;
                events.push(
                    UploadEvent::StateChanged { upload_id, old_state, new_state: UploadState::Failed },
                );
                events.push(UploadEvent::Failed { upload_id, error: message });
                proof {
                    assert(events@.subrange(0, mid.len() as int + 1) =~= mid.push(state_changed(upload_id, old_state, UploadState::Failed)));
                    let nh = failed_handle(h0, tus_error_message(err));
                    assert(self@.tasks =~= old_view.tasks.update(i as int, nh));
                    lemma_wf_retire(old_view, i as int, nh);
                }
            },
            UploadOutcome::Panicked(m) => {
                let mut message = String::new();
                push_str(&mut message, "Task panicked: ");
                push_str(&mut message, m.as_str());
                let mut h = self.tasks.remove(i);
                h.task.state = UploadState::Failed;
                h.task.error = Some(message);
                self.tasks.insert(i, h);
                remove_id(&mut self.active_uploads, upload_id);
                events.push(
                    UploadEvent::StateChanged { upload_id, old_state, new_state: UploadState::Failed },
                );
                proof {
                    let nh = failed_handle(h0, "Task panicked: "@ + m@);
                    assert(self@.tasks =~= old_view.tasks.update(i as int, nh));
                    lemma_wf_retire(old_view, i as int, nh);
                }
            },
        }
    }

    /// Adds the files one after the other; stops at the first that cannot be
    /// added and returns its error (the files before it stay added).
    pub fn batch_add(
        &mut self,
        files: Vec<FileEntry>,
        now: i64,
        events: &mut Vec<UploadEvent>,
    ) -> (r: Result<Vec<UploadId>, TusError>)
        requires
            old(self)@.wf(),
        ensures
            final(self)@.wf(),
            batch_add_result(old(self)@, final(self)@, old(events)@, final(events)@, files@, now, r),
    {
        let ghost old_view = self@;
        let ghost old_events = events@;
        let ghost all = files@;
        let mut rest = files;
        let mut ids: Vec<UploadId> = Vec::new();
        proof {
            assert(added_handles(all, ids@, now) =~= Seq::<TaskHandleView>::empty());
            assert(self@ =~= with_added(old_view, all, ids@, now));
            assert(added_events(ids@) =~= Seq::<UploadEvent>::empty());
        }
        while rest.len() > 0
            invariant
                self@.wf(),
                old_view == old(self)@,
                old_events == old(events)@,
                all == files@,
                ids@.len() + rest@.len() == all.len(),
                rest@ == all.skip(ids@.len() as int),
                forall|k: int| 0 <= k < ids@.len() ==> is_regular_file(#[trigger] all[k].2),
                forall|k: int| 0 <= k < ids@.len() ==> is_v4_uuid(#[trigger] ids@[k].0),
                self@ == with_added(old_view, all, ids@, now),
                events@ == old_events + added_events(ids@),
            decreases rest.len(),
        {
            let ghost n = ids@.len() as int;
            let ghost before = self@;
            assert(rest@[0] == all[n]);
            let (path, metadata, stat) = rest.remove(0);
            let ghost ev0 = events@;
            match self.add_upload(path, metadata, stat, now, events) {
                Ok(id) => {
                    ids.push(id);
                    proof {
                        assert(added_handles(all, ids@, now) =~= added_handles(all, ids@.drop_last(), now).push(
                            new_handle(id, all[n].0@, stat_len(all[n].2), opt_pairs_view(all[n].1), now),
                        ));
                        assert(ids@.drop_last() =~= ids@.subrange(0, n));
                        assert(self@.tasks =~= old_view.tasks + added_handles(all, ids@, now));
                        assert(self@.queued =~= old_view.queued + ids@);
                        assert(added_events(ids@) =~= added_events(ids@.drop_last()).push(state_changed(id, UploadState::Queued, UploadState::Queued)));
                        assert(rest@ =~= all.skip(ids@.len() as int));
                    }
                },
                Err(e) => {
                    proof {
                        let w = ids@;
                        assert(w.len() < all.len());
                        assert(add_error(all[w.len() as int].2, e));
                        assert(self@ == with_added(old_view, all, w, now));
                        assert(events@ == old_events + added_events(w));
                        assert(forall|k: int| 0 <= k < w.len() ==> is_regular_file(#[trigger] all[k].2));
                        assert(batch_stopped(old_view, all, w, now, e, self@));
                    }
                    return Err(e);
                },
            }
        }
        Ok(ids)
    }

    /// Restores the tasks of a saved state into an empty worker, in order.
    pub fn restore_state(&mut self, saved: Vec<UploadTask>)
        requires
            old(self)@.wf(),
            old(self)@.tasks.len() == 0,
            old(self)@.queued.len() == 0,
            old(self)@.active.len() == 0,
        ensures
            final(self)@.wf(),
            final(self)@ == restore_all(old(self)@, tasks_view(saved@)),
    {
        let ghost old_view = self@;
        let ghost sv = tasks_view(saved@);
        let mut rest = saved;
        let ghost mut k: int = 0;
        proof {
            assert(sv.take(0) =~= Seq::<UploadTaskView>::empty());
        }
        while rest.len() > 0
            invariant
                self@.wf(),
                self@.active.len() == 0,
                0 <= k <= sv.len(),
                rest@.len() == sv.len() - k,
                forall|j: int| 0 <= j < rest@.len() ==> #[trigger] rest@[j]@ == sv[k + j],
                self@ == restore_all(old_view, sv.take(k)),
            decreases rest.len(),
        {
            let t = rest.remove(0);
            let ghost tv = sv[k];
            assert(t@ == tv);
            let id = t.id;
            let mut h = TaskHandle { task: t, has_token: false, has_join: false };
            if h.task.state == UploadState::Uploading {
                h.task.state = UploadState::Queued;
            }
            let queued = h.task.state == UploadState::Queued;
            let ghost before = self@;
            proof {
                lemma_wf_restore_step(before, tv);
                assert(sv.take(k + 1).drop_last() =~= sv.take(k));
                assert(sv.take(k + 1).last() == tv);
            }
            match self.find(id) {
                Some(i) => {
                    self.tasks.set(i, h);
                    assert(self@.tasks =~= before.tasks.update(i as int, restored_handle(tv)));
                },
                None => {
                    self.tasks.push(h);
                    assert(self@.tasks =~= before.tasks.push(restored_handle(tv)));
                },
            }
            remove_id(&mut self.queued_tasks, id);
            if queued {
                self.queued_tasks.push(id);
            }
            proof {
                k = k + 1;
                assert(self@ == restore_all(old_view, sv.take(k)));
            }
        }
        proof {
            assert(sv.take(k) =~= sv);
        }
    }

    /// Pauses every waiting task (in queue order) and then every running one.
    pub fn pause_all(&mut self, events: &mut Vec<UploadEvent>, actions: &mut Vec<WorkerAction>)
        requires
            old(self)@.wf(),
        ensures
            final(self)@.wf(),
            final(self)@ == spec_pause_all(old(self)@),
            final(events)@ == old(events)@ + pause_all_events(old(self)@),
            final(actions)@ == old(actions)@ + old(self)@.active.map_values(
                |id: UploadId| WorkerAction::CancelToken(id),
            ),
    {
        let ghost old_view = self@;
        let ghost old_events = events@;
        let ghost live = live_in(old_view.tasks);
        let ghost not_live = not_live_in(old_view.tasks);
        let ghost ev_q = |id: UploadId| state_changed(id, UploadState::Queued, UploadState::Paused);
        let mut kept: Vec<UploadId> = Vec::new();
        let mut j: usize = 0;
        proof {
            reveal(Seq::filter);
            assert(old_view.queued.take(0).filter(live) =~= Seq::<UploadId>::empty());
            assert(old_view.queued.take(0).filter(not_live) =~= Seq::<UploadId>::empty());
        }
        while j < self.queued_tasks.len()
            invariant
                self@ == old_view,
                old_view.wf(),
                j <= old_view.queued.len(),
                live == live_in(old_view.tasks),
                not_live == not_live_in(old_view.tasks),
                ev_q == (|id: UploadId| state_changed(id, UploadState::Queued, UploadState::Paused)),
                kept@ == old_view.queued.take(j as int).filter(not_live),
                events@ == old_events + old_view.queued.take(j as int).filter(live).map_values(ev_q),
            decreases self.queued_tasks.len() - j,
        {
            let id = self.queued_tasks[j];
            let is_live = match self.find(id) {
                Some(i) => self.tasks[i].task.state == UploadState::Queued,
                None => false,
            };
            proof {
                assert(old_view.queued.take(j as int + 1) =~= old_view.queued.take(j as int).push(id));
                old_view.queued.take(j as int).lemma_filter_push(id, live);
                old_view.queued.take(j as int).lemma_filter_push(id, not_live);
                assert(is_live == queued_live(old_view.tasks, id));
            }
            let ghost before = events@;
            if is_live {
                events.push(
                    UploadEvent::StateChanged {
                        upload_id: id,
                        old_state: UploadState::Queued,
                        new_state: UploadState::Paused,
                    },
                );
                assert(old_view.queued.take(j as int + 1).filter(live).map_values(ev_q) =~= old_view.queued.take(j as int).filter(live).map_values(ev_q).push(ev_q(id)));
            } else {
                kept.push(id);
            }
            j = j + 1;
        }
        assert(old_view.queued.take(j as int) =~= old_view.queued);
        let ghost mid_events = events@;
        let ghost ev_a = |id: UploadId| state_changed(id, UploadState::Uploading, UploadState::Paused);
        let ghost act = |id: UploadId| WorkerAction::CancelToken(id);
        let ghost old_actions = actions@;
        let mut k: usize = 0;
        while k < self.active_uploads.len()
            invariant
                self@ == old_view,
                k <= old_view.active.len(),
                ev_a == (|id: UploadId| state_changed(id, UploadState::Uploading, UploadState::Paused)),
                act == (|id: UploadId| WorkerAction::CancelToken(id)),
                events@ == mid_events + old_view.active.take(k as int).map_values(ev_a),
                actions@ == old_actions + old_view.active.take(k as int).map_values(act),
            decreases self.active_uploads.len() - k,
        {
            let id = self.active_uploads[k];
            events.push(
                UploadEvent::StateChanged {
                    upload_id: id,
                    old_state: UploadState::Uploading,
                    new_state: UploadState::Paused,
                },
            );
            actions.push(WorkerAction::CancelToken(id));
            proof {
                assert(old_view.active.take(k as int + 1) =~= old_view.active.take(k as int).push(id));
                assert(old_view.active.take(k as int + 1).map_values(ev_a) =~= old_view.active.take(k as int).map_values(ev_a).push(ev_a(id)));
                assert(old_view.active.take(k as int + 1).map_values(act) =~= old_view.active.take(k as int).map_values(act).push(act(id)));
            }
            k = k + 1;
        }
        proof {
            assert(old_view.active.take(k as int) =~= old_view.active);
        }
        let mut i: usize = 0;
        while i < self.tasks.len()
            invariant
                i <= self@.tasks.len(),
                self@.tasks.len() == old_view.tasks.len(),
                self@.queued == old_view.queued,
                self@.active == old_view.active,
                self@.config == old_view.config,
                forall|m: int| 0 <= m < i ==> self@.tasks[m] == paused_by_pause_all(old_view.tasks[m]),
                forall|m: int| i <= m < self@.tasks.len() ==> self@.tasks[m] == old_view.tasks[m],
            decreases old_view.tasks.len() - i,
        {
            let st = self.tasks[i].task.state;
            if st == UploadState::Queued || st == UploadState::Uploading {
                self.set_state(i, UploadState::Paused);
            }
            i = i + 1;
        }
        self.queued_tasks = kept;
        self.active_uploads = Vec::new();
        proof {
            assert(self@.tasks =~= old_view.tasks.map_values(|h: TaskHandleView| paused_by_pause_all(h)));
            assert(self@.active =~= Seq::<UploadId>::empty());
            assert(events@ =~= old_events + pause_all_events(old_view));
            lemma_wf_pause_all(old_view);
        }
    }

    /// Resumes every paused task, in task order.
    pub fn resume_all(&mut self, events: &mut Vec<UploadEvent>)
        requires
            old(self)@.wf(),
        ensures
            final(self)@.wf(),
            final(self)@ == spec_resume_all(old(self)@),
            final(events)@ == old(events)@ + resume_all_events(old(self)@),
    {
        let ghost old_view = self@;
        let ghost old_events = events@;
        let ghost pp = is_paused();
        let ghost idf = |h: TaskHandleView| h.task.id;
        let ghost evf = |h: TaskHandleView| state_changed(h.task.id, UploadState::Paused, UploadState::Queued);
        let mut i: usize = 0;
        proof {
            reveal(Seq::filter);
            assert(old_view.tasks.take(0).filter(pp) =~= Seq::<TaskHandleView>::empty());
            assert(old_view.queued + old_view.tasks.take(0).filter(pp).map_values(idf) =~= old_view.queued);
        }
        while i < self.tasks.len()
            invariant
                i <= self@.tasks.len(),
                self@.tasks.len() == old_view.tasks.len(),
                self@.active == old_view.active,
                self@.config == old_view.config,
                pp == is_paused(),
                idf == (|h: TaskHandleView| h.task.id),
                evf == (|h: TaskHandleView| state_changed(h.task.id, UploadState::Paused, UploadState::Queued)),
                self@.queued == old_view.queued + old_view.tasks.take(i as int).filter(pp).map_values(idf),
                events@ == old_events + old_view.tasks.take(i as int).filter(pp).map_values(evf),
                forall|m: int| 0 <= m < i ==> self@.tasks[m] == resumed_by_resume_all(old_view.tasks[m]),
                forall|m: int| i <= m < self@.tasks.len() ==> self@.tasks[m] == old_view.tasks[m],
            decreases old_view.tasks.len() - i,
        {
            let ghost h = old_view.tasks[i as int];
            proof {
                assert(old_view.tasks.take(i as int + 1) =~= old_view.tasks.take(i as int).push(h));
                old_view.tasks.take(i as int).lemma_filter_push(h, pp);
            }
            if self.tasks[i].task.state == UploadState::Paused {
                let id = self.tasks[i].task.id;
                self.set_state(i, UploadState::Queued);
                self.queued_tasks.push(id);
                events.push(
                    UploadEvent::StateChanged {
                        upload_id: id,
                        old_state: UploadState::Paused,
                        new_state: UploadState::Queued,
                    },
                );
                proof {
                    let f = old_view.tasks.take(i as int).filter(pp);
                    assert(f.push(h).map_values(idf) =~= f.map_values(idf).push(id));
                    assert(f.push(h).map_values(evf) =~= f.map_values(evf).push(evf(h)));
                }
            }
            i = i + 1;
        }
        proof {
            assert(old_view.tasks.take(i as int) =~= old_view.tasks);
            assert(self@.tasks =~= old_view.tasks.map_values(|h: TaskHandleView| resumed_by_resume_all(h)));
            lemma_wf_resume_all(old_view);
        }
    }

    /// Cancels every task, in task order; no task is left.
    pub fn cancel_all(&mut self, events: &mut Vec<UploadEvent>, actions: &mut Vec<WorkerAction>)
        requires
            old(self)@.wf(),
        ensures
            final(self)@.wf(),
            final(self)@ == spec_cancel_all(old(self)@),
            final(events)@ == old(events)@ + cancel_all_events(old(self)@),
            actions_view(final(actions)@) == actions_view(old(actions)@) + cancel_all_actions(
                old(self)@.tasks,
            ),
            forall|i: int|
                0 <= i < old(self)@.tasks.len() ==> ((#[trigger] old(self)@.tasks[i]).task.upload_url matches Some(u)
                    ==> actions_view(final(actions)@).contains(ActionView::DeleteOnServer(u))),
            forall|i: int|
                0 <= i < old(self)@.tasks.len() && (#[trigger] old(self)@.tasks[i]).has_token
                    ==> actions_view(final(actions)@).contains(ActionView::CancelToken(old(self)@.tasks[i].task.id)),
    {
        let ghost old_view = self@;
        let ghost old_events = events@;
        let ghost old_actions = actions@;
        let ghost evf = |h: TaskHandleView| state_changed(h.task.id, h.task.state, UploadState::Cancelled);
        let mut i: usize = 0;
        while i < self.tasks.len()
            invariant
                self@ == old_view,
                i <= old_view.tasks.len(),
                evf == (|h: TaskHandleView| state_changed(h.task.id, h.task.state, UploadState::Cancelled)),
                events@ == old_events + old_view.tasks.take(i as int).map_values(evf),
                actions_view(actions@) == actions_view(old_actions) + cancel_all_actions(old_view.tasks.take(i as int)),
            decreases self.tasks.len() - i,
        {
            let ghost h = old_view.tasks[i as int];
            let ghost a0 = actions@;
            if self.tasks[i].has_token {
                actions.push(WorkerAction::CancelToken(self.tasks[i].task.id));
            }
            match &self.tasks[i].task.upload_url {
                Some(url) => {
                    actions.push(WorkerAction::DeleteOnServer(url.clone()));
                },
                None => {},
            }
            events.push(
                UploadEvent::StateChanged {
                    upload_id: self.tasks[i].task.id,
                    old_state: self.tasks[i].task.state,
                    new_state: UploadState::Cancelled,
                },
            );
            proof {
                assert(old_view.tasks.take(i as int + 1) =~= old_view.tasks.take(i as int).push(h));
                assert(old_view.tasks.take(i as int + 1).drop_last() =~= old_view.tasks.take(i as int));
                assert(actions_view(actions@) =~= actions_view(a0) + cancel_actions(h));
                assert(old_view.tasks.take(i as int + 1).map_values(evf) =~= old_view.tasks.take(i as int).map_values(evf).push(evf(h)));
            }
            i = i + 1;
        }
        proof {
            assert(old_view.tasks.take(i as int) =~= old_view.tasks);
        }
        let ghost keep = not_token_holder_in(old_view.tasks);
        let mut kept: Vec<UploadId> = Vec::new();
        let mut j: usize = 0;
        proof {
            reveal(Seq::filter);
            assert(old_view.queued.take(0).filter(keep) =~= Seq::<UploadId>::empty());
        }
        while j < self.queued_tasks.len()
            invariant
                self@ == old_view,
                old_view.wf(),
                j <= old_view.queued.len(),
                keep == not_token_holder_in(old_view.tasks),
                kept@ == old_view.queued.take(j as int).filter(keep),
            decreases self.queued_tasks.len() - j,
        {
            let id = self.queued_tasks[j];
            let holder = match self.find(id) {
                Some(t) => self.tasks[t].has_token,
                None => false,
            };
            proof {
                assert(old_view.queued.take(j as int + 1) =~= old_view.queued.take(j as int).push(id));
                old_view.queued.take(j as int).lemma_filter_push(id, keep);
            }
            if !holder {
                kept.push(id);
            }
            j = j + 1;
        }
        proof {
            assert(old_view.queued.take(j as int) =~= old_view.queued);
            lemma_filter_distinct(old_view.queued, keep);
        }
        self.queued_tasks = kept;
        self.active_uploads = Vec::new();
        self.tasks = Vec::new();
        proof {
            assert(self@.tasks =~= Seq::<TaskHandleView>::empty());
            assert(self@.active =~= Seq::<UploadId>::empty());
            let pre = actions_view(old_actions);
            let all = cancel_all_actions(old_view.tasks);
            assert forall|i: int|
                0 <= i < old_view.tasks.len() && (#[trigger] old_view.tasks[i]).task.upload_url is Some
                implies actions_view(actions@).contains(
                ActionView::DeleteOnServer(old_view.tasks[i].task.upload_url.unwrap()),
            ) by {
                lemma_cancel_all_covers(old_view.tasks, i);
                let k = choose|k: int| 0 <= k < all.len() && all[k] == ActionView::DeleteOnServer(
                    old_view.tasks[i].task.upload_url.unwrap(),
                );
                assert((pre + all)[pre.len() + k] == all[k]);
            }
            assert forall|i: int|
                0 <= i < old_view.tasks.len() && (#[trigger] old_view.tasks[i]).has_token
                implies actions_view(actions@).contains(ActionView::CancelToken(old_view.tasks[i].task.id)) by {
                lemma_cancel_all_covers(old_view.tasks, i);
                let k = choose|k: int| 0 <= k < all.len() && all[k] == ActionView::CancelToken(
                    old_view.tasks[i].task.id,
                );
                assert((pre + all)[pre.len() + k] == all[k]);
            }
        }
    }

    /// Forgets the completed and the failed tasks; returns how many it forgot.
    pub fn clean(&mut self) -> (r: usize)
        requires
            old(self)@.wf(),
        ensures
            final(self)@.wf(),
            final(self)@ == (WorkerView {
                tasks: old(self)@.tasks.filter(kept_after_clean()),
                ..old(self)@
            }),
            r == old(self)@.tasks.len() - final(self)@.tasks.len(),
    {
        let ghost old_view = self@;
        let ghost p = kept_after_clean();
        let mut rest: Vec<TaskHandle> = Vec::new();
        std::mem::swap(&mut rest, &mut self.tasks);
        let mut kept: Vec<TaskHandle> = Vec::new();
        let mut removed: usize = 0;
        let ghost mut n: int = 0;
        proof {
            reveal(Seq::filter);
            assert(old_view.tasks.take(0).filter(p) =~= Seq::<TaskHandleView>::empty());
            assert(handles_view(rest@).len() == rest@.len());
            assert(rest@.len() == rest.len());
            assert(old_view.tasks.skip(0) =~= old_view.tasks);
        }
        while rest.len() > 0
            invariant
                0 <= n <= old_view.tasks.len(),
                old_view.tasks.len() <= usize::MAX,
                rest@.len() == old_view.tasks.len() - n,
                handles_view(rest@) == old_view.tasks.skip(n),
                handles_view(kept@) == old_view.tasks.take(n).filter(p),
                removed == n - kept@.len(),
                p == kept_after_clean(),
            decreases rest.len(),
        {
            let ghost rv = rest@;
            proof {
                assert(handles_view(rv)[0] == rv[0]@);
                assert(old_view.tasks.skip(n)[0] == old_view.tasks[n]);
            }
            let h = rest.remove(0);
            proof {
                assert(h@ == old_view.tasks[n]);
                assert(old_view.tasks.take(n + 1) =~= old_view.tasks.take(n).push(old_view.tasks[n]));
                old_view.tasks.take(n).lemma_filter_push(old_view.tasks[n], p);
            }
            let keep = h.task.state != UploadState::Completed && h.task.state != UploadState::Failed;
            let ghost kept_before = handles_view(kept@);
            if keep {
                kept.push(h);
                assert(handles_view(kept@) =~= kept_before.push(old_view.tasks[n]));
            } else {
                removed = removed + 1;
            }
            proof {
                assert(rest@ =~= rv.subrange(1, rv.len() as int));
                assert forall|j: int| 0 <= j < rest@.len() implies #[trigger] handles_view(rest@)[j] == old_view.tasks.skip(n + 1)[j] by {
                    assert(handles_view(rv)[j + 1] == rv[j + 1]@);
                    assert(old_view.tasks.skip(n)[j + 1] == old_view.tasks[n + 1 + j]);
                }
                assert(handles_view(rest@) =~= old_view.tasks.skip(n + 1));
                n = n + 1;
            }
        }
        proof {
            assert(old_view.tasks.take(n) =~= old_view.tasks);
            old_view.tasks.lemma_filter_len(p);
        }
        self.tasks = kept;
        proof {
            lemma_wf_clean(old_view);
        }
        removed
    }
}

} // verus!

verus! {

pub open spec fn is_uploading() -> spec_fn(TaskHandleView) -> bool {
    |h: TaskHandleView| h.task.state == UploadState::Uploading
}

pub open spec fn is_done() -> spec_fn(TaskHandleView) -> bool {
    |h: TaskHandleView| h.task.state == UploadState::Completed || h.task.state == UploadState::Failed
}

proof fn lemma_filter_split(ts: Seq<TaskHandleView>)
    ensures
        ts.filter(kept_after_clean()).len() + ts.filter(is_done()).len() == ts.len(),
    decreases ts.len(),
{
    reveal(Seq::filter);
    if ts.len() > 0 {
        lemma_filter_split(ts.drop_last());
    }
}

/// Law: no more uploads run at once than the configured limit. In every state
/// the worker can be in, the tasks in the `Uploading` state number at most
/// `concurrent`.
pub proof fn law_running_within_limit(w: WorkerView)
    requires
        w.wf(),
    ensures
        w.tasks.filter(is_uploading()).len() <= w.config.concurrent,
{
    let p = is_uploading();
    let f = w.tasks.filter(p);
    lemma_filter_keeps_tasks(w.tasks, p);
    let ids = f.map_values(|h: TaskHandleView| h.task.id);
    assert(ids.no_duplicates()) by {
        assert forall|a: int, b: int| 0 <= a < ids.len() && 0 <= b < ids.len() && a != b implies ids[a] != ids[b] by {
            assert(f[a].task.id != f[b].task.id);
        }
    }
    assert(w.active.no_duplicates());
    ids.unique_seq_to_set();
    w.active.unique_seq_to_set();
    assert(ids.to_set().subset_of(w.active.to_set())) by {
        assert forall|x: UploadId| ids.to_set().contains(x) implies w.active.to_set().contains(x) by {
            let a = choose|a: int| 0 <= a < ids.len() && ids[a] == x;
            w.tasks.lemma_filter_pred(p, a);
            assert(w.tasks.contains(f[a]));
            let t = choose|t: int| 0 <= t < w.tasks.len() && w.tasks[t] == f[a];
            assert(w.active.contains(w.tasks[t].task.id));
        }
    }
    vstd::set_lib::lemma_len_subset(ids.to_set(), w.active.to_set());
}

/// Law: pausing a waiting task and resuming it puts it back in the waiting
/// state, at the end of the queue, and changes nothing else.
pub proof fn law_pause_resume_waiting(w: WorkerView, id: UploadId)
    requires
        w.wf(),
        has_task(w.tasks, id),
        lookup(w.tasks, id).unwrap().task.state == UploadState::Queued,
    ensures
        spec_resume(spec_pause(w, id), id) == (WorkerView {
            queued: without(w.queued, id).push(id),
            ..w
        }),
{
    let i = task_index(w.tasks, id);
    let p = spec_pause(w, id);
    lemma_set_keeps_ids(w.tasks, i, with_state(w.tasks[i], UploadState::Paused));
    lemma_index_unique(p.tasks, i);
    assert(p.tasks.update(i, with_state(p.tasks[i], UploadState::Queued)) =~= w.tasks);
}

/// Law: pausing a running task and resuming it stops the upload and puts the
/// task back in the waiting state at the end of the queue.
pub proof fn law_pause_resume_running(w: WorkerView, id: UploadId)
    requires
        w.wf(),
        has_task(w.tasks, id),
        lookup(w.tasks, id).unwrap().task.state == UploadState::Uploading,
    ensures
        spec_resume(spec_pause(w, id), id) == (WorkerView {
            tasks: w.tasks.update(
                task_index(w.tasks, id),
                with_state(lookup(w.tasks, id).unwrap(), UploadState::Queued),
            ),
            queued: w.queued.push(id),
            active: without(w.active, id),
            ..w
        }),
{
    let i = task_index(w.tasks, id);
    let p = spec_pause(w, id);
    lemma_set_keeps_ids(w.tasks, i, with_state(w.tasks[i], UploadState::Paused));
    lemma_index_unique(p.tasks, i);
    assert(p.tasks.update(i, with_state(p.tasks[i], UploadState::Queued)) =~= w.tasks.update(
        i,
        with_state(w.tasks[i], UploadState::Queued),
    ));
}

/// Law: pausing twice is pausing once, and resuming twice is resuming once.
pub proof fn law_pause_resume_idempotent(w: WorkerView, id: UploadId)
    requires
        w.wf(),
    ensures
        spec_pause(spec_pause(w, id), id) == spec_pause(w, id),
        spec_resume(spec_resume(w, id), id) == spec_resume(w, id),
{
    if has_task(w.tasks, id) {
        let i = task_index(w.tasks, id);
        lemma_set_keeps_ids(w.tasks, i, with_state(w.tasks[i], UploadState::Paused));
        lemma_set_keeps_ids(w.tasks, i, with_state(w.tasks[i], UploadState::Queued));
        lemma_index_unique(w.tasks.update(i, with_state(w.tasks[i], UploadState::Paused)), i);
        lemma_index_unique(w.tasks.update(i, with_state(w.tasks[i], UploadState::Queued)), i);
    }
}

/// Law: a cancelled task is forgotten, and the other tasks stay, in order.
pub proof fn law_cancel_forgets(w: WorkerView, id: UploadId)
    requires
        w.wf(),
        has_task(w.tasks, id),
    ensures
        !has_task(spec_cancel(w, id).tasks, id),
        spec_cancel(w, id).tasks == w.tasks.remove(task_index(w.tasks, id)),
        spec_cancel(w, id).tasks.len() + 1 == w.tasks.len(),
{
    let i = task_index(w.tasks, id);
    let nts = w.tasks.remove(i);
    if has_task(nts, id) {
        let j = choose|j: int| 0 <= j < nts.len() && nts[j].task.id == id;
        if j < i {
            assert(w.tasks[j].task.id == id);
        } else {
            assert(w.tasks[j + 1].task.id == id);
        }
    }
}

/// Law: `clean` forgets exactly the completed and failed tasks: the count it
/// returns (the number of tasks it removed) is the number of such tasks, and
/// none is left.
pub proof fn law_clean_counts_finished(w: WorkerView)
    requires
        w.wf(),
    ensures
        w.tasks.len() - w.tasks.filter(kept_after_clean()).len() == w.tasks.filter(is_done()).len(),
        forall|i: int|
            0 <= i < w.tasks.filter(kept_after_clean()).len() ==> !is_done()(
                #[trigger] w.tasks.filter(kept_after_clean())[i],
            ),
{
    lemma_filter_split(w.tasks);
    assert forall|i: int| 0 <= i < w.tasks.filter(kept_after_clean()).len() implies !is_done()(
        #[trigger] w.tasks.filter(kept_after_clean())[i],
    ) by {
        w.tasks.lemma_filter_pred(kept_after_clean(), i);
    }
}

/// Law: after `cancel_all` no task is left and nothing runs; after `pause_all`
/// nothing runs and no task waits.
pub proof fn law_bulk_operations(w: WorkerView)
    requires
        w.wf(),
    ensures
        spec_cancel_all(w).tasks.len() == 0,
        spec_cancel_all(w).active.len() == 0,
        spec_pause_all(w).active.len() == 0,
        forall|i: int|
            0 <= i < spec_pause_all(w).tasks.len() ==> (#[trigger] spec_pause_all(w).tasks[i]).task.state
                != UploadState::Queued && spec_pause_all(w).tasks[i].task.state != UploadState::Uploading,
{
}

/// What a saved state holds: the record of each task, in order, as
/// `get_all_tasks` gives them.
pub open spec fn saved_tasks(w: WorkerView) -> Seq<UploadTaskView> {
    w.tasks.map_values(|h: TaskHandleView| h.task)
}

/// The identifiers of the saved tasks that wait again once restored, in order.
pub open spec fn requeued_ids(s: Seq<UploadTaskView>) -> Seq<UploadId>
    decreases s.len(),
{
    if s.len() == 0 {
        Seq::empty()
    } else {
        let r = requeued_ids(s.drop_last());
        if restored_handle(s.last()).task.state == UploadState::Queued {
            r.push(s.last().id)
        } else {
            r
        }
    }
}

proof fn lemma_requeued_from(s: Seq<UploadTaskView>, x: UploadId)
    requires
        requeued_ids(s).contains(x),
    ensures
        exists|i: int| 0 <= i < s.len() && s[i].id == x,
    decreases s.len(),
{
    let p = s.drop_last();
    if requeued_ids(p).contains(x) {
        lemma_requeued_from(p, x);
        let i = choose|i: int| 0 <= i < p.len() && p[i].id == x;
        assert(s[i].id == x);
    } else {
        assert(s[s.len() - 1].id == x);
    }
}

proof fn lemma_restore_all_fresh(base: WorkerView, s: Seq<UploadTaskView>)
    requires
        base.tasks.len() == 0,
        base.queued.len() == 0,
        forall|i: int, j: int| 0 <= i < s.len() && 0 <= j < s.len() && i != j ==> s[i].id != s[j].id,
    ensures
        restore_all(base, s).tasks == s.map_values(|t: UploadTaskView| restored_handle(t)),
        restore_all(base, s).queued == requeued_ids(s),
        restore_all(base, s).active == base.active,
        restore_all(base, s).config == base.config,
    decreases s.len(),
{
    if s.len() > 0 {
        let p = s.drop_last();
        let t = s.last();
        lemma_restore_all_fresh(base, p);
        let w = restore_all(base, p);
        assert(!has_task(w.tasks, t.id)) by {
            if has_task(w.tasks, t.id) {
                let i = choose|i: int| 0 <= i < w.tasks.len() && w.tasks[i].task.id == t.id;
                assert(w.tasks[i].task.id == p[i].id);
                assert(s[i].id == s[s.len() - 1].id);
            }
        }
        assert(!w.queued.contains(t.id)) by {
            if w.queued.contains(t.id) {
                let k = choose|k: int| 0 <= k < w.queued.len() && w.queued[k] == t.id;
                assert(requeued_ids(p).contains(t.id));
                lemma_requeued_from(p, t.id);
                let i = choose|i: int| 0 <= i < p.len() && p[i].id == t.id;
                assert(s[i].id == s[s.len() - 1].id);
            }
        }
        lemma_without_absent(w.queued, t.id);
        assert(s.map_values(|t: UploadTaskView| restored_handle(t)) =~= p.map_values(
            |t: UploadTaskView| restored_handle(t),
        ).push(restored_handle(t)));
    } else {
        assert(s.map_values(|t: UploadTaskView| restored_handle(t)) =~= Seq::<TaskHandleView>::empty());
    }
}

/// Law: restoring a saved state into an empty worker gives back every saved task,
/// in order: each keeps its record, except that an upload that was running
/// waits again; the waiting ones are queued in the order they were saved, and
/// nothing runs.
pub proof fn law_restore_gives_back_saved(w: WorkerView, base: WorkerView)
    requires
        w.wf(),
        base.tasks.len() == 0,
        base.queued.len() == 0,
        base.active.len() == 0,
    ensures
        restore_all(base, saved_tasks(w)).tasks.len() == w.tasks.len(),
        forall|i: int|
            0 <= i < w.tasks.len() ==> (#[trigger] restore_all(base, saved_tasks(w)).tasks[i]).task
                == (UploadTaskView {
                state: if w.tasks[i].task.state == UploadState::Uploading {
                    UploadState::Queued
                } else {
                    w.tasks[i].task.state
                },
                ..w.tasks[i].task
            }),
        restore_all(base, saved_tasks(w)).queued == requeued_ids(saved_tasks(w)),
        restore_all(base, saved_tasks(w)).active.len() == 0,
{
    let s = saved_tasks(w);
    assert forall|i: int, j: int| 0 <= i < s.len() && 0 <= j < s.len() && i != j implies s[i].id != s[j].id by {
        assert(s[i] == w.tasks[i].task && s[j] == w.tasks[j].task);
    }
    lemma_restore_all_fresh(base, s);
}

/// Law: cancelling a task cancels its running upload where it holds a token
/// and, whatever the task's state, asks the server to delete its upload where
/// it has a URL; cancelling all tasks does so for each of them.
pub proof fn law_cancel_deletes_on_server(ts: Seq<TaskHandleView>, i: int)
    requires
        0 <= i < ts.len(),
    ensures
        ts[i].task.upload_url matches Some(u) ==> cancel_actions(ts[i]).last() == ActionView::DeleteOnServer(u),
        ts[i].has_token ==> cancel_actions(ts[i])[0] == ActionView::CancelToken(ts[i].task.id),
        ts[i].task.upload_url matches Some(u) ==> cancel_all_actions(ts).contains(
            ActionView::DeleteOnServer(u),
        ),
        ts[i].has_token ==> cancel_all_actions(ts).contains(ActionView::CancelToken(ts[i].task.id)),
{
    lemma_cancel_all_covers(ts, i);
}

} // verus!

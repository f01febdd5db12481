//! How the task queue reacts to what its executing transfers report, and which
//! transfer it starts next.
use vstd::prelude::*;
use super::store::{ids_of, position, spec_update_state, with_failure, StoreView, TaskStore};
use super::types::{TransferId, TransferState};
use crate::idlist::without;

verus! {

/// What an executing transfer reports, with the state it reports from.
pub enum TaskExecuteInnerEvent {
    Started { id: TransferId, from: TransferState },
    Completed { id: TransferId, from: TransferState },
    Failed { id: TransferId, reason: String, from: TransferState },
}

/// A change of state to announce.
pub struct StateChange {
    pub id: TransferId,
    pub from: TransferState,
    pub to: TransferState,
    pub reason: Option<String>,
}

/// Applies a report to the store and returns the change to announce: a started
/// transfer is transferring, a completed one is completed, a failed one is
/// failed with its reason.
pub fn handle_event(store: &mut TaskStore, event: TaskExecuteInnerEvent, now: u64) -> (r: StateChange)
    requires
        old(store)@.wf(),
    ensures
        final(store)@.wf(),
        match event {
            TaskExecuteInnerEvent::Started { id, from } => {
                &&& final(store)@ == spec_update_state(old(store)@, id, TransferState::Transferring, now)
                &&& r.id == id && r.from == from && r.to == TransferState::Transferring && r.reason is None
            },
            TaskExecuteInnerEvent::Completed { id, from } => {
                &&& final(store)@ == (StoreView {
                    running: without(old(store)@.running, id),
                    completed: old(store)@.completed.push(id),
                    ..spec_update_state(old(store)@, id, TransferState::Completed, now)
                })
                &&& r.id == id && r.from == from && r.to == TransferState::Completed && r.reason is None
            },
            TaskExecuteInnerEvent::Failed { id, reason, from } => {
                &&& final(store)@ == (StoreView {
                    running: without(old(store)@.running, id),
                    failed: with_failure(old(store)@.failed, id, reason@),
                    ..spec_update_state(old(store)@, id, TransferState::Failed, now)
                })
                &&& r.id == id && r.from == from && r.to == TransferState::Failed && r.reason
                    == Some(reason)
            },
        },
{
    match event {
        TaskExecuteInnerEvent::Started { id, from } => {
            store.update_state(id, TransferState::Transferring, now);
            StateChange { id, from, to: TransferState::Transferring, reason: None }
        },
        TaskExecuteInnerEvent::Completed { id, from } => {
            store.mark_completed(id, now);
            StateChange { id, from, to: TransferState::Completed, reason: None }
        },
        TaskExecuteInnerEvent::Failed { id, reason, from } => {
            let copy = reason.clone();
            store.mark_failed(id, reason, now);
            StateChange { id, from, to: TransferState::Failed, reason: Some(copy) }
        },
    }
}

/// When a permit is free, takes the next pending identifier; returns it when
/// it names a task, which the runtime then executes and marks running.
pub fn try_execute_next(store: &mut TaskStore, available_permits: usize) -> (r: Option<TransferId>)
    requires
        old(store)@.wf(),
    ensures
        final(store)@.wf(),
        available_permits == 0 || old(store)@.pending.len() == 0 ==> r is None && final(store)@ == old(
            store,
        )@,
        available_permits > 0 && old(store)@.pending.len() > 0 ==> {
            let id = old(store)@.pending[0];
            &&& final(store)@ == (StoreView { pending: old(store)@.pending.drop_first(), ..old(store)@ })
            &&& r == (if position(ids_of(old(store)@.tasks), id) >= 0 {
                Some(id)
            } else {
                None
            })
        },
{
    if available_permits == 0 {
        return None;
    }
    match store.get_next_pending() {
        Some(id) => {
            if store.get_task(id).is_some() {
                Some(id)
            } else {
                None
            }
        },
        None => None,
    }
}

/// A step of a transfer's execution and how it went.
pub enum ExecutionStep {
    /// Waiting for a permit ended: one was acquired, or the semaphore closed.
    PermitAcquired(bool),
    /// The protocol was initialised, or failed with this message.
    Initialized(Result<(), String>),
    /// The protocol ran, or failed with this message.
    Executed(Result<(), String>),
}

/// What an executing transfer reports after a step, and whether it goes on:
/// it starts once it holds a permit, fails where the permit, the
/// initialisation or the run fails, and completes once the run succeeds.
pub fn report_after(id: TransferId, step: ExecutionStep) -> (r: (Option<TaskExecuteInnerEvent>, bool))
    ensures
        match step {
            ExecutionStep::PermitAcquired(true) => r == (
                Some(TaskExecuteInnerEvent::Started { id, from: TransferState::Queued }),
                true,
            ),
            ExecutionStep::PermitAcquired(false) => !r.1 && (r.0 matches Some(
                TaskExecuteInnerEvent::Failed { id: i, reason, from },
            ) && i == id && reason@ == "Failed to acquire semaphore"@ && from == TransferState::Queued),
            ExecutionStep::Initialized(Ok(_)) => r == (None::<TaskExecuteInnerEvent>, true),
            ExecutionStep::Initialized(Err(m)) => r == (
                Some(TaskExecuteInnerEvent::Failed { id, reason: m, from: TransferState::Transferring }),
                false,
            ),
            ExecutionStep::Executed(Ok(_)) => r == (
                Some(TaskExecuteInnerEvent::Completed { id, from: TransferState::Transferring }),
                false,
            ),
            ExecutionStep::Executed(Err(m)) => r == (
                Some(TaskExecuteInnerEvent::Failed { id, reason: m, from: TransferState::Transferring }),
                false,
            ),
        },
{
    match step {
        ExecutionStep::PermitAcquired(true) => (
            Some(TaskExecuteInnerEvent::Started { id, from: TransferState::Queued }),
            true,
        ),
        ExecutionStep::PermitAcquired(false) => (
            Some(
                TaskExecuteInnerEvent::Failed {
                    id,
                    reason: String::from_str("Failed to acquire semaphore"),
                    from: TransferState::Queued,
                },
            ),
            false,
        ),
        ExecutionStep::Initialized(Ok(_)) => (None, true),
        ExecutionStep::Initialized(Err(reason)) => (
            Some(TaskExecuteInnerEvent::Failed { id, reason, from: TransferState::Transferring }),
            false,
        ),
        ExecutionStep::Executed(Ok(_)) => (
            Some(TaskExecuteInnerEvent::Completed { id, from: TransferState::Transferring }),
            false,
        ),
        ExecutionStep::Executed(Err(reason)) => (
            Some(TaskExecuteInnerEvent::Failed { id, reason, from: TransferState::Transferring }),
            false,
        ),
    }
}

} // verus!

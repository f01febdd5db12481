//! The record of one transfer and the moves its state may make.
use vstd::prelude::*;
use super::types::{spec_can_to, TransferId, TransferState};

verus! {

/// One transfer as the task store keeps it. Times are milliseconds of a
/// monotonic clock, as the runtime reads them.
#[derive(Clone, Copy, Debug, PartialEq, Eq, Structural)]
pub struct TransferTask {
    pub id: TransferId,
    pub state: TransferState,
    pub created_at: u64,
    pub started_at: Option<u64>,
    pub completed_at: Option<u64>,
}

impl TransferTask {
    /// A new queued transfer created at `now`.
    pub fn new(id: TransferId, now: u64) -> (r: TransferTask)
        ensures
            r == (TransferTask {
                id,
                state: TransferState::Queued,
                created_at: now,
                started_at: None,
                completed_at: None,
            }),
    {
        TransferTask {
            id,
            state: TransferState::Queued,
            created_at: now,
            started_at: None,
            completed_at: None,
        }
    }

    /// Whether a transfer may move from `from` to `to`: the state rule of
    /// `TransferState::can_to`.
    pub fn is_valid_transition(from: TransferState, to: TransferState) -> (r: bool)
        ensures
            r == spec_can_to(from, to),
            from == TransferState::Queued ==> r,
            from == TransferState::Transferring ==> r,
            from == TransferState::Preparing ==> (r <==> to != TransferState::Queued),
            from == TransferState::Paused ==> (r <==> to == TransferState::Transferring),
            from == TransferState::Failed ==> (r <==> to == TransferState::Queued),
            from == TransferState::Completed ==> !r,
            from == TransferState::Cancelled ==> !r,
    {
        from.can_to(&to)
    }
}

/// Law: completed and cancelled transfers are final: they move nowhere; and a
/// paused transfer may only run again, a failed one only be queued again.
pub proof fn law_terminal_states(s: TransferState)
    ensures
        !spec_can_to(TransferState::Completed, s),
        !spec_can_to(TransferState::Cancelled, s),
        spec_can_to(TransferState::Paused, s) <==> s == TransferState::Transferring,
        spec_can_to(TransferState::Failed, s) <==> s == TransferState::Queued,
{
}

/// Law: a queued or a transferring transfer may move to every state (a
/// running transfer may complete, fail, pause or be cancelled), and a preparing
/// one to every state but back to the queue.
pub proof fn law_live_states_move_anywhere(s: TransferState)
    ensures
        spec_can_to(TransferState::Queued, s),
        spec_can_to(TransferState::Transferring, s),
        spec_can_to(TransferState::Preparing, s) <==> s != TransferState::Queued,
        spec_can_to(TransferState::Transferring, TransferState::Failed),
        spec_can_to(TransferState::Transferring, TransferState::Completed),
{
}

} // verus!

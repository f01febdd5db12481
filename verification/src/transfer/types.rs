//! Identifiers, settings, context and states of a transfer.
use vstd::prelude::*;
use crate::text::{hex_fixed, push_char, push_hex};
use crate::tus::types::{is_v4_uuid, random_uuid_bits};

verus! {

/// Identifies one transfer: the 128 bits of a random (version 4) UUID.
#[derive(Clone, Copy, Debug, PartialEq, Eq, Hash, Structural)]
pub struct TransferId(pub u128);

/// The hyphenated form of a UUID: its five fields in lowercase hexadecimal,
/// 8, 4, 4, 4 and 12 digits long, joined by hyphens.
pub open spec fn uuid_text(v: u128) -> Seq<char> {
    hex_fixed((v / 0x1_0000_0000_0000_0000_0000_0000) as nat, 8) + "-"@ + hex_fixed(
        ((v / 0x1_0000_0000_0000_0000_0000) % 0x1_0000) as nat,
        4,
    ) + "-"@ + hex_fixed(((v / 0x1_0000_0000_0000_0000) % 0x1_0000) as nat, 4) + "-"@ + hex_fixed(
        ((v / 0x1_0000_0000_0000) % 0x1_0000) as nat,
        4,
    ) + "-"@ + hex_fixed((v % 0x1_0000_0000_0000) as nat, 12)
}

impl TransferId {
    /// A new random identifier: a version 4 UUID.
    pub fn new() -> (r: TransferId)
        ensures
            is_v4_uuid(r.0),
    {
        TransferId(random_uuid_bits())
    }

    /// The identifier as a UUID is displayed.
    pub fn to_string(&self) -> (r: String)
        ensures
            r@ == uuid_text(self.0),
    {
        let v = self.0;
        let mut s = String::new();
        push_hex(&mut s, v / 0x1_0000_0000_0000_0000_0000_0000, 8);
        push_char(&mut s, '-');
        push_hex(&mut s, (v / 0x1_0000_0000_0000_0000_0000) % 0x1_0000, 4);
        push_char(&mut s, '-');
        push_hex(&mut s, (v / 0x1_0000_0000_0000_0000) % 0x1_0000, 4);
        push_char(&mut s, '-');
        push_hex(&mut s, (v / 0x1_0000_0000_0000) % 0x1_0000, 4);
        push_char(&mut s, '-');
        push_hex(&mut s, v % 0x1_0000_0000_0000, 12);
        proof {
            reveal_strlit("-");
            assert(s@ =~= uuid_text(v));
        }
        s
    }
}

/// Settings of a transfer and of the transfer manager.
#[derive(Clone, Debug)]
pub struct TransferConfig {
    /// The file or resource to transfer.
    pub source: String,
    /// Extra request headers, name and value.
    pub headers: Vec<(String, String)>,
    /// How many transfers may run at the same time.
    pub max_concurrent: usize,
    /// The read buffer, in bytes.
    pub buffer_size: usize,
    /// How often progress is reported, in milliseconds.
    pub progress_interval_ms: u64,
    /// Whether progress is reported in batches.
    pub batch_progress: bool,
}

impl Default for TransferConfig {
    fn default() -> (r: TransferConfig)
        ensures
            r.source@.len() == 0,
            r.headers@.len() == 0,
            r.max_concurrent == 1,
            r.buffer_size == 2 * 1024 * 1024,
            r.progress_interval_ms == 1000,
            !r.batch_progress,
    {
        TransferConfig {
            source: String::new(),
            headers: Vec::new(),
            max_concurrent: 1,
            buffer_size: 2 * 1024 * 1024,
            progress_interval_ms: 1000,
            batch_progress: false,
        }
    }
}

/// What a transfer knows while it runs.
#[derive(Clone, Debug)]
pub struct TransferContext {
    pub destination: String,
    pub source: String,
    pub total_bytes: u64,
    pub transferred_bytes: u64,
}

impl TransferContext {
    /// The context of a transfer from `source` that has not started.
    pub fn new(source: String) -> (r: TransferContext)
        ensures
            r.source == source,
            r.destination@.len() == 0,
            r.total_bytes == 0,
            r.transferred_bytes == 0,
    {
        TransferContext { source, destination: String::new(), total_bytes: 0, transferred_bytes: 0 }
    }
}

/// The lifecycle state of a transfer.
#[derive(Clone, Copy, Debug, PartialEq, Eq, Hash, Structural)]
pub enum TransferState {
    Queued,
    Preparing,
    Transferring,
    Paused,
    Completed,
    Failed,
    Cancelled,
}

/// `can_to` as a relation: a queued or transferring transfer may go anywhere,
/// a preparing one anywhere but back to the queue, a paused one may run again,
/// a failed one may be queued again, and completed and cancelled transfers do
/// not move.
pub open spec fn spec_can_to(from: TransferState, to: TransferState) -> bool {
    match from {
        TransferState::Queued => true,
        TransferState::Preparing => to != TransferState::Queued,
        TransferState::Transferring => true,
        TransferState::Paused => to == TransferState::Transferring,
        TransferState::Failed => to == TransferState::Queued,
        _ => false,
    }
}

impl TransferState {
    pub fn can_to(&self, state: &TransferState) -> (r: bool)
        ensures
            r == spec_can_to(*self, *state),
            *self == TransferState::Queued ==> r,
            *self == TransferState::Transferring ==> r,
            *self == TransferState::Preparing ==> (r <==> *state != TransferState::Queued),
            *self == TransferState::Paused ==> (r <==> *state == TransferState::Transferring),
            *self == TransferState::Failed ==> (r <==> *state == TransferState::Queued),
            *self == TransferState::Completed ==> !r,
            *self == TransferState::Cancelled ==> !r,
    {
        match (self, state) {
            (TransferState::Queued, _) => true,
            (TransferState::Preparing, TransferState::Queued) => false,
            (TransferState::Preparing, _) => true,
            (TransferState::Transferring, _) => true,
            (TransferState::Paused, TransferState::Transferring) => true,
            (TransferState::Failed, TransferState::Queued) => true,
            _ => false,
        }
    }
}

/// How urgent a transfer is; `HIGH` before `NORMAL` before `LOW`.
#[allow(non_camel_case_types)]
#[derive(Clone, Copy, Debug, PartialEq, Eq, PartialOrd, Ord, Hash, Structural)]
pub enum Priority {
    LOW,
    NORMAL,
    HIGH,
}

/// The rank of a priority: the larger, the more urgent.
pub open spec fn priority_rank(p: Priority) -> nat {
    match p {
        Priority::LOW => 0,
        Priority::NORMAL => 1,
        Priority::HIGH => 2,
    }
}

impl Default for Priority {
    /// The default priority is `NORMAL`.
    fn default() -> (r: Priority)
        ensures
            r == Priority::NORMAL,
    {
        Priority::NORMAL
    }
}

impl Priority {
    /// Whether `self` is more urgent than `other`.
    pub fn is_higher_than(&self, other: &Priority) -> (r: bool)
        ensures
            r == (priority_rank(*self) > priority_rank(*other)),
    {
        let a: u8 = match self {
            Priority::LOW => 0,
            Priority::NORMAL => 1,
            Priority::HIGH => 2,
        };
        let b: u8 = match other {
            Priority::LOW => 0,
            Priority::NORMAL => 1,
            Priority::HIGH => 2,
        };
        a > b
    }
}

} // verus!

//! Identifiers, states, configuration and events of the TUS upload manager.
use vstd::prelude::*;

verus! {

/// Identifies one upload task: the 128 bits of a random (version 4) UUID.
#[derive(Clone, Copy, Debug, PartialEq, Eq, Hash, Structural)]
pub struct UploadId(pub u128);

/// The bits of a version 4, RFC 4122 variant UUID: the version nibble is 4 and
/// the two top variant bits are `10`.
pub open spec fn is_v4_uuid(v: u128) -> bool {
    (v >> 76u128) & 0xfu128 == 4 && (v >> 62u128) & 0x3u128 == 2
}

/// A fresh random UUID as 128 bits, from `uuid::Uuid::new_v4`. Its value
/// comes from the random number generator; what is stated is what `new_v4`
/// always sets: the version (4) and the variant (RFC 4122) bits.
#[verifier::external_body]
pub(crate) fn random_uuid_bits() -> (r: u128)
    ensures
        is_v4_uuid(r),
{
    uuid::Uuid::new_v4().as_u128()
}

impl UploadId {
    /// A new random identifier: a version 4 UUID.
    pub fn new() -> (r: UploadId)
        ensures
            is_v4_uuid(r.0),
    {
        UploadId(random_uuid_bits())
    }
}

/// Where an upload task is in its life.
#[derive(Clone, Copy, Debug, PartialEq, Eq, Hash, Structural)]
pub enum UploadState {
    /// Waiting in the queue.
    Queued,
    /// Creating the upload session on the server.
    Preparing,
    /// Sending bytes.
    Uploading,
    /// Stopped by the user; may be resumed.
    Paused,
    /// All bytes are on the server.
    Completed,
    /// Stopped by an error.
    Failed,
    /// Removed by the user.
    Cancelled,
}

/// Settings of the upload manager.
#[derive(Clone, Debug)]
pub struct UploadConfig {
    /// How many uploads may run at the same time.
    pub concurrent: usize,
    /// How often batched progress is reported, in milliseconds.
    pub progress_interval_ms: u64,
    /// Whether progress is aggregated and reported in batches.
    pub batch_progress: bool,
    /// Where the task list is saved, if anywhere.
    pub state_file: Option<String>,
    /// The read buffer of the file stream, in bytes.
    pub chunk_size: usize,
    /// Whether the task list is restored at start and saved after each step.
    pub auto_save_state: bool,
}

impl Default for UploadConfig {
    fn default() -> (r: UploadConfig)
        ensures
            r.concurrent == 3,
            r.progress_interval_ms == 1000,
            r.batch_progress,
            r.state_file is None,
            r.chunk_size == 2 * 1024 * 1024,
            !r.auto_save_state,
    {
        UploadConfig {
            concurrent: 3,
            progress_interval_ms: 1000,
            batch_progress: true,
            state_file: None,
            chunk_size: 2 * 1024 * 1024,
            auto_save_state: false,
        }
    }
}

/// What the upload manager reports. Progress reports, which carry rates,
/// are added by the runtime around the library.
#[derive(Clone, Debug, PartialEq, Eq)]
pub enum UploadEvent {
    StateChanged { upload_id: UploadId, old_state: UploadState, new_state: UploadState },
    Failed { upload_id: UploadId, error: String },
    Completed { upload_id: UploadId, upload_url: String },
}

/// Settings of the TUS protocol of the task builder: where to create uploads
/// and extra headers for every request.
#[derive(Clone, Debug)]
pub struct TusConfig {
    pub endpoint: String,
    pub headers: Vec<(String, String)>,
}

impl Default for TusConfig {
    fn default() -> (r: TusConfig)
        ensures
            r.endpoint@.len() == 0,
            r.headers@.len() == 0,
    {
        TusConfig { endpoint: String::new(), headers: Vec::new() }
    }
}

/// Options of the protocol.
#[derive(Clone, Debug)]
pub struct TusProtocolOptions {
    /// Metadata of the upload, name and value.
    pub metadata: Vec<(String, String)>,
    /// Whether the local file is removed once the upload is done.
    pub delete_on_termination: bool,
    /// When the upload expires on the server, in seconds.
    pub upload_expires_in: Option<u64>,
}

} // verus!

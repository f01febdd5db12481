//! Counting the bytes that a file stream hands to the HTTP client, for the
//! progress aggregator.
use vstd::prelude::*;
use super::types::UploadId;

verus! {

/// The bytes of one upload so far, counted from the offset the server held.
pub struct ProgressCounter {
    pub upload_id: UploadId,
    pub bytes_uploaded: u64,
    pub initial_offset: u64,
}

impl ProgressCounter {
    /// A counter starting at `initial_offset`, and the position to report at
    /// once, where the server held anything.
    pub fn new(upload_id: UploadId, initial_offset: u64) -> (r: (ProgressCounter, Option<u64>))
        ensures
            r.0.upload_id == upload_id,
            r.0.bytes_uploaded == initial_offset,
            r.0.initial_offset == initial_offset,
            r.1 == if initial_offset > 0 {
                Some(initial_offset)
            } else {
                None
            },
    {
        let report = if initial_offset > 0 { Some(initial_offset) } else { None };
        (ProgressCounter { upload_id, bytes_uploaded: initial_offset, initial_offset }, report)
    }

    /// A chunk of `len` bytes went out: a non-empty one moves the count and
    /// the new count is reported.
    pub fn on_chunk(&mut self, len: u64) -> (r: Option<u64>)
        requires
            old(self).bytes_uploaded + len <= u64::MAX,
        ensures
            final(self).upload_id == old(self).upload_id,
            final(self).initial_offset == old(self).initial_offset,
            final(self).bytes_uploaded == old(self).bytes_uploaded + len,
            len > 0 ==> r == Some(final(self).bytes_uploaded),
            len == 0 ==> r is None,
    {
        if len > 0 {
            self.bytes_uploaded = self.bytes_uploaded + len;
            Some(self.bytes_uploaded)
        } else {
            None
        }
    }

    /// The stream ended or failed: the count so far is reported.
    pub fn on_finish(&self) -> (r: u64)
        ensures
            r == self.bytes_uploaded,
    {
        self.bytes_uploaded
    }
}

} // verus!

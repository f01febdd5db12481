//! The streaming download protocol and its builder; the protocol carries no
//! state of its own yet.
use vstd::prelude::*;
use crate::transfer::types::{TransferConfig, TransferContext};

verus! {

/// The streaming download protocol.
pub struct StreamDownloadProtocol {}

impl StreamDownloadProtocol {
    pub fn new() -> (r: StreamDownloadProtocol) {
        StreamDownloadProtocol {}
    }
}

/// Builds the context and protocol of a streaming download.
pub struct StreamDownloadBuilder {
    pub config: TransferConfig,
}

impl StreamDownloadBuilder {
    /// A fresh context for the configured source.
    pub fn build_context(&self) -> (r: TransferContext)
        ensures
            r.source@ == self.config.source@,
            r.destination@.len() == 0,
            r.total_bytes == 0,
            r.transferred_bytes == 0,
    {
        TransferContext::new(self.config.source.clone())
    }

    pub fn build_protocol(&self) -> (r: StreamDownloadProtocol) {
        StreamDownloadProtocol::new()
    }
}

} // verus!

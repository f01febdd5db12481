//! Ready-made transfer settings.
use vstd::prelude::*;
use crate::transfer::types::TransferConfig;

verus! {

/// The default settings.
pub fn default_config() -> (r: TransferConfig)
    ensures
        r.source@.len() == 0,
        r.headers@.len() == 0,
        r.max_concurrent == 1,
        r.buffer_size == 2 * 1024 * 1024,
        r.progress_interval_ms == 1000,
        !r.batch_progress,
{
    TransferConfig::default()
}

/// Many transfers at once, large buffers, frequent batched progress.
pub fn performance_config() -> (r: TransferConfig)
    ensures
        r.source@.len() == 0,
        r.headers@.len() == 0,
        r.max_concurrent == 10,
        r.buffer_size == 16 * 1024 * 1024,
        r.progress_interval_ms == 500,
        r.batch_progress,
{
    let base = TransferConfig::default();
    TransferConfig {
        max_concurrent: 10,
        buffer_size: 16 * 1024 * 1024,
        progress_interval_ms: 500,
        batch_progress: true,
        ..base
    }
}

/// Few transfers, small buffers, progress reported one by one.
pub fn low_resource_config() -> (r: TransferConfig)
    ensures
        r.source@.len() == 0,
        r.headers@.len() == 0,
        r.max_concurrent == 3,
        r.buffer_size == 2 * 1024 * 1024,
        r.progress_interval_ms == 1,
        !r.batch_progress,
{
    let base = TransferConfig::default();
    TransferConfig {
        max_concurrent: 3,
        buffer_size: 2 * 1024 * 1024,
        progress_interval_ms: 1,
        batch_progress: false,
        ..base
    }
}

} // verus!

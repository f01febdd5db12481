//! File transfers over the TUS resumable upload protocol: the upload manager's
//! state machine, the TUS requests and answers, scheduling, progress and retries.
pub mod text;
pub mod config;
pub mod transfer;
pub mod utils;
pub mod tus;
pub mod idlist;
pub mod http;
pub mod protocol;
pub mod presets;
pub mod builder;
pub mod uploaders;
pub mod progress;
pub mod keys;

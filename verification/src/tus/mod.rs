pub mod errors;
pub mod task;
pub mod types;
pub mod manager_worker;
pub mod commands;
pub mod exchange;
pub mod tus;
pub mod upload;
pub mod metadata;
pub mod client;
pub mod progress;
pub mod progress_aggregator;
pub mod worker;
pub mod progress_stream;

pub mod errors;
pub mod queue;
pub mod scheduler;
pub mod store;
pub mod task;
pub mod types;

pub mod format;
pub mod retry;
pub mod progress;

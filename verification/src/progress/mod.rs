pub mod progress;

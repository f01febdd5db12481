pub mod types;
pub mod upload;

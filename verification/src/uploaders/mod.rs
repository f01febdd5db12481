pub mod chunked;
pub mod simple;
